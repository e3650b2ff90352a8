use vstd::prelude::*;

use crate::error::CoreError;

verus! {

/// How a play request is read: a direct reference to a media page, or a
/// search term that needs the user's choice among candidates.
#[derive(Debug, Clone)]
pub enum QueryKind {
    Url(String),
    Search(String),
}

/// Whether `s` reads as a direct reference: it starts with a recognized URL
/// scheme or host prefix.
pub open spec fn is_direct_reference(s: Seq<char>) -> bool {
    "http://"@.is_prefix_of(s) || "https://"@.is_prefix_of(s) || "www."@.is_prefix_of(s)
}

/// The text of a query, whatever its kind.
pub open spec fn query_text_of(q: QueryKind) -> Seq<char> {
    match q {
        QueryKind::Url(s) => s@,
        QueryKind::Search(s) => s@,
    }
}

/// Whether `s` starts with `prefix`, character by character.
pub fn starts_with(s: &str, prefix: &str) -> (r: bool)
    ensures
        r == prefix@.is_prefix_of(s@),
{
    let n = prefix.unicode_len();
    let m = s.unicode_len();
    if n > m {
        return false;
    }
    let mut i: usize = 0;
    while i < n
        invariant
            n == prefix@.len(),
            m == s@.len(),
            n <= m,
            i <= n,
            forall|k: int| 0 <= k < i ==> prefix@[k] == s@[k],
        decreases n - i,
    {
        if prefix.get_char(i) != s.get_char(i) {
            assert(prefix@[i as int] != s@.subrange(0, n as int)[i as int]);
            return false;
        }
        i = i + 1;
    }
    assert(prefix@ =~= s@.subrange(0, n as int));
    true
}

/// Reads a play request. An empty one is refused with `InvalidQuery`; one
/// that starts with `http://`, `https://` or `www.` is a direct reference;
/// anything else is a search term.
pub fn classify(value: &str) -> (r: Result<QueryKind, CoreError>)
    ensures
        value@.len() == 0 <==> r is Err,
        r is Err ==> r == Err::<QueryKind, CoreError>(CoreError::InvalidQuery),
        r matches Ok(q) ==> {
            &&& query_text_of(q) == value@
            &&& (q is Url <==> is_direct_reference(value@))
        },
{
    if value.unicode_len() == 0 {
        return Err(CoreError::InvalidQuery);
    }
    let text = String::from_str(value);
    if starts_with(value, "http://") || starts_with(value, "https://") || starts_with(
        value,
        "www.",
    ) {
        Ok(QueryKind::Url(text))
    } else {
        Ok(QueryKind::Search(text))
    }
}

impl QueryKind {
    /// Whether the query is a direct reference.
    pub fn is_url(&self) -> (r: bool)
        ensures
            r == (self is Url),
    {
        match self {
            QueryKind::Url(_) => true,
            QueryKind::Search(_) => false,
        }
    }

    /// The text of the query, whatever its kind.
    pub fn into_text(self) -> (r: String)
        ensures
            r@ == query_text_of(self),
    {
        match self {
            QueryKind::Url(s) => s,
            QueryKind::Search(s) => s,
        }
    }
}

} // verus!
