use vstd::prelude::*;

use crate::error::CoreError;

verus! {

/// The value of one option of a slash command, as the platform resolved it.
#[derive(Debug)]
pub enum ResolvedValue {
    Integer(i64),
    String(String),
    Boolean(bool),
    SubCommand(Vec<ResolvedOption>),
    /// A kind of value that no command here reads.
    Unsupported,
}

/// One named option of a slash command.
#[derive(Debug)]
pub struct ResolvedOption {
    pub name: String,
    pub value: ResolvedValue,
}

/// The value of the first option of `opts` called `name`.
pub open spec fn lookup(opts: Seq<ResolvedOption>, name: Seq<char>) -> Option<ResolvedValue>
    decreases opts.len(),
{
    if opts.len() == 0 {
        None
    } else if opts[0].name@ == name {
        Some(opts[0].value)
    } else {
        lookup(opts.drop_first(), name)
    }
}

proof fn lemma_lookup_skip(opts: Seq<ResolvedOption>, name: Seq<char>, i: int)
    requires
        0 <= i < opts.len(),
        opts[i].name@ != name,
    ensures
        lookup(opts.subrange(i, opts.len() as int), name) == lookup(
            opts.subrange(i + 1, opts.len() as int),
            name,
        ),
{
    assert(opts.subrange(i, opts.len() as int).drop_first() =~= opts.subrange(
        i + 1,
        opts.len() as int,
    ));
}

/// The value of the first option called `name`, if any.
pub fn get_option<'r>(opts: &'r [ResolvedOption], name: &str) -> (r: Option<&'r ResolvedValue>)
    ensures
        r is None <==> lookup(opts@, name@) is None,
        r matches Some(v) ==> lookup(opts@, name@) == Some(*v),
{
    let key = String::from_str(name);
    let mut i: usize = 0;
    assert(opts@.subrange(0, opts@.len() as int) =~= opts@);
    while i < opts.len()
        invariant
            i <= opts@.len(),
            key@ == name@,
            lookup(opts@, name@) == lookup(opts@.subrange(i as int, opts@.len() as int), name@),
        decreases opts@.len() - i,
    {
        if opts[i].name == key {
            return Some(&opts[i].value);
        }
        proof {
            lemma_lookup_skip(opts@, name@, i as int);
        }
        i = i + 1;
    }
    None
}

/// The entries of a sub-command value.
pub open spec fn as_sub(v: Option<ResolvedValue>) -> Option<Seq<ResolvedOption>> {
    match v {
        Some(ResolvedValue::SubCommand(s)) => Some(s@),
        _ => None,
    }
}

/// The number of an integer value.
pub open spec fn as_int(v: Option<ResolvedValue>) -> Option<i64> {
    match v {
        Some(ResolvedValue::Integer(n)) => Some(n),
        _ => None,
    }
}

/// Whether `n` can stand as a queue index.
pub open spec fn fits_index(n: int) -> bool {
    0 <= n <= usize::MAX
}

/// The 0-based inclusive range that the options of a skip command ask for,
/// or `None` when a number given is out of bounds. `first` (with `count`,
/// one by default) takes the first entries; otherwise `position` (with `at`,
/// 1-based) takes one entry; otherwise `range` takes `start..=end` as given,
/// `start` 1 and `end` unbounded by default; with none of them the head goes.
pub open spec fn requested_range_of(opts: Seq<ResolvedOption>) -> Option<(int, int)> {
    let first = as_sub(lookup(opts, "first"@));
    let position = as_sub(lookup(opts, "position"@));
    let range = as_sub(lookup(opts, "range"@));
    if first is Some {
        let count: int = match as_int(lookup(first->0, "count"@)) {
            Some(n) => n as int,
            None => 1,
        };
        if 1 <= count && fits_index(count) {
            Some((0, count - 1))
        } else {
            None
        }
    } else if position is Some && as_int(lookup(position->0, "at"@)) is Some {
        let at = as_int(lookup(position->0, "at"@))->0 as int;
        if 1 <= at && fits_index(at) {
            Some((at - 1, at - 1))
        } else {
            None
        }
    } else if range is Some {
        let start: int = match as_int(lookup(range->0, "start"@)) {
            Some(n) => n as int,
            None => 1,
        };
        let end: int = match as_int(lookup(range->0, "end"@)) {
            Some(n) => n as int,
            None => usize::MAX as int,
        };
        if fits_index(start) && fits_index(end) {
            Some((start, end))
        } else {
            None
        }
    } else {
        Some((0, 0))
    }
}

pub open spec fn owned(v: Option<&ResolvedValue>) -> Option<ResolvedValue> {
    match v {
        Some(x) => Some(*x),
        None => None,
    }
}

fn sub_options(v: Option<&ResolvedValue>) -> (r: Option<&Vec<ResolvedOption>>)
    ensures
        r is None <==> as_sub(owned(v)) is None,
        r matches Some(s) ==> as_sub(owned(v)) == Some(s@),
{
    match v {
        Some(ResolvedValue::SubCommand(s)) => Some(s),
        _ => None,
    }
}

fn int_option(v: Option<&ResolvedValue>) -> (r: Option<i64>)
    ensures
        r == as_int(owned(v)),
{
    match v {
        Some(ResolvedValue::Integer(n)) => Some(*n),
        _ => None,
    }
}

fn to_index(n: i64) -> (r: Option<usize>)
    ensures
        r is Some <==> fits_index(n as int),
        r matches Some(i) ==> i == n,
{
    if n < 0 {
        None
    } else if n as u64 > usize::MAX as u64 {
        None
    } else {
        Some(n as usize)
    }
}

/// The skip command: removes entries from the queue of the caller's guild.
#[derive(Debug, Clone, Copy)]
pub struct Skip;

impl Skip {
    /// The name the command is registered under.
    pub fn name(&self) -> (r: String)
        ensures
            r@ == "skip"@,
    {
        String::from_str("skip")
    }

    /// The range that the command's options ask for (see
    /// `requested_range_of`); `InvalidRange` when a number is out of bounds.
    pub fn requested_range(&self, opts: &[ResolvedOption]) -> (r: Result<(usize, usize), CoreError>)
        ensures
            requested_range_of(opts@) is None <==> r is Err,
            r is Err ==> r == Err::<(usize, usize), CoreError>(CoreError::InvalidRange),
            r matches Ok(p) ==> requested_range_of(opts@) == Some((p.0 as int, p.1 as int)),
    {
        let first = sub_options(get_option(opts, "first"));
        let position = sub_options(get_option(opts, "position"));
        let range = sub_options(get_option(opts, "range"));
        if let Some(sub) = first {
            let count = match int_option(get_option(sub.as_slice(), "count")) {
                Some(n) => n,
                None => 1,
            };
            return match to_index(count) {
                Some(c) if c >= 1 => Ok((0, c - 1)),
                _ => Err(CoreError::InvalidRange),
            };
        }
        if let Some(sub) = position {
            if let Some(at) = int_option(get_option(sub.as_slice(), "at")) {
                return match to_index(at) {
                    Some(a) if a >= 1 => Ok((a - 1, a - 1)),
                    _ => Err(CoreError::InvalidRange),
                };
            }
        }
        if let Some(sub) = range {
            let start = match int_option(get_option(sub.as_slice(), "start")) {
                Some(n) => to_index(n),
                None => Some(1),
            };
            let end = match int_option(get_option(sub.as_slice(), "end")) {
                Some(n) => to_index(n),
                None => Some(usize::MAX),
            };
            return match (start, end) {
                (Some(s), Some(e)) => Ok((s, e)),
                _ => Err(CoreError::InvalidRange),
            };
        }
        Ok((0, 0))
    }
}

} // verus!
