use vstd::prelude::*;

use crate::error::CoreError;

verus! {

/// At most this many search results are offered to the user.
pub const MAX_CANDIDATES: usize = 5;

/// One search hit: the provider's path of the video, its length in seconds
/// and its title.
#[derive(Debug, Clone)]
pub struct SearchResult {
    pub url: String,
    pub duration: u64,
    pub title: String,
}

/// The provider's answer to a search, ranked best first.
#[derive(Debug, Clone)]
pub struct SearchResults {
    pub items: Vec<SearchResult>,
}

/// Why a search gave no answer: the request failed, or its answer could not
/// be read.
#[derive(Debug, Clone, Copy, PartialEq, Eq, Structural)]
pub enum PipedError {
    Request,
    Unknown,
}

/// What the user or the clock did while a selection is awaited.
#[derive(Debug, Clone)]
pub enum SelectionEvent {
    /// The user pressed the control `custom_id` of the prompt that carries
    /// `token`, at time `at`.
    Selected { custom_id: String, token: u64, at: u64 },
    /// The clock reached `at` with nothing selected.
    Tick { at: u64 },
}

/// What the caller does after an event.
#[derive(Debug, Clone)]
pub enum SelectionStep {
    /// Keep waiting.
    Waiting,
    /// Dismiss the prompt, resolve `video_uri` and enqueue it.
    Chosen { video_uri: String },
    /// Dismiss the prompt; nothing is enqueued and nothing is reported.
    Expired,
    /// The flow was consumed earlier: nothing happens.
    Closed,
}

/// The state of a selection as the contracts see it.
pub struct SelectionView {
    pub candidates: Seq<SearchResult>,
    pub token: u64,
    pub expires_at: u64,
    pub settled: bool,
}

/// A step as the contracts see it.
pub enum StepKind {
    Waiting,
    Chosen(Seq<char>),
    Expired,
    Closed,
}

pub open spec fn step_view(s: SelectionStep) -> StepKind {
    match s {
        SelectionStep::Waiting => StepKind::Waiting,
        SelectionStep::Chosen { video_uri } => StepKind::Chosen(video_uri@),
        SelectionStep::Expired => StepKind::Expired,
        SelectionStep::Closed => StepKind::Closed,
    }
}

/// The page that plays the video at the provider path `id`.
pub open spec fn video_uri_of(id: Seq<char>) -> Seq<char> {
    "https://www.youtube.com/"@ + id
}

pub open spec fn event_at(e: SelectionEvent) -> u64 {
    match e {
        SelectionEvent::Selected { at, .. } => at,
        SelectionEvent::Tick { at } => at,
    }
}

/// Whether `id` names one of the offered candidates.
pub open spec fn is_offered(v: SelectionView, id: Seq<char>) -> bool {
    exists|i: int| 0 <= i < v.candidates.len() && #[trigger] v.candidates[i].url@ == id
}

/// Whether `e` is a selection of this flow: it carries the flow's token and
/// names an offered candidate.
pub open spec fn is_matching(v: SelectionView, e: SelectionEvent) -> bool {
    match e {
        SelectionEvent::Selected { custom_id, token, .. } => token == v.token && is_offered(
            v,
            custom_id@,
        ),
        SelectionEvent::Tick { .. } => false,
    }
}

/// What an event does to a flow: nothing once the flow is consumed; past the
/// deadline the flow expires; a matching selection before the deadline is
/// chosen; anything else is ignored.
pub open spec fn step_kind(v: SelectionView, e: SelectionEvent) -> StepKind {
    if v.settled {
        StepKind::Closed
    } else if event_at(e) >= v.expires_at {
        StepKind::Expired
    } else if is_matching(v, e) {
        match e {
            SelectionEvent::Selected { custom_id, .. } => StepKind::Chosen(video_uri_of(custom_id@)),
            SelectionEvent::Tick { .. } => StepKind::Waiting,
        }
    } else {
        StepKind::Waiting
    }
}

/// The flow after an event: an outcome consumes it.
pub open spec fn next_view(v: SelectionView, e: SelectionEvent) -> SelectionView {
    match step_kind(v, e) {
        StepKind::Chosen(_) | StepKind::Expired => SelectionView { settled: true, ..v },
        _ => v,
    }
}

/// The steps that a flow takes on a series of events, in order.
pub open spec fn steps(v: SelectionView, es: Seq<SelectionEvent>) -> Seq<StepKind>
    decreases es.len(),
{
    if es.len() == 0 {
        Seq::empty()
    } else {
        seq![step_kind(v, es[0])] + steps(next_view(v, es[0]), es.drop_first())
    }
}

/// The deadline `timeout` after `now`, held at the largest time.
pub open spec fn deadline(now: u64, timeout: u64) -> u64 {
    if now + timeout > u64::MAX {
        u64::MAX
    } else {
        (now + timeout) as u64
    }
}

/// A fresh selection over the first `MAX_CANDIDATES` of `items`.
pub open spec fn opened_view(items: Seq<SearchResult>, token: u64, now: u64, timeout: u64) -> SelectionView {
    SelectionView {
        candidates: items.subrange(
            0,
            if items.len() < MAX_CANDIDATES {
                items.len() as int
            } else {
                MAX_CANDIDATES as int
            },
        ),
        token,
        expires_at: deadline(now, timeout),
        settled: false,
    }
}

/// A series of events yields one step per event.
pub proof fn lemma_steps_len(v: SelectionView, es: Seq<SelectionEvent>)
    ensures
        steps(v, es).len() == es.len(),
    decreases es.len(),
{
    if es.len() > 0 {
        lemma_steps_len(next_view(v, es[0]), es.drop_first());
    }
}

proof fn lemma_steps_unfold(v: SelectionView, es: Seq<SelectionEvent>)
    requires
        es.len() > 0,
    ensures
        steps(v, es).len() == es.len(),
        steps(v, es)[0] == step_kind(v, es[0]),
        forall|k: int|
            0 < k < es.len() ==> #[trigger] steps(v, es)[k] == steps(
                next_view(v, es[0]),
                es.drop_first(),
            )[k - 1],
{
    lemma_steps_len(next_view(v, es[0]), es.drop_first());
}

/// A consumed flow stays consumed: every later event is answered by `Closed`.
pub proof fn lemma_settled_stays_closed(v: SelectionView, es: Seq<SelectionEvent>)
    requires
        v.settled,
    ensures
        forall|k: int| 0 <= k < es.len() ==> #[trigger] steps(v, es)[k] == StepKind::Closed,
    decreases es.len(),
{
    if es.len() > 0 {
        lemma_steps_unfold(v, es);
        lemma_settled_stays_closed(next_view(v, es[0]), es.drop_first());
        assert forall|k: int| 0 <= k < es.len() implies #[trigger] steps(v, es)[k]
            == StepKind::Closed by {
            if k > 0 {
                assert(steps(v, es)[k] == steps(next_view(v, es[0]), es.drop_first())[k - 1]);
            }
        }
    }
}

/// A selection that carries a token other than the flow's never leads to an
/// enqueue: when no event of a series matches the flow's token, no step of
/// the series is `Chosen`.
pub proof fn lemma_stale_token_never_chosen(v: SelectionView, es: Seq<SelectionEvent>)
    requires
        forall|k: int|
            0 <= k < es.len() ==> match #[trigger] es[k] {
                SelectionEvent::Selected { token, .. } => token != v.token,
                SelectionEvent::Tick { .. } => true,
            },
    ensures
        forall|k: int| 0 <= k < es.len() ==> !(#[trigger] steps(v, es)[k] is Chosen),
    decreases es.len(),
{
    if es.len() > 0 {
        lemma_steps_unfold(v, es);
        let v1 = next_view(v, es[0]);
        assert(v1.token == v.token);
        assert forall|k: int| 0 <= k < es.drop_first().len() implies match #[trigger] es.drop_first()[k] {
            SelectionEvent::Selected { token, .. } => token != v1.token,
            SelectionEvent::Tick { .. } => true,
        } by {
            assert(es.drop_first()[k] == es[k + 1]);
        }
        lemma_stale_token_never_chosen(v1, es.drop_first());
        assert(!is_matching(v, es[0]));
        assert forall|k: int| 0 <= k < es.len() implies !(#[trigger] steps(v, es)[k] is Chosen) by {
            if k > 0 {
                assert(steps(v, es)[k] == steps(v1, es.drop_first())[k - 1]);
            }
        }
    }
}

/// When no matching selection comes before the deadline, nothing is chosen
/// (so nothing is enqueued), and once an event reports that the deadline has
/// passed, the flow expires, which dismisses the prompt.
pub proof fn lemma_timeout_dismisses(v: SelectionView, es: Seq<SelectionEvent>)
    requires
        !v.settled,
        forall|k: int|
            0 <= k < es.len() ==> !(is_matching(v, #[trigger] es[k]) && event_at(es[k])
                < v.expires_at),
    ensures
        forall|k: int| 0 <= k < es.len() ==> !(#[trigger] steps(v, es)[k] is Chosen),
        (exists|k: int| 0 <= k < es.len() && event_at(#[trigger] es[k]) >= v.expires_at) ==> (
        exists|k: int| 0 <= k < es.len() && #[trigger] steps(v, es)[k] == StepKind::Expired),
    decreases es.len(),
{
    if es.len() > 0 {
        lemma_steps_unfold(v, es);
        let e0 = es[0];
        let rest = es.drop_first();
        let v1 = next_view(v, e0);
        assert(!(is_matching(v, es[0]) && event_at(es[0]) < v.expires_at));
        if event_at(e0) >= v.expires_at {
            assert(steps(v, es)[0] == StepKind::Expired);
            lemma_settled_stays_closed(v1, rest);
            assert forall|k: int| 0 <= k < es.len() implies !(#[trigger] steps(v, es)[k] is Chosen) by {
                if k > 0 {
                    assert(steps(v, es)[k] == steps(v1, rest)[k - 1]);
                }
            }
        } else {
            assert(v1 == v);
            assert forall|k: int| 0 <= k < rest.len() implies !(is_matching(
                v1,
                #[trigger] rest[k],
            ) && event_at(rest[k]) < v1.expires_at) by {
                assert(rest[k] == es[k + 1]);
            }
            lemma_timeout_dismisses(v1, rest);
            assert forall|k: int| 0 <= k < es.len() implies !(#[trigger] steps(v, es)[k] is Chosen) by {
                if k > 0 {
                    assert(steps(v, es)[k] == steps(v1, rest)[k - 1]);
                }
            }
            if exists|k: int| 0 <= k < es.len() && event_at(#[trigger] es[k]) >= v.expires_at {
                let k = choose|k: int| 0 <= k < es.len() && event_at(#[trigger] es[k]) >= v.expires_at;
                assert(k > 0);
                assert(rest[k - 1] == es[k]);
                assert(event_at(rest[k - 1]) >= v1.expires_at);
                let j = choose|j: int| 0 <= j < rest.len() && #[trigger] steps(v1, rest)[j] == StepKind::Expired;
                assert(steps(v, es)[j + 1] == steps(v1, rest)[j]);
            }
        }
    }
}

/// One awaited choice among search results, tied to the prompt that offers
/// them by a correlation token. It yields one outcome at most.
#[derive(Debug)]
pub struct SelectionSession {
    candidates: Vec<SearchResult>,
    token: u64,
    expires_at: u64,
    settled: bool,
}

impl View for SelectionSession {
    type V = SelectionView;

    closed spec fn view(&self) -> SelectionView {
        SelectionView {
            candidates: self.candidates@,
            token: self.token,
            expires_at: self.expires_at,
            settled: self.settled,
        }
    }
}

impl SelectionSession {
    /// Starts a selection from the provider's answer: a failed search gives
    /// `SearchUnavailable`, an empty one `NoResults`; otherwise the first
    /// `MAX_CANDIDATES` results are offered under `token` until `timeout`
    /// after `now`.
    pub fn open(results: Result<SearchResults, PipedError>, token: u64, now: u64, timeout: u64) -> (r:
        Result<SelectionSession, CoreError>)
        ensures
            results is Err ==> (r matches Err(e) && e == CoreError::SearchUnavailable),
            results matches Ok(res) ==> (res.items@.len() == 0 <==> r is Err),
            results matches Ok(res) ==> (r is Err ==> (r matches Err(e) && e
                == CoreError::NoResults)),
            results matches Ok(res) ==> (r matches Ok(s) ==> s@ == opened_view(
                res.items@,
                token,
                now,
                timeout,
            )),
    {
        match results {
            Err(_) => Err(CoreError::SearchUnavailable),
            Ok(res) => {
                let mut items = res.items;
                if items.len() == 0 {
                    return Err(CoreError::NoResults);
                }
                let ghost all = items@;
                items.truncate(MAX_CANDIDATES);
                assert(all.len() < MAX_CANDIDATES ==> all.subrange(0, all.len() as int) =~= all);
                let expires_at = if now > u64::MAX - timeout {
                    u64::MAX
                } else {
                    now + timeout
                };
                Ok(SelectionSession { candidates: items, token, expires_at, settled: false })
            },
        }
    }

    pub fn token(&self) -> (r: u64)
        ensures
            r == self@.token,
    {
        self.token
    }

    pub fn expires_at(&self) -> (r: u64)
        ensures
            r == self@.expires_at,
    {
        self.expires_at
    }

    pub fn is_settled(&self) -> (r: bool)
        ensures
            r == self@.settled,
    {
        self.settled
    }

    /// The offered candidates, best first.
    pub fn candidates(&self) -> (r: &Vec<SearchResult>)
        ensures
            r@ == self@.candidates,
    {
        &self.candidates
    }

    fn offers(&self, id: &String) -> (r: bool)
        ensures
            r == is_offered(self@, id@),
    {
        let mut i: usize = 0;
        while i < self.candidates.len()
            invariant
                i <= self.candidates@.len(),
                forall|k: int| 0 <= k < i ==> self.candidates@[k].url@ != id@,
            decreases self.candidates@.len() - i,
        {
            if self.candidates[i].url == *id {
                assert(self@.candidates[i as int].url@ == id@);
                return true;
            }
            i = i + 1;
        }
        false
    }

    /// Feeds one event to the flow and says what the caller does next.
    pub fn on_event(&mut self, event: SelectionEvent) -> (r: SelectionStep)
        ensures
            step_view(r) == step_kind(old(self)@, event),
            final(self)@ == next_view(old(self)@, event),
    {
        if self.settled {
            return SelectionStep::Closed;
        }
        match event {
            SelectionEvent::Tick { at } => {
                if at >= self.expires_at {
                    self.settled = true;
                    SelectionStep::Expired
                } else {
                    SelectionStep::Waiting
                }
            },
            SelectionEvent::Selected { custom_id, token, at } => {
                if at >= self.expires_at {
                    self.settled = true;
                    SelectionStep::Expired
                } else if token == self.token && self.offers(&custom_id) {
                    self.settled = true;
                    let mut video_uri = String::from_str("https://www.youtube.com/");
                    video_uri.append(custom_id.as_str());
                    SelectionStep::Chosen { video_uri }
                } else {
                    SelectionStep::Waiting
                }
            },
        }
    }
}

} // verus!
