use vstd::prelude::*;

use crate::error::CoreError;
use crate::track::{PlayState, QueuedTrack, SongMetadata};

verus! {

/// Number of entries on one page of a queue listing.
pub const TRACK_LIST_SIZE: usize = 10;

/// Head and tail states that a session's queue keeps at every step: the head
/// is playing or paused, and every other entry waits.
pub open spec fn queue_wf(s: Seq<QueuedTrack>) -> bool {
    &&& forall|i: int| 0 < i < s.len() ==> #[trigger] s[i].state == PlayState::Queued
    &&& s.len() > 0 ==> (s[0].state == PlayState::Playing || s[0].state == PlayState::Paused)
}

/// The entry `t` with its state replaced.
pub open spec fn with_state(t: QueuedTrack, st: PlayState) -> QueuedTrack {
    QueuedTrack { id: t.id, metadata: t.metadata, state: st }
}

/// `s` with the state of its head replaced (an empty queue stays empty).
pub open spec fn with_head_state(s: Seq<QueuedTrack>, st: PlayState) -> Seq<QueuedTrack> {
    if s.len() == 0 {
        s
    } else {
        s.update(0, with_state(s[0], st))
    }
}

/// The queue after appending a track: it starts playing when it is the only one.
pub open spec fn enqueued(s: Seq<QueuedTrack>, id: u64, metadata: SongMetadata) -> Seq<
    QueuedTrack,
> {
    s.push(
        QueuedTrack {
            id,
            metadata,
            state: if s.len() == 0 {
                PlayState::Playing
            } else {
                PlayState::Queued
            },
        },
    )
}

/// The queue after a pause: a playing head is held, anything else is left alone.
pub open spec fn paused(s: Seq<QueuedTrack>) -> Seq<QueuedTrack> {
    if s.len() > 0 && s[0].state == PlayState::Playing {
        with_head_state(s, PlayState::Paused)
    } else {
        s
    }
}

/// The queue after a resume: a paused head plays again, anything else is left alone.
pub open spec fn resumed(s: Seq<QueuedTrack>) -> Seq<QueuedTrack> {
    if s.len() > 0 && s[0].state == PlayState::Paused {
        with_head_state(s, PlayState::Playing)
    } else {
        s
    }
}

/// The last index that a removal up to `end` reaches in a queue of `len`
/// entries; -1 for an empty queue.
pub open spec fn clamped_end(len: int, end: int) -> int {
    if end < len - 1 {
        end
    } else {
        len - 1
    }
}

/// Whether removing `start..=end` selects at least one entry.
pub open spec fn range_is_valid(len: int, start: int, end: int) -> bool {
    start <= clamped_end(len, end)
}

/// The queue after removing the entries at `start..=end` (clamped) in one
/// batch; when the head went, the new head starts playing.
pub open spec fn skipped(s: Seq<QueuedTrack>, start: int, end: int) -> Seq<QueuedTrack> {
    let last = clamped_end(s.len() as int, end);
    let rest = s.subrange(0, start) + s.subrange(last + 1, s.len() as int);
    if start == 0 {
        with_head_state(rest, PlayState::Playing)
    } else {
        rest
    }
}

/// The ids of the entries that a removal of `start..=end` takes out.
pub open spec fn skipped_ids(s: Seq<QueuedTrack>, start: int, end: int) -> Seq<u64> {
    s.subrange(start, clamped_end(s.len() as int, end) + 1).map_values(|t: QueuedTrack| t.id)
}

/// Index of the first entry on page `page`.
pub open spec fn page_start(page: int) -> int {
    page * TRACK_LIST_SIZE
}

/// Number of entries on page `page` of a queue of `len` entries.
pub open spec fn page_len(len: int, page: int) -> int {
    let start = page_start(page);
    if start >= len {
        0
    } else if len - start < TRACK_LIST_SIZE {
        len - start
    } else {
        TRACK_LIST_SIZE as int
    }
}

/// In a well-formed queue no two entries play at once.
pub proof fn lemma_at_most_one_playing(s: Seq<QueuedTrack>, i: int, j: int)
    requires
        queue_wf(s),
        0 <= i < s.len(),
        0 <= j < s.len(),
        s[i].state == PlayState::Playing,
        s[j].state == PlayState::Playing,
    ensures
        i == j,
{
    if i != 0 {
        assert(s[i].state == PlayState::Queued);
    }
    if j != 0 {
        assert(s[j].state == PlayState::Queued);
    }
}

/// Skipping the head of a non-empty well-formed queue is a valid removal of
/// exactly that entry, and the entry behind it, if any, becomes the head and
/// plays.
pub proof fn lemma_skip_head_starts_next(s: Seq<QueuedTrack>)
    requires
        queue_wf(s),
        s.len() > 0,
    ensures
        range_is_valid(s.len() as int, 0, 0),
        skipped(s, 0, 0).len() == s.len() - 1,
        skipped(s, 0, 0).len() > 0 ==> {
            &&& skipped(s, 0, 0)[0].state == PlayState::Playing
            &&& skipped(s, 0, 0)[0].id == s[1].id
        },
        queue_wf(skipped(s, 0, 0)),
{
    let rest = s.subrange(0, 0) + s.subrange(1, s.len() as int);
    assert(rest =~= s.subrange(1, s.len() as int));
    let r = skipped(s, 0, 0);
    assert forall|i: int| 0 < i < r.len() implies #[trigger] r[i].state == PlayState::Queued by {
        assert(r[i] == s[i + 1]);
    }
}

/// Pausing twice is pausing once, and in a non-empty well-formed queue it
/// leaves exactly one entry paused: the head.
pub proof fn lemma_pause_twice(s: Seq<QueuedTrack>)
    requires
        queue_wf(s),
    ensures
        paused(paused(s)) == paused(s),
        queue_wf(paused(s)),
        s.len() > 0 ==> forall|i: int|
            0 <= i < s.len() ==> (#[trigger] paused(s)[i].state == PlayState::Paused <==> i == 0),
{
    let p = paused(s);
    if s.len() > 0 {
        assert forall|i: int| 0 <= i < s.len() implies (#[trigger] p[i].state
            == PlayState::Paused <==> i == 0) by {
            if i > 0 {
                assert(p[i] == s[i]);
            }
        }
    }
}

/// Resuming twice is resuming once, and in a non-empty well-formed queue it
/// leaves exactly one entry playing: the head.
pub proof fn lemma_resume_twice(s: Seq<QueuedTrack>)
    requires
        queue_wf(s),
    ensures
        resumed(resumed(s)) == resumed(s),
        queue_wf(resumed(s)),
        s.len() > 0 ==> forall|i: int|
            0 <= i < s.len() ==> (#[trigger] resumed(s)[i].state == PlayState::Playing <==> i
                == 0),
{
    let p = resumed(s);
    if s.len() > 0 {
        assert forall|i: int| 0 <= i < s.len() implies (#[trigger] p[i].state
            == PlayState::Playing <==> i == 0) by {
            if i > 0 {
                assert(p[i] == s[i]);
            }
        }
    }
}

/// One line of a listing: a 1-based position and the title at it.
#[derive(Debug, Clone)]
pub struct ListEntry {
    pub position: usize,
    pub title: String,
}

/// Whether `r` is page `page` of the queue `s`.
pub open spec fn is_page(r: Seq<ListEntry>, s: Seq<QueuedTrack>, page: int) -> bool {
    &&& r.len() == page_len(s.len() as int, page)
    &&& forall|k: int|
        0 <= k < r.len() ==> {
            &&& #[trigger] r[k].position == page_start(page) + k + 1
            &&& r[k].title@ == s[page_start(page) + k].metadata.title@
        }
}

/// A listing is determined by the queue and the page alone: two listings of
/// the same page of the same queue agree entry by entry. (Listing takes the
/// queue by shared reference, so it never changes its order or length.)
pub proof fn lemma_listing_determined(
    r1: Seq<ListEntry>,
    r2: Seq<ListEntry>,
    s: Seq<QueuedTrack>,
    page: int,
)
    requires
        is_page(r1, s, page),
        is_page(r2, s, page),
    ensures
        r1.len() == r2.len(),
        forall|k: int|
            0 <= k < r1.len() ==> #[trigger] r1[k].position == r2[k].position && r1[k].title@
                == r2[k].title@,
{
    assert forall|k: int| 0 <= k < r1.len() implies #[trigger] r1[k].position == r2[k].position
        && r1[k].title@ == r2[k].title@ by {
        assert(r1[k].position == page_start(page) + k + 1);
        assert(r2[k].position == page_start(page) + k + 1);
    }
}

/// What a removal did: the clamped bounds it applied, the ids of the entries it
/// stopped and took out (in queue order), and the id of the entry that it
/// started, if the head went and another entry took its place.
#[derive(Debug, Clone)]
pub struct SkipOutcome {
    pub first: usize,
    pub last: usize,
    pub removed: Vec<u64>,
    pub started: Option<u64>,
}

/// The ordered play queue of one guild session. Index 0 is the track that is
/// playing (or paused); the others wait in insertion order.
#[derive(Debug)]
pub struct TrackQueue {
    tracks: Vec<QueuedTrack>,
}

impl View for TrackQueue {
    type V = Seq<QueuedTrack>;

    closed spec fn view(&self) -> Seq<QueuedTrack> {
        self.tracks@
    }
}

impl TrackQueue {
    pub open spec fn wf(&self) -> bool {
        queue_wf(self@)
    }

    pub fn new() -> (r: TrackQueue)
        ensures
            r@ == Seq::<QueuedTrack>::empty(),
            r.wf(),
    {
        TrackQueue { tracks: Vec::new() }
    }

    pub fn len(&self) -> (r: usize)
        ensures
            r == self@.len(),
    {
        self.tracks.len()
    }

    /// The entry at `index`.
    pub fn get(&self, index: usize) -> (r: Option<&QueuedTrack>)
        ensures
            index < self@.len() ==> r == Some(&self@[index as int]),
            index >= self@.len() ==> r is None,
    {
        if index < self.tracks.len() {
            Some(&self.tracks[index])
        } else {
            None
        }
    }

    fn set_head_state(&mut self, st: PlayState)
        requires
            old(self)@.len() > 0,
        ensures
            final(self)@ == with_head_state(old(self)@, st),
    {
        let mut head = self.tracks.remove(0);
        head.state = st;
        self.tracks.insert(0, head);
        assert(self@ =~= with_head_state(old(self)@, st));
    }

    /// Appends a track and returns its 1-based position; a track that lands in
    /// an empty queue starts playing.
    pub fn enqueue(&mut self, id: u64, metadata: SongMetadata) -> (position: usize)
        requires
            old(self).wf(),
            old(self)@.len() < usize::MAX,
        ensures
            final(self).wf(),
            final(self)@ == enqueued(old(self)@, id, metadata),
            position == old(self)@.len() + 1,
    {
        let state = if self.tracks.len() == 0 {
            PlayState::Playing
        } else {
            PlayState::Queued
        };
        let position = self.tracks.len() + 1;
        self.tracks.push(QueuedTrack { id, metadata, state });
        position
    }

    /// Holds the playing head; a no-op when nothing plays.
    pub fn pause(&mut self)
        requires
            old(self).wf(),
        ensures
            final(self).wf(),
            final(self)@ == paused(old(self)@),
    {
        if self.tracks.len() > 0 && self.tracks[0].state == PlayState::Playing {
            self.set_head_state(PlayState::Paused);
        }
    }

    /// Plays a paused head again; a no-op when nothing is paused.
    pub fn resume(&mut self)
        requires
            old(self).wf(),
        ensures
            final(self).wf(),
            final(self)@ == resumed(old(self)@),
    {
        if self.tracks.len() > 0 && self.tracks[0].state == PlayState::Paused {
            self.set_head_state(PlayState::Playing);
        }
    }
    /// Removes the entries at `start..=end` in one batch, `end` clamped to the
    /// last index. Fails with `InvalidRange`, leaving the queue as it was, when
    /// the clamped range is empty. When the head goes, the entry that becomes
    /// the head starts playing.
    pub fn skip_range(&mut self, start: usize, end: usize) -> (r: Result<SkipOutcome, CoreError>)
        requires
            old(self).wf(),
        ensures
            final(self).wf(),
            r is Err <==> !range_is_valid(old(self)@.len() as int, start as int, end as int),
            r is Err ==> r == Err::<SkipOutcome, CoreError>(CoreError::InvalidRange),
            r is Err ==> *final(self) == *old(self),
            r matches Ok(o) ==> {
                &&& final(self)@ == skipped(old(self)@, start as int, end as int)
                &&& o.first == start
                &&& o.last == clamped_end(old(self)@.len() as int, end as int)
                &&& o.removed@ == skipped_ids(old(self)@, start as int, end as int)
                &&& o.started == (if start == 0 && final(self)@.len() > 0 {
                    Some(final(self)@[0].id)
                } else {
                    None::<u64>
                })
            },
    {
        let len = self.tracks.len();
        if len == 0 {
            return Err(CoreError::InvalidRange);
        }
        let last = if end < len - 1 {
            end
        } else {
            len - 1
        };
        if last < start {
            return Err(CoreError::InvalidRange);
        }
        let ghost s0 = self@;
        let mut tail = self.tracks.split_off(last + 1);
        let taken = self.tracks.split_off(start);
        self.tracks.append(&mut tail);
        assert(self@ =~= s0.subrange(0, start as int) + s0.subrange(last + 1, len as int));
        let mut removed: Vec<u64> = Vec::new();
        let mut k: usize = 0;
        while k < taken.len()
            invariant
                k <= taken@.len(),
                taken@ == s0.subrange(start as int, last + 1),
                removed@ == taken@.subrange(0, k as int).map_values(|t: QueuedTrack| t.id),
            decreases taken@.len() - k,
        {
            removed.push(taken[k].id);
            k = k + 1;
            assert(removed@ =~= taken@.subrange(0, k as int).map_values(|t: QueuedTrack| t.id));
        }
        assert(taken@.subrange(0, k as int) =~= taken@);
        let mut started: Option<u64> = None;
        if start == 0 && self.tracks.len() > 0 {
            self.set_head_state(PlayState::Playing);
            started = Some(self.tracks[0].id);
        }
        Ok(SkipOutcome { first: start, last, removed, started })
    }

    /// The track `id` has played to its end. When it is the head, it leaves
    /// the queue and the next entry, if any, starts playing; the id of that
    /// entry is returned. Otherwise (it was already skipped) nothing changes.
    pub fn finish_current(&mut self, id: u64) -> (r: Option<u64>)
        requires
            old(self).wf(),
        ensures
            final(self).wf(),
            !(old(self)@.len() > 0 && old(self)@[0].id == id) ==> final(self)@ == old(self)@
                && r is None,
            old(self)@.len() > 0 && old(self)@[0].id == id ==> {
                &&& final(self)@ == skipped(old(self)@, 0, 0)
                &&& r == (if final(self)@.len() > 0 {
                    Some(final(self)@[0].id)
                } else {
                    None::<u64>
                })
            },
    {
        if self.tracks.len() == 0 || self.tracks[0].id != id {
            return None;
        }
        match self.skip_range(0, 0) {
            Ok(outcome) => outcome.started,
            Err(_) => None,
        }
    }

    /// Page `page` (0-based) of the queue, `TRACK_LIST_SIZE` entries to a page,
    /// each with its 1-based position. Fails with `EmptyQueue` on an empty
    /// queue; a page past the end is empty.
    pub fn list_page(&self, page: usize) -> (r: Result<Vec<ListEntry>, CoreError>)
        ensures
            self@.len() == 0 <==> r is Err,
            r is Err ==> r == Err::<Vec<ListEntry>, CoreError>(CoreError::EmptyQueue),
            r matches Ok(v) ==> is_page(v@, self@, page as int),
    {
        let len = self.tracks.len();
        if len == 0 {
            return Err(CoreError::EmptyQueue);
        }
        let mut out: Vec<ListEntry> = Vec::new();
        if page > len / TRACK_LIST_SIZE {
            assert(page_start(page as int) >= len) by (nonlinear_arith)
                requires
                    page > len / 10,
                    page_start(page as int) == page * 10,
            ;
            assert(out@ =~= Seq::<ListEntry>::empty());
            return Ok(out);
        }
        assert(page * 10 <= len) by (nonlinear_arith)
            requires
                page <= len / 10,
        ;
        let start = page * TRACK_LIST_SIZE;
        let mut i: usize = start;
        while i < len && i - start < TRACK_LIST_SIZE
            invariant
                start == page_start(page as int),
                start <= i <= len,
                i - start <= TRACK_LIST_SIZE,
                len == self@.len(),
                out@.len() == i - start,
                forall|k: int|
                    0 <= k < out@.len() ==> {
                        &&& #[trigger] out@[k].position == start + k + 1
                        &&& out@[k].title@ == self@[start + k].metadata.title@
                    },
            decreases len - i,
        {
            let title = self.tracks[i].metadata.title.clone();
            out.push(ListEntry { position: i + 1, title });
            i = i + 1;
        }
        Ok(out)
    }
}


} // verus!
