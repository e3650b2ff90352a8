use vstd::prelude::*;

use std::collections::HashMap;

use crate::error::CoreError;
use crate::queue::{
    clamped_end, is_page, paused, range_is_valid, resumed, skipped, skipped_ids, enqueued,
    lemma_at_most_one_playing, ListEntry, SkipOutcome, TrackQueue,
};
use crate::track::{PlayState, SongMetadata};

verus! {

broadcast use vstd::std_specs::hash::group_hash_axioms;

/// The voice session of one guild: the channel its call is connected to and
/// its play queue.
#[derive(Debug)]
pub struct GuildSession {
    pub guild_id: u64,
    pub channel_id: u64,
    pub queue: TrackQueue,
}

impl GuildSession {
    pub open spec fn wf(&self) -> bool {
        self.queue.wf()
    }
}

/// Whether every session of `m` sits under its own guild and keeps a
/// well-formed queue.
pub open spec fn sessions_wf(m: Map<u64, GuildSession>) -> bool {
    forall|g: u64| #[trigger] m.contains_key(g) ==> m[g].guild_id == g && m[g].wf()
}

/// The guild sessions of the process, at most one per guild.
#[derive(Debug)]
pub struct SessionRegistry {
    sessions: HashMap<u64, GuildSession>,
}

impl View for SessionRegistry {
    type V = Map<u64, GuildSession>;

    closed spec fn view(&self) -> Map<u64, GuildSession> {
        self.sessions@
    }
}

/// In every session of a well-formed registry at most one track plays.
pub proof fn lemma_sessions_single_playing(m: Map<u64, GuildSession>, g: u64, i: int, j: int)
    requires
        sessions_wf(m),
        m.contains_key(g),
        0 <= i < m[g].queue@.len(),
        0 <= j < m[g].queue@.len(),
        m[g].queue@[i].state == PlayState::Playing,
        m[g].queue@[j].state == PlayState::Playing,
    ensures
        i == j,
{
    lemma_at_most_one_playing(m[g].queue@, i, j);
}

impl SessionRegistry {
    pub open spec fn wf(&self) -> bool {
        sessions_wf(self@)
    }

    pub fn new() -> (r: SessionRegistry)
        ensures
            r@ == Map::<u64, GuildSession>::empty(),
            r.wf(),
    {
        SessionRegistry { sessions: HashMap::new() }
    }

    /// The session of `guild`, if there is one.
    pub fn get(&self, guild: u64) -> (r: Option<&GuildSession>)
        ensures
            r is Some <==> self@.contains_key(guild),
            r matches Some(s) ==> *s == self@[guild],
    {
        self.sessions.get(&guild)
    }

    /// What a request that needs a session must do first: nothing when the
    /// guild has one (`Ok(None)`), connect to the requester's voice channel
    /// otherwise (`Ok(Some(channel))`), or fail with `NotInVoiceChannel`
    /// when the requester is in none.
    pub fn connect_plan(&self, guild: u64, user_channel: Option<u64>) -> (r: Result<
        Option<u64>,
        CoreError,
    >)
        ensures
            self@.contains_key(guild) ==> r == Ok::<Option<u64>, CoreError>(None),
            !self@.contains_key(guild) ==> r == (match user_channel {
                Some(c) => Ok::<Option<u64>, CoreError>(Some(c)),
                None => Err(CoreError::NotInVoiceChannel),
            }),
    {
        if self.sessions.contains_key(&guild) {
            return Ok(None);
        }
        match user_channel {
            Some(c) => Ok(Some(c)),
            None => Err(CoreError::NotInVoiceChannel),
        }
    }

    /// Records the outcome of connecting `guild` to `channel`. A refused
    /// connection fails with `ConnectFailed` and changes nothing. A made one
    /// creates the guild's session with an empty queue, or moves an existing
    /// session to `channel` with its queue kept.
    pub fn complete_join(&mut self, guild: u64, channel: u64, connected: bool) -> (r: Result<
        (),
        CoreError,
    >)
        requires
            old(self).wf(),
        ensures
            final(self).wf(),
            !connected ==> r == Err::<(), CoreError>(CoreError::ConnectFailed) && final(self)@
                == old(self)@,
            connected ==> r is Ok,
            connected ==> final(self)@.dom() == old(self)@.dom().insert(guild),
            connected ==> final(self)@[guild].channel_id == channel,
            connected && old(self)@.contains_key(guild) ==> final(self)@[guild].queue@ == old(
                self,
            )@[guild].queue@,
            connected && !old(self)@.contains_key(guild) ==> final(self)@[guild].queue@.len()
                == 0,
            forall|g: u64| g != guild && #[trigger] old(self)@.contains_key(g) ==> final(self)@[g]
                == old(self)@[g],
    {
        if !connected {
            return Err(CoreError::ConnectFailed);
        }
        let session = match self.sessions.remove(&guild) {
            Some(s) => GuildSession { guild_id: guild, channel_id: channel, queue: s.queue },
            None => GuildSession { guild_id: guild, channel_id: channel, queue: TrackQueue::new() },
        };
        self.sessions.insert(guild, session);
        assert(self@.dom() =~= old(self)@.dom().insert(guild));
        Ok(())
    }

    /// Tears down the session of `guild`; a no-op when there is none.
    /// Returns whether there was one.
    pub fn remove(&mut self, guild: u64) -> (r: bool)
        requires
            old(self).wf(),
        ensures
            final(self).wf(),
            final(self)@ == old(self)@.remove(guild),
            r == old(self)@.contains_key(guild),
    {
        self.sessions.remove(&guild).is_some()
    }

    /// Appends a track to the queue of `guild` and returns its 1-based
    /// position; fails with `NoActiveSession` when the guild has no session.
    pub fn enqueue(&mut self, guild: u64, id: u64, metadata: SongMetadata) -> (r: Result<
        usize,
        CoreError,
    >)
        requires
            old(self).wf(),
            old(self)@.contains_key(guild) ==> old(self)@[guild].queue@.len() < usize::MAX,
        ensures
            final(self).wf(),
            !old(self)@.contains_key(guild) ==> r == Err::<usize, CoreError>(
                CoreError::NoActiveSession,
            ) && final(self)@ == old(self)@,
            old(self)@.contains_key(guild) ==> {
                &&& r == Ok::<usize, CoreError>((old(self)@[guild].queue@.len() + 1) as usize)
                &&& final(self)@.dom() == old(self)@.dom()
                &&& final(self)@[guild].channel_id == old(self)@[guild].channel_id
                &&& final(self)@[guild].queue@ == enqueued(old(self)@[guild].queue@, id, metadata)
            },
            forall|g: u64| g != guild && #[trigger] old(self)@.contains_key(g) ==> final(self)@[g]
                == old(self)@[g],
    {
        match self.sessions.remove(&guild) {
            None => Err(CoreError::NoActiveSession),
            Some(mut s) => {
                let position = s.queue.enqueue(id, metadata);
                self.sessions.insert(guild, s);
                assert(self@.dom() =~= old(self)@.dom());
                Ok(position)
            },
        }
    }

    /// Pauses (or, with `unpause`, resumes) the head of the queue of `guild`.
    /// Succeeds whenever the guild has a session, also when nothing changes;
    /// fails with `NoActiveSession` otherwise.
    pub fn pause_song(&mut self, guild: u64, unpause: bool) -> (r: Result<(), CoreError>)
        requires
            old(self).wf(),
        ensures
            final(self).wf(),
            r is Ok <==> old(self)@.contains_key(guild),
            r is Err ==> r == Err::<(), CoreError>(CoreError::NoActiveSession) && final(self)@
                == old(self)@,
            r is Ok ==> {
                &&& final(self)@.dom() == old(self)@.dom()
                &&& final(self)@[guild].channel_id == old(self)@[guild].channel_id
                &&& final(self)@[guild].queue@ == if unpause {
                    resumed(old(self)@[guild].queue@)
                } else {
                    paused(old(self)@[guild].queue@)
                }
            },
            forall|g: u64| g != guild && #[trigger] old(self)@.contains_key(g) ==> final(self)@[g]
                == old(self)@[g],
    {
        match self.sessions.remove(&guild) {
            None => Err(CoreError::NoActiveSession),
            Some(mut s) => {
                if unpause {
                    s.queue.resume();
                } else {
                    s.queue.pause();
                }
                self.sessions.insert(guild, s);
                assert(self@.dom() =~= old(self)@.dom());
                Ok(())
            },
        }
    }

    /// Removes the entries at `start..=end` from the queue of `guild` (see
    /// `TrackQueue::skip_range`). Fails with `NoActiveSession` when the guild
    /// has no session and with `InvalidRange` when the clamped range is empty;
    /// a failure changes nothing.
    pub fn skip(&mut self, guild: u64, start: usize, end: usize) -> (r: Result<
        SkipOutcome,
        CoreError,
    >)
        requires
            old(self).wf(),
        ensures
            final(self).wf(),
            !old(self)@.contains_key(guild) ==> (r matches Err(e) && e
                == CoreError::NoActiveSession),
            old(self)@.contains_key(guild) && !range_is_valid(
                old(self)@[guild].queue@.len() as int,
                start as int,
                end as int,
            ) ==> (r matches Err(e) && e == CoreError::InvalidRange),
            old(self)@.contains_key(guild) && range_is_valid(
                old(self)@[guild].queue@.len() as int,
                start as int,
                end as int,
            ) ==> r is Ok,
            r is Err ==> final(self)@ == old(self)@,
            r matches Ok(o) ==> {
                let q = old(self)@[guild].queue@;
                &&& old(self)@.contains_key(guild)
                &&& range_is_valid(q.len() as int, start as int, end as int)
                &&& final(self)@.dom() == old(self)@.dom()
                &&& final(self)@[guild].channel_id == old(self)@[guild].channel_id
                &&& final(self)@[guild].queue@ == skipped(q, start as int, end as int)
                &&& o.first == start
                &&& o.last == clamped_end(q.len() as int, end as int)
                &&& o.removed@ == skipped_ids(q, start as int, end as int)
                &&& o.started == (if start == 0 && final(self)@[guild].queue@.len() > 0 {
                    Some(final(self)@[guild].queue@[0].id)
                } else {
                    None::<u64>
                })
            },
            forall|g: u64| g != guild && #[trigger] old(self)@.contains_key(g) ==> final(self)@[g]
                == old(self)@[g],
    {
        match self.sessions.remove(&guild) {
            None => Err(CoreError::NoActiveSession),
            Some(mut s) => {
                let r = s.queue.skip_range(start, end);
                self.sessions.insert(guild, s);
                assert(self@.dom() =~= old(self)@.dom());
                if r.is_err() {
                    assert(self@ =~= old(self)@);
                }
                r
            },
        }
    }

    /// The track `id` of `guild` has played to its end: when it heads the
    /// queue it leaves it and the next one starts (see
    /// `TrackQueue::finish_current`). Returns the id of the track that
    /// started; `None` also when the guild has no session.
    pub fn finish_current(&mut self, guild: u64, id: u64) -> (r: Option<u64>)
        requires
            old(self).wf(),
        ensures
            final(self).wf(),
            !old(self)@.contains_key(guild) ==> r is None && final(self)@ == old(self)@,
            old(self)@.contains_key(guild) ==> {
                let q = old(self)@[guild].queue@;
                &&& final(self)@.dom() == old(self)@.dom()
                &&& final(self)@[guild].channel_id == old(self)@[guild].channel_id
                &&& !(q.len() > 0 && q[0].id == id) ==> final(self)@[guild].queue@ == q && r is None
                &&& q.len() > 0 && q[0].id == id ==> final(self)@[guild].queue@ == skipped(q, 0, 0)
                    && r == (if final(self)@[guild].queue@.len() > 0 {
                    Some(final(self)@[guild].queue@[0].id)
                } else {
                    None::<u64>
                })
            },
            forall|g: u64| g != guild && #[trigger] old(self)@.contains_key(g) ==> final(self)@[g]
                == old(self)@[g],
    {
        match self.sessions.remove(&guild) {
            None => None,
            Some(mut s) => {
                let r = s.queue.finish_current(id);
                self.sessions.insert(guild, s);
                assert(self@.dom() =~= old(self)@.dom());
                r
            },
        }
    }

    /// Page `page` (0-based) of the queue of `guild`. Fails with
    /// `NoActiveSession` when the guild has no session and with `EmptyQueue`
    /// when its queue is empty. Reading changes nothing.
    pub fn show_list(&self, guild: u64, page: usize) -> (r: Result<Vec<ListEntry>, CoreError>)
        ensures
            !self@.contains_key(guild) ==> (r matches Err(e) && e == CoreError::NoActiveSession),
            self@.contains_key(guild) && self@[guild].queue@.len() == 0 ==> (r matches Err(e) && e
                == CoreError::EmptyQueue),
            self@.contains_key(guild) && self@[guild].queue@.len() > 0 ==> (r matches Ok(v)
                && is_page(v@, self@[guild].queue@, page as int)),
    {
        match self.sessions.get(&guild) {
            None => Err(CoreError::NoActiveSession),
            Some(s) => s.queue.list_page(page),
        }
    }
}

} // verus!
