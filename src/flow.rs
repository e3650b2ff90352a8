use vstd::prelude::*;

use crate::error::CoreError;
use crate::prompt::{choice_prompt, is_prompt_for, ChoicePrompt};
use crate::query::{classify, is_direct_reference};
use crate::queue::enqueued;
use crate::registry::SessionRegistry;
use crate::selection::{
    opened_view, step_kind, PipedError, SearchResults, SelectionEvent, SelectionSession,
    SelectionStep, SelectionView, StepKind, MAX_CANDIDATES,
};
use crate::track::{is_song_metadata, now_playing, song_metadata, AuxMetadata, NowPlaying, SongMetadata};

verus! {

/// Where a play request stands.
#[derive(Debug)]
pub enum PlayStage {
    /// Waiting for the voice connection to `channel`.
    Connecting { channel: u64 },
    /// Waiting for the search provider's answer on `term`.
    Searching { term: String },
    /// Waiting for the user's choice among the offered candidates.
    Selecting { session: SelectionSession },
    /// Waiting for `source` to be made playable.
    Resolving { source: String },
    /// Nothing more to do.
    Finished,
}

/// The stage of a play request as the contracts see it.
pub enum StageView {
    Connecting(u64),
    Searching(Seq<char>),
    Selecting(SelectionView),
    Resolving(Seq<char>),
    Finished,
}

/// The outside work that a play request hands back to its caller.
#[derive(Debug)]
pub enum PlayEvent {
    /// The voice connection was made, or refused.
    Connected { ok: bool },
    /// The search provider answered at time `now`.
    SearchAnswered { results: Result<SearchResults, PipedError>, now: u64 },
    /// Something happened while the choice is awaited.
    Selection { event: SelectionEvent },
    /// The source was made playable (`ok`), under the caller's tag `id`, with
    /// whatever metadata the resolver could give.
    Resolved { ok: bool, id: u64, meta: Option<AuxMetadata> },
}

/// What the caller does next for a play request.
#[derive(Debug)]
pub enum PlayAction {
    /// Connect the guild's call to `channel`, then report `Connected`.
    Connect { channel: u64 },
    /// Search for `term`, then report `SearchAnswered`.
    Search { term: String },
    /// Show the prompt and report each selection or tick as `Selection`.
    Present { prompt: ChoicePrompt },
    /// Keep waiting.
    Wait,
    /// Dismiss the prompt, make `source` playable and report `Resolved`.
    DismissAndResolve { source: String },
    /// Make `source` playable and report `Resolved`.
    Resolve { source: String },
    /// Dismiss the prompt; the request ends without a reply.
    Dismiss,
    /// The track was queued at 1-based `position`; `notice` is what to show
    /// once it starts playing. The request ends.
    Enqueued { position: usize, metadata: SongMetadata, notice: NowPlaying },
    /// The request ends with this error.
    Fail { error: CoreError },
    /// The event does not belong to the current stage: nothing happens.
    Ignore,
}

/// One play request of one user in one guild: join if needed, read the
/// query, search and await a choice if it is a search term, then enqueue.
#[derive(Debug)]
pub struct PlayFlow {
    guild: u64,
    query: String,
    requester: String,
    token: u64,
    timeout: u64,
    stage: PlayStage,
}

pub open spec fn stage_view(s: PlayStage) -> StageView {
    match s {
        PlayStage::Connecting { channel } => StageView::Connecting(channel),
        PlayStage::Searching { term } => StageView::Searching(term@),
        PlayStage::Selecting { session } => StageView::Selecting(session@),
        PlayStage::Resolving { source } => StageView::Resolving(source@),
        PlayStage::Finished => StageView::Finished,
    }
}

/// The stage that a request reaches once its guild has a session: an empty
/// query ends it, a direct reference goes to resolution, anything else to
/// the search.
pub open spec fn classified_stage(query: Seq<char>) -> StageView {
    if query.len() == 0 {
        StageView::Finished
    } else if is_direct_reference(query) {
        StageView::Resolving(query)
    } else {
        StageView::Searching(query)
    }
}

/// Whether `a` is the action that goes with reaching `classified_stage(query)`.
pub open spec fn classified_action(query: Seq<char>, a: PlayAction) -> bool {
    if query.len() == 0 {
        a matches PlayAction::Fail { error } && error == CoreError::InvalidQuery
    } else if is_direct_reference(query) {
        a matches PlayAction::Resolve { source } && source@ == query
    } else {
        a matches PlayAction::Search { term } && term@ == query
    }
}

/// What answering a search does: a failed search ends the request with
/// `SearchUnavailable`, an empty one with `NoResults`; otherwise the first
/// candidates are offered in a prompt and awaited.
pub open spec fn searched(
    results: Result<SearchResults, PipedError>,
    now: u64,
    token: u64,
    timeout: u64,
    stage: StageView,
    r: PlayAction,
) -> bool {
    match results {
        Err(_) => stage is Finished && (r matches PlayAction::Fail { error } && error
            == CoreError::SearchUnavailable),
        Ok(res) => if res.items@.len() == 0 {
            stage is Finished && (r matches PlayAction::Fail { error } && error
                == CoreError::NoResults)
        } else {
            &&& stage == StageView::Selecting(opened_view(res.items@, token, now, timeout))
            &&& r matches PlayAction::Present { prompt } && is_prompt_for(
                prompt,
                opened_view(res.items@, token, now, timeout).candidates,
            )
        },
    }
}

/// What a resolution does: a failed one ends the request with
/// `ResolveFailed`; a made one is enqueued with its metadata (see
/// `is_song_metadata`) in the guild's session, every other session left as
/// it was, or ends with `NoActiveSession` when the session went away
/// meanwhile.
pub open spec fn resolved(
    ok: bool,
    id: u64,
    meta: Option<AuxMetadata>,
    guild: u64,
    query: Seq<char>,
    requester: Seq<char>,
    before: Map<u64, crate::registry::GuildSession>,
    after: Map<u64, crate::registry::GuildSession>,
    r: PlayAction,
) -> bool {
    if !ok {
        (r matches PlayAction::Fail { error } && error == CoreError::ResolveFailed) && after
            == before
    } else if !before.contains_key(guild) {
        (r matches PlayAction::Fail { error } && error == CoreError::NoActiveSession) && after
            == before
    } else {
        match r {
            PlayAction::Enqueued { position, metadata, notice } => {
                &&& position == before[guild].queue@.len() + 1
                &&& after.dom() == before.dom()
                &&& after[guild].channel_id == before[guild].channel_id
                &&& after[guild].queue@ == enqueued(before[guild].queue@, id, metadata)
                &&& forall|g: u64| g != guild && #[trigger] before.contains_key(g) ==> after[g]
                    == before[g]
                &&& notice.title == metadata.title
                &&& notice.username == metadata.user
                &&& notice.thumbnail == metadata.thumbnail
                &&& is_song_metadata(metadata, meta, query, requester)
            },
            _ => false,
        }
    }
}

impl PlayFlow {
    pub closed spec fn guild(&self) -> u64 {
        self.guild
    }

    pub closed spec fn query(&self) -> Seq<char> {
        self.query@
    }

    pub closed spec fn requester(&self) -> Seq<char> {
        self.requester@
    }

    pub closed spec fn token(&self) -> u64 {
        self.token
    }

    pub closed spec fn timeout(&self) -> u64 {
        self.timeout
    }

    pub closed spec fn stage(&self) -> StageView {
        stage_view(self.stage)
    }

    /// Whether the offered candidates fit one prompt; kept by every step.
    pub open spec fn wf(&self) -> bool {
        match self.stage() {
            StageView::Selecting(v) => v.candidates.len() <= MAX_CANDIDATES && !v.settled,
            _ => true,
        }
    }

    /// Whether nothing is left to do.
    pub fn is_finished(&self) -> (r: bool)
        ensures
            r == (self.stage() is Finished),
    {
        match self.stage {
            PlayStage::Finished => true,
            _ => false,
        }
    }

    fn after_session(&mut self) -> (r: PlayAction)
        ensures
            final(self).stage() == classified_stage(old(self).query()),
            classified_action(old(self).query(), r),
            final(self).guild() == old(self).guild(),
            final(self).query() == old(self).query(),
            final(self).requester() == old(self).requester(),
            final(self).token() == old(self).token(),
            final(self).timeout() == old(self).timeout(),
            final(self).wf(),
    {
        match classify(self.query.as_str()) {
            Err(error) => {
                self.stage = PlayStage::Finished;
                PlayAction::Fail { error }
            },
            Ok(q) => {
                let is_url = q.is_url();
                let text = q.into_text();
                if is_url {
                    self.stage = PlayStage::Resolving { source: text.clone() };
                    PlayAction::Resolve { source: text }
                } else {
                    self.stage = PlayStage::Searching { term: text.clone() };
                    PlayAction::Search { term: text }
                }
            },
        }
    }

    /// Starts a play request for `query` by `requester` in `guild`, whose
    /// user sits in `user_channel`. Without a session the request first
    /// connects there, or fails with `NotInVoiceChannel`; with one it goes
    /// on at once (see `classified_stage`). `token` tags the prompt that a
    /// search would show, and `timeout` bounds the wait for a choice.
    pub fn start(
        registry: &SessionRegistry,
        guild: u64,
        user_channel: Option<u64>,
        query: String,
        requester: String,
        token: u64,
        timeout: u64,
    ) -> (r: (PlayFlow, PlayAction))
        ensures
            r.0.guild() == guild,
            r.0.query() == query@,
            r.0.requester() == requester@,
            r.0.token() == token,
            r.0.timeout() == timeout,
            r.0.wf(),
            !registry@.contains_key(guild) && user_channel is None ==> {
                &&& r.0.stage() is Finished
                &&& r.1 matches PlayAction::Fail { error } && error == CoreError::NotInVoiceChannel
            },
            !registry@.contains_key(guild) && user_channel is Some ==> {
                &&& r.0.stage() == StageView::Connecting(user_channel->0)
                &&& r.1 matches PlayAction::Connect { channel } && channel == user_channel->0
            },
            registry@.contains_key(guild) ==> {
                &&& r.0.stage() == classified_stage(query@)
                &&& classified_action(query@, r.1)
            },
    {
        let mut flow = PlayFlow { guild, query, requester, token, timeout, stage: PlayStage::Finished };
        match registry.connect_plan(guild, user_channel) {
            Err(error) => (flow, PlayAction::Fail { error }),
            Ok(Some(channel)) => {
                flow.stage = PlayStage::Connecting { channel };
                (flow, PlayAction::Connect { channel })
            },
            Ok(None) => {
                let action = flow.after_session();
                (flow, action)
            },
        }
    }

    /// Feeds the outcome of the last outside work to the request and says
    /// what to do next. An event that does not belong to the current stage
    /// is ignored and changes nothing.
    pub fn step(&mut self, registry: &mut SessionRegistry, event: PlayEvent) -> (r: PlayAction)
        requires
            old(self).wf(),
            old(registry).wf(),
            old(registry)@.contains_key(old(self).guild()) ==> old(registry)@[old(
                self,
            ).guild()].queue@.len() < usize::MAX,
        ensures
            final(self).wf(),
            final(registry).wf(),
            final(self).guild() == old(self).guild(),
            final(self).query() == old(self).query(),
            final(self).requester() == old(self).requester(),
            final(self).token() == old(self).token(),
            final(self).timeout() == old(self).timeout(),
            r is Ignore ==> final(self).stage() == old(self).stage() && final(registry)@ == old(
                registry,
            )@,
            // connecting
            match old(self).stage() {
                StageView::Connecting(channel) => match event {
                    PlayEvent::Connected { ok } => if ok {
                        &&& final(self).stage() == classified_stage(old(self).query())
                        &&& classified_action(old(self).query(), r)
                        &&& final(registry)@.dom() == old(registry)@.dom().insert(old(self).guild())
                        &&& final(registry)@[old(self).guild()].channel_id == channel
                        &&& old(registry)@.contains_key(old(self).guild()) ==> final(registry)@[old(
                            self,
                        ).guild()].queue@ == old(registry)@[old(self).guild()].queue@
                        &&& !old(registry)@.contains_key(old(self).guild()) ==> final(registry)@[old(
                            self,
                        ).guild()].queue@.len() == 0
                        &&& forall|g: u64| g != old(self).guild() && #[trigger] old(
                            registry,
                        )@.contains_key(g) ==> final(registry)@[g] == old(registry)@[g]
                    } else {
                        &&& final(self).stage() is Finished
                        &&& r matches PlayAction::Fail { error } && error == CoreError::ConnectFailed
                        &&& final(registry)@ == old(registry)@
                    },
                    _ => r is Ignore,
                },
                _ => true,
            },
            // searching
            old(self).stage() is Searching ==> match event {
                PlayEvent::SearchAnswered { results, now } => {
                    &&& searched(
                        results,
                        now,
                        old(self).token(),
                        old(self).timeout(),
                        final(self).stage(),
                        r,
                    )
                    &&& final(registry)@ == old(registry)@
                },
                _ => r is Ignore,
            },
            // selecting
            match old(self).stage() {
                StageView::Selecting(v) => match event {
                    PlayEvent::Selection { event: e } => {
                        &&& final(registry)@ == old(registry)@
                        &&& match step_kind(v, e) {
                            StepKind::Chosen(uri) => {
                                &&& r matches PlayAction::DismissAndResolve { source } && source@ == uri
                                &&& final(self).stage() == StageView::Resolving(uri)
                            },
                            StepKind::Expired => r is Dismiss && final(self).stage() is Finished,
                            StepKind::Closed => r is Dismiss && final(self).stage() is Finished,
                            StepKind::Waiting => r is Wait && final(self).stage() == old(self).stage(),
                        }
                    },
                    _ => r is Ignore,
                },
                _ => true,
            },
            // resolving
            old(self).stage() is Resolving ==> match event {
                PlayEvent::Resolved { ok, id, meta } => {
                    &&& final(self).stage() is Finished
                    &&& resolved(
                        ok,
                        id,
                        meta,
                        old(self).guild(),
                        old(self).query(),
                        old(self).requester(),
                        old(registry)@,
                        final(registry)@,
                        r,
                    )
                },
                _ => r is Ignore,
            },
            // every other pairing
            old(self).stage() is Finished ==> r is Ignore,
    {
        let mut stage = PlayStage::Finished;
        core::mem::swap(&mut stage, &mut self.stage);
        match (stage, event) {
            (PlayStage::Connecting { channel }, PlayEvent::Connected { ok }) => {
                match registry.complete_join(self.guild, channel, ok) {
                    Err(error) => PlayAction::Fail { error },
                    Ok(()) => self.after_session(),
                }
            },
            (PlayStage::Searching { term }, PlayEvent::SearchAnswered { results, now }) => {
                match SelectionSession::open(results, self.token, now, self.timeout) {
                    Err(error) => PlayAction::Fail { error },
                    Ok(session) => {
                        let prompt = choice_prompt(session.candidates());
                        self.stage = PlayStage::Selecting { session };
                        PlayAction::Present { prompt }
                    },
                }
            },
            (PlayStage::Selecting { mut session }, PlayEvent::Selection { event }) => {
                match session.on_event(event) {
                    SelectionStep::Waiting => {
                        self.stage = PlayStage::Selecting { session };
                        PlayAction::Wait
                    },
                    SelectionStep::Chosen { video_uri } => {
                        self.stage = PlayStage::Resolving { source: video_uri.clone() };
                        PlayAction::DismissAndResolve { source: video_uri }
                    },
                    SelectionStep::Expired => PlayAction::Dismiss,
                    SelectionStep::Closed => PlayAction::Dismiss,
                }
            },
            (PlayStage::Resolving { source }, PlayEvent::Resolved { ok, id, meta }) => {
                if !ok {
                    return PlayAction::Fail { error: CoreError::ResolveFailed };
                }
                let metadata = song_metadata(meta, self.query.clone(), self.requester.clone());
                let notice = now_playing(&metadata);
                let kept = metadata.duplicate();
                match registry.enqueue(self.guild, id, metadata) {
                    Err(error) => PlayAction::Fail { error },
                    Ok(position) => PlayAction::Enqueued { position, metadata: kept, notice },
                }
            },
            (stage, _) => {
                self.stage = stage;
                PlayAction::Ignore
            },
        }
    }
}

} // verus!
