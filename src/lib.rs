//! Per-guild voice-session coordination for a music bot: a registry of guild
//! sessions, each owning an ordered play queue, the queue mutations (enqueue,
//! pause and resume, removal of a range, paging), the interactive
//! search-and-select flow that turns a query into a track, and the payload of
//! the "now playing" notice.
//!
//! Everything here is plain in-memory state: the voice transport, the search
//! provider and the chat platform are driven by the caller, who hands the
//! results of that outside work back in as plain values.

pub mod error;
pub mod flow;
pub mod handler;
pub mod options;
pub mod prompt;
pub mod query;
pub mod queue;
pub mod registry;
pub mod selection;
pub mod track;

pub use error::CoreError;
pub use flow::{PlayAction, PlayEvent, PlayFlow, PlayStage};
pub use handler::Handler;
pub use options::{get_option, ResolvedOption, ResolvedValue, Skip};
pub use prompt::{choice_line, choice_prompt, join_lines, ChoiceButton, ChoicePrompt};
pub use query::{classify, starts_with, QueryKind};
pub use queue::{ListEntry, SkipOutcome, TrackQueue, TRACK_LIST_SIZE};
pub use registry::{GuildSession, SessionRegistry};
pub use selection::{
    PipedError, SearchResult, SearchResults, SelectionEvent, SelectionSession, SelectionStep,
    MAX_CANDIDATES,
};
pub use track::{
    now_playing, requester_name, song_metadata, AuxMetadata, NowPlaying, PlayState, QueuedTrack,
    SongMetadata,
};
