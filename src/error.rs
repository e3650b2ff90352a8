use vstd::prelude::*;

verus! {

/// The outcomes that a guild operation reports to the user instead of a result.
#[derive(Debug, Clone, Copy, PartialEq, Eq, Structural)]
pub enum CoreError {
    /// The invoking user is in no voice channel that the bot could join.
    NotInVoiceChannel,
    /// The voice transport refused the connection.
    ConnectFailed,
    /// The guild has no voice session.
    NoActiveSession,
    /// The queue holds no track.
    EmptyQueue,
    /// The requested range selects no track.
    InvalidRange,
    /// The search provider could not be reached or gave an unreadable answer.
    SearchUnavailable,
    /// The search found nothing.
    NoResults,
    /// A direct reference or a chosen candidate could not be made playable.
    ResolveFailed,
    /// The query is empty.
    InvalidQuery,
}

} // verus!
