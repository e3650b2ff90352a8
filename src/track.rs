use vstd::prelude::*;

verus! {

/// Where a track stands in its session.
#[derive(Debug, Clone, Copy, PartialEq, Eq, Structural)]
pub enum PlayState {
    /// Waiting behind the head of the queue.
    Queued,
    /// The head of the queue, being played.
    Playing,
    /// The head of the queue, held by a pause.
    Paused,
    /// Stopped for good; such a track leaves the queue.
    Stopped,
}

/// Immutable description of an enqueued item.
#[derive(Debug, Clone)]
pub struct SongMetadata {
    pub title: String,
    /// Length in whole seconds.
    pub duration: u64,
    pub user: String,
    pub thumbnail: Option<String>,
}

impl SongMetadata {
    /// A copy equal to `self` in every field.
    pub fn duplicate(&self) -> (r: SongMetadata)
        ensures
            r == *self,
    {
        let thumbnail = match &self.thumbnail {
            Some(t) => Some(t.clone()),
            None => None,
        };
        SongMetadata {
            title: self.title.clone(),
            duration: self.duration,
            user: self.user.clone(),
            thumbnail,
        }
    }
}

/// What the media resolver could tell about a source; every part is optional.
#[derive(Debug, Clone)]
pub struct AuxMetadata {
    pub title: Option<String>,
    pub duration: Option<u64>,
    pub thumbnail: Option<String>,
}

/// One entry of a session's queue. `id` is the caller's tag for the playable
/// source that stands behind the entry.
#[derive(Debug, Clone)]
pub struct QueuedTrack {
    pub id: u64,
    pub metadata: SongMetadata,
    pub state: PlayState,
}

/// The name shown for a requester: the global display name when there is one,
/// the account name otherwise.
pub fn requester_name(global_name: Option<String>, name: String) -> (r: String)
    ensures
        r@ == (match global_name {
            Some(g) => g@,
            None => name@,
        }),
{
    match global_name {
        Some(g) => g,
        None => name,
    }
}

/// Whether `r` is the metadata recorded for a track resolved with `meta`,
/// asked for with `query` by `requester`: the resolver's title, duration and
/// thumbnail when it gave metadata (an empty title and zero duration where
/// it left them out), else the query as title, zero duration and no
/// thumbnail.
pub open spec fn is_song_metadata(
    r: SongMetadata,
    meta: Option<AuxMetadata>,
    query: Seq<char>,
    requester: Seq<char>,
) -> bool {
    &&& r.user@ == requester
    &&& match meta {
        Some(m) => {
            &&& r.title@ == (match m.title {
                Some(t) => t@,
                None => Seq::<char>::empty(),
            })
            &&& r.duration == (match m.duration {
                Some(d) => d,
                None => 0,
            })
            &&& r.thumbnail == m.thumbnail
        },
        None => {
            &&& r.title@ == query
            &&& r.duration == 0
            &&& r.thumbnail is None
        },
    }
}

/// The metadata recorded for a new track. Enrichment is best effort: without
/// resolver metadata the raw query becomes the title and the duration is zero;
/// with it, a missing title is empty and a missing duration is zero.
pub fn song_metadata(meta: Option<AuxMetadata>, query: String, requester: String) -> (r:
    SongMetadata)
    ensures
        is_song_metadata(r, meta, query@, requester@),
{
    match meta {
        Some(m) => {
            let title = match m.title {
                Some(t) => t,
                None => String::new(),
            };
            let duration = match m.duration {
                Some(d) => d,
                None => 0,
            };
            SongMetadata { title, duration, user: requester, thumbnail: m.thumbnail }
        },
        None => SongMetadata { title: query, duration: 0, user: requester, thumbnail: None },
    }
}

/// The "now playing" notice: what it shows of the track that started.
#[derive(Debug, Clone)]
pub struct NowPlaying {
    pub title: String,
    pub username: String,
    pub thumbnail: Option<String>,
}

/// The notice for a track that starts playing: its title, who asked for it,
/// and its thumbnail when it has one.
pub fn now_playing(meta: &SongMetadata) -> (r: NowPlaying)
    ensures
        r.title == meta.title,
        r.username == meta.user,
        r.thumbnail == meta.thumbnail,
{
    let thumbnail = match &meta.thumbnail {
        Some(t) => Some(t.clone()),
        None => None,
    };
    NowPlaying { title: meta.title.clone(), username: meta.user.clone(), thumbnail }
}

} // verus!
