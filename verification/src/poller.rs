//! One look at what the music service says is playing.
//!
//! The query itself is made elsewhere. What came back is handed over as a
//! [`Reply`], a plain value, and [`observe`] settles what it means: a track,
//! nothing playing, or one of two failures.

use crate::text::{is_trimmed, joined, lemma_trimmed_is_trimmed, trimmed};
use crate::track::{all_trimmed, artist_line, no_lyrics, Track, TrackView};
use vstd::prelude::*;

verus! {

/// What the service answered to one query for the current playback.
#[derive(Clone, Debug)]
pub enum Reply {
    /// Something is playing: its title and the names of its artists, both
    /// as the service wrote them.
    Playing { title: String, artists: Vec<String> },
    /// No playback is active, or the playback has no item.
    Nothing,
    /// The session is known to be invalid or to have expired.
    Unauthorized,
    /// The service refused the query with this HTTP status.
    Status(u16),
    /// No usable answer came back at all.
    Failed,
}

/// What a [`Reply`] holds, as plain mathematical values.
pub ghost enum ReplyView {
    Playing { title: Seq<char>, artists: Seq<Seq<char>> },
    Nothing,
    Unauthorized,
    Status(u16),
    Failed,
}

impl View for Reply {
    type V = ReplyView;

    open spec fn view(&self) -> ReplyView {
        match self {
            Reply::Playing { title, artists } => ReplyView::Playing {
                title: title@,
                artists: artists.deep_view(),
            },
            Reply::Nothing => ReplyView::Nothing,
            Reply::Unauthorized => ReplyView::Unauthorized,
            Reply::Status(status) => ReplyView::Status(*status),
            Reply::Failed => ReplyView::Failed,
        }
    }
}

/// What one poll saw.
#[derive(Clone, Debug)]
pub enum Observation {
    /// Nothing is playing. This is not a track, and it is not "the same
    /// track as before" either.
    NothingPlaying,
    /// This track is playing. Its lyrics are not known yet.
    Playing(Track),
}

/// What an [`Observation`] holds, as plain mathematical values.
pub ghost enum ObservationView {
    NothingPlaying,
    Playing(TrackView),
}

impl View for Observation {
    type V = ObservationView;

    open spec fn view(&self) -> ObservationView {
        match self {
            Observation::NothingPlaying => ObservationView::NothingPlaying,
            Observation::Playing(track) => ObservationView::Playing(track@),
        }
    }
}

/// Why a poll saw nothing.
#[derive(Clone, Copy, Debug, PartialEq, Eq, Structural)]
pub enum PollError {
    /// The session is invalid or has expired. Polling again cannot help.
    Auth,
    /// The service answered with some other failure. The next poll may
    /// succeed.
    Upstream,
}

/// The HTTP status with which the service turns down a session that is
/// invalid or has expired.
pub const UNAUTHORIZED: u16 = 401;

/// The track that a playing item stands for: its title trimmed, its artist
/// names trimmed one by one and kept in order, and no lyrics found so far.
pub open spec fn track_of(title: Seq<char>, artists: Seq<Seq<char>>) -> TrackView {
    TrackView { title: trimmed(title), artists: all_trimmed(artists), lyrics: no_lyrics() }
}

/// What a reply means.
pub open spec fn observed(reply: ReplyView) -> Result<ObservationView, PollError> {
    match reply {
        ReplyView::Playing { title, artists } => Ok(
            ObservationView::Playing(track_of(title, artists)),
        ),
        ReplyView::Nothing => Ok(ObservationView::NothingPlaying),
        ReplyView::Unauthorized => Err(PollError::Auth),
        ReplyView::Status(status) => if status == UNAUTHORIZED {
            Err(PollError::Auth)
        } else {
            Err(PollError::Upstream)
        },
        ReplyView::Failed => Err(PollError::Upstream),
    }
}

/// The view of a poll's result.
pub open spec fn polled_view(polled: Result<Observation, PollError>) -> Result<
    ObservationView,
    PollError,
> {
    match polled {
        Ok(observation) => Ok(observation@),
        Err(error) => Err(error),
    }
}

/// Settles what one reply of the service means. A playing item becomes a
/// [`Track`] with trimmed title and artist names; a reply without one is
/// [`Observation::NothingPlaying`]; a refused session, which the service
/// answers with status 401, is [`PollError::Auth`], and every other failure
/// is [`PollError::Upstream`]. Nothing is tried twice.
pub fn observe(reply: Reply) -> (polled: Result<Observation, PollError>)
    ensures
        polled_view(polled) == observed(reply@),
        polled matches Ok(Observation::Playing(track)) ==> track@.is_normalized(),
{
    match reply {
        Reply::Playing { title, artists } => {
            let track = Track::new().name(title.as_str()).artist_list(&artists);
            Ok(Observation::Playing(track))
        },
        Reply::Nothing => Ok(Observation::NothingPlaying),
        Reply::Unauthorized => Err(PollError::Auth),
        Reply::Status(status) => {
            if status == UNAUTHORIZED {
                Err(PollError::Auth)
            } else {
                Err(PollError::Upstream)
            }
        },
        Reply::Failed => Err(PollError::Upstream),
    }
}

/// Whitespace around a title or around an artist name does not change which
/// track a playing item stands for: two items whose titles agree once
/// trimmed, and whose artist names agree one by one once trimmed, stand for
/// the same track, with the same artist line.
pub proof fn lemma_trimming_precedes_identity(
    title_a: Seq<char>,
    names_a: Seq<Seq<char>>,
    title_b: Seq<char>,
    names_b: Seq<Seq<char>>,
)
    requires
        trimmed(title_a) == trimmed(title_b),
        names_a.len() == names_b.len(),
        forall|i: int| 0 <= i < names_a.len() ==> trimmed(names_a[i]) == trimmed(names_b[i]),
    ensures
        track_of(title_a, names_a).same_track(track_of(title_b, names_b)),
        artist_line(track_of(title_a, names_a).artists) == joined(all_trimmed(names_b), ", "@),
        track_of(title_a, names_a).is_normalized(),
{
    assert(all_trimmed(names_a) =~= all_trimmed(names_b));
    lemma_trimmed_is_trimmed(title_a);
    assert forall|i: int| 0 <= i < names_a.len() implies is_trimmed(
        #[trigger] all_trimmed(names_a)[i],
    ) by {
        lemma_trimmed_is_trimmed(names_a[i]);
    }
}

} // verus!
