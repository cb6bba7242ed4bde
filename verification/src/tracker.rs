//! Noticing that the track changed.
//!
//! The loop that polls, waits and prints lives outside this library. What it
//! has to do after each poll is decided here: [`on_poll`] compares what was
//! seen with the track shown last, and [`show`] completes a change once the
//! lyrics of the new track are resolved.

use crate::poller::{polled_view, Observation, ObservationView, PollError};
use crate::resolver::{lyrics_of, lyrics_or_default, Outcome, OutcomeView};
use crate::track::{Track, TrackView};
use vstd::prelude::*;

verus! {

/// The pause between two polls, in milliseconds. It is short, so that a
/// change of track shows soon, and it does not adapt.
pub const TICK_MILLIS: u64 = 300;

/// What the loop remembers between two polls.
#[derive(Clone, Debug)]
pub enum State {
    /// No track is on display.
    Idle,
    /// This track, with its lyrics, is on display.
    Tracking(Track),
}

/// What a [`State`] holds, as plain mathematical values.
pub ghost enum StateView {
    Idle,
    Tracking(TrackView),
}

impl View for State {
    type V = StateView;

    open spec fn view(&self) -> StateView {
        match self {
            State::Idle => StateView::Idle,
            State::Tracking(track) => StateView::Tracking(track@),
        }
    }
}

/// What the loop has to do after a poll.
#[derive(Clone, Debug)]
pub enum Action {
    /// Nothing: what is on display is still right.
    Wait,
    /// Clear the display: the track that was shown plays no more.
    Clear,
    /// Clear the display, resolve the lyrics of this track, and hand both
    /// to [`show`].
    Refresh(Track),
    /// Note that the poll failed, and leave the display as it is.
    Report,
    /// Stop polling: the session is no longer valid.
    Stop,
}

/// What an [`Action`] holds, as plain mathematical values.
pub ghost enum ActionView {
    Wait,
    Clear,
    Refresh(TrackView),
    Report,
    Stop,
}

impl View for Action {
    type V = ActionView;

    open spec fn view(&self) -> ActionView {
        match self {
            Action::Wait => ActionView::Wait,
            Action::Clear => ActionView::Clear,
            Action::Refresh(track) => ActionView::Refresh(track@),
            Action::Report => ActionView::Report,
            Action::Stop => ActionView::Stop,
        }
    }
}

/// Whether `track` is the one on display in `state`.
pub open spec fn on_display(state: StateView, track: TrackView) -> bool {
    state matches StateView::Tracking(last) && last.same_track(track)
}

/// The state after a poll and what is to be done, given the state before it
/// and what the poll saw.
///
/// A track that is not the one on display asks for a refresh; the state
/// stays as it was until the refresh is completed. The track on display,
/// seen again, asks for nothing. Nothing playing empties the state, and
/// clears the display if a track was on it. A failed poll changes nothing;
/// a refused session ends the loop.
pub open spec fn decided(state: StateView, polled: Result<ObservationView, PollError>) -> (
    StateView,
    ActionView,
) {
    match polled {
        Ok(ObservationView::Playing(track)) => if on_display(state, track) {
            (state, ActionView::Wait)
        } else {
            (state, ActionView::Refresh(track))
        },
        Ok(ObservationView::NothingPlaying) => match state {
            StateView::Tracking(_) => (StateView::Idle, ActionView::Clear),
            StateView::Idle => (StateView::Idle, ActionView::Wait),
        },
        Err(PollError::Upstream) => (state, ActionView::Report),
        Err(PollError::Auth) => (state, ActionView::Stop),
    }
}

/// The track that goes on display once `outcome` is known for `track`: the
/// same track, with the lyrics found, or with the text that says that none
/// were.
pub open spec fn with_lyrics(track: TrackView, outcome: OutcomeView) -> TrackView {
    TrackView { lyrics: lyrics_of(outcome), ..track }
}

/// Decides what one poll means for the display.
pub fn on_poll(state: State, polled: Result<Observation, PollError>) -> (next: (State, Action))
    ensures
        (next.0@, next.1@) == decided(state@, polled_view(polled)),
{
    match polled {
        Ok(Observation::Playing(track)) => {
            let shown = match &state {
                State::Tracking(last) => *last == track,
                State::Idle => false,
            };
            if shown {
                (state, Action::Wait)
            } else {
                (state, Action::Refresh(track))
            }
        },
        Ok(Observation::NothingPlaying) => match state {
            State::Tracking(_) => (State::Idle, Action::Clear),
            State::Idle => (State::Idle, Action::Wait),
        },
        Err(PollError::Upstream) => (state, Action::Report),
        Err(PollError::Auth) => (state, Action::Stop),
    }
}

/// Completes a refresh: gives `track` the lyrics that `outcome` stands for,
/// and returns the state in which that track is on display together with
/// the block of text to print.
pub fn show(track: Track, outcome: Outcome) -> (next: (State, String))
    ensures
        next.0@ == StateView::Tracking(with_lyrics(track@, outcome@)),
        next.1@ == with_lyrics(track@, outcome@).rendered(),
{
    let lyrics = lyrics_or_default(outcome);
    let shown = track.lyrics(lyrics.as_str());
    let block = shown.render();
    (State::Tracking(shown), block)
}

/// A track that was just seen is not shown a second time: whatever the
/// state, once a poll that saw `first` has been acted on, a poll that sees
/// the same track again asks for nothing and leaves the state alone. So of
/// two polls in a row that see one track, at most the first one renders.
pub proof fn lemma_same_track_renders_once(
    state: StateView,
    first: TrackView,
    second: TrackView,
    outcome: OutcomeView,
)
    requires
        first.same_track(second),
    ensures
        ({
            let (after_poll, action) = decided(state, Ok(ObservationView::Playing(first)));
            let settled = match action {
                ActionView::Refresh(track) => StateView::Tracking(with_lyrics(track, outcome)),
                _ => after_poll,
            };
            decided(settled, Ok(ObservationView::Playing(second))) == (settled, ActionView::Wait)
        }),
{
}

/// When nothing is playing, nothing is rendered and no lyrics are looked
/// for: the state becomes idle, and the only thing asked for, if a track was
/// on display, is to clear it. Seen again, nothing playing asks for nothing
/// at all.
pub proof fn lemma_nothing_playing_is_quiet(state: StateView)
    ensures
        ({
            let (next, action) = decided(state, Ok(ObservationView::NothingPlaying));
            &&& next is Idle
            &&& !(action is Refresh)
            &&& action is Clear <==> state is Tracking
            &&& decided(next, Ok(ObservationView::NothingPlaying)) == (next, ActionView::Wait)
        }),
{
}

/// A track seen from the idle state is always rendered, whatever was on
/// display before playback stopped.
pub proof fn lemma_idle_always_refreshes(track: TrackView)
    ensures
        decided(StateView::Idle, Ok(ObservationView::Playing(track))) == (
            StateView::Idle,
            ActionView::Refresh(track),
        ),
{
}

} // verus!
