//! Finding the lyrics of a track along a chain of strategies.
//!
//! Fetching is not done here. The resolver is a machine: it says which page
//! it wants next ([`Step::Fetch`]), is handed what came back, and in the end
//! names an [`Outcome`]. The first strategy that finds a text wins. A
//! strategy that finds nothing, or whose page cannot be had, gives way to
//! the next one in the chain, and no page is asked for twice.

use crate::strategy::{
    query, query_of, read, search_address, search_url, source_of, Fetched, FetchedView, Leg,
    Reading, ReadingView, Strategy, StrategyView,
};
use crate::track::{no_lyrics, Track, TrackView, NO_LYRICS};
use vstd::prelude::*;

verus! {

/// What the resolver remembers while a page is being fetched.
#[derive(Clone, Copy, Debug, PartialEq, Eq, Structural)]
pub struct Pending {
    /// The place in the chain of the strategy that asked for the page.
    pub place: usize,
    /// Which of the pages of that strategy it is.
    pub leg: Leg,
    /// Whether any page asked for before this one arrived.
    pub answered: bool,
}

impl Pending {
    /// How far along the chain the resolver is: two steps for each strategy
    /// behind it, and one more once the search page of the strategy at work
    /// has been read.
    pub open spec fn rank(self) -> int {
        match self.leg {
            Leg::Search => 2 * self.place,
            Leg::Follow => 2 * self.place + 1,
        }
    }
}

/// How a resolution ended.
#[derive(Clone, Debug)]
pub enum Outcome {
    /// A strategy found this text.
    Found(String),
    /// No strategy found a text, though pages arrived or none was asked
    /// for.
    NotFound,
    /// No strategy found a text, and of the pages asked for not one
    /// arrived.
    Unreachable,
}

/// What an [`Outcome`] holds, as plain mathematical values.
pub ghost enum OutcomeView {
    Found(Seq<char>),
    NotFound,
    Unreachable,
}

impl View for Outcome {
    type V = OutcomeView;

    open spec fn view(&self) -> OutcomeView {
        match self {
            Outcome::Found(text) => OutcomeView::Found(text@),
            Outcome::NotFound => OutcomeView::NotFound,
            Outcome::Unreachable => OutcomeView::Unreachable,
        }
    }
}

/// What the resolver does next.
#[derive(Clone, Debug)]
pub enum Step {
    /// Fetch the page at `url` and come back with what arrived and with
    /// `pending`.
    Fetch { url: String, pending: Pending },
    /// The resolution is over.
    Done(Outcome),
}

/// What a [`Step`] holds, as plain mathematical values.
pub ghost enum StepView {
    Fetch { url: Seq<char>, pending: Pending },
    Done(OutcomeView),
}

impl View for Step {
    type V = StepView;

    open spec fn view(&self) -> StepView {
        match self {
            Step::Fetch { url, pending } => StepView::Fetch { url: url@, pending: *pending },
            Step::Done(outcome) => StepView::Done(outcome@),
        }
    }
}

/// How a resolution ends once the chain is used up: as unreachable where
/// pages were asked for and none arrived, and with nothing found otherwise.
pub open spec fn exhausted(asked: bool, answered: bool) -> OutcomeView {
    if asked && !answered {
        OutcomeView::Unreachable
    } else {
        OutcomeView::NotFound
    }
}

/// The step that turns to the strategies from place `from` on: the search
/// page of the first among them that has an implementation is asked for, and
/// where there is none the resolution is over. `asked` says whether a page
/// was asked for before, `answered` whether one arrived.
pub open spec fn turn_to(
    chain: Seq<StrategyView>,
    query: Seq<char>,
    from: int,
    asked: bool,
    answered: bool,
) -> StepView
    decreases chain.len() - from,
{
    if from < 0 || from >= chain.len() {
        StepView::Done(exhausted(asked, answered))
    } else {
        match source_of(chain[from]) {
            Some(source) => StepView::Fetch {
                url: search_url(source, query),
                pending: Pending { place: from as usize, leg: Leg::Search, answered },
            },
            None => turn_to(chain, query, from + 1, asked, answered),
        }
    }
}

/// The first step of a resolution.
pub open spec fn begun(chain: Seq<StrategyView>, track: TrackView) -> StepView {
    turn_to(chain, query_of(track), 0, false, false)
}

/// The step after `fetched` came back for `pending`: a text ends the
/// resolution, a link is followed, and on nothing the next strategy takes
/// over.
pub open spec fn resumed(
    chain: Seq<StrategyView>,
    track: TrackView,
    pending: Pending,
    fetched: FetchedView,
) -> StepView {
    let answered = pending.answered || fetched is Page;
    if pending.place >= chain.len() {
        StepView::Done(exhausted(true, answered))
    } else {
        match read(chain[pending.place as int], pending.leg, fetched) {
            ReadingView::Text(text) => StepView::Done(OutcomeView::Found(text)),
            ReadingView::Link(url) => StepView::Fetch {
                url,
                pending: Pending { place: pending.place, leg: Leg::Follow, answered },
            },
            ReadingView::Nothing => turn_to(
                chain,
                query_of(track),
                pending.place + 1,
                true,
                answered,
            ),
        }
    }
}

/// The lyrics that a track gets from an outcome: the text found, else the
/// text that says that none were.
pub open spec fn lyrics_of(outcome: OutcomeView) -> Seq<char> {
    match outcome {
        OutcomeView::Found(text) => text,
        _ => no_lyrics(),
    }
}

/// How a resolution ends once the chain is used up.
fn give_up(asked: bool, answered: bool) -> (outcome: Outcome)
    ensures
        outcome@ == exhausted(asked, answered),
{
    if asked && !answered {
        Outcome::Unreachable
    } else {
        Outcome::NotFound
    }
}

/// Turns to the strategies of `chain` from place `from` on, for the search
/// words `words`: asks for the search page of the first that has an
/// implementation, and ends the resolution where there is none.
pub fn advance_to(chain: &Vec<Strategy>, words: &str, from: usize, asked: bool, answered: bool) -> (step:
    Step)
    ensures
        step@ == turn_to(chain.deep_view(), words@, from as int, asked, answered),
{
    let mut place: usize = from;
    while place < chain.len()
        invariant
            from <= place,
            turn_to(chain.deep_view(), words@, place as int, asked, answered) == turn_to(
                chain.deep_view(),
                words@,
                from as int,
                asked,
                answered,
            ),
        decreases chain.len() - place,
    {
        assert(chain.deep_view()[place as int] == chain@[place as int].deep_view());
        match &chain[place] {
            Strategy::Snippet { source, .. } => {
                return Step::Fetch {
                    url: search_address(source, words),
                    pending: Pending { place, leg: Leg::Search, answered },
                };
            },
            Strategy::Linked { source, .. } => {
                return Step::Fetch {
                    url: search_address(source, words),
                    pending: Pending { place, leg: Leg::Search, answered },
                };
            },
            Strategy::Absent => {},
        }
        place += 1;
    }
    Step::Done(give_up(asked, answered))
}

/// Starts the resolution of the lyrics of `track` along `chain`.
pub fn begin(chain: &Vec<Strategy>, track: &Track) -> (step: Step)
    ensures
        step@ == begun(chain.deep_view(), track@),
{
    advance_to(chain, query(track).as_str(), 0, false, false)
}

/// Goes on with the resolution of the lyrics of `track` along `chain`, now
/// that `fetched` came back for the page that `pending` stands for. A
/// `pending` that fits no strategy of the chain is taken for a page that
/// gave nothing.
pub fn resume(chain: &Vec<Strategy>, track: &Track, pending: Pending, fetched: Fetched) -> (step:
    Step)
    ensures
        step@ == resumed(chain.deep_view(), track@, pending, fetched@),
{
    let arrived = match &fetched {
        Fetched::Page(_) => true,
        Fetched::Failed => false,
    };
    let answered = pending.answered || arrived;
    if pending.place >= chain.len() {
        return Step::Done(give_up(true, answered));
    }
    assert(chain.deep_view()[pending.place as int] == chain@[pending.place as int].deep_view());
    match chain[pending.place].read(pending.leg, &fetched) {
        Reading::Text(text) => Step::Done(Outcome::Found(text)),
        Reading::Link(url) => Step::Fetch {
            url,
            pending: Pending { place: pending.place, leg: Leg::Follow, answered },
        },
        Reading::Nothing => advance_to(
            chain,
            query(track).as_str(),
            pending.place + 1,
            true,
            answered,
        ),
    }
}

/// The lyrics that a track gets from `outcome`.
pub fn lyrics_or_default(outcome: Outcome) -> (lyrics: String)
    ensures
        lyrics@ == lyrics_of(outcome@),
{
    match outcome {
        Outcome::Found(text) => text,
        _ => String::from_str(NO_LYRICS),
    }
}

/// What turning to the strategies from place `from` on comes to: either the
/// search page of the first strategy at or after `from` that has an
/// implementation is asked for, every one before it having none, or no
/// strategy from `from` on has one and the resolution is over.
pub proof fn lemma_turn_to(
    chain: Seq<StrategyView>,
    query: Seq<char>,
    from: int,
    asked: bool,
    answered: bool,
)
    requires
        0 <= from,
        chain.len() <= usize::MAX,
    ensures
        match turn_to(chain, query, from, asked, answered) {
            StepView::Fetch { url, pending } => {
                &&& pending.leg == Leg::Search
                &&& from <= pending.place < chain.len()
                &&& pending.answered == answered
                &&& source_of(chain[pending.place as int]) matches Some(source)
                &&& url == search_url(source, query)
                &&& forall|k: int| from <= k < pending.place ==> chain[k] is Absent
            },
            StepView::Done(outcome) => {
                &&& outcome == exhausted(asked, answered)
                &&& forall|k: int| from <= k < chain.len() ==> chain[k] is Absent
            },
        },
    decreases chain.len() - from,
{
    if from < chain.len() && chain[from] is Absent {
        lemma_turn_to(chain, query, from + 1, asked, answered);
    }
}

/// The chain is walked in order, and no page is asked for twice: whatever
/// came back, the resolver either ends, or follows the link that the
/// strategy at work found on its search page, or asks for the search page of
/// a strategy further down the chain. It ends as unreachable exactly when
/// not one page has arrived.
pub proof fn lemma_chain_moves_forward(
    chain: Seq<StrategyView>,
    track: TrackView,
    pending: Pending,
    fetched: FetchedView,
)
    requires
        chain.len() <= usize::MAX,
    ensures
        match resumed(chain, track, pending, fetched) {
            StepView::Fetch { pending: next, .. } => {
                &&& next.rank() > pending.rank()
                &&& next.place < chain.len()
                &&& !(chain[next.place as int] is Absent)
                &&& next.answered == (pending.answered || fetched is Page)
                &&& next.leg == Leg::Follow ==> next.place == pending.place && pending.leg
                    == Leg::Search
            },
            StepView::Done(outcome) => {
                &&& outcome is Unreachable <==> !pending.answered && fetched is Failed
                &&& outcome is Found ==> fetched is Page
            },
        },
{
    if pending.place < chain.len() {
        lemma_turn_to(
            chain,
            query_of(track),
            pending.place + 1,
            true,
            pending.answered || fetched is Page,
        );
    }
}

/// The order of fallback, for a chain of two strategies that both have an
/// implementation. The resolution starts with the search page of the first.
/// If the first makes nothing of its page, the search page of the second is
/// asked for, once; and if the second makes nothing of its page either, the
/// resolution is over and the lyrics are the text that says that none were
/// found.
pub proof fn lemma_fallback_order(
    first: StrategyView,
    second: StrategyView,
    track: TrackView,
    page_one: FetchedView,
    page_two: FetchedView,
)
    requires
        !(first is Absent),
        !(second is Absent),
    ensures
        ({
            let chain = seq![first, second];
            let words = query_of(track);
            let one = Pending { place: 0, leg: Leg::Search, answered: false };
            let two = Pending { place: 1, leg: Leg::Search, answered: page_one is Page };
            &&& begun(chain, track) == StepView::Fetch {
                url: search_url(source_of(first)->0, words),
                pending: one,
            }
            &&& read(first, Leg::Search, page_one) is Nothing ==> {
                &&& resumed(chain, track, one, page_one) == StepView::Fetch {
                    url: search_url(source_of(second)->0, words),
                    pending: two,
                }
                &&& read(second, Leg::Search, page_two) is Nothing ==> {
                    &&& resumed(chain, track, two, page_two) matches StepView::Done(outcome)
                    &&& !(outcome is Found)
                    &&& lyrics_of(outcome) == no_lyrics()
                }
            }
        }),
{
    let chain = seq![first, second];
    let words = query_of(track);
    lemma_turn_to(chain, words, 0, false, false);
    lemma_turn_to(chain, words, 1, true, page_one is Page);
    lemma_turn_to(chain, words, 2, true, page_one is Page || page_two is Page);
}

} // verus!
