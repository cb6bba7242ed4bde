//! What a chain of strategies comes to, said without the machine, and the
//! proof that the machine comes to the same.
//!
//! The web is taken as a function from addresses to what fetching them
//! gives. Under any such function the resolver, run step by step, ends with
//! the text of the first strategy in the chain that finds one.

use crate::resolver::{
    begun, exhausted, lyrics_of, resumed, turn_to, OutcomeView, Pending, StepView,
};
use crate::strategy::{
    query_of, read, search_url, source_of, FetchedView, Leg, ReadingView, StrategyView,
};
use crate::track::{no_lyrics, TrackView};
use vstd::prelude::*;

verus! {

/// What one strategy comes to by itself.
pub ghost struct Attempt {
    /// The text that it found, if it found one.
    pub text: Option<Seq<char>>,
    /// Whether it asked for a page at all.
    pub asked: bool,
    /// Whether a page that it asked for arrived.
    pub answered: bool,
}

/// What `strategy` comes to for the search words `query`, where fetching
/// the page at an address gives what `web` says for that address. A snippet
/// strategy reads its search page. A linked strategy reads its search page
/// and, if that names a link, the page behind it. A strategy without an
/// implementation asks for nothing.
pub open spec fn attempt(
    strategy: StrategyView,
    query: Seq<char>,
    web: spec_fn(Seq<char>) -> FetchedView,
) -> Attempt {
    match source_of(strategy) {
        None => Attempt { text: None, asked: false, answered: false },
        Some(source) => {
            let results = web(search_url(source, query));
            match read(strategy, Leg::Search, results) {
                ReadingView::Text(text) => Attempt { text: Some(text), asked: true, answered: true },
                ReadingView::Link(url) => match read(strategy, Leg::Follow, web(url)) {
                    ReadingView::Text(text) => Attempt {
                        text: Some(text),
                        asked: true,
                        answered: true,
                    },
                    _ => Attempt { text: None, asked: true, answered: true },
                },
                ReadingView::Nothing => Attempt {
                    text: None,
                    asked: true,
                    answered: results is Page,
                },
            }
        },
    }
}

/// What the strategies of `chain` from place `from` on come to, one after
/// the other: the text of the first that finds one. Where none does, the
/// resolution is unreachable if pages were asked for and none arrived, and
/// has found nothing otherwise. `asked` and `answered` say the same of the
/// strategies before `from`.
pub open spec fn resolution(
    chain: Seq<StrategyView>,
    query: Seq<char>,
    web: spec_fn(Seq<char>) -> FetchedView,
    from: int,
    asked: bool,
    answered: bool,
) -> OutcomeView
    decreases chain.len() - from,
{
    if from < 0 || from >= chain.len() {
        exhausted(asked, answered)
    } else {
        let tried = attempt(chain[from], query, web);
        match tried.text {
            Some(text) => OutcomeView::Found(text),
            None => resolution(
                chain,
                query,
                web,
                from + 1,
                asked || tried.asked,
                answered || tried.answered,
            ),
        }
    }
}

/// Whether no strategy of `chain` from place `from` on finds a text.
pub open spec fn finds_nothing(
    chain: Seq<StrategyView>,
    query: Seq<char>,
    web: spec_fn(Seq<char>) -> FetchedView,
    from: int,
) -> bool {
    forall|place: int|
        from <= place < chain.len() ==> (#[trigger] attempt(chain[place], query, web)).text
            is None
}

/// Where the machine ends when it is run from `step` and every page it asks
/// for is what `web` gives for its address; nothing if it has not ended
/// after `fuel` pages.
pub open spec fn run(
    chain: Seq<StrategyView>,
    track: TrackView,
    step: StepView,
    web: spec_fn(Seq<char>) -> FetchedView,
    fuel: nat,
) -> Option<OutcomeView>
    decreases fuel,
{
    match step {
        StepView::Done(outcome) => Some(outcome),
        StepView::Fetch { url, pending } => if fuel == 0 {
            None
        } else {
            run(chain, track, resumed(chain, track, pending, web(url)), web, (fuel - 1) as nat)
        },
    }
}

/// Running the machine from the strategy at place `from` ends where the
/// strategies from `from` on, tried in order, come to.
proof fn lemma_run_from(
    chain: Seq<StrategyView>,
    track: TrackView,
    web: spec_fn(Seq<char>) -> FetchedView,
    from: int,
    asked: bool,
    answered: bool,
    fuel: nat,
)
    requires
        0 <= from,
        chain.len() <= usize::MAX,
        fuel >= 2 * (chain.len() - from),
    ensures
        run(chain, track, turn_to(chain, query_of(track), from, asked, answered), web, fuel)
            == Some(resolution(chain, query_of(track), web, from, asked, answered)),
    decreases chain.len() - from,
{
    let query = query_of(track);
    if from < chain.len() {
        let strategy = chain[from];
        match source_of(strategy) {
            None => {
                lemma_run_from(chain, track, web, from + 1, asked, answered, fuel);
            },
            Some(source) => {
                let pending = Pending { place: from as usize, leg: Leg::Search, answered };
                let results = web(search_url(source, query));
                let arrived = answered || results is Page;
                let after = resumed(chain, track, pending, results);
                match read(strategy, Leg::Search, results) {
                    ReadingView::Text(text) => {
                        assert(run(chain, track, after, web, (fuel - 1) as nat) == Some(
                            OutcomeView::Found(text),
                        ));
                    },
                    ReadingView::Link(url) => {
                        let following = Pending {
                            place: from as usize,
                            leg: Leg::Follow,
                            answered: arrived,
                        };
                        let last = resumed(chain, track, following, web(url));
                        assert(after == StepView::Fetch { url, pending: following });
                        assert(run(chain, track, after, web, (fuel - 1) as nat) == run(
                            chain,
                            track,
                            last,
                            web,
                            (fuel - 2) as nat,
                        ));
                        match read(strategy, Leg::Follow, web(url)) {
                            ReadingView::Text(text) => {},
                            _ => {
                                lemma_run_from(
                                    chain,
                                    track,
                                    web,
                                    from + 1,
                                    true,
                                    true,
                                    (fuel - 2) as nat,
                                );
                            },
                        }
                    },
                    ReadingView::Nothing => {
                        lemma_run_from(
                            chain,
                            track,
                            web,
                            from + 1,
                            true,
                            arrived,
                            (fuel - 1) as nat,
                        );
                    },
                }
            },
        }
    }
}

/// Where no strategy from place `from` on finds a text, the resolution finds
/// none.
proof fn lemma_nothing_found(
    chain: Seq<StrategyView>,
    query: Seq<char>,
    web: spec_fn(Seq<char>) -> FetchedView,
    from: int,
    asked: bool,
    answered: bool,
)
    requires
        0 <= from,
        finds_nothing(chain, query, web, from),
    ensures
        !(resolution(chain, query, web, from, asked, answered) is Found),
    decreases chain.len() - from,
{
    if from < chain.len() {
        let tried = attempt(chain[from], query, web);
        assert(tried.text is None);
        assert(finds_nothing(chain, query, web, from + 1));
        lemma_nothing_found(
            chain,
            query,
            web,
            from + 1,
            asked || tried.asked,
            answered || tried.answered,
        );
    }
}

/// The resolver finds what the chain, tried in order, comes to. Run from its
/// first step, with every page being what `web` gives for its address, the
/// machine ends after at most two pages for each strategy, and it ends with
/// the text of the first strategy that finds one. Where no strategy finds
/// one, it ends without, and the lyrics are then the text that says that
/// none were found.
pub proof fn lemma_resolver_follows_chain(
    chain: Seq<StrategyView>,
    track: TrackView,
    web: spec_fn(Seq<char>) -> FetchedView,
    fuel: nat,
)
    requires
        chain.len() <= usize::MAX,
        fuel >= 2 * chain.len(),
    ensures
        run(chain, track, begun(chain, track), web, fuel) == Some(
            resolution(chain, query_of(track), web, 0, false, false),
        ),
        finds_nothing(chain, query_of(track), web, 0) ==> lyrics_of(
            resolution(chain, query_of(track), web, 0, false, false),
        ) == no_lyrics(),
{
    lemma_run_from(chain, track, web, 0, false, false, fuel);
    if finds_nothing(chain, query_of(track), web, 0) {
        lemma_nothing_found(chain, query_of(track), web, 0, false, false);
    }
}

} // verus!
