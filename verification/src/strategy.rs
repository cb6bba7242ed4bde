//! The ways of finding lyrics on the web, and what each of them makes of a
//! page.
//!
//! A strategy names a search page and says where on a page the text, or the
//! link to the text, stands. Which block of a results page holds the text is
//! a guess about a layout that may change at any time, so it is a setting
//! of the strategy ([`Pick`]) and not a fixed rule.

use crate::page::{attribute_values, attribute_values_of, first_texts, first_texts_of};
use crate::text::{blank, is_blank, plus_for_spaces, replace_spaces};
use crate::track::{artist_line, Track, TrackView};
use vstd::prelude::*;

verus! {

/// Which of the blocks that a selector matched holds the text.
#[derive(Clone, Copy, Debug, PartialEq, Eq, Structural)]
pub enum Pick {
    /// The last block.
    Last,
    /// The block after the first `n`: `Skip(0)` is the first block,
    /// `Skip(3)` the fourth.
    Skip(usize),
}

/// Where a strategy searches: the address of its search page is `prefix`,
/// then the search words, then `suffix`.
#[derive(Clone, Debug)]
pub struct Source {
    pub prefix: String,
    pub suffix: String,
}

/// What a [`Source`] holds, as plain mathematical values.
pub ghost struct SourceView {
    pub prefix: Seq<char>,
    pub suffix: Seq<char>,
}

impl View for Source {
    type V = SourceView;

    open spec fn view(&self) -> SourceView {
        SourceView { prefix: self.prefix@, suffix: self.suffix@ }
    }
}

/// One way of finding lyrics.
#[derive(Clone, Debug)]
pub enum Strategy {
    /// The search page itself shows the text: it stands in one of the blocks
    /// that `selector` matches, and `pick` says in which.
    Snippet { source: Source, selector: String, pick: Pick },
    /// The search page links to a page that shows the text: the first
    /// element that `links` matches names that page in its `href`, and on it
    /// the first element that `lyrics` matches holds the text.
    Linked { source: Source, links: String, lyrics: String },
    /// A strategy that has no implementation. It finds nothing, and nothing
    /// is fetched for it.
    Absent,
}

/// What a [`Strategy`] holds, as plain mathematical values.
pub ghost enum StrategyView {
    Snippet { source: SourceView, selector: Seq<char>, pick: Pick },
    Linked { source: SourceView, links: Seq<char>, lyrics: Seq<char> },
    Absent,
}

impl DeepView for Strategy {
    type V = StrategyView;

    open spec fn deep_view(&self) -> StrategyView {
        match self {
            Strategy::Snippet { source, selector, pick } => StrategyView::Snippet {
                source: source@,
                selector: selector@,
                pick: *pick,
            },
            Strategy::Linked { source, links, lyrics } => StrategyView::Linked {
                source: source@,
                links: links@,
                lyrics: lyrics@,
            },
            Strategy::Absent => StrategyView::Absent,
        }
    }
}

/// Which of the pages of a strategy a page is.
#[derive(Clone, Copy, Debug, PartialEq, Eq, Structural)]
pub enum Leg {
    /// The search page.
    Search,
    /// The page that the search page linked to.
    Follow,
}

/// What came of fetching a page.
#[derive(Clone, Debug)]
pub enum Fetched {
    /// The page arrived: its markup.
    Page(String),
    /// The page could not be had.
    Failed,
}

/// What a [`Fetched`] holds, as plain mathematical values.
pub ghost enum FetchedView {
    Page(Seq<char>),
    Failed,
}

impl View for Fetched {
    type V = FetchedView;

    open spec fn view(&self) -> FetchedView {
        match self {
            Fetched::Page(body) => FetchedView::Page(body@),
            Fetched::Failed => FetchedView::Failed,
        }
    }
}

/// What a strategy makes of a page.
#[derive(Clone, Debug)]
pub enum Reading {
    /// The text it was looking for.
    Text(String),
    /// The address of the page to read next.
    Link(String),
    /// Nothing of use.
    Nothing,
}

/// What a [`Reading`] holds, as plain mathematical values.
pub ghost enum ReadingView {
    Text(Seq<char>),
    Link(Seq<char>),
    Nothing,
}

impl View for Reading {
    type V = ReadingView;

    open spec fn view(&self) -> ReadingView {
        match self {
            Reading::Text(text) => ReadingView::Text(text@),
            Reading::Link(url) => ReadingView::Link(url@),
            Reading::Nothing => ReadingView::Nothing,
        }
    }
}

/// The general search engine, read by way of the blocks in which its result
/// pages show a snippet of text.
pub open spec fn search_engine_view(pick: Pick) -> StrategyView {
    StrategyView::Snippet {
        source: SourceView {
            prefix: "https://www.google.com/search?q="@,
            suffix: "&ie=utf-8&oe=utf-8"@,
        },
        selector: "div[class=\"BNeawe tAd8D AP7Wnd\"]"@,
        pick,
    }
}

/// The lyrics site, read by way of the first result of its search page.
pub open spec fn lyrics_site_view() -> StrategyView {
    StrategyView::Linked {
        source: SourceView {
            prefix: "http://greatlyrics.net/search.html?q="@,
            suffix: "&ie=utf-8&oe=utf-8"@,
        },
        links: "a.txt-primary"@,
        lyrics: "p[id=\"lyrics\"]"@,
    }
}

/// Where `strategy` searches. A strategy without an implementation searches
/// nowhere.
pub open spec fn source_of(strategy: StrategyView) -> Option<SourceView> {
    match strategy {
        StrategyView::Snippet { source, .. } => Some(source),
        StrategyView::Linked { source, .. } => Some(source),
        StrategyView::Absent => None,
    }
}

/// The words to search for: title, artist line and the word "lyrics",
/// separated by spaces, with every space then written as a plus sign.
pub open spec fn query_of(track: TrackView) -> Seq<char> {
    plus_for_spaces(track.title + " "@ + artist_line(track.artists) + " lyrics"@)
}

/// The address of the search page of `source` for the search words `query`.
pub open spec fn search_url(source: SourceView, query: Seq<char>) -> Seq<char> {
    source.prefix + query + source.suffix
}

/// The place of the block that `pick` points at among `count` blocks, if
/// there is one.
pub open spec fn picked(pick: Pick, count: nat) -> Option<int> {
    match pick {
        Pick::Last => if count > 0 {
            Some(count - 1)
        } else {
            None
        },
        Pick::Skip(n) => if n < count {
            Some(n as int)
        } else {
            None
        },
    }
}

/// The text that `pick` finds among `blocks`: that of the block it points
/// at, as it stands, where there is such a block, it holds a text, and the
/// text is not blank.
pub open spec fn chosen(blocks: Seq<Option<Seq<char>>>, pick: Pick) -> Option<Seq<char>> {
    match picked(pick, blocks.len()) {
        Some(place) => match blocks[place] {
            Some(text) => if is_blank(text) {
                None
            } else {
                Some(text)
            },
            None => None,
        },
        None => None,
    }
}

/// The text that `pick` finds in what a page gave under a selector; none
/// where the selector gave nothing.
pub open spec fn chosen_of(found: Option<Seq<Option<Seq<char>>>>, pick: Pick) -> Option<
    Seq<char>,
> {
    match found {
        Some(blocks) => chosen(blocks, pick),
        None => None,
    }
}

/// The address that the first of `links` names, if there is a first and it
/// names one.
pub open spec fn first_link(links: Seq<Option<Seq<char>>>) -> Option<Seq<char>> {
    if links.len() > 0 {
        links[0]
    } else {
        None
    }
}

/// The address that the first link names in what a page gave under a
/// selector; none where the selector gave nothing.
pub open spec fn first_link_of(found: Option<Seq<Option<Seq<char>>>>) -> Option<Seq<char>> {
    match found {
        Some(links) => first_link(links),
        None => None,
    }
}

/// What `strategy` makes of `fetched`, taken as its page `leg`.
///
/// A snippet strategy finds its text on the search page. A linked strategy
/// finds a link on the search page and its text on the page behind the
/// link. A page that did not arrive, a page that the strategy never asks
/// for, and a page without what the strategy looks for all give nothing.
pub open spec fn read(strategy: StrategyView, leg: Leg, fetched: FetchedView) -> ReadingView {
    match (strategy, leg, fetched) {
        (StrategyView::Snippet { selector, pick, .. }, Leg::Search, FetchedView::Page(body)) => {
            match chosen_of(first_texts_of(body, selector), pick) {
                Some(text) => ReadingView::Text(text),
                None => ReadingView::Nothing,
            }
        },
        (StrategyView::Linked { links, .. }, Leg::Search, FetchedView::Page(body)) => {
            match first_link_of(attribute_values_of(body, links, "href"@)) {
                Some(url) => ReadingView::Link(url),
                None => ReadingView::Nothing,
            }
        },
        (StrategyView::Linked { lyrics, .. }, Leg::Follow, FetchedView::Page(body)) => {
            match chosen_of(first_texts_of(body, lyrics), Pick::Skip(0)) {
                Some(text) => ReadingView::Text(text),
                None => ReadingView::Nothing,
            }
        },
        _ => ReadingView::Nothing,
    }
}

impl Strategy {
    /// The general search engine, with `pick` saying which of its snippet
    /// blocks to read.
    pub fn search_engine(pick: Pick) -> (strategy: Strategy)
        ensures
            strategy.deep_view() == search_engine_view(pick),
    {
        Strategy::Snippet {
            source: Source {
                prefix: String::from_str("https://www.google.com/search?q="),
                suffix: String::from_str("&ie=utf-8&oe=utf-8"),
            },
            selector: String::from_str("div[class=\"BNeawe tAd8D AP7Wnd\"]"),
            pick,
        }
    }

    /// The lyrics site.
    pub fn lyrics_site() -> (strategy: Strategy)
        ensures
            strategy.deep_view() == lyrics_site_view(),
    {
        Strategy::Linked {
            source: Source {
                prefix: String::from_str("http://greatlyrics.net/search.html?q="),
                suffix: String::from_str("&ie=utf-8&oe=utf-8"),
            },
            links: String::from_str("a.txt-primary"),
            lyrics: String::from_str("p[id=\"lyrics\"]"),
        }
    }

    /// What `self` makes of `fetched`, taken as its page `leg`.
    pub fn read(&self, leg: Leg, fetched: &Fetched) -> (reading: Reading)
        ensures
            reading@ == read(self.deep_view(), leg, fetched@),
    {
        let body = match fetched {
            Fetched::Page(body) => body.as_str(),
            Fetched::Failed => {
                return Reading::Nothing;
            },
        };
        match self {
            Strategy::Snippet { selector, pick, .. } => match leg {
                Leg::Search => match text_under(body, selector.as_str(), *pick) {
                    Some(text) => Reading::Text(text),
                    None => Reading::Nothing,
                },
                Leg::Follow => Reading::Nothing,
            },
            Strategy::Linked { links, lyrics, .. } => match leg {
                Leg::Search => match link_under(body, links.as_str()) {
                    Some(url) => Reading::Link(url),
                    None => Reading::Nothing,
                },
                Leg::Follow => match text_under(body, lyrics.as_str(), Pick::Skip(0)) {
                    Some(text) => Reading::Text(text),
                    None => Reading::Nothing,
                },
            },
            Strategy::Absent => Reading::Nothing,
        }
    }
}

/// The chain that is used where none is given: the search engine, read at
/// its last snippet block, and after it a second source that has no
/// implementation yet.
pub fn default_chain() -> (chain: Vec<Strategy>)
    ensures
        chain.deep_view() == seq![search_engine_view(Pick::Last), StrategyView::Absent],
{
    let mut chain: Vec<Strategy> = Vec::new();
    chain.push(Strategy::search_engine(Pick::Last));
    chain.push(Strategy::Absent);
    assert(chain.deep_view() =~= seq![search_engine_view(Pick::Last), StrategyView::Absent]);
    chain
}

/// The words to search for, for `track`.
pub fn query(track: &Track) -> (words: String)
    ensures
        words@ == query_of(track@),
{
    let mut plain = String::new();
    plain.append(track.name.as_str());
    plain.append(" ");
    plain.append(track.artist_line().as_str());
    plain.append(" lyrics");
    assert(plain@ =~= track@.title + " "@ + artist_line(track@.artists) + " lyrics"@);
    replace_spaces(plain.as_str())
}

/// The address of the search page of `source` for the search words `words`.
pub fn search_address(source: &Source, words: &str) -> (url: String)
    ensures
        url@ == search_url(source@, words@),
{
    let mut url = String::new();
    url.append(source.prefix.as_str());
    url.append(words);
    url.append(source.suffix.as_str());
    assert(url@ =~= search_url(source@, words@));
    url
}

/// The text that `pick` finds among `blocks`.
pub fn pick_text(blocks: &Vec<Option<String>>, pick: Pick) -> (text: Option<String>)
    ensures
        text.deep_view() == chosen(blocks.deep_view(), pick),
{
    let count = blocks.len();
    let place: usize = match pick {
        Pick::Last => {
            if count == 0 {
                return None;
            }
            count - 1
        },
        Pick::Skip(n) => {
            if n >= count {
                return None;
            }
            n
        },
    };
    assert(blocks.deep_view()[place as int] == blocks@[place as int].deep_view());
    match &blocks[place] {
        Some(text) => {
            if blank(text.as_str()) {
                None
            } else {
                Some(text.clone())
            }
        },
        None => None,
    }
}

/// The address that the first of `links` names.
pub fn first_address(links: &Vec<Option<String>>) -> (address: Option<String>)
    ensures
        address.deep_view() == first_link(links.deep_view()),
{
    if links.len() == 0 {
        return None;
    }
    assert(links.deep_view()[0] == links@[0].deep_view());
    match &links[0] {
        Some(address) => Some(address.clone()),
        None => None,
    }
}

/// The text that `pick` finds in the page `body` under `selector`.
pub fn text_under(body: &str, selector: &str, pick: Pick) -> (text: Option<String>)
    ensures
        text.deep_view() == chosen_of(first_texts_of(body@, selector@), pick),
{
    match first_texts(body, selector) {
        Some(blocks) => pick_text(&blocks, pick),
        None => None,
    }
}

/// The address that the first element under `selector` in the page `body`
/// links to.
pub fn link_under(body: &str, selector: &str) -> (address: Option<String>)
    ensures
        address.deep_view() == first_link_of(attribute_values_of(body@, selector@, "href"@)),
{
    match attribute_values(body, selector, "href") {
        Some(links) => first_address(&links),
        None => None,
    }
}

/// The search words hold no space: each one was written as a plus sign, so
/// that the words can stand in an address.
pub proof fn lemma_query_has_no_space(track: TrackView)
    ensures
        forall|i: int| 0 <= i < query_of(track).len() ==> query_of(track)[i] != ' ',
        query_of(track).len() == track.title.len() + artist_line(track.artists).len() + 8,
{
    reveal_strlit(" ");
    reveal_strlit(" lyrics");
}

} // verus!
