//! Reading a fetched page: which blocks a selector matches, and what they
//! hold.
//!
//! Parsing the markup and matching selectors is the work of the `scraper`
//! crate. This module hands it text and takes text back; what it computes is
//! not modelled here but named, so that the rest of the library can say
//! exactly what it does with it.

use scraper::{Html, Selector};
use vstd::prelude::*;

verus! {

/// What `scraper` finds in the markup `html`, parsed as a fragment, under
/// the selector group `selector`: nothing where `selector` does not parse;
/// else, for each element that `Html::select` yields, in that order, the
/// text of the element's first child, where the element has children and the
/// first of them is a text node.
pub uninterp spec fn first_texts_of(html: Seq<char>, selector: Seq<char>) -> Option<
    Seq<Option<Seq<char>>>,
>;

/// What `scraper` finds in the markup `html`, parsed as a fragment, under
/// the selector group `selector`: nothing where `selector` does not parse;
/// else, for each element that `Html::select` yields, in that order, the
/// value of the element's attribute `attribute`, where it has one.
pub uninterp spec fn attribute_values_of(
    html: Seq<char>,
    selector: Seq<char>,
    attribute: Seq<char>,
) -> Option<Seq<Option<Seq<char>>>>;

/// Runs `Selector::parse` of `scraper` on `selector`, `Html::parse_fragment`
/// on `html` and `Html::select` with the two, and takes from each element
/// found the text of its first child (`first_child` of the underlying tree,
/// then `Node::as_text`). A selector that does not parse gives `None`; the
/// parser itself takes any markup. The contract claims no more than that the
/// outcome depends on the two texts alone.
#[verifier::external_body]
pub(crate) fn first_texts(html: &str, selector: &str) -> (found: Option<Vec<Option<String>>>)
    ensures
        found.deep_view() == first_texts_of(html@, selector@),
{
    let rule = match Selector::parse(selector) {
        Ok(rule) => rule,
        Err(_) => return None,
    };
    let page = Html::parse_fragment(html);
    let texts = page.select(&rule).map(|block| {
        block.first_child().and_then(|node| node.value().as_text().map(|text| text.to_string()))
    });
    Some(texts.collect())
}

/// Runs `Selector::parse` of `scraper` on `selector`, `Html::parse_fragment`
/// on `html` and `Html::select` with the two, and asks each element found
/// for the value of its attribute `attribute` (`Element::attr`). A selector
/// that does not parse gives `None`; the parser itself takes any markup. The
/// contract claims no more than that the outcome depends on the three texts
/// alone.
#[verifier::external_body]
pub(crate) fn attribute_values(html: &str, selector: &str, attribute: &str) -> (found: Option<
    Vec<Option<String>>,
>)
    ensures
        found.deep_view() == attribute_values_of(html@, selector@, attribute@),
{
    let rule = match Selector::parse(selector) {
        Ok(rule) => rule,
        Err(_) => return None,
    };
    let page = Html::parse_fragment(html);
    let values = page.select(&rule).map(|link| {
        link.value().attr(attribute).map(|value| value.to_string())
    });
    Some(values.collect())
}

} // verus!
