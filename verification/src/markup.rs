//! Queries on HTML text, answered by the `scraper` and `html_escape` crates.
//!
//! Each query parses the text anew and hands back plain strings. What a
//! query returns is not proved here: it is given a name, and the functions
//! that ask state their results over that name.

use vstd::prelude::*;

verus! {

/// For each element of `document` that `selector` selects, in the order in
/// which `scraper` visits them: the value of its attribute `name`, or
/// nothing where the element lacks it. Empty where `selector` does not parse.
pub uninterp spec fn attribute_values(
    document: Seq<char>,
    selector: Seq<char>,
    name: Seq<char>,
) -> Seq<Option<Seq<char>>>;

/// For each element of `document` that `selector` selects: the HTML of what
/// the element holds, as `scraper` writes it out. Empty where `selector` does
/// not parse.
pub uninterp spec fn inner_markup(document: Seq<char>, selector: Seq<char>) -> Seq<Seq<char>>;

/// For each element of `document` that `selector` selects: the text nodes
/// below it, in document order. Empty where `selector` does not parse.
pub uninterp spec fn text_nodes(document: Seq<char>, selector: Seq<char>) -> Seq<Seq<Seq<char>>>;

/// `text` with its HTML character references replaced by the characters they
/// stand for, as `html_escape` decodes them.
pub uninterp spec fn entities_decoded(text: Seq<char>) -> Seq<char>;

/// Parses `document` with `scraper::Html::parse_document`, parses `selector`
/// with `scraper::Selector::parse`, walks `Html::select` and reads
/// `Element::attr` of each element found. The contract only names the
/// result: the same three texts always give the same values.
#[verifier::external_body]
pub(crate) fn select_attr(document: &str, selector: &str, name: &str) -> (out: Vec<Option<String>>)
    ensures
        out.deep_view() == attribute_values(document@, selector@, name@),
{
    let tree = scraper::Html::parse_document(document);
    match scraper::Selector::parse(selector) {
        Ok(sel) => tree.select(&sel).map(|e| e.value().attr(name).map(|v| v.to_string())).collect(),
        Err(_) => Vec::new(),
    }
}

/// Parses `document` with `scraper::Html::parse_document`, parses `selector`
/// with `scraper::Selector::parse`, walks `Html::select` and takes
/// `ElementRef::inner_html` of each element found. The contract only names
/// the result: with attributes kept in document order, the same two texts
/// always give the same markup.
#[verifier::external_body]
pub(crate) fn select_inner(document: &str, selector: &str) -> (out: Vec<String>)
    ensures
        out.deep_view() == inner_markup(document@, selector@),
{
    let tree = scraper::Html::parse_document(document);
    match scraper::Selector::parse(selector) {
        Ok(sel) => tree.select(&sel).map(|e| e.inner_html()).collect(),
        Err(_) => Vec::new(),
    }
}

/// Parses `document` with `scraper::Html::parse_document`, parses `selector`
/// with `scraper::Selector::parse`, walks `Html::select` and collects
/// `ElementRef::text` of each element found. The contract only names the
/// result: the same two texts always give the same text nodes.
#[verifier::external_body]
pub(crate) fn select_text(document: &str, selector: &str) -> (out: Vec<Vec<String>>)
    ensures
        out.deep_view() == text_nodes(document@, selector@),
{
    let tree = scraper::Html::parse_document(document);
    match scraper::Selector::parse(selector) {
        Ok(sel) => tree.select(&sel).map(|e| e.text().map(|t| t.to_string()).collect()).collect(),
        Err(_) => Vec::new(),
    }
}

/// Calls `html_escape::decode_html_entities`. The contract only names the
/// result: the same text always decodes to the same text.
#[verifier::external_body]
pub(crate) fn decode_entities(text: &str) -> (out: String)
    ensures
        out@ == entities_decoded(text@),
{
    html_escape::decode_html_entities(text).into_owned()
}

} // verus!
