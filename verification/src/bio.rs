//! A biography in HTML, turned into the markup that a chat shows.

use vstd::prelude::*;
use crate::markup::{decode_entities, entities_decoded};
use crate::pattern::{pattern_replaced, replace_matches};
use crate::text::{chars_of, replace, replaced, string_of, trim, trimmed};

verus! {

/// An anchor with its address and its text. The pattern does not reach
/// beyond the tag that opens the anchor, so that each anchor is matched by
/// itself.
pub const LINK_PATTERN: &'static str =
    r#"<a[^>]*href="(?P<link>[^"]*)"[^>]*>(?P<title>.*?)</a>"#;

/// What an anchor becomes: its text in square brackets, its address in round
/// ones.
pub const LINK_FORM: &'static str = "[$title]($link)";

/// A biography with each anchor that `LINK_PATTERN` matches rewritten as
/// `LINK_FORM` says.
pub open spec fn linked(text: Seq<char>) -> Seq<char> {
    match pattern_replaced(LINK_PATTERN@, text, LINK_FORM@) {
        Some(t) => t,
        None => text,
    }
}

/// A biography whose anchors are rewritten already, with the tags of
/// paragraphs, line breaks, bold and italics turned into line ends and
/// stars, and the white space at its ends removed.
pub open spec fn bio_markup(text: Seq<char>) -> Seq<char> {
    let a = replaced(text, "<p>"@, ""@);
    let b = replaced(a, "</p>"@, "\n"@);
    let c = replaced(b, "<br>"@, "\n"@);
    let d = replaced(c, "<b>"@, "**"@);
    let e = replaced(d, "</b>"@, "**"@);
    let f = replaced(e, "<i>"@, "*"@);
    let g = replaced(f, "</i>"@, "*"@);
    trimmed(g)
}

/// The markup that a chat shows for a biography in HTML.
pub open spec fn bio_text(text: Seq<char>) -> Seq<char> {
    entities_decoded(bio_markup(linked(text)))
}

/// Turns the tags of a biography, whose anchors are rewritten already, into
/// line ends and stars, and trims it.
pub fn plain_bio(text: &str) -> (out: String)
    ensures
        out@ == bio_markup(text@),
{
    let t = chars_of(text);
    let a = replace(&t, &chars_of("<p>"), &chars_of(""));
    let b = replace(&a, &chars_of("</p>"), &chars_of("\n"));
    let c = replace(&b, &chars_of("<br>"), &chars_of("\n"));
    let d = replace(&c, &chars_of("<b>"), &chars_of("**"));
    let e = replace(&d, &chars_of("</b>"), &chars_of("**"));
    let f = replace(&e, &chars_of("<i>"), &chars_of("*"));
    let g = replace(&f, &chars_of("</i>"), &chars_of("*"));
    string_of(&trim(&g))
}

/// Turns a biography in HTML into the markup that a chat shows: anchors
/// become links, tags become line ends and stars, character references
/// become characters.
pub fn format_bio(text: &str) -> (out: String)
    ensures
        out@ == bio_text(text@),
{
    let plain = match replace_matches(LINK_PATTERN, text, LINK_FORM) {
        Some(t) => plain_bio(t.as_str()),
        None => plain_bio(text),
    };
    decode_entities(plain.as_str())
}

} // verus!
