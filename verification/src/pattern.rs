//! Regular expressions, matched by the `regex` crate.
//!
//! What a pattern matches is not proved here: it is given a name, and the
//! functions that match state their results over that name.

use vstd::prelude::*;

verus! {

/// The matches of `pattern` in `text`, from left to right without overlap;
/// for each match its groups, the whole match first, a group that took no
/// part being nothing. Nothing at all where `pattern` is no valid expression.
pub uninterp spec fn pattern_captures(pattern: Seq<char>, text: Seq<char>) -> Option<
    Seq<Seq<Option<Seq<char>>>>,
>;

/// `text` with each match of `pattern` replaced by `replacement`, in which
/// `$name` and `$1` stand for groups of the match. Nothing where `pattern` is
/// no valid expression.
pub uninterp spec fn pattern_replaced(
    pattern: Seq<char>,
    text: Seq<char>,
    replacement: Seq<char>,
) -> Option<Seq<char>>;

/// Compiles `pattern` with `regex::Regex::new`, walks
/// `Regex::captures_iter` over `text` and copies the groups of each match out
/// of `Captures::iter`. The contract only names the result: the same two
/// texts always give the same matches.
#[verifier::external_body]
pub(crate) fn captures_all(pattern: &str, text: &str) -> (out: Option<Vec<Vec<Option<String>>>>)
    ensures
        out.deep_view() == pattern_captures(pattern@, text@),
{
    match regex::Regex::new(pattern) {
        Ok(re) => Some(
            re.captures_iter(text).map(
                |c| c.iter().map(|g| g.map(|m| m.as_str().to_string())).collect(),
            ).collect(),
        ),
        Err(_) => None,
    }
}

/// Compiles `pattern` with `regex::Regex::new` and calls
/// `Regex::replace_all`. The contract only names the result: the same three
/// texts always give the same text.
#[verifier::external_body]
pub(crate) fn replace_matches(pattern: &str, text: &str, replacement: &str) -> (out: Option<String>)
    ensures
        out.deep_view() == pattern_replaced(pattern@, text@, replacement@),
{
    match regex::Regex::new(pattern) {
        Ok(re) => Some(re.replace_all(text, replacement).into_owned()),
        Err(_) => None,
    }
}

} // verus!
