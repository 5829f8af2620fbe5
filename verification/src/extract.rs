//! Picking single values out of what the queries on markup and the patterns
//! return.

use vstd::prelude::*;
use crate::markup::{attribute_values, inner_markup, select_attr, select_inner};
use crate::pattern::{captures_all, pattern_captures};
use crate::records::{copy_text, text_of};

verus! {

/// The first of the values, if there is one and it is something.
pub open spec fn first_value(values: Seq<Option<Seq<char>>>) -> Option<Seq<char>> {
    if values.len() > 0 {
        values[0]
    } else {
        None
    }
}

/// The first of the texts, if there is one.
pub open spec fn first_text(values: Seq<Seq<char>>) -> Option<Seq<char>> {
    if values.len() > 0 {
        Some(values[0])
    } else {
        None
    }
}

/// Group `group` of the first match, if there is a match and the group took
/// part in it.
pub open spec fn first_group(
    captures: Option<Seq<Seq<Option<Seq<char>>>>>,
    group: int,
) -> Option<Seq<char>> {
    match captures {
        Some(all) => if all.len() > 0 && 0 <= group < all[0].len() {
            all[0][group]
        } else {
            None
        },
        None => None,
    }
}

/// The text, or the empty text where there is none.
pub open spec fn or_empty(o: Option<Seq<char>>) -> Seq<char> {
    match o {
        Some(s) => s,
        None => Seq::empty(),
    }
}

/// The attribute `name` of the first element of `document` that `selector`
/// selects.
pub open spec fn first_attribute(
    document: Seq<char>,
    selector: Seq<char>,
    name: Seq<char>,
) -> Option<Seq<char>> {
    first_value(attribute_values(document, selector, name))
}

/// The markup inside the first element of `document` that `selector`
/// selects.
pub open spec fn first_inner(document: Seq<char>, selector: Seq<char>) -> Option<Seq<char>> {
    first_text(inner_markup(document, selector))
}

/// Group `group` of the first match of `pattern` in `text`.
pub open spec fn first_capture(pattern: Seq<char>, text: Seq<char>, group: int) -> Option<
    Seq<char>,
> {
    first_group(pattern_captures(pattern, text), group)
}

/// Picks the first of the values.
pub fn pick_first_value(values: &Vec<Option<String>>) -> (out: Option<String>)
    ensures
        text_of(out) == first_value(values.deep_view()),
{
    if values.len() > 0 {
        copy_text(&values[0])
    } else {
        None
    }
}

/// Picks the first of the texts.
pub fn pick_first_text(values: &Vec<String>) -> (out: Option<String>)
    ensures
        text_of(out) == first_text(values.deep_view()),
{
    if values.len() > 0 {
        Some(values[0].clone())
    } else {
        None
    }
}

/// Picks group `group` of the first match.
pub fn pick_first_group(captures: &Option<Vec<Vec<Option<String>>>>, group: usize) -> (out: Option<
    String,
>)
    ensures
        text_of(out) == first_group(captures.deep_view(), group as int),
{
    match captures {
        Some(all) => {
            if all.len() > 0 && group < all[0].len() {
                copy_text(&all[0][group])
            } else {
                None
            }
        },
        None => None,
    }
}

/// Reads the attribute `name` of the first element that `selector` selects.
pub fn attr_of_first(document: &str, selector: &str, name: &str) -> (out: Option<String>)
    ensures
        text_of(out) == first_attribute(document@, selector@, name@),
{
    pick_first_value(&select_attr(document, selector, name))
}

/// Reads the markup inside the first element that `selector` selects.
pub fn inner_of_first(document: &str, selector: &str) -> (out: Option<String>)
    ensures
        text_of(out) == first_inner(document@, selector@),
{
    pick_first_text(&select_inner(document, selector))
}

/// Reads group `group` of the first match of `pattern` in `text`.
pub fn capture_of_first(pattern: &str, text: &str, group: usize) -> (out: Option<String>)
    ensures
        text_of(out) == first_capture(pattern@, text@, group as int),
{
    pick_first_group(&captures_all(pattern, text), group)
}

} // verus!
