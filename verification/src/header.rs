//! The text of a header of an HTTP response.

use vstd::prelude::*;
use reqwest::header::HeaderValue;
use crate::roulette::{Probe, ProbeView};

verus! {

#[verifier::external_type_specification]
#[verifier::external_body]
pub struct ExHeaderValue(HeaderValue);

/// The bytes that a header value holds.
pub uninterp spec fn header_bytes(value: HeaderValue) -> Seq<u8>;

/// Whether a byte is a visible ASCII character, a space or a tab.
pub open spec fn is_visible(b: u8) -> bool {
    32 <= b < 127 || b == 9
}

/// Whether every byte is a visible ASCII character, a space or a tab.
pub open spec fn all_visible(bytes: Seq<u8>) -> bool {
    forall|i: int| 0 <= i < bytes.len() ==> is_visible(#[trigger] bytes[i])
}

/// The characters that bytes of ASCII stand for, in order.
pub open spec fn ascii_text(bytes: Seq<u8>) -> Seq<char> {
    bytes.map_values(|b: u8| b as char)
}

/// The text of a header value that holds `bytes`: the characters that the
/// bytes stand for where all of them are visible, and nothing else.
pub open spec fn header_string(bytes: Seq<u8>) -> Seq<char> {
    if all_visible(bytes) {
        ascii_text(bytes)
    } else {
        Seq::empty()
    }
}

/// The value of a header as a string.
pub trait HeaderValueExt {
    /// The value as text; empty where the value is no text.
    fn to_string(&self) -> String;
}

/// Calls `HeaderValue::to_str`, which scans the bytes of the value: where
/// each is a visible ASCII character, a space or a tab it gives the bytes as
/// a string, and else an error, which is nothing here.
#[verifier::external_body]
fn header_text(value: &HeaderValue) -> (out: Option<String>)
    ensures
        out is Some <==> all_visible(header_bytes(*value)),
        out is Some ==> out->0@ == ascii_text(header_bytes(*value)),
{
    value.to_str().ok().map(|text| text.to_string())
}

/// The text that was read, or the empty string where none was.
pub fn text_or_empty(text: Option<String>) -> (out: String)
    ensures
        out@ == match text {
            Some(t) => t@,
            None => Seq::<char>::empty(),
        },
{
    match text {
        Some(t) => t,
        None => String::new(),
    }
}

impl HeaderValueExt for HeaderValue {
    fn to_string(&self) -> (out: String)
        ensures
            out@ == header_string(header_bytes(*self)),
    {
        text_or_empty(header_text(self))
    }
}

/// What an answered probe carries, from the header that calls the type of
/// the page: the text of the header, or nothing where there is no header.
pub open spec fn answer_of(kind: Option<&HeaderValue>) -> ProbeView {
    match kind {
        Some(value) => ProbeView::Answered(Some(header_string(header_bytes(*value)))),
        None => ProbeView::Answered(None),
    }
}

/// What a probe brought that was answered, from the header that calls the
/// type of the page: the text of the header, or nothing where the answer had
/// no such header.
pub fn answered(kind: Option<&HeaderValue>) -> (out: Probe)
    ensures
        out@ == answer_of(kind),
{
    match kind {
        Some(value) => Probe::Answered(Some(value.to_string())),
        None => Probe::Answered(None),
    }
}

} // verus!
