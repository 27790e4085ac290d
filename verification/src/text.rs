//! Small helpers on text.

use vstd::prelude::*;
use vstd::utf8::{decode_utf8, valid_utf8};

verus! {

/// Whether two pieces of text hold the same characters.
pub fn same_text(a: &str, b: &str) -> (same: bool)
    ensures
        same == (a@ == b@),
{
    a.to_owned() == b.to_owned()
}

/// Whether an optional piece of text is present and equal to `expected`.
pub fn is_text(text: Option<&str>, expected: &str) -> (same: bool)
    ensures
        same == (text.deep_view() == Some(expected@)),
{
    match text {
        Some(t) => same_text(t, expected),
        None => false,
    }
}

/// The text that bytes encode, or `None` where they are not UTF-8.
///
/// Calls `String::from_utf8`. Taken on trust: it accepts exactly the valid
/// UTF-8 encodings and returns the characters they encode.
#[verifier::external_body]
pub(crate) fn decode(bytes: Vec<u8>) -> (text: Option<String>)
    ensures
        match text {
            Some(t) => valid_utf8(bytes@) && t@ == decode_utf8(bytes@),
            None => !valid_utf8(bytes@),
        },
{
    String::from_utf8(bytes).ok()
}

} // verus!
