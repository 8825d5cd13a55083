//! Underlying keys and their textual form.
//!
//! A key is a 128-bit value, held as a `u128`. Its textual form is the canonical
//! hyphenated representation of a UUID: thirty-two lower-case hexadecimal digits,
//! most significant first, in groups of 8, 4, 4, 4 and 12 separated by hyphens.
//! Formatting and parsing are done by the `uuid` crate.

use vstd::arithmetic::power::pow;
use vstd::prelude::*;

verus! {

/// The sixteen lower-case hexadecimal digits, in order of value.
pub open spec fn hex_digits() -> Seq<char> {
    seq!['0', '1', '2', '3', '4', '5', '6', '7', '8', '9', 'a', 'b', 'c', 'd', 'e', 'f']
}

/// The value of the hexadecimal digit of `key` at `index`, where index 0 is the
/// most significant digit and index 31 the least significant one.
pub open spec fn key_digit(key: u128, index: int) -> int {
    (key as int / pow(16, (31 - index) as nat)) % 16
}

/// Whether position `at` of the hyphenated form holds a hyphen.
pub open spec fn is_hyphen_position(at: int) -> bool {
    at == 8 || at == 13 || at == 18 || at == 23
}

/// The number of hyphens that stand before position `at` of the hyphenated form.
pub open spec fn hyphens_before(at: int) -> int {
    if at < 8 {
        0
    } else if at < 13 {
        1
    } else if at < 18 {
        2
    } else if at < 23 {
        3
    } else {
        4
    }
}

/// The canonical hyphenated text of `key`: 36 characters, a hyphen at positions
/// 8, 13, 18 and 23, and the hexadecimal digits of `key` everywhere else.
pub open spec fn hyphenated(key: u128) -> Seq<char> {
    Seq::new(
        36,
        |at: int|
            if is_hyphen_position(at) {
                '-'
            } else {
                hex_digits()[key_digit(key, at - hyphens_before(at))]
            },
    )
}

/// The key that `uuid::Uuid::parse_str` reads from `text`, or `None` where it
/// rejects `text`.
pub uninterp spec fn parsed_key(text: Seq<char>) -> Option<u128>;

/// The hyphenated form has no character outside ASCII and none equal to `:`.
pub proof fn lemma_hyphenated_plain(key: u128)
    ensures
        hyphenated(key).len() == 36,
        vstd::utf8::is_ascii_chars(hyphenated(key)),
        !hyphenated(key).contains(':'),
{
    let text = hyphenated(key);
    assert forall|at: int| 0 <= at < text.len() implies '\0' <= #[trigger] text[at] <= '\u{7f}'
        && text[at] != ':' by {
        if !is_hyphen_position(at) {
            let digit = key_digit(key, at - hyphens_before(at));
            assert(0 <= digit < 16);
            assert(text[at] == hex_digits()[digit]);
        }
    }
}

/// Formats `key` with `uuid::Uuid::to_string`, after `uuid::Uuid::from_u128`.
///
/// Trusted: the text is the lower-case hyphenated form of the key, and
/// `uuid::Uuid::parse_str` reads the same key back from it.
#[verifier::external_body]
pub(crate) fn key_text(key: u128) -> (text: String)
    ensures
        text@ == hyphenated(key),
        parsed_key(text@) == Some(key),
{
    uuid::Uuid::from_u128(key).to_string()
}

/// Parses `text` with `uuid::Uuid::parse_str` and takes the value with
/// `uuid::Uuid::as_u128`.
///
/// Trusted: the outcome is a function of the text alone, named `parsed_key`.
#[verifier::external_body]
pub(crate) fn parse_key(text: &str) -> (key: Option<u128>)
    ensures
        key == parsed_key(text@),
{
    match uuid::Uuid::parse_str(text) {
        Ok(id) => Some(id.as_u128()),
        Err(_) => None,
    }
}

} // verus!
