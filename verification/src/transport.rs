//! The transport transform that makes an identifier opaque: standard base64 with
//! padding, done by the `base64` crate.
//!
//! What the crate returns is named, not spelled out: `base64_text` is the text
//! it makes of a byte string and `base64_bytes` what it reads from a text.

use vstd::prelude::*;
use vstd::string::*;
use vstd::utf8::*;

verus! {

/// The text that `base64::encode` makes of `bytes`.
pub uninterp spec fn base64_text(bytes: Seq<u8>) -> Seq<char>;

/// The bytes that `base64::decode` reads from `text`, or `None` where it rejects
/// `text`.
pub uninterp spec fn base64_bytes(text: Seq<char>) -> Option<Seq<u8>>;

/// The length of the transformed text of `len` bytes: four characters for every
/// three bytes, the last group padded.
pub open spec fn transformed_len(len: nat) -> nat {
    (len + 2) / 3 * 4
}

/// Whether a text of `len` bytes is short enough for this machine to reverse.
pub open spec fn reversible_len(len: nat) -> bool {
    len + 7 <= usize::MAX
}

/// Whether `len` bytes can be transformed and the result reversed on this machine.
pub open spec fn transformable_len(len: nat) -> bool {
    reversible_len(transformed_len(len))
}

/// What reversing the transform of `text` gives: the bytes that `text` stands for,
/// or `None` where `text` is no transformed text or is too long for this machine.
pub open spec fn reversed(text: Seq<char>) -> Option<Seq<u8>> {
    if reversible_len(encode_utf8(text).len()) {
        base64_bytes(text)
    } else {
        None
    }
}

/// Calls `base64::encode`.
///
/// Trusted: the result is a function of the bytes alone, named `base64_text`;
/// `base64::decode` reads the same bytes back from it; and it takes
/// `transformed_len` bytes. The call panics where that length overflows `usize`,
/// which `requires` leaves out.
#[verifier::external_body]
fn base64_encode(bytes: &[u8]) -> (text: String)
    requires
        transformed_len(bytes@.len()) <= usize::MAX,
    ensures
        text@ == base64_text(bytes@),
        base64_bytes(text@) == Some(bytes@),
        encode_utf8(text@).len() == transformed_len(bytes@.len()),
{
    base64::encode(bytes)
}

/// Calls `base64::decode`.
///
/// Trusted: the outcome is a function of the text alone, named `base64_bytes`,
/// with `None` for every error. The call panics where the length of the text plus
/// seven overflows `usize`, which `requires` leaves out.
#[verifier::external_body]
fn base64_decode(text: &str) -> (bytes: Option<Vec<u8>>)
    requires
        reversible_len(encode_utf8(text@).len()),
    ensures
        match bytes {
            Some(b) => base64_bytes(text@) == Some(b@),
            None => base64_bytes(text@) is None,
        },
{
    match base64::decode(text) {
        Ok(bytes) => Some(bytes),
        Err(_) => None,
    }
}

/// Applies the transport transform to `bytes`.
pub fn transform(bytes: &[u8]) -> (text: String)
    requires
        transformable_len(bytes@.len()),
    ensures
        text@ == base64_text(bytes@),
        reversed(text@) == Some(bytes@),
{
    base64_encode(bytes)
}

/// Reverses the transport transform of `text`.
pub fn reverse(text: &str) -> (bytes: Option<Vec<u8>>)
    ensures
        match bytes {
            Some(b) => reversed(text@) == Some(b@),
            None => reversed(text@) is None,
        },
{
    if text.as_bytes().len() > usize::MAX - 7 {
        None
    } else {
        base64_decode(text)
    }
}

} // verus!
