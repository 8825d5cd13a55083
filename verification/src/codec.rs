//! The identifier codec.
//!
//! An opaque identifier is the transport transform of the clear text
//! `<type tag>:<key>`, where the key stands in its hyphenated form. Decoding
//! reverses the transform, splits the clear text at the first separator and
//! parses the key.

use crate::key::{hyphenated, key_text, lemma_hyphenated_plain, parse_key, parsed_key};
use crate::text::{
    lemma_encode_utf8_concat, lemma_split_joined, split_at_first, split_once, utf8_text,
};
use crate::transport::{base64_text, reverse, reversed, transform, transformable_len};
use vstd::prelude::*;
use vstd::string::*;
use vstd::utf8::*;

verus! {

/// The character that separates the type tag from the key in the clear text.
pub const SEPARATOR: char = ':';

/// Why an identifier could not be decoded.
#[derive(Clone, Copy, Debug, PartialEq, Eq, Structural)]
pub enum DecodeError {
    /// The transport transform could not be reversed, the bytes are no UTF-8
    /// text, or the clear text holds no separator.
    Malformed,
    /// The part after the separator is no well-formed key.
    InvalidKey,
}

/// What decoding gives in contracts: the type tag as a sequence of characters and
/// the key, or the error.
pub type Decoded = Result<(Seq<char>, u128), DecodeError>;

/// The clear text of the identifier of `key` under the type tag `tag`.
pub open spec fn clear_text(tag: Seq<char>, key: u128) -> Seq<char> {
    tag + seq![SEPARATOR] + hyphenated(key)
}

/// The opaque identifier of `key` under the type tag `tag`.
pub open spec fn global_id_text(tag: Seq<char>, key: u128) -> Seq<char> {
    base64_text(encode_utf8(clear_text(tag, key)))
}

/// Whether identifiers under `tag` are short enough for this machine to encode
/// and decode: the clear text takes the tag's UTF-8 bytes and 37 more.
pub open spec fn encodable(tag: Seq<char>) -> bool {
    transformable_len(encode_utf8(tag).len() + 37)
}

/// What a parsed key segment makes of a type tag: the pair, or `InvalidKey`.
pub open spec fn keyed(tag: Seq<char>, parsed: Option<u128>) -> Decoded {
    match parsed {
        Some(key) => Ok((tag, key)),
        None => Err(DecodeError::InvalidKey),
    }
}

/// What the clear text `text` stands for.
pub open spec fn clear_decoded(text: Seq<char>) -> Decoded {
    match split_at_first(text, SEPARATOR) {
        Some((tag, segment)) => keyed(tag, parsed_key(segment)),
        None => Err(DecodeError::Malformed),
    }
}

/// What the bytes under the transport transform stand for.
pub open spec fn bytes_decoded(bytes: Seq<u8>) -> Decoded {
    if valid_utf8(bytes) {
        clear_decoded(decode_utf8(bytes))
    } else {
        Err(DecodeError::Malformed)
    }
}

/// What the opaque identifier `id` stands for.
pub open spec fn decoded(id: Seq<char>) -> Decoded {
    match reversed(id) {
        Some(bytes) => bytes_decoded(bytes),
        None => Err(DecodeError::Malformed),
    }
}

/// The outcome of a decoding function as contracts see it.
pub open spec fn outcome_view(outcome: Result<(String, u128), DecodeError>) -> Decoded {
    match outcome {
        Ok((tag, key)) => Ok((tag@, key)),
        Err(e) => Err(e),
    }
}

/// The clear text of a tag without separator decodes to the tag and the key,
/// provided that the key's text parses back to the key.
pub proof fn lemma_clear_round_trip(tag: Seq<char>, key: u128)
    requires
        !tag.contains(SEPARATOR),
        parsed_key(hyphenated(key)) == Some(key),
    ensures
        clear_decoded(clear_text(tag, key)) == Ok::<(Seq<char>, u128), DecodeError>((tag, key)),
{
    lemma_split_joined(tag, SEPARATOR, hyphenated(key));
}

/// The clear text takes the tag's UTF-8 bytes, one for the separator and 36 for
/// the key.
pub proof fn lemma_clear_text_len(tag: Seq<char>, key: u128)
    ensures
        encode_utf8(clear_text(tag, key)).len() == encode_utf8(tag).len() + 37,
{
    let tail = seq![SEPARATOR] + hyphenated(key);
    lemma_hyphenated_plain(key);
    assert(is_ascii_chars(tail));
    is_ascii_chars_encode_utf8(tail);
    assert(clear_text(tag, key) =~= tag + tail);
    lemma_encode_utf8_concat(tag, tail);
}

/// Whether identifiers under `type_tag` can be encoded on this machine.
pub fn fits(type_tag: &str) -> (r: bool)
    ensures
        r == encodable(type_tag@),
{
    let limit: usize = (usize::MAX - 7) / 4 * 3 - 37;
    type_tag.as_bytes().len() <= limit
}

/// Builds the clear text `<type_tag>:<id>`.
pub fn clear_form(type_tag: &str, id: u128) -> (clear: String)
    ensures
        clear@ == clear_text(type_tag@, id),
        !type_tag@.contains(SEPARATOR) ==> clear_decoded(clear@) == Ok::<
            (Seq<char>, u128),
            DecodeError,
        >((type_tag@, id)),
{
    let segment = key_text(id);
    let mut clear = String::from_str(type_tag);
    clear.append(":");
    clear.append(segment.as_str());
    proof {
        reveal_strlit(":");
        assert(":"@ =~= seq![SEPARATOR]);
        if !type_tag@.contains(SEPARATOR) {
            lemma_clear_round_trip(type_tag@, id);
        }
    }
    clear
}

/// Encodes the type tag `type_tag` and the key `id` into an opaque identifier.
///
/// Where the tag holds no separator, decoding the identifier gives the tag and
/// the key back.
pub fn to_global_id(type_tag: &str, id: u128) -> (global_id: String)
    requires
        encodable(type_tag@),
    ensures
        global_id@ == global_id_text(type_tag@, id),
        !type_tag@.contains(SEPARATOR) ==> decoded(global_id@) == Ok::<
            (Seq<char>, u128),
            DecodeError,
        >((type_tag@, id)),
{
    let clear = clear_form(type_tag, id);
    proof {
        lemma_clear_text_len(type_tag@, id);
        encode_utf8_valid_utf8(clear@);
        encode_utf8_decode_utf8(clear@);
    }
    transform(clear.as_str().as_bytes())
}

/// Pairs a type tag with the outcome of parsing the key segment.
pub fn with_key(tag: String, parsed: Option<u128>) -> (outcome: Result<(String, u128), DecodeError>)
    ensures
        outcome_view(outcome) == keyed(tag@, parsed),
{
    match parsed {
        Some(key) => Ok((tag, key)),
        None => Err(DecodeError::InvalidKey),
    }
}

/// Decodes the clear text `<type tag>:<key>`.
pub fn decode_clear(text: &str) -> (outcome: Result<(String, u128), DecodeError>)
    ensures
        outcome_view(outcome) == clear_decoded(text@),
{
    match split_once(text, SEPARATOR) {
        Some((tag, segment)) => {
            let parsed = parse_key(segment.as_str());
            with_key(tag, parsed)
        },
        None => Err(DecodeError::Malformed),
    }
}

/// Decodes the bytes found under the transport transform.
pub fn decode_bytes(bytes: Vec<u8>) -> (outcome: Result<(String, u128), DecodeError>)
    ensures
        outcome_view(outcome) == bytes_decoded(bytes@),
{
    match utf8_text(bytes) {
        Some(text) => decode_clear(text.as_str()),
        None => Err(DecodeError::Malformed),
    }
}

/// Decodes an opaque identifier into its type tag and key.
///
/// Fails with `Malformed` where the transform cannot be reversed, the bytes are
/// no UTF-8 text or the separator is missing, and with `InvalidKey` where the
/// part after the first separator is no well-formed key.
pub fn from_global_id(global_id: &str) -> (outcome: Result<(String, u128), DecodeError>)
    ensures
        outcome_view(outcome) == decoded(global_id@),
{
    match reverse(global_id) {
        Some(bytes) => decode_bytes(bytes),
        None => Err(DecodeError::Malformed),
    }
}

} // verus!
