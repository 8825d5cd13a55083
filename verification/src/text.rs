//! Text helpers: reading bytes as UTF-8 and splitting at a separator.

use vstd::prelude::*;
use vstd::string::*;
use vstd::utf8::*;

verus! {

/// The parts of `text` before and after the first occurrence of `sep`, or `None`
/// where `sep` does not occur.
pub open spec fn split_at_first(text: Seq<char>, sep: char) -> Option<(Seq<char>, Seq<char>)> {
    match text.index_of_first(sep) {
        Some(at) => Some((text.subrange(0, at), text.subrange(at + 1, text.len() as int))),
        None => None,
    }
}

/// Joining two texts with a separator that the first does not hold, and
/// splitting the result at the first separator, gives the two texts back.
pub proof fn lemma_split_joined(head: Seq<char>, sep: char, tail: Seq<char>)
    requires
        !head.contains(sep),
    ensures
        split_at_first(head + seq![sep] + tail, sep) == Some((head, tail)),
{
    let joined = head + seq![sep] + tail;
    let mid = head.len() as int;
    assert(joined[mid] == sep);
    joined.index_of_first_ensures(sep);
    let at = joined.index_of_first(sep).unwrap();
    if at < mid {
        assert(head[at] == joined[at]);
    }
    assert(joined.subrange(0, mid) =~= head);
    assert(joined.subrange(mid + 1, joined.len() as int) =~= tail);
}

/// The UTF-8 encoding of a concatenation is the concatenation of the encodings.
pub proof fn lemma_encode_utf8_concat(a: Seq<char>, b: Seq<char>)
    ensures
        encode_utf8(a + b) == encode_utf8(a) + encode_utf8(b),
    decreases a.len(),
{
    if a.len() == 0 {
        assert(a + b =~= b);
    } else {
        assert((a + b).drop_first() =~= a.drop_first() + b);
        lemma_encode_utf8_concat(a.drop_first(), b);
    }
}

/// Reads `bytes` as UTF-8 with `String::from_utf8`.
///
/// Trusted: the call succeeds exactly on valid UTF-8, and the text it gives is
/// the decoding of the bytes.
#[verifier::external_body]
pub(crate) fn utf8_text(bytes: Vec<u8>) -> (text: Option<String>)
    ensures
        match text {
            Some(s) => valid_utf8(bytes@) && s@ == decode_utf8(bytes@),
            None => !valid_utf8(bytes@),
        },
{
    match String::from_utf8(bytes) {
        Ok(text) => Some(text),
        Err(_) => None,
    }
}

/// Splits `text` at the first occurrence of `sep`.
pub fn split_once(text: &str, sep: char) -> (parts: Option<(String, String)>)
    ensures
        match parts {
            Some((head, tail)) => split_at_first(text@, sep) == Some((head@, tail@)),
            None => split_at_first(text@, sep) is None,
        },
{
    let len = text.unicode_len();
    let mut at: usize = 0;
    for c in it: text.chars()
        invariant
            at == it.index(),
            it.seq() == text@,
            len == text@.len(),
            forall|j: int| 0 <= j < at ==> text@[j] != sep,
    {
        if c == sep {
            proof {
                text@.index_of_first_ensures(sep);
            }
            let head = text.substring_char(0, at);
            let tail = text.substring_char(at + 1, len);
            return Some((head.to_owned(), tail.to_owned()));
        }
        at = at + 1;
    }
    proof {
        text@.index_of_first_ensures(sep);
    }
    None
}

} // verus!
