//! Bounded strings of the capacities that identifiers, topics, prefixes
//! and messages have, and what is needed to fill them.

use vstd::prelude::*;
use vstd::utf8::{encode_utf8, is_ascii_chars, is_ascii_chars_encode_utf8};
use crate::mqtt_control::{lemma_utf8_len_push, utf8_len, utf8_width, wire_text};

verus! {

/// The text that a bounded string of capacity 32 holds.
pub uninterp spec fn text_32(held: heapless::String<32>) -> Seq<char>;

/// The text that a bounded string of capacity 128 holds.
pub uninterp spec fn text_128(held: heapless::String<128>) -> Seq<char>;

/// The text that a bounded string of capacity 256 holds.
pub uninterp spec fn text_256(held: heapless::String<256>) -> Seq<char>;

/// `heapless::String::<32>::try_from(&str)`: a bounded string that holds
/// the text, if the UTF-8 encoding of the text fits into 32 bytes, and
/// nothing otherwise.
#[verifier::external_body]
pub(crate) fn text_32_from(text: &str) -> (made: Option<heapless::String<32>>)
    ensures
        made is Some <==> utf8_len(text@) <= 32,
        made matches Some(held) ==> text_32(held) == text@,
{
    heapless::String::try_from(text).ok()
}

/// `heapless::String::<32>::as_str`: the text that the string holds, which
/// takes no more than the 32 bytes of the string's capacity.
#[verifier::external_body]
pub(crate) fn text_32_as_str(held: &heapless::String<32>) -> (text: &str)
    ensures
        text@ == text_32(*held),
        utf8_len(text@) <= 32,
{
    held.as_str()
}

/// `heapless::String::<64>::try_from(&str)`: a bounded string that holds
/// the text, if the UTF-8 encoding of the text fits into 64 bytes, and
/// nothing otherwise.
#[verifier::external_body]
pub(crate) fn text_64_from(text: &str) -> (made: Option<heapless::String<64>>)
    ensures
        made is Some <==> utf8_len(text@) <= 64,
        made matches Some(held) ==> wire_text(held) == text@,
{
    heapless::String::try_from(text).ok()
}

/// `heapless::String::<128>::try_from(&str)`: a bounded string that holds
/// the text, if the UTF-8 encoding of the text fits into 128 bytes, and
/// nothing otherwise.
#[verifier::external_body]
pub(crate) fn text_128_from(text: &str) -> (made: Option<heapless::String<128>>)
    ensures
        made is Some <==> utf8_len(text@) <= 128,
        made matches Some(held) ==> text_128(held) == text@,
{
    heapless::String::try_from(text).ok()
}

/// `heapless::String::<128>::as_str`: the text that the string holds,
/// which takes no more than the 128 bytes of the string's capacity.
#[verifier::external_body]
pub(crate) fn text_128_as_str(held: &heapless::String<128>) -> (text: &str)
    ensures
        text@ == text_128(*held),
        utf8_len(text@) <= 128,
{
    held.as_str()
}

/// `heapless::String::<256>::try_from(&str)`: a bounded string that holds
/// the text, if the UTF-8 encoding of the text fits into 256 bytes, and
/// nothing otherwise.
#[verifier::external_body]
pub(crate) fn text_256_from(text: &str) -> (made: Option<heapless::String<256>>)
    ensures
        made is Some <==> utf8_len(text@) <= 256,
        made matches Some(held) ==> text_256(held) == text@,
{
    heapless::String::try_from(text).ok()
}

/// A character takes between one and four bytes.
pub proof fn lemma_utf8_width_bounds(c: char)
    ensures
        1 <= utf8_width(c) <= 4,
{
}

/// Joining two texts adds the lengths of their encodings.
pub proof fn lemma_utf8_len_concat(first: Seq<char>, second: Seq<char>)
    ensures
        utf8_len(first + second) == utf8_len(first) + utf8_len(second),
    decreases second.len(),
{
    if second.len() == 0 {
        assert(first + second =~= first);
        assert(encode_utf8(second) =~= Seq::<u8>::empty());
    } else {
        let last = second.last();
        let head = second.drop_last();
        assert(second =~= head.push(last));
        assert(first + second =~= (first + head).push(last));
        lemma_utf8_len_concat(first, head);
        lemma_utf8_len_push(first + head, last);
        lemma_utf8_len_push(head, last);
    }
}

/// The encoding of a text takes at most four bytes for each character.
pub proof fn lemma_utf8_len_bound(text: Seq<char>)
    ensures
        utf8_len(text) <= 4 * text.len(),
    decreases text.len(),
{
    if text.len() == 0 {
        assert(encode_utf8(text) =~= Seq::<u8>::empty());
    } else {
        let last = text.last();
        let head = text.drop_last();
        assert(text =~= head.push(last));
        lemma_utf8_len_bound(head);
        lemma_utf8_len_push(head, last);
        lemma_utf8_width_bounds(last);
    }
}

/// The encoding of a text of ASCII characters takes one byte for each.
pub proof fn lemma_utf8_len_ascii(text: Seq<char>)
    requires
        is_ascii_chars(text),
    ensures
        utf8_len(text) == text.len(),
{
    is_ascii_chars_encode_utf8(text);
}

} // verus!
