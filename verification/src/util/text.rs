//! Comparing byte strings and texts.

use vstd::prelude::*;
use vstd::std_specs::iter::IteratorSpec;
use vstd::string::StrSliceExecFns;

verus! {

broadcast use vstd::string::group_string_axioms;

/// std's UTF-8 decoding error, carried opaquely.
#[verifier::external_type_specification]
#[verifier::external_body]
pub struct ExUtf8Error(core::str::Utf8Error);

/// Reads bytes as text with `core::str::from_utf8`.
///
/// Trusted: the call succeeds exactly on well-formed UTF-8, and the text
/// returned is the one that the bytes encode.
#[verifier::external_body]
pub(crate) fn utf8_text(bytes: &[u8]) -> (text: Result<&str, core::str::Utf8Error>)
    ensures
        match text {
            Ok(read) => vstd::utf8::valid_utf8(bytes@) && read@ == vstd::utf8::decode_utf8(bytes@),
            Err(_) => !vstd::utf8::valid_utf8(bytes@),
        },
{
    core::str::from_utf8(bytes)
}

/// Whether two byte strings are the same.
///
/// Once the lengths agree every byte is read, whatever the bytes are, so the
/// time taken does not tell where the first difference lies.
pub fn bytes_equal(left: &[u8], right: &[u8]) -> (same: bool)
    ensures
        same == (left@ == right@),
{
    if left.len() != right.len() {
        return false;
    }
    let mut difference: u8 = 0;
    let mut at: usize = 0;
    assert(left@.take(0) =~= right@.take(0));
    while at < left.len()
        invariant
            left@.len() == right@.len(),
            at <= left@.len(),
            difference == 0 <==> left@.take(at as int) == right@.take(at as int),
        decreases left@.len() - at,
    {
        let l: u8 = left[at];
        let r: u8 = right[at];
        let before: u8 = difference;
        difference = difference | (l ^ r);
        proof {
            assert((before | (l ^ r)) == 0 <==> (before == 0 && l == r)) by (bit_vector);
            let next = at as int + 1;
            if left@.take(next) == right@.take(next) {
                assert(left@.take(at as int) == left@.take(next).take(at as int));
                assert(right@.take(at as int) == right@.take(next).take(at as int));
                assert(left@[at as int] == left@.take(next)[at as int]);
            }
            if left@.take(at as int) == right@.take(at as int) && l == r {
                assert(left@.take(next) =~= left@.take(at as int).push(l));
                assert(right@.take(next) =~= right@.take(at as int).push(r));
            }
        }
        at = at + 1;
    }
    proof {
        assert(left@.take(at as int) == left@);
        assert(right@.take(at as int) == right@);
    }
    difference == 0
}

/// Whether two texts are the same.
pub fn text_equal(left: &str, right: &str) -> (same: bool)
    ensures
        same == (left@ == right@),
{
    let same = bytes_equal(left.as_bytes(), right.as_bytes());
    proof {
        vstd::utf8::encode_utf8_decode_utf8(left@);
        vstd::utf8::encode_utf8_decode_utf8(right@);
    }
    same
}

/// The position of the first character of `text` that is `wanted`.
pub fn find_char(text: &str, wanted: char) -> (found: Option<usize>)
    ensures
        match found {
            Some(at) => at < text@.len() && text@[at as int] == wanted && !text@.take(
                at as int,
            ).contains(wanted),
            None => !text@.contains(wanted),
        },
{
    let length = text.unicode_len();
    let mut rest = text.chars();
    let mut at: usize = 0;
    loop
        invariant
            length == text@.len(),
            at <= length,
            rest.remaining() == text@.skip(at as int),
            forall|j: int| 0 <= j < at ==> text@[j] != wanted,
        decreases length - at,
    {
        match rest.next() {
            None => {
                return None;
            },
            Some(c) => {
                if c == wanted {
                    return Some(at);
                }
                at = at + 1;
            },
        }
    }
}

/// Splits a text at the first occurrence of a separator into what stands
/// before it and what stands after it; `None` where the separator does not
/// occur.
pub fn split_at_first(text: &str, separator: char) -> (parts: Option<(&str, &str)>)
    ensures
        match parts {
            Some((before, after)) => {
                &&& text@ == before@ + seq![separator] + after@
                &&& !before@.contains(separator)
            },
            None => !text@.contains(separator),
        },
{
    let Some(at) = find_char(text, separator) else {
        return None;
    };
    let length = text.unicode_len();
    let before = text.substring_char(0, at);
    let after = text.substring_char(at + 1, length);
    Some((before, after))
}

} // verus!
