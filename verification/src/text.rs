//! NUL-terminated strings of a note descriptor.

use vstd::prelude::*;
use vstd::slice::{slice_subrange, slice_to_vec};
use vstd::utf8::{
    decode_utf8, encode_scalar, encode_utf8, has_width_1_encoding, has_width_2_encoding,
    has_width_3_encoding, is_scalar, valid_utf8,
};

use crate::error::{Field, UsdtError};

verus! {

/// The error with which the standard library refuses bytes that are not
/// UTF-8, carried through unread.
#[verifier::external_type_specification]
#[verifier::external_body]
pub struct ExFromUtf8Error(std::string::FromUtf8Error);

/// Position of the first zero byte of `bytes` at or after `from`, if there is
/// one.
pub open spec fn terminator(bytes: Seq<u8>, from: int) -> Option<int>
    decreases bytes.len() - from,
{
    if from < 0 || from >= bytes.len() {
        None
    } else if bytes[from] == 0 {
        Some(from)
    } else {
        terminator(bytes, from + 1)
    }
}

/// The NUL-terminated string that starts at `from`: its bytes without the
/// terminator, and the offset just behind the terminator. `None` where no
/// zero byte follows.
pub open spec fn spec_read_cstr(bytes: Seq<u8>, from: int) -> Option<(Seq<u8>, int)> {
    match terminator(bytes, from) {
        Some(end) => Some((bytes.subrange(from, end), end + 1)),
        None => None,
    }
}

/// `terminator` finds the first zero byte and nothing else: no byte between
/// `from` and the position it gives is zero, and where it gives none, no byte
/// from `from` on is zero.
pub proof fn lemma_terminator(bytes: Seq<u8>, from: int)
    requires
        0 <= from,
    ensures
        match terminator(bytes, from) {
            Some(end) => {
                &&& from <= end < bytes.len()
                &&& bytes[end] == 0
                &&& forall|j: int| from <= j < end ==> bytes[j] != 0
            },
            None => forall|j: int| from <= j < bytes.len() ==> bytes[j] != 0,
        },
    decreases bytes.len() - from,
{
    if from < bytes.len() && bytes[from] != 0 {
        lemma_terminator(bytes, from + 1);
    }
}

/// A zero byte at `end` with none between `from` and `end` is what
/// `terminator` finds.
pub proof fn lemma_terminator_is(bytes: Seq<u8>, from: int, end: int)
    requires
        0 <= from <= end < bytes.len(),
        bytes[end] == 0,
        forall|j: int| from <= j < end ==> bytes[j] != 0,
    ensures
        terminator(bytes, from) == Some(end),
    decreases end - from,
{
    if from < end {
        lemma_terminator_is(bytes, from + 1, end);
    }
}

/// Where no byte from `from` on is zero, `terminator` finds none.
pub proof fn lemma_terminator_none(bytes: Seq<u8>, from: int)
    requires
        forall|j: int| from <= j < bytes.len() ==> bytes[j] != 0,
    ensures
        terminator(bytes, from) is None,
    decreases bytes.len() - from,
{
    if 0 <= from < bytes.len() {
        lemma_terminator_none(bytes, from + 1);
    }
}

/// Finds the first zero byte of `bytes` at or after `from`.
pub fn find_terminator(bytes: &[u8], from: usize) -> (r: Option<usize>)
    ensures
        match r {
            Some(end) => terminator(bytes@, from as int) == Some(end as int),
            None => terminator(bytes@, from as int) is None,
        },
{
    let mut i: usize = from;
    while i < bytes.len()
        invariant
            from <= i,
            terminator(bytes@, from as int) == terminator(bytes@, i as int),
        decreases bytes.len() - i,
    {
        if bytes[i] == 0 {
            return Some(i);
        }
        i += 1;
    }
    None
}

/// Reads the NUL-terminated string that starts at `from`: its bytes without
/// the terminator, and the offset just behind the terminator.
pub fn read_cstr(bytes: &[u8], from: usize) -> (r: Result<(Vec<u8>, usize), UsdtError>)
    ensures
        match r {
            Ok((text, next)) => spec_read_cstr(bytes@, from as int) == Some((text@, next as int)),
            Err(e) => e == UsdtError::TruncatedNote && spec_read_cstr(bytes@, from as int) is None,
        },
{
    match find_terminator(bytes, from) {
        Some(end) => {
            proof {
                lemma_terminator(bytes@, from as int);
            }
            let text = slice_to_vec(slice_subrange(bytes, from, end));
            assert(end < bytes.len());
            Ok((text, end + 1))
        },
        None => Err(UsdtError::TruncatedNote),
    }
}

/// What `text` says as UTF-8, or that the field is no valid text.
pub open spec fn spec_decode_text(text: Seq<u8>, field: Field) -> Result<Seq<char>, UsdtError> {
    if valid_utf8(text) {
        Ok(decode_utf8(text))
    } else {
        Err(UsdtError::InvalidText(field))
    }
}

/// `String::from_utf8` of the standard library: it succeeds on exactly the
/// byte sequences that are valid UTF-8, and the string it then gives holds
/// the characters that those bytes encode.
#[verifier::external_body]
fn string_from_utf8(bytes: Vec<u8>) -> (r: Result<String, std::string::FromUtf8Error>)
    ensures
        r is Ok <==> valid_utf8(bytes@),
        r matches Ok(s) ==> s@ == decode_utf8(bytes@),
{
    String::from_utf8(bytes)
}

/// Turns the bytes of one text field into a string, naming the field where
/// they are not valid UTF-8.
pub fn decode_text(text: Vec<u8>, field: Field) -> (r: Result<String, UsdtError>)
    ensures
        match r {
            Ok(s) => spec_decode_text(text@, field) == Ok::<Seq<char>, UsdtError>(s@),
            Err(e) => spec_decode_text(text@, field) == Err::<Seq<char>, UsdtError>(e),
        },
{
    match string_from_utf8(text) {
        Ok(s) => Ok(s),
        Err(_) => Err(UsdtError::InvalidText(field)),
    }
}

/// Whether no character of `text` is NUL.
pub open spec fn has_no_nul(text: Seq<char>) -> bool {
    forall|i: int| 0 <= i < text.len() ==> text[i] != '\0'
}

/// The UTF-8 encoding of a character other than NUL is not empty and holds
/// no zero byte.
pub proof fn lemma_encode_scalar_no_nul(scalar: u32)
    requires
        is_scalar(scalar),
        scalar != 0,
    ensures
        encode_scalar(scalar).len() > 0,
        forall|i: int| 0 <= i < encode_scalar(scalar).len() ==> encode_scalar(scalar)[i] != 0,
{
    if has_width_1_encoding(scalar) {
        assert((scalar & 0x7F) as u8 != 0) by (bit_vector)
            requires
                0 < scalar <= 0x7F,
        ;
    } else if has_width_2_encoding(scalar) {
        assert((0xC0 | ((scalar >> 6) & 0x1F) as u8) != 0 && (0x80 | (scalar & 0x3F) as u8) != 0)
            by (bit_vector);
    } else if has_width_3_encoding(scalar) {
        assert((0xE0 | ((scalar >> 12) & 0x0F) as u8) != 0 && (0x80 | ((scalar >> 6) & 0x3F) as u8)
            != 0 && (0x80 | (scalar & 0x3F) as u8) != 0) by (bit_vector);
    } else {
        assert((0xF0 | ((scalar >> 18) & 0x7) as u8) != 0 && (0x80 | ((scalar >> 12) & 0x3F) as u8)
            != 0 && (0x80 | ((scalar >> 6) & 0x3F) as u8) != 0 && (0x80 | (scalar & 0x3F) as u8)
            != 0) by (bit_vector);
    }
}

/// The UTF-8 encoding of a text without NUL holds no zero byte, and is empty
/// only where the text is.
pub proof fn lemma_encode_utf8_no_nul(text: Seq<char>)
    requires
        has_no_nul(text),
    ensures
        forall|i: int| 0 <= i < encode_utf8(text).len() ==> encode_utf8(text)[i] != 0,
        text.len() > 0 ==> encode_utf8(text).len() > 0,
    decreases text.len(),
{
    if text.len() > 0 {
        let first = text[0] as u32;
        vstd::utf8::char_is_scalar(text[0]);
        assert(first != 0) by {
            assert(text[0] != '\0');
            assert('\0' as u32 == 0);
            vstd::utf8::char_u32_cast(text[0], first);
            vstd::utf8::char_u32_cast('\0', 0);
        }
        lemma_encode_scalar_no_nul(first);
        let rest = text.drop_first();
        assert(has_no_nul(rest)) by {
            assert forall|i: int| 0 <= i < rest.len() implies rest[i] != '\0' by {
                assert(rest[i] == text[i + 1]);
            }
        }
        lemma_encode_utf8_no_nul(rest);
        let head = encode_scalar(first);
        let tail = encode_utf8(rest);
        assert(encode_utf8(text) == head + tail);
        assert forall|i: int| 0 <= i < encode_utf8(text).len() implies encode_utf8(text)[i]
            != 0 by {
            if i < head.len() {
                assert((head + tail)[i] == head[i]);
            } else {
                assert((head + tail)[i] == tail[i - head.len()]);
            }
        }
    }
}

} // verus!
