//! Zero-terminated text inside a byte block.

use vstd::prelude::*;
use vstd::utf8::{
    char_is_scalar, char_u32_cast, decode_utf8, encode_scalar, encode_utf8, valid_utf8,
};

verus! {

/// The error of `String::from_utf8`. It is only told apart from success;
/// nothing inside it is looked at.
#[verifier::external_type_specification]
#[verifier::external_body]
pub struct ExFromUtf8Error(std::string::FromUtf8Error);

/// `String::from_utf8` of the standard library. It accepts exactly the byte
/// vectors that are well-formed UTF-8, and the string it then gives holds
/// the characters that those bytes encode. Neither claim is proved here.
pub assume_specification[ String::from_utf8 ](vec: Vec<u8>) -> (text: Result<
    String,
    std::string::FromUtf8Error,
>)
    ensures
        text is Ok <==> valid_utf8(vec@),
        text matches Ok(s) ==> s@ == decode_utf8(vec@),
;

/// Whether the text at the start of `bytes` is `n` bytes long: none of its
/// first `n` bytes is zero, and then comes a zero byte or the end.
pub open spec fn ends_text(bytes: Seq<u8>, n: int) -> bool {
    &&& 0 <= n <= bytes.len()
    &&& forall|i: int| 0 <= i < n ==> bytes[i] != 0
    &&& (n == bytes.len() || bytes[n] == 0)
}

/// Length of the text at the start of `bytes`: the number of bytes before
/// the first zero byte, or all of them where none is zero.
pub open spec fn text_len(bytes: Seq<u8>) -> int
    decreases bytes.len(),
{
    if bytes.len() == 0 || bytes[0] == 0 {
        0
    } else {
        1 + text_len(bytes.drop_first())
    }
}

/// The text at the start of `bytes`, without its terminator.
pub open spec fn terminated_text(bytes: Seq<u8>) -> Seq<u8> {
    bytes.take(text_len(bytes))
}

/// `text_len` is where the text ends.
pub proof fn lemma_text_len_ends(bytes: Seq<u8>)
    ensures
        ends_text(bytes, text_len(bytes)),
    decreases bytes.len(),
{
    if bytes.len() == 0 || bytes[0] == 0 {
    } else {
        let rest = bytes.drop_first();
        lemma_text_len_ends(rest);
        assert forall|i: int| 0 <= i < text_len(bytes) implies bytes[i] != 0 by {
            if i > 0 {
                assert(bytes[i] == rest[i - 1]);
            }
        }
        if text_len(bytes) != bytes.len() {
            assert(bytes[text_len(bytes)] == rest[text_len(rest)]);
        }
    }
}

/// The text ends in one place only.
pub proof fn lemma_text_end_unique(bytes: Seq<u8>, n: int)
    requires
        ends_text(bytes, n),
    ensures
        n == text_len(bytes),
{
    lemma_text_len_ends(bytes);
    let m = text_len(bytes);
    if n < m {
        assert(bytes[n] != 0);
    } else if m < n {
        assert(bytes[m] != 0);
    }
}

/// Whether no byte of `bytes` is zero.
pub open spec fn zero_free(bytes: Seq<u8>) -> bool {
    forall|i: int| 0 <= i < bytes.len() ==> bytes[i] != 0
}

/// Whether no character of `chars` is NUL.
pub open spec fn nul_free(chars: Seq<char>) -> bool {
    forall|i: int| 0 <= i < chars.len() ==> chars[i] != '\0'
}

/// A block that starts with `text`, which holds no zero byte, and goes on
/// with a zero byte or not at all, holds exactly `text` as its text.
pub proof fn lemma_text_of_block(bytes: Seq<u8>, text: Seq<u8>)
    requires
        text.len() <= bytes.len(),
        bytes.take(text.len() as int) == text,
        zero_free(text),
        text.len() == bytes.len() || bytes[text.len() as int] == 0,
    ensures
        terminated_text(bytes) == text,
{
    assert forall|i: int| 0 <= i < text.len() implies bytes[i] != 0 by {
        assert(bytes[i] == text[i]);
    }
    lemma_text_end_unique(bytes, text.len() as int);
}

proof fn lemma_narrow_scalar_byte(scalar: u32)
    by (bit_vector)
    requires
        0 < scalar <= 0x7F,
    ensures
        (scalar & 0x7F) as u8 != 0,
{
}

proof fn lemma_wide_scalar_bytes(scalar: u32)
    by (bit_vector)
    ensures
        0xC0 | ((scalar >> 6) & 0x1F) as u8 != 0,
        0xE0 | ((scalar >> 12) & 0x0F) as u8 != 0,
        0xF0 | ((scalar >> 18) & 0x7) as u8 != 0,
        0x80 | (scalar & 0x3F) as u8 != 0,
        0x80 | ((scalar >> 6) & 0x3F) as u8 != 0,
        0x80 | ((scalar >> 12) & 0x3F) as u8 != 0,
{
}

/// The UTF-8 bytes of a text without NUL characters hold no zero byte.
pub proof fn lemma_encoding_zero_free(chars: Seq<char>)
    requires
        nul_free(chars),
    ensures
        zero_free(encode_utf8(chars)),
    decreases chars.len(),
{
    if chars.len() > 0 {
        let scalar = chars[0] as u32;
        let head = encode_scalar(scalar);
        let tail = encode_utf8(chars.drop_first());
        assert(scalar != 0) by {
            assert(chars[0] != '\0');
            char_u32_cast(chars[0], scalar);
            char_u32_cast('\0', 0u32);
        }
        char_is_scalar(chars[0]);
        if scalar <= 0x7F {
            lemma_narrow_scalar_byte(scalar);
        }
        lemma_wide_scalar_bytes(scalar);
        assert(zero_free(head));
        assert forall|i: int| 0 <= i < chars.drop_first().len() implies chars.drop_first()[i]
            != '\0' by {
            assert(chars.drop_first()[i] == chars[i + 1]);
        }
        lemma_encoding_zero_free(chars.drop_first());
        assert forall|i: int| 0 <= i < (head + tail).len() implies (head + tail)[i] != 0 by {
            if i < head.len() {
                assert((head + tail)[i] == head[i]);
            } else {
                assert((head + tail)[i] == tail[i - head.len()]);
            }
        }
    }
}

/// Copies the text that starts at `start` and ends before `end` at the
/// latest.
pub(crate) fn copy_text(bytes: &[u8], start: usize, end: usize) -> (text: Vec<u8>)
    requires
        start <= end <= bytes@.len(),
    ensures
        text@ == terminated_text(bytes@.subrange(start as int, end as int)),
{
    let ghost region = bytes@.subrange(start as int, end as int);
    let mut text: Vec<u8> = Vec::new();
    let mut at: usize = start;
    while at < end && bytes[at] != 0
        invariant
            start <= at <= end <= bytes@.len(),
            region == bytes@.subrange(start as int, end as int),
            text@ == region.take(at - start),
            forall|i: int| 0 <= i < at - start ==> region[i] != 0,
        decreases end - at,
    {
        text.push(bytes[at]);
        at += 1;
        assert(region[at - start - 1] == bytes@[at - 1]);
        assert(text@ =~= region.take(at - start));
    }
    proof {
        lemma_text_end_unique(region, at - start);
    }
    text
}

} // verus!
