//! Text crossing into and out of prism: NUL-terminated UTF-8.
use vstd::prelude::*;
use vstd::utf8::{
    decode_utf8, encode_scalar, encode_utf8, has_width_1_encoding, valid_utf8,
};

use crate::error::Error;

verus! {

/// The outcome of handing `text` to prism as a C string: its UTF-8 bytes
/// with a NUL terminator, refused when a zero byte lies inside them.
pub open spec fn c_string_of(text: Seq<char>) -> Result<Seq<u8>, Error> {
    if encode_utf8(text).contains(0u8) {
        Err(Error::InvalidParam)
    } else {
        Ok(encode_utf8(text).push(0u8))
    }
}

/// Converts `text` into the NUL-terminated bytes prism takes.
///
/// Fails with `InvalidParam` when `text` holds an interior NUL, which C
/// would read as the end of the string.
pub fn to_cstring(text: &str) -> (r: Result<Vec<u8>, Error>)
    ensures
        r matches Ok(bytes) ==> c_string_of(text@) == Ok::<Seq<u8>, Error>(bytes@),
        r matches Err(e) ==> c_string_of(text@) == Err::<Seq<u8>, Error>(e),
        r is Err <==> text@.contains('\0'),
{
    proof {
        lemma_nul_byte_iff_nul_char(text@);
    }
    let bytes = text.as_bytes();
    let mut out: Vec<u8> = Vec::with_capacity(bytes.len());
    let mut i: usize = 0;
    while i < bytes.len()
        invariant
            bytes@ == encode_utf8(text@),
            i <= bytes@.len(),
            out@ == bytes@.subrange(0, i as int),
            !out@.contains(0u8),
        decreases bytes@.len() - i,
    {
        if bytes[i] == 0 {
            assert(bytes@[i as int] == 0u8);
            proof {
                lemma_nul_byte_iff_nul_char(text@);
            }
            return Err(Error::InvalidParam);
        }
        out.push(bytes[i]);
        i = i + 1;
        assert(out@ == bytes@.subrange(0, i as int));
    }
    assert(out@ == bytes@);
    out.push(0);
    Ok(out)
}

/// What std's lossy UTF-8 conversion makes of `bytes`.
pub uninterp spec fn utf8_lossy(bytes: Seq<u8>) -> Seq<char>;

/// Decodes `bytes` as UTF-8, replacing each invalid sequence with U+FFFD.
///
/// Calls `String::from_utf8_lossy`, which std documents to return the text
/// unchanged when the bytes are valid UTF-8. How invalid sequences are
/// replaced is left to the name `utf8_lossy`.
#[verifier::external_body]
fn lossy_string(bytes: &[u8]) -> (s: String)
    ensures
        s@ == utf8_lossy(bytes@),
        valid_utf8(bytes@) ==> s@ == decode_utf8(bytes@),
{
    String::from_utf8_lossy(bytes).into_owned()
}

/// Copies a C string that prism returned into an owned `String`.
///
/// `bytes` holds the string's bytes without the terminator, or is `None`
/// where prism returned a null pointer, which reads as the empty string.
pub fn copy_cstr(bytes: Option<&[u8]>) -> (s: String)
    ensures
        bytes is None ==> s@ == Seq::<char>::empty(),
        bytes matches Some(b) ==> s@ == utf8_lossy(b@),
        bytes matches Some(b) ==> (valid_utf8(b@) ==> s@ == decode_utf8(b@)),
{
    match bytes {
        None => String::new(),
        Some(b) => lossy_string(b),
    }
}

/// Text sent to prism with `to_cstring` and copied back with `copy_cstr`,
/// terminator dropped, is the text that was sent.
pub proof fn lemma_text_round_trip(text: Seq<char>)
    requires
        c_string_of(text) is Ok,
    ensures
        c_string_of(text)->Ok_0.drop_last() == encode_utf8(text),
        valid_utf8(encode_utf8(text)),
        decode_utf8(c_string_of(text)->Ok_0.drop_last()) == text,
{
    vstd::utf8::encode_utf8_valid_utf8(text);
    vstd::utf8::encode_utf8_decode_utf8(text);
    assert(c_string_of(text)->Ok_0.drop_last() =~= encode_utf8(text));
}

/// The UTF-8 encoding of a single character holds a zero byte exactly when
/// the character is NUL.
proof fn lemma_scalar_nul_byte(c: char)
    ensures
        encode_scalar(c as u32).contains(0u8) <==> c == '\0',
{
    vstd::utf8::char_is_scalar(c);
    let s = c as u32;
    let bytes = encode_scalar(s);
    if has_width_1_encoding(s) {
        assert(s <= 0x7f ==> ((s & 0x7f) as u8 == 0u8 <==> s == 0u32)) by (bit_vector);
        if c == '\0' {
            assert(bytes[0] == 0u8);
        } else {
            assert(s != 0u32);
            assert forall|i: int| 0 <= i < bytes.len() implies bytes[i] != 0u8 by {}
        }
    } else {
        assert(s != 0u32);
        assert(forall|x: u8| (0xc0u8 | x) != 0u8) by (bit_vector);
        assert(forall|x: u8| (0xe0u8 | x) != 0u8) by (bit_vector);
        assert(forall|x: u8| (0xf0u8 | x) != 0u8) by (bit_vector);
        assert(forall|x: u8| (0x80u8 | x) != 0u8) by (bit_vector);
        assert forall|i: int| 0 <= i < bytes.len() implies bytes[i] != 0u8 by {}
    }
}

/// The UTF-8 bytes of `text` hold a zero byte exactly when `text` holds a
/// NUL character: `to_cstring` refuses exactly the text with an interior NUL.
pub proof fn lemma_nul_byte_iff_nul_char(text: Seq<char>)
    ensures
        encode_utf8(text).contains(0u8) <==> text.contains('\0'),
    decreases text.len(),
{
    if text.len() == 0 {
        assert(encode_utf8(text) =~= Seq::<u8>::empty());
    } else {
        let head = encode_scalar(text[0] as u32);
        let rest = text.drop_first();
        let tail = encode_utf8(rest);
        let bytes = encode_utf8(text);
        assert(bytes == head + tail);
        lemma_scalar_nul_byte(text[0]);
        lemma_nul_byte_iff_nul_char(rest);
        if bytes.contains(0u8) {
            let i = choose|i: int| 0 <= i < bytes.len() && bytes[i] == 0u8;
            if i < head.len() {
                assert(head[i] == 0u8);
                assert(text[0] == '\0');
            } else {
                assert(tail[i - head.len()] == 0u8);
                let j = choose|j: int| 0 <= j < rest.len() && rest[j] == '\0';
                assert(text[j + 1] == '\0');
            }
        }
        if text.contains('\0') {
            let j = choose|j: int| 0 <= j < text.len() && text[j] == '\0';
            if j == 0 {
                let i = choose|i: int| 0 <= i < head.len() && head[i] == 0u8;
                assert(bytes[i] == 0u8);
            } else {
                assert(rest[j - 1] == '\0');
                let i = choose|i: int| 0 <= i < tail.len() && tail[i] == 0u8;
                assert(bytes[i + head.len()] == 0u8);
            }
        }
    }
}

/// Text goes to C as its UTF-8 bytes and a terminator exactly when it holds
/// no NUL character; text holding one is refused as an invalid parameter.
pub proof fn lemma_c_string_of_text(text: Seq<char>)
    ensures
        !text.contains('\0') ==> c_string_of(text) == Ok::<Seq<u8>, Error>(encode_utf8(text).push(0u8)),
        text.contains('\0') ==> c_string_of(text) == Err::<Seq<u8>, Error>(Error::InvalidParam),
{
    lemma_nul_byte_iff_nul_char(text);
}

} // verus!
