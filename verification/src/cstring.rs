//! NUL-terminated byte strings: the form in which property names, class
//! names and text go to the JavaScript host.

use vstd::prelude::*;
use vstd::utf8::*;
use vstd::string::*;

verus! {

/// The bytes handed to the host for `text`: its UTF-8 encoding followed by a
/// terminating NUL byte.
pub open spec fn c_string_spec(text: Seq<char>) -> Seq<u8> {
    encode_utf8(text).push(0u8)
}

/// No character of `text` is the NUL character.
pub open spec fn chars_nul_free(text: Seq<char>) -> bool {
    forall|i: int| 0 <= i < text.len() ==> #[trigger] text[i] != '\0'
}

/// No byte of `bytes` is zero.
pub open spec fn bytes_nul_free(bytes: Seq<u8>) -> bool {
    forall|i: int| 0 <= i < bytes.len() ==> #[trigger] bytes[i] != 0u8
}

/// Encodes `text` as a NUL-terminated UTF-8 byte string.
pub fn c_string(text: &str) -> (bytes: Vec<u8>)
    ensures
        bytes@ == c_string_spec(text@),
{
    let mut bytes = text.as_bytes_vec();
    bytes.push(0u8);
    bytes
}

/// The UTF-8 encoding of a scalar other than zero holds no zero byte.
proof fn lemma_scalar_encoding_nul_free(c: u32)
    requires
        is_scalar(c),
        c != 0,
    ensures
        bytes_nul_free(encode_scalar(c)),
{
    if has_width_1_encoding(c) {
        assert((c & 0x7F) as u8 != 0u8) by (bit_vector)
            requires
                1 <= c <= 0x7F,
        ;
    } else if has_width_2_encoding(c) {
        assert(0xC0u8 | ((c >> 6) & 0x1F) as u8 != 0u8) by (bit_vector);
        assert(0x80u8 | (c & 0x3F) as u8 != 0u8) by (bit_vector);
    } else if has_width_3_encoding(c) {
        assert(0xE0u8 | ((c >> 12) & 0x0F) as u8 != 0u8) by (bit_vector);
        assert(0x80u8 | ((c >> 6) & 0x3F) as u8 != 0u8) by (bit_vector);
        assert(0x80u8 | (c & 0x3F) as u8 != 0u8) by (bit_vector);
    } else {
        assert(0xF0u8 | ((c >> 18) & 0x7) as u8 != 0u8) by (bit_vector);
        assert(0x80u8 | ((c >> 12) & 0x3F) as u8 != 0u8) by (bit_vector);
        assert(0x80u8 | ((c >> 6) & 0x3F) as u8 != 0u8) by (bit_vector);
        assert(0x80u8 | (c & 0x3F) as u8 != 0u8) by (bit_vector);
    }
}

/// The UTF-8 encoding of a text without NUL characters holds no zero byte.
proof fn lemma_encoding_nul_free(text: Seq<char>)
    requires
        chars_nul_free(text),
    ensures
        bytes_nul_free(encode_utf8(text)),
    decreases text.len(),
{
    if text.len() > 0 {
        let c = text[0];
        char_is_scalar(c);
        char_u32_cast(c, c as u32);
        assert(c as u32 != 0u32);
        lemma_scalar_encoding_nul_free(c as u32);
        let rest = text.drop_first();
        assert(chars_nul_free(rest)) by {
            assert forall|i: int| 0 <= i < rest.len() implies #[trigger] rest[i] != '\0' by {
                assert(rest[i] == text[i + 1]);
            }
        }
        lemma_encoding_nul_free(rest);
        let head = encode_scalar(c as u32);
        let tail = encode_utf8(rest);
        assert forall|i: int| 0 <= i < (head + tail).len() implies #[trigger] (head + tail)[i]
            != 0u8 by {
            if i < head.len() {
                assert((head + tail)[i] == head[i]);
            } else {
                assert((head + tail)[i] == tail[i - head.len()]);
            }
        }
    }
}

/// A text without NUL characters goes to the host as a well-formed C string:
/// its one zero byte is the last, and the bytes before it decode back to the
/// text.
pub proof fn lemma_c_string_round_trip(text: Seq<char>)
    requires
        chars_nul_free(text),
    ensures
        c_string_spec(text).len() >= 1,
        c_string_spec(text).last() == 0u8,
        bytes_nul_free(c_string_spec(text).drop_last()),
        decode_utf8(c_string_spec(text).drop_last()) == text,
{
    lemma_encoding_nul_free(text);
    encode_utf8_decode_utf8(text);
    assert(c_string_spec(text).drop_last() =~= encode_utf8(text));
}

} // verus!
