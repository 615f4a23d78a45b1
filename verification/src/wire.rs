//! The wire layout of an output buffer: a 4-byte little-endian length
//! prefix followed by exactly that many payload bytes.
use vstd::prelude::*;
use vstd::bytes::spec_u32_to_le_bytes;
use vstd::bytes::spec_u32_from_le_bytes;
use vstd::bytes::lemma_auto_spec_u32_to_from_le_bytes;
use vstd::bytes::u32_to_le_bytes;
use vstd::utf8::is_ascii_chars;
use vstd::utf8::is_ascii_chars_encode_utf8;
use vstd::utf8::encode_utf8;
use vstd::utf8::encode_utf8_valid_utf8;
use vstd::utf8::encode_utf8_decode_utf8;
use vstd::utf8::valid_utf8;
use vstd::utf8::decode_utf8;

verus! {

/// The filler byte that raw payloads repeat: ASCII `x`.
pub const FILLER_BYTE: u8 = 120;

/// The filler character; it is `FILLER_BYTE` read as text.
pub const FILLER_CHAR: char = 'x';

/// The raw payload for a requested size `n`: `n` repetitions of the
/// filler byte.
pub open spec fn raw_payload(n: int) -> Seq<u8> {
    Seq::new(n as nat, |i: int| FILLER_BYTE)
}

/// The text a raw payload of size `n` stands for: `n` repetitions of
/// the filler character.
pub open spec fn filler_text(n: int) -> Seq<char> {
    Seq::new(n as nat, |i: int| FILLER_CHAR)
}

/// The frame carrying a payload: the payload's length as four
/// little-endian bytes, then the payload itself.
pub open spec fn framed(payload: Seq<u8>) -> Seq<u8>
    recommends
        payload.len() <= u32::MAX,
{
    spec_u32_to_le_bytes(payload.len() as u32) + payload
}

/// The length prefix of a frame always decodes back to the byte length
/// of the payload that follows it, and the payload sits right after the
/// four prefix bytes.
pub proof fn lemma_frame_layout(payload: Seq<u8>)
    requires
        payload.len() <= u32::MAX,
    ensures
        framed(payload).len() == 4 + payload.len(),
        spec_u32_from_le_bytes(framed(payload).subrange(0, 4)) == payload.len(),
        framed(payload).subrange(4, framed(payload).len() as int) == payload,
{
    lemma_auto_spec_u32_to_from_le_bytes();
    assert(framed(payload).subrange(0, 4) =~= spec_u32_to_le_bytes(payload.len() as u32));
    assert(framed(payload).subrange(4, framed(payload).len() as int) =~= payload);
}

/// The filler text is ASCII: its UTF-8 encoding is exactly the raw
/// payload of the same size, so the raw payload is valid UTF-8 and
/// decodes back to the filler text.
pub proof fn lemma_filler_utf8(n: int)
    requires
        0 <= n,
    ensures
        is_ascii_chars(filler_text(n)),
        encode_utf8(filler_text(n)) == raw_payload(n),
        valid_utf8(raw_payload(n)),
        decode_utf8(raw_payload(n)) == filler_text(n),
{
    assert(is_ascii_chars(filler_text(n)));
    is_ascii_chars_encode_utf8(filler_text(n));
    assert(encode_utf8(filler_text(n)) =~= raw_payload(n));
    encode_utf8_valid_utf8(filler_text(n));
    encode_utf8_decode_utf8(filler_text(n));
}

/// Builds the frame for a payload: the 4-byte little-endian length
/// prefix, then the payload bytes, in one fresh buffer.
pub fn frame(payload: &Vec<u8>) -> (r: Vec<u8>)
    requires
        payload@.len() <= u32::MAX,
        payload@.len() + 4 <= usize::MAX,
    ensures
        r@ == framed(payload@),
        r@.len() == 4 + payload@.len(),
{
    let len: u32 = payload.len() as u32;
    let mut r = u32_to_le_bytes(len);
    let mut i: usize = 0;
    while i < payload.len()
        invariant
            i <= payload@.len(),
            payload@.len() + 4 <= usize::MAX,
            r@ == spec_u32_to_le_bytes(len) + payload@.subrange(0, i as int),
        decreases payload@.len() - i,
    {
        r.push(payload[i]);
        proof {
            assert(r@ =~= spec_u32_to_le_bytes(len) + payload@.subrange(0, i + 1 as int));
        }
        i = i + 1;
    }
    proof {
        assert(payload@.subrange(0, payload@.len() as int) =~= payload@);
    }
    r
}

} // verus!
