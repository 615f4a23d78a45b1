//! The protocol's round-trip guarantees: a frame the producer builds,
//! placed anywhere in the guest's memory, is recovered intact by the
//! reader, and its payload decodes back to what the producer put in.
use vstd::prelude::*;
use vstd::utf8::valid_utf8;
use vstd::utf8::decode_utf8;
use crate::wire::raw_payload;
use crate::wire::filler_text;
use crate::wire::framed;
use crate::wire::lemma_frame_layout;
use crate::wire::lemma_filler_utf8;
use crate::reader::length_in_bounds;
use crate::reader::decoded_length;
use crate::reader::payload_in_bounds;
use crate::reader::payload_at;
use crate::codec::record_encoding;

verus! {

/// Length-prefix correctness: wherever a frame sits in memory, the
/// length the reader decodes from the 4-byte prefix equals the byte
/// length of the payload that follows, and the payload the reader takes
/// is exactly the payload the frame carries.
pub proof fn lemma_frame_at(mem: Seq<u8>, ptr: int, payload: Seq<u8>)
    requires
        0 <= ptr,
        payload.len() <= u32::MAX,
        ptr + 4 + payload.len() <= mem.len(),
        mem.subrange(ptr, ptr + 4 + payload.len()) == framed(payload),
    ensures
        payload_in_bounds(mem, ptr),
        decoded_length(mem, ptr) == payload.len(),
        payload_at(mem, ptr) == payload,
        payload_at(mem, ptr).len() == decoded_length(mem, ptr),
{
    lemma_frame_layout(payload);
    let window = mem.subrange(ptr, ptr + 4 + payload.len());
    assert(mem.subrange(ptr, ptr + 4) =~= window.subrange(0, 4));
    assert(length_in_bounds(mem, ptr));
    assert(decoded_length(mem, ptr) == payload.len());
    assert(mem.subrange(ptr + 4, ptr + 4 + payload.len()) =~= window.subrange(
        4,
        window.len() as int,
    ));
    assert(payload_at(mem, ptr) == payload);
}

/// Round trip on the raw path: when the buffer `new_string(len)` builds
/// sits at `ptr` in the guest's memory, the reader finds the frame in
/// bounds, decodes the length prefix back to `len`, takes exactly the
/// `len` filler bytes as payload, and the payload decodes as UTF-8 to
/// `len` repetitions of the filler character.
pub proof fn lemma_raw_round_trip(mem: Seq<u8>, ptr: int, len: u32)
    requires
        0 <= ptr,
        ptr + 4 + len <= mem.len(),
        mem.subrange(ptr, ptr + 4 + len) == framed(raw_payload(len as int)),
    ensures
        payload_in_bounds(mem, ptr),
        decoded_length(mem, ptr) == len,
        payload_at(mem, ptr) == raw_payload(len as int),
        valid_utf8(payload_at(mem, ptr)),
        decode_utf8(payload_at(mem, ptr)) == filler_text(len as int),
{
    lemma_filler_utf8(len as int);
    lemma_frame_at(mem, ptr, raw_payload(len as int));
}

/// Round trip on the structured path: when the buffer `new_proto(len)`
/// builds sits at `ptr` in the guest's memory, the reader finds the
/// frame in bounds, decodes the length prefix back to the encoded
/// record's byte length (not the requested size), and takes exactly the
/// record's encoding as payload; the reader's record decoder then
/// yields the record's string value.
pub proof fn lemma_structured_round_trip(mem: Seq<u8>, ptr: int, value: Seq<char>)
    requires
        0 <= ptr,
        record_encoding(value).len() <= u32::MAX,
        ptr + 4 + record_encoding(value).len() <= mem.len(),
        mem.subrange(ptr, ptr + 4 + record_encoding(value).len()) == framed(
            record_encoding(value),
        ),
    ensures
        payload_in_bounds(mem, ptr),
        decoded_length(mem, ptr) == record_encoding(value).len(),
        payload_at(mem, ptr) == record_encoding(value),
{
    lemma_frame_at(mem, ptr, record_encoding(value));
}

} // verus!
