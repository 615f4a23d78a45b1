//! The host-side reader: given a view of the guest's linear memory and
//! a pointer the guest returned, recover the length prefix and the
//! payload, and decode the payload.
use vstd::prelude::*;
use vstd::bytes::spec_u32_from_le_bytes;
use vstd::bytes::u32_from_le_bytes;
use vstd::slice::slice_subrange;
use vstd::utf8::valid_utf8;
use vstd::utf8::decode_utf8;
use vstd::utf8::encode_utf8;
use crate::codec;

verus! {

/// Why a host-side read of a guest buffer failed.
#[derive(Clone, Copy, Debug, PartialEq, Eq, Structural)]
pub enum ReadError {
    /// A byte range reached past the end of the guest's memory.
    OutOfBounds,
    /// The payload bytes did not decode under the expected format.
    DecodeError,
}

/// True when the 4-byte length prefix at `ptr` lies inside the memory.
pub open spec fn length_in_bounds(mem: Seq<u8>, ptr: int) -> bool {
    ptr + 4 <= mem.len()
}

/// The length prefix at `ptr`, decoded as a little-endian unsigned
/// 32-bit value.
pub open spec fn decoded_length(mem: Seq<u8>, ptr: int) -> u32 {
    spec_u32_from_le_bytes(mem.subrange(ptr, ptr + 4))
}

/// True when the length prefix and the payload it announces both lie
/// inside the memory.
pub open spec fn payload_in_bounds(mem: Seq<u8>, ptr: int) -> bool {
    length_in_bounds(mem, ptr) && ptr + 4 + decoded_length(mem, ptr) <= mem.len()
}

/// The payload bytes that the frame at `ptr` carries.
pub open spec fn payload_at(mem: Seq<u8>, ptr: int) -> Seq<u8> {
    mem.subrange(ptr + 4, ptr + 4 + decoded_length(mem, ptr))
}

/// Reads the 4-byte little-endian length prefix at `ptr`, or reports
/// that it reaches past the end of the memory.
pub fn read_length(mem: &[u8], ptr: u32) -> (r: Result<u32, ReadError>)
    ensures
        r is Ok <==> length_in_bounds(mem@, ptr as int),
        r is Ok ==> r->Ok_0 == decoded_length(mem@, ptr as int),
        r is Err ==> r->Err_0 == ReadError::OutOfBounds,
{
    let p = ptr as usize;
    if mem.len() < 4 || p > mem.len() - 4 {
        Err(ReadError::OutOfBounds)
    } else {
        let prefix = slice_subrange(mem, p, p + 4);
        Ok(u32_from_le_bytes(prefix))
    }
}

/// Reads the frame at `ptr`: decodes the length prefix, then copies
/// exactly that many payload bytes out of the memory. Fails only when
/// one of the two ranges reaches past the end of the memory.
pub fn read_payload(mem: &[u8], ptr: u32) -> (r: Result<Vec<u8>, ReadError>)
    ensures
        r is Ok <==> payload_in_bounds(mem@, ptr as int),
        r is Ok ==> r->Ok_0@ == payload_at(mem@, ptr as int),
        r is Err ==> r->Err_0 == ReadError::OutOfBounds,
{
    let len = read_length(mem, ptr)?;
    let p = ptr as usize;
    if (len as usize) > mem.len() - (p + 4) {
        return Err(ReadError::OutOfBounds);
    }
    let payload = slice_subrange(mem, p + 4, p + 4 + len as usize);
    let mut out: Vec<u8> = Vec::new();
    let mut i: usize = 0;
    while i < payload.len()
        invariant
            i <= payload@.len(),
            out@ == payload@.subrange(0, i as int),
        decreases payload@.len() - i,
    {
        out.push(payload[i]);
        proof {
            assert(out@ =~= payload@.subrange(0, i + 1 as int));
        }
        i = i + 1;
    }
    proof {
        assert(out@ =~= payload_at(mem@, ptr as int));
    }
    Ok(out)
}

/// Reads the frame at `ptr` and decodes the payload as UTF-8 text (the
/// raw path). Fails with `OutOfBounds` when a range reaches past the
/// memory, and with `DecodeError` when the payload is not valid UTF-8.
pub fn read_string(mem: &[u8], ptr: u32) -> (r: Result<String, ReadError>)
    ensures
        r is Ok <==> payload_in_bounds(mem@, ptr as int)
            && valid_utf8(payload_at(mem@, ptr as int)),
        r is Ok ==> r->Ok_0@ == decode_utf8(payload_at(mem@, ptr as int)),
        r is Err ==> (r->Err_0 == ReadError::OutOfBounds
            <==> !payload_in_bounds(mem@, ptr as int)),
{
    let payload = read_payload(mem, ptr)?;
    match codec::string_from_utf8(payload) {
        Some(s) => Ok(s),
        None => Err(ReadError::DecodeError),
    }
}

/// Reads the frame at `ptr` and decodes the payload as the structured
/// record (the structured path), yielding the record's string field.
/// Fails with `OutOfBounds` when a range reaches past the memory, and
/// with `DecodeError` when the payload does not parse as the record.
/// A payload that is the encoding of a record — of any value whose
/// UTF-8 form fits the encoder's 32-bit length header — is always
/// decoded back to that record's value; an empty payload is the empty
/// record, whose value is the empty string.
pub fn read_record(mem: &[u8], ptr: u32) -> (r: Result<String, ReadError>)
    ensures
        r is Ok ==> payload_in_bounds(mem@, ptr as int),
        r is Err ==> (r->Err_0 == ReadError::OutOfBounds
            <==> !payload_in_bounds(mem@, ptr as int)),
        payload_in_bounds(mem@, ptr as int) ==> forall|v: Seq<char>|
            encode_utf8(v).len() <= u32::MAX
                && payload_at(mem@, ptr as int) == #[trigger] codec::record_encoding(v)
                ==> r is Ok && r->Ok_0@ == v,
        payload_in_bounds(mem@, ptr as int) && payload_at(mem@, ptr as int).len() == 0
            ==> r is Ok && r->Ok_0@ == Seq::<char>::empty(),
{
    let payload = read_payload(mem, ptr)?;
    match codec::decode_record(payload.as_slice()) {
        Some(s) => Ok(s),
        None => Err(ReadError::DecodeError),
    }
}

} // verus!
