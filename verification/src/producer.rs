//! The guest-side producer: builds the length-prefixed output buffer
//! that the host reads back out of the guest's linear memory.
//!
//! Each entry point returns the whole buffer as one owned value, so the
//! region the host reads can never overlap a scratch buffer that was
//! released while assembling it.
use vstd::prelude::*;
use vstd::string::StringExecFns;
use crate::wire::FILLER_BYTE;
use crate::wire::raw_payload;
use crate::wire::filler_text;
use crate::wire::framed;
use crate::wire::frame;
use crate::wire::lemma_filler_utf8;
use crate::codec;
use crate::codec::record_encoding;

verus! {

/// Why a producer entry point could not build its output buffer.
///
/// Encoding the record itself cannot fail — it is always initialized
/// and is written to an in-memory buffer — so the one failure left is
/// an encoding the frame cannot carry.
#[derive(Clone, Copy, Debug, PartialEq, Eq, Structural)]
pub enum ProduceError {
    /// The encoded payload cannot be carried by the frame: its length
    /// does not fit the 4-byte prefix, or the whole buffer would not
    /// fit in memory.
    Oversize,
}

/// Builds the raw-path output buffer for a requested size `len`: the
/// 4-byte little-endian length prefix holding `len`, then `len` filler
/// bytes.
pub fn new_string(len: u32) -> (r: Vec<u8>)
    requires
        len + 4 <= usize::MAX,
    ensures
        r@ == framed(raw_payload(len as int)),
        r@.len() == 4 + len,
{
    let mut payload: Vec<u8> = Vec::new();
    let mut i: u32 = 0;
    while i < len
        invariant
            i <= len,
            len + 4 <= usize::MAX,
            payload@ == raw_payload(i as int),
        decreases len - i,
    {
        payload.push(FILLER_BYTE);
        proof {
            assert(payload@ =~= raw_payload(i + 1 as int));
        }
        i = i + 1;
    }
    frame(&payload)
}

/// Builds the string value the structured record carries for a
/// requested size `len`: `len` repetitions of the filler character.
pub fn filler_string(len: u32) -> (s: String)
    ensures
        s@ == filler_text(len as int),
{
    let mut s = String::new();
    proof {
        reveal_strlit("x");
    }
    let mut i: u32 = 0;
    while i < len
        invariant
            i <= len,
            s@ == filler_text(i as int),
            "x"@ =~= seq!['x'],
        decreases len - i,
    {
        s.append("x");
        proof {
            assert(s@ =~= filler_text(i + 1 as int));
        }
        i = i + 1;
    }
    s
}

/// Builds the structured-path output buffer for a requested size `len`:
/// the record whose string field holds `len` filler characters is
/// binary-encoded, and the frame carries the encoding's length (not
/// `len`) in its 4-byte prefix, then the encoded bytes.
///
/// The length prefix is never allowed to understate or overstate the
/// payload: an encoding too long for the prefix or for memory is
/// rejected as `Oversize` rather than truncated. That is the only
/// failure, so the call succeeds exactly when the encoding fits the
/// prefix and memory — in particular whenever `len + 10 <= u32::MAX`.
pub fn new_proto(len: u32) -> (r: Result<Vec<u8>, ProduceError>)
    ensures
        r is Ok <==> record_encoding(filler_text(len as int)).len() <= u32::MAX
            && record_encoding(filler_text(len as int)).len() + 4 <= usize::MAX,
        r is Ok ==> r->Ok_0@ == framed(record_encoding(filler_text(len as int))),
        r is Ok ==> r->Ok_0@.len() == 4 + record_encoding(filler_text(len as int)).len(),
        r is Err ==> r->Err_0 == ProduceError::Oversize,
        len > 0 ==> record_encoding(filler_text(len as int)).len() >= len + 2,
        record_encoding(filler_text(len as int)).len() <= len + 6,
        len + 10 <= u32::MAX ==> r is Ok,
        len == 0 ==> r is Ok && record_encoding(filler_text(len as int)).len() == 0,
{
    let value = filler_string(len);
    let encoded = codec::encode_record(value.as_str());
    proof {
        lemma_filler_utf8(len as int);
    }
    if encoded.len() > u32::MAX as usize || encoded.len() > usize::MAX - 4 {
        Err(ProduceError::Oversize)
    } else {
        Ok(frame(&encoded))
    }
}

} // verus!
