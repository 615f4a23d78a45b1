//! Trusted bindings to the outside decoders and encoders that the
//! protocol's payloads go through.
use vstd::prelude::*;
use vstd::utf8::valid_utf8;
use vstd::utf8::decode_utf8;
use vstd::utf8::encode_utf8;
use protobuf::Message;

verus! {

/// The binary encoding of the structured record whose one string field
/// holds `value`: what protobuf's `write_to_bytes` returns for it.
pub uninterp spec fn record_encoding(value: Seq<char>) -> Seq<u8>;

/// Relies on protobuf's `Message::write_to_bytes` on
/// `well_known_types::wrappers::StringValue`, the record with one
/// string field. The record is always initialized and the vec-backed
/// output stream has no failure path, so encoding cannot fail. The
/// returned bytes are a function of the string value alone: the empty
/// value writes no bytes at all; a non-empty value is written as one
/// tag byte, a length varint of one to five bytes, then the string's
/// UTF-8 bytes.
#[verifier::external_body]
pub(crate) fn encode_record(value: &str) -> (r: Vec<u8>)
    ensures
        r@ == record_encoding(value@),
        value@.len() == 0 ==> r@.len() == 0,
        value@.len() > 0 ==> r@.len() >= encode_utf8(value@).len() + 2,
        r@.len() <= encode_utf8(value@).len() + 6,
{
    let mut record = protobuf::well_known_types::wrappers::StringValue::new();
    record.value = value.to_string();
    record.write_to_bytes().expect("writing the record to a vec cannot fail")
}

/// Relies on protobuf's `Message::parse_from_bytes` on
/// `well_known_types::wrappers::StringValue`: it inverts
/// `write_to_bytes` for every value whose UTF-8 form fits the 32-bit
/// length header the encoder writes (beyond that the header no longer
/// matches the bytes that follow it), and on empty input it yields the
/// default record, whose string field is the empty string.
#[verifier::external_body]
pub(crate) fn decode_record(bytes: &[u8]) -> (r: Option<String>)
    ensures
        forall|v: Seq<char>|
            encode_utf8(v).len() <= u32::MAX && bytes@ == #[trigger] record_encoding(v)
                ==> r is Some && r->0@ == v,
        bytes@.len() == 0 ==> r is Some && r->0@ == Seq::<char>::empty(),
{
    protobuf::well_known_types::wrappers::StringValue::parse_from_bytes(bytes)
        .ok()
        .map(|record| record.value)
}

/// Relies on String::from_utf8: it succeeds exactly on valid UTF-8
/// input, and the returned string holds those very bytes.
#[verifier::external_body]
pub(crate) fn string_from_utf8(bytes: Vec<u8>) -> (r: Option<String>)
    ensures
        r is Some <==> valid_utf8(bytes@),
        r is Some ==> r->0@ == decode_utf8(bytes@),
{
    String::from_utf8(bytes).ok()
}

} // verus!
