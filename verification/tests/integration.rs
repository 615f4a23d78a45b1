use protobuf::Message;
use proto_wasm::producer::new_proto;
use proto_wasm::producer::new_string;
use proto_wasm::reader::read_length;
use proto_wasm::reader::read_payload;
use proto_wasm::reader::read_record;
use proto_wasm::reader::read_string;
use proto_wasm::reader::ReadError;
use proto_wasm::wire::frame;

#[test]
fn raw_scenario_five() {
    // The buffer for size 5 holds the little-endian length 5, then five
    // ASCII `x` bytes.
    let buf = new_string(5);
    assert_eq!(buf.len(), 9);
    assert_eq!(&buf[0..4], &[0x05, 0x00, 0x00, 0x00][..]);
    assert_eq!(&buf[4..9], &b"xxxxx"[..]);
    let got = read_string(buf.as_slice(), 0).expect("frame must read back");
    assert_eq!(got, "xxxxx");
}

#[test]
fn raw_round_trip_small_sizes() {
    for n in [0u32, 1, 2, 31, 32, 1024] {
        let buf = new_string(n);
        assert_eq!(buf.len() as u32, n + 4);
        let len = read_length(buf.as_slice(), 0).expect("length must read back");
        assert_eq!(len, n);
        let got = read_string(buf.as_slice(), 0).expect("frame must read back");
        assert_eq!(got, "x".repeat(n as usize));
    }
}

#[test]
fn raw_round_trip_large() {
    // A size near realistic upper bounds, as a host would request.
    let want: u32 = 32 * 1024 * 1024;
    let buf = new_string(want);
    let len = read_length(buf.as_slice(), 0).expect("length must read back");
    assert_eq!(len, want);
    let got = read_string(buf.as_slice(), 0).expect("frame must read back");
    assert_eq!(got, "x".repeat(want as usize));
}

#[test]
fn structured_round_trip_small_sizes() {
    for n in [0u32, 1, 2, 31, 32, 1024] {
        let buf = new_proto(n).expect("record must encode");
        let got = read_record(buf.as_slice(), 0).expect("record must read back");
        assert_eq!(got, "x".repeat(n as usize));
    }
}

#[test]
fn structured_round_trip_large() {
    // Sizes at and beyond any allocator-dependent threshold must round
    // trip: the producer returns the whole buffer as one owned value,
    // so no scratch allocation can overlap the region the host reads.
    let want: u32 = 32 * 1024 * 1024;
    let buf = new_proto(want).expect("record must encode");
    let got = read_record(buf.as_slice(), 0).expect("record must read back");
    assert_eq!(got, "x".repeat(want as usize));
}

#[test]
fn structured_length_is_encoding_length_not_request() {
    // The prefix holds the encoded record's byte length: tag, varint
    // length, then the string bytes — never the requested size itself.
    let buf = new_proto(5).expect("record must encode");
    let len = read_length(buf.as_slice(), 0).expect("length must read back");
    assert_eq!(len, 7);
    assert_eq!(&buf[0..4], &[0x07, 0x00, 0x00, 0x00][..]);
    assert_eq!(&buf[4..11], &[0x0a, 0x05, b'x', b'x', b'x', b'x', b'x'][..]);
}

#[test]
fn structured_encoding_matches_protobuf() {
    // The payload must be byte-identical to what protobuf itself writes
    // for the record.
    for n in [0u32, 1, 200, 1024] {
        let buf = new_proto(n).expect("record must encode");
        let payload = read_payload(buf.as_slice(), 0).expect("payload must read back");
        let mut record = protobuf::well_known_types::wrappers::StringValue::new();
        record.value = "x".repeat(n as usize);
        let want = record.write_to_bytes().expect("record must write to bytes");
        assert_eq!(payload, want);
    }
}

#[test]
fn structured_empty_record() {
    // The empty record carries no field bytes at all, so the decoded
    // length is the empty-string encoding's length, not the request.
    let buf = new_proto(0).expect("record must encode");
    let len = read_length(buf.as_slice(), 0).expect("length must read back");
    assert_eq!(len, 0);
    assert_eq!(buf, vec![0x00, 0x00, 0x00, 0x00]);
    let got = read_record(buf.as_slice(), 0).expect("record must read back");
    assert_eq!(got, "");
}

#[test]
fn length_prefix_equals_payload_length() {
    for n in [0u32, 3, 100] {
        let raw = new_string(n);
        let len = read_length(raw.as_slice(), 0).expect("length must read back");
        let payload = read_payload(raw.as_slice(), 0).expect("payload must read back");
        assert_eq!(len as usize, payload.len());
        assert_eq!(len as usize, raw.len() - 4);

        let structured = new_proto(n).expect("record must encode");
        let len = read_length(structured.as_slice(), 0).expect("length must read back");
        let payload = read_payload(structured.as_slice(), 0).expect("payload must read back");
        assert_eq!(len as usize, payload.len());
        assert_eq!(len as usize, structured.len() - 4);
    }
}

#[test]
fn frame_prepends_little_endian_length() {
    let framed = frame(&vec![1, 2, 3]);
    assert_eq!(framed, vec![0x03, 0x00, 0x00, 0x00, 1, 2, 3]);
    let empty = frame(&Vec::new());
    assert_eq!(empty, vec![0x00, 0x00, 0x00, 0x00]);
}

#[test]
fn frame_read_back_at_offset() {
    // A frame sitting anywhere in memory reads back from its own
    // pointer, not just from offset zero.
    let mut mem = vec![0xee, 0xee, 0xee];
    mem.extend_from_slice(&new_string(4));
    let got = read_string(mem.as_slice(), 3).expect("frame must read back");
    assert_eq!(got, "xxxx");
    let payload = read_payload(mem.as_slice(), 3).expect("payload must read back");
    assert_eq!(payload, b"xxxx".to_vec());
}

#[test]
fn pointer_past_memory_is_out_of_bounds() {
    let mem = new_string(5);
    // The prefix range leaves the memory: at its end, past it, and far
    // past it, the read must fail rather than wrap or read garbage.
    assert_eq!(read_length(mem.as_slice(), mem.len() as u32), Err(ReadError::OutOfBounds));
    assert_eq!(read_length(mem.as_slice(), mem.len() as u32 + 1), Err(ReadError::OutOfBounds));
    assert_eq!(read_length(mem.as_slice(), u32::MAX), Err(ReadError::OutOfBounds));
    assert_eq!(read_payload(mem.as_slice(), 7), Err(ReadError::OutOfBounds));
    assert_eq!(read_string(mem.as_slice(), 8), Err(ReadError::OutOfBounds));
    assert_eq!(read_record(mem.as_slice(), 9), Err(ReadError::OutOfBounds));
}

#[test]
fn length_prefix_reaching_past_memory_is_out_of_bounds() {
    // The prefix itself is readable but announces more payload than the
    // memory holds.
    let mem = vec![0x05, 0x00, 0x00, 0x00, b'x', b'x'];
    assert_eq!(read_length(mem.as_slice(), 0), Ok(5));
    assert_eq!(read_payload(mem.as_slice(), 0), Err(ReadError::OutOfBounds));
    assert_eq!(read_string(mem.as_slice(), 0), Err(ReadError::OutOfBounds));
    let huge = vec![0xff, 0xff, 0xff, 0x7f];
    assert_eq!(read_payload(huge.as_slice(), 0), Err(ReadError::OutOfBounds));
}

#[test]
fn invalid_utf8_payload_is_decode_error() {
    let mem = frame(&vec![0xff, 0xfe]);
    assert_eq!(read_string(mem.as_slice(), 0), Err(ReadError::DecodeError));
}

#[test]
fn invalid_record_payload_is_decode_error() {
    // Field 1 with wire type LEN announcing 5 bytes but carrying none:
    // the record decoder must reject it.
    let mem = frame(&vec![0x0a, 0x05]);
    assert_eq!(read_record(mem.as_slice(), 0), Err(ReadError::DecodeError));
}

#[test]
fn empty_memory_is_out_of_bounds() {
    let mem: Vec<u8> = Vec::new();
    assert_eq!(read_length(mem.as_slice(), 0), Err(ReadError::OutOfBounds));
    assert_eq!(read_string(mem.as_slice(), 0), Err(ReadError::OutOfBounds));
}
