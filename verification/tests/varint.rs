//! Variable-length integer tests: round trips, exact encodings, and the
//! malformed cases.

use node_handshake::errors::HandshakeError;
use node_handshake::utils::{read_varint, write_varint};

#[test]
fn test_varint_round_trip_values() {
    for &v in &[0u64, 127, 128, 16384, u64::MAX] {
        let enc = write_varint(v);
        let (dec, n) = read_varint(&enc, 0).expect("varint should decode");
        assert_eq!(dec, v);
        assert_eq!(n, enc.len());
    }
}

#[test]
fn test_varint_exact_encodings() {
    assert_eq!(write_varint(0), vec![0x00]);
    assert_eq!(write_varint(127), vec![0x7f]);
    assert_eq!(write_varint(128), vec![0x80, 0x01]);
    assert_eq!(write_varint(16384), vec![0x80, 0x80, 0x01]);
    assert_eq!(
        write_varint(u64::MAX),
        vec![0xff, 0xff, 0xff, 0xff, 0xff, 0xff, 0xff, 0xff, 0xff, 0x01]
    );
}

#[test]
fn test_varint_at_offset_ignores_what_follows() {
    let buf = vec![0xaa, 0xbb, 0x80, 0x02, 0x55];
    let (v, n) = read_varint(&buf, 2).expect("varint should decode");
    assert_eq!(v, 256);
    assert_eq!(n, 2);
}

#[test]
fn test_varint_truncated_is_malformed() {
    // A continuation byte with nothing after it.
    let r = read_varint(&vec![0x80], 0);
    assert_eq!(r.err(), Some(HandshakeError::MalformedVarint));

    // An empty buffer.
    let r = read_varint(&Vec::new(), 0);
    assert_eq!(r.err(), Some(HandshakeError::MalformedVarint));
}

#[test]
fn test_varint_overflow_is_malformed() {
    // The tenth byte may contribute only one bit; 0x7f overflows 64 bits.
    let mut overflowing = vec![0xff; 9];
    overflowing.push(0x7f);
    let r = read_varint(&overflowing, 0);
    assert_eq!(r.err(), Some(HandshakeError::MalformedVarint));

    // An eleventh byte always overflows.
    let mut too_long = vec![0x80; 10];
    too_long.push(0x01);
    let r = read_varint(&too_long, 0);
    assert_eq!(r.err(), Some(HandshakeError::MalformedVarint));
}
