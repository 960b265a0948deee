//! Checksum and variable-length integer utilities, and the session-local
//! sources of time and randomness.

use crate::errors::HandshakeError;
use rand::Rng;
use vstd::arithmetic::div_mod::*;
use vstd::prelude::*;

verus! {

/// Byte count of an envelope checksum: the first four bytes of the double hash.
pub const CHECKSUM_SIZE: usize = 4;

// ---------------------------------------------------------------------------
// Checksum: first four bytes of a double SHA-256.
// ---------------------------------------------------------------------------

/// The SHA-256 digest of a byte sequence. The digest is left unspecified
/// here; it is a function of the input bytes alone.
pub uninterp spec fn spec_sha256(data: Seq<u8>) -> Seq<u8>;

/// Relies on openssl::sha::sha256: the 32-byte SHA-256 digest of the input,
/// a deterministic function of the input bytes alone.
#[verifier::external_body]
fn sha256_digest(data: &[u8]) -> (r: Vec<u8>)
    ensures
        r@ == spec_sha256(data@),
        r@.len() == 32,
{
    openssl::sha::sha256(data).to_vec()
}

/// First four bytes of the double SHA-256 hash of a payload.
pub open spec fn spec_checksum(data: Seq<u8>) -> Seq<u8> {
    let h = spec_sha256(spec_sha256(data));
    seq![h[0], h[1], h[2], h[3]]
}

/// Calculate the checksum of a payload: hash it twice with SHA-256 and keep
/// the first four bytes of the second digest.
pub fn calculate_checksum(data: &Vec<u8>) -> (r: [u8; CHECKSUM_SIZE])
    ensures
        r@ == spec_checksum(data@),
{
    let first = sha256_digest(data.as_slice());
    let second = sha256_digest(first.as_slice());
    let r = [second[0], second[1], second[2], second[3]];
    proof {
        assert(r@ =~= spec_checksum(data@));
    }
    r
}

// ---------------------------------------------------------------------------
// Time and randomness.
// ---------------------------------------------------------------------------

/// Relies on std::time::SystemTime::now and duration_since: seconds since
/// the UNIX epoch, or 0 if the clock reads earlier than the epoch.
#[verifier::external_body]
fn unix_time_secs() -> u64 {
    match std::time::SystemTime::now().duration_since(std::time::UNIX_EPOCH) {
        Ok(d) => d.as_secs(),
        Err(_) => 0,
    }
}

/// Current UNIX timestamp in seconds, clamped into the non-negative range
/// of a signed 64-bit wire field.
pub fn calculate_timestamp() -> (r: i64)
    ensures
        r >= 0,
{
    let secs = unix_time_secs();
    if secs > i64::MAX as u64 {
        i64::MAX
    } else {
        secs as i64
    }
}

/// Relies on rand::thread_rng and Rng::gen: a fresh random 64-bit nonce.
/// Nothing is promised of the value.
#[verifier::external_body]
pub fn generate_nonce() -> u64 {
    let mut rng = rand::thread_rng();
    rng.gen::<u64>()
}

// ---------------------------------------------------------------------------
// Variable-length integers: little-endian base 128.
// ---------------------------------------------------------------------------

/// Encoding of a 64-bit value: seven low-order bits per byte, least
/// significant group first, high bit set on every byte but the last.
pub open spec fn spec_write_varint(v: u64) -> Seq<u8>
    decreases v,
{
    if v < 0x80 {
        seq![v as u8]
    } else {
        seq![((v % 0x80) + 0x80) as u8] + spec_write_varint(v / 0x80)
    }
}

/// Decoding from the front of a byte sequence: the value and the number of
/// bytes consumed, or None if the bytes end mid-sequence or the value would
/// overflow 64 bits.
pub open spec fn spec_read_varint(b: Seq<u8>) -> Option<(u64, int)>
    decreases b.len(),
{
    if b.len() == 0 {
        None
    } else if b[0] < 0x80 {
        Some((b[0] as u64, 1))
    } else {
        match spec_read_varint(b.skip(1)) {
            None => None,
            Some((rest, n)) => {
                let lo = (b[0] - 0x80) as u64;
                if rest > (u64::MAX - lo) / 0x80 {
                    None
                } else {
                    Some(((lo + rest * 0x80) as u64, n + 1))
                }
            },
        }
    }
}

/// Encode a value as a variable-length integer.
pub fn write_varint(value: u64) -> (r: Vec<u8>)
    ensures
        r@ == spec_write_varint(value),
    decreases value,
{
    let mut out: Vec<u8> = Vec::new();
    if value < 0x80 {
        out.push(value as u8);
    } else {
        out.push(((value % 0x80) + 0x80) as u8);
        let mut rest = write_varint(value / 0x80);
        out.append(&mut rest);
    }
    proof {
        assert(out@ =~= spec_write_varint(value));
    }
    out
}

/// Decode a variable-length integer starting at an offset. Returns the
/// value and the count of bytes consumed, or MalformedVarint if the buffer
/// ends mid-sequence or the value would overflow 64 bits.
pub fn read_varint(bytes: &Vec<u8>, offset: usize) -> (r: Result<(u64, usize), HandshakeError>)
    requires
        offset <= bytes@.len(),
    ensures
        (match r {
            Ok(p) => {
                &&& spec_read_varint(bytes@.skip(offset as int)) == Some((p.0, p.1 as int))
                &&& 1 <= p.1
                &&& offset + p.1 <= bytes@.len()
            },
            Err(e) => {
                &&& spec_read_varint(bytes@.skip(offset as int)) is None
                &&& e == HandshakeError::MalformedVarint
            },
        }),
    decreases bytes@.len() - offset,
{
    let ghost tail = bytes@.skip(offset as int);
    if offset >= bytes.len() {
        return Err(HandshakeError::MalformedVarint);
    }
    let b0 = bytes[offset];
    proof {
        assert(tail[0] == bytes@[offset as int]);
    }
    if b0 < 0x80 {
        Ok((b0 as u64, 1))
    } else {
        proof {
            assert(tail.skip(1) =~= bytes@.skip(offset as int + 1));
        }
        match read_varint(bytes, offset + 1) {
            Err(e) => Err(e),
            Ok((rest, n)) => {
                let lo = (b0 - 0x80) as u64;
                if rest > (u64::MAX - lo) / 0x80 {
                    Err(HandshakeError::MalformedVarint)
                } else {
                    proof {
                        lemma_remainder_lower((u64::MAX - lo) as int, 0x80);
                    }
                    Ok((lo + rest * 0x80, n + 1))
                }
            },
        }
    }
}

/// Varint round trip: reading an encoded value back, whatever bytes follow
/// it, yields the value and consumes exactly its encoding.
pub proof fn lemma_varint_round_trip(v: u64, rest: Seq<u8>)
    ensures
        spec_read_varint(spec_write_varint(v) + rest) == Some((
            v,
            spec_write_varint(v).len() as int,
        )),
    decreases v,
{
    let b = spec_write_varint(v) + rest;
    if v < 0x80 {
        assert(b[0] == v as u8);
    } else {
        assert(b.skip(1) =~= spec_write_varint(v / 0x80) + rest);
        lemma_varint_round_trip(v / 0x80, rest);
        let lo = (b[0] - 0x80) as u64;
        let r = v / 0x80;
        lemma_fundamental_div_mod(v as int, 0x80);
        assert(lo == v % 0x80);
        assert(lo + r * 0x80 == v);
        assert(r <= (u64::MAX - lo) / 0x80) by {
            lemma_div_multiples_vanish(r as int, 0x80);
            lemma_div_is_ordered(0x80 * (r as int), (u64::MAX - lo) as int, 0x80);
        };
    }
}

} // verus!
