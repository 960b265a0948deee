//! The message envelope codec: magic, 12-byte command, little-endian length,
//! checksum, payload. Parsing verifies the checksum before the payload is
//! handed to any higher-level decoder; that comparison is the only integrity
//! guarantee the protocol provides.

use crate::encoding::{read_u32_le, write_bytes, write_u32_le};
use crate::errors::HandshakeError;
use crate::network::BitcoinNetwork;
use crate::utils::{calculate_checksum, spec_checksum, CHECKSUM_SIZE};
use crate::version::Command;
use vstd::bytes::*;
use vstd::prelude::*;
use vstd::slice::{slice_subrange, slice_to_vec};

verus! {

/// Byte count of the fixed command field of an envelope.
pub const COMMAND_SIZE: usize = 12;

/// Trait of the message structures that have a wire form. The spec
/// functions define the codec mathematically; the exec methods are proved
/// against them.
pub trait Serializable: View + Sized {
    /// Which values have a wire form.
    spec fn spec_wf(v: Self::V) -> bool;

    /// The wire form of a well-formed value.
    spec fn spec_serialize(v: Self::V) -> Seq<u8>;

    /// The value read back from bytes, or the error the bytes deserve.
    spec fn spec_deserialize(b: Seq<u8>) -> Result<Self::V, HandshakeError>;

    /// Serialize the value to its wire form.
    fn serialize(&self) -> (r: Result<Vec<u8>, HandshakeError>)
        requires
            Self::spec_wf(self@),
        ensures
            r matches Ok(out) && out@ == Self::spec_serialize(self@),
    ;

    /// Parse a value back from bytes.
    fn deserialize(msg: Vec<u8>) -> (r: Result<Box<Self>, HandshakeError>)
        ensures
            (match r {
                Ok(m) => Self::spec_deserialize(msg@) == Ok::<Self::V, HandshakeError>(m@)
                    && Self::spec_wf(m@),
                Err(e) => Self::spec_deserialize(msg@) == Err::<Self::V, HandshakeError>(e),
            }),
    ;
}

/// A protocol message framed for the wire.
#[derive(Debug, Clone)]
pub struct BitcoinMessage {
    /// Magic key of the network, as a little-endian 32-bit value.
    pub magic: u32,
    /// Command name, zero-padded to exactly 12 bytes.
    pub command: [u8; COMMAND_SIZE],
    /// Payload byte count.
    pub length: u32,
    /// First four bytes of the double hash of the payload, as stored.
    pub checksum: [u8; CHECKSUM_SIZE],
    /// The data bytes of the message.
    pub payload: Vec<u8>,
}

/// The mathematical shape of a [`BitcoinMessage`].
pub struct BitcoinMessageView {
    pub magic: u32,
    pub command: Seq<u8>,
    pub length: u32,
    pub checksum: Seq<u8>,
    pub payload: Seq<u8>,
}

impl View for BitcoinMessage {
    type V = BitcoinMessageView;

    open spec fn view(&self) -> BitcoinMessageView {
        BitcoinMessageView {
            magic: self.magic,
            command: self.command@,
            length: self.length,
            checksum: self.checksum@,
            payload: self.payload@,
        }
    }
}

/// The envelope invariant: a 12-byte command, a 4-byte checksum, the length
/// field equal to the payload byte count, and the stored checksum equal to
/// the payload's.
pub open spec fn envelope_wf(v: BitcoinMessageView) -> bool {
    &&& v.command.len() == COMMAND_SIZE
    &&& v.checksum.len() == CHECKSUM_SIZE
    &&& v.length == v.payload.len()
    &&& v.checksum == spec_checksum(v.payload)
}

/// Byte form of an envelope: magic, command, little-endian length, checksum,
/// payload.
pub open spec fn spec_encode_envelope(v: BitcoinMessageView) -> Seq<u8> {
    spec_u32_to_le_bytes(v.magic) + v.command + spec_u32_to_le_bytes(v.length) + v.checksum
        + v.payload
}

/// Envelope parse: the header fields at their fixed offsets, then exactly
/// `length` further payload bytes, then the checksum comparison. Fails with
/// TruncatedInput if fewer bytes remain than the header or the declared
/// length requires, and with ChecksumMismatch if the recomputed checksum of
/// the extracted payload differs from the stored bytes.
pub open spec fn spec_decode_envelope(b: Seq<u8>) -> Result<BitcoinMessageView, HandshakeError> {
    if b.len() < 24 {
        Err(HandshakeError::TruncatedInput)
    } else {
        let length = spec_u32_from_le_bytes(b.subrange(16, 20));
        if b.len() < 24 + length {
            Err(HandshakeError::TruncatedInput)
        } else {
            let payload = b.subrange(24, 24 + length as int);
            let stored = b.subrange(20, 24);
            if stored != spec_checksum(payload) {
                Err(HandshakeError::ChecksumMismatch)
            } else {
                Ok(
                    BitcoinMessageView {
                        magic: spec_u32_from_le_bytes(b.subrange(0, 4)),
                        command: b.subrange(4, 16),
                        length,
                        checksum: stored,
                        payload,
                    },
                )
            }
        }
    }
}

impl BitcoinMessage {
    /// Frame a payload: pad the command to its fixed width, record the
    /// payload length and its checksum, and tag the message with the
    /// network's magic.
    pub fn new(command: Command, payload: Vec<u8>, network: BitcoinNetwork) -> (r: Self)
        requires
            payload@.len() <= u32::MAX,
        ensures
            envelope_wf(r@),
            r@.magic == network.spec_magic_u32(),
            r@.command == command.spec_wire_bytes(),
            r@.payload == payload@,
    {
        let length = payload.len() as u32;
        let checksum = calculate_checksum(&payload);
        BitcoinMessage {
            magic: network.as_u32(),
            command: command.wire_bytes(),
            length,
            checksum,
            payload,
        }
    }
}

impl Serializable for BitcoinMessage {
    open spec fn spec_wf(v: BitcoinMessageView) -> bool {
        envelope_wf(v)
    }

    open spec fn spec_serialize(v: BitcoinMessageView) -> Seq<u8> {
        spec_encode_envelope(v)
    }

    open spec fn spec_deserialize(b: Seq<u8>) -> Result<BitcoinMessageView, HandshakeError> {
        spec_decode_envelope(b)
    }

    fn serialize(&self) -> (r: Result<Vec<u8>, HandshakeError>) {
        let mut out: Vec<u8> = Vec::new();
        write_u32_le(&mut out, self.magic);
        write_bytes(&mut out, self.command.as_slice());
        write_u32_le(&mut out, self.length);
        write_bytes(&mut out, self.checksum.as_slice());
        write_bytes(&mut out, self.payload.as_slice());
        proof {
            assert(out@ =~= spec_encode_envelope(self@));
        }
        Ok(out)
    }

    fn deserialize(msg: Vec<u8>) -> (r: Result<Box<Self>, HandshakeError>) {
        let n = msg.len();
        if n < 24 {
            return Err(HandshakeError::TruncatedInput);
        }
        let length = read_u32_le(&msg, 16);
        if length as usize > n - 24 {
            return Err(HandshakeError::TruncatedInput);
        }
        let payload = slice_to_vec(slice_subrange(msg.as_slice(), 24, 24 + length as usize));
        let computed = calculate_checksum(&payload);
        let stored = [msg[20], msg[21], msg[22], msg[23]];
        let ghost stored_bytes = msg@.subrange(20, 24);
        proof {
            assert(stored@ =~= stored_bytes);
        }
        if !(stored[0] == computed[0] && stored[1] == computed[1] && stored[2] == computed[2]
            && stored[3] == computed[3]) {
            proof {
                assert(stored_bytes != spec_checksum(payload@));
            }
            return Err(HandshakeError::ChecksumMismatch);
        }
        proof {
            assert(stored@ =~= computed@);
        }
        let magic = read_u32_le(&msg, 0);
        let command = [
            msg[4],
            msg[5],
            msg[6],
            msg[7],
            msg[8],
            msg[9],
            msg[10],
            msg[11],
            msg[12],
            msg[13],
            msg[14],
            msg[15],
        ];
        proof {
            assert(command@ =~= msg@.subrange(4, 16));
        }
        Ok(
            Box::new(
                BitcoinMessage { magic, command, length, checksum: stored, payload },
            ),
        )
    }
}

// ---------------------------------------------------------------------------
// Envelope laws.
// ---------------------------------------------------------------------------

/// Envelope round trip: parsing a well-formed envelope's byte form yields
/// exactly its fields.
pub proof fn lemma_envelope_round_trip(v: BitcoinMessageView)
    requires
        envelope_wf(v),
        v.payload.len() <= u32::MAX,
    ensures
        spec_decode_envelope(spec_encode_envelope(v)) == Ok::<
            BitcoinMessageView,
            HandshakeError,
        >(v),
{
    lemma_auto_spec_u32_to_from_le_bytes();
    assert(spec_u32_to_le_bytes(v.magic).len() == 4);
    assert(spec_u32_to_le_bytes(v.length).len() == 4);
    let e = spec_encode_envelope(v);
    assert(e.len() == 24 + v.payload.len());
    assert(e.subrange(0, 4) =~= spec_u32_to_le_bytes(v.magic));
    assert(e.subrange(4, 16) =~= v.command);
    assert(e.subrange(16, 20) =~= spec_u32_to_le_bytes(v.length));
    assert(e.subrange(20, 24) =~= v.checksum);
    assert(e.subrange(24, 24 + v.length as int) =~= v.payload);
    let d = spec_decode_envelope(e);
    assert(d matches Ok(m) && m == v);
}

/// The checksum is deterministic: it depends on the payload bytes alone, so
/// equal payloads always carry equal checksums.
pub proof fn lemma_checksum_deterministic(a: Seq<u8>, b: Seq<u8>)
    requires
        a == b,
    ensures
        spec_checksum(a) == spec_checksum(b),
{
}

/// Tampering detection: an envelope whose stored checksum was altered in a
/// single bit is always rejected with ChecksumMismatch.
pub proof fn lemma_checksum_tamper_rejected(v: BitcoinMessageView, t: Seq<u8>, i: int, k: u8)
    requires
        envelope_wf(v),
        v.payload.len() <= u32::MAX,
        0 <= i < 4,
        k < 8,
        t.len() == spec_encode_envelope(v).len(),
        forall|j: int| 0 <= j < t.len() && j != 20 + i ==> t[j] == spec_encode_envelope(v)[j],
        t[20 + i] == spec_encode_envelope(v)[20 + i] ^ (1u8 << k),
    ensures
        spec_decode_envelope(t) == Err::<BitcoinMessageView, HandshakeError>(
            HandshakeError::ChecksumMismatch,
        ),
{
    lemma_auto_spec_u32_to_from_le_bytes();
    assert(spec_u32_to_le_bytes(v.magic).len() == 4);
    assert(spec_u32_to_le_bytes(v.length).len() == 4);
    let e = spec_encode_envelope(v);
    assert(e.len() == 24 + v.payload.len());
    assert(e.subrange(16, 20) =~= spec_u32_to_le_bytes(v.length));
    assert(e.subrange(20, 24) =~= v.checksum);
    assert(e.subrange(24, 24 + v.length as int) =~= v.payload);

    // The flip leaves the length field and the payload untouched.
    assert(t.subrange(16, 20) =~= e.subrange(16, 20));
    assert(t.subrange(24, 24 + v.length as int) =~= e.subrange(24, 24 + v.length as int));

    // A one-bit flip changes the byte, hence the stored checksum bytes.
    let x = e[20 + i];
    assert(x ^ (1u8 << k) != x) by (bit_vector)
        requires
            k < 8,
    ;
    assert(t.subrange(20, 24)[i] != e.subrange(20, 24)[i]);
    assert(t.subrange(20, 24) != spec_checksum(v.payload));
}

} // verus!
