//! The `version` command's payload codec and the verack reply: commands and
//! their fixed-width wire names, the version payload with its field-by-field
//! encoding, and the verification of a reply envelope's header.

use crate::encoding::{
    lemma_i32_le_bytes_round_trip, lemma_i64_le_bytes_round_trip, read_i32_le, read_i64_le,
    read_u64_le, spec_i32_from_le_bytes, spec_i32_to_le_bytes, spec_i64_from_le_bytes,
    spec_i64_to_le_bytes, write_bytes, write_i32_le, write_i64_le, write_u64_le,
};
use crate::errors::HandshakeError;
use crate::messages::{
    spec_decode_envelope, BitcoinMessage, Serializable, COMMAND_SIZE,
};
use crate::network::{
    add_serialize_addr, address_wf, lemma_address_round_trip_v4, lemma_address_round_trip_v6,
    read_deserialized_add, spec_decode_address, spec_encode_address, spec_is_v4_mapped,
    BitcoinNetwork, IpAddressView, NetworkAddress, NetworkAddressView,
};
use crate::utils::{
    calculate_checksum, calculate_timestamp, generate_nonce, lemma_varint_round_trip, read_varint,
    spec_checksum, spec_read_varint, spec_write_varint, write_varint, CHECKSUM_SIZE,
};
use vstd::bytes::{
    lemma_auto_spec_u64_to_from_le_bytes, spec_u64_from_le_bytes, spec_u64_to_le_bytes,
};
use vstd::prelude::*;
use vstd::slice::{slice_subrange, slice_to_vec};

verus! {

/// Highest protocol version this node speaks, and the floor below which a
/// peer's declared version is rejected.
pub const PROTOCOL_VERSION: i32 = 70001;

/// Services bitmask of a full node able to serve the whole chain.
pub const NODE_NETWORK_SERVICE: u64 = 1;

// ---------------------------------------------------------------------------
// Commands.
// ---------------------------------------------------------------------------

/// The closed set of commands this implementation exchanges.
#[derive(Debug, Clone, Copy, PartialEq, Eq, Structural)]
pub enum Command {
    /// Sent when two nodes first connect.
    Version,
    /// Sent to acknowledge a version message.
    Verack,
}

impl Command {
    /// The ASCII bytes of the command's name.
    pub open spec fn spec_name_bytes(self) -> Seq<u8> {
        match self {
            Command::Version => seq![118u8, 101u8, 114u8, 115u8, 105u8, 111u8, 110u8],
            Command::Verack => seq![118u8, 101u8, 114u8, 97u8, 99u8, 107u8],
        }
    }

    /// The name left-justified and zero-padded to the fixed 12-byte field.
    pub open spec fn spec_wire_bytes(self) -> Seq<u8> {
        self.spec_name_bytes() + Seq::new((COMMAND_SIZE - self.spec_name_bytes().len()) as nat, |i: int| 0u8)
    }

    /// The command's name.
    pub fn as_str(&self) -> (r: &'static str)
        ensures
            self is Version ==> r@ == "version"@,
            self is Verack ==> r@ == "verack"@,
    {
        match *self {
            Command::Version => "version",
            Command::Verack => "verack",
        }
    }

    /// The 12-byte wire form of the name.
    pub fn wire_bytes(&self) -> (r: [u8; COMMAND_SIZE])
        ensures
            r@ == self.spec_wire_bytes(),
    {
        let r: [u8; COMMAND_SIZE] = match *self {
            Command::Version => [118, 101, 114, 115, 105, 111, 110, 0, 0, 0, 0, 0],
            Command::Verack => [118, 101, 114, 97, 99, 107, 0, 0, 0, 0, 0, 0],
        };
        proof {
            assert(r@ =~= self.spec_wire_bytes());
        }
        r
    }

    /// The wire form of the name as a result. A name longer than the fixed
    /// field would fail with CommandTooLong; every name of this closed set
    /// fits, so the call always succeeds.
    pub fn as_fixed_length_vec(&self) -> (r: Result<[u8; COMMAND_SIZE], HandshakeError>)
        ensures
            r matches Ok(a) && a@ == self.spec_wire_bytes(),
    {
        Ok(self.wire_bytes())
    }

    /// Whether a received 12-byte command field spells this command.
    pub fn matches_wire(&self, cmd: &[u8; COMMAND_SIZE]) -> (b: bool)
        ensures
            b == (cmd@ == self.spec_wire_bytes()),
    {
        let expected = self.wire_bytes();
        let mut i: usize = 0;
        let mut same = true;
        while i < COMMAND_SIZE
            invariant
                i <= COMMAND_SIZE,
                same == (forall|j: int| 0 <= j < i ==> cmd@[j] == expected@[j]),
                cmd@.len() == COMMAND_SIZE,
                expected@ == self.spec_wire_bytes(),
            decreases COMMAND_SIZE - i,
        {
            if cmd[i] != expected[i] {
                same = false;
            }
            i = i + 1;
        }
        proof {
            if same {
                assert(cmd@ =~= self.spec_wire_bytes());
            }
        }
        same
    }
}

// ---------------------------------------------------------------------------
// The version payload.
// ---------------------------------------------------------------------------

/// The `version` command's payload: the first message of a handshake.
#[derive(Debug)]
pub struct VersionMessage {
    /// Highest protocol version the sending node speaks.
    pub version: i32,
    /// Services bitmask of the sending node.
    pub services: u64,
    /// UNIX timestamp, in seconds, of the message's creation.
    pub timestamp: i64,
    /// Address entry of the node the message is sent to.
    pub receiver: NetworkAddress,
    /// Address entry of the sending node.
    pub sender: NetworkAddress,
    /// Random value letting a node detect a connection to itself.
    pub nonce: u64,
    /// Software identifier of the sending node, as raw bytes.
    pub user_agent: Vec<u8>,
    /// Highest block number known to the sending node.
    pub start_height: i32,
    /// Whether the node wants relayed transactions.
    pub relay: bool,
}

/// The mathematical shape of a [`VersionMessage`].
pub struct VersionMessageView {
    pub version: i32,
    pub services: u64,
    pub timestamp: i64,
    pub receiver: NetworkAddressView,
    pub sender: NetworkAddressView,
    pub nonce: u64,
    pub user_agent: Seq<u8>,
    pub start_height: i32,
    pub relay: bool,
}

impl View for VersionMessage {
    type V = VersionMessageView;

    open spec fn view(&self) -> VersionMessageView {
        VersionMessageView {
            version: self.version,
            services: self.services,
            timestamp: self.timestamp,
            receiver: self.receiver@,
            sender: self.sender@,
            nonce: self.nonce,
            user_agent: self.user_agent@,
            start_height: self.start_height,
            relay: self.relay,
        }
    }
}

/// The version payload invariant: well-formed addresses and a protocol
/// version at or above the supported floor.
pub open spec fn version_wf(v: VersionMessageView) -> bool {
    &&& address_wf(v.receiver)
    &&& address_wf(v.sender)
    &&& v.version >= PROTOCOL_VERSION
}

/// Byte form of the version payload, fields in wire order: version,
/// services, timestamp, receiver address, sender address, nonce,
/// varint-length-prefixed user agent, start height, relay flag. All
/// integers little-endian except the embedded addresses' ports.
pub open spec fn spec_encode_version(v: VersionMessageView) -> Seq<u8> {
    spec_i32_to_le_bytes(v.version) + spec_u64_to_le_bytes(v.services) + spec_i64_to_le_bytes(
        v.timestamp,
    ) + spec_encode_address(v.receiver) + spec_encode_address(v.sender) + spec_u64_to_le_bytes(
        v.nonce,
    ) + spec_write_varint(v.user_agent.len() as u64) + v.user_agent + spec_i32_to_le_bytes(
        v.start_height,
    ) + seq![(if v.relay { 1u8 } else { 0u8 })]
}

/// Version payload parse, the inverse field order. Fails with
/// UnsupportedProtocolVersion if the declared version is below the floor,
/// with MalformedVarint if the user-agent length is unreadable, and with
/// TruncatedInput on any short read.
pub open spec fn spec_decode_version(b: Seq<u8>) -> Result<VersionMessageView, HandshakeError> {
    if b.len() < 4 {
        Err(HandshakeError::TruncatedInput)
    } else {
        let version = spec_i32_from_le_bytes(b.subrange(0, 4));
        if version < PROTOCOL_VERSION {
            Err(HandshakeError::UnsupportedProtocolVersion)
        } else if b.len() < 80 {
            Err(HandshakeError::TruncatedInput)
        } else {
            match spec_read_varint(b.skip(80)) {
                None => Err(HandshakeError::MalformedVarint),
                Some((ua_len, vn)) => {
                    let ua_end = 80 + vn + ua_len;
                    if b.len() < ua_end + 5 {
                        Err(HandshakeError::TruncatedInput)
                    } else {
                        Ok(
                            VersionMessageView {
                                version,
                                services: spec_u64_from_le_bytes(b.subrange(4, 12)),
                                timestamp: spec_i64_from_le_bytes(b.subrange(12, 20)),
                                receiver: spec_decode_address(b.subrange(20, 46)),
                                sender: spec_decode_address(b.subrange(46, 72)),
                                nonce: spec_u64_from_le_bytes(b.subrange(72, 80)),
                                user_agent: b.subrange(80 + vn, 80 + vn + ua_len),
                                start_height: spec_i32_from_le_bytes(
                                    b.subrange(ua_end as int, ua_end + 4),
                                ),
                                relay: b[ua_end + 4] > 0,
                            },
                        )
                    }
                },
            }
        }
    }
}

impl VersionMessage {
    /// Build the payload for one handshake attempt: the protocol version and
    /// services constants, a fresh timestamp and a fresh random nonce.
    pub fn new(
        receiver: NetworkAddress,
        sender: NetworkAddress,
        user_agent: Vec<u8>,
        start_height: i32,
        relay: bool,
    ) -> (r: Self)
        ensures
            r@.version == PROTOCOL_VERSION,
            r@.services == NODE_NETWORK_SERVICE,
            r@.timestamp >= 0,
            r@.receiver == receiver@,
            r@.sender == sender@,
            r@.user_agent == user_agent@,
            r@.start_height == start_height,
            r@.relay == relay,
            version_wf(r@),
    {
        VersionMessage {
            version: PROTOCOL_VERSION,
            services: NODE_NETWORK_SERVICE,
            timestamp: calculate_timestamp(),
            receiver,
            sender,
            nonce: generate_nonce(),
            user_agent,
            start_height,
            relay,
        }
    }
}

impl Serializable for VersionMessage {
    open spec fn spec_wf(v: VersionMessageView) -> bool {
        version_wf(v)
    }

    open spec fn spec_serialize(v: VersionMessageView) -> Seq<u8> {
        spec_encode_version(v)
    }

    open spec fn spec_deserialize(b: Seq<u8>) -> Result<VersionMessageView, HandshakeError> {
        spec_decode_version(b)
    }

    fn serialize(&self) -> (r: Result<Vec<u8>, HandshakeError>) {
        let mut out: Vec<u8> = Vec::new();
        write_i32_le(&mut out, self.version);
        write_u64_le(&mut out, self.services);
        write_i64_le(&mut out, self.timestamp);
        add_serialize_addr(&mut out, &self.receiver);
        add_serialize_addr(&mut out, &self.sender);
        write_u64_le(&mut out, self.nonce);
        let mut ua_len_bytes = write_varint(self.user_agent.len() as u64);
        out.append(&mut ua_len_bytes);
        write_bytes(&mut out, self.user_agent.as_slice());
        write_i32_le(&mut out, self.start_height);
        out.push(if self.relay { 1 } else { 0 });
        proof {
            assert(out@ =~= spec_encode_version(self@));
        }
        Ok(out)
    }

    fn deserialize(msg: Vec<u8>) -> (r: Result<Box<Self>, HandshakeError>) {
        let n = msg.len();
        if n < 4 {
            return Err(HandshakeError::TruncatedInput);
        }
        let version = read_i32_le(&msg, 0);
        if version < PROTOCOL_VERSION {
            return Err(HandshakeError::UnsupportedProtocolVersion);
        }
        if n < 80 {
            return Err(HandshakeError::TruncatedInput);
        }
        let services = read_u64_le(&msg, 4);
        let timestamp = read_i64_le(&msg, 12);
        let receiver = match read_deserialized_add(&msg, 20) {
            Ok(p) => p.0,
            Err(e) => {
                return Err(e);
            },
        };
        let sender = match read_deserialized_add(&msg, 46) {
            Ok(p) => p.0,
            Err(e) => {
                return Err(e);
            },
        };
        let nonce = read_u64_le(&msg, 72);
        let (ua_len, vn) = match read_varint(&msg, 80) {
            Ok(p) => p,
            Err(e) => {
                return Err(e);
            },
        };
        let remaining = n - 80 - vn;
        if remaining < 5 || ua_len > (remaining - 5) as u64 {
            return Err(HandshakeError::TruncatedInput);
        }
        let ua_len_us = ua_len as usize;
        let ua_start = 80 + vn;
        let user_agent = slice_to_vec(
            slice_subrange(msg.as_slice(), ua_start, ua_start + ua_len_us),
        );
        let start_height = read_i32_le(&msg, ua_start + ua_len_us);
        let relay = msg[ua_start + ua_len_us + 4] > 0;
        Ok(
            Box::new(
                VersionMessage {
                    version,
                    services,
                    timestamp,
                    receiver,
                    sender,
                    nonce,
                    user_agent,
                    start_height,
                    relay,
                },
            ),
        )
    }
}

// ---------------------------------------------------------------------------
// The version payload round trip.
// ---------------------------------------------------------------------------

/// Version payload round trip: decoding an encoded well-formed payload
/// reproduces every field exactly. A native IPv6 address whose 16 bytes
/// spell the IPv4-mapped prefix is excluded: the wire format cannot tell it
/// from the IPv4 address it maps, and it decodes as that IPv4 address.
pub proof fn lemma_version_round_trip(v: VersionMessageView)
    requires
        version_wf(v),
        v.user_agent.len() <= u64::MAX,
        v.receiver.ip matches IpAddressView::V6(b) ==> !spec_is_v4_mapped(b),
        v.sender.ip matches IpAddressView::V6(b) ==> !spec_is_v4_mapped(b),
    ensures
        spec_decode_version(spec_encode_version(v)) == Ok::<VersionMessageView, HandshakeError>(v),
{
    lemma_auto_spec_u64_to_from_le_bytes();
    lemma_i32_le_bytes_round_trip(v.version);
    lemma_i32_le_bytes_round_trip(v.start_height);
    lemma_i64_le_bytes_round_trip(v.timestamp);
    assert(spec_u64_to_le_bytes(v.services).len() == 8);
    assert(spec_u64_to_le_bytes(v.nonce).len() == 8);

    let e = spec_encode_version(v);
    let ua_len = v.user_agent.len() as u64;
    let varint = spec_write_varint(ua_len);
    let vn = varint.len() as int;
    let ua_end = 80 + vn + ua_len;

    assert(spec_encode_address(v.receiver).len() == 26);
    assert(spec_encode_address(v.sender).len() == 26);
    assert(e.len() == 85 + vn + v.user_agent.len());

    assert(e.subrange(0, 4) =~= spec_i32_to_le_bytes(v.version));
    assert(e.subrange(4, 12) =~= spec_u64_to_le_bytes(v.services));
    assert(e.subrange(12, 20) =~= spec_i64_to_le_bytes(v.timestamp));
    assert(e.subrange(20, 46) =~= spec_encode_address(v.receiver));
    assert(e.subrange(46, 72) =~= spec_encode_address(v.sender));
    assert(e.subrange(72, 80) =~= spec_u64_to_le_bytes(v.nonce));

    // The user-agent length varint and the bytes that follow it.
    let tail = v.user_agent + spec_i32_to_le_bytes(v.start_height) + seq![
        (if v.relay {
            1u8
        } else {
            0u8
        }),
    ];
    assert(e.skip(80) =~= varint + tail);
    lemma_varint_round_trip(ua_len, tail);
    assert(spec_read_varint(e.skip(80)) == Some((ua_len, vn)));

    assert(e.subrange(80 + vn, 80 + vn + ua_len) =~= v.user_agent);
    assert(e.subrange(ua_end as int, ua_end + 4) =~= spec_i32_to_le_bytes(v.start_height));
    assert(e[ua_end + 4] == (if v.relay { 1u8 } else { 0u8 }));

    // Address fields decode back to themselves.
    match v.receiver.ip {
        IpAddressView::V4(_) => lemma_address_round_trip_v4(v.receiver),
        IpAddressView::V6(_) => lemma_address_round_trip_v6(v.receiver),
    }
    match v.sender.ip {
        IpAddressView::V4(_) => lemma_address_round_trip_v4(v.sender),
        IpAddressView::V6(_) => lemma_address_round_trip_v6(v.sender),
    }

    let d = spec_decode_version(e);
    assert(d matches Ok(m) && m == v);
}

// ---------------------------------------------------------------------------
// The verack reply.
// ---------------------------------------------------------------------------

/// The header fields of a reply envelope: what a verack carries (its payload
/// is empty), and what is validated of any reply before its payload is used.
#[derive(Debug, PartialEq)]
pub struct VerackMessage {
    /// Magic key of the network, as a little-endian 32-bit value.
    pub magic: u32,
    /// Command name, zero-padded to exactly 12 bytes.
    pub command: [u8; COMMAND_SIZE],
    /// Declared payload byte count.
    pub length: u32,
    /// Stored checksum bytes.
    pub checksum: [u8; CHECKSUM_SIZE],
}

/// The mathematical shape of a [`VerackMessage`].
pub struct VerackMessageView {
    pub magic: u32,
    pub command: Seq<u8>,
    pub length: u32,
    pub checksum: Seq<u8>,
}

impl View for VerackMessage {
    type V = VerackMessageView;

    open spec fn view(&self) -> VerackMessageView {
        VerackMessageView {
            magic: self.magic,
            command: self.command@,
            length: self.length,
            checksum: self.checksum@,
        }
    }
}

/// Envelope verification: full envelope parse, checksum comparison included,
/// then the magic and the command validations, in that order.
pub open spec fn spec_verify_reply(b: Seq<u8>, network: BitcoinNetwork, resp_command: Command) -> Result<
    VerackMessageView,
    HandshakeError,
> {
    match spec_decode_envelope(b) {
        Err(e) => Err(e),
        Ok(m) => {
            if m.magic != network.spec_magic_u32() {
                Err(HandshakeError::MagicMismatch)
            } else if m.command != resp_command.spec_wire_bytes() {
                Err(HandshakeError::CommandMismatch)
            } else {
                Ok(
                    VerackMessageView {
                        magic: m.magic,
                        command: m.command,
                        length: m.length,
                        checksum: m.checksum,
                    },
                )
            }
        },
    }
}

impl VerackMessage {
    /// Header of an empty-payload message for this network and command; the
    /// checksum of the empty payload is a well-defined constant.
    pub fn new(network: BitcoinNetwork, resp_command: Command) -> (r: Self)
        ensures
            r@.magic == network.spec_magic_u32(),
            r@.command == resp_command.spec_wire_bytes(),
            r@.length == 0,
            r@.checksum == spec_checksum(Seq::<u8>::empty()),
    {
        let empty: Vec<u8> = Vec::new();
        VerackMessage {
            magic: network.as_u32(),
            command: resp_command.wire_bytes(),
            length: 0,
            checksum: calculate_checksum(&empty),
        }
    }

    /// Parse a reply envelope (header and full declared payload) and verify
    /// that its magic belongs to the expected network and its command is the
    /// expected one. The checksum of the payload is verified by the envelope
    /// parse before anything else is trusted.
    pub fn deserialize_and_verify(
        msg: Vec<u8>,
        network: BitcoinNetwork,
        resp_command: Command,
    ) -> (r: Result<VerackMessage, HandshakeError>)
        ensures
            (match r {
                Ok(m) => spec_verify_reply(msg@, network, resp_command) == Ok::<
                    VerackMessageView,
                    HandshakeError,
                >(m@),
                Err(e) => spec_verify_reply(msg@, network, resp_command) == Err::<
                    VerackMessageView,
                    HandshakeError,
                >(e),
            }),
    {
        let m = match BitcoinMessage::deserialize(msg) {
            Ok(b) => b,
            Err(e) => {
                return Err(e);
            },
        };
        if m.magic != network.as_u32() {
            return Err(HandshakeError::MagicMismatch);
        }
        if !resp_command.matches_wire(&m.command) {
            return Err(HandshakeError::CommandMismatch);
        }
        Ok(
            VerackMessage {
                magic: m.magic,
                command: m.command,
                length: m.length,
                checksum: m.checksum,
            },
        )
    }
}

} // verus!
