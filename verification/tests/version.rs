//! Version payload codec tests: the field-for-field round trip, the
//! protocol-version floor, the error cases, and the Regtest envelope
//! scenario.

use node_handshake::errors::HandshakeError;
use node_handshake::messages::{BitcoinMessage, Serializable};
use node_handshake::network::{BitcoinNetwork, IpAddress, NetworkAddress};
use node_handshake::utils::calculate_checksum;
use node_handshake::version::{
    Command, VerackMessage, VersionMessage, NODE_NETWORK_SERVICE, PROTOCOL_VERSION,
};

fn sample_receiver() -> NetworkAddress {
    NetworkAddress {
        services: 1,
        ip: IpAddress::V4([10, 0, 0, 1]),
        port: 8333,
    }
}

fn sample_sender() -> NetworkAddress {
    NetworkAddress {
        services: 1,
        ip: IpAddress::V6([
            0x20, 0x01, 0x0d, 0xb8, 0, 0, 0, 0, 0, 0, 0, 0, 0, 0, 0, 0x99,
        ]),
        port: 18333,
    }
}

#[test]
fn test_version_payload_round_trip() {
    let vm = VersionMessage {
        version: 70015,
        services: 9,
        timestamp: 1_700_000_000,
        receiver: sample_receiver(),
        sender: sample_sender(),
        nonce: 0x0123_4567_89ab_cdef,
        user_agent: b"/test/".to_vec(),
        start_height: 42,
        relay: true,
    };
    let bytes = vm.serialize().expect("version payload should serialize");
    let back = VersionMessage::deserialize(bytes).expect("version payload should deserialize");
    assert_eq!(back.version, 70015);
    assert_eq!(back.services, 9);
    assert_eq!(back.timestamp, 1_700_000_000);
    assert_eq!(back.receiver, sample_receiver());
    assert_eq!(back.sender, sample_sender());
    assert_eq!(back.nonce, 0x0123_4567_89ab_cdef);
    assert_eq!(back.user_agent, b"/test/".to_vec());
    assert_eq!(back.start_height, 42);
    assert!(back.relay);
}

#[test]
fn test_version_new_generates_well_formed_fields() {
    let vm = VersionMessage::new(
        sample_receiver(),
        sample_sender(),
        b"/rust-bitcoin:0.1/".to_vec(),
        7,
        false,
    );
    assert_eq!(vm.version, PROTOCOL_VERSION);
    assert_eq!(vm.services, NODE_NETWORK_SERVICE);
    assert!(vm.timestamp >= 0);
    assert_eq!(vm.receiver, sample_receiver());
    assert_eq!(vm.sender, sample_sender());
    assert_eq!(vm.user_agent, b"/rust-bitcoin:0.1/".to_vec());
    assert_eq!(vm.start_height, 7);
    assert!(!vm.relay);
}

#[test]
fn test_version_below_floor_rejected() {
    let vm = VersionMessage {
        version: PROTOCOL_VERSION,
        services: 1,
        timestamp: 0,
        receiver: sample_receiver(),
        sender: sample_sender(),
        nonce: 1,
        user_agent: Vec::new(),
        start_height: 0,
        relay: false,
    };
    let mut bytes = vm.serialize().expect("serialize");
    // Patch the declared version down below the supported floor.
    let below = (PROTOCOL_VERSION - 1).to_le_bytes();
    bytes[0..4].copy_from_slice(&below);
    let r = VersionMessage::deserialize(bytes);
    assert_eq!(r.err(), Some(HandshakeError::UnsupportedProtocolVersion));
}

#[test]
fn test_version_truncated_rejected() {
    let r = VersionMessage::deserialize(vec![1, 2, 3]);
    assert_eq!(r.err(), Some(HandshakeError::TruncatedInput));

    let vm = VersionMessage::new(sample_receiver(), sample_sender(), Vec::new(), 0, false);
    let bytes = vm.serialize().expect("serialize");
    let r = VersionMessage::deserialize(bytes[..50].to_vec());
    assert_eq!(r.err(), Some(HandshakeError::TruncatedInput));
}

#[test]
fn test_version_malformed_user_agent_length() {
    let vm = VersionMessage::new(sample_receiver(), sample_sender(), Vec::new(), 0, false);
    let bytes = vm.serialize().expect("serialize");
    // Keep the 80 fixed bytes, then end the buffer inside the length varint.
    let mut cut = bytes[..80].to_vec();
    cut.push(0x80);
    let r = VersionMessage::deserialize(cut);
    assert_eq!(r.err(), Some(HandshakeError::MalformedVarint));
}

#[test]
fn test_version_envelope_regtest_scenario() {
    // Encode a version envelope for Regtest with protocol_version 70015,
    // services 1, start_height 0, user agent "/test/".
    let vm = VersionMessage {
        version: 70015,
        services: 1,
        timestamp: 1_700_000_000,
        receiver: sample_receiver(),
        sender: sample_receiver(),
        nonce: 0xfeed_face_cafe_beef,
        user_agent: b"/test/".to_vec(),
        start_height: 0,
        relay: false,
    };
    let payload = vm.serialize().expect("version payload should serialize");
    let envelope = BitcoinMessage::new(Command::Version, payload.clone(), BitcoinNetwork::Regtest);
    let bytes = envelope.serialize().expect("envelope should serialize");

    // The serialized magic bytes are the Regtest constant.
    assert_eq!(&bytes[0..4], &[0xfa, 0xbf, 0xb5, 0xda]);
    // The length field equals the byte length of the constructed payload.
    assert_eq!(&bytes[16..20], &(payload.len() as u32).to_le_bytes());
    // The checksum equals the first 4 bytes of the double hash of that
    // payload, cross-checked against the hash library applied directly.
    assert_eq!(&bytes[20..24], &calculate_checksum(&payload));
    let h = openssl::sha::sha256(&openssl::sha::sha256(&payload));
    assert_eq!(&bytes[20..24], &h[0..4]);
    // The payload rides along unchanged.
    assert_eq!(&bytes[24..], &payload[..]);
}

#[test]
fn test_command_wire_names() {
    assert_eq!(Command::Version.as_str(), "version");
    assert_eq!(Command::Verack.as_str(), "verack");
    let v = Command::Version.as_fixed_length_vec().expect("fits");
    assert_eq!(&v[..7], b"version");
    assert_eq!(&v[7..], &[0u8; 5]);
    let a = Command::Verack.as_fixed_length_vec().expect("fits");
    assert_eq!(&a[..6], b"verack");
    assert_eq!(&a[6..], &[0u8; 6]);
}

#[test]
fn test_verack_new_holds_empty_payload_constants() {
    let v = VerackMessage::new(BitcoinNetwork::Regtest, Command::Verack);
    assert_eq!(v.magic, BitcoinNetwork::Regtest.as_u32());
    assert_eq!(&v.command[..6], b"verack");
    assert_eq!(v.length, 0);
    assert_eq!(v.checksum, [0x5d, 0xf6, 0xe0, 0xe2]);
}

#[test]
fn test_verack_deserialize_and_verify() {
    // A well-formed reply envelope passes the magic and command checks.
    let env = BitcoinMessage::new(Command::Version, vec![7, 7, 7], BitcoinNetwork::Regtest);
    let bytes = env.serialize().expect("serialize");
    let v = VerackMessage::deserialize_and_verify(
        bytes.clone(),
        BitcoinNetwork::Regtest,
        Command::Version,
    )
    .expect("reply should verify");
    assert_eq!(v.magic, BitcoinNetwork::Regtest.as_u32());
    assert_eq!(v.length, 3);

    // The wrong network is rejected.
    let r = VerackMessage::deserialize_and_verify(
        bytes.clone(),
        BitcoinNetwork::Mainnet,
        Command::Version,
    );
    assert_eq!(r.err(), Some(HandshakeError::MagicMismatch));

    // The wrong command is rejected.
    let r = VerackMessage::deserialize_and_verify(bytes, BitcoinNetwork::Regtest, Command::Verack);
    assert_eq!(r.err(), Some(HandshakeError::CommandMismatch));
}
