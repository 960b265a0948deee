//! Envelope codec tests: framing, serialization, deserialization, and the
//! checksum integrity guarantee.

use node_handshake::errors::HandshakeError;
use node_handshake::messages::{BitcoinMessage, Serializable, COMMAND_SIZE};
use node_handshake::network::{BitcoinNetwork, IpAddress, NetworkAddress};
use node_handshake::utils::calculate_checksum;
use node_handshake::version::{Command, VersionMessage};

#[test]
fn message_test_serializating_message_ok() {
    // Create a dummy payload and its related message from the command
    let payload = vec![0xef, 0xab, 0xef, 0xdf];
    let message = BitcoinMessage::new(Command::Version, payload.clone(), BitcoinNetwork::Testnet3);
    let serialized_msg = message
        .serialize()
        .expect("Bitcoin message could not be serialized");

    // Check magic value
    assert_eq!(&serialized_msg[0..4], &BitcoinNetwork::Testnet3.magic());

    // Check command
    let command_bytes = Command::Version.as_str().as_bytes();
    let mut command_fixed_size = [0u8; COMMAND_SIZE];
    for (item, &byte) in command_bytes.iter().enumerate() {
        command_fixed_size[item] = byte;
    }
    for item in command_fixed_size.iter_mut().skip(command_bytes.len()) {
        *item = 0;
    }
    assert_eq!(&serialized_msg[4..4 + COMMAND_SIZE], &command_fixed_size);

    // Checks payload size
    assert_eq!(
        &serialized_msg[16..20],
        &(payload.len() as u32).to_le_bytes()
    );

    // Verifies data integrity ie. checksum
    assert_eq!(&serialized_msg[20..24], &calculate_checksum(&payload));
}

#[test]
fn messages_test_serializating_message_ok() {
    // Create a dummy payload and its related message from the command
    let payload = vec![0xef, 0xab, 0xef, 0xdf];
    let message = BitcoinMessage::new(Command::Version, payload.clone(), BitcoinNetwork::Testnet3);
    let serialized_msg = message
        .serialize()
        .expect("Bitcoin message could not be serialized");

    // Check magic value
    assert_eq!(&serialized_msg[0..4], &BitcoinNetwork::Testnet3.magic());

    // Check command
    let command_bytes = Command::Version
        .as_fixed_length_vec()
        .expect("Complete and convert command size");
    assert_eq!(&serialized_msg[4..4 + COMMAND_SIZE], &command_bytes);

    // Checks payload size
    assert_eq!(
        &serialized_msg[16..20],
        &(payload.len() as u32).to_le_bytes()
    );

    // Verifies data integrity ie. checksum
    assert_eq!(&serialized_msg[20..24], &calculate_checksum(&payload));
}

#[test]
fn test_serialization_and_deserialization_ok() {
    let network = BitcoinNetwork::Testnet3;
    let add_recv = NetworkAddress {
        services: 1,
        ip: IpAddress::V4([127, 0, 0, 1]),
        port: 18333,
    };
    let add_from = NetworkAddress {
        services: 1,
        ip: IpAddress::V4([127, 0, 0, 1]),
        port: 18334,
    };
    let user_agent = b"/rust-bitcoin:0.1/".to_vec();
    let start_height = 0i32;
    let relay = false;

    let version_message = VersionMessage::new(add_recv, add_from, user_agent, start_height, relay);

    let payload = version_message
        .serialize()
        .expect("Failed to serialized version message");
    let bitcoin_message = BitcoinMessage::new(Command::Version, payload.clone(), network);
    let serialized_msg = bitcoin_message
        .serialize()
        .expect("Bitcoin Message could not be serialized");

    let deserialized_msg = BitcoinMessage::deserialize(serialized_msg)
        .expect("Failed to deserialized Bitcoin message");
    assert_eq!(&deserialized_msg.magic, &network.as_u32());
    assert_eq!(deserialized_msg.length as usize, payload.len());
    assert_eq!(deserialized_msg.payload, payload);
}

#[test]
fn test_deserialize_truncated_header() {
    let r = BitcoinMessage::deserialize(vec![0xfa, 0xbf, 0xb5]);
    assert_eq!(r.err(), Some(HandshakeError::TruncatedInput));
}

#[test]
fn test_deserialize_truncated_payload() {
    let message = BitcoinMessage::new(
        Command::Version,
        vec![1, 2, 3, 4, 5, 6, 7, 8],
        BitcoinNetwork::Mainnet,
    );
    let mut bytes = message.serialize().expect("serialize");
    // Drop the last payload byte: fewer bytes remain than the length declares.
    bytes.pop();
    let r = BitcoinMessage::deserialize(bytes);
    assert_eq!(r.err(), Some(HandshakeError::TruncatedInput));
}

#[test]
fn test_tampered_checksum_rejected() {
    let message = BitcoinMessage::new(
        Command::Version,
        vec![0xde, 0xad, 0xbe, 0xef],
        BitcoinNetwork::Regtest,
    );
    let good = message.serialize().expect("serialize");
    assert!(BitcoinMessage::deserialize(good.clone()).is_ok());

    // Flip one bit in each of the four stored checksum bytes in turn.
    for i in 20..24 {
        for k in 0..8 {
            let mut tampered = good.clone();
            tampered[i] ^= 1u8 << k;
            let r = BitcoinMessage::deserialize(tampered);
            assert_eq!(r.err(), Some(HandshakeError::ChecksumMismatch));
        }
    }
}

#[test]
fn test_checksum_deterministic_and_known_value() {
    // Two calls on equal bytes agree.
    let data = b"determinism".to_vec();
    assert_eq!(calculate_checksum(&data), calculate_checksum(&data));

    // First four bytes of SHA-256(SHA-256("")), a well-known constant.
    assert_eq!(calculate_checksum(&Vec::new()), [0x5d, 0xf6, 0xe0, 0xe2]);
}

#[test]
fn test_checksum_matches_double_sha256() {
    // Cross-check the checksum against the hash library applied directly.
    let payload = b"cross-check payload".to_vec();
    let h = openssl::sha::sha256(&openssl::sha::sha256(&payload));
    assert_eq!(calculate_checksum(&payload), [h[0], h[1], h[2], h[3]]);
}
