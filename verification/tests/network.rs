//! Address entry codec tests: the 26-byte wire form, the big-endian port,
//! and the IPv4/IPv6 round trips.

use node_handshake::errors::HandshakeError;
use node_handshake::network::{
    add_serialize_addr, read_deserialized_add, BitcoinNetwork, IpAddress, NetworkAddress,
};

#[test]
fn test_add_ipv4_to_payload_ok() {
    let mut payload = Vec::new();
    let services = 1u64;
    let add = NetworkAddress {
        services,
        ip: IpAddress::V4([127, 0, 0, 1]),
        port: 8080,
    };
    add_serialize_addr(&mut payload, &add);
    assert_eq!(payload.len(), 26);
}

#[test]
fn test_add_ipv6_to_payload_ok() {
    let mut payload = Vec::new();
    let services = 1u64;
    let ip = [0, 0, 0, 0, 0, 0, 0, 0, 0, 0, 0, 0, 0, 0, 0, 1];
    let add = NetworkAddress {
        services,
        ip: IpAddress::V6(ip),
        port: 8080,
    };
    add_serialize_addr(&mut payload, &add);
    assert_eq!(payload.len(), 26);
}

#[test]
fn test_address_wire_layout() {
    let mut buf = Vec::new();
    let a = NetworkAddress {
        services: 5,
        ip: IpAddress::V4([192, 168, 1, 7]),
        port: 8333,
    };
    add_serialize_addr(&mut buf, &a);
    // Services, little-endian.
    assert_eq!(&buf[0..8], &[5, 0, 0, 0, 0, 0, 0, 0]);
    // IPv4-mapped prefix, then the four octets.
    assert_eq!(&buf[8..18], &[0u8; 10]);
    assert_eq!(&buf[18..20], &[0xff, 0xff]);
    assert_eq!(&buf[20..24], &[192, 168, 1, 7]);
    // Port, big-endian: 8333 == 0x208d.
    assert_eq!(&buf[24..26], &[0x20, 0x8d]);
}

#[test]
fn test_address_round_trip_ipv4() {
    let mut buf = Vec::new();
    let a = NetworkAddress {
        services: 0x0102_0304_0506_0708,
        ip: IpAddress::V4([10, 0, 0, 7]),
        port: 18444,
    };
    add_serialize_addr(&mut buf, &a);
    let (back, consumed) = read_deserialized_add(&buf, 0).expect("address should decode");
    assert_eq!(consumed, 26);
    assert_eq!(back, a);
}

#[test]
fn test_address_round_trip_ipv6() {
    let mut buf = Vec::new();
    let a = NetworkAddress {
        services: 1,
        ip: IpAddress::V6([
            0x20, 0x01, 0x0d, 0xb8, 0, 0, 0, 0, 0, 0, 0, 0, 0, 0, 0x12, 0x34,
        ]),
        port: 8333,
    };
    add_serialize_addr(&mut buf, &a);
    let (back, consumed) = read_deserialized_add(&buf, 0).expect("address should decode");
    assert_eq!(consumed, 26);
    assert_eq!(back, a);
}

#[test]
fn test_v4_mapped_ipv6_decodes_as_ipv4() {
    // Sixteen bytes spelling the IPv4-mapped prefix cannot be told apart
    // from the IPv4 address they map; decoding canonicalizes them to IPv4.
    let mut buf = Vec::new();
    let a = NetworkAddress {
        services: 1,
        ip: IpAddress::V6([0, 0, 0, 0, 0, 0, 0, 0, 0, 0, 0xff, 0xff, 1, 2, 3, 4]),
        port: 80,
    };
    add_serialize_addr(&mut buf, &a);
    let (back, _) = read_deserialized_add(&buf, 0).expect("address should decode");
    assert_eq!(back.ip, IpAddress::V4([1, 2, 3, 4]));
    assert_eq!(back.services, 1);
    assert_eq!(back.port, 80);
}

#[test]
fn test_address_truncated() {
    let buf = vec![0u8; 25];
    let r = read_deserialized_add(&buf, 0);
    assert_eq!(r.err(), Some(HandshakeError::TruncatedInput));
}

#[test]
fn test_magic_constants() {
    assert_eq!(BitcoinNetwork::Mainnet.magic(), [0xf9, 0xbe, 0xb4, 0xd9]);
    assert_eq!(BitcoinNetwork::Testnet3.magic(), [0x0b, 0x11, 0x09, 0x07]);
    assert_eq!(BitcoinNetwork::Regtest.magic(), [0xfa, 0xbf, 0xb5, 0xda]);
    assert_eq!(
        BitcoinNetwork::Mainnet.as_u32(),
        u32::from_le_bytes([0xf9, 0xbe, 0xb4, 0xd9])
    );
}
