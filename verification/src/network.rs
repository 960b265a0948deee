//! Networks and their magic constants, and the 26-byte network-address
//! entry codec (services bitmask, dual-format IPv4/IPv6 address, port).

use crate::encoding::{
    lemma_u16_be_bytes_round_trip, read_u16_be, read_u64_le, spec_u16_from_be_bytes,
    spec_u16_to_be_bytes, write_bytes, write_u16_be, write_u64_le,
};
use crate::errors::HandshakeError;
use vstd::bytes::*;
use vstd::prelude::*;

verus! {

/// The networks a message can belong to. Each maps to a fixed 4-byte magic
/// constant that tags every envelope and validates received envelopes.
#[derive(Debug, Clone, Copy, PartialEq, Eq, Structural)]
pub enum BitcoinNetwork {
    /// The main network.
    Mainnet,
    /// The regression-test network, easiest for development.
    Regtest,
    /// The test network.
    Testnet3,
}

impl BitcoinNetwork {
    /// The 4-byte magic constant of this network.
    pub open spec fn spec_magic(self) -> Seq<u8> {
        match self {
            BitcoinNetwork::Mainnet => seq![0xf9u8, 0xbeu8, 0xb4u8, 0xd9u8],
            BitcoinNetwork::Regtest => seq![0xfau8, 0xbfu8, 0xb5u8, 0xdau8],
            BitcoinNetwork::Testnet3 => seq![0x0bu8, 0x11u8, 0x09u8, 0x07u8],
        }
    }

    /// The magic constant read as a little-endian 32-bit value, the form the
    /// envelope header stores.
    pub open spec fn spec_magic_u32(self) -> u32 {
        spec_u32_from_le_bytes(self.spec_magic())
    }

    /// The magic bytes of this network, as they appear on the wire.
    pub fn magic(&self) -> (r: [u8; 4])
        ensures
            r@ == self.spec_magic(),
    {
        let r: [u8; 4] = match *self {
            BitcoinNetwork::Mainnet => [0xf9, 0xbe, 0xb4, 0xd9],
            BitcoinNetwork::Regtest => [0xfa, 0xbf, 0xb5, 0xda],
            BitcoinNetwork::Testnet3 => [0x0b, 0x11, 0x09, 0x07],
        };
        proof {
            assert(r@ =~= self.spec_magic());
        }
        r
    }

    /// The magic constant as one little-endian 32-bit value.
    pub fn as_u32(&self) -> (r: u32)
        ensures
            r == self.spec_magic_u32(),
    {
        let m = self.magic();
        u32_from_le_bytes(m.as_slice())
    }
}

/// Different networks have different magic words, as bytes and as the
/// little-endian value the envelope header stores.
pub proof fn lemma_magic_distinct(a: BitcoinNetwork, b: BitcoinNetwork)
    requires
        a != b,
    ensures
        a.spec_magic() != b.spec_magic(),
        a.spec_magic_u32() != b.spec_magic_u32(),
{
    assert(a.spec_magic()[0] != b.spec_magic()[0]);
    vstd::bytes::lemma_auto_spec_u32_to_from_le_bytes();
    if a.spec_magic_u32() == b.spec_magic_u32() {
        assert(spec_u32_to_le_bytes(spec_u32_from_le_bytes(a.spec_magic())) == a.spec_magic());
        assert(spec_u32_to_le_bytes(spec_u32_from_le_bytes(b.spec_magic())) == b.spec_magic());
        assert(false);
    }
}

// ---------------------------------------------------------------------------
// Addresses.
// ---------------------------------------------------------------------------

/// An IP endpoint as the wire stores it: four IPv4 octets, or the sixteen
/// bytes of an IPv6 address in network order.
#[derive(Debug, Clone, Copy, PartialEq, Eq)]
pub enum IpAddress {
    V4([u8; 4]),
    V6([u8; 16]),
}

/// The mathematical shape of an [`IpAddress`]: its bytes, tagged by family.
pub enum IpAddressView {
    V4(Seq<u8>),
    V6(Seq<u8>),
}

impl View for IpAddress {
    type V = IpAddressView;

    open spec fn view(&self) -> IpAddressView {
        match *self {
            IpAddress::V4(b) => IpAddressView::V4(b@),
            IpAddress::V6(b) => IpAddressView::V6(b@),
        }
    }
}

/// An IPv4 view carries 4 bytes; an IPv6 view carries 16.
pub open spec fn ip_wf(ip: IpAddressView) -> bool {
    match ip {
        IpAddressView::V4(b) => b.len() == 4,
        IpAddressView::V6(b) => b.len() == 16,
    }
}

/// A peer's address entry: services bitmask, endpoint address, port.
#[derive(Debug, Clone, Copy, PartialEq, Eq)]
pub struct NetworkAddress {
    pub services: u64,
    pub ip: IpAddress,
    pub port: u16,
}

/// The mathematical shape of a [`NetworkAddress`].
pub struct NetworkAddressView {
    pub services: u64,
    pub ip: IpAddressView,
    pub port: u16,
}

impl View for NetworkAddress {
    type V = NetworkAddressView;

    open spec fn view(&self) -> NetworkAddressView {
        NetworkAddressView { services: self.services, ip: self.ip@, port: self.port }
    }
}

pub open spec fn address_wf(a: NetworkAddressView) -> bool {
    ip_wf(a.ip)
}

/// The 16 bytes of the IP field. An IPv4 address is stored IPv4-mapped:
/// ten zero bytes, two 0xff bytes, then the four address octets.
pub open spec fn spec_ip_bytes(ip: IpAddressView) -> Seq<u8> {
    match ip {
        IpAddressView::V4(b) => Seq::new(10, |i: int| 0u8) + seq![0xffu8, 0xffu8] + b,
        IpAddressView::V6(b) => b,
    }
}

/// Whether a 16-byte IP field holds an IPv4-mapped address.
pub open spec fn spec_is_v4_mapped(b: Seq<u8>) -> bool
    recommends
        b.len() == 16,
{
    (forall|i: int| 0 <= i < 10 ==> b[i] == 0) && b[10] == 0xff && b[11] == 0xff
}

/// The 26-byte wire form of an address entry: 8-byte little-endian services,
/// 16 IP bytes, 2-byte big-endian port. The big-endian port deviates from
/// the little-endian encoding used elsewhere and is part of the wire format.
pub open spec fn spec_encode_address(a: NetworkAddressView) -> Seq<u8> {
    spec_u64_to_le_bytes(a.services) + spec_ip_bytes(a.ip) + spec_u16_to_be_bytes(a.port)
}

/// The address entry read from 26 bytes: the IP field is inspected for the
/// IPv4-mapped prefix to reconstruct an IPv4 address, else all 16 bytes are
/// a native IPv6 address.
pub open spec fn spec_decode_address(b: Seq<u8>) -> NetworkAddressView
    recommends
        b.len() == 26,
{
    let ipb = b.subrange(8, 24);
    let ip = if spec_is_v4_mapped(ipb) {
        IpAddressView::V4(ipb.subrange(12, 16))
    } else {
        IpAddressView::V6(ipb)
    };
    NetworkAddressView {
        services: spec_u64_from_le_bytes(b.subrange(0, 8)),
        ip,
        port: spec_u16_from_be_bytes(b.subrange(24, 26)),
    }
}

/// Append the 26-byte wire form of an address entry to a payload.
pub fn add_serialize_addr(payload: &mut Vec<u8>, addr: &NetworkAddress)
    ensures
        final(payload)@ == old(payload)@ + spec_encode_address(addr@),
        final(payload)@.len() == old(payload)@.len() + 26,
{
    write_u64_le(payload, addr.services);
    match &addr.ip {
        IpAddress::V4(b) => {
            let mut i: usize = 0;
            while i < 10
                invariant
                    i <= 10,
                    payload@ == old(payload)@ + spec_u64_to_le_bytes(addr.services) + Seq::new(
                        i as nat,
                        |j: int| 0u8,
                    ),
                decreases 10 - i,
            {
                payload.push(0u8);
                proof {
                    assert(payload@ =~= old(payload)@ + spec_u64_to_le_bytes(addr.services)
                        + Seq::new((i + 1) as nat, |j: int| 0u8));
                }
                i = i + 1;
            }
            payload.push(0xff);
            payload.push(0xff);
            payload.push(b[0]);
            payload.push(b[1]);
            payload.push(b[2]);
            payload.push(b[3]);
        },
        IpAddress::V6(b) => {
            write_bytes(payload, b.as_slice());
        },
    }
    write_u16_be(payload, addr.port);
    proof {
        vstd::bytes::lemma_auto_spec_u64_to_from_le_bytes();
        assert(payload@ =~= old(payload)@ + spec_encode_address(addr@));
    }
}

/// Read an address entry at an offset: exactly 26 bytes are consumed, or
/// TruncatedInput if fewer remain.
pub fn read_deserialized_add(bytes: &Vec<u8>, offset: usize) -> (r: Result<
    (NetworkAddress, usize),
    HandshakeError,
>)
    ensures
        offset + 26 <= bytes@.len() ==> {
            &&& r matches Ok(p)
            &&& p.0@ == spec_decode_address(bytes@.subrange(offset as int, offset as int + 26))
            &&& address_wf(p.0@)
            &&& p.1 == offset + 26
        },
        offset + 26 > bytes@.len() ==> (r matches Err(e) && e == HandshakeError::TruncatedInput),
{
    let n = bytes.len();
    if n < 26 || offset > n - 26 {
        return Err(HandshakeError::TruncatedInput);
    }
    let ghost entry = bytes@.subrange(offset as int, offset as int + 26);
    let services = read_u64_le(bytes, offset);
    proof {
        assert(entry.subrange(0, 8) =~= bytes@.subrange(offset as int, offset as int + 8));
    }

    // Inspect the 16-byte IP field for the IPv4-mapped prefix.
    let mut mapped = bytes[offset + 18] == 0xff && bytes[offset + 19] == 0xff;
    let mut i: usize = 0;
    while i < 10
        invariant
            i <= 10,
            n == bytes@.len(),
            offset + 26 <= n,
            mapped == {
                &&& bytes@[offset + 18] == 0xff
                &&& bytes@[offset + 19] == 0xff
                &&& forall|j: int| 0 <= j < i ==> #[trigger] bytes@[offset + 8 + j] == 0
            },
        decreases 10 - i,
    {
        if bytes[offset + 8 + i] != 0 {
            mapped = false;
        }
        i = i + 1;
    }
    let ghost ipb = entry.subrange(8, 24);
    proof {
        assert forall|j: int| 0 <= j < 16 implies #[trigger] ipb[j] == bytes@[offset + 8 + j] by {}
        if mapped {
            assert forall|j: int| 0 <= j < 10 implies #[trigger] ipb[j] == 0 by {
                assert(bytes@[offset + 8 + j] == 0);
            }
            assert(spec_is_v4_mapped(ipb));
        } else {
            if bytes@[offset + 18] == 0xff && bytes@[offset + 19] == 0xff {
                let j = choose|j: int| 0 <= j < 10 && #[trigger] bytes@[offset + 8 + j] != 0;
                assert(ipb[j] != 0);
                assert(!spec_is_v4_mapped(ipb));
            } else {
                assert(ipb[10] != 0xff || ipb[11] != 0xff);
                assert(!spec_is_v4_mapped(ipb));
            }
        }
        assert(mapped == spec_is_v4_mapped(ipb));
    }

    let ip = if mapped {
        let v4 = [bytes[offset + 20], bytes[offset + 21], bytes[offset + 22], bytes[offset + 23]];
        proof {
            assert(v4@ =~= ipb.subrange(12, 16));
        }
        IpAddress::V4(v4)
    } else {
        let v6 = [
            bytes[offset + 8],
            bytes[offset + 9],
            bytes[offset + 10],
            bytes[offset + 11],
            bytes[offset + 12],
            bytes[offset + 13],
            bytes[offset + 14],
            bytes[offset + 15],
            bytes[offset + 16],
            bytes[offset + 17],
            bytes[offset + 18],
            bytes[offset + 19],
            bytes[offset + 20],
            bytes[offset + 21],
            bytes[offset + 22],
            bytes[offset + 23],
        ];
        proof {
            assert(v6@ =~= ipb);
        }
        IpAddress::V6(v6)
    };
    let port = read_u16_be(bytes, offset + 24);
    proof {
        assert(entry.subrange(24, 26) =~= bytes@.subrange(offset as int + 24, offset as int + 26));
    }
    Ok((NetworkAddress { services, ip, port }, offset + 26))
}

// ---------------------------------------------------------------------------
// Address round trips.
// ---------------------------------------------------------------------------

/// Decoding an encoded IPv4 entry reconstructs the exact services bitmask,
/// address octets and port.
pub proof fn lemma_address_round_trip_v4(a: NetworkAddressView)
    requires
        a.ip matches IpAddressView::V4(b) && b.len() == 4,
    ensures
        spec_decode_address(spec_encode_address(a)) == a,
{
    lemma_auto_spec_u64_to_from_le_bytes();
    assert(spec_u64_to_le_bytes(a.services).len() == 8);
    lemma_u16_be_bytes_round_trip(a.port);
    let e = spec_encode_address(a);
    let b = a.ip->V4_0;
    assert(e.subrange(0, 8) =~= spec_u64_to_le_bytes(a.services));
    assert(e.subrange(8, 24) =~= spec_ip_bytes(a.ip));
    assert(e.subrange(24, 26) =~= spec_u16_to_be_bytes(a.port));
    let ipb = e.subrange(8, 24);
    assert(spec_is_v4_mapped(ipb));
    assert(ipb.subrange(12, 16) =~= b);
    let d = spec_decode_address(e);
    assert(d.services == a.services);
    assert(d.ip == a.ip);
    assert(d.port == a.port);
}

/// Decoding an encoded native IPv6 entry reconstructs the exact services
/// bitmask, address bytes and port, provided the 16 bytes do not themselves
/// spell the IPv4-mapped prefix (such an address decodes as IPv4).
pub proof fn lemma_address_round_trip_v6(a: NetworkAddressView)
    requires
        a.ip matches IpAddressView::V6(b) && b.len() == 16,
        !spec_is_v4_mapped(a.ip->V6_0),
    ensures
        spec_decode_address(spec_encode_address(a)) == a,
{
    lemma_auto_spec_u64_to_from_le_bytes();
    assert(spec_u64_to_le_bytes(a.services).len() == 8);
    lemma_u16_be_bytes_round_trip(a.port);
    let e = spec_encode_address(a);
    let b = a.ip->V6_0;
    assert(e.subrange(0, 8) =~= spec_u64_to_le_bytes(a.services));
    assert(e.subrange(8, 24) =~= b);
    assert(e.subrange(24, 26) =~= spec_u16_to_be_bytes(a.port));
    let d = spec_decode_address(e);
    assert(d.services == a.services);
    assert(d.ip == a.ip);
    assert(d.port == a.port);
}

} // verus!
