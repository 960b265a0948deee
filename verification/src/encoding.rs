//! Fixed-width integer fields of the wire format: little-endian and
//! big-endian byte forms, two's-complement views of the signed fields, and
//! the helpers that write them to and read them from byte buffers.

use vstd::bytes::*;
use vstd::prelude::*;

verus! {

// ---------------------------------------------------------------------------
// Two's-complement views of the signed wire fields.
// ---------------------------------------------------------------------------

/// The unsigned 32-bit word whose two's-complement reading is `v`.
pub open spec fn spec_i32_to_u32(v: i32) -> u32 {
    (if v >= 0 {
        v as int
    } else {
        v + 0x1_0000_0000
    }) as u32
}

/// The two's-complement reading of an unsigned 32-bit word.
pub open spec fn spec_u32_to_i32(u: u32) -> i32 {
    (if u <= i32::MAX as u32 {
        u as int
    } else {
        u - 0x1_0000_0000
    }) as i32
}

/// The unsigned 64-bit word whose two's-complement reading is `v`.
pub open spec fn spec_i64_to_u64(v: i64) -> u64 {
    (if v >= 0 {
        v as int
    } else {
        v + 0x1_0000_0000_0000_0000
    }) as u64
}

/// The two's-complement reading of an unsigned 64-bit word.
pub open spec fn spec_u64_to_i64(u: u64) -> i64 {
    (if u <= i64::MAX as u64 {
        u as int
    } else {
        u - 0x1_0000_0000_0000_0000
    }) as i64
}

pub proof fn lemma_i32_u32_round_trip(v: i32)
    ensures
        spec_u32_to_i32(spec_i32_to_u32(v)) == v,
{
}

pub proof fn lemma_i64_u64_round_trip(v: i64)
    ensures
        spec_u64_to_i64(spec_i64_to_u64(v)) == v,
{
}

pub fn i32_to_u32(v: i32) -> (r: u32)
    ensures
        r == spec_i32_to_u32(v),
{
    if v >= 0 {
        v as u32
    } else {
        ((v as i64) + 0x1_0000_0000_i64) as u32
    }
}

pub fn u32_to_i32(u: u32) -> (r: i32)
    ensures
        r == spec_u32_to_i32(u),
{
    if u <= i32::MAX as u32 {
        u as i32
    } else {
        ((u as i64) - 0x1_0000_0000_i64) as i32
    }
}

pub fn i64_to_u64(v: i64) -> (r: u64)
    ensures
        r == spec_i64_to_u64(v),
{
    if v >= 0 {
        v as u64
    } else {
        ((v as i128) + 0x1_0000_0000_0000_0000_i128) as u64
    }
}

pub fn u64_to_i64(u: u64) -> (r: i64)
    ensures
        r == spec_u64_to_i64(u),
{
    if u <= i64::MAX as u64 {
        u as i64
    } else {
        ((u as i128) - 0x1_0000_0000_0000_0000_i128) as i64
    }
}

// ---------------------------------------------------------------------------
// Big-endian 16-bit fields (the port of an address entry).
// ---------------------------------------------------------------------------

/// Big-endian byte form of a 16-bit value: high byte first.
pub open spec fn spec_u16_to_be_bytes(x: u16) -> Seq<u8> {
    seq![(x >> 8) as u8, (x & 0xff) as u8]
}

/// The 16-bit value read big-endian from two bytes.
pub open spec fn spec_u16_from_be_bytes(s: Seq<u8>) -> u16
    recommends
        s.len() == 2,
{
    ((s[0] as u16) << 8) | (s[1] as u16)
}

pub proof fn lemma_u16_be_bytes_round_trip(x: u16)
    ensures
        spec_u16_to_be_bytes(x).len() == 2,
        spec_u16_from_be_bytes(spec_u16_to_be_bytes(x)) == x,
{
    assert(((((x >> 8) as u8) as u16) << 8) | (((x & 0xff) as u8) as u16) == x) by (bit_vector);
}

// ---------------------------------------------------------------------------
// Byte forms of the signed fields, little-endian as the envelope uses them.
// ---------------------------------------------------------------------------

pub open spec fn spec_i32_to_le_bytes(v: i32) -> Seq<u8> {
    spec_u32_to_le_bytes(spec_i32_to_u32(v))
}

pub open spec fn spec_i32_from_le_bytes(s: Seq<u8>) -> i32
    recommends
        s.len() == 4,
{
    spec_u32_to_i32(spec_u32_from_le_bytes(s))
}

pub open spec fn spec_i64_to_le_bytes(v: i64) -> Seq<u8> {
    spec_u64_to_le_bytes(spec_i64_to_u64(v))
}

pub open spec fn spec_i64_from_le_bytes(s: Seq<u8>) -> i64
    recommends
        s.len() == 8,
{
    spec_u64_to_i64(spec_u64_from_le_bytes(s))
}

pub proof fn lemma_i32_le_bytes_round_trip(v: i32)
    ensures
        spec_i32_to_le_bytes(v).len() == 4,
        spec_i32_from_le_bytes(spec_i32_to_le_bytes(v)) == v,
{
    let u = spec_i32_to_u32(v);
    lemma_auto_spec_u32_to_from_le_bytes();
    assert(spec_u32_to_le_bytes(u).len() == 4);
    assert(spec_u32_from_le_bytes(spec_u32_to_le_bytes(u)) == u);
    lemma_i32_u32_round_trip(v);
}

pub proof fn lemma_i64_le_bytes_round_trip(v: i64)
    ensures
        spec_i64_to_le_bytes(v).len() == 8,
        spec_i64_from_le_bytes(spec_i64_to_le_bytes(v)) == v,
{
    lemma_auto_spec_u64_to_from_le_bytes();
    lemma_i64_u64_round_trip(v);
}

// ---------------------------------------------------------------------------
// Writers: append one field to a byte buffer.
// ---------------------------------------------------------------------------

pub fn write_u16_be(out: &mut Vec<u8>, x: u16)
    ensures
        final(out)@ == old(out)@ + spec_u16_to_be_bytes(x),
{
    proof {
        assert(x >> 8 < 256 && x & 0xff < 256) by (bit_vector);
    }
    out.push((x >> 8) as u8);
    out.push((x & 0xff) as u8);
    proof {
        assert(out@ =~= old(out)@ + spec_u16_to_be_bytes(x));
    }
}

pub fn write_u32_le(out: &mut Vec<u8>, x: u32)
    ensures
        final(out)@ == old(out)@ + spec_u32_to_le_bytes(x),
{
    let mut b = u32_to_le_bytes(x);
    out.append(&mut b);
}

pub fn write_u64_le(out: &mut Vec<u8>, x: u64)
    ensures
        final(out)@ == old(out)@ + spec_u64_to_le_bytes(x),
{
    let mut b = u64_to_le_bytes(x);
    out.append(&mut b);
}

pub fn write_i32_le(out: &mut Vec<u8>, v: i32)
    ensures
        final(out)@ == old(out)@ + spec_i32_to_le_bytes(v),
{
    write_u32_le(out, i32_to_u32(v));
}

pub fn write_i64_le(out: &mut Vec<u8>, v: i64)
    ensures
        final(out)@ == old(out)@ + spec_i64_to_le_bytes(v),
{
    write_u64_le(out, i64_to_u64(v));
}

/// Append a whole byte slice to a buffer.
pub fn write_bytes(out: &mut Vec<u8>, data: &[u8])
    ensures
        final(out)@ == old(out)@ + data@,
{
    let n = data.len();
    let mut i: usize = 0;
    while i < n
        invariant
            i <= n,
            n == data@.len(),
            out@ == old(out)@ + data@.subrange(0, i as int),
        decreases n - i,
    {
        out.push(*vstd::slice::slice_index_get(data, i));
        proof {
            assert(out@ =~= old(out)@ + data@.subrange(0, i + 1));
        }
        i = i + 1;
    }
    proof {
        assert(data@.subrange(0, n as int) =~= data@);
    }
}

// ---------------------------------------------------------------------------
// Readers: one field at a byte offset.
// ---------------------------------------------------------------------------

pub fn read_u16_be(b: &Vec<u8>, offset: usize) -> (x: u16)
    requires
        offset + 2 <= b@.len(),
    ensures
        x == spec_u16_from_be_bytes(b@.subrange(offset as int, offset as int + 2)),
{
    let n = b.len();
    proof {
        assert(offset + 2 <= n);
    }
    let hi = b[offset];
    let lo = b[offset + 1];
    ((hi as u16) << 8) | (lo as u16)
}

pub fn read_u32_le(b: &Vec<u8>, offset: usize) -> (x: u32)
    requires
        offset + 4 <= b@.len(),
    ensures
        x == spec_u32_from_le_bytes(b@.subrange(offset as int, offset as int + 4)),
{
    let n = b.len();
    proof {
        assert(offset + 4 <= n);
    }
    let s = vstd::slice::slice_subrange(b.as_slice(), offset, offset + 4);
    u32_from_le_bytes(s)
}

pub fn read_u64_le(b: &Vec<u8>, offset: usize) -> (x: u64)
    requires
        offset + 8 <= b@.len(),
    ensures
        x == spec_u64_from_le_bytes(b@.subrange(offset as int, offset as int + 8)),
{
    let n = b.len();
    proof {
        assert(offset + 8 <= n);
    }
    let s = vstd::slice::slice_subrange(b.as_slice(), offset, offset + 8);
    u64_from_le_bytes(s)
}

pub fn read_i32_le(b: &Vec<u8>, offset: usize) -> (x: i32)
    requires
        offset + 4 <= b@.len(),
    ensures
        x == spec_i32_from_le_bytes(b@.subrange(offset as int, offset as int + 4)),
{
    u32_to_i32(read_u32_le(b, offset))
}

pub fn read_i64_le(b: &Vec<u8>, offset: usize) -> (x: i64)
    requires
        offset + 8 <= b@.len(),
    ensures
        x == spec_i64_from_le_bytes(b@.subrange(offset as int, offset as int + 8)),
{
    u64_to_i64(read_u64_le(b, offset))
}

} // verus!
