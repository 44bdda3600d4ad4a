//! Fixed-width field access on byte buffers.  Netlink fields travel in
//! host byte order, which on every platform this crate targets is
//! little-endian; the ICMP and IPv4 fields travel in network byte order.

use vstd::prelude::*;

verus! {

/// The 16-bit value stored little-endian at offset `i`.
pub open spec fn le16_at(b: Seq<u8>, i: int) -> int
    recommends
        0 <= i,
        i + 2 <= b.len(),
{
    b[i] + 256 * b[i + 1]
}

/// The 32-bit value stored little-endian at offset `i`.
pub open spec fn le32_at(b: Seq<u8>, i: int) -> int
    recommends
        0 <= i,
        i + 4 <= b.len(),
{
    b[i] + 256 * b[i + 1] + 0x10000 * b[i + 2] + 0x1000000 * b[i + 3]
}

/// The 16-bit value stored big-endian at offset `i`.
pub open spec fn be16_at(b: Seq<u8>, i: int) -> int
    recommends
        0 <= i,
        i + 2 <= b.len(),
{
    256 * b[i] + b[i + 1]
}

/// The two bytes of a 16-bit value in little-endian order.
pub open spec fn le16_bytes(x: u16) -> Seq<u8> {
    seq![(x as int % 256) as u8, (x as int / 256) as u8]
}

/// The two bytes of a 16-bit value in big-endian order.
pub open spec fn be16_bytes(x: u16) -> Seq<u8> {
    seq![(x as int / 256) as u8, (x as int % 256) as u8]
}

/// The four bytes of a 32-bit value in little-endian order.
pub open spec fn le32_bytes(x: u32) -> Seq<u8> {
    seq![
        (x as int % 256) as u8,
        (x as int / 256 % 256) as u8,
        (x as int / 0x10000 % 256) as u8,
        (x as int / 0x1000000) as u8,
    ]
}

/// Reads the 16-bit little-endian value at offset `i`.
pub fn read_le16(b: &[u8], i: usize) -> (r: u16)
    requires
        i + 2 <= b@.len(),
    ensures
        r == le16_at(b@, i as int),
{
    b[i] as u16 + 256 * (b[i + 1] as u16)
}

/// Reads the 32-bit little-endian value at offset `i`.
pub fn read_le32(b: &[u8], i: usize) -> (r: u32)
    requires
        i + 4 <= b@.len(),
    ensures
        r == le32_at(b@, i as int),
{
    b[i] as u32 + 256 * (b[i + 1] as u32) + 0x10000 * (b[i + 2] as u32)
        + 0x1000000 * (b[i + 3] as u32)
}

/// Reads the 16-bit big-endian value at offset `i`.
pub fn read_be16(b: &[u8], i: usize) -> (r: u16)
    requires
        i + 2 <= b@.len(),
    ensures
        r == be16_at(b@, i as int),
{
    256 * (b[i] as u16) + b[i + 1] as u16
}

/// Appends the two little-endian bytes of `x`.
pub fn push_le16(out: &mut Vec<u8>, x: u16)
    ensures
        final(out)@ == old(out)@ + le16_bytes(x),
{
    out.push((x % 256) as u8);
    out.push((x / 256) as u8);
    proof {
        assert(out@ =~= old(out)@ + le16_bytes(x));
    }
}

/// Appends the two big-endian bytes of `x`.
pub fn push_be16(out: &mut Vec<u8>, x: u16)
    ensures
        final(out)@ == old(out)@ + be16_bytes(x),
{
    out.push((x / 256) as u8);
    out.push((x % 256) as u8);
    proof {
        assert(out@ =~= old(out)@ + be16_bytes(x));
    }
}

/// Appends the four little-endian bytes of `x`.
pub fn push_le32(out: &mut Vec<u8>, x: u32)
    ensures
        final(out)@ == old(out)@ + le32_bytes(x),
{
    out.push((x % 256) as u8);
    out.push((x / 256 % 256) as u8);
    out.push((x / 0x10000 % 256) as u8);
    out.push((x / 0x1000000) as u8);
    proof {
        assert(out@ =~= old(out)@ + le32_bytes(x));
    }
}

} // verus!
