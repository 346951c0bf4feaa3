//! Little-endian encoding of fixed-width integers, the byte order of SMBIOS,
//! ACPI and status code structures.

use vstd::prelude::*;

verus! {

/// The two bytes of `x`, least significant first.
pub open spec fn le16(x: u16) -> Seq<u8> {
    seq![(x & 0xff) as u8, ((x >> 8) & 0xff) as u8]
}

/// The four bytes of `x`, least significant first.
pub open spec fn le32(x: u32) -> Seq<u8> {
    seq![
        (x & 0xff) as u8,
        ((x >> 8) & 0xff) as u8,
        ((x >> 16) & 0xff) as u8,
        ((x >> 24) & 0xff) as u8,
    ]
}

/// The eight bytes of `x`, least significant first.
pub open spec fn le64(x: u64) -> Seq<u8> {
    seq![
        (x & 0xff) as u8,
        ((x >> 8) & 0xff) as u8,
        ((x >> 16) & 0xff) as u8,
        ((x >> 24) & 0xff) as u8,
        ((x >> 32) & 0xff) as u8,
        ((x >> 40) & 0xff) as u8,
        ((x >> 48) & 0xff) as u8,
        ((x >> 56) & 0xff) as u8,
    ]
}

/// The value of two bytes read least significant first.
pub open spec fn from_le16(b0: u8, b1: u8) -> u16 {
    (b0 as u16) | ((b1 as u16) << 8)
}

/// The value of four bytes read least significant first.
pub open spec fn from_le32(b: Seq<u8>) -> u32
    recommends
        b.len() >= 4,
{
    (b[0] as u32) | ((b[1] as u32) << 8) | ((b[2] as u32) << 16) | ((b[3] as u32) << 24)
}

/// The value of eight bytes read least significant first.
pub open spec fn from_le64(b: Seq<u8>) -> u64
    recommends
        b.len() >= 8,
{
    (b[0] as u64) | ((b[1] as u64) << 8) | ((b[2] as u64) << 16) | ((b[3] as u64) << 24) | ((
    b[4] as u64) << 32) | ((b[5] as u64) << 40) | ((b[6] as u64) << 48) | ((b[7] as u64) << 56)
}

/// Appends the little-endian bytes of `x`.
pub fn push_le16(out: &mut Vec<u8>, x: u16)
    ensures
        final(out)@ == old(out)@ + le16(x),
{
    out.push((x & 0xff) as u8);
    out.push(((x >> 8) & 0xff) as u8);
    assert(final(out)@ =~= old(out)@ + le16(x));
}

/// Appends the little-endian bytes of `x`.
pub fn push_le32(out: &mut Vec<u8>, x: u32)
    ensures
        final(out)@ == old(out)@ + le32(x),
{
    out.push((x & 0xff) as u8);
    out.push(((x >> 8) & 0xff) as u8);
    out.push(((x >> 16) & 0xff) as u8);
    out.push(((x >> 24) & 0xff) as u8);
    assert(final(out)@ =~= old(out)@ + le32(x));
}

/// Appends the little-endian bytes of `x`.
pub fn push_le64(out: &mut Vec<u8>, x: u64)
    ensures
        final(out)@ == old(out)@ + le64(x),
{
    out.push((x & 0xff) as u8);
    out.push(((x >> 8) & 0xff) as u8);
    out.push(((x >> 16) & 0xff) as u8);
    out.push(((x >> 24) & 0xff) as u8);
    out.push(((x >> 32) & 0xff) as u8);
    out.push(((x >> 40) & 0xff) as u8);
    out.push(((x >> 48) & 0xff) as u8);
    out.push(((x >> 56) & 0xff) as u8);
    assert(final(out)@ =~= old(out)@ + le64(x));
}

/// Reads a little-endian `u64` at `offset`.
pub fn read_le64(bytes: &[u8], offset: usize) -> (r: u64)
    requires
        offset + 8 <= bytes@.len(),
    ensures
        r == from_le64(bytes@.subrange(offset as int, offset + 8)),
{
    let b0 = bytes[offset] as u64;
    let b1 = bytes[offset + 1] as u64;
    let b2 = bytes[offset + 2] as u64;
    let b3 = bytes[offset + 3] as u64;
    let b4 = bytes[offset + 4] as u64;
    let b5 = bytes[offset + 5] as u64;
    let b6 = bytes[offset + 6] as u64;
    let b7 = bytes[offset + 7] as u64;
    b0 | (b1 << 8) | (b2 << 16) | (b3 << 24) | (b4 << 32) | (b5 << 40) | (b6 << 48) | (b7 << 56)
}

/// Reads a little-endian `u32` at `offset`.
pub fn read_le32(bytes: &[u8], offset: usize) -> (r: u32)
    requires
        offset + 4 <= bytes@.len(),
    ensures
        r == from_le32(bytes@.subrange(offset as int, offset + 4)),
{
    let b0 = bytes[offset] as u32;
    let b1 = bytes[offset + 1] as u32;
    let b2 = bytes[offset + 2] as u32;
    let b3 = bytes[offset + 3] as u32;
    b0 | (b1 << 8) | (b2 << 16) | (b3 << 24)
}

/// Appends the bytes of `src`.
pub fn push_bytes(out: &mut Vec<u8>, src: &[u8])
    ensures
        final(out)@ == old(out)@ + src@,
{
    let mut i: usize = 0;
    while i < src.len()
        invariant
            i <= src@.len(),
            out@ == old(out)@ + src@.take(i as int),
        decreases src@.len() - i,
    {
        out.push(src[i]);
        proof {
            assert(out@ =~= old(out)@ + src@.take(i + 1));
        }
        i += 1;
    }
    proof {
        assert(src@.take(src@.len() as int) =~= src@);
    }
}

/// Reading the two bytes written for `x` gives `x` back.
pub proof fn law_le16_roundtrip(x: u16)
    ensures
        from_le16(le16(x)[0], le16(x)[1]) == x,
{
    assert(((x & 0xff) as u8) as u16 | ((((x >> 8) & 0xff) as u8) as u16) << 8 == x) by (bit_vector);
}

/// Reading the four bytes written for `x` gives `x` back.
pub proof fn law_le32_roundtrip(x: u32)
    ensures
        from_le32(le32(x)) == x,
{
    assert(((x & 0xff) as u8) as u32 | ((((x >> 8) & 0xff) as u8) as u32) << 8 | ((((x >> 16) & 0xff) as u8)
        as u32) << 16 | ((((x >> 24) & 0xff) as u8) as u32) << 24 == x) by (bit_vector);
}

/// Reading the eight bytes written for `x` gives `x` back.
pub proof fn law_le64_roundtrip(x: u64)
    ensures
        from_le64(le64(x)) == x,
{
    assert(((x & 0xff) as u8) as u64 | ((((x >> 8) & 0xff) as u8) as u64) << 8 | ((((x >> 16) & 0xff) as u8)
        as u64) << 16 | ((((x >> 24) & 0xff) as u8) as u64) << 24 | ((((x >> 32) & 0xff) as u8) as u64) << 32
        | ((((x >> 40) & 0xff) as u8) as u64) << 40 | ((((x >> 48) & 0xff) as u8) as u64) << 48 | ((((x >> 56)
        & 0xff) as u8) as u64) << 56 == x) by (bit_vector);
}

} // verus!
