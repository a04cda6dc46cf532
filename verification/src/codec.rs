//! The wire encoding of argument fields: fixed-width integers as raw
//! little-endian bytes, booleans as a single byte, and sequences of 16-bit
//! shares as consecutive two-byte values.

use vstd::prelude::*;

verus! {

/// The two little-endian bytes of a 16-bit value.
pub open spec fn u16_le_bytes(x: u16) -> Seq<u8> {
    seq![(x & 0xff) as u8, ((x >> 8) & 0xff) as u8]
}

/// The four little-endian bytes of a 32-bit value.
pub open spec fn u32_le_bytes(x: u32) -> Seq<u8> {
    seq![
        (x & 0xff) as u8,
        ((x >> 8) & 0xff) as u8,
        ((x >> 16) & 0xff) as u8,
        ((x >> 24) & 0xff) as u8,
    ]
}

/// The eight little-endian bytes of a 64-bit value.
pub open spec fn u64_le_bytes(x: u64) -> Seq<u8> {
    seq![
        (x & 0xff) as u8,
        ((x >> 8) & 0xff) as u8,
        ((x >> 16) & 0xff) as u8,
        ((x >> 24) & 0xff) as u8,
        ((x >> 32) & 0xff) as u8,
        ((x >> 40) & 0xff) as u8,
        ((x >> 48) & 0xff) as u8,
        ((x >> 56) & 0xff) as u8,
    ]
}

/// The single byte a boolean encodes to.
pub open spec fn bool_byte(b: bool) -> u8 {
    if b {
        1
    } else {
        0
    }
}

/// The 16-bit value two little-endian bytes decode to.
pub open spec fn u16_from_le(s: Seq<u8>) -> u16
    recommends
        s.len() == 2,
{
    (s[0] as u16) | ((s[1] as u16) << 8)
}

/// The 32-bit value four little-endian bytes decode to.
pub open spec fn u32_from_le(s: Seq<u8>) -> u32
    recommends
        s.len() == 4,
{
    (s[0] as u32) | ((s[1] as u32) << 8) | ((s[2] as u32) << 16) | ((s[3] as u32) << 24)
}

/// The 64-bit value eight little-endian bytes decode to.
pub open spec fn u64_from_le(s: Seq<u8>) -> u64
    recommends
        s.len() == 8,
{
    (s[0] as u64) | ((s[1] as u64) << 8) | ((s[2] as u64) << 16) | ((s[3] as u64) << 24)
        | ((s[4] as u64) << 32) | ((s[5] as u64) << 40) | ((s[6] as u64) << 48)
        | ((s[7] as u64) << 56)
}

/// Decoding the little-endian bytes of a 16-bit value gives it back.
pub proof fn lemma_u16_round_trip(x: u16)
    ensures
        u16_from_le(u16_le_bytes(x)) == x,
{
    assert((((x & 0xff) as u8) as u16) | (((((x >> 8) & 0xff) as u8) as u16) << 8) == x)
        by (bit_vector);
}

/// Decoding the little-endian bytes of a 32-bit value gives it back.
pub proof fn lemma_u32_round_trip(x: u32)
    ensures
        u32_from_le(u32_le_bytes(x)) == x,
{
    assert((((x & 0xff) as u8) as u32) | (((((x >> 8) & 0xff) as u8) as u32) << 8)
        | (((((x >> 16) & 0xff) as u8) as u32) << 16) | (((((x >> 24) & 0xff) as u8) as u32) << 24)
        == x) by (bit_vector);
}

/// Decoding the little-endian bytes of a 64-bit value gives it back.
pub proof fn lemma_u64_round_trip(x: u64)
    ensures
        u64_from_le(u64_le_bytes(x)) == x,
{
    assert((((x & 0xff) as u8) as u64) | (((((x >> 8) & 0xff) as u8) as u64) << 8)
        | (((((x >> 16) & 0xff) as u8) as u64) << 16) | (((((x >> 24) & 0xff) as u8) as u64) << 24)
        | (((((x >> 32) & 0xff) as u8) as u64) << 32) | (((((x >> 40) & 0xff) as u8) as u64) << 40)
        | (((((x >> 48) & 0xff) as u8) as u64) << 48) | (((((x >> 56) & 0xff) as u8) as u64) << 56)
        == x) by (bit_vector);
}

/// The bytes of a share sequence: each 16-bit element in turn, little-endian.
pub open spec fn u16s_le_bytes(v: Seq<u16>) -> Seq<u8>
    decreases v.len(),
{
    if v.len() == 0 {
        Seq::empty()
    } else {
        u16s_le_bytes(v.drop_last()) + u16_le_bytes(v.last())
    }
}

/// The share sequence an even-length byte sequence decodes to.
pub open spec fn u16s_from_le(s: Seq<u8>) -> Seq<u16>
    decreases s.len(),
{
    if s.len() < 2 {
        Seq::empty()
    } else {
        u16s_from_le(s.drop_last().drop_last())
            + seq![u16_from_le(s.subrange(s.len() - 2, s.len() as int))]
    }
}

/// A share sequence encodes to exactly two bytes per element.
pub proof fn lemma_u16s_le_bytes_len(v: Seq<u16>)
    ensures
        u16s_le_bytes(v).len() == 2 * v.len(),
    decreases v.len(),
{
    if v.len() > 0 {
        lemma_u16s_le_bytes_len(v.drop_last());
    }
}

/// Decoding the bytes of a share sequence gives the sequence back.
pub proof fn lemma_u16s_round_trip(v: Seq<u16>)
    ensures
        u16s_from_le(u16s_le_bytes(v)) == v,
    decreases v.len(),
{
    lemma_u16s_le_bytes_len(v);
    if v.len() == 0 {
        assert(u16s_from_le(u16s_le_bytes(v)) =~= v);
    } else {
        let pre = v.drop_last();
        lemma_u16s_round_trip(pre);
        lemma_u16s_le_bytes_len(pre);
        let b = u16s_le_bytes(v);
        assert(b.drop_last().drop_last() =~= u16s_le_bytes(pre));
        assert(b.subrange(b.len() - 2, b.len() as int) =~= u16_le_bytes(v.last()));
        lemma_u16_round_trip(v.last());
        assert(u16s_from_le(b) =~= v);
    }
}

/// Appends the two little-endian bytes of a 16-bit value.
pub fn push_u16_le(out: &mut Vec<u8>, x: u16)
    ensures
        final(out)@ == old(out)@ + u16_le_bytes(x),
{
    out.push((x & 0xff) as u8);
    out.push(((x >> 8) & 0xff) as u8);
    proof {
        assert(x & 0xff < 256 && (x >> 8) & 0xff < 256) by (bit_vector);
        assert(out@ =~= old(out)@ + u16_le_bytes(x));
    }
}

/// Appends the four little-endian bytes of a 32-bit value.
pub fn push_u32_le(out: &mut Vec<u8>, x: u32)
    ensures
        final(out)@ == old(out)@ + u32_le_bytes(x),
{
    out.push((x & 0xff) as u8);
    out.push(((x >> 8) & 0xff) as u8);
    out.push(((x >> 16) & 0xff) as u8);
    out.push(((x >> 24) & 0xff) as u8);
    proof {
        assert(out@ =~= old(out)@ + u32_le_bytes(x));
    }
}

/// Appends the eight little-endian bytes of a 64-bit value.
pub fn push_u64_le(out: &mut Vec<u8>, x: u64)
    ensures
        final(out)@ == old(out)@ + u64_le_bytes(x),
{
    out.push((x & 0xff) as u8);
    out.push(((x >> 8) & 0xff) as u8);
    out.push(((x >> 16) & 0xff) as u8);
    out.push(((x >> 24) & 0xff) as u8);
    out.push(((x >> 32) & 0xff) as u8);
    out.push(((x >> 40) & 0xff) as u8);
    out.push(((x >> 48) & 0xff) as u8);
    out.push(((x >> 56) & 0xff) as u8);
    proof {
        assert(out@ =~= old(out)@ + u64_le_bytes(x));
    }
}

/// Reads a 16-bit value from two little-endian bytes.
pub fn read_u16_le(b0: u8, b1: u8) -> (r: u16)
    ensures
        r == u16_from_le(seq![b0, b1]),
{
    (b0 as u16) | ((b1 as u16) << 8)
}

} // verus!
