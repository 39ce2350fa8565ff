//! Big-endian layouts of the fixed-width integers.

use vstd::prelude::*;

verus! {

/// The two bytes of a 16-bit pattern, high byte first.
pub open spec fn be16(v: u16) -> Seq<u8> {
    seq![(v >> 8) as u8, v as u8]
}

/// The 16-bit pattern that two bytes give, high byte first.
pub open spec fn from_be16(b: Seq<u8>) -> u16 {
    ((b[0] as u16) << 8) | (b[1] as u16)
}

/// The four bytes of a 32-bit pattern, high byte first.
pub open spec fn be32(v: u32) -> Seq<u8> {
    seq![(v >> 24) as u8, (v >> 16) as u8, (v >> 8) as u8, v as u8]
}

/// The 32-bit pattern that four bytes give, high byte first.
pub open spec fn from_be32(b: Seq<u8>) -> u32 {
    ((b[0] as u32) << 24) | ((b[1] as u32) << 16) | ((b[2] as u32) << 8) | (b[3] as u32)
}

/// The eight bytes of a 64-bit pattern, high byte first.
pub open spec fn be64(v: u64) -> Seq<u8> {
    seq![
        (v >> 56) as u8,
        (v >> 48) as u8,
        (v >> 40) as u8,
        (v >> 32) as u8,
        (v >> 24) as u8,
        (v >> 16) as u8,
        (v >> 8) as u8,
        v as u8,
    ]
}

/// The 64-bit pattern that eight bytes give, high byte first.
pub open spec fn from_be64(b: Seq<u8>) -> u64 {
    ((b[0] as u64) << 56) | ((b[1] as u64) << 48) | ((b[2] as u64) << 40) | ((b[3] as u64) << 32)
        | ((b[4] as u64) << 24) | ((b[5] as u64) << 16) | ((b[6] as u64) << 8) | (b[7] as u64)
}

/// Two bytes written for a pattern give the pattern back.
pub proof fn lemma_be16(v: u16)
    ensures
        be16(v).len() == 2,
        from_be16(be16(v)) == v,
{
    assert(((((v >> 8) as u8) as u16) << 8) | ((v as u8) as u16) == v) by (bit_vector);
}

/// Four bytes written for a pattern give the pattern back.
pub proof fn lemma_be32(v: u32)
    ensures
        be32(v).len() == 4,
        from_be32(be32(v)) == v,
{
    assert(((((v >> 24) as u8) as u32) << 24) | ((((v >> 16) as u8) as u32) << 16) | ((((v
        >> 8) as u8) as u32) << 8) | ((v as u8) as u32) == v) by (bit_vector);
}

/// Eight bytes written for a pattern give the pattern back.
pub proof fn lemma_be64(v: u64)
    ensures
        be64(v).len() == 8,
        from_be64(be64(v)) == v,
{
    assert(((((v >> 56) as u8) as u64) << 56) | ((((v >> 48) as u8) as u64) << 48) | ((((v
        >> 40) as u8) as u64) << 40) | ((((v >> 32) as u8) as u64) << 32) | ((((v >> 24) as u8)
        as u64) << 24) | ((((v >> 16) as u8) as u64) << 16) | ((((v >> 8) as u8) as u64) << 8) | ((
    v as u8) as u64) == v) by (bit_vector);
}

/// Lays a 16-bit pattern out, high byte first.
pub fn put_be16(v: u16) -> (out: Vec<u8>)
    ensures
        out@ == be16(v),
{
    let mut out: Vec<u8> = Vec::with_capacity(2);
    out.push((v >> 8) as u8);
    out.push(v as u8);
    assert(out@ =~= be16(v));
    out
}

/// Takes a 16-bit pattern from two bytes, high byte first.
pub fn get_be16(b: &[u8]) -> (v: u16)
    requires
        b@.len() == 2,
    ensures
        v == from_be16(b@),
{
    ((b[0] as u16) << 8) | (b[1] as u16)
}

/// Lays a 32-bit pattern out, high byte first.
pub fn put_be32(v: u32) -> (out: Vec<u8>)
    ensures
        out@ == be32(v),
{
    let mut out: Vec<u8> = Vec::with_capacity(4);
    out.push((v >> 24) as u8);
    out.push((v >> 16) as u8);
    out.push((v >> 8) as u8);
    out.push(v as u8);
    assert(out@ =~= be32(v));
    out
}

/// Takes a 32-bit pattern from four bytes, high byte first.
pub fn get_be32(b: &[u8]) -> (v: u32)
    requires
        b@.len() == 4,
    ensures
        v == from_be32(b@),
{
    ((b[0] as u32) << 24) | ((b[1] as u32) << 16) | ((b[2] as u32) << 8) | (b[3] as u32)
}

/// Lays a 64-bit pattern out, high byte first.
pub fn put_be64(v: u64) -> (out: Vec<u8>)
    ensures
        out@ == be64(v),
{
    let mut out: Vec<u8> = Vec::with_capacity(8);
    out.push((v >> 56) as u8);
    out.push((v >> 48) as u8);
    out.push((v >> 40) as u8);
    out.push((v >> 32) as u8);
    out.push((v >> 24) as u8);
    out.push((v >> 16) as u8);
    out.push((v >> 8) as u8);
    out.push(v as u8);
    assert(out@ =~= be64(v));
    out
}

/// Takes a 64-bit pattern from eight bytes, high byte first.
pub fn get_be64(b: &[u8]) -> (v: u64)
    requires
        b@.len() == 8,
    ensures
        v == from_be64(b@),
{
    ((b[0] as u64) << 56) | ((b[1] as u64) << 48) | ((b[2] as u64) << 40) | ((b[3] as u64) << 32)
        | ((b[4] as u64) << 24) | ((b[5] as u64) << 16) | ((b[6] as u64) << 8) | (b[7] as u64)
}

} // verus!
