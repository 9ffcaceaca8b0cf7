//! Two-byte integer fields: the value of a byte pair and the byte pair of a
//! value, in both byte orders used on the wire.

use vstd::prelude::*;

verus! {

/// The value of two bytes read in big-endian order.
pub open spec fn be16(hi: u8, lo: u8) -> int {
    hi * 256 + lo
}

/// The value of two bytes read in little-endian order.
pub open spec fn le16(lo: u8, hi: u8) -> int {
    lo + hi * 256
}

/// The big-endian byte pair of the low 16 bits of a value.
pub open spec fn be16_bytes(v: int) -> Seq<u8> {
    seq![(((v / 256) % 256) as u8), ((v % 256) as u8)]
}

/// The little-endian byte pair of the low 16 bits of a value.
pub open spec fn le16_bytes(v: int) -> Seq<u8> {
    seq![((v % 256) as u8), (((v / 256) % 256) as u8)]
}

/// Appends the two big-endian bytes of `v` to the buffer.
pub fn push_u16_be(buffer: &mut Vec<u8>, v: u16)
    ensures
        final(buffer)@ == old(buffer)@ + be16_bytes(v as int),
{
    buffer.push((v / 256) as u8);
    buffer.push((v % 256) as u8);
    assert(buffer@ =~= old(buffer)@ + be16_bytes(v as int));
}

/// Appends the two little-endian bytes of `v` to the buffer.
pub fn push_u16_le(buffer: &mut Vec<u8>, v: u16)
    ensures
        final(buffer)@ == old(buffer)@ + le16_bytes(v as int),
{
    buffer.push((v % 256) as u8);
    buffer.push((v / 256) as u8);
    assert(buffer@ =~= old(buffer)@ + le16_bytes(v as int));
}

/// The byte pair of the value of a little-endian byte pair is the pair
/// itself.
pub proof fn lemma_le16_bytes_of_le16(lo: u8, hi: u8)
    ensures
        le16_bytes(le16(lo, hi)) == seq![lo, hi],
{
    let v: int = lo + hi * 256;
    assert(v % 256 == lo && v / 256 == hi) by (nonlinear_arith)
        requires
            0 <= lo < 256,
            0 <= hi < 256,
            v == lo + hi * 256,
    ;
    assert(le16_bytes(le16(lo, hi)) =~= seq![lo, hi]);
}

/// The byte pair of the value of a big-endian byte pair is the pair itself.
pub proof fn lemma_be16_bytes_of_be16(hi: u8, lo: u8)
    ensures
        be16_bytes(be16(hi, lo)) == seq![hi, lo],
{
    let v: int = hi * 256 + lo;
    assert(v % 256 == lo && v / 256 == hi) by (nonlinear_arith)
        requires
            0 <= lo < 256,
            0 <= hi < 256,
            v == hi * 256 + lo,
    ;
    assert(be16_bytes(be16(hi, lo)) =~= seq![hi, lo]);
}

/// The value of the big-endian byte pair of a 16-bit value is the value
/// itself.
pub proof fn lemma_be16_of_be16_bytes(v: int)
    requires
        0 <= v < 65536,
    ensures
        be16(be16_bytes(v)[0], be16_bytes(v)[1]) == v,
{
    vstd::arithmetic::div_mod::lemma_fundamental_div_mod(v, 256);
}

/// The 16-bit value of two bytes taken in big-endian order.
pub fn u16_from_be(hi: u8, lo: u8) -> (v: u16)
    ensures
        v == be16(hi, lo),
{
    (hi as u16) * 256 + (lo as u16)
}

/// The 16-bit value of two bytes taken in little-endian order.
pub fn u16_from_le(lo: u8, hi: u8) -> (v: u16)
    ensures
        v == le16(lo, hi),
{
    (lo as u16) + (hi as u16) * 256
}

} // verus!
