//! Big-endian 16-bit fields, as every KNXnet/IP frame carries them.

use byteorder::{BigEndian, ByteOrder};
use vstd::prelude::*;

verus! {

/// The 16-bit value whose big-endian image is `hi lo`.
pub open spec fn be16(hi: u8, lo: u8) -> u16 {
    (hi as int * 256 + lo as int) as u16
}

/// The more significant byte of `v`.
pub open spec fn hi_byte(v: u16) -> u8 {
    (v as int / 256) as u8
}

/// The less significant byte of `v`.
pub open spec fn lo_byte(v: u16) -> u8 {
    (v as int % 256) as u8
}

/// The two bytes that stand for `v` on the wire.
pub open spec fn be16_bytes(v: u16) -> Seq<u8> {
    seq![hi_byte(v), lo_byte(v)]
}

/// Splitting a value into its two bytes and joining them again gives the value
/// back, and the other way round.
pub proof fn lemma_be16_round_trip(v: u16, hi: u8, lo: u8)
    ensures
        be16(hi_byte(v), lo_byte(v)) == v,
        hi_byte(be16(hi, lo)) == hi,
        lo_byte(be16(hi, lo)) == lo,
{
}

/// Reads a big-endian `u16` with `byteorder::BigEndian::read_u16`, which takes
/// the first two bytes of `buf` and panics on a shorter slice. The contract
/// claims that the result is `buf[0] * 256 + buf[1]`.
#[verifier::external_body]
pub(crate) fn read_u16_be(buf: &[u8]) -> (v: u16)
    requires
        buf@.len() >= 2,
    ensures
        v == be16(buf@[0], buf@[1]),
{
    BigEndian::read_u16(buf)
}

/// Appends the big-endian image of `v` to `buf`.
pub fn push_u16_be(buf: &mut Vec<u8>, v: u16)
    ensures
        final(buf)@ == old(buf)@ + be16_bytes(v),
{
    assert(v >> 8 == v / 256 && v & 0xff == v % 256) by (bit_vector);
    buf.push((v >> 8) as u8);
    buf.push((v & 0xff) as u8);
    assert(buf@ =~= old(buf)@ + be16_bytes(v));
}

} // verus!
