//! Bit ranges of fixed-width words.
//!
//! Every sub-structure of a message is a big-endian word whose fields are ranges of bits,
//! numbered from the least significant bit (bit 0). The extraction itself is done by the
//! `bitfield` crate; the spec functions here say which bits a range holds.

use vstd::prelude::*;

verus! {

/// Bits `msb` down to `lsb` of a 128-bit word, moved down to bit 0.
pub open spec fn bit_field_u128(v: u128, msb: usize, lsb: usize) -> u128
    recommends
        lsb <= msb < 128,
{
    (v >> lsb) & (u128::MAX >> ((127 - msb + lsb) as usize))
}

/// Bits `msb` down to `lsb` of a 64-bit word, moved down to bit 0.
pub open spec fn bit_field_u64(v: u64, msb: usize, lsb: usize) -> u64
    recommends
        lsb <= msb < 64,
{
    (v >> lsb) & (u64::MAX >> ((63 - msb + lsb) as usize))
}

/// Bits `msb` down to `lsb` of a 32-bit word, moved down to bit 0.
pub open spec fn bit_field_u32(v: u32, msb: usize, lsb: usize) -> u32
    recommends
        lsb <= msb < 32,
{
    (v >> lsb) & (u32::MAX >> ((31 - msb + lsb) as usize))
}

/// Whether bit `bit` of a 128-bit word is set.
pub open spec fn bit_at_u128(v: u128, bit: usize) -> bool
    recommends
        bit < 128,
{
    (v >> bit) & 1 == 1
}

/// The `bitfield` crate's `BitRange::<u128>::bit_range` on a `u128`. It shifts the word up
/// until bit `msb` is the top bit and then down until bit `lsb` is bit 0; what is left are
/// the bits `msb..=lsb`. It panics in debug builds when `msb < lsb` or `msb >= 128`.
#[verifier::external_body]
pub(crate) fn bit_range_u128(v: u128, msb: usize, lsb: usize) -> (r: u128)
    requires
        lsb <= msb < 128,
    ensures
        r == bit_field_u128(v, msb, lsb),
{
    bitfield::BitRange::<u128>::bit_range(&v, msb, lsb)
}

/// The `bitfield` crate's `BitRange::<u64>::bit_range` on a `u64`: the bits `msb..=lsb`,
/// moved down to bit 0. It panics in debug builds when `msb < lsb` or `msb >= 64`.
#[verifier::external_body]
pub(crate) fn bit_range_u64(v: u64, msb: usize, lsb: usize) -> (r: u64)
    requires
        lsb <= msb < 64,
    ensures
        r == bit_field_u64(v, msb, lsb),
{
    bitfield::BitRange::<u64>::bit_range(&v, msb, lsb)
}

/// The `bitfield` crate's `BitRange::<u32>::bit_range` on a `u32`: the bits `msb..=lsb`,
/// moved down to bit 0. It panics in debug builds when `msb < lsb` or `msb >= 32`.
#[verifier::external_body]
pub(crate) fn bit_range_u32(v: u32, msb: usize, lsb: usize) -> (r: u32)
    requires
        lsb <= msb < 32,
    ensures
        r == bit_field_u32(v, msb, lsb),
{
    bitfield::BitRange::<u32>::bit_range(&v, msb, lsb)
}

/// The `bitfield` crate's `Bit::bit` on a `u128`: it takes the one-bit range `bit..=bit`
/// as a `u8` and reports whether that is non-zero. It panics in debug builds when
/// `bit >= 128`.
#[verifier::external_body]
pub(crate) fn bit_u128(v: u128, bit: usize) -> (r: bool)
    requires
        bit < 128,
    ensures
        r == bit_at_u128(v, bit),
{
    bitfield::Bit::bit(&v, bit)
}

} // verus!
