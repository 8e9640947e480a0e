//! The bit-level model of an IEEE-754 binary64 value.
//!
//! A binary64 is carried through the library as its raw bit pattern, a
//! `u64`: one sign bit, an 11-bit biased exponent and a 52-bit fraction.
//! The classifications the formatter needs (NaN, infinity, zero, sign) are
//! exact functions of these three fields and are stated and proved here.

use vstd::prelude::*;

verus! {

/// The sign bit of the pattern: `0` or `1`.
pub open spec fn sign_field(b: u64) -> u64 {
    b >> 63
}

/// The 11-bit biased exponent field.
pub open spec fn exponent_field(b: u64) -> u64 {
    (b >> 52) & 0x7ff
}

/// The 52-bit fraction field.
pub open spec fn fraction_field(b: u64) -> u64 {
    b & 0x000f_ffff_ffff_ffff
}

/// The pattern with the sign bit cleared: the absolute value.
pub open spec fn magnitude(b: u64) -> u64 {
    b & 0x7fff_ffff_ffff_ffff
}

/// The pattern with the sign bit inverted: the negated value.
pub open spec fn with_sign_flipped(b: u64) -> u64 {
    b ^ 0x8000_0000_0000_0000
}

/// The sign bit is set: the value is negative (a negative zero and a NaN
/// with the sign bit set count as negative here; callers filter them first).
pub open spec fn is_negative(b: u64) -> bool {
    sign_field(b) == 1
}

/// The pattern encodes a NaN: exponent field all ones, fraction nonzero.
pub open spec fn is_nan(b: u64) -> bool {
    exponent_field(b) == 0x7ff && fraction_field(b) != 0
}

/// The pattern encodes an infinity of either sign.
pub open spec fn is_infinite(b: u64) -> bool {
    exponent_field(b) == 0x7ff && fraction_field(b) == 0
}

/// The pattern encodes a finite value (zero and subnormals included).
pub open spec fn is_finite(b: u64) -> bool {
    exponent_field(b) != 0x7ff
}

/// The pattern encodes a zero of either sign.
pub open spec fn is_zero_value(b: u64) -> bool {
    exponent_field(b) == 0 && fraction_field(b) == 0
}

/// The sign bit is set.
pub fn sign_bit_set(b: u64) -> (r: bool)
    ensures
        r == is_negative(b),
{
    proof {
        assert(b >> 63 == 1 <==> b & 0x8000_0000_0000_0000 != 0) by (bit_vector);
    }
    b & 0x8000_0000_0000_0000 != 0
}

/// The 11-bit biased exponent field.
pub fn exponent_bits(b: u64) -> (r: u64)
    ensures
        r == exponent_field(b),
{
    (b >> 52) & 0x7ff
}

/// The 52-bit fraction field.
pub fn fraction_bits(b: u64) -> (r: u64)
    ensures
        r == fraction_field(b),
{
    b & 0x000f_ffff_ffff_ffff
}

/// The pattern with the sign bit cleared.
pub fn magnitude_bits(b: u64) -> (r: u64)
    ensures
        r == magnitude(b),
{
    b & 0x7fff_ffff_ffff_ffff
}

/// Clearing the sign bit leaves the exponent and fraction fields unchanged
/// and clears the sign field.
pub proof fn lemma_magnitude_fields(b: u64)
    ensures
        sign_field(magnitude(b)) == 0,
        exponent_field(magnitude(b)) == exponent_field(b),
        fraction_field(magnitude(b)) == fraction_field(b),
{
    assert((b & 0x7fff_ffff_ffff_ffff) >> 63 == 0) by (bit_vector);
    assert(((b & 0x7fff_ffff_ffff_ffff) >> 52) & 0x7ff == (b >> 52) & 0x7ff) by (bit_vector);
    assert((b & 0x7fff_ffff_ffff_ffff) & 0x000f_ffff_ffff_ffff == b & 0x000f_ffff_ffff_ffff)
        by (bit_vector);
}

/// Inverting the sign bit flips the sign field and leaves the exponent and
/// fraction fields, and hence the magnitude, unchanged.
pub proof fn lemma_sign_flip_fields(b: u64)
    ensures
        sign_field(with_sign_flipped(b)) == 1 - sign_field(b),
        exponent_field(with_sign_flipped(b)) == exponent_field(b),
        fraction_field(with_sign_flipped(b)) == fraction_field(b),
        magnitude(with_sign_flipped(b)) == magnitude(b),
{
    assert(((b ^ 0x8000_0000_0000_0000) >> 63) + (b >> 63) == 1) by (bit_vector);
    assert(((b ^ 0x8000_0000_0000_0000) >> 52) & 0x7ff == (b >> 52) & 0x7ff) by (bit_vector);
    assert((b ^ 0x8000_0000_0000_0000) & 0x000f_ffff_ffff_ffff == b & 0x000f_ffff_ffff_ffff)
        by (bit_vector);
    assert((b ^ 0x8000_0000_0000_0000) & 0x7fff_ffff_ffff_ffff == b & 0x7fff_ffff_ffff_ffff)
        by (bit_vector);
}

} // verus!
