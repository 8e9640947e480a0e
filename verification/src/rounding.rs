//! The decisions behind rounding to significant figures.
//!
//! Locating the decimal exponent `e` of a magnitude (`10^e <= x < 10^(e+1)`)
//! starts from the platform's floored base-10 logarithm, which may
//! under-estimate by one near a power of ten; the single upward correction
//! is decided here. Rounding to `sf` significant figures then scales by a
//! power of ten, rounds half away from zero, and scales back; which power,
//! and whether to multiply or divide first, is an exact integer function of
//! `e` and `sf` and is decided and proved here. The scaling itself runs in
//! binary64 on the host platform.

use vstd::prelude::*;

use crate::MAX_FRACTION_DIGITS;

verus! {

/// The least decimal exponent of a nonzero binary64 magnitude: the smallest
/// subnormal lies between `10^-324` and `10^-323`.
pub const MIN_DECIMAL_EXPONENT: i32 = -324;

/// The greatest decimal exponent of a finite binary64 magnitude: the
/// largest finite value lies between `10^308` and `10^309`.
pub const MAX_DECIMAL_EXPONENT: i32 = 308;

/// How a magnitude is scaled so that rounding to the nearest integer
/// rounds at the last retained significant figure.
///
/// With `p` the decimal exponent of the least significant retained digit,
/// `power` is `|p|`. When `multiply_first` holds (`p < 0`, rounding below
/// the units place), the magnitude is multiplied by `10^power`, rounded,
/// and divided by `10^power`; multiplying first keeps the scaled value in
/// an integer range where rounding is exact, so only the final division
/// rounds. Otherwise (`p >= 0`) the magnitude is divided by `10^power`,
/// rounded, and multiplied back.
#[derive(Clone, Copy, Debug, PartialEq, Eq, Structural)]
pub struct ScalePlan {
    pub multiply_first: bool,
    pub power: u16,
}

/// The decimal exponent of the least significant retained digit, when `sf`
/// significant figures of a magnitude with decimal exponent `e` are kept.
pub open spec fn retained_digit_exponent(e: int, sf: int) -> int {
    e - sf + 1
}

/// Decides the scaling that rounds a magnitude with decimal exponent `e`
/// to `sf` significant figures.
pub fn scale_plan(e: i32, sf: u8) -> (r: ScalePlan)
    requires
        1 <= sf <= MAX_FRACTION_DIGITS,
        MIN_DECIMAL_EXPONENT <= e <= MAX_DECIMAL_EXPONENT,
    ensures
        ({
            let p = retained_digit_exponent(e as int, sf as int);
            if p < 0 {
                r.multiply_first && r.power == -p
            } else {
                !r.multiply_first && r.power == p
            }
        }),
{
    let p: i32 = e - (sf as i32) + 1;
    if p < 0 {
        ScalePlan { multiply_first: true, power: (-p) as u16 }
    } else {
        ScalePlan { multiply_first: false, power: p as u16 }
    }
}

/// The single upward correction of the locator. `floored_log` is the
/// platform's `floor(log10(x))` cast to an integer, which may fall short of
/// the decimal exponent of `x` by one; `next_power_below` reports whether
/// the platform found `10^(floored_log + 1) < x`, the sign that it did.
pub fn correct_exponent(floored_log: i32, next_power_below: bool) -> (e: i32)
    requires
        MIN_DECIMAL_EXPONENT - 1 <= floored_log <= MAX_DECIMAL_EXPONENT,
    ensures
        e == if next_power_below {
            floored_log + 1
        } else {
            floored_log as int
        },
{
    if next_power_below {
        floored_log + 1
    } else {
        floored_log
    }
}

/// Whether `e` can be the decimal exponent of a nonzero finite binary64
/// magnitude; the rounder's plans are only defined on this range.
pub fn exponent_in_range(e: i32) -> (r: bool)
    ensures
        r == (MIN_DECIMAL_EXPONENT <= e <= MAX_DECIMAL_EXPONENT),
{
    MIN_DECIMAL_EXPONENT <= e && e <= MAX_DECIMAL_EXPONENT
}

} // verus!
