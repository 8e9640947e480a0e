//! Rounding a binary64 number to a requested count of significant decimal
//! figures, in the style of a dynamic language's `toPrecision`.
//!
//! The library holds the decision core: classifying a binary64 bit pattern
//! (NaN, zero, infinity, finite with a sign), validating the requested
//! precision, locating the decimal exponent, and planning the scaling that
//! rounds to the requested figures. The floating-point evaluation itself
//! (logarithm, powers of ten, multiply, round, divide, and the final
//! double-to-string conversion) is the host platform's and runs outside the
//! library, driven by the plans computed here.

use vstd::prelude::*;

pub mod bits;
pub mod rendering;
pub mod rounding;

use crate::rendering::Rendering;

verus! {

/// The greatest precision a caller may request: the maximum count of
/// meaningful significant decimal figures of a binary64.
pub const MAX_FRACTION_DIGITS: u8 = 21;

/// Attaches `to_precision` to a number type: wraps the number and a
/// validated precision into a display handle, consumed when rendered.
pub trait FloatExt {
    type Display;

    /// Wraps `self` and the precision `p` for rendering at `p` significant
    /// figures. A precision outside `1 ..= 21` is a caller error; the
    /// handle is never constructed with one.
    fn to_precision(self, p: u8) -> Self::Display
        requires
            1 <= p <= 21,
    ;
}

/// An immutable pair of a binary64 bit pattern and a validated precision,
/// made at the entry point and consumed once when rendered. The precision
/// always lies in `1 ..= 21`.
#[derive(Clone, Copy, Debug)]
pub struct F64Display {
    bits: u64,
    precision: u8,
}

impl FloatExt for u64 {
    type Display = F64Display;

    /// The entry point over the raw bit pattern of a binary64; the library
    /// holds no floating-point values, so the number arrives as its bits.
    fn to_precision(self, p: u8) -> (d: F64Display)
        ensures
            d.bits_of() == self,
            d.precision_of() == p,
            d.valid(),
    {
        F64Display { bits: self, precision: p }
    }
}

impl F64Display {
    /// The bit pattern of the wrapped binary64.
    pub closed spec fn bits_of(self) -> u64 {
        self.bits
    }

    /// The requested count of significant figures.
    pub closed spec fn precision_of(self) -> u8 {
        self.precision
    }

    /// A handle is only ever constructed with a validated precision.
    pub open spec fn valid(self) -> bool {
        1 <= self.precision_of() <= MAX_FRACTION_DIGITS
    }

    /// The checked entry point: wraps the bit pattern and the precision,
    /// and refuses exactly the precisions outside `1 ..= 21`.
    pub fn new(bits: u64, precision: u8) -> (r: Option<F64Display>)
        ensures
            r is Some <==> 1 <= precision <= MAX_FRACTION_DIGITS,
            r matches Some(d) ==> d.bits_of() == bits && d.precision_of() == precision
                && d.valid(),
    {
        if 1 <= precision && precision <= MAX_FRACTION_DIGITS {
            Some(F64Display { bits, precision })
        } else {
            None
        }
    }

    /// The bit pattern of the wrapped binary64.
    pub fn bits(&self) -> (r: u64)
        ensures
            r == self.bits_of(),
    {
        self.bits
    }

    /// The requested count of significant figures.
    pub fn precision(&self) -> (r: u8)
        ensures
            r == self.precision_of(),
    {
        self.precision
    }

    /// Decides how the wrapped number is rendered. A `Finite` result is
    /// nonzero, finite and unsigned: exactly what the exponent locator and
    /// the rounder accept.
    pub fn rendering(&self) -> (r: Rendering)
        ensures
            r == rendering::rendering_of(self.bits_of()),
            r matches Rendering::Finite { magnitude: m, .. } ==> bits::is_finite(m)
                && !bits::is_zero_value(m) && !bits::is_negative(m),
    {
        rendering::classify(self.bits)
    }
}

} // verus!
