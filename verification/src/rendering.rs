//! The formatter's decision: what a binary64 bit pattern renders as.
//!
//! A NaN renders as the literal `NaN`; a zero of either sign as the literal
//! `0`; an infinity as `∞` behind its sign; any other value as a sign
//! followed by the rounded magnitude, which the host platform's
//! double-to-string conversion then prints. The decision is a pure function
//! of the bit pattern and is proved exact here; only the final conversion of
//! a finite magnitude to digits happens outside the library.

use vstd::prelude::*;

use crate::bits;

verus! {

/// What a bit pattern renders as. `Finite` carries the magnitude (the
/// pattern with its sign bit cleared) that the significant-figure rounder
/// receives; every other variant is rendered as a fixed literal.
#[derive(Clone, Copy, Debug, PartialEq, Eq, Structural)]
pub enum Rendering {
    /// The literal `NaN`, with no sign.
    NotANumber,
    /// The literal `0`, with no sign, for a zero of either sign.
    Zero,
    /// The literal `∞` behind `-` when `negative` holds.
    Infinite { negative: bool },
    /// A `-` when `negative` holds, then the rounded magnitude in digits.
    Finite { negative: bool, magnitude: u64 },
}

/// The rendering decision as a function of the bit pattern. The zero test
/// comes before the sign test, so a negative zero renders unsigned; the
/// sign test stands before the infinity test, so a negative infinity keeps
/// its sign.
pub open spec fn rendering_of(b: u64) -> Rendering {
    if bits::is_nan(b) {
        Rendering::NotANumber
    } else if bits::is_zero_value(b) {
        Rendering::Zero
    } else if bits::is_infinite(b) {
        Rendering::Infinite { negative: bits::is_negative(b) }
    } else {
        Rendering::Finite { negative: bits::is_negative(b), magnitude: bits::magnitude(b) }
    }
}

/// The rendering with its sign inverted; what it shows of the magnitude is
/// unchanged.
pub open spec fn opposite(r: Rendering) -> Rendering {
    match r {
        Rendering::NotANumber => Rendering::NotANumber,
        Rendering::Zero => Rendering::Zero,
        Rendering::Infinite { negative } => Rendering::Infinite { negative: !negative },
        Rendering::Finite { negative, magnitude } => Rendering::Finite {
            negative: !negative,
            magnitude,
        },
    }
}

/// Decides how a bit pattern is rendered. A `Finite` result is nonzero,
/// finite and unsigned: exactly the inputs the exponent locator and the
/// rounder accept.
pub fn classify(b: u64) -> (r: Rendering)
    ensures
        r == rendering_of(b),
        r matches Rendering::Finite { magnitude: m, .. } ==> bits::is_finite(m)
            && !bits::is_zero_value(m) && !bits::is_negative(m),
{
    proof {
        bits::lemma_magnitude_fields(b);
    }
    let exponent: u64 = bits::exponent_bits(b);
    let fraction: u64 = bits::fraction_bits(b);
    if exponent == 0x7ff && fraction != 0 {
        Rendering::NotANumber
    } else if exponent == 0 && fraction == 0 {
        Rendering::Zero
    } else if exponent == 0x7ff {
        Rendering::Infinite { negative: bits::sign_bit_set(b) }
    } else {
        Rendering::Finite { negative: bits::sign_bit_set(b), magnitude: bits::magnitude_bits(b) }
    }
}

impl Rendering {
    /// The fixed literal this rendering emits, or `None` for a finite
    /// value, whose digits only the platform's double-to-string conversion
    /// can supply.
    pub fn special_text(&self) -> (r: Option<&'static str>)
        ensures
            match *self {
                Rendering::NotANumber => r matches Some(t) && t@ == "NaN"@,
                Rendering::Zero => r matches Some(t) && t@ == "0"@,
                Rendering::Infinite { negative } => r matches Some(t) && t@ == (
                if negative {
                    "-∞"@
                } else {
                    "∞"@
                }),
                Rendering::Finite { .. } => r is None,
            },
    {
        match self {
            Rendering::NotANumber => Some("NaN"),
            Rendering::Zero => Some("0"),
            Rendering::Infinite { negative } => if *negative {
                Some("-∞")
            } else {
                Some("∞")
            },
            Rendering::Finite { .. } => None,
        }
    }
}

/// Sign symmetry of the rendering decision: flipping the sign bit of the
/// input flips only the recorded sign, and in particular hands the rounder
/// the same magnitude.
pub proof fn lemma_rendering_sign_symmetry(b: u64)
    ensures
        rendering_of(bits::with_sign_flipped(b)) == opposite(rendering_of(b)),
{
    bits::lemma_sign_flip_fields(b);
}

} // verus!
