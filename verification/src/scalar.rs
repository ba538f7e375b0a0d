//! IEEE 754 single-precision values carried as raw bit patterns.
//!
//! The engine never computes with floating point directly: every scalar
//! that travels towards the GPU is a 32-bit pattern, and the few facts
//! the engine needs about such patterns (which ones are NaN, how two
//! non-NaN values are ordered) are plain integer facts about the
//! sign/magnitude encoding, stated and proved here.

use vstd::prelude::*;

verus! {

/// Bit pattern of +0.0.
pub const ZERO_BITS: u32 = 0x0000_0000;

/// Bit pattern of 1.0.
pub const ONE_BITS: u32 = 0x3F80_0000;

/// Bit pattern of -1.0.
pub const NEG_ONE_BITS: u32 = 0xBF80_0000;

/// Bit pattern of the single-precision value nearest to 0.1, the floor
/// below which the animated scale is never allowed to fall.
pub const TENTH_BITS: u32 = 0x3DCC_CCCD;

/// Bit pattern of 100.0, the divisor applied to the per-frame
/// translation drift.
pub const HUNDRED_BITS: u32 = 0x42C8_0000;

/// Bit pattern of 0.5.
pub const HALF_BITS: u32 = 0x3F00_0000;

/// Bit pattern of -0.5.
pub const NEG_HALF_BITS: u32 = 0xBF00_0000;

/// Bit pattern of 0.25.
pub const QUARTER_BITS: u32 = 0x3E80_0000;

/// Bit pattern of -0.25.
pub const NEG_QUARTER_BITS: u32 = 0xBE80_0000;

/// Bit pattern of 3.0.
pub const THREE_BITS: u32 = 0x4040_0000;

/// Bit pattern of 40.0, the far plane of the perspective projection.
pub const FORTY_BITS: u32 = 0x4220_0000;

/// Bit pattern of 45.0, the vertical field of view in degrees.
pub const DEG45_BITS: u32 = 0x4234_0000;

/// The exponent-and-fraction part of a pattern: everything but the sign.
pub open spec fn magnitude_bits(x: u32) -> u32 {
    x & 0x7FFF_FFFF
}

/// A pattern encodes NaN exactly when its magnitude exceeds that of
/// infinity (all exponent bits set, fraction zero).
pub open spec fn is_nan_bits(x: u32) -> bool {
    magnitude_bits(x) > 0x7F80_0000
}

/// The sign bit.
pub open spec fn is_negative_bits(x: u32) -> bool {
    x >= 0x8000_0000
}

/// The strict order of two encoded values, false when either is NaN.
/// The two zeros compare equal; otherwise values of distinct sign order
/// by sign, and values of one sign order by magnitude, reversed on the
/// negative side.
pub open spec fn lt_bits(a: u32, b: u32) -> bool {
    &&& !is_nan_bits(a)
    &&& !is_nan_bits(b)
    &&& if magnitude_bits(a) == 0 && magnitude_bits(b) == 0 {
            false
        } else if is_negative_bits(a) != is_negative_bits(b) {
            is_negative_bits(a)
        } else if !is_negative_bits(a) {
            magnitude_bits(a) < magnitude_bits(b)
        } else {
            magnitude_bits(a) > magnitude_bits(b)
        }
}

/// `a` is at least `b`: both are real values and `a` is not below `b`.
pub open spec fn ge_bits(a: u32, b: u32) -> bool {
    &&& !is_nan_bits(a)
    &&& !is_nan_bits(b)
    &&& !lt_bits(a, b)
}

/// Whether a pattern encodes NaN.
pub fn scalar_is_nan(x: u32) -> (r: bool)
    ensures
        r == is_nan_bits(x),
{
    (x & 0x7FFF_FFFF) > 0x7F80_0000
}

/// Whether `a` encodes a value strictly below the one `b` encodes;
/// false when either is NaN.
pub fn scalar_lt(a: u32, b: u32) -> (r: bool)
    ensures
        r == lt_bits(a, b),
{
    let ma: u32 = a & 0x7FFF_FFFF;
    let mb: u32 = b & 0x7FFF_FFFF;
    if ma > 0x7F80_0000 || mb > 0x7F80_0000 {
        false
    } else if ma == 0 && mb == 0 {
        false
    } else {
        let neg_a: bool = a >= 0x8000_0000;
        let neg_b: bool = b >= 0x8000_0000;
        if neg_a != neg_b {
            neg_a
        } else if !neg_a {
            ma < mb
        } else {
            ma > mb
        }
    }
}

} // verus!
