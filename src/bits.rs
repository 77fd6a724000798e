//! Single-precision IEEE-754 values held as their bit patterns.
//!
//! Layout: bit 31 is the sign, bits 30..23 the biased exponent, bits 22..0 the
//! fraction. An exponent field of all ones marks an infinity or a NaN. Among
//! values whose sign bit is clear and which are not NaN, the numeric order is
//! the unsigned order of the bit patterns.

use vstd::prelude::*;

verus! {

/// Bit pattern of `+0`.
pub const ZERO_BITS: u32 = 0;

/// Bit pattern of `1`.
pub const ONE_BITS: u32 = 0x3F80_0000;

/// Bit pattern of `+infinity`; every larger pattern with a clear sign bit is a NaN.
pub const INFINITY_BITS: u32 = 0x7F80_0000;

/// The biased exponent field.
pub open spec fn exponent_field(b: u32) -> nat {
    ((b as nat) / 0x80_0000) % 0x100
}

/// Neither an infinity nor a NaN.
pub open spec fn is_finite_value(b: u32) -> bool {
    exponent_field(b) != 0xFF
}

/// A value in `[+0, 1]`: sign bit clear and no larger than one.
pub open spec fn unit_interval(b: u32) -> bool {
    b <= ONE_BITS
}

/// A value that compares greater than zero (positive infinity included, NaN excluded).
pub open spec fn is_positive_value(b: u32) -> bool {
    0 < b <= INFINITY_BITS
}

/// `a < b` for two values that are both positive.
pub open spec fn positive_lt(a: u32, b: u32) -> bool {
    is_positive_value(a) && is_positive_value(b) && a < b
}

/// A spectrum magnitude that can be handed on: finite and not negative.
pub open spec fn magnitude_ok(b: u32) -> bool {
    b < INFINITY_BITS
}

/// Whether `b` is neither an infinity nor a NaN.
pub fn is_finite(b: u32) -> (r: bool)
    ensures
        r == is_finite_value(b),
{
    (b / 0x80_0000) % 0x100 != 0xFF
}

/// A finite value clamped to `[0, 1]`: negative values (and `-0`) become `+0`,
/// values above one become one, the rest are kept.
pub open spec fn unit_clamped(b: u32) -> u32 {
    if b >= 0x8000_0000 {
        ZERO_BITS
    } else if b > ONE_BITS {
        ONE_BITS
    } else {
        b
    }
}

/// `b` clamped to `[0, 1]`; `b` must be finite.
pub fn clamp_unit(b: u32) -> (r: u32)
    requires
        is_finite_value(b),
    ensures
        r == unit_clamped(b),
        unit_interval(r),
{
    if b >= 0x8000_0000 {
        ZERO_BITS
    } else if b > ONE_BITS {
        ONE_BITS
    } else {
        b
    }
}

} // verus!
