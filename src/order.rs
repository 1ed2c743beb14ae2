//! Real numbers are handed to this library as the 64-bit patterns of IEEE 754
//! doubles. For every pattern that is not a NaN, the numeric order of the
//! doubles is the order of their sign-magnitude readings; both zeros read as 0.
//! Every comparison involving a NaN is false.
use vstd::prelude::*;

verus! {

/// The sign bit of a pattern.
pub const SIGN_BIT: u64 = 0x8000_0000_0000_0000;

/// The pattern of positive infinity; every larger magnitude is a NaN.
pub const INFINITY_BITS: u64 = 0x7FF0_0000_0000_0000;

/// The pattern of negative infinity.
pub const NEG_INFINITY_BITS: u64 = 0xFFF0_0000_0000_0000;

/// The pattern of positive zero.
pub const ZERO_BITS: u64 = 0;

pub open spec fn is_negative_pattern(b: u64) -> bool {
    b >= SIGN_BIT
}

/// Exponent and fraction fields together, read as an unsigned integer.
pub open spec fn magnitude(b: u64) -> int {
    if is_negative_pattern(b) {
        b - SIGN_BIT
    } else {
        b as int
    }
}

pub open spec fn nan_spec(b: u64) -> bool {
    magnitude(b) > INFINITY_BITS
}

/// The signed reading of a pattern: its position in the order of doubles.
pub open spec fn ordinal(b: u64) -> int {
    if is_negative_pattern(b) {
        -magnitude(b)
    } else {
        magnitude(b)
    }
}

pub open spec fn lt_spec(a: u64, b: u64) -> bool {
    !nan_spec(a) && !nan_spec(b) && ordinal(a) < ordinal(b)
}

pub open spec fn le_spec(a: u64, b: u64) -> bool {
    !nan_spec(a) && !nan_spec(b) && ordinal(a) <= ordinal(b)
}

/// The absolute value: the pattern with its sign bit cleared.
pub open spec fn abs_spec(b: u64) -> u64 {
    if b >= SIGN_BIT {
        (b - SIGN_BIT) as u64
    } else {
        b
    }
}

/// Negation: the pattern with its sign bit flipped.
pub open spec fn neg_spec(b: u64) -> u64 {
    if b >= SIGN_BIT {
        (b - SIGN_BIT) as u64
    } else {
        (b + SIGN_BIT) as u64
    }
}

/// Absolute value, as the sign-clearing operation of doubles.
pub fn abs_bits(b: u64) -> (r: u64)
    ensures
        r == abs_spec(b),
{
    if b >= SIGN_BIT {
        b - SIGN_BIT
    } else {
        b
    }
}

/// Whether the pattern is a NaN.
pub fn is_nan(b: u64) -> (r: bool)
    ensures
        r == nan_spec(b),
{
    abs_bits(b) > INFINITY_BITS
}

/// The strict order `<` of doubles.
pub fn less_than(a: u64, b: u64) -> (r: bool)
    ensures
        r == lt_spec(a, b),
{
    if is_nan(a) || is_nan(b) {
        return false;
    }
    let a_neg = a >= SIGN_BIT;
    let b_neg = b >= SIGN_BIT;
    if a_neg && b_neg {
        b - SIGN_BIT < a - SIGN_BIT
    } else if a_neg {
        !(a == SIGN_BIT && b == ZERO_BITS)
    } else if b_neg {
        false
    } else {
        a < b
    }
}

/// The order `<=` of doubles.
pub fn at_most(a: u64, b: u64) -> (r: bool)
    ensures
        r == le_spec(a, b),
{
    if is_nan(a) || is_nan(b) {
        return false;
    }
    !less_than(b, a)
}

} // verus!
