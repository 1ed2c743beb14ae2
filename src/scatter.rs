//! The decisions of the scattering models, taken on quantities that the
//! caller computes in floating point and hands over as double bit patterns
//! (see `order`).
use vstd::prelude::*;
use crate::order::{abs_bits, abs_spec, less_than, lt_spec, ZERO_BITS};

verus! {

/// The pattern of 1.
pub const ONE_BITS: u64 = 0x3FF0_0000_0000_0000;

/// The pattern of the near-zero threshold 1e-8.
pub const NEAR_ZERO_BITS: u64 = 0x3E45_798E_E230_8C3A;

pub open spec fn near_zero_spec(x: u64, y: u64, z: u64) -> bool {
    lt_spec(abs_spec(x), NEAR_ZERO_BITS) && lt_spec(abs_spec(y), NEAR_ZERO_BITS) && lt_spec(
        abs_spec(z),
        NEAR_ZERO_BITS,
    )
}

/// Whether every component of a vector is below 1e-8 in magnitude; a
/// diffuse scatter direction this short falls back to the normal.
pub fn near_zero(x: u64, y: u64, z: u64) -> (r: bool)
    ensures
        r == near_zero_spec(x, y, z),
{
    less_than(abs_bits(x), NEAR_ZERO_BITS) && less_than(abs_bits(y), NEAR_ZERO_BITS) && less_than(
        abs_bits(z),
        NEAR_ZERO_BITS,
    )
}

/// A metal's fuzzed reflection scatters only when `dot`, its dot product
/// with the normal, is positive, that is when it leaves the surface;
/// otherwise the ray is absorbed.
pub fn metal_scatters(dot: u64) -> (r: bool)
    ensures
        r == lt_spec(ZERO_BITS, dot),
{
    less_than(ZERO_BITS, dot)
}

/// Whether Snell's law has no solution, so that a dielectric must reflect:
/// `bent_sine`, the index ratio times the sine of the incidence angle, is
/// above 1.
pub fn cannot_refract(bent_sine: u64) -> (r: bool)
    ensures
        r == lt_spec(ONE_BITS, bent_sine),
{
    less_than(ONE_BITS, bent_sine)
}

/// Whether a dielectric that could refract reflects instead: the uniform
/// `draw` in [0, 1) falls below the Schlick `reflectance`.
pub fn reflects_by_chance(reflectance: u64, draw: u64) -> (r: bool)
    ensures
        r == lt_spec(draw, reflectance),
{
    less_than(draw, reflectance)
}

} // verus!
