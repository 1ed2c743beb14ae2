//! Ranges of real numbers, bounding the valid ray parameters and clamping
//! color channels. Bounds and values are double bit patterns (see `order`).
use vstd::prelude::*;
use crate::order::{at_most, le_spec, less_than, lt_spec, INFINITY_BITS, NEG_INFINITY_BITS};

verus! {

/// The range from `min` to `max`. `min <= max` is expected of callers but
/// not enforced: an inverted range contains nothing.
#[derive(Clone, Copy, Debug, PartialEq, Eq, Structural)]
pub struct Interval {
    pub min: u64,
    pub max: u64,
}

impl Interval {
    pub open spec fn contains_spec(self, x: u64) -> bool {
        le_spec(self.min, x) && le_spec(x, self.max)
    }

    pub open spec fn surrounds_spec(self, x: u64) -> bool {
        lt_spec(self.min, x) && lt_spec(x, self.max)
    }

    /// The value kept as it is inside the range; below `min` it becomes
    /// `min`, above `max` it becomes `max`. A NaN compares false both ways
    /// and is kept.
    pub open spec fn clamp_spec(self, x: u64) -> u64 {
        if lt_spec(x, self.min) {
            self.min
        } else if lt_spec(self.max, x) {
            self.max
        } else {
            x
        }
    }

    pub fn new(min: u64, max: u64) -> (r: Interval)
        ensures
            r.min == min,
            r.max == max,
    {
        Interval { min, max }
    }

    /// Inclusive membership.
    pub fn contains(&self, x: u64) -> (r: bool)
        ensures
            r == self.contains_spec(x),
    {
        at_most(self.min, x) && at_most(x, self.max)
    }

    /// Exclusive membership: a value at either bound is rejected.
    pub fn surrounds(&self, x: u64) -> (r: bool)
        ensures
            r == self.surrounds_spec(x),
    {
        less_than(self.min, x) && less_than(x, self.max)
    }

    pub fn clamp(&self, x: u64) -> (r: u64)
        ensures
            r == self.clamp_spec(x),
    {
        if less_than(x, self.min) {
            self.min
        } else if less_than(self.max, x) {
            self.max
        } else {
            x
        }
    }
}

impl Default for Interval {
    /// The unbounded range, from negative to positive infinity.
    fn default() -> (r: Interval)
        ensures
            r.min == NEG_INFINITY_BITS,
            r.max == INFINITY_BITS,
    {
        Interval { min: NEG_INFINITY_BITS, max: INFINITY_BITS }
    }
}

/// A clamped value never leaves a well-ordered range.
pub proof fn lemma_clamp_within(iv: Interval, x: u64)
    requires
        le_spec(iv.min, iv.max),
        !crate::order::nan_spec(x),
    ensures
        iv.contains_spec(iv.clamp_spec(x)),
{
}

} // verus!
