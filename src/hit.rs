//! Which intersection counts: the nearer valid root of one sphere, and the
//! closest valid hit among all primitives of a scene.
use vstd::prelude::*;
use crate::interval::Interval;
use crate::order::{at_most, le_spec, less_than, lt_spec, nan_spec, neg_spec, ordinal, ZERO_BITS};

verus! {

/// The nearer root when it lies strictly inside the range, else the farther
/// root when it does, else no hit.
pub open spec fn root_spec(range: Interval, near: u64, far: u64) -> Option<u64> {
    if range.surrounds_spec(near) {
        Some(near)
    } else if range.surrounds_spec(far) {
        Some(far)
    } else {
        None
    }
}

/// Chooses the ray parameter of a sphere hit from the two roots of the
/// ray/sphere equation, nearer first.
pub fn pick_root(range: &Interval, near: u64, far: u64) -> (r: Option<u64>)
    ensures
        r == root_spec(*range, near, far),
{
    if range.surrounds(near) {
        Some(near)
    } else if range.surrounds(far) {
        Some(far)
    } else {
        None
    }
}

/// A chosen root lies strictly inside the range, so it never falls past the
/// range's far bound when the scene compares hits.
pub proof fn lemma_root_within(range: Interval, near: u64, far: u64)
    requires
        root_spec(range, near, far) is Some,
    ensures
        range.surrounds_spec(root_spec(range, near, far)->0),
        le_spec(root_spec(range, near, far)->0, range.max),
{
}

/// Whether a ray meets a surface from outside: `dot`, the dot product of
/// the ray direction with the outward normal, is negative. Otherwise the
/// normal is flipped to face the ray.
pub fn faces_front(dot: u64) -> (r: bool)
    ensures
        r == lt_spec(dot, ZERO_BITS),
{
    less_than(dot, ZERO_BITS)
}

/// The normal oriented by `faces_front` never points along the ray: its dot
/// product with the ray direction, the outward one's or its negation, is at
/// most zero.
pub proof fn lemma_oriented_normal_opposes_ray(dot: u64)
    requires
        !nan_spec(dot),
    ensures
        le_spec(
            if lt_spec(dot, ZERO_BITS) {
                dot
            } else {
                neg_spec(dot)
            },
            ZERO_BITS,
        ),
{
}

/// Primitive `j` hit at a parameter no greater than `limit`.
pub open spec fn qualifies(params: Seq<Option<u64>>, limit: u64, j: int) -> bool {
    0 <= j < params.len() && params[j] is Some && le_spec(params[j]->0, limit)
}

/// `k` is the closest qualifying hit, and the last one in scan order among
/// those equally close.
pub open spec fn is_closest(params: Seq<Option<u64>>, limit: u64, k: int) -> bool {
    &&& qualifies(params, limit, k)
    &&& forall|j: int| #[trigger]
        qualifies(params, limit, j) ==> ordinal(params[k]->0) <= ordinal(params[j]->0)
    &&& forall|j: int| k < j && #[trigger] qualifies(params, limit, j) ==> ordinal(params[k]->0)
        < ordinal(params[j]->0)
}

pub open spec fn any_qualifies(params: Seq<Option<u64>>, limit: u64) -> bool {
    exists|j: int| qualifies(params, limit, j)
}

/// Scans the primitives' hit parameters (`None` for a miss) in order and
/// returns the index of the closest hit at or below `limit`. A hit that ties
/// the closest one so far replaces it, so the later primitive wins a tie.
pub fn closest_hit(params: &Vec<Option<u64>>, limit: u64) -> (r: Option<usize>)
    ensures
        r is None <==> !any_qualifies(params@, limit),
        r matches Some(k) ==> is_closest(params@, limit, k as int),
{
    let mut best: Option<usize> = None;
    let mut closest: u64 = limit;
    let mut i: usize = 0;
    while i < params.len()
        invariant
            i <= params.len(),
            best is None ==> closest == limit,
            best is None ==> forall|j: int| 0 <= j < i ==> !qualifies(params@, limit, j),
            best matches Some(k) ==> {
                &&& k < i
                &&& params@[k as int] == Some(closest)
                &&& qualifies(params@, limit, k as int)
                &&& forall|j: int|
                    0 <= j < i && #[trigger] qualifies(params@, limit, j) ==> ordinal(closest)
                        <= ordinal(params@[j]->0)
                &&& forall|j: int|
                    k < j < i && #[trigger] qualifies(params@, limit, j) ==> ordinal(closest)
                        < ordinal(params@[j]->0)
            },
        decreases params.len() - i,
    {
        if let Some(t) = params[i] {
            if at_most(t, closest) {
                best = Some(i);
                closest = t;
            }
        }
        i = i + 1;
    }
    best
}

} // verus!
