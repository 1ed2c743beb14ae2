//! The recursive path evaluator as an explicit state machine. A path starts
//! with a bounce budget; each traced segment either misses the scene, is
//! absorbed by a material, or scatters into a new segment with one bounce
//! less. The color of a finished path is its end color (black or the sky
//! gradient) multiplied by the attenuations of its scattering events.
use vstd::prelude::*;
use crate::hit::any_qualifies;

verus! {

/// What tracing one segment of a path against the scene gave.
#[derive(Clone, Copy, Debug, PartialEq, Eq, Structural)]
pub enum Bounce {
    /// Nothing in the scene was hit.
    Missed,
    /// A material was hit and swallowed the ray.
    Absorbed,
    /// A material was hit and sent out a new ray.
    Scattered,
}

/// How a finished path is colored before attenuation.
#[derive(Clone, Copy, Debug, PartialEq, Eq, Structural)]
pub enum Finish {
    Black,
    Sky,
}

/// Where a path stands: another segment is to be traced with the given
/// budget, or the path is finished.
#[derive(Clone, Copy, Debug, PartialEq, Eq, Structural)]
pub enum Step {
    Trace(i32),
    Done(Finish),
}

pub open spec fn start_spec(depth: int) -> Step {
    if depth <= 0 {
        Step::Done(Finish::Black)
    } else {
        Step::Trace(depth as i32)
    }
}

pub open spec fn advance_spec(remaining: int, event: Bounce) -> Step {
    match event {
        Bounce::Missed => Step::Done(Finish::Sky),
        Bounce::Absorbed => Step::Done(Finish::Black),
        Bounce::Scattered => start_spec(remaining - 1),
    }
}

/// The state of a path with budget `depth` after the traced segments gave
/// `events`, in order. Events after the path finished are not looked at.
pub open spec fn run(depth: int, events: Seq<Bounce>) -> Step
    decreases events.len(),
{
    match start_spec(depth) {
        Step::Done(f) => Step::Done(f),
        Step::Trace(_) => if events.len() == 0 {
            Step::Trace(depth as i32)
        } else {
            match advance_spec(depth, events[0]) {
                Step::Done(f) => Step::Done(f),
                Step::Trace(_) => run(depth - 1, events.drop_first()),
            }
        },
    }
}

/// The first state of a path with a budget of `depth` bounces: with no
/// budget left the path is black at once.
pub fn start(depth: i32) -> (s: Step)
    ensures
        s == start_spec(depth as int),
        s == run(depth as int, Seq::empty()),
{
    if depth <= 0 {
        Step::Done(Finish::Black)
    } else {
        Step::Trace(depth)
    }
}

/// The state after a segment traced with budget `remaining` gave `event`.
pub fn advance(remaining: i32, event: Bounce) -> (s: Step)
    requires
        remaining > 0,
    ensures
        s == advance_spec(remaining as int, event),
        s == run(remaining as int, seq![event]),
{
    assert(seq![event].drop_first() =~= Seq::<Bounce>::empty());
    match event {
        Bounce::Missed => Step::Done(Finish::Sky),
        Bounce::Absorbed => Step::Done(Finish::Black),
        Bounce::Scattered => start(remaining - 1),
    }
}

/// A path whose budget is used up is black, whatever the scene would give.
pub proof fn lemma_no_budget_is_black(depth: int, events: Seq<Bounce>)
    requires
        depth <= 0,
    ensures
        run(depth, events) == Step::Done(Finish::Black),
{
}

/// With a budget of one bounce, any hit ends the path black: a scattered
/// ray arrives with no budget left.
pub proof fn lemma_single_bounce_hit_is_black(events: Seq<Bounce>)
    requires
        events.len() > 0,
        events[0] != Bounce::Missed,
    ensures
        run(1, events) == Step::Done(Finish::Black),
{
    lemma_no_budget_is_black(0, events.drop_first());
}

/// In a scene without primitives nothing qualifies as a hit, so a path with
/// any budget left ends with the sky at its first segment.
pub proof fn lemma_empty_scene_is_sky(depth: int, limit: u64, rest: Seq<Bounce>)
    requires
        depth > 0,
    ensures
        !any_qualifies(Seq::empty(), limit),
        run(depth, seq![Bounce::Missed] + rest) == Step::Done(Finish::Sky),
{
    assert((seq![Bounce::Missed] + rest)[0] == Bounce::Missed);
}

/// A path never traces more segments than its budget: after `depth` events
/// it has finished.
pub proof fn lemma_budget_bounds_path(depth: int, events: Seq<Bounce>)
    requires
        events.len() >= depth,
    ensures
        run(depth, events) is Done,
    decreases events.len(),
{
    if depth > 0 {
        lemma_budget_bounds_path(depth - 1, events.drop_first());
    }
}

/// A path ends with the sky only when a run of scattering events, shorter
/// than the budget, is followed by a miss.
pub proof fn lemma_sky_after_scatters(depth: int, events: Seq<Bounce>)
    requires
        run(depth, events) == Step::Done(Finish::Sky),
    ensures
        exists|k: int|
            0 <= k < depth && k < events.len() && events[k] == Bounce::Missed && forall|j: int|
                0 <= j < k ==> events[j] == Bounce::Scattered,
    decreases events.len(),
{
    if events[0] == Bounce::Missed {
        assert(0 < depth && 0 < events.len() && events[0] == Bounce::Missed);
    } else {
        let rest = events.drop_first();
        lemma_sky_after_scatters(depth - 1, rest);
        let k = choose|k: int|
            0 <= k < depth - 1 && k < rest.len() && rest[k] == Bounce::Missed && forall|j: int|
                0 <= j < k ==> rest[j] == Bounce::Scattered;
        assert(forall|j: int| 0 <= j < k + 1 ==> events[j] == Bounce::Scattered) by {
            assert forall|j: int| 0 <= j < k + 1 implies events[j] == Bounce::Scattered by {
                if j > 0 {
                    assert(events[j] == rest[j - 1]);
                }
            }
        }
        assert(events[k + 1] == Bounce::Missed);
    }
}

} // verus!
