use raytracer::path::{advance, start, Bounce, Finish, Step};

#[test]
fn zero_depth_is_black() {
    assert_eq!(start(0), Step::Done(Finish::Black));
    assert_eq!(start(-3), Step::Done(Finish::Black));
}

#[test]
fn positive_depth_traces() {
    assert_eq!(start(50), Step::Trace(50));
}

#[test]
fn depth_one_hit_ends_black() {
    assert_eq!(start(1), Step::Trace(1));
    assert_eq!(advance(1, Bounce::Scattered), Step::Done(Finish::Black));
    assert_eq!(advance(1, Bounce::Absorbed), Step::Done(Finish::Black));
}

#[test]
fn miss_ends_with_sky() {
    assert_eq!(advance(1, Bounce::Missed), Step::Done(Finish::Sky));
    assert_eq!(advance(7, Bounce::Missed), Step::Done(Finish::Sky));
}

#[test]
fn scatter_spends_one_bounce() {
    assert_eq!(advance(5, Bounce::Scattered), Step::Trace(4));
}

#[test]
fn path_never_exceeds_budget() {
    let mut step = start(4);
    let mut traced: i32 = 0;
    while let Step::Trace(rem) = step {
        traced += 1;
        step = advance(rem, Bounce::Scattered);
    }
    assert_eq!(traced, 4);
    assert_eq!(step, Step::Done(Finish::Black));
}

#[test]
fn empty_scene_path_ends_with_sky() {
    assert_eq!(raytracer::hit::closest_hit(&Vec::new(), f64::INFINITY.to_bits()), None);
    match start(50) {
        Step::Trace(rem) => assert_eq!(advance(rem, Bounce::Missed), Step::Done(Finish::Sky)),
        other => panic!("unexpected {:?}", other),
    }
}
