use raytracer::order::abs_bits;
use raytracer::scatter::{cannot_refract, metal_scatters, near_zero, reflects_by_chance};

fn b(x: f64) -> u64 {
    x.to_bits()
}

#[test]
fn abs_clears_the_sign() {
    assert_eq!(f64::from_bits(abs_bits(b(-2.5))), 2.5);
    assert_eq!(f64::from_bits(abs_bits(b(2.5))), 2.5);
    assert_eq!(abs_bits(b(-0.0)), b(0.0));
}

#[test]
fn tiny_vectors_are_near_zero() {
    assert!(near_zero(b(0.0), b(-0.0), b(1e-9)));
    assert!(near_zero(b(-9.9e-9), b(5e-9), b(0.0)));
}

#[test]
fn threshold_itself_is_not_near_zero() {
    assert!(!near_zero(b(1e-8), b(0.0), b(0.0)));
    assert!(!near_zero(b(0.0), b(-1e-8), b(0.0)));
    assert!(!near_zero(b(0.0), b(0.0), b(0.5)));
    assert!(!near_zero(b(f64::NAN), b(0.0), b(0.0)));
}

#[test]
fn near_zero_matches_float_test() {
    let values: [f64; 8] = [0.0, 1e-9, -1e-9, 1e-8, -1e-8, 2e-8, 1.0, -3.0];
    for &x in &values {
        for &y in &values {
            let expected = x.abs() < 1e-8 && y.abs() < 1e-8;
            assert_eq!(near_zero(b(x), b(y), b(0.0)), expected);
        }
    }
}

#[test]
fn metal_absorbs_rays_into_the_surface() {
    assert!(metal_scatters(b(0.3)));
    assert!(!metal_scatters(b(-0.3)));
    assert!(!metal_scatters(b(0.0)));
    assert!(!metal_scatters(b(-0.0)));
}

#[test]
fn total_internal_reflection_above_one() {
    assert!(cannot_refract(b(1.2)));
    assert!(!cannot_refract(b(1.0)));
    assert!(!cannot_refract(b(0.6)));
}

#[test]
fn schlick_draw_decides_reflection() {
    assert!(reflects_by_chance(b(0.04), b(0.01)));
    assert!(!reflects_by_chance(b(0.04), b(0.5)));
    assert!(!reflects_by_chance(b(0.04), b(0.04)));
    assert!(!reflects_by_chance(b(0.0), b(0.0)));
}
