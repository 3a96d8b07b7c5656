//! Scalar fixed-point arithmetic and trigonometry.

use rusty_tracer::fixed::{fadd, fdiv, fmul, fneg, fpow, fsqrt, EPSILON, FX_MAX, SCALE};
use rusty_tracer::trig::{cos_fx, sin_fx};

#[test]
fn fixed_mul_exact() {
    // 2 * 3 = 6, 1.5 * 2 = 3
    assert_eq!(fmul(2 * SCALE, 3 * SCALE), 6 * SCALE);
    assert_eq!(fmul(3 * SCALE / 2, 2 * SCALE), 3 * SCALE);
    // truncation toward zero on both signs
    assert_eq!(fmul(1, 1), 0);
    assert_eq!(fmul(-1, 1), 0);
}

#[test]
fn fixed_div_exact() {
    assert_eq!(fdiv(6 * SCALE, 3 * SCALE), 2 * SCALE);
    assert_eq!(fdiv(-5 * SCALE, -SCALE), 5 * SCALE);
    assert_eq!(fdiv(5 * SCALE, -SCALE), -5 * SCALE);
    assert_eq!(fdiv(SCALE, 2 * SCALE), SCALE / 2);
}

#[test]
fn fixed_sqrt_exact_squares() {
    assert_eq!(fsqrt(4 * SCALE), 2 * SCALE);
    assert_eq!(fsqrt(9 * SCALE), 3 * SCALE);
    assert_eq!(fsqrt(0), 0);
    assert_eq!(fsqrt(SCALE), SCALE);
}

#[test]
fn fixed_saturates_symmetrically() {
    assert_eq!(fadd(FX_MAX, FX_MAX), FX_MAX);
    assert_eq!(fadd(-FX_MAX, -FX_MAX), -FX_MAX);
    assert_eq!(fneg(i64::MIN), FX_MAX);
    assert_eq!(fneg(FX_MAX), -FX_MAX);
}

#[test]
fn fixed_pow() {
    assert_eq!(fpow(SCALE / 2, 0), SCALE);
    assert_eq!(fpow(SCALE / 2, 1), SCALE / 2);
    assert_eq!(fpow(SCALE / 2, 2), SCALE / 4);
    assert_eq!(fpow(SCALE, 100), SCALE);
}

#[test]
fn epsilon_is_small_and_positive() {
    assert!(EPSILON > 0);
    assert!(EPSILON < SCALE / 1000);
}

#[test]
fn trig_cardinal_angles_exact() {
    assert_eq!(sin_fx(0), 0);
    assert_eq!(cos_fx(0), SCALE);
    assert_eq!(sin_fx(90 * SCALE), SCALE);
    assert_eq!(cos_fx(180 * SCALE), -SCALE);
    assert_eq!(sin_fx(180 * SCALE), 0);
    assert_eq!(cos_fx(360 * SCALE), SCALE);
}

#[test]
fn trig_known_values_close() {
    // sin 30 = 1/2, cos 60 = 1/2, sin 45 = cos 45
    assert!((sin_fx(30 * SCALE) - SCALE / 2).abs() <= 8);
    assert!((cos_fx(60 * SCALE) - SCALE / 2).abs() <= 8);
    assert!((sin_fx(45 * SCALE) - cos_fx(45 * SCALE)).abs() <= 8);
}

#[test]
fn trig_is_odd_and_even() {
    assert_eq!(sin_fx(-30 * SCALE), -sin_fx(30 * SCALE));
    assert_eq!(cos_fx(-30 * SCALE), cos_fx(30 * SCALE));
}
