//! The fixed-point scalar: exact values, rounding, and saturation.

use raytracer::fixed::{Fx, FX_MAX_RAW, FX_ONE};

#[test]
fn mul_rescales() {
    let a = Fx::from_raw(1_500_000);
    let b = Fx::from_int(2);
    assert_eq!(a.mul(b), Fx::from_int(3));
    // Truncation is toward zero on both signs.
    let t = Fx::from_raw(333_333);
    assert_eq!(t.mul(t), Fx::from_raw(111_110));
    assert_eq!(t.neg().mul(t), Fx::from_raw(-111_110));
}

#[test]
fn div_rescales_and_is_total() {
    assert_eq!(Fx::from_int(1).div(Fx::from_int(3)), Fx::from_raw(333_333));
    assert_eq!(Fx::from_int(-1).div(Fx::from_int(3)), Fx::from_raw(-333_333));
    // A zero divisor yields zero instead of faulting.
    assert_eq!(Fx::from_int(7).div(Fx::zero()), Fx::zero());
}

#[test]
fn sqrt_values() {
    assert_eq!(Fx::from_raw(2_250_000).sqrt(), Fx::from_raw(1_500_000));
    assert_eq!(Fx::from_int(2).sqrt(), Fx::from_raw(1_414_213));
    assert_eq!(Fx::from_int(0).sqrt(), Fx::zero());
    // Negative inputs are guarded to zero.
    assert_eq!(Fx::from_int(-4).sqrt(), Fx::zero());
}

#[test]
fn powi_values() {
    let half_neg = Fx::from_raw(-500_000);
    assert_eq!(half_neg.powi(0), Fx::one());
    assert_eq!(half_neg.powi(2), Fx::from_raw(250_000));
    assert_eq!(half_neg.powi(3), Fx::from_raw(-125_000));
}

#[test]
fn saturation() {
    let top = Fx::from_raw(FX_MAX_RAW);
    assert_eq!(top.add(Fx::one()), top);
    assert_eq!(top.neg(), Fx::from_raw(-FX_MAX_RAW));
    let big = Fx::from_int(1 << 40);
    assert_eq!(big.mul(big), top);
    assert_eq!(Fx::from_raw(i64::MIN).neg(), top);
}

#[test]
fn rounding_and_magnitude() {
    assert_eq!(Fx::from_raw(1_499_999).round_int(), 1);
    assert_eq!(Fx::from_raw(1_500_000).round_int(), 2);
    assert_eq!(Fx::from_raw(-1_500_000).round_int(), -2);
    assert_eq!(Fx::from_raw(-123).abs(), Fx::from_raw(123));
}

#[test]
fn comparisons_and_clamp() {
    assert!(Fx::from_int(1).lt(Fx::from_int(2)));
    assert!(Fx::from_int(2).ge(Fx::from_int(2)));
    assert_eq!(Fx::from_raw(2 * FX_ONE).clamp01(), Fx::one());
    assert_eq!(Fx::from_raw(-5).clamp01(), Fx::zero());
    assert_eq!(Fx::from_int(3).max(Fx::from_int(7)), Fx::from_int(7));
    assert_eq!(Fx::from_int(3).min(Fx::from_int(7)), Fx::from_int(3));
}
