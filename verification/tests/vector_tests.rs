//! Vector math on exactly representable values.

use raytracer::fixed::Fx;
use raytracer::vector::Vector3;

fn v(x: i64, y: i64, z: i64) -> Vector3 {
    Vector3::new(Fx::from_int(x), Fx::from_int(y), Fx::from_int(z))
}

#[test]
fn cross() {
    let a = v(1, 1, 1);
    let b = v(1, 0, 1);
    let cross = a.cross(&b);
    assert_eq!(cross, v(1, 0, -1));
}

#[test]
fn dot() {
    let a = v(1, 1, 1);
    let b = v(1, 0, 1);
    let dot = a.dot(&b);
    assert_eq!(dot, Fx::from_int(2));
}

#[test]
fn reflect() {
    let a = v(1, 1, 1);
    let b = v(1, 0, 1);
    let reflect = a.reflect(&b);
    assert_eq!(reflect, v(-3, 1, -3));
}

#[test]
fn length() {
    // A Pythagorean quadruple is exact in fixed point.
    assert_eq!(v(2, 3, 6).length(), Fx::from_int(7));
    // An irrational length truncates to the fixed-point floor.
    assert_eq!(v(1, 1, 1).length(), Fx::from_raw(1_732_050));
}

#[test]
fn normalized() {
    let n = v(0, 3, 4).normalized();
    assert_eq!(n.x, Fx::from_raw(0));
    assert_eq!(n.y, Fx::from_raw(600_000));
    assert_eq!(n.z, Fx::from_raw(800_000));
    // The exact unit result has exactly unit length.
    assert_eq!(n.length(), Fx::from_int(1));
}

#[test]
fn normalized_irrational_vector_has_unit_length_within_tolerance() {
    // (1, 1, 1) has an irrational length; its normalization comes out
    // one millionth short of exactly 1.0, within the proven tolerance.
    let n = v(1, 1, 1).normalized();
    assert_eq!(n.length(), Fx::from_raw(999_999));
}

#[test]
fn normalized_zero_vector_is_guarded() {
    let z = Vector3::zero();
    assert_eq!(z.normalized(), Vector3::zero());
}

#[test]
fn refract() {
    // Oblique incidence with ratio 1: the exact fixed-point values.
    let a = v(0, 1, 0);
    let b = v(-1, -1, 0).normalized();
    assert_eq!(b.x, Fx::from_raw(-707_107));
    assert_eq!(b.y, Fx::from_raw(-707_107));
    let r = a.refract(b, Fx::from_int(1));
    assert_eq!(r.x, Fx::from_raw(550_501));
    assert_eq!(r.y, Fx::from_raw(1_550_501));
    assert_eq!(r.z, Fx::from_raw(0));
}

#[test]
fn refract_straight_on() {
    // Straight-on refraction with ratio 1 keeps the direction, up to
    // the fixed-point square root of the discriminant.
    let a = v(0, 1, 0);
    let b = v(0, -1, 0);
    let r = a.refract(b, Fx::from_int(1));
    assert_eq!(r.x, Fx::from_raw(0));
    assert_eq!(r.y, Fx::from_raw(1_732_050));
    assert_eq!(r.z, Fx::from_raw(0));
}

#[test]
fn reflect_along_normal_flips_sign() {
    // A vector parallel to an axis-aligned unit normal reflects to its
    // own negation.
    let n = v(0, 0, 1);
    assert_eq!(n.reflect(&n), v(0, 0, -1));
    assert_eq!(n.neg().reflect(&n), v(0, 0, 1));
}
