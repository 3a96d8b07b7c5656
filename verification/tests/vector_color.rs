//! Vector and color arithmetic.

use rusty_tracer::color::Color;
use rusty_tracer::fixed::SCALE;
use rusty_tracer::vector::Vec3;

#[test]
fn vector_dot_cross_exact() {
    let x = Vec3::new(SCALE, 0, 0);
    let y = Vec3::new(0, SCALE, 0);
    let z = Vec3::new(0, 0, SCALE);
    assert_eq!(x.dot(y), 0);
    assert_eq!(x.dot(x), SCALE);
    assert_eq!(x.cross(y), z);
    assert_eq!(y.cross(x), z.neg());
}

#[test]
fn vector_length_and_normalize() {
    let v = Vec3::new(3 * SCALE, 4 * SCALE, 0);
    assert_eq!(v.norm(), 25 * SCALE);
    assert_eq!(v.length(), 5 * SCALE);
    let n = v.normalize();
    assert_eq!(n, Vec3::new(3 * SCALE / 5, 4 * SCALE / 5, 0));
    assert_eq!(Vec3::zero().normalize(), Vec3::zero());
}

#[test]
fn vector_reflect_exact() {
    let d = Vec3::new(SCALE, -SCALE, 0);
    let n = Vec3::new(0, SCALE, 0);
    assert_eq!(d.reflect(n), Vec3::new(SCALE, SCALE, 0));
}

#[test]
fn vector_inv_and_slice() {
    let v = Vec3::new(2 * SCALE, -4 * SCALE, SCALE);
    assert_eq!(v.inv(), Vec3::new(SCALE / 2, -SCALE / 4, SCALE));
    let arr: [i64; 3] = [1, 2, 3];
    assert_eq!(Vec3::from_slice(&arr), Vec3::new(1, 2, 3));
}

#[test]
fn color_from_u8_exact() {
    let c = Color::from_u8(255, 0, 128);
    assert_eq!(c.r, SCALE);
    assert_eq!(c.g, 0);
    assert_eq!(c.b, 128 * SCALE / 255);
}

#[test]
fn color_blend_endpoints() {
    let a = Color::new(SCALE, 0, SCALE / 2);
    let b = Color::new(0, SCALE, SCALE / 4);
    assert_eq!(a.blend(b, 0), a);
    assert_eq!(a.blend(b, SCALE), b);
}

#[test]
fn color_mul_is_channelwise() {
    let w = Color::white();
    let c = Color::new(SCALE / 2, SCALE / 4, 0);
    assert_eq!(w.mul(c), c);
    assert_eq!(Color::black().mul(c), Color::black());
}
