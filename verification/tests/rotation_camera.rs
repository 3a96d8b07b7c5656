//! Rotations and the camera.

use rusty_tracer::camera::Camera;
use rusty_tracer::fixed::SCALE;
use rusty_tracer::ray::Ray;
use rusty_tracer::transformations::{Rotation, Transformation};
use rusty_tracer::vector::Vec3;

#[test]
fn test_vecs() {
    let v0 = Vec3::new(0, SCALE, 0);
    let rot = Rotation::new(90 * SCALE, 0, 0);
    let v1 = rot.apply(&v0);
    let v2 = rot.invert(&v1);
    println!("{:?} {:?} {:?}", v0, v1, v2);
}

#[test]
fn quarter_turn_round_trip_is_exact() {
    // The trigonometry is exact at cardinal angles, so a quarter turn
    // about z maps the y axis onto the x axis and back without loss.
    let v0 = Vec3::new(0, SCALE, 0);
    let rot = Rotation::new(90 * SCALE, 0, 0);
    let v1 = rot.apply(&v0);
    assert_eq!(v1, Vec3::new(SCALE, 0, 0));
    let v2 = rot.invert(&v1);
    assert_eq!(v2, v0);
}

#[test]
fn zero_rotation_is_identity() {
    let rot = Rotation::new(0, 0, 0);
    let samples = [
        Vec3::new(SCALE, 2 * SCALE, -3 * SCALE),
        Vec3::new(-7 * SCALE, 0, 5),
        Vec3::zero(),
    ];
    for v in samples {
        assert_eq!(rot.transform(&v), v);
        assert_eq!(rot.inv_transform(&v), v);
    }
}

#[test]
fn transform_and_inv_transform_are_mutual_inverses_at_cardinals() {
    let rot = Rotation::new(0, 90 * SCALE, 0);
    let v = Vec3::new(SCALE, 0, 0);
    let w = rot.transform(&v);
    assert_eq!(rot.inv_transform(&w), v);
}

#[test]
fn camera_center_ray_looks_forward() {
    let origin = Vec3::new(SCALE, 2 * SCALE, 3 * SCALE);
    let cam = Camera::new(origin, Vec3::new(0, 0, -SCALE), 90 * SCALE, SCALE);
    let ray = cam.get_ray(SCALE / 2, SCALE / 2);
    assert_eq!(ray, Ray { origin, direction: Vec3::new(0, 0, -SCALE) });
}

#[test]
fn camera_corner_rays_spread_symmetrically() {
    let cam = Camera::new(Vec3::zero(), Vec3::new(0, 0, -SCALE), 90 * SCALE, SCALE);
    let left = cam.get_ray(0, SCALE / 2);
    let right_edge = cam.get_ray(SCALE - 1, SCALE / 2);
    assert!(left.direction.x < 0);
    assert!(right_edge.direction.x > 0);
    assert_eq!(left.direction.y, 0);
    let top = cam.get_ray(SCALE / 2, 0);
    assert!(top.direction.y > 0);
}
