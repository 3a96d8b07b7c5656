//! The primitive intersection tests and normals.

use rusty_tracer::fixed::SCALE;
use rusty_tracer::material::Material;
use rusty_tracer::color::Color;
use rusty_tracer::ray::Ray;
use rusty_tracer::shapes::{Aabb, NAabb, Plane, Shape, Sphere, Triangle};
use rusty_tracer::transformations::Rotation;
use rusty_tracer::vector::Vec3;

fn plain_material() -> Material {
    Material {
        color: Color::white(),
        diffuse: SCALE,
        specular: 0,
        specular_exponent: 1,
        reflectiveness: 0,
        opacity: SCALE,
    }
}

#[test]
fn sphere_entry_distance_is_d_minus_r() {
    // Radius 2 at the origin, ray aimed inward from distance 5: entry at 3.
    let s = Sphere { position: Vec3::zero(), radius: 2 * SCALE, material: plain_material() };
    let ray = Ray { origin: Vec3::new(0, 0, 5 * SCALE), direction: Vec3::new(0, 0, -SCALE) };
    assert_eq!(s.intersect(ray), Some(3 * SCALE));
}

#[test]
fn sphere_inside_returns_far_boundary() {
    let s = Sphere { position: Vec3::zero(), radius: 2 * SCALE, material: plain_material() };
    // From the center: the far boundary is one radius away.
    let from_center = Ray { origin: Vec3::zero(), direction: Vec3::new(0, 0, SCALE) };
    assert_eq!(s.intersect(from_center), Some(2 * SCALE));
    // From inside, off center: never the negative near root.
    let inside = Ray { origin: Vec3::new(0, 0, SCALE), direction: Vec3::new(0, 0, -SCALE) };
    assert_eq!(s.intersect(inside), Some(3 * SCALE));
}

#[test]
fn sphere_behind_misses() {
    let s = Sphere {
        position: Vec3::new(0, 0, -10 * SCALE),
        radius: 2 * SCALE,
        material: plain_material(),
    };
    let away = Ray { origin: Vec3::zero(), direction: Vec3::new(0, 0, SCALE) };
    assert_eq!(s.intersect(away), None);
}

#[test]
fn sphere_normal_points_outward() {
    let s = Sphere { position: Vec3::zero(), radius: 2 * SCALE, material: plain_material() };
    assert_eq!(s.normal(Vec3::new(0, 0, 2 * SCALE)), Vec3::new(0, 0, SCALE));
}

#[test]
fn plane_hit_at_five() {
    // Normal (0,1,0) at y=0, ray from (0,5,0) directed (0,-1,0): distance 5.
    let p = Plane {
        position: Vec3::zero(),
        normal: Vec3::new(0, SCALE, 0),
        material: plain_material(),
    };
    let ray = Ray { origin: Vec3::new(0, 5 * SCALE, 0), direction: Vec3::new(0, -SCALE, 0) };
    assert_eq!(p.intersect(ray), Some(5 * SCALE));
}

#[test]
fn plane_parallel_misses() {
    let p = Plane {
        position: Vec3::zero(),
        normal: Vec3::new(0, SCALE, 0),
        material: plain_material(),
    };
    let ray = Ray { origin: Vec3::new(0, 5 * SCALE, 0), direction: Vec3::new(SCALE, 0, 0) };
    assert_eq!(p.intersect(ray), None);
}

#[test]
fn plane_normal_is_flipped() {
    let p = Plane {
        position: Vec3::zero(),
        normal: Vec3::new(0, -SCALE, 0),
        material: plain_material(),
    };
    assert_eq!(p.normal(Vec3::zero()), Vec3::new(0, SCALE, 0));
}

fn unit_box() -> Aabb {
    Aabb {
        min: Vec3::new(-SCALE, -SCALE, -SCALE),
        max: Vec3::new(SCALE, SCALE, SCALE),
        material: plain_material(),
    }
}

#[test]
fn aabb_entry_distance() {
    let b = unit_box();
    let ray = Ray { origin: Vec3::new(0, 0, 5 * SCALE), direction: Vec3::new(0, 0, -SCALE) };
    assert_eq!(b.intersect(ray), Some(4 * SCALE));
}

#[test]
fn aabb_inside_returns_far_side() {
    let b = unit_box();
    let ray = Ray { origin: Vec3::zero(), direction: Vec3::new(0, 0, -SCALE) };
    assert_eq!(b.intersect(ray), Some(SCALE));
}

#[test]
fn aabb_parallel_outside_misses() {
    let b = unit_box();
    let ray = Ray { origin: Vec3::new(0, 3 * SCALE, 5 * SCALE), direction: Vec3::new(0, 0, -SCALE) };
    assert_eq!(b.intersect(ray), None);
}

#[test]
fn aabb_normal_picks_nearest_face() {
    let b = unit_box();
    assert_eq!(b.normal(Vec3::new(SCALE, 0, 0)), Vec3::new(SCALE, 0, 0));
    assert_eq!(b.normal(Vec3::new(-SCALE, 0, 0)), Vec3::new(-SCALE, 0, 0));
    assert_eq!(b.normal(Vec3::new(0, 0, -SCALE)), Vec3::new(0, 0, -SCALE));
}

#[test]
fn rotated_box_at_zero_degrees_matches_aabb() {
    // A box rotated by zero degrees must agree with the axis-aligned box,
    // within fixed-point tolerance, over varied ray directions.
    let b = unit_box();
    let n = NAabb {
        min: b.min,
        max: b.max,
        material: plain_material(),
        rotation: Rotation::new(0, 0, 0),
    };
    let rays = [
        Ray { origin: Vec3::new(0, 0, 5 * SCALE), direction: Vec3::new(0, 0, -SCALE) },
        Ray { origin: Vec3::new(3 * SCALE, 3 * SCALE, 0), direction: Vec3::new(-SCALE, -SCALE, 0) },
        Ray { origin: Vec3::new(-4 * SCALE, 0, 0), direction: Vec3::new(SCALE, 0, 0) },
        Ray {
            origin: Vec3::new(2 * SCALE, 2 * SCALE, 2 * SCALE),
            direction: Vec3::new(-SCALE, -SCALE, -SCALE),
        },
        Ray {
            origin: Vec3::new(SCALE / 2, 4 * SCALE, 0),
            direction: Vec3::new(0, -SCALE, 0),
        },
    ];
    for ray in rays {
        let da = b.intersect(ray).expect("axis-aligned box must be hit");
        let dn = n.intersect(ray).expect("rotated box must be hit");
        assert!((da - dn).abs() <= 8, "distances differ: {} vs {}", da, dn);
        let pa = ray.origin.add(ray.direction.scale(da));
        let na = b.normal(pa);
        let nn = n.normal(pa);
        assert!(
            (na.x - nn.x).abs() <= 8 && (na.y - nn.y).abs() <= 8 && (na.z - nn.z).abs() <= 8,
            "normals differ: {:?} vs {:?}",
            na,
            nn
        );
    }
}

fn test_triangle() -> Triangle {
    Triangle {
        a: Vec3::new(-2 * SCALE, -SCALE, 0),
        b: Vec3::new(2 * SCALE, -SCALE, 0),
        c: Vec3::new(0, 2 * SCALE, 0),
        material: plain_material(),
    }
}

#[test]
fn triangle_hit_distance() {
    let t = test_triangle();
    let ray = Ray { origin: Vec3::new(0, 0, 5 * SCALE), direction: Vec3::new(0, 0, -SCALE) };
    assert_eq!(t.intersect(ray), Some(5 * SCALE));
}

#[test]
fn triangle_outside_edges_misses() {
    let t = test_triangle();
    let ray = Ray {
        origin: Vec3::new(3 * SCALE, 3 * SCALE, 5 * SCALE),
        direction: Vec3::new(0, 0, -SCALE),
    };
    assert_eq!(t.intersect(ray), None);
}

#[test]
fn triangle_swapping_winding_flips_normal_not_distance() {
    let t = test_triangle();
    let swapped = Triangle { a: t.a, b: t.c, c: t.b, material: t.material };
    let ray = Ray { origin: Vec3::new(0, 0, 5 * SCALE), direction: Vec3::new(0, 0, -SCALE) };
    assert_eq!(t.intersect(ray), Some(5 * SCALE));
    assert_eq!(swapped.intersect(ray), Some(5 * SCALE));
    let p = Vec3::zero();
    assert_eq!(swapped.normal(p), t.normal(p).neg());
}

#[test]
fn shape_dispatch_matches_each_primitive() {
    let s = Sphere { position: Vec3::zero(), radius: 2 * SCALE, material: plain_material() };
    let ray = Ray { origin: Vec3::new(0, 0, 5 * SCALE), direction: Vec3::new(0, 0, -SCALE) };
    let shape = Shape::Sphere(s);
    assert_eq!(shape.intersect(ray), s.intersect(ray));
    assert_eq!(shape.material(), s.material());
    assert_eq!(shape.normal(Vec3::new(0, 0, 2 * SCALE)), s.normal(Vec3::new(0, 0, 2 * SCALE)));
}

#[test]
fn degenerate_shapes_fail_check() {
    let zero_radius = Shape::Sphere(Sphere {
        position: Vec3::zero(),
        radius: 0,
        material: plain_material(),
    });
    assert!(!zero_radius.check());
    let collapsed = Shape::Triangle(Triangle {
        a: Vec3::zero(),
        b: Vec3::new(SCALE, 0, 0),
        c: Vec3::new(2 * SCALE, 0, 0),
        material: plain_material(),
    });
    assert!(!collapsed.check());
    let good = Shape::Sphere(Sphere {
        position: Vec3::zero(),
        radius: SCALE,
        material: plain_material(),
    });
    assert!(good.check());
    let bad_material = Shape::Sphere(Sphere {
        position: Vec3::zero(),
        radius: SCALE,
        material: Material { reflectiveness: 2 * SCALE, ..plain_material() },
    });
    assert!(!bad_material.check());
}
