//! The geometric primitives and their intersection tests.
//!
//! The shape set is closed, so the primitives form a tagged variant type
//! with one dispatch function per operation.  Every intersection test is
//! proved equal to its spec-level mirror and proved to report only strictly
//! positive distances, so the shading engine never needs to re-check sign.
//!
//! Outward-normal convention: `normal` points away from the surface toward
//! the side the reporting convention treats as outside.  A plane's stored
//! `normal` field points away from the lit side, so the reported normal is
//! its flip; a triangle's reported normal is the negated cross product of
//! its two edge vectors, so clockwise winding is front-facing.

use vstd::prelude::*;
use crate::fixed::{
    fabs, fabs_s, fadd, fadd_s, fdiv, fdiv_s, fmax, fmax_s, fmin, fmin_s, fmul, fmul_s, fsqrt,
    fsqrt_s, fsub, fsub_s, EPSILON, FX_MAX, SCALE,
};
use crate::material::Material;
use crate::ray::Ray;
use crate::transformations::{inv_transform_s, transform_s, Rotation, Transformation};
use crate::vector::{
    cross_s, dot_s, length_s, normalize_s, vadd_s, vdiv_scale_s, vneg_s, vscale_s, vsub_s, zero_s,
    Vec3,
};

verus! {

/// A sphere: center, radius, surface.
#[derive(Clone, Copy, Debug, PartialEq, Eq, Structural)]
pub struct Sphere {
    pub position: Vec3,
    pub radius: i64,
    pub material: Material,
}

/// An infinite plane through `position` with the stored `normal`.
#[derive(Clone, Copy, Debug, PartialEq, Eq, Structural)]
pub struct Plane {
    pub position: Vec3,
    pub normal: Vec3,
    pub material: Material,
}

/// An axis-aligned box between the corners `min` and `max`.
#[derive(Clone, Copy, Debug, PartialEq, Eq, Structural)]
pub struct Aabb {
    pub min: Vec3,
    pub max: Vec3,
    pub material: Material,
}

/// An axis-aligned box together with a rotation: rays are carried into the
/// box's local frame, tested there, and the hit carried back.
#[derive(Clone, Copy, Debug, PartialEq, Eq, Structural)]
pub struct NAabb {
    pub min: Vec3,
    pub max: Vec3,
    pub material: Material,
    pub rotation: Rotation,
}

/// A triangle with vertices `a`, `b`, `c`; clockwise winding faces front.
#[derive(Clone, Copy, Debug, PartialEq, Eq, Structural)]
pub struct Triangle {
    pub a: Vec3,
    pub b: Vec3,
    pub c: Vec3,
    pub material: Material,
}

/// The closed set of primitives a scene may hold.
#[derive(Clone, Copy, Debug, PartialEq, Eq, Structural)]
pub enum Shape {
    Sphere(Sphere),
    Plane(Plane),
    Aabb(Aabb),
    NAabb(NAabb),
    Triangle(Triangle),
}

/// Sphere test by the geometric (projection) method: compare the squared
/// perpendicular distance from the center to the ray line against the
/// squared radius, then pick the nearer positive root (the far root when
/// the origin lies inside).
pub open spec fn sphere_intersect_s(s: Sphere, ray: Ray) -> Option<i64> {
    let displacement = vsub_s(s.position, ray.origin);
    let displacement_sqr = dot_s(displacement, displacement);
    let projection_len = dot_s(displacement, ray.direction);
    let a_sqr = fsub_s(displacement_sqr, fmul_s(projection_len, projection_len));
    let r_sqr = fmul_s(s.radius as int, s.radius as int);
    if a_sqr <= r_sqr {
        let half_chord = fsqrt_s(fsub_s(r_sqr, a_sqr));
        let distance = if projection_len < half_chord {
            fadd_s(projection_len, half_chord)
        } else {
            fsub_s(projection_len, half_chord)
        };
        if distance > 0 {
            Some(distance as i64)
        } else {
            None
        }
    } else {
        None
    }
}

/// Outward normal of a sphere at a surface point.
pub open spec fn sphere_normal_s(s: Sphere, point: Vec3) -> Vec3 {
    normalize_s(vsub_s(point, s.position))
}

/// Plane test: reject near-parallel rays by the shared epsilon, otherwise
/// solve for the signed distance and accept it when strictly positive.
pub open spec fn plane_intersect_s(p: Plane, ray: Ray) -> Option<i64> {
    let denom = dot_s(p.normal, ray.direction);
    if fabs_s(denom) > EPSILON {
        let v = vsub_s(p.position, ray.origin);
        let distance = fdiv_s(dot_s(v, p.normal), denom);
        if distance > 0 {
            Some(distance as i64)
        } else {
            None
        }
    } else {
        None
    }
}

/// Reported normal of a plane: the flip of the stored field, per the
/// outward-normal convention above.
pub open spec fn plane_normal_s(p: Plane) -> Vec3 {
    vneg_s(p.normal)
}

/// One slab of the box test: intersect the running parameter interval with
/// the interval in which the ray is between the two planes of one axis.  A
/// ray parallel to the axis' planes either misses outright or leaves the
/// interval unchanged.
pub open spec fn slab_s(lo: int, hi: int, o: int, d: int, tmin: int, tmax: int) -> Option<
    (i64, i64),
> {
    if d == 0 {
        if lo <= o && o <= hi {
            Some((tmin as i64, tmax as i64))
        } else {
            None
        }
    } else {
        let t0 = fdiv_s(fsub_s(lo, o), d);
        let t1 = fdiv_s(fsub_s(hi, o), d);
        let ta = fmin_s(t0, t1);
        let tb = fmax_s(t0, t1);
        Some((fmax_s(tmin, ta) as i64, fmin_s(tmax, tb) as i64))
    }
}

/// The parameter interval in which a ray is inside the box, all three axes
/// intersected.
pub open spec fn aabb_interval_s(lo: Vec3, hi: Vec3, ray: Ray) -> Option<(i64, i64)> {
    match slab_s(
        lo.x as int,
        hi.x as int,
        ray.origin.x as int,
        ray.direction.x as int,
        -FX_MAX as int,
        FX_MAX as int,
    ) {
        None => None,
        Some((a1, b1)) => match slab_s(
            lo.y as int,
            hi.y as int,
            ray.origin.y as int,
            ray.direction.y as int,
            a1 as int,
            b1 as int,
        ) {
            None => None,
            Some((a2, b2)) => slab_s(
                lo.z as int,
                hi.z as int,
                ray.origin.z as int,
                ray.direction.z as int,
                a2 as int,
                b2 as int,
            ),
        },
    }
}

/// The reported distance for a box interval: the entry distance when it is
/// positive; the exit distance when the origin lies inside the box (the
/// same far-side convention the sphere uses); no hit otherwise.
pub open spec fn slab_pick_s(tmin: int, tmax: int) -> Option<i64> {
    if tmin < tmax && tmax > 0 {
        if tmin > 0 {
            Some(tmin as i64)
        } else {
            Some(tmax as i64)
        }
    } else {
        None
    }
}

/// Box test by the slab method.
pub open spec fn aabb_intersect_s(lo: Vec3, hi: Vec3, ray: Ray) -> Option<i64> {
    match aabb_interval_s(lo, hi, ray) {
        None => None,
        Some((tmin, tmax)) => slab_pick_s(tmin as int, tmax as int),
    }
}

/// The unit scalar carrying the sign of `a`.
pub open spec fn sgn_unit_s(a: int) -> int {
    if a < 0 {
        -SCALE as int
    } else {
        SCALE as int
    }
}

/// Outward normal of a box at a surface point: the axis whose face lies
/// nearest the point, signed by which side of the center the point is on;
/// the x axis wins ties, then y.
pub open spec fn box_normal_s(lo: Vec3, hi: Vec3, hit: Vec3) -> Vec3 {
    let extent = vdiv_scale_s(vsub_s(hi, lo), 2 * SCALE as int);
    let center = vdiv_scale_s(vadd_s(lo, hi), 2 * SCALE as int);
    let local = vsub_s(hit, center);
    let dx = fabs_s(fsub_s(extent.x as int, fabs_s(local.x as int)));
    let dy = fabs_s(fsub_s(extent.y as int, fabs_s(local.y as int)));
    let dz = fabs_s(fsub_s(extent.z as int, fabs_s(local.z as int)));
    let nx = Vec3 { x: sgn_unit_s(local.x as int) as i64, y: 0, z: 0 };
    let ny = Vec3 { x: 0, y: sgn_unit_s(local.y as int) as i64, z: 0 };
    let nz = Vec3 { x: 0, y: 0, z: sgn_unit_s(local.z as int) as i64 };
    let pick_x = dx < FX_MAX as int;
    let m1 = if pick_x {
        dx
    } else {
        FX_MAX as int
    };
    let r1 = if pick_x {
        nx
    } else {
        zero_s()
    };
    let pick_y = dy < m1;
    let m2 = if pick_y {
        dy
    } else {
        m1
    };
    let r2 = if pick_y {
        ny
    } else {
        r1
    };
    if dz < m2 {
        nz
    } else {
        r2
    }
}

/// Rotated-box test: carry the ray into the local frame, run the slab test
/// there, then recompute the distance against the untransformed world ray, so
/// the reported parameter stays consistent with the untransformed ray even
/// if the transform is not perfectly length-preserving.
pub open spec fn naabb_intersect_s(n: NAabb, world_ray: Ray) -> Option<i64> {
    let local_ray = Ray {
        origin: transform_s(n.rotation, world_ray.origin),
        direction: transform_s(n.rotation, world_ray.direction),
    };
    match aabb_intersect_s(n.min, n.max, local_ray) {
        None => None,
        Some(t) => {
            let local_hit = vadd_s(local_ray.origin, vscale_s(local_ray.direction, t as int));
            let world_hit = inv_transform_s(n.rotation, local_hit);
            let dir_len = length_s(world_ray.direction);
            if dir_len == 0 {
                None
            } else {
                let distance = fdiv_s(length_s(vsub_s(world_hit, world_ray.origin)), dir_len);
                if distance > 0 {
                    Some(distance as i64)
                } else {
                    None
                }
            }
        },
    }
}

/// Outward normal of a rotated box: the local box normal at the local hit
/// point, carried back to world space.
pub open spec fn naabb_normal_s(n: NAabb, world_hit: Vec3) -> Vec3 {
    inv_transform_s(n.rotation, box_normal_s(n.min, n.max, transform_s(n.rotation, world_hit)))
}

/// Triangle test: solve against the triangle's plane, then require the hit
/// point to lie on the inner side of every edge of the cycle `ab`, `bc`,
/// `ca` — each edge's cross product with the vector to the hit point must
/// agree with the plane normal, the one consistent convention for the
/// inside of either winding.
pub open spec fn triangle_intersect_s(t: Triangle, ray: Ray) -> Option<i64> {
    let ab = vsub_s(t.b, t.a);
    let bc = vsub_s(t.c, t.b);
    let ca = vsub_s(t.a, t.c);
    let n = normalize_s(cross_s(ab, bc));
    let denom = dot_s(ray.direction, n);
    if fabs_s(denom) > EPSILON {
        let distance = fdiv_s(dot_s(vsub_s(t.a, ray.origin), n), denom);
        let p = vadd_s(ray.origin, vscale_s(ray.direction, distance));
        if dot_s(cross_s(ab, vsub_s(p, t.a)), n) > 0 && dot_s(cross_s(bc, vsub_s(p, t.b)), n) > 0
            && dot_s(cross_s(ca, vsub_s(p, t.c)), n) > 0 {
            if distance > 0 {
                Some(distance as i64)
            } else {
                None
            }
        } else {
            None
        }
    } else {
        None
    }
}

/// Reported normal of a triangle: the negated cross product of its two
/// edge vectors, normalized, so clockwise winding faces front.
pub open spec fn triangle_normal_s(t: Triangle) -> Vec3 {
    vneg_s(normalize_s(cross_s(vsub_s(t.b, t.a), vsub_s(t.c, t.a))))
}

/// The intersection test of every shape reports only strictly positive
/// distances, so the engine never needs to re-check sign.
pub proof fn lemma_shape_intersect_positive(s: Shape, ray: Ray)
    ensures
        positive_hit(shape_intersect_s(s, ray)),
{
    reveal(shape_intersect_s);
}

/// For a ray whose origin lies strictly inside a sphere, the reported
/// distance is always the far boundary of the sphere — the near root lies
/// behind the origin and is never chosen, and no non-positive distance is
/// ever reported.  The magnitude bounds keep the intermediate squares away
/// from saturation; a projection as large as the saturation range itself
/// would distort the root selection.
pub proof fn lemma_sphere_inside_far_root(s: Sphere, ray: Ray)
    requires
        ({
            let disp = vsub_s(s.position, ray.origin);
            dot_s(disp, disp) < fmul_s(s.radius as int, s.radius as int)
        }),
        fmul_s(s.radius as int, s.radius as int) <= 0x4000000000000000,
        ({
            let disp = vsub_s(s.position, ray.origin);
            -0x8000000000 < dot_s(disp, ray.direction) < 0x8000000000
        }),
    ensures
        ({
            let disp = vsub_s(s.position, ray.origin);
            let disp_sqr = dot_s(disp, disp);
            let proj = dot_s(disp, ray.direction);
            let a_sqr = fsub_s(disp_sqr, fmul_s(proj, proj));
            let r_sqr = fmul_s(s.radius as int, s.radius as int);
            let half = fsqrt_s(fsub_s(r_sqr, a_sqr));
            sphere_intersect_s(s, ray) matches Some(d) ==> d == fadd_s(proj, half)
        }),
{
    let disp = vsub_s(s.position, ray.origin);
    let disp_sqr = dot_s(disp, disp);
    let proj = dot_s(disp, ray.direction);
    let r_sqr = fmul_s(s.radius as int, s.radius as int);
    let fm = fmul_s(proj, proj);

    crate::vector::lemma_norm_nonneg(disp);
    assert(0 <= proj * proj < 0x8000000000 * 0x8000000000) by (nonlinear_arith)
        requires
            -0x8000000000 < proj < 0x8000000000,
    ;
    vstd::arithmetic::div_mod::lemma_fundamental_div_mod(proj * proj, SCALE as int);
    vstd::arithmetic::div_mod::lemma_remainder_upper(proj * proj, SCALE as int);
    vstd::arithmetic::div_mod::lemma_div_pos_is_pos(proj * proj, SCALE as int);
    let q = (proj * proj) / (SCALE as int);
    assert(SCALE * q <= proj * proj < SCALE * (q + 1));
    assert(q < 0x4000000000000000);
    assert(fm == q);

    let a_sqr = fsub_s(disp_sqr, fm);
    assert(a_sqr == disp_sqr - fm);
    let x = fsub_s(r_sqr, a_sqr);
    assert(x == r_sqr - disp_sqr + fm);
    assert(x >= fm + 1);
    assert(a_sqr <= r_sqr);

    let half = fsqrt_s(x);
    crate::fixed::lemma_isqrt_exists(x * SCALE);
    assert(half * half <= x * SCALE < (half + 1) * (half + 1));
    assert(half >= 0);

    assert(proj * proj < SCALE * (fm + 1));
    assert(SCALE * (fm + 1) <= SCALE * x) by (nonlinear_arith)
        requires
            fm + 1 <= x,
            SCALE == 65536,
    ;
    assert(SCALE * x == x * SCALE) by (nonlinear_arith);
    assert(proj * proj < (half + 1) * (half + 1));
    if proj >= half + 1 {
        assert(proj * proj >= (half + 1) * (half + 1)) by (nonlinear_arith)
            requires
                proj >= half + 1,
                half + 1 >= 0,
        ;
    }
    assert(proj <= half);
}

/// Triangle intersection is winding-consistent: swapping the vertices `b`
/// and `c` of a triangle flips its reported normal.
pub proof fn lemma_triangle_winding_normal(t: Triangle)
    ensures
        triangle_normal_s(Triangle { a: t.a, b: t.c, c: t.b, material: t.material }) == vneg_s(
            triangle_normal_s(t),
        ),
{
    let ab = vsub_s(t.b, t.a);
    let ac = vsub_s(t.c, t.a);
    crate::vector::lemma_cross_antisym(ab, ac);
    assert(crate::vector::in_range_v(cross_s(ab, ac)));
    crate::vector::lemma_normalize_neg(cross_s(ab, ac));
}

/// Dispatch of the intersection test over the closed shape set.  Opaque:
/// the engine and its laws reason about which shape is hit, never about
/// the geometry inside, so the body is revealed only where the dispatch
/// itself is proved.
#[verifier::opaque]
pub open spec fn shape_intersect_s(s: Shape, ray: Ray) -> Option<i64> {
    match s {
        Shape::Sphere(sp) => sphere_intersect_s(sp, ray),
        Shape::Plane(p) => plane_intersect_s(p, ray),
        Shape::Aabb(b) => aabb_intersect_s(b.min, b.max, ray),
        Shape::NAabb(n) => naabb_intersect_s(n, ray),
        Shape::Triangle(t) => triangle_intersect_s(t, ray),
    }
}

/// Dispatch of the surface normal over the closed shape set.
pub open spec fn shape_normal_s(s: Shape, hit: Vec3) -> Vec3 {
    match s {
        Shape::Sphere(sp) => sphere_normal_s(sp, hit),
        Shape::Plane(p) => plane_normal_s(p),
        Shape::Aabb(b) => box_normal_s(b.min, b.max, hit),
        Shape::NAabb(n) => naabb_normal_s(n, hit),
        Shape::Triangle(t) => triangle_normal_s(t),
    }
}

/// The material a shape carries.
pub open spec fn shape_material_s(s: Shape) -> Material {
    match s {
        Shape::Sphere(sp) => sp.material,
        Shape::Plane(p) => p.material,
        Shape::Aabb(b) => b.material,
        Shape::NAabb(n) => n.material,
        Shape::Triangle(t) => t.material,
    }
}

/// Every reported intersection distance is strictly positive.
pub open spec fn positive_hit(res: Option<i64>) -> bool {
    res matches Some(d) ==> d > 0
}

impl Sphere {
    pub fn intersect(&self, ray: Ray) -> (res: Option<i64>)
        ensures
            res == sphere_intersect_s(*self, ray),
            positive_hit(res),
    {
        let displacement: Vec3 = self.position.sub(ray.origin);
        let displacement_sqr: i64 = displacement.dot(displacement);
        let projection_len: i64 = displacement.dot(ray.direction);
        let a_sqr: i64 = fsub(displacement_sqr, fmul(projection_len, projection_len));
        let r_sqr: i64 = fmul(self.radius, self.radius);
        if a_sqr <= r_sqr {
            let half_chord: i64 = fsqrt(fsub(r_sqr, a_sqr));
            let distance: i64 = if projection_len < half_chord {
                fadd(projection_len, half_chord)
            } else {
                fsub(projection_len, half_chord)
            };
            if distance > 0 {
                Some(distance)
            } else {
                None
            }
        } else {
            None
        }
    }

    pub fn material(&self) -> (m: Material)
        ensures
            m == self.material,
    {
        self.material
    }

    pub fn normal(&self, point: Vec3) -> (n: Vec3)
        ensures
            n == sphere_normal_s(*self, point),
    {
        point.sub(self.position).normalize()
    }
}

impl Plane {
    pub fn intersect(&self, ray: Ray) -> (res: Option<i64>)
        ensures
            res == plane_intersect_s(*self, ray),
            positive_hit(res),
    {
        let denom: i64 = self.normal.dot(ray.direction);
        if fabs(denom) > EPSILON {
            let v: Vec3 = self.position.sub(ray.origin);
            let distance: i64 = fdiv(v.dot(self.normal), denom);
            if distance > 0 {
                Some(distance)
            } else {
                None
            }
        } else {
            None
        }
    }

    pub fn material(&self) -> (m: Material)
        ensures
            m == self.material,
    {
        self.material
    }

    pub fn normal(&self, _point: Vec3) -> (n: Vec3)
        ensures
            n == plane_normal_s(*self),
    {
        self.normal.neg()
    }
}

/// One slab step of the box test; see `slab_s`.
fn slab(lo: i64, hi: i64, o: i64, d: i64, tmin: i64, tmax: i64) -> (r: Option<(i64, i64)>)
    ensures
        r == slab_s(lo as int, hi as int, o as int, d as int, tmin as int, tmax as int),
{
    if d == 0 {
        if lo <= o && o <= hi {
            Some((tmin, tmax))
        } else {
            None
        }
    } else {
        let t0: i64 = fdiv(fsub(lo, o), d);
        let t1: i64 = fdiv(fsub(hi, o), d);
        let ta: i64 = fmin(t0, t1);
        let tb: i64 = fmax(t0, t1);
        Some((fmax(tmin, ta), fmin(tmax, tb)))
    }
}

/// The slab intervals of all three axes intersected; see `aabb_interval_s`.
fn aabb_interval(lo: Vec3, hi: Vec3, ray: Ray) -> (r: Option<(i64, i64)>)
    ensures
        r == aabb_interval_s(lo, hi, ray),
{
    match slab(lo.x, hi.x, ray.origin.x, ray.direction.x, -FX_MAX, FX_MAX) {
        None => None,
        Some((a1, b1)) => match slab(lo.y, hi.y, ray.origin.y, ray.direction.y, a1, b1) {
            None => None,
            Some((a2, b2)) => slab(lo.z, hi.z, ray.origin.z, ray.direction.z, a2, b2),
        },
    }
}

/// The box test shared by the axis-aligned and the rotated box.
fn aabb_intersect(lo: Vec3, hi: Vec3, ray: Ray) -> (res: Option<i64>)
    ensures
        res == aabb_intersect_s(lo, hi, ray),
        positive_hit(res),
{
    match aabb_interval(lo, hi, ray) {
        None => None,
        Some((tmin, tmax)) => {
            if tmin < tmax && tmax > 0 {
                if tmin > 0 {
                    Some(tmin)
                } else {
                    Some(tmax)
                }
            } else {
                None
            }
        },
    }
}

/// The unit scalar carrying the sign of `a`.
fn sgn_unit(a: i64) -> (r: i64)
    ensures
        r == sgn_unit_s(a as int),
{
    if a < 0 {
        -SCALE
    } else {
        SCALE
    }
}

/// The box normal shared by the axis-aligned and the rotated box.
fn box_normal(lo: Vec3, hi: Vec3, hit: Vec3) -> (n: Vec3)
    ensures
        n == box_normal_s(lo, hi, hit),
{
    let extent: Vec3 = hi.sub(lo).div_scale(2 * SCALE);
    let center: Vec3 = lo.add(hi).div_scale(2 * SCALE);
    let local: Vec3 = hit.sub(center);

    let mut nearest: i64 = FX_MAX;
    let mut ret: Vec3 = Vec3::zero();

    let mut dist: i64 = fabs(fsub(extent.x, fabs(local.x)));
    if dist < nearest {
        nearest = dist;
        ret = Vec3 { x: sgn_unit(local.x), y: 0, z: 0 };
    }

    dist = fabs(fsub(extent.y, fabs(local.y)));
    if dist < nearest {
        nearest = dist;
        ret = Vec3 { x: 0, y: sgn_unit(local.y), z: 0 };
    }

    dist = fabs(fsub(extent.z, fabs(local.z)));
    if dist < nearest {
        ret = Vec3 { x: 0, y: 0, z: sgn_unit(local.z) };
    }

    ret
}

impl Aabb {
    pub fn intersect(&self, ray: Ray) -> (res: Option<i64>)
        ensures
            res == aabb_intersect_s(self.min, self.max, ray),
            positive_hit(res),
    {
        aabb_intersect(self.min, self.max, ray)
    }

    pub fn material(&self) -> (m: Material)
        ensures
            m == self.material,
    {
        self.material
    }

    pub fn normal(&self, hit_point: Vec3) -> (n: Vec3)
        ensures
            n == box_normal_s(self.min, self.max, hit_point),
    {
        box_normal(self.min, self.max, hit_point)
    }
}

impl NAabb {
    pub fn intersect(&self, world_ray: Ray) -> (res: Option<i64>)
        ensures
            res == naabb_intersect_s(*self, world_ray),
            positive_hit(res),
    {
        let ray = Ray {
            origin: self.rotation.transform(&world_ray.origin),
            direction: self.rotation.transform(&world_ray.direction),
        };
        match aabb_intersect(self.min, self.max, ray) {
            None => None,
            Some(t) => {
                let local_hit: Vec3 = ray.origin.add(ray.direction.scale(t));
                let world_hit: Vec3 = self.rotation.inv_transform(&local_hit);
                let dir_len: i64 = world_ray.direction.length();
                if dir_len == 0 {
                    None
                } else {
                    let distance: i64 = fdiv(world_hit.sub(world_ray.origin).length(), dir_len);
                    if distance > 0 {
                        Some(distance)
                    } else {
                        None
                    }
                }
            },
        }
    }

    pub fn material(&self) -> (m: Material)
        ensures
            m == self.material,
    {
        self.material
    }

    pub fn normal(&self, world_hit_point: Vec3) -> (n: Vec3)
        ensures
            n == naabb_normal_s(*self, world_hit_point),
    {
        let local_hit: Vec3 = self.rotation.transform(&world_hit_point);
        let local_normal: Vec3 = box_normal(self.min, self.max, local_hit);
        self.rotation.inv_transform(&local_normal)
    }
}

impl Triangle {
    pub fn intersect(&self, ray: Ray) -> (res: Option<i64>)
        ensures
            res == triangle_intersect_s(*self, ray),
            positive_hit(res),
    {
        let ab: Vec3 = self.b.sub(self.a);
        let bc: Vec3 = self.c.sub(self.b);
        let ca: Vec3 = self.a.sub(self.c);
        let n: Vec3 = ab.cross(bc).normalize();

        let denom: i64 = ray.direction.dot(n);
        if fabs(denom) > EPSILON {
            let distance: i64 = fdiv(self.a.sub(ray.origin).dot(n), denom);
            let p: Vec3 = ray.origin.add(ray.direction.scale(distance));
            if ab.cross(p.sub(self.a)).dot(n) > 0 && bc.cross(p.sub(self.b)).dot(n) > 0
                && ca.cross(p.sub(self.c)).dot(n) > 0 {
                if distance > 0 {
                    Some(distance)
                } else {
                    None
                }
            } else {
                None
            }
        } else {
            None
        }
    }

    pub fn material(&self) -> (m: Material)
        ensures
            m == self.material,
    {
        self.material
    }

    pub fn normal(&self, _hit_point: Vec3) -> (n: Vec3)
        ensures
            n == triangle_normal_s(*self),
    {
        let ab: Vec3 = self.b.sub(self.a);
        let ac: Vec3 = self.c.sub(self.a);
        ab.cross(ac).normalize().neg()
    }
}

impl Shape {
    /// The smallest strictly positive parametric distance at which the ray
    /// enters this shape, or nothing.
    pub fn intersect(&self, ray: Ray) -> (res: Option<i64>)
        ensures
            res == shape_intersect_s(*self, ray),
            positive_hit(res),
    {
        proof {
            reveal(shape_intersect_s);
        }
        match self {
            Shape::Sphere(sp) => sp.intersect(ray),
            Shape::Plane(p) => p.intersect(ray),
            Shape::Aabb(b) => b.intersect(ray),
            Shape::NAabb(n) => n.intersect(ray),
            Shape::Triangle(t) => t.intersect(ray),
        }
    }

    /// The material of this shape's surface.
    pub fn material(&self) -> (m: Material)
        ensures
            m == shape_material_s(*self),
    {
        match self {
            Shape::Sphere(sp) => sp.material(),
            Shape::Plane(p) => p.material(),
            Shape::Aabb(b) => b.material(),
            Shape::NAabb(n) => n.material(),
            Shape::Triangle(t) => t.material(),
        }
    }

    /// The outward surface normal at a point assumed to lie on the surface.
    pub fn normal(&self, hit_point: Vec3) -> (n: Vec3)
        ensures
            n == shape_normal_s(*self, hit_point),
    {
        match self {
            Shape::Sphere(sp) => sp.normal(hit_point),
            Shape::Plane(p) => p.normal(hit_point),
            Shape::Aabb(b) => b.normal(hit_point),
            Shape::NAabb(n) => n.normal(hit_point),
            Shape::Triangle(t) => t.normal(hit_point),
        }
    }

    /// A well-formed shape: positive extents, a non-degenerate surface, and
    /// a well-formed material.
    pub open spec fn wf(self) -> bool {
        match self {
            Shape::Sphere(sp) => sp.radius > 0 && sp.material.wf(),
            Shape::Plane(p) => p.normal != zero_s() && p.material.wf(),
            Shape::Aabb(b) => b.min.x < b.max.x && b.min.y < b.max.y && b.min.z < b.max.z
                && b.material.wf(),
            Shape::NAabb(n) => n.min.x < n.max.x && n.min.y < n.max.y && n.min.z < n.max.z
                && n.material.wf(),
            Shape::Triangle(t) => cross_s(vsub_s(t.b, t.a), vsub_s(t.c, t.b)) != zero_s()
                && t.material.wf(),
        }
    }

    /// Decide well-formedness, so a caller can reject a degenerate
    /// primitive when the scene is built rather than mid-render.
    pub fn check(&self) -> (ok: bool)
        ensures
            ok == self.wf(),
    {
        match self {
            Shape::Sphere(sp) => sp.radius > 0 && sp.material.check(),
            Shape::Plane(p) => {
                let nz: Vec3 = Vec3::zero();
                (p.normal.x != nz.x || p.normal.y != nz.y || p.normal.z != nz.z)
                    && p.material.check()
            },
            Shape::Aabb(b) => b.min.x < b.max.x && b.min.y < b.max.y && b.min.z < b.max.z
                && b.material.check(),
            Shape::NAabb(n) => n.min.x < n.max.x && n.min.y < n.max.y && n.min.z < n.max.z
                && n.material.check(),
            Shape::Triangle(t) => {
                let e1: Vec3 = t.b.sub(t.a);
                let e2: Vec3 = t.c.sub(t.b);
                let cr: Vec3 = e1.cross(e2);
                (cr.x != 0 || cr.y != 0 || cr.z != 0) && t.material.check()
            },
        }
    }
}

} // verus!
