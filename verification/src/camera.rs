//! The pinhole camera that primary rays come from.

use vstd::prelude::*;
use crate::fixed::{fdiv, fdiv_int, fdiv_s, fmul, fmul_s, fadd, fadd_s, fsub, fsub_s, tdiv_s,
    FX_MAX, SCALE};
use crate::ray::Ray;
use crate::trig::{cos_fx, cos_fx_s, sin_fx, sin_fx_s};
use crate::vector::{cross_s, normalize_s, vadd_s, vscale_s, zero_s, Vec3};

verus! {

/// A camera: an origin, an orthonormal-ish viewing basis derived from the
/// look direction, and the half-extents of the image plane one unit ahead,
/// derived from the field of view and the aspect ratio.  The basis is
/// computed once at construction and reused for every pixel.
#[derive(Clone, Copy, Debug, PartialEq, Eq, Structural)]
pub struct Camera {
    pub origin: Vec3,
    pub forward: Vec3,
    pub right: Vec3,
    pub up: Vec3,
    pub half_width: i64,
    pub half_height: i64,
}

/// The camera built from an origin, a look direction, a field of view in
/// fixed-point degrees, and an aspect ratio.  The `right` axis falls back
/// to world x when the look direction is vertical; the image-plane
/// half-width is `tan(fov / 2)` and saturates for a degenerate field of
/// view of a half turn.
pub open spec fn camera_s(origin: Vec3, direction: Vec3, fov: int, aspect_ratio: int) -> Camera {
    let forward = normalize_s(direction);
    let world_up = Vec3 { x: 0, y: SCALE, z: 0 };
    let sideways = cross_s(forward, world_up);
    let right = if sideways == zero_s() {
        Vec3 { x: SCALE, y: 0, z: 0 }
    } else {
        normalize_s(sideways)
    };
    let up = cross_s(right, forward);
    let half_angle = tdiv_s(fov, 2);
    let c = cos_fx_s(half_angle);
    let half_width = if c == 0 {
        FX_MAX as int
    } else {
        fdiv_s(sin_fx_s(half_angle), c)
    };
    let half_height = if aspect_ratio == 0 {
        half_width
    } else {
        fdiv_s(half_width, aspect_ratio)
    };
    Camera {
        origin,
        forward,
        right,
        up,
        half_width: half_width as i64,
        half_height: half_height as i64,
    }
}

/// The primary ray through normalized pixel coordinates `u, v` in `[0, 1)`:
/// from the origin, through the image plane point that `u, v` map to, with
/// `v` growing downward.
pub open spec fn get_ray_s(cam: Camera, u: int, v: int) -> Ray {
    let px = fmul_s(fsub_s(fadd_s(u, u), SCALE as int), cam.half_width as int);
    let py = fmul_s(fsub_s(SCALE as int, fadd_s(v, v)), cam.half_height as int);
    let dir = normalize_s(
        vadd_s(vadd_s(cam.forward, vscale_s(cam.right, px)), vscale_s(cam.up, py)),
    );
    Ray { origin: cam.origin, direction: dir }
}

impl Camera {
    /// Build a camera from an origin, a look direction, a field of view in
    /// fixed-point degrees and an aspect ratio.
    pub fn new(origin: Vec3, direction: Vec3, fov: i64, aspect_ratio: i64) -> (cam: Camera)
        ensures
            cam == camera_s(origin, direction, fov as int, aspect_ratio as int),
    {
        let forward: Vec3 = direction.normalize();
        let world_up: Vec3 = Vec3 { x: 0, y: SCALE, z: 0 };
        let sideways: Vec3 = forward.cross(world_up);
        let right: Vec3 = if sideways.x == 0 && sideways.y == 0 && sideways.z == 0 {
            Vec3 { x: SCALE, y: 0, z: 0 }
        } else {
            sideways.normalize()
        };
        let up: Vec3 = right.cross(forward);
        let half_angle: i64 = fdiv_int(fov, 2);
        let c: i64 = cos_fx(half_angle);
        let half_width: i64 = if c == 0 {
            FX_MAX
        } else {
            fdiv(sin_fx(half_angle), c)
        };
        let half_height: i64 = if aspect_ratio == 0 {
            half_width
        } else {
            fdiv(half_width, aspect_ratio)
        };
        Camera { origin, forward, right, up, half_width, half_height }
    }

    /// The primary ray through normalized pixel coordinates `u, v`.
    pub fn get_ray(&self, u: i64, v: i64) -> (r: Ray)
        ensures
            r == get_ray_s(*self, u as int, v as int),
    {
        let px: i64 = fmul(fsub(fadd(u, u), SCALE), self.half_width);
        let py: i64 = fmul(fsub(SCALE, fadd(v, v)), self.half_height);
        let dir: Vec3 = self.forward.add(self.right.scale(px)).add(self.up.scale(py)).normalize();
        Ray { origin: self.origin, direction: dir }
    }
}

} // verus!
