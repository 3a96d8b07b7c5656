//! Rotations between world space and a primitive's local frame.
//!
//! A `Rotation` stores the 3x3 matrix of the intrinsic rotation
//! `Rz(alpha) * Ry(beta) * Rx(gamma)` (angles in fixed-point degrees,
//! applied about z, then y, then x), computed once at construction so the
//! trigonometry is paid once per primitive rather than once per ray.
//! `transform` applies the transpose, carrying a world-space vector into the
//! local frame; `inv_transform` applies the matrix itself, carrying a local
//! vector back to world space.  The matrix of a rotation is orthonormal, so
//! the transpose is the inverse; building only from angles is what keeps the
//! matrix orthonormal (up to fixed-point rounding), so no further
//! construction-time check is needed.

use vstd::prelude::*;
use crate::fixed::{fadd, fadd_s, fmul, fmul_s, fneg, fneg_s, fsub, fsub_s};
use crate::trig::{cos_fx, cos_fx_s, sin_fx, sin_fx_s};
use crate::vector::Vec3;

verus! {

/// Sum of three scalars, left to right.
pub open spec fn fadd3_s(a: int, b: int, c: int) -> int {
    fadd_s(fadd_s(a, b), c)
}

/// A rotation: the three Euler angles it was built from, and its matrix.
#[derive(Clone, Copy, Debug, PartialEq, Eq, Structural)]
pub struct Rotation {
    /// Angle about the z axis, fixed-point degrees.
    pub alpha: i64,
    /// Angle about the y axis, fixed-point degrees.
    pub beta: i64,
    /// Angle about the x axis, fixed-point degrees.
    pub gamma: i64,
    pub m00: i64,
    pub m01: i64,
    pub m02: i64,
    pub m10: i64,
    pub m11: i64,
    pub m12: i64,
    pub m20: i64,
    pub m21: i64,
    pub m22: i64,
}

/// The rotation built from three Euler angles in fixed-point degrees.
pub open spec fn rotation_s(alpha: int, beta: int, gamma: int) -> Rotation {
    let ca = cos_fx_s(alpha);
    let sa = sin_fx_s(alpha);
    let cb = cos_fx_s(beta);
    let sb = sin_fx_s(beta);
    let cg = cos_fx_s(gamma);
    let sg = sin_fx_s(gamma);
    Rotation {
        alpha: alpha as i64,
        beta: beta as i64,
        gamma: gamma as i64,
        m00: fmul_s(ca, cb) as i64,
        m01: fsub_s(fmul_s(fmul_s(ca, sb), sg), fmul_s(sa, cg)) as i64,
        m02: fadd_s(fmul_s(fmul_s(ca, sb), cg), fmul_s(sa, sg)) as i64,
        m10: fmul_s(sa, cb) as i64,
        m11: fadd_s(fmul_s(fmul_s(sa, sb), sg), fmul_s(ca, cg)) as i64,
        m12: fsub_s(fmul_s(fmul_s(sa, sb), cg), fmul_s(ca, sg)) as i64,
        m20: fneg_s(sb) as i64,
        m21: fmul_s(cb, sg) as i64,
        m22: fmul_s(cb, cg) as i64,
    }
}

/// World to local: the transpose of the matrix applied to `v`.
pub open spec fn transform_s(rot: Rotation, v: Vec3) -> Vec3 {
    Vec3 {
        x: fadd3_s(
            fmul_s(rot.m00 as int, v.x as int),
            fmul_s(rot.m10 as int, v.y as int),
            fmul_s(rot.m20 as int, v.z as int),
        ) as i64,
        y: fadd3_s(
            fmul_s(rot.m01 as int, v.x as int),
            fmul_s(rot.m11 as int, v.y as int),
            fmul_s(rot.m21 as int, v.z as int),
        ) as i64,
        z: fadd3_s(
            fmul_s(rot.m02 as int, v.x as int),
            fmul_s(rot.m12 as int, v.y as int),
            fmul_s(rot.m22 as int, v.z as int),
        ) as i64,
    }
}

/// Local to world: the matrix itself applied to `v`.
pub open spec fn inv_transform_s(rot: Rotation, v: Vec3) -> Vec3 {
    Vec3 {
        x: fadd3_s(
            fmul_s(rot.m00 as int, v.x as int),
            fmul_s(rot.m01 as int, v.y as int),
            fmul_s(rot.m02 as int, v.z as int),
        ) as i64,
        y: fadd3_s(
            fmul_s(rot.m10 as int, v.x as int),
            fmul_s(rot.m11 as int, v.y as int),
            fmul_s(rot.m12 as int, v.z as int),
        ) as i64,
        z: fadd3_s(
            fmul_s(rot.m20 as int, v.x as int),
            fmul_s(rot.m21 as int, v.y as int),
            fmul_s(rot.m22 as int, v.z as int),
        ) as i64,
    }
}

/// A change of frame with a forward and an inverse direction.
pub trait Transformation {
    /// What the forward direction maps a vector to.
    spec fn transformed(&self, v: Vec3) -> Vec3;

    /// What the inverse direction maps a vector to.
    spec fn inv_transformed(&self, v: Vec3) -> Vec3;

    /// Carry a world-space vector into the local frame.
    fn transform(&self, v: &Vec3) -> (r: Vec3)
        ensures
            r == self.transformed(*v),
    ;

    /// Carry a local-frame vector back to world space.
    fn inv_transform(&self, v: &Vec3) -> (r: Vec3)
        ensures
            r == self.inv_transformed(*v),
    ;
}

/// A rotation by zero degrees about every axis is exactly the identity:
/// both directions carry every representable vector to itself, so a volume
/// rotated by zero behaves exactly as the unrotated one in its local frame.
pub proof fn lemma_zero_rotation_identity(v: Vec3)
    requires
        crate::vector::in_range_v(v),
    ensures
        transform_s(rotation_s(0, 0, 0), v) == v,
        inv_transform_s(rotation_s(0, 0, 0), v) == v,
{
    crate::trig::lemma_trig_zero();
    crate::fixed::lemma_fmul_scale_identity(v.x as int);
    crate::fixed::lemma_fmul_scale_identity(v.y as int);
    crate::fixed::lemma_fmul_scale_identity(v.z as int);
    crate::fixed::lemma_fmul_zero(v.x as int);
    crate::fixed::lemma_fmul_zero(v.y as int);
    crate::fixed::lemma_fmul_zero(v.z as int);
    crate::fixed::lemma_fmul_zero(0);
    crate::fixed::lemma_fmul_zero(crate::fixed::SCALE as int);
    vstd::arithmetic::div_mod::lemma_div_of0(crate::fixed::SCALE as int);
}

impl Rotation {
    /// Build the rotation for the three Euler angles, in fixed-point
    /// degrees: `alpha` about z, then `beta` about y, then `gamma` about x.
    pub fn new(alpha: i64, beta: i64, gamma: i64) -> (r: Rotation)
        ensures
            r == rotation_s(alpha as int, beta as int, gamma as int),
    {
        let ca: i64 = cos_fx(alpha);
        let sa: i64 = sin_fx(alpha);
        let cb: i64 = cos_fx(beta);
        let sb: i64 = sin_fx(beta);
        let cg: i64 = cos_fx(gamma);
        let sg: i64 = sin_fx(gamma);
        Rotation {
            alpha,
            beta,
            gamma,
            m00: fmul(ca, cb),
            m01: fsub(fmul(fmul(ca, sb), sg), fmul(sa, cg)),
            m02: fadd(fmul(fmul(ca, sb), cg), fmul(sa, sg)),
            m10: fmul(sa, cb),
            m11: fadd(fmul(fmul(sa, sb), sg), fmul(ca, cg)),
            m12: fsub(fmul(fmul(sa, sb), cg), fmul(ca, sg)),
            m20: fneg(sb),
            m21: fmul(cb, sg),
            m22: fmul(cb, cg),
        }
    }

    /// World to local; the same map as `transform`, under the name the
    /// renderer-facing callers use.
    pub fn apply(&self, v: &Vec3) -> (r: Vec3)
        ensures
            r == transform_s(*self, *v),
    {
        self.transform(v)
    }

    /// Local to world; the same map as `inv_transform`.
    pub fn invert(&self, v: &Vec3) -> (r: Vec3)
        ensures
            r == inv_transform_s(*self, *v),
    {
        self.inv_transform(v)
    }
}

impl Transformation for Rotation {
    open spec fn transformed(&self, v: Vec3) -> Vec3 {
        transform_s(*self, v)
    }

    open spec fn inv_transformed(&self, v: Vec3) -> Vec3 {
        inv_transform_s(*self, v)
    }

    fn transform(&self, v: &Vec3) -> (r: Vec3) {
        Vec3 {
            x: fadd(fadd(fmul(self.m00, v.x), fmul(self.m10, v.y)), fmul(self.m20, v.z)),
            y: fadd(fadd(fmul(self.m01, v.x), fmul(self.m11, v.y)), fmul(self.m21, v.z)),
            z: fadd(fadd(fmul(self.m02, v.x), fmul(self.m12, v.y)), fmul(self.m22, v.z)),
        }
    }

    fn inv_transform(&self, v: &Vec3) -> (r: Vec3) {
        Vec3 {
            x: fadd(fadd(fmul(self.m00, v.x), fmul(self.m01, v.y)), fmul(self.m02, v.z)),
            y: fadd(fadd(fmul(self.m10, v.x), fmul(self.m11, v.y)), fmul(self.m12, v.z)),
            z: fadd(fadd(fmul(self.m20, v.x), fmul(self.m21, v.y)), fmul(self.m22, v.z)),
        }
    }
}

} // verus!
