//! 3D vectors over fixed-point scalars.
//!
//! Each operation is proved equal to a spec-level mirror built from the
//! scalar mirrors in `fixed`, so geometric contracts compose exactly.

use vstd::prelude::*;
use crate::fixed::{
    fadd, fadd_s, fdiv, fdiv_s, fmul, fmul_s, fneg, fneg_s, fsqrt, fsqrt_s, fsub, fsub_s,
    EPSILON, SCALE,
};

verus! {

/// A point or direction in space, componentwise fixed-point.
#[derive(Clone, Copy, Debug, PartialEq, Eq, Structural)]
pub struct Vec3 {
    pub x: i64,
    pub y: i64,
    pub z: i64,
}

/// The zero vector.
pub open spec fn zero_s() -> Vec3 {
    Vec3 { x: 0, y: 0, z: 0 }
}

/// Componentwise sum.
pub open spec fn vadd_s(a: Vec3, b: Vec3) -> Vec3 {
    Vec3 {
        x: fadd_s(a.x as int, b.x as int) as i64,
        y: fadd_s(a.y as int, b.y as int) as i64,
        z: fadd_s(a.z as int, b.z as int) as i64,
    }
}

/// Componentwise difference.
pub open spec fn vsub_s(a: Vec3, b: Vec3) -> Vec3 {
    Vec3 {
        x: fsub_s(a.x as int, b.x as int) as i64,
        y: fsub_s(a.y as int, b.y as int) as i64,
        z: fsub_s(a.z as int, b.z as int) as i64,
    }
}

/// Componentwise negation.
pub open spec fn vneg_s(a: Vec3) -> Vec3 {
    Vec3 {
        x: fneg_s(a.x as int) as i64,
        y: fneg_s(a.y as int) as i64,
        z: fneg_s(a.z as int) as i64,
    }
}

/// Componentwise (Hadamard) product.
pub open spec fn vmul_s(a: Vec3, b: Vec3) -> Vec3 {
    Vec3 {
        x: fmul_s(a.x as int, b.x as int) as i64,
        y: fmul_s(a.y as int, b.y as int) as i64,
        z: fmul_s(a.z as int, b.z as int) as i64,
    }
}

/// Product with a scalar.
pub open spec fn vscale_s(a: Vec3, k: int) -> Vec3 {
    Vec3 {
        x: fmul_s(a.x as int, k) as i64,
        y: fmul_s(a.y as int, k) as i64,
        z: fmul_s(a.z as int, k) as i64,
    }
}

/// Quotient by a scalar.
pub open spec fn vdiv_scale_s(a: Vec3, k: int) -> Vec3 {
    Vec3 {
        x: fdiv_s(a.x as int, k) as i64,
        y: fdiv_s(a.y as int, k) as i64,
        z: fdiv_s(a.z as int, k) as i64,
    }
}

/// Dot product.
pub open spec fn dot_s(a: Vec3, b: Vec3) -> int {
    fadd_s(
        fadd_s(fmul_s(a.x as int, b.x as int), fmul_s(a.y as int, b.y as int)),
        fmul_s(a.z as int, b.z as int),
    )
}

/// Squared length.
pub open spec fn norm_s(a: Vec3) -> int {
    dot_s(a, a)
}

/// Length: the fixed-point square root of the squared length.
pub open spec fn length_s(a: Vec3) -> int {
    fsqrt_s(norm_s(a))
}

/// Cross product.
pub open spec fn cross_s(a: Vec3, b: Vec3) -> Vec3 {
    Vec3 {
        x: fsub_s(fmul_s(a.y as int, b.z as int), fmul_s(a.z as int, b.y as int)) as i64,
        y: fsub_s(fmul_s(a.z as int, b.x as int), fmul_s(a.x as int, b.z as int)) as i64,
        z: fsub_s(fmul_s(a.x as int, b.y as int), fmul_s(a.y as int, b.x as int)) as i64,
    }
}

/// The vector scaled to (approximately) unit length; the zero vector is
/// returned unchanged, since it has no direction.
pub open spec fn normalize_s(a: Vec3) -> Vec3 {
    if length_s(a) == 0 {
        zero_s()
    } else {
        vdiv_scale_s(a, length_s(a))
    }
}

/// Mirror reflection of `v` about `n`: `v - n * (n . v) * 2`.
pub open spec fn reflect_s(v: Vec3, n: Vec3) -> Vec3 {
    vsub_s(v, vscale_s(vscale_s(n, dot_s(n, v)), 2 * SCALE))
}

/// `v` nudged a small step along `d`, to avoid re-hitting the surface a
/// secondary ray starts on.
pub open spec fn correct_s(v: Vec3, d: Vec3) -> Vec3 {
    vadd_s(v, vscale_s(d, EPSILON as int))
}

/// Componentwise reciprocal.
pub open spec fn vinv_s(a: Vec3) -> Vec3 {
    Vec3 {
        x: fdiv_s(SCALE as int, a.x as int) as i64,
        y: fdiv_s(SCALE as int, a.y as int) as i64,
        z: fdiv_s(SCALE as int, a.z as int) as i64,
    }
}

/// All components lie in the symmetric representable range.  Every vector
/// built by the saturating operations satisfies this.
pub open spec fn in_range_v(v: Vec3) -> bool {
    &&& -crate::fixed::FX_MAX <= v.x
    &&& -crate::fixed::FX_MAX <= v.y
    &&& -crate::fixed::FX_MAX <= v.z
}

/// The cross product is antisymmetric.
pub proof fn lemma_cross_antisym(u: Vec3, v: Vec3)
    ensures
        cross_s(v, u) == vneg_s(cross_s(u, v)),
{
    crate::fixed::lemma_fmul_comm(v.y as int, u.z as int);
    crate::fixed::lemma_fmul_comm(v.z as int, u.y as int);
    crate::fixed::lemma_fmul_comm(v.z as int, u.x as int);
    crate::fixed::lemma_fmul_comm(v.x as int, u.z as int);
    crate::fixed::lemma_fmul_comm(v.x as int, u.y as int);
    crate::fixed::lemma_fmul_comm(v.y as int, u.x as int);
    crate::fixed::lemma_fsub_antisym(
        fmul_s(u.y as int, v.z as int),
        fmul_s(u.z as int, v.y as int),
    );
    crate::fixed::lemma_fsub_antisym(
        fmul_s(u.z as int, v.x as int),
        fmul_s(u.x as int, v.z as int),
    );
    crate::fixed::lemma_fsub_antisym(
        fmul_s(u.x as int, v.y as int),
        fmul_s(u.y as int, v.x as int),
    );
}

/// The squared length does not depend on the sign of the vector.
pub proof fn lemma_norm_neg(w: Vec3)
    requires
        in_range_v(w),
    ensures
        norm_s(vneg_s(w)) == norm_s(w),
{
    crate::fixed::lemma_fmul_square_neg(w.x as int);
    crate::fixed::lemma_fmul_square_neg(w.y as int);
    crate::fixed::lemma_fmul_square_neg(w.z as int);
}

/// Normalization is odd: the unit vector of the negation is the negation
/// of the unit vector.
pub proof fn lemma_normalize_neg(w: Vec3)
    requires
        in_range_v(w),
    ensures
        normalize_s(vneg_s(w)) == vneg_s(normalize_s(w)),
{
    lemma_norm_neg(w);
    let len = length_s(w);
    if len != 0 {
        crate::fixed::lemma_fdiv_neg(w.x as int, len);
        crate::fixed::lemma_fdiv_neg(w.y as int, len);
        crate::fixed::lemma_fdiv_neg(w.z as int, len);
    }
}

/// A square is never negative, so a squared length is never negative.
pub proof fn lemma_fmul_square_nonneg(a: int)
    ensures
        fmul_s(a, a) >= 0,
{
    assert(a * a >= 0) by (nonlinear_arith);
}

/// The squared length of any vector is non-negative.
pub proof fn lemma_norm_nonneg(a: Vec3)
    ensures
        norm_s(a) >= 0,
{
    lemma_fmul_square_nonneg(a.x as int);
    lemma_fmul_square_nonneg(a.y as int);
    lemma_fmul_square_nonneg(a.z as int);
}

impl Vec3 {
    pub fn new(x: i64, y: i64, z: i64) -> (r: Vec3)
        ensures
            r == (Vec3 { x, y, z }),
    {
        Vec3 { x, y, z }
    }

    pub fn zero() -> (r: Vec3)
        ensures
            r == zero_s(),
    {
        Vec3 { x: 0, y: 0, z: 0 }
    }

    pub fn add(self, rhs: Vec3) -> (r: Vec3)
        ensures
            r == vadd_s(self, rhs),
    {
        Vec3 { x: fadd(self.x, rhs.x), y: fadd(self.y, rhs.y), z: fadd(self.z, rhs.z) }
    }

    pub fn sub(self, rhs: Vec3) -> (r: Vec3)
        ensures
            r == vsub_s(self, rhs),
    {
        Vec3 { x: fsub(self.x, rhs.x), y: fsub(self.y, rhs.y), z: fsub(self.z, rhs.z) }
    }

    pub fn neg(self) -> (r: Vec3)
        ensures
            r == vneg_s(self),
    {
        Vec3 { x: fneg(self.x), y: fneg(self.y), z: fneg(self.z) }
    }

    pub fn mul(self, rhs: Vec3) -> (r: Vec3)
        ensures
            r == vmul_s(self, rhs),
    {
        Vec3 { x: fmul(self.x, rhs.x), y: fmul(self.y, rhs.y), z: fmul(self.z, rhs.z) }
    }

    pub fn scale(self, k: i64) -> (r: Vec3)
        ensures
            r == vscale_s(self, k as int),
    {
        Vec3 { x: fmul(self.x, k), y: fmul(self.y, k), z: fmul(self.z, k) }
    }

    pub fn div_scale(self, k: i64) -> (r: Vec3)
        requires
            k != 0,
        ensures
            r == vdiv_scale_s(self, k as int),
    {
        Vec3 { x: fdiv(self.x, k), y: fdiv(self.y, k), z: fdiv(self.z, k) }
    }

    pub fn dot(&self, other: Vec3) -> (r: i64)
        ensures
            r == dot_s(*self, other),
    {
        fadd(fadd(fmul(self.x, other.x), fmul(self.y, other.y)), fmul(self.z, other.z))
    }

    pub fn norm(&self) -> (r: i64)
        ensures
            r == norm_s(*self),
            r >= 0,
    {
        proof {
            lemma_norm_nonneg(*self);
        }
        self.dot(*self)
    }

    pub fn length(&self) -> (r: i64)
        ensures
            r == length_s(*self),
            r >= 0,
    {
        let n: i64 = self.norm();
        fsqrt(n)
    }

    pub fn cross(&self, other: Vec3) -> (r: Vec3)
        ensures
            r == cross_s(*self, other),
    {
        Vec3 {
            x: fsub(fmul(self.y, other.z), fmul(self.z, other.y)),
            y: fsub(fmul(self.z, other.x), fmul(self.x, other.z)),
            z: fsub(fmul(self.x, other.y), fmul(self.y, other.x)),
        }
    }

    pub fn normalize(&self) -> (r: Vec3)
        ensures
            r == normalize_s(*self),
    {
        let len: i64 = self.length();
        if len == 0 {
            Vec3::zero()
        } else {
            Vec3 { x: fdiv(self.x, len), y: fdiv(self.y, len), z: fdiv(self.z, len) }
        }
    }

    pub fn reflect(&self, other: Vec3) -> (r: Vec3)
        ensures
            r == reflect_s(*self, other),
    {
        let d: i64 = other.dot(*self);
        self.sub(other.scale(d).scale(2 * SCALE))
    }

    /// Due to rounding, secondary rays must start a small step off the
    /// surface they originate on; this nudges a point along a direction.
    pub fn correct(&self, other: Vec3) -> (r: Vec3)
        ensures
            r == correct_s(*self, other),
    {
        self.add(other.scale(EPSILON))
    }

    pub fn inv(&self) -> (r: Vec3)
        requires
            self.x != 0,
            self.y != 0,
            self.z != 0,
        ensures
            r == vinv_s(*self),
    {
        Vec3 { x: fdiv(SCALE, self.x), y: fdiv(SCALE, self.y), z: fdiv(SCALE, self.z) }
    }

    pub fn from_slice(arr: &[i64]) -> (r: Vec3)
        requires
            arr@.len() >= 3,
        ensures
            r == (Vec3 { x: arr@[0], y: arr@[1], z: arr@[2] }),
    {
        Vec3 { x: arr[0], y: arr[1], z: arr[2] }
    }
}

} // verus!
