//! Fixed-point sine and cosine of angles given in fixed-point degrees.
//!
//! The angle is folded to a quadrant by exact integer arithmetic, converted
//! to radians, and the result comes from a short alternating series on
//! `[0, 45]` degrees, where it converges fast.  Folding through the
//! cosine series keeps the cardinal angles exact: the sine of 0 is exactly
//! zero and the cosine of 0 (and so the sine of 90) is exactly one, which
//! makes a rotation by zero degrees exactly the identity.

use vstd::prelude::*;
use crate::fixed::{
    abs_s, fadd, fadd_s, fdiv_int, fmul, fmul_s, fneg, fsub, fsub_s, tdiv_s, SCALE,
};

verus! {

/// A quarter turn, in fixed-point degrees.
pub const DEG90: i64 = 90 * SCALE;

/// A full turn, in fixed-point degrees.
pub const DEG360: i64 = 360 * SCALE;

/// Half a quadrant, in fixed-point degrees.
pub const DEG45: i64 = 45 * SCALE;

/// Numerator of the degree-to-radian ratio: `pi * SCALE`, rounded.
pub const RAD_NUM: i64 = 205887;

/// Denominator of the degree-to-radian ratio: `180 * SCALE`.
pub const RAD_DEN: i64 = 11796480;

/// Degrees to radians, both fixed-point.
pub open spec fn d2r_s(d: int) -> int {
    tdiv_s(d * RAD_NUM, RAD_DEN as int)
}

/// Sine series `x - x^3/6 + x^5/120 - x^7/5040` on fixed-point radians.
pub open spec fn sin_series_s(x: int) -> int {
    let x2 = fmul_s(x, x);
    let x3 = fmul_s(x2, x);
    let x5 = fmul_s(x3, x2);
    let x7 = fmul_s(x5, x2);
    fsub_s(fadd_s(fsub_s(x, tdiv_s(x3, 6)), tdiv_s(x5, 120)), tdiv_s(x7, 5040))
}

/// Cosine series `1 - x^2/2 + x^4/24 - x^6/720` on fixed-point radians.
pub open spec fn cos_series_s(x: int) -> int {
    let x2 = fmul_s(x, x);
    let x4 = fmul_s(x2, x2);
    let x6 = fmul_s(x4, x2);
    fsub_s(fadd_s(fsub_s(SCALE as int, tdiv_s(x2, 2)), tdiv_s(x4, 24)), tdiv_s(x6, 720))
}

/// Sine of an angle within one quadrant (`0 <= r < DEG90`), evaluated on
/// whichever half of the quadrant keeps the series argument small.
pub open spec fn sin_quadrant_s(r: int) -> int {
    if r <= DEG45 {
        sin_series_s(d2r_s(r))
    } else {
        cos_series_s(d2r_s(DEG90 - r))
    }
}

/// Cosine of an angle within one quadrant (`0 <= r < DEG90`).
pub open spec fn cos_quadrant_s(r: int) -> int {
    if r <= DEG45 {
        cos_series_s(d2r_s(r))
    } else {
        sin_series_s(d2r_s(DEG90 - r))
    }
}

/// Sine of a folded non-negative angle `0 <= m < DEG360`.
pub open spec fn sin_folded_s(m: int) -> int {
    let q = m / (DEG90 as int);
    let r = m % (DEG90 as int);
    if q == 0 {
        sin_quadrant_s(r)
    } else if q == 1 {
        cos_quadrant_s(r)
    } else if q == 2 {
        -sin_quadrant_s(r)
    } else {
        -cos_quadrant_s(r)
    }
}

/// Cosine of a folded non-negative angle `0 <= m < DEG360`.
pub open spec fn cos_folded_s(m: int) -> int {
    let q = m / (DEG90 as int);
    let r = m % (DEG90 as int);
    if q == 0 {
        cos_quadrant_s(r)
    } else if q == 1 {
        -sin_quadrant_s(r)
    } else if q == 2 {
        -cos_quadrant_s(r)
    } else {
        sin_quadrant_s(r)
    }
}

/// An angle reduced to one turn: `|d| mod DEG360`.
pub open spec fn fold_deg_s(d: int) -> int {
    abs_s(d) % (DEG360 as int)
}

/// Sine of a fixed-point angle in degrees.
pub open spec fn sin_fx_s(d: int) -> int {
    if d < 0 {
        -sin_folded_s(fold_deg_s(d))
    } else {
        sin_folded_s(fold_deg_s(d))
    }
}

/// Cosine of a fixed-point angle in degrees (even, so the sign of the angle
/// does not matter).
pub open spec fn cos_fx_s(d: int) -> int {
    cos_folded_s(fold_deg_s(d))
}

/// At zero degrees the series are exact: the sine is exactly zero and the
/// cosine exactly one.
pub proof fn lemma_trig_zero()
    ensures
        sin_fx_s(0) == 0,
        cos_fx_s(0) == SCALE,
{
    vstd::arithmetic::div_mod::lemma_div_of0(DEG90 as int);
    vstd::arithmetic::div_mod::lemma_div_of0(6);
    vstd::arithmetic::div_mod::lemma_div_of0(120);
    vstd::arithmetic::div_mod::lemma_div_of0(5040);
    vstd::arithmetic::div_mod::lemma_div_of0(2);
    vstd::arithmetic::div_mod::lemma_div_of0(24);
    vstd::arithmetic::div_mod::lemma_div_of0(720);
    vstd::arithmetic::div_mod::lemma_div_of0(SCALE as int);
    vstd::arithmetic::div_mod::lemma_div_of0(RAD_DEN as int);
    vstd::arithmetic::div_mod::lemma_mod_self_0(DEG360 as int);
    vstd::arithmetic::div_mod::lemma_small_mod(0, DEG360 as nat);
    vstd::arithmetic::div_mod::lemma_small_mod(0, DEG90 as nat);
    assert(fold_deg_s(0) == 0);
    assert(d2r_s(0) == 0);
    assert(sin_series_s(0) == 0);
    assert(cos_series_s(0) == SCALE);
    assert(sin_folded_s(0) == 0);
    assert(cos_folded_s(0) == SCALE);
}

fn d2r(d: i64) -> (r: i64)
    requires
        0 <= d <= DEG90,
    ensures
        r == d2r_s(d as int),
{
    proof {
        assert((d as int) * (RAD_NUM as int) <= 5898240 * 205887) by (nonlinear_arith)
            requires
                0 <= d <= 5898240i64,
                RAD_NUM == 205887,
        ;
    }
    let p: i64 = d * RAD_NUM;
    fdiv_int(p, RAD_DEN)
}

fn sin_series(x: i64) -> (r: i64)
    ensures
        r == sin_series_s(x as int),
        -0x7fffffffffffffffi64 <= r,
{
    let x2: i64 = fmul(x, x);
    let x3: i64 = fmul(x2, x);
    let x5: i64 = fmul(x3, x2);
    let x7: i64 = fmul(x5, x2);
    fsub(fadd(fsub(x, fdiv_int(x3, 6)), fdiv_int(x5, 120)), fdiv_int(x7, 5040))
}

fn cos_series(x: i64) -> (r: i64)
    ensures
        r == cos_series_s(x as int),
        -0x7fffffffffffffffi64 <= r,
{
    let x2: i64 = fmul(x, x);
    let x4: i64 = fmul(x2, x2);
    let x6: i64 = fmul(x4, x2);
    fsub(fadd(fsub(SCALE, fdiv_int(x2, 2)), fdiv_int(x4, 24)), fdiv_int(x6, 720))
}

fn sin_quadrant(r: i64) -> (s: i64)
    requires
        0 <= r < DEG90,
    ensures
        s == sin_quadrant_s(r as int),
        -0x7fffffffffffffffi64 <= s,
{
    if r <= DEG45 {
        sin_series(d2r(r))
    } else {
        cos_series(d2r(DEG90 - r))
    }
}

fn cos_quadrant(r: i64) -> (s: i64)
    requires
        0 <= r < DEG90,
    ensures
        s == cos_quadrant_s(r as int),
        -0x7fffffffffffffffi64 <= s,
{
    if r <= DEG45 {
        cos_series(d2r(r))
    } else {
        sin_series(d2r(DEG90 - r))
    }
}

/// Fold an angle to `[0, DEG360)` by magnitude.
fn fold_deg(d: i64) -> (m: i64)
    ensures
        m == fold_deg_s(d as int),
        0 <= m < DEG360,
{
    let wide: i128 = d as i128;
    let mag: u128 = if wide < 0 {
        (-wide) as u128
    } else {
        wide as u128
    };
    let m: u128 = mag % (DEG360 as u128);
    m as i64
}

fn sin_folded(m: i64) -> (s: i64)
    requires
        0 <= m < DEG360,
    ensures
        s == sin_folded_s(m as int),
        -0x7fffffffffffffffi64 <= s,
{
    let q: u64 = (m as u64) / (DEG90 as u64);
    let r: i64 = ((m as u64) % (DEG90 as u64)) as i64;
    if q == 0 {
        sin_quadrant(r)
    } else if q == 1 {
        cos_quadrant(r)
    } else if q == 2 {
        fneg(sin_quadrant(r))
    } else {
        fneg(cos_quadrant(r))
    }
}

fn cos_folded(m: i64) -> (s: i64)
    requires
        0 <= m < DEG360,
    ensures
        s == cos_folded_s(m as int),
{
    let q: u64 = (m as u64) / (DEG90 as u64);
    let r: i64 = ((m as u64) % (DEG90 as u64)) as i64;
    if q == 0 {
        cos_quadrant(r)
    } else if q == 1 {
        fneg(sin_quadrant(r))
    } else if q == 2 {
        fneg(cos_quadrant(r))
    } else {
        sin_quadrant(r)
    }
}

/// Sine of a fixed-point angle in degrees.
pub fn sin_fx(d: i64) -> (s: i64)
    ensures
        s == sin_fx_s(d as int),
{
    let m: i64 = fold_deg(d);
    let s: i64 = sin_folded(m);
    if d < 0 {
        fneg(s)
    } else {
        s
    }
}

/// Cosine of a fixed-point angle in degrees.
pub fn cos_fx(d: i64) -> (s: i64)
    ensures
        s == cos_fx_s(d as int),
{
    let m: i64 = fold_deg(d);
    cos_folded(m)
}

} // verus!
