//! Saturating fixed-point scalar arithmetic.
//!
//! A scalar is an `i64` counting units of `1 / SCALE`.  Every operation is
//! total: results outside the symmetric range `[-FX_MAX, FX_MAX]` saturate,
//! quotients round toward zero, and the square root is the integer square
//! root of the scaled operand.  Each executable operation is proved equal to
//! a spec-level mirror (`fadd_s`, `fmul_s`, ...), so contracts further up
//! compose exactly.

use vstd::prelude::*;

verus! {

/// Number of fixed-point units per whole unit.
pub const SCALE: i64 = 65536;

/// Largest representable scalar.  The representable range is symmetric
/// (`-FX_MAX ..= FX_MAX`) so that negation is total and sign-symmetric.
pub const FX_MAX: i64 = i64::MAX;

/// Threshold under which a denominator or determinant counts as zero in the
/// geometric tests; the single small constant shared by all of them.
pub const EPSILON: i64 = 4;

/// Magnitude of an integer.
pub open spec fn abs_s(a: int) -> int {
    if a < 0 {
        -a
    } else {
        a
    }
}

/// Saturation to the symmetric representable range.
pub open spec fn sat_s(a: int) -> int {
    if a > FX_MAX {
        FX_MAX as int
    } else if a < -FX_MAX {
        -FX_MAX as int
    } else {
        a
    }
}

/// Quotient rounded toward zero, as machine division rounds.
pub open spec fn tdiv_s(a: int, b: int) -> int {
    if (a < 0) != (b < 0) {
        -(abs_s(a) / abs_s(b))
    } else {
        abs_s(a) / abs_s(b)
    }
}

/// Saturating magnitude.
pub open spec fn fabs_s(a: int) -> int {
    sat_s(abs_s(a))
}

/// Saturating sum.
pub open spec fn fadd_s(a: int, b: int) -> int {
    sat_s(a + b)
}

/// Saturating difference.
pub open spec fn fsub_s(a: int, b: int) -> int {
    sat_s(a - b)
}

/// Saturating negation.
pub open spec fn fneg_s(a: int) -> int {
    sat_s(-a)
}

/// Fixed-point product: the integer product rescaled by `SCALE`.
pub open spec fn fmul_s(a: int, b: int) -> int {
    sat_s(tdiv_s(a * b, SCALE as int))
}

/// Fixed-point quotient: the dividend prescaled by `SCALE`.
pub open spec fn fdiv_s(a: int, b: int) -> int {
    sat_s(tdiv_s(a * SCALE, b))
}

/// `r` is the integer square root of `n`.
pub open spec fn is_isqrt(n: int, r: int) -> bool {
    0 <= r && r * r <= n && n < (r + 1) * (r + 1)
}

/// The integer square root of a non-negative integer.
pub open spec fn isqrt_s(n: int) -> int {
    choose|r: int| is_isqrt(n, r)
}

/// Fixed-point square root: the integer square root of the scaled operand.
pub open spec fn fsqrt_s(a: int) -> int {
    isqrt_s(a * SCALE)
}

/// Fixed-point power with a natural exponent; the empty product is one.
pub open spec fn fpow_s(b: int, e: nat) -> int
    decreases e,
{
    if e == 0 {
        SCALE as int
    } else {
        fmul_s(b, fpow_s(b, (e - 1) as nat))
    }
}

/// The smaller of two scalars.
pub open spec fn fmin_s(a: int, b: int) -> int {
    if a < b {
        a
    } else {
        b
    }
}

/// The larger of two scalars.
pub open spec fn fmax_s(a: int, b: int) -> int {
    if a < b {
        b
    } else {
        a
    }
}

/// Dividing zero gives zero.
proof fn lemma_zero_div(b: int)
    requires
        b > 0,
    ensures
        0int / b == 0,
{
    vstd::arithmetic::div_mod::lemma_div_of0(b);
}

/// Quotients rounded toward zero are odd in the dividend.
pub proof fn lemma_tdiv_neg(a: int, b: int)
    requires
        b != 0,
    ensures
        tdiv_s(-a, b) == -tdiv_s(a, b),
{
    if a == 0 {
        lemma_zero_div(abs_s(b));
    }
}

/// Saturation is odd.
pub proof fn lemma_sat_neg(a: int)
    ensures
        sat_s(-a) == -sat_s(a),
{
}

/// The fixed-point product is commutative.
pub proof fn lemma_fmul_comm(a: int, b: int)
    ensures
        fmul_s(a, b) == fmul_s(b, a),
{
    assert(a * b == b * a) by (nonlinear_arith);
}

/// The fixed-point quotient is odd in the dividend.
pub proof fn lemma_fdiv_neg(a: int, b: int)
    requires
        b != 0,
    ensures
        fdiv_s(-a, b) == -fdiv_s(a, b),
{
    assert((-a) * SCALE == -(a * SCALE)) by (nonlinear_arith);
    lemma_tdiv_neg(a * SCALE, b);
    lemma_sat_neg(tdiv_s(a * SCALE, b));
}

/// The fixed-point difference is antisymmetric.
pub proof fn lemma_fsub_antisym(a: int, b: int)
    ensures
        fsub_s(b, a) == fneg_s(fsub_s(a, b)),
{
}

/// The square of a scalar does not depend on its sign.
pub proof fn lemma_fmul_square_neg(a: int)
    ensures
        fmul_s(-a, -a) == fmul_s(a, a),
{
    assert((-a) * (-a) == a * a) by (nonlinear_arith);
}

/// Scaling by one is the identity on representable scalars.
pub proof fn lemma_fmul_scale_identity(a: int)
    requires
        -FX_MAX <= a <= FX_MAX,
    ensures
        fmul_s(a, SCALE as int) == a,
        fmul_s(SCALE as int, a) == a,
{
    if a >= 0 {
        vstd::arithmetic::div_mod::lemma_div_multiples_vanish(a, SCALE as int);
    } else {
        vstd::arithmetic::div_mod::lemma_div_multiples_vanish(-a, SCALE as int);
        assert(abs_s(a * SCALE) == (-a) * SCALE) by (nonlinear_arith)
            requires
                a < 0,
                SCALE == 65536,
        ;
        assert(abs_s(SCALE * a) == SCALE * (-a)) by (nonlinear_arith)
            requires
                a < 0,
                SCALE == 65536,
        ;
        assert(SCALE * (-a) == (-a) * SCALE) by (nonlinear_arith);
    }
}

/// Multiplying by zero gives zero.
pub proof fn lemma_fmul_zero(a: int)
    ensures
        fmul_s(0, a) == 0,
        fmul_s(a, 0) == 0,
{
    assert(0 * a == 0) by (nonlinear_arith);
    assert(a * 0 == 0) by (nonlinear_arith);
    vstd::arithmetic::div_mod::lemma_div_of0(SCALE as int);
}

/// Every non-negative integer has an integer square root, so `isqrt_s`
/// denotes it and is non-negative.
pub proof fn lemma_isqrt_exists(n: int)
    requires
        n >= 0,
    ensures
        is_isqrt(n, isqrt_s(n)),
        isqrt_s(n) >= 0,
    decreases n,
{
    if n == 0 {
        assert(is_isqrt(0, 0));
    } else {
        lemma_isqrt_exists(n - 1);
        let r = isqrt_s(n - 1);
        if (r + 1) * (r + 1) <= n {
            assert((r + 1) * (r + 1) <= n < (r + 2) * (r + 2)) by (nonlinear_arith)
                requires
                    0 <= r,
                    r * r <= n - 1,
                    n - 1 < (r + 1) * (r + 1),
                    (r + 1) * (r + 1) <= n,
            ;
            assert(is_isqrt(n, r + 1));
        } else {
            assert(is_isqrt(n, r));
        }
    }
}

/// The integer square root is unique.
pub proof fn lemma_isqrt_unique(n: int, r1: int, r2: int)
    requires
        is_isqrt(n, r1),
        is_isqrt(n, r2),
    ensures
        r1 == r2,
{
    if r1 < r2 {
        assert(r2 * r2 <= n);
        assert((r1 + 1) * (r1 + 1) <= r2 * r2) by (nonlinear_arith)
            requires
                0 <= r1,
                r1 + 1 <= r2,
        ;
    }
    if r2 < r1 {
        assert((r2 + 1) * (r2 + 1) <= r1 * r1) by (nonlinear_arith)
            requires
                0 <= r2,
                r2 + 1 <= r1,
        ;
    }
}

/// Saturate a wide intermediate back to the scalar range.
pub fn sat(p: i128) -> (r: i64)
    ensures
        r == sat_s(p as int),
{
    if p > FX_MAX as i128 {
        FX_MAX
    } else if p < -(FX_MAX as i128) {
        -FX_MAX
    } else {
        p as i64
    }
}

/// Wide quotient rounded toward zero.
fn tdiv128(a: i128, b: i128) -> (r: i128)
    requires
        b != 0,
        a != i128::MIN,
        b != i128::MIN,
    ensures
        r == tdiv_s(a as int, b as int),
        abs_s(r as int) <= abs_s(a as int),
{
    let am: u128 = if a < 0 {
        (-a) as u128
    } else {
        a as u128
    };
    let bm: u128 = if b < 0 {
        (-b) as u128
    } else {
        b as u128
    };
    let q: u128 = am / bm;
    proof {
        assert(am == abs_s(a as int));
        assert(bm == abs_s(b as int));
        vstd::arithmetic::div_mod::lemma_div_nonincreasing(am as int, bm as int);
        assert(q <= am);
    }
    if (a < 0) != (b < 0) {
        -(q as i128)
    } else {
        q as i128
    }
}

/// Integer square root by bisection.
fn isqrt_u(n: u128) -> (r: u128)
    ensures
        is_isqrt(n as int, r as int),
        r == isqrt_s(n as int),
{
    let mut lo: u128 = 0;
    let mut hi: u128 = 0x10000000000000000u128;
    proof {
        assert((n as int) < 0x10000000000000000int * 0x10000000000000000int);
    }
    while lo + 1 < hi
        invariant
            lo < hi,
            hi <= 0x10000000000000000u128,
            lo * lo <= n as int,
            (n as int) < hi * hi,
        decreases hi - lo,
    {
        let mid: u128 = lo + (hi - lo) / 2;
        proof {
            assert(lo < mid < hi);
            assert(mid * mid <= 0xffffffffffffffffu128 * 0xffffffffffffffffu128) by (nonlinear_arith)
                requires
                    0 <= mid,
                    mid <= 0xffffffffffffffffu128,
            ;
        }
        if mid * mid <= n {
            lo = mid;
        } else {
            hi = mid;
        }
    }
    proof {
        assert(hi == lo + 1);
        assert(is_isqrt(n as int, lo as int));
        assert(is_isqrt(n as int, isqrt_s(n as int)));
        lemma_isqrt_unique(n as int, lo as int, isqrt_s(n as int));
    }
    lo
}

/// Saturating sum of two scalars.
pub fn fadd(a: i64, b: i64) -> (r: i64)
    ensures
        r == fadd_s(a as int, b as int),
{
    sat(a as i128 + b as i128)
}

/// Saturating difference of two scalars.
pub fn fsub(a: i64, b: i64) -> (r: i64)
    ensures
        r == fsub_s(a as int, b as int),
{
    sat(a as i128 - b as i128)
}

/// Saturating negation of a scalar.
pub fn fneg(a: i64) -> (r: i64)
    ensures
        r == fneg_s(a as int),
{
    sat(-(a as i128))
}

/// Magnitude of a scalar (saturating at the symmetric bound).
pub fn fabs(a: i64) -> (r: i64)
    ensures
        r == fabs_s(a as int),
{
    if a < 0 {
        sat(-(a as i128))
    } else {
        a
    }
}

/// Fixed-point product of two scalars.
pub fn fmul(a: i64, b: i64) -> (r: i64)
    ensures
        r == fmul_s(a as int, b as int),
{
    proof {
        assert(i128::MIN < (a as int) * (b as int) < i128::MAX) by (nonlinear_arith)
            requires
                i64::MIN <= a <= i64::MAX,
                i64::MIN <= b <= i64::MAX,
        ;
    }
    let p: i128 = (a as i128) * (b as i128);
    sat(tdiv128(p, SCALE as i128))
}

/// Fixed-point quotient of two scalars; the divisor must be non-zero.
pub fn fdiv(a: i64, b: i64) -> (r: i64)
    requires
        b != 0,
    ensures
        r == fdiv_s(a as int, b as int),
{
    let p: i128 = (a as i128) * (SCALE as i128);
    proof {
        assert(i128::MIN < (a as int) * (SCALE as int) < i128::MAX) by (nonlinear_arith)
            requires
                i64::MIN <= a <= i64::MAX,
                SCALE == 65536,
        ;
    }
    sat(tdiv128(p, b as i128))
}

/// Plain integer quotient of a scalar by a positive integer (no rescaling),
/// rounded toward zero.
pub fn fdiv_int(a: i64, b: i64) -> (r: i64)
    requires
        b > 0,
    ensures
        r == tdiv_s(a as int, b as int),
{
    let q: i128 = tdiv128(a as i128, b as i128);
    proof {
        assert(abs_s(q as int) <= abs_s(a as int));
    }
    q as i64
}

/// Fixed-point square root of a non-negative scalar.
pub fn fsqrt(a: i64) -> (r: i64)
    requires
        a >= 0,
    ensures
        r == fsqrt_s(a as int),
        0 <= r < 0x20000000000,
{
    proof {
        assert((a as int) * (SCALE as int) <= 0x7fffffffffffffffint * 65536) by (nonlinear_arith)
            requires
                0 <= a <= 0x7fffffffffffffffi64,
                SCALE == 65536,
        ;
    }
    let n: u128 = (a as u128) * (SCALE as u128);
    let r: u128 = isqrt_u(n);
    proof {
        assert(r < 0x20000000000) by {
            if r >= 0x20000000000 {
                assert(r * r >= 0x20000000000int * 0x20000000000int) by (nonlinear_arith)
                    requires
                        r >= 0x20000000000u128,
                ;
            }
        }
    }
    r as i64
}

/// Fixed-point power with a natural exponent.
pub fn fpow(b: i64, e: u32) -> (r: i64)
    ensures
        r == fpow_s(b as int, e as nat),
{
    let mut acc: i64 = SCALE;
    let mut i: u32 = 0;
    while i < e
        invariant
            i <= e,
            acc == fpow_s(b as int, i as nat),
        decreases e - i,
    {
        acc = fmul(b, acc);
        i = i + 1;
    }
    acc
}

/// The smaller of two scalars.
pub fn fmin(a: i64, b: i64) -> (r: i64)
    ensures
        r == fmin_s(a as int, b as int),
{
    if a < b {
        a
    } else {
        b
    }
}

/// The larger of two scalars.
pub fn fmax(a: i64, b: i64) -> (r: i64)
    ensures
        r == fmax_s(a as int, b as int),
{
    if a < b {
        b
    } else {
        a
    }
}

} // verus!
