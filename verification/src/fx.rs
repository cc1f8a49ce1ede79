//! Saturating fixed-point scalars.
//!
//! A quantity is an `i64` counting [`FX_ONE`] steps per unit (metres,
//! metres per second, radians, ...). Every arithmetic helper computes in
//! wide integers and saturates its result to `[-FX_MAX, FX_MAX]`, so no
//! operation can overflow or panic whatever its inputs are.

use vstd::prelude::*;

verus! {

/// Fixed-point steps per whole unit.
pub const FX_ONE: i64 = 1000;

/// Magnitude bound that every saturating operation keeps its result in.
pub const FX_MAX: i64 = 4_000_000_000_000_000;

/// Division truncated toward zero, for a positive divisor.
/// (`/` on `int` is Euclidean; executable code on magnitudes truncates.)
pub open spec fn spec_tdiv(a: int, b: int) -> int {
    if a >= 0 {
        a / b
    } else {
        -((-a) / b)
    }
}

/// Remainder matching [`spec_tdiv`]: same sign as `a`, for a positive divisor.
pub open spec fn spec_tmod(a: int, b: int) -> int {
    if a >= 0 {
        a % b
    } else {
        -((-a) % b)
    }
}

/// Saturation to the representable magnitude range.
pub open spec fn spec_sat(x: int) -> int {
    if x < -FX_MAX {
        -FX_MAX as int
    } else if x > FX_MAX {
        FX_MAX as int
    } else {
        x
    }
}

/// Clamping of `v` into `[lo, hi]`.
pub open spec fn spec_clamp(v: int, lo: int, hi: int) -> int {
    if v < lo {
        lo
    } else if v > hi {
        hi
    } else {
        v
    }
}

/// Saturating fixed-point sum.
pub open spec fn spec_add_fx(a: int, b: int) -> int {
    spec_sat(a + b)
}

/// Saturating fixed-point product: rescaled, truncated toward zero.
pub open spec fn spec_mul_fx(a: int, b: int) -> int {
    spec_sat(spec_tdiv(a * b, FX_ONE as int))
}

/// Saturating fixed-point quotient; a non-positive divisor yields zero,
/// so no caller can divide by an unresolved physical property.
pub open spec fn spec_div_fx(a: int, b: int) -> int {
    if b <= 0 {
        0
    } else {
        spec_sat(spec_tdiv(a * FX_ONE, b))
    }
}

/// A product of non-negative factors stays non-negative through rescaling
/// and saturation.
pub proof fn lemma_mul_fx_nonneg(a: int, b: int)
    requires
        a >= 0,
        b >= 0,
    ensures
        spec_mul_fx(a, b) >= 0,
        spec_mul_fx(a, b) <= FX_MAX,
{
    assert(a * b >= 0) by (nonlinear_arith)
        requires
            a >= 0,
            b >= 0,
    ;
}

/// A quotient of a non-negative value by any divisor is non-negative.
pub proof fn lemma_div_fx_nonneg(a: int, b: int)
    requires
        a >= 0,
    ensures
        spec_div_fx(a, b) >= 0,
        spec_div_fx(a, b) <= FX_MAX,
{
    if b > 0 {
        assert(a * FX_ONE >= 0) by (nonlinear_arith)
            requires
                a >= 0,
                FX_ONE == 1000i64,
        ;
    }
}

/// Clamping a value leaves it unchanged when it is already in range, so
/// clamping twice is the same as clamping once.
pub proof fn lemma_clamp_idempotent(v: int, lo: int, hi: int)
    requires
        lo <= hi,
    ensures
        spec_clamp(spec_clamp(v, lo, hi), lo, hi) == spec_clamp(v, lo, hi),
{
}

pub fn clamp_i64(v: i64, lo: i64, hi: i64) -> (r: i64)
    requires
        lo <= hi,
    ensures
        r == spec_clamp(v as int, lo as int, hi as int),
{
    if v < lo {
        lo
    } else if v > hi {
        hi
    } else {
        v
    }
}

pub(crate) fn sat_i128(x: i128) -> (r: i64)
    ensures
        r == spec_sat(x as int),
{
    if x < -FX_MAX as i128 {
        -FX_MAX
    } else if x > FX_MAX as i128 {
        FX_MAX
    } else {
        x as i64
    }
}

/// Truncated-toward-zero division of a wide value by a positive divisor.
pub(crate) fn tdiv_i128(a: i128, b: i128) -> (r: i128)
    requires
        b > 0,
        -0x4000_0000_0000_0000_0000_0000_0000_0000 < a,
    ensures
        r == spec_tdiv(a as int, b as int),
{
    if a >= 0 {
        let m: u128 = a as u128;
        let q: u128 = m / (b as u128);
        assert(q == (a as int) / (b as int)) by {
            assert(m as int == a as int);
            assert((b as u128) as int == b as int);
        }
        assert(q <= m);
        q as i128
    } else {
        let m: u128 = (-a) as u128;
        let q: u128 = m / (b as u128);
        assert(q == (-(a as int)) / (b as int)) by {
            assert(m as int == -(a as int));
        }
        assert(q <= m);
        -(q as i128)
    }
}

pub fn add_fx(a: i64, b: i64) -> (r: i64)
    ensures
        r == spec_add_fx(a as int, b as int),
{
    let s: i128 = a as i128 + b as i128;
    sat_i128(s)
}

pub fn sub_fx(a: i64, b: i64) -> (r: i64)
    ensures
        r == spec_sat(a - b),
{
    let s: i128 = a as i128 - b as i128;
    sat_i128(s)
}

/// Remainder truncated toward zero, total over all of `i64`.
pub fn rem_trunc(a: i64, b: i64) -> (r: i64)
    requires
        b > 0,
    ensures
        r == spec_tmod(a as int, b as int),
        -b < r < b,
{
    if a >= 0 {
        let m: u64 = a as u64;
        let q: u64 = m % (b as u64);
        q as i64
    } else {
        let wide: i128 = a as i128;
        let m: u128 = (-wide) as u128;
        let q: u128 = m % (b as u128);
        assert(q == (-(a as int)) % (b as int)) by {
            assert(m as int == -(a as int));
        }
        -(q as i64)
    }
}

pub fn mul_fx(a: i64, b: i64) -> (r: i64)
    ensures
        r == spec_mul_fx(a as int, b as int),
{
    proof {
        assert(-0x4000_0000_0000_0000_0000_0000_0000_0000 < a as int * b as int
            <= 0x4000_0000_0000_0000_0000_0000_0000_0000) by (nonlinear_arith)
            requires
                -0x8000_0000_0000_0000 <= a as int <= 0x7fff_ffff_ffff_ffff,
                -0x8000_0000_0000_0000 <= b as int <= 0x7fff_ffff_ffff_ffff,
        ;
    }
    let p: i128 = a as i128 * b as i128;
    let q: i128 = tdiv_i128(p, FX_ONE as i128);
    sat_i128(q)
}

pub fn div_fx(a: i64, b: i64) -> (r: i64)
    ensures
        r == spec_div_fx(a as int, b as int),
{
    if b <= 0 {
        0
    } else {
        proof {
            assert(-0x4000_0000_0000_0000_0000_0000_0000_0000 < a as int * FX_ONE as int
                <= 0x4000_0000_0000_0000_0000_0000_0000_0000) by (nonlinear_arith)
                requires
                    -0x8000_0000_0000_0000 <= a as int <= 0x7fff_ffff_ffff_ffff,
                    FX_ONE == 1000i64,
            ;
        }
        let p: i128 = a as i128 * FX_ONE as i128;
        let q: i128 = tdiv_i128(p, b as i128);
        sat_i128(q)
    }
}

/// `r` is the integer square root of a non-negative `x`.
pub open spec fn is_sqrt_floor(x: int, r: int) -> bool {
    &&& 0 <= r
    &&& r * r <= x
    &&& x < (r + 1) * (r + 1)
}

/// The integer square root itself, as a named value for contracts.
pub open spec fn spec_sqrt(x: int) -> int {
    choose|r: int| is_sqrt_floor(x, r)
}

/// Two integer square roots of the same value are equal.
pub proof fn lemma_sqrt_unique(x: int, r1: int, r2: int)
    requires
        is_sqrt_floor(x, r1),
        is_sqrt_floor(x, r2),
    ensures
        r1 == r2,
{
    if r1 < r2 {
        assert((r1 + 1) * (r1 + 1) <= r2 * r2) by (nonlinear_arith)
            requires
                0 <= r1,
                r1 + 1 <= r2,
        ;
    }
    if r2 < r1 {
        assert((r2 + 1) * (r2 + 1) <= r1 * r1) by (nonlinear_arith)
            requires
                0 <= r2,
                r2 + 1 <= r1,
        ;
    }
}

/// Any witness of [`is_sqrt_floor`] pins [`spec_sqrt`] down.
pub proof fn lemma_sqrt_is(x: int, r: int)
    requires
        is_sqrt_floor(x, r),
    ensures
        spec_sqrt(x) == r,
{
    let w: int = choose|w: int| is_sqrt_floor(x, w);
    assert(is_sqrt_floor(x, w));
    lemma_sqrt_unique(x, w, r);
}

/// Integer square root by bisection.
pub fn isqrt_u128(x: u128) -> (r: u64)
    ensures
        is_sqrt_floor(x as int, r as int),
        r == spec_sqrt(x as int),
{
    let mut lo: u128 = 0;
    let mut hi: u128 = 0x1_0000_0000_0000_0000;
    assert(x < hi * hi) by (nonlinear_arith)
        requires
            x <= u128::MAX,
            hi == 0x1_0000_0000_0000_0000u128,
    ;
    while hi - lo > 1
        invariant
            lo < hi,
            hi <= 0x1_0000_0000_0000_0000,
            lo * lo <= x,
            x < hi * hi,
        decreases hi - lo,
    {
        let mid: u128 = lo + (hi - lo) / 2;
        assert(lo < mid < hi);
        assert(mid * mid <= u128::MAX) by (nonlinear_arith)
            requires
                mid < 0x1_0000_0000_0000_0000u128,
        ;
        if mid * mid <= x {
            lo = mid;
        } else {
            hi = mid;
        }
    }
    assert(hi == lo + 1);
    proof {
        lemma_sqrt_is(x as int, lo as int);
    }
    lo as u64
}

} // verus!
