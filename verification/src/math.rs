//! Fixed-point vectors, quaternion rotation and angle helpers.

use vstd::prelude::*;

use crate::fx::{
    add_fx, clamp_i64, div_fx, mul_fx, rem_trunc, spec_add_fx, spec_clamp, spec_div_fx,
    spec_mul_fx, spec_sat, spec_tmod, sub_fx, FX_ONE,
};

verus! {

/// Half a turn, in fixed-point radians; chosen divisible by four so that
/// quarter and eighth turns land exactly on the grid.
pub const PI_FX: i64 = 3140;

/// A full turn: exactly two half turns, so that opposite angles are exact.
pub const TAU_FX: i64 = 2 * PI_FX;

/// The mathematical model of a fixed-point vector: three unbounded integers.
pub ghost struct V3 {
    pub x: int,
    pub y: int,
    pub z: int,
}

/// A fixed-point vector in three dimensions.
#[derive(Clone, Copy, Debug, PartialEq, Eq, Structural)]
pub struct TVec3 {
    pub x: i64,
    pub y: i64,
    pub z: i64,
}

impl View for TVec3 {
    type V = V3;

    open spec fn view(&self) -> V3 {
        V3 { x: self.x as int, y: self.y as int, z: self.z as int }
    }
}

pub open spec fn spec_v3(x: int, y: int, z: int) -> V3 {
    V3 { x, y, z }
}

pub open spec fn spec_v3_zero() -> V3 {
    V3 { x: 0, y: 0, z: 0 }
}

pub open spec fn spec_v3_add(a: V3, b: V3) -> V3 {
    V3 { x: spec_add_fx(a.x, b.x), y: spec_add_fx(a.y, b.y), z: spec_add_fx(a.z, b.z) }
}

pub open spec fn spec_v3_sub(a: V3, b: V3) -> V3 {
    V3 { x: spec_sat(a.x - b.x), y: spec_sat(a.y - b.y), z: spec_sat(a.z - b.z) }
}

pub open spec fn spec_v3_neg(a: V3) -> V3 {
    V3 { x: spec_sat(-a.x), y: spec_sat(-a.y), z: spec_sat(-a.z) }
}

/// Component-wise fixed-point product.
pub open spec fn spec_v3_mul(a: V3, b: V3) -> V3 {
    V3 { x: spec_mul_fx(a.x, b.x), y: spec_mul_fx(a.y, b.y), z: spec_mul_fx(a.z, b.z) }
}

/// Fixed-point scaling by a scalar.
pub open spec fn spec_v3_scale(a: V3, s: int) -> V3 {
    V3 { x: spec_mul_fx(a.x, s), y: spec_mul_fx(a.y, s), z: spec_mul_fx(a.z, s) }
}

/// Component-wise fixed-point quotient; zero wherever the divisor is not positive.
pub open spec fn spec_v3_div(a: V3, b: V3) -> V3 {
    V3 { x: spec_div_fx(a.x, b.x), y: spec_div_fx(a.y, b.y), z: spec_div_fx(a.z, b.z) }
}

/// Fixed-point division by a scalar; zero when the scalar is not positive.
pub open spec fn spec_v3_div_scalar(a: V3, s: int) -> V3 {
    V3 { x: spec_div_fx(a.x, s), y: spec_div_fx(a.y, s), z: spec_div_fx(a.z, s) }
}

pub open spec fn spec_v3_clamp(v: V3, lo: V3, hi: V3) -> V3 {
    V3 {
        x: spec_clamp(v.x, lo.x, hi.x),
        y: spec_clamp(v.y, lo.y, hi.y),
        z: spec_clamp(v.z, lo.z, hi.z),
    }
}

pub open spec fn spec_v3_min(a: V3, b: V3) -> V3 {
    V3 {
        x: if a.x <= b.x { a.x } else { b.x },
        y: if a.y <= b.y { a.y } else { b.y },
        z: if a.z <= b.z { a.z } else { b.z },
    }
}

pub open spec fn spec_v3_max(a: V3, b: V3) -> V3 {
    V3 {
        x: if a.x >= b.x { a.x } else { b.x },
        y: if a.y >= b.y { a.y } else { b.y },
        z: if a.z >= b.z { a.z } else { b.z },
    }
}

pub open spec fn spec_max(a: int, b: int) -> int {
    if a >= b {
        a
    } else {
        b
    }
}

pub open spec fn spec_v3_max_element(a: V3) -> int {
    spec_max(spec_max(a.x, a.y), a.z)
}

/// Squared Euclidean length, in squared fixed-point steps.
pub open spec fn spec_v3_norm_sq(a: V3) -> int {
    a.x * a.x + a.y * a.y + a.z * a.z
}

/// Fixed-point cross product.
pub open spec fn spec_v3_cross(a: V3, b: V3) -> V3 {
    V3 {
        x: spec_sat(spec_mul_fx(a.y, b.z) - spec_mul_fx(a.z, b.y)),
        y: spec_sat(spec_mul_fx(a.z, b.x) - spec_mul_fx(a.x, b.z)),
        z: spec_sat(spec_mul_fx(a.x, b.y) - spec_mul_fx(a.y, b.x)),
    }
}

pub open spec fn spec_v3_in_range(v: V3, bound: int) -> bool {
    &&& -bound <= v.x <= bound
    &&& -bound <= v.y <= bound
    &&& -bound <= v.z <= bound
}

/// Component-wise comparison.
pub open spec fn spec_v3_le(a: V3, b: V3) -> bool {
    a.x <= b.x && a.y <= b.y && a.z <= b.z
}

/// Every component is non-negative.
pub open spec fn spec_v3_nonneg(v: V3) -> bool {
    0 <= v.x && 0 <= v.y && 0 <= v.z
}

impl TVec3 {
    pub fn new(x: i64, y: i64, z: i64) -> (r: TVec3)
        ensures
            r@ == spec_v3(x as int, y as int, z as int),
    {
        TVec3 { x, y, z }
    }

    pub fn zero() -> (r: TVec3)
        ensures
            r@ == spec_v3_zero(),
    {
        TVec3 { x: 0, y: 0, z: 0 }
    }

    pub fn splat(v: i64) -> (r: TVec3)
        ensures
            r@ == spec_v3(v as int, v as int, v as int),
    {
        TVec3 { x: v, y: v, z: v }
    }

    pub fn vadd(&self, o: &TVec3) -> (r: TVec3)
        ensures
            r@ == spec_v3_add(self@, o@),
    {
        TVec3 { x: add_fx(self.x, o.x), y: add_fx(self.y, o.y), z: add_fx(self.z, o.z) }
    }

    pub fn vsub(&self, o: &TVec3) -> (r: TVec3)
        ensures
            r@ == spec_v3_sub(self@, o@),
    {
        TVec3 { x: sub_fx(self.x, o.x), y: sub_fx(self.y, o.y), z: sub_fx(self.z, o.z) }
    }

    pub fn vneg(&self) -> (r: TVec3)
        ensures
            r@ == spec_v3_neg(self@),
    {
        TVec3 { x: sub_fx(0, self.x), y: sub_fx(0, self.y), z: sub_fx(0, self.z) }
    }

    pub fn vmul(&self, o: &TVec3) -> (r: TVec3)
        ensures
            r@ == spec_v3_mul(self@, o@),
    {
        TVec3 { x: mul_fx(self.x, o.x), y: mul_fx(self.y, o.y), z: mul_fx(self.z, o.z) }
    }

    pub fn vscale(&self, s: i64) -> (r: TVec3)
        ensures
            r@ == spec_v3_scale(self@, s as int),
    {
        TVec3 { x: mul_fx(self.x, s), y: mul_fx(self.y, s), z: mul_fx(self.z, s) }
    }

    pub fn vdiv(&self, o: &TVec3) -> (r: TVec3)
        ensures
            r@ == spec_v3_div(self@, o@),
    {
        TVec3 { x: div_fx(self.x, o.x), y: div_fx(self.y, o.y), z: div_fx(self.z, o.z) }
    }

    pub fn vdiv_scalar(&self, s: i64) -> (r: TVec3)
        ensures
            r@ == spec_v3_div_scalar(self@, s as int),
    {
        TVec3 { x: div_fx(self.x, s), y: div_fx(self.y, s), z: div_fx(self.z, s) }
    }

    pub fn vmax(&self, o: &TVec3) -> (r: TVec3)
        ensures
            r@ == spec_v3_max(self@, o@),
    {
        TVec3 {
            x: if self.x >= o.x { self.x } else { o.x },
            y: if self.y >= o.y { self.y } else { o.y },
            z: if self.z >= o.z { self.z } else { o.z },
        }
    }

    pub fn vclamp(&self, lo: &TVec3, hi: &TVec3) -> (r: TVec3)
        requires
            spec_v3_le(lo@, hi@),
        ensures
            r@ == spec_v3_clamp(self@, lo@, hi@),
    {
        TVec3 {
            x: clamp_i64(self.x, lo.x, hi.x),
            y: clamp_i64(self.y, lo.y, hi.y),
            z: clamp_i64(self.z, lo.z, hi.z),
        }
    }

    pub fn vmin(&self, o: &TVec3) -> (r: TVec3)
        ensures
            r@ == spec_v3_min(self@, o@),
    {
        TVec3 {
            x: if self.x <= o.x { self.x } else { o.x },
            y: if self.y <= o.y { self.y } else { o.y },
            z: if self.z <= o.z { self.z } else { o.z },
        }
    }

    pub fn max_element(&self) -> (r: i64)
        ensures
            r == spec_v3_max_element(self@),
    {
        let xy: i64 = if self.x >= self.y { self.x } else { self.y };
        if xy >= self.z { xy } else { self.z }
    }

    pub fn vcross(&self, o: &TVec3) -> (r: TVec3)
        ensures
            r@ == spec_v3_cross(self@, o@),
    {
        TVec3 {
            x: sub_fx(mul_fx(self.y, o.z), mul_fx(self.z, o.y)),
            y: sub_fx(mul_fx(self.z, o.x), mul_fx(self.x, o.z)),
            z: sub_fx(mul_fx(self.x, o.y), mul_fx(self.y, o.x)),
        }
    }

    /// Squared length, exact: wide enough that no square can overflow.
    pub fn norm_sq(&self) -> (r: u128)
        ensures
            r == spec_v3_norm_sq(self@),
    {
        let x: i128 = self.x as i128;
        let y: i128 = self.y as i128;
        let z: i128 = self.z as i128;
        proof {
            assert(0 <= x * x <= 0x4000_0000_0000_0000_0000_0000_0000_0000) by (nonlinear_arith)
                requires
                    -0x8000_0000_0000_0000 <= x <= 0x7fff_ffff_ffff_ffff,
            ;
            assert(0 <= y * y <= 0x4000_0000_0000_0000_0000_0000_0000_0000) by (nonlinear_arith)
                requires
                    -0x8000_0000_0000_0000 <= y <= 0x7fff_ffff_ffff_ffff,
            ;
            assert(0 <= z * z <= 0x4000_0000_0000_0000_0000_0000_0000_0000) by (nonlinear_arith)
                requires
                    -0x8000_0000_0000_0000 <= z <= 0x7fff_ffff_ffff_ffff,
            ;
        }
        (x * x) as u128 + (y * y) as u128 + (z * z) as u128
    }
}

/// Clamping a vector leaves it unchanged when it is already in range, so
/// clamping twice is the same as clamping once.
pub proof fn lemma_v3_clamp_idempotent(v: V3, lo: V3, hi: V3)
    requires
        spec_v3_le(lo, hi),
    ensures
        spec_v3_clamp(spec_v3_clamp(v, lo, hi), lo, hi) == spec_v3_clamp(v, lo, hi),
{
}

/// The smallest non-negative angle equivalent to `angle`, in `[0, TAU_FX)`.
pub open spec fn spec_spea(a: int) -> int {
    let m = spec_tmod(a, TAU_FX as int);
    if m < 0 {
        m + TAU_FX
    } else {
        m
    }
}

/// The equivalent angle of smallest magnitude, in `[-PI_FX, PI_FX]`.
pub open spec fn spec_smallest_equivalent(a: int) -> int {
    let m = spec_tmod(a, TAU_FX as int);
    if m > PI_FX {
        m - TAU_FX
    } else if m < -PI_FX {
        m + TAU_FX
    } else {
        m
    }
}

/// The absolute angular distance between two angles, in `[0, PI_FX]`.
pub open spec fn spec_delta_angle(a: int, b: int) -> int {
    let d = spec_spea(a) - spec_spea(b);
    let m = if d >= 0 {
        d
    } else {
        -d
    };
    if m > PI_FX {
        TAU_FX - m
    } else {
        m
    }
}

pub fn smallest_positve_equivalent_angle_rad(angle: i64) -> (r: i64)
    ensures
        r == spec_spea(angle as int),
{
    let m: i64 = rem_trunc(angle, TAU_FX);
    if m < 0 {
        m + TAU_FX
    } else {
        m
    }
}

pub fn smallest_equivalent_angle_radians(angle: i64) -> (r: i64)
    ensures
        r == spec_smallest_equivalent(angle as int),
{
    let m: i64 = rem_trunc(angle, TAU_FX);
    if m > PI_FX {
        m - TAU_FX
    } else if m < -PI_FX {
        m + TAU_FX
    } else {
        m
    }
}

pub fn delta_angle_radians(a: i64, b: i64) -> (r: i64)
    ensures
        r == spec_delta_angle(a as int, b as int),
{
    let spea1: i64 = smallest_positve_equivalent_angle_rad(a);
    let spea2: i64 = smallest_positve_equivalent_angle_rad(b);
    let d: i64 = spea1 - spea2;
    let m: i64 = if d >= 0 {
        d
    } else {
        -d
    };
    if m > PI_FX {
        TAU_FX - m
    } else {
        m
    }
}

/// The smallest non-negative equivalent of any angle lies in `[0, TAU_FX)`.
pub proof fn lemma_spea_range(a: int)
    ensures
        0 <= spec_spea(a) < TAU_FX,
{
}

/// The angular distance between any two angles lies in `[0, PI_FX]`.
pub proof fn lemma_delta_angle_range(a: int, b: int)
    ensures
        0 <= spec_delta_angle(a, b) <= PI_FX,
{
    lemma_spea_range(a);
    lemma_spea_range(b);
}

/// An angle is at distance zero from itself.
pub proof fn lemma_delta_angle_self(a: int)
    ensures
        spec_delta_angle(a, a) == 0,
{
}

/// The model of a fixed-point quaternion.
pub ghost struct Q4 {
    pub x: int,
    pub y: int,
    pub z: int,
    pub w: int,
}

/// A fixed-point quaternion describing an orientation.
#[derive(Clone, Copy, Debug, PartialEq, Eq, Structural)]
pub struct TQuat {
    pub x: i64,
    pub y: i64,
    pub z: i64,
    pub w: i64,
}

impl View for TQuat {
    type V = Q4;

    open spec fn view(&self) -> Q4 {
        Q4 { x: self.x as int, y: self.y as int, z: self.z as int, w: self.w as int }
    }
}

pub open spec fn spec_quat_vector(q: Q4) -> V3 {
    V3 { x: q.x, y: q.y, z: q.z }
}

pub open spec fn spec_quat_conjugate(q: Q4) -> Q4 {
    Q4 { x: spec_sat(-q.x), y: spec_sat(-q.y), z: spec_sat(-q.z), w: q.w }
}

/// Rotation of a vector by a unit quaternion, in fixed point:
/// `v + w*t + qv x t` where `t = 2 * (qv x v)`.
pub open spec fn spec_quat_rotate(q: Q4, v: V3) -> V3 {
    let qv = spec_quat_vector(q);
    let c = spec_v3_cross(qv, v);
    let t = spec_v3_add(c, c);
    spec_v3_add(spec_v3_add(v, spec_v3_scale(t, q.w)), spec_v3_cross(qv, t))
}

impl TQuat {
    pub fn new(x: i64, y: i64, z: i64, w: i64) -> (r: TQuat)
        ensures
            r@ == (Q4 { x: x as int, y: y as int, z: z as int, w: w as int }),
    {
        TQuat { x, y, z, w }
    }

    /// The identity orientation.
    pub fn identity() -> (r: TQuat)
        ensures
            r@ == (Q4 { x: 0, y: 0, z: 0, w: FX_ONE as int }),
    {
        TQuat { x: 0, y: 0, z: 0, w: FX_ONE }
    }

    pub fn conjugate(&self) -> (r: TQuat)
        ensures
            r@ == spec_quat_conjugate(self@),
    {
        TQuat { x: sub_fx(0, self.x), y: sub_fx(0, self.y), z: sub_fx(0, self.z), w: self.w }
    }

    pub fn rotate(&self, v: &TVec3) -> (r: TVec3)
        ensures
            r@ == spec_quat_rotate(self@, v@),
    {
        let qv = TVec3 { x: self.x, y: self.y, z: self.z };
        let c = qv.vcross(v);
        let t = c.vadd(&c);
        v.vadd(&t.vscale(self.w)).vadd(&qv.vcross(&t))
    }
}

} // verus!
