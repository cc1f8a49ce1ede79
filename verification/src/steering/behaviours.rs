//! The pure steering laws: each behaviour is a function from world state
//! to a desired-velocity vector.

use vstd::prelude::*;

use crate::fx::{
    isqrt_u128, sat_i128, spec_sat, spec_sqrt, spec_tdiv, tdiv_i128, FX_MAX, FX_ONE,
};
use crate::math::{
    spec_v3_clamp, spec_v3_le, spec_v3_neg, spec_v3_nonneg, spec_v3_norm_sq, spec_v3_sub,
    spec_v3_zero, TVec3, V3,
};

verus! {

/// The unit vector along `d`, fixed point: each component is scaled by
/// `FX_ONE` and divided by one more than the floored length, so the
/// result's length never exceeds one unit. Zero for the zero vector.
pub open spec fn spec_v3_normalize(d: V3) -> V3 {
    if spec_v3_norm_sq(d) == 0 {
        spec_v3_zero()
    } else {
        let den = spec_sqrt(spec_v3_norm_sq(d)) + 1;
        V3 {
            x: spec_sat(spec_tdiv(d.x * FX_ONE, den)),
            y: spec_sat(spec_tdiv(d.y * FX_ONE, den)),
            z: spec_sat(spec_tdiv(d.z * FX_ONE, den)),
        }
    }
}

/// The desired-velocity-toward-target law: the normalized direction from
/// the current position to the target position.
pub open spec fn spec_seek_position(current_pos: V3, target_pos: V3) -> V3 {
    spec_v3_normalize(spec_v3_sub(target_pos, current_pos))
}

/// Scale `d` to length `speed`: each component times `speed` over one
/// more than the floored length of `d`.
pub open spec fn spec_v3_with_speed(d: V3, speed: int) -> V3 {
    let den = spec_sqrt(spec_v3_norm_sq(d)) + 1;
    V3 {
        x: spec_sat(spec_tdiv(d.x * speed, den)),
        y: spec_sat(spec_tdiv(d.y * speed, den)),
        z: spec_sat(spec_tdiv(d.z * speed, den)),
    }
}

/// The arrive law: a velocity toward the target that slows linearly
/// inside the deceleration radius, is zero within the arrival tolerance,
/// and never exceeds the velocity limit or the available acceleration.
pub open spec fn spec_arrive_at_position(
    current_pos: V3,
    target_pos: V3,
    with_speed: int,
    arrival_tolerance: int,
    deceleration_radius: Option<int>,
    linvel_limit: V3,
    avail_accel: V3,
) -> V3 {
    let d = spec_v3_sub(target_pos, current_pos);
    let n = spec_v3_norm_sq(d);
    if n <= arrival_tolerance * arrival_tolerance {
        spec_v3_zero()
    } else {
        let den = spec_sqrt(n) + 1;
        let base_speed = spec_sat(with_speed);
        let speed = match deceleration_radius {
            Option::Some(radius) => if den < radius {
                spec_sat(spec_tdiv(base_speed * den, radius))
            } else {
                base_speed
            },
            Option::None => base_speed,
        };
        spec_v3_clamp(
            spec_v3_clamp(
                spec_v3_with_speed(d, speed),
                spec_v3_neg(linvel_limit),
                linvel_limit,
            ),
            spec_v3_neg(avail_accel),
            avail_accel,
        )
    }
}

fn normalize_denominator(d: &TVec3) -> (den: u64)
    ensures
        den == spec_sqrt(spec_v3_norm_sq(d@)) + 1,
        1 <= den <= 16_000_000_000_000_000_001,
{
    let n: u128 = d.norm_sq();
    proof {
        assert(d@.x * d@.x <= 0x4000_0000_0000_0000_0000_0000_0000_0000 && d@.y * d@.y
            <= 0x4000_0000_0000_0000_0000_0000_0000_0000 && d@.z * d@.z
            <= 0x4000_0000_0000_0000_0000_0000_0000_0000) by (nonlinear_arith)
            requires
                -0x8000_0000_0000_0000 <= d@.x <= 0x7fff_ffff_ffff_ffff,
                -0x8000_0000_0000_0000 <= d@.y <= 0x7fff_ffff_ffff_ffff,
                -0x8000_0000_0000_0000 <= d@.z <= 0x7fff_ffff_ffff_ffff,
        ;
    }
    let root: u64 = isqrt_u128(n);
    proof {
        assert(root as int <= 16_000_000_000_000_000_000) by (nonlinear_arith)
            requires
                (root as int) * (root as int) <= n as int,
                n as int <= 0xC000_0000_0000_0000_0000_0000_0000_0000,
        ;
    }
    root + 1
}

fn scale_along(d: &TVec3, num: i64, den: u64) -> (r: TVec3)
    requires
        den >= 1,
        -FX_MAX <= num <= FX_MAX,
    ensures
        r@ == (V3 {
            x: spec_sat(spec_tdiv(d@.x * num, den as int)),
            y: spec_sat(spec_tdiv(d@.y * num, den as int)),
            z: spec_sat(spec_tdiv(d@.z * num, den as int)),
        }),
{
    proof {
        assert(-0x4000_0000_0000_0000_0000_0000_0000_0000 < d@.x * num
            && d@.x * num < 0x4000_0000_0000_0000_0000_0000_0000_0000
            && -0x4000_0000_0000_0000_0000_0000_0000_0000 < d@.y * num
            && d@.y * num < 0x4000_0000_0000_0000_0000_0000_0000_0000
            && -0x4000_0000_0000_0000_0000_0000_0000_0000 < d@.z * num
            && d@.z * num < 0x4000_0000_0000_0000_0000_0000_0000_0000) by (nonlinear_arith)
            requires
                -0x8000_0000_0000_0000 <= d@.x <= 0x7fff_ffff_ffff_ffff,
                -0x8000_0000_0000_0000 <= d@.y <= 0x7fff_ffff_ffff_ffff,
                -0x8000_0000_0000_0000 <= d@.z <= 0x7fff_ffff_ffff_ffff,
                -4_000_000_000_000_000 <= num as int <= 4_000_000_000_000_000,
        ;
    }
    let x: i64 = sat_i128(tdiv_i128(d.x as i128 * num as i128, den as i128));
    let y: i64 = sat_i128(tdiv_i128(d.y as i128 * num as i128, den as i128));
    let z: i64 = sat_i128(tdiv_i128(d.z as i128 * num as i128, den as i128));
    TVec3 { x, y, z }
}

/// Seek: the normalized direction from the craft's position toward the
/// target's position.
pub fn seek_position(current_pos: &TVec3, target_pos: &TVec3) -> (r: TVec3)
    ensures
        r@ == spec_seek_position(current_pos@, target_pos@),
{
    let d = target_pos.vsub(current_pos);
    let n: u128 = d.norm_sq();
    if n == 0 {
        TVec3::zero()
    } else {
        let den = normalize_denominator(&d);
        scale_along(&d, FX_ONE, den)
    }
}

/// Arrive: a velocity that decelerates smoothly from the current position
/// toward the target, honoring the deceleration radius and the arrival
/// tolerance, clamped to the velocity limit and the available
/// acceleration; zero when within tolerance.
pub fn arrive_at_position(
    current_pos: &TVec3,
    target_pos: &TVec3,
    with_speed: i64,
    arrival_tolerance: i64,
    deceleration_radius: Option<i64>,
    linvel_limit: &TVec3,
    avail_accel: &TVec3,
) -> (r: TVec3)
    requires
        0 <= arrival_tolerance,
        spec_v3_nonneg(linvel_limit@),
        spec_v3_nonneg(avail_accel@),
    ensures
        r@ == spec_arrive_at_position(
            current_pos@,
            target_pos@,
            with_speed as int,
            arrival_tolerance as int,
            match deceleration_radius {
                Option::Some(radius) => Option::Some(radius as int),
                Option::None => Option::<int>::None,
            },
            linvel_limit@,
            avail_accel@,
        ),
{
    let d = target_pos.vsub(current_pos);
    let n: u128 = d.norm_sq();
    proof {
        assert(0 <= (arrival_tolerance as int) * (arrival_tolerance as int)
            <= 0x4000_0000_0000_0000_0000_0000_0000_0000) by (nonlinear_arith)
            requires
                0 <= arrival_tolerance as int <= 0x7fff_ffff_ffff_ffff,
        ;
    }
    let tolerance_sq: u128 = (arrival_tolerance as u128) * (arrival_tolerance as u128);
    if n <= tolerance_sq {
        TVec3::zero()
    } else {
        let den = normalize_denominator(&d);
        let base_speed: i64 = sat_i128(with_speed as i128);
        let speed: i64 = match deceleration_radius {
            Option::Some(radius) => {
                if 1 <= radius && den < radius as u64 {
                    proof {
                        assert(-0x4000_0000_0000_0000_0000_0000_0000_0000 < base_speed as int * (
                        den as int) && base_speed as int * (den as int)
                            < 0x4000_0000_0000_0000_0000_0000_0000_0000) by (nonlinear_arith)
                            requires
                                -4_000_000_000_000_000 <= base_speed as int
                                    <= 4_000_000_000_000_000,
                                1 <= den as int <= 16_000_000_000_000_000_001,
                        ;
                    }
                    sat_i128(tdiv_i128(base_speed as i128 * den as i128, radius as i128))
                } else {
                    base_speed
                }
            },
            Option::None => base_speed,
        };
        let v = scale_along(&d, speed, den);
        v.vclamp(&linvel_limit.vneg(), linvel_limit).vclamp(&avail_accel.vneg(), avail_accel)
    }
}

/// Within the arrival tolerance the arrive law outputs zero: the craft
/// holds station instead of hunting.
pub proof fn lemma_arrive_within_tolerance_is_zero(
    current_pos: V3,
    target_pos: V3,
    with_speed: int,
    arrival_tolerance: int,
    deceleration_radius: Option<int>,
    linvel_limit: V3,
    avail_accel: V3,
)
    requires
        spec_v3_norm_sq(spec_v3_sub(target_pos, current_pos)) <= arrival_tolerance
            * arrival_tolerance,
    ensures
        spec_arrive_at_position(
            current_pos,
            target_pos,
            with_speed,
            arrival_tolerance,
            deceleration_radius,
            linvel_limit,
            avail_accel,
        ) == spec_v3_zero(),
{
}

/// The arrive law never commands more than the available acceleration:
/// each component is clamped into it, and therefore the commanded
/// magnitude is at most the magnitude of `avail_accel`.
pub proof fn lemma_arrive_bounded_by_avail_accel(
    current_pos: V3,
    target_pos: V3,
    with_speed: int,
    arrival_tolerance: int,
    deceleration_radius: Option<int>,
    linvel_limit: V3,
    avail_accel: V3,
)
    requires
        spec_v3_nonneg(avail_accel),
        0 <= arrival_tolerance,
    ensures
        spec_v3_le(
            spec_v3_neg(avail_accel),
            spec_arrive_at_position(
                current_pos,
                target_pos,
                with_speed,
                arrival_tolerance,
                deceleration_radius,
                linvel_limit,
                avail_accel,
            ),
        ),
        spec_v3_le(
            spec_arrive_at_position(
                current_pos,
                target_pos,
                with_speed,
                arrival_tolerance,
                deceleration_radius,
                linvel_limit,
                avail_accel,
            ),
            avail_accel,
        ),
        spec_v3_norm_sq(
            spec_arrive_at_position(
                current_pos,
                target_pos,
                with_speed,
                arrival_tolerance,
                deceleration_radius,
                linvel_limit,
                avail_accel,
            ),
        ) <= spec_v3_norm_sq(avail_accel),
{
    let out = spec_arrive_at_position(
        current_pos,
        target_pos,
        with_speed,
        arrival_tolerance,
        deceleration_radius,
        linvel_limit,
        avail_accel,
    );
    let d = spec_v3_sub(target_pos, current_pos);
    if spec_v3_norm_sq(d) <= arrival_tolerance * arrival_tolerance {
        assert(spec_v3_norm_sq(avail_accel) >= 0) by (nonlinear_arith)
            requires
                avail_accel.x >= 0,
                avail_accel.y >= 0,
                avail_accel.z >= 0,
        ;
    } else {
        assert(out.x * out.x <= avail_accel.x * avail_accel.x) by (nonlinear_arith)
            requires
                -avail_accel.x <= out.x <= avail_accel.x,
        ;
        assert(out.y * out.y <= avail_accel.y * avail_accel.y) by (nonlinear_arith)
            requires
                -avail_accel.y <= out.y <= avail_accel.y,
        ;
        assert(out.z * out.z <= avail_accel.z * avail_accel.z) by (nonlinear_arith)
            requires
                -avail_accel.z <= out.z <= avail_accel.z,
        ;
    }
}

} // verus!
