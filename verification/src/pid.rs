//! A closed-loop proportional-integral-derivative controller over
//! fixed-point vectors.

use vstd::prelude::*;

use crate::math::{
    spec_v3_add, spec_v3_le, spec_v3_max, spec_v3_min, spec_v3_mul, spec_v3_scale, spec_v3_sub,
    spec_v3_div_scalar, spec_v3_zero, TVec3, V3,
};

verus! {

/// The mathematical model of the controller: gains, integral clamp and
/// accumulated state.
pub ghost struct PidModel {
    pub proportional_gain: V3,
    pub integrat_gain: V3,
    pub differntial_gain: V3,
    pub integrat_max: V3,
    pub integrat_min: V3,
    pub integral: V3,
    pub last_error: V3,
}

/// A per-axis closed-loop controller turning an error signal into a
/// corrective output. The integral accumulator is clamped to
/// `[integrat_min, integrat_max]` to prevent windup; the clamp itself may
/// be tightened between updates by the caller.
#[derive(Clone, Copy, Debug)]
pub struct PIDControllerVec3 {
    pub proportional_gain: TVec3,
    pub integrat_gain: TVec3,
    pub differntial_gain: TVec3,
    pub integrat_max: TVec3,
    pub integrat_min: TVec3,
    pub integral: TVec3,
    pub last_error: TVec3,
}

impl View for PIDControllerVec3 {
    type V = PidModel;

    open spec fn view(&self) -> PidModel {
        PidModel {
            proportional_gain: self.proportional_gain@,
            integrat_gain: self.integrat_gain@,
            differntial_gain: self.differntial_gain@,
            integrat_max: self.integrat_max@,
            integrat_min: self.integrat_min@,
            integral: self.integral@,
            last_error: self.last_error@,
        }
    }
}

/// The integral accumulator after one update: it gains `error * dt` and is
/// then clamped into `[integrat_min, integrat_max]`.
pub open spec fn spec_pid_integral_next(m: PidModel, error: V3, dt: int) -> V3 {
    spec_v3_max(m.integrat_min, spec_v3_min(
        spec_v3_add(m.integral, spec_v3_scale(error, dt)),
        m.integrat_max,
    ))
}

/// The derivative term input: the rate of change of the error, or zero
/// when `dt` is not positive, so that no update divides by zero.
pub open spec fn spec_pid_derivative(m: PidModel, error: V3, dt: int) -> V3 {
    spec_v3_div_scalar(spec_v3_sub(error, m.last_error), dt)
}

/// The controller output: the unclamped sum of the three gain-scaled
/// terms. Callers are responsible for any further saturation.
pub open spec fn spec_pid_output(m: PidModel, error: V3, dt: int) -> V3 {
    spec_v3_add(
        spec_v3_add(
            spec_v3_mul(m.proportional_gain, error),
            spec_v3_mul(m.integrat_gain, spec_pid_integral_next(m, error, dt)),
        ),
        spec_v3_mul(m.differntial_gain, spec_pid_derivative(m, error, dt)),
    )
}

impl PIDControllerVec3 {
    pub fn new(
        proportional_gain: TVec3,
        integrat_gain: TVec3,
        differntial_gain: TVec3,
        integrat_max: TVec3,
        integrat_min: TVec3,
    ) -> (r: PIDControllerVec3)
        ensures
            r@.proportional_gain == proportional_gain@,
            r@.integrat_gain == integrat_gain@,
            r@.differntial_gain == differntial_gain@,
            r@.integrat_max == integrat_max@,
            r@.integrat_min == integrat_min@,
            r@.integral == spec_v3_zero(),
            r@.last_error == spec_v3_zero(),
    {
        PIDControllerVec3 {
            proportional_gain,
            integrat_gain,
            differntial_gain,
            integrat_max,
            integrat_min,
            integral: TVec3::zero(),
            last_error: TVec3::zero(),
        }
    }

    /// One closed-loop step: accumulate the clamped integral, difference
    /// the error for the derivative, and emit the sum of the three terms.
    pub fn update(&mut self, current: TVec3, error: TVec3, dt: i64) -> (r: TVec3)
        ensures
            r@ == spec_pid_output(old(self)@, error@, dt as int),
            final(self)@.integral == spec_pid_integral_next(old(self)@, error@, dt as int),
            final(self)@.last_error == error@,
            final(self)@.proportional_gain == old(self)@.proportional_gain,
            final(self)@.integrat_gain == old(self)@.integrat_gain,
            final(self)@.differntial_gain == old(self)@.differntial_gain,
            final(self)@.integrat_max == old(self)@.integrat_max,
            final(self)@.integrat_min == old(self)@.integrat_min,
    {
        let _ = current;
        let grown = self.integral.vadd(&error.vscale(dt));
        self.integral = self.integrat_min.vmax(&grown.vmin(&self.integrat_max));
        let derivative = error.vsub(&self.last_error).vdiv_scalar(dt);
        let out = self
            .proportional_gain
            .vmul(&error)
            .vadd(&self.integrat_gain.vmul(&self.integral))
            .vadd(&self.differntial_gain.vmul(&derivative));
        self.last_error = error;
        out
    }
}

/// With zero integral and derivative gains the output is exactly the
/// proportional gain times the error, whatever the accumulated state.
pub proof fn lemma_pid_proportional_only(m: PidModel, error: V3, dt: int)
    requires
        m.integrat_gain == spec_v3_zero(),
        m.differntial_gain == spec_v3_zero(),
    ensures
        spec_pid_output(m, error, dt) == spec_v3_mul(m.proportional_gain, error),
{
}

/// For a proportional-only controller the output does not depend on the
/// internal state at all, so it is the same however many updates have
/// already run.
pub proof fn lemma_pid_proportional_call_count_independent(
    m1: PidModel,
    m2: PidModel,
    error: V3,
    dt1: int,
    dt2: int,
)
    requires
        m1.proportional_gain == m2.proportional_gain,
        m1.integrat_gain == spec_v3_zero(),
        m2.integrat_gain == spec_v3_zero(),
        m1.differntial_gain == spec_v3_zero(),
        m2.differntial_gain == spec_v3_zero(),
    ensures
        spec_pid_output(m1, error, dt1) == spec_pid_output(m2, error, dt2),
{
    lemma_pid_proportional_only(m1, error, dt1);
    lemma_pid_proportional_only(m2, error, dt2);
}

/// Whatever errors are fed in, the integral accumulator stays within the
/// configured clamp.
pub proof fn lemma_pid_integral_bounded(m: PidModel, error: V3, dt: int)
    requires
        spec_v3_le(m.integrat_min, m.integrat_max),
    ensures
        spec_v3_le(m.integrat_min, spec_pid_integral_next(m, error, dt)),
        spec_v3_le(spec_pid_integral_next(m, error, dt), m.integrat_max),
{
}

} // verus!
