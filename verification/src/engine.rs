//! Per-craft engine state, configuration and the per-tick control loop:
//! the linear and angular drivers turn desired velocity into clamped
//! thrust commands, and the force-application stage turns those commands
//! into world-space forces and torques.

use vstd::prelude::*;

use crate::fx::{lemma_div_fx_nonneg, lemma_mul_fx_nonneg, spec_sqrt, FX_MAX, FX_ONE};
use crate::math::{
    spec_max, spec_quat_rotate, spec_v3, spec_v3_add, spec_v3_clamp, spec_v3_div,
    spec_v3_div_scalar, spec_v3_in_range, spec_v3_min, spec_v3_mul, spec_v3_neg,
    spec_v3_nonneg, spec_v3_scale, spec_v3_sub, spec_v3_zero, TQuat, TVec3, V3,
};
use crate::pid::{
    spec_pid_integral_next, spec_pid_output, PIDControllerVec3, PidModel,
};

verus! {

/// Stands in for an unbounded artificial angular acceleration limit.
pub const ANGULAR_ACCEL_UNLIMITED: i64 = 0x7fff_ffff_ffff_ffff;

/// Linear engine state: local-space velocity, desired input and the
/// commanded output ("flame"), all in fixed-point metres per second
/// respectively metres per second squared.
#[derive(Clone, Copy, Debug)]
pub struct LinearEngineState {
    /// Linear velocity in local space.
    pub velocity: TVec3,
    /// Input vector for the driver, e.g. the target velocity to attain.
    pub input: TVec3,
    /// Output of the driver and input of a motor, e.g. the force to apply.
    pub flame: TVec3,
}

/// Angular engine state, in fixed-point radians per second.
#[derive(Clone, Copy, Debug)]
pub struct AngularEngineState {
    /// Angular velocity in local space.
    pub velocity: TVec3,
    /// Input vector for the driver, e.g. the target velocity to attain.
    pub input: TVec3,
    /// Output of the driver and input of a motor.
    pub flame: TVec3,
}

impl Default for LinearEngineState {
    fn default() -> (r: LinearEngineState)
        ensures
            r.velocity@ == spec_v3_zero(),
            r.input@ == spec_v3_zero(),
            r.flame@ == spec_v3_zero(),
    {
        LinearEngineState { velocity: TVec3::zero(), input: TVec3::zero(), flame: TVec3::zero() }
    }
}

impl Default for AngularEngineState {
    fn default() -> (r: AngularEngineState)
        ensures
            r.velocity@ == spec_v3_zero(),
            r.input@ == spec_v3_zero(),
            r.flame@ == spec_v3_zero(),
    {
        AngularEngineState { velocity: TVec3::zero(), input: TVec3::zero(), flame: TVec3::zero() }
    }
}

/// Per-craft engine configuration. Mutated rarely, read every tick.
#[derive(Clone, Copy, Debug)]
pub struct EngineConfig {
    /// Speed to travel at when there is no input.
    pub set_speed: TVec3,
    /// Total mass of the craft, in fixed-point kilograms.
    pub mass: i64,
    /// Artificial acceleration limit per axis.
    pub acceleration_limit: TVec3,
    pub acceleration_limit_multiplier: i64,
    /// Linear velocity cap no matter the input.
    pub linvel_limit: TVec3,
    /// Angular velocity cap no matter the input.
    pub angvel_limit: TVec3,
    /// Max force the linear thrusters are capable of exerting.
    pub linear_thruster_force: TVec3,
    /// Whether to respect `linvel_limit` on the forward axis.
    pub limit_forward_v: bool,
    /// Whether to respect `linvel_limit` on the strafe axes.
    pub limit_strafe_v: bool,
    /// Whether to respect `angvel_limit`.
    pub limit_angular_v: bool,
    /// Whether to respect `acceleration_limit`.
    pub limit_acceleration: bool,
    /// Max force the angular thrusters are capable of exerting.
    pub angular_thruster_force: TVec3,
    pub thruster_force_multiplier: i64,
}

/// Values derived from the configuration and the craft geometry.
#[derive(Clone, Copy, Debug)]
pub struct DerivedEngineConfig {
    /// Angular thruster torque, scaled by the craft's shape.
    pub thruster_torque: TVec3,
    /// Artificial angular acceleration limit; defaults to unbounded, so
    /// the crafts use all of what the thrusters give.
    pub angular_acceleration_limit: TVec3,
}

pub struct LinearDriverPid(pub PIDControllerVec3);

pub struct AngularDriverPid(pub PIDControllerVec3);

impl EngineConfig {
    /// The structural invariant: positive mass, non-negative limits,
    /// forces and multipliers, everything within the representable range.
    pub open spec fn valid(&self) -> bool {
        &&& 1 <= self.mass <= FX_MAX
        &&& spec_v3_nonneg(self.acceleration_limit@)
        &&& spec_v3_in_range(self.acceleration_limit@, FX_MAX as int)
        &&& 0 <= self.acceleration_limit_multiplier <= FX_MAX
        &&& spec_v3_nonneg(self.linvel_limit@)
        &&& spec_v3_in_range(self.linvel_limit@, FX_MAX as int)
        &&& spec_v3_nonneg(self.angvel_limit@)
        &&& spec_v3_in_range(self.angvel_limit@, FX_MAX as int)
        &&& spec_v3_nonneg(self.linear_thruster_force@)
        &&& spec_v3_nonneg(self.angular_thruster_force@)
        &&& 0 <= self.thruster_force_multiplier <= FX_MAX
    }

    /// The artificial acceleration limit: the configured limit scaled by
    /// its multiplier.
    pub open spec fn spec_actual_acceleration_limit(&self) -> V3 {
        spec_v3_scale(self.acceleration_limit@, self.acceleration_limit_multiplier as int)
    }

    /// Acceleration available from the linear thrusters: force times
    /// multiplier over mass. Does not take `acceleration_limit` into
    /// account; clamp it yourself.
    pub open spec fn spec_avail_lin_accel(&self) -> V3 {
        spec_v3_div_scalar(
            spec_v3_scale(self.linear_thruster_force@, self.thruster_force_multiplier as int),
            self.mass as int,
        )
    }

    pub fn actual_acceleration_limit(&self) -> (r: TVec3)
        ensures
            r@ == self.spec_actual_acceleration_limit(),
    {
        self.acceleration_limit.vscale(self.acceleration_limit_multiplier)
    }

    pub fn avail_lin_accel(&self) -> (r: TVec3)
        ensures
            r@ == self.spec_avail_lin_accel(),
    {
        self.linear_thruster_force.vscale(self.thruster_force_multiplier).vdiv_scalar(self.mass)
    }

    /// Recompute the transient values whenever the configuration or the
    /// craft geometry changes: the torque is the per-axis cross-section
    /// diameter times the angular thruster force.
    pub fn derive_items(&self, dimensions: TVec3) -> (r: DerivedEngineConfig)
        requires
            spec_v3_nonneg(dimensions@),
            spec_v3_in_range(dimensions@, FX_MAX as int),
        ensures
            r.thruster_torque@ == spec_v3_mul(
                spec_axes_diameter(dimensions@),
                self.angular_thruster_force@,
            ),
            r.angular_acceleration_limit@ == spec_v3(
                ANGULAR_ACCEL_UNLIMITED as int,
                ANGULAR_ACCEL_UNLIMITED as int,
                ANGULAR_ACCEL_UNLIMITED as int,
            ),
    {
        let axes_diameter = TVec3 {
            x: pair_diameter(dimensions.y, dimensions.z),
            y: pair_diameter(dimensions.x, dimensions.z),
            z: pair_diameter(dimensions.x, dimensions.y),
        };
        DerivedEngineConfig {
            thruster_torque: axes_diameter.vmul(&self.angular_thruster_force),
            angular_acceleration_limit: TVec3::splat(ANGULAR_ACCEL_UNLIMITED),
        }
    }
}

/// The diameter of each axis cross-section: the length of the two
/// orthogonal dimensions.
pub open spec fn spec_axes_diameter(d: V3) -> V3 {
    V3 {
        x: spec_sqrt(d.y * d.y + d.z * d.z),
        y: spec_sqrt(d.x * d.x + d.z * d.z),
        z: spec_sqrt(d.x * d.x + d.y * d.y),
    }
}

/// The length of a pair of non-negative fixed-point values.
fn pair_diameter(a: i64, b: i64) -> (r: i64)
    requires
        0 <= a <= FX_MAX,
        0 <= b <= FX_MAX,
    ensures
        r == spec_sqrt(a * a + b * b),
        0 <= r,
{
    proof {
        assert((a as int) * (a as int) + (b as int) * (b as int)
            <= 32_000_000_000_000_000_000_000_000_000_000 && 0 <= (a as int) * (a as int) && 0 <= (
        b as int) * (b as int)) by (nonlinear_arith)
            requires
                0 <= a as int <= 4_000_000_000_000_000,
                0 <= b as int <= 4_000_000_000_000_000,
        ;
    }
    let s: u128 = (a as u128) * (a as u128) + (b as u128) * (b as u128);
    let r64: u64 = crate::fx::isqrt_u128(s);
    proof {
        assert(r64 as int <= 6_000_000_000_000_000) by (nonlinear_arith)
            requires
                (r64 as int) * (r64 as int) <= s as int,
                s as int <= 32_000_000_000_000_000_000_000_000_000_000,
        ;
    }
    r64 as i64
}

impl Default for EngineConfig {
    fn default() -> (r: EngineConfig)
        ensures
            r.valid(),
            r.mass == 15_000_000i64,
            r.set_speed@ == spec_v3_zero(),
            r.acceleration_limit@ == spec_v3(6000, 6000, 6000),
            r.acceleration_limit_multiplier == 9810i64,
            r.linvel_limit@ == spec_v3(100_000, 100_000, 200_000),
            r.angvel_limit@ == spec_v3(3000, 3000, 3000),
            r.limit_forward_v && r.limit_strafe_v && r.limit_angular_v && r.limit_acceleration,
            r.linear_thruster_force@ == spec_v3(1000, 1000, 1500),
            r.angular_thruster_force@ == spec_v3(1000, 1000, 1000),
            r.thruster_force_multiplier == 1_000_000_000i64,
    {
        EngineConfig {
            mass: 15_000_000,
            set_speed: TVec3::zero(),
            acceleration_limit: TVec3::splat(6000),
            acceleration_limit_multiplier: 9810,
            // matters not if the limit is exceeded by the input: it is a cap
            linvel_limit: TVec3::new(100_000, 100_000, 200_000),
            angvel_limit: TVec3::splat(3000),
            limit_forward_v: true,
            limit_strafe_v: true,
            limit_angular_v: true,
            limit_acceleration: true,
            linear_thruster_force: TVec3::new(1000, 1000, 1500),
            angular_thruster_force: TVec3::splat(1000),
            thruster_force_multiplier: 1_000_000_000,
        }
    }
}

impl DerivedEngineConfig {
    pub open spec fn valid(&self) -> bool {
        &&& spec_v3_nonneg(self.thruster_torque@)
        &&& spec_v3_nonneg(self.angular_acceleration_limit@)
    }
}

/// Read the physics collaborator's world-space velocities into the local
/// engine states, rotated into the craft's frame by the inverse of its
/// current orientation.
pub fn sync_craft_state_velocities(
    linear_state: &mut LinearEngineState,
    angular_state: &mut AngularEngineState,
    orientation: &TQuat,
    world_linvel: &TVec3,
    world_angvel: &TVec3,
)
    ensures
        final(linear_state).velocity@ == spec_quat_rotate(
            crate::math::spec_quat_conjugate(orientation@),
            world_linvel@,
        ),
        final(angular_state).velocity@ == spec_quat_rotate(
            crate::math::spec_quat_conjugate(orientation@),
            world_angvel@,
        ),
        final(linear_state).input == old(linear_state).input,
        final(linear_state).flame == old(linear_state).flame,
        final(angular_state).input == old(angular_state).input,
        final(angular_state).flame == old(angular_state).flame,
{
    let rotator = orientation.conjugate();
    angular_state.velocity = rotator.rotate(world_angvel);
    linear_state.velocity = rotator.rotate(world_linvel);
}

/// The driver's effective input: clamped to the velocity limit when
/// strafe limiting is on, except that the forward axis keeps the raw
/// input when forward limiting is off.
pub open spec fn spec_linear_input(c: EngineConfig, raw: V3) -> V3 {
    if c.limit_strafe_v {
        let cl = spec_v3_clamp(raw, spec_v3_neg(c.linvel_limit@), c.linvel_limit@);
        if !c.limit_forward_v {
            V3 { x: cl.x, y: cl.y, z: raw.z }
        } else {
            cl
        }
    } else {
        raw
    }
}

/// The bound the linear flame is clamped into: thruster availability,
/// with the strafe thrusters substituted on the forward axis when the
/// input does not command forward thrust, further clamped to the
/// artificial limit when acceleration limiting is on.
pub open spec fn spec_linear_acceleration_limit(c: EngineConfig, input: V3) -> V3 {
    let avail = c.spec_avail_lin_accel();
    let avail = if input.z < 0 {
        avail
    } else {
        V3 { x: avail.x, y: avail.y, z: spec_max(avail.x, avail.y) }
    };
    if c.limit_acceleration {
        let art = c.spec_actual_acceleration_limit();
        spec_v3_clamp(avail, spec_v3_neg(art), art)
    } else {
        avail
    }
}

/// One tick of the linear driver for one craft, with a unit time step:
/// clamp the input, feed the velocity error to the controller, and store
/// its output clamped to the acceleration limit as the flame.
pub fn linear_pid_driver(
    state: &mut LinearEngineState,
    config: &EngineConfig,
    pid: &mut LinearDriverPid,
)
    requires
        config.valid(),
    ensures
        final(state).flame@ == spec_v3_clamp(
            spec_pid_output(
                old(pid).0@,
                spec_v3_sub(spec_linear_input(*config, old(state).input@), old(state).velocity@),
                FX_ONE as int,
            ),
            spec_v3_neg(
                spec_linear_acceleration_limit(
                    *config,
                    spec_linear_input(*config, old(state).input@),
                ),
            ),
            spec_linear_acceleration_limit(*config, spec_linear_input(*config, old(state).input@)),
        ),
        final(state).velocity == old(state).velocity,
        final(state).input == old(state).input,
        final(pid).0@ == (PidModel {
            integral: spec_pid_integral_next(
                old(pid).0@,
                spec_v3_sub(spec_linear_input(*config, old(state).input@), old(state).velocity@),
                FX_ONE as int,
            ),
            last_error: spec_v3_sub(
                spec_linear_input(*config, old(state).input@),
                old(state).velocity@,
            ),
            ..old(pid).0@
        }),
{
    let raw = state.input;
    let linear_input = if config.limit_strafe_v {
        let v_limit = config.linvel_limit;
        let clamped = raw.vclamp(&v_limit.vneg(), &v_limit);
        if !config.limit_forward_v {
            TVec3 { x: clamped.x, y: clamped.y, z: raw.z }
        } else {
            clamped
        }
    } else {
        raw
    };

    let avail = config.avail_lin_accel();
    proof {
        lemma_mul_fx_nonneg(
            config.linear_thruster_force@.x,
            config.thruster_force_multiplier as int,
        );
        lemma_mul_fx_nonneg(
            config.linear_thruster_force@.y,
            config.thruster_force_multiplier as int,
        );
        lemma_mul_fx_nonneg(
            config.linear_thruster_force@.z,
            config.thruster_force_multiplier as int,
        );
        lemma_div_fx_nonneg(
            crate::fx::spec_mul_fx(
                config.linear_thruster_force@.x,
                config.thruster_force_multiplier as int,
            ),
            config.mass as int,
        );
        lemma_div_fx_nonneg(
            crate::fx::spec_mul_fx(
                config.linear_thruster_force@.y,
                config.thruster_force_multiplier as int,
            ),
            config.mass as int,
        );
        lemma_div_fx_nonneg(
            crate::fx::spec_mul_fx(
                config.linear_thruster_force@.z,
                config.thruster_force_multiplier as int,
            ),
            config.mass as int,
        );
        lemma_mul_fx_nonneg(
            config.acceleration_limit@.x,
            config.acceleration_limit_multiplier as int,
        );
        lemma_mul_fx_nonneg(
            config.acceleration_limit@.y,
            config.acceleration_limit_multiplier as int,
        );
        lemma_mul_fx_nonneg(
            config.acceleration_limit@.z,
            config.acceleration_limit_multiplier as int,
        );
    }
    // reverse motion uses the strafe thrusters, not a dedicated reverse one
    let move_fwd: bool = linear_input.z < 0;
    let avail = if !move_fwd {
        TVec3 {
            x: avail.x,
            y: avail.y,
            z: if avail.x >= avail.y { avail.x } else { avail.y },
        }
    } else {
        avail
    };
    let acceleration_limit = if config.limit_acceleration {
        let artificial = config.actual_acceleration_limit();
        avail.vclamp(&artificial.vneg(), &artificial)
    } else {
        avail
    };

    let error = linear_input.vsub(&state.velocity);
    let linear_flame = pid.0.update(state.velocity, error, FX_ONE);
    state.flame = linear_flame.vclamp(&acceleration_limit.vneg(), &acceleration_limit);
}

/// The angular driver's effective input: clamped to the angular velocity
/// limit when angular limiting is on.
pub open spec fn spec_angular_input(c: EngineConfig, raw: V3) -> V3 {
    if c.limit_angular_v {
        spec_v3_clamp(raw, spec_v3_neg(c.angvel_limit@), c.angvel_limit@)
    } else {
        raw
    }
}

/// Angular acceleration available from the thrusters: derived torque
/// times the force multiplier, converted per axis by the inverse
/// principal inertia (element-wise, a documented simplification).
pub open spec fn spec_angular_accel_base(
    c: EngineConfig,
    d: DerivedEngineConfig,
    inv_inertia: V3,
) -> V3 {
    spec_v3_mul(spec_v3_scale(d.thruster_torque@, c.thruster_force_multiplier as int), inv_inertia)
}

/// The controller as the angular driver re-clamps it before updating:
/// when acceleration limiting is on, the integral clamp is tightened to
/// the available acceleration bound.
pub open spec fn spec_angular_pid_mid(
    c: EngineConfig,
    d: DerivedEngineConfig,
    inv_inertia: V3,
    m: PidModel,
) -> PidModel {
    if c.limit_acceleration {
        let tight = spec_v3_min(
            spec_angular_accel_base(c, d, inv_inertia),
            d.angular_acceleration_limit@,
        );
        PidModel { integrat_max: tight, integrat_min: spec_v3_neg(tight), ..m }
    } else {
        m
    }
}

/// The bound the angular flame is clamped into.
pub open spec fn spec_angular_acceleration_limit(
    c: EngineConfig,
    d: DerivedEngineConfig,
    inv_inertia: V3,
) -> V3 {
    let base = spec_angular_accel_base(c, d, inv_inertia);
    if c.limit_acceleration {
        spec_v3_clamp(
            base,
            spec_v3_neg(d.angular_acceleration_limit@),
            d.angular_acceleration_limit@,
        )
    } else {
        base
    }
}

/// One tick of the angular driver for one craft: clamp the input, tighten
/// the integral clamp to the available acceleration, feed the velocity
/// error to the controller over the real time step, and store its output
/// clamped to the acceleration bound as the flame.
pub fn angular_pid_driver(
    state: &mut AngularEngineState,
    config: &EngineConfig,
    derived_config: &DerivedEngineConfig,
    pid: &mut AngularDriverPid,
    inv_principal_inertia_sqrt: &TVec3,
    dt: i64,
)
    requires
        config.valid(),
        derived_config.valid(),
        spec_v3_nonneg(inv_principal_inertia_sqrt@),
    ensures
        final(state).flame@ == spec_v3_clamp(
            spec_pid_output(
                spec_angular_pid_mid(
                    *config,
                    *derived_config,
                    inv_principal_inertia_sqrt@,
                    old(pid).0@,
                ),
                spec_v3_sub(
                    spec_angular_input(*config, old(state).input@),
                    old(state).velocity@,
                ),
                dt as int,
            ),
            spec_v3_neg(
                spec_angular_acceleration_limit(
                    *config,
                    *derived_config,
                    inv_principal_inertia_sqrt@,
                ),
            ),
            spec_angular_acceleration_limit(
                *config,
                *derived_config,
                inv_principal_inertia_sqrt@,
            ),
        ),
        final(state).velocity == old(state).velocity,
        final(state).input == old(state).input,
        final(pid).0@ == (PidModel {
            integral: spec_pid_integral_next(
                spec_angular_pid_mid(
                    *config,
                    *derived_config,
                    inv_principal_inertia_sqrt@,
                    old(pid).0@,
                ),
                spec_v3_sub(
                    spec_angular_input(*config, old(state).input@),
                    old(state).velocity@,
                ),
                dt as int,
            ),
            last_error: spec_v3_sub(
                spec_angular_input(*config, old(state).input@),
                old(state).velocity@,
            ),
            ..spec_angular_pid_mid(
                *config,
                *derived_config,
                inv_principal_inertia_sqrt@,
                old(pid).0@,
            )
        }),
{
    let angular_input = if config.limit_angular_v {
        let v_limit = config.angvel_limit;
        state.input.vclamp(&v_limit.vneg(), &v_limit)
    } else {
        state.input
    };

    let max_torque = derived_config.thruster_torque.vscale(config.thruster_force_multiplier);
    let accel_base = max_torque.vmul(inv_principal_inertia_sqrt);
    proof {
        lemma_mul_fx_nonneg(
            derived_config.thruster_torque@.x,
            config.thruster_force_multiplier as int,
        );
        lemma_mul_fx_nonneg(
            derived_config.thruster_torque@.y,
            config.thruster_force_multiplier as int,
        );
        lemma_mul_fx_nonneg(
            derived_config.thruster_torque@.z,
            config.thruster_force_multiplier as int,
        );
        lemma_mul_fx_nonneg(max_torque@.x, inv_principal_inertia_sqrt@.x);
        lemma_mul_fx_nonneg(max_torque@.y, inv_principal_inertia_sqrt@.y);
        lemma_mul_fx_nonneg(max_torque@.z, inv_principal_inertia_sqrt@.z);
    }
    let acceleration_limit = if config.limit_acceleration {
        let artificial = derived_config.angular_acceleration_limit;
        let tight = accel_base.vmin(&artificial);
        pid.0.integrat_max = tight;
        pid.0.integrat_min = tight.vneg();
        accel_base.vclamp(&artificial.vneg(), &artificial)
    } else {
        accel_base
    };

    let error = angular_input.vsub(&state.velocity);
    let angular_flame = pid.0.update(state.velocity, error, dt);
    state.flame = angular_flame.vclamp(&acceleration_limit.vneg(), &acceleration_limit);
}

/// Accumulated world-space force and torque for one rigid body; additive,
/// so several contributors can push on the same body in one tick.
#[derive(Clone, Copy, Debug)]
pub struct BodyForces {
    pub force: TVec3,
    pub torque: TVec3,
}

impl Default for BodyForces {
    fn default() -> (r: BodyForces)
        ensures
            r.force@ == spec_v3_zero(),
            r.torque@ == spec_v3_zero(),
    {
        BodyForces { force: TVec3::zero(), torque: TVec3::zero() }
    }
}

/// Convert the commanded flames into world-space force and torque and add
/// them to the body's accumulators: force is flame times mass, torque is
/// flame divided element-wise by the inverse principal inertia, both
/// rotated by the craft's orientation. A zero inertia component, as the
/// physics collaborator reports before mass properties resolve, yields a
/// zero torque component instead of dividing by it.
pub fn apply_flames_simple_accel(
    orientation: &TQuat,
    linear_state: &LinearEngineState,
    angular_state: &AngularEngineState,
    config: &EngineConfig,
    inv_principal_inertia_sqrt: &TVec3,
    forces: &mut BodyForces,
)
    ensures
        final(forces).force@ == spec_v3_add(
            old(forces).force@,
            spec_quat_rotate(
                orientation@,
                spec_v3_scale(linear_state.flame@, config.mass as int),
            ),
        ),
        final(forces).torque@ == spec_v3_add(
            old(forces).torque@,
            spec_quat_rotate(
                orientation@,
                spec_v3_div(angular_state.flame@, inv_principal_inertia_sqrt@),
            ),
        ),
{
    let force = linear_state.flame.vscale(config.mass);
    let force = orientation.rotate(&force);
    forces.force = forces.force.vadd(&force);

    let torque = angular_state.flame.vdiv(inv_principal_inertia_sqrt);
    let torque = orientation.rotate(&torque);
    forces.torque = forces.torque.vadd(&torque);
}

} // verus!
