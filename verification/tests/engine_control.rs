//! The per-tick engine control loop: the controller, the two drivers and
//! the force-application stage.

use craft_mind::crafts::CraftBundle;
use craft_mind::engine::{
    apply_flames_simple_accel, angular_pid_driver, linear_pid_driver, sync_craft_state_velocities,
    BodyForces, EngineConfig, ANGULAR_ACCEL_UNLIMITED,
};
use craft_mind::math::{TQuat, TVec3};
use craft_mind::pid::PIDControllerVec3;

#[test]
fn proportional_only_controller_scales_the_error() {
    let mut pid = PIDControllerVec3::new(
        TVec3::splat(2_000),
        TVec3::zero(),
        TVec3::zero(),
        TVec3::zero(),
        TVec3::zero(),
    );
    // gain 2.0 times error 3.0 is 6.0, however often the loop has run
    let out1 = pid.update(TVec3::zero(), TVec3::splat(3_000), 1_000);
    assert_eq!(out1, TVec3::splat(6_000));
    let out2 = pid.update(TVec3::zero(), TVec3::splat(3_000), 1_000);
    assert_eq!(out2, TVec3::splat(6_000));
    let out3 = pid.update(TVec3::splat(999), TVec3::splat(3_000), 0);
    assert_eq!(out3, TVec3::splat(6_000));
}

#[test]
fn integral_term_stays_within_its_clamp() {
    let mut pid = PIDControllerVec3::new(
        TVec3::zero(),
        TVec3::splat(1_000),
        TVec3::zero(),
        TVec3::splat(500),
        TVec3::splat(-500),
    );
    for _ in 0..4 {
        let out = pid.update(TVec3::zero(), TVec3::splat(10_000), 1_000);
        assert!(pid.integral.x <= 500 && pid.integral.x >= -500);
        // output is integral gain 1.0 times the clamped accumulator
        assert_eq!(out, TVec3::splat(500));
    }
    let out = pid.update(TVec3::zero(), TVec3::splat(-100_000), 1_000);
    assert_eq!(pid.integral, TVec3::splat(-500));
    assert_eq!(out, TVec3::splat(-500));
}

#[test]
fn zero_time_step_never_divides() {
    let mut pid = PIDControllerVec3::new(
        TVec3::zero(),
        TVec3::zero(),
        TVec3::splat(1_000),
        TVec3::zero(),
        TVec3::zero(),
    );
    let out = pid.update(TVec3::zero(), TVec3::splat(5_000), 0);
    assert_eq!(out, TVec3::zero());
    // with a real time step the derivative is the error rate
    let out = pid.update(TVec3::zero(), TVec3::splat(8_000), 1_000);
    assert_eq!(out, TVec3::splat(3_000));
}

#[test]
fn default_config_derives_the_documented_limits() {
    let config = EngineConfig::default();
    assert_eq!(config.avail_lin_accel(), TVec3::new(66_666, 66_666, 100_000));
    assert_eq!(config.actual_acceleration_limit(), TVec3::splat(58_860));
    let derived = config.derive_items(TVec3::splat(8_000));
    assert_eq!(derived.thruster_torque, TVec3::splat(11_313));
    assert_eq!(derived.angular_acceleration_limit, TVec3::splat(ANGULAR_ACCEL_UNLIMITED));
}

#[test]
fn forward_flame_converges_to_the_thruster_bound() {
    // mass 15000 kg, forward thruster force 1.5 times a million:
    // at most 1.5e6 / 15000 = 100 units of acceleration, never more
    let mut craft = CraftBundle::default();
    craft.config.limit_acceleration = false;
    assert_eq!(craft.config.mass, 15_000_000);
    assert_eq!(craft.config.linear_thruster_force, TVec3::new(1_000, 1_000, 1_500));
    assert_eq!(craft.config.thruster_force_multiplier, 1_000_000_000);
    craft.linear_state.input = TVec3::new(0, 0, -50_000);

    linear_pid_driver(&mut craft.linear_state, &craft.config, &mut craft.linear_pid);
    assert_eq!(craft.linear_state.flame.z, -100_000);

    for _ in 0..8 {
        // crude unit-step integration of the commanded acceleration
        craft.linear_state.velocity = craft.linear_state.velocity.vadd(&craft.linear_state.flame);
        linear_pid_driver(&mut craft.linear_state, &craft.config, &mut craft.linear_pid);
        assert!(craft.linear_state.flame.z.abs() <= 100_000);
        assert!(craft.linear_state.flame.x.abs() <= 66_666);
        assert!(craft.linear_state.flame.y.abs() <= 66_666);
    }
}

#[test]
fn angular_driver_tightens_the_integral_clamp() {
    let mut craft = CraftBundle::default();
    let derived = craft.config.derive_items(TVec3::splat(8_000));
    craft.angular_state.input = TVec3::new(10_000, 0, 0);
    let inv_inertia = TVec3::splat(1_000);
    angular_pid_driver(
        &mut craft.angular_state,
        &craft.config,
        &derived,
        &mut craft.angular_pid,
        &inv_inertia,
        1_000,
    );
    // the input is clamped to the angular velocity limit of 3.0
    assert_eq!(craft.angular_state.flame.x, 3_000_000);
    assert_eq!(craft.angular_pid.0.integrat_max.x, 11_313_000_000);
    assert_eq!(craft.angular_pid.0.integrat_min.x, -11_313_000_000);
}

#[test]
fn velocity_sync_rotates_into_the_local_frame() {
    let mut craft = CraftBundle::default();
    // identity orientation: the local frame is the world frame
    sync_craft_state_velocities(
        &mut craft.linear_state,
        &mut craft.angular_state,
        &TQuat::identity(),
        &TVec3::new(1_000, 2_000, 3_000),
        &TVec3::new(-100, 0, 100),
    );
    assert_eq!(craft.linear_state.velocity, TVec3::new(1_000, 2_000, 3_000));
    assert_eq!(craft.angular_state.velocity, TVec3::new(-100, 0, 100));

    // half a turn about the vertical axis flips forward and sideways
    let half_turn_y = TQuat::new(0, 1_000, 0, 0);
    sync_craft_state_velocities(
        &mut craft.linear_state,
        &mut craft.angular_state,
        &half_turn_y,
        &TVec3::new(0, 0, -5_000),
        &TVec3::zero(),
    );
    assert_eq!(craft.linear_state.velocity, TVec3::new(0, 0, 5_000));
}

#[test]
fn flames_become_world_space_forces_and_torques() {
    let mut craft = CraftBundle::default();
    craft.linear_state.flame = TVec3::new(0, 0, -100_000);
    craft.angular_state.flame = TVec3::new(2_000, 0, 0);
    let mut forces = BodyForces::default();
    apply_flames_simple_accel(
        &TQuat::identity(),
        &craft.linear_state,
        &craft.angular_state,
        &craft.config,
        &TVec3::new(500, 500, 500),
        &mut forces,
    );
    // force is flame times the 15000 kg mass
    assert_eq!(forces.force, TVec3::new(0, 0, -1_500_000_000));
    // torque divides by the inverse inertia of one half
    assert_eq!(forces.torque, TVec3::new(4_000, 0, 0));

    // an unresolved zero inertia component yields zero torque, not a crash
    let mut forces = BodyForces::default();
    apply_flames_simple_accel(
        &TQuat::identity(),
        &craft.linear_state,
        &craft.angular_state,
        &craft.config,
        &TVec3::zero(),
        &mut forces,
    );
    assert_eq!(forces.torque, TVec3::zero());

    // contributions accumulate additively
    let mut forces = BodyForces::default();
    for _ in 0..2 {
        apply_flames_simple_accel(
            &TQuat::identity(),
            &craft.linear_state,
            &craft.angular_state,
            &craft.config,
            &TVec3::new(500, 500, 500),
            &mut forces,
        );
    }
    assert_eq!(forces.force, TVec3::new(0, 0, -3_000_000_000));
}
