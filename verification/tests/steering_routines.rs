//! The steering behaviours and the priority-override composer.

use craft_mind::math::TVec3;
use craft_mind::registry::{MindError, XformIndex};
use craft_mind::steering::avoid_collision::{self, AvoidCollision};
use craft_mind::steering::behaviours::{arrive_at_position, seek_position};
use craft_mind::steering::compose::priority_override;
use craft_mind::steering::fly_with_flock::FlyWithFlock;
use craft_mind::steering::intercept::Intercept;
use craft_mind::steering::seek::{Seek, Target};
use craft_mind::steering::{
    look_to, AngularRoutineOutput, LinearRoutineOutput, RoutineKind, SteeringRoutine,
};

#[test]
fn seek_points_at_the_target_with_unit_length() {
    let out = seek_position(&TVec3::zero(), &TVec3::new(3_000, 0, 0));
    assert_eq!(out, TVec3::new(999, 0, 0));
    let out = seek_position(&TVec3::new(3_000, 0, 0), &TVec3::zero());
    assert_eq!(out, TVec3::new(-999, 0, 0));
    // seeking one's own position asks for nothing
    let out = seek_position(&TVec3::new(5, 5, 5), &TVec3::new(5, 5, 5));
    assert_eq!(out, TVec3::zero());
}

#[test]
fn seek_routine_resolves_positions_from_the_world() {
    let xforms = XformIndex {
        entries: vec![(1, TVec3::zero()), (2, TVec3::new(0, 4_000, 0))],
    };
    let routine = SteeringRoutine::new(1, RoutineKind::Seek);
    let mut output = LinearRoutineOutput(TVec3::zero());
    let param = Seek { target: Target::Object { entt: 2 } };
    assert!(craft_mind::steering::seek::update(&param, &routine, &xforms, &mut output).is_ok());
    assert_eq!(output.0, TVec3::new(0, 999, 0));

    let missing = Seek { target: Target::Object { entt: 9 } };
    let r = craft_mind::steering::seek::update(&missing, &routine, &xforms, &mut output);
    assert_eq!(r, Err(MindError::CraftNotFound));
}

#[test]
fn arrive_holds_station_within_tolerance() {
    let limit = TVec3::splat(100_000);
    let avail = TVec3::splat(58_860);
    let out = arrive_at_position(
        &TVec3::new(1_000, 0, 0),
        &TVec3::new(2_000, 0, 0),
        80_000,
        5_000,
        None,
        &limit,
        &avail,
    );
    assert_eq!(out, TVec3::zero());
}

#[test]
fn arrive_never_exceeds_the_available_acceleration() {
    let limit = TVec3::splat(100_000);
    let avail = TVec3::splat(58_860);
    let out = arrive_at_position(
        &TVec3::zero(),
        &TVec3::new(10_000, 0, 0),
        80_000,
        5_000,
        None,
        &limit,
        &avail,
    );
    // full cruise speed would be 79992 along x; the cap wins
    assert_eq!(out, TVec3::new(58_860, 0, 0));
    assert!(out.x.abs() <= avail.x && out.y.abs() <= avail.y && out.z.abs() <= avail.z);
}

#[test]
fn arrive_tapers_inside_the_deceleration_radius() {
    let limit = TVec3::splat(100_000);
    let avail = TVec3::splat(100_000);
    let out = arrive_at_position(
        &TVec3::zero(),
        &TVec3::new(10_000, 0, 0),
        80_000,
        5_000,
        Some(20_000),
        &limit,
        &avail,
    );
    // half way into the radius: speed tapers to 80 * 10001/20000 = 40.004
    // and the direction scaling brings it back just under 40
    assert_eq!(out, TVec3::new(40_000, 0, 0));
}

#[test]
fn avoid_collision_is_trivial_without_an_impending_impact() {
    let param = AvoidCollision::new(4_000, 8_000);
    assert_eq!(param.cast_shape_radius, 4_000);
    assert_eq!(param.raycast_toi_modifier, 8_000);
    let mut out = LinearRoutineOutput(TVec3::new(7, 7, 7));
    avoid_collision::update(&param, None, &mut out);
    assert_eq!(out.0, TVec3::zero());
    avoid_collision::update(&param, Some(TVec3::new(0, 0, 6_000)), &mut out);
    assert_eq!(out.0, TVec3::new(0, 0, 999));
}

#[test]
fn priority_override_takes_the_first_non_trivial_output() {
    let zero = (
        LinearRoutineOutput(TVec3::zero()),
        AngularRoutineOutput(TVec3::zero()),
    );
    let a = (
        LinearRoutineOutput(TVec3::new(1_000, 0, 0)),
        AngularRoutineOutput(TVec3::zero()),
    );
    let b = (
        LinearRoutineOutput(TVec3::new(0, 2_000, 0)),
        AngularRoutineOutput(TVec3::new(0, 0, 300)),
    );

    // a trivial routine ahead of a non-trivial one is passed over
    assert_eq!(priority_override(&vec![zero, b]), b);
    // two non-trivial routines: the first wins
    assert_eq!(priority_override(&vec![a, b]), a);
    // no non-trivial routine: the output is zero
    assert_eq!(priority_override(&vec![zero, zero]), zero);
    assert_eq!(priority_override(&vec![]), zero);
}

#[test]
fn intercept_leads_the_quarry() {
    let param = Intercept { quarry: 2, lead_time: 3_000 };
    let mut out = LinearRoutineOutput(TVec3::zero());
    craft_mind::steering::intercept::update(
        &param,
        &TVec3::zero(),
        &TVec3::new(0, 1_000, 0),
        &TVec3::new(0, 1_000, 0),
        &mut out,
    );
    // three seconds of lead put the quarry four units up
    assert_eq!(out.0, TVec3::new(0, 999, 0));
}

#[test]
fn flock_alignment_is_the_mean_neighbour_velocity() {
    let param = FlyWithFlock { flock_entt: 5 };
    let mut out = LinearRoutineOutput(TVec3::new(7, 7, 7));
    craft_mind::steering::fly_with_flock::update(
        &param,
        &vec![TVec3::new(1_000, 0, -2_000), TVec3::new(3_000, 0, 0)],
        &mut out,
    );
    assert_eq!(out.0, TVec3::new(2_000, 0, -1_000));
    craft_mind::steering::fly_with_flock::update(&param, &vec![], &mut out);
    assert_eq!(out.0, TVec3::zero());
}

#[test]
fn look_to_turns_about_the_cross_axis() {
    // turning from forward (negative z) toward positive x is a turn
    // about the negative y axis
    assert_eq!(look_to(TVec3::new(1_000, 0, 0)), TVec3::new(0, -1_000, 0));
    // already facing forward: no turn
    assert_eq!(look_to(TVec3::new(0, 0, -1_000)), TVec3::zero());
}
