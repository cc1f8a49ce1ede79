//! The circuit-patrol strategy: the butler wiring pass and the perpetual
//! waypoint cycle.

use craft_mind::engine::EngineConfig;
use craft_mind::math::TVec3;
use craft_mind::registry::{
    CraftEntry, CraftTable, Mind, MindError, RoutineParam, WaypointEntry, WaypointTable,
};
use craft_mind::steering::arrive::Target;
use craft_mind::steering::compose::SteeringRoutineComposer;
use craft_mind::steering::{LinearRoutineOutput, RoutineKind};
use craft_mind::strategy::run_circuit::{
    butler, handle_waypoint_arrival, update, CircuitWaypoint, RunCircuit,
};

const CRAFT: u64 = 1;
const W1: u64 = 10;
const W2: u64 = 11;

fn world() -> (CraftTable, WaypointTable) {
    let crafts = CraftTable {
        entries: vec![CraftEntry {
            id: CRAFT,
            config: EngineConfig::default(),
            dims: TVec3::splat(8_000),
        }],
    };
    let waypoints = WaypointTable {
        entries: vec![
            WaypointEntry {
                id: W1,
                waypoint: CircuitWaypoint { next_point: W2 },
                pos: TVec3::zero(),
            },
            WaypointEntry {
                id: W2,
                waypoint: CircuitWaypoint { next_point: W1 },
                pos: TVec3::new(200_000, 0, 0),
            },
        ],
    };
    (crafts, waypoints)
}

fn arrive_target(mind: &Mind) -> (TVec3, i64) {
    let rid = mind.strategies[0].state.arrive_routine.unwrap();
    let idx = mind.find_routine(rid).unwrap();
    match &mind.routines[idx].param {
        RoutineParam::Arrive(p) => match p.target {
            Target::Vector { at_pos, with_speed, .. } => (at_pos, with_speed),
        },
        _ => panic!("the patrol's arrive routine must stay an arrive routine"),
    }
}

#[test]
fn butler_wires_avoid_arrive_and_composer() {
    let (crafts, waypoints) = world();
    let mut mind = Mind::new();
    let sid = mind.spawn_run_circuit(CRAFT, RunCircuit { initial_point: W1 });
    assert_eq!(butler(&mut mind, sid, &waypoints, &crafts), Ok(()));

    let st = &mind.strategies[0];
    assert!(st.active);
    let avoid_id = st.state.avoid_collision_routine.unwrap();
    let arrive_id = st.state.arrive_routine.unwrap();
    let compose_id = st.state.composer_routine.unwrap();
    assert_eq!(st.output.steering_routine, Some(compose_id));
    assert!(!st.output.fire_weapons);

    let avoid_idx = mind.find_routine(avoid_id).unwrap();
    match &mind.routines[avoid_idx].param {
        RoutineParam::AvoidCollision(p) => {
            // sized from the craft's largest dimension
            assert_eq!(p.raycast_toi_modifier, 8_000);
            assert_eq!(p.cast_shape_radius, 4_000);
        },
        _ => panic!("avoid routine expected"),
    }
    assert_eq!(mind.routines[avoid_idx].tag.kind(), RoutineKind::AvoidCollision);

    let (at_pos, with_speed) = arrive_target(&mind);
    assert_eq!(at_pos, TVec3::zero());
    assert_eq!(with_speed, 80_000);
    let arrive_idx = mind.find_routine(arrive_id).unwrap();
    match &mind.routines[arrive_idx].param {
        RoutineParam::Arrive(p) => {
            assert_eq!(p.arrival_tolerance, 5_000);
            assert_eq!(p.deceleration_radius, None);
            // availability is clamped to the artificial acceleration limit
            assert_eq!(p.avail_accel, TVec3::new(58_860, 58_860, 58_860));
            assert_eq!(p.linvel_limit, TVec3::new(100_000, 100_000, 200_000));
        },
        _ => panic!("arrive routine expected"),
    }

    // a second butler pass on an active strategy changes nothing
    let routines_before = mind.routines.len();
    assert_eq!(butler(&mut mind, sid, &waypoints, &crafts), Ok(()));
    assert_eq!(mind.routines.len(), routines_before);
}

#[test]
fn butler_reuses_the_avoid_routine_across_strategies() {
    let (crafts, waypoints) = world();
    let mut mind = Mind::new();
    let s1 = mind.spawn_run_circuit(CRAFT, RunCircuit { initial_point: W1 });
    let s2 = mind.spawn_run_circuit(CRAFT, RunCircuit { initial_point: W2 });
    assert_eq!(butler(&mut mind, s1, &waypoints, &crafts), Ok(()));
    assert_eq!(butler(&mut mind, s2, &waypoints, &crafts), Ok(()));
    // one avoid-collision routine, two arrive routines, two composers
    assert_eq!(mind.routines.len(), 5);
    assert_eq!(
        mind.strategies[0].state.avoid_collision_routine,
        mind.strategies[1].state.avoid_collision_routine,
    );
}

#[test]
fn patrol_cycles_between_the_two_waypoints() {
    let (crafts, waypoints) = world();
    let mut mind = Mind::new();
    let sid = mind.spawn_run_circuit(CRAFT, RunCircuit { initial_point: W1 });
    butler(&mut mind, sid, &waypoints, &crafts).unwrap();
    assert_eq!(arrive_target(&mind).0, TVec3::zero());

    // the craft reaches the first waypoint: retarget to the second
    assert_eq!(handle_waypoint_arrival(&mut mind, &waypoints, &crafts, W1, CRAFT), Ok(()));
    assert_eq!(arrive_target(&mind), (TVec3::new(200_000, 0, 0), 80_000));

    // the craft reaches the second: back to the first, forever
    assert_eq!(handle_waypoint_arrival(&mut mind, &waypoints, &crafts, W2, CRAFT), Ok(()));
    assert_eq!(arrive_target(&mind), (TVec3::zero(), 80_000));

    // and round again, through the per-tick event pass
    assert_eq!(update(&mut mind, &waypoints, &crafts, &vec![(W1, CRAFT), (W2, CRAFT)]), Ok(()));
    assert_eq!(arrive_target(&mind).0, TVec3::zero());
}

#[test]
fn far_waypoints_and_strangers_are_skipped() {
    let (crafts, waypoints) = world();
    let mut mind = Mind::new();
    let sid = mind.spawn_run_circuit(CRAFT, RunCircuit { initial_point: W1 });
    butler(&mut mind, sid, &waypoints, &crafts).unwrap();

    // an intersection with an object that is no craft is not an error
    assert_eq!(handle_waypoint_arrival(&mut mind, &waypoints, &crafts, W1, 999), Ok(()));
    assert_eq!(arrive_target(&mind).0, TVec3::zero());
    // an unknown waypoint is not an error either
    assert_eq!(handle_waypoint_arrival(&mut mind, &waypoints, &crafts, 999, CRAFT), Ok(()));
    // the waypoint the craft is not heading for makes no transition
    assert_eq!(handle_waypoint_arrival(&mut mind, &waypoints, &crafts, W2, CRAFT), Ok(()));
    assert_eq!(arrive_target(&mind).0, TVec3::zero());
}

#[test]
fn lifecycle_faults_are_fatal_lookups() {
    let (crafts, waypoints) = world();
    let mut mind = Mind::new();
    assert_eq!(
        butler(&mut mind, 42, &waypoints, &crafts),
        Err(MindError::StrategyNotFound),
    );
    assert_eq!(MindError::StrategyNotFound.describe(), "strategy not found");

    // a strategy on a craft the world does not know
    let sid = mind.spawn_run_circuit(77, RunCircuit { initial_point: W1 });
    assert_eq!(butler(&mut mind, sid, &waypoints, &crafts), Err(MindError::CraftNotFound));
    assert_eq!(MindError::CraftNotFound.describe(), "craft not found");

    // a strategy pointing at a waypoint the world does not know
    let sid = mind.spawn_run_circuit(CRAFT, RunCircuit { initial_point: 999 });
    assert_eq!(butler(&mut mind, sid, &waypoints, &crafts), Err(MindError::WaypointNotFound));
    assert_eq!(MindError::WaypointNotFound.describe(), "waypoint not found");

    // an active strategy whose arrive routine was never wired
    let mut mind = Mind::new();
    let _ = mind.spawn_run_circuit(CRAFT, RunCircuit { initial_point: W1 });
    mind.strategies[0].active = true;
    assert_eq!(
        handle_waypoint_arrival(&mut mind, &waypoints, &crafts, W1, CRAFT),
        Err(MindError::RoutineNotFound),
    );
    assert_eq!(MindError::RoutineNotFound.describe(), "routine not found");

    // a patrol whose cycle is broken: the next waypoint is missing
    let broken = WaypointTable {
        entries: vec![WaypointEntry {
            id: W1,
            waypoint: CircuitWaypoint { next_point: 999 },
            pos: TVec3::zero(),
        }],
    };
    let mut mind = Mind::new();
    let sid = mind.spawn_run_circuit(CRAFT, RunCircuit { initial_point: W1 });
    butler(&mut mind, sid, &broken, &crafts).unwrap();
    assert_eq!(
        handle_waypoint_arrival(&mut mind, &broken, &crafts, W1, CRAFT),
        Err(MindError::WaypointNotFound),
    );
}

#[test]
fn a_faulting_event_aborts_the_pass_but_keeps_earlier_effects() {
    let (crafts, _) = world();
    // the cycle breaks after the second waypoint
    let waypoints = WaypointTable {
        entries: vec![
            WaypointEntry {
                id: W1,
                waypoint: CircuitWaypoint { next_point: W2 },
                pos: TVec3::zero(),
            },
            WaypointEntry {
                id: W2,
                waypoint: CircuitWaypoint { next_point: 999 },
                pos: TVec3::new(200_000, 0, 0),
            },
        ],
    };
    let mut mind = Mind::new();
    let sid = mind.spawn_run_circuit(CRAFT, RunCircuit { initial_point: W1 });
    butler(&mut mind, sid, &waypoints, &crafts).unwrap();

    let r = update(&mut mind, &waypoints, &crafts, &vec![(W1, CRAFT), (W2, CRAFT)]);
    assert_eq!(r, Err(MindError::WaypointNotFound));
    // the first event's retarget to the second waypoint stands
    assert_eq!(arrive_target(&mind).0, TVec3::new(200_000, 0, 0));
}

#[test]
fn composer_merges_the_patrol_routines() {
    let (crafts, waypoints) = world();
    let mut mind = Mind::new();
    let sid = mind.spawn_run_circuit(CRAFT, RunCircuit { initial_point: W1 });
    butler(&mut mind, sid, &waypoints, &crafts).unwrap();

    let avoid_id = mind.strategies[0].state.avoid_collision_routine.unwrap();
    let arrive_id = mind.strategies[0].state.arrive_routine.unwrap();
    let compose_id = mind.strategies[0].state.composer_routine.unwrap();

    // give the arrive routine a non-trivial output; the avoid routine
    // found nothing in the way and stays trivial
    let arrive_idx = mind.find_routine(arrive_id).unwrap();
    mind.routines[arrive_idx].lin_out = LinearRoutineOutput(TVec3::new(0, 0, -58_860));

    let compose_idx = mind.find_routine(compose_id).unwrap();
    let composed = |mind: &Mind| {
        let list = match &mind.routines[compose_idx].param {
            RoutineParam::Compose(c) => match &c.composer {
                SteeringRoutineComposer::PriorityOverride { routines } => routines,
            },
            _ => panic!("composer routine expected"),
        };
        mind.compose_output(list).unwrap()
    };
    let (lin, _ang) = composed(&mind);
    assert_eq!(lin.0, TVec3::new(0, 0, -58_860));

    // an impending collision overrides the arrive intent
    let avoid_idx = mind.find_routine(avoid_id).unwrap();
    mind.routines[avoid_idx].lin_out = LinearRoutineOutput(TVec3::new(999, 0, 0));
    let (lin, _ang) = composed(&mind);
    assert_eq!(lin.0, TVec3::new(999, 0, 0));
}
