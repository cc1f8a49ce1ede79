//! The circuit-patrol strategy: fly a perpetual cycle of waypoints.
//!
//! A freshly created strategy is wired up once by [`butler`]: it gets an
//! avoid-collision routine (reused through the per-craft kind index when
//! one exists), a fresh arrive routine targeting the initial waypoint,
//! and a priority-override composer over the two. From then on
//! [`handle_waypoint_arrival`] retargets the arrive routine to each
//! waypoint's successor as the craft reaches it.

use vstd::prelude::*;

use crate::fx::{lemma_mul_fx_nonneg, mul_fx, spec_mul_fx};
use crate::math::{spec_v3_clamp, spec_v3_max_element, spec_v3_neg, spec_v3_zero, TVec3};
use crate::registry::{
    spec_find_craft, spec_find_routine, spec_find_waypoint, spec_first_routine_of_kind, CraftEntry,
    CraftTable, Mind, MindError, RoutineEntry, RoutineParam, StrategyEntry, WaypointEntry,
    WaypointTable,
};
use crate::steering::arrive::{Arrive, Target};
use crate::steering::avoid_collision::AvoidCollision;
use crate::steering::compose::{
    routine_list_new, routine_list_push, spec_routine_list, Compose, SteeringRoutineComposer,
};
use crate::steering::{
    AngularRoutineOutput, LinearRoutineOutput, RoutineKind, SteeringRoutine,
};
use crate::strategy::{BoidStrategyKind, BoidStrategyOutput};

verus! {

/// The cruise speed a patrol approaches each waypoint with.
pub const CRUISE_SPEED: i64 = 80_000;

/// How close to a waypoint counts as arrived, for the arrive routine.
pub const PATROL_ARRIVAL_TOLERANCE: i64 = 5_000;

/// Parameters of a circuit-patrol strategy.
#[derive(Clone, Copy, Debug, PartialEq, Eq, Structural)]
pub struct RunCircuit {
    pub initial_point: u64,
}

/// A world object on the patrol cycle, pointing at its successor.
#[derive(Clone, Copy, Debug, PartialEq, Eq, Structural)]
pub struct CircuitWaypoint {
    pub next_point: u64,
}

/// The routines a circuit-patrol strategy owns once it is active.
#[derive(Clone, Copy, Debug, PartialEq, Eq, Structural)]
pub struct RunCircuitState {
    pub composer_routine: Option<u64>,
    pub arrive_routine: Option<u64>,
    pub avoid_collision_routine: Option<u64>,
}

impl Default for RunCircuitState {
    fn default() -> (r: RunCircuitState)
        ensures
            r.composer_routine == Option::<u64>::None,
            r.arrive_routine == Option::<u64>::None,
            r.avoid_collision_routine == Option::<u64>::None,
    {
        RunCircuitState {
            composer_routine: None,
            arrive_routine: None,
            avoid_collision_routine: None,
        }
    }
}

/// The avoid-collision routine the butler sizes from craft geometry: the
/// cast window is the craft's largest dimension, the cast shape half it.
pub open spec fn spec_is_fresh_avoid(e: RoutineEntry, id: u64, craft: CraftEntry) -> bool {
    &&& e.id == id
    &&& e.tag.spec_craft_entt() == craft.id
    &&& e.tag.spec_kind() == RoutineKind::AvoidCollision
    &&& e.active
    &&& match e.param {
        RoutineParam::AvoidCollision(p) => {
            &&& p.raycast_toi_modifier == spec_v3_max_element(craft.dims@)
            &&& p.cast_shape_radius == spec_mul_fx(spec_v3_max_element(craft.dims@), 500)
        },
        _ => false,
    }
    &&& e.lin_out.0@ == spec_v3_zero()
    &&& e.ang_out.0@ == spec_v3_zero()
}

/// The arrive routine the butler creates: target the waypoint's position
/// at cruise speed, capped by what the craft's engine can do.
pub open spec fn spec_is_fresh_arrive(
    e: RoutineEntry,
    id: u64,
    craft: CraftEntry,
    wp: WaypointEntry,
) -> bool {
    &&& e.id == id
    &&& e.tag.spec_craft_entt() == craft.id
    &&& e.tag.spec_kind() == RoutineKind::Arrive
    &&& e.active
    &&& match e.param {
        RoutineParam::Arrive(p) => {
            &&& match p.target {
                Target::Vector { at_pos, pos_linvel, with_speed } => {
                    &&& at_pos == wp.pos
                    &&& pos_linvel@ == spec_v3_zero()
                    &&& with_speed == CRUISE_SPEED
                },
            }
            &&& p.arrival_tolerance == PATROL_ARRIVAL_TOLERANCE
            &&& p.deceleration_radius == Option::<i64>::None
            &&& p.linvel_limit == craft.config.linvel_limit
            &&& p.avail_accel@ == spec_v3_clamp(
                craft.config.spec_avail_lin_accel(),
                spec_v3_neg(craft.config.spec_actual_acceleration_limit()),
                craft.config.spec_actual_acceleration_limit(),
            )
        },
        _ => false,
    }
    &&& e.lin_out.0@ == spec_v3_zero()
    &&& e.ang_out.0@ == spec_v3_zero()
}

/// The composer the butler creates: priority-override over the avoid
/// routine first and the arrive routine second.
pub open spec fn spec_is_fresh_compose(
    e: RoutineEntry,
    id: u64,
    craft_id: u64,
    avoid_id: u64,
    arrive_id: u64,
) -> bool {
    &&& e.id == id
    &&& e.tag.spec_craft_entt() == craft_id
    &&& e.tag.spec_kind() == RoutineKind::Compose
    &&& e.active
    &&& match e.param {
        RoutineParam::Compose(c) => match c.composer {
            SteeringRoutineComposer::PriorityOverride { routines } => spec_routine_list(&routines)
                == seq![avoid_id, arrive_id],
        },
        _ => false,
    }
    &&& e.lin_out.0@ == spec_v3_zero()
    &&& e.ang_out.0@ == spec_v3_zero()
}

/// A strategy entry after its butler pass: active, owning its three
/// routines, its output pointing downstream at the composer.
pub open spec fn spec_activated(
    st: StrategyEntry,
    avoid_id: u64,
    arrive_id: u64,
    compose_id: u64,
) -> StrategyEntry {
    StrategyEntry {
        active: true,
        state: RunCircuitState {
            composer_routine: Option::Some(compose_id),
            arrive_routine: Option::Some(arrive_id),
            avoid_collision_routine: Option::Some(avoid_id),
        },
        output: BoidStrategyOutput {
            steering_routine: Option::Some(compose_id),
            fire_weapons: false,
        },
        ..st
    }
}

/// Everything the butler pass builds, relating the registry before to
/// the registry after: the reused-or-fresh avoid routine, the fresh
/// arrive and composer, and the activated strategy.
pub open spec fn spec_butler_built(
    oldm: Mind,
    newm: Mind,
    k: int,
    craft: CraftEntry,
    wp: WaypointEntry,
) -> bool {
    let st = oldm.strategies@[k];
    let craft_id = st.strategy.spec_boid_entt();
    let base = oldm.routines@.len() as int;
    match spec_first_routine_of_kind(oldm.routines@, craft_id, RoutineKind::AvoidCollision) {
        Option::Some(avoid_id) => {
            let arrive_id = oldm.next_id;
            let compose_id = (oldm.next_id + 1) as u64;
            &&& newm.next_id == oldm.next_id + 2
            &&& newm.routines@.len() == base + 2
            &&& newm.routines@.subrange(0, base) == oldm.routines@
            &&& spec_is_fresh_arrive(newm.routines@[base], arrive_id, craft, wp)
            &&& spec_is_fresh_compose(
                newm.routines@[base + 1],
                compose_id,
                craft_id,
                avoid_id,
                arrive_id,
            )
            &&& newm.strategies@ == oldm.strategies@.update(
                k,
                spec_activated(st, avoid_id, arrive_id, compose_id),
            )
        },
        Option::None => {
            let avoid_id = oldm.next_id;
            let arrive_id = (oldm.next_id + 1) as u64;
            let compose_id = (oldm.next_id + 2) as u64;
            &&& newm.next_id == oldm.next_id + 3
            &&& newm.routines@.len() == base + 3
            &&& newm.routines@.subrange(0, base) == oldm.routines@
            &&& spec_is_fresh_avoid(newm.routines@[base], avoid_id, craft)
            &&& spec_is_fresh_arrive(newm.routines@[base + 1], arrive_id, craft, wp)
            &&& spec_is_fresh_compose(
                newm.routines@[base + 2],
                compose_id,
                craft_id,
                avoid_id,
                arrive_id,
            )
            &&& newm.strategies@ == oldm.strategies@.update(
                k,
                spec_activated(st, avoid_id, arrive_id, compose_id),
            )
        },
    }
}

/// The one-time pass over a newly created circuit-patrol strategy:
/// resolve its craft and initial waypoint, create or reuse the routines,
/// wire the strategy's output to the composer, and mark it active. A
/// strategy that is already active is left untouched. A craft or
/// waypoint that the design guarantees and that does not resolve is a
/// lifecycle bug: the pass aborts without touching anything.
pub fn butler(
    mind: &mut Mind,
    strategy_id: u64,
    waypoints: &WaypointTable,
    crafts: &CraftTable,
) -> (r: Result<(), MindError>)
    requires
        crafts.wf(),
        old(mind).wf(),
        old(mind).next_id <= 0xffff_ffff_ffff_fff0u64,
    ensures
        final(mind).wf(),
        match r {
            Result::Ok(()) => exists|k: int|
                {
                    &&& 0 <= k < old(mind).strategies@.len()
                    &&& (#[trigger] old(mind).strategies@[k]).id == strategy_id
                    &&& if old(mind).strategies@[k].active {
                        &&& final(mind).next_id == old(mind).next_id
                        &&& final(mind).routines@ == old(mind).routines@
                        &&& final(mind).strategies@ == old(mind).strategies@
                    } else {
                        match (
                            spec_find_craft(
                                crafts.entries@,
                                old(mind).strategies@[k].strategy.spec_boid_entt(),
                            ),
                            spec_find_waypoint(
                                waypoints.entries@,
                                old(mind).strategies@[k].param.initial_point,
                            ),
                        ) {
                            (Option::Some(craft), Option::Some(wp)) => spec_butler_built(
                                *old(mind),
                                *final(mind),
                                k,
                                craft,
                                wp,
                            ),
                            _ => false,
                        }
                    }
                },
            Result::Err(e) => {
                &&& final(mind).next_id == old(mind).next_id
                &&& final(mind).routines@ == old(mind).routines@
                &&& final(mind).strategies@ == old(mind).strategies@
                &&& match e {
                    MindError::StrategyNotFound => forall|j: int|
                        0 <= j < old(mind).strategies@.len() ==> (#[trigger] old(
                            mind,
                        ).strategies@[j]).id != strategy_id,
                    MindError::CraftNotFound => exists|k: int|
                        0 <= k < old(mind).strategies@.len() && (#[trigger] old(
                            mind,
                        ).strategies@[k]).id == strategy_id && !old(mind).strategies@[k].active
                            && spec_find_craft(
                            crafts.entries@,
                            old(mind).strategies@[k].strategy.spec_boid_entt(),
                        ) == Option::<CraftEntry>::None,
                    MindError::WaypointNotFound => exists|k: int|
                        0 <= k < old(mind).strategies@.len() && (#[trigger] old(
                            mind,
                        ).strategies@[k]).id == strategy_id && !old(mind).strategies@[k].active
                            && spec_find_waypoint(
                            waypoints.entries@,
                            old(mind).strategies@[k].param.initial_point,
                        ) == Option::<WaypointEntry>::None,
                    MindError::RoutineNotFound => false,
                }
            },
        },
{
    let k: usize = match mind.find_strategy(strategy_id) {
        Option::Some(k) => k,
        Option::None => {
            return Err(MindError::StrategyNotFound);
        },
    };
    if mind.strategies[k].active {
        return Ok(());
    }
    let boid: u64 = mind.strategies[k].strategy.boid_entt();
    let craft: CraftEntry = match crafts.find(boid) {
        Option::Some(c) => c,
        Option::None => {
            return Err(MindError::CraftNotFound);
        },
    };
    let wp: WaypointEntry = match waypoints.find(mind.strategies[k].param.initial_point) {
        Option::Some(w) => w,
        Option::None => {
            return Err(MindError::WaypointNotFound);
        },
    };

    let raycast_toi_modifier: i64 = craft.dims.max_element();
    let cast_shape_radius: i64 = mul_fx(raycast_toi_modifier, 500);

    let ghost base = mind.routines@.len() as int;
    let avoid_id: u64 = match mind.first_routine_of_kind(boid, RoutineKind::AvoidCollision) {
        Option::Some(id) => id,
        Option::None => {
            let id: u64 = mind.next_id;
            mind.next_id = mind.next_id + 1;
            mind.routines.push(
                RoutineEntry {
                    id,
                    tag: SteeringRoutine::new(boid, RoutineKind::AvoidCollision),
                    active: true,
                    param: RoutineParam::AvoidCollision(
                        AvoidCollision::new(cast_shape_radius, raycast_toi_modifier),
                    ),
                    lin_out: LinearRoutineOutput(TVec3::zero()),
                    ang_out: AngularRoutineOutput(TVec3::zero()),
                },
            );
            id
        },
    };

    proof {
        crate::registry::lemma_find_craft_is_member(crafts.entries@, boid);
        assert(craft.config.valid());
        lemma_mul_fx_nonneg(
            craft.config.acceleration_limit@.x,
            craft.config.acceleration_limit_multiplier as int,
        );
        lemma_mul_fx_nonneg(
            craft.config.acceleration_limit@.y,
            craft.config.acceleration_limit_multiplier as int,
        );
        lemma_mul_fx_nonneg(
            craft.config.acceleration_limit@.z,
            craft.config.acceleration_limit_multiplier as int,
        );
    }
    let art: TVec3 = craft.config.actual_acceleration_limit();
    let avail: TVec3 = craft.config.avail_lin_accel().vclamp(&art.vneg(), &art);

    let arrive_id: u64 = mind.next_id;
    mind.next_id = mind.next_id + 1;
    mind.routines.push(
        RoutineEntry {
            id: arrive_id,
            tag: SteeringRoutine::new(boid, RoutineKind::Arrive),
            active: true,
            param: RoutineParam::Arrive(
                Arrive {
                    target: Target::Vector {
                        at_pos: wp.pos,
                        pos_linvel: TVec3::zero(),
                        with_speed: CRUISE_SPEED,
                    },
                    arrival_tolerance: PATROL_ARRIVAL_TOLERANCE,
                    deceleration_radius: None,
                    linvel_limit: craft.config.linvel_limit,
                    avail_accel: avail,
                },
            ),
            lin_out: LinearRoutineOutput(TVec3::zero()),
            ang_out: AngularRoutineOutput(TVec3::zero()),
        },
    );

    let compose_id: u64 = mind.next_id;
    mind.next_id = mind.next_id + 1;
    let mut list = routine_list_new();
    routine_list_push(&mut list, avoid_id);
    routine_list_push(&mut list, arrive_id);
    proof {
        assert(spec_routine_list(&list) =~= seq![avoid_id, arrive_id]);
    }
    mind.routines.push(
        RoutineEntry {
            id: compose_id,
            tag: SteeringRoutine::new(boid, RoutineKind::Compose),
            active: true,
            param: RoutineParam::Compose(
                Compose { composer: SteeringRoutineComposer::PriorityOverride { routines: list } },
            ),
            lin_out: LinearRoutineOutput(TVec3::zero()),
            ang_out: AngularRoutineOutput(TVec3::zero()),
        },
    );

    mind.strategies[k].state = RunCircuitState {
        composer_routine: Some(compose_id),
        arrive_routine: Some(arrive_id),
        avoid_collision_routine: Some(avoid_id),
    };
    mind.strategies[k].output = BoidStrategyOutput {
        steering_routine: Some(compose_id),
        fire_weapons: false,
    };
    mind.strategies[k].active = true;

    proof {
        assert(mind.routines@.subrange(0, base) =~= old(mind).routines@);
        assert(mind.strategies@ =~= old(mind).strategies@.update(
            k as int,
            spec_activated(old(mind).strategies@[k as int], avoid_id, arrive_id, compose_id),
        ));
        assert(spec_butler_built(*old(mind), *mind, k as int, craft, wp));
    }
    Ok(())
}

/// The waypoint just reached is the one this arrive routine currently
/// targets, within the craft's bounding-radius-squared tolerance.
pub open spec fn spec_targets_waypoint(p: Arrive, wp_pos: TVec3, dims: TVec3) -> bool {
    match p.target {
        Target::Vector { at_pos, .. } => crate::math::spec_v3_norm_sq(
            crate::math::spec_v3_sub(at_pos@, wp_pos@),
        ) < spec_v3_max_element(dims@) * spec_v3_max_element(dims@) + 1_000_000,
    }
}

/// This strategy reacts to the event and points at arrive routine `rid`.
pub open spec fn spec_strategy_triggers(
    st: StrategyEntry,
    routines: Seq<RoutineEntry>,
    craft_id: u64,
    wp: WaypointEntry,
    dims: TVec3,
    rid: u64,
) -> bool {
    &&& st.strategy.spec_boid_entt() == craft_id
    &&& st.strategy.spec_kind() == BoidStrategyKind::RunCircuit
    &&& st.active
    &&& st.state.arrive_routine == Option::Some(rid)
    &&& match spec_find_routine(routines, rid) {
        Option::Some(e) => match e.param {
            RoutineParam::Arrive(p) => spec_targets_waypoint(p, wp.pos, dims),
            _ => false,
        },
        Option::None => false,
    }
}

/// This strategy reacts to the event, whichever routine it points at.
pub open spec fn spec_strategy_fires(
    st: StrategyEntry,
    routines: Seq<RoutineEntry>,
    craft_id: u64,
    wp: WaypointEntry,
    dims: TVec3,
) -> bool {
    match st.state.arrive_routine {
        Option::Some(rid) => spec_strategy_triggers(st, routines, craft_id, wp, dims, rid),
        Option::None => false,
    }
}

/// Some strategy among the first `bound` retargets routine `rid`.
pub open spec fn spec_retarget_upto(
    strategies: Seq<StrategyEntry>,
    routines: Seq<RoutineEntry>,
    craft_id: u64,
    wp: WaypointEntry,
    dims: TVec3,
    rid: u64,
    bound: int,
) -> bool {
    exists|k: int|
        0 <= k < bound && spec_strategy_triggers(
            #[trigger] strategies[k],
            routines,
            craft_id,
            wp,
            dims,
            rid,
        )
}

/// Some strategy retargets routine `rid` for this event.
pub open spec fn spec_should_retarget(
    strategies: Seq<StrategyEntry>,
    routines: Seq<RoutineEntry>,
    craft_id: u64,
    wp: WaypointEntry,
    dims: TVec3,
    rid: u64,
) -> bool {
    spec_retarget_upto(strategies, routines, craft_id, wp, dims, rid, strategies.len() as int)
}

/// Some strategy reacts to this event at all.
pub open spec fn spec_any_retarget(
    strategies: Seq<StrategyEntry>,
    routines: Seq<RoutineEntry>,
    craft_id: u64,
    wp: WaypointEntry,
    dims: TVec3,
) -> bool {
    exists|k: int|
        0 <= k < strategies.len() && spec_strategy_fires(
            #[trigger] strategies[k],
            routines,
            craft_id,
            wp,
            dims,
        )
}

/// Strategy `k` matches the event's craft but its arrive routine does not
/// resolve to an arrive record: a lifecycle bug.
pub open spec fn spec_arrival_fault_at(
    strategies: Seq<StrategyEntry>,
    routines: Seq<RoutineEntry>,
    craft_id: u64,
    k: int,
) -> bool {
    let st = strategies[k];
    &&& st.strategy.spec_boid_entt() == craft_id
    &&& st.strategy.spec_kind() == BoidStrategyKind::RunCircuit
    &&& st.active
    &&& match st.state.arrive_routine {
        Option::Some(rid) => match spec_find_routine(routines, rid) {
            Option::Some(e) => !(e.param is Arrive),
            Option::None => true,
        },
        Option::None => true,
    }
}

pub open spec fn spec_routine_fault(
    strategies: Seq<StrategyEntry>,
    routines: Seq<RoutineEntry>,
    craft_id: u64,
) -> bool {
    exists|k: int|
        0 <= k < strategies.len() && #[trigger] spec_arrival_fault_at(
            strategies,
            routines,
            craft_id,
            k,
        )
}

/// The arrive routine retargeted to the next waypoint's position at its
/// own speed: the perpetual patrol step.
pub open spec fn spec_retargeted(e: RoutineEntry, next_pos: TVec3) -> RoutineEntry {
    match e.param {
        RoutineParam::Arrive(p) => RoutineEntry {
            param: RoutineParam::Arrive(
                Arrive {
                    target: match p.target {
                        Target::Vector { with_speed, .. } => Target::Vector {
                            at_pos: next_pos,
                            pos_linvel: TVec3 { x: 0, y: 0, z: 0 },
                            with_speed,
                        },
                    },
                    ..p
                },
            ),
            ..e
        },
        _ => e,
    }
}

/// The whole routine registry after one arrival event, as a value: each
/// routine that some strategy retargets for the event is retargeted to
/// the successor waypoint, everything else is untouched. An unknown
/// waypoint or an object that is no craft changes nothing.
pub open spec fn spec_arrival_routines(
    routines: Seq<RoutineEntry>,
    strategies: Seq<StrategyEntry>,
    wps: Seq<WaypointEntry>,
    crafts: Seq<CraftEntry>,
    waypoint_id: u64,
    craft_id: u64,
) -> Seq<RoutineEntry> {
    match (spec_find_waypoint(wps, waypoint_id), spec_find_craft(crafts, craft_id)) {
        (Option::Some(wp), Option::Some(craft)) => Seq::new(
            routines.len(),
            |i: int|
                if spec_should_retarget(strategies, routines, craft_id, wp, craft.dims, routines[i].id) {
                    spec_retargeted(
                        routines[i],
                        spec_find_waypoint(wps, wp.waypoint.next_point)->Some_0.pos,
                    )
                } else {
                    routines[i]
                },
        ),
        _ => routines,
    }
}

/// Whether one arrival event hits a lifecycle bug: a matching strategy
/// whose arrive routine does not resolve, or a broken patrol cycle.
pub open spec fn spec_arrival_faults(
    routines: Seq<RoutineEntry>,
    strategies: Seq<StrategyEntry>,
    wps: Seq<WaypointEntry>,
    crafts: Seq<CraftEntry>,
    waypoint_id: u64,
    craft_id: u64,
) -> bool {
    match (spec_find_waypoint(wps, waypoint_id), spec_find_craft(crafts, craft_id)) {
        (Option::Some(wp), Option::Some(craft)) => spec_routine_fault(
            strategies,
            routines,
            craft_id,
        ) || (spec_any_retarget(strategies, routines, craft_id, wp, craft.dims)
            && spec_find_waypoint(wps, wp.waypoint.next_point) is None),
        _ => false,
    }
}

/// React to one waypoint-intersection event: for every active
/// circuit-patrol strategy on the intersecting craft whose arrive routine
/// currently targets this waypoint, retarget it to the waypoint's
/// successor. An object that is no craft, or an unknown waypoint, is an
/// expected absence: a silent skip. A strategy whose arrive routine does
/// not resolve, or a missing successor, is a lifecycle bug: the pass
/// aborts without touching anything.
pub fn handle_waypoint_arrival(
    mind: &mut Mind,
    waypoints: &WaypointTable,
    crafts: &CraftTable,
    waypoint_id: u64,
    craft_id: u64,
) -> (r: Result<(), MindError>)
    requires
        crafts.wf(),
        old(mind).wf(),
    ensures
        final(mind).wf(),
        final(mind).next_id == old(mind).next_id,
        final(mind).strategies@ == old(mind).strategies@,
        final(mind).routines@.len() == old(mind).routines@.len(),
        forall|i: int|
            0 <= i < old(mind).routines@.len() ==> (#[trigger] final(mind).routines@[i]).id == old(mind).routines@[i].id,
        r is Ok ==> final(mind).routines@ == spec_arrival_routines(
            old(mind).routines@,
            old(mind).strategies@,
            waypoints.entries@,
            crafts.entries@,
            waypoint_id,
            craft_id,
        ),
        r is Ok <==> !spec_arrival_faults(
            old(mind).routines@,
            old(mind).strategies@,
            waypoints.entries@,
            crafts.entries@,
            waypoint_id,
            craft_id,
        ),
        match r {
            Result::Ok(()) => match (
                spec_find_waypoint(waypoints.entries@, waypoint_id),
                spec_find_craft(crafts.entries@, craft_id),
            ) {
                (Option::Some(wp), Option::Some(craft)) => {
                    &&& !spec_routine_fault(old(mind).strategies@, old(mind).routines@, craft_id)
                    &&& (spec_any_retarget(old(mind).strategies@, old(mind).routines@, craft_id, wp, craft.dims)
                        ==> spec_find_waypoint(
                        waypoints.entries@,
                        wp.waypoint.next_point,
                    ) is Some)
                    &&& forall|i: int|
                        0 <= i < old(mind).routines@.len() ==> #[trigger] final(mind).routines@[i] == (if spec_should_retarget(old(mind).strategies@, old(mind).routines@, craft_id, wp, craft.dims, old(mind).routines@[i].id) {
                            spec_retargeted(
                                old(mind).routines@[i],
                                spec_find_waypoint(
                                    waypoints.entries@,
                                    wp.waypoint.next_point,
                                )->Some_0.pos,
                            )
                        } else {
                            old(mind).routines@[i]
                        })
                },
                _ => final(mind).routines@ == old(mind).routines@,
            },
            Result::Err(e) => {
                &&& final(mind).routines@ == old(mind).routines@
                &&& match (
                    spec_find_waypoint(waypoints.entries@, waypoint_id),
                    spec_find_craft(crafts.entries@, craft_id),
                ) {
                    (Option::Some(wp), Option::Some(craft)) => match e {
                        MindError::RoutineNotFound => spec_routine_fault(old(mind).strategies@, old(mind).routines@, craft_id),
                        MindError::WaypointNotFound => spec_any_retarget(old(mind).strategies@, old(mind).routines@, craft_id, wp, craft.dims) && spec_find_waypoint(
                            waypoints.entries@,
                            wp.waypoint.next_point,
                        ) is None,
                        _ => false,
                    },
                    _ => false,
                }
            },
        },
{
    let wp: WaypointEntry = match waypoints.find(waypoint_id) {
        Option::Some(w) => w,
        Option::None => {
            return Ok(());
        },
    };
    let craft: CraftEntry = match crafts.find(craft_id) {
        Option::Some(c) => c,
        Option::None => {
            return Ok(());
        },
    };
    proof {
        crate::registry::lemma_find_craft_is_member(crafts.entries@, craft_id);
    }
    let dim: i64 = craft.dims.max_element();

    // First pass: check every matching strategy and collect the arrive
    // routines to retarget, touching nothing yet.
    let ns: usize = mind.strategies.len();
    let mut to_retarget: Vec<u64> = Vec::new();
    let mut k: usize = 0;
    while k < ns
        invariant
            crafts.wf(),
            mind.wf(),
            mind.next_id == old(mind).next_id,
            mind.routines@ == old(mind).routines@,
            mind.strategies@ == old(mind).strategies@,
            k <= ns,
            ns == mind.strategies@.len(),
            spec_find_craft(crafts.entries@, craft_id) == Option::Some(craft),
            spec_find_waypoint(waypoints.entries@, waypoint_id) == Option::Some(wp),
            dim == spec_v3_max_element(craft.dims@),
            0 <= dim <= crate::fx::FX_MAX,
            forall|t: int|
                0 <= t < to_retarget@.len() ==> spec_retarget_upto(old(mind).strategies@, old(mind).routines@, craft_id, wp, craft.dims, #[trigger] to_retarget@[t], k as int),
            forall|rid: u64|
                spec_retarget_upto(old(mind).strategies@, old(mind).routines@, craft_id, wp, craft.dims, rid, k as int)
                    ==> to_retarget@.contains(rid),
            forall|j: int| 0 <= j < k ==> !spec_arrival_fault_at(old(mind).strategies@, old(mind).routines@, craft_id, j),
        decreases ns - k,
    {
        let st_boid: u64 = mind.strategies[k].strategy.boid_entt();
        let st_kind = mind.strategies[k].strategy.kind();
        let st_active: bool = mind.strategies[k].active;
        if st_boid == craft_id && st_kind == BoidStrategyKind::RunCircuit && st_active {
            let rid: u64 = match mind.strategies[k].state.arrive_routine {
                Option::Some(rid) => rid,
                Option::None => {
                    assert(spec_arrival_fault_at(old(mind).strategies@, old(mind).routines@, craft_id, k as int));
                    return Err(MindError::RoutineNotFound);
                },
            };
            let idx: usize = match mind.find_routine(rid) {
                Option::Some(i) => i,
                Option::None => {
                    assert(spec_arrival_fault_at(old(mind).strategies@, old(mind).routines@, craft_id, k as int));
                    return Err(MindError::RoutineNotFound);
                },
            };
            match &mind.routines[idx].param {
                RoutineParam::Arrive(p) => {
                    let within: bool = match &p.target {
                        Target::Vector { at_pos, .. } => {
                            let d = at_pos.vsub(&wp.pos);
                            let n: u128 = d.norm_sq();
                            proof {
                                assert(0 <= (dim as int) * (dim as int)
                                    < 0x4000_0000_0000_0000_0000_0000_0000_0000)
                                    by (nonlinear_arith)
                                    requires
                                        0 <= dim as int <= 4_000_000_000_000_000,
                                ;
                            }
                            let dim_sq: u128 = (dim as u128) * (dim as u128);
                            n < dim_sq + 1_000_000
                        },
                    };
                    if within {
                        assert(spec_strategy_triggers(
                            old(mind).strategies@[k as int],
                            old(mind).routines@,
                            craft_id,
                            wp,
                            craft.dims,
                            rid,
                        ));
                        let ghost pre = to_retarget@;
                        to_retarget.push(rid);
                        assert forall|rid2: u64|
                            spec_retarget_upto(old(mind).strategies@, old(mind).routines@, craft_id, wp, craft.dims, rid2, k as int + 1) implies to_retarget@.contains(rid2) by {
                            if spec_retarget_upto(old(mind).strategies@, old(mind).routines@, craft_id, wp, craft.dims, rid2, k as int) {
                                assert(pre.contains(rid2));
                                let t = choose|t: int| 0 <= t < pre.len() && pre[t] == rid2;
                                assert(to_retarget@[t] == rid2);
                            } else {
                                let k2 = choose|k2: int|
                                    0 <= k2 < k as int + 1 && spec_strategy_triggers(
                                        #[trigger] old(mind).strategies@[k2],
                                        old(mind).routines@,
                                        craft_id,
                                        wp,
                                        craft.dims,
                                        rid2,
                                    );
                                assert(k2 == k as int);
                                assert(rid2 == rid);
                                assert(to_retarget@[to_retarget@.len() - 1] == rid);
                            }
                        }
                    } else {
                        assert forall|rid2: u64|
                            spec_retarget_upto(old(mind).strategies@, old(mind).routines@, craft_id, wp, craft.dims, rid2, k as int + 1) implies spec_retarget_upto(
                            old(mind).strategies@,
                            old(mind).routines@,
                            craft_id,
                            wp,
                            craft.dims,
                            rid2,
                            k as int,
                        ) by {
                            let k2 = choose|k2: int|
                                0 <= k2 < k as int + 1 && spec_strategy_triggers(
                                    #[trigger] mind.strategies@[k2],
                                    mind.routines@,
                                    craft_id,
                                    wp,
                                    craft.dims,
                                    rid2,
                                );
                            assert(k2 != k as int);
                        }
                    }
                },
                _ => {
                    assert(spec_arrival_fault_at(old(mind).strategies@, old(mind).routines@, craft_id, k as int));
                    return Err(MindError::RoutineNotFound);
                },
            }
        } else {
            assert forall|rid2: u64|
                spec_retarget_upto(
                    old(mind).strategies@,
                    old(mind).routines@,
                    craft_id,
                    wp,
                    craft.dims,
                    rid2,
                    k as int + 1,
                ) implies spec_retarget_upto(
                old(mind).strategies@,
                old(mind).routines@,
                craft_id,
                wp,
                craft.dims,
                rid2,
                k as int,
            ) by {
                let k2 = choose|k2: int|
                    0 <= k2 < k as int + 1 && spec_strategy_triggers(
                        #[trigger] old(mind).strategies@[k2],
                        old(mind).routines@,
                        craft_id,
                        wp,
                        craft.dims,
                        rid2,
                    );
                assert(k2 != k as int);
            }
        }
        k = k + 1;
    }

    if to_retarget.len() == 0 {
        proof {
            assert forall|rid: u64|
                !spec_should_retarget(old(mind).strategies@, old(mind).routines@, craft_id, wp, craft.dims, rid) by {
                if spec_should_retarget(old(mind).strategies@, old(mind).routines@, craft_id, wp, craft.dims, rid) {
                    assert(to_retarget@.contains(rid));
                }
            }
            assert(!spec_any_retarget(old(mind).strategies@, old(mind).routines@, craft_id, wp, craft.dims)) by {
                if spec_any_retarget(old(mind).strategies@, old(mind).routines@, craft_id, wp, craft.dims) {
                    let k2 = choose|k2: int|
                        0 <= k2 < old(mind).strategies@.len() && spec_strategy_fires(
                            #[trigger] old(mind).strategies@[k2],
                            old(mind).routines@,
                            craft_id,
                            wp,
                            craft.dims,
                        );
                    let rid = old(mind).strategies@[k2].state.arrive_routine->Some_0;
                    assert(spec_retarget_upto(old(mind).strategies@, old(mind).routines@, craft_id, wp, craft.dims, rid, ns as int));
                    assert(to_retarget@.contains(rid));
                }
            }
            assert(!spec_routine_fault(old(mind).strategies@, old(mind).routines@, craft_id))
                by {
                if spec_routine_fault(old(mind).strategies@, old(mind).routines@, craft_id) {
                    let k2 = choose|k2: int|
                        0 <= k2 < old(mind).strategies@.len() && #[trigger] spec_arrival_fault_at(
                            old(mind).strategies@,
                            old(mind).routines@,
                            craft_id,
                            k2,
                        );
                    assert(!spec_arrival_fault_at(
                        old(mind).strategies@,
                        old(mind).routines@,
                        craft_id,
                        k2,
                    ));
                }
            }
            assert(mind.routines@ =~= spec_arrival_routines(
                old(mind).routines@,
                old(mind).strategies@,
                waypoints.entries@,
                crafts.entries@,
                waypoint_id,
                craft_id,
            ));
        }
        return Ok(());
    }

    let next: WaypointEntry = match waypoints.find(wp.waypoint.next_point) {
        Option::Some(w) => w,
        Option::None => {
            proof {
                let rid = to_retarget@[0];
                assert(spec_retarget_upto(old(mind).strategies@, old(mind).routines@, craft_id, wp, craft.dims, rid, ns as int));
                let k2 = choose|k2: int|
                    0 <= k2 < ns as int && spec_strategy_triggers(
                        #[trigger] old(mind).strategies@[k2],
                        old(mind).routines@,
                        craft_id,
                        wp,
                        craft.dims,
                        rid,
                    );
                assert(spec_strategy_fires(
                    old(mind).strategies@[k2],
                    old(mind).routines@,
                    craft_id,
                    wp,
                    craft.dims,
                ));
            }
            return Err(MindError::WaypointNotFound);
        },
    };

    // Second pass: apply the collected retargets. The step is idempotent,
    // so a routine listed twice ends in the same state.
    let m: usize = to_retarget.len();
    let mut t: usize = 0;
    while t < m
        invariant
            mind.wf(),
            t <= m,
            m == to_retarget@.len(),
            mind.next_id == old(mind).next_id,
            mind.strategies@ == old(mind).strategies@,
            mind.routines@.len() == old(mind).routines@.len(),
            forall|t2: int|
                0 <= t2 < to_retarget@.len() ==> spec_should_retarget(
                    old(mind).strategies@,
                    old(mind).routines@,
                    craft_id,
                    wp,
                    craft.dims,
                    #[trigger] to_retarget@[t2],
                ),
            spec_find_craft(crafts.entries@, craft_id) == Option::Some(craft),
            spec_find_waypoint(waypoints.entries@, waypoint_id) == Option::Some(wp),
            spec_find_waypoint(waypoints.entries@, wp.waypoint.next_point) == Option::Some(next),
            forall|rid: u64|
                spec_should_retarget(
                    old(mind).strategies@,
                    old(mind).routines@,
                    craft_id,
                    wp,
                    craft.dims,
                    rid,
                ) ==> to_retarget@.contains(rid),
            forall|i: int|
                0 <= i < old(mind).routines@.len() ==> #[trigger] mind.routines@[i] == (if (
                exists|t2: int|
                    0 <= t2 < t && to_retarget@[t2] == old(mind).routines@[i].id) {
                    spec_retargeted(old(mind).routines@[i], next.pos)
                } else {
                    old(mind).routines@[i]
                }),
        decreases m - t,
    {
        let rid: u64 = to_retarget[t];
        proof {
            let k2 = choose|k2: int|
                0 <= k2 < old(mind).strategies@.len() && spec_strategy_triggers(
                    #[trigger] old(mind).strategies@[k2],
                    old(mind).routines@,
                    craft_id,
                    wp,
                    craft.dims,
                    rid,
                );
            crate::registry::lemma_find_routine_is_member(old(mind).routines@, rid);
            let i0 = choose|i0: int|
                0 <= i0 < old(mind).routines@.len() && #[trigger] old(mind).routines@[i0]
                    == spec_find_routine(old(mind).routines@, rid)->Some_0;
            crate::registry::lemma_find_routine_exists(mind.routines@, rid, i0);
        }
        let idx: usize = match mind.find_routine(rid) {
            Option::Some(i) => i,
            Option::None => {
                // the first pass resolved this routine and ids never change
                proof {
                    assert(false);
                }
                return Err(MindError::RoutineNotFound);
            },
        };
        proof {
            // the entry at idx carries the same id as in the old registry,
            // and ids are unique, so idx is the routine found before
            let i0 = choose|i0: int|
                0 <= i0 < old(mind).routines@.len() && #[trigger] old(mind).routines@[i0]
                    == spec_find_routine(old(mind).routines@, rid)->Some_0;
            assert(old(mind).routines@[idx as int].id == rid);
            assert(i0 == idx as int);
        }
        let arr: Arrive = match &mind.routines[idx].param {
            RoutineParam::Arrive(p) => *p,
            _ => {
                // a retarget keeps the record an arrive routine
                proof {
                    assert(false);
                }
                return Err(MindError::RoutineNotFound);
            },
        };
        let ws: i64 = match arr.target {
            Target::Vector { with_speed, .. } => with_speed,
        };
        mind.routines[idx].param = RoutineParam::Arrive(
            Arrive {
                target: Target::Vector {
                    at_pos: next.pos,
                    pos_linvel: TVec3::zero(),
                    with_speed: ws,
                },
                ..arr
            },
        );
        proof {
            assert(mind.routines@[idx as int] == spec_retargeted(
                old(mind).routines@[idx as int],
                next.pos,
            ));
            assert forall|i: int| 0 <= i < old(mind).routines@.len() implies #[trigger] mind
                .routines@[i] == (if (exists|t2: int|
                0 <= t2 < t + 1 && to_retarget@[t2] == old(mind).routines@[i].id) {
                spec_retargeted(old(mind).routines@[i], next.pos)
            } else {
                old(mind).routines@[i]
            }) by {
                if i != idx as int {
                    if exists|t2: int|
                        0 <= t2 < t + 1 && to_retarget@[t2] == old(mind).routines@[i].id {
                        let t2 = choose|t2: int|
                            0 <= t2 < t + 1 && to_retarget@[t2] == old(mind).routines@[i].id;
                        if t2 == t as int {
                            assert(old(mind).routines@[i].id == rid);
                            assert(i == idx as int);
                        }
                    }
                }
            }
        }
        t = t + 1;
    }
    proof {
        assert forall|i: int| 0 <= i < old(mind).routines@.len() implies #[trigger] mind
            .routines@[i] == (if spec_should_retarget(
            old(mind).strategies@,
            old(mind).routines@,
            craft_id,
            wp,
            craft.dims,
            old(mind).routines@[i].id,
        ) {
            spec_retargeted(old(mind).routines@[i], next.pos)
        } else {
            old(mind).routines@[i]
        }) by {
            if spec_should_retarget(
                old(mind).strategies@,
                old(mind).routines@,
                craft_id,
                wp,
                craft.dims,
                old(mind).routines@[i].id,
            ) {
                assert(to_retarget@.contains(old(mind).routines@[i].id));
            } else {
                if exists|t2: int|
                    0 <= t2 < m && to_retarget@[t2] == old(mind).routines@[i].id {
                    let t2 = choose|t2: int|
                        0 <= t2 < m && to_retarget@[t2] == old(mind).routines@[i].id;
                    assert(spec_should_retarget(
                        old(mind).strategies@,
                        old(mind).routines@,
                        craft_id,
                        wp,
                        craft.dims,
                        to_retarget@[t2],
                    ));
                }
            }
        }
        assert(!spec_routine_fault(old(mind).strategies@, old(mind).routines@, craft_id)) by {
            if spec_routine_fault(old(mind).strategies@, old(mind).routines@, craft_id) {
                let k2 = choose|k2: int|
                    0 <= k2 < old(mind).strategies@.len() && #[trigger] spec_arrival_fault_at(
                        old(mind).strategies@,
                        old(mind).routines@,
                        craft_id,
                        k2,
                    );
                assert(!spec_arrival_fault_at(
                    old(mind).strategies@,
                    old(mind).routines@,
                    craft_id,
                    k2,
                ));
            }
        }
        assert(mind.routines@ =~= spec_arrival_routines(
            old(mind).routines@,
            old(mind).strategies@,
            waypoints.entries@,
            crafts.entries@,
            waypoint_id,
            craft_id,
        ));
    }
    Ok(())
}

/// The routine registry after a whole tick's worth of arrival events,
/// applied in order.
pub open spec fn spec_patrol_routines(
    routines: Seq<RoutineEntry>,
    strategies: Seq<StrategyEntry>,
    wps: Seq<WaypointEntry>,
    crafts: Seq<CraftEntry>,
    events: Seq<(u64, u64)>,
) -> Seq<RoutineEntry>
    decreases events.len(),
{
    if events.len() == 0 {
        routines
    } else {
        spec_patrol_routines(
            spec_arrival_routines(routines, strategies, wps, crafts, events[0].0, events[0].1),
            strategies,
            wps,
            crafts,
            events.drop_first(),
        )
    }
}

/// Whether a whole tick's worth of arrival events runs through without a
/// lifecycle fault.
pub open spec fn spec_patrol_ok(
    routines: Seq<RoutineEntry>,
    strategies: Seq<StrategyEntry>,
    wps: Seq<WaypointEntry>,
    crafts: Seq<CraftEntry>,
    events: Seq<(u64, u64)>,
) -> bool
    decreases events.len(),
{
    if events.len() == 0 {
        true
    } else {
        &&& !spec_arrival_faults(routines, strategies, wps, crafts, events[0].0, events[0].1)
        &&& spec_patrol_ok(
            spec_arrival_routines(routines, strategies, wps, crafts, events[0].0, events[0].1),
            strategies,
            wps,
            crafts,
            events.drop_first(),
        )
    }
}

/// Folding one more event at the end is one arrival step on the fold so
/// far, and it succeeds exactly when the prefix did and the new event
/// finds no fault in the folded registry.
pub proof fn lemma_patrol_push(
    routines: Seq<RoutineEntry>,
    strategies: Seq<StrategyEntry>,
    wps: Seq<WaypointEntry>,
    crafts: Seq<CraftEntry>,
    events: Seq<(u64, u64)>,
    e: (u64, u64),
)
    ensures
        spec_patrol_routines(routines, strategies, wps, crafts, events.push(e))
            == spec_arrival_routines(
            spec_patrol_routines(routines, strategies, wps, crafts, events),
            strategies,
            wps,
            crafts,
            e.0,
            e.1,
        ),
        spec_patrol_ok(routines, strategies, wps, crafts, events.push(e)) == (spec_patrol_ok(
            routines,
            strategies,
            wps,
            crafts,
            events,
        ) && !spec_arrival_faults(
            spec_patrol_routines(routines, strategies, wps, crafts, events),
            strategies,
            wps,
            crafts,
            e.0,
            e.1,
        )),
    decreases events.len(),
{
    let pushed = events.push(e);
    if events.len() == 0 {
        assert(pushed[0] == e);
        assert(pushed.drop_first() =~= Seq::<(u64, u64)>::empty());
        let stepped = spec_arrival_routines(routines, strategies, wps, crafts, e.0, e.1);
        assert(spec_patrol_routines(stepped, strategies, wps, crafts, pushed.drop_first())
            == stepped);
        assert(spec_patrol_ok(stepped, strategies, wps, crafts, pushed.drop_first()));
        assert(spec_patrol_routines(routines, strategies, wps, crafts, pushed) == stepped);
        assert(spec_patrol_ok(routines, strategies, wps, crafts, pushed) == !spec_arrival_faults(
            routines,
            strategies,
            wps,
            crafts,
            e.0,
            e.1,
        ));
    } else {
        let stepped = spec_arrival_routines(
            routines,
            strategies,
            wps,
            crafts,
            events[0].0,
            events[0].1,
        );
        assert(pushed[0] == events[0]);
        assert(pushed.drop_first() =~= events.drop_first().push(e));
        lemma_patrol_push(stepped, strategies, wps, crafts, events.drop_first(), e);
        assert(spec_patrol_routines(routines, strategies, wps, crafts, pushed)
            == spec_patrol_routines(stepped, strategies, wps, crafts, events.drop_first().push(e)));
        assert(spec_patrol_routines(routines, strategies, wps, crafts, events)
            == spec_patrol_routines(stepped, strategies, wps, crafts, events.drop_first()));
        assert(spec_patrol_ok(routines, strategies, wps, crafts, pushed) == (!spec_arrival_faults(
            routines,
            strategies,
            wps,
            crafts,
            events[0].0,
            events[0].1,
        ) && spec_patrol_ok(stepped, strategies, wps, crafts, events.drop_first().push(e))));
        assert(spec_patrol_ok(routines, strategies, wps, crafts, events) == (!spec_arrival_faults(
            routines,
            strategies,
            wps,
            crafts,
            events[0].0,
            events[0].1,
        ) && spec_patrol_ok(stepped, strategies, wps, crafts, events.drop_first())));
    }
}

/// The steady-state pass, once per tick: hand every waypoint-intersection
/// event of this tick to [`handle_waypoint_arrival`], in order. The first
/// lifecycle fault aborts the pass with its diagnostic, keeping the
/// effects of the events already handled.
pub fn update(
    mind: &mut Mind,
    waypoints: &WaypointTable,
    crafts: &CraftTable,
    intersections: &Vec<(u64, u64)>,
) -> (r: Result<(), MindError>)
    requires
        crafts.wf(),
        old(mind).wf(),
    ensures
        final(mind).wf(),
        final(mind).next_id == old(mind).next_id,
        final(mind).strategies@ == old(mind).strategies@,
        match r {
            Result::Ok(()) => {
                &&& spec_patrol_ok(
                    old(mind).routines@,
                    old(mind).strategies@,
                    waypoints.entries@,
                    crafts.entries@,
                    intersections@,
                )
                &&& final(mind).routines@ == spec_patrol_routines(
                    old(mind).routines@,
                    old(mind).strategies@,
                    waypoints.entries@,
                    crafts.entries@,
                    intersections@,
                )
            },
            Result::Err(e) => {
                &&& exists|j: int|
                    {
                        &&& 0 <= j < intersections@.len()
                        &&& spec_patrol_ok(
                            old(mind).routines@,
                            old(mind).strategies@,
                            waypoints.entries@,
                            crafts.entries@,
                            #[trigger] intersections@.take(j),
                        )
                        &&& spec_arrival_faults(
                            spec_patrol_routines(
                                old(mind).routines@,
                                old(mind).strategies@,
                                waypoints.entries@,
                                crafts.entries@,
                                intersections@.take(j),
                            ),
                            old(mind).strategies@,
                            waypoints.entries@,
                            crafts.entries@,
                            intersections@[j].0,
                            intersections@[j].1,
                        )
                        &&& final(mind).routines@ == spec_patrol_routines(
                            old(mind).routines@,
                            old(mind).strategies@,
                            waypoints.entries@,
                            crafts.entries@,
                            intersections@.take(j),
                        )
                    }
                &&& (e == MindError::RoutineNotFound || e == MindError::WaypointNotFound)
            },
        },
{
    let n: usize = intersections.len();
    let mut i: usize = 0;
    proof {
        assert(intersections@.take(0) =~= Seq::<(u64, u64)>::empty());
    }
    while i < n
        invariant
            crafts.wf(),
            mind.wf(),
            i <= n,
            n == intersections@.len(),
            mind.next_id == old(mind).next_id,
            mind.strategies@ == old(mind).strategies@,
            spec_patrol_ok(
                old(mind).routines@,
                old(mind).strategies@,
                waypoints.entries@,
                crafts.entries@,
                intersections@.take(i as int),
            ),
            mind.routines@ == spec_patrol_routines(
                old(mind).routines@,
                old(mind).strategies@,
                waypoints.entries@,
                crafts.entries@,
                intersections@.take(i as int),
            ),
        decreases n - i,
    {
        let (waypoint_id, craft_id): (u64, u64) = intersections[i];
        let ghost pre = *mind;
        proof {
            assert(intersections@.take(i as int).push(intersections@[i as int])
                =~= intersections@.take(i as int + 1));
            lemma_patrol_push(
                old(mind).routines@,
                old(mind).strategies@,
                waypoints.entries@,
                crafts.entries@,
                intersections@.take(i as int),
                intersections@[i as int],
            );
        }
        match handle_waypoint_arrival(mind, waypoints, crafts, waypoint_id, craft_id) {
            Result::Ok(()) => {},
            Result::Err(e) => {
                proof {
                    assert(spec_arrival_faults(
                        pre.routines@,
                        pre.strategies@,
                        waypoints.entries@,
                        crafts.entries@,
                        waypoint_id,
                        craft_id,
                    ));
                    assert(spec_patrol_ok(
                        old(mind).routines@,
                        old(mind).strategies@,
                        waypoints.entries@,
                        crafts.entries@,
                        intersections@.take(i as int),
                    ));
                }
                return Err(e);
            },
        }
        i = i + 1;
    }
    proof {
        assert(intersections@.take(n as int) =~= intersections@);
    }
    Ok(())
}

} // verus!
