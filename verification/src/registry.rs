//! The per-world registry: typed records for routines and strategies
//! behind stable integer handles, plus the lookup tables the strategy
//! layer reads. A destroyed entity is simply absent; handles are never
//! reused, so a stale handle can only miss, never alias.

use vstd::prelude::*;

use crate::engine::EngineConfig;
use crate::math::{TVec3, V3};
use crate::steering::arrive::Arrive;
use crate::steering::avoid_collision::AvoidCollision;
use crate::steering::compose::{
    priority_override, routine_list_get, routine_list_len, spec_priority_override,
    spec_routine_list, Compose, RoutineList,
};
use crate::steering::seek::Seek;
use crate::steering::{AngularRoutineOutput, LinearRoutineOutput, RoutineKind, SteeringRoutine};
use crate::strategy::{BoidStrategy, BoidStrategyOutput};
use crate::strategy::run_circuit::{CircuitWaypoint, RunCircuit, RunCircuitState};

verus! {

/// A lookup that the design guarantees to succeed has failed: a lifecycle
/// bug, fatal to the running pass.
#[derive(Clone, Copy, Debug, PartialEq, Eq, Structural)]
pub enum MindError {
    CraftNotFound,
    WaypointNotFound,
    RoutineNotFound,
    StrategyNotFound,
}

impl MindError {
    /// A diagnostic name for the failed lookup.
    pub fn describe(&self) -> (r: &'static str)
    {
        match self {
            MindError::CraftNotFound => "craft not found",
            MindError::WaypointNotFound => "waypoint not found",
            MindError::RoutineNotFound => "routine not found",
            MindError::StrategyNotFound => "strategy not found",
        }
    }
}

/// The behaviour-specific parameter record of a routine.
pub enum RoutineParam {
    Seek(Seek),
    Arrive(Arrive),
    AvoidCollision(AvoidCollision),
    Intercept(crate::steering::intercept::Intercept),
    FlyWithFlock(crate::steering::fly_with_flock::FlyWithFlock),
    Compose(Compose),
}

impl RoutineParam {
    /// The behaviour kind this parameter record belongs to.
    pub open spec fn spec_kind(&self) -> RoutineKind {
        match self {
            RoutineParam::Seek(_) => RoutineKind::Seek,
            RoutineParam::Arrive(_) => RoutineKind::Arrive,
            RoutineParam::AvoidCollision(_) => RoutineKind::AvoidCollision,
            RoutineParam::Intercept(_) => RoutineKind::Intercept,
            RoutineParam::FlyWithFlock(_) => RoutineKind::FlyWithFlock,
            RoutineParam::Compose(_) => RoutineKind::Compose,
        }
    }
}

/// One steering routine record.
pub struct RoutineEntry {
    pub id: u64,
    pub tag: SteeringRoutine,
    pub active: bool,
    pub param: RoutineParam,
    pub lin_out: LinearRoutineOutput,
    pub ang_out: AngularRoutineOutput,
}

/// One strategy record.
pub struct StrategyEntry {
    pub id: u64,
    pub strategy: BoidStrategy,
    pub active: bool,
    pub param: RunCircuit,
    pub state: RunCircuitState,
    pub output: BoidStrategyOutput,
}

/// A patrol waypoint: a world position and its successor, forming a
/// singly-linked cycle.
#[derive(Clone, Copy, Debug)]
pub struct WaypointEntry {
    pub id: u64,
    pub waypoint: CircuitWaypoint,
    pub pos: TVec3,
}

/// The world's waypoints.
pub struct WaypointTable {
    pub entries: Vec<WaypointEntry>,
}

/// What the strategy layer reads of a craft: its engine configuration and
/// its bounding dimensions.
#[derive(Clone, Copy, Debug)]
pub struct CraftEntry {
    pub id: u64,
    pub config: EngineConfig,
    pub dims: TVec3,
}

/// The live crafts.
pub struct CraftTable {
    pub entries: Vec<CraftEntry>,
}

/// A position lookup for world objects, fed from the transform state.
pub struct XformIndex {
    pub entries: Vec<(u64, TVec3)>,
}

/// The first waypoint entry with the given id.
pub open spec fn spec_find_waypoint(s: Seq<WaypointEntry>, id: u64) -> Option<WaypointEntry>
    decreases s.len(),
{
    if s.len() == 0 {
        Option::None
    } else if s[0].id == id {
        Option::Some(s[0])
    } else {
        spec_find_waypoint(s.drop_first(), id)
    }
}

/// The first craft entry with the given id.
pub open spec fn spec_find_craft(s: Seq<CraftEntry>, id: u64) -> Option<CraftEntry>
    decreases s.len(),
{
    if s.len() == 0 {
        Option::None
    } else if s[0].id == id {
        Option::Some(s[0])
    } else {
        spec_find_craft(s.drop_first(), id)
    }
}

/// The first position entry with the given id.
pub open spec fn spec_find_xform(s: Seq<(u64, TVec3)>, id: u64) -> Option<TVec3>
    decreases s.len(),
{
    if s.len() == 0 {
        Option::None
    } else if s[0].0 == id {
        Option::Some(s[0].1)
    } else {
        spec_find_xform(s.drop_first(), id)
    }
}

/// A found craft is one of the table's entries, so the table invariant
/// applies to it.
pub proof fn lemma_find_craft_is_member(s: Seq<CraftEntry>, id: u64)
    requires
        spec_find_craft(s, id) is Some,
    ensures
        exists|i: int| 0 <= i < s.len() && #[trigger] s[i] == spec_find_craft(s, id)->Some_0,
        spec_find_craft(s, id)->Some_0.id == id,
    decreases s.len(),
{
    if s.len() != 0 && s[0].id != id {
        lemma_find_craft_is_member(s.drop_first(), id);
        let j = choose|j: int|
            0 <= j < s.drop_first().len() && #[trigger] s.drop_first()[j] == spec_find_craft(
                s.drop_first(),
                id,
            )->Some_0;
        assert(s[j + 1] == s.drop_first()[j]);
    }
}

impl WaypointTable {
    pub fn find(&self, id: u64) -> (r: Option<WaypointEntry>)
        ensures
            r == spec_find_waypoint(self.entries@, id),
    {
        let n: usize = self.entries.len();
        let mut i: usize = 0;
        proof {
            assert(self.entries@.skip(0) =~= self.entries@);
        }
        while i < n
            invariant
                i <= n,
                n == self.entries@.len(),
                spec_find_waypoint(self.entries@, id) == spec_find_waypoint(
                    self.entries@.skip(i as int),
                    id,
                ),
            decreases n - i,
        {
            proof {
                assert(self.entries@.skip(i as int)[0] == self.entries@[i as int]);
                assert(self.entries@.skip(i as int).drop_first() =~= self.entries@.skip(
                    i as int + 1,
                ));
            }
            if self.entries[i].id == id {
                return Some(self.entries[i]);
            }
            i = i + 1;
        }
        proof {
            assert(self.entries@.skip(n as int).len() == 0);
        }
        None
    }
}

impl CraftTable {
    /// Every craft record satisfies the engine invariants, and its
    /// dimensions are representable.
    pub open spec fn wf(&self) -> bool {
        forall|i: int|
            0 <= i < self.entries@.len() ==> (#[trigger] self.entries@[i]).config.valid()
                && crate::math::spec_v3_nonneg(self.entries@[i].dims@)
                && crate::math::spec_v3_in_range(self.entries@[i].dims@, crate::fx::FX_MAX as int)
    }

    pub fn find(&self, id: u64) -> (r: Option<CraftEntry>)
        ensures
            r == spec_find_craft(self.entries@, id),
    {
        let n: usize = self.entries.len();
        let mut i: usize = 0;
        proof {
            assert(self.entries@.skip(0) =~= self.entries@);
        }
        while i < n
            invariant
                i <= n,
                n == self.entries@.len(),
                spec_find_craft(self.entries@, id) == spec_find_craft(
                    self.entries@.skip(i as int),
                    id,
                ),
            decreases n - i,
        {
            proof {
                assert(self.entries@.skip(i as int)[0] == self.entries@[i as int]);
                assert(self.entries@.skip(i as int).drop_first() =~= self.entries@.skip(
                    i as int + 1,
                ));
            }
            if self.entries[i].id == id {
                return Some(self.entries[i]);
            }
            i = i + 1;
        }
        proof {
            assert(self.entries@.skip(n as int).len() == 0);
        }
        None
    }
}

impl XformIndex {
    pub fn find(&self, id: u64) -> (r: Option<TVec3>)
        ensures
            r == spec_find_xform(self.entries@, id),
    {
        let n: usize = self.entries.len();
        let mut i: usize = 0;
        proof {
            assert(self.entries@.skip(0) =~= self.entries@);
        }
        while i < n
            invariant
                i <= n,
                n == self.entries@.len(),
                spec_find_xform(self.entries@, id) == spec_find_xform(
                    self.entries@.skip(i as int),
                    id,
                ),
            decreases n - i,
        {
            proof {
                assert(self.entries@.skip(i as int)[0] == self.entries@[i as int]);
                assert(self.entries@.skip(i as int).drop_first() =~= self.entries@.skip(
                    i as int + 1,
                ));
            }
            if self.entries[i].0 == id {
                return Some(self.entries[i].1);
            }
            i = i + 1;
        }
        proof {
            assert(self.entries@.skip(n as int).len() == 0);
        }
        None
    }
}

/// The first routine entry with the given id.
pub open spec fn spec_find_routine(s: Seq<RoutineEntry>, id: u64) -> Option<RoutineEntry>
    decreases s.len(),
{
    if s.len() == 0 {
        Option::None
    } else if s[0].id == id {
        Option::Some(s[0])
    } else {
        spec_find_routine(s.drop_first(), id)
    }
}

/// The id of the first routine of the given craft and kind: the per-craft
/// kind index that keeps strategies from spawning duplicates.
pub open spec fn spec_first_routine_of_kind(
    s: Seq<RoutineEntry>,
    craft_entt: u64,
    kind: RoutineKind,
) -> Option<u64>
    decreases s.len(),
{
    if s.len() == 0 {
        Option::None
    } else if s[0].tag.spec_craft_entt() == craft_entt && s[0].tag.spec_kind() == kind {
        Option::Some(s[0].id)
    } else {
        spec_first_routine_of_kind(s.drop_first(), craft_entt, kind)
    }
}

/// The registry of routines and strategies, with a monotonic id counter:
/// a fresh entity can never collide with a live or a destroyed one.
pub struct Mind {
    pub next_id: u64,
    pub routines: Vec<RoutineEntry>,
    pub strategies: Vec<StrategyEntry>,
}

impl Mind {
    /// Every stored id was drawn from the counter, so ids never collide
    /// and a handle resolves to at most one record.
    pub open spec fn wf(&self) -> bool {
        &&& forall|i: int|
            0 <= i < self.routines@.len() ==> (#[trigger] self.routines@[i]).id < self.next_id
        &&& forall|i: int|
            0 <= i < self.strategies@.len() ==> (#[trigger] self.strategies@[i]).id < self.next_id
        &&& forall|i: int, j: int|
            0 <= i < j < self.routines@.len() ==> (#[trigger] self.routines@[i]).id != (
            #[trigger] self.routines@[j]).id
        &&& forall|i: int, j: int|
            0 <= i < j < self.strategies@.len() ==> (#[trigger] self.strategies@[i]).id != (
            #[trigger] self.strategies@[j]).id
    }

    pub fn new() -> (r: Mind)
        ensures
            r.wf(),
            r.next_id == 1,
            r.routines@.len() == 0,
            r.strategies@.len() == 0,
    {
        Mind { next_id: 1, routines: Vec::new(), strategies: Vec::new() }
    }

    /// Create a circuit-patrol strategy on the given craft, in its
    /// uninitialized state: the butler pass activates it.
    pub fn spawn_run_circuit(&mut self, craft_entt: u64, param: RunCircuit) -> (r: u64)
        requires
            old(self).wf(),
            old(self).next_id < 0xffff_ffff_ffff_ffffu64,
        ensures
            final(self).wf(),
            r == old(self).next_id,
            final(self).next_id == old(self).next_id + 1,
            final(self).routines@ == old(self).routines@,
            final(self).strategies@.len() == old(self).strategies@.len() + 1,
            final(self).strategies@.drop_last() == old(self).strategies@,
            final(self).strategies@.last().id == r,
            final(self).strategies@.last().strategy.spec_boid_entt() == craft_entt,
            final(self).strategies@.last().strategy.spec_kind()
                == crate::strategy::BoidStrategyKind::RunCircuit,
            !final(self).strategies@.last().active,
            final(self).strategies@.last().param == param,
            final(self).strategies@.last().state == (RunCircuitState {
                composer_routine: Option::None,
                arrive_routine: Option::None,
                avoid_collision_routine: Option::None,
            }),
            final(self).strategies@.last().output == (BoidStrategyOutput {
                steering_routine: Option::None,
                fire_weapons: false,
            }),
    {
        let id: u64 = self.next_id;
        self.next_id = self.next_id + 1;
        self.strategies.push(
            StrategyEntry {
                id,
                strategy: BoidStrategy::new(
                    craft_entt,
                    crate::strategy::BoidStrategyKind::RunCircuit,
                ),
                active: false,
                param,
                state: RunCircuitState {
                    composer_routine: None,
                    arrive_routine: None,
                    avoid_collision_routine: None,
                },
                output: BoidStrategyOutput { steering_routine: None, fire_weapons: false },
            },
        );
        id
    }

    /// The index of the routine with the given id.
    pub fn find_routine(&self, id: u64) -> (r: Option<usize>)
        ensures
            match r {
                Option::Some(i) => i < self.routines@.len() && self.routines@[i as int].id == id
                    && spec_find_routine(self.routines@, id) == Option::Some(
                    self.routines@[i as int],
                ),
                Option::None => spec_find_routine(self.routines@, id) == Option::<
                    RoutineEntry,
                >::None,
            },
    {
        let n: usize = self.routines.len();
        let mut i: usize = 0;
        proof {
            assert(self.routines@.skip(0) =~= self.routines@);
        }
        while i < n
            invariant
                i <= n,
                n == self.routines@.len(),
                spec_find_routine(self.routines@, id) == spec_find_routine(
                    self.routines@.skip(i as int),
                    id,
                ),
            decreases n - i,
        {
            proof {
                assert(self.routines@.skip(i as int)[0] == self.routines@[i as int]);
                assert(self.routines@.skip(i as int).drop_first() =~= self.routines@.skip(
                    i as int + 1,
                ));
            }
            if self.routines[i].id == id {
                return Some(i);
            }
            i = i + 1;
        }
        proof {
            assert(self.routines@.skip(n as int).len() == 0);
        }
        None
    }

    /// The index of the strategy with the given id.
    pub fn find_strategy(&self, id: u64) -> (r: Option<usize>)
        ensures
            match r {
                Option::Some(i) => i < self.strategies@.len() && self.strategies@[i as int].id
                    == id,
                Option::None => forall|j: int|
                    0 <= j < self.strategies@.len() ==> (#[trigger] self.strategies@[j]).id != id,
            },
    {
        let n: usize = self.strategies.len();
        let mut i: usize = 0;
        while i < n
            invariant
                i <= n,
                n == self.strategies@.len(),
                forall|j: int| 0 <= j < i ==> (#[trigger] self.strategies@[j]).id != id,
            decreases n - i,
        {
            if self.strategies[i].id == id {
                return Some(i);
            }
            i = i + 1;
        }
        None
    }

    /// The per-craft kind index lookup of the routine registry.
    pub fn first_routine_of_kind(&self, craft_entt: u64, kind: RoutineKind) -> (r: Option<u64>)
        ensures
            r == spec_first_routine_of_kind(self.routines@, craft_entt, kind),
    {
        let n: usize = self.routines.len();
        let mut i: usize = 0;
        proof {
            assert(self.routines@.skip(0) =~= self.routines@);
        }
        while i < n
            invariant
                i <= n,
                n == self.routines@.len(),
                spec_first_routine_of_kind(self.routines@, craft_entt, kind)
                    == spec_first_routine_of_kind(self.routines@.skip(i as int), craft_entt, kind),
            decreases n - i,
        {
            proof {
                assert(self.routines@.skip(i as int)[0] == self.routines@[i as int]);
                assert(self.routines@.skip(i as int).drop_first() =~= self.routines@.skip(
                    i as int + 1,
                ));
            }
            let tag = &self.routines[i].tag;
            if tag.craft_entt() == craft_entt && tag.kind() == kind {
                return Some(self.routines[i].id);
            }
            i = i + 1;
        }
        proof {
            assert(self.routines@.skip(n as int).len() == 0);
        }
        None
    }
}

/// A routine id that some entry carries is found.
pub proof fn lemma_find_routine_exists(s: Seq<RoutineEntry>, id: u64, i: int)
    requires
        0 <= i < s.len(),
        s[i].id == id,
    ensures
        spec_find_routine(s, id) is Some,
        spec_find_routine(s, id)->Some_0.id == id,
    decreases s.len(),
{
    if s[0].id != id {
        assert(s.drop_first()[i - 1] == s[i]);
        lemma_find_routine_exists(s.drop_first(), id, i - 1);
    }
}

/// A found routine is one of the entries, under its own id.
pub proof fn lemma_find_routine_is_member(s: Seq<RoutineEntry>, id: u64)
    requires
        spec_find_routine(s, id) is Some,
    ensures
        exists|i: int| 0 <= i < s.len() && #[trigger] s[i] == spec_find_routine(s, id)->Some_0,
        spec_find_routine(s, id)->Some_0.id == id,
    decreases s.len(),
{
    if s.len() != 0 && s[0].id != id {
        lemma_find_routine_is_member(s.drop_first(), id);
        let j = choose|j: int|
            0 <= j < s.drop_first().len() && #[trigger] s.drop_first()[j] == spec_find_routine(
                s.drop_first(),
                id,
            )->Some_0;
        assert(s[j + 1] == s.drop_first()[j]);
    }
}

/// One child output of a composer resolved from the registry.
pub open spec fn spec_entry_output_of(
    s: Seq<RoutineEntry>,
    id: u64,
    out: (LinearRoutineOutput, AngularRoutineOutput),
) -> bool {
    match spec_find_routine(s, id) {
        Option::Some(e) => out == (e.lin_out, e.ang_out),
        Option::None => false,
    }
}

impl Mind {
    /// Evaluate a composer's child list under the priority-override
    /// policy: resolve every listed routine's output, in order, and merge
    /// them. A listed child that does not resolve is a lifecycle bug.
    pub fn compose_output(&self, list: &RoutineList) -> (r: Result<
        (LinearRoutineOutput, AngularRoutineOutput),
        MindError,
    >)
        ensures
            match r {
                Result::Ok(pair) => exists|outs: Seq<(LinearRoutineOutput, AngularRoutineOutput)>|
                    outs.len() == spec_routine_list(list).len() && (forall|k: int|
                        0 <= k < outs.len() ==> spec_entry_output_of(
                            self.routines@,
                            spec_routine_list(list)[k],
                            #[trigger] outs[k],
                        )) && pair == spec_priority_override(outs),
                Result::Err(e) => e == MindError::RoutineNotFound && (exists|k: int|
                    0 <= k < spec_routine_list(list).len() && spec_find_routine(
                        self.routines@,
                        #[trigger] spec_routine_list(list)[k],
                    ) == Option::<RoutineEntry>::None),
            },
    {
        let n: usize = routine_list_len(list);
        let mut outs: Vec<(LinearRoutineOutput, AngularRoutineOutput)> = Vec::new();
        let mut i: usize = 0;
        while i < n
            invariant
                i <= n,
                n == spec_routine_list(list).len(),
                outs@.len() == i,
                forall|k: int|
                    0 <= k < i ==> spec_entry_output_of(
                        self.routines@,
                        spec_routine_list(list)[k],
                        #[trigger] outs@[k],
                    ),
            decreases n - i,
        {
            let id: u64 = routine_list_get(list, i);
            match self.find_routine(id) {
                Option::Some(idx) => {
                    let e = &self.routines[idx];
                    outs.push((e.lin_out, e.ang_out));
                },
                Option::None => {
                    return Err(MindError::RoutineNotFound);
                },
            }
            i = i + 1;
        }
        Ok(priority_override(&outs))
    }
}

} // verus!
