//! The steering routine framework: a routine is an independently-computed
//! behaviour instance tagged with its owning craft and its behaviour
//! kind, producing a linear and/or angular output vector.

use vstd::prelude::*;

use crate::math::{spec_v3_cross, spec_v3_zero, TVec3, V3};

pub mod arrive;
pub mod avoid_collision;
pub mod behaviours;
pub mod compose;
pub mod fly_with_flock;
pub mod intercept;
pub mod seek;

verus! {

/// The closed set of behaviour kinds a routine can have.
#[derive(Clone, Copy, Debug, PartialEq, Eq, Structural)]
pub enum RoutineKind {
    Seek,
    Arrive,
    AvoidCollision,
    Intercept,
    FlyWithFlock,
    Compose,
}

/// Tags an entity as an active steering routine; inactive routines are
/// skipped by all update stages but retain their state.
#[derive(Clone, Copy, Debug)]
pub struct ActiveSteeringRoutine;

/// Tags an entity as a steering routine of some kind on some craft.
#[derive(Clone, Copy, Debug, PartialEq, Eq, Structural)]
pub struct SteeringRoutine {
    craft_entt: u64,
    kind: RoutineKind,
}

impl SteeringRoutine {
    pub fn new(craft_entt: u64, kind: RoutineKind) -> (r: SteeringRoutine)
        ensures
            r.spec_craft_entt() == craft_entt,
            r.spec_kind() == kind,
    {
        SteeringRoutine { kind, craft_entt }
    }

    pub closed spec fn spec_craft_entt(&self) -> u64 {
        self.craft_entt
    }

    pub closed spec fn spec_kind(&self) -> RoutineKind {
        self.kind
    }

    /// The owning craft of this routine.
    pub fn craft_entt(&self) -> (r: u64)
        ensures
            r == self.spec_craft_entt(),
    {
        self.craft_entt
    }

    /// The behaviour kind of this routine.
    pub fn kind(&self) -> (r: RoutineKind)
        ensures
            r == self.spec_kind(),
    {
        self.kind
    }
}

/// A routine's desired linear velocity, in local space.
#[derive(Clone, Copy, Debug, PartialEq, Eq, Structural)]
pub struct LinearRoutineOutput(pub TVec3);

/// A routine's desired angular velocity, in local space.
#[derive(Clone, Copy, Debug, PartialEq, Eq, Structural)]
pub struct AngularRoutineOutput(pub TVec3);

impl Default for LinearRoutineOutput {
    fn default() -> (r: LinearRoutineOutput)
        ensures
            r.0@ == spec_v3_zero(),
    {
        LinearRoutineOutput(TVec3::zero())
    }
}

impl Default for AngularRoutineOutput {
    fn default() -> (r: AngularRoutineOutput)
        ensures
            r.0@ == spec_v3_zero(),
    {
        AngularRoutineOutput(TVec3::zero())
    }
}

/// A generic bundle for steering routines that only have linear outputs.
pub struct LinOnlyRoutineBundle<P> {
    pub param: P,
    pub output: LinearRoutineOutput,
    pub tag: SteeringRoutine,
}

impl<P> LinOnlyRoutineBundle<P> {
    pub fn new(param: P, craft_entt: u64, kind: RoutineKind) -> (r: LinOnlyRoutineBundle<P>)
        ensures
            r.param == param,
            r.output.0@ == spec_v3_zero(),
            r.tag.spec_craft_entt() == craft_entt,
            r.tag.spec_kind() == kind,
    {
        LinOnlyRoutineBundle {
            param,
            output: LinearRoutineOutput(TVec3::zero()),
            tag: SteeringRoutine::new(craft_entt, kind),
        }
    }
}

/// A generic bundle for steering routines with linear and angular outputs.
pub struct LinAngRoutineBundle<P> {
    pub param: P,
    pub lin_res: LinearRoutineOutput,
    pub ang_res: AngularRoutineOutput,
    pub tag: SteeringRoutine,
}

impl<P> LinAngRoutineBundle<P> {
    pub fn new(param: P, craft_entt: u64, kind: RoutineKind) -> (r: LinAngRoutineBundle<P>)
        ensures
            r.param == param,
            r.lin_res.0@ == spec_v3_zero(),
            r.ang_res.0@ == spec_v3_zero(),
            r.tag.spec_craft_entt() == craft_entt,
            r.tag.spec_kind() == kind,
    {
        LinAngRoutineBundle {
            param,
            lin_res: LinearRoutineOutput(TVec3::zero()),
            ang_res: AngularRoutineOutput(TVec3::zero()),
            tag: SteeringRoutine::new(craft_entt, kind),
        }
    }
}

/// The angular input that turns the craft's forward axis toward the given
/// local direction: the cross product of forward with the direction.
/// Scaling by the angle proves troublesome: it takes too long to settle,
/// the final inputs being progressively too minute as the craft closes on
/// the target direction.
pub fn look_to(local_dir: TVec3) -> (r: TVec3)
    ensures
        r@ == spec_look_to(local_dir@),
{
    let fwd = TVec3::new(0, 0, -crate::fx::FX_ONE);
    fwd.vcross(&local_dir)
}

/// Forward is negative z in this craft's right-handed frame.
pub open spec fn spec_look_to(dir: V3) -> V3 {
    spec_v3_cross(V3 { x: 0, y: 0, z: -crate::fx::FX_ONE as int }, dir)
}

} // verus!
