//! The strategy layer: a strategy owns and rewires sets of steering
//! routines over time in response to world events.

use vstd::prelude::*;

pub mod run_circuit;

verus! {

/// The closed set of strategy kinds.
#[derive(Clone, Copy, Debug, PartialEq, Eq, Structural)]
pub enum BoidStrategyKind {
    RunCircuit,
}

/// Marks a strategy that has completed its butler pass and is live.
#[derive(Clone, Copy, Debug)]
pub struct ActiveBoidStrategy;

/// Tags an entity as a strategy of some kind on some craft.
#[derive(Clone, Copy, Debug, PartialEq, Eq, Structural)]
pub struct BoidStrategy {
    boid_entt: u64,
    kind: BoidStrategyKind,
}

impl BoidStrategy {
    pub fn new(boid_entt: u64, kind: BoidStrategyKind) -> (r: BoidStrategy)
        ensures
            r.spec_boid_entt() == boid_entt,
            r.spec_kind() == kind,
    {
        BoidStrategy { boid_entt, kind }
    }

    pub closed spec fn spec_boid_entt(&self) -> u64 {
        self.boid_entt
    }

    pub closed spec fn spec_kind(&self) -> BoidStrategyKind {
        self.kind
    }

    /// The craft this strategy drives.
    pub fn boid_entt(&self) -> (r: u64)
        ensures
            r == self.spec_boid_entt(),
    {
        self.boid_entt
    }

    /// The strategy's kind.
    pub fn kind(&self) -> (r: BoidStrategyKind)
        ensures
            r == self.spec_kind(),
    {
        self.kind
    }
}

/// What a strategy hands downstream: the routine driving the craft, and
/// whether to fire the weapons (consumed elsewhere).
#[derive(Clone, Copy, Debug, PartialEq, Eq, Structural)]
pub struct BoidStrategyOutput {
    pub steering_routine: Option<u64>,
    pub fire_weapons: bool,
}

impl Default for BoidStrategyOutput {
    fn default() -> (r: BoidStrategyOutput)
        ensures
            r.steering_routine == Option::<u64>::None,
            !r.fire_weapons,
    {
        BoidStrategyOutput { steering_routine: None, fire_weapons: false }
    }
}

} // verus!
