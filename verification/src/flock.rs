//! The flock strategy layer: strategies owned by a flock of crafts
//! rather than a single one.

use vstd::prelude::*;

verus! {

/// The closed set of flock strategy kinds.
#[derive(Clone, Copy, Debug, PartialEq, Eq, Structural)]
pub enum FlockStrategyKind {
    Cas,
}

/// Marks a flock as driven by the given strategy.
#[derive(Clone, Copy, Debug, PartialEq, Eq, Structural)]
pub struct ActiveFlockStrategy {
    pub strategy: u64,
}

/// Tags an entity as a flock strategy of some kind on some flock.
#[derive(Clone, Copy, Debug, PartialEq, Eq, Structural)]
pub struct FlockStrategy {
    pub flock_entt: u64,
    pub kind: FlockStrategyKind,
}

impl FlockStrategy {
    pub fn new(flock_entt: u64, kind: FlockStrategyKind) -> (r: FlockStrategy)
        ensures
            r.flock_entt == flock_entt,
            r.kind == kind,
    {
        FlockStrategy { flock_entt, kind }
    }

    /// The flock this strategy drives.
    pub fn flock_entt(&self) -> (r: u64)
        ensures
            r == self.flock_entt,
    {
        self.flock_entt
    }

    /// The strategy's kind.
    pub fn kind(&self) -> (r: FlockStrategyKind)
        ensures
            r == self.kind,
    {
        self.kind
    }
}

/// A generic bundle for flock strategies.
pub struct FlockStrategyBundle<P> {
    pub param: P,
    pub tag: FlockStrategy,
}

impl<P> FlockStrategyBundle<P> {
    pub fn new(param: P, flock_entt: u64, kind: FlockStrategyKind) -> (r: FlockStrategyBundle<P>)
        ensures
            r.param == param,
            r.tag.flock_entt == flock_entt,
            r.tag.kind == kind,
    {
        FlockStrategyBundle { param, tag: FlockStrategy::new(flock_entt, kind) }
    }
}

/// A variant of [`FlockStrategyBundle`] with two parameter components.
pub struct FlockStrategyBundleExtra<P, P2> {
    pub param: P,
    pub extra: P2,
    pub tag: FlockStrategy,
}

impl<P, P2> FlockStrategyBundleExtra<P, P2> {
    pub fn new(param: P, flock_entt: u64, extra: P2, kind: FlockStrategyKind) -> (r:
        FlockStrategyBundleExtra<P, P2>)
        ensures
            r.param == param,
            r.extra == extra,
            r.tag.flock_entt == flock_entt,
            r.tag.kind == kind,
    {
        FlockStrategyBundleExtra { param, extra, tag: FlockStrategy::new(flock_entt, kind) }
    }
}

/// A variant of [`FlockStrategyBundleExtra`] whose second component is
/// itself a bundle of components.
pub struct FlockStrategyBundleJumbo<P, B> {
    pub param: P,
    pub extra: B,
    pub tag: FlockStrategy,
}

impl<P, B> FlockStrategyBundleJumbo<P, B> {
    pub fn new(param: P, flock_entt: u64, extra: B, kind: FlockStrategyKind) -> (r:
        FlockStrategyBundleJumbo<P, B>)
        ensures
            r.param == param,
            r.extra == extra,
            r.tag.flock_entt == flock_entt,
            r.tag.kind == kind,
    {
        FlockStrategyBundleJumbo { param, extra, tag: FlockStrategy::new(flock_entt, kind) }
    }
}

} // verus!
