//! Avoid-collision: steer away from an impending impact.
//!
//! The shape-cast along the craft's heading is the physics collaborator's
//! work; this routine turns its result into an output vector: zero when
//! nothing is in the way (a trivial output, which priority-override
//! composition passes over), and the normalized escape direction when a
//! collision is imminent.

use vstd::prelude::*;

use crate::math::{spec_v3_zero, TVec3, V3};
use crate::steering::behaviours::{seek_position, spec_seek_position};
use crate::steering::{LinOnlyRoutineBundle, LinearRoutineOutput};

verus! {

/// Parameters of an avoid-collision routine, sized from craft geometry.
#[derive(Clone, Copy, Debug)]
pub struct AvoidCollision {
    /// Radius of the shape cast along the heading.
    pub cast_shape_radius: i64,
    /// Scale on the time-of-impact window of the cast.
    pub raycast_toi_modifier: i64,
}

pub type Bundle = LinOnlyRoutineBundle<AvoidCollision>;

impl AvoidCollision {
    pub fn new(cast_shape_radius: i64, raycast_toi_modifier: i64) -> (r: AvoidCollision)
        ensures
            r.cast_shape_radius == cast_shape_radius,
            r.raycast_toi_modifier == raycast_toi_modifier,
    {
        AvoidCollision { cast_shape_radius, raycast_toi_modifier }
    }
}

/// The routine's output given the escape direction of an impending
/// collision, if the cast found one.
pub open spec fn spec_avoid_output(impending: Option<V3>) -> V3 {
    match impending {
        Option::Some(away) => spec_seek_position(spec_v3_zero(), away),
        Option::None => spec_v3_zero(),
    }
}

/// Compute one avoid-collision routine's output from the cast result:
/// the escape direction relative to the craft, or nothing in the way.
pub fn update(param: &AvoidCollision, impending: Option<TVec3>, output: &mut LinearRoutineOutput)
    ensures
        final(output).0@ == spec_avoid_output(
            match impending {
                Option::Some(away) => Option::Some(away@),
                Option::None => Option::<V3>::None,
            },
        ),
{
    let _ = param;
    match impending {
        Option::Some(away) => {
            let origin = TVec3::zero();
            output.0 = seek_position(&origin, &away);
        },
        Option::None => {
            output.0 = TVec3::zero();
        },
    }
}

} // verus!
