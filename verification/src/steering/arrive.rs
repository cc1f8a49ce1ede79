//! Arrive: fly toward a target position and come to a controlled stop
//! there.

use vstd::prelude::*;

use crate::math::{spec_v3_nonneg, TVec3, V3};
use crate::steering::behaviours::{arrive_at_position, spec_arrive_at_position};
use crate::steering::{LinOnlyRoutineBundle, LinearRoutineOutput};

verus! {

/// What an arrive routine closes on.
#[derive(Clone, Copy, Debug)]
pub enum Target {
    /// A position in world space, with the velocity of that position and
    /// the speed to pass it at.
    Vector { at_pos: TVec3, pos_linvel: TVec3, with_speed: i64 },
}

/// Parameters of an arrive routine.
#[derive(Clone, Copy, Debug)]
pub struct Arrive {
    pub target: Target,
    /// Within this distance of the target the routine reports arrival
    /// and outputs zero.
    pub arrival_tolerance: i64,
    /// Distance inside which the desired speed tapers off; `None` slows
    /// only by the approach law itself.
    pub deceleration_radius: Option<i64>,
    /// The craft's linear velocity cap, copied from its engine config.
    pub linvel_limit: TVec3,
    /// The acceleration the craft has available, already clamped to its
    /// artificial limit.
    pub avail_accel: TVec3,
}

pub type Bundle = LinOnlyRoutineBundle<Arrive>;

impl Arrive {
    /// The routine's structural invariant: non-negative tolerance and
    /// non-negative caps, as the engine config guarantees for its own.
    pub open spec fn valid(&self) -> bool {
        &&& 0 <= self.arrival_tolerance
        &&& spec_v3_nonneg(self.linvel_limit@)
        &&& spec_v3_nonneg(self.avail_accel@)
    }

    pub open spec fn spec_target_pos(&self) -> V3 {
        match self.target {
            Target::Vector { at_pos, .. } => at_pos@,
        }
    }

    pub open spec fn spec_with_speed(&self) -> int {
        match self.target {
            Target::Vector { with_speed, .. } => with_speed as int,
        }
    }

    /// The routine's output for a craft standing at `current_pos`.
    pub open spec fn spec_output(&self, current_pos: V3) -> V3 {
        spec_arrive_at_position(
            current_pos,
            self.spec_target_pos(),
            self.spec_with_speed(),
            self.arrival_tolerance as int,
            match self.deceleration_radius {
                Option::Some(radius) => Option::Some(radius as int),
                Option::None => Option::<int>::None,
            },
            self.linvel_limit@,
            self.avail_accel@,
        )
    }
}

/// Compute one arrive routine's output from the craft's position.
pub fn update(param: &Arrive, current_pos: &TVec3, output: &mut LinearRoutineOutput)
    requires
        param.valid(),
    ensures
        final(output).0@ == param.spec_output(current_pos@),
{
    match &param.target {
        Target::Vector { at_pos, pos_linvel: _, with_speed } => {
            output.0 = arrive_at_position(
                current_pos,
                at_pos,
                *with_speed,
                param.arrival_tolerance,
                param.deceleration_radius,
                &param.linvel_limit,
                &param.avail_accel,
            );
        },
    }
}

} // verus!
