//! Intercept: fly toward where the quarry is going to be.

use vstd::prelude::*;

use crate::math::{spec_v3_add, spec_v3_scale, TVec3, V3};
use crate::steering::behaviours::{seek_position, spec_seek_position};
use crate::steering::{LinOnlyRoutineBundle, LinearRoutineOutput};

verus! {

/// Parameters of an intercept routine.
#[derive(Clone, Copy, Debug)]
pub struct Intercept {
    /// The object to intercept; must have a position and a velocity.
    pub quarry: u64,
    /// How far ahead to predict the quarry's motion, in seconds.
    pub lead_time: i64,
}

pub type Bundle = LinOnlyRoutineBundle<Intercept>;

/// Where the quarry will be after the lead time at its current velocity.
pub open spec fn spec_predicted_position(quarry_pos: V3, quarry_linvel: V3, lead_time: int) -> V3 {
    spec_v3_add(quarry_pos, spec_v3_scale(quarry_linvel, lead_time))
}

/// Compute one intercept routine's output from the quarry's state: seek
/// the predicted position instead of the current one.
pub fn update(
    param: &Intercept,
    craft_pos: &TVec3,
    quarry_pos: &TVec3,
    quarry_linvel: &TVec3,
    output: &mut LinearRoutineOutput,
)
    ensures
        final(output).0@ == spec_seek_position(
            craft_pos@,
            spec_predicted_position(quarry_pos@, quarry_linvel@, param.lead_time as int),
        ),
{
    let predicted = quarry_pos.vadd(&quarry_linvel.vscale(param.lead_time));
    output.0 = seek_position(craft_pos, &predicted);
}

} // verus!
