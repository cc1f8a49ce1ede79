//! Seek: fly straight toward a target.

use vstd::prelude::*;

use crate::math::{TVec3, V3};
use crate::registry::{spec_find_xform, MindError, XformIndex};
use crate::steering::behaviours::{seek_position, spec_seek_position};
use crate::steering::{LinOnlyRoutineBundle, LinearRoutineOutput, SteeringRoutine};

verus! {

/// What a seek routine flies toward.
#[derive(Clone, Copy, Debug)]
pub enum Target {
    /// Another object's live position; must resolve in the world.
    Object { entt: u64 },
    /// A fixed position in world space.
    Position { pos: TVec3 },
}

/// Parameters of a seek routine.
#[derive(Clone, Copy, Debug)]
pub struct Seek {
    pub target: Target,
}

pub type Bundle = LinOnlyRoutineBundle<Seek>;

/// The position a seek routine steers toward, if it resolves.
pub open spec fn spec_seek_target_pos(param: Seek, xforms: Seq<(u64, TVec3)>) -> Option<TVec3> {
    match param.target {
        Target::Object { entt } => spec_find_xform(xforms, entt),
        Target::Position { pos } => Option::Some(pos),
    }
}

/// Compute one seek routine's output from the world's positions: the
/// normalized direction from the owning craft toward the target. A craft
/// or target object without a position is a lifecycle bug.
pub fn update(
    param: &Seek,
    routine: &SteeringRoutine,
    xforms: &XformIndex,
    output: &mut LinearRoutineOutput,
) -> (r: Result<(), MindError>)
    ensures
        match r {
            Result::Ok(()) => match (
                spec_find_xform(xforms.entries@, routine.spec_craft_entt()),
                spec_seek_target_pos(*param, xforms.entries@),
            ) {
                (Option::Some(craft_pos), Option::Some(target_pos)) => final(output).0@
                    == spec_seek_position(craft_pos@, target_pos@),
                _ => false,
            },
            Result::Err(e) => {
                &&& e == MindError::CraftNotFound
                &&& *final(output) == *old(output)
                &&& (spec_find_xform(xforms.entries@, routine.spec_craft_entt()) is None
                    || spec_seek_target_pos(*param, xforms.entries@) is None)
            },
        },
{
    let craft_pos: TVec3 = match xforms.find(routine.craft_entt()) {
        Option::Some(p) => p,
        Option::None => {
            return Err(MindError::CraftNotFound);
        },
    };
    let target_pos: TVec3 = match &param.target {
        Target::Object { entt } => match xforms.find(*entt) {
            Option::Some(p) => p,
            Option::None => {
                return Err(MindError::CraftNotFound);
            },
        },
        Target::Position { pos } => *pos,
    };
    output.0 = seek_position(&craft_pos, &target_pos);
    Ok(())
}

} // verus!
