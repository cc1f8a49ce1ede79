//! Assembling a craft: everything the control core keeps per craft.

use vstd::prelude::*;

use crate::engine::{
    AngularDriverPid, AngularEngineState, EngineConfig, LinearDriverPid, LinearEngineState,
};
use crate::math::{spec_v3, TVec3};
use crate::pid::PIDControllerVec3;

verus! {

/// Tags the camera that follows a craft.
#[derive(Clone, Copy, Debug)]
pub struct CraftCamera;

/// The craft an external controller is currently steering.
#[derive(Clone, Copy, Debug, PartialEq, Eq, Structural)]
pub struct CurrentCraft(pub u64);

/// The control-core components of one craft: its configuration, its
/// engine states, and one controller per axis group.
pub struct CraftBundle {
    pub config: EngineConfig,
    pub linear_state: LinearEngineState,
    pub angular_state: AngularEngineState,
    pub linear_pid: LinearDriverPid,
    pub angular_pid: AngularDriverPid,
}

impl Default for CraftBundle {
    /// A craft with the default engine configuration and stiff
    /// proportional-only controllers on both axis groups.
    fn default() -> (r: CraftBundle)
        ensures
            r.config.valid(),
            r.linear_pid.0@.proportional_gain == spec_v3(1_000_000, 1_000_000, 1_000_000),
            r.angular_pid.0@.proportional_gain == spec_v3(1_000_000, 1_000_000, 1_000_000),
            r.linear_pid.0@.integrat_gain == spec_v3(0, 0, 0),
            r.angular_pid.0@.integrat_gain == spec_v3(0, 0, 0),
            r.linear_pid.0@.differntial_gain == spec_v3(0, 0, 0),
            r.angular_pid.0@.differntial_gain == spec_v3(0, 0, 0),
    {
        CraftBundle {
            config: Default::default(),
            linear_state: Default::default(),
            angular_state: Default::default(),
            linear_pid: LinearDriverPid(
                PIDControllerVec3::new(
                    TVec3::splat(1_000_000),
                    TVec3::zero(),
                    TVec3::zero(),
                    TVec3::zero(),
                    TVec3::zero(),
                ),
            ),
            angular_pid: AngularDriverPid(
                PIDControllerVec3::new(
                    TVec3::splat(1_000_000),
                    TVec3::zero(),
                    TVec3::zero(),
                    TVec3::zero(),
                    TVec3::zero(),
                ),
            ),
        }
    }
}

} // verus!
