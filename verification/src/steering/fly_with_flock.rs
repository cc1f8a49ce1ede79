//! Flock alignment: match the average velocity of the neighbours.

use vstd::prelude::*;

use crate::math::{spec_v3_add, spec_v3_zero, TVec3, V3};
use crate::fx::{div_fx, spec_div_fx, FX_ONE};
use crate::steering::{LinOnlyRoutineBundle, LinearRoutineOutput};

verus! {

/// Parameters of a flock-alignment routine.
#[derive(Clone, Copy, Debug)]
pub struct FlyWithFlock {
    /// The flock whose members this craft aligns with.
    pub flock_entt: u64,
}

pub type Bundle = LinOnlyRoutineBundle<FlyWithFlock>;

/// The saturating sum of a sequence of vectors, accumulated in order.
pub open spec fn spec_v3_sum(s: Seq<TVec3>) -> V3
    decreases s.len(),
{
    if s.len() == 0 {
        spec_v3_zero()
    } else {
        spec_v3_add(spec_v3_sum(s.drop_last()), s.last()@)
    }
}

/// The mean of the neighbour velocities; zero for an empty neighbourhood.
pub open spec fn spec_flock_alignment(s: Seq<TVec3>) -> V3 {
    if s.len() == 0 {
        spec_v3_zero()
    } else {
        let sum = spec_v3_sum(s);
        let count = s.len() * FX_ONE;
        V3 {
            x: spec_div_fx(sum.x, count as int),
            y: spec_div_fx(sum.y, count as int),
            z: spec_div_fx(sum.z, count as int),
        }
    }
}

/// Compute one alignment routine's output from the neighbour set's
/// velocities: their mean, the velocity the flock is moving at.
pub fn update(
    param: &FlyWithFlock,
    neighbour_linvels: &Vec<TVec3>,
    output: &mut LinearRoutineOutput,
)
    requires
        neighbour_linvels@.len() * FX_ONE <= i64::MAX,
    ensures
        final(output).0@ == spec_flock_alignment(neighbour_linvels@),
{
    let _ = param;
    let n: usize = neighbour_linvels.len();
    if n == 0 {
        output.0 = TVec3::zero();
        return ;
    }
    let mut sum = TVec3::zero();
    let mut i: usize = 0;
    while i < n
        invariant
            i <= n,
            n == neighbour_linvels@.len(),
            sum@ == spec_v3_sum(neighbour_linvels@.take(i as int)),
        decreases n - i,
    {
        sum = sum.vadd(&neighbour_linvels[i]);
        proof {
            let taken = neighbour_linvels@.take(i as int + 1);
            assert(taken.drop_last() =~= neighbour_linvels@.take(i as int));
            assert(taken.last() == neighbour_linvels@[i as int]);
        }
        i = i + 1;
    }
    proof {
        assert(neighbour_linvels@.take(n as int) =~= neighbour_linvels@);
    }
    let count: i64 = (n as i64) * FX_ONE;
    output.0 = sum.vdiv_scalar(count);
}

} // verus!
