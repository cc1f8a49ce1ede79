//! The composer: a routine that merges other routines' outputs under a
//! fixed policy. The one policy required is priority-override: evaluate
//! the children in order and adopt the first non-trivial output.
//!
//! The child list is kept in a `smallvec::SmallVec`, inline up to two
//! routines, as the patrol strategy wires exactly two.

use vstd::prelude::*;

use crate::math::{spec_v3_zero, TVec3};
use crate::steering::{AngularRoutineOutput, LinearRoutineOutput};

verus! {

/// An ordered list of routine references, inline up to two entries.
/// Verus cannot declare `smallvec::SmallVec` itself (its type parameter
/// is bound by smallvec's own trait), so the vector sits in a hidden
/// field and is reached only through the trusted accessors below.
#[verifier::external_body]
pub struct RoutineList {
    list: smallvec::SmallVec<[u64; 2]>,
}

/// The routine references a list holds, in evaluation order.
pub uninterp spec fn spec_routine_list(v: &RoutineList) -> Seq<u64>;

/// Relies on smallvec::SmallVec::new: the fresh vector is empty.
#[verifier::external_body]
pub fn routine_list_new() -> (r: RoutineList)
    ensures
        spec_routine_list(&r) == Seq::<u64>::empty(),
{
    RoutineList { list: smallvec::SmallVec::new() }
}

/// Relies on smallvec::SmallVec::push: the value is appended at the end.
#[verifier::external_body]
pub fn routine_list_push(v: &mut RoutineList, entt: u64)
    ensures
        spec_routine_list(final(v)) == spec_routine_list(old(v)).push(entt),
{
    v.list.push(entt)
}

/// Relies on smallvec::SmallVec::len: the number of elements stored.
#[verifier::external_body]
pub fn routine_list_len(v: &RoutineList) -> (r: usize)
    ensures
        r == spec_routine_list(v).len(),
{
    v.list.len()
}

/// Relies on smallvec's Index impl: the element at that position.
#[verifier::external_body]
pub fn routine_list_get(v: &RoutineList, i: usize) -> (r: u64)
    requires
        i < spec_routine_list(v).len(),
    ensures
        r == spec_routine_list(v)[i as int],
{
    v.list[i]
}

/// The closed set of composition policies.
pub enum SteeringRoutineComposer {
    /// Evaluate the listed routines in order and adopt the output of the
    /// first whose output is non-trivial; zero when none is.
    PriorityOverride { routines: RoutineList },
}

/// Parameters of a composer routine.
pub struct Compose {
    pub composer: SteeringRoutineComposer,
}

/// A linear/angular output pair is trivial when both vectors are zero.
pub open spec fn spec_is_trivial(lin: LinearRoutineOutput, ang: AngularRoutineOutput) -> bool {
    lin.0@ == spec_v3_zero() && ang.0@ == spec_v3_zero()
}

/// The priority-override law over a sequence of child outputs: the first
/// non-trivial pair, or the zero pair.
pub open spec fn spec_priority_override(
    s: Seq<(LinearRoutineOutput, AngularRoutineOutput)>,
) -> (LinearRoutineOutput, AngularRoutineOutput)
    decreases s.len(),
{
    if s.len() == 0 {
        (
            LinearRoutineOutput(TVec3 { x: 0, y: 0, z: 0 }),
            AngularRoutineOutput(TVec3 { x: 0, y: 0, z: 0 }),
        )
    } else if !spec_is_trivial(s[0].0, s[0].1) {
        s[0]
    } else {
        spec_priority_override(s.drop_first())
    }
}

/// Merge the child outputs, in order, under the priority-override policy.
pub fn priority_override(
    outputs: &Vec<(LinearRoutineOutput, AngularRoutineOutput)>,
) -> (r: (LinearRoutineOutput, AngularRoutineOutput))
    ensures
        r == spec_priority_override(outputs@),
{
    let n: usize = outputs.len();
    let mut i: usize = 0;
    proof {
        assert(outputs@.skip(0) =~= outputs@);
    }
    while i < n
        invariant
            i <= n,
            n == outputs@.len(),
            spec_priority_override(outputs@) == spec_priority_override(outputs@.skip(i as int)),
        decreases n - i,
    {
        let (lin, ang) = outputs[i];
        let trivial = lin.0.x == 0 && lin.0.y == 0 && lin.0.z == 0 && ang.0.x == 0 && ang.0.y == 0
            && ang.0.z == 0;
        proof {
            assert(outputs@.skip(i as int)[0] == outputs@[i as int]);
            assert(outputs@.skip(i as int).drop_first() =~= outputs@.skip(i as int + 1));
        }
        if !trivial {
            assert(!spec_is_trivial(outputs@[i as int].0, outputs@[i as int].1));
            return outputs[i];
        }
        assert(spec_is_trivial(outputs@[i as int].0, outputs@[i as int].1));
        i = i + 1;
    }
    proof {
        assert(outputs@.skip(n as int).len() == 0);
    }
    (
        LinearRoutineOutput(TVec3::zero()),
        AngularRoutineOutput(TVec3::zero()),
    )
}

/// With a trivial first routine and a non-trivial second, the composed
/// output is the second routine's.
pub proof fn lemma_priority_override_skips_trivial(
    a: (LinearRoutineOutput, AngularRoutineOutput),
    b: (LinearRoutineOutput, AngularRoutineOutput),
)
    requires
        spec_is_trivial(a.0, a.1),
        !spec_is_trivial(b.0, b.1),
    ensures
        spec_priority_override(seq![a, b]) == b,
{
    assert(seq![a, b].drop_first() =~= seq![b]);
    assert(spec_priority_override(seq![b]) == b);
}

/// With two non-trivial routines, the composed output is the first's:
/// the order of the children is a priority.
pub proof fn lemma_priority_override_prefers_first(
    a: (LinearRoutineOutput, AngularRoutineOutput),
    b: (LinearRoutineOutput, AngularRoutineOutput),
)
    requires
        !spec_is_trivial(a.0, a.1),
    ensures
        spec_priority_override(seq![a, b]) == a,
{
}

} // verus!
