use vstd::prelude::*;

use crate::unit::ExecutionUnit;

verus! {

/// Whether `v` is `u` with its group placement set to `[idx/total]` and
/// everything else — status, description, work and hooks — untouched.
pub open spec fn labeled_as<L>(
    v: ExecutionUnit<L>,
    u: ExecutionUnit<L>,
    total: i32,
    idx: i32,
) -> bool {
    &&& v.total_groups == total
    &&& v.current_group_idx == idx
    &&& v.status == u.status
    &&& v.description == u.description
    &&& v.work == u.work
    &&& v.failure_action == u.failure_action
    &&& v.success_action == u.success_action
}

/// An ordered batch of execution units; insertion order is execution order.
pub struct TaskGroup<L> {
    /// The units, in insertion order.
    pub units: Vec<ExecutionUnit<L>>,
}

impl<L> TaskGroup<L> {
    /// A fresh, empty group.
    pub fn new() -> (g: Self)
        ensures
            g.units@.len() == 0,
    {
        TaskGroup { units: Vec::new() }
    }

    /// Appends a unit; it will run after every unit added before it.
    pub fn add_unit(&mut self, unit: ExecutionUnit<L>)
        ensures
            final(self).units@ == old(self).units@.push(unit),
    {
        self.units.push(unit);
    }

    /// Prepares the group's run: stamps every unit with the group's
    /// placement `[current_idx/total_groups]` and hands the units out in
    /// insertion order, leaving the group empty. The host executes each
    /// scheduled unit to completion — worker joined, hooks done — before
    /// it starts the next, so units of one group never overlap.
    pub fn run(&mut self, total_groups: i32, current_idx: i32) -> (scheduled: Vec<
        ExecutionUnit<L>,
    >)
        ensures
            scheduled@.len() == old(self).units@.len(),
            forall|k: int|
                0 <= k < scheduled@.len() ==> labeled_as(
                    #[trigger] scheduled@[k],
                    old(self).units@[k],
                    total_groups,
                    current_idx,
                ),
            final(self).units@.len() == 0,
    {
        let ghost orig = self.units@;
        let mut scheduled: Vec<ExecutionUnit<L>> = Vec::new();
        while self.units.len() > 0
            invariant
                scheduled@.len() + self.units@.len() == orig.len(),
                self.units@ == orig.subrange(scheduled@.len() as int, orig.len() as int),
                forall|k: int|
                    0 <= k < scheduled@.len() ==> labeled_as(
                        #[trigger] scheduled@[k],
                        orig[k],
                        total_groups,
                        current_idx,
                    ),
            decreases self.units@.len(),
        {
            let mut u = self.units.remove(0);
            u.set_group_index(current_idx);
            u.set_total_groups(total_groups);
            scheduled.push(u);
            proof {
                assert(self.units@ =~= orig.subrange(
                    scheduled@.len() as int,
                    orig.len() as int,
                ));
            }
        }
        scheduled
    }
}

} // verus!
