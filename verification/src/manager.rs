use vstd::prelude::*;

use crate::group::{labeled_as, TaskGroup};
use crate::unit::ExecutionUnit;

verus! {

/// The number of units held by the groups, all together.
pub open spec fn unit_count<L>(gs: Seq<TaskGroup<L>>) -> int
    decreases gs.len(),
{
    if gs.len() == 0 {
        0
    } else {
        unit_count(gs.drop_last()) + gs.last().units@.len()
    }
}

/// Where the units of group `i` begin in the flattened schedule.
pub open spec fn schedule_offset<L>(gs: Seq<TaskGroup<L>>, i: int) -> int {
    unit_count(gs.take(i))
}

proof fn lemma_unit_count_nonneg<L>(gs: Seq<TaskGroup<L>>)
    ensures
        unit_count(gs) >= 0,
    decreases gs.len(),
{
    if gs.len() > 0 {
        lemma_unit_count_nonneg(gs.drop_last());
    }
}

proof fn lemma_unit_count_step<L>(gs: Seq<TaskGroup<L>>, i: int)
    requires
        0 <= i < gs.len(),
    ensures
        unit_count(gs.take(i + 1)) == schedule_offset(gs, i) + gs[i].units@.len(),
{
    assert(gs.take(i + 1).drop_last() =~= gs.take(i));
    assert(gs.take(i + 1).last() == gs[i]);
}

proof fn lemma_offset_mono<L>(gs: Seq<TaskGroup<L>>, j: int, i: int)
    requires
        0 <= j < i <= gs.len(),
    ensures
        schedule_offset(gs, j) + gs[j].units@.len() <= schedule_offset(gs, i),
    decreases i - j,
{
    lemma_unit_count_step(gs, j);
    if j + 1 < i {
        lemma_offset_mono(gs, j + 1, i);
        lemma_unit_count_step(gs, j + 1);
        assert(gs[j + 1].units@.len() >= 0);
    }
}

/// The top-level sequential runner over task groups.
pub struct ProgressManager<L> {
    /// The groups, in insertion order.
    pub groups: Vec<TaskGroup<L>>,
}

impl<L> ProgressManager<L> {
    /// A fresh manager with no groups.
    pub fn new() -> (m: Self)
        ensures
            m.groups@.len() == 0,
    {
        ProgressManager { groups: Vec::new() }
    }

    /// Appends a group; it will run after every group added before it.
    pub fn add_group(&mut self, group: TaskGroup<L>)
        ensures
            final(self).groups@ == old(self).groups@.push(group),
    {
        self.groups.push(group);
    }

    /// Computes the whole run's schedule. The total group count is taken
    /// once, and every unit of group `i` (1-based) is stamped `[i/n]`.
    /// Groups come in insertion order, units in insertion order within
    /// their group; the host executes the schedule strictly one unit at a
    /// time, front to back. The manager is left empty: a schedule is
    /// computed once.
    ///
    /// The group count must fit the label's integer type.
    pub fn start(&mut self) -> (schedule: Vec<ExecutionUnit<L>>)
        requires
            old(self).groups@.len() <= i32::MAX,
        ensures
            schedule@.len() == unit_count(old(self).groups@),
            forall|i: int, k: int|
                0 <= i < old(self).groups@.len() && 0 <= k
                    < old(self).groups@[i].units@.len() ==> labeled_as(
                    schedule@[schedule_offset(old(self).groups@, i) + k],
                    #[trigger] old(self).groups@[i].units@[k],
                    old(self).groups@.len() as i32,
                    (i + 1) as i32,
                ),
            final(self).groups@.len() == 0,
    {
        let ghost gs = self.groups@;
        let total = self.groups.len() as i32;
        let mut schedule: Vec<ExecutionUnit<L>> = Vec::new();
        let mut i: usize = 0;
        while self.groups.len() > 0
            invariant
                gs.len() <= i32::MAX,
                total == gs.len() as i32,
                i as int + self.groups@.len() == gs.len(),
                self.groups@ == gs.subrange(i as int, gs.len() as int),
                schedule@.len() == schedule_offset(gs, i as int),
                forall|j: int, k: int|
                    0 <= j < i as int && 0 <= k < gs[j].units@.len() ==> labeled_as(
                        schedule@[schedule_offset(gs, j) + k],
                        #[trigger] gs[j].units@[k],
                        total,
                        (j + 1) as i32,
                    ),
            decreases self.groups@.len(),
        {
            let ghost pre = schedule@;
            let mut g = self.groups.remove(0);
            proof {
                assert(g == gs[i as int]);
                assert(self.groups@ =~= gs.subrange(i as int + 1, gs.len() as int));
            }
            let mut part = g.run(total, i as i32 + 1);
            let ghost ps = part@;
            schedule.append(&mut part);
            proof {
                lemma_unit_count_step(gs, i as int);
                assert forall|j: int, k: int|
                    0 <= j < i as int + 1 && 0 <= k < gs[j].units@.len() implies labeled_as(
                    schedule@[schedule_offset(gs, j) + k],
                    #[trigger] gs[j].units@[k],
                    total,
                    (j + 1) as i32,
                ) by {
                    lemma_unit_count_nonneg(gs.take(j));
                    if j < i as int {
                        lemma_offset_mono(gs, j, i as int);
                        assert(schedule@[schedule_offset(gs, j) + k] == pre[schedule_offset(
                            gs,
                            j,
                        ) + k]);
                    } else {
                        assert(schedule@[schedule_offset(gs, j) + k] == ps[k]);
                    }
                }
            }
            i = i + 1;
        }
        proof {
            assert(gs.take(gs.len() as int) =~= gs);
        }
        schedule
    }
}

} // verus!
