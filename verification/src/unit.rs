use vstd::prelude::*;

use crate::status::ExecutionStatus;
use crate::style::RenderStyle;
use crate::text::{
    failure_glyph, failure_line, finished_line, progress_line, spinner_line, success_glyph,
    success_line,
};

verus! {

/// One schedulable task: a status record, caller-supplied work, optional
/// hooks, and the `[i/n]` labels every line it renders carries.
///
/// The logic slots are opaque to the engine: `L` is whatever the host uses
/// to represent a piece of caller-supplied logic. Each slot is consumed at
/// most once, when execution begins.
pub struct ExecutionUnit<L> {
    /// The engine's record of the unit's status: `InProgress` from
    /// construction until `finish_execute` stores the final value the
    /// worker left behind.
    pub status: ExecutionStatus,
    /// The immutable display string.
    pub description: String,
    /// How many groups the owning manager runs; set by the owning group
    /// before execution.
    pub total_groups: i32,
    /// The 1-based index of the owning group; set by the owning group
    /// before execution.
    pub current_group_idx: i32,
    /// The work to run. Required: execution cannot begin without it.
    pub work: Option<L>,
    /// Runs when the work leaves the status `Failed`. Optional.
    pub failure_action: Option<L>,
    /// Runs when the work leaves the status `Completed`. Optional.
    pub success_action: Option<L>,
}

/// What the worker does once the work has returned and it has read the
/// status the work left behind.
pub enum HookDecision<L> {
    /// The work completed and a success hook is attached: run it.
    RunSuccess(L),
    /// The work failed and a failure hook is attached: run it.
    RunFailure(L),
    /// The work failed and no failure hook is attached: no recovery
    /// occurred, and the failure will propagate to the top-level runner.
    NoRecovery,
    /// Nothing is left to do after the work.
    Nothing,
}

/// The hook-dispatch rule: which hook the worker runs, given the status it
/// read after the work returned and the hooks that were attached.
pub open spec fn spec_select_hook<L>(
    observed: ExecutionStatus,
    success_action: Option<L>,
    failure_action: Option<L>,
) -> HookDecision<L> {
    match observed {
        ExecutionStatus::Completed => match success_action {
            Some(h) => HookDecision::RunSuccess(h),
            None => HookDecision::Nothing,
        },
        ExecutionStatus::Failed => match failure_action {
            Some(h) => HookDecision::RunFailure(h),
            None => HookDecision::NoRecovery,
        },
        ExecutionStatus::InProgress => HookDecision::Nothing,
    }
}

/// Decides which hook, if any, the worker runs after the work returned
/// leaving `observed` behind. Takes both hooks, as the worker does: the one
/// not chosen is dropped.
pub fn select_hook<L>(
    observed: ExecutionStatus,
    success_action: Option<L>,
    failure_action: Option<L>,
) -> (d: HookDecision<L>)
    ensures
        d == spec_select_hook(observed, success_action, failure_action),
{
    match observed {
        ExecutionStatus::Completed => match success_action {
            Some(h) => HookDecision::RunSuccess(h),
            None => HookDecision::Nothing,
        },
        ExecutionStatus::Failed => match failure_action {
            Some(h) => HookDecision::RunFailure(h),
            None => HookDecision::NoRecovery,
        },
        ExecutionStatus::InProgress => HookDecision::Nothing,
    }
}

/// Whether a final status makes the failure propagate: the top-level
/// runner stops the process with a non-zero signal exactly then.
pub open spec fn spec_failure_propagates(observed: ExecutionStatus) -> bool {
    observed == ExecutionStatus::Failed
}

/// What one display-loop iteration decides.
pub enum RenderStep {
    /// Keep polling: draw this spinner frame in place, then go on with the
    /// next frame index.
    Continue { line: String, next_frame: usize },
    /// Terminal: print the success line once; the loop is over.
    FinishSuccess { line: String },
    /// Terminal: print the failure line once; the loop is over. The unit
    /// may still be running a failure hook; the loop does not wait for it.
    FinishFailure { line: String },
}

impl RenderStep {
    /// The style the host draws this step's line in.
    pub fn style(&self) -> (s: RenderStyle)
        ensures
            (s == RenderStyle::Muted) == (self is Continue),
            (s == RenderStyle::Success) == (self is FinishSuccess),
            (s == RenderStyle::Failure) == (self is FinishFailure),
    {
        match self {
            RenderStep::Continue { .. } => RenderStyle::Muted,
            RenderStep::FinishSuccess { .. } => RenderStyle::Success,
            RenderStep::FinishFailure { .. } => RenderStyle::Failure,
        }
    }

    /// Whether this step ends the display loop.
    pub fn is_finished(&self) -> (r: bool)
        ensures
            r == !(self is Continue),
    {
        match self {
            RenderStep::Continue { .. } => false,
            RenderStep::FinishSuccess { .. } => true,
            RenderStep::FinishFailure { .. } => true,
        }
    }
}

impl<L> ExecutionUnit<L> {
    /// A fresh unit: `InProgress`, no logic attached, labels still unset.
    pub fn new(description: String) -> (u: Self)
        ensures
            u.status == ExecutionStatus::InProgress,
            u.description@ == description@,
            u.total_groups == 0,
            u.current_group_idx == 0,
            u.work is None,
            u.failure_action is None,
            u.success_action is None,
    {
        ExecutionUnit {
            status: ExecutionStatus::InProgress,
            description,
            total_groups: 0,
            current_group_idx: 0,
            work: None,
            failure_action: None,
            success_action: None,
        }
    }

    /// Sets the total-groups part of the `[i/n]` label; called once by the
    /// owning group before execution.
    pub fn set_total_groups(&mut self, total: i32)
        ensures
            final(self).total_groups == total,
            final(self).status == old(self).status,
            final(self).description == old(self).description,
            final(self).current_group_idx == old(self).current_group_idx,
            final(self).work == old(self).work,
            final(self).failure_action == old(self).failure_action,
            final(self).success_action == old(self).success_action,
    {
        self.total_groups = total;
    }

    /// Sets the group-index part of the `[i/n]` label; called once by the
    /// owning group before execution.
    pub fn set_group_index(&mut self, index: i32)
        ensures
            final(self).current_group_idx == index,
            final(self).status == old(self).status,
            final(self).description == old(self).description,
            final(self).total_groups == old(self).total_groups,
            final(self).work == old(self).work,
            final(self).failure_action == old(self).failure_action,
            final(self).success_action == old(self).success_action,
    {
        self.current_group_idx = index;
    }

    /// Attaches the work to run. A second call overwrites the first: the
    /// last write wins.
    pub fn on_execute(self, callback: L) -> (u: Self)
        ensures
            u.work == Some(callback),
            u.status == self.status,
            u.description == self.description,
            u.total_groups == self.total_groups,
            u.current_group_idx == self.current_group_idx,
            u.failure_action == self.failure_action,
            u.success_action == self.success_action,
    {
        ExecutionUnit { work: Some(callback), ..self }
    }

    /// Attaches the hook run when the work leaves the status `Failed`,
    /// instead of letting the failure propagate. A second call overwrites
    /// the first: the last write wins.
    pub fn on_failure(self, action: L) -> (u: Self)
        ensures
            u.failure_action == Some(action),
            u.status == self.status,
            u.description == self.description,
            u.total_groups == self.total_groups,
            u.current_group_idx == self.current_group_idx,
            u.work == self.work,
            u.success_action == self.success_action,
    {
        ExecutionUnit { failure_action: Some(action), ..self }
    }

    /// Attaches the hook run when the work leaves the status `Completed`.
    /// A second call overwrites the first: the last write wins.
    pub fn on_success(self, action: L) -> (u: Self)
        ensures
            u.success_action == Some(action),
            u.status == self.status,
            u.description == self.description,
            u.total_groups == self.total_groups,
            u.current_group_idx == self.current_group_idx,
            u.work == self.work,
            u.failure_action == self.failure_action,
    {
        ExecutionUnit { success_action: Some(action), ..self }
    }

    /// Whether work is attached and not yet consumed: exactly the units on
    /// which execution may begin.
    pub fn has_work(&self) -> (r: bool)
        ensures
            r == (self.work is Some),
    {
        self.work.is_some()
    }

    /// Begins execution: takes ownership of the work and both hooks, each
    /// consumed at most once. A unit whose work was already consumed (or
    /// never attached) admits no execution — hosts check `has_work` first,
    /// or call `try_begin_execute`.
    pub fn begin_execute(&mut self) -> (t: (L, Option<L>, Option<L>))
        requires
            old(self).work is Some,
        ensures
            old(self).work == Some(t.0),
            t.1 == old(self).success_action,
            t.2 == old(self).failure_action,
            final(self).work is None,
            final(self).success_action is None,
            final(self).failure_action is None,
            final(self).status == old(self).status,
            final(self).description == old(self).description,
            final(self).total_groups == old(self).total_groups,
            final(self).current_group_idx == old(self).current_group_idx,
    {
        let w = self.work.take().unwrap();
        let s = self.success_action.take();
        let f = self.failure_action.take();
        (w, s, f)
    }

    /// Begins execution when work is attached; `None` when it was already
    /// consumed by an earlier execution or never attached, with the unit
    /// left untouched — a repeated `execute` runs nothing stale.
    pub fn try_begin_execute(&mut self) -> (t: Option<(L, Option<L>, Option<L>)>)
        ensures
            old(self).work is Some ==> {
                &&& t is Some
                &&& old(self).work == Some((t->0).0)
                &&& (t->0).1 == old(self).success_action
                &&& (t->0).2 == old(self).failure_action
                &&& final(self).work is None
                &&& final(self).success_action is None
                &&& final(self).failure_action is None
                &&& final(self).status == old(self).status
                &&& final(self).description == old(self).description
                &&& final(self).total_groups == old(self).total_groups
                &&& final(self).current_group_idx == old(self).current_group_idx
            },
            old(self).work is None ==> t is None && *final(self) == *old(self),
    {
        if self.work.is_some() {
            Some(self.begin_execute())
        } else {
            None
        }
    }

    /// One iteration of the display loop: given the status the poller just
    /// observed and the current spinner frame, what to draw and whether
    /// the loop is finished. Only an `InProgress` observation keeps the
    /// loop going; each terminal status yields its line exactly once.
    pub fn display_step(&self, observed: ExecutionStatus, frame: usize) -> (step: RenderStep)
        ensures
            match step {
                RenderStep::Continue { line, next_frame } => {
                    &&& observed == ExecutionStatus::InProgress
                    &&& line@ == progress_line(
                        self.current_group_idx as int,
                        self.total_groups as int,
                        self.description@,
                        frame as int,
                    )
                    &&& next_frame as int == (frame as int + 1) % 4
                },
                RenderStep::FinishSuccess { line } => {
                    &&& observed == ExecutionStatus::Completed
                    &&& line@ == finished_line(
                        self.current_group_idx as int,
                        self.total_groups as int,
                        self.description@,
                        success_glyph(),
                    )
                },
                RenderStep::FinishFailure { line } => {
                    &&& observed == ExecutionStatus::Failed
                    &&& line@ == finished_line(
                        self.current_group_idx as int,
                        self.total_groups as int,
                        self.description@,
                        failure_glyph(),
                    )
                },
            },
    {
        match observed {
            ExecutionStatus::InProgress => {
                let line = spinner_line(
                    self.current_group_idx,
                    self.total_groups,
                    self.description.as_str(),
                    frame,
                );
                let k = frame % 4;
                let next_frame: usize = if k == 3 {
                    0
                } else {
                    k + 1
                };
                proof {
                    vstd::arithmetic::div_mod::lemma_add_mod_noop(frame as int, 1, 4);
                }
                RenderStep::Continue { line, next_frame }
            },
            ExecutionStatus::Completed => {
                let line = success_line(
                    self.current_group_idx,
                    self.total_groups,
                    self.description.as_str(),
                );
                RenderStep::FinishSuccess { line }
            },
            ExecutionStatus::Failed => {
                let line = failure_line(
                    self.current_group_idx,
                    self.total_groups,
                    self.description.as_str(),
                );
                RenderStep::FinishFailure { line }
            },
        }
    }

    /// Ends execution, after the worker (and any hook it ran) has fully
    /// finished: records the final status the worker left behind and says
    /// whether the failure propagates — the fail-fast sentinel the
    /// top-level runner acts on once, with a non-zero signal.
    pub fn finish_execute(&mut self, observed: ExecutionStatus) -> (terminate: bool)
        ensures
            terminate == spec_failure_propagates(observed),
            final(self).status == observed,
            final(self).description == old(self).description,
            final(self).total_groups == old(self).total_groups,
            final(self).current_group_idx == old(self).current_group_idx,
            final(self).work == old(self).work,
            final(self).failure_action == old(self).failure_action,
            final(self).success_action == old(self).success_action,
    {
        self.status = observed;
        match observed {
            ExecutionStatus::Failed => true,
            _ => false,
        }
    }
}

} // verus!
