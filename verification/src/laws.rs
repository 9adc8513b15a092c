use vstd::prelude::*;

use crate::status::ExecutionStatus;
use crate::unit::{spec_failure_propagates, spec_select_hook, HookDecision};

verus! {

/// Law: when the work leaves a unit `Completed`, no failure hook is handed
/// out, no missing-recovery record is made, and the failure sentinel stays
/// unset: the run goes on. Together with the display step's contract — a
/// `Completed` observation yields the success line once and ends the loop
/// — this pins down the whole successful path.
pub proof fn lemma_completed_runs_no_failure_hook<L>(
    success_action: Option<L>,
    failure_action: Option<L>,
)
    ensures
        !(spec_select_hook(
            ExecutionStatus::Completed,
            success_action,
            failure_action,
        ) is RunFailure),
        !(spec_select_hook(
            ExecutionStatus::Completed,
            success_action,
            failure_action,
        ) is NoRecovery),
        !spec_failure_propagates(ExecutionStatus::Completed),
{
}

/// Law: when the work leaves a unit `Failed` and no failure hook is
/// attached, the worker records that no recovery occurred, and the failure
/// propagates: the top-level runner stops the process with a non-zero
/// signal — after the display step has yielded the failure line once.
pub proof fn lemma_unhandled_failure_propagates<L>(success_action: Option<L>)
    ensures
        spec_select_hook(ExecutionStatus::Failed, success_action, None::<L>)
            == HookDecision::<L>::NoRecovery,
        spec_failure_propagates(ExecutionStatus::Failed),
{
}

/// Law: with a failure hook attached, the hook is handed out exactly when
/// the work left the unit `Failed`; no other observed status runs it. That
/// it runs at most once is the consumption contract of `begin_execute`:
/// the slots leave the unit empty, so no later execution can hand the same
/// hook out again.
pub proof fn lemma_failure_hook_runs_exactly_on_failure<L>(success_action: Option<L>, hook: L)
    ensures
        spec_select_hook(ExecutionStatus::Failed, success_action, Some(hook))
            == HookDecision::RunFailure(hook),
        forall|observed: ExecutionStatus|
            observed != ExecutionStatus::Failed ==> !(#[trigger] spec_select_hook(
                observed,
                success_action,
                Some(hook),
            ) is RunFailure),
{
}

} // verus!
