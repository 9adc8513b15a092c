use vstd::prelude::*;

verus! {

/// The possible states of an individual execution unit.
///
/// A unit starts `InProgress`; the caller-supplied work (and, possibly, a
/// hook) moves it to one of the terminal states `Completed` or `Failed`.
/// Nothing may move a unit back from a terminal state to `InProgress`; that
/// is a contract on the caller-supplied logic, not something the engine
/// enforces.
#[derive(Clone, Copy, PartialEq, Eq, Structural, Debug)]
pub enum ExecutionStatus {
    InProgress,
    Completed,
    Failed,
}

impl ExecutionStatus {
    /// A status is terminal when the display loop stops upon observing it.
    pub open spec fn spec_is_terminal(self) -> bool {
        self != ExecutionStatus::InProgress
    }

    /// Whether the status is one of the two terminal states.
    pub fn is_terminal(&self) -> (r: bool)
        ensures
            r == self.spec_is_terminal(),
    {
        match self {
            ExecutionStatus::InProgress => false,
            ExecutionStatus::Completed => true,
            ExecutionStatus::Failed => true,
        }
    }
}

} // verus!
