//! Execution outcomes and the step error taxonomy.

use vstd::prelude::*;

verus! {

/// What became of one executor invocation.
///
/// `Simulated` means the run mode was `Dry`: nothing was spawned and the
/// invocation counts as a success for control flow. `Completed` carries the
/// exit code the process returned (`None` when it was ended by a signal).
/// `SpawnFailed` means the process could not even be started.
#[derive(Debug)]
pub enum ExecutionOutcome {
    Simulated,
    Completed { code: Option<i32> },
    SpawnFailed { message: String },
}

/// How a step ends when it does not succeed.
///
/// `Skip`: a prerequisite is absent; the step is omitted, not failed.
/// `ProcessFailed`: the external tool ran and signalled failure.
/// `SpawnFailed`: the tool could not be started at all.
/// `Fatal`: an unexpected internal error, such as malformed prerequisite
/// file content.
#[derive(Debug)]
pub enum StepError {
    Skip { reason: String },
    ProcessFailed { code: Option<i32> },
    SpawnFailed { message: String },
    Fatal { message: String },
}

impl StepError {
    /// A short label naming the error kind, for reporting.
    pub fn kind_label(&self) -> (r: &'static str)
        ensures
            self is Skip ==> r@ == "skipped"@,
            self is ProcessFailed ==> r@ == "process failed"@,
            self is SpawnFailed ==> r@ == "spawn failed"@,
            self is Fatal ==> r@ == "fatal"@,
    {
        match self {
            StepError::Skip { .. } => "skipped",
            StepError::ProcessFailed { .. } => "process failed",
            StepError::SpawnFailed { .. } => "spawn failed",
            StepError::Fatal { .. } => "fatal",
        }
    }
}

} // verus!
