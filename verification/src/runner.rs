//! Judging one test invocation: the exit status of a launched test command
//! becomes a pass/fail outcome, and a failure to launch becomes a
//! per-project error that leaves every other project untouched.

use vstd::prelude::*;

verus! {

/// The pass/fail result of running a project's test command, based solely
/// on the process exit status.
#[derive(Clone, Copy, Debug, PartialEq, Eq, Structural)]
pub enum Outcome {
    Passed,
    Failed,
}

/// An error that prevented a test command from starting or from yielding an
/// exit status, carrying the underlying error's description.
#[derive(Debug)]
pub struct RunError {
    pub message: String,
}

/// The outcome owed for an exit status: passed exactly when the command
/// exited with status zero.
pub open spec fn outcome_of(success: bool) -> Outcome {
    if success {
        Outcome::Passed
    } else {
        Outcome::Failed
    }
}

/// Turns an exit status into an outcome: passing if and only if the status
/// was zero (success); any non-zero status is a failing outcome.
pub fn outcome_of_status(success: bool) -> (r: Outcome)
    ensures
        r == outcome_of(success),
        r == Outcome::Passed <==> success,
{
    if success {
        Outcome::Passed
    } else {
        Outcome::Failed
    }
}

/// Judges one launch attempt. An obtained exit status always becomes a
/// pass/fail outcome — never a launch error — and a failure to launch
/// (`spawn` is an error description) becomes a `RunError` carrying that
/// description, recoverable per project.
pub fn judge_launch(spawn: Result<bool, String>) -> (r: Result<Outcome, RunError>)
    ensures
        match spawn {
            Ok(success) => r matches Ok(o) && o == outcome_of(success),
            Err(m) => r matches Err(e) && e.message@ == m@,
        },
{
    match spawn {
        Ok(success) => Ok(outcome_of_status(success)),
        Err(message) => Err(RunError { message }),
    }
}

} // verus!
