//! What is logged when a task ends.

use vstd::prelude::*;
use vstd::string::StringExecFns;

verus! {

/// How grave a log record is.
#[derive(Clone, Copy, Debug, PartialEq, Eq, Structural)]
pub enum Level {
    /// The task ended as it should.
    Info,
    /// It did not.
    Error,
}

/// An error as it is logged: its own text and the chain of its causes.
#[derive(Debug)]
pub struct Failure {
    pub message: String,
    pub cause_chain: String,
}

/// A log record about the end of a task.
#[derive(Debug)]
pub struct ExitReport {
    pub level: Level,
    pub text: String,
    pub error: Option<Failure>,
}

/// The text that is logged for a task that exited without error.
pub open spec fn exited_text(task_name: Seq<char>) -> Seq<char> {
    task_name + " has exited"@
}

/// The text that is logged for a task that returned an error.
pub open spec fn failed_text(task_name: Seq<char>) -> Seq<char> {
    task_name + " failed"@
}

/// The text that is logged for a task that did not run to its end.
pub open spec fn incomplete_text(task_name: Seq<char>) -> Seq<char> {
    task_name + " task failed to complete"@
}

/// The record of how the task `task_name` ended. The outer error is that of
/// a task which did not run to its end, the inner one that which the task
/// itself returned.
pub fn report_exit(task_name: &str, outcome: Result<Result<(), Failure>, Failure>) -> (report:
    ExitReport)
    ensures
        match outcome {
            Ok(Ok(())) => report.level == Level::Info && report.text@ == exited_text(task_name@)
                && report.error is None,
            Ok(Err(e)) => report.level == Level::Error && report.text@ == failed_text(
                task_name@,
            ) && report.error == Some(e),
            Err(e) => report.level == Level::Error && report.text@ == incomplete_text(
                task_name@,
            ) && report.error == Some(e),
        },
{
    match outcome {
        Ok(Ok(())) => ExitReport {
            level: Level::Info,
            text: task_name.to_owned().concat(" has exited"),
            error: None,
        },
        Ok(Err(e)) => ExitReport {
            level: Level::Error,
            text: task_name.to_owned().concat(" failed"),
            error: Some(e),
        },
        Err(e) => ExitReport {
            level: Level::Error,
            text: task_name.to_owned().concat(" task failed to complete"),
            error: Some(e),
        },
    }
}

} // verus!
