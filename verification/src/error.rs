//! The ways in which the runtime refuses an operation.

use vstd::prelude::*;

verus! {

/// A failure of the scheduler. None of them is transient: each reports either
/// an exhausted queue or a broken usage rule, so nothing is ever retried.
#[derive(Clone, Copy, Debug, PartialEq, Eq, Structural)]
pub enum SchedulerError {
    /// The admission channel already holds as many entries as its capacity allows.
    QueueFull,
    /// A computation was handed back to a task whose slot is not empty, so the
    /// task was being driven twice at once.
    DoubleDriveViolation,
    /// A resumption token names a task that the executor never admitted.
    UnknownTask,
}

impl SchedulerError {
    /// A short description suitable for a fatal error message.
    pub fn message(&self) -> (text: &'static str)
        ensures
            text@ == (match *self {
                SchedulerError::QueueFull => "too many tasks queued"@,
                SchedulerError::DoubleDriveViolation => "task driven twice at once"@,
                SchedulerError::UnknownTask => "token of an unknown task"@,
            }),
    {
        match self {
            SchedulerError::QueueFull => "too many tasks queued",
            SchedulerError::DoubleDriveViolation => "task driven twice at once",
            SchedulerError::UnknownTask => "token of an unknown task",
        }
    }
}

} // verus!
