//! The failures the executor distinguishes. None of them stops the loop.

use vstd::prelude::*;

verus! {

#[derive(Clone, Copy, Debug, PartialEq, Eq, Structural)]
pub enum ExecutorError {
    /// A task was sent to the queue after its consumer had shut down.
    QueueClosed,
    /// A step was asked of a task whose computation is already being stepped.
    SlotBusy,
    /// The wake-up a timer asked for could not be arranged.
    TimerSpawnFailed,
}

impl ExecutorError {
    /// A short description of the failure.
    pub fn describe(&self) -> (text: &'static str)
        ensures
            text == match *self {
                ExecutorError::QueueClosed => "scheduler queue closed",
                ExecutorError::SlotBusy => "task slot busy",
                ExecutorError::TimerSpawnFailed => "timer wake-up could not be arranged",
            },
    {
        match self {
            ExecutorError::QueueClosed => "scheduler queue closed",
            ExecutorError::SlotBusy => "task slot busy",
            ExecutorError::TimerSpawnFailed => "timer wake-up could not be arranged",
        }
    }
}

} // verus!
