//! Wake handles and the alarms that carry them.

use vstd::prelude::*;

verus! {

/// A capability that names one task; invoking it re-enqueues that task and
/// does nothing else.
#[derive(Clone, Copy, Debug, PartialEq, Eq, Structural)]
pub struct WakeHandle {
    pub task: usize,
}

impl WakeHandle {
    /// A handle bound to the task with identifier `task`.
    pub fn new(task: usize) -> (h: WakeHandle)
        ensures
            h.task == task,
    {
        WakeHandle { task }
    }

    /// The identifier of the task this handle is bound to.
    pub fn task_id(&self) -> (id: usize)
        ensures
            id == self.task,
    {
        self.task
    }
}

/// A request to invoke `handle` once the clock has reached `deadline`.
#[derive(Clone, Copy, Debug, PartialEq, Eq, Structural)]
pub struct Alarm {
    pub handle: WakeHandle,
    pub deadline: u64,
}

} // verus!
