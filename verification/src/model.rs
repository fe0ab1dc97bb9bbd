//! The executor as contracts see it: the task slots, the scheduler queue
//! and the spawn endpoint, with every operation as a function on that state.

use vstd::prelude::*;
use crate::computation::Suspendable;
use crate::error::ExecutorError;
use crate::handle::{Alarm, WakeHandle};
use crate::queue::{QueueState, Received};

verus! {

/// The storage slot of one task.
pub enum Slot<C> {
    /// The task's computation waits here between steps.
    Holding(C),
    /// A step is in flight: the computation has been taken out.
    Busy,
    /// The computation has completed and is gone.
    Vacant,
}

/// What one attempt to step a task did.
#[derive(Clone, Copy, Debug, PartialEq, Eq, Structural)]
pub enum StepOutcome {
    /// The computation reported completion; its slot is now vacant.
    Completed,
    /// The computation suspended, possibly asking for an alarm.
    Suspended(Option<Alarm>),
    /// The slot was vacant, or no task has that identifier: nothing happened.
    Inert,
    /// A step was already in flight: nothing happened.
    Busy,
}

/// What one turn of the loop did.
#[derive(Clone, Copy, Debug, PartialEq, Eq, Structural)]
pub enum Step {
    /// The task with this identifier was received and stepped.
    Advanced(usize, StepOutcome),
    /// Nothing waits, but a producer is left: the loop has to wait for a
    /// wake.
    Idle,
    /// Nothing waits and no producer is left: the loop is over.
    Finished,
}

/// A task that was given up, and why.
#[derive(Clone, Copy, Debug, PartialEq, Eq, Structural)]
pub struct TaskFailure {
    pub task: usize,
    pub error: ExecutorError,
}

/// The number of slots in `slots` that are not vacant.
pub open spec fn live<C>(slots: Seq<Slot<C>>) -> nat
    decreases slots.len(),
{
    if slots.len() == 0 {
        0
    } else {
        live(slots.drop_last()) + if slots.last() is Vacant {
            0nat
        } else {
            1nat
        }
    }
}

/// Appending a slot adds it to the count unless it is vacant.
pub proof fn lemma_live_push<C>(slots: Seq<Slot<C>>, slot: Slot<C>)
    ensures
        live(slots.push(slot)) == live(slots) + if slot is Vacant {
            0nat
        } else {
            1nat
        },
{
    assert(slots.push(slot).drop_last() =~= slots);
}

/// Replacing one slot changes the count by what the old and the new slot
/// contribute.
pub proof fn lemma_live_update<C>(slots: Seq<Slot<C>>, i: int, slot: Slot<C>)
    requires
        0 <= i < slots.len(),
    ensures
        live(slots.update(i, slot)) + (if slots[i] is Vacant {
            0nat
        } else {
            1nat
        }) == live(slots) + if slot is Vacant {
            0nat
        } else {
            1nat
        },
    decreases slots.len(),
{
    if i == slots.len() - 1 {
        assert(slots.update(i, slot).drop_last() =~= slots.drop_last());
    } else {
        assert(slots.update(i, slot).drop_last() =~= slots.drop_last().update(i, slot));
        lemma_live_update(slots.drop_last(), i, slot);
    }
}

/// No more slots are live than there are slots, and none is live exactly
/// when all are vacant.
pub proof fn lemma_live_bounds<C>(slots: Seq<Slot<C>>)
    ensures
        live(slots) <= slots.len(),
        live(slots) == 0 <==> forall|i: int| 0 <= i < slots.len() ==> slots[i] is Vacant,
    decreases slots.len(),
{
    if slots.len() > 0 {
        let init = slots.drop_last();
        lemma_live_bounds(init);
        if live(slots) == 0 {
            assert forall|i: int| 0 <= i < slots.len() implies slots[i] is Vacant by {
                if i < init.len() {
                    assert(init[i] is Vacant);
                }
            }
        }
        if forall|i: int| 0 <= i < slots.len() ==> slots[i] is Vacant {
            assert forall|i: int| 0 <= i < init.len() implies init[i] is Vacant by {
                assert(slots[i] is Vacant);
            }
        }
    }
}

pub struct ExecutorState<C> {
    /// One slot per task spawned so far, indexed by task identifier.
    pub slots: Seq<Slot<C>>,
    pub queue: QueueState,
    /// Whether the executor's own spawn endpoint still exists.
    pub open: bool,
}

impl<C: Suspendable> ExecutorState<C> {
    /// Every producer endpoint is accounted for: one per task that has not
    /// completed, and one for the spawn endpoint while it exists.
    pub open spec fn wf(self) -> bool {
        &&& self.queue.producers == live(self.slots) + if self.open {
            1nat
        } else {
            0nat
        }
        &&& self.slots.len() <= usize::MAX
        &&& self.open ==> self.queue.consuming
        &&& !self.queue.consuming ==> self.queue.items.len() == 0 && self.queue.producers == 0
    }

    /// The state of a fresh executor.
    pub open spec fn initial() -> Self {
        ExecutorState {
            slots: Seq::empty(),
            queue: QueueState { items: Seq::empty(), producers: 1, consuming: true },
            open: true,
        }
    }

    /// The slot of task `id`; vacant where no such task exists.
    pub open spec fn slot(self, id: usize) -> Slot<C> {
        if id < self.slots.len() {
            self.slots[id as int]
        } else {
            Slot::Vacant
        }
    }

    /// A new task owning `c` joins and is enqueued once. Without the spawn
    /// endpoint nothing changes.
    pub open spec fn spawn(self, c: C) -> Self {
        if self.open {
            ExecutorState {
                slots: self.slots.push(Slot::Holding(c)),
                queue: QueueState {
                    items: self.queue.items.push(self.slots.len() as usize),
                    producers: self.queue.producers + 1,
                    ..self.queue
                },
                ..self
            }
        } else {
            self
        }
    }

    /// The spawn endpoint is dropped.
    pub open spec fn close(self) -> Self {
        if self.open {
            ExecutorState {
                queue: QueueState {
                    producers: (self.queue.producers - 1) as nat,
                    ..self.queue
                },
                open: false,
                ..self
            }
        } else {
            self
        }
    }

    /// The handle's task is enqueued once more; the slots are not touched.
    pub open spec fn wake(self, handle: WakeHandle) -> Self {
        ExecutorState { queue: self.queue.send(handle.task), ..self }
    }

    /// The state once task `id` has given up its computation for good.
    pub open spec fn vacate(self, id: usize) -> Self {
        ExecutorState {
            slots: self.slots.update(id as int, Slot::Vacant),
            queue: QueueState {
                producers: (self.queue.producers - 1) as nat,
                ..self.queue
            },
            ..self
        }
    }

    /// What asking for the computation of task `id` yields.
    pub open spec fn begin_result(self, id: usize) -> Result<Option<C>, ExecutorError> {
        match self.slot(id) {
            Slot::Holding(c) => Ok(Some(c)),
            Slot::Busy => Err(ExecutorError::SlotBusy),
            Slot::Vacant => Ok(None),
        }
    }

    /// The state after the computation of task `id` has been asked for.
    pub open spec fn begin(self, id: usize) -> Self {
        match self.slot(id) {
            Slot::Holding(c) => ExecutorState {
                slots: self.slots.update(id as int, Slot::Busy),
                ..self
            },
            _ => self,
        }
    }

    /// The state after a step in flight on task `id` has ended: the slot is
    /// vacated where the step completed, and takes `c` back where it did not.
    pub open spec fn end(self, id: usize, c: C, ready: bool) -> Self {
        if !(self.slot(id) is Busy) {
            self
        } else if ready {
            self.vacate(id)
        } else {
            ExecutorState { slots: self.slots.update(id as int, Slot::Holding(c)), ..self }
        }
    }

    /// What one attempt to step task `id` at `now` reports.
    pub open spec fn outcome(self, id: usize, now: u64) -> StepOutcome {
        match self.slot(id) {
            Slot::Holding(c) => if c.is_ready(now) {
                StepOutcome::Completed
            } else {
                StepOutcome::Suspended(
                    match c.wants_alarm(now) {
                        Some(deadline) => Some(
                            Alarm { handle: WakeHandle { task: id }, deadline },
                        ),
                        None => None,
                    },
                )
            },
            Slot::Busy => StepOutcome::Busy,
            Slot::Vacant => StepOutcome::Inert,
        }
    }

    /// The state after one attempt to step task `id` at `now`.
    pub open spec fn advance(self, id: usize, now: u64) -> Self {
        match self.slot(id) {
            Slot::Holding(c) => if c.is_ready(now) {
                self.vacate(id)
            } else {
                ExecutorState {
                    slots: self.slots.update(id as int, Slot::Holding(c.stepped(now))),
                    ..self
                }
            },
            _ => self,
        }
    }

    /// The state after the wake-up that task `id` asked for turned out to
    /// be impossible to arrange: a waiting computation is given up.
    pub open spec fn abandon(self, id: usize) -> Self {
        if self.slot(id) is Holding {
            self.vacate(id)
        } else {
            self
        }
    }

    /// The state after one turn of the loop at `now`.
    pub open spec fn step(self, now: u64) -> Self {
        match self.queue.front() {
            Received::Task(id) => self.pop().advance(id, now),
            Received::Empty => self,
            Received::Closed => self.shut_down(),
        }
    }

    /// What one turn of the loop at `now` reports.
    pub open spec fn step_report(self, now: u64) -> Step {
        match self.queue.front() {
            Received::Task(id) => Step::Advanced(id, self.outcome(id, now)),
            Received::Empty => Step::Idle,
            Received::Closed => Step::Finished,
        }
    }

    /// The state with the oldest queue entry taken off.
    pub open spec fn pop(self) -> Self {
        ExecutorState { queue: self.queue.receive(), ..self }
    }

    /// The state after the consumer has seen the end of the stream.
    pub open spec fn shut_down(self) -> Self {
        ExecutorState {
            queue: QueueState { items: Seq::empty(), consuming: false, ..self.queue },
            ..self
        }
    }

    /// The state after the loop has served, at `now`, everything that
    /// waits in the queue, and has shut down if the stream then ended.
    pub open spec fn drain(self, now: u64) -> Self
        decreases self.queue.items.len(),
    {
        if self.queue.items.len() == 0 {
            if self.queue.producers == 0 {
                self.shut_down()
            } else {
                self
            }
        } else {
            self.pop().advance(self.queue.items[0], now).drain(now)
        }
    }

    /// The tasks that complete while the queue is served at `now`, in the
    /// order in which they complete.
    pub open spec fn completed(self, now: u64) -> Seq<usize>
        decreases self.queue.items.len(),
    {
        if self.queue.items.len() == 0 {
            Seq::empty()
        } else {
            let id = self.queue.items[0];
            let rest = self.pop().advance(id, now).completed(now);
            if self.outcome(id, now) is Completed {
                seq![id] + rest
            } else {
                rest
            }
        }
    }

    /// The alarms asked for while the queue is served at `now`, in the order
    /// in which they are asked for.
    pub open spec fn alarms(self, now: u64) -> Seq<Alarm>
        decreases self.queue.items.len(),
    {
        if self.queue.items.len() == 0 {
            Seq::empty()
        } else {
            let id = self.queue.items[0];
            let rest = self.pop().advance(id, now).alarms(now);
            match self.outcome(id, now) {
                StepOutcome::Suspended(Some(alarm)) => seq![alarm] + rest,
                _ => rest,
            }
        }
    }

    /// Whether the loop is over: nothing waits and no producer is left.
    pub open spec fn finished(self) -> bool {
        self.queue.front() == Received::Closed
    }
}

} // verus!
