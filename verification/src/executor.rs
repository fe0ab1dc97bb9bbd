//! The executor: it owns the task slots and the scheduler queue, and steps
//! the tasks it receives, one at a time, until the stream ends.

use vstd::prelude::*;
use crate::computation::{Advance, Suspendable};
use crate::error::ExecutorError;
use crate::handle::{Alarm, WakeHandle};
use crate::model::{
    lemma_live_bounds, lemma_live_push, lemma_live_update, live, ExecutorState, Slot, Step, StepOutcome,
    TaskFailure,
};
use crate::queue::{Received, SchedulerQueue};

verus! {

/// How a run of the loop ended.
#[derive(Clone, Copy, Debug, PartialEq, Eq, Structural)]
pub enum RunStatus {
    /// The stream ended: the spawn endpoint is gone and every task has
    /// completed. The consumer has shut down.
    Finished,
    /// Nothing waits, but a task could still be woken or spawned: the loop
    /// has to wait for that before it can go on.
    Blocked,
}

/// What a run of the loop did.
pub struct RunReport {
    pub status: RunStatus,
    /// The tasks that completed, in the order in which they completed.
    pub completed: Vec<usize>,
    /// The alarms that were asked for, in the order in which they were
    /// asked for.
    pub alarms: Vec<Alarm>,
}

pub struct Executor<C: Suspendable> {
    tasks: Vec<Slot<C>>,
    queue: SchedulerQueue,
    open: bool,
}

impl<C: Suspendable> View for Executor<C> {
    type V = ExecutorState<C>;

    closed spec fn view(&self) -> ExecutorState<C> {
        ExecutorState { slots: self.tasks@, queue: self.queue@, open: self.open }
    }
}

impl<C: Suspendable> Executor<C> {
    /// Whether the executor's books are in order. Every operation keeps it.
    pub open spec fn wf(&self) -> bool {
        self@.wf()
    }

    /// An executor without tasks, holding its spawn endpoint.
    pub fn new() -> (e: Executor<C>)
        ensures
            e.wf(),
            e@ == ExecutorState::<C>::initial(),
    {
        let e = Executor { tasks: Vec::new(), queue: SchedulerQueue::new(), open: true };
        assert(e@.slots =~= Seq::empty());
        e
    }

    /// Wraps `computation` in a new task and enqueues it once. After
    /// `close` the computation is dropped instead.
    pub fn spawn(&mut self, computation: C)
        requires
            old(self).wf(),
            old(self)@.slots.len() + 1 < usize::MAX,
        ensures
            final(self).wf(),
            final(self)@ == old(self)@.spawn(computation),
    {
        if self.open {
            let id = self.tasks.len();
            proof {
                lemma_live_bounds(self@.slots);
                lemma_live_push(self@.slots, Slot::Holding(computation));
            }
            self.tasks.push(Slot::Holding(computation));
            self.queue.add_producer();
            let _ = self.queue.send(id);
        }
    }

    /// Drops the executor's own spawn endpoint: no task can join any more.
    pub fn close(&mut self)
        requires
            old(self).wf(),
        ensures
            final(self).wf(),
            final(self)@ == old(self)@.close(),
    {
        if self.open {
            self.queue.drop_producer();
            self.open = false;
        }
    }

    /// Invokes `handle`: its task is enqueued once more. Once the loop has
    /// shut down this does nothing. The task slots are never touched.
    pub fn wake(&mut self, handle: WakeHandle)
        requires
            old(self).wf(),
        ensures
            final(self).wf(),
            final(self)@ == old(self)@.wake(handle),
    {
        let _ = self.queue.send(handle.task);
    }

    /// Asks for exclusive access to the computation of task `id`, without
    /// waiting. Where the slot holds a computation it is handed out and the
    /// slot is marked busy until `end_advance`; a busy slot is refused; a
    /// vacant slot, or an unknown task, yields nothing.
    pub fn begin_advance(&mut self, id: usize) -> (r: Result<Option<C>, ExecutorError>)
        requires
            old(self).wf(),
        ensures
            final(self).wf(),
            r == old(self)@.begin_result(id),
            final(self)@ == old(self)@.begin(id),
    {
        if id >= self.tasks.len() {
            return Ok(None);
        }
        match &self.tasks[id] {
            Slot::Busy => Err(ExecutorError::SlotBusy),
            Slot::Vacant => Ok(None),
            Slot::Holding(_) => {
                proof {
                    lemma_live_update(self@.slots, id as int, Slot::Busy);
                }
                let mut taken = Slot::Busy;
                core::mem::swap(&mut self.tasks[id], &mut taken);
                match taken {
                    Slot::Holding(c) => Ok(Some(c)),
                    _ => Ok(None),
                }
            },
        }
    }

    /// Ends the step in flight on task `id`. Where the step completed
    /// (`ready`), the slot is vacated and the task's producer endpoint is
    /// dropped; otherwise `computation` goes back into the slot. Without a
    /// step in flight nothing changes.
    pub fn end_advance(&mut self, id: usize, computation: C, ready: bool)
        requires
            old(self).wf(),
        ensures
            final(self).wf(),
            final(self)@ == old(self)@.end(id, computation, ready),
    {
        if id >= self.tasks.len() {
            return ;
        }
        match &self.tasks[id] {
            Slot::Busy => {
                if ready {
                    proof {
                        lemma_live_update(self@.slots, id as int, Slot::Vacant);
                    }
                    self.tasks[id] = Slot::Vacant;
                    self.queue.drop_producer();
                } else {
                    proof {
                        lemma_live_update(self@.slots, id as int, Slot::Holding(computation));
                    }
                    self.tasks[id] = Slot::Holding(computation);
                }
            },
            _ => {},
        }
    }

    /// Steps task `id` once at clock value `now`, with a fresh wake handle
    /// bound to it. A busy or vacant slot makes this a no-op.
    pub fn advance_once(&mut self, id: usize, now: u64) -> (r: StepOutcome)
        requires
            old(self).wf(),
        ensures
            final(self).wf(),
            r == old(self)@.outcome(id, now),
            final(self)@ == old(self)@.advance(id, now),
    {
        match self.begin_advance(id) {
            Err(_) => StepOutcome::Busy,
            Ok(None) => StepOutcome::Inert,
            Ok(Some(mut computation)) => {
                let ghost before = computation;
                let report = computation.advance(now, WakeHandle::new(id));
                match report {
                    Advance::Ready => {
                        self.end_advance(id, computation, true);
                        assert(self@.slots =~= old(self)@.vacate(id).slots);
                        StepOutcome::Completed
                    },
                    Advance::Suspended(alarm) => {
                        self.end_advance(id, computation, false);
                        assert(self@.slots =~= old(self)@.slots.update(
                            id as int,
                            Slot::Holding(before.stepped(now)),
                        ));
                        StepOutcome::Suspended(alarm)
                    },
                }
            },
        }
    }

    /// Gives up task `handle.task` because the wake-up it asked for could
    /// not be arranged: its computation can never become ready. Reports the
    /// failure where a waiting computation was given up.
    pub fn timer_spawn_failed(&mut self, handle: WakeHandle) -> (r: Option<TaskFailure>)
        requires
            old(self).wf(),
        ensures
            final(self).wf(),
            final(self)@ == old(self)@.abandon(handle.task),
            r == if old(self)@.slot(handle.task) is Holding {
                Some(TaskFailure { task: handle.task, error: ExecutorError::TimerSpawnFailed })
            } else {
                None::<TaskFailure>
            },
    {
        let id = handle.task;
        if id >= self.tasks.len() {
            return None;
        }
        match &self.tasks[id] {
            Slot::Holding(_) => {
                proof {
                    lemma_live_update(self@.slots, id as int, Slot::Vacant);
                }
                self.tasks[id] = Slot::Vacant;
                self.queue.drop_producer();
                Some(TaskFailure { task: id, error: ExecutorError::TimerSpawnFailed })
            },
            _ => None,
        }
    }

    /// One turn of the loop: receives the oldest waiting task and steps it
    /// once, or reports that the loop has to wait, or that it is over. When
    /// it is over the consumer shuts down.
    pub fn step(&mut self, now: u64) -> (r: Step)
        requires
            old(self).wf(),
        ensures
            final(self).wf(),
            r == old(self)@.step_report(now),
            final(self)@ == old(self)@.step(now),
    {
        match self.queue.receive() {
            Received::Task(id) => {
                let outcome = self.advance_once(id, now);
                Step::Advanced(id, outcome)
            },
            Received::Empty => {
                assert(self@.queue == old(self)@.queue);
                Step::Idle
            },
            Received::Closed => {
                self.queue.shut_down();
                Step::Finished
            },
        }
    }

    /// Runs the loop at clock value `now`: serves every task that waits, in
    /// queue order, one step each, until nothing waits. It then reports
    /// `Finished` if no producer is left, and `Blocked` if the loop has to
    /// wait for a wake or a spawn.
    pub fn run(&mut self, now: u64) -> (report: RunReport)
        requires
            old(self).wf(),
        ensures
            final(self).wf(),
            final(self)@ == old(self)@.drain(now),
            report.completed@ == old(self)@.completed(now),
            report.alarms@ == old(self)@.alarms(now),
            report.status == if final(self)@.queue.consuming {
                RunStatus::Blocked
            } else {
                RunStatus::Finished
            },
    {
        let ghost start = self@;
        let mut completed: Vec<usize> = Vec::new();
        let mut alarms: Vec<Alarm> = Vec::new();
        loop
            invariant
                self.wf(),
                start == old(self)@,
                self@.drain(now) == start.drain(now),
                completed@ + self@.completed(now) == start.completed(now),
                alarms@ + self@.alarms(now) == start.alarms(now),
            decreases self@.queue.items.len(),
        {
            let ghost before = self@;
            let ghost done = completed@;
            let ghost asked = alarms@;
            match self.step(now) {
                Step::Advanced(id, outcome) => {
                    match outcome {
                        StepOutcome::Completed => {
                            completed.push(id);
                            assert(completed@ + self@.completed(now) =~= done + before.completed(
                                now,
                            ));
                        },
                        StepOutcome::Suspended(Some(alarm)) => {
                            alarms.push(alarm);
                            assert(alarms@ + self@.alarms(now) =~= asked + before.alarms(now));
                        },
                        _ => {},
                    }
                },
                Step::Idle => {
                    assert(completed@ =~= start.completed(now));
                    assert(alarms@ =~= start.alarms(now));
                    return RunReport { status: RunStatus::Blocked, completed, alarms };
                },
                Step::Finished => {
                    assert(completed@ =~= start.completed(now));
                    assert(alarms@ =~= start.alarms(now));
                    return RunReport { status: RunStatus::Finished, completed, alarms };
                },
            }
        }
    }

    /// How many tasks have been spawned so far.
    pub fn task_count(&self) -> (n: usize)
        ensures
            n == self@.slots.len(),
    {
        self.tasks.len()
    }

    /// How many tasks have not completed yet.
    pub fn pending(&self) -> (n: usize)
        requires
            self.wf(),
        ensures
            n == live(self@.slots),
    {
        if self.open {
            self.queue.producers() - 1
        } else {
            self.queue.producers()
        }
    }

    /// How many queue entries wait to be served.
    pub fn queued(&self) -> (n: usize)
        ensures
            n == self@.queue.items.len(),
    {
        self.queue.len()
    }

    /// Whether the spawn endpoint still exists.
    pub fn is_open(&self) -> (b: bool)
        ensures
            b == self@.open,
    {
        self.open
    }

    /// Whether the loop has seen the end of the stream and shut down.
    pub fn has_shut_down(&self) -> (b: bool)
        ensures
            b == !self@.queue.consuming,
    {
        !self.queue.is_consuming()
    }

    /// Whether task `id` has completed or been given up. A task that was
    /// never spawned counts as completed.
    pub fn is_vacant(&self, id: usize) -> (b: bool)
        ensures
            b == (self@.slot(id) is Vacant),
    {
        if id >= self.tasks.len() {
            return true;
        }
        match &self.tasks[id] {
            Slot::Vacant => true,
            _ => false,
        }
    }

    /// Whether a step is in flight on task `id`.
    pub fn is_busy(&self, id: usize) -> (b: bool)
        ensures
            b == (self@.slot(id) is Busy),
    {
        if id >= self.tasks.len() {
            return false;
        }
        match &self.tasks[id] {
            Slot::Busy => true,
            _ => false,
        }
    }
}

} // verus!
