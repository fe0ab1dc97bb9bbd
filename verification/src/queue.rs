//! The scheduler queue: an unbounded first-in first-out channel of task
//! identifiers with any number of producers and one consumer.

use vstd::prelude::*;
use std::collections::VecDeque;
use crate::error::ExecutorError;

verus! {

/// The queue as contracts see it.
pub struct QueueState {
    /// The identifiers waiting to be received, oldest first.
    pub items: Seq<usize>,
    /// How many producer endpoints exist.
    pub producers: nat,
    /// Whether the consumer still receives.
    pub consuming: bool,
}

impl QueueState {
    /// The queue after `task` has been offered to it.
    pub open spec fn send(self, task: usize) -> QueueState {
        if self.consuming {
            QueueState { items: self.items.push(task), ..self }
        } else {
            self
        }
    }

    /// What the consumer sees when it asks for the next item.
    pub open spec fn front(self) -> Received {
        if self.items.len() > 0 {
            Received::Task(self.items[0])
        } else if self.producers == 0 {
            Received::Closed
        } else {
            Received::Empty
        }
    }

    /// The queue after the consumer has asked for the next item.
    pub open spec fn receive(self) -> QueueState {
        if self.items.len() > 0 {
            QueueState { items: self.items.drop_first(), ..self }
        } else {
            self
        }
    }
}

/// What the consumer sees when it asks for the next item.
#[derive(Clone, Copy, Debug, PartialEq, Eq, Structural)]
pub enum Received {
    /// The oldest waiting task.
    Task(usize),
    /// Nothing is waiting, but a producer could still send: the consumer
    /// has to wait.
    Empty,
    /// Nothing is waiting and no producer is left: end of stream.
    Closed,
}

pub struct SchedulerQueue {
    ready: VecDeque<usize>,
    producers: usize,
    consuming: bool,
}

impl View for SchedulerQueue {
    type V = QueueState;

    closed spec fn view(&self) -> QueueState {
        QueueState {
            items: self.ready@,
            producers: self.producers as nat,
            consuming: self.consuming,
        }
    }
}

impl SchedulerQueue {
    /// An empty queue with its consumer and the creator's producer endpoint.
    pub fn new() -> (q: SchedulerQueue)
        ensures
            q@ == (QueueState { items: Seq::empty(), producers: 1, consuming: true }),
    {
        SchedulerQueue { ready: VecDeque::new(), producers: 1, consuming: true }
    }

    /// Clones a producer endpoint.
    pub fn add_producer(&mut self)
        requires
            old(self)@.producers < usize::MAX,
        ensures
            final(self)@ == (QueueState { producers: old(self)@.producers + 1, ..old(self)@ }),
    {
        self.producers = self.producers + 1;
    }

    /// Drops a producer endpoint, if one is left.
    pub fn drop_producer(&mut self)
        ensures
            final(self)@ == (QueueState {
                producers: if old(self)@.producers > 0 {
                    (old(self)@.producers - 1) as nat
                } else {
                    0
                },
                ..old(self)@
            }),
    {
        if self.producers > 0 {
            self.producers = self.producers - 1;
        }
    }

    /// Appends `task`. Never waits; fails only once the consumer is gone,
    /// and then changes nothing.
    pub fn send(&mut self, task: usize) -> (r: Result<(), ExecutorError>)
        ensures
            final(self)@ == old(self)@.send(task),
            r == if old(self)@.consuming {
                Ok::<(), ExecutorError>(())
            } else {
                Err::<(), ExecutorError>(ExecutorError::QueueClosed)
            },
    {
        if self.consuming {
            self.ready.push_back(task);
            Ok(())
        } else {
            Err(ExecutorError::QueueClosed)
        }
    }

    /// Takes the oldest waiting task, or says why there is none.
    pub fn receive(&mut self) -> (r: Received)
        ensures
            r == old(self)@.front(),
            final(self)@ == old(self)@.receive(),
    {
        match self.ready.pop_front() {
            Some(task) => Received::Task(task),
            None => {
                if self.producers == 0 {
                    Received::Closed
                } else {
                    Received::Empty
                }
            },
        }
    }

    /// The consumer stops receiving; what still waits is discarded.
    pub fn shut_down(&mut self)
        ensures
            final(self)@ == (QueueState {
                items: Seq::empty(),
                consuming: false,
                ..old(self)@
            }),
    {
        self.ready.clear();
        self.consuming = false;
    }

    /// How many tasks wait.
    pub fn len(&self) -> (n: usize)
        ensures
            n == self@.items.len(),
    {
        self.ready.len()
    }

    /// How many producer endpoints exist.
    pub fn producers(&self) -> (n: usize)
        ensures
            n == self@.producers,
    {
        self.producers
    }

    /// Whether the consumer still receives.
    pub fn is_consuming(&self) -> (b: bool)
        ensures
            b == self@.consuming,
    {
        self.consuming
    }
}

} // verus!
