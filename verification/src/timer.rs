//! A timer: a computation that becomes ready once the clock reaches its
//! deadline and that asks for exactly one wake-up while it waits.

use vstd::prelude::*;
use crate::computation::{Advance, Suspendable};
use crate::handle::{Alarm, WakeHandle};

verus! {

/// The timer's state. `armed` records that the one alarm has been requested.
#[derive(Clone, Copy, Debug, PartialEq, Eq, Structural)]
pub enum Timer {
    Waiting { deadline: u64, armed: bool },
    Completed,
}

impl Timer {
    /// A timer that waits for the clock to reach `deadline`.
    pub fn new(deadline: u64) -> (t: Timer)
        ensures
            t == (Timer::Waiting { deadline, armed: false }),
    {
        Timer::Waiting { deadline, armed: false }
    }

    /// Whether the timer has observed its deadline.
    pub fn is_completed(&self) -> (b: bool)
        ensures
            b == (*self == Timer::Completed),
    {
        match self {
            Timer::Waiting { .. } => false,
            Timer::Completed => true,
        }
    }

    /// The value a completed timer hands out: `"done"`. A waiting timer has
    /// none.
    pub fn output(&self) -> (out: Option<&'static str>)
        ensures
            out == if *self == Timer::Completed {
                Some("done")
            } else {
                None::<&'static str>
            },
    {
        match self {
            Timer::Waiting { .. } => None,
            Timer::Completed => Some("done"),
        }
    }

    /// Whether the timer has already asked for its alarm.
    pub fn is_armed(&self) -> (b: bool)
        ensures
            b == (self matches Timer::Waiting { armed: true, .. }),
    {
        match self {
            Timer::Waiting { armed, .. } => *armed,
            Timer::Completed => false,
        }
    }
}

impl Suspendable for Timer {
    open spec fn is_ready(&self, now: u64) -> bool {
        match *self {
            Timer::Waiting { deadline, .. } => now >= deadline,
            Timer::Completed => true,
        }
    }

    open spec fn stepped(&self, now: u64) -> Timer {
        match *self {
            Timer::Waiting { deadline, .. } => Timer::Waiting { deadline, armed: true },
            Timer::Completed => Timer::Completed,
        }
    }

    open spec fn wants_alarm(&self, now: u64) -> Option<u64> {
        match *self {
            Timer::Waiting { deadline, armed: false } => Some(deadline),
            _ => None,
        }
    }

    fn advance(&mut self, now: u64, waker: WakeHandle) -> (r: Advance)
        ensures
            final(self).is_ready(now) == old(self).is_ready(now),
            old(self).is_ready(now) ==> *final(self) == Timer::Completed,
    {
        match *self {
            Timer::Completed => Advance::Ready,
            Timer::Waiting { deadline, armed } => {
                if now >= deadline {
                    *self = Timer::Completed;
                    Advance::Ready
                } else if armed {
                    Advance::Suspended(None)
                } else {
                    *self = Timer::Waiting { deadline, armed: true };
                    Advance::Suspended(Some(Alarm { handle: waker, deadline }))
                }
            },
        }
    }
}

} // verus!
