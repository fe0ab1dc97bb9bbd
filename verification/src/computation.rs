//! The capability every schedulable computation offers: one step forward,
//! ending either in completion or in suspension.

use vstd::prelude::*;
use crate::handle::{Alarm, WakeHandle};

verus! {

/// What one step of a computation reports.
#[derive(Clone, Copy, Debug, PartialEq, Eq, Structural)]
pub enum Advance {
    /// The computation has finished.
    Ready,
    /// The computation is not ready yet. It may ask for its wake handle to
    /// be invoked at a deadline; without an alarm it relies on a wake that
    /// it arranged earlier.
    Suspended(Option<Alarm>),
}

/// A unit of work that can be driven forward one step at a time.
///
/// `is_ready`, `stepped` and `wants_alarm` describe a step taken at clock
/// value `now`; `advance` is the step itself and must agree with them. The
/// executor only ever calls `advance`.
pub trait Suspendable: Sized {
    /// Whether a step taken at `now` completes the computation.
    spec fn is_ready(&self, now: u64) -> bool;

    /// The computation after a step at `now` that did not complete it.
    spec fn stepped(&self, now: u64) -> Self;

    /// The deadline at which a suspending step at `now` asks to be woken,
    /// if it asks at all.
    spec fn wants_alarm(&self, now: u64) -> Option<u64>;

    /// Takes one step at clock value `now`. A suspending step may hand out
    /// `waker` in an alarm; it never hands out any other handle.
    fn advance(&mut self, now: u64, waker: WakeHandle) -> (r: Advance)
        ensures
            old(self).is_ready(now) ==> r == Advance::Ready,
            !old(self).is_ready(now) ==> *final(self) == old(self).stepped(now),
            !old(self).is_ready(now) ==> r == Advance::Suspended(
                match old(self).wants_alarm(now) {
                    Some(deadline) => Some(Alarm { handle: waker, deadline }),
                    None => None,
                },
            ),
    ;
}

} // verus!
