use coop_executor::computation::{Advance, Suspendable};
use coop_executor::executor::{Executor, RunStatus};
use coop_executor::handle::{Alarm, WakeHandle};

/// Suspends a fixed number of times, asking to be woken at once each time,
/// and then completes.
struct Countdown {
    left: u32,
}

impl Suspendable for Countdown {
    fn is_ready(&self, _now: u64) -> bool {
        self.left == 0
    }

    fn stepped(&self, _now: u64) -> Countdown {
        Countdown { left: self.left.saturating_sub(1) }
    }

    fn wants_alarm(&self, now: u64) -> Option<u64> {
        Some(now)
    }

    fn advance(&mut self, now: u64, waker: WakeHandle) -> Advance {
        if self.left == 0 {
            Advance::Ready
        } else {
            self.left -= 1;
            Advance::Suspended(Some(Alarm { handle: waker, deadline: now }))
        }
    }
}

#[test]
fn computations_of_the_caller_are_stepped_until_ready() {
    let mut e = Executor::new();
    e.spawn(Countdown { left: 2 });
    e.spawn(Countdown { left: 0 });
    e.spawn(Countdown { left: 1 });
    e.close();

    let first = e.run(0);
    assert_eq!(first.completed, vec![1]);
    assert_eq!(
        first.alarms,
        vec![
            Alarm { handle: WakeHandle::new(0), deadline: 0 },
            Alarm { handle: WakeHandle::new(2), deadline: 0 },
        ]
    );
    assert_eq!(first.status, RunStatus::Blocked);

    for alarm in &first.alarms {
        e.wake(alarm.handle);
    }
    let second = e.run(1);
    assert_eq!(second.completed, vec![2]);
    assert_eq!(second.alarms, vec![Alarm { handle: WakeHandle::new(0), deadline: 1 }]);

    e.wake(second.alarms[0].handle);
    let third = e.run(2);
    assert_eq!(third.completed, vec![0]);
    assert_eq!(third.status, RunStatus::Finished);
}
