use coop_executor::error::ExecutorError;
use coop_executor::executor::{Executor, RunStatus};
use coop_executor::handle::{Alarm, WakeHandle};
use coop_executor::model::{Step, StepOutcome, TaskFailure};
use coop_executor::timer::Timer;

#[test]
fn new_executor_is_open_and_empty() {
    let e: Executor<Timer> = Executor::new();
    assert!(e.is_open());
    assert!(!e.has_shut_down());
    assert_eq!(e.task_count(), 0);
    assert_eq!(e.pending(), 0);
    assert_eq!(e.queued(), 0);
}

#[test]
fn spawn_enqueues_the_task_once() {
    let mut e = Executor::new();
    e.spawn(Timer::new(10));
    assert_eq!(e.task_count(), 1);
    assert_eq!(e.pending(), 1);
    assert_eq!(e.queued(), 1);
    assert!(!e.is_vacant(0));
    assert!(!e.is_busy(0));
}

#[test]
fn single_timer_task_with_ten_tick_deadline() {
    let mut e = Executor::new();
    e.spawn(Timer::new(10));
    e.close();

    let first = e.run(0);
    assert_eq!(first.status, RunStatus::Blocked);
    assert_eq!(first.completed, Vec::<usize>::new());
    assert_eq!(first.alarms, vec![Alarm { handle: WakeHandle::new(0), deadline: 10 }]);
    assert_eq!(e.pending(), 1);

    e.wake(first.alarms[0].handle);
    let second = e.run(10);
    assert_eq!(second.status, RunStatus::Finished);
    assert_eq!(second.completed, vec![0]);
    assert_eq!(second.alarms, Vec::<Alarm>::new());
    assert_eq!(e.pending(), 0);
    assert!(e.is_vacant(0));
    assert!(e.has_shut_down());
}

#[test]
fn spurious_wakes_before_the_deadline_raise_no_second_alarm() {
    let mut e = Executor::new();
    e.spawn(Timer::new(10));
    let first = e.run(1);
    assert_eq!(first.alarms.len(), 1);
    let h = first.alarms[0].handle;
    let mut alarms = first.alarms.len();
    for now in 2..9u64 {
        e.wake(h);
        let r = e.run(now);
        assert_eq!(r.status, RunStatus::Blocked);
        assert_eq!(r.completed, Vec::<usize>::new());
        alarms += r.alarms.len();
    }
    assert_eq!(alarms, 1);
    e.wake(h);
    let last = e.run(10);
    assert_eq!(last.completed, vec![0]);
    assert_eq!(alarms + last.alarms.len(), 1);
}

#[test]
fn timer_task_is_not_completed_before_its_deadline() {
    let mut e = Executor::new();
    e.spawn(Timer::new(10));
    e.close();
    let _ = e.run(0);
    e.wake(WakeHandle::new(0));
    let early = e.run(9);
    assert_eq!(early.status, RunStatus::Blocked);
    assert_eq!(early.completed, Vec::<usize>::new());
    assert!(!e.is_vacant(0));
    e.wake(WakeHandle::new(0));
    let on_time = e.run(10);
    assert_eq!(on_time.completed, vec![0]);
    assert_eq!(on_time.status, RunStatus::Finished);
}

#[test]
fn late_wakes_of_a_completed_task_do_nothing() {
    let mut e = Executor::new();
    e.spawn(Timer::new(0));
    let first = e.run(0);
    assert_eq!(first.completed, vec![0]);
    assert_eq!(first.status, RunStatus::Blocked);
    assert!(e.is_vacant(0));

    let h = WakeHandle::new(0);
    for _ in 0..5 {
        e.wake(h);
    }
    assert_eq!(e.queued(), 5);
    assert_eq!(e.advance_once(0, 3), StepOutcome::Inert);
    let again = e.run(3);
    assert_eq!(again.completed, Vec::<usize>::new());
    assert_eq!(again.alarms, Vec::<Alarm>::new());
    assert_eq!(again.status, RunStatus::Blocked);
    assert_eq!(e.pending(), 0);
    assert_eq!(e.queued(), 0);
    assert!(e.is_vacant(0));
}

#[test]
fn wake_after_shut_down_is_ignored() {
    let mut e = Executor::new();
    e.spawn(Timer::new(0));
    e.close();
    let r = e.run(0);
    assert_eq!(r.status, RunStatus::Finished);
    e.wake(WakeHandle::new(0));
    e.wake(WakeHandle::new(0));
    assert_eq!(e.queued(), 0);
    let again = e.run(1);
    assert_eq!(again.status, RunStatus::Finished);
    assert_eq!(again.completed, Vec::<usize>::new());
}

#[test]
fn ready_tasks_complete_in_spawn_order() {
    let mut e = Executor::new();
    for _ in 0..6 {
        e.spawn(Timer::new(0));
    }
    e.close();
    let r = e.run(0);
    assert_eq!(r.completed, vec![0, 1, 2, 3, 4, 5]);
    assert_eq!(r.alarms, Vec::<Alarm>::new());
    assert_eq!(r.status, RunStatus::Finished);
}

#[test]
fn woken_tasks_complete_in_wake_order() {
    let mut e = Executor::new();
    e.spawn(Timer::new(5));
    e.spawn(Timer::new(5));
    e.spawn(Timer::new(5));
    let first = e.run(0);
    assert_eq!(first.alarms.len(), 3);
    e.wake(WakeHandle::new(2));
    e.wake(WakeHandle::new(0));
    e.wake(WakeHandle::new(1));
    let second = e.run(5);
    assert_eq!(second.completed, vec![2, 0, 1]);
}

#[test]
fn duplicate_queue_entries_complete_a_task_once() {
    let mut e = Executor::new();
    e.spawn(Timer::new(0));
    e.wake(WakeHandle::new(0));
    e.wake(WakeHandle::new(0));
    assert_eq!(e.queued(), 3);
    let r = e.run(0);
    assert_eq!(r.completed, vec![0]);
    assert_eq!(e.queued(), 0);
}

#[test]
fn wakes_during_a_step_cannot_start_a_second_one() {
    let mut e = Executor::new();
    e.spawn(Timer::new(10));
    assert_eq!(e.step(0), Step::Advanced(0, StepOutcome::Suspended(Some(Alarm {
        handle: WakeHandle::new(0),
        deadline: 10,
    }))));

    let taken = e.begin_advance(0);
    assert_eq!(taken, Ok(Some(Timer::Waiting { deadline: 10, armed: true })));
    assert!(e.is_busy(0));

    for _ in 0..8 {
        e.wake(WakeHandle::new(0));
    }
    assert!(e.is_busy(0));
    assert_eq!(e.begin_advance(0), Err(ExecutorError::SlotBusy));
    assert_eq!(e.advance_once(0, 20), StepOutcome::Busy);
    let r = e.run(20);
    assert_eq!(r.completed, Vec::<usize>::new());
    assert_eq!(r.status, RunStatus::Blocked);
    assert!(e.is_busy(0));
    assert_eq!(e.pending(), 1);

    e.end_advance(0, taken.unwrap().unwrap(), false);
    assert!(!e.is_busy(0));
    assert!(!e.is_vacant(0));
    e.wake(WakeHandle::new(0));
    let done = e.run(20);
    assert_eq!(done.completed, vec![0]);
}

#[test]
fn end_advance_with_ready_vacates_the_slot() {
    let mut e = Executor::new();
    e.spawn(Timer::new(1));
    e.close();
    let taken = e.begin_advance(0).unwrap().unwrap();
    e.end_advance(0, taken, true);
    assert!(e.is_vacant(0));
    assert_eq!(e.pending(), 0);
    let r = e.run(0);
    assert_eq!(r.completed, Vec::<usize>::new());
    assert_eq!(r.status, RunStatus::Finished);
}

#[test]
fn end_advance_without_a_step_in_flight_changes_nothing() {
    let mut e = Executor::new();
    e.spawn(Timer::new(7));
    e.end_advance(0, Timer::new(99), true);
    assert!(!e.is_vacant(0));
    assert_eq!(e.pending(), 1);
    e.end_advance(5, Timer::new(99), false);
    assert_eq!(e.task_count(), 1);
    assert_eq!(e.begin_advance(0), Ok(Some(Timer::new(7))));
}

#[test]
fn begin_advance_on_vacant_or_unknown_task_yields_nothing() {
    let mut e = Executor::new();
    e.spawn(Timer::new(0));
    assert_eq!(e.advance_once(0, 0), StepOutcome::Completed);
    assert_eq!(e.begin_advance(0), Ok(None));
    assert_eq!(e.begin_advance(17), Ok(None));
    assert_eq!(e.advance_once(17, 0), StepOutcome::Inert);
}

#[test]
fn step_reports_idle_then_finished() {
    let mut e: Executor<Timer> = Executor::new();
    assert_eq!(e.step(0), Step::Idle);
    assert!(!e.has_shut_down());
    e.close();
    assert_eq!(e.step(0), Step::Finished);
    assert!(e.has_shut_down());
}

#[test]
fn step_serves_one_entry_at_a_time() {
    let mut e = Executor::new();
    e.spawn(Timer::new(0));
    e.spawn(Timer::new(3));
    assert_eq!(e.step(1), Step::Advanced(0, StepOutcome::Completed));
    assert_eq!(e.queued(), 1);
    assert_eq!(
        e.step(1),
        Step::Advanced(1, StepOutcome::Suspended(Some(Alarm { handle: WakeHandle::new(1), deadline: 3 })))
    );
    assert_eq!(e.step(1), Step::Idle);
    e.wake(WakeHandle::new(1));
    assert_eq!(e.step(2), Step::Advanced(1, StepOutcome::Suspended(None)));
}

#[test]
fn run_blocks_while_the_spawn_endpoint_exists() {
    let mut e = Executor::new();
    e.spawn(Timer::new(0));
    let r = e.run(0);
    assert_eq!(r.completed, vec![0]);
    assert_eq!(r.status, RunStatus::Blocked);
    e.close();
    assert!(!e.is_open());
    let r = e.run(0);
    assert_eq!(r.status, RunStatus::Finished);
}

#[test]
fn run_blocks_while_a_task_has_not_completed() {
    let mut e = Executor::new();
    e.spawn(Timer::new(0));
    e.spawn(Timer::new(50));
    e.close();
    let r = e.run(0);
    assert_eq!(r.completed, vec![0]);
    assert_eq!(r.status, RunStatus::Blocked);
    assert_eq!(e.pending(), 1);
    let r = e.run(60);
    assert_eq!(r.status, RunStatus::Blocked);
    assert_eq!(r.completed, Vec::<usize>::new());
}

#[test]
fn spawn_after_close_drops_the_computation() {
    let mut e = Executor::new();
    e.close();
    e.spawn(Timer::new(0));
    assert_eq!(e.task_count(), 0);
    assert_eq!(e.queued(), 0);
    assert_eq!(e.pending(), 0);
    assert_eq!(e.run(0).status, RunStatus::Finished);
}

#[test]
fn close_twice_is_close_once() {
    let mut e = Executor::new();
    e.spawn(Timer::new(4));
    e.close();
    e.close();
    assert_eq!(e.pending(), 1);
    assert!(!e.is_open());
}

#[test]
fn failed_timer_spawn_gives_the_task_up() {
    let mut e = Executor::new();
    e.spawn(Timer::new(10));
    e.close();
    let r = e.run(0);
    assert_eq!(r.status, RunStatus::Blocked);
    let h = r.alarms[0].handle;
    assert_eq!(
        e.timer_spawn_failed(h),
        Some(TaskFailure { task: 0, error: ExecutorError::TimerSpawnFailed })
    );
    assert!(e.is_vacant(0));
    assert_eq!(e.pending(), 0);
    assert_eq!(e.timer_spawn_failed(h), None);
    assert_eq!(e.timer_spawn_failed(WakeHandle::new(9)), None);
    let r = e.run(0);
    assert_eq!(r.status, RunStatus::Finished);
    assert_eq!(r.completed, Vec::<usize>::new());
}

#[test]
fn errors_describe_themselves() {
    assert_eq!(ExecutorError::QueueClosed.describe(), "scheduler queue closed");
    assert_eq!(ExecutorError::SlotBusy.describe(), "task slot busy");
    assert_eq!(ExecutorError::TimerSpawnFailed.describe(), "timer wake-up could not be arranged");
}
