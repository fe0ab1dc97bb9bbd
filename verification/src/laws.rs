//! What holds of the executor whatever is spawned on it and however it is
//! driven, proved over the state functions that the operations' contracts
//! are stated in.

use vstd::prelude::*;
use crate::computation::Suspendable;
use crate::error::ExecutorError;
use crate::handle::{Alarm, WakeHandle};
use crate::model::{lemma_live_bounds, lemma_live_update, ExecutorState, Slot, StepOutcome};
use crate::queue::QueueState;
use crate::timer::Timer;

verus! {

/// The state after `handle` has been invoked `times` times in a row.
pub open spec fn wakes<C: Suspendable>(
    s: ExecutorState<C>,
    handle: WakeHandle,
    times: nat,
) -> ExecutorState<C>
    decreases times,
{
    if times == 0 {
        s
    } else {
        wakes(s, handle, (times - 1) as nat).wake(handle)
    }
}

/// Repeated wakes touch nothing but the queue's entries, to which they
/// append the handle's task once per wake while the consumer receives.
pub proof fn lemma_wakes_only_enqueue<C: Suspendable>(
    s: ExecutorState<C>,
    handle: WakeHandle,
    times: nat,
)
    ensures
        wakes(s, handle, times) == (ExecutorState {
            queue: QueueState {
                items: if s.queue.consuming {
                    s.queue.items + Seq::new(times, |i: int| handle.task)
                } else {
                    s.queue.items
                },
                ..s.queue
            },
            ..s
        }),
    decreases times,
{
    if times == 0 {
        assert(s.queue.items + Seq::new(0, |i: int| handle.task) =~= s.queue.items);
    } else {
        let fewer = (times - 1) as nat;
        lemma_wakes_only_enqueue(s, handle, fewer);
        assert((s.queue.items + Seq::new(fewer, |i: int| handle.task)).push(handle.task)
            =~= s.queue.items + Seq::new(times, |i: int| handle.task));
    }
}

/// Stepping a task keeps the books in order, and so does taking the
/// oldest entry off the queue.
pub proof fn lemma_advance_keeps_wf<C: Suspendable>(s: ExecutorState<C>, id: usize, now: u64)
    requires
        s.wf(),
    ensures
        s.advance(id, now).wf(),
        s.pop().wf(),
{
    if id < s.slots.len() {
        match s.slots[id as int] {
            Slot::Holding(c) => {
                if c.is_ready(now) {
                    lemma_live_update(s.slots, id as int, Slot::Vacant);
                } else {
                    lemma_live_update(s.slots, id as int, Slot::Holding(c.stepped(now)));
                }
            },
            _ => {},
        }
    }
}

/// Serving the queue keeps the books in order, leaves no entry behind and
/// does not touch the spawn endpoint. The consumer shuts down exactly when
/// the spawn endpoint is gone and every task's slot is vacant.
pub proof fn lemma_drain_ends<C: Suspendable>(s: ExecutorState<C>, now: u64)
    requires
        s.wf(),
    ensures
        s.drain(now).wf(),
        s.drain(now).queue.items.len() == 0,
        s.drain(now).open == s.open,
        s.drain(now).slots.len() == s.slots.len(),
        !s.drain(now).queue.consuming <==> (!s.open && forall|i: int|
            0 <= i < s.drain(now).slots.len() ==> s.drain(now).slots[i] is Vacant),
    decreases s.queue.items.len(),
{
    if s.queue.items.len() == 0 {
        lemma_live_bounds(s.slots);
    } else {
        let next = s.pop().advance(s.queue.items[0], now);
        lemma_advance_keeps_wf(s.pop(), s.queue.items[0], now);
        lemma_drain_ends(next, now);
    }
}

/// A slot without a waiting computation is left as it is while the queue
/// is served: a vacant slot stays vacant, and a busy slot stays busy.
pub proof fn lemma_idle_slot_stays<C: Suspendable>(s: ExecutorState<C>, id: usize, now: u64)
    requires
        !(s.slot(id) is Holding),
    ensures
        s.drain(now).slot(id) == s.slot(id),
    decreases s.queue.items.len(),
{
    if s.queue.items.len() > 0 {
        lemma_idle_slot_stays(s.pop().advance(s.queue.items[0], now), id, now);
    }
}

/// Wakes of a task whose slot holds no waiting computation are served as
/// no-ops: with or without them the same tasks complete, the same alarms
/// are asked for, and the loop ends in the same state.
pub proof fn lemma_wakes_of_idle_task<C: Suspendable>(
    s: ExecutorState<C>,
    handle: WakeHandle,
    times: nat,
    now: u64,
)
    requires
        !(s.slot(handle.task) is Holding),
    ensures
        wakes(s, handle, times).drain(now) == s.drain(now),
        wakes(s, handle, times).completed(now) == s.completed(now),
        wakes(s, handle, times).alarms(now) == s.alarms(now),
    decreases s.queue.items.len(), times,
{
    let w = wakes(s, handle, times);
    let copies = Seq::new(times, |i: int| handle.task);
    lemma_wakes_only_enqueue(s, handle, times);
    if !s.queue.consuming {
        assert(w == s);
    } else if s.queue.items.len() > 0 {
        let id = s.queue.items[0];
        let next = s.pop().advance(id, now);
        lemma_wakes_only_enqueue(next, handle, times);
        assert((s.queue.items + copies).drop_first() =~= s.queue.items.drop_first() + copies);
        assert(w.pop().advance(id, now) == wakes(next, handle, times));
        lemma_wakes_of_idle_task(next, handle, times, now);
    } else if times == 0 {
        assert(s.queue.items + copies =~= s.queue.items);
    } else {
        let fewer = (times - 1) as nat;
        lemma_wakes_only_enqueue(s, handle, fewer);
        assert((s.queue.items + copies).drop_first() =~= s.queue.items + Seq::new(
            fewer,
            |i: int| handle.task,
        ));
        assert(w.pop().advance(handle.task, now) == wakes(s, handle, fewer));
        lemma_wakes_of_idle_task(s, handle, fewer, now);
    }
}

/// Late wakes are harmless. Once a task has completed, invoking its wake
/// handle any number of times makes no task complete that would not have
/// completed anyway, asks for no alarm, and leaves the task's slot vacant.
pub proof fn lemma_late_wakes_are_inert<C: Suspendable>(
    s: ExecutorState<C>,
    handle: WakeHandle,
    times: nat,
    now: u64,
)
    requires
        s.slot(handle.task) is Vacant,
    ensures
        wakes(s, handle, times).slots == s.slots,
        wakes(s, handle, times).outcome(handle.task, now) == StepOutcome::Inert,
        wakes(s, handle, times).advance(handle.task, now) == wakes(s, handle, times),
        wakes(s, handle, times).completed(now) == s.completed(now),
        wakes(s, handle, times).alarms(now) == s.alarms(now),
        wakes(s, handle, times).drain(now) == s.drain(now),
        s.drain(now).slot(handle.task) is Vacant,
{
    lemma_wakes_only_enqueue(s, handle, times);
    lemma_wakes_of_idle_task(s, handle, times, now);
    lemma_idle_slot_stays(s, handle.task, now);
}

/// Wakes cannot start a second step. While a step is in flight on a task,
/// any number of wakes of that task leave every slot untouched; a further
/// request for its computation is refused as busy; and serving the queue
/// neither steps the task nor frees its slot.
pub proof fn lemma_wakes_during_step<C: Suspendable>(
    s: ExecutorState<C>,
    handle: WakeHandle,
    times: nat,
    now: u64,
)
    requires
        s.slot(handle.task) is Busy,
    ensures
        wakes(s, handle, times).slots == s.slots,
        wakes(s, handle, times).begin_result(handle.task) == Err::<Option<C>, ExecutorError>(
            ExecutorError::SlotBusy,
        ),
        wakes(s, handle, times).begin(handle.task) == wakes(s, handle, times),
        wakes(s, handle, times).outcome(handle.task, now) == StepOutcome::Busy,
        wakes(s, handle, times).completed(now) == s.completed(now),
        wakes(s, handle, times).alarms(now) == s.alarms(now),
        wakes(s, handle, times).drain(now).slot(handle.task) is Busy,
{
    lemma_wakes_only_enqueue(s, handle, times);
    lemma_wakes_of_idle_task(s, handle, times, now);
    lemma_idle_slot_stays(s, handle.task, now);
}

/// Whether the computation of task `id` waits in its slot and would
/// complete if stepped at `now`.
pub open spec fn ready_to_complete<C: Suspendable>(
    s: ExecutorState<C>,
    id: usize,
    now: u64,
) -> bool {
    s.slot(id) is Holding && s.slot(id)->Holding_0.is_ready(now)
}

/// First in, first out. Where every queue entry names a different task
/// and each of these would complete if stepped, serving the queue completes
/// them in queue order, all of them and no others, and asks for no alarm.
pub proof fn lemma_ready_tasks_complete_in_queue_order<C: Suspendable>(
    s: ExecutorState<C>,
    now: u64,
)
    requires
        s.queue.items.no_duplicates(),
        forall|i: int|
            0 <= i < s.queue.items.len() ==> ready_to_complete(s, #[trigger] s.queue.items[i], now),
    ensures
        s.completed(now) == s.queue.items,
        s.alarms(now) == Seq::<Alarm>::empty(),
        forall|i: int|
            0 <= i < s.queue.items.len() ==> s.drain(now).slot(
                #[trigger] s.queue.items[i],
            ) is Vacant,
        forall|id: usize| !s.queue.items.contains(id) ==> s.drain(now).slot(id) == s.slot(id),
    decreases s.queue.items.len(),
{
    let items = s.queue.items;
    if items.len() == 0 {
        assert(s.completed(now) =~= items);
    } else {
        let id = items[0];
        let next = s.pop().advance(id, now);
        assert(ready_to_complete(s, items[0], now));
        assert(next.queue.items =~= items.drop_first());
        assert forall|i: int| 0 <= i < next.queue.items.len() implies ready_to_complete(
            next,
            #[trigger] next.queue.items[i],
            now,
        ) by {
            assert(next.queue.items[i] == items[i + 1]);
            assert(ready_to_complete(s, items[i + 1], now));
            assert(items[i + 1] != items[0]);
        }
        lemma_ready_tasks_complete_in_queue_order(next, now);
        assert(s.completed(now) =~= items);
        lemma_idle_slot_stays(next, id, now);
        assert forall|i: int| 0 <= i < items.len() implies s.drain(now).slot(
            #[trigger] items[i],
        ) is Vacant by {
            if i > 0 {
                assert(next.queue.items[i - 1] == items[i]);
            }
        }
        assert forall|other: usize| !items.contains(other) implies s.drain(now).slot(other)
            == s.slot(other) by {
            assert(items[0] == id);
            assert(other != id);
            if next.queue.items.contains(other) {
                let j = choose|j: int|
                    0 <= j < next.queue.items.len() && next.queue.items[j] == other;
                assert(items[j + 1] == other);
                assert(items.contains(other));
            }
            assert(next.slot(other) == s.slot(other));
        }
    }
}

/// The loop ends. Where the spawn endpoint is gone, every task that has
/// not completed waits in the queue exactly once and would complete if
/// stepped, serving the queue completes them all and shuts the consumer
/// down.
pub proof fn lemma_loop_ends_when_all_complete<C: Suspendable>(s: ExecutorState<C>, now: u64)
    requires
        s.wf(),
        !s.open,
        s.queue.items.no_duplicates(),
        forall|i: int|
            0 <= i < s.queue.items.len() ==> ready_to_complete(s, #[trigger] s.queue.items[i], now),
        forall|id: usize| !s.queue.items.contains(id) ==> s.slot(id) is Vacant,
    ensures
        !s.drain(now).queue.consuming,
        s.drain(now).finished(),
        s.completed(now) == s.queue.items,
{
    lemma_ready_tasks_complete_in_queue_order(s, now);
    lemma_drain_ends(s, now);
    let end = s.drain(now);
    assert forall|i: int| 0 <= i < end.slots.len() implies end.slots[i] is Vacant by {
        let id = i as usize;
        assert(end.slot(id) == end.slots[i]);
        if s.queue.items.contains(id) {
            let j = choose|j: int| 0 <= j < s.queue.items.len() && s.queue.items[j] == id;
            assert(end.slot(s.queue.items[j]) is Vacant);
        }
    }
}

/// The number of alarms a computation asks for over its lifetime, when it
/// is stepped at the clock values `nows` in turn. Its lifetime ends with
/// the first step that completes it.
pub open spec fn alarm_count<C: Suspendable>(c: C, nows: Seq<u64>) -> nat
    decreases nows.len(),
{
    if nows.len() == 0 || c.is_ready(nows[0]) {
        0
    } else {
        alarm_count(c.stepped(nows[0]), nows.drop_first()) + if c.wants_alarm(nows[0]) is Some {
            1nat
        } else {
            0nat
        }
    }
}

/// A timer that has asked for its alarm never asks again.
pub proof fn lemma_armed_timer_stays_silent(deadline: u64, nows: Seq<u64>)
    ensures
        alarm_count(Timer::Waiting { deadline, armed: true }, nows) == 0,
    decreases nows.len(),
{
    if nows.len() > 0 && nows[0] < deadline {
        lemma_armed_timer_stays_silent(deadline, nows.drop_first());
    }
}

/// At most one alarm per timer. However often a timer is stepped before
/// its deadline, it asks for one alarm in all: on its first step, if that
/// step comes before the deadline, and never otherwise.
pub proof fn lemma_timer_asks_for_one_alarm(deadline: u64, nows: Seq<u64>)
    ensures
        alarm_count(Timer::Waiting { deadline, armed: false }, nows) == if nows.len() > 0
            && nows[0] < deadline {
            1nat
        } else {
            0nat
        },
        alarm_count(Timer::Waiting { deadline, armed: false }, nows) <= 1,
{
    if nows.len() > 0 && nows[0] < deadline {
        lemma_armed_timer_stays_silent(deadline, nows.drop_first());
    }
}

/// A timer is never early. A waiting timer's task, served before its
/// deadline, does not complete: it stays in its slot, armed, and the only
/// alarm it can have asked for is its first, for its own handle and its
/// own deadline. The loop then waits instead of ending.
pub proof fn lemma_timer_task_waits(
    s: ExecutorState<Timer>,
    id: usize,
    deadline: u64,
    armed: bool,
    now: u64,
)
    requires
        s.wf(),
        s.queue.items == seq![id],
        s.slot(id) == Slot::Holding(Timer::Waiting { deadline, armed }),
        now < deadline,
    ensures
        s.completed(now) == Seq::<usize>::empty(),
        s.alarms(now) == if armed {
            Seq::<Alarm>::empty()
        } else {
            seq![Alarm { handle: WakeHandle { task: id }, deadline }]
        },
        s.drain(now).slot(id) == Slot::Holding(Timer::Waiting { deadline, armed: true }),
        s.drain(now).queue.consuming,
        s.drain(now).queue.items.len() == 0,
        s.drain(now).wf(),
{
    let next = s.pop().advance(id, now);
    assert(next.queue.items =~= Seq::<usize>::empty());
    assert(next.completed(now) =~= Seq::<usize>::empty());
    assert(next.alarms(now) =~= Seq::<Alarm>::empty());
    lemma_advance_keeps_wf(s.pop(), id, now);
    lemma_live_bounds(next.slots);
    assert(next.slots[id as int] is Holding);
    assert(next.drain(now) == next);
    assert(s.drain(now) == next);
    if !armed {
        assert(s.alarms(now) =~= seq![Alarm { handle: WakeHandle { task: id }, deadline }]);
    }
}

/// No missed wake-up. Once a waiting timer's task has been woken and is
/// served at or after its deadline, it completes, whether or not it was
/// ever stepped before.
pub proof fn lemma_timer_task_completes(
    s: ExecutorState<Timer>,
    id: usize,
    deadline: u64,
    armed: bool,
    now: u64,
)
    requires
        s.wf(),
        s.queue.items.len() == 0,
        s.slot(id) == Slot::Holding(Timer::Waiting { deadline, armed }),
        now >= deadline,
    ensures
        s.wake(WakeHandle { task: id }).completed(now) == seq![id],
        s.wake(WakeHandle { task: id }).alarms(now) == Seq::<Alarm>::empty(),
        s.wake(WakeHandle { task: id }).drain(now).slot(id) is Vacant,
{
    let woken = s.wake(WakeHandle { task: id });
    lemma_live_bounds(s.slots);
    assert(s.slots[id as int] is Holding);
    assert(s.queue.consuming);
    assert(woken.queue.items =~= seq![id]);
    let next = woken.pop().advance(id, now);
    assert(next.queue.items =~= Seq::<usize>::empty());
    assert(next.completed(now) =~= Seq::<usize>::empty());
    assert(next.alarms(now) =~= Seq::<Alarm>::empty());
    assert(woken.completed(now) =~= seq![id]);
    lemma_idle_slot_stays(next, id, now);
}

} // verus!
