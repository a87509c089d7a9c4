//! Laws of the runtime, each proved from the models that the contracts use.

use crate::channel::ChannelState;
use crate::error::SchedulerError;
use crate::executor::{ExecutorState, Step};
use crate::poll::{ResumptionToken, SimpleFuture};
use crate::task::{drives_to, DriveOutcome, TaskState};
use crate::timer::{TimerFuture, TimerState};
use vstd::prelude::*;

verus! {

/// Single driver: while a task's computation is out being driven, a second
/// attempt to drive the same task finds the slot empty, steps nothing and
/// leaves the slot empty. So no two drivers ever hold the computation of one
/// task at the same time.
pub proof fn lemma_single_driver<C: SimpleFuture<Output = ()>>(
    task: TaskState<C>,
    wake: ResumptionToken,
    next: Option<C>,
    outcome: DriveOutcome,
)
    requires
        drives_to(task.after_take().slot, wake, next, outcome),
    ensures
        task.after_take().slot is None,
        next is None,
        outcome == DriveOutcome::Inert,
{
}

/// Sends that fit are queued behind what was there, in the order in which
/// they were made.
pub proof fn lemma_sends_append(channel: ChannelState, tasks: Seq<usize>)
    requires
        channel.queue.len() + tasks.len() <= channel.capacity,
    ensures
        channel.after_sends(tasks) == (ChannelState {
            queue: channel.queue + tasks,
            ..channel
        }),
    decreases tasks.len(),
{
    if tasks.len() == 0 {
        assert(channel.queue + tasks =~= channel.queue);
    } else {
        lemma_sends_append(channel, tasks.drop_last());
        assert(channel.queue + tasks =~= (channel.queue + tasks.drop_last()).push(tasks.last()));
    }
}

/// Receives take the entries from the front, one by one.
pub proof fn lemma_recvs_skip(channel: ChannelState, count: nat)
    requires
        count <= channel.queue.len(),
    ensures
        channel.after_recvs(count) == (ChannelState {
            queue: channel.queue.skip(count as int),
            ..channel
        }),
    decreases count,
{
    if count == 0 {
        assert(channel.queue.skip(0) =~= channel.queue);
    } else {
        lemma_recvs_skip(channel, (count - 1) as nat);
        assert(channel.queue.skip(count as int) =~= channel.queue.skip(count - 1).drop_first());
    }
}

/// First in, first out: when `tasks` are sent to a channel that has room for
/// them, then, once everything queued before has been received, they are
/// received in the order in which they were sent.
pub proof fn lemma_fifo_admission(channel: ChannelState, tasks: Seq<usize>, place: int)
    requires
        channel.queue.len() + tasks.len() <= channel.capacity,
        0 <= place < tasks.len(),
    ensures
        channel.after_sends(tasks).after_recvs((channel.queue.len() + place) as nat).recv_result()
            == Ok::<usize, crate::channel::TryRecvError>(tasks[place]),
{
    lemma_sends_append(channel, tasks);
    lemma_recvs_skip(channel.after_sends(tasks), (channel.queue.len() + place) as nat);
}

/// Tasks spawned one after the other get consecutive identities and are
/// queued in the order of the spawns, so the executor, which always drives
/// the oldest entry, drives the first before the second and the second
/// before the third.
pub proof fn lemma_spawn_order<C: SimpleFuture<Output = ()>>(
    executor: ExecutorState<C>,
    a: C,
    b: C,
    c: C,
)
    requires
        executor.channel.queue.len() + 3 <= executor.channel.capacity,
        executor.slots.len() + 3 <= usize::MAX,
    ensures
        ({
            let first = executor.slots.len() as usize;
            let spawned = executor.after_spawn(a).after_spawn(b).after_spawn(c);
            &&& spawned.slots == executor.slots + seq![Some(a), Some(b), Some(c)]
            &&& spawned.channel.queue == executor.channel.queue + seq![
                first,
                (first + 1) as usize,
                (first + 2) as usize,
            ]
        }),
{
    let first = executor.slots.len() as usize;
    let spawned = executor.after_spawn(a).after_spawn(b).after_spawn(c);
    assert(spawned.slots =~= executor.slots + seq![Some(a), Some(b), Some(c)]);
    assert(spawned.channel.queue =~= executor.channel.queue + seq![
        first,
        (first + 1) as usize,
        (first + 2) as usize,
    ]);
}

/// A turn of the run loop drives the task whose entry is the oldest in the
/// channel, and leaves every other task as it is.
pub proof fn lemma_turn_drives_oldest<C: SimpleFuture<Output = ()>>(
    before: ExecutorState<C>,
    after: ExecutorState<C>,
    step: Step,
    other: int,
)
    requires
        before.valid(),
        before.channel.queue.len() > 0,
        before.turns_to(after, step),
        0 <= other < before.slots.len(),
        other != before.channel.queue[0],
    ensures
        step matches Step::Drove { task, .. } && task == before.channel.queue[0],
        after.channel.queue == before.channel.queue.drop_first(),
        after.slots[other] == before.slots[other],
{
}

/// Turns take the entries from the front of the channel: after as many turns
/// as fit, exactly that many of the oldest entries are gone, nothing has been
/// queued, and no task has been added or removed.
pub proof fn lemma_turns_consume_front<C: SimpleFuture<Output = ()>>(
    before: ExecutorState<C>,
    after: ExecutorState<C>,
    turns: nat,
)
    requires
        before.valid(),
        turns <= before.channel.queue.len(),
        before.runs_to(after, turns),
    ensures
        after.valid(),
        after.slots.len() == before.slots.len(),
        after.channel == (ChannelState {
            queue: before.channel.queue.skip(turns as int),
            ..before.channel
        }),
    decreases turns,
{
    if turns == 0 {
        assert(before.channel.queue.skip(0) =~= before.channel.queue);
    } else {
        let (middle, step) = choose|middle: ExecutorState<C>, step: Step|
            {
                &&& before.runs_to(middle, (turns - 1) as nat)
                &&& #[trigger] middle.turns_to(after, step)
                &&& step is Drove
            };
        lemma_turns_consume_front(before, middle, (turns - 1) as nat);
        assert(middle.channel.queue[0] == before.channel.queue[turns - 1]);
        assert(before.channel.queue.skip(turns as int) =~= middle.channel.queue.drop_first());
        assert forall|i: int| 0 <= i < after.channel.queue.len() implies (
        #[trigger] after.channel.queue[i]) < after.slots.len() by {
            assert(after.channel.queue[i] == middle.channel.queue[i + 1]);
        }
    }
}

/// First in, first out at the executor: the entry at place `turns` in the
/// channel is the one driven by the turn that follows `turns` earlier turns.
pub proof fn lemma_turn_order<C: SimpleFuture<Output = ()>>(
    before: ExecutorState<C>,
    middle: ExecutorState<C>,
    after: ExecutorState<C>,
    step: Step,
    turns: nat,
)
    requires
        before.valid(),
        turns < before.channel.queue.len(),
        before.runs_to(middle, turns),
        middle.turns_to(after, step),
    ensures
        step matches Step::Drove { task, .. } && task == before.channel.queue[turns as int],
{
    lemma_turns_consume_front(before, middle, turns);
}

/// Wake correctness at the executor: once a token has been invoked, its task
/// is driven by the turn that follows as many turns as the channel held
/// entries at the time, and not later.
pub proof fn lemma_woken_task_is_driven<C: SimpleFuture<Output = ()>>(
    before: ExecutorState<C>,
    token: ResumptionToken,
    middle: ExecutorState<C>,
    after: ExecutorState<C>,
    step: Step,
)
    requires
        before.valid(),
        before.knows(token),
        !before.channel.is_full(),
        before.after_wake(token).runs_to(middle, before.channel.queue.len()),
        middle.turns_to(after, step),
    ensures
        step matches Step::Drove { task, .. } && task == token.task,
{
    let woken = before.after_wake(token);
    assert forall|i: int| 0 <= i < woken.channel.queue.len() implies (
    #[trigger] woken.channel.queue[i]) < woken.slots.len() by {
        if i < before.channel.queue.len() {
            assert(woken.channel.queue[i] == before.channel.queue[i]);
        }
    }
    lemma_turn_order(woken, middle, after, step, before.channel.queue.len());
}

/// Idempotent wake: invoking the token of a task that has completed touches
/// no slot, and when the executor comes to the entry it steps nothing, leaves
/// every slot as it is and merely discards the entry.
pub proof fn lemma_idempotent_wake<C: SimpleFuture<Output = ()>>(
    before: ExecutorState<C>,
    token: ResumptionToken,
    after: ExecutorState<C>,
    step: Step,
)
    requires
        before.valid(),
        before.knows(token),
        before.slots[token.task as int] is None,
        before.channel.queue.len() > 0,
        before.channel.queue[0] == token.task,
        before.turns_to(after, step),
    ensures
        before.after_wake(token).slots == before.slots,
        step == (Step::Drove { task: token.task, outcome: DriveOutcome::Inert }),
        after.slots == before.slots,
        after.channel == before.channel.after_recv(),
{
    assert(after.slots =~= before.slots);
}

/// Invoking a token once queues its task exactly once, behind everything
/// queued before, so the task is driven again after at most as many turns as
/// the channel held entries.
pub proof fn lemma_wake_admits_once<C>(executor: ExecutorState<C>, token: ResumptionToken)
    requires
        executor.knows(token),
        !executor.channel.is_full(),
    ensures
        executor.wake_result(token) == Ok::<(), SchedulerError>(()),
        executor.after_wake(token).slots == executor.slots,
        executor.after_wake(token).channel.queue == executor.channel.queue.push(token.task),
        executor.after_wake(token).channel.queue.to_multiset().count(token.task)
            == executor.channel.queue.to_multiset().count(token.task) + 1,
{
    vstd::seq_lib::to_multiset_build(executor.channel.queue, token.task);
}

/// Wake correctness for timers: a timer that is stepped before it has fired
/// is pending and records the token; when it fires, exactly that token is
/// handed out, and the very next step is ready.
pub proof fn lemma_timer_wake(timer: TimerState, wake: ResumptionToken, again: ResumptionToken)
    requires
        !timer.completed,
    ensures
        timer.poll_result() is Pending,
        timer.after_poll(wake).token == Some(wake),
        timer.after_poll(wake).after_complete().poll_result() is Ready,
        timer.after_poll(wake).after_complete().after_poll(again) == timer.after_poll(
            wake,
        ).after_complete(),
{
}

/// A task that waits for a timer completes with the first drive after the
/// timer has fired.
pub proof fn lemma_fired_timer_completes(
    timer: TimerFuture,
    wake: ResumptionToken,
    next: Option<TimerFuture>,
    outcome: DriveOutcome,
)
    requires
        timer@.completed,
        drives_to(Some(timer), wake, next, outcome),
    ensures
        next is None,
        outcome == DriveOutcome::Completed,
{
}

/// Wake correctness from end to end: when a timer has fired and the token of
/// the task that waits for it has been invoked on an executor with nothing
/// else ready, a single turn completes the task.
pub proof fn lemma_woken_timer_task_completes(
    before: ExecutorState<TimerFuture>,
    token: ResumptionToken,
    after: ExecutorState<TimerFuture>,
    step: Step,
)
    requires
        before.valid(),
        before.knows(token),
        before.channel.queue.len() == 0,
        before.channel.capacity > 0,
        before.slots[token.task as int] matches Some(timer) && timer@.completed,
        before.after_wake(token).turns_to(after, step),
    ensures
        step == (Step::Drove { task: token.task, outcome: DriveOutcome::Completed }),
        after.slots[token.task as int] is None,
        after.channel.queue.len() == 0,
{
    let woken = before.after_wake(token);
    assert(woken.channel.queue[0] == token.task);
    lemma_fired_timer_completes(
        before.slots[token.task as int]->0,
        token,
        after.slots[token.task as int],
        step->outcome,
    );
}

/// Timer semantics: however often a timer is stepped before it has fired,
/// every such step is pending; once it has fired, a step is ready at once,
/// whether or not the timer was ever stepped before, and records nothing.
pub proof fn lemma_timer_semantics(wakes: Seq<ResumptionToken>, wake: ResumptionToken)
    ensures
        !TimerState::fresh().after_polls(wakes).completed,
        TimerState::fresh().after_polls(wakes).poll_result() is Pending,
        TimerState::fresh().after_polls(wakes).after_complete().poll_result() is Ready,
        TimerState::fresh().after_polls(wakes).after_complete().after_poll(wake)
            == TimerState::fresh().after_polls(wakes).after_complete(),
    decreases wakes.len(),
{
    if wakes.len() > 0 {
        lemma_timer_semantics(wakes.drop_last(), wake);
    }
}

/// Shutdown: a channel without producers is closed as soon as it is empty,
/// whatever the slots of the tasks hold; the run loop then stops instead of
/// waiting, even if some task has never completed.
pub proof fn lemma_shutdown<C: SimpleFuture<Output = ()>>(
    before: ExecutorState<C>,
    after: ExecutorState<C>,
    step: Step,
)
    requires
        before.channel.producers == 0,
        before.channel.queue.len() == 0,
        before.turns_to(after, step),
    ensures
        before.channel.is_closed(),
        step == Step::Closed,
        after == before,
{
}

/// Capacity: a channel that is filled to its capacity refuses the next entry
/// with `QueueFull` and is left exactly as it was, so nothing queued is lost
/// and nothing is dropped in silence.
pub proof fn lemma_capacity(capacity: nat, tasks: Seq<usize>, extra: usize)
    requires
        tasks.len() == capacity,
    ensures
        ChannelState::fresh(capacity).after_sends(tasks).queue == tasks,
        ChannelState::fresh(capacity).after_sends(tasks).send_result() == Err::<
            (),
            SchedulerError,
        >(SchedulerError::QueueFull),
        ChannelState::fresh(capacity).after_sends(tasks).after_send(extra) == ChannelState::fresh(
            capacity,
        ).after_sends(tasks),
{
    lemma_sends_append(ChannelState::fresh(capacity), tasks);
    assert(Seq::<usize>::empty() + tasks =~= tasks);
}

/// A send is refused exactly when the channel is at capacity.
pub proof fn lemma_refusal(channel: ChannelState, task: usize)
    requires
        channel.valid(),
    ensures
        channel.send_result() is Err <==> channel.queue.len() == channel.capacity,
        channel.after_send(task).valid(),
{
}

} // verus!
