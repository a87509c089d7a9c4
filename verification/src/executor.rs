//! The executor and its spawner: admission of new work and the run loop.

use crate::channel::{AdmissionChannel, ChannelState, TryRecvError};
use crate::error::SchedulerError;
use crate::poll::{ResumptionToken, SimpleFuture};
use crate::task::{drives_to, DriveOutcome, Task};
use vstd::prelude::*;

verus! {

/// The capacity of the admission channel that [`new_executor_and_spawner`] sets up.
pub const MAX_QUEUE_TASK: usize = 10_000;

/// What one turn of the run loop did.
#[derive(Clone, Copy, Debug, PartialEq, Eq, Structural)]
pub enum Step {
    /// The oldest ready task was taken from the channel and driven one step.
    Drove { task: usize, outcome: DriveOutcome },
    /// Nothing is ready, but a producer is alive: the loop has to wait.
    Idle,
    /// Nothing is ready and nothing will ever arrive: the loop is over.
    Closed,
}

/// The mathematical content of an [`Executor`].
pub struct ExecutorState<C> {
    /// The admission channel.
    pub channel: ChannelState,
    /// The slot of every task ever admitted, indexed by the task's identity.
    pub slots: Seq<Option<C>>,
}

impl<C> ExecutorState<C> {
    /// The channel is within its capacity and names admitted tasks only.
    pub open spec fn valid(self) -> bool {
        &&& self.channel.valid()
        &&& forall|i: int|
            0 <= i < self.channel.queue.len() ==> (#[trigger] self.channel.queue[i])
                < self.slots.len()
    }

    /// The state after an attempt to admit a new task that holds `future`.
    pub open spec fn after_spawn(self, future: C) -> ExecutorState<C> {
        if self.channel.is_full() {
            self
        } else {
            ExecutorState {
                channel: self.channel.after_send(self.slots.len() as usize),
                slots: self.slots.push(Some(future)),
            }
        }
    }

    /// Whether `token` names a task that has been admitted.
    pub open spec fn knows(self, token: ResumptionToken) -> bool {
        token.task < self.slots.len()
    }

    /// The state after `token` has been invoked.
    pub open spec fn after_wake(self, token: ResumptionToken) -> ExecutorState<C> {
        if self.knows(token) {
            ExecutorState { channel: self.channel.after_send(token.task), ..self }
        } else {
            self
        }
    }

    /// What invoking `token` reports.
    pub open spec fn wake_result(self, token: ResumptionToken) -> Result<(), SchedulerError> {
        if !self.knows(token) {
            Err(SchedulerError::UnknownTask)
        } else {
            self.channel.send_result()
        }
    }
}

impl<C: SimpleFuture<Output = ()>> ExecutorState<C> {
    /// Whether one turn of the run loop may lead from `self` to `next` and
    /// report `step`: with nothing ready the state stays as it is; otherwise
    /// the oldest entry leaves the channel and its task, and no other, is
    /// driven once with a token of its own.
    pub open spec fn turns_to(self, next: ExecutorState<C>, step: Step) -> bool {
        match self.channel.recv_result() {
            Ok(task) => {
                &&& next.channel == self.channel.after_recv()
                &&& next.slots == self.slots.update(task as int, next.slots[task as int])
                &&& step matches Step::Drove { task: driven, outcome }
                &&& driven == task
                &&& drives_to(
                    self.slots[task as int],
                    ResumptionToken { task },
                    next.slots[task as int],
                    outcome,
                )
            },
            Err(TryRecvError::Empty) => next == self && step == Step::Idle,
            Err(TryRecvError::Disconnected) => next == self && step == Step::Closed,
        }
    }

    /// Whether `turns` turns of the run loop in a row, each of which finds a
    /// task to drive, may lead from `self` to `next`.
    pub open spec fn runs_to(self, next: ExecutorState<C>, turns: nat) -> bool
        decreases turns,
    {
        if turns == 0 {
            next == self
        } else {
            exists|before: ExecutorState<C>, step: Step|
                {
                    &&& self.runs_to(before, (turns - 1) as nat)
                    &&& #[trigger] before.turns_to(next, step)
                    &&& step is Drove
                }
        }
    }
}

/// Whether driving a slot `times` times in a row, each time with the token
/// `wake`, may leave `next` in the slot.
pub open spec fn driven<C: SimpleFuture<Output = ()>>(
    slot: Option<C>,
    wake: ResumptionToken,
    times: nat,
    next: Option<C>,
) -> bool
    decreases times,
{
    if times == 0 {
        next == slot
    } else {
        exists|before: Option<C>, outcome: DriveOutcome|
            {
                &&& driven(slot, wake, (times - 1) as nat, before)
                &&& #[trigger] drives_to(before, wake, next, outcome)
            }
    }
}

/// The run loop's side of the runtime: the admission channel and every task
/// ever admitted, each driven by this executor alone.
pub struct Executor<C> {
    ready_queue: AdmissionChannel,
    tasks: Vec<Task<C>>,
}

/// A producer handle: the right to admit new tasks to an executor. The
/// admission channel counts the live handles.
pub struct Spawner {
    handle: (),
}

impl<C> View for Executor<C> {
    type V = ExecutorState<C>;

    closed spec fn view(&self) -> ExecutorState<C> {
        ExecutorState {
            channel: self.ready_queue@,
            slots: Seq::new(self.tasks@.len(), |i: int| self.tasks@[i]@.slot),
        }
    }
}

impl<C> Executor<C> {
    #[verifier::type_invariant]
    spec fn well_formed(self) -> bool {
        &&& self@.valid()
        &&& forall|i: int| 0 <= i < self.tasks@.len() ==> (#[trigger] self.tasks@[i])@.id == i
    }

    /// An executor without tasks whose channel holds up to `capacity` entries,
    /// and the one producer handle of that channel.
    pub fn with_capacity(capacity: usize) -> (pair: (Self, Spawner))
        ensures
            pair.0@.channel == ChannelState::fresh(capacity as nat),
            pair.0@.slots == Seq::<Option<C>>::empty(),
    {
        let executor = Executor { ready_queue: AdmissionChannel::new(capacity), tasks: Vec::new() };
        proof {
            assert(executor@.slots =~= Seq::<Option<C>>::empty());
        }
        (executor, Spawner { handle: () })
    }

    /// The number of tasks ever admitted; their identities are `0..task_count()`.
    pub fn task_count(&self) -> (count: usize)
        ensures
            count == self@.slots.len(),
    {
        self.tasks.len()
    }

    /// The number of entries waiting in the admission channel.
    pub fn ready_len(&self) -> (len: usize)
        ensures
            len == self@.channel.queue.len(),
            self@.valid(),
    {
        proof {
            use_type_invariant(self);
        }
        self.ready_queue.len()
    }

    pub fn capacity(&self) -> (capacity: usize)
        ensures
            capacity == self@.channel.capacity,
    {
        self.ready_queue.capacity()
    }

    /// The number of live producer handles.
    pub fn senders(&self) -> (senders: usize)
        ensures
            senders == self@.channel.producers,
    {
        self.ready_queue.senders()
    }

    /// Whether nothing is ready and nothing will ever arrive.
    pub fn is_closed(&self) -> (closed: bool)
        ensures
            closed == self@.channel.is_closed(),
    {
        self.ready_queue.is_closed()
    }

    /// Whether the slot of `task` is empty; `None` for an identity that was
    /// never admitted.
    pub fn is_vacant(&self, task: usize) -> (vacant: Option<bool>)
        ensures
            vacant == (if task < self@.slots.len() {
                Some(self@.slots[task as int] is None)
            } else {
                None
            }),
    {
        if task < self.tasks.len() {
            Some(self.tasks[task].is_vacant())
        } else {
            None
        }
    }
}

impl<C> Executor<C> {
    /// A stand-in that holds the place of an executor while its parts are
    /// being worked on: it has no tasks, and its channel is empty and has no
    /// room, so nothing can be read from it or queued on it.
    fn vacant() -> (executor: Self)
        ensures
            executor@.channel == ChannelState::fresh(0),
            executor@.slots == Seq::<Option<C>>::empty(),
    {
        let executor = Executor { ready_queue: AdmissionChannel::new(0), tasks: Vec::new() };
        proof {
            assert(executor@.slots =~= Seq::<Option<C>>::empty());
        }
        executor
    }

    /// Invokes `token`: the task it names is queued behind everything queued
    /// before, whether or not the task has completed meanwhile. No slot is
    /// touched. A token of a task that was never admitted is refused with
    /// `UnknownTask`, a channel at capacity with `QueueFull`; either way the
    /// executor stays as it was. A refused wake leaves its task stranded, so
    /// whoever invokes the token has to treat the refusal as fatal.
    pub fn wake(&mut self, token: ResumptionToken) -> (woken: Result<(), SchedulerError>)
        ensures
            final(self)@ == old(self)@.after_wake(token),
            woken == old(self)@.wake_result(token),
    {
        proof {
            use_type_invariant(&*self);
        }
        if token.task >= self.tasks.len() {
            return Err(SchedulerError::UnknownTask);
        }
        let Executor { mut ready_queue, tasks } = std::mem::replace(self, Executor::vacant());
        let woken = tasks[token.task].wake_by_ref(&mut ready_queue);
        let ghost slots = Seq::new(tasks@.len(), |i: int| tasks@[i]@.slot);
        *self = Executor { ready_queue, tasks };
        proof {
            assert(final(self)@.slots =~= slots);
            assert(old(self)@.slots =~= slots);
        }
        woken
    }

    fn enlist(&mut self, future: C) -> (enlisted: Result<(), SchedulerError>)
        ensures
            final(self)@ == old(self)@.after_spawn(future),
            enlisted == old(self)@.channel.send_result(),
    {
        proof {
            use_type_invariant(&*self);
        }
        if self.ready_queue.is_full() {
            return Err(SchedulerError::QueueFull);
        }
        let Executor { mut ready_queue, mut tasks } = std::mem::replace(self, Executor::vacant());
        let task = Task::new(tasks.len(), future);
        let enlisted = task.wake_by_ref(&mut ready_queue);
        tasks.push(task);
        *self = Executor { ready_queue, tasks };
        proof {
            assert(final(self)@.slots =~= old(self)@.slots.push(Some(future)));
        }
        enlisted
    }
}

impl<C> Executor<C> {
    fn add_sender(&mut self)
        requires
            old(self)@.channel.producers < usize::MAX,
        ensures
            final(self)@.channel == old(self)@.channel.with_producer(),
            final(self)@.slots == old(self)@.slots,
    {
        proof {
            use_type_invariant(&*self);
        }
        let Executor { mut ready_queue, tasks } = std::mem::replace(self, Executor::vacant());
        ready_queue.add_sender();
        *self = Executor { ready_queue, tasks };
    }

    fn drop_sender(&mut self)
        ensures
            final(self)@.channel == old(self)@.channel.without_producer(),
            final(self)@.slots == old(self)@.slots,
    {
        proof {
            use_type_invariant(&*self);
        }
        let Executor { mut ready_queue, tasks } = std::mem::replace(self, Executor::vacant());
        ready_queue.drop_sender();
        *self = Executor { ready_queue, tasks };
    }
}

/// An executor and its spawner, joined by an admission channel that holds up
/// to [`MAX_QUEUE_TASK`] entries.
pub fn new_executor_and_spawner<C>() -> (pair: (Executor<C>, Spawner))
    ensures
        pair.0@.channel == ChannelState::fresh(MAX_QUEUE_TASK as nat),
        pair.0@.slots == Seq::<Option<C>>::empty(),
{
    Executor::with_capacity(MAX_QUEUE_TASK)
}

impl Spawner {
    /// A second handle for the same executor, counted as one more producer.
    pub fn duplicate<C>(&self, executor: &mut Executor<C>) -> (handle: Spawner)
        requires
            old(executor)@.channel.producers < usize::MAX,
        ensures
            final(executor)@.channel == old(executor)@.channel.with_producer(),
            final(executor)@.slots == old(executor)@.slots,
    {
        executor.add_sender();
        Spawner { handle: () }
    }

    /// Gives this handle up. Once every handle is released and the channel
    /// has been drained, the executor finds the channel closed.
    pub fn release<C>(self, executor: &mut Executor<C>)
        ensures
            final(executor)@.channel == old(executor)@.channel.without_producer(),
            final(executor)@.slots == old(executor)@.slots,
    {
        executor.drop_sender();
    }

    /// Admits a new task: `future` is wrapped in a task with the next free
    /// identity, and that task is queued behind everything queued before.
    /// When the admission channel is at capacity nothing is admitted and
    /// `QueueFull` is reported.
    pub fn spawn<C>(&self, executor: &mut Executor<C>, future: C) -> (spawned: Result<
        (),
        SchedulerError,
    >)
        ensures
            final(executor)@ == old(executor)@.after_spawn(future),
            spawned == old(executor)@.channel.send_result(),
    {
        executor.enlist(future)
    }
}

impl<C: SimpleFuture<Output = ()>> Executor<C> {
    /// Takes one turn of the run loop: the oldest ready task, if any, leaves
    /// the channel and is driven one step. With nothing ready the executor is
    /// left as it is and the result tells whether to wait or to stop.
    pub fn step(&mut self) -> (step: Step)
        ensures
            old(self)@.turns_to(final(self)@, step),
    {
        proof {
            use_type_invariant(&*self);
        }
        let Executor { mut ready_queue, mut tasks } = std::mem::replace(self, Executor::vacant());
        let ghost slots = Seq::new(tasks@.len(), |i: int| tasks@[i]@.slot);
        assert(slots =~= old(self)@.slots);
        let step = match ready_queue.try_recv() {
            Ok(task) => {
                assert(task == old(self)@.channel.queue[0]);
                let outcome = tasks[task].drive();
                Step::Drove { task, outcome }
            },
            Err(TryRecvError::Empty) => Step::Idle,
            Err(TryRecvError::Disconnected) => Step::Closed,
        };
        let ghost stepped = Seq::new(tasks@.len(), |i: int| tasks@[i]@.slot);
        proof {
            if let Step::Drove { task, outcome } = step {
                assert(stepped =~= slots.update(task as int, stepped[task as int]));
                assert forall|i: int| 0 <= i < ready_queue@.queue.len() implies (
                #[trigger] ready_queue@.queue[i]) < tasks@.len() by {
                    assert(ready_queue@.queue[i] == old(self)@.channel.queue[i + 1]);
                }
            } else {
                assert(stepped =~= slots);
            }
        }
        *self = Executor { ready_queue, tasks };
        proof {
            assert(final(self)@.slots =~= stepped);
        }
        step
    }
}

impl<C: SimpleFuture<Output = ()>> Executor<C> {
    /// Runs until nothing is ready: one turn is taken for every entry in the
    /// channel, so the ready tasks are driven in admission order, each as
    /// often as it is queued, and results are discarded. The channel is empty
    /// afterwards, whether or not every task has completed. Returns whether
    /// the channel is closed, that is, whether no producer is left either; if
    /// one is, more work may arrive and the caller may wait for it and run
    /// again.
    pub fn run(&mut self) -> (closed: bool)
        ensures
            old(self)@.runs_to(final(self)@, old(self)@.channel.queue.len()),
            final(self)@.channel == (ChannelState {
                queue: Seq::empty(),
                ..old(self)@.channel
            }),
            closed == final(self)@.channel.is_closed(),
            final(self)@.slots.len() == old(self)@.slots.len(),
            forall|task: usize|
                task < old(self)@.slots.len() ==> driven(
                    old(self)@.slots[task as int],
                    ResumptionToken { task },
                    old(self)@.channel.queue.to_multiset().count(task),
                    #[trigger] final(self)@.slots[task as int],
                ),
    {
        let ghost start = self@;
        let ghost mut done: Seq<usize> = Seq::empty();
        proof {
            assert(start.channel.queue =~= done + self@.channel.queue);
            done.to_multiset_ensures();
        }
        loop
            invariant
                start == old(self)@,
                self@.channel.capacity == start.channel.capacity,
                self@.channel.producers == start.channel.producers,
                self@.slots.len() == start.slots.len(),
                start.channel.queue == done + self@.channel.queue,
                start.runs_to(self@, done.len()),
                forall|task: usize|
                    task < start.slots.len() ==> driven(
                        start.slots[task as int],
                        ResumptionToken { task },
                        done.to_multiset().count(task),
                        #[trigger] self@.slots[task as int],
                    ),
            decreases self@.channel.queue.len(),
        {
            let ghost before = self@;
            proof {
                use_type_invariant(&*self);
            }
            match self.step() {
                Step::Drove { task, outcome } => {
                    proof {
                        let earlier = done;
                        done = done.push(task);
                        assert(before.turns_to(self@, Step::Drove { task, outcome }));
                        assert(start.channel.queue =~= done + self@.channel.queue);
                        vstd::seq_lib::to_multiset_build(earlier, task);
                        assert forall|other: usize| other < start.slots.len() implies driven(
                            start.slots[other as int],
                            ResumptionToken { task: other },
                            done.to_multiset().count(other),
                            #[trigger] self@.slots[other as int],
                        ) by {
                            if other == task {
                                assert(drives_to(
                                    before.slots[other as int],
                                    ResumptionToken { task: other },
                                    self@.slots[other as int],
                                    outcome,
                                ));
                            }
                        }
                    }
                },
                Step::Idle => {
                    proof {
                        assert(done =~= start.channel.queue);
                        assert(self@.channel.queue =~= Seq::<usize>::empty());
                    }
                    return false;
                },
                Step::Closed => {
                    proof {
                        assert(done =~= start.channel.queue);
                        assert(self@.channel.queue =~= Seq::<usize>::empty());
                    }
                    return true;
                },
            }
        }
    }
}

} // verus!
