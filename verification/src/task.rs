//! A task: one suspendable computation in a slot, driven by one driver at a time.

use crate::channel::AdmissionChannel;
use crate::error::SchedulerError;
use crate::poll::{Poll, ResumptionToken, SimpleFuture};
use vstd::prelude::*;

verus! {

/// How one attempt to drive a task ended.
#[derive(Clone, Copy, Debug, PartialEq, Eq, Structural)]
pub enum DriveOutcome {
    /// The computation finished; the task's slot stays empty from now on.
    Completed,
    /// The computation is not ready yet and is back in its slot.
    Suspended,
    /// The slot was empty, so nothing was stepped: the task has completed
    /// before, or another driver holds its computation right now.
    Inert,
}

/// The mathematical content of a [`Task`].
pub struct TaskState<C> {
    /// The identity by which tokens and the admission channel name the task.
    pub id: usize,
    /// The computation, unless it has completed or is out being driven.
    pub slot: Option<C>,
}

impl<C> TaskState<C> {
    /// The task while its computation is out being driven: the slot is empty.
    pub open spec fn after_take(self) -> TaskState<C> {
        TaskState { slot: None, ..self }
    }
}

/// Whether driving a slot with the token `wake` may leave `next` in the slot
/// and report `outcome`.
///
/// An empty slot is left alone. A computation is stepped exactly once: if the
/// step ends in `Pending` the stepped computation goes back into the slot, and
/// if it ends in `Ready` the slot stays empty.
pub open spec fn drives_to<C: SimpleFuture<Output = ()>>(
    slot: Option<C>,
    wake: ResumptionToken,
    next: Option<C>,
    outcome: DriveOutcome,
) -> bool {
    match slot {
        None => next is None && outcome == DriveOutcome::Inert,
        Some(future) => exists|stepped: C, step: Poll<()>|
            {
                &&& #[trigger] future.steps_to(wake, &stepped, step)
                &&& settles_to(stepped, step, next, outcome)
            },
    }
}

/// How a drive ends once the computation has been stepped into `stepped` with
/// the result `step`.
pub open spec fn settles_to<C>(
    stepped: C,
    step: Poll<()>,
    next: Option<C>,
    outcome: DriveOutcome,
) -> bool {
    match step {
        Poll::Pending => next == Some(stepped) && outcome == DriveOutcome::Suspended,
        Poll::Ready(_) => next is None && outcome == DriveOutcome::Completed,
    }
}

/// One suspendable computation together with the identity under which it is
/// queued and woken.
pub struct Task<C> {
    id: usize,
    future: Option<C>,
}

impl<C> View for Task<C> {
    type V = TaskState<C>;

    closed spec fn view(&self) -> TaskState<C> {
        TaskState { id: self.id, slot: self.future }
    }
}

impl<C> Task<C> {
    /// A task that holds `future` under the identity `id`.
    pub fn new(id: usize, future: C) -> (task: Self)
        ensures
            task@ == (TaskState { id, slot: Some(future) }),
    {
        Task { id, future: Some(future) }
    }

    pub fn id(&self) -> (id: usize)
        ensures
            id == self@.id,
    {
        self.id
    }

    /// Whether the slot is empty.
    pub fn is_vacant(&self) -> (vacant: bool)
        ensures
            vacant == (self@.slot is None),
    {
        self.future.is_none()
    }

    /// Mints a token bound to the task.
    pub fn token(&self) -> (token: ResumptionToken)
        ensures
            token == (ResumptionToken { task: self@.id }),
    {
        ResumptionToken::new(self.id)
    }

    /// Re-admits the task: its identity is queued on `ready_queue` behind
    /// everything queued before. The task itself is not touched, so waking a
    /// task that has completed only queues an entry that the executor will
    /// discard. A channel at capacity refuses with `QueueFull`.
    pub fn wake_by_ref(&self, ready_queue: &mut AdmissionChannel) -> (woken: Result<
        (),
        SchedulerError,
    >)
        ensures
            final(ready_queue)@ == old(ready_queue)@.after_send(self@.id),
            woken == old(ready_queue)@.send_result(),
    {
        ready_queue.send(self.id)
    }

    /// Takes the computation out of the slot, which is empty afterwards. Only
    /// the caller that gets `Some` may drive the computation, so no second
    /// driver can step it until it has been handed back.
    pub fn take(&mut self) -> (taken: Option<C>)
        ensures
            taken == old(self)@.slot,
            final(self)@ == old(self)@.after_take(),
    {
        self.future.take()
    }

    /// Ends a drive that began with [`Task::take`]: `future` is the
    /// computation after its step and `outcome` is what the step produced.
    /// A pending computation goes back into the slot; after `Ready` the slot
    /// stays empty for good. A slot that is not empty shows that two drivers
    /// were at work at once, which is refused without touching the task.
    pub fn settle(&mut self, future: C, outcome: Poll<()>) -> (settled: Result<
        DriveOutcome,
        SchedulerError,
    >)
        ensures
            final(self)@.id == old(self)@.id,
            old(self)@.slot is Some ==> final(self)@.slot == old(self)@.slot && settled == Err::<
                DriveOutcome,
                SchedulerError,
            >(SchedulerError::DoubleDriveViolation),
            old(self)@.slot is None ==> settled is Ok && settles_to(
                future,
                outcome,
                final(self)@.slot,
                settled->Ok_0,
            ),
    {
        if self.future.is_some() {
            return Err(SchedulerError::DoubleDriveViolation);
        }
        match outcome {
            Poll::Pending => {
                self.future = Some(future);
                Ok(DriveOutcome::Suspended)
            },
            Poll::Ready(()) => Ok(DriveOutcome::Completed),
        }
    }
}

impl<C: SimpleFuture<Output = ()>> Task<C> {
    /// Drives the task one step: the computation is taken out of its slot,
    /// stepped once with a fresh token bound to the task, and put back only
    /// if it is still pending. A task whose slot is empty is left alone.
    pub fn drive(&mut self) -> (outcome: DriveOutcome)
        ensures
            final(self)@.id == old(self)@.id,
            drives_to(
                old(self)@.slot,
                ResumptionToken { task: old(self)@.id },
                final(self)@.slot,
                outcome,
            ),
    {
        match self.future.take() {
            None => DriveOutcome::Inert,
            Some(mut future) => {
                let ghost before = future;
                let wake = self.token();
                let step = future.poll(wake);
                assert(before.steps_to(wake, &future, step));
                match step {
                    Poll::Pending => {
                        self.future = Some(future);
                        DriveOutcome::Suspended
                    },
                    Poll::Ready(()) => DriveOutcome::Completed,
                }
            },
        }
    }
}

} // verus!
