//! A computation that becomes ready once its timer has fired.
//!
//! The clock is not kept here. Whoever owns a timer waits for the timer's
//! duration and then calls [`TimerFuture::complete`], which flips the state
//! and hands back the token to invoke.

use crate::poll::{Poll, ResumptionToken, SimpleFuture};
use std::time::Duration;
use vstd::prelude::*;

verus! {

/// The mathematical content of a [`SharedState`].
pub struct TimerState {
    /// Whether the timer has fired.
    pub completed: bool,
    /// The token recorded by the latest step that ended in `Pending`.
    pub token: Option<ResumptionToken>,
}

impl TimerState {
    /// A timer that has not fired and has recorded no token.
    pub open spec fn fresh() -> TimerState {
        TimerState { completed: false, token: None }
    }

    /// What a step reports: ready exactly when the timer has fired.
    pub open spec fn poll_result(self) -> Poll<()> {
        if self.completed {
            Poll::Ready(())
        } else {
            Poll::Pending
        }
    }

    /// The state after a step with the token `wake`: a timer that has fired is
    /// left as it is, any other records `wake` in place of an earlier token.
    pub open spec fn after_poll(self, wake: ResumptionToken) -> TimerState {
        if self.completed {
            self
        } else {
            TimerState { token: Some(wake), ..self }
        }
    }

    /// The state after the timer has fired: completed, with the recorded
    /// token taken out.
    pub open spec fn after_complete(self) -> TimerState {
        TimerState { completed: true, token: None }
    }

    /// The state after one step with each of `wakes`, in order.
    pub open spec fn after_polls(self, wakes: Seq<ResumptionToken>) -> TimerState
        decreases wakes.len(),
    {
        if wakes.len() == 0 {
            self
        } else {
            self.after_polls(wakes.drop_last()).after_poll(wakes.last())
        }
    }
}

/// What a timed computation and the owner of its clock have in common:
/// whether the timer has fired, and the token to invoke when it does.
pub struct SharedState {
    completed: bool,
    waker: Option<ResumptionToken>,
}

impl View for SharedState {
    type V = TimerState;

    closed spec fn view(&self) -> TimerState {
        TimerState { completed: self.completed, token: self.waker }
    }
}

impl SharedState {
    pub fn new() -> (state: Self)
        ensures
            state@ == TimerState::fresh(),
    {
        SharedState { completed: false, waker: None }
    }

    pub fn is_completed(&self) -> (completed: bool)
        ensures
            completed == self@.completed,
    {
        self.completed
    }

    /// One step of the computation: ready if the timer has fired, whether or
    /// not a token was ever recorded; otherwise `wake` is recorded, replacing
    /// any earlier token, and the step is pending.
    pub fn poll(&mut self, wake: ResumptionToken) -> (outcome: Poll<()>)
        ensures
            final(self)@ == old(self)@.after_poll(wake),
            outcome == old(self)@.poll_result(),
    {
        if self.completed {
            Poll::Ready(())
        } else {
            self.waker = Some(wake);
            Poll::Pending
        }
    }

    /// The timer fires: the state is completed from now on, and the recorded
    /// token, if any, is taken out and returned for the caller to invoke.
    /// Since the token leaves the state, it is handed out at most once.
    pub fn complete(&mut self) -> (wake: Option<ResumptionToken>)
        ensures
            final(self)@ == old(self)@.after_complete(),
            wake == old(self)@.token,
    {
        self.completed = true;
        self.waker.take()
    }
}

/// A computation that is pending until its timer has fired.
pub struct TimerFuture {
    shared_state: SharedState,
    duration: Duration,
}

impl View for TimerFuture {
    type V = TimerState;

    closed spec fn view(&self) -> TimerState {
        self.shared_state@
    }
}

impl TimerFuture {
    /// How long the timer runs before it fires.
    pub closed spec fn period(self) -> Duration {
        self.duration
    }

    /// A timer of the given duration that has not fired and has recorded no
    /// token.
    pub fn new(duration: Duration) -> (timer: TimerFuture)
        ensures
            timer@ == TimerState::fresh(),
            timer.period() == duration,
    {
        TimerFuture { shared_state: SharedState::new(), duration }
    }

    /// How long the owner of the clock has to wait before it calls
    /// [`TimerFuture::complete`].
    pub fn duration(&self) -> (duration: Duration)
        ensures
            duration == self.period(),
    {
        self.duration
    }

    pub fn is_completed(&self) -> (completed: bool)
        ensures
            completed == self@.completed,
    {
        self.shared_state.is_completed()
    }

    /// The timer fires: every later step is ready, and the token recorded by
    /// the latest pending step, if any, is returned for the caller to invoke.
    pub fn complete(&mut self) -> (wake: Option<ResumptionToken>)
        ensures
            final(self)@ == old(self)@.after_complete(),
            final(self).period() == old(self).period(),
            wake == old(self)@.token,
    {
        self.shared_state.complete()
    }
}

impl SimpleFuture for TimerFuture {
    type Output = ();

    open spec fn steps_to(&self, wake: ResumptionToken, next: &Self, outcome: Poll<()>) -> bool {
        &&& next@ == self@.after_poll(wake)
        &&& next.period() == self.period()
        &&& outcome == self@.poll_result()
    }

    fn poll(&mut self, wake: ResumptionToken) -> (outcome: Poll<()>) {
        self.shared_state.poll(wake)
    }
}

} // verus!
