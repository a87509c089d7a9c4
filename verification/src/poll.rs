//! The suspend/resume vocabulary shared by every computation.

use vstd::prelude::*;

verus! {

/// What one step of a computation produced.
#[derive(Debug, PartialEq, Eq)]
pub enum Poll<T> {
    /// The computation has finished with this result; it must not be stepped again.
    Ready(T),
    /// The computation cannot make progress yet. It has recorded the token it
    /// was given and expects that token to be invoked once progress is possible.
    Pending,
}

/// A capability to re-admit one particular task to the ready queue.
///
/// A token carries nothing but the identity of its task, so it may be copied
/// freely, handed to other threads, and invoked any number of times.
#[derive(Clone, Copy, Debug, PartialEq, Eq, Structural)]
pub struct ResumptionToken {
    /// The identity of the task that this token re-admits.
    pub task: usize,
}

impl ResumptionToken {
    /// A token bound to the task with identity `task`.
    pub fn new(task: usize) -> (token: Self)
        ensures
            token == (ResumptionToken { task }),
    {
        ResumptionToken { task }
    }
}

/// A unit of work that is advanced one step at a time and may report that it
/// is not ready yet.
///
/// `steps_to` describes the steps that an implementation may take. A
/// computation whose progress depends on its own value alone can say exactly
/// what a step does. One that depends on anything else, such as a clock or
/// another thread, keeps the default, which allows every step and so
/// promises nothing.
pub trait SimpleFuture: Sized {
    type Output;

    /// Whether a step taken from `self` with `wake` may end in `next` and
    /// produce `outcome`.
    open spec fn steps_to(
        &self,
        wake: ResumptionToken,
        next: &Self,
        outcome: Poll<Self::Output>,
    ) -> bool {
        true
    }

    /// Advances the computation by one step. When the step ends in
    /// `Poll::Pending` the computation has recorded `wake`, replacing any
    /// token recorded earlier.
    fn poll(&mut self, wake: ResumptionToken) -> (outcome: Poll<Self::Output>)
        ensures
            old(self).steps_to(wake, final(self), outcome),
    ;
}

/// Two computations in sequence: `first` runs to completion, then `second`
/// does, and its result is the result of the whole.
///
/// A step goes to whichever part is active and hands it the very token that
/// the whole was given. When `first` completes, the same step goes on into
/// `second`, as far as that one gets.
pub struct Then<A, B> {
    /// The first part, until it has completed.
    pub first: Option<A>,
    /// The second part.
    pub second: B,
}

impl<A, B> Then<A, B> {
    pub fn new(first: A, second: B) -> (both: Self)
        ensures
            both.first == Some(first),
            both.second == second,
    {
        Then { first: Some(first), second }
    }
}

impl<A: SimpleFuture<Output = ()>, B: SimpleFuture> SimpleFuture for Then<A, B> {
    type Output = B::Output;

    open spec fn steps_to(
        &self,
        wake: ResumptionToken,
        next: &Self,
        outcome: Poll<B::Output>,
    ) -> bool {
        match self.first {
            Some(head) => exists|stepped: A, step: Poll<()>|
                {
                    &&& #[trigger] head.steps_to(wake, &stepped, step)
                    &&& match step {
                        Poll::Pending => {
                            &&& next.first == Some(stepped)
                            &&& next.second == self.second
                            &&& outcome is Pending
                        },
                        Poll::Ready(_) => {
                            &&& next.first is None
                            &&& self.second.steps_to(wake, &next.second, outcome)
                        },
                    }
                },
            None => next.first is None && self.second.steps_to(wake, &next.second, outcome),
        }
    }

    fn poll(&mut self, wake: ResumptionToken) -> (outcome: Poll<B::Output>) {
        match self.first.take() {
            None => {},
            Some(mut head) => {
                let ghost before = head;
                let step = head.poll(wake);
                assert(before.steps_to(wake, &head, step));
                match step {
                    Poll::Pending => {
                        self.first = Some(head);
                        return Poll::Pending;
                    },
                    Poll::Ready(()) => {},
                }
            },
        }
        self.second.poll(wake)
    }
}

} // verus!
