//! The admission channel: a bounded first-in, first-out queue of ready tasks.

use crate::error::SchedulerError;
use std::collections::VecDeque;
use vstd::prelude::*;

verus! {

/// Why a receive yielded no task.
#[derive(Clone, Copy, Debug, PartialEq, Eq, Structural)]
pub enum TryRecvError {
    /// Nothing is ready, but a producer is still alive and may send later.
    Empty,
    /// Nothing is ready and no producer is left: nothing will ever arrive.
    Disconnected,
}

/// The mathematical content of an [`AdmissionChannel`].
pub struct ChannelState {
    /// The queued task identities, oldest first.
    pub queue: Seq<usize>,
    /// The largest number of entries the queue may hold.
    pub capacity: nat,
    /// The number of live producer handles.
    pub producers: nat,
}

impl ChannelState {
    /// The queue never holds more entries than its capacity.
    pub open spec fn valid(self) -> bool {
        self.queue.len() <= self.capacity
    }

    /// An empty channel with a single producer.
    pub open spec fn fresh(capacity: nat) -> ChannelState {
        ChannelState { queue: Seq::empty(), capacity, producers: 1 }
    }

    pub open spec fn is_full(self) -> bool {
        self.queue.len() >= self.capacity
    }

    /// No entry is queued and no producer is left.
    pub open spec fn is_closed(self) -> bool {
        self.queue.len() == 0 && self.producers == 0
    }

    /// The channel after an attempt to send `task`: a full channel is left as
    /// it is, any other gets `task` behind everything queued before.
    pub open spec fn after_send(self, task: usize) -> ChannelState {
        if self.is_full() {
            self
        } else {
            ChannelState { queue: self.queue.push(task), ..self }
        }
    }

    /// What an attempt to send reports.
    pub open spec fn send_result(self) -> Result<(), SchedulerError> {
        if self.is_full() {
            Err(SchedulerError::QueueFull)
        } else {
            Ok(())
        }
    }

    /// The channel after a receive: the oldest entry, if any, has left.
    pub open spec fn after_recv(self) -> ChannelState {
        if self.queue.len() == 0 {
            self
        } else {
            ChannelState { queue: self.queue.drop_first(), ..self }
        }
    }

    /// What a receive reports: the oldest entry, or why there is none.
    pub open spec fn recv_result(self) -> Result<usize, TryRecvError> {
        if self.queue.len() > 0 {
            Ok(self.queue[0])
        } else if self.producers > 0 {
            Err(TryRecvError::Empty)
        } else {
            Err(TryRecvError::Disconnected)
        }
    }

    /// The channel after an attempt to send each of `tasks`, in order.
    pub open spec fn after_sends(self, tasks: Seq<usize>) -> ChannelState
        decreases tasks.len(),
    {
        if tasks.len() == 0 {
            self
        } else {
            self.after_sends(tasks.drop_last()).after_send(tasks.last())
        }
    }

    /// The channel after `count` receives in a row.
    pub open spec fn after_recvs(self, count: nat) -> ChannelState
        decreases count,
    {
        if count == 0 {
            self
        } else {
            self.after_recvs((count - 1) as nat).after_recv()
        }
    }

    /// The channel with one more producer handle.
    pub open spec fn with_producer(self) -> ChannelState {
        ChannelState { producers: self.producers + 1, ..self }
    }

    /// The channel with one producer handle fewer, as far as any is left.
    pub open spec fn without_producer(self) -> ChannelState {
        ChannelState {
            producers: if self.producers > 0 {
                (self.producers - 1) as nat
            } else {
                0
            },
            ..self
        }
    }
}

/// A bounded queue of task identities, filled by producers (spawners and
/// resumption tokens) and drained by the executor in admission order.
///
/// The channel also counts its live producer handles. Once that count is zero
/// and the queue is empty the channel is closed for good.
pub struct AdmissionChannel {
    queue: VecDeque<usize>,
    capacity: usize,
    senders: usize,
}

impl View for AdmissionChannel {
    type V = ChannelState;

    closed spec fn view(&self) -> ChannelState {
        ChannelState {
            queue: self.queue@,
            capacity: self.capacity as nat,
            producers: self.senders as nat,
        }
    }
}

impl AdmissionChannel {
    #[verifier::type_invariant]
    spec fn within_capacity(self) -> bool {
        self@.valid()
    }

    /// An empty channel of the given capacity with one producer handle.
    pub fn new(capacity: usize) -> (channel: Self)
        ensures
            channel@ == ChannelState::fresh(capacity as nat),
    {
        AdmissionChannel { queue: VecDeque::new(), capacity, senders: 1 }
    }

    pub fn capacity(&self) -> (capacity: usize)
        ensures
            capacity == self@.capacity,
    {
        self.capacity
    }

    /// The number of queued entries, which never exceeds the capacity.
    pub fn len(&self) -> (len: usize)
        ensures
            len == self@.queue.len(),
            len <= self@.capacity,
            self@.valid(),
    {
        proof {
            use_type_invariant(self);
        }
        self.queue.len()
    }

    pub fn is_empty(&self) -> (empty: bool)
        ensures
            empty == (self@.queue.len() == 0),
    {
        self.queue.len() == 0
    }

    pub fn is_full(&self) -> (full: bool)
        ensures
            full == self@.is_full(),
    {
        self.queue.len() >= self.capacity
    }

    /// The number of live producer handles.
    pub fn senders(&self) -> (senders: usize)
        ensures
            senders == self@.producers,
    {
        self.senders
    }

    /// Whether nothing is queued and nothing will ever arrive.
    pub fn is_closed(&self) -> (closed: bool)
        ensures
            closed == self@.is_closed(),
    {
        self.queue.len() == 0 && self.senders == 0
    }

    /// Queues `task` behind everything queued before. A channel at capacity
    /// refuses with `QueueFull` and stays as it was; the producer is never
    /// blocked and the entry is never dropped silently.
    pub fn send(&mut self, task: usize) -> (sent: Result<(), SchedulerError>)
        ensures
            final(self)@ == old(self)@.after_send(task),
            sent == old(self)@.send_result(),
    {
        if self.queue.len() >= self.capacity {
            Err(SchedulerError::QueueFull)
        } else {
            let mut queue = VecDeque::new();
            std::mem::swap(&mut queue, &mut self.queue);
            queue.push_back(task);
            std::mem::swap(&mut queue, &mut self.queue);
            Ok(())
        }
    }

    /// Takes the oldest entry out of the queue. Without blocking, an empty
    /// queue reports whether a producer is still alive.
    pub fn try_recv(&mut self) -> (received: Result<usize, TryRecvError>)
        ensures
            final(self)@ == old(self)@.after_recv(),
            received == old(self)@.recv_result(),
    {
        proof {
            use_type_invariant(&*self);
        }
        let mut queue = VecDeque::new();
        std::mem::swap(&mut queue, &mut self.queue);
        let oldest = queue.pop_front();
        std::mem::swap(&mut queue, &mut self.queue);
        match oldest {
            Some(task) => Ok(task),
            None => if self.senders > 0 {
                Err(TryRecvError::Empty)
            } else {
                Err(TryRecvError::Disconnected)
            },
        }
    }

    /// Registers one more producer handle.
    pub fn add_sender(&mut self)
        requires
            old(self)@.producers < usize::MAX,
        ensures
            final(self)@ == old(self)@.with_producer(),
    {
        proof {
            use_type_invariant(&*self);
        }
        self.senders = self.senders + 1;
    }

    /// Releases one producer handle, as far as any is left.
    pub fn drop_sender(&mut self)
        ensures
            final(self)@ == old(self)@.without_producer(),
    {
        proof {
            use_type_invariant(&*self);
        }
        if self.senders > 0 {
            self.senders = self.senders - 1;
        }
    }
}

} // verus!
