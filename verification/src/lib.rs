//! A small cooperative task runtime, together with a family of linked lists
//! and a few slice and string helpers.
//!
//! The runtime drives many suspendable computations on one logical worker. A
//! computation ([`poll::SimpleFuture`]) is stepped until it reports that it
//! cannot go on; it is stepped again once the [`poll::ResumptionToken`] it
//! recorded has been invoked. Tasks ([`task::Task`]) wait for their turn in a
//! bounded first-in, first-out [`channel::AdmissionChannel`]; the
//! [`executor::Executor`] takes them out in admission order and drives each
//! one step.
//!
//! Nothing in here blocks, sleeps or starts a thread. The executor reports
//! when it has nothing to do, and a timer ([`timer::TimerFuture`]) is
//! completed by whoever keeps its clock. A program that shares an executor
//! between threads wraps it in a lock of its own and waits on the lock's
//! condition while the executor is idle.
//!
//! [`laws`] states what holds of the runtime as a whole. [`http`] holds the
//! request routing and response framing of a small web server.

pub mod channel;
pub mod error;
pub mod executor;
pub mod http;
pub mod largest;
pub mod laws;
pub mod lifetime;
pub mod lists;
pub mod poll;
pub mod sockets;
pub mod std_specs;
pub mod task;
pub mod timer;
