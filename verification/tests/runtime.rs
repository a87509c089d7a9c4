use coop_runtime::channel::{AdmissionChannel, TryRecvError};
use coop_runtime::error::SchedulerError;
use coop_runtime::executor::{new_executor_and_spawner, Executor, Step, MAX_QUEUE_TASK};
use coop_runtime::poll::{Poll, ResumptionToken, SimpleFuture, Then};
use coop_runtime::sockets::{Socket, SocketRead};
use coop_runtime::task::{DriveOutcome, Task};
use coop_runtime::timer::{SharedState, TimerFuture};
use std::cell::{Cell, RefCell};
use std::rc::Rc;
use std::time::Duration;

/// Appends its name to a shared log and completes at once.
struct Announce {
    name: &'static str,
    log: Rc<RefCell<Vec<&'static str>>>,
}

impl SimpleFuture for Announce {
    type Output = ();

    fn poll(&mut self, _wake: ResumptionToken) -> Poll<()> {
        self.log.borrow_mut().push(self.name);
        Poll::Ready(())
    }
}

/// Never completes and never records its token.
struct Never {
    polls: Rc<Cell<usize>>,
}

impl SimpleFuture for Never {
    type Output = ();

    fn poll(&mut self, _wake: ResumptionToken) -> Poll<()> {
        self.polls.set(self.polls.get() + 1);
        Poll::Pending
    }
}

/// A timer that the test keeps a second handle to, as a clock thread would.
#[derive(Clone)]
struct SharedTimer(Rc<RefCell<TimerFuture>>);

impl SharedTimer {
    fn new(millis: u64) -> Self {
        SharedTimer(Rc::new(RefCell::new(TimerFuture::new(Duration::from_millis(millis)))))
    }

    fn fire(&self) -> Option<ResumptionToken> {
        self.0.borrow_mut().complete()
    }
}

impl SimpleFuture for SharedTimer {
    type Output = ();

    fn poll(&mut self, wake: ResumptionToken) -> Poll<()> {
        self.0.borrow_mut().poll(wake)
    }
}

/// Counts its steps and completes with the step that finds the flag set.
struct Latch {
    open: Rc<Cell<bool>>,
    polls: Rc<Cell<usize>>,
    token: Rc<Cell<Option<ResumptionToken>>>,
}

impl SimpleFuture for Latch {
    type Output = ();

    fn poll(&mut self, wake: ResumptionToken) -> Poll<()> {
        self.polls.set(self.polls.get() + 1);
        if self.open.get() {
            Poll::Ready(())
        } else {
            self.token.set(Some(wake));
            Poll::Pending
        }
    }
}

#[test]
fn token_names_its_task() {
    let token = ResumptionToken::new(17);
    assert_eq!(token.task, 17);
    assert_eq!(token, ResumptionToken { task: 17 });
    assert_ne!(token, ResumptionToken::new(18));
}

#[test]
fn channel_is_first_in_first_out() {
    let mut channel = AdmissionChannel::new(4);
    assert_eq!(channel.capacity(), 4);
    assert_eq!(channel.senders(), 1);
    assert!(channel.is_empty());
    assert_eq!(channel.send(7), Ok(()));
    assert_eq!(channel.send(3), Ok(()));
    assert_eq!(channel.send(7), Ok(()));
    assert_eq!(channel.len(), 3);
    assert_eq!(channel.try_recv(), Ok(7));
    assert_eq!(channel.try_recv(), Ok(3));
    assert_eq!(channel.try_recv(), Ok(7));
    assert_eq!(channel.try_recv(), Err(TryRecvError::Empty));
}

#[test]
fn channel_refuses_beyond_capacity() {
    let mut channel = AdmissionChannel::new(2);
    assert_eq!(channel.send(0), Ok(()));
    assert!(!channel.is_full());
    assert_eq!(channel.send(1), Ok(()));
    assert!(channel.is_full());
    assert_eq!(channel.send(2), Err(SchedulerError::QueueFull));
    assert_eq!(channel.len(), 2);
    assert_eq!(channel.try_recv(), Ok(0));
    assert_eq!(channel.send(2), Ok(()));
    assert_eq!(channel.try_recv(), Ok(1));
    assert_eq!(channel.try_recv(), Ok(2));
}

#[test]
fn channel_of_capacity_zero_refuses_everything() {
    let mut channel = AdmissionChannel::new(0);
    assert!(channel.is_full());
    assert_eq!(channel.send(0), Err(SchedulerError::QueueFull));
    assert_eq!(channel.len(), 0);
}

#[test]
fn channel_counts_its_producers() {
    let mut channel = AdmissionChannel::new(1);
    assert!(!channel.is_closed());
    channel.add_sender();
    assert_eq!(channel.senders(), 2);
    channel.drop_sender();
    channel.drop_sender();
    assert_eq!(channel.senders(), 0);
    assert!(channel.is_closed());
    assert_eq!(channel.try_recv(), Err(TryRecvError::Disconnected));
    channel.drop_sender();
    assert_eq!(channel.senders(), 0);
    assert_eq!(channel.send(5), Ok(()));
    assert!(!channel.is_closed());
    assert_eq!(channel.try_recv(), Ok(5));
    assert!(channel.is_closed());
}

#[test]
fn error_messages() {
    assert_eq!(SchedulerError::QueueFull.message(), "too many tasks queued");
    assert_eq!(SchedulerError::DoubleDriveViolation.message(), "task driven twice at once");
    assert_eq!(SchedulerError::UnknownTask.message(), "token of an unknown task");
}

#[test]
fn single_driver() {
    let polls = Rc::new(Cell::new(0));
    let mut task = Task::new(3, Never { polls: polls.clone() });
    assert_eq!(task.id(), 3);
    assert_eq!(task.token(), ResumptionToken { task: 3 });
    assert!(!task.is_vacant());

    // The first driver takes the computation out.
    let mut held = task.take().expect("the slot was filled");
    assert!(task.is_vacant());

    // A second driver finds nothing to step.
    assert!(task.take().is_none());
    assert_eq!(task.drive(), DriveOutcome::Inert);
    assert_eq!(polls.get(), 0);

    // The first driver steps the computation and hands it back.
    let outcome = held.poll(task.token());
    assert_eq!(outcome, Poll::Pending);
    assert_eq!(polls.get(), 1);
    assert_eq!(task.settle(held, outcome), Ok(DriveOutcome::Suspended));
    assert!(!task.is_vacant());

    assert_eq!(task.drive(), DriveOutcome::Suspended);
    assert_eq!(polls.get(), 2);
}

#[test]
fn double_drive_is_refused() {
    let polls = Rc::new(Cell::new(0));
    let mut task = Task::new(0, Never { polls: polls.clone() });
    let stray = Never { polls: polls.clone() };
    assert_eq!(task.settle(stray, Poll::Pending), Err(SchedulerError::DoubleDriveViolation));
    assert!(!task.is_vacant());
    let stray = Never { polls: polls.clone() };
    assert_eq!(task.settle(stray, Poll::Ready(())), Err(SchedulerError::DoubleDriveViolation));
    assert!(!task.is_vacant());
}

#[test]
fn settle_after_ready_leaves_the_slot_empty() {
    let log = Rc::new(RefCell::new(Vec::new()));
    let mut task = Task::new(0, Announce { name: "a", log: log.clone() });
    let mut held = task.take().expect("the slot was filled");
    let outcome = held.poll(task.token());
    assert_eq!(outcome, Poll::Ready(()));
    assert_eq!(task.settle(held, outcome), Ok(DriveOutcome::Completed));
    assert!(task.is_vacant());
    assert_eq!(task.drive(), DriveOutcome::Inert);
    assert_eq!(*log.borrow(), vec!["a"]);
}

#[test]
fn drive_hands_the_task_its_own_token() {
    let open = Rc::new(Cell::new(false));
    let polls = Rc::new(Cell::new(0));
    let token = Rc::new(Cell::new(None));
    let latch = Latch { open: open.clone(), polls: polls.clone(), token: token.clone() };
    let mut task = Task::new(41, latch);
    assert_eq!(task.drive(), DriveOutcome::Suspended);
    assert_eq!(token.get(), Some(ResumptionToken { task: 41 }));
    open.set(true);
    assert_eq!(task.drive(), DriveOutcome::Completed);
    assert!(task.is_vacant());
    assert_eq!(polls.get(), 2);
}

#[test]
fn wake_by_ref_queues_the_task() {
    let polls = Rc::new(Cell::new(0));
    let task = Task::new(9, Never { polls });
    let mut channel = AdmissionChannel::new(2);
    assert_eq!(task.wake_by_ref(&mut channel), Ok(()));
    assert_eq!(task.wake_by_ref(&mut channel), Ok(()));
    assert_eq!(task.wake_by_ref(&mut channel), Err(SchedulerError::QueueFull));
    assert_eq!(channel.try_recv(), Ok(9));
    assert_eq!(channel.try_recv(), Ok(9));
    assert_eq!(channel.try_recv(), Err(TryRecvError::Empty));
}

#[test]
fn default_capacity() {
    let (executor, _spawner) = new_executor_and_spawner::<Never>();
    assert_eq!(MAX_QUEUE_TASK, 10_000);
    assert_eq!(executor.capacity(), 10_000);
    assert_eq!(executor.task_count(), 0);
    assert_eq!(executor.ready_len(), 0);
    assert_eq!(executor.senders(), 1);
    assert!(!executor.is_closed());
}

#[test]
fn fifo_admission() {
    let log = Rc::new(RefCell::new(Vec::new()));
    let (mut executor, spawner) = new_executor_and_spawner();
    for name in ["A", "B", "C"] {
        assert_eq!(spawner.spawn(&mut executor, Announce { name, log: log.clone() }), Ok(()));
    }
    assert_eq!(executor.task_count(), 3);
    assert_eq!(executor.ready_len(), 3);
    assert_eq!(executor.step(), Step::Drove { task: 0, outcome: DriveOutcome::Completed });
    assert_eq!(*log.borrow(), vec!["A"]);
    assert_eq!(executor.step(), Step::Drove { task: 1, outcome: DriveOutcome::Completed });
    assert_eq!(*log.borrow(), vec!["A", "B"]);
    assert_eq!(executor.step(), Step::Drove { task: 2, outcome: DriveOutcome::Completed });
    assert_eq!(*log.borrow(), vec!["A", "B", "C"]);
    assert_eq!(executor.step(), Step::Idle);
}

#[test]
fn run_drives_in_admission_order() {
    let log = Rc::new(RefCell::new(Vec::new()));
    let (mut executor, spawner) = new_executor_and_spawner();
    for name in ["A", "B", "C"] {
        assert_eq!(spawner.spawn(&mut executor, Announce { name, log: log.clone() }), Ok(()));
    }
    assert!(!executor.run());
    assert_eq!(*log.borrow(), vec!["A", "B", "C"]);
    assert_eq!(executor.ready_len(), 0);
    assert_eq!(executor.is_vacant(0), Some(true));
    assert_eq!(executor.is_vacant(2), Some(true));
    assert_eq!(executor.is_vacant(3), None);
    spawner.release(&mut executor);
    assert!(executor.run());
}

#[test]
fn wake_correctness() {
    let (mut executor, spawner) = Executor::with_capacity(8);
    let timer = SharedTimer::new(50);
    assert_eq!(spawner.spawn(&mut executor, timer.clone()), Ok(()));
    assert_eq!(executor.step(), Step::Drove { task: 0, outcome: DriveOutcome::Suspended });
    assert_eq!(executor.step(), Step::Idle);
    assert_eq!(executor.is_vacant(0), Some(false));

    // The clock fires and invokes the recorded token exactly once.
    let token = timer.fire().expect("the timer recorded a token");
    assert_eq!(token, ResumptionToken { task: 0 });
    assert_eq!(timer.fire(), None);
    assert_eq!(executor.wake(token), Ok(()));
    assert_eq!(executor.ready_len(), 1);

    // One more drive completes the task.
    assert_eq!(executor.step(), Step::Drove { task: 0, outcome: DriveOutcome::Completed });
    assert_eq!(executor.is_vacant(0), Some(true));
    assert_eq!(executor.step(), Step::Idle);
}

#[test]
fn idempotent_wake() {
    let log = Rc::new(RefCell::new(Vec::new()));
    let (mut executor, spawner) = Executor::with_capacity(8);
    assert_eq!(spawner.spawn(&mut executor, Announce { name: "once", log: log.clone() }), Ok(()));
    assert_eq!(executor.step(), Step::Drove { task: 0, outcome: DriveOutcome::Completed });
    assert_eq!(*log.borrow(), vec!["once"]);

    let token = ResumptionToken::new(0);
    assert_eq!(executor.wake(token), Ok(()));
    assert_eq!(executor.wake(token), Ok(()));
    assert_eq!(executor.ready_len(), 2);
    assert_eq!(executor.step(), Step::Drove { task: 0, outcome: DriveOutcome::Inert });
    assert_eq!(executor.step(), Step::Drove { task: 0, outcome: DriveOutcome::Inert });
    assert_eq!(executor.step(), Step::Idle);
    assert_eq!(*log.borrow(), vec!["once"]);
}

#[test]
fn duplicate_wakes_of_a_pending_task_are_absorbed() {
    let open = Rc::new(Cell::new(false));
    let polls = Rc::new(Cell::new(0));
    let token = Rc::new(Cell::new(None));
    let latch = Latch { open: open.clone(), polls: polls.clone(), token: token.clone() };
    let (mut executor, spawner) = Executor::with_capacity(8);
    assert_eq!(spawner.spawn(&mut executor, latch), Ok(()));
    assert!(!executor.run());
    assert_eq!(polls.get(), 1);
    let wake = token.get().expect("the latch recorded a token");
    open.set(true);
    assert_eq!(executor.wake(wake), Ok(()));
    assert_eq!(executor.wake(wake), Ok(()));
    assert_eq!(executor.wake(wake), Ok(()));
    assert!(!executor.run());
    assert_eq!(polls.get(), 2);
    assert_eq!(executor.is_vacant(0), Some(true));
}

#[test]
fn unknown_token_is_refused() {
    let (mut executor, spawner) = Executor::with_capacity(8);
    assert_eq!(executor.wake(ResumptionToken::new(0)), Err(SchedulerError::UnknownTask));
    let polls = Rc::new(Cell::new(0));
    assert_eq!(spawner.spawn(&mut executor, Never { polls }), Ok(()));
    assert_eq!(executor.wake(ResumptionToken::new(0)), Ok(()));
    assert_eq!(executor.wake(ResumptionToken::new(1)), Err(SchedulerError::UnknownTask));
    assert_eq!(executor.ready_len(), 2);
}

#[test]
fn shutdown_with_a_task_that_never_completes() {
    let polls = Rc::new(Cell::new(0));
    let (mut executor, spawner) = new_executor_and_spawner();
    assert_eq!(spawner.spawn(&mut executor, Never { polls: polls.clone() }), Ok(()));
    let second = spawner.duplicate(&mut executor);
    assert_eq!(executor.senders(), 2);
    spawner.release(&mut executor);
    assert!(!executor.run());
    assert_eq!(polls.get(), 1);
    second.release(&mut executor);
    assert_eq!(executor.senders(), 0);
    assert_eq!(executor.step(), Step::Closed);
    assert!(executor.run());
    assert!(executor.is_closed());
    assert_eq!(executor.is_vacant(0), Some(false));
    assert_eq!(polls.get(), 1);
}

#[test]
fn capacity() {
    let polls = Rc::new(Cell::new(0));
    let (mut executor, spawner) = Executor::with_capacity(2);
    assert_eq!(spawner.spawn(&mut executor, Never { polls: polls.clone() }), Ok(()));
    assert_eq!(spawner.spawn(&mut executor, Never { polls: polls.clone() }), Ok(()));
    assert_eq!(
        spawner.spawn(&mut executor, Never { polls: polls.clone() }),
        Err(SchedulerError::QueueFull)
    );
    assert_eq!(executor.task_count(), 2);
    assert_eq!(executor.ready_len(), 2);
    assert_eq!(executor.wake(ResumptionToken::new(0)), Err(SchedulerError::QueueFull));
    assert_eq!(executor.ready_len(), 2);
    assert_eq!(executor.step(), Step::Drove { task: 0, outcome: DriveOutcome::Suspended });
    assert_eq!(spawner.spawn(&mut executor, Never { polls: polls.clone() }), Ok(()));
    assert_eq!(executor.task_count(), 3);
}

#[test]
fn default_capacity_is_ten_thousand_pending_tasks() {
    let polls = Rc::new(Cell::new(0));
    let (mut executor, spawner) = new_executor_and_spawner();
    for _ in 0..10_000 {
        assert_eq!(spawner.spawn(&mut executor, Never { polls: polls.clone() }), Ok(()));
    }
    assert_eq!(
        spawner.spawn(&mut executor, Never { polls: polls.clone() }),
        Err(SchedulerError::QueueFull)
    );
    assert_eq!(executor.ready_len(), 10_000);
    assert_eq!(executor.task_count(), 10_000);
}

#[test]
fn timer_semantics() {
    let mut timer = TimerFuture::new(Duration::new(2, 0));
    assert_eq!(timer.duration(), Duration::from_secs(2));
    assert!(!timer.is_completed());
    assert_eq!(timer.poll(ResumptionToken::new(1)), Poll::Pending);
    assert_eq!(timer.poll(ResumptionToken::new(2)), Poll::Pending);
    // The token recorded last wins.
    assert_eq!(timer.complete(), Some(ResumptionToken { task: 2 }));
    assert!(timer.is_completed());
    assert_eq!(timer.poll(ResumptionToken::new(3)), Poll::Ready(()));
    assert_eq!(timer.complete(), None);
    assert_eq!(timer.poll(ResumptionToken::new(3)), Poll::Ready(()));
}

#[test]
fn timer_that_fired_before_its_first_step_is_ready_at_once() {
    let mut timer = TimerFuture::new(Duration::from_millis(1));
    assert_eq!(timer.complete(), None);
    assert_eq!(timer.poll(ResumptionToken::new(0)), Poll::Ready(()));
}

#[test]
fn shared_state_transitions() {
    let mut state = SharedState::new();
    assert!(!state.is_completed());
    assert_eq!(state.poll(ResumptionToken::new(4)), Poll::Pending);
    assert_eq!(state.complete(), Some(ResumptionToken { task: 4 }));
    assert!(state.is_completed());
    assert_eq!(state.complete(), None);
    assert_eq!(state.poll(ResumptionToken::new(4)), Poll::Ready(()));
}

#[test]
fn sequence_passes_the_token_to_the_active_part() {
    let log = Rc::new(RefCell::new(Vec::new()));
    let timer = SharedTimer::new(10);
    let body = Then::new(
        Announce { name: "howdy!", log: log.clone() },
        Then::new(timer.clone(), Announce { name: "done!", log: log.clone() }),
    );
    let (mut executor, spawner) = new_executor_and_spawner();
    assert_eq!(spawner.spawn(&mut executor, body), Ok(()));
    spawner.release(&mut executor);

    assert_eq!(executor.step(), Step::Drove { task: 0, outcome: DriveOutcome::Suspended });
    assert_eq!(*log.borrow(), vec!["howdy!"]);
    let token = timer.fire().expect("the timer recorded the token of the whole task");
    assert_eq!(token, ResumptionToken { task: 0 });
    assert_eq!(executor.wake(token), Ok(()));
    assert_eq!(executor.step(), Step::Drove { task: 0, outcome: DriveOutcome::Completed });
    assert_eq!(*log.borrow(), vec!["howdy!", "done!"]);
    assert_eq!(executor.step(), Step::Closed);
}

#[test]
fn sequence_yields_the_result_of_its_second_part() {
    let mut socket = Socket::new();
    assert_eq!(socket.deliver(vec![1, 2, 3]), None);
    let timer = SharedTimer::new(10);
    let mut both = Then::new(timer.clone(), SocketRead::new(socket));
    assert_eq!(both.poll(ResumptionToken::new(5)), Poll::Pending);
    assert_eq!(timer.fire(), Some(ResumptionToken { task: 5 }));
    assert_eq!(both.poll(ResumptionToken::new(5)), Poll::Ready(vec![1, 2, 3]));
    assert!(both.first.is_none());
}

#[test]
fn socket_read() {
    let mut read = SocketRead::new(Socket::new());
    assert_eq!(read.poll(ResumptionToken::new(6)), Poll::Pending);
    assert_eq!(read.deliver(Vec::new()), None);
    assert_eq!(read.deliver(vec![104, 105]), Some(ResumptionToken { task: 6 }));
    assert_eq!(read.deliver(vec![33]), None);
    assert_eq!(read.poll(ResumptionToken::new(6)), Poll::Ready(vec![104, 105, 33]));
    assert_eq!(read.poll(ResumptionToken::new(7)), Poll::Pending);
    let mut socket = read.into_socket();
    assert!(!socket.has_data_to_read());
    assert_eq!(socket.deliver(vec![1]), Some(ResumptionToken { task: 7 }));
    assert!(socket.has_data_to_read());
    assert_eq!(socket.read_buf(), vec![1]);
    assert!(!socket.has_data_to_read());
    socket.set_readable_callback(ResumptionToken::new(8));
    assert_eq!(socket.deliver(vec![2]), Some(ResumptionToken { task: 8 }));
}
