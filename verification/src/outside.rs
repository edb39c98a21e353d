//! The outside calls: the channel that carries run queue entries, from `flume`; tasks, from
//! `async_task`; wakers, from `std`.
//!
//! The functions here that make such a call are taken on trust. What a call did is recorded, in a
//! value that nothing but the call makes, or in a log that nothing but the call extends.
use async_task::{Runnable, Task};
use flume::{Receiver, Sender};
use std::future::Future;
use std::task::Waker;
use vstd::prelude::*;

use crate::queue::schedule_or;

verus! {

/// The sending end of a `flume` channel.
#[verifier::external_type_specification]
#[verifier::external_body]
#[verifier::reject_recursive_types(T)]
pub struct ExSender<T>(flume::Sender<T>);

/// The receiving end of a `flume` channel.
#[verifier::external_type_specification]
#[verifier::external_body]
#[verifier::reject_recursive_types(T)]
pub struct ExReceiver<T>(flume::Receiver<T>);

/// The right to poll a task once, as `async_task` hands it out.
#[verifier::external_type_specification]
#[verifier::external_body]
#[verifier::reject_recursive_types(M)]
pub struct ExRunnable<M>(async_task::Runnable<M>);

/// What wakes a pending task.
#[verifier::external_type_specification]
#[verifier::external_body]
pub struct ExWaker(core::task::Waker);

/// The handle on a task that `async_task` hands out, with which its output can be awaited.
#[verifier::external_type_specification]
#[verifier::external_body]
#[verifier::reject_recursive_types(T)]
#[verifier::reject_recursive_types(M)]
pub struct ExTask<T, M>(async_task::Task<T, M>);

/// A task that is ready to be polled: its id, and the right to poll it once.
pub struct RunQueueEntry(pub usize, pub Runnable);

/// The sending end of a run queue, at which tasks are put into the queue for the first time. Each
/// queue has one.
pub struct QueueSender {
    sender: Sender<RunQueueEntry>,
    channel: Ghost<int>,
    started: Ghost<Seq<nat>>,
}

/// A handle on the sending end of a run queue, at which tasks that are woken are put into the
/// queue.
pub struct QueueHandle {
    sender: Sender<RunQueueEntry>,
    channel: Ghost<int>,
}

/// The receiving end of a run queue. Each queue has one.
pub struct QueueReceiver {
    receiver: Receiver<RunQueueEntry>,
    channel: Ghost<int>,
    taken: Ghost<Seq<RunQueueEntry>>,
}

impl QueueSender {
    /// The queue that this is an end of.
    pub closed spec fn channel(self) -> int {
        self.channel@
    }

    /// The ids of the tasks that have been put into the queue for the first time, in order.
    pub closed spec fn started(self) -> Seq<nat> {
        self.started@
    }
}

impl QueueHandle {
    /// The queue that this is an end of.
    pub closed spec fn channel(self) -> int {
        self.channel@
    }
}

impl QueueReceiver {
    /// The queue that this is an end of.
    pub closed spec fn channel(self) -> int {
        self.channel@
    }

    /// The entries that have been taken out of the queue at this end, in order.
    pub closed spec fn taken(self) -> Seq<RunQueueEntry> {
        self.taken@
    }
}

/// `flume::unbounded`: the two ends of one new queue, which has no limit on its length.
///
/// The queue is shared between threads, so no clause speaks of what it holds.
#[verifier::external_body]
pub(crate) fn unbounded() -> (ends: (QueueSender, QueueReceiver))
    ensures
        ends.0.channel() == ends.1.channel(),
        ends.0.started() == Seq::<nat>::empty(),
        ends.1.taken() == Seq::<RunQueueEntry>::empty(),
{
    let (sender, receiver) = flume::unbounded();
    (
        QueueSender { sender, channel: Ghost(0), started: Ghost(Seq::empty()) },
        QueueReceiver { receiver, channel: Ghost(0), taken: Ghost(Seq::empty()) },
    )
}

/// `flume::Sender::clone`: another handle on the sending end of the same queue.
#[verifier::external_body]
pub(crate) fn clone_sender(sender: &QueueSender) -> (handle: QueueHandle)
    ensures
        handle.channel() == sender.channel(),
{
    QueueHandle { sender: sender.sender.clone(), channel: sender.channel }
}

/// The proof that an entry has been put into a queue: only [`send`] makes one.
pub struct Sent {
    entry: Ghost<RunQueueEntry>,
    channel: Ghost<int>,
}

impl Sent {
    /// The entry that was put into the queue.
    pub closed spec fn entry(self) -> RunQueueEntry {
        self.entry@
    }

    /// The queue that it was put into.
    pub closed spec fn channel(self) -> int {
        self.channel@
    }
}

/// The proof that a queue has refused an entry: only [`send`] makes one.
pub struct Refused {
    entry: RunQueueEntry,
    channel: Ghost<int>,
}

impl Refused {
    /// The entry that was refused.
    pub closed spec fn entry(self) -> RunQueueEntry {
        self.entry
    }

    /// The queue that refused it.
    pub closed spec fn channel(self) -> int {
        self.channel@
    }

    /// The entry that was refused.
    pub fn into_entry(self) -> (entry: RunQueueEntry)
        ensures
            entry == self.entry(),
    {
        self.entry
    }
}

/// `flume::Sender::send` on a queue without a limit: it puts the entry at the end of the queue,
/// or hands that very entry back if the receiving end is gone.
///
/// Whether the receiving end is still there is up to its owner, so no clause says which it is.
#[verifier::external_body]
pub(crate) fn send(sender: &QueueHandle, entry: RunQueueEntry) -> (result: Result<Sent, Refused>)
    ensures
        match result {
            Ok(sent) => sent.entry() == entry && sent.channel() == sender.channel(),
            Err(refused) => refused.entry() == entry && refused.channel() == sender.channel(),
        },
{
    let sent = Sent { entry: Ghost(entry), channel: sender.channel };
    match sender.sender.send(entry) {
        Ok(()) => Ok(sent),
        Err(error) => Err(Refused { entry: error.0, channel: sender.channel }),
    }
}

/// What was found at the front of a queue when it was asked: only [`try_recv`] makes one.
pub struct Taken {
    entry: Option<RunQueueEntry>,
    channel: Ghost<int>,
}

impl Taken {
    /// The entry that was taken out of the queue, if there was one.
    pub closed spec fn entry(self) -> Option<RunQueueEntry> {
        self.entry
    }

    /// The queue that was asked.
    pub closed spec fn channel(self) -> int {
        self.channel@
    }

    /// Whether there was an entry.
    pub fn is_some(&self) -> (some: bool)
        ensures
            some == (self.entry() is Some),
    {
        self.entry.is_some()
    }

    /// The entry that was taken out of the queue, if there was one.
    pub fn into_entry(self) -> (entry: Option<RunQueueEntry>)
        ensures
            entry == self.entry(),
    {
        self.entry
    }
}

/// `flume::Receiver::try_recv`: the entry at the front of the queue, taken out of it, or none if
/// there is none at the moment.
///
/// Other threads put entries in meanwhile, so no clause says which it is.
#[verifier::external_body]
pub(crate) fn try_recv(receiver: &mut QueueReceiver) -> (taken: Taken)
    ensures
        taken.channel() == old(receiver).channel(),
        final(receiver).channel() == old(receiver).channel(),
        final(receiver).taken() == (match taken.entry() {
            Some(entry) => old(receiver).taken().push(entry),
            None => old(receiver).taken(),
        }),
{
    let entry = receiver.receiver.try_recv().ok();
    receiver.taken =
    Ghost(
        match entry {
            Some(entry) => receiver.taken@.push(entry),
            None => receiver.taken@,
        },
    );
    Taken { entry, channel: receiver.channel }
}

/// Whether a queue was empty when it was looked at: only [`is_empty`] makes one.
pub struct Looked {
    empty: bool,
    channel: Ghost<int>,
}

impl Looked {
    /// Whether the queue held no entry.
    pub closed spec fn empty(self) -> bool {
        self.empty
    }

    /// The queue that was looked at.
    pub closed spec fn channel(self) -> int {
        self.channel@
    }

    /// Whether the queue held no entry.
    pub fn is_empty(&self) -> (empty: bool)
        ensures
            empty == self.empty(),
    {
        self.empty
    }
}

/// `flume::Receiver::is_empty`: whether the queue holds no entry at the moment.
///
/// Other threads put entries in meanwhile, so no clause says what it holds.
#[verifier::external_body]
pub(crate) fn is_empty(receiver: &QueueReceiver) -> (looked: Looked)
    ensures
        looked.channel() == receiver.channel(),
{
    Looked { empty: receiver.receiver.is_empty(), channel: receiver.channel }
}

/// Where a task belongs.
pub struct TaskOrigin {
    /// The id of the task.
    pub task_id: nat,
    /// The run queue that the task is put into each time that it is ready to be polled.
    pub channel: int,
    /// What the function that a refused entry is handed to ensures of that entry.
    pub hands_over: spec_fn(Refused) -> bool,
}

/// A task that no queue has seen yet.
#[verifier::reject_recursive_types(F)]
pub(crate) struct NewTask<F: Future> {
    runnable: Runnable,
    task: Task<F::Output>,
    future: Ghost<F>,
    origin: Ghost<TaskOrigin>,
}

impl<F: Future> NewTask<F> {
    /// The handle on the task that `async_task` handed out.
    pub(crate) closed spec fn task(self) -> Task<F::Output> {
        self.task
    }

    /// The future that the task runs.
    pub(crate) closed spec fn future(self) -> F {
        self.future@
    }

    /// Where the task belongs.
    pub(crate) closed spec fn origin(self) -> TaskOrigin {
        self.origin@
    }
}

/// `async_task::spawn`: a new task that runs `future`. Each time that it is ready to be polled,
/// its schedule function puts it into the queue behind `sender` under the id `task_id`, or hands
/// the entry to `on_refused` if that queue refuses it.
#[verifier::external_body]
pub(crate) fn spawn_task<F, R>(
    future: F,
    task_id: usize,
    sender: QueueHandle,
    on_refused: R,
) -> (new_task: NewTask<F>) where
    F: Future + Send + 'static,
    F::Output: Send + 'static,
    R: Fn(Refused) + Send + Sync + 'static,

    requires
        forall|refused: Refused| call_requires(on_refused, (refused,)),
    ensures
        new_task.future() == future,
        new_task.origin().task_id == task_id,
        new_task.origin().channel == sender.channel(),
        forall|refused: Refused| #[trigger]
            (new_task.origin().hands_over)(refused) == call_ensures(on_refused, (refused,), ()),
{
    let ghost_future: Ghost<F> = Ghost(future);
    let origin: Ghost<TaskOrigin> = Ghost(
        TaskOrigin {
            task_id: task_id as nat,
            channel: sender.channel(),
            hands_over: |refused: Refused| call_ensures(on_refused, (refused,), ()),
        },
    );
    let schedule = move |runnable| { schedule_or(&sender, task_id, runnable, &on_refused); };
    let (runnable, task) = async_task::spawn(future, schedule);
    NewTask { runnable, task, future: ghost_future, origin }
}

/// The proof that a new task has been handed to its schedule function: only [`schedule_task`]
/// makes one.
#[verifier::reject_recursive_types(F)]
pub struct Started<F: Future> {
    task: Ghost<Task<F::Output>>,
    future: Ghost<F>,
    origin: Ghost<TaskOrigin>,
}

impl<F: Future> Started<F> {
    /// The task.
    pub closed spec fn task(self) -> Task<F::Output> {
        self.task@
    }

    /// The future that the task runs.
    pub closed spec fn future(self) -> F {
        self.future@
    }

    /// Where the task belongs.
    pub closed spec fn origin(self) -> TaskOrigin {
        self.origin@
    }
}

/// `async_task::Runnable::schedule`: hands a new task to its schedule function, that is, puts it
/// into its queue for the first time. The handle on the task stays.
#[verifier::external_body]
pub(crate) fn schedule_task<F: Future>(new_task: NewTask<F>, sender: &mut QueueSender) -> (started:
    (Task<F::Output>, Started<F>))
    requires
        new_task.origin().channel == old(sender).channel(),
    ensures
        started.0 == new_task.task(),
        started.1.task() == new_task.task(),
        started.1.future() == new_task.future(),
        started.1.origin() == new_task.origin(),
        final(sender).channel() == old(sender).channel(),
        final(sender).started() == old(sender).started().push(new_task.origin().task_id),
{
    let NewTask { runnable, task, future, origin } = new_task;
    runnable.schedule();
    sender.started = Ghost(sender.started@.push(origin@.task_id));
    let started = Started { task: Ghost(task), future, origin };
    (task, started)
}

/// The proof that a task has been detached: only [`detach_task`] makes one.
#[verifier::reject_recursive_types(O)]
pub struct Detached<O> {
    task: Ghost<Task<O>>,
}

impl<O> Detached<O> {
    /// The task that was detached.
    pub closed spec fn task(self) -> Task<O> {
        self.task@
    }
}

/// `async_task::Task::detach`: the task keeps running without a handle on it.
#[verifier::external_body]
pub(crate) fn detach_task<O>(task: Task<O>) -> (detached: Detached<O>)
    ensures
        detached.task() == task,
{
    let detached = Detached { task: Ghost(task) };
    task.detach();
    detached
}

/// The log of what became of the wakers that were handed to one context.
pub struct WakeLog {
    id: Ghost<int>,
    used: Ghost<Seq<Waker>>,
    declined: Ghost<Seq<Waker>>,
}

impl WakeLog {
    /// The log itself, as distinct from others.
    pub closed spec fn id(self) -> int {
        self.id@
    }

    /// The wakers that have been used, in order: only [`wake`] adds to them.
    pub closed spec fn used(self) -> Seq<Waker> {
        self.used@
    }

    /// The wakers that have been dropped unused as soon as they came, in order: only
    /// [`Wakes::decline`] adds to them.
    pub closed spec fn declined(self) -> Seq<Waker> {
        self.declined@
    }

    /// An empty log.
    pub(crate) fn new() -> (log: Self)
        ensures
            log.used() == Seq::<Waker>::empty(),
            log.declined() == Seq::<Waker>::empty(),
        opens_invariants none
    {
        WakeLog { id: Ghost(0), used: Ghost(Seq::empty()), declined: Ghost(Seq::empty()) }
    }
}

/// A waker whose use goes into one log. It cannot be copied.
pub struct LoggedWaker {
    waker: Waker,
    log: Ghost<int>,
}

impl LoggedWaker {
    /// The waker.
    pub closed spec fn waker(self) -> Waker {
        self.waker
    }

    /// The log.
    pub closed spec fn log(self) -> int {
        self.log@
    }

    /// Ties a waker to a log.
    pub(crate) fn new(waker: Waker, log: &WakeLog) -> (logged: Self)
        ensures
            logged.waker() == waker,
            logged.log() == log.id(),
        opens_invariants none
    {
        LoggedWaker { waker, log: Ghost(log.id()) }
    }
}

/// A waker, for those who may neither copy nor use it: all that can be done with it is to tie it
/// to a log, or to drop it and have that logged, and only one of the two.
pub trait Wakes: Sized {
    /// The waker.
    spec fn waker(self) -> Waker;

    /// Ties the waker to a log.
    fn tie(self, log: &WakeLog) -> (logged: LoggedWaker)
        ensures
            logged.waker() == self.waker(),
            logged.log() == log.id(),
        opens_invariants none
    ;

    /// Drops the waker unused.
    fn decline(self, log: &mut WakeLog)
        ensures
            final(log).id() == old(log).id(),
            final(log).used() == old(log).used(),
            final(log).declined() == old(log).declined().push(self.waker()),
        opens_invariants none
    ;
}

impl Wakes for Waker {
    open spec fn waker(self) -> Waker {
        self
    }

    fn tie(self, log: &WakeLog) -> LoggedWaker {
        LoggedWaker::new(self, log)
    }

    fn decline(self, log: &mut WakeLog) {
        log.declined = Ghost(log.declined@.push(self));
    }
}

/// `std::task::Waker::wake_by_ref`: wakes the task that the waker belongs to.
#[verifier::external_body]
pub(crate) fn wake(waker: LoggedWaker, log: &mut WakeLog)
    requires
        waker.log() == old(log).id(),
    ensures
        final(log).id() == old(log).id(),
        final(log).used() == old(log).used().push(waker.waker()),
        final(log).declined() == old(log).declined(),
{
    waker.waker.wake_by_ref();
    log.used = Ghost(log.used@.push(waker.waker()));
}

/// What the loop is told of an asked queue is what the queue gave, under the id and with the right
/// to poll that it was given with, whichever these are; and it is told that there was no entry
/// only if the queue gave none.
proof fn law_entry_is_told_as_it_was_given(taken: Taken)
    ensures
        taken.entry() is None <==> taken.entry is None,
        taken.entry is Some ==> {
            &&& taken.entry() is Some
            &&& (taken.entry()->0).0 == (taken.entry->0).0
            &&& (taken.entry()->0).1 == (taken.entry->0).1
        },
        taken.channel() == taken.channel@,
{
}

/// What is told of an entry that was sent is that very entry, and so is what is told of one that
/// was refused.
proof fn law_entry_is_told_as_it_was_sent(sent: Sent, refused: Refused)
    ensures
        sent.entry().0 == sent.entry@.0,
        sent.entry().1 == sent.entry@.1,
        sent.channel() == sent.channel@,
        refused.entry().0 == refused.entry.0,
        refused.entry().1 == refused.entry.1,
        refused.channel() == refused.channel@,
{
}

/// What is told of a queue that was looked at is what was seen.
proof fn law_look_is_told_as_it_was(looked: Looked)
    ensures
        looked.empty() <==> looked.empty,
        looked.channel() == looked.channel@,
{
}

/// The logs at the ends of a queue are told in full, entry by entry, as are the queues that the
/// ends belong to.
proof fn law_queue_logs_are_told_in_full(
    sender: QueueSender,
    handle: QueueHandle,
    receiver: QueueReceiver,
)
    ensures
        sender.channel() == sender.channel@,
        handle.channel() == handle.channel@,
        receiver.channel() == receiver.channel@,
        sender.started().len() == sender.started@.len(),
        forall|i: int|
            0 <= i < sender.started@.len() ==> #[trigger] sender.started()[i] == sender.started@[i],
        receiver.taken().len() == receiver.taken@.len(),
        forall|i: int|
            0 <= i < receiver.taken@.len() ==> #[trigger] receiver.taken()[i] == receiver.taken@[i],
{
}

/// What is told of a task, before and after it was started and when it is detached, is what
/// `async_task` was given and gave.
proof fn law_task_is_told_as_it_was_made<F: Future>(
    new_task: NewTask<F>,
    started: Started<F>,
    detached: Detached<F::Output>,
)
    ensures
        new_task.task() == new_task.task,
        new_task.future() == new_task.future@,
        new_task.origin() == new_task.origin@,
        started.task() == started.task@,
        started.future() == started.future@,
        started.origin() == started.origin@,
        detached.task() == detached.task@,
{
}

/// The log of wakes is told in full, waker by waker, and a waker that is tied to a log is told as
/// it came.
proof fn law_wake_log_is_told_in_full(log: WakeLog, logged: LoggedWaker)
    ensures
        log.id() == log.id@,
        log.used().len() == log.used@.len(),
        forall|i: int| 0 <= i < log.used@.len() ==> #[trigger] log.used()[i] == log.used@[i],
        log.declined().len() == log.declined@.len(),
        forall|i: int|
            0 <= i < log.declined@.len() ==> #[trigger] log.declined()[i] == log.declined@[i],
        logged.waker() == logged.waker,
        logged.log() == logged.log@,
{
}

/// A waker, for those who pass it on, is the waker that came.
pub proof fn law_waker_is_itself(waker: Waker)
    ensures
        waker.waker() == waker,
{
}

} // verus!
