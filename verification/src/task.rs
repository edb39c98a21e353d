//! Tasks: what one poll of them came to, and handles on them.
use async_task::Task;
use std::future::Future;
use vstd::prelude::*;

use crate::outside::{detach_task, Detached, Started, TaskOrigin};

verus! {

/// What one poll of a task came to.
#[derive(Clone, Copy, Debug, PartialEq, Eq, Structural)]
pub enum PollOutcome {
    /// The task has its output.
    Ready,
    /// The task waits for something.
    Pending,
    /// The task panicked.
    Panicked,
}

impl PollOutcome {
    /// Whether the task is over.
    pub open spec fn ends_task(self) -> bool {
        self != PollOutcome::Pending
    }
}

/// The id of the task that a test case starts with.
pub const ROOT_TASK: usize = 0;

/// Whether the end of a task's run is the panic of the root task, which fails the test case.
/// The panic of any other task does not.
pub fn is_root_panic(task_id: usize, panicked: bool) -> (root_panic: bool)
    ensures
        root_panic == (task_id == ROOT_TASK && panicked),
        root_panic <==> task_id == 0 && panicked,
{
    panicked && task_id == ROOT_TASK
}

/// A handle on a spawned task.
///
/// A detached task keeps running, but it can no longer be awaited. Detach the handle before it is
/// dropped: dropping a handle that is still attached cancels the task.
#[verifier::reject_recursive_types(O)]
pub struct JoinHandle<O> {
    task: Option<Task<O>>,
    origin: Ghost<TaskOrigin>,
}

impl<O> JoinHandle<O> {
    /// The task that can be awaited through this handle, as long as it is not detached.
    pub closed spec fn task(self) -> Option<Task<O>> {
        self.task
    }

    /// Where the task belongs.
    pub closed spec fn origin(self) -> TaskOrigin {
        self.origin@
    }

    /// A handle on a task that has been handed to its schedule function.
    pub(crate) fn new<F: Future<Output = O>>(task: Task<O>, started: &Started<F>) -> (handle: Self)
        requires
            task == started.task(),
        ensures
            handle.task() == Some(started.task()),
            handle.origin() == started.origin(),
    {
        JoinHandle { task: Some(task), origin: Ghost(started.origin()) }
    }

    /// The task, to be awaited.
    pub fn task_mut(&mut self) -> (task: &mut Task<O>)
        requires
            old(self).task() is Some,
        ensures
            Some(*task) == old(self).task(),
            final(self).task() == Some(*final(task)),
            final(self).origin() == old(self).origin(),
    {
        self.task.as_mut().unwrap()
    }

    /// Detaches the task, unless it is detached already.
    pub fn detach(&mut self) -> (detached: Option<Detached<O>>)
        ensures
            final(self).task() is None,
            final(self).origin() == old(self).origin(),
            match old(self).task() {
                Some(task) => detached matches Some(proof_of) && proof_of.task() == task,
                None => detached is None,
            },
    {
        match self.task.take() {
            Some(task) => Some(detach_task(task)),
            None => None,
        }
    }
}

/// A task is over when it has its output and when it panicked, and not while it is pending.
pub proof fn law_pending_task_is_not_over(outcome: PollOutcome)
    ensures
        outcome is Ready ==> outcome.ends_task(),
        outcome is Panicked ==> outcome.ends_task(),
        outcome is Pending ==> !outcome.ends_task(),
{
}

/// The root task is the first one.
pub proof fn law_root_task_comes_first(task_id: usize)
    ensures
        task_id == ROOT_TASK <==> task_id == 0,
{
}

/// What is told of a handle is what it holds.
proof fn law_handle_is_told_as_it_is<O>(handle: JoinHandle<O>)
    ensures
        handle.task() is None <==> handle.task is None,
        handle.task is Some ==> handle.task()->0 == handle.task->0,
        handle.origin() == handle.origin@,
{
}

} // verus!
