//! A run as a whole: the loop, the shared context, and where each task stands.
//!
//! The steps of the loop and of the tasks are those that the functions of [`crate::run_loop`] and
//! [`crate::context`] take. A run is any interleaving of them, and of wakes that come from outside
//! the run, in which a wait for the clock belongs to the task that began it, asks with that task's
//! own waker, and is given up at the latest when that task is over. What needs that no task is
//! woken from outside, by a timer say, is stated of undisturbed runs.
use std::task::Waker;
use vstd::prelude::*;

use crate::context::ContextView;
use crate::options::Options;
use crate::run_loop::{Event, Failure, Phase};
use crate::task::{PollOutcome, ROOT_TASK};
use crate::waiters::{lemma_without, wakers_in};

verus! {

/// Where a task stands.
pub enum TaskState {
    /// It is ready to be polled and has an entry in the run queue.
    Queued,
    /// A worker polls it, or is about to.
    Running,
    /// It is over, by its output or by a panic, and its worker is not idle yet.
    Leaving { panicked: bool },
    /// It waits to be woken.
    Pending,
    /// It is over, and its worker is idle.
    Done,
}

impl TaskState {
    /// Whether the task is not over.
    pub open spec fn live(self) -> bool {
        !(self is Leaving) && !(self is Done)
    }

    /// Whether a worker is busy with the task.
    pub open spec fn busy(self) -> bool {
        self is Running || self is Leaving
    }
}

/// How many of the tasks are not over.
pub open spec fn live_count(tasks: Seq<TaskState>) -> nat
    decreases tasks.len(),
{
    if tasks.len() == 0 {
        0
    } else {
        live_count(tasks.drop_last()) + if tasks.last().live() {
            1nat
        } else {
            0nat
        }
    }
}

/// A run at one moment.
#[verifier::ext_equal]
pub struct System {
    /// The work that the loop does next.
    pub phase: Phase,
    /// What the tasks share.
    pub context: ContextView,
    /// Where each task stands, by its id.
    pub tasks: Seq<TaskState>,
    /// The task that each wait for the clock belongs to, by the id of the wait.
    pub waits: Seq<int>,
    /// Whether a worker has told that the root task panicked.
    pub root_panicked: bool,
}

/// What happens next in a run.
pub enum Step {
    /// The loop takes the entry of `task` out of the queue.
    Receive { task: int },
    /// The loop finds the queue empty.
    Drain,
    /// The loop has handed the entry to the workers.
    Dispatch,
    /// The loop finds that no worker runs a task.
    Join,
    /// The loop ends the run, or moves the clock on and wakes the tasks that wait for it.
    Settle,
    /// The task `by`, with which a worker is busy, spawns a task.
    Spawn { by: int },
    /// The task `by`, with which a worker is busy, wakes `task`. A task that is pending is queued;
    /// what the waking of a task that runs comes to is told when it returns.
    Wake { by: int, task: int },
    /// Something outside the run wakes `task`, with the same effect.
    Outside { task: int },
    /// The task `by`, with which a worker is busy, begins a wait for the clock.
    Begin { by: int },
    /// The task `by`, with which a worker is busy, asks for the tick of one of its waits.
    Await { by: int, wait: usize, tick: nat, waker: Waker },
    /// The task `by`, with which a worker is busy, gives up one of its waits.
    GiveUp { by: int, wait: usize },
    /// One poll of `task` is over. If it is pending, it may have been woken while it ran, and is
    /// then to be polled `again`.
    Return { task: int, outcome: PollOutcome, again: bool },
    /// The worker of `task`, which is over and has no wait left, becomes idle.
    Leave { task: int },
}

/// Whether nothing outside the run wakes a task in the steps.
pub open spec fn closed(steps: Seq<Step>) -> bool {
    forall|i: int| 0 <= i < steps.len() ==> !(#[trigger] steps[i] is Outside)
}

impl System {
    /// The start of a run: the root task has been spawned and is in the queue.
    pub open spec fn start(channel: int, options: Options) -> System {
        System {
            phase: Phase::Receiving,
            context: ContextView::fresh(channel, options).spawned(),
            tasks: seq![TaskState::Queued],
            waits: seq![],
            root_panicked: false,
        }
    }

    /// Whether `task` is a task in the given state.
    pub open spec fn stands(self, task: int, state: TaskState) -> bool {
        0 <= task < self.tasks.len() && self.tasks[task] == state
    }

    /// Whether a worker is busy with `task`.
    pub open spec fn busy(self, task: int) -> bool {
        0 <= task < self.tasks.len() && self.tasks[task].busy()
    }

    /// Whether the run queue holds no entry.
    pub open spec fn queue_empty(self) -> bool {
        forall|task: int|
            0 <= task < self.tasks.len() ==> #[trigger] self.tasks[task] != TaskState::Queued
    }

    /// Whether no worker is busy.
    pub open spec fn workers_idle(self) -> bool {
        forall|task: int| 0 <= task < self.tasks.len() ==> !(#[trigger] self.tasks[task]).busy()
    }

    /// Whether every task that is not over is pending.
    pub open spec fn all_pending(self) -> bool {
        forall|task: int|
            0 <= task < self.tasks.len() && (#[trigger] self.tasks[task]).live()
                ==> self.tasks[task] == TaskState::Pending
    }

    /// Whether every task is over.
    pub open spec fn all_done(self) -> bool {
        forall|task: int|
            0 <= task < self.tasks.len() ==> #[trigger] self.tasks[task] == TaskState::Done
    }

    /// Whether the root task has panicked, whether or not its worker has told so yet.
    pub open spec fn root_has_panicked(self) -> bool {
        self.root_panicked || self.stands(
            ROOT_TASK as int,
            TaskState::Leaving { panicked: true },
        )
    }

    /// Whether `wait` is a wait of `task`.
    pub open spec fn owns(self, task: int, wait: usize) -> bool {
        wait < self.waits.len() && self.waits[wait as int] == task
    }

    /// Whether a wait of `task` waits for the clock.
    pub open spec fn awaits(self, task: int) -> bool {
        exists|entry: (usize, Waker)| #[trigger]
            self.context.wakers.contains(entry) && self.owns(task, entry.0)
    }

    /// Whether some task that is not over waits for the clock.
    pub open spec fn clock_awaited(self) -> bool {
        exists|task: int|
            0 <= task < self.tasks.len() && (#[trigger] self.tasks[task]).live() && self.awaits(
                task,
            )
    }

    /// Where each task stands after the wakers that wait for the clock have been used: a pending
    /// task is woken, and a task that is over is not.
    pub open spec fn tasks_woken(self) -> Seq<TaskState> {
        Seq::new(
            self.tasks.len(),
            |task: int|
                if self.awaits(task) && self.tasks[task] == TaskState::Pending {
                    TaskState::Queued
                } else {
                    self.tasks[task]
                },
        )
    }

    /// The run after `task` has been woken.
    pub open spec fn woken(self, task: int) -> System {
        System {
            tasks: if self.stands(task, TaskState::Pending) {
                self.tasks.update(task, TaskState::Queued)
            } else {
                self.tasks
            },
            ..self
        }
    }

    /// Whether the step can happen.
    pub open spec fn can(self, step: Step) -> bool {
        match step {
            Step::Receive { task } => self.phase == Phase::Receiving && self.stands(
                task,
                TaskState::Queued,
            ),
            Step::Drain => self.phase == Phase::Receiving && self.queue_empty(),
            Step::Dispatch => self.phase == Phase::Dispatching,
            Step::Join => self.phase == Phase::Joining && self.workers_idle(),
            Step::Settle => self.phase == Phase::Settling,
            Step::Spawn { by } => self.busy(by),
            Step::Wake { by, task } => self.busy(by) && 0 <= task < self.tasks.len(),
            Step::Outside { task } => 0 <= task < self.tasks.len(),
            Step::Begin { by } => self.busy(by),
            Step::Await { by, wait, tick, waker } => self.busy(by) && self.owns(by, wait),
            Step::GiveUp { by, wait } => self.busy(by) && self.owns(by, wait),
            Step::Return { task, outcome, again } => self.stands(task, TaskState::Running),
            Step::Leave { task } => self.busy(task) && self.tasks[task] is Leaving
                && !self.awaits(task),
        }
    }

    /// The run after the step.
    pub open spec fn after(self, step: Step) -> System {
        match step {
            Step::Receive { task } => System {
                phase: self.phase.after(Event::Received),
                tasks: self.tasks.update(task, TaskState::Running),
                ..self
            },
            Step::Drain => System { phase: self.phase.after(Event::Drained), ..self },
            Step::Dispatch => System {
                phase: self.phase.after(Event::Dispatched { root_panicked: self.root_panicked }),
                ..self
            },
            Step::Join => System {
                phase: self.phase.after(
                    Event::Joined {
                        root_panicked: self.root_panicked,
                        queue_empty: self.queue_empty(),
                    },
                ),
                ..self
            },
            Step::Settle => System {
                phase: self.phase.after(
                    Event::Settled {
                        active: self.context.task_active > 0,
                        waiting: self.context.wakers.len() > 0,
                    },
                ),
                context: self.context.settled(),
                tasks: if self.context.task_active > 0 {
                    self.tasks_woken()
                } else {
                    self.tasks
                },
                ..self
            },
            Step::Spawn { by } => System {
                context: self.context.spawned(),
                tasks: self.tasks.push(TaskState::Queued),
                ..self
            },
            Step::Wake { by, task } => self.woken(task),
            Step::Outside { task } => self.woken(task),
            Step::Begin { by } => System {
                context: self.context.wait_begun(),
                waits: self.waits.push(by),
                ..self
            },
            Step::Await { by, wait, tick, waker } => System {
                context: self.context.waited(wait, tick, waker),
                ..self
            },
            Step::GiveUp { by, wait } => System {
                context: self.context.cancelled(wait),
                ..self
            },
            Step::Return { task, outcome, again } => System {
                context: self.context.polled(outcome),
                tasks: self.tasks.update(
                    task,
                    if outcome.ends_task() {
                        TaskState::Leaving { panicked: outcome == PollOutcome::Panicked }
                    } else if again {
                        TaskState::Queued
                    } else {
                        TaskState::Pending
                    },
                ),
                ..self
            },
            Step::Leave { task } => System {
                tasks: self.tasks.update(task, TaskState::Done),
                root_panicked: self.root_panicked || (task == ROOT_TASK
                    && self.tasks[task]->panicked),
                ..self
            },
        }
    }

    /// The run after a sequence of steps.
    pub open spec fn run(self, steps: Seq<Step>) -> System
        decreases steps.len(),
    {
        if steps.len() == 0 {
            self
        } else {
            self.run(steps.drop_last()).after(steps.last())
        }
    }

    /// Whether the steps can happen one after the other.
    pub open spec fn can_run(self, steps: Seq<Step>) -> bool
        decreases steps.len(),
    {
        steps.len() > 0 ==> self.can_run(steps.drop_last()) && self.run(steps.drop_last()).can(
            steps.last(),
        )
    }

    /// Whether this is a moment of some run.
    pub open spec fn reachable(self) -> bool {
        exists|channel: int, options: Options, steps: Seq<Step>|
            {
                &&& System::start(channel, options).can_run(steps)
                &&& #[trigger] System::start(channel, options).run(steps) == self
            }
    }

    /// Whether this is a moment of some run in which nothing outside the run wakes a task.
    pub open spec fn undisturbed(self) -> bool {
        exists|channel: int, options: Options, steps: Seq<Step>|
            {
                &&& System::start(channel, options).can_run(steps)
                &&& #[trigger] System::start(channel, options).run(steps) == self
                &&& closed(steps)
            }
    }

    /// What holds at every moment of every run.
    spec fn inv(self) -> bool {
        &&& self.tasks.len() == self.context.task_id
        &&& self.tasks.len() > 0
        &&& self.context.task_active == live_count(self.tasks)
        &&& self.waits.len() == self.context.wait_id
        &&& forall|wait: int|
            0 <= wait < self.waits.len() ==> 0 <= #[trigger] self.waits[wait] < self.tasks.len()
        &&& forall|entry: (usize, Waker)| #[trigger]
            self.context.wakers.contains(entry) ==> {
                &&& entry.0 < self.waits.len()
                &&& self.tasks[self.waits[entry.0 as int]] != TaskState::Done
            }
        &&& self.context.started == Seq::new(self.tasks.len(), |i: int| i as nat)
        &&& self.settled() ==> self.workers_idle() && !self.root_panicked
        &&& self.phase == Phase::Finished ==> self.context.task_active == 0
        &&& self.phase == Phase::Failed(Failure::Deadlock) ==> self.context.task_active > 0
            && self.context.wakers.len() == 0
        &&& self.phase == Phase::Failed(Failure::RootTaskPanic) ==> self.root_panicked
        &&& self.root_panicked ==> self.tasks[ROOT_TASK as int] == TaskState::Done
    }

    /// The phases after the queue was found empty and the workers idle.
    spec fn settled(self) -> bool {
        ||| self.phase == Phase::Settling
        ||| self.phase == Phase::Finished
        ||| self.phase == Phase::Failed(Failure::Deadlock)
    }
}

/// Changing the state of one task changes the count by that task.
proof fn lemma_live_count_update(tasks: Seq<TaskState>, task: int, state: TaskState)
    requires
        0 <= task < tasks.len(),
    ensures
        live_count(tasks.update(task, state)) == live_count(tasks) + (if state.live() {
            1int
        } else {
            0
        }) - (if tasks[task].live() {
            1int
        } else {
            0
        }),
    decreases tasks.len(),
{
    let updated = tasks.update(task, state);
    if task == tasks.len() - 1 {
        assert(updated.drop_last() =~= tasks.drop_last());
    } else {
        assert(updated.drop_last() =~= tasks.drop_last().update(task, state));
        lemma_live_count_update(tasks.drop_last(), task, state);
    }
}

/// The count depends only on which tasks are over.
proof fn lemma_live_count_same(left: Seq<TaskState>, right: Seq<TaskState>)
    requires
        left.len() == right.len(),
        forall|task: int|
            0 <= task < left.len() ==> (#[trigger] left[task]).live() == right[task].live(),
    ensures
        live_count(left) == live_count(right),
    decreases left.len(),
{
    if left.len() > 0 {
        lemma_live_count_same(left.drop_last(), right.drop_last());
        assert(left[left.len() - 1].live() == right[left.len() - 1].live());
    }
}

/// The count is 0 if and only if every task is over.
proof fn lemma_live_count_zero(tasks: Seq<TaskState>)
    ensures
        live_count(tasks) == 0 <==> forall|task: int|
            0 <= task < tasks.len() ==> !(#[trigger] tasks[task]).live(),
    decreases tasks.len(),
{
    if tasks.len() > 0 {
        let front = tasks.drop_last();
        lemma_live_count_zero(front);
        if live_count(tasks) == 0 {
            assert forall|task: int| 0 <= task < tasks.len() implies !(
            #[trigger] tasks[task]).live() by {
                if task < tasks.len() - 1 {
                    assert(front[task] == tasks[task]);
                }
            }
        } else if forall|task: int|
            0 <= task < tasks.len() ==> !(#[trigger] tasks[task]).live() {
            assert forall|task: int| 0 <= task < front.len() implies !(
            #[trigger] front[task]).live() by {
                assert(front[task] == tasks[task]);
            }
            assert(!tasks[tasks.len() - 1].live());
        }
    }
}

/// After the workers were found idle, all tasks are over if and only if the count of active tasks
/// is 0, and a waker waits for the clock if and only if a task that is not over waits for it.
proof fn lemma_settled(system: System)
    requires
        system.inv(),
        system.settled(),
    ensures
        system.all_done() <==> system.context.task_active == 0,
        system.clock_awaited() <==> system.context.wakers.len() > 0,
{
    if system.context.wakers.len() > 0 {
        let entry = system.context.wakers[0];
        assert(system.context.wakers.contains(entry));
        let task = system.waits[entry.0 as int];
        assert(system.tasks[task].live());
        assert(system.owns(task, entry.0));
    }
    lemma_live_count_zero(system.tasks);
}

/// Each step keeps what holds of every run.
proof fn lemma_step(system: System, step: Step)
    requires
        system.inv(),
        system.can(step),
    ensures
        system.after(step).inv(),
{
    let after = system.after(step);
    match step {
        Step::Receive { task } => lemma_live_count_update(system.tasks, task, TaskState::Running),
        Step::Drain | Step::Dispatch | Step::Join => {},
        Step::Begin { .. } => {
            assert forall|entry: (usize, Waker)| #[trigger]
                after.context.wakers.contains(entry) implies after.waits[entry.0 as int]
                == system.waits[entry.0 as int] by {
                assert(system.context.wakers.contains(entry));
            }
        },
        Step::Await { by, wait, tick, waker } => {
            if !system.context.reached(tick) {
                assert forall|entry: (usize, Waker)| #[trigger]
                    after.context.wakers.contains(entry) implies entry == (wait, waker)
                    || system.context.wakers.contains(entry) by {
                    let i = choose|i: int|
                        0 <= i < after.context.wakers.len() && after.context.wakers[i] == entry;
                    if i < system.context.wakers.len() {
                        assert(system.context.wakers[i] == entry);
                    }
                }
            }
        },
        Step::GiveUp { by, wait } => lemma_without(system.context.wakers, wait),
        Step::Settle => {
            lemma_live_count_same(system.tasks, after.tasks);
            lemma_settled(system);
            if system.context.wakers.len() == 0 {
                assert(after.tasks =~= system.tasks);
            }
        },
        Step::Spawn { by } => {
            assert(after.tasks.drop_last() =~= system.tasks);
            assert(after.context.started =~= Seq::new(after.tasks.len(), |i: int| i as nat));
        },
        Step::Wake { task, .. } | Step::Outside { task } => {
            lemma_live_count_update(system.tasks, task, TaskState::Queued);
        },
        Step::Return { task, .. } => {
            lemma_live_count_update(system.tasks, task, after.tasks[task]);
        },
        Step::Leave { task } => {
            lemma_live_count_update(system.tasks, task, TaskState::Done);
            assert forall|entry: (usize, Waker)| #[trigger]
                after.context.wakers.contains(entry) implies system.waits[entry.0 as int]
                != task by {
                assert(system.owns(system.waits[entry.0 as int], entry.0));
            }
        },
    }
}

/// What holds of every run holds after any steps.
proof fn lemma_run(channel: int, options: Options, steps: Seq<Step>)
    requires
        System::start(channel, options).can_run(steps),
    ensures
        System::start(channel, options).run(steps).inv(),
    decreases steps.len(),
{
    let start = System::start(channel, options);
    if steps.len() > 0 {
        lemma_run(channel, options, steps.drop_last());
        lemma_step(start.run(steps.drop_last()), steps.last());
    } else {
        assert(start.tasks.drop_last() =~= Seq::<TaskState>::empty());
        assert(start.context.started =~= Seq::new(start.tasks.len(), |i: int| i as nat));
        reveal_with_fuel(live_count, 2);
    }
}

/// What holds of every run holds at each of its moments.
proof fn lemma_reachable(system: System)
    requires
        system.reachable(),
    ensures
        system.inv(),
{
    let (channel, options, steps) = choose|channel: int, options: Options, steps: Seq<Step>|
        {
            &&& System::start(channel, options).can_run(steps)
            &&& #[trigger] System::start(channel, options).run(steps) == system
        };
    lemma_run(channel, options, steps);
}

/// In an undisturbed run, the queue stays empty after it was found so.
proof fn lemma_closed_run(channel: int, options: Options, steps: Seq<Step>)
    requires
        System::start(channel, options).can_run(steps),
        closed(steps),
    ensures
        System::start(channel, options).run(steps).settled() ==> System::start(
            channel,
            options,
        ).run(steps).queue_empty(),
    decreases steps.len(),
{
    if steps.len() > 0 {
        let front = steps.drop_last();
        let before = System::start(channel, options).run(front);
        assert forall|i: int| 0 <= i < front.len() implies !(#[trigger] front[i] is Outside) by {
            assert(front[i] == steps[i]);
        }
        lemma_closed_run(channel, options, front);
        lemma_run(channel, options, front);
        assert(!(steps[steps.len() - 1] is Outside));
        if before.settled() {
            lemma_settled(before);
        }
    }
}

/// In an undisturbed run, every task that is not over is pending after the queue was found empty
/// and the workers idle.
proof fn lemma_undisturbed(system: System)
    requires
        system.undisturbed(),
    ensures
        system.reachable(),
        system.settled() ==> system.all_pending(),
{
    let (channel, options, steps) = choose|channel: int, options: Options, steps: Seq<Step>|
        {
            &&& System::start(channel, options).can_run(steps)
            &&& #[trigger] System::start(channel, options).run(steps) == system
            &&& closed(steps)
        };
    lemma_run(channel, options, steps);
    lemma_closed_run(channel, options, steps);
}

/// The clock of a run moves only forward, by one tick at a time, and only when some task is not
/// over and some task waits for the clock. In an undisturbed run it moves only when every task
/// that is not over is pending.
pub proof fn law_clock_moves_only_when_all_are_pending(system: System, step: Step)
    requires
        system.reachable(),
        system.can(step),
    ensures
        system.after(step).context.tick != system.context.tick ==> {
            &&& step is Settle
            &&& system.undisturbed() ==> system.all_pending()
            &&& !system.all_done()
            &&& system.clock_awaited()
            &&& system.after(step).context.tick == system.context.tick + 1
        },
{
    lemma_reachable(system);
    if system.phase == Phase::Settling {
        lemma_settled(system);
    }
    if system.undisturbed() {
        lemma_undisturbed(system);
    }
}

/// When the queue was found empty and the workers idle: if all tasks are over, the run is
/// finished. If some are not and a task waits for the clock, the clock moves on by one tick, every
/// task that waited for it, each with its own waker, is queued, nobody waits for it any more, and
/// the run goes on. If some are not and none waits for the clock, the run has failed by a deadlock.
/// In an undisturbed run, every task that is not over is pending then.
pub proof fn law_settling(system: System)
    requires
        system.reachable(),
        system.can(Step::Settle),
    ensures
        system.undisturbed() ==> system.all_pending(),
        ({
            let after = system.after(Step::Settle);
            if system.all_done() {
                after.phase == Phase::Finished && after.context == system.context
            } else if system.clock_awaited() {
                &&& after.phase == Phase::Receiving
                &&& after.context.tick == system.context.tick + 1
                &&& after.context.used == system.context.used + wakers_in(system.context.wakers)
                &&& after.context.used.len() == system.context.used.len()
                    + system.context.wakers.len()
                &&& forall|i: int|
                    0 <= i < system.context.wakers.len()
                        ==> after.context.used[system.context.used.len() + i] == (
                    #[trigger] system.context.wakers[i]).1
                &&& !after.clock_awaited()
                &&& forall|task: int|
                    0 <= task < system.tasks.len() && #[trigger] system.awaits(task)
                        ==> after.stands(task, TaskState::Queued)
            } else {
                &&& after.phase == Phase::Failed(Failure::Deadlock)
                &&& after.context == system.context
            }
        }),
{
    lemma_reachable(system);
    lemma_settled(system);
    if system.undisturbed() {
        lemma_undisturbed(system);
    }
}

/// A run that is finished has no task that is not over.
pub proof fn law_finished_run_is_complete(system: System)
    requires
        system.reachable(),
        system.phase == Phase::Finished,
    ensures
        system.all_done(),
        system.context.task_active == 0,
        !system.root_panicked,
{
    lemma_reachable(system);
    lemma_settled(system);
}

/// A run that has failed by a deadlock has a task that is not over, and none of these waits for
/// the clock. If the run is undisturbed, all of these are pending.
pub proof fn law_deadlock_is_real(system: System)
    requires
        system.reachable(),
        system.phase == Phase::Failed(Failure::Deadlock),
    ensures
        system.undisturbed() ==> system.all_pending(),
        !system.all_done(),
        system.context.task_active > 0,
        !system.clock_awaited(),
        system.context.wakers.len() == 0,
{
    lemma_reachable(system);
    lemma_settled(system);
    if system.undisturbed() {
        lemma_undisturbed(system);
    }
}

/// The panic of the root task, and of no other task, fails a run: a run has failed by a panic
/// only if the root task has panicked, and once it has, the clock never moves again and the run
/// can neither finish nor deadlock.
pub proof fn law_root_panic_fails_the_run(system: System, step: Step)
    requires
        system.reachable(),
        system.can(step),
    ensures
        system.phase == Phase::Failed(Failure::RootTaskPanic) ==> system.root_has_panicked(),
        system.root_has_panicked() ==> {
            &&& system.after(step).root_has_panicked()
            &&& system.phase != Phase::Settling
            &&& system.phase != Phase::Finished
            &&& system.phase != Phase::Failed(Failure::Deadlock)
            &&& system.after(step).context.tick == system.context.tick
        },
        !system.root_has_panicked() && system.after(step).root_has_panicked() ==> {
            &&& step is Return
            &&& step->Return_task == ROOT_TASK
            &&& step->Return_outcome == PollOutcome::Panicked
        },
{
    lemma_reachable(system);
}

/// The count of active tasks is the number of tasks that are not over. The id of the next task is
/// the number of tasks that there are, so no two tasks share an id. Each task was put into the
/// queue once when it was spawned, under its own id and in the order of the ids.
pub proof fn law_tasks_are_counted(system: System)
    requires
        system.reachable(),
    ensures
        system.context.task_active == live_count(system.tasks),
        system.context.task_id == system.tasks.len(),
        system.context.started == Seq::new(system.tasks.len(), |i: int| i as nat),
{
    lemma_reachable(system);
}

/// Only spawning makes tasks, one at a time.
pub proof fn law_only_spawning_makes_tasks(system: System, step: Step)
    requires
        system.can(step),
    ensures
        system.after(step).context.task_id == system.context.task_id + (if step is Spawn {
            1int
        } else {
            0
        }),
{
}

/// A run that is neither finished nor failed can always go on.
pub proof fn law_run_is_never_stuck(system: System)
    requires
        system.reachable(),
        system.phase != Phase::Finished,
        !(system.phase is Failed),
    ensures
        exists|step: Step| #[trigger] system.can(step),
{
    match system.phase {
        Phase::Receiving => {
            if system.queue_empty() {
                assert(system.can(Step::Drain));
            } else {
                let task = choose|task: int|
                    0 <= task < system.tasks.len() && #[trigger] system.tasks[task]
                        == TaskState::Queued;
                assert(system.can(Step::Receive { task }));
            }
        },
        Phase::Dispatching => {
            assert(system.can(Step::Dispatch));
        },
        Phase::Joining => {
            if system.workers_idle() {
                assert(system.can(Step::Join));
            } else {
                let task = choose|task: int|
                    0 <= task < system.tasks.len() && (#[trigger] system.tasks[task]).busy();
                if system.tasks[task] is Running {
                    assert(system.can(
                        Step::Return { task, outcome: PollOutcome::Ready, again: false },
                    ));
                } else {
                    if system.awaits(task) {
                        let entry = choose|entry: (usize, Waker)| #[trigger]
                            system.context.wakers.contains(entry) && system.owns(task, entry.0);
                        assert(system.can(Step::GiveUp { by: task, wait: entry.0 }));
                    } else {
                        assert(system.can(Step::Leave { task }));
                    }
                }
            }
        },
        Phase::Settling => {
            assert(system.can(Step::Settle));
        },
        _ => {},
    }
}

/// A run that is finished or failed stays so, and its clock stands still.
pub proof fn law_end_is_final(system: System, step: Step)
    requires
        system.reachable(),
        system.phase == Phase::Finished || system.phase is Failed,
        system.can(step),
    ensures
        system.after(step).phase == system.phase,
        system.after(step).context.tick == system.context.tick,
{
    lemma_reachable(system);
}

/// The clock never goes back in a run, so its ticks come in order: once a tick has been reached,
/// it and every tick before it have been reached for good.
pub proof fn law_ticks_come_in_order(system: System, steps: Seq<Step>, earlier: nat, later: nat)
    requires
        earlier <= later,
        system.context.reached(later),
    ensures
        system.context.tick <= system.run(steps).context.tick,
        system.run(steps).context.reached(earlier),
    decreases steps.len(),
{
    if steps.len() > 0 {
        law_ticks_come_in_order(system, steps.drop_last(), earlier, later);
    }
}

/// Whether `task` has asked for a tick since it was last taken out of the queue.
pub open spec fn asked(steps: Seq<Step>, task: int) -> bool
    decreases steps.len(),
{
    if steps.len() == 0 {
        false
    } else {
        match steps.last() {
            Step::Await { by, .. } if by == task => true,
            Step::Receive { task: received } if received == task => false,
            _ => asked(steps.drop_last(), task),
        }
    }
}

impl System {
    /// Whether all that `task` does in the steps is to await `tick`: each time that it is polled,
    /// it asks once for the tick, and if the clock has not reached it, the poll is over and the
    /// task is pending.
    pub open spec fn only_awaits(self, steps: Seq<Step>, task: int, tick: nat) -> bool
        decreases steps.len(),
    {
        steps.len() > 0 ==> {
            let front = steps.drop_last();
            &&& self.only_awaits(front, task, tick)
            &&& match steps.last() {
                Step::Spawn { by } => by != task,
                Step::Wake { by, .. } => by != task,
                Step::Begin { by } => by != task || !asked(front, task),
                Step::Await { by, tick: wanted, .. } => by != task || (wanted == tick && !asked(
                    front,
                    task,
                )),
                Step::GiveUp { by, .. } => by != task,
                Step::Return { task: returned, outcome, .. } => returned != task || {
                    &&& outcome == PollOutcome::Pending
                    &&& asked(front, task)
                    &&& !self.run(front).context.reached(tick)
                },
                _ => true,
            }
        }
    }
}

/// What holds while a task that ran at `start` does nothing but await `tick`.
proof fn lemma_only_awaits(start: System, steps: Seq<Step>, task: int, tick: nat)
    requires
        start.inv(),
        start.stands(task, TaskState::Running),
        start.can_run(steps),
        start.only_awaits(steps, task, tick),
    ensures
        start.run(steps).inv(),
        ({
            let end = start.run(steps);
            &&& start.context.tick <= end.context.tick
            &&& end.context.tick <= start.context.tick || end.context.tick <= tick
            &&& 0 <= task < end.tasks.len()
            &&& {
                ||| end.stands(task, TaskState::Queued)
                ||| end.stands(task, TaskState::Running)
                ||| end.stands(task, TaskState::Pending)
            }
            &&& end.stands(task, TaskState::Pending) ==> end.awaits(task) && !end.context.reached(
                tick,
            )
            &&& end.stands(task, TaskState::Running) && asked(steps, task)
                && !end.context.reached(tick) ==> end.awaits(task)
            &&& end.phase == Phase::Settling ==> end.awaits(task) && !end.context.reached(tick)
        }),
    decreases steps.len(),
{
    if steps.len() > 0 {
        let front = steps.drop_last();
        let step = steps.last();
        lemma_only_awaits(start, front, task, tick);
        let before = start.run(front);
        let end = start.run(steps);
        assert(end == before.after(step));
        lemma_step(before, step);
        if before.settled() {
            lemma_settled(before);
        }
        if before.awaits(task) {
            let entry = choose|entry: (usize, Waker)| #[trigger]
                before.context.wakers.contains(entry) && before.owns(task, entry.0);
            match step {
                Step::GiveUp { by, wait } => {
                    lemma_without(before.context.wakers, wait);
                    assert(end.context.wakers.contains(entry) && end.owns(task, entry.0));
                },
                Step::Await { wait, tick: wanted, waker, .. } => {
                    if !before.context.reached(wanted) {
                        let i = choose|i: int|
                            0 <= i < before.context.wakers.len() && before.context.wakers[i]
                                == entry;
                        assert(end.context.wakers[i] == entry);
                    }
                    assert(end.context.wakers.contains(entry) && end.owns(task, entry.0));
                },
                Step::Settle => {},
                _ => {
                    assert(end.context.wakers.contains(entry) && end.owns(task, entry.0));
                },
            }
        }
        match step {
            Step::Await { by, wait, tick: wanted, waker } => {
                if by == task && !before.context.reached(tick) {
                    let entry = (wait, waker);
                    assert(end.context.wakers.last() == entry);
                    assert(end.context.wakers.contains(entry) && end.owns(task, entry.0));
                }
            },
            _ => {},
        }
    }
}

/// A task that awaits tick `tick`, among whatever other tasks and whoever wakes them, goes on with
/// the clock at the larger of `tick` and the tick at which it began to wait: until then it is
/// pending each time that it has asked, and the clock never passes both of them while the task
/// waits. As in every run here, it asks with its own waker, so that the clock wakes it.
pub proof fn law_awaiting_task_goes_on_at_its_tick(
    start: System,
    steps: Seq<Step>,
    task: int,
    tick: nat,
)
    requires
        start.reachable(),
        start.stands(task, TaskState::Running),
        start.can_run(steps),
        start.only_awaits(steps, task, tick),
    ensures
        ({
            let end = start.run(steps);
            let resumes = if tick >= start.context.tick {
                tick
            } else {
                start.context.tick
            };
            &&& end.context.tick <= resumes
            &&& end.stands(task, TaskState::Pending) ==> end.context.tick < resumes
            &&& end.context.reached(tick) <==> end.context.tick == resumes
        }),
{
    lemma_reachable(start);
    lemma_only_awaits(start, steps, task, tick);
}

impl System {
    /// The same moment of a run with other options.
    pub open spec fn with_options(self, options: Options) -> System {
        System { context: ContextView { options, ..self.context }, ..self }
    }
}

/// Of one step, the options of a run decide nothing.
proof fn lemma_options_step(system: System, options: Options, step: Step)
    ensures
        system.with_options(options).can(step) == system.can(step),
        system.with_options(options).after(step) == system.after(step).with_options(options),
{
    let other = system.with_options(options);
    match step {
        Step::Settle => {
            assert forall|task: int| other.awaits(task) == system.awaits(task) by {
                assert(forall|wait: usize| other.owns(task, wait) == system.owns(task, wait));
            }
            assert(other.tasks_woken() =~= system.tasks_woken());
        },
        Step::Leave { task } => {
            assert(forall|wait: usize| other.owns(task, wait) == system.owns(task, wait));
        },
        _ => {},
    }
}

/// The options of a run decide nothing of what it does: with other options it can take the same
/// steps, and is after them where it would have been, but for the options.
pub proof fn law_options_decide_nothing(system: System, options: Options, steps: Seq<Step>)
    ensures
        system.with_options(options).can_run(steps) == system.can_run(steps),
        system.with_options(options).run(steps) == system.run(steps).with_options(options),
    decreases steps.len(),
{
    if steps.len() > 0 {
        law_options_decide_nothing(system, options, steps.drop_last());
        lemma_options_step(system.run(steps.drop_last()), options, steps.last());
    }
}

/// Every run starts afresh, with the options that it was given and whatever came of runs before
/// it: the clock is at 0, nobody waits for it and no waker has been used, and the root task, under
/// the id 0, is the only task, is active, and is queued.
pub proof fn law_every_run_starts_afresh(channel: int, options: Options)
    ensures
        ({
            let start = System::start(channel, options);
            &&& start.undisturbed()
            &&& start.phase == Phase::Receiving
            &&& start.context.options == options
            &&& start.context.channel == channel
            &&& start.context.tick == 0
            &&& start.context.used.len() == 0
            &&& start.context.started.len() == 1
            &&& start.context.wakers.len() == 0
            &&& start.context.wait_id == 0
            &&& start.context.task_id == 1
            &&& start.context.task_active == 1
            &&& start.tasks.len() == 1
            &&& start.stands(ROOT_TASK as int, TaskState::Queued)
            &&& !start.root_has_panicked()
        }),
{
    let start = System::start(channel, options);
    let steps = Seq::<Step>::empty();
    assert(start.can_run(steps) && closed(steps));
    assert(start.run(steps) == start);
}

/// Whether the step is a wake of `task`.
pub open spec fn wakes(step: Step, task: int) -> bool {
    match step {
        Step::Wake { task: woken, .. } => woken == task,
        Step::Outside { task: woken } => woken == task,
        _ => false,
    }
}

/// However often a pending task is woken before it is polled again, and by whomever, it is queued
/// once, under its own id, and nothing else changes.
pub proof fn law_wakes_queue_a_task_once(system: System, task: int, steps: Seq<Step>)
    requires
        system.stands(task, TaskState::Pending),
        steps.len() > 0,
        forall|i: int| 0 <= i < steps.len() ==> #[trigger] wakes(steps[i], task),
    ensures
        system.run(steps) == (System {
            tasks: system.tasks.update(task, TaskState::Queued),
            ..system
        }),
    decreases steps.len(),
{
    let front = steps.drop_last();
    assert(wakes(steps[steps.len() - 1], task));
    if front.len() > 0 {
        assert forall|i: int| 0 <= i < front.len() implies #[trigger] wakes(front[i], task) by {
            assert(wakes(steps[i], task));
        }
        law_wakes_queue_a_task_once(system, task, front);
    } else {
        assert(system.run(front) == system);
    }
}

/// The options of a run, and its queue, are at every moment those that it was given at its start.
pub proof fn law_options_stay_as_given(channel: int, options: Options, steps: Seq<Step>)
    ensures
        System::start(channel, options).run(steps).context.options == options,
        System::start(channel, options).run(steps).context.channel == channel,
    decreases steps.len(),
{
    if steps.len() > 0 {
        law_options_stay_as_given(channel, options, steps.drop_last());
    }
}

/// Only the clock uses wakers: at a step at which it does not move, the wakers that have been used
/// stay as they are, and at one at which it moves, they grow by as many as waited.
pub proof fn law_only_the_clock_uses_wakers(system: System, step: Step)
    requires
        system.can(step),
    ensures
        system.after(step).context.tick == system.context.tick ==> system.after(step).context.used
            == system.context.used,
        system.after(step).context.tick != system.context.tick ==> {
            &&& step is Settle
            &&& system.after(step).context.used.len() == system.context.used.len()
                + system.context.wakers.len()
        },
{
}

} // verus!
