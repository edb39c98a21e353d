//! The loop that drives a test case, as a machine: it names the work that is to be done next, and
//! moves on by what that work came to.
use std::sync::Arc;
use vstd::prelude::*;

use crate::context::{is_context, ContextView, TestContext};
use crate::options::Options;
use crate::outside::{is_empty, try_recv, Looked, QueueReceiver, RunQueueEntry, Taken};
use crate::queue::run_queue;

verus! {

/// What is said when a context is set where none may be, or missing where one must be.
pub const HASCONTEXT: &'static str = "hascontext";

/// How a test case fails.
#[derive(Clone, Copy, Debug, PartialEq, Eq, Structural)]
pub enum Failure {
    /// The root task panicked.
    RootTaskPanic,
    /// Every task that is not over is pending, and none of them waits for the clock.
    Deadlock,
}

impl Failure {
    /// What is said of the failure.
    pub open spec fn text(self) -> Seq<char> {
        match self {
            Failure::RootTaskPanic => "root task panic"@,
            Failure::Deadlock => "deadlock"@,
        }
    }

    /// What is said of the failure.
    pub fn message(self) -> (message: &'static str)
        ensures
            message@ == self.text(),
            self is RootTaskPanic ==> message@ == "root task panic"@,
            self is Deadlock ==> message@ == "deadlock"@,
    {
        match self {
            Failure::RootTaskPanic => "root task panic",
            Failure::Deadlock => "deadlock",
        }
    }
}

/// The work that the loop does next.
#[derive(Clone, Copy, Debug, PartialEq, Eq, Structural)]
pub enum Phase {
    /// Take an entry out of the run queue.
    Receiving,
    /// Hand the entry that was taken to the workers.
    Dispatching,
    /// Wait until no worker runs a task.
    Joining,
    /// Every task is pending or over: end the run, or move the clock on.
    Settling,
    /// Nothing: every task is over.
    Finished,
    /// Nothing: the test case has failed.
    Failed(Failure),
}

/// What the work of the loop came to.
#[derive(Clone, Copy, Debug, PartialEq, Eq, Structural)]
pub enum Event {
    /// There was an entry in the queue.
    Received,
    /// There was no entry in the queue.
    Drained,
    /// The entry was handed over; so far the root task has panicked or not.
    Dispatched { root_panicked: bool },
    /// No worker runs a task; so far the root task has panicked or not, and the queue is empty or
    /// not.
    Joined { root_panicked: bool, queue_empty: bool },
    /// Some task is not over or all are, and some task waits for the clock or none does.
    Settled { active: bool, waiting: bool },
}

impl Phase {
    /// Whether the event is an outcome of this phase's work.
    pub open spec fn expects(self, event: Event) -> bool {
        match event {
            Event::Received | Event::Drained => self == Phase::Receiving,
            Event::Dispatched { .. } => self == Phase::Dispatching,
            Event::Joined { .. } => self == Phase::Joining,
            Event::Settled { .. } => self == Phase::Settling,
        }
    }

    /// The work that follows an event:
    /// - an entry that was received is handed over, and then the next one is received;
    /// - when there is none, or when the root task has panicked, the loop waits for the workers;
    /// - after that, the panic of the root task fails the test case, entries that came meanwhile
    ///   are received, and otherwise it is time to settle;
    /// - there, the run ends if all tasks are over, goes on if a task waits for the clock, and is
    ///   deadlocked otherwise.
    pub open spec fn after(self, event: Event) -> Phase {
        match event {
            Event::Received => Phase::Dispatching,
            Event::Drained => Phase::Joining,
            Event::Dispatched { root_panicked } => if root_panicked {
                Phase::Joining
            } else {
                Phase::Receiving
            },
            Event::Joined { root_panicked, queue_empty } => if root_panicked {
                Phase::Failed(Failure::RootTaskPanic)
            } else if !queue_empty {
                Phase::Receiving
            } else {
                Phase::Settling
            },
            Event::Settled { active, waiting } => if !active {
                Phase::Finished
            } else if waiting {
                Phase::Receiving
            } else {
                Phase::Failed(Failure::Deadlock)
            },
        }
    }

    /// The work that follows an event.
    pub fn next(self, event: Event) -> (phase: Phase)
        requires
            self.expects(event),
        ensures
            phase == self.after(event),
    {
        match event {
            Event::Received => Phase::Dispatching,
            Event::Drained => Phase::Joining,
            Event::Dispatched { root_panicked } => {
                if !root_panicked {
                    Phase::Receiving
                } else {
                    Phase::Joining
                }
            },
            Event::Joined { root_panicked, queue_empty } => {
                if root_panicked {
                    Phase::Failed(Failure::RootTaskPanic)
                } else if !queue_empty {
                    Phase::Receiving
                } else {
                    Phase::Settling
                }
            },
            Event::Settled { active, waiting } => {
                if active {
                    if waiting {
                        Phase::Receiving
                    } else {
                        Phase::Failed(Failure::Deadlock)
                    }
                } else {
                    Phase::Finished
                }
            },
        }
    }
}

/// The loop that drives a test case.
pub struct RunLoop {
    receiver: QueueReceiver,
    phase: Phase,
}

impl RunLoop {
    /// The work that the loop does next.
    pub closed spec fn at(self) -> Phase {
        self.phase
    }

    /// The run queue that the loop takes entries from.
    pub closed spec fn channel(self) -> int {
        self.receiver.channel()
    }

    /// The entries that the loop has taken out of the queue, in order.
    pub closed spec fn taken(self) -> Seq<RunQueueEntry> {
        self.receiver.taken()
    }

    /// A loop at its start, and the context of its test case, which puts tasks into the loop's
    /// queue.
    pub fn start(options: Arc<Options>) -> (started: (RunLoop, TestContext))
        ensures
            started.0.at() == Phase::Receiving,
            started.0.taken() == Seq::<RunQueueEntry>::empty(),
            started.1@ == ContextView::fresh(started.0.channel(), *options),
            started.1@.options == *options,
            started.1@.channel == started.0.channel(),
            started.1@.tick == 0,
            started.1@.task_id == 0,
            started.1@.task_active == 0,
            started.1@.wait_id == 0,
            started.1@.wakers.len() == 0,
            started.1@.used.len() == 0,
            started.1@.started.len() == 0,
    {
        let (sender, receiver) = run_queue();
        (RunLoop { receiver, phase: Phase::Receiving }, TestContext::new(sender, options))
    }

    /// A loop at its start and the context of its test case, for a thread with the given slot.
    /// There is none if the slot holds a context: a test case cannot be run from a test case.
    pub fn start_from<C>(slot: &Option<C>, options: Arc<Options>) -> (started: Option<
        (RunLoop, TestContext),
    >)
        ensures
            started is None <==> slot is Some,
            started matches Some(started) ==> {
                &&& started.0.at() == Phase::Receiving
                &&& started.0.taken() == Seq::<RunQueueEntry>::empty()
                &&& started.1@ == ContextView::fresh(started.0.channel(), *options)
                &&& started.1@.options == *options
                &&& started.1@.channel == started.0.channel()
                &&& started.1@.tick == 0
                &&& started.1@.task_id == 0
                &&& started.1@.task_active == 0
                &&& started.1@.wait_id == 0
                &&& started.1@.wakers.len() == 0
                &&& started.1@.used.len() == 0
                &&& started.1@.started.len() == 0
            },
    {
        if is_context(slot) {
            None
        } else {
            Some(RunLoop::start(options))
        }
    }

    /// The work that the loop does next.
    pub fn phase(&self) -> (phase: Phase)
        ensures
            phase == self.at(),
    {
        self.phase
    }

    /// Takes an entry out of the run queue, and no more than one. If there is one, it is to be
    /// handed to the workers.
    pub fn receive(&mut self) -> (taken: Taken)
        requires
            old(self).at() == Phase::Receiving,
        ensures
            taken.channel() == old(self).channel(),
            final(self).at() == old(self).at().after(
                if taken.entry() is Some {
                    Event::Received
                } else {
                    Event::Drained
                },
            ),
            final(self).at() == (if taken.entry() is Some {
                Phase::Dispatching
            } else {
                Phase::Joining
            }),
            final(self).channel() == old(self).channel(),
            final(self).taken() == (match taken.entry() {
                Some(entry) => old(self).taken().push(entry),
                None => old(self).taken(),
            }),
    {
        let taken = try_recv(&mut self.receiver);
        self.phase = self.phase.next(
            if taken.is_some() {
                Event::Received
            } else {
                Event::Drained
            },
        );
        taken
    }

    /// The entry was handed to the workers.
    pub fn dispatched(&mut self, root_panicked: bool)
        requires
            old(self).at() == Phase::Dispatching,
        ensures
            final(self).at() == old(self).at().after(
                Event::Dispatched { root_panicked },
            ),
            final(self).at() == (if root_panicked {
                Phase::Joining
            } else {
                Phase::Receiving
            }),
            final(self).channel() == old(self).channel(),
            final(self).taken() == old(self).taken(),
    {
        self.phase = self.phase.next(Event::Dispatched { root_panicked });
    }

    /// No worker runs a task any more. Looks whether entries have come meanwhile, and returns what
    /// it saw.
    pub fn joined(&mut self, root_panicked: bool) -> (looked: Looked)
        requires
            old(self).at() == Phase::Joining,
        ensures
            looked.channel() == old(self).channel(),
            final(self).at() == old(self).at().after(
                Event::Joined { root_panicked, queue_empty: looked.empty() },
            ),
            root_panicked ==> final(self).at() == Phase::Failed(Failure::RootTaskPanic),
            !root_panicked && looked.empty() ==> final(self).at() == Phase::Settling,
            !root_panicked && !looked.empty() ==> final(self).at() == Phase::Receiving,
            final(self).channel() == old(self).channel(),
            final(self).taken() == old(self).taken(),
    {
        let looked = is_empty(&self.receiver);
        self.phase = self.phase.next(
            Event::Joined { root_panicked, queue_empty: looked.is_empty() },
        );
        looked
    }

    /// Ends the run if all tasks are over. Otherwise moves the clock on, if a wait waits for it,
    /// and returns how many wakers were used.
    pub fn settle(&mut self, context: &mut TestContext) -> (woken: usize)
        requires
            old(self).at() == Phase::Settling,
            old(context)@.task_active > 0 && old(context)@.wakers.len() > 0 ==> old(context)@.tick
                < usize::MAX,
        ensures
            final(self).at() == old(self).at().after(
                Event::Settled {
                    active: old(context)@.task_active > 0,
                    waiting: old(context)@.wakers.len() > 0,
                },
            ),
            old(context)@.task_active == 0 ==> final(self).at() == Phase::Finished
                && final(context)@ == old(context)@,
            old(context)@.task_active > 0 && old(context)@.wakers.len() == 0 ==> final(self).at()
                == Phase::Failed(Failure::Deadlock) && final(context)@ == old(context)@,
            old(context)@.task_active > 0 && old(context)@.wakers.len() > 0 ==> {
                &&& final(self).at() == Phase::Receiving
                &&& final(context)@.tick == old(context)@.tick + 1
                &&& final(context)@.wakers.len() == 0
                &&& final(context)@.used.len() == old(context)@.used.len() + old(
                    context,
                )@.wakers.len()
                &&& forall|i: int|
                    0 <= i < old(context)@.wakers.len() ==> final(context)@.used[old(
                        context,
                    )@.used.len() + i] == (#[trigger] old(context)@.wakers[i]).1
            },
            final(context)@.options == old(context)@.options,
            final(self).channel() == old(self).channel(),
            final(self).taken() == old(self).taken(),
            final(context)@ == old(context)@.settled(),
            final(context).declined() == old(context).declined(),
            woken == (if old(context)@.task_active > 0 {
                old(context)@.wakers.len()
            } else {
                0
            }),
    {
        let active = context.task_active() > 0;
        let woken = if active {
            context.next_tick()
        } else {
            0
        };
        self.phase = self.phase.next(Event::Settled { active, waiting: woken > 0 });
        woken
    }
}

/// Each event belongs to the work of one phase.
pub proof fn law_each_event_ends_one_phase(
    phase: Phase,
    root_panicked: bool,
    queue_empty: bool,
    active: bool,
    waiting: bool,
)
    ensures
        phase.expects(Event::Received) <==> phase is Receiving,
        phase.expects(Event::Drained) <==> phase is Receiving,
        phase.expects(Event::Dispatched { root_panicked }) <==> phase is Dispatching,
        phase.expects(Event::Joined { root_panicked, queue_empty }) <==> phase is Joining,
        phase.expects(Event::Settled { active, waiting }) <==> phase is Settling,
{
}

/// An entry that was received is handed over, and nothing else is; the loop receives until there
/// is no entry or the root task has panicked, and then waits for the workers; after that it
/// settles only if the root task has not panicked and the queue is empty.
pub proof fn law_loop_settles_only_when_idle(phase: Phase, root_panicked: bool, queue_empty: bool)
    ensures
        phase.after(Event::Received) is Dispatching,
        phase.after(Event::Drained) is Joining,
        phase.after(Event::Dispatched { root_panicked: true }) is Joining,
        phase.after(Event::Dispatched { root_panicked: false }) is Receiving,
        phase.after(Event::Joined { root_panicked: true, queue_empty }) == Phase::Failed(
            Failure::RootTaskPanic,
        ),
        phase.after(Event::Joined { root_panicked: false, queue_empty: false }) is Receiving,
        phase.after(Event::Joined { root_panicked: false, queue_empty: true }) is Settling,
        phase.after(Event::Joined { root_panicked, queue_empty }) is Settling <==> !root_panicked
            && queue_empty,
{
}

/// A loop that settles ends the run if and only if no task is active, goes on if and only if some
/// task is and the clock is awaited, and has a deadlock otherwise.
pub proof fn law_loop_ends_only_without_tasks(phase: Phase, active: bool, waiting: bool)
    ensures
        phase.after(Event::Settled { active, waiting }) is Finished <==> !active,
        phase.after(Event::Settled { active, waiting }) is Receiving <==> active && waiting,
        phase.after(Event::Settled { active, waiting }) == Phase::Failed(Failure::Deadlock)
            <==> active && !waiting,
{
}

/// What is said of failures, and of a context where none may be.
pub proof fn law_texts()
    ensures
        Failure::RootTaskPanic.text() == "root task panic"@,
        Failure::Deadlock.text() == "deadlock"@,
        HASCONTEXT@ == "hascontext"@,
{
}

/// What is told of a loop is what it holds.
proof fn law_loop_is_told_as_it_is(run_loop: RunLoop)
    ensures
        run_loop.at() == run_loop.phase,
        run_loop.channel() == run_loop.receiver.channel(),
        run_loop.taken().len() == run_loop.receiver.taken().len(),
        forall|i: int|
            0 <= i < run_loop.receiver.taken().len() ==> #[trigger] run_loop.taken()[i]
                == run_loop.receiver.taken()[i],
{
}

} // verus!
