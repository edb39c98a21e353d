//! The state that the tasks of a test case share: the clock, the tasks that wait for it, and the
//! count of tasks.
use std::future::Future;
use std::sync::Arc;
use std::task::Waker;
use vstd::prelude::*;

use crate::options::Options;
use crate::outside::{schedule_task, spawn_task, QueueSender, Refused, Started, Wakes};
use crate::queue::handle_on;
use crate::task::{JoinHandle, PollOutcome};
use crate::waiters::{lemma_without, wakers_in, without, Waiters};

verus! {

/// What a test case's tasks share, as mathematical values.
#[verifier::ext_equal]
pub struct ContextView {
    /// The clock.
    pub tick: nat,
    /// How many tasks have been spawned; the id of the next one.
    pub task_id: nat,
    /// How many tasks are not over.
    pub task_active: nat,
    /// How many waits for the clock have been begun; the id of the next one.
    pub wait_id: nat,
    /// The waits that are waiting for the clock, in the order in which they asked: the id of the
    /// wait, and the waker to be used when the clock moves.
    pub wakers: Seq<(usize, Waker)>,
    /// The wakers that the clock has used, in order.
    pub used: Seq<Waker>,
    /// The run queue that the tasks are put into.
    pub channel: int,
    /// The ids of the tasks that have been put into the queue when they were spawned, in order.
    pub started: Seq<nat>,
    /// The options of the run.
    pub options: Options,
}

impl ContextView {
    /// Before the first task: the clock is at 0 and nobody waits for it.
    pub open spec fn fresh(channel: int, options: Options) -> Self {
        ContextView {
            tick: 0,
            task_id: 0,
            task_active: 0,
            wait_id: 0,
            wakers: Seq::empty(),
            used: Seq::empty(),
            channel,
            started: Seq::empty(),
            options,
        }
    }

    /// One more task: it is put into the queue once, under the next id.
    pub open spec fn spawned(self) -> Self {
        ContextView {
            task_id: self.task_id + 1,
            task_active: self.task_active + 1,
            started: self.started.push(self.task_id),
            ..self
        }
    }

    /// One poll of a task is over.
    pub open spec fn polled(self, outcome: PollOutcome) -> Self {
        if outcome.ends_task() {
            ContextView { task_active: (self.task_active - 1) as nat, ..self }
        } else {
            self
        }
    }

    /// One more wait has been begun. It has not asked for its tick yet.
    pub open spec fn wait_begun(self) -> Self {
        ContextView { wait_id: self.wait_id + 1, ..self }
    }

    /// A wait waits for the clock.
    pub open spec fn registered(self, wait: usize, waker: Waker) -> Self {
        ContextView { wakers: self.wakers.push((wait, waker)), ..self }
    }

    /// A wait is over, or given up: it waits for the clock no more.
    pub open spec fn cancelled(self, wait: usize) -> Self {
        ContextView { wakers: without(self.wakers, wait), ..self }
    }

    /// Whether the clock has reached tick `tick`.
    pub open spec fn reached(self, tick: nat) -> bool {
        self.tick >= tick
    }

    /// A wait asks for tick `tick`: unless the clock has reached it, it waits for the clock.
    pub open spec fn waited(self, wait: usize, tick: nat, waker: Waker) -> Self {
        if self.reached(tick) {
            self
        } else {
            self.registered(wait, waker)
        }
    }

    /// The clock goes on by one if a wait waits for it. Every waker that waits is used, in order,
    /// and then none waits any more.
    pub open spec fn ticked(self) -> Self {
        if self.wakers.len() > 0 {
            ContextView {
                tick: self.tick + 1,
                wakers: Seq::empty(),
                used: self.used + wakers_in(self.wakers),
                ..self
            }
        } else {
            self
        }
    }

    /// When every task is pending or over: the clock goes on, unless all tasks are over.
    pub open spec fn settled(self) -> Self {
        if self.task_active > 0 {
            self.ticked()
        } else {
            self
        }
    }
}

/// How many tasks there are.
struct TaskCount {
    task_id: usize,
    task_active: usize,
}

impl TaskCount {
    /// No more tasks are active than have been spawned.
    #[verifier::type_invariant]
    spec fn type_inv(self) -> bool {
        self.task_active <= self.task_id
    }

    /// No tasks.
    fn new() -> (count: Self)
        ensures
            count.task_id == 0,
            count.task_active == 0,
    {
        TaskCount { task_id: 0, task_active: 0 }
    }

    /// One more task, whose id is returned.
    fn begin(&mut self) -> (task_id: usize)
        requires
            old(self).task_id < usize::MAX,
        ensures
            task_id == old(self).task_id,
            final(self).task_id == old(self).task_id + 1,
            final(self).task_active == old(self).task_active + 1,
    {
        proof {
            use_type_invariant(&*self);
        }
        let task_id = self.task_id;
        self.task_id += 1;
        self.task_active += 1;
        task_id
    }

    /// One task is over.
    fn end(&mut self)
        requires
            old(self).task_active > 0,
        ensures
            final(self).task_id == old(self).task_id,
            final(self).task_active == old(self).task_active - 1,
    {
        proof {
            use_type_invariant(&*self);
        }
        self.task_active -= 1;
    }
}

/// What the tasks of a test case share.
pub struct TestContext {
    tick: usize,
    count: TaskCount,
    wait_id: usize,
    sender: QueueSender,
    waiters: Waiters,
    options: Arc<Options>,
}

impl View for TestContext {
    type V = ContextView;

    closed spec fn view(&self) -> ContextView {
        ContextView {
            tick: self.tick as nat,
            task_id: self.count.task_id as nat,
            task_active: self.count.task_active as nat,
            wait_id: self.wait_id as nat,
            wakers: self.waiters.wakers(),
            used: self.waiters.used(),
            channel: self.sender.channel(),
            started: self.sender.started(),
            options: *self.options,
        }
    }
}

impl TestContext {
    /// The wakers that came with polls of waits whose tick the clock had reached, and that were
    /// dropped unused, in order.
    pub closed spec fn declined(self) -> Seq<Waker> {
        self.waiters.declined()
    }

    /// A context without tasks, whose clock is at 0.
    pub fn new(sender: QueueSender, options: Arc<Options>) -> (context: Self)
        ensures
            context@ == (ContextView {
                started: sender.started(),
                ..ContextView::fresh(sender.channel(), *options)
            }),
            context@.options == *options,
            context@.channel == sender.channel(),
            context@.started == sender.started(),
            context@.tick == 0,
            context@.task_id == 0,
            context@.task_active == 0,
            context@.wait_id == 0,
            context@.wakers.len() == 0,
            context@.used.len() == 0,
            context.declined().len() == 0,
    {
        TestContext {
            tick: 0,
            count: TaskCount::new(),
            wait_id: 0,
            sender,
            waiters: Waiters::new(),
            options,
        }
    }

    /// The clock.
    pub fn tick(&self) -> (tick: usize)
        ensures
            tick == self@.tick,
    {
        self.tick
    }

    /// The id of the next task.
    pub fn task_id(&self) -> (task_id: usize)
        ensures
            task_id == self@.task_id,
    {
        self.count.task_id
    }

    /// How many tasks are not over.
    pub fn task_active(&self) -> (task_active: usize)
        ensures
            task_active == self@.task_active,
    {
        self.count.task_active
    }

    /// How many waits have been begun.
    pub fn wait_id(&self) -> (wait_id: usize)
        ensures
            wait_id == self@.wait_id,
    {
        self.wait_id
    }

    /// How many wakers wait for the clock.
    pub fn waiting(&self) -> (waiting: usize)
        ensures
            waiting == self@.wakers.len(),
    {
        self.waiters.len()
    }

    /// The options of the run.
    pub fn options(&self) -> (options: Arc<Options>)
        ensures
            *options == self@.options,
    {
        self.options.clone()
    }

    /// Begins a wait for the clock, and returns its id.
    pub fn begin_wait(&mut self) -> (wait: usize)
        requires
            old(self)@.wait_id < usize::MAX,
        ensures
            wait == old(self)@.wait_id,
            final(self)@ == old(self)@.wait_begun(),
            final(self).declined() == old(self).declined(),
    {
        let wait = self.wait_id;
        self.wait_id += 1;
        wait
    }

    /// Lets a wait wait for the clock.
    pub fn register_wait<W: Wakes>(&mut self, wait: usize, waker: W)
        ensures
            final(self)@ == old(self)@.registered(wait, waker.waker()),
            final(self).declined() == old(self).declined(),
    {
        self.waiters.push(wait, waker);
    }

    /// Ends a wait: it waits for the clock no more, whether or not its tick has been reached.
    pub fn cancel_wait(&mut self, wait: usize)
        ensures
            final(self)@ == old(self)@.cancelled(wait),
            final(self).declined() == old(self).declined(),
    {
        self.waiters.remove(wait);
    }

    /// If a wait waits for the clock, moves the clock on by one tick and uses every waker that
    /// waits, in the order in which they came. Returns how many there were.
    pub fn next_tick(&mut self) -> (woken: usize)
        requires
            old(self)@.wakers.len() > 0 ==> old(self)@.tick < usize::MAX,
        ensures
            final(self)@ == old(self)@.ticked(),
            final(self).declined() == old(self).declined(),
            woken == old(self)@.wakers.len(),
            final(self)@.tick == old(self)@.tick + (if woken > 0 {
                1int
            } else {
                0
            }),
            final(self)@.wakers.len() == 0,
            final(self)@.used.len() == old(self)@.used.len() + old(self)@.wakers.len(),
            forall|i: int|
                0 <= i < old(self)@.used.len() ==> #[trigger] final(self)@.used[i] == old(
                    self,
                )@.used[i],
            forall|i: int|
                0 <= i < old(self)@.wakers.len() ==> final(self)@.used[old(self)@.used.len() + i]
                    == (#[trigger] old(self)@.wakers[i]).1,
            final(self)@.options == old(self)@.options,
    {
        if self.waiters.len() > 0 {
            self.tick += 1;
            self.waiters.wake_all()
        } else {
            0
        }
    }

    /// Spawns a task that runs `future`, puts it into the run queue, and returns a handle on it
    /// and the proof that it was started. Its id is the number of tasks that were spawned before
    /// it.
    ///
    /// Whenever the queue refuses the task, because the run is over and the queue has no receiving
    /// end, now or when the task is woken later, the refused entry is handed to `on_refused`.
    pub fn spawn<F, O, R>(&mut self, future: F, on_refused: R) -> (spawned: (
        JoinHandle<O>,
        Started<F>,
    )) where
        F: Future<Output = O> + Send + 'static,
        O: Send + 'static,
        R: Fn(Refused) + Send + Sync + 'static,

        requires
            old(self)@.task_id < usize::MAX,
            forall|refused: Refused| call_requires(on_refused, (refused,)),
        ensures
            final(self)@ == old(self)@.spawned(),
            final(self).declined() == old(self).declined(),
            spawned.0.task() == Some(spawned.1.task()),
            spawned.0.origin() == spawned.1.origin(),
            spawned.1.future() == future,
            spawned.1.origin().task_id == old(self)@.task_id,
            spawned.1.origin().channel == old(self)@.channel,
            forall|refused: Refused| #[trigger]
                (spawned.1.origin().hands_over)(refused) == call_ensures(
                    on_refused,
                    (refused,),
                    (),
                ),
    {
        let handle = handle_on(&self.sender);
        let task_id = self.count.begin();
        let new_task = spawn_task(future, task_id, handle, on_refused);
        let (task, started) = schedule_task(new_task, &mut self.sender);
        (JoinHandle::new(task, &started), started)
    }

    /// Takes note of what one poll of a task came to: a task that is ready or has panicked is
    /// over.
    pub fn polled(&mut self, outcome: PollOutcome)
        requires
            outcome.ends_task() ==> old(self)@.task_active > 0,
        ensures
            final(self)@ == old(self)@.polled(outcome),
            final(self)@.task_active == old(self)@.task_active - (if outcome is Pending {
                0int
            } else {
                1
            }),
            final(self).declined() == old(self).declined(),
    {
        match outcome {
            PollOutcome::Ready | PollOutcome::Panicked => self.count.end(),
            PollOutcome::Pending => {},
        }
    }
}

/// One poll of a wait for `tick`: the tick if the clock has reached it. Otherwise the wait waits
/// for the clock, and the result is `None`.
///
/// `wait` holds the id of the wait. The first poll begins the wait; a later one goes on with it.
///
/// No waker is used: `waker` waits with the wait or, if the clock has reached the tick, is dropped,
/// and it can be neither copied on the way nor used.
pub fn __private_wait_tick<W: Wakes>(
    context: &mut TestContext,
    wait: &mut Option<usize>,
    tick: usize,
    waker: W,
) -> (reached: Option<usize>)
    requires
        *old(wait) is None ==> old(context)@.wait_id < usize::MAX,
    ensures
        match *old(wait) {
            Some(id) => {
                &&& *final(wait) == Some(id)
                &&& final(context)@ == old(context)@.waited(id, tick as nat, waker.waker())
            },
            None => {
                &&& *final(wait) == Some(old(context)@.wait_id as usize)
                &&& final(context)@ == old(context)@.wait_begun().waited(
                    old(context)@.wait_id as usize,
                    tick as nat,
                    waker.waker(),
                )
            },
        },
        reached == (if old(context)@.reached(tick as nat) {
            Some(tick)
        } else {
            None
        }),
        final(context).declined() == (if old(context)@.tick >= tick {
            old(context).declined().push(waker.waker())
        } else {
            old(context).declined()
        }),
        reached == (if old(context)@.tick >= tick {
            Some(tick)
        } else {
            None
        }),
        final(context)@.used == old(context)@.used,
        final(context)@.wakers == (if old(context)@.tick >= tick {
            old(context)@.wakers
        } else {
            old(context)@.wakers.push(((*final(wait))->0, waker.waker()))
        }),
        final(context)@ == (ContextView {
            wait_id: final(context)@.wait_id,
            wakers: final(context)@.wakers,
            ..old(context)@
        }),
{
    let id = match *wait {
        Some(id) => id,
        None => context.begin_wait(),
    };
    *wait = Some(id);
    if context.tick >= tick {
        context.waiters.decline(waker);
        Some(tick)
    } else {
        context.register_wait(id, waker);
        None
    }
}

/// The clock.
pub fn __private_get_tick(context: &TestContext) -> (tick: usize)
    ensures
        tick == context@.tick,
{
    context.tick
}

/// Whether the slot of a thread that may run tasks holds a context, that is, whether the thread
/// runs a task of a test case at the moment.
pub fn is_context<C>(slot: &Option<C>) -> (set: bool)
    ensures
        set == (slot is Some),
{
    slot.is_some()
}

/// The context that a thread's slot holds.
pub fn get_context<C>(slot: &Option<Arc<C>>) -> (context: Arc<C>)
    requires
        slot is Some,
    ensures
        Some(context) == *slot,
{
    slot.as_ref().unwrap().clone()
}

impl ContextView {
    /// The context after `rounds` rounds, in each of which a wait asks for tick `tick` and then the
    /// clock moves on if any wait waits for it.
    pub open spec fn after_rounds(
        self,
        wait: usize,
        tick: nat,
        waker: Waker,
        rounds: nat,
    ) -> Self
        decreases rounds,
    {
        if rounds == 0 {
            self
        } else {
            self.after_rounds(wait, tick, waker, (rounds - 1) as nat).waited(
                wait,
                tick,
                waker,
            ).ticked()
        }
    }
}

/// A wait for a tick is pending until the clock has reached it, and its waiting moves the
/// clock there: after as many rounds as the clock lacks ticks, and not before, the clock has
/// reached the tick.
pub proof fn law_awaited_tick_is_reached(
    context: ContextView,
    wait: usize,
    tick: nat,
    waker: Waker,
    rounds: nat,
)
    requires
        context.tick + rounds <= tick,
    ensures
        context.after_rounds(wait, tick, waker, rounds).tick == context.tick + rounds,
        context.after_rounds(wait, tick, waker, rounds).reached(tick) <==> context.tick + rounds
            == tick,
    decreases rounds,
{
    if rounds > 0 {
        law_awaited_tick_is_reached(context, wait, tick, waker, (rounds - 1) as nat);
    }
}

/// A clock that nobody waits for stands still.
pub proof fn law_unawaited_clock_stands_still(context: ContextView)
    ensures
        context.ticked().tick == context.tick <==> context.wakers.len() == 0,
        context.wakers.len() == 0 ==> context.ticked() == context,
        context.ticked().wakers.len() == 0,
{
}

/// A wait that is given up leaves no trace: after it, the context is as if the wait had never
/// asked for a tick, and what waits for the clock are the other waits alone.
pub proof fn law_given_up_wait_is_forgotten(
    context: ContextView,
    wait: usize,
    tick: nat,
    waker: Waker,
)
    ensures
        context.waited(wait, tick, waker).cancelled(wait) == context.cancelled(wait),
        forall|entry: (usize, Waker)| #[trigger]
            context.cancelled(wait).wakers.contains(entry) <==> context.wakers.contains(entry)
                && entry.0 != wait,
        context.wakers.len() == 0 ==> context.cancelled(wait) == context,
{
    reveal(Seq::filter);
    lemma_without(context.wakers, wait);
    assert(context.wakers.push((wait, waker)).drop_last() =~= context.wakers);
    if context.wakers.len() == 0 {
        assert(without(context.wakers, wait) =~= context.wakers);
    }
}

/// A new context has the options that it was given and the queue that it was given. Its clock is
/// at 0, it has no tasks, and nobody waits or has waited.
pub proof fn law_new_context_is_as_it_was_told(channel: int, options: Options)
    ensures
        ({
            let context = ContextView::fresh(channel, options);
            &&& context.options == options
            &&& context.options.debug == options.debug
            &&& context.options._timeout == options._timeout
            &&& context.channel == channel
            &&& context.tick == 0
            &&& context.task_id == 0
            &&& context.task_active == 0
            &&& context.wait_id == 0
            &&& context.wakers.len() == 0
            &&& context.used.len() == 0
            &&& context.started.len() == 0
        }),
{
}

/// Spawning makes one more task and one more active task, and puts one task, under the next id,
/// behind those that have been started. Nothing else changes.
pub proof fn law_spawning_starts_one_task(context: ContextView)
    ensures
        ({
            let after = context.spawned();
            &&& after.task_id == context.task_id + 1
            &&& after.task_active == context.task_active + 1
            &&& after.started.len() == context.started.len() + 1
            &&& after.started[context.started.len() as int] == context.task_id
            &&& forall|i: int|
                0 <= i < context.started.len() ==> #[trigger] after.started[i]
                    == context.started[i]
            &&& after == (ContextView {
                task_id: after.task_id,
                task_active: after.task_active,
                started: after.started,
                ..context
            })
        }),
{
}

/// A poll after which the task is pending changes nothing. After any other poll there is one
/// active task less, and nothing else changes.
pub proof fn law_poll_ends_at_most_one_task(context: ContextView, outcome: PollOutcome)
    requires
        context.task_active > 0,
    ensures
        outcome is Pending ==> context.polled(outcome) == context,
        outcome !is Pending ==> context.polled(outcome).task_active + 1 == context.task_active,
        context.polled(outcome) == (ContextView {
            task_active: context.polled(outcome).task_active,
            ..context
        }),
{
}

/// Beginning a wait takes the next id, and nothing else.
pub proof fn law_beginning_a_wait_takes_an_id(context: ContextView)
    ensures
        context.wait_begun().wait_id == context.wait_id + 1,
        context.wait_begun() == (ContextView {
            wait_id: context.wait_begun().wait_id,
            ..context
        }),
{
}

/// Asking for a tick that the clock has reached changes nothing. Asking for any other tick puts
/// one entry, of the wait and the waker that asked, behind those that wait, and nothing else
/// changes: no waker is used.
pub proof fn law_asking_uses_no_waker(context: ContextView, wait: usize, tick: nat, waker: Waker)
    ensures
        context.reached(tick) <==> context.tick >= tick,
        context.tick >= tick ==> context.waited(wait, tick, waker) == context,
        context.tick < tick ==> {
            let after = context.waited(wait, tick, waker);
            &&& after == context.registered(wait, waker)
            &&& after.wakers.len() == context.wakers.len() + 1
            &&& after.wakers[context.wakers.len() as int].0 == wait
            &&& after.wakers[context.wakers.len() as int].1 == waker
            &&& forall|i: int|
                0 <= i < context.wakers.len() ==> #[trigger] after.wakers[i] == context.wakers[i]
            &&& after == (ContextView { wakers: after.wakers, ..context })
        },
        context.waited(wait, tick, waker).used == context.used,
{
}

/// Letting a wait wait puts one entry behind those that wait, and changes nothing else.
pub proof fn law_registering_adds_one_entry(context: ContextView, wait: usize, waker: Waker)
    ensures
        ({
            let after = context.registered(wait, waker);
            &&& after.wakers.len() == context.wakers.len() + 1
            &&& after.wakers[context.wakers.len() as int].0 == wait
            &&& after.wakers[context.wakers.len() as int].1 == waker
            &&& forall|i: int|
                0 <= i < context.wakers.len() ==> #[trigger] after.wakers[i] == context.wakers[i]
            &&& after == (ContextView { wakers: after.wakers, ..context })
        }),
{
}

/// Ending a wait looks at one entry after the other: where nobody waits, nothing changes; an entry
/// of the wait is as good as absent; an entry of another wait stays, behind what is left of those
/// before it. Nothing but the entries changes: no waker is used.
pub proof fn law_ending_a_wait_keeps_the_others(
    context: ContextView,
    wait: usize,
    other: usize,
    waker: Waker,
)
    ensures
        context.wakers.len() == 0 ==> context.cancelled(wait) == context,
        ({
            let more = ContextView { wakers: context.wakers.push((other, waker)), ..context };
            more.cancelled(wait) == (ContextView {
                wakers: if other == wait {
                    context.cancelled(wait).wakers
                } else {
                    context.cancelled(wait).wakers.push((other, waker))
                },
                ..context
            })
        }),
        context.cancelled(wait) == (ContextView {
            wakers: context.cancelled(wait).wakers,
            ..context
        }),
        context.cancelled(wait).used == context.used,
{
    reveal(Seq::filter);
    assert(context.wakers.push((other, waker)).drop_last() =~= context.wakers);
    if context.wakers.len() == 0 {
        assert(without(context.wakers, wait) =~= context.wakers);
    }
}

/// When the clock moves, it moves by one tick, and the wakers that have been used grow by exactly
/// as many as waited: the i-th of the new ones is the waker of the i-th entry, for every entry.
/// Then nobody waits. Nothing else changes.
pub proof fn law_tick_uses_every_waker_once(context: ContextView)
    requires
        context.wakers.len() > 0,
    ensures
        ({
            let after = context.ticked();
            &&& after.tick == context.tick + 1
            &&& after.wakers.len() == 0
            &&& after.used.len() == context.used.len() + context.wakers.len()
            &&& forall|i: int|
                0 <= i < context.used.len() ==> #[trigger] after.used[i] == context.used[i]
            &&& forall|i: int|
                0 <= i < context.wakers.len() ==> after.used[context.used.len() + i] == (
                #[trigger] context.wakers[i]).1
            &&& after == (ContextView {
                tick: after.tick,
                wakers: after.wakers,
                used: after.used,
                ..context
            })
        }),
{
}

/// Settling changes nothing if all tasks are over or nobody waits. Otherwise the clock moves by
/// one tick, and every waker that waits is used, once and in order.
pub proof fn law_settling_uses_every_waker_once(context: ContextView)
    ensures
        context.task_active == 0 ==> context.settled() == context,
        context.wakers.len() == 0 ==> context.settled() == context,
        context.task_active > 0 && context.wakers.len() > 0 ==> {
            let after = context.settled();
            &&& after.tick == context.tick + 1
            &&& after.wakers.len() == 0
            &&& after.used.len() == context.used.len() + context.wakers.len()
            &&& forall|i: int|
                0 <= i < context.used.len() ==> #[trigger] after.used[i] == context.used[i]
            &&& forall|i: int|
                0 <= i < context.wakers.len() ==> after.used[context.used.len() + i] == (
                #[trigger] context.wakers[i]).1
        },
        context.settled() == (ContextView {
            tick: context.settled().tick,
            wakers: context.settled().wakers,
            used: context.settled().used,
            ..context
        }),
{
}

/// What is told of a context is what it holds.
proof fn law_context_is_told_as_it_is(context: TestContext)
    ensures
        context@.tick == context.tick,
        context@.task_id == context.count.task_id,
        context@.task_active == context.count.task_active,
        context@.wait_id == context.wait_id,
        context@.wakers == context.waiters.wakers(),
        context@.used == context.waiters.used(),
        context@.channel == context.sender.channel(),
        context@.started == context.sender.started(),
        context@.options.debug == context.options.debug,
        context@.options._timeout == context.options._timeout,
        context.declined() == context.waiters.declined(),
{
}

} // verus!
