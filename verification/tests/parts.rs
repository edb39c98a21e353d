//! The parts of a run, one at a time.
use std::future::{poll_fn, ready};
use std::sync::atomic::{AtomicUsize, Ordering};
use std::sync::{Arc, Mutex};
use std::task::{Poll, Wake, Waker};
use std::time::Duration;

use async_metronome::queue::{handle_on, run_queue, schedule, schedule_or};
use async_metronome::task::is_root_panic;
use async_metronome::{
    __private_get_tick, __private_wait_tick, get_context, is_context, Event, Failure, Options,
    Phase, PollOutcome, Refused, RunLoop, TestContext, HASCONTEXT,
};

struct Counter(AtomicUsize);

impl Wake for Counter {
    fn wake(self: Arc<Self>) {
        self.0.fetch_add(1, Ordering::SeqCst);
    }
}

fn counter() -> (Arc<Counter>, Waker) {
    let counter = Arc::new(Counter(AtomicUsize::new(0)));
    (counter.clone(), Waker::from(counter))
}

fn count(counter: &Arc<Counter>) -> usize {
    counter.0.load(Ordering::SeqCst)
}

#[test]
fn default_options_are_silent_and_unlimited() {
    let options = Options::default();
    assert_eq!(options._timeout, None);
    assert!(!options.debug);
}

#[test]
fn options_are_cloned_field_by_field() {
    let options = Options { _timeout: Some(Duration::from_millis(7)), debug: true };
    let copy = options.clone();
    assert_eq!(copy._timeout, Some(Duration::from_millis(7)));
    assert!(copy.debug);
}

#[test]
fn a_fresh_context_is_at_tick_0() {
    let options = Options { _timeout: None, debug: true };
    let (run_loop, context) = RunLoop::start(Arc::new(options));
    assert_eq!(run_loop.phase(), Phase::Receiving);
    assert_eq!(context.tick(), 0);
    assert_eq!(__private_get_tick(&context), 0);
    assert_eq!(context.task_id(), 0);
    assert_eq!(context.task_active(), 0);
    assert_eq!(context.waiting(), 0);
    assert!(context.options().debug);
}

#[test]
fn the_clock_wakes_everyone_who_waits_once() {
    let (_run_loop, mut context) = RunLoop::start(Arc::new(Options::default()));
    let (first, first_waker) = counter();
    let (second, second_waker) = counter();
    let (a, b, c) = (context.begin_wait(), context.begin_wait(), context.begin_wait());
    assert_eq!((a, b, c), (0, 1, 2));
    assert_eq!(context.wait_id(), 3);
    context.register_wait(a, first_waker.clone());
    context.register_wait(b, second_waker);
    context.register_wait(c, first_waker);
    assert_eq!(context.waiting(), 3);
    assert_eq!(count(&first), 0);

    assert_eq!(context.next_tick(), 3);
    assert_eq!(context.tick(), 1);
    assert_eq!(context.waiting(), 0);
    assert_eq!(count(&first), 2);
    assert_eq!(count(&second), 1);

    // Nobody waits any more, so the clock stands still.
    assert_eq!(context.next_tick(), 0);
    assert_eq!(context.tick(), 1);
    assert_eq!(count(&first), 2);
}

#[test]
fn a_wait_that_is_given_up_is_not_woken() {
    let (_run_loop, mut context) = RunLoop::start(Arc::new(Options::default()));
    let (first, first_waker) = counter();
    let (second, second_waker) = counter();
    let mut given_up = None;
    let mut kept = None;
    assert_eq!(__private_wait_tick(&mut context, &mut given_up, 1, first_waker.clone()), None);
    assert_eq!(__private_wait_tick(&mut context, &mut kept, 1, second_waker), None);
    assert_eq!(__private_wait_tick(&mut context, &mut given_up, 1, first_waker), None);
    assert_eq!((given_up, kept), (Some(0), Some(1)));
    assert_eq!(context.wait_id(), 2);
    assert_eq!(context.waiting(), 3);

    context.cancel_wait(given_up.unwrap());
    assert_eq!(context.waiting(), 1);
    assert_eq!(context.next_tick(), 1);
    assert_eq!(context.tick(), 1);
    assert_eq!((count(&first), count(&second)), (0, 1));

    // Nothing is left to be given up, and nobody waits.
    context.cancel_wait(kept.unwrap());
    assert_eq!(context.next_tick(), 0);
    assert_eq!(context.tick(), 1);
}

struct Recorder(usize, Arc<Mutex<Vec<usize>>>);

impl Wake for Recorder {
    fn wake(self: Arc<Self>) {
        self.1.lock().unwrap().push(self.0);
    }
}

#[test]
fn wakers_are_used_in_the_order_in_which_they_came() {
    let (_run_loop, mut context) = RunLoop::start(Arc::new(Options::default()));
    let order = Arc::new(Mutex::new(Vec::new()));
    for (name, tick) in [(3, 9), (1, 1), (2, 5)] {
        let waker = Waker::from(Arc::new(Recorder(name, order.clone())));
        assert_eq!(__private_wait_tick(&mut context, &mut None, tick, waker), None);
    }
    context.cancel_wait(1);
    assert!(order.lock().unwrap().is_empty());
    assert_eq!(context.next_tick(), 2);
    assert_eq!(*order.lock().unwrap(), vec![3, 2]);
}

#[test]
fn a_wait_is_pending_until_its_tick() {
    let (_run_loop, mut context) = RunLoop::start(Arc::new(Options::default()));
    let (tally, waker) = counter();
    let mut wait = None;
    for tick in 0..3 {
        assert_eq!(context.tick(), tick);
        assert_eq!(__private_wait_tick(&mut context, &mut wait, 3, waker.clone()), None);
        assert_eq!(context.waiting(), 1);
        context.next_tick();
        assert_eq!(count(&tally), tick + 1);
    }
    assert_eq!(__private_wait_tick(&mut context, &mut wait, 3, waker.clone()), Some(3));
    assert_eq!(__private_wait_tick(&mut context, &mut wait, 1, waker), Some(1));
    assert_eq!(context.waiting(), 0);
    assert_eq!(wait, Some(0));
    assert_eq!(context.wait_id(), 1);
}

#[test]
fn many_wakes_queue_a_task_once() {
    let (mut run_loop, mut context) = RunLoop::start(Arc::new(Options::default()));
    let slot = Arc::new(Mutex::new(None));
    let inner = slot.clone();
    let (mut handle, _) = context.spawn(
        poll_fn(move |cx| {
            *inner.lock().unwrap() = Some(cx.waker().clone());
            Poll::<()>::Pending
        }),
        |_| (),
    );
    run_loop.receive().into_entry().unwrap().1.run();
    run_loop.dispatched(false);
    let waker: Waker = slot.lock().unwrap().take().unwrap();
    for _ in 0..3 {
        waker.wake_by_ref();
    }
    let entry = run_loop.receive().into_entry().unwrap();
    assert_eq!(entry.0, 0);
    entry.1.run();
    run_loop.dispatched(false);
    assert!(!run_loop.receive().is_some());
    assert_eq!((context.task_id(), context.task_active()), (1, 1));
    handle.detach();
}

#[test]
fn spawned_tasks_are_queued_under_their_ids() {
    let (mut run_loop, mut context) = RunLoop::start(Arc::new(Options::default()));
    let (mut first, _) = context.spawn(ready(1), |_| ());
    let (mut second, _) = context.spawn(ready(2), |_| ());
    assert_eq!(context.task_id(), 2);
    assert_eq!(context.task_active(), 2);
    first.detach();

    let entry = run_loop.receive().into_entry().unwrap();
    assert_eq!(entry.0, 0);
    assert_eq!(run_loop.phase(), Phase::Dispatching);
    entry.1.run();
    run_loop.dispatched(false);
    assert_eq!(run_loop.phase(), Phase::Receiving);

    let entry = run_loop.receive().into_entry().unwrap();
    assert_eq!(entry.0, 1);
    entry.1.run();
    run_loop.dispatched(false);
    assert!(second.task_mut().is_finished());
    second.detach();

    assert!(!run_loop.receive().is_some());
    assert_eq!(run_loop.phase(), Phase::Joining);
}

#[test]
fn a_detached_task_keeps_running() {
    let (mut run_loop, mut context) = RunLoop::start(Arc::new(Options::default()));
    let tally = Arc::new(AtomicUsize::new(0));
    let inner = tally.clone();
    let (mut handle, _) = context.spawn(
        async move {
            inner.fetch_add(1, Ordering::SeqCst);
        },
        |_| (),
    );
    assert!(handle.detach().is_some());
    assert!(handle.detach().is_none());
    drop(handle);
    run_loop.receive().into_entry().unwrap().1.run();
    assert_eq!(tally.load(Ordering::SeqCst), 1);
}

#[test]
fn a_queue_without_a_receiver_hands_entries_back() {
    let (sender, receiver) = run_queue();
    let (runnable, task) = async_task::spawn(async {}, |_| ());
    assert!(schedule(&handle_on(&sender), 4, runnable).is_ok());
    drop(receiver);
    task.detach();

    let (runnable, task) = async_task::spawn(ready(3), |_| ());
    let entry = schedule(&handle_on(&sender), 5, runnable).err().unwrap().into_entry();
    assert_eq!(entry.0, 5);
    entry.1.run();
    assert!(task.is_finished());
}

#[test]
fn a_refused_task_is_handed_to_its_spawner() {
    let (run_loop, mut context) = RunLoop::start(Arc::new(Options::default()));
    drop(run_loop);
    let refused = Arc::new(AtomicUsize::new(0));
    let inner = refused.clone();
    let (mut handle, _) = context.spawn(async {}, move |refused: Refused| {
        assert_eq!(refused.into_entry().0, 0);
        inner.fetch_add(1, Ordering::SeqCst);
    });
    assert_eq!(refused.load(Ordering::SeqCst), 1);
    assert_eq!(context.task_active(), 1);
    handle.detach();
}

#[test]
fn a_task_that_is_taken_is_not_refused() {
    let (sender, _receiver) = run_queue();
    let (runnable, task) = async_task::spawn(async {}, |_| ());
    task.detach();
    assert!(schedule_or(&handle_on(&sender), 0, runnable, &|_| panic!("refused")).is_some());
}

#[test]
fn a_context_can_be_made_of_any_queue() {
    let (sender, _receiver) = run_queue();
    let context = TestContext::new(sender, Arc::new(Options::default()));
    assert_eq!(context.tick(), 0);
    assert_eq!(context.task_active(), 0);
}

#[test]
fn entries_that_came_while_the_workers_ran_are_received() {
    let (mut run_loop, mut context) = RunLoop::start(Arc::new(Options::default()));
    assert!(!run_loop.receive().is_some());
    context.spawn(async {}, |_| ()).0.detach();
    assert!(!run_loop.joined(false).is_empty());
    assert_eq!(run_loop.phase(), Phase::Receiving);
    run_loop.receive().into_entry().unwrap().1.run();
    run_loop.dispatched(false);
    context.polled(PollOutcome::Ready);
    assert!(!run_loop.receive().is_some());
    assert!(run_loop.joined(false).is_empty());
    assert_eq!(run_loop.phase(), Phase::Settling);
    assert_eq!(run_loop.settle(&mut context), 0);
    assert_eq!(run_loop.phase(), Phase::Finished);
}

#[test]
fn the_panic_of_the_root_task_ends_the_loop() {
    let (mut run_loop, mut context) = RunLoop::start(Arc::new(Options::default()));
    context.spawn(async {}, |_| ()).0.detach();
    context.spawn(async {}, |_| ()).0.detach();
    run_loop.receive().into_entry().unwrap();
    run_loop.dispatched(true);
    assert_eq!(run_loop.phase(), Phase::Joining);
    run_loop.joined(true);
    assert_eq!(run_loop.phase(), Phase::Failed(Failure::RootTaskPanic));
}

#[test]
fn a_loop_with_pending_tasks_and_no_wait_is_deadlocked() {
    let (mut run_loop, mut context) = RunLoop::start(Arc::new(Options::default()));
    let (mut handle, _) = context.spawn(std::future::pending::<()>(), |_| ());
    run_loop.receive().into_entry().unwrap().1.run();
    run_loop.dispatched(false);
    context.polled(PollOutcome::Pending);
    assert!(!run_loop.receive().is_some());
    run_loop.joined(false);
    assert_eq!(run_loop.settle(&mut context), 0);
    assert_eq!(run_loop.phase(), Phase::Failed(Failure::Deadlock));
    assert_eq!(context.tick(), 0);
    handle.detach();
}

#[test]
fn outcomes_count_active_tasks() {
    let (_run_loop, mut context) = RunLoop::start(Arc::new(Options::default()));
    for _ in 0..3 {
        context.spawn(async {}, |_| ()).0.detach();
    }
    context.polled(PollOutcome::Pending);
    assert_eq!(context.task_active(), 3);
    context.polled(PollOutcome::Ready);
    assert_eq!(context.task_active(), 2);
    context.polled(PollOutcome::Panicked);
    assert_eq!(context.task_active(), 1);
    assert_eq!(context.task_id(), 3);
}

#[test]
fn every_event_has_its_next_phase() {
    let receiving = Phase::Receiving;
    assert_eq!(receiving.next(Event::Received), Phase::Dispatching);
    assert_eq!(receiving.next(Event::Drained), Phase::Joining);
    for (root_panicked, next) in [(false, Phase::Receiving), (true, Phase::Joining)] {
        assert_eq!(Phase::Dispatching.next(Event::Dispatched { root_panicked }), next);
    }
    let failed = Phase::Failed(Failure::RootTaskPanic);
    for (root_panicked, queue_empty, next) in [
        (false, false, Phase::Receiving),
        (false, true, Phase::Settling),
        (true, false, failed),
        (true, true, failed),
    ] {
        assert_eq!(Phase::Joining.next(Event::Joined { root_panicked, queue_empty }), next);
    }
    for (active, waiting, next) in [
        (false, false, Phase::Finished),
        (false, true, Phase::Finished),
        (true, false, Phase::Failed(Failure::Deadlock)),
        (true, true, Phase::Receiving),
    ] {
        assert_eq!(Phase::Settling.next(Event::Settled { active, waiting }), next);
    }
}

#[test]
fn only_the_root_task_fails_a_run() {
    assert!(is_root_panic(0, true));
    assert!(!is_root_panic(0, false));
    assert!(!is_root_panic(1, true));
    assert!(!is_root_panic(1, false));
}

#[test]
fn failures_have_their_messages() {
    assert_eq!(Failure::RootTaskPanic.message(), "root task panic");
    assert_eq!(Failure::Deadlock.message(), "deadlock");
    assert_eq!(HASCONTEXT, "hascontext");
}

#[test]
fn a_slot_holds_the_context_or_none() {
    let slot = Some(Arc::new(7));
    assert!(is_context(&slot));
    assert!(Arc::ptr_eq(&get_context(&slot), slot.as_ref().unwrap()));
    assert!(!is_context::<Arc<i32>>(&None));
}
