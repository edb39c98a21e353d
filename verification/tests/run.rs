//! Whole test cases, driven on one thread.
use std::future::{pending, poll_fn, ready, Future};
use std::pin::Pin;
use std::sync::atomic::{AtomicBool, AtomicUsize, Ordering};
use std::sync::{Arc, Mutex, Weak};
use std::task::{Context, Poll};
use std::time::Duration;

use futures::channel::mpsc;
use futures::{FutureExt, SinkExt, StreamExt};

use async_metronome::task::is_root_panic;
use async_metronome::{
    __private_get_tick, __private_wait_tick, get_context, is_context, Failure, JoinHandle, Options,
    Phase, PollOutcome, RunLoop, TestContext, HASCONTEXT,
};

/// How a task plays that it panicked: its output is this error.
#[derive(Clone, Copy, Debug, PartialEq)]
struct Panicked;

type Caught<T> = Result<T, Panicked>;

type Shared = Arc<Mutex<TestContext>>;

/// What a task sees: the slot holds the context while the task is polled, and only then.
#[derive(Clone)]
struct Runtime {
    slot: Arc<Mutex<Option<Shared>>>,
    root_panicked: Arc<AtomicBool>,
}

impl Runtime {
    fn is_context(&self) -> bool {
        is_context(&self.slot.lock().unwrap())
    }

    fn context(&self) -> Shared {
        let slot = self.slot.lock().unwrap();
        assert!(is_context(&slot), "{}", HASCONTEXT);
        get_context(&slot)
    }

    fn spawn_in<F, T>(&self, context: &mut TestContext, future: F) -> Joiner<Caught<T>>
    where
        F: Future<Output = Caught<T>> + Send + 'static,
        T: Send + 'static,
    {
        let runtime = self.clone();
        let task_id = context.task_id();
        let mut future = Box::pin(future);
        let wrapped = poll_fn(move |cx| {
            let poll = future.as_mut().poll(cx);
            let outcome = match &poll {
                Poll::Ready(Ok(_)) => PollOutcome::Ready,
                Poll::Ready(Err(_)) => PollOutcome::Panicked,
                Poll::Pending => PollOutcome::Pending,
            };
            runtime.context().lock().unwrap().polled(outcome);
            if is_root_panic(task_id, outcome == PollOutcome::Panicked) {
                runtime.root_panicked.store(true, Ordering::Relaxed);
            }
            poll
        });
        Joiner(context.spawn(wrapped, |_| panic!("the run is over")).0)
    }

    fn spawn<F, T>(&self, future: F) -> Joiner<Caught<T>>
    where
        F: Future<Output = Caught<T>> + Send + 'static,
        T: Send + 'static,
    {
        self.spawn_in(&mut self.context().lock().unwrap(), future)
    }

    fn tick(&self) -> usize {
        __private_get_tick(&self.context().lock().unwrap())
    }

    fn task_active(&self) -> usize {
        self.context().lock().unwrap().task_active()
    }

    fn await_tick(&self, tick: usize) -> WaitTick {
        WaitTick { runtime: self.clone(), tick, wait: None, context: Weak::new() }
    }
}

struct WaitTick {
    runtime: Runtime,
    tick: usize,
    wait: Option<usize>,
    context: Weak<Mutex<TestContext>>,
}

impl Future for WaitTick {
    type Output = usize;

    fn poll(mut self: Pin<&mut Self>, cx: &mut Context<'_>) -> Poll<usize> {
        let shared = self.runtime.context();
        self.context = Arc::downgrade(&shared);
        let mut context = shared.lock().unwrap();
        let tick = self.tick;
        match __private_wait_tick(&mut context, &mut self.wait, tick, cx.waker().clone()) {
            Some(tick) => Poll::Ready(tick),
            None => Poll::Pending,
        }
    }
}

impl Drop for WaitTick {
    fn drop(&mut self) {
        if let (Some(wait), Some(context)) = (self.wait, self.context.upgrade()) {
            context.lock().unwrap().cancel_wait(wait);
        }
    }
}

struct Joiner<O>(JoinHandle<O>);

impl<O> Future for Joiner<O> {
    type Output = O;

    fn poll(mut self: Pin<&mut Self>, cx: &mut Context<'_>) -> Poll<O> {
        Pin::new(self.0.task_mut()).poll(cx)
    }
}

impl<O> Drop for Joiner<O> {
    fn drop(&mut self) {
        self.0.detach();
    }
}

/// Runs a test case: the tick at its end, or how it failed and at which tick.
fn run<M, F, T>(make: M) -> Result<usize, (Failure, usize)>
where
    M: FnOnce(Runtime) -> F,
    F: Future<Output = Caught<T>> + Send + 'static,
    T: Send + 'static,
{
    run_opt(make, Options::default())
}

fn run_opt<M, F, T>(make: M, options: Options) -> Result<usize, (Failure, usize)>
where
    M: FnOnce(Runtime) -> F,
    F: Future<Output = Caught<T>> + Send + 'static,
    T: Send + 'static,
{
    let slot: Option<Shared> = None;
    let (mut run_loop, mut context) = RunLoop::start_from(&slot, Arc::new(options)).unwrap();
    let runtime = Runtime {
        slot: Arc::new(Mutex::new(slot)),
        root_panicked: Arc::new(AtomicBool::new(false)),
    };
    let root = runtime.spawn_in(&mut context, make(runtime.clone()));
    drop(root);
    let shared = Arc::new(Mutex::new(context));
    loop {
        assert!(!runtime.is_context());
        match run_loop.phase() {
            Phase::Receiving => {
                if let Some(entry) = run_loop.receive().into_entry() {
                    assert_eq!(run_loop.phase(), Phase::Dispatching);
                    *runtime.slot.lock().unwrap() = Some(shared.clone());
                    entry.1.run();
                    *runtime.slot.lock().unwrap() = None;
                    run_loop.dispatched(runtime.root_panicked.load(Ordering::Relaxed));
                }
            }
            Phase::Joining => {
                run_loop.joined(runtime.root_panicked.load(Ordering::Relaxed));
            }
            Phase::Settling => {
                let mut context = shared.lock().unwrap();
                let waiting = context.waiting();
                let active = context.task_active();
                let tick = context.tick();
                let woken = run_loop.settle(&mut context);
                if active > 0 {
                    assert_eq!(woken, waiting);
                    assert_eq!(context.tick(), if waiting > 0 { tick + 1 } else { tick });
                    assert_eq!(context.waiting(), 0);
                } else {
                    assert_eq!(woken, 0);
                    assert_eq!(context.waiting(), 0);
                }
            }
            Phase::Finished => return Ok(shared.lock().unwrap().tick()),
            Phase::Failed(failure) => return Err((failure, shared.lock().unwrap().tick())),
            Phase::Dispatching => unreachable!(),
        }
    }
}

/// Panics as a failed run does, and does nothing otherwise.
fn expect_success(result: Result<usize, (Failure, usize)>) {
    if let Err((failure, _)) = result {
        panic!("{}", failure.message());
    }
}

fn root_task_exception() -> Result<usize, (Failure, usize)> {
    run(|_| ready(Err::<(), Panicked>(Panicked)))
}

fn inner_task_exception_propagates() -> Result<usize, (Failure, usize)> {
    run(|runtime| async move {
        let jh = runtime.spawn(ready(Err::<(), Panicked>(Panicked)));
        jh.await
    })
}

fn deadlock() -> Result<usize, (Failure, usize)> {
    run(|_| pending::<()>().map(Ok))
}

fn deadlock_inner() -> Result<usize, (Failure, usize)> {
    run(|runtime| {
        async move {
            runtime.spawn(pending::<()>().map(Ok)).await.unwrap();
        }
        .map(Ok)
    })
}

#[test]
#[should_panic(expected = "root task panic")]
fn test_root_task_exception() {
    expect_success(root_task_exception());
}

#[test]
#[should_panic(expected = "root task panic")]
fn test_inner_task_exception_propagates() {
    expect_success(inner_task_exception_propagates());
}

#[test]
#[should_panic(expected = "deadlock")]
fn test_deadlock() {
    expect_success(deadlock());
}

#[test]
#[should_panic(expected = "deadlock")]
fn test_deadlock_inner() {
    expect_success(deadlock_inner());
}

#[test]
fn failures_are_told_apart() {
    assert_eq!(root_task_exception(), Err((Failure::RootTaskPanic, 0)));
    assert_eq!(inner_task_exception_propagates(), Err((Failure::RootTaskPanic, 0)));
    assert_eq!(deadlock(), Err((Failure::Deadlock, 0)));
    assert_eq!(deadlock_inner(), Err((Failure::Deadlock, 0)));
    // Waiting for the clock puts a deadlock off, and no longer.
    let result = run(|runtime| {
        async move {
            runtime.await_tick(3).await;
            pending::<()>().await;
        }
        .map(Ok)
    });
    assert_eq!(result, Err((Failure::Deadlock, 3)));
}

#[test]
fn test_inner_task_exception() {
    let result = run(|runtime| {
        async move {
            runtime.spawn(ready(Err::<(), Panicked>(Panicked)));
        }
        .map(Ok)
    });
    assert_eq!(result, Ok(0));
}

#[test]
fn a_wait_that_is_given_up_does_not_move_the_clock() {
    let result = run(|runtime| {
        async move {
            let mut wait = Box::pin(runtime.await_tick(1));
            assert_eq!(poll_fn(|cx| Poll::Ready(wait.as_mut().poll(cx))).await, Poll::Pending);
            drop(wait);
            let mut polls = 0;
            poll_fn(move |_| {
                polls += 1;
                if polls > 1 {
                    Poll::Ready(())
                } else {
                    Poll::Pending
                }
            })
            .await;
        }
        .map(Ok)
    });
    assert_eq!(result, Err((Failure::Deadlock, 0)));
}

#[test]
fn a_wait_that_is_kept_moves_the_clock() {
    let result = run(|runtime| {
        async move {
            let mut given_up = Box::pin(runtime.await_tick(9));
            let mut kept = Box::pin(runtime.await_tick(2));
            assert_eq!(poll_fn(|cx| Poll::Ready(given_up.as_mut().poll(cx))).await, Poll::Pending);
            assert_eq!(poll_fn(|cx| Poll::Ready(kept.as_mut().poll(cx))).await, Poll::Pending);
            drop(given_up);
            assert_eq!(kept.await, 2);
            assert_eq!(runtime.tick(), 2);
        }
        .map(Ok)
    });
    assert_eq!(result, Ok(2));
}

#[test]
fn a_task_that_is_over_waits_no_more() {
    let result = run(|runtime| {
        async move {
            let inner = runtime.clone();
            runtime.spawn(
                async move {
                    let mut wait = Box::pin(inner.await_tick(1));
                    assert_eq!(
                        poll_fn(|cx| Poll::Ready(wait.as_mut().poll(cx))).await,
                        Poll::Pending
                    );
                }
                .map(Ok),
            );
            pending::<()>().await;
        }
        .map(Ok)
    });
    assert_eq!(result, Err((Failure::Deadlock, 0)));
}

#[test]
fn waiting_tasks_go_on_at_their_ticks() {
    let result = run(|runtime| {
        async move {
            let mut handles = Vec::new();
            for tick in [4, 1, 3, 1] {
                let inner = runtime.clone();
                handles.push(runtime.spawn(
                    async move {
                        assert_eq!(inner.await_tick(tick).await, tick);
                        assert_eq!(inner.tick(), tick);
                        inner.await_tick(2).await;
                        assert_eq!(inner.tick(), tick.max(2));
                    }
                    .map(Ok),
                ));
            }
            for handle in handles {
                handle.await.unwrap();
            }
        }
        .map(Ok)
    });
    assert_eq!(result, Ok(4));
}

#[test]
fn test_has_context() {
    let result = run(|runtime| {
        async move {
            assert!(runtime.is_context());
            let inner = runtime.clone();
            runtime
                .spawn(
                    async move {
                        assert!(inner.is_context());
                    }
                    .map(Ok),
                )
                .await
                .unwrap();
        }
        .map(Ok)
    });
    assert_eq!(result, Ok(0));
}

#[test]
fn a_test_case_cannot_be_run_from_a_test_case() {
    let result = run(|runtime| {
        async move {
            let slot = runtime.slot.lock().unwrap();
            let options = Arc::new(Options::default());
            assert!(RunLoop::start_from(&slot, options).is_none());
        }
        .map(Ok)
    });
    assert_eq!(result, Ok(0));
}

#[test]
fn test_initial_ticks_0() {
    let result = run(|runtime| {
        async move {
            assert_eq!(runtime.tick(), 0);
        }
        .map(Ok)
    });
    assert_eq!(result, Ok(0));
}

#[test]
fn test_task_count() {
    let result = run(|runtime| {
        async move {
            // just top level
            assert_eq!(runtime.task_active(), 1);

            let inner = runtime.clone();
            runtime
                .spawn(
                    async move {
                        // top level + nested
                        assert_eq!(inner.task_active(), 2);
                    }
                    .map(Ok),
                )
                .await
                .unwrap();

            // nested is gone
            assert_eq!(runtime.task_active(), 1);

            // nested starts and panics
            let handle = runtime.spawn(ready(Err::<(), Panicked>(Panicked)));

            // still top level only
            assert!(handle.await.is_err());

            assert_eq!(runtime.task_active(), 1);
        }
        .map(Ok)
    });
    assert_eq!(result, Ok(0));
}

#[test]
fn test_ticks_increment_on_wait() {
    let result = run(|runtime| {
        async move {
            assert_eq!(runtime.await_tick(1).await, 1);
            assert_eq!(runtime.tick(), 1);
        }
        .map(Ok)
    });
    assert_eq!(result, Ok(1));
}

#[test]
fn test_ticks_increment_on_wait_inner() {
    let result = run(|runtime| {
        async move {
            let inner = runtime.clone();
            runtime
                .spawn(
                    async move {
                        inner.await_tick(1).await;
                    }
                    .map(Ok),
                )
                .await
                .unwrap();
            assert_eq!(runtime.tick(), 1);
        }
        .map(Ok)
    });
    assert_eq!(result, Ok(1));
}

#[test]
fn a_tick_that_is_reached_is_not_awaited() {
    let result = run(|runtime| {
        async move {
            assert_eq!(runtime.await_tick(0).await, 0);
            assert_eq!(runtime.tick(), 0);
            assert_eq!(runtime.await_tick(5).await, 5);
            assert_eq!(runtime.tick(), 5);
            assert_eq!(runtime.await_tick(2).await, 2);
            assert_eq!(runtime.tick(), 5);
        }
        .map(Ok)
    });
    assert_eq!(result, Ok(5));
}

#[test]
fn test_ordering() {
    let result = run(|runtime| {
        async move {
            let ai1 = Arc::new(AtomicUsize::new(0));
            let ai2 = ai1.clone();
            let ai3 = ai1.clone();

            let ordering = Ordering::SeqCst;
            let (runtime1, runtime2, runtime3) = (runtime.clone(), runtime.clone(), runtime.clone());

            let task1 = async move {
                ai1.compare_exchange(0, 1, ordering, ordering).unwrap();
                runtime1.await_tick(3).await;
                assert_eq!(ai1.load(ordering), 3);
            };

            let task2 = async move {
                runtime2.await_tick(1).await;
                assert_eq!(ai2.compare_exchange(1, 2, ordering, ordering).unwrap(), 1);
                runtime2.await_tick(3).await;
                assert_eq!(ai2.load(ordering), 3);
            };

            let task3 = async move {
                runtime3.await_tick(2).await;
                assert_eq!(ai3.compare_exchange(2, 3, ordering, ordering).unwrap(), 2);
            };

            let s1 = runtime.spawn(task1.map(Ok));
            let s2 = runtime.spawn(task2.map(Ok));
            let s3 = runtime.spawn(task3.map(Ok));

            s1.await.unwrap();
            s2.await.unwrap();
            s3.await.unwrap();
        }
        .map(Ok)
    });
    assert_eq!(result, Ok(3));
}

#[test]
fn test_send_receive() {
    let result = run(|runtime| {
        let test = async move {
            let (mut sender, mut receiver) = mpsc::channel::<usize>(1);
            let (runtime1, runtime2) = (runtime.clone(), runtime.clone());

            let sender = async move {
                assert_eq!(runtime1.tick(), 0);
                sender.send(42).await.unwrap();
                sender.send(17).await.unwrap();
                assert_eq!(runtime1.tick(), 1);
            };
            let receiver = async move {
                assert_eq!(runtime2.tick(), 0);
                runtime2.await_tick(1).await;
                receiver.next().await;
                receiver.next().await;
            };
            let sender = runtime.spawn(sender.map(Ok));
            let receiver = runtime.spawn(receiver.map(Ok));
            sender.await.unwrap();
            receiver.await.unwrap();
        };
        test.map(Ok)
    });
    assert_eq!(result, Ok(1));
}

#[test]
fn options_decide_nothing_and_runs_start_afresh() {
    for debug in [false, true] {
        for _timeout in [None, Some(Duration::from_millis(1))] {
            let case = |runtime: Runtime| {
                async move {
                    assert_eq!(runtime.tick(), 0);
                    assert_eq!(runtime.task_active(), 1);
                    runtime.await_tick(2).await;
                    pending::<()>().await;
                }
                .map(Ok)
            };
            let result = run_opt(case, Options { _timeout, debug });
            assert_eq!(result, Err((Failure::Deadlock, 2)));
        }
    }
}

/// Spawns a task when it is dropped.
struct SpawnsOnDrop(Runtime);

impl Drop for SpawnsOnDrop {
    fn drop(&mut self) {
        let runtime = self.0.clone();
        self.0.spawn(
            async move {
                runtime.await_tick(1).await;
            }
            .map(Ok),
        );
    }
}

#[test]
fn a_task_can_be_spawned_by_a_destructor() {
    let result = run(|runtime| {
        let guard = SpawnsOnDrop(runtime);
        poll_fn(move |_| {
            let _ = &guard;
            Poll::Ready(Ok(()))
        })
    });
    assert_eq!(result, Ok(1));
}
