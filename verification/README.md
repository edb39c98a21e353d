# async-metronome

A unit testing framework for async Rust, after the idea of MultithreadedTC: a metronome gives fine
control over the sequence of activities in several tasks, so that a test case can lay down one
interleaving of them.

The metronome has a clock. It starts at tick 0 and moves on only when every task of the test case
is pending and at least one of them awaits a tick. If none does, the test case is deadlocked. A
wait that was given up, as the loser of a race between futures is, counts no more.

- `src/` is the verified library: the state that tasks share (`context`, `waiters`), the run queue
  (`queue`), handles on tasks (`task`), the decisions of the loop that drives a test case
  (`run_loop`), and what holds of every run (`system`). The calls into `flume`, `async_task` and
  `std::task` stand in `outside`; their contracts are taken on trust.
- `app/` runs test cases on a pool of threads: the futures, the threads, the context of each
  thread, and the macros `await_tick!` and `assert_tick!`.
- `tests/` runs the library, with whole test cases driven on one thread.
