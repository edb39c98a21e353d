//! A metronome for tests of concurrent async code.
//!
//! A test case is a root task and the tasks that it spawns. The metronome has a clock, which
//! starts at tick 0 and moves on to the next tick only when every task of the test case is
//! pending. A task that awaits a tick stays pending until the clock has reached it, so a test
//! case can lay down one interleaving of its tasks.
//!
//! The modules:
//! - [`options`]: what a run of a test case can be told;
//! - [`outside`]: the calls into `flume`, `async_task` and `std::task`;
//! - [`queue`]: the queue of tasks that are ready to be polled;
//! - [`task`]: what one poll of a task came to, and handles on tasks;
//! - [`waiters`]: the waits for the clock;
//! - [`context`]: the state that the tasks of a test case share;
//! - [`run_loop`]: the decisions of the loop that drives a test case;
//! - [`system`]: the loop together with the tasks, and what holds of every run.
pub mod context;
pub mod options;
pub mod outside;
pub mod queue;
pub mod run_loop;
pub mod system;
pub mod task;
pub mod waiters;

pub use context::{__private_get_tick, __private_wait_tick, get_context, is_context, TestContext};
pub use options::Options;
pub use outside::{Detached, Looked, Refused, RunQueueEntry, Sent, Started, Taken, Wakes};
pub use run_loop::{Event, Failure, Phase, RunLoop, HASCONTEXT};
pub use task::{JoinHandle, PollOutcome};
