//! The run queue: the tasks that are ready to be polled, in the order in which they became ready.
use async_task::Runnable;
use vstd::prelude::*;

use crate::outside::{
    clone_sender, send, unbounded, QueueHandle, QueueReceiver, QueueSender, Refused, RunQueueEntry,
    Sent,
};

verus! {

/// The two ends of a new run queue.
pub fn run_queue() -> (ends: (QueueSender, QueueReceiver))
    ensures
        ends.0.channel() == ends.1.channel(),
        ends.0.started() == Seq::<nat>::empty(),
        ends.1.taken() == Seq::<RunQueueEntry>::empty(),
{
    unbounded()
}

/// Another handle on the sending end of a queue.
pub fn handle_on(sender: &QueueSender) -> (handle: QueueHandle)
    ensures
        handle.channel() == sender.channel(),
{
    clone_sender(sender)
}

/// Puts a task that is ready to be polled at the end of the queue.
///
/// If the queue's receiving end is gone, the run is over: the entry is refused and handed back.
pub fn schedule(sender: &QueueHandle, task_id: usize, runnable: Runnable) -> (result: Result<
    Sent,
    Refused,
>)
    ensures
        match result {
            Ok(sent) => {
                &&& sent.entry() == RunQueueEntry(task_id, runnable)
                &&& sent.channel() == sender.channel()
            },
            Err(refused) => {
                &&& refused.entry() == RunQueueEntry(task_id, runnable)
                &&& refused.channel() == sender.channel()
            },
        },
{
    send(sender, RunQueueEntry(task_id, runnable))
}

/// Puts a task that is ready to be polled at the end of the queue, or hands the refused entry to
/// `on_refused`.
pub fn schedule_or<R: Fn(Refused)>(
    sender: &QueueHandle,
    task_id: usize,
    runnable: Runnable,
    on_refused: &R,
) -> (sent: Option<Sent>)
    requires
        forall|refused: Refused| call_requires(*on_refused, (refused,)),
    ensures
        match sent {
            Some(sent) => {
                &&& sent.entry() == RunQueueEntry(task_id, runnable)
                &&& sent.channel() == sender.channel()
            },
            None => exists|refused: Refused|
                {
                    &&& refused.entry() == RunQueueEntry(task_id, runnable)
                    &&& refused.channel() == sender.channel()
                    &&& #[trigger] call_ensures(*on_refused, (refused,), ())
                },
        },
{
    match schedule(sender, task_id, runnable) {
        Ok(sent) => Some(sent),
        Err(refused) => {
            on_refused(refused);
            None
        },
    }
}

} // verus!
