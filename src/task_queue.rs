use vstd::prelude::*;

use std::sync::atomic::{AtomicBool, AtomicUsize, Ordering};

verus! {

#[verifier::external_type_specification]
#[verifier::external_body]
#[verifier::reject_recursive_types(T)]
pub struct ExSender<T>(flume::Sender<T>);

#[verifier::external_type_specification]
#[verifier::external_body]
#[verifier::reject_recursive_types(T)]
pub struct ExReceiver<T>(flume::Receiver<T>);

/// Relies on flume::unbounded: a fresh multi-producer channel that never
/// blocks a sender.
#[verifier::external_body]
fn unbounded_channel<T>() -> (flume::Sender<T>, flume::Receiver<T>) {
    flume::unbounded()
}

/// Relies on flume::Sender::send: true when the item was queued, false when the
/// receiving side is gone (the item is then dropped).
#[verifier::external_body]
fn channel_send<T>(sender: &flume::Sender<T>, item: T) -> bool {
    sender.send(item).is_ok()
}

/// Relies on flume::Receiver::try_recv: the next queued item, or `None` at once
/// when nothing is queued.
#[verifier::external_body]
fn channel_try_recv<T>(receiver: &flume::Receiver<T>) -> Option<T> {
    receiver.try_recv().ok()
}

/// A queue of work that any thread may schedule and that the VM thread runs at
/// its checkpoints. Once closed it accepts and hands out nothing more.
#[verifier::reject_recursive_types(T)]
pub struct TaskQueue<T> {
    sender: flume::Sender<T>,
    receiver: flume::Receiver<T>,
    pending: AtomicUsize,
    closed: AtomicBool,
}

/// A task together with the diagnostic context of the place that scheduled it.
pub struct Scheduled<T> {
    pub task: T,
    pub context: String,
}

/// What one pass over the queue did.
#[derive(Debug, Clone, Copy, PartialEq, Eq, Structural)]
pub struct DrainReport {
    /// Tasks taken from the queue and run.
    pub executed: usize,
    /// Those among them that reported a failure.
    pub failed: usize,
    /// Whether the pass ended because the queue had nothing ready (or was closed).
    pub exhausted: bool,
}

/// Records one step of a pass: `taken` is `None` when the queue handed out
/// nothing, which ends the pass, or whether the task taken succeeded. A failed
/// task is counted and the pass goes on.
pub fn drain_step(report: DrainReport, taken: Option<bool>) -> (r: DrainReport)
    requires
        report.executed < usize::MAX,
        report.failed <= report.executed,
    ensures
        taken is None ==> r == (DrainReport { exhausted: true, ..report }),
        taken is Some ==> r.executed == report.executed + 1 && !r.exhausted && r.failed
            == report.failed + (if taken->Some_0 { 0int } else { 1int }),
        r.failed <= r.executed,
{
    match taken {
        None => DrainReport { exhausted: true, ..report },
        Some(succeeded) => DrainReport {
            executed: report.executed + 1,
            failed: if succeeded { report.failed } else { report.failed + 1 },
            exhausted: false,
        },
    }
}

impl<T> TaskQueue<T> {
    /// An empty queue that accepts work.
    pub fn new() -> Self {
        let (sender, receiver) = unbounded_channel();
        TaskQueue {
            sender,
            receiver,
            pending: AtomicUsize::new(0),
            closed: AtomicBool::new(false),
        }
    }

    /// Whether the queue has been closed.
    pub fn is_closed(&self) -> bool {
        self.closed.load(Ordering::Acquire)
    }

    /// Closes the queue: later scheduling is ignored and nothing more is handed
    /// out.
    pub fn close(&self) {
        self.closed.store(true, Ordering::Release);
    }

    /// Queues `task` without waiting for it to run. Returns whether it was
    /// queued; on a closed queue it is dropped.
    pub fn schedule(&self, task: T) -> bool {
        if self.is_closed() {
            return false;
        }
        let queued = channel_send(&self.sender, task);
        if queued {
            self.pending.fetch_add(1, Ordering::Release);
        }
        queued
    }

    /// Takes the next ready task, if the queue is open and holds one, without
    /// waiting. The outstanding count drops before the task is handed out.
    pub fn next_task(&self) -> Option<T> {
        if self.is_closed() {
            return None;
        }
        match channel_try_recv(&self.receiver) {
            Some(task) => {
                self.pending.fetch_sub(1, Ordering::Release);
                Some(task)
            },
            None => None,
        }
    }

    /// The number of outstanding tasks, as last counted.
    pub fn len(&self) -> usize {
        self.pending.load(Ordering::Acquire)
    }

    /// Runs the ready tasks through `run`, which reports whether each one
    /// succeeded, until the queue hands out nothing; a failing task does not
    /// end the pass. When the outstanding count reads zero the pass ends at
    /// once without looking at the channel; a task counted late runs at the
    /// next pass.
    pub fn drain<F: Fn(T) -> bool>(&self, run: &F) -> (r: DrainReport)
        requires
            forall|t: T| #[trigger] run.requires((t,)),
        ensures
            r.failed <= r.executed,
            r.exhausted || r.executed == usize::MAX,
    {
        let mut report = DrainReport { executed: 0, failed: 0, exhausted: true };
        if self.is_closed() || self.len() == 0 {
            return report;
        }
        report = DrainReport { exhausted: false, ..report };
        while !report.exhausted && report.executed < usize::MAX
            invariant
                forall|t: T| #[trigger] run.requires((t,)),
                report.failed <= report.executed,
            decreases usize::MAX - report.executed + (if report.exhausted { 0int } else { 1int }),
        {
            let taken = match self.next_task() {
                Some(task) => Some(run(task)),
                None => None,
            };
            report = drain_step(report, taken);
        }
        report
    }

    /// Drops every task still queued, open or closed, and returns how many
    /// were dropped; used when the VM shuts down.
    pub fn discard_pending(&self) -> usize {
        let mut dropped: usize = 0;
        let mut done = false;
        while !done && dropped < usize::MAX
            decreases usize::MAX - dropped + (if done { 0int } else { 1int }),
        {
            match channel_try_recv(&self.receiver) {
                Some(_task) => {
                    self.pending.fetch_sub(1, Ordering::Release);
                    dropped = dropped + 1;
                },
                None => {
                    done = true;
                },
            }
        }
        dropped
    }
}

/// The number of outstanding tasks of `queue`, as last counted.
pub fn len<T>(queue: &TaskQueue<T>) -> usize {
    queue.len()
}

/// Whether `queue` had no outstanding task when last counted.
pub fn is_empty<T>(queue: &TaskQueue<T>) -> bool {
    len(queue) == 0
}

} // verus!
