//! Flushes: what brings one about, what comes of it, and what is kept of a batch meanwhile.
use std::collections::VecDeque;
use std::time::Duration;

use vstd::prelude::*;

use crate::batch::{pair_replies, replies_to, Batch, FlushInfo, Reply};
use crate::channel::ReplySender;
use crate::shared::InflightGuard;

verus! {

/// What brings a flush about.
#[derive(Debug, Clone, Copy, PartialEq, Eq, Structural)]
pub enum FlushTrigger {
    /// The window has come to its end.
    Timer,
    /// Somebody has asked for it, or an urgent item has come.
    Request,
    /// The buffer has grown large or heavy enough.
    Threshold,
}

/// What comes of a flush that has been brought about.
#[derive(Debug, Clone, Copy, PartialEq, Eq, Structural)]
pub enum FlushVerdict {
    /// There is nothing to flush.
    Skip,
    /// The accumulator is paused.
    Hold,
    /// Too many batches are in flight.
    Saturated,
    /// The main loop processes the batch.
    Process,
    /// A background task processes the batch.
    Spawn,
}

impl FlushVerdict {
    /// Whether the buffer goes into a batch.
    pub open spec fn takes_buffer(self) -> bool {
        self == FlushVerdict::Process || self == FlushVerdict::Spawn
    }
}

/// What is kept of a batch while it is processed.
#[verifier::reject_recursive_types(R)]
pub struct FlushTicket<R> {
    /// Where the replies go, in the order of the items.
    pub senders: VecDeque<Option<ReplySender<R>>>,
    /// The spans in which the items were submitted, in their order.
    pub parent_spans: Vec<tracing::Span>,
    /// The number of the batch.
    pub batch_id: u64,
    /// How many items the batch holds.
    pub batch_size: usize,
    /// The number of buffered items at which a batch is flushed at once.
    pub max_batch_size: Option<usize>,
    /// The window at the time of the flush.
    pub window_duration: Duration,
    /// How much time had passed since the flush before.
    pub time_since_last_flush: Duration,
    /// The weight of the batch, where weight is tracked.
    pub total_weight: Option<usize>,
}

impl<R> FlushTicket<R> {
    /// What is known of the batch once it has been processed.
    pub open spec fn info(self, execution_time: Duration, items_remaining: usize) -> FlushInfo {
        FlushInfo {
            batch_size: self.batch_size,
            max_batch_size: self.max_batch_size,
            window_duration: self.window_duration,
            items_remaining,
            batch_id: self.batch_id,
            execution_time,
            time_since_last_flush: self.time_since_last_flush,
            total_weight: self.total_weight,
        }
    }

    /// The processor has returned `results` after `execution_time`, with `items_remaining` items
    /// left in the queue: gives the replies that are due, and the report of the batch.
    pub fn finish(self, results: Vec<R>, execution_time: Duration, items_remaining: usize) -> (done: (
        Vec<Reply<R>>,
        FlushInfo,
    ))
        ensures
            done.0@ == replies_to(self.senders@, results@, self.senders@.len()),
            done.1 == self.info(execution_time, items_remaining),
    {
        let info = FlushInfo {
            batch_size: self.batch_size,
            max_batch_size: self.max_batch_size,
            window_duration: self.window_duration,
            items_remaining,
            batch_id: self.batch_id,
            execution_time,
            time_since_last_flush: self.time_since_last_flush,
            total_weight: self.total_weight,
        };
        (pair_replies(self.senders, results), info)
    }
}

/// A batch, with what is kept of it while it is processed.
#[verifier::reject_recursive_types(R)]
pub struct FlushJob<T, R> {
    /// What the processor gets.
    pub batch: Batch<T>,
    /// What is kept meanwhile.
    pub ticket: FlushTicket<R>,
}

/// What the main loop does about a flush.
#[verifier::reject_recursive_types(R)]
pub enum FlushAction<T, R> {
    /// Nothing: there is nothing to flush.
    Skipped,
    /// Nothing: the accumulator is paused.
    Held,
    /// Nothing: too many batches are in flight.
    Saturated,
    /// It processes the batch and then finishes it.
    Process(FlushJob<T, R>),
    /// It starts a background task that processes the batch; the guard goes with the task.
    Spawn(FlushJob<T, R>, InflightGuard),
}

/// What the main loop does about items that bypass the buffer.
pub enum BypassAction<T> {
    /// It processes the batch.
    Process(Batch<T>),
    /// It starts a background task that processes the batch; the guard goes with the task.
    Spawn(Batch<T>, InflightGuard),
}

/// What becomes of an item that has been received.
#[verifier::reject_recursive_types(R)]
pub enum ItemFate<T, R> {
    /// It had timed out; whoever waits for it is told so.
    Expired {
        /// The reply, where somebody waits for it.
        reply: Option<Reply<R>>,
    },
    /// It has been buffered.
    Buffered {
        /// What the item weighs.
        weight: usize,
        /// What the main loop does about the buffer, where it is large or heavy enough.
        flush: Option<FlushAction<T, R>>,
    },
}

/// How the window changed.
#[derive(Debug, Clone, Copy)]
pub struct WindowChange {
    /// The window before.
    pub before: Duration,
    /// What the controller answered.
    pub proposed: Duration,
    /// The window since.
    pub after: Duration,
}

/// A report that the collector has taken in.
#[derive(Debug)]
pub struct Recorded {
    info: FlushInfo,
}

impl Recorded {
    /// The report.
    pub closed spec fn info(&self) -> FlushInfo {
        self.info
    }

    /// A report that the collector has taken in.
    pub(crate) fn new(info: FlushInfo) -> (recorded: Self)
        ensures
            recorded.info() == info,
    {
        Recorded { info }
    }

    /// The report.
    pub fn into_info(self) -> (info: FlushInfo)
        ensures
            info == self.info(),
    {
        self.info
    }
}

/// What the controller has made of a report.
#[derive(Debug)]
pub struct Adjustment {
    info: FlushInfo,
    change: WindowChange,
}

impl Adjustment {
    /// The report.
    pub closed spec fn info(&self) -> FlushInfo {
        self.info
    }

    /// How the window changes.
    pub closed spec fn spec_change(&self) -> WindowChange {
        self.change
    }

    /// What the controller has made of a report.
    pub(crate) fn new(info: FlushInfo, change: WindowChange) -> (adjustment: Self)
        ensures
            adjustment.info() == info,
            adjustment.spec_change() == change,
    {
        Adjustment { info, change }
    }

    /// How the window changes.
    pub fn change(&self) -> (change: WindowChange)
        ensures
            change == self.spec_change(),
    {
        self.change
    }

    /// How long the batch took.
    pub fn execution_time(&self) -> (time: Duration)
        ensures
            time == self.info().execution_time,
    {
        self.info.execution_time
    }
}

} // verus!
