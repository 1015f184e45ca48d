//! The state that the handles of an accumulator share with its main loop.
use std::time::Duration;

use vstd::prelude::*;

use crate::config::ConcurrencyMode;
use crate::error::AccumulatorError;
use crate::stats::{AccumulatorHealth, AccumulatorStats, Ratio, StatsModel, StatsSnapshot};

verus! {

/// What the shared state holds.
pub struct SharedModel {
    /// The current window.
    pub current_window: Duration,
    /// How many batches are in flight, where they are counted.
    pub inflight_count: usize,
    /// Whether the accumulator has been told to shut down.
    pub cancelled: bool,
    /// Whether the accumulator buffers items without flushing them of its own accord.
    pub paused: bool,
    /// Whether a flush has been asked for and not been made yet.
    pub flush_requested: bool,
    /// How many items wait in the queue.
    pub pending_count: usize,
    /// How many items may wait in the queue.
    pub max_queue_depth: Option<usize>,
    /// How many items are buffered.
    pub buffer_size: usize,
    /// The weight of the buffered items; zero where no weight is tracked.
    pub tracked_weight: usize,
    /// The statistics.
    pub stats: StatsModel,
}

impl SharedModel {
    /// The state in which an accumulator starts.
    pub open spec fn initial(initial_window: Duration, max_queue_depth: Option<usize>) -> Self {
        SharedModel {
            current_window: initial_window,
            inflight_count: 0,
            cancelled: false,
            paused: false,
            flush_requested: false,
            pending_count: 0,
            max_queue_depth,
            buffer_size: 0,
            tracked_weight: 0,
            stats: StatsModel::empty(),
        }
    }

    /// What holds in every state: no more items wait than may, and the statistics are sound.
    pub open spec fn wf(self) -> bool {
        &&& self.max_queue_depth matches Some(max) ==> self.pending_count <= max
        &&& self.stats.wf()
    }

    /// Whether one more item may wait in the queue.
    pub open spec fn has_room(self) -> bool {
        self.max_queue_depth matches Some(max) ==> self.pending_count < max
    }

    /// The error that an item is turned away with where there is no room.
    pub open spec fn queue_full(self) -> AccumulatorError {
        AccumulatorError::QueueFull {
            max: self.max_queue_depth.unwrap(),
            pending: self.pending_count,
        }
    }

    /// The state once a place in the queue has been taken.
    pub open spec fn after_acquire(self) -> Self {
        SharedModel { pending_count: (self.pending_count + 1) as usize, ..self }
    }

    /// The state once a place in the queue has been given back.
    pub open spec fn after_release(self) -> Self {
        SharedModel { pending_count: (self.pending_count - 1) as usize, ..self }
    }

    /// The state once an item has been turned away.
    pub open spec fn after_rejected(self) -> Self {
        SharedModel { stats: self.stats.after_rejected(), ..self }
    }

    /// The state once an item has been put into the queue.
    pub open spec fn after_submit(self) -> Self {
        SharedModel { stats: self.stats.after_submit(), ..self.after_acquire() }
    }

    /// The state once an item has bypassed the queue.
    pub open spec fn after_bypass(self) -> Self {
        SharedModel { stats: self.stats.after_bypass(), ..self }
    }

    /// How much of the queue is in use; zero where the queue has no limit or no place at all.
    pub open spec fn queue_utilization(self) -> Ratio {
        match self.max_queue_depth {
            Some(max) => if max > 0 {
                Ratio { numerator: self.pending_count, denominator: max }
            } else {
                Ratio { numerator: 0, denominator: 1 }
            },
            None => Ratio { numerator: 0, denominator: 1 },
        }
    }
}

/// The state that the handles of an accumulator share with its main loop.
pub struct SharedState {
    current_window: Duration,
    inflight_count: usize,
    cancelled: bool,
    paused: bool,
    flush_requested: bool,
    pending_count: usize,
    max_queue_depth: Option<usize>,
    buffer_size: usize,
    tracked_weight: usize,
    stats: AccumulatorStats,
}

impl View for SharedState {
    type V = SharedModel;

    closed spec fn view(&self) -> SharedModel {
        SharedModel {
            current_window: self.current_window,
            inflight_count: self.inflight_count,
            cancelled: self.cancelled,
            paused: self.paused,
            flush_requested: self.flush_requested,
            pending_count: self.pending_count,
            max_queue_depth: self.max_queue_depth,
            buffer_size: self.buffer_size,
            tracked_weight: self.tracked_weight,
            stats: self.stats@,
        }
    }
}

impl SharedState {
    /// The state in which an accumulator starts.
    pub fn new(initial_window: Duration, max_queue_depth: Option<usize>) -> (shared: Self)
        ensures
            shared@ == SharedModel::initial(initial_window, max_queue_depth),
            shared@.wf(),
    {
        SharedState {
            current_window: initial_window,
            inflight_count: 0,
            cancelled: false,
            paused: false,
            flush_requested: false,
            pending_count: 0,
            max_queue_depth,
            buffer_size: 0,
            tracked_weight: 0,
            stats: AccumulatorStats::new(),
        }
    }

    /// Takes a place in the queue for one item, or turns the item away and counts it where the
    /// queue is full.
    pub fn acquire_slot(&mut self) -> (taken: Result<(), AccumulatorError>)
        requires
            old(self)@.has_room() ==> old(self)@.pending_count < usize::MAX,
        ensures
            old(self)@.has_room() ==> taken is Ok && final(self)@ == old(self)@.after_acquire(),
            !old(self)@.has_room() ==> {
                &&& taken == Err::<(), _>(old(self)@.queue_full())
                &&& final(self)@ == old(self)@.after_rejected()
            },
            old(self)@.wf() ==> final(self)@.wf(),
    {
        if let Some(max) = self.max_queue_depth {
            if self.pending_count >= max {
                self.stats.record_rejected();
                return Err(AccumulatorError::QueueFull { max, pending: self.pending_count });
            }
        }
        self.pending_count = self.pending_count + 1;
        Ok(())
    }

    /// Turns an item away and counts it where the queue is full, and tells whether it did.
    pub fn turn_away(&mut self) -> (turned_away: bool)
        ensures
            turned_away == !old(self)@.has_room(),
            turned_away ==> final(self)@ == old(self)@.after_rejected(),
            !turned_away ==> final(self)@ == old(self)@,
            old(self)@.wf() ==> final(self)@.wf(),
    {
        match self.max_queue_depth {
            Some(max) => if self.pending_count >= max {
                self.stats.record_rejected();
                true
            } else {
                false
            },
            None => false,
        }
    }

    /// Gives back the place that one item held in the queue.
    pub fn release_slot(&mut self)
        requires
            old(self)@.pending_count > 0,
        ensures
            final(self)@ == old(self)@.after_release(),
            old(self)@.wf() ==> final(self)@.wf(),
    {
        self.pending_count = self.pending_count - 1;
    }

    /// Settles a submission for which a place was taken, given whether the item went out: it is
    /// counted, or the place is given back because the accumulator has shut down.
    pub fn settle_submit(&mut self, sent: bool) -> (settled: Result<(), AccumulatorError>)
        requires
            old(self)@.pending_count > 0,
        ensures
            sent ==> settled is Ok && final(self)@ == (SharedModel {
                stats: old(self)@.stats.after_submit(),
                ..old(self)@
            }),
            !sent ==> settled == Err::<(), _>(AccumulatorError::Shutdown) && final(self)@ == old(
                self,
            )@.after_release(),
            old(self)@.wf() ==> final(self)@.wf(),
    {
        if sent {
            self.stats.record_submit();
            Ok(())
        } else {
            self.release_slot();
            Err(AccumulatorError::Shutdown)
        }
    }

    /// Settles a bypass, given whether the item went out.
    pub fn settle_bypass(&mut self, sent: bool) -> (settled: Result<(), AccumulatorError>)
        ensures
            sent ==> settled is Ok && final(self)@ == old(self)@.after_bypass(),
            !sent ==> settled == Err::<(), _>(AccumulatorError::Shutdown) && final(self)@ == old(
                self,
            )@,
            old(self)@.wf() ==> final(self)@.wf(),
    {
        if sent {
            self.stats.record_bypass();
            Ok(())
        } else {
            Err(AccumulatorError::Shutdown)
        }
    }

    /// Asks for a flush. A request that has not been met yet takes in any further one.
    pub fn request_flush(&mut self)
        ensures
            final(self)@ == (SharedModel { flush_requested: true, ..old(self)@ }),
    {
        self.flush_requested = true;
    }

    /// Takes the request for a flush away, and tells whether there was one.
    pub fn take_flush_request(&mut self) -> (requested: bool)
        ensures
            requested == old(self)@.flush_requested,
            final(self)@ == (SharedModel { flush_requested: false, ..old(self)@ }),
    {
        let requested = self.flush_requested;
        self.flush_requested = false;
        requested
    }

    /// Tells the accumulator to shut down.
    pub fn cancel(&mut self)
        ensures
            final(self)@ == (SharedModel { cancelled: true, flush_requested: true, ..old(self)@ }),
    {
        self.cancelled = true;
        self.flush_requested = true;
    }

    /// Tells the accumulator to buffer items without flushing them of its own accord.
    pub fn pause(&mut self)
        ensures
            final(self)@ == (SharedModel { paused: true, ..old(self)@ }),
    {
        self.paused = true;
    }

    /// Lets the accumulator flush again, and asks for a flush.
    pub fn resume(&mut self)
        ensures
            final(self)@ == (SharedModel { paused: false, flush_requested: true, ..old(self)@ }),
    {
        self.paused = false;
        self.flush_requested = true;
    }

    /// Whether the accumulator has been told to shut down.
    pub fn is_cancelled(&self) -> (yes: bool)
        ensures
            yes == self@.cancelled,
    {
        self.cancelled
    }

    /// Whether the accumulator buffers items without flushing them of its own accord.
    pub fn is_paused(&self) -> (yes: bool)
        ensures
            yes == self@.paused,
    {
        self.paused
    }

    /// Whether a flush has been asked for and not been made yet.
    pub fn is_flush_requested(&self) -> (yes: bool)
        ensures
            yes == self@.flush_requested,
    {
        self.flush_requested
    }

    /// How many items wait in the queue.
    pub fn pending_count(&self) -> (count: usize)
        ensures
            count == self@.pending_count,
    {
        self.pending_count
    }

    /// How many items may wait in the queue.
    pub fn max_queue_depth(&self) -> (max: Option<usize>)
        ensures
            max == self@.max_queue_depth,
    {
        self.max_queue_depth
    }

    /// How many batches are in flight, where they are counted.
    pub fn inflight_count(&self) -> (count: usize)
        ensures
            count == self@.inflight_count,
    {
        self.inflight_count
    }

    /// The current window.
    pub fn current_window(&self) -> (window: Duration)
        ensures
            window == self@.current_window,
    {
        self.current_window
    }

    /// Sets the current window.
    pub(crate) fn set_current_window(&mut self, window: Duration)
        ensures
            final(self)@ == (SharedModel { current_window: window, ..old(self)@ }),
    {
        self.current_window = window;
    }

    /// Makes known how many items are buffered and what they weigh.
    pub(crate) fn publish_buffer(&mut self, buffer_size: usize, tracked_weight: usize)
        ensures
            final(self)@ == (SharedModel { buffer_size, tracked_weight, ..old(self)@ }),
    {
        self.buffer_size = buffer_size;
        self.tracked_weight = tracked_weight;
    }

    /// Records how long an item waited in the queue.
    pub(crate) fn record_wait(&mut self, wait: Duration)
        ensures
            final(self)@ == (SharedModel { stats: old(self)@.stats.after_wait(wait), ..old(self)@ }),
            old(self)@.wf() ==> final(self)@.wf(),
    {
        self.stats.record_wait(wait);
    }

    /// Records a batch and how long it took.
    pub(crate) fn record_flush(&mut self, execution_time: Duration)
        ensures
            final(self)@ == (SharedModel {
                stats: old(self)@.stats.after_flush(execution_time),
                ..old(self)@
            }),
            old(self)@.wf() ==> final(self)@.wf(),
    {
        self.stats.record_flush(execution_time);
    }

    /// Counts items that timed out.
    pub(crate) fn record_dropped_timeout(&mut self, count: u64)
        ensures
            final(self)@ == (SharedModel {
                stats: old(self)@.stats.after_dropped_timeout(count),
                ..old(self)@
            }),
            old(self)@.wf() ==> final(self)@.wf(),
    {
        self.stats.record_dropped_timeout(count);
    }

    /// The statistics at this point.
    pub fn stats(&self) -> (snapshot: StatsSnapshot)
        requires
            self@.wf(),
        ensures
            snapshot_of(self@, snapshot),
    {
        self.stats.snapshot(
            self.pending_count,
            self.buffer_size,
            self.inflight_count,
            self.tracked_weight,
            self.current_window,
        )
    }

    /// How well the accumulator is, given whether it still takes items.
    pub fn health(&self, is_accepting: bool) -> (health: AccumulatorHealth)
        ensures
            health == (AccumulatorHealth {
                is_accepting,
                queue_utilization: self@.queue_utilization(),
                current_window: self@.current_window,
                inflight_count: self@.inflight_count,
                total_rejected: self@.stats.rejected,
            }),
            health.queue_utilization.denominator > 0,
    {
        let queue_utilization = match self.max_queue_depth {
            Some(max) => if max > 0 {
                Ratio { numerator: self.pending_count, denominator: max }
            } else {
                Ratio { numerator: 0, denominator: 1 }
            },
            None => Ratio { numerator: 0, denominator: 1 },
        };
        AccumulatorHealth {
            is_accepting,
            queue_utilization,
            current_window: self.current_window,
            inflight_count: self.inflight_count,
            total_rejected: self.stats.total_rejected(),
        }
    }
}

/// Whether a snapshot shows the given state.
pub open spec fn snapshot_of(shared: SharedModel, snapshot: StatsSnapshot) -> bool {
    &&& snapshot.total_submitted == shared.stats.submitted
    &&& snapshot.total_flushed == shared.stats.flushed
    &&& snapshot.total_dropped_timeout == shared.stats.dropped_timeout
    &&& snapshot.total_bypassed == shared.stats.bypassed
    &&& snapshot.total_rejected == shared.stats.rejected
    &&& snapshot.queue_depth == shared.pending_count
    &&& snapshot.buffer_size == shared.buffer_size
    &&& snapshot.inflight_count == shared.inflight_count
    &&& snapshot.current_weight == shared.tracked_weight
    &&& snapshot.current_window == shared.current_window
    &&& crate::stats::is_percentile(shared.stats.latencies, 50, snapshot.p50_latency)
    &&& crate::stats::is_percentile(shared.stats.latencies, 99, snapshot.p99_latency)
    &&& crate::stats::is_percentile(shared.stats.latencies, 100, snapshot.max_latency)
    &&& crate::time::duration_nanos(snapshot.avg_latency) == crate::stats::mean_nanos(
        shared.stats.latencies,
    )
    &&& crate::stats::is_percentile(shared.stats.waits, 50, snapshot.p50_queue_wait)
    &&& crate::stats::is_percentile(shared.stats.waits, 99, snapshot.p99_queue_wait)
    &&& crate::time::duration_nanos(snapshot.avg_queue_wait) == crate::stats::mean_nanos(
        shared.stats.waits,
    )
}

/// The mark of one batch in flight. While it is held the batch is counted, where batches are.
#[derive(Debug)]
pub struct InflightGuard {
    counted: bool,
}

impl InflightGuard {
    /// Whether the batch is counted.
    pub closed spec fn counted(&self) -> bool {
        self.counted
    }

    /// Whether the batch is counted.
    pub fn is_counted(&self) -> (yes: bool)
        ensures
            yes == self.counted(),
    {
        self.counted
    }

    /// Marks a batch as being in flight.
    pub fn new(shared: &mut SharedState, mode: ConcurrencyMode) -> (guard: Self)
        requires
            mode.counts_inflight() ==> old(shared)@.inflight_count < usize::MAX,
        ensures
            guard.counted() == mode.counts_inflight(),
            guard.counted() ==> final(shared)@ == (SharedModel {
                inflight_count: (old(shared)@.inflight_count + 1) as usize,
                ..old(shared)@
            }),
            !guard.counted() ==> final(shared)@ == old(shared)@,
    {
        let counted = mode.is_counting_inflight();
        if counted {
            shared.inflight_count = shared.inflight_count + 1;
        }
        InflightGuard { counted }
    }

    /// Takes the mark away: the batch is done, or its task has failed.
    pub fn release(self, shared: &mut SharedState)
        requires
            self.counted() ==> old(shared)@.inflight_count > 0,
        ensures
            self.counted() ==> final(shared)@ == (SharedModel {
                inflight_count: (old(shared)@.inflight_count - 1) as usize,
                ..old(shared)@
            }),
            !self.counted() ==> final(shared)@ == old(shared)@,
    {
        if self.counted {
            shared.inflight_count = shared.inflight_count - 1;
        }
    }
}

} // verus!
