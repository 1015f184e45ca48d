//! What is measured of the batches that have been flushed.
use std::time::Duration;

use vstd::prelude::*;

use crate::batch::FlushInfo;
use crate::stats::Ratio;
use crate::time::duration_nanos;

verus! {

/// Measurements for a window controller. How batch utilization is expressed is up to the
/// collector that takes them.
#[derive(Debug, Clone, Copy)]
pub struct MetricsSnapshot<U> {
    /// How full the latest batches were.
    pub batch_utilization_rate: U,
    /// How many items waited in the queue.
    pub queue_depth: usize,
    /// How many items are buffered.
    pub buffer_size: usize,
    /// The smoothed time that a batch takes; zero as long as there is nothing to compare with.
    pub avg_execution_time: Duration,
    /// The time that the latest batch took.
    pub last_execution_time: Duration,
}

/// Takes measurements. The accumulator reports every flushed batch to it.
pub trait MetricsCollector: Send + 'static {
    /// How batch utilization is expressed.
    type Utilization;

    /// Whether taking in a batch may turn a collector from what it was into what it is. A collector
    /// that does not say so may turn into anything.
    open spec fn takes_in(before: &Self, info: FlushInfo, after: &Self) -> bool {
        true
    }

    /// Whether the collector may show these measurements. A collector that does not say so may show
    /// any.
    open spec fn shows(&self, snapshot: MetricsSnapshot<Self::Utilization>) -> bool {
        true
    }

    /// Takes in a batch that has been flushed.
    fn record_flush(&mut self, info: &FlushInfo)
        ensures
            Self::takes_in(old(self), *info, final(self)),
    ;

    /// The measurements at this point.
    fn snapshot(&self) -> (snapshot: MetricsSnapshot<Self::Utilization>)
        ensures
            self.shows(snapshot),
    ;
}

/// How full a batch was: its size against the size at which it would have been flushed at once,
/// and never more than full. Where no such size is set, or it is zero, the batch counts as empty.
pub open spec fn utilization_of(info: FlushInfo) -> Ratio {
    match info.max_batch_size {
        Some(max) => if max == 0 {
            Ratio { numerator: 0, denominator: 1 }
        } else if info.batch_size < max {
            Ratio { numerator: info.batch_size, denominator: max }
        } else {
            Ratio { numerator: max, denominator: max }
        },
        None => Ratio { numerator: 0, denominator: 1 },
    }
}

/// How full a batch was.
pub fn batch_utilization(info: &FlushInfo) -> (share: Ratio)
    ensures
        share == utilization_of(*info),
        share.denominator > 0,
        share.numerator <= share.denominator,
{
    match info.max_batch_size {
        Some(max) => if max == 0 {
            Ratio { numerator: 0, denominator: 1 }
        } else if info.batch_size < max {
            Ratio { numerator: info.batch_size, denominator: max }
        } else {
            Ratio { numerator: max, denominator: max }
        },
        None => Ratio { numerator: 0, denominator: 1 },
    }
}

/// What the built-in collector holds.
pub struct MetricsModel<U> {
    /// The smoothed utilization.
    pub smoothed_utilization: U,
    /// The smoothed time that a batch takes.
    pub smoothed_execution_time: Duration,
    /// The latest batch.
    pub last_flush_info: Option<FlushInfo>,
    /// Whether the latest batch has an earlier one to be compared with.
    pub has_baseline: bool,
    /// How many items were buffered when the latest batch was taken in.
    pub buffered: usize,
}

/// The record of the built-in collector: the smoothed figures, and the latest batch as it was.
pub struct DefaultMetrics<U> {
    smoothed_utilization: U,
    smoothed_execution_time: Duration,
    last_flush_info: Option<FlushInfo>,
    has_baseline: bool,
    buffered: usize,
}

impl<U> View for DefaultMetrics<U> {
    type V = MetricsModel<U>;

    closed spec fn view(&self) -> MetricsModel<U> {
        MetricsModel {
            smoothed_utilization: self.smoothed_utilization,
            smoothed_execution_time: self.smoothed_execution_time,
            last_flush_info: self.last_flush_info,
            has_baseline: self.has_baseline,
            buffered: self.buffered,
        }
    }
}

impl<U: Copy> DefaultMetrics<U> {
    /// A record without any batch, with the utilization that stands for none.
    pub fn new(no_utilization: U) -> (metrics: Self)
        ensures
            metrics@.smoothed_utilization == no_utilization,
            duration_nanos(metrics@.smoothed_execution_time) == 0,
            metrics@.last_flush_info is None,
            !metrics@.has_baseline,
            metrics@.buffered == 0,
    {
        DefaultMetrics {
            smoothed_utilization: no_utilization,
            smoothed_execution_time: Duration::from_nanos(0),
            last_flush_info: None,
            has_baseline: false,
            buffered: 0,
        }
    }

    /// Takes in a batch, with the figures smoothed over it and the number of items that are
    /// buffered now. The first batch has no baseline.
    pub fn record(
        &mut self,
        info: &FlushInfo,
        utilization: U,
        execution_time: Duration,
        buffered: usize,
    )
        ensures
            final(self)@ == (MetricsModel {
                smoothed_utilization: utilization,
                smoothed_execution_time: execution_time,
                last_flush_info: Some(*info),
                has_baseline: old(self)@.last_flush_info is Some,
                buffered,
            }),
    {
        self.has_baseline = self.last_flush_info.is_some();
        self.smoothed_utilization = utilization;
        self.smoothed_execution_time = execution_time;
        self.last_flush_info = Some(*info);
        self.buffered = buffered;
    }

    /// The smoothed utilization.
    pub fn smoothed_utilization(&self) -> (utilization: U)
        ensures
            utilization == self@.smoothed_utilization,
    {
        self.smoothed_utilization
    }

    /// The smoothed time that a batch takes.
    pub fn smoothed_execution_time(&self) -> (time: Duration)
        ensures
            time == self@.smoothed_execution_time,
    {
        self.smoothed_execution_time
    }

    /// The measurements at this point; what would come from the latest batch is zero where there
    /// was none, and the smoothed time is zero as long as there is no baseline.
    pub fn snapshot(&self) -> (snapshot: MetricsSnapshot<U>)
        ensures
            snapshot.batch_utilization_rate == self@.smoothed_utilization,
            self@.has_baseline ==> snapshot.avg_execution_time == self@.smoothed_execution_time,
            !self@.has_baseline ==> duration_nanos(snapshot.avg_execution_time) == 0,
            snapshot.buffer_size == self@.buffered,
            match self@.last_flush_info {
                Some(info) => {
                    &&& snapshot.queue_depth == info.items_remaining
                    &&& snapshot.last_execution_time == info.execution_time
                },
                None => {
                    &&& snapshot.queue_depth == 0
                    &&& duration_nanos(snapshot.last_execution_time) == 0
                },
            },
    {
        let avg_execution_time = if self.has_baseline {
            self.smoothed_execution_time
        } else {
            Duration::from_nanos(0)
        };
        match &self.last_flush_info {
            Some(info) => MetricsSnapshot {
                batch_utilization_rate: self.smoothed_utilization,
                queue_depth: info.items_remaining,
                buffer_size: self.buffered,
                avg_execution_time,
                last_execution_time: info.execution_time,
            },
            None => MetricsSnapshot {
                batch_utilization_rate: self.smoothed_utilization,
                queue_depth: 0,
                buffer_size: self.buffered,
                avg_execution_time,
                last_execution_time: Duration::from_nanos(0),
            },
        }
    }
}

} // verus!
