//! What an accumulator and the state that it shares come to, step by step.
//!
//! Each function of the accumulator takes the pair of them from one [`System`] to another. The
//! steps are written down here as functions on systems; the accumulator is proved to make them.
use std::time::Duration;

use vstd::prelude::*;

use crate::batch::{BatchModel, FlushInfo, Priority};
use crate::config::{AccumulatorConfig, ConcurrencyMode};
use crate::flush::{BypassAction, FlushAction, FlushJob, FlushTrigger, FlushVerdict};
use crate::item::ChannelItem;
use crate::shared::SharedModel;
use crate::time::Moment;

verus! {

/// How long the accumulator waits before it tries again to start a batch, where too many are in
/// flight.
pub const RETRY_DELAY_MILLIS: u64 = 10;

/// What an accumulator holds.
#[verifier::reject_recursive_types(R)]
pub struct AccumulatorModel<T, R> {
    /// The buffered items, in the order in which they will be processed.
    pub buffer: Seq<ChannelItem<T, R>>,
    /// What each of them weighs, in the same order.
    pub weights: Seq<usize>,
    /// What the buffered items weigh together.
    pub current_weight: usize,
    /// The number of the next batch.
    pub next_batch_id: u64,
    /// When the latest flush was, in nanoseconds of the clock.
    pub last_flush: nat,
    /// When the timer goes off, in nanoseconds of the clock.
    pub deadline: nat,
    /// Whether a flush that was asked for has been put off because too many batches were in flight.
    pub flush_owed: bool,
}

/// The sum of two weights, cut off at what a weight can be.
pub open spec fn heavier(weight: usize, by: usize) -> usize {
    if weight + by <= usize::MAX {
        (weight + by) as usize
    } else {
        usize::MAX
    }
}

/// What is left of a weight; nothing where more is taken away than there is.
pub open spec fn lighter(weight: usize, by: usize) -> usize {
    if by <= weight {
        (weight - by) as usize
    } else {
        0
    }
}

/// What is left of a weight once several weights have been taken away.
pub open spec fn lighter_by_all(weight: usize, by: Seq<usize>) -> usize
    decreases by.len(),
{
    if by.len() == 0 {
        weight
    } else {
        lighter(lighter_by_all(weight, by.drop_last()), by.last())
    }
}

/// The sum of several weights, cut off at what a weight can be.
pub open spec fn heavier_by_all(by: Seq<usize>) -> usize
    decreases by.len(),
{
    if by.len() == 0 {
        0
    } else {
        heavier(heavier_by_all(by.drop_last()), by.last())
    }
}

/// How many of `len` buffered items go into one batch: all of them, or as many as a batch may hold
/// at most. A limit of none at all makes every item flush at once, and does not cut batches.
pub open spec fn batch_len(config: AccumulatorConfig, len: nat) -> nat {
    match config.max_batch_size {
        Some(max) => if 0 < max < len {
            max as nat
        } else {
            len
        },
        None => len,
    }
}

/// Whether a buffer is large or heavy enough to be flushed at once.
pub open spec fn threshold_reached(config: AccumulatorConfig, size: nat, weight: usize) -> bool {
    ||| config.max_batch_size matches Some(max) && size >= max
    ||| config.max_batch_weight matches Some(max) && weight >= max
}

/// The weight that is made known: none where no weight is tracked.
pub open spec fn shown_weight(config: AccumulatorConfig, weight: usize) -> usize {
    if config.max_batch_weight is Some {
        weight
    } else {
        0
    }
}

/// When a timer that is set at `now` goes off after `delay_nanos`.
pub open spec fn due_after(now: Moment, delay_nanos: nat) -> nat {
    crate::time::capped_nanos(now.nanos() + delay_nanos)
}

impl<T, R> AccumulatorModel<T, R> {
    /// What an accumulator that was put together at `now` holds.
    pub open spec fn initial(now: Moment) -> Self {
        AccumulatorModel {
            buffer: Seq::empty(),
            weights: Seq::empty(),
            current_weight: 0,
            next_batch_id: 0,
            last_flush: now.nanos(),
            deadline: now.nanos(),
            flush_owed: false,
        }
    }

    /// What the accumulator holds once an item of the given weight has been buffered: an urgent
    /// one at the front, any other at the back.
    pub open spec fn buffered(self, item: ChannelItem<T, R>, weight: usize) -> Self {
        AccumulatorModel {
            buffer: if item.priority == Priority::High {
                seq![item] + self.buffer
            } else {
                self.buffer.push(item)
            },
            weights: if item.priority == Priority::High {
                seq![weight] + self.weights
            } else {
                self.weights.push(weight)
            },
            current_weight: heavier(self.current_weight, weight),
            ..self
        }
    }

    /// How many of the buffered items go into the next batch.
    pub open spec fn next_len(self, config: AccumulatorConfig) -> int {
        batch_len(config, self.buffer.len()) as int
    }

    /// The items that go into the next batch: the first that are buffered.
    pub open spec fn next_items(self, config: AccumulatorConfig) -> Seq<ChannelItem<T, R>> {
        self.buffer.take(self.next_len(config))
    }

    /// What the next batch weighs.
    pub open spec fn next_weight(self, config: AccumulatorConfig) -> usize {
        if self.next_len(config) == self.buffer.len() {
            self.current_weight
        } else {
            heavier_by_all(self.weights.take(self.next_len(config)))
        }
    }

    /// What the accumulator holds once a batch has been taken out of the buffer.
    pub open spec fn flushed(self, config: AccumulatorConfig) -> Self {
        let n = self.next_len(config);
        AccumulatorModel {
            buffer: self.buffer.skip(n),
            weights: self.weights.skip(n),
            current_weight: if n == self.buffer.len() {
                0
            } else {
                lighter_by_all(self.current_weight, self.weights.take(n))
            },
            next_batch_id: (self.next_batch_id + 1) as u64,
            flush_owed: false,
            ..self
        }
    }

    /// What the accumulator holds once its timer has been set at `now` for `delay_nanos`.
    pub open spec fn armed(self, now: Moment, delay_nanos: nat) -> Self {
        AccumulatorModel { deadline: due_after(now, delay_nanos), ..self }
    }
}

/// An accumulator and the state that it shares with its handles.
#[verifier::reject_recursive_types(R)]
pub struct System<T, R> {
    /// What the accumulator holds.
    pub acc: AccumulatorModel<T, R>,
    /// What it shares.
    pub shared: SharedModel,
}

impl<T, R> System<T, R> {
    /// What holds at all times: the window lies in the range that the configuration allows, no
    /// more items wait than may, and what is made known of the buffer is true.
    pub open spec fn sound(self, config: AccumulatorConfig) -> bool {
        &&& config.wf()
        &&& self.shared.wf()
        &&& self.shared.max_queue_depth == config.max_queue_depth
        &&& crate::time::in_range(self.shared.current_window, config.min_window, config.max_window)
        &&& self.acc.weights.len() == self.acc.buffer.len()
        &&& self.shared.buffer_size == self.acc.buffer.len()
        &&& self.shared.tracked_weight == shown_weight(config, self.acc.current_weight)
    }

    /// The system with what is true of the buffer made known.
    pub open spec fn showing(self, config: AccumulatorConfig) -> Self {
        System {
            shared: SharedModel {
                buffer_size: self.acc.buffer.len() as usize,
                tracked_weight: shown_weight(config, self.acc.current_weight),
                ..self.shared
            },
            ..self
        }
    }

    /// The system once its timer has been set at `now` for the current window.
    pub open spec fn armed_for_window(self, now: Moment) -> Self {
        System {
            acc: self.acc.armed(now, crate::time::duration_nanos(self.shared.current_window)),
            ..self
        }
    }

    /// The system once a flush has been asked for.
    pub open spec fn asked(self) -> Self {
        System { shared: SharedModel { flush_requested: true, ..self.shared }, ..self }
    }

    /// Whether a flush is one that was asked for, now or before it was put off.
    pub open spec fn asked_for(self, trigger: FlushTrigger) -> bool {
        trigger == FlushTrigger::Request || (trigger == FlushTrigger::Timer && self.acc.flush_owed)
    }

    /// What comes of a flush: an empty buffer is flushed only where the configuration says so and
    /// the accumulator is not paused; a paused accumulator makes only the flushes that were asked
    /// for; and no more batches are started than may be in flight.
    pub open spec fn verdict(self, config: AccumulatorConfig, trigger: FlushTrigger) -> FlushVerdict {
        if self.acc.buffer.len() == 0 && (!config.flush_empty_batches || self.shared.paused) {
            FlushVerdict::Skip
        } else if self.shared.paused && !self.asked_for(trigger) {
            FlushVerdict::Hold
        } else if config.concurrency_mode == ConcurrencyMode::Serial {
            FlushVerdict::Process
        } else if config.concurrency_mode.saturated(self.shared.inflight_count) {
            FlushVerdict::Saturated
        } else {
            FlushVerdict::Spawn
        }
    }

    /// The system once a batch has been taken out of the buffer.
    pub open spec fn cut(self, config: AccumulatorConfig) -> Self {
        System { acc: self.acc.flushed(config), ..self }.showing(config)
    }

    /// The system once a flush has taken a batch out of the buffer. Where items are left the flush
    /// goes on: it asks for the next one.
    pub open spec fn processing(self, config: AccumulatorConfig) -> Self {
        let taken = self.cut(config);
        if taken.acc.buffer.len() > 0 {
            taken.asked()
        } else {
            taken
        }
    }

    /// Whether a flush takes a batch and leaves items behind, so that it has to go on.
    pub open spec fn goes_on(self, config: AccumulatorConfig, trigger: FlushTrigger) -> bool {
        self.verdict(config, trigger).takes_buffer() && self.acc.next_len(config)
            < self.acc.buffer.len()
    }

    /// The system once one more batch is in flight, which is counted where such batches are.
    pub open spec fn in_flight(self, config: AccumulatorConfig) -> Self {
        System {
            shared: SharedModel {
                inflight_count: if config.concurrency_mode.counts_inflight() {
                    (self.shared.inflight_count + 1) as usize
                } else {
                    self.shared.inflight_count
                },
                ..self.shared
            },
            ..self
        }
    }

    /// The system once a flush has been brought about at `now`.
    pub open spec fn after_flush(
        self,
        config: AccumulatorConfig,
        trigger: FlushTrigger,
        now: Moment,
    ) -> Self {
        match self.verdict(config, trigger) {
            FlushVerdict::Skip => System {
                acc: AccumulatorModel { last_flush: now.nanos(), flush_owed: false, ..self.acc },
                ..self
            },
            FlushVerdict::Hold => self,
            FlushVerdict::Saturated => System {
                acc: AccumulatorModel {
                    flush_owed: self.acc.flush_owed || trigger == FlushTrigger::Request,
                    ..self.acc
                },
                ..self
            },
            FlushVerdict::Process => self.processing(config),
            FlushVerdict::Spawn => self.processing(config).in_flight(config),
        }
    }

    /// Whether a job is the next batch, made at `now`.
    pub open spec fn is_job(
        self,
        config: AccumulatorConfig,
        now: Moment,
        job: FlushJob<T, R>,
    ) -> bool {
        let taken = self.acc.next_items(config);
        &&& job.batch@ == (BatchModel {
            items: crate::item::values_of(taken),
            batch_id: self.acc.next_batch_id,
            created_at: now,
            window_duration: self.shared.current_window,
            queue_depth_at_flush: self.shared.pending_count,
        })
        &&& job.ticket.senders@ == crate::item::senders_of(taken)
        &&& job.ticket.parent_spans@ == crate::item::spans_of(taken)
        &&& job.ticket.batch_id == self.acc.next_batch_id
        &&& job.ticket.batch_size == taken.len()
        &&& job.ticket.max_batch_size == config.max_batch_size
        &&& job.ticket.window_duration == self.shared.current_window
        &&& crate::time::duration_nanos(job.ticket.time_since_last_flush)
            == crate::time::nanos_between(self.acc.last_flush, now.nanos())
        &&& job.ticket.total_weight == if config.max_batch_weight is Some {
            Some(self.acc.next_weight(config))
        } else {
            None
        }
    }

    /// Whether an action is the one that a flush at `now` calls for.
    pub open spec fn is_action(
        self,
        config: AccumulatorConfig,
        trigger: FlushTrigger,
        now: Moment,
        action: FlushAction<T, R>,
    ) -> bool {
        match self.verdict(config, trigger) {
            FlushVerdict::Skip => action is Skipped,
            FlushVerdict::Hold => action is Held,
            FlushVerdict::Saturated => action is Saturated,
            FlushVerdict::Process => {
                &&& action matches FlushAction::Process(job)
                &&& self.is_job(config, now, job)
            },
            FlushVerdict::Spawn => {
                &&& action matches FlushAction::Spawn(job, guard)
                &&& self.is_job(config, now, job)
                &&& guard.counted() == config.concurrency_mode.counts_inflight()
            },
        }
    }

    /// The system once the timer, or a request, has brought a flush about at `now`. The timer is
    /// set again: for the window, or for a short time where too many batches are in flight. A batch
    /// that the main loop processes sets it only once it is finished.
    pub open spec fn after_timed_flush(
        self,
        config: AccumulatorConfig,
        trigger: FlushTrigger,
        now: Moment,
    ) -> Self {
        let flushed = self.after_flush(config, trigger, now);
        match self.verdict(config, trigger) {
            FlushVerdict::Saturated => System {
                acc: flushed.acc.armed(now, (RETRY_DELAY_MILLIS * 1_000_000) as nat),
                ..flushed
            },
            FlushVerdict::Process => flushed,
            _ => flushed.armed_for_window(now),
        }
    }

    /// The system with the request for a flush taken away.
    pub open spec fn request_taken(self) -> Self {
        System { shared: SharedModel { flush_requested: false, ..self.shared }, ..self }
    }

    /// The system once an item has been taken out of the queue.
    pub open spec fn slot_released(self) -> Self {
        System { shared: self.shared.after_release(), ..self }
    }

    /// The system once an item has been taken out of the queue after waiting for `waited`.
    pub open spec fn arrived(self, waited: Duration) -> Self {
        System {
            shared: SharedModel {
                stats: self.shared.stats.after_wait(waited),
                ..self.shared.after_release()
            },
            ..self
        }
    }

    /// The system once items that timed out have been counted.
    pub open spec fn timed_out(self, count: u64) -> Self {
        System {
            shared: SharedModel {
                stats: self.shared.stats.after_dropped_timeout(count),
                ..self.shared
            },
            ..self
        }
    }

    /// The system once an item of the given weight has been buffered.
    pub open spec fn buffering(
        self,
        config: AccumulatorConfig,
        item: ChannelItem<T, R>,
        weight: usize,
    ) -> Self {
        System { acc: self.acc.buffered(item, weight), ..self }.showing(config)
    }

    /// The system once an item has been buffered on its arrival: an urgent one asks for a flush.
    pub open spec fn taking_in(
        self,
        config: AccumulatorConfig,
        item: ChannelItem<T, R>,
        weight: usize,
        waited: Duration,
    ) -> Self {
        let held = self.arrived(waited).buffering(config, item, weight);
        if item.priority == Priority::High {
            held.asked()
        } else {
            held
        }
    }

    /// Whether the buffer is large or heavy enough to be flushed at once.
    pub open spec fn full(self, config: AccumulatorConfig) -> bool {
        threshold_reached(config, self.acc.buffer.len(), self.acc.current_weight)
    }

    /// The system once the buffer has been flushed at `now` where it is large or heavy enough. The
    /// timer is set again only where a background task has got the batch.
    pub open spec fn relieved(self, config: AccumulatorConfig, now: Moment) -> Self {
        let flushed = self.after_flush(config, FlushTrigger::Threshold, now);
        if !self.full(config) {
            self
        } else if self.verdict(config, FlushTrigger::Threshold) == FlushVerdict::Spawn {
            flushed.armed_for_window(now)
        } else {
            flushed
        }
    }

    /// The system once an item has come out of the queue at `now`, after waiting for `waited`.
    pub open spec fn after_item(
        self,
        config: AccumulatorConfig,
        item: ChannelItem<T, R>,
        weight: usize,
        waited: Duration,
        now: Moment,
    ) -> Self {
        if item.expired(now) {
            self.arrived(waited).timed_out(1)
        } else {
            self.taking_in(config, item, weight, waited).relieved(config, now)
        }
    }

    /// The system once a batch has been made as the accumulator shuts down. The limit on batches
    /// in flight does not hold it up, nor does a pause.
    pub open spec fn drained(self, config: AccumulatorConfig) -> Self {
        if config.concurrency_mode == ConcurrencyMode::Serial {
            self.cut(config)
        } else {
            self.cut(config).in_flight(config)
        }
    }

    /// Whether an action is the batch that is made at `now` as the accumulator shuts down.
    pub open spec fn is_drain_action(
        self,
        config: AccumulatorConfig,
        now: Moment,
        action: FlushAction<T, R>,
    ) -> bool {
        if config.concurrency_mode == ConcurrencyMode::Serial {
            &&& action matches FlushAction::Process(job)
            &&& self.is_job(config, now, job)
        } else {
            &&& action matches FlushAction::Spawn(job, guard)
            &&& self.is_job(config, now, job)
            &&& guard.counted() == config.concurrency_mode.counts_inflight()
        }
    }

    /// The system once an item has come out of the queue at `now` as the accumulator shuts down: a
    /// buffer that is large or heavy enough is flushed at once.
    pub open spec fn after_drained_item(
        self,
        config: AccumulatorConfig,
        item: ChannelItem<T, R>,
        weight: usize,
        now: Moment,
    ) -> Self {
        let held = self.slot_released().buffering(config, item, weight);
        if item.expired(now) {
            self.slot_released().timed_out(1)
        } else if held.full(config) {
            held.drained(config)
        } else {
            held
        }
    }

    /// The system once the buffered items that have timed out at `now` have been dropped.
    pub open spec fn after_expiry(self, config: AccumulatorConfig, now: Moment) -> Self {
        let acc = self.acc;
        System {
            acc: AccumulatorModel {
                buffer: crate::item::live_items(acc.buffer, now),
                weights: crate::item::live_weights(acc.buffer, acc.weights, now),
                current_weight: lighter_by_all(
                    acc.current_weight,
                    crate::item::expired_weights(acc.buffer, acc.weights, now),
                ),
                ..acc
            },
            ..self.timed_out(crate::item::expired_items(acc.buffer, now).len() as u64)
        }.showing(config)
    }

    /// The system once a batch that took `execution_time` has been finished at `now`.
    pub open spec fn after_completion(self, execution_time: Duration, now: Moment) -> Self {
        System {
            acc: AccumulatorModel { last_flush: now.nanos(), ..self.acc },
            shared: SharedModel {
                stats: self.shared.stats.after_flush(execution_time),
                ..self.shared
            },
        }
    }

    /// The window that the controller's answer comes to.
    pub open spec fn window_for(self, config: AccumulatorConfig, proposed: Duration) -> Duration {
        crate::time::clamped(proposed, config.min_window, config.max_window)
    }

    /// The system once the controller has answered with `proposed`.
    pub open spec fn after_adjustment(self, config: AccumulatorConfig, proposed: Duration) -> Self {
        System {
            shared: SharedModel {
                current_window: self.window_for(config, proposed),
                ..self.shared
            },
            ..self
        }
    }

    /// The system once the main loop has finished a batch at `now`.
    pub open spec fn after_serial(
        self,
        config: AccumulatorConfig,
        info: FlushInfo,
        proposed: Duration,
        now: Moment,
    ) -> Self {
        self.after_completion(info.execution_time, now).after_adjustment(
            config,
            proposed,
        ).armed_for_window(now)
    }

    /// The system once a background task has reported a batch at `now`. Items that have gathered
    /// meanwhile ask for a flush, unless the accumulator is paused.
    pub open spec fn after_feedback(
        self,
        config: AccumulatorConfig,
        info: FlushInfo,
        proposed: Duration,
        now: Moment,
    ) -> Self {
        let done = self.after_completion(info.execution_time, now).after_adjustment(
            config,
            proposed,
        );
        if self.acc.buffer.len() > 0 && !self.shared.paused {
            done.asked()
        } else {
            done
        }
    }

    /// The system once the last flush has made a batch as the accumulator shuts down: of what is
    /// buffered, or an empty one where the configuration says so.
    pub open spec fn after_final_flush(self, config: AccumulatorConfig) -> Self {
        if self.acc.buffer.len() == 0 && !config.flush_empty_batches {
            self
        } else {
            self.drained(config)
        }
    }

    /// Whether an action is the one that the last flush at `now` calls for.
    pub open spec fn is_final_action(
        self,
        config: AccumulatorConfig,
        now: Moment,
        action: FlushAction<T, R>,
    ) -> bool {
        if self.acc.buffer.len() == 0 && !config.flush_empty_batches {
            action is Skipped
        } else {
            self.is_drain_action(config, now, action)
        }
    }

    /// The system once a batch number has been used up.
    pub open spec fn numbered(self) -> Self {
        System {
            acc: AccumulatorModel {
                next_batch_id: (self.acc.next_batch_id + 1) as u64,
                ..self.acc
            },
            ..self
        }
    }

    /// Whether a batch holds items that bypass the buffer at `now`, under the given number.
    pub open spec fn is_bypass_batch(
        batch: BatchModel<T>,
        items: Seq<T>,
        batch_id: int,
        now: Moment,
    ) -> bool {
        &&& batch.items == items
        &&& batch.batch_id == batch_id
        &&& batch.created_at == now
        &&& crate::time::duration_nanos(batch.window_duration) == 0
        &&& batch.queue_depth_at_flush == 0
    }

    /// Whether items that bypass the buffer go to a background task: where batches are processed
    /// in such tasks and there is room for one more.
    pub open spec fn spawns_bypass(self, config: AccumulatorConfig) -> bool {
        &&& config.concurrency_mode is Concurrent
        &&& !config.concurrency_mode.saturated(self.shared.inflight_count)
    }

    /// The system once items have bypassed the buffer. Where they go to a background task, one
    /// number is passed over before their batch gets the next.
    pub open spec fn after_bypass(self, config: AccumulatorConfig) -> Self {
        if self.spawns_bypass(config) {
            self.numbered().numbered().in_flight(config)
        } else {
            self.numbered()
        }
    }

    /// Whether an action is the one that items that bypass the buffer at `now` call for.
    pub open spec fn is_bypass_action(
        self,
        config: AccumulatorConfig,
        items: Seq<T>,
        now: Moment,
        action: BypassAction<T>,
    ) -> bool {
        if self.spawns_bypass(config) {
            self.numbered().is_spawned_bypass(config, items, now, action)
        } else {
            &&& action matches BypassAction::Process(batch)
            &&& Self::is_bypass_batch(batch@, items, self.acc.next_batch_id as int, now)
        }
    }

    /// Whether an action hands items that bypass the buffer to a background task.
    pub open spec fn is_spawned_bypass(
        self,
        config: AccumulatorConfig,
        items: Seq<T>,
        now: Moment,
        action: BypassAction<T>,
    ) -> bool {
        &&& action matches BypassAction::Spawn(batch, guard)
        &&& Self::is_bypass_batch(batch@, items, self.acc.next_batch_id as int, now)
        &&& guard.counted() == config.concurrency_mode.counts_inflight()
    }
}

} // verus!
