//! The accumulator: what it does with each item, each tick of its timer, each request and each
//! finished batch.
//!
//! The main loop waits for the next thing to happen, hands it to one of the functions of
//! [`BatchAccumulator`], and carries out what the function answers: it processes a batch, or sends
//! replies. Everything that is decided is decided here.
use std::collections::VecDeque;
use std::sync::Arc;
use std::time::Duration;

use vstd::prelude::*;

use crate::batch::{Batch, FlushInfo, Priority, Reply};
use crate::channel::{take_unbounded, ReplySender};
use crate::config::{AccumulatorConfig, ConcurrencyMode};
use crate::controller::WindowController;
use crate::flush::{Adjustment, BypassAction, FlushAction, FlushJob, FlushTicket, FlushTrigger};
use crate::flush::{ItemFate, Recorded, WindowChange};
use crate::item::{tell_timeout, Arrival, ChannelItem};
use crate::metrics::MetricsCollector;
use crate::shared::{InflightGuard, SharedState};
use crate::system::{AccumulatorModel, System, RETRY_DELAY_MILLIS};
use crate::time::{clamp_window, Clock, Moment};

verus! {

/// How an accumulator is wired up.
#[verifier::reject_recursive_types(T)]
#[verifier::reject_recursive_types(R)]
pub struct Wiring<T, R, P, F> {
    /// The configuration.
    pub config: AccumulatorConfig,
    /// What processes the batches.
    pub processor: Arc<P>,
    /// What weighs the items.
    pub weigher: F,
    /// Where items arrive.
    pub item_rx: tokio::sync::mpsc::UnboundedReceiver<ChannelItem<T, R>>,
    /// Where items that bypass the buffer arrive.
    pub bypass_rx: tokio::sync::mpsc::UnboundedReceiver<Vec<T>>,
    /// Where reports of batches that background tasks have processed arrive.
    pub feedback_rx: tokio::sync::mpsc::UnboundedReceiver<FlushInfo>,
    /// Where background tasks send their reports.
    pub feedback_tx: tokio::sync::mpsc::UnboundedSender<FlushInfo>,
    /// Wakes the main loop when a flush is asked for, or items bypass the buffer.
    pub flush_notify: Arc<tokio::sync::Notify>,
    /// Wakes those who wait for a place in the queue.
    pub queue_notify: Arc<tokio::sync::Notify>,
    /// The clock that moments are read from.
    pub clock: Clock,
}

/// The accumulator.
#[verifier::reject_recursive_types(T)]
#[verifier::reject_recursive_types(R)]
pub struct BatchAccumulator<T, R, P, M, C, F> {
    /// What processes the batches.
    pub processor: Arc<P>,
    /// Where items arrive.
    pub item_rx: tokio::sync::mpsc::UnboundedReceiver<ChannelItem<T, R>>,
    /// Where items that bypass the buffer arrive.
    pub bypass_rx: tokio::sync::mpsc::UnboundedReceiver<Vec<T>>,
    /// Where reports of batches that background tasks have processed arrive.
    pub feedback_rx: tokio::sync::mpsc::UnboundedReceiver<FlushInfo>,
    /// Where background tasks send their reports.
    pub feedback_tx: tokio::sync::mpsc::UnboundedSender<FlushInfo>,
    /// Wakes the main loop when a flush is asked for, or items bypass the buffer.
    pub flush_notify: Arc<tokio::sync::Notify>,
    /// Wakes those who wait for a place in the queue.
    pub queue_notify: Arc<tokio::sync::Notify>,
    /// The clock that moments are read from.
    pub clock: Clock,
    config: AccumulatorConfig,
    metrics: M,
    controller: C,
    weight_fn: F,
    buffer: VecDeque<ChannelItem<T, R>>,
    weights: VecDeque<usize>,
    current_weight: usize,
    next_batch_id: u64,
    last_flush_time: Moment,
    deadline: Moment,
    flush_owed: bool,
}

impl<T, R, P, M, C, F> View for BatchAccumulator<T, R, P, M, C, F> {
    type V = AccumulatorModel<T, R>;

    closed spec fn view(&self) -> AccumulatorModel<T, R> {
        AccumulatorModel {
            buffer: self.buffer@,
            weights: self.weights@,
            current_weight: self.current_weight,
            next_batch_id: self.next_batch_id,
            last_flush: self.last_flush_time.nanos(),
            deadline: self.deadline.nanos(),
            flush_owed: self.flush_owed,
        }
    }
}

impl<T, R, P, M, C, F> BatchAccumulator<T, R, P, M, C, F> {
    /// How the accumulator is wired up.
    pub closed spec fn wiring(&self) -> Wiring<T, R, P, F> {
        Wiring {
            config: self.config,
            processor: self.processor,
            weigher: self.weight_fn,
            item_rx: self.item_rx,
            bypass_rx: self.bypass_rx,
            feedback_rx: self.feedback_rx,
            feedback_tx: self.feedback_tx,
            flush_notify: self.flush_notify,
            queue_notify: self.queue_notify,
            clock: self.clock,
        }
    }

    /// The configuration.
    pub open spec fn spec_config(&self) -> AccumulatorConfig {
        self.wiring().config
    }

    /// What weighs the items.
    pub open spec fn weigher(&self) -> F {
        self.wiring().weigher
    }

    /// What takes the measurements.
    pub closed spec fn collector(&self) -> M {
        self.metrics
    }

    /// What adjusts the window.
    pub closed spec fn window_controller(&self) -> C {
        self.controller
    }

    /// Whether nothing but what the accumulator holds has changed since `before`.
    pub open spec fn same_setup(&self, before: &Self) -> bool {
        &&& self.wiring() == before.wiring()
        &&& self.collector() == before.collector()
        &&& self.window_controller() == before.window_controller()
    }

    /// An accumulator that holds nothing and has not been started, as of `now`.
    pub(crate) fn assemble(
        config: AccumulatorConfig,
        processor: P,
        metrics: M,
        controller: C,
        weight_fn: F,
        item_rx: tokio::sync::mpsc::UnboundedReceiver<ChannelItem<T, R>>,
        bypass_rx: tokio::sync::mpsc::UnboundedReceiver<Vec<T>>,
        feedback: (
            tokio::sync::mpsc::UnboundedSender<FlushInfo>,
            tokio::sync::mpsc::UnboundedReceiver<FlushInfo>,
        ),
        flush_notify: Arc<tokio::sync::Notify>,
        queue_notify: Arc<tokio::sync::Notify>,
        clock: Clock,
        now: Moment,
    ) -> (accumulator: Self)
        ensures
            accumulator.wiring() == (Wiring {
                config,
                processor: Arc::new(processor),
                weigher: weight_fn,
                item_rx,
                bypass_rx,
                feedback_rx: feedback.1,
                feedback_tx: feedback.0,
                flush_notify,
                queue_notify,
                clock,
            }),
            accumulator.collector() == metrics,
            accumulator.window_controller() == controller,
            accumulator@ == AccumulatorModel::<T, R>::initial(now),
    {
        BatchAccumulator {
            processor: Arc::new(processor),
            item_rx,
            bypass_rx,
            feedback_rx: feedback.1,
            feedback_tx: feedback.0,
            flush_notify,
            queue_notify,
            clock,
            config,
            metrics,
            controller,
            weight_fn,
            buffer: VecDeque::new(),
            weights: VecDeque::new(),
            current_weight: 0,
            next_batch_id: 0,
            last_flush_time: now,
            deadline: now,
            flush_owed: false,
        }
    }

    /// The configuration.
    pub fn config(&self) -> (config: &AccumulatorConfig)
        ensures
            *config == self.spec_config(),
    {
        &self.config
    }

    /// How many items are buffered.
    pub fn buffered_len(&self) -> (len: usize)
        ensures
            len == self@.buffer.len(),
    {
        self.buffer.len()
    }

    /// The number of the next batch.
    pub fn next_batch_id(&self) -> (id: u64)
        ensures
            id == self@.next_batch_id,
    {
        self.next_batch_id
    }

    /// When the timer goes off.
    pub fn deadline(&self) -> (deadline: Moment)
        ensures
            deadline.nanos() == self@.deadline,
    {
        self.deadline
    }

    /// How many items are left as the accumulator shuts down: those in the queue and those
    /// buffered, as far as they can be counted.
    pub fn remaining(&self, shared: &SharedState) -> (count: usize)
        ensures
            count == crate::system::heavier(shared@.pending_count, self@.buffer.len() as usize),
            self@.buffer.len() <= usize::MAX,
    {
        shared.pending_count().saturating_add(self.buffer.len())
    }

    /// Sets the timer for the first window, as the main loop starts at `now`.
    pub fn start(&mut self, shared: &SharedState, now: Moment)
        ensures
            final(self).same_setup(old(self)),
            final(self)@ == old(self)@.armed(
                now,
                crate::time::duration_nanos(shared@.current_window),
            ),
    {
        self.deadline = now.after(shared.current_window());
    }

    /// Makes the buffer's size and weight known.
    fn publish(&self, shared: &mut SharedState)
        ensures
            final(shared)@ == (System { acc: self@, shared: old(shared)@ }).showing(
                self.spec_config(),
            ).shared,
            final(shared)@.buffer_size == self@.buffer.len(),
    {
        let weight: usize = match self.config.max_batch_weight {
            Some(_) => self.current_weight,
            None => 0,
        };
        shared.publish_buffer(self.buffer.len(), weight);
    }

    /// Whether the buffer is large or heavy enough to be flushed at once.
    pub fn should_flush(&self) -> (yes: bool)
        ensures
            yes == crate::system::threshold_reached(
                self.spec_config(),
                self@.buffer.len(),
                self@.current_weight,
            ),
            yes <==> {
                ||| self.spec_config().max_batch_size matches Some(max) && self@.buffer.len() >= max
                ||| self.spec_config().max_batch_weight matches Some(max) && self@.current_weight
                    >= max
            },
    {
        if let Some(max) = self.config.max_batch_size {
            if self.buffer.len() >= max {
                return true;
            }
        }
        if let Some(max) = self.config.max_batch_weight {
            if self.current_weight >= max {
                return true;
            }
        }
        false
    }

    /// How many of the buffered items go into the next batch.
    fn next_batch_len(&self) -> (n: usize)
        ensures
            n == self@.next_len(self.spec_config()),
            n <= self@.buffer.len(),
    {
        let len: usize = self.buffer.len();
        match self.config.max_batch_size {
            Some(max) => if 0 < max && max < len {
                max
            } else {
                len
            },
            None => len,
        }
    }

    /// Takes the next batch out of the buffer.
    fn drain_buffer_items(&mut self, shared: &mut SharedState, now: Moment) -> (job: FlushJob<T, R>)
        requires
            (System { acc: old(self)@, shared: old(shared)@ }).sound(old(self).spec_config()),
            old(self)@.next_batch_id < u64::MAX,
        ensures
            final(self).same_setup(old(self)),
            ({
                let config = old(self).spec_config();
                let system = System { acc: old(self)@, shared: old(shared)@ };
                let after = System { acc: final(self)@, shared: final(shared)@ };
                &&& system.is_job(config, now, job)
                &&& after == system.cut(config)
                &&& after.sound(config)
            }),
    {
        let batch_id = self.next_batch_id;
        let window_duration = shared.current_window();
        let queue_depth = shared.pending_count();
        let n: usize = self.next_batch_len();
        let whole = n == self.buffer.len();
        let mut items: Vec<T> = Vec::new();
        let mut senders: VecDeque<Option<ReplySender<R>>> = VecDeque::new();
        let mut parent_spans: Vec<tracing::Span> = Vec::new();
        let mut taken_weight: usize = 0;
        let mut rest_weight: usize = self.current_weight;
        let ghost all = self.buffer@;
        let ghost weights = self.weights@;
        while items.len() < n
            invariant
                items@.len() <= n <= all.len(),
                all == old(self)@.buffer,
                weights == old(self)@.weights,
                weights.len() == all.len(),
                self.buffer@ == all.skip(items@.len() as int),
                self.weights@ == weights.skip(items@.len() as int),
                items@ == crate::item::values_of(all.take(items@.len() as int)),
                senders@ == crate::item::senders_of(all.take(items@.len() as int)),
                parent_spans@ == crate::item::spans_of(all.take(items@.len() as int)),
                taken_weight == crate::system::heavier_by_all(weights.take(items@.len() as int)),
                rest_weight == crate::system::lighter_by_all(
                    old(self)@.current_weight,
                    weights.take(items@.len() as int),
                ),
                self.same_setup(old(self)),
                self@ == (AccumulatorModel {
                    buffer: self.buffer@,
                    weights: self.weights@,
                    ..old(self)@
                }),
            decreases n - items.len(),
        {
            let ghost taken = items@.len() as int;
            if let (Some(item), Some(weight)) = (self.buffer.pop_front(), self.weights.pop_front()) {
                proof {
                    assert(all.take(taken + 1) == all.take(taken).push(all[taken]));
                    assert(weights.take(taken + 1) == weights.take(taken).push(weights[taken]));
                    assert(weights.take(taken + 1).drop_last() == weights.take(taken));
                }
                items.push(item.value);
                senders.push_back(item.reply);
                parent_spans.push(item.parent_span);
                taken_weight = taken_weight.saturating_add(weight);
                rest_weight = rest_weight.saturating_sub(weight);
            }
        }
        let batch_weight: usize = if whole {
            self.current_weight
        } else {
            taken_weight
        };
        let total_weight = match self.config.max_batch_weight {
            Some(_) => Some(batch_weight),
            None => None,
        };
        let batch_size = items.len();
        let time_since_last_flush = now.since(self.last_flush_time);
        self.current_weight = if whole {
            0
        } else {
            rest_weight
        };
        self.next_batch_id = self.next_batch_id + 1;
        self.flush_owed = false;
        self.publish(shared);
        FlushJob {
            batch: Batch::with_context(items, batch_id, now, window_duration, queue_depth),
            ticket: FlushTicket {
                senders,
                parent_spans,
                batch_id,
                batch_size,
                max_batch_size: self.config.max_batch_size,
                window_duration,
                time_since_last_flush,
                total_weight,
            },
        }
    }

    /// Asks for the next flush where items are left in the buffer.
    fn go_on(&self, shared: &mut SharedState)
        ensures
            self@.buffer.len() == 0 ==> final(shared)@ == old(shared)@,
            self@.buffer.len() > 0 ==> {
                &&& final(shared)@ == (System { acc: self@, shared: old(shared)@ }).asked().shared
                &&& crate::channel::woken(self.wiring().flush_notify)
            },
    {
        if self.buffer.len() > 0 {
            shared.request_flush();
            self.flush_notify.notify_one();
        }
    }

    /// Takes the next batch out of the buffer for a background task.
    fn spawn_flush(&mut self, shared: &mut SharedState, now: Moment) -> (action: FlushAction<T, R>)
        requires
            (System { acc: old(self)@, shared: old(shared)@ }).sound(old(self).spec_config()),
            old(self)@.next_batch_id < u64::MAX,
            old(self).spec_config().concurrency_mode.counts_inflight() ==> old(
                shared,
            )@.inflight_count < usize::MAX,
        ensures
            final(self).same_setup(old(self)),
            ({
                let config = old(self).spec_config();
                let system = System { acc: old(self)@, shared: old(shared)@ };
                let after = System { acc: final(self)@, shared: final(shared)@ };
                &&& action matches FlushAction::Spawn(job, guard)
                &&& system.is_job(config, now, job)
                &&& guard.counted() == config.concurrency_mode.counts_inflight()
                &&& after == system.cut(config).in_flight(config)
                &&& after.sound(config)
            }),
    {
        let job = self.drain_buffer_items(shared, now);
        let guard = InflightGuard::new(shared, self.config.concurrency_mode);
        FlushAction::Spawn(job, guard)
    }

    /// Brings a flush about: takes the next batch out of the buffer, or tells why it stays. A flush
    /// that leaves items behind asks for the next one.
    pub fn flush_batch(
        &mut self,
        shared: &mut SharedState,
        trigger: FlushTrigger,
        now: Moment,
    ) -> (action: FlushAction<T, R>)
        requires
            (System { acc: old(self)@, shared: old(shared)@ }).sound(old(self).spec_config()),
            old(self)@.next_batch_id < u64::MAX,
        ensures
            final(self).same_setup(old(self)),
            ({
                let config = old(self).spec_config();
                let system = System { acc: old(self)@, shared: old(shared)@ };
                let after = System { acc: final(self)@, shared: final(shared)@ };
                &&& system.is_action(config, trigger, now, action)
                &&& after == system.after_flush(config, trigger, now)
                &&& after.sound(config)
            }),
            (System { acc: old(self)@, shared: old(shared)@ }).goes_on(
                old(self).spec_config(),
                trigger,
            ) ==> crate::channel::woken(old(self).wiring().flush_notify),
            old(self).spec_config().concurrency_mode is Concurrent ==> !(action is Process),
            old(self).spec_config().concurrency_mode is Serial ==> !(action is Spawn),
    {
        if self.buffer.len() == 0 && (!self.config.flush_empty_batches || shared.is_paused()) {
            self.last_flush_time = now;
            self.flush_owed = false;
            return FlushAction::Skipped;
        }
        let asked_for = match trigger {
            FlushTrigger::Request => true,
            FlushTrigger::Timer => self.flush_owed,
            FlushTrigger::Threshold => false,
        };
        if shared.is_paused() && !asked_for {
            return FlushAction::Held;
        }
        match self.config.concurrency_mode {
            ConcurrencyMode::Serial => {
                let job = self.drain_buffer_items(shared, now);
                self.go_on(shared);
                FlushAction::Process(job)
            },
            ConcurrencyMode::Concurrent { .. } => {
                if self.config.concurrency_mode.is_saturated(shared.inflight_count()) {
                    if trigger == FlushTrigger::Request {
                        self.flush_owed = true;
                    }
                    return FlushAction::Saturated;
                }
                let action = self.spawn_flush(shared, now);
                self.go_on(shared);
                action
            },
        }
    }

    /// Brings a flush about and sets the timer again.
    fn timed_flush(&mut self, shared: &mut SharedState, trigger: FlushTrigger, now: Moment) -> (action:
        FlushAction<T, R>)
        requires
            (System { acc: old(self)@, shared: old(shared)@ }).sound(old(self).spec_config()),
            old(self)@.next_batch_id < u64::MAX,
        ensures
            final(self).same_setup(old(self)),
            ({
                let config = old(self).spec_config();
                let system = System { acc: old(self)@, shared: old(shared)@ };
                let after = System { acc: final(self)@, shared: final(shared)@ };
                &&& system.is_action(config, trigger, now, action)
                &&& after == system.after_timed_flush(config, trigger, now)
                &&& after.sound(config)
            }),
            (System { acc: old(self)@, shared: old(shared)@ }).goes_on(
                old(self).spec_config(),
                trigger,
            ) ==> crate::channel::woken(old(self).wiring().flush_notify),
    {
        let action = self.flush_batch(shared, trigger, now);
        match &action {
            FlushAction::Saturated => {
                self.deadline = now.after(Duration::from_millis(RETRY_DELAY_MILLIS));
            },
            FlushAction::Process(_) => {},
            _ => {
                self.deadline = now.after(shared.current_window());
            },
        }
        action
    }

    /// The timer has gone off.
    pub fn on_timer(&mut self, shared: &mut SharedState, now: Moment) -> (action: FlushAction<T, R>)
        requires
            (System { acc: old(self)@, shared: old(shared)@ }).sound(old(self).spec_config()),
            old(self)@.next_batch_id < u64::MAX,
        ensures
            final(self).same_setup(old(self)),
            ({
                let config = old(self).spec_config();
                let system = System { acc: old(self)@, shared: old(shared)@ };
                let after = System { acc: final(self)@, shared: final(shared)@ };
                &&& system.is_action(config, FlushTrigger::Timer, now, action)
                &&& after == system.after_timed_flush(config, FlushTrigger::Timer, now)
                &&& after.sound(config)
            }),
            (System { acc: old(self)@, shared: old(shared)@ }).goes_on(
                old(self).spec_config(),
                FlushTrigger::Timer,
            ) ==> crate::channel::woken(old(self).wiring().flush_notify),
    {
        self.timed_flush(shared, FlushTrigger::Timer, now)
    }

    /// The main loop has been woken because a flush may have been asked for.
    pub fn on_flush_request(&mut self, shared: &mut SharedState, now: Moment) -> (action: FlushAction<
        T,
        R,
    >)
        requires
            (System { acc: old(self)@, shared: old(shared)@ }).sound(old(self).spec_config()),
            old(self)@.next_batch_id < u64::MAX,
        ensures
            final(self).same_setup(old(self)),
            ({
                let config = old(self).spec_config();
                let system = System { acc: old(self)@, shared: old(shared)@ };
                let after = System { acc: final(self)@, shared: final(shared)@ };
                &&& request_met(config, system, now, action, after)
                &&& after.sound(config)
            }),
            request_goes_on(
                old(self).spec_config(),
                System { acc: old(self)@, shared: old(shared)@ },
            ) ==> crate::channel::woken(old(self).wiring().flush_notify),
    {
        if !shared.take_flush_request() {
            return FlushAction::Skipped;
        }
        self.timed_flush(shared, FlushTrigger::Request, now)
    }

    /// Makes a batch as the accumulator shuts down, however many are in flight.
    fn drain_batch(&mut self, shared: &mut SharedState, now: Moment) -> (action: FlushAction<T, R>)
        requires
            (System { acc: old(self)@, shared: old(shared)@ }).sound(old(self).spec_config()),
            old(self)@.next_batch_id < u64::MAX,
            old(self).spec_config().concurrency_mode.counts_inflight() ==> old(
                shared,
            )@.inflight_count < usize::MAX,
        ensures
            final(self).same_setup(old(self)),
            ({
                let config = old(self).spec_config();
                let system = System { acc: old(self)@, shared: old(shared)@ };
                let after = System { acc: final(self)@, shared: final(shared)@ };
                &&& system.is_drain_action(config, now, action)
                &&& after == system.drained(config)
                &&& after.sound(config)
            }),
    {
        match self.config.concurrency_mode {
            ConcurrencyMode::Serial => FlushAction::Process(self.drain_buffer_items(shared, now)),
            ConcurrencyMode::Concurrent { .. } => self.spawn_flush(shared, now),
        }
    }

    /// Makes the next of the last batches as the accumulator shuts down: of what is buffered, or an
    /// empty one where the configuration says so.
    pub fn final_flush(&mut self, shared: &mut SharedState, now: Moment) -> (action: FlushAction<
        T,
        R,
    >)
        requires
            (System { acc: old(self)@, shared: old(shared)@ }).sound(old(self).spec_config()),
            old(self)@.next_batch_id < u64::MAX,
            old(self).spec_config().concurrency_mode.counts_inflight() ==> old(
                shared,
            )@.inflight_count < usize::MAX,
        ensures
            final(self).same_setup(old(self)),
            ({
                let config = old(self).spec_config();
                let system = System { acc: old(self)@, shared: old(shared)@ };
                let after = System { acc: final(self)@, shared: final(shared)@ };
                &&& system.is_final_action(config, now, action)
                &&& after == system.after_final_flush(config)
                &&& after.sound(config)
            }),
    {
        if self.buffer.len() == 0 && !self.config.flush_empty_batches {
            return FlushAction::Skipped;
        }
        self.drain_batch(shared, now)
    }

    /// A batch of items that bypass the buffer, under the next number.
    fn number_bypass(&mut self, items: Vec<T>, now: Moment) -> (batch: Batch<T>)
        requires
            old(self)@.next_batch_id < u64::MAX,
        ensures
            final(self).same_setup(old(self)),
            System::<T, R>::is_bypass_batch(batch@, items@, old(self)@.next_batch_id as int, now),
            final(self)@ == (AccumulatorModel {
                next_batch_id: (old(self)@.next_batch_id + 1) as u64,
                ..old(self)@
            }),
    {
        let batch_id = self.next_batch_id;
        self.next_batch_id = self.next_batch_id + 1;
        Batch::with_context(items, batch_id, now, Duration::from_nanos(0), 0)
    }

    /// Hands items that bypass the buffer to a background task, however many batches are in flight.
    pub fn spawn_bypass(&mut self, shared: &mut SharedState, items: Vec<T>, now: Moment) -> (action:
        BypassAction<T>)
        requires
            (System { acc: old(self)@, shared: old(shared)@ }).sound(old(self).spec_config()),
            old(self)@.next_batch_id < u64::MAX,
            old(self).spec_config().concurrency_mode.counts_inflight() ==> old(
                shared,
            )@.inflight_count < usize::MAX,
        ensures
            final(self).same_setup(old(self)),
            ({
                let config = old(self).spec_config();
                let system = System { acc: old(self)@, shared: old(shared)@ };
                let after = System { acc: final(self)@, shared: final(shared)@ };
                &&& system.is_spawned_bypass(config, items@, now, action)
                &&& after == system.numbered().in_flight(config)
                &&& after.sound(config)
            }),
    {
        let batch = self.number_bypass(items, now);
        let guard = InflightGuard::new(shared, self.config.concurrency_mode);
        BypassAction::Spawn(batch, guard)
    }

    /// Decides what is done with items that bypass the buffer: they go to a background task, or
    /// the main loop processes them where there are no such tasks or too many. A number is used up
    /// before that is decided, and the background task takes the one after it.
    pub fn process_bypass(&mut self, shared: &mut SharedState, items: Vec<T>, now: Moment) -> (action:
        BypassAction<T>)
        requires
            (System { acc: old(self)@, shared: old(shared)@ }).sound(old(self).spec_config()),
            old(self)@.next_batch_id < u64::MAX,
            (System { acc: old(self)@, shared: old(shared)@ }).spawns_bypass(
                old(self).spec_config(),
            ) ==> old(self)@.next_batch_id < u64::MAX - 1,
        ensures
            final(self).same_setup(old(self)),
            ({
                let config = old(self).spec_config();
                let system = System { acc: old(self)@, shared: old(shared)@ };
                let after = System { acc: final(self)@, shared: final(shared)@ };
                &&& system.is_bypass_action(config, items@, now, action)
                &&& after == system.after_bypass(config)
                &&& after.sound(config)
            }),
    {
        match self.config.concurrency_mode {
            ConcurrencyMode::Serial => BypassAction::Process(self.number_bypass(items, now)),
            ConcurrencyMode::Concurrent { .. } => {
                if self.config.concurrency_mode.is_saturated(shared.inflight_count()) {
                    return BypassAction::Process(self.number_bypass(items, now));
                }
                self.next_batch_id = self.next_batch_id + 1;
                self.spawn_bypass(shared, items, now)
            },
        }
    }

    /// Decides what is done with items that bypass the buffer as the accumulator shuts down: they
    /// go to a background task, or the main loop processes them where there are no such tasks.
    pub fn drain_bypass(&mut self, shared: &mut SharedState, items: Vec<T>, now: Moment) -> (action:
        BypassAction<T>)
        requires
            (System { acc: old(self)@, shared: old(shared)@ }).sound(old(self).spec_config()),
            old(self)@.next_batch_id < u64::MAX,
            old(self).spec_config().concurrency_mode.counts_inflight() ==> old(
                shared,
            )@.inflight_count < usize::MAX,
        ensures
            final(self).same_setup(old(self)),
            ({
                let config = old(self).spec_config();
                let system = System { acc: old(self)@, shared: old(shared)@ };
                let after = System { acc: final(self)@, shared: final(shared)@ };
                &&& bypass_drained(config, system, items@, now, action, after)
                &&& after.sound(config)
            }),
    {
        match self.config.concurrency_mode {
            ConcurrencyMode::Serial => BypassAction::Process(self.number_bypass(items, now)),
            ConcurrencyMode::Concurrent { .. } => self.spawn_bypass(shared, items, now),
        }
    }

    /// The next items that bypass the buffer: none where this round of the main loop has taken as
    /// many as it may, and otherwise what a look into their channel gives. A round that has taken
    /// as many as it may wakes the main loop for another one.
    pub fn next_bypass(&mut self, taken: usize) -> (items: Option<Vec<T>>)
        ensures
            taken >= old(self).spec_config().drain_batch_limit ==> {
                &&& items is None
                &&& final(self).wiring() == old(self).wiring()
                &&& taken > 0 ==> crate::channel::woken(old(self).wiring().flush_notify)
            },
            taken < old(self).spec_config().drain_batch_limit ==> exists|
                end: &mut tokio::sync::mpsc::UnboundedReceiver<Vec<T>>,
                received: Result<Vec<T>, tokio::sync::mpsc::error::TryRecvError>,
            |
                {
                    &&& #[trigger] call_ensures(
                        tokio::sync::mpsc::UnboundedReceiver::<Vec<T>>::try_recv,
                        (end,),
                        received,
                    )
                    &&& *end == old(self).wiring().bypass_rx
                    &&& *final(end) == final(self).wiring().bypass_rx
                    &&& items == match received {
                        Ok(value) => Some(value),
                        Err(_) => None,
                    }
                },
            final(self).wiring() == (Wiring {
                bypass_rx: final(self).wiring().bypass_rx,
                ..old(self).wiring()
            }),
            final(self).collector() == old(self).collector(),
            final(self).window_controller() == old(self).window_controller(),
            final(self)@ == old(self)@,
    {
        if taken >= self.config.drain_batch_limit {
            if taken > 0 {
                self.flush_notify.notify_one();
            }
            return None;
        }
        take_unbounded(&mut self.bypass_rx)
    }

    /// The next report of a background task: none where this round of the main loop has taken as
    /// many as it may, and otherwise what a look into their channel gives.
    pub fn next_feedback(&mut self, taken: usize) -> (info: Option<FlushInfo>)
        ensures
            taken >= old(self).spec_config().drain_batch_limit ==> {
                &&& info is None
                &&& final(self).wiring() == old(self).wiring()
            },
            taken < old(self).spec_config().drain_batch_limit ==> exists|
                end: &mut tokio::sync::mpsc::UnboundedReceiver<FlushInfo>,
                received: Result<FlushInfo, tokio::sync::mpsc::error::TryRecvError>,
            |
                {
                    &&& #[trigger] call_ensures(
                        tokio::sync::mpsc::UnboundedReceiver::<FlushInfo>::try_recv,
                        (end,),
                        received,
                    )
                    &&& *end == old(self).wiring().feedback_rx
                    &&& *final(end) == final(self).wiring().feedback_rx
                    &&& info == match received {
                        Ok(value) => Some(value),
                        Err(_) => None,
                    }
                },
            final(self).wiring() == (Wiring {
                feedback_rx: final(self).wiring().feedback_rx,
                ..old(self).wiring()
            }),
            final(self).collector() == old(self).collector(),
            final(self).window_controller() == old(self).window_controller(),
            final(self)@ == old(self)@,
    {
        if taken >= self.config.drain_batch_limit {
            return None;
        }
        take_unbounded(&mut self.feedback_rx)
    }

    /// Starts a round of the main loop: it stops where the accumulator has been told to shut down,
    /// and then takes no more items, however many handles are left.
    pub fn begin_round(&mut self, shared: &SharedState) -> (round: Round)
        ensures
            round == if shared@.cancelled {
                Round::Stop
            } else {
                Round::Continue
            },
            !shared@.cancelled ==> final(self).wiring() == old(self).wiring(),
            shared@.cancelled ==> exists|end: &mut tokio::sync::mpsc::UnboundedReceiver<
                ChannelItem<T, R>,
            >|
                {
                    &&& #[trigger] call_ensures(
                        tokio::sync::mpsc::UnboundedReceiver::<ChannelItem<T, R>>::close,
                        (end,),
                        (),
                    )
                    &&& *end == old(self).wiring().item_rx
                    &&& *final(end) == final(self).wiring().item_rx
                },
            shared@.cancelled ==> exists|end: &mut tokio::sync::mpsc::UnboundedReceiver<Vec<T>>|
                {
                    &&& #[trigger] call_ensures(
                        tokio::sync::mpsc::UnboundedReceiver::<Vec<T>>::close,
                        (end,),
                        (),
                    )
                    &&& *end == old(self).wiring().bypass_rx
                    &&& *final(end) == final(self).wiring().bypass_rx
                },
            final(self).wiring() == (Wiring {
                item_rx: final(self).wiring().item_rx,
                bypass_rx: final(self).wiring().bypass_rx,
                ..old(self).wiring()
            }),
            final(self).collector() == old(self).collector(),
            final(self).window_controller() == old(self).window_controller(),
            final(self)@ == old(self)@,
    {
        if !shared.is_cancelled() {
            return Round::Continue;
        }
        self.item_rx.close();
        self.bypass_rx.close();
        Round::Stop
    }

    /// Drops the buffered items that have timed out at `now`, and gives the replies that are due
    /// to those who wait for them.
    pub fn drain_expired(&mut self, shared: &mut SharedState, now: Moment) -> (replies: Vec<
        Reply<R>,
    >)
        requires
            (System { acc: old(self)@, shared: old(shared)@ }).sound(old(self).spec_config()),
        ensures
            final(self).same_setup(old(self)),
            ({
                let config = old(self).spec_config();
                let system = System { acc: old(self)@, shared: old(shared)@ };
                let after = System { acc: final(self)@, shared: final(shared)@ };
                let gone = crate::item::expired_items(system.acc.buffer, now);
                &&& replies@ == crate::item::timeout_replies(gone)
                &&& after == system.after_expiry(config, now)
                &&& after.sound(config)
            }),
    {
        let count: usize = self.buffer.len();
        let mut kept: VecDeque<ChannelItem<T, R>> = VecDeque::with_capacity(count);
        let mut kept_weights: VecDeque<usize> = VecDeque::with_capacity(count);
        let mut replies: Vec<Reply<R>> = Vec::new();
        let mut dropped: u64 = 0;
        let ghost all = self.buffer@;
        let ghost weights = self.weights@;
        let ghost mut taken: int = 0;
        while self.buffer.len() > 0
            invariant
                count == all.len(),
                0 <= taken <= all.len(),
                all == old(self)@.buffer,
                weights == old(self)@.weights,
                weights.len() == all.len(),
                self.buffer@ == all.skip(taken),
                self.weights@ == weights.skip(taken),
                kept@ == crate::item::live_items(all.take(taken), now),
                kept_weights@ == crate::item::live_weights(all.take(taken), weights, now),
                kept_weights@.len() == kept@.len(),
                replies@ == crate::item::timeout_replies(
                    crate::item::expired_items(all.take(taken), now),
                ),
                dropped == crate::item::expired_items(all.take(taken), now).len(),
                dropped <= taken,
                self.same_setup(old(self)),
                self@ == (AccumulatorModel {
                    buffer: self.buffer@,
                    weights: self.weights@,
                    current_weight: crate::system::lighter_by_all(
                        old(self)@.current_weight,
                        crate::item::expired_weights(all.take(taken), weights, now),
                    ),
                    ..old(self)@
                }),
            decreases self.buffer.len(),
        {
            if let (Some(item), Some(weight)) = (self.buffer.pop_front(), self.weights.pop_front()) {
                proof {
                    assert(all.take(taken + 1) == all.take(taken).push(all[taken]));
                    assert(all.take(taken + 1).drop_last() == all.take(taken));
                    taken = taken + 1;
                }
                if item.is_expired(now) {
                    proof {
                        let gone = crate::item::expired_items(all.take(taken), now);
                        let lost = crate::item::expired_weights(all.take(taken), weights, now);
                        assert(gone.drop_last() == crate::item::expired_items(
                            all.take(taken - 1),
                            now,
                        ));
                        assert(lost.drop_last() == crate::item::expired_weights(
                            all.take(taken - 1),
                            weights,
                            now,
                        ));
                    }
                    self.current_weight = self.current_weight.saturating_sub(weight);
                    dropped = dropped + 1;
                    if let Some(reply) = tell_timeout(item.reply) {
                        replies.push(reply);
                    }
                } else {
                    kept.push_back(item);
                    kept_weights.push_back(weight);
                }
            }
        }
        assert(all.take(taken) == all);
        self.buffer = kept;
        self.weights = kept_weights;
        if dropped > 0 {
            shared.record_dropped_timeout(dropped);
        }
        self.publish(shared);
        replies
    }

    /// Puts an item into the buffer: an urgent one at the front, any other at the back.
    fn buffer_item(&mut self, shared: &mut SharedState, item: ChannelItem<T, R>, weight: usize)
        requires
            old(self)@.weights.len() == old(self)@.buffer.len(),
        ensures
            final(self).same_setup(old(self)),
            (System { acc: final(self)@, shared: final(shared)@ }) == (System {
                acc: old(self)@,
                shared: old(shared)@,
            }).buffering(old(self).spec_config(), item, weight),
            final(self)@.weights.len() == final(self)@.buffer.len(),
            final(shared)@.buffer_size == final(self)@.buffer.len(),
    {
        self.current_weight = self.current_weight.saturating_add(weight);
        match item.priority {
            Priority::High => {
                self.buffer.push_front(item);
                self.weights.push_front(weight);
            },
            Priority::Normal => {
                self.buffer.push_back(item);
                self.weights.push_back(weight);
            },
        }
        self.publish(shared);
    }

    /// Takes in an item that has come out of the queue: drops it if it has timed out, and buffers
    /// it otherwise. An urgent item asks for a flush; a buffer that is large or heavy enough is
    /// flushed at once. The time that the item waited in the queue comes along.
    pub fn receive(&mut self, shared: &mut SharedState, arrival: Arrival<T, R>) -> (out: (
        Duration,
        ItemFate<T, R>,
    ))
        requires
            (System { acc: old(self)@, shared: old(shared)@ }).sound(old(self).spec_config()),
            old(self)@.next_batch_id < u64::MAX,
            old(shared)@.pending_count > 0,
        ensures
            final(self).same_setup(old(self)),
            ({
                let config = old(self).spec_config();
                let system = System { acc: old(self)@, shared: old(shared)@ };
                let after = System { acc: final(self)@, shared: final(shared)@ };
                &&& item_taken(config, system, arrival, out.0, out.1, after)
                &&& after.sound(config)
            }),
            crate::channel::woken(old(self).wiring().queue_notify),
            arrival.item().priority == Priority::High && !arrival.item().expired(arrival.at())
                ==> crate::channel::woken(old(self).wiring().flush_notify),
            item_goes_on(
                old(self).spec_config(),
                System { acc: old(self)@, shared: old(shared)@ },
                arrival,
                out.0,
            ) ==> crate::channel::woken(old(self).wiring().flush_notify),
    {
        let (item, now, weight) = arrival.into_parts();
        shared.release_slot();
        self.queue_notify.notify_one();
        let waited = now.since(item.submitted_at);
        shared.record_wait(waited);
        if item.is_expired(now) {
            shared.record_dropped_timeout(1);
            return (waited, ItemFate::Expired { reply: tell_timeout(item.reply) });
        }
        let urgent = item.priority == Priority::High;
        self.buffer_item(shared, item, weight);
        if urgent {
            shared.request_flush();
            self.flush_notify.notify_one();
        }
        if !self.should_flush() {
            return (waited, ItemFate::Buffered { weight, flush: None });
        }
        let action = self.flush_batch(shared, FlushTrigger::Threshold, now);
        if let FlushAction::Spawn(_, _) = &action {
            self.deadline = now.after(shared.current_window());
        }
        (waited, ItemFate::Buffered { weight, flush: Some(action) })
    }

    /// Takes in an item that was still in the queue as the accumulator shut down: drops it if it
    /// has timed out, and buffers it otherwise. A buffer that is large or heavy enough is flushed
    /// at once.
    pub fn receive_draining(&mut self, shared: &mut SharedState, arrival: Arrival<T, R>) -> (fate:
        ItemFate<T, R>)
        requires
            (System { acc: old(self)@, shared: old(shared)@ }).sound(old(self).spec_config()),
            old(self)@.next_batch_id < u64::MAX,
            old(shared)@.pending_count > 0,
            old(self).spec_config().concurrency_mode.counts_inflight() ==> old(
                shared,
            )@.inflight_count < usize::MAX,
        ensures
            final(self).same_setup(old(self)),
            ({
                let config = old(self).spec_config();
                let system = System { acc: old(self)@, shared: old(shared)@ };
                let after = System { acc: final(self)@, shared: final(shared)@ };
                &&& item_drained(config, system, arrival, fate, after)
                &&& after.sound(config)
            }),
            crate::channel::woken(old(self).wiring().queue_notify),
    {
        let (item, now, weight) = arrival.into_parts();
        shared.release_slot();
        self.queue_notify.notify_one();
        if item.is_expired(now) {
            shared.record_dropped_timeout(1);
            return ItemFate::Expired { reply: tell_timeout(item.reply) };
        }
        self.buffer_item(shared, item, weight);
        if !self.should_flush() {
            return ItemFate::Buffered { weight, flush: None };
        }
        let action = self.drain_batch(shared, now);
        ItemFate::Buffered { weight, flush: Some(action) }
    }

    /// A batch has been finished at `now`, and its report has been taken in: counts it.
    pub fn record_completion(&mut self, shared: &mut SharedState, recorded: Recorded, now: Moment)
        requires
            (System { acc: old(self)@, shared: old(shared)@ }).sound(old(self).spec_config()),
        ensures
            final(self).same_setup(old(self)),
            ({
                let config = old(self).spec_config();
                let system = System { acc: old(self)@, shared: old(shared)@ };
                let after = System { acc: final(self)@, shared: final(shared)@ };
                &&& after == system.after_completion(recorded.info().execution_time, now)
                &&& after.sound(config)
            }),
    {
        shared.record_flush(recorded.into_info().execution_time);
        self.last_flush_time = now;
    }

    /// Counts a batch that has been finished at `now`, and sets the window that the controller's
    /// answer comes to.
    fn settle(&mut self, shared: &mut SharedState, adjustment: &Adjustment, now: Moment) -> (change:
        WindowChange)
        requires
            (System { acc: old(self)@, shared: old(shared)@ }).sound(old(self).spec_config()),
        ensures
            final(self).same_setup(old(self)),
            ({
                let config = old(self).spec_config();
                let system = System { acc: old(self)@, shared: old(shared)@ };
                let after = System { acc: final(self)@, shared: final(shared)@ };
                &&& after == system.after_completion(
                    adjustment.info().execution_time,
                    now,
                ).after_adjustment(config, adjustment.spec_change().proposed)
                &&& after.sound(config)
            }),
            change.before == old(shared)@.current_window,
            change.proposed == adjustment.spec_change().proposed,
            change.after == final(shared)@.current_window,
            ({
                let config = old(self).spec_config();
                let answer = crate::time::duration_nanos(adjustment.spec_change().proposed);
                let low = crate::time::duration_nanos(config.min_window);
                let high = crate::time::duration_nanos(config.max_window);
                let window = final(shared)@.current_window;
                &&& low <= answer <= high ==> window == adjustment.spec_change().proposed
                &&& answer < low ==> window == config.min_window
                &&& answer > high ==> window == config.max_window
            }),
    {
        let before = shared.current_window();
        let proposed = adjustment.change().proposed;
        let after = clamp_window(proposed, self.config.min_window, self.config.max_window);
        shared.record_flush(adjustment.execution_time());
        self.last_flush_time = now;
        shared.set_current_window(after);
        WindowChange { before, proposed, after }
    }

    /// The main loop has finished a batch at `now`: counts it, sets the window, and sets the timer
    /// for it.
    pub fn finish_serial(&mut self, shared: &mut SharedState, adjustment: Adjustment, now: Moment) -> (change:
        WindowChange)
        requires
            (System { acc: old(self)@, shared: old(shared)@ }).sound(old(self).spec_config()),
        ensures
            final(self).same_setup(old(self)),
            ({
                let config = old(self).spec_config();
                let system = System { acc: old(self)@, shared: old(shared)@ };
                let after = System { acc: final(self)@, shared: final(shared)@ };
                &&& after == system.after_serial(
                    config,
                    adjustment.info(),
                    adjustment.spec_change().proposed,
                    now,
                )
                &&& after.sound(config)
            }),
            change.before == old(shared)@.current_window,
            change.proposed == adjustment.spec_change().proposed,
            change.after == final(shared)@.current_window,
            ({
                let config = old(self).spec_config();
                let answer = crate::time::duration_nanos(adjustment.spec_change().proposed);
                let low = crate::time::duration_nanos(config.min_window);
                let high = crate::time::duration_nanos(config.max_window);
                let window = final(shared)@.current_window;
                &&& low <= answer <= high ==> window == adjustment.spec_change().proposed
                &&& answer < low ==> window == config.min_window
                &&& answer > high ==> window == config.max_window
            }),
    {
        let change = self.settle(shared, &adjustment, now);
        self.deadline = now.after(shared.current_window());
        change
    }

    /// A background task has reported a batch: counts it, sets the window, and asks for a flush
    /// where items have gathered meanwhile.
    pub fn handle_feedback(&mut self, shared: &mut SharedState, adjustment: Adjustment, now: Moment) -> (change:
        WindowChange)
        requires
            (System { acc: old(self)@, shared: old(shared)@ }).sound(old(self).spec_config()),
        ensures
            final(self).same_setup(old(self)),
            ({
                let config = old(self).spec_config();
                let system = System { acc: old(self)@, shared: old(shared)@ };
                let after = System { acc: final(self)@, shared: final(shared)@ };
                &&& after == system.after_feedback(
                    config,
                    adjustment.info(),
                    adjustment.spec_change().proposed,
                    now,
                )
                &&& after.sound(config)
            }),
            change.before == old(shared)@.current_window,
            change.proposed == adjustment.spec_change().proposed,
            change.after == final(shared)@.current_window,
            ({
                let config = old(self).spec_config();
                let answer = crate::time::duration_nanos(adjustment.spec_change().proposed);
                let low = crate::time::duration_nanos(config.min_window);
                let high = crate::time::duration_nanos(config.max_window);
                let window = final(shared)@.current_window;
                &&& low <= answer <= high ==> window == adjustment.spec_change().proposed
                &&& answer < low ==> window == config.min_window
                &&& answer > high ==> window == config.max_window
            }),
            old(self)@.buffer.len() > 0 && !old(shared)@.paused ==> crate::channel::woken(
                old(self).wiring().flush_notify,
            ),
    {
        let change = self.settle(shared, &adjustment, now);
        if !shared.is_paused() {
            self.go_on(shared);
        }
        change
    }

    /// Something has happened at `now`: does what it calls for, and tells the main loop what is
    /// left for it to do. An item is taken in as of the moment at which it came.
    pub fn on_event(&mut self, shared: &mut SharedState, event: Event<T, R>, now: Moment) -> (response:
        Response<T, R>)
        requires
            (System { acc: old(self)@, shared: old(shared)@ }).sound(old(self).spec_config()),
            old(self)@.next_batch_id < u64::MAX,
            event is Item ==> old(shared)@.pending_count > 0,
        ensures
            final(self).same_setup(old(self)),
            ({
                let config = old(self).spec_config();
                let system = System { acc: old(self)@, shared: old(shared)@ };
                let after = System { acc: final(self)@, shared: final(shared)@ };
                &&& match event {
                    Event::Timer => {
                        &&& response matches Response::Flush(action)
                        &&& system.is_action(config, FlushTrigger::Timer, now, action)
                        &&& after == system.after_timed_flush(config, FlushTrigger::Timer, now)
                        &&& system.goes_on(config, FlushTrigger::Timer) ==> crate::channel::woken(
                            old(self).wiring().flush_notify,
                        )
                    },
                    Event::Feedback(adjustment) => {
                        let proposed = adjustment.spec_change().proposed;
                        &&& response matches Response::Window(change)
                        &&& after == system.after_feedback(
                            config,
                            adjustment.info(),
                            proposed,
                            now,
                        )
                        &&& change.before == system.shared.current_window
                        &&& change.proposed == proposed
                        &&& change.after == after.shared.current_window
                        &&& system.acc.buffer.len() > 0 && !system.shared.paused
                            ==> crate::channel::woken(old(self).wiring().flush_notify)
                    },
                    Event::FlushRequest => {
                        &&& response matches Response::Flush(action)
                        &&& request_met(config, system, now, action, after)
                        &&& request_goes_on(config, system) ==> crate::channel::woken(
                            old(self).wiring().flush_notify,
                        )
                    },
                    Event::Item(arrival) => {
                        &&& response matches Response::Item(waited, fate)
                        &&& item_taken(config, system, arrival, waited, fate, after)
                        &&& crate::channel::woken(old(self).wiring().queue_notify)
                        &&& arrival.item().priority == Priority::High && !arrival.item().expired(
                            arrival.at(),
                        ) ==> crate::channel::woken(old(self).wiring().flush_notify)
                        &&& item_goes_on(config, system, arrival, waited) ==> crate::channel::woken(
                            old(self).wiring().flush_notify,
                        )
                    },
                    Event::Closed => response is Stop && after == system,
                }
                &&& after.sound(config)
            }),
    {
        match event {
            Event::Timer => Response::Flush(self.on_timer(shared, now)),
            Event::Feedback(adjustment) => Response::Window(
                self.handle_feedback(shared, adjustment, now),
            ),
            Event::FlushRequest => Response::Flush(self.on_flush_request(shared, now)),
            Event::Item(arrival) => {
                let (waited, fate) = self.receive(shared, arrival);
                Response::Item(waited, fate)
            },
            Event::Closed => Response::Stop,
        }
    }

    /// Takes one step of the shutdown at `now`, given what the main loop has found for its phase:
    /// does what the step calls for, tells the main loop what is left for it to do, and which phase
    /// follows.
    pub fn drain_step(
        &mut self,
        shared: &mut SharedState,
        phase: Phase,
        found: Found<T, R>,
        now: Moment,
    ) -> (out: (Remainder<T, R>, Phase))
        requires
            (System { acc: old(self)@, shared: old(shared)@ }).sound(old(self).spec_config()),
            old(self)@.next_batch_id < u64::MAX,
            old(self).spec_config().concurrency_mode.counts_inflight() ==> old(
                shared,
            )@.inflight_count < usize::MAX,
            found.fits(phase),
            found is Item ==> old(shared)@.pending_count > 0,
        ensures
            final(self).same_setup(old(self)),
            ({
                let config = old(self).spec_config();
                let system = System { acc: old(self)@, shared: old(shared)@ };
                let after = System { acc: final(self)@, shared: final(shared)@ };
                &&& match found {
                    Found::Item(arrival) => {
                        &&& out.0 matches Remainder::Item(fate)
                        &&& item_drained(config, system, arrival, fate, after)
                        &&& crate::channel::woken(old(self).wiring().queue_notify)
                    },
                    Found::Bypass(items) => {
                        &&& out.0 matches Remainder::Bypass(action)
                        &&& bypass_drained(config, system, items@, now, action, after)
                    },
                    Found::Report(adjustment) => {
                        let proposed = adjustment.spec_change().proposed;
                        &&& out.0 matches Remainder::Window(change)
                        &&& after == system.after_feedback(
                            config,
                            adjustment.info(),
                            proposed,
                            now,
                        )
                        &&& change.before == system.shared.current_window
                        &&& change.proposed == proposed
                        &&& change.after == after.shared.current_window
                        &&& system.acc.buffer.len() > 0 && !system.shared.paused
                            ==> crate::channel::woken(old(self).wiring().flush_notify)
                    },
                    Found::Nothing => if phase == Phase::LastBatch {
                        &&& out.0 matches Remainder::Flush(action)
                        &&& system.is_final_action(config, now, action)
                        &&& after == system.after_final_flush(config)
                    } else {
                        &&& out.0 is Nothing
                        &&& after == system
                    },
                }
                &&& out.1 == phase.next(!(found is Nothing), after.acc.buffer.len())
                &&& after.sound(config)
            }),
    {
        match found {
            Found::Item(arrival) => {
                let fate = self.receive_draining(shared, arrival);
                (Remainder::Item(fate), phase)
            },
            Found::Bypass(items) => {
                let action = self.drain_bypass(shared, items, now);
                (Remainder::Bypass(action), phase)
            },
            Found::Report(adjustment) => {
                let change = self.handle_feedback(shared, adjustment, now);
                (Remainder::Window(change), phase)
            },
            Found::Nothing => match phase {
                Phase::Items => (Remainder::Nothing, Phase::Bypass),
                Phase::Bypass => (Remainder::Nothing, Phase::LastBatch),
                Phase::LastBatch => {
                    let action = self.final_flush(shared, now);
                    if self.buffer.len() > 0 {
                        (Remainder::Flush(action), Phase::LastBatch)
                    } else {
                        (Remainder::Flush(action), Phase::Tasks)
                    }
                },
                Phase::Tasks => (Remainder::Nothing, Phase::Reports),
                Phase::Reports => (Remainder::Nothing, Phase::Done),
                Phase::Done => (Remainder::Nothing, Phase::Done),
            },
        }
    }
}

impl<T, R, P, M, C, F: Fn(&T) -> usize> BatchAccumulator<T, R, P, M, C, F> {
    /// Whether the weigher takes every item.
    pub open spec fn weighs_all(&self) -> bool {
        forall|value: &T| #[trigger] call_requires(self.weigher(), (value,))
    }

    /// Weighs an item that has come out of the queue at `now`. One that has timed out is not
    /// weighed.
    pub fn arrive(&self, item: ChannelItem<T, R>, now: Moment) -> (arrival: Arrival<T, R>)
        requires
            self.weighs_all(),
        ensures
            arrival.item() == item,
            arrival.at() == now,
            item.expired(now) ==> arrival.weight() == 0,
            !item.expired(now) ==> call_ensures(
                self.weigher(),
                (&item.value,),
                arrival.weight(),
            ),
    {
        if item.is_expired(now) {
            return Arrival::new(item, now, 0);
        }
        assert(call_requires(self.weigher(), (&item.value,)));
        let weight: usize = (self.weight_fn)(&item.value);
        Arrival::new(item, now, weight)
    }
}

/// Whether a controller may have answered with `change.proposed` when it was asked about the
/// window `change.before`, with measurements that the collector shows.
pub open spec fn consulted<M: MetricsCollector, C: WindowController<M::Utilization>>(
    collector: M,
    before: C,
    change: WindowChange,
    after: C,
) -> bool {
    exists|snapshot: crate::metrics::MetricsSnapshot<M::Utilization>|
        {
            &&& #[trigger] collector.shows(snapshot)
            &&& C::answers(&before, change.before, snapshot, &after, change.proposed)
        }
}

impl<T, R, P, M, C, F> BatchAccumulator<T, R, P, M, C, F> where
    M: MetricsCollector,
    C: WindowController<M::Utilization>,
 {
    /// Passes the report of a batch on to the collector.
    pub fn record(&mut self, info: FlushInfo) -> (recorded: Recorded)
        ensures
            recorded.info() == info,
            M::takes_in(&old(self).collector(), info, &final(self).collector()),
            final(self).wiring() == old(self).wiring(),
            final(self).window_controller() == old(self).window_controller(),
            final(self)@ == old(self)@,
    {
        self.metrics.record_flush(&info);
        Recorded::new(info)
    }

    /// Asks the controller what should follow `window`, now that the collector has taken a report
    /// in, and holds its answer to the range that the configuration allows.
    pub fn adjust_window_after_flush(&mut self, recorded: Recorded, window: Duration) -> (adjustment:
        Adjustment)
        requires
            old(self).spec_config().wf(),
        ensures
            adjustment.info() == recorded.info(),
            adjustment.spec_change().before == window,
            consulted(
                old(self).collector(),
                old(self).window_controller(),
                adjustment.spec_change(),
                final(self).window_controller(),
            ),
            adjustment.spec_change().after == crate::time::clamped(
                adjustment.spec_change().proposed,
                old(self).spec_config().min_window,
                old(self).spec_config().max_window,
            ),
            final(self).wiring() == old(self).wiring(),
            final(self).collector() == old(self).collector(),
            final(self)@ == old(self)@,
    {
        let snapshot = self.metrics.snapshot();
        let proposed = self.controller.adjust_window(window, &snapshot);
        let after = clamp_window(proposed, self.config.min_window, self.config.max_window);
        Adjustment::new(recorded.into_info(), WindowChange { before: window, proposed, after })
    }
}

/// What a round of the main loop starts with.
#[derive(Debug, Clone, Copy, PartialEq, Eq, Structural)]
pub enum Round {
    /// The main loop goes on.
    Continue,
    /// The main loop ends, and what is left is processed.
    Stop,
}

/// What may happen to an accumulator next.
#[verifier::reject_recursive_types(R)]
pub enum Event<T, R> {
    /// The timer has gone off.
    Timer,
    /// A background task has reported a batch.
    Feedback(Adjustment),
    /// The main loop has been woken because a flush may have been asked for.
    FlushRequest,
    /// An item has come out of the queue.
    Item(Arrival<T, R>),
    /// The queue is empty and all handles are gone.
    Closed,
}

/// What the accumulator answers to what has happened.
#[verifier::reject_recursive_types(R)]
pub enum Response<T, R> {
    /// A flush was brought about.
    Flush(FlushAction<T, R>),
    /// The window was adjusted.
    Window(WindowChange),
    /// An item was taken in after waiting for some time.
    Item(Duration, ItemFate<T, R>),
    /// The main loop ends, and what is left is processed.
    Stop,
}

/// How far a shutdown has come.
#[derive(Debug, Clone, Copy, PartialEq, Eq, Structural)]
pub enum Phase {
    /// The items that are still in the queue are taken in.
    Items,
    /// The items that bypass the buffer are processed.
    Bypass,
    /// What is buffered is processed.
    LastBatch,
    /// The background tasks are waited for.
    Tasks,
    /// Their reports are taken in.
    Reports,
    /// Nothing is left to be done.
    Done,
}

impl Phase {
    /// The phase that follows a step, given whether the step found something and how many items are
    /// buffered after it.
    pub open spec fn next(self, found: bool, buffered: nat) -> Phase {
        match self {
            Phase::Items => if found {
                Phase::Items
            } else {
                Phase::Bypass
            },
            Phase::Bypass => if found {
                Phase::Bypass
            } else {
                Phase::LastBatch
            },
            Phase::LastBatch => if buffered > 0 {
                Phase::LastBatch
            } else {
                Phase::Tasks
            },
            Phase::Tasks => Phase::Reports,
            Phase::Reports => if found {
                Phase::Reports
            } else {
                Phase::Done
            },
            Phase::Done => Phase::Done,
        }
    }
}

/// What the main loop has found for a phase of the shutdown.
#[verifier::reject_recursive_types(R)]
pub enum Found<T, R> {
    /// An item in the queue.
    Item(Arrival<T, R>),
    /// Items that bypass the buffer.
    Bypass(Vec<T>),
    /// The report of a background task.
    Report(Adjustment),
    /// Nothing, or nothing more; or the phase needs nothing to be found.
    Nothing,
}

impl<T, R> Found<T, R> {
    /// Whether something can be found in a phase.
    pub open spec fn fits(self, phase: Phase) -> bool {
        match self {
            Found::Item(_) => phase == Phase::Items,
            Found::Bypass(_) => phase == Phase::Bypass,
            Found::Report(_) => phase == Phase::Reports,
            Found::Nothing => true,
        }
    }
}

/// What a step of the shutdown leaves for the main loop to do.
#[verifier::reject_recursive_types(R)]
pub enum Remainder<T, R> {
    /// An item was taken in.
    Item(ItemFate<T, R>),
    /// Items that bypass the buffer are processed.
    Bypass(BypassAction<T>),
    /// A batch is processed.
    Flush(FlushAction<T, R>),
    /// The window was adjusted.
    Window(WindowChange),
    /// Nothing.
    Nothing,
}

/// Whether an item that came out of the queue took the system from one state to another, with the
/// given time of waiting and the given fate.
pub open spec fn item_taken<T, R>(
    config: AccumulatorConfig,
    before: System<T, R>,
    arrival: Arrival<T, R>,
    waited: Duration,
    fate: ItemFate<T, R>,
    after: System<T, R>,
) -> bool {
    let item = arrival.item();
    let now = arrival.at();
    let held = before.taking_in(config, item, arrival.weight(), waited);
    &&& crate::time::duration_nanos(waited) == crate::time::nanos_between(
        item.submitted_at.nanos(),
        now.nanos(),
    )
    &&& after == before.after_item(config, item, arrival.weight(), waited, now)
    &&& match fate {
        ItemFate::Expired { reply } => {
            &&& item.expired(now)
            &&& reply == crate::item::timeout_reply(item.reply)
        },
        ItemFate::Buffered { weight, flush } => {
            &&& !item.expired(now)
            &&& weight == arrival.weight()
            &&& match flush {
                Some(action) => {
                    &&& held.full(config)
                    &&& held.is_action(config, FlushTrigger::Threshold, now, action)
                },
                None => !held.full(config),
            }
        },
    }
}

/// Whether the flush that an item brings about on its arrival has to go on.
pub open spec fn item_goes_on<T, R>(
    config: AccumulatorConfig,
    before: System<T, R>,
    arrival: Arrival<T, R>,
    waited: Duration,
) -> bool {
    let held = before.taking_in(config, arrival.item(), arrival.weight(), waited);
    &&& !arrival.item().expired(arrival.at())
    &&& held.full(config)
    &&& held.goes_on(config, FlushTrigger::Threshold)
}

/// Whether a flush was asked for and has to go on once it has been brought about.
pub open spec fn request_goes_on<T, R>(config: AccumulatorConfig, before: System<T, R>) -> bool {
    &&& before.shared.flush_requested
    &&& before.request_taken().goes_on(config, FlushTrigger::Request)
}

/// Whether an item that came out of the queue during the shutdown took the system from one state to
/// another, with the given fate.
pub open spec fn item_drained<T, R>(
    config: AccumulatorConfig,
    before: System<T, R>,
    arrival: Arrival<T, R>,
    fate: ItemFate<T, R>,
    after: System<T, R>,
) -> bool {
    let item = arrival.item();
    let now = arrival.at();
    let held = before.slot_released().buffering(config, item, arrival.weight());
    &&& after == before.after_drained_item(config, item, arrival.weight(), now)
    &&& match fate {
        ItemFate::Expired { reply } => {
            &&& item.expired(now)
            &&& reply == crate::item::timeout_reply(item.reply)
        },
        ItemFate::Buffered { weight, flush } => {
            &&& !item.expired(now)
            &&& weight == arrival.weight()
            &&& match flush {
                Some(action) => {
                    &&& held.full(config)
                    &&& held.is_drain_action(config, now, action)
                },
                None => !held.full(config),
            }
        },
    }
}

/// Whether items that bypass the buffer during the shutdown took the system from one state to
/// another, with the given action.
pub open spec fn bypass_drained<T, R>(
    config: AccumulatorConfig,
    before: System<T, R>,
    items: Seq<T>,
    now: Moment,
    action: BypassAction<T>,
    after: System<T, R>,
) -> bool {
    if config.concurrency_mode == ConcurrencyMode::Serial {
        &&& action matches BypassAction::Process(batch)
        &&& System::<T, R>::is_bypass_batch(
            batch@,
            items,
            before.acc.next_batch_id as int,
            now,
        )
        &&& after == before.numbered()
    } else {
        &&& before.is_spawned_bypass(config, items, now, action)
        &&& after == before.numbered().in_flight(config)
    }
}

/// Whether a look for a request took the system from one state to another, with the given action:
/// a flush where one was asked for, and nothing otherwise.
pub open spec fn request_met<T, R>(
    config: AccumulatorConfig,
    before: System<T, R>,
    now: Moment,
    action: FlushAction<T, R>,
    after: System<T, R>,
) -> bool {
    if before.shared.flush_requested {
        let met = before.request_taken();
        &&& met.is_action(config, FlushTrigger::Request, now, action)
        &&& after == met.after_timed_flush(config, FlushTrigger::Request, now)
    } else {
        &&& action is Skipped
        &&& after == before
    }
}

} // verus!
