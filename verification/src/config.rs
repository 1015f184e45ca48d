//! How an accumulator is configured.
use std::sync::Arc;
use std::time::Duration;

use vstd::prelude::*;
use vstd::string::StringExecFns;

use crate::accumulator::BatchAccumulator;
use crate::batch::FlushInfo;
use crate::controller::WindowController;
use crate::error::AccumulatorError;
use crate::handle::AccumulatorHandle;
use crate::item::ChannelItem;
use crate::metrics::MetricsCollector;
use crate::shared::{SharedModel, SharedState};
use crate::system::{AccumulatorModel, System};
use crate::text::debug_duration;
use crate::time::{duration_nanos, Clock, Moment};
use crate::trace::{default_tracing_level, TraceLevel};

verus! {

/// How batches are handed to the processor.
#[derive(Debug, Clone, Copy, PartialEq, Eq, Structural)]
pub enum ConcurrencyMode {
    /// One batch at a time; the main loop waits for each.
    Serial,
    /// Batches are processed in background tasks while the main loop goes on collecting.
    Concurrent {
        /// How many batches may be in flight at once; `0` sets no limit.
        max_inflight: usize,
    },
}

impl Default for ConcurrencyMode {
    fn default() -> (mode: Self)
        ensures
            mode == ConcurrencyMode::Serial,
    {
        ConcurrencyMode::Serial
    }
}

impl ConcurrencyMode {
    /// Whether batches in flight are counted: only where their number is limited.
    pub open spec fn counts_inflight(self) -> bool {
        self matches ConcurrencyMode::Concurrent { max_inflight } && max_inflight > 0
    }

    /// Whether no further batch may be started while `inflight` batches are being processed.
    pub open spec fn saturated(self, inflight: usize) -> bool {
        self matches ConcurrencyMode::Concurrent { max_inflight } && 0 < max_inflight <= inflight
    }

    /// Whether batches in flight are counted: only where their number is limited.
    pub fn is_counting_inflight(&self) -> (yes: bool)
        ensures
            yes == self.counts_inflight(),
    {
        match self {
            ConcurrencyMode::Serial => false,
            ConcurrencyMode::Concurrent { max_inflight } => *max_inflight > 0,
        }
    }

    /// Whether no further batch may be started while `inflight` batches are being processed.
    pub fn is_saturated(&self, inflight: usize) -> (yes: bool)
        ensures
            yes == self.saturated(inflight),
    {
        match self {
            ConcurrencyMode::Serial => false,
            ConcurrencyMode::Concurrent { max_inflight } => *max_inflight > 0 && inflight
                >= *max_inflight,
        }
    }
}

/// The configuration of an accumulator, whatever the type of its items.
#[derive(Debug, Clone, Copy)]
pub struct AccumulatorConfig {
    /// The window that the accumulator starts with.
    pub initial_window: Duration,
    /// The shortest window that it may come to.
    pub min_window: Duration,
    /// The longest window that it may come to.
    pub max_window: Duration,
    /// The number of buffered items at which a batch is flushed at once.
    pub max_batch_size: Option<usize>,
    /// The number of items that may wait in the queue.
    pub max_queue_depth: Option<usize>,
    /// Whether empty batches are handed to the processor too.
    pub flush_empty_batches: bool,
    /// How batches are handed to the processor.
    pub concurrency_mode: ConcurrencyMode,
    /// The weight of the buffered items at which a batch is flushed at once.
    pub max_batch_weight: Option<usize>,
    /// The least weighty level of event that is reported.
    pub tracing_level: TraceLevel,
    /// Whether the reply to each single item is reported.
    pub trace_per_item: bool,
    /// How long the shutdown waits for batches in flight; `None` waits until they are done.
    pub drain_timeout: Option<Duration>,
    /// How many bypass batches, and how many reports of finished batches, one round of the main
    /// loop takes at most.
    pub drain_batch_limit: usize,
}

/// Why a window shorter than the shortest one is not valid.
pub open spec fn below_min_reason(initial_nanos: nat, min_nanos: nat) -> Seq<char> {
    "initial_window ("@ + crate::text::duration_text(initial_nanos) + ") must be >= min_window ("@
        + crate::text::duration_text(min_nanos) + ")"@
}

/// Why a window longer than the longest one is not valid.
pub open spec fn above_max_reason(initial_nanos: nat, max_nanos: nat) -> Seq<char> {
    "initial_window ("@ + crate::text::duration_text(initial_nanos) + ") must be <= max_window ("@
        + crate::text::duration_text(max_nanos) + ")"@
}

impl AccumulatorConfig {
    /// Whether the first window lies between the shortest and the longest one.
    pub open spec fn wf(self) -> bool {
        crate::time::in_range(self.initial_window, self.min_window, self.max_window)
    }

    /// A configuration with the given windows and nothing else set.
    pub open spec fn with_windows(initial: Duration, min: Duration, max: Duration) -> Self {
        AccumulatorConfig {
            initial_window: initial,
            min_window: min,
            max_window: max,
            max_batch_size: None,
            max_queue_depth: None,
            flush_empty_batches: false,
            concurrency_mode: ConcurrencyMode::Serial,
            max_batch_weight: None,
            tracing_level: Some(crate::trace::Level::Info),
            trace_per_item: false,
            drain_timeout: None,
            drain_batch_limit: 64,
        }
    }

    /// A new configuration. It is valid only if `initial_window` lies between `min_window` and
    /// `max_window`.
    pub fn new(initial_window: Duration, min_window: Duration, max_window: Duration) -> (config:
        Result<Self, AccumulatorError>)
        ensures
            duration_nanos(initial_window) < duration_nanos(min_window) ==> {
                &&& config matches Err(AccumulatorError::InvalidConfig { reason })
                &&& reason@ == below_min_reason(
                    duration_nanos(initial_window),
                    duration_nanos(min_window),
                )
            },
            duration_nanos(min_window) <= duration_nanos(initial_window) && duration_nanos(
                initial_window,
            ) > duration_nanos(max_window) ==> {
                &&& config matches Err(AccumulatorError::InvalidConfig { reason })
                &&& reason@ == above_max_reason(
                    duration_nanos(initial_window),
                    duration_nanos(max_window),
                )
            },
            crate::time::in_range(initial_window, min_window, max_window) ==> {
                &&& config matches Ok(made)
                &&& made == Self::with_windows(initial_window, min_window, max_window)
                &&& made.wf()
            },
    {
        if initial_window.as_nanos() < min_window.as_nanos() {
            let mut reason = String::from_str("initial_window (");
            reason.append(debug_duration(initial_window).as_str());
            reason.append(") must be >= min_window (");
            reason.append(debug_duration(min_window).as_str());
            reason.append(")");
            return Err(AccumulatorError::InvalidConfig { reason });
        }
        if initial_window.as_nanos() > max_window.as_nanos() {
            let mut reason = String::from_str("initial_window (");
            reason.append(debug_duration(initial_window).as_str());
            reason.append(") must be <= max_window (");
            reason.append(debug_duration(max_window).as_str());
            reason.append(")");
            return Err(AccumulatorError::InvalidConfig { reason });
        }
        Ok(
            AccumulatorConfig {
                initial_window,
                min_window,
                max_window,
                max_batch_size: None,
                max_queue_depth: None,
                flush_empty_batches: false,
                concurrency_mode: ConcurrencyMode::Serial,
                max_batch_weight: None,
                tracing_level: default_tracing_level(),
                trace_per_item: false,
                drain_timeout: None,
                drain_batch_limit: 64,
            },
        )
    }

    /// Sets the number of buffered items at which a batch is flushed at once.
    pub fn with_max_batch_size(self, n: usize) -> (config: Self)
        ensures
            config == (AccumulatorConfig { max_batch_size: Some(n), ..self }),
    {
        AccumulatorConfig { max_batch_size: Some(n), ..self }
    }

    /// Sets the number of items that may wait in the queue.
    pub fn with_max_queue_depth(self, n: usize) -> (config: Self)
        ensures
            config == (AccumulatorConfig { max_queue_depth: Some(n), ..self }),
    {
        AccumulatorConfig { max_queue_depth: Some(n), ..self }
    }

    /// Sets whether empty batches are handed to the processor too.
    pub fn with_flush_empty_batches(self, enabled: bool) -> (config: Self)
        ensures
            config == (AccumulatorConfig { flush_empty_batches: enabled, ..self }),
    {
        AccumulatorConfig { flush_empty_batches: enabled, ..self }
    }

    /// Sets how batches are handed to the processor.
    pub fn with_concurrency_mode(self, mode: ConcurrencyMode) -> (config: Self)
        ensures
            config == (AccumulatorConfig { concurrency_mode: mode, ..self }),
    {
        AccumulatorConfig { concurrency_mode: mode, ..self }
    }

    /// Sets the weight of the buffered items at which a batch is flushed at once.
    pub fn with_max_batch_weight(self, n: usize) -> (config: Self)
        ensures
            config == (AccumulatorConfig { max_batch_weight: Some(n), ..self }),
    {
        AccumulatorConfig { max_batch_weight: Some(n), ..self }
    }

    /// Sets the least weighty level of event that is reported; `None` reports nothing.
    pub fn with_tracing_level(self, level: TraceLevel) -> (config: Self)
        ensures
            config == (AccumulatorConfig { tracing_level: level, ..self }),
    {
        AccumulatorConfig { tracing_level: level, ..self }
    }

    /// Sets whether the reply to each single item is reported.
    pub fn with_trace_per_item(self, enabled: bool) -> (config: Self)
        ensures
            config == (AccumulatorConfig { trace_per_item: enabled, ..self }),
    {
        AccumulatorConfig { trace_per_item: enabled, ..self }
    }

    /// Sets how long the shutdown waits for batches in flight.
    pub fn with_drain_timeout(self, timeout: Option<Duration>) -> (config: Self)
        ensures
            config == (AccumulatorConfig { drain_timeout: timeout, ..self }),
    {
        AccumulatorConfig { drain_timeout: timeout, ..self }
    }

    /// Sets how many bypass batches, and how many reports of finished batches, one round of the
    /// main loop takes at most.
    pub fn with_drain_batch_limit(self, limit: usize) -> (config: Self)
        ensures
            config == (AccumulatorConfig { drain_batch_limit: limit, ..self }),
    {
        AccumulatorConfig { drain_batch_limit: limit, ..self }
    }

    /// Whether a handle, an accumulator and the state that they share belong together: they are
    /// the two ends of the same channels, have the same signals and the same clock, and hold
    /// nothing yet.
    pub open spec fn puts_together<T, R, P, M, C, F>(
        self,
        handle: AccumulatorHandle<T, R>,
        accumulator: BatchAccumulator<T, R, P, M, C, F>,
        shared: SharedModel,
    ) -> bool {
        let wiring = accumulator.wiring();
        &&& wiring.config == self
        &&& call_ensures(
            tokio::sync::mpsc::unbounded_channel::<ChannelItem<T, R>>,
            (),
            (handle.sender, wiring.item_rx),
        )
        &&& call_ensures(
            tokio::sync::mpsc::unbounded_channel::<Vec<T>>,
            (),
            (handle.bypass_sender, wiring.bypass_rx),
        )
        &&& call_ensures(
            tokio::sync::mpsc::unbounded_channel::<FlushInfo>,
            (),
            (wiring.feedback_tx, wiring.feedback_rx),
        )
        &&& handle.flush_notify == wiring.flush_notify
        &&& handle.queue_notify == wiring.queue_notify
        &&& handle.clock == wiring.clock
        &&& handle.tracing_level == self.tracing_level
        &&& shared == SharedModel::initial(self.initial_window, self.max_queue_depth)
        &&& exists|now: Moment|
            {
                &&& #[trigger] wiring.clock.shows(now)
                &&& accumulator@ == AccumulatorModel::<T, R>::initial(now)
            }
        &&& self.wf() ==> (System { acc: accumulator@, shared }).sound(self)
    }

    /// Puts together an accumulator whose items are weighed by `weight_fn`, a handle to it, and
    /// the state that they share.
    pub fn build_with_weight<T, R, P, M, C, F>(
        self,
        processor: P,
        metrics: M,
        controller: C,
        weight_fn: F,
    ) -> (made: (AccumulatorHandle<T, R>, BatchAccumulator<T, R, P, M, C, F>, SharedState)) where
        T: Send + 'static,
        R: Send + 'static,
        M: MetricsCollector,
        C: WindowController<M::Utilization>,
        F: Fn(&T) -> usize,

        ensures
            self.puts_together(made.0, made.1, made.2@),
            made.1.wiring().processor == Arc::new(processor),
            made.1.collector() == metrics,
            made.1.window_controller() == controller,
            made.1.weigher() == weight_fn,
    {
        let (tx, rx) = tokio::sync::mpsc::unbounded_channel::<ChannelItem<T, R>>();
        let (bypass_tx, bypass_rx) = tokio::sync::mpsc::unbounded_channel::<Vec<T>>();
        let feedback = tokio::sync::mpsc::unbounded_channel::<FlushInfo>();
        let flush_notify = Arc::new(tokio::sync::Notify::new());
        let queue_notify = Arc::new(tokio::sync::Notify::new());
        let clock = Clock::start();
        let now = clock.now();
        let shared = SharedState::new(self.initial_window, self.max_queue_depth);
        let handle = AccumulatorHandle {
            sender: tx,
            bypass_sender: bypass_tx,
            flush_notify: flush_notify.clone(),
            queue_notify: queue_notify.clone(),
            clock,
            tracing_level: self.tracing_level,
        };
        let accumulator = BatchAccumulator::assemble(
            self,
            processor,
            metrics,
            controller,
            weight_fn,
            rx,
            bypass_rx,
            feedback,
            flush_notify,
            queue_notify,
            clock,
            now,
        );
        assert(accumulator.wiring().clock.shows(now));
        (handle, accumulator, shared)
    }

    /// Puts together an accumulator whose items all weigh one, a handle to it, and the state that
    /// they share.
    pub fn build<T, R, P, M, C>(self, processor: P, metrics: M, controller: C) -> (made: (
        AccumulatorHandle<T, R>,
        BatchAccumulator<T, R, P, M, C, impl Fn(&T) -> usize>,
        SharedState,
    )) where
        T: Send + 'static,
        R: Send + 'static,
        M: MetricsCollector,
        C: WindowController<M::Utilization>,

        ensures
            self.puts_together(made.0, made.1, made.2@),
            made.1.wiring().processor == Arc::new(processor),
            made.1.collector() == metrics,
            made.1.window_controller() == controller,
            made.1.weighs_all(),
            forall|value: &T, weight: usize|
                #[trigger] call_ensures(made.1.weigher(), (value,), weight) ==> weight == 1,
    {
        let weigh_one = |_value: &T| -> (weight: usize)
            ensures
                weight == 1,
            { 1 };
        self.build_with_weight(processor, metrics, controller, weigh_one)
    }
}

impl Default for AccumulatorConfig {
    /// Windows of 200 ms at first, 50 ms at least and 10 s at most, and nothing else set.
    fn default() -> (config: Self)
        ensures
            duration_nanos(config.initial_window) == 200_000_000,
            duration_nanos(config.min_window) == 50_000_000,
            duration_nanos(config.max_window) == 10_000_000_000,
            config == Self::with_windows(
                config.initial_window,
                config.min_window,
                config.max_window,
            ),
            config.wf(),
    {
        AccumulatorConfig {
            initial_window: Duration::from_millis(200),
            min_window: Duration::from_millis(50),
            max_window: Duration::from_millis(10_000),
            max_batch_size: None,
            max_queue_depth: None,
            flush_empty_batches: false,
            concurrency_mode: ConcurrencyMode::Serial,
            max_batch_weight: None,
            tracing_level: default_tracing_level(),
            trace_per_item: false,
            drain_timeout: None,
            drain_batch_limit: 64,
        }
    }
}

} // verus!
