//! What comes of submitting items and of the other things that handles do: which answer a caller
//! gets, what goes into which channel, and what it leaves in the state that handles share.
use std::sync::Arc;
use std::time::Duration;

use vstd::prelude::*;

use crate::accumulator::BatchAccumulator;
use crate::batch::{FlushInfo, Priority, ReplyHandle};
use crate::channel::{ReplyReceiver, ReplySender};
use crate::config::AccumulatorConfig;
use crate::controller::WindowController;
use crate::error::AccumulatorError;
use crate::handle::{AccumulatorHandle, Attempt};
use crate::item::ChannelItem;
use crate::metrics::{MetricsCollector, MetricsSnapshot};
use crate::shared::SharedModel;
use crate::stats::{StatsModel, StatsSnapshot};
use crate::time::{duration_nanos, Moment};

verus! {

/// Whether a queue has a place: it has no limit, or fewer items wait than may.
pub open spec fn place_free(shared: SharedModel) -> bool {
    match shared.max_queue_depth {
        Some(max) => shared.pending_count < max,
        None => true,
    }
}

/// What taking and giving back places, submitting, turning away and bypassing leave behind: each
/// moves the number of waiting items and the counter that is named after it, and nothing else.
pub proof fn law_what_is_left_of_a_submission(shared: SharedModel)
    requires
        shared.pending_count < usize::MAX,
    ensures
        shared.has_room() <==> place_free(shared),
        shared.after_acquire() == (SharedModel {
            pending_count: (shared.pending_count + 1) as usize,
            ..shared
        }),
        shared.pending_count > 0 ==> shared.after_release() == (SharedModel {
            pending_count: (shared.pending_count - 1) as usize,
            ..shared
        }),
        shared.after_submit() == (SharedModel {
            pending_count: (shared.pending_count + 1) as usize,
            stats: StatsModel {
                submitted: ((shared.stats.submitted + 1) % 0x1_0000_0000_0000_0000) as u64,
                ..shared.stats
            },
            ..shared
        }),
        shared.after_rejected() == (SharedModel {
            stats: StatsModel {
                rejected: ((shared.stats.rejected + 1) % 0x1_0000_0000_0000_0000) as u64,
                ..shared.stats
            },
            ..shared
        }),
        shared.after_bypass() == (SharedModel {
            stats: StatsModel {
                bypassed: ((shared.stats.bypassed + 1) % 0x1_0000_0000_0000_0000) as u64,
                ..shared.stats
            },
            ..shared
        }),
{
}

/// An item is turned away with the greatest number of items that may wait and the number that do.
pub proof fn law_rejection_names_the_numbers(shared: SharedModel, max: usize)
    requires
        shared.max_queue_depth == Some(max),
    ensures
        shared.queue_full() == (AccumulatorError::QueueFull { max, pending: shared.pending_count }),
{
}

/// A shared state starts with the first window, with room for as many items as are allowed, and
/// with nothing in it; and it is sound as long as no more items wait than may and its statistics
/// are.
pub proof fn law_shared_state_starts_empty(
    window: Duration,
    depth: Option<usize>,
    shared: SharedModel,
)
    ensures
        ({
            let start = SharedModel::initial(window, depth);
            &&& start.current_window == window
            &&& start.max_queue_depth == depth
            &&& start.inflight_count == 0
            &&& !start.cancelled
            &&& !start.paused
            &&& !start.flush_requested
            &&& start.pending_count == 0
            &&& start.buffer_size == 0
            &&& start.tracked_weight == 0
            &&& start.stats.submitted == 0
            &&& start.stats.flushed == 0
            &&& start.stats.dropped_timeout == 0
            &&& start.stats.bypassed == 0
            &&& start.stats.rejected == 0
            &&& start.stats.latencies.len() == 0
            &&& start.stats.waits.len() == 0
        }),
        shared.wf() <==> {
            &&& shared.max_queue_depth matches Some(max) ==> shared.pending_count <= max
            &&& shared.stats.latencies.len() <= 1000
            &&& shared.stats.waits.len() <= 1000
        },
{
}

/// How much of a queue is in use is the number of waiting items against that of places; without a
/// limit, or without any place, none of it is.
pub proof fn law_use_of_the_queue(shared: SharedModel, max: usize)
    ensures
        ({
            let share = shared.queue_utilization();
            &&& share.denominator > 0
            &&& shared.max_queue_depth is None ==> share.numerator == 0
            &&& shared.max_queue_depth == Some(0usize) ==> share.numerator == 0
            &&& shared.max_queue_depth == Some(max) && max > 0 ==> share.numerator
                == shared.pending_count && share.denominator == max
        }),
{
}

/// What the statistics show is what the counters, the numbers of items and batches and the window
/// are, and the percentiles and means of just the timings that are kept: those of batches as
/// latencies, those of items as waits.
pub proof fn law_statistics_show_the_state(shared: SharedModel, shown: StatsSnapshot)
    requires
        crate::shared::snapshot_of(shared, shown),
    ensures
        shown.total_submitted == shared.stats.submitted,
        shown.total_flushed == shared.stats.flushed,
        shown.total_dropped_timeout == shared.stats.dropped_timeout,
        shown.total_bypassed == shared.stats.bypassed,
        shown.total_rejected == shared.stats.rejected,
        shown.queue_depth == shared.pending_count,
        shown.buffer_size == shared.buffer_size,
        shown.inflight_count == shared.inflight_count,
        shown.current_weight == shared.tracked_weight,
        shown.current_window == shared.current_window,
        crate::stats::is_percentile(shared.stats.latencies, 50, shown.p50_latency),
        crate::stats::is_percentile(shared.stats.latencies, 99, shown.p99_latency),
        crate::stats::is_percentile(shared.stats.latencies, 100, shown.max_latency),
        duration_nanos(shown.avg_latency) == crate::stats::mean_nanos(shared.stats.latencies),
        crate::stats::is_percentile(shared.stats.waits, 50, shown.p50_queue_wait),
        crate::stats::is_percentile(shared.stats.waits, 99, shown.p99_queue_wait),
        duration_nanos(shown.avg_queue_wait) == crate::stats::mean_nanos(shared.stats.waits),
{
}

/// An item that is handed over goes into the queue's channel as it was given, with its deadline, its
/// reply and its urgency, in the span of the caller, and with a moment that the clock showed; and
/// it is taken just if the channel took it.
pub proof fn law_item_goes_into_the_channel_as_given<T, R>(
    handle: AccumulatorHandle<T, R>,
    value: T,
    deadline: Option<Moment>,
    reply: Option<ReplySender<R>>,
    priority: Priority,
    taken: bool,
)
    requires
        handle.handed_over(value, deadline, reply, priority, taken),
    ensures
        exists|
            item: ChannelItem<T, R>,
            sent: Result<(), tokio::sync::mpsc::error::SendError<ChannelItem<T, R>>>,
        |
            {
                &&& #[trigger] call_ensures(
                    tokio::sync::mpsc::UnboundedSender::<ChannelItem<T, R>>::send,
                    (&handle.sender, item),
                    sent,
                )
                &&& item.value == value
                &&& item.deadline == deadline
                &&& item.reply == reply
                &&& item.priority == priority
                &&& call_ensures(tracing::Span::current, (), item.parent_span)
                &&& call_ensures(
                    tokio::time::Instant::elapsed,
                    (&handle.clock.start_instant(),),
                    item.submitted_at.since_start,
                )
                &&& taken <==> sent is Ok
            },
{
    let (parent_span, submitted_at, sent) = choose|
        parent_span: tracing::Span,
        submitted_at: Moment,
        sent: Result<(), tokio::sync::mpsc::error::SendError<ChannelItem<T, R>>>,
    |
        {
            &&& call_ensures(tracing::Span::current, (), parent_span)
            &&& handle.clock.shows(submitted_at)
            &&& #[trigger] call_ensures(
                tokio::sync::mpsc::UnboundedSender::<ChannelItem<T, R>>::send,
                (
                    &handle.sender,
                    ChannelItem { value, deadline, reply, priority, parent_span, submitted_at },
                ),
                sent,
            )
            &&& taken == (sent is Ok)
        };
    let item = ChannelItem { value, deadline, reply, priority, parent_span, submitted_at };
    assert(call_ensures(
        tokio::sync::mpsc::UnboundedSender::<ChannelItem<T, R>>::send,
        (&handle.sender, item),
        sent,
    ));
}

/// Submitting an item is refused just where the queue has no place, with the numbers, and counted as
/// refused; otherwise the item goes into the channel, and the caller learns of a shutdown just where
/// the channel did not take it. It waits and is counted just where the channel took it.
pub proof fn law_what_a_submission_comes_to<T, R>(
    handle: AccumulatorHandle<T, R>,
    before: SharedModel,
    value: T,
    deadline: Option<Moment>,
    reply: Option<ReplySender<R>>,
    priority: Priority,
    result: Result<(), AccumulatorError>,
    after: SharedModel,
)
    requires
        handle.submitted(before, value, deadline, reply, priority, result, after),
        before.pending_count < usize::MAX,
    ensures
        (result matches Err(error) && error is QueueFull) <==> !place_free(before),
        result matches Err(AccumulatorError::QueueFull { max, pending }) ==> {
            &&& before.max_queue_depth == Some(max)
            &&& pending == before.pending_count
            &&& after == (SharedModel {
                stats: StatsModel {
                    rejected: ((before.stats.rejected + 1) % 0x1_0000_0000_0000_0000) as u64,
                    ..before.stats
                },
                ..before
            })
        },
        result is Ok ==> {
            &&& place_free(before)
            &&& handle.handed_over(value, deadline, reply, priority, true)
            &&& after == (SharedModel {
                pending_count: (before.pending_count + 1) as usize,
                stats: StatsModel {
                    submitted: ((before.stats.submitted + 1) % 0x1_0000_0000_0000_0000) as u64,
                    ..before.stats
                },
                ..before
            })
        },
        (result matches Err(error) && !(error is QueueFull)) ==> {
            &&& result == Err::<(), _>(AccumulatorError::Shutdown)
            &&& handle.handed_over(value, deadline, reply, priority, false)
            &&& after == before
        },
{
}

/// The handle that comes of a submission is for the reply to just the item that was submitted: the
/// item carries the other end of a channel of its own.
pub proof fn law_handle_is_for_its_item<T, R>(
    handle: AccumulatorHandle<T, R>,
    before: SharedModel,
    value: T,
    deadline: Option<Moment>,
    priority: Priority,
    result: Result<ReplyHandle<R>, AccumulatorError>,
    after: SharedModel,
)
    requires
        handle.submitted_for_reply(before, value, deadline, priority, result, after),
    ensures
        exists|ends: (ReplySender<R>, ReplyReceiver<R>), plain: Result<(), AccumulatorError>|
            {
                &&& #[trigger] call_ensures(
                    tokio::sync::oneshot::channel::<Result<R, AccumulatorError>>,
                    (),
                    ends,
                )
                &&& #[trigger] handle.submitted(
                    before,
                    value,
                    deadline,
                    Some(ends.0),
                    priority,
                    plain,
                    after,
                )
                &&& result matches Ok(made) ==> plain is Ok && made.receiver() == ends.1
                &&& result matches Err(error) ==> plain == Err::<(), _>(error)
            },
{
    let ends = choose|ends: (ReplySender<R>, ReplyReceiver<R>)|
        {
            &&& #[trigger] call_ensures(
                tokio::sync::oneshot::channel::<Result<R, AccumulatorError>>,
                (),
                ends,
            )
            &&& handle.submitted(
                before,
                value,
                deadline,
                Some(ends.0),
                priority,
                match result {
                    Ok(_) => Ok(()),
                    Err(error) => Err(error),
                },
                after,
            )
            &&& result matches Ok(made) ==> made.receiver() == ends.1
        };
    let plain: Result<(), AccumulatorError> = match result {
        Ok(_) => Ok(()),
        Err(error) => Err(error),
    };
    assert(handle.submitted(before, value, deadline, Some(ends.0), priority, plain, after));
}

/// An item without a time to live has no deadline. One with a time to live has a deadline that lies
/// that long after a moment that the clock showed, or as far on as a moment can lie.
pub proof fn law_deadline_is_as_long_after_as_the_item_may_live<T, R>(
    handle: AccumulatorHandle<T, R>,
    ttl: Option<Duration>,
    deadline: Option<Moment>,
)
    requires
        handle.times_out(ttl, deadline),
    ensures
        deadline is None <==> ttl is None,
        deadline is Some ==> exists|now: Moment|
            {
                let due = duration_nanos(now.since_start) + duration_nanos(ttl->0);
                &&& #[trigger] handle.clock.shows(now)
                &&& due <= 0xffff_ffff_ffff_ffff * 1_000_000_000 + 999_999_999 ==> duration_nanos(
                    deadline->0.since_start,
                ) == due
                &&& due > 0xffff_ffff_ffff_ffff * 1_000_000_000 + 999_999_999 ==> duration_nanos(
                    deadline->0.since_start,
                ) == 0xffff_ffff_ffff_ffff * 1_000_000_000 + 999_999_999
            },
{
}

/// One who waits for a place may try again just where a wake-up came before the deadline: never once
/// it is reached, however often there were wake-ups.
pub proof fn law_waiting_ends_at_the_deadline(notified: bool, now: Moment, deadline: Moment)
    ensures
        duration_nanos(deadline.since_start) <= duration_nanos(now.since_start)
            ==> !crate::handle::may_try_again(notified, now, deadline),
        !notified ==> !crate::handle::may_try_again(notified, now, deadline),
        notified && duration_nanos(now.since_start) < duration_nanos(deadline.since_start)
            ==> crate::handle::may_try_again(notified, now, deadline),
{
}

/// An attempt gives the item back just where the queue has no place, and counts it as refused;
/// otherwise it is settled as a plain submission is, with a handle for the reply just where one was
/// wanted.
pub proof fn law_what_an_attempt_comes_to<T, R>(
    handle: AccumulatorHandle<T, R>,
    before: SharedModel,
    item: T,
    with_reply: bool,
    attempt: Attempt<T, R>,
    after: SharedModel,
)
    requires
        handle.attempted(before, item, with_reply, attempt, after),
    ensures
        attempt is Full <==> !place_free(before),
        attempt matches Attempt::Full(back) ==> {
            &&& back == item
            &&& after == (SharedModel {
                stats: StatsModel {
                    rejected: ((before.stats.rejected + 1) % 0x1_0000_0000_0000_0000) as u64,
                    ..before.stats
                },
                ..before
            })
        },
        attempt matches Attempt::Settled(Ok(made)) ==> (made is Some <==> with_reply),
        with_reply ==> (attempt matches Attempt::Settled(result) ==> handle.submitted_for_reply(
            before,
            item,
            None,
            Priority::Normal,
            match result {
                Ok(made) => Ok(made->0),
                Err(error) => Err(error),
            },
            after,
        )),
        !with_reply ==> (attempt matches Attempt::Settled(result) ==> handle.submitted(
            before,
            item,
            None,
            None,
            Priority::Normal,
            match result {
                Ok(_) => Ok(()),
                Err(error) => Err(error),
            },
            after,
        )),
{
}

/// Whoever is woken is woken through the signal itself.
pub proof fn law_wake_ups_go_through_the_signal(notify: Arc<tokio::sync::Notify>)
    ensures
        crate::channel::woken(notify) <==> call_ensures(
            tokio::sync::Notify::notify_one,
            (&*notify,),
            (),
        ),
{
}

/// A handle and an accumulator that were put together are the two ends of the same channels, have
/// the same signals and the same clock, and the configuration that they were put together with;
/// they start with nothing in them and with the first window.
pub proof fn law_what_is_put_together_fits<T, R, P, M, C, F>(
    config: AccumulatorConfig,
    handle: AccumulatorHandle<T, R>,
    accumulator: BatchAccumulator<T, R, P, M, C, F>,
    shared: SharedModel,
)
    requires
        config.puts_together(handle, accumulator, shared),
    ensures
        accumulator.spec_config() == config,
        call_ensures(
            tokio::sync::mpsc::unbounded_channel::<ChannelItem<T, R>>,
            (),
            (handle.sender, accumulator.wiring().item_rx),
        ),
        call_ensures(
            tokio::sync::mpsc::unbounded_channel::<Vec<T>>,
            (),
            (handle.bypass_sender, accumulator.wiring().bypass_rx),
        ),
        call_ensures(
            tokio::sync::mpsc::unbounded_channel::<FlushInfo>,
            (),
            (accumulator.wiring().feedback_tx, accumulator.wiring().feedback_rx),
        ),
        handle.flush_notify == accumulator.wiring().flush_notify,
        handle.queue_notify == accumulator.wiring().queue_notify,
        handle.clock == accumulator.wiring().clock,
        handle.tracing_level == config.tracing_level,
        shared.current_window == config.initial_window,
        shared.max_queue_depth == config.max_queue_depth,
        shared.pending_count == 0,
        shared.inflight_count == 0,
        !shared.cancelled && !shared.paused && !shared.flush_requested,
        accumulator@.buffer.len() == 0,
        accumulator@.next_batch_id == 0,
        !accumulator@.flush_owed,
        exists|now: Moment|
            {
                &&& #[trigger] handle.clock.shows(now)
                &&& accumulator@.last_flush == duration_nanos(now.since_start)
                &&& accumulator@.deadline == duration_nanos(now.since_start)
            },
{
    let now = choose|now: Moment|
        {
            &&& #[trigger] accumulator.wiring().clock.shows(now)
            &&& accumulator@ == crate::system::AccumulatorModel::<T, R>::initial(now)
        };
    assert(handle.clock.shows(now));
}

/// A controller that was consulted was asked about the window before, with measurements that the
/// collector shows, and gave the answer that was proposed.
pub proof fn law_controller_was_asked<M: MetricsCollector, C: WindowController<M::Utilization>>(
    collector: M,
    before: C,
    change: crate::flush::WindowChange,
    after: C,
)
    requires
        crate::accumulator::consulted(collector, before, change, after),
    ensures
        exists|snapshot: MetricsSnapshot<M::Utilization>|
            {
                &&& #[trigger] collector.shows(snapshot)
                &&& C::answers(&before, change.before, snapshot, &after, change.proposed)
            },
{
}

} // verus!
