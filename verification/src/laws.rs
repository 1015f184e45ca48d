//! What holds of single steps of an accumulator, and of two that follow on each other.
use std::time::Duration;

use vstd::prelude::*;

use crate::accumulator::Phase;
use crate::batch::{Priority, Reply};
use crate::channel::ReplySender;
use crate::config::{AccumulatorConfig, ConcurrencyMode};
use crate::error::AccumulatorError;
use crate::flush::{FlushJob, FlushTrigger, FlushVerdict};
use crate::item::ChannelItem;
use crate::shared::SharedModel;
use crate::system::{System, RETRY_DELAY_MILLIS};
use crate::time::Moment;
use crate::trace::TraceLevel;

verus! {

/// How many of the first `n` items of a batch somebody waits for.
pub open spec fn waiters<R>(senders: Seq<Option<ReplySender<R>>>, n: nat) -> nat
    decreases n,
{
    if n == 0 {
        0
    } else {
        waiters(senders, (n - 1) as nat) + if senders[n - 1] is Some {
            1nat
        } else {
            0nat
        }
    }
}

/// Everybody who waits for an item of a batch gets one reply, and nobody else does: there are as
/// many replies as there are waiters.
pub proof fn law_one_reply_for_each_waiter<R>(
    senders: Seq<Option<ReplySender<R>>>,
    results: Seq<R>,
    n: nat,
)
    requires
        n <= senders.len(),
    ensures
        crate::batch::replies_to(senders, results, n).len() == waiters(senders, n),
    decreases n,
{
    if n > 0 {
        law_one_reply_for_each_waiter(senders, results, (n - 1) as nat);
    }
}

/// The replies to more items start with the replies to fewer.
proof fn lemma_replies_extend<R>(
    senders: Seq<Option<ReplySender<R>>>,
    results: Seq<R>,
    fewer: nat,
    more: nat,
    at: int,
)
    requires
        fewer <= more <= senders.len(),
        0 <= at < crate::batch::replies_to(senders, results, fewer).len(),
    ensures
        at < crate::batch::replies_to(senders, results, more).len(),
        crate::batch::replies_to(senders, results, more)[at] == crate::batch::replies_to(
            senders,
            results,
            fewer,
        )[at],
    decreases more - fewer,
{
    if fewer < more {
        lemma_replies_extend(senders, results, fewer, (more - 1) as nat, at);
    }
}

/// The reply to an item of a batch is the result that the processor returned at the item's own
/// place, or [`AccumulatorError::Shutdown`] where it returned none there; and the processor got the
/// item's value at that place.
pub proof fn law_reply_belongs_to_its_item<T, R>(
    system: System<T, R>,
    config: AccumulatorConfig,
    now: Moment,
    job: FlushJob<T, R>,
    results: Seq<R>,
    i: int,
    sender: ReplySender<R>,
)
    requires
        system.is_job(config, now, job),
        0 <= i < system.acc.next_len(config),
        system.acc.buffer[i].reply == Some(sender),
    ensures
        job.batch@.items[i] == system.acc.buffer[i].value,
        ({
            let senders = job.ticket.senders@;
            let replies = crate::batch::replies_to(senders, results, senders.len());
            let at = waiters(senders, i as nat) as int;
            &&& 0 <= at < replies.len()
            &&& replies[at] == (Reply { sender, result: crate::batch::reply_at(results, i) })
        }),
{
    let senders = job.ticket.senders@;
    assert(senders[i] == Some(sender));
    law_one_reply_for_each_waiter(senders, results, i as nat);
    law_one_reply_for_each_waiter(senders, results, (i + 1) as nat);
    lemma_replies_extend(
        senders,
        results,
        (i + 1) as nat,
        senders.len(),
        waiters(senders, i as nat) as int,
    );
}

/// Everybody who waits for an item that has timed out gets one reply, which says just that.
pub proof fn law_one_timeout_for_each_waiter<T, R>(items: Seq<ChannelItem<T, R>>)
    ensures
        crate::item::timeout_replies(items).len() == waiters(
            crate::item::senders_of(items),
            items.len(),
        ),
        forall|i: int|
            0 <= i < crate::item::timeout_replies(items).len() ==> (
            #[trigger] crate::item::timeout_replies(items)[i]).result == Err::<R, AccumulatorError>(
                AccumulatorError::Timeout,
            ),
    decreases items.len(),
{
    if items.len() > 0 {
        let front = items.drop_last();
        law_one_timeout_for_each_waiter(front);
        lemma_waiters_agree(
            crate::item::senders_of(front),
            crate::item::senders_of(items),
            front.len(),
        );
        let earlier = crate::item::timeout_replies(front);
        let replies = crate::item::timeout_replies(items);
        assert forall|i: int| 0 <= i < replies.len() implies (#[trigger] replies[i]).result == Err::<
            R,
            AccumulatorError,
        >(AccumulatorError::Timeout) by {
            if i < earlier.len() {
                assert(replies[i] == earlier[i]);
            }
        }
    }
}

/// Rows that start alike have as many waiters at the start.
proof fn lemma_waiters_agree<R>(
    a: Seq<Option<ReplySender<R>>>,
    b: Seq<Option<ReplySender<R>>>,
    n: nat,
)
    requires
        n <= a.len(),
        n <= b.len(),
        forall|i: int| 0 <= i < n ==> a[i] == b[i],
    ensures
        waiters(a, n) == waiters(b, n),
    decreases n,
{
    if n > 0 {
        lemma_waiters_agree(a, b, (n - 1) as nat);
    }
}

/// An urgent item goes to the front: the next batch starts with it.
pub proof fn law_urgent_item_goes_first<T, R>(
    system: System<T, R>,
    config: AccumulatorConfig,
    item: ChannelItem<T, R>,
    weight: usize,
    waited: Duration,
    now: Moment,
    job: FlushJob<T, R>,
)
    requires
        item.priority == Priority::High,
        system.taking_in(config, item, weight, waited).is_job(config, now, job),
    ensures
        job.batch@.items.len() > 0,
        job.batch@.items[0] == item.value,
        job.batch@.items.skip(1).is_prefix_of(crate::item::values_of(system.acc.buffer)),
{
    let rest = job.batch@.items.skip(1);
    let values = crate::item::values_of(system.acc.buffer);
    assert(rest =~= values.take(rest.len() as int));
}

/// An urgent item that is taken in asks for a flush, whether the accumulator is paused or not.
pub proof fn law_urgent_item_asks_for_a_flush<T, R>(
    system: System<T, R>,
    config: AccumulatorConfig,
    item: ChannelItem<T, R>,
    weight: usize,
    waited: Duration,
    now: Moment,
)
    requires
        item.priority == Priority::High,
        !item.expired(now),
    ensures
        system.after_item(config, item, weight, waited, now).shared.flush_requested,
{
}

/// While it is paused, an accumulator makes no batch of its own accord: neither the end of the
/// window nor a large buffer leads to one, unless a flush that was asked for is still owed.
pub proof fn law_paused_accumulator_holds<T, R>(system: System<T, R>, config: AccumulatorConfig)
    requires
        system.shared.paused,
    ensures
        !system.verdict(config, FlushTrigger::Threshold).takes_buffer(),
        !system.acc.flush_owed ==> !system.verdict(config, FlushTrigger::Timer).takes_buffer(),
{
}

/// Whether paused or not, an accumulator flushes what is buffered when it is asked to, unless too
/// many batches are in flight.
pub proof fn law_request_flushes<T, R>(system: System<T, R>, config: AccumulatorConfig)
    requires
        system.acc.buffer.len() > 0,
        !config.concurrency_mode.saturated(system.shared.inflight_count),
    ensures
        system.verdict(config, FlushTrigger::Request).takes_buffer(),
{
}

/// The end of the window leads to a batch of what is buffered, and so does a buffer that is large or
/// heavy enough, unless the accumulator is paused or too many batches are in flight. Where not all
/// items go into the batch, the next one has been asked for.
pub proof fn law_window_ends_in_a_flush<T, R>(
    system: System<T, R>,
    config: AccumulatorConfig,
    trigger: FlushTrigger,
    now: Moment,
)
    requires
        system.acc.buffer.len() > 0,
        !system.shared.paused,
        !config.concurrency_mode.saturated(system.shared.inflight_count),
    ensures
        system.verdict(config, trigger).takes_buffer(),
        ({
            let after = system.after_flush(config, trigger, now);
            &&& after.acc.buffer.len() < system.acc.buffer.len()
            &&& after.acc.buffer.len() > 0 ==> after.shared.flush_requested
        }),
{
}

/// A flush that was asked for while too many batches were in flight is put off, not forgotten: the
/// accumulator tries again after the retry delay, and flushes as soon as there is room, paused or
/// not.
pub proof fn law_put_off_request_is_made_good<T, R>(
    system: System<T, R>,
    config: AccumulatorConfig,
    now: Moment,
    later: System<T, R>,
)
    requires
        system.verdict(config, FlushTrigger::Request) == FlushVerdict::Saturated,
        later.acc.flush_owed,
        later.acc.buffer.len() > 0,
        !config.concurrency_mode.saturated(later.shared.inflight_count),
    ensures
        ({
            let after = system.after_timed_flush(config, FlushTrigger::Request, now);
            &&& after.acc.flush_owed
            &&& after.acc.buffer == system.acc.buffer
            &&& after.acc.deadline == crate::system::due_after(
                now,
                (RETRY_DELAY_MILLIS * 1_000_000) as nat,
            )
        }),
        later.verdict(config, FlushTrigger::Timer).takes_buffer(),
{
}

/// Unless the configuration asks for them, no empty batches are made.
pub proof fn law_no_empty_batches<T, R>(
    system: System<T, R>,
    config: AccumulatorConfig,
    trigger: FlushTrigger,
)
    requires
        !config.flush_empty_batches,
        system.verdict(config, trigger).takes_buffer(),
    ensures
        system.acc.buffer.len() > 0,
{
}

/// Where the configuration asks for empty batches, the end of the window leads to one even if
/// nothing is buffered, unless the accumulator is paused or too many batches are in flight.
pub proof fn law_empty_batches_where_wanted<T, R>(system: System<T, R>, config: AccumulatorConfig)
    requires
        config.flush_empty_batches,
        !system.shared.paused,
        !config.concurrency_mode.saturated(system.shared.inflight_count),
    ensures
        system.verdict(config, FlushTrigger::Timer).takes_buffer(),
{
}

/// As long as the accumulator is not paused and batches can be started, the buffer never stays at
/// the size, nor at the weight, at which it is to be flushed.
pub proof fn law_buffer_stays_below_its_limits<T, R>(
    system: System<T, R>,
    config: AccumulatorConfig,
    item: ChannelItem<T, R>,
    weight: usize,
    waited: Duration,
    now: Moment,
)
    requires
        !system.shared.paused,
        !config.concurrency_mode.saturated(system.shared.inflight_count),
        config.max_batch_size != Some(0usize),
        config.max_batch_weight != Some(0usize),
        !system.full(config),
    ensures
        !system.after_item(config, item, weight, waited, now).full(config),
{
}

/// None of the items that stay has timed out.
proof fn lemma_live_items_are_live<T, R>(items: Seq<ChannelItem<T, R>>, now: Moment)
    ensures
        forall|i: int|
            0 <= i < crate::item::live_items(items, now).len()
                ==> !(#[trigger] crate::item::live_items(items, now)[i]).expired(now),
    decreases items.len(),
{
    if items.len() > 0 {
        let earlier = crate::item::live_items(items.drop_last(), now);
        let live = crate::item::live_items(items, now);
        lemma_live_items_are_live(items.drop_last(), now);
        assert forall|i: int| 0 <= i < live.len() implies !(#[trigger] live[i]).expired(now) by {
            if i < earlier.len() {
                assert(live[i] == earlier[i]);
            }
        }
    }
}

/// Once the items that have timed out have been dropped, none of them is left to go into a batch.
pub proof fn law_no_timed_out_item_is_kept<T, R>(
    system: System<T, R>,
    config: AccumulatorConfig,
    now: Moment,
)
    ensures
        forall|i: int|
            0 <= i < system.after_expiry(config, now).acc.buffer.len() ==> !(
            #[trigger] system.after_expiry(config, now).acc.buffer[i]).expired(now),
{
    lemma_live_items_are_live(system.acc.buffer, now);
}

/// Where no item has timed out, dropping those that have changes nothing about the buffer.
pub proof fn law_nothing_to_drop<T, R>(
    system: System<T, R>,
    config: AccumulatorConfig,
    now: Moment,
)
    requires
        system.acc.weights.len() == system.acc.buffer.len(),
        forall|i: int|
            0 <= i < system.acc.buffer.len() ==> !(#[trigger] system.acc.buffer[i]).expired(now),
    ensures
        system.after_expiry(config, now).acc == system.acc,
        crate::item::timeout_replies(
            crate::item::expired_items(system.acc.buffer, now),
        ).len() == 0,
{
    lemma_all_live(system.acc.buffer, system.acc.weights, now);
    assert(system.acc.weights.take(system.acc.buffer.len() as int) =~= system.acc.weights);
}

/// Items of which none has timed out all stay, with their weights.
proof fn lemma_all_live<T, R>(items: Seq<ChannelItem<T, R>>, weights: Seq<usize>, now: Moment)
    requires
        weights.len() >= items.len(),
        forall|i: int| 0 <= i < items.len() ==> !(#[trigger] items[i]).expired(now),
    ensures
        crate::item::live_items(items, now) == items,
        crate::item::live_weights(items, weights, now) == weights.take(items.len() as int),
        crate::item::expired_items(items, now).len() == 0,
        crate::item::expired_weights(items, weights, now).len() == 0,
    decreases items.len(),
{
    if items.len() > 0 {
        let front = items.drop_last();
        assert forall|i: int| 0 <= i < front.len() implies !(#[trigger] front[i]).expired(now) by {
            assert(front[i] == items[i]);
        }
        lemma_all_live(front, weights, now);
        assert(!items[items.len() - 1].expired(now));
    }
    assert(crate::item::live_items(items, now) =~= items);
    assert(crate::item::live_weights(items, weights, now) =~= weights.take(items.len() as int));
}

/// The shutdown goes through its phases in order, and does not leave that of the last batches
/// before nothing is buffered: each step of that phase makes the buffer shorter, and the step after
/// which it is empty is the last.
pub proof fn law_shutdown_leaves_nothing_buffered<T, R>(
    system: System<T, R>,
    config: AccumulatorConfig,
)
    ensures
        ({
            let after = system.after_final_flush(config);
            let buffered = after.acc.buffer.len();
            &&& system.acc.buffer.len() > 0 ==> buffered < system.acc.buffer.len()
            &&& Phase::LastBatch.next(false, buffered) == Phase::Tasks <==> buffered == 0
            &&& Phase::LastBatch.next(false, buffered) == Phase::LastBatch <==> buffered > 0
        }),
        forall|found: bool, buffered: nat|
            {
                &&& (#[trigger] Phase::Items.next(found, buffered)) == Phase::Bypass <==> !found
                &&& Phase::Bypass.next(found, buffered) == Phase::LastBatch <==> !found
                &&& Phase::Tasks.next(found, buffered) == Phase::Reports
                &&& Phase::Reports.next(found, buffered) == Phase::Done <==> !found
            },
{
}

/// Items that bypass the buffer leave it alone, and have no part in the statistics of batches nor
/// in the window.
pub proof fn law_bypass_leaves_the_rest_alone<T, R>(
    system: System<T, R>,
    config: AccumulatorConfig,
)
    ensures
        system.after_bypass(config).acc.buffer == system.acc.buffer,
        system.after_bypass(config).acc.deadline == system.acc.deadline,
        system.after_bypass(config).acc.last_flush == system.acc.last_flush,
        system.after_bypass(config).shared.stats == system.shared.stats,
        system.after_bypass(config).shared.current_window == system.shared.current_window,
        system.after_bypass(config).shared.pending_count == system.shared.pending_count,
{
}

/// Requests that come before the first of them is met are one request, and once it is met one is
/// left only if the flush has to go on.
pub proof fn law_requests_merge<T, R>(
    system: System<T, R>,
    config: AccumulatorConfig,
    now: Moment,
)
    ensures
        system.asked().asked() == system.asked(),
        system.after_request(config, now).shared.flush_requested
            ==> system.after_request(config, now).acc.buffer.len() > 0,
{
}

/// The system once the main loop has looked for a request `times` times.
pub open spec fn after_requests<T, R>(
    system: System<T, R>,
    config: AccumulatorConfig,
    now: Moment,
    times: nat,
) -> System<T, R>
    decreases times,
{
    if times == 0 {
        system
    } else {
        after_requests(system.after_request(config, now), config, now, (times - 1) as nat)
    }
}

/// A flush that is asked for goes on, batch by batch, until nothing is buffered, whether the
/// accumulator is paused or not, where batches in flight are not limited.
pub proof fn law_requested_flush_goes_on<T, R>(
    system: System<T, R>,
    config: AccumulatorConfig,
    now: Moment,
    times: nat,
)
    requires
        !config.concurrency_mode.counts_inflight(),
        system.shared.flush_requested,
        system.acc.buffer.len() <= times,
    ensures
        after_requests(system, config, now, times).acc.buffer.len() == 0,
    decreases times,
{
    if times > 0 {
        let after = system.after_request(config, now);
        if system.acc.buffer.len() > 0 {
            assert(after.acc.buffer.len() < system.acc.buffer.len());
        }
        if after.acc.buffer.len() == 0 {
            lemma_empty_stays_empty(after, config, now, (times - 1) as nat);
        } else {
            law_requested_flush_goes_on(after, config, now, (times - 1) as nat);
        }
    }
}

/// Looking for requests puts nothing into an empty buffer.
proof fn lemma_empty_stays_empty<T, R>(
    system: System<T, R>,
    config: AccumulatorConfig,
    now: Moment,
    times: nat,
)
    requires
        system.acc.buffer.len() == 0,
    ensures
        after_requests(system, config, now, times).acc.buffer.len() == 0,
    decreases times,
{
    if times > 0 {
        lemma_empty_stays_empty(
            system.after_request(config, now),
            config,
            now,
            (times - 1) as nat,
        );
    }
}

/// Resuming a paused accumulator leads to a flush of what was buffered meanwhile, unless too many
/// batches are in flight.
pub proof fn law_resuming_flushes_what_was_held<T, R>(
    system: System<T, R>,
    config: AccumulatorConfig,
    now: Moment,
)
    requires
        system.acc.buffer.len() > 0,
        !config.concurrency_mode.saturated(system.shared.inflight_count),
    ensures
        ({
            let resumed = system.after(config, crate::run::Happening::Resumed);
            let after = resumed.after_request(config, now);
            &&& resumed.shared.flush_requested
            &&& after.acc.buffer == system.acc.buffer.skip(system.acc.next_len(config))
            &&& after.acc.buffer.len() > 0 ==> after.shared.flush_requested
        }),
{
}

/// A place in the queue that is taken and given back leaves everything as it was.
pub proof fn law_release_undoes_acquire(shared: SharedModel)
    requires
        shared.pending_count < usize::MAX,
    ensures
        shared.after_acquire().after_release() == shared,
{
}

/// An item is turned away only from a queue that is just full, and is told so.
pub proof fn law_rejection_means_full(shared: SharedModel)
    requires
        shared.wf(),
        !shared.has_room(),
    ensures
        shared.max_queue_depth == Some(shared.pending_count),
        shared.queue_full() == (AccumulatorError::QueueFull {
            max: shared.pending_count,
            pending: shared.pending_count,
        }),
{
}

/// No more of the queue is in use than there is.
pub proof fn law_queue_is_never_overused(shared: SharedModel)
    requires
        shared.wf(),
    ensures
        shared.queue_utilization().numerator <= shared.queue_utilization().denominator,
        shared.queue_utilization().denominator > 0,
{
}

/// Whatever options are set, a valid configuration stays valid and keeps its windows.
pub proof fn law_options_keep_the_windows(
    config: AccumulatorConfig,
    n: usize,
    enabled: bool,
    mode: ConcurrencyMode,
    level: TraceLevel,
    timeout: Option<Duration>,
)
    requires
        config.wf(),
    ensures
        (AccumulatorConfig { max_batch_size: Some(n), ..config }).wf(),
        (AccumulatorConfig { max_queue_depth: Some(n), ..config }).wf(),
        (AccumulatorConfig { flush_empty_batches: enabled, ..config }).wf(),
        (AccumulatorConfig { concurrency_mode: mode, ..config }).wf(),
        (AccumulatorConfig { max_batch_weight: Some(n), ..config }).wf(),
        (AccumulatorConfig { tracing_level: level, ..config }).wf(),
        (AccumulatorConfig { trace_per_item: enabled, ..config }).wf(),
        (AccumulatorConfig { drain_timeout: timeout, ..config }).wf(),
        (AccumulatorConfig { drain_batch_limit: n, ..config }).wf(),
{
}

/// Holding a window to a range twice is holding it once, and a window that lies in the range stays
/// as it is.
pub proof fn law_clamping_is_settled(window: Duration, low: Duration, high: Duration)
    requires
        crate::time::duration_nanos(low) <= crate::time::duration_nanos(high),
    ensures
        crate::time::clamped(crate::time::clamped(window, low, high), low, high)
            == crate::time::clamped(window, low, high),
        crate::time::in_range(window, low, high) ==> crate::time::clamped(window, low, high)
            == window,
{
}

} // verus!
