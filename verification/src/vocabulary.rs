//! What the words mean that contracts are written in: of times, of items, of replies, of counters
//! and of text. Each law here holds a word to numbers, places in a row and plain conditions.
use std::time::Duration;

use vstd::prelude::*;

use crate::batch::{FlushInfo, Reply};
use crate::channel::{ReplySender, ReplyState};
use crate::config::{AccumulatorConfig, ConcurrencyMode};
use crate::error::AccumulatorError;
use crate::flush::{FlushTicket, FlushVerdict};
use crate::item::ChannelItem;
use crate::stats::{StatsModel, MAX_LATENCY_SAMPLES};
use crate::time::{duration_nanos, Clock, Moment};
use crate::trace::Level;

verus! {

/// The distance between two numbers.
pub open spec fn distance(a: int, b: int) -> int {
    if a <= b {
        b - a
    } else {
        a - b
    }
}

/// A moment is so many nanoseconds on; the time from one to a later one, added to the first, gives
/// the second; and no time passes backwards.
pub proof fn law_moments_lie_on_a_line(a: Moment, b: Moment)
    ensures
        a.nanos() == duration_nanos(a.since_start),
        a.nanos() <= b.nanos() ==> a.nanos() + crate::time::nanos_between(a.nanos(), b.nanos())
            == b.nanos(),
        a.nanos() >= b.nanos() ==> crate::time::nanos_between(a.nanos(), b.nanos()) == 0,
{
}

/// A number of nanoseconds is cut off at the longest duration, and only there.
pub proof fn law_times_are_cut_off_at_the_longest(nanos: nat)
    ensures
        crate::time::max_duration_nanos() == 0xffff_ffff_ffff_ffff * 1_000_000_000 + 999_999_999,
        nanos <= 0xffff_ffff_ffff_ffff * 1_000_000_000 + 999_999_999
            ==> crate::time::capped_nanos(nanos) == nanos,
        nanos > 0xffff_ffff_ffff_ffff * 1_000_000_000 + 999_999_999
            ==> crate::time::capped_nanos(nanos) == 0xffff_ffff_ffff_ffff * 1_000_000_000
            + 999_999_999,
{
}

/// A window that is held to a range is the nearest one in it: it stays as it is where it lies in
/// the range, and no window of the range is nearer to it otherwise.
pub proof fn law_held_window_is_the_nearest(
    window: Duration,
    low: Duration,
    high: Duration,
    other: Duration,
)
    requires
        duration_nanos(low) <= duration_nanos(high),
    ensures
        ({
            let held = crate::time::clamped(window, low, high);
            &&& duration_nanos(low) <= duration_nanos(held) <= duration_nanos(high)
            &&& duration_nanos(low) <= duration_nanos(window) <= duration_nanos(high) ==> held
                == window
            &&& held == window || held == low || held == high
            &&& duration_nanos(low) <= duration_nanos(other) <= duration_nanos(high) ==> distance(
                duration_nanos(window) as int,
                duration_nanos(held) as int,
            ) <= distance(duration_nanos(window) as int, duration_nanos(other) as int)
        }),
        crate::time::in_range(window, low, high) <==> duration_nanos(low) <= duration_nanos(window)
            && duration_nanos(window) <= duration_nanos(high),
{
}

/// A clock shows a moment that lies as far on as the runtime says has passed since it was started.
pub proof fn law_clock_shows_elapsed_time(clock: Clock, now: Moment)
    ensures
        clock.shows(now) <==> call_ensures(
            tokio::time::Instant::elapsed,
            (&clock.start_instant(),),
            now.since_start,
        ),
{
}

/// Whether an item has a deadline, and the deadline lies at a moment or before it.
pub open spec fn overdue<T, R>(item: ChannelItem<T, R>, now: Moment) -> bool {
    match item.deadline {
        Some(deadline) => duration_nanos(deadline.since_start) <= duration_nanos(now.since_start),
        None => false,
    }
}

/// An item has timed out just if it has a deadline that has been reached, whatever else is true of
/// it: two items with the same deadline have timed out together, one without a deadline never does,
/// and one that has timed out stays so.
pub proof fn law_deadline_alone_decides<T, R>(
    item: ChannelItem<T, R>,
    other: ChannelItem<T, R>,
    deadline: Moment,
    now: Moment,
    later: Moment,
)
    ensures
        item.deadline is None ==> !item.expired(now),
        item.deadline == Some(deadline) ==> (item.expired(now) <==> duration_nanos(
            deadline.since_start,
        ) <= duration_nanos(now.since_start)),
        item.deadline == other.deadline ==> item.expired(now) == other.expired(now),
        item.expired(now) && duration_nanos(now.since_start) <= duration_nanos(later.since_start)
            ==> item.expired(later),
{
}

/// The items that have timed out are those of the items that are overdue, in their order, and the
/// others are the rest in their order.
pub proof fn law_timed_out_items_are_the_overdue<T, R>(
    items: Seq<ChannelItem<T, R>>,
    now: Moment,
)
    ensures
        crate::item::expired_items(items, now) == items.filter(
            |item: ChannelItem<T, R>| overdue(item, now),
        ),
        crate::item::live_items(items, now) == items.filter(
            |item: ChannelItem<T, R>| !overdue(item, now),
        ),
    decreases items.len(),
{
    reveal(Seq::filter);
    if items.len() > 0 {
        law_timed_out_items_are_the_overdue(items.drop_last(), now);
    }
}

/// Each item keeps its own weight: taken together with their weights, the items that have timed out
/// are the overdue ones of the pairs, and the others are the rest.
pub proof fn law_weights_stay_with_their_items<T, R>(
    items: Seq<ChannelItem<T, R>>,
    weights: Seq<usize>,
    now: Moment,
)
    requires
        weights.len() == items.len(),
    ensures
        crate::item::expired_items(items, now).zip_with(
            crate::item::expired_weights(items, weights, now),
        ) == items.zip_with(weights).filter(
            |pair: (ChannelItem<T, R>, usize)| overdue(pair.0, now),
        ),
        crate::item::expired_items(items, now).len() == crate::item::expired_weights(
            items,
            weights,
            now,
        ).len(),
        crate::item::live_items(items, now).zip_with(
            crate::item::live_weights(items, weights, now),
        ) == items.zip_with(weights).filter(
            |pair: (ChannelItem<T, R>, usize)| !overdue(pair.0, now),
        ),
        crate::item::live_items(items, now).len() == crate::item::live_weights(
            items,
            weights,
            now,
        ).len(),
    decreases items.len(),
{
    lemma_weights_stay(items, weights, now, items.len());
    assert(items.take(items.len() as int) =~= items);
    assert(weights.take(items.len() as int) =~= weights);
}

/// The same of the first `n` items.
proof fn lemma_weights_stay<T, R>(
    items: Seq<ChannelItem<T, R>>,
    weights: Seq<usize>,
    now: Moment,
    n: nat,
)
    requires
        weights.len() == items.len(),
        n <= items.len(),
    ensures
        ({
            let some = items.take(n as int);
            let theirs = weights.take(n as int);
            &&& crate::item::expired_items(some, now).zip_with(
                crate::item::expired_weights(some, weights, now),
            ) == some.zip_with(theirs).filter(
                |pair: (ChannelItem<T, R>, usize)| overdue(pair.0, now),
            )
            &&& crate::item::expired_items(some, now).len() == crate::item::expired_weights(
                some,
                weights,
                now,
            ).len()
            &&& crate::item::live_items(some, now).zip_with(
                crate::item::live_weights(some, weights, now),
            ) == some.zip_with(theirs).filter(
                |pair: (ChannelItem<T, R>, usize)| !overdue(pair.0, now),
            )
            &&& crate::item::live_items(some, now).len() == crate::item::live_weights(
                some,
                weights,
                now,
            ).len()
        }),
    decreases n,
{
    reveal(Seq::filter);
    let some = items.take(n as int);
    let theirs = weights.take(n as int);
    if n == 0 {
        assert(crate::item::expired_items(some, now).zip_with(
            crate::item::expired_weights(some, weights, now),
        ) =~= Seq::empty());
        assert(crate::item::live_items(some, now).zip_with(
            crate::item::live_weights(some, weights, now),
        ) =~= Seq::empty());
        assert(some.zip_with(theirs) =~= Seq::empty());
    } else {
        let before = items.take(n - 1);
        lemma_weights_stay(items, weights, now, (n - 1) as nat);
        assert(some.drop_last() =~= before);
        assert(some.zip_with(theirs).drop_last() =~= before.zip_with(weights.take(n - 1)));
        let last = (items[n - 1], weights[n - 1]);
        assert(some.zip_with(theirs).last() == last);
        let gone = crate::item::expired_items(before, now).zip_with(
            crate::item::expired_weights(before, weights, now),
        );
        let kept = crate::item::live_items(before, now).zip_with(
            crate::item::live_weights(before, weights, now),
        );
        if overdue(items[n - 1], now) {
            assert(crate::item::expired_items(some, now).zip_with(
                crate::item::expired_weights(some, weights, now),
            ) =~= gone.push(last));
        } else {
            assert(crate::item::live_items(some, now).zip_with(
                crate::item::live_weights(some, weights, now),
            ) =~= kept.push(last));
        }
    }
}

/// Those who wait for items that have timed out are told so, each once and in the order of the
/// items; items that nobody waits for lead to no reply.
pub proof fn law_timeouts_go_to_the_waiters<T, R>(items: Seq<ChannelItem<T, R>>)
    ensures
        crate::item::timeout_replies(items) == items.filter(
            |item: ChannelItem<T, R>| item.reply is Some,
        ).map_values(
            |item: ChannelItem<T, R>|
                Reply { sender: item.reply->0, result: Err(AccumulatorError::Timeout) },
        ),
    decreases items.len(),
{
    reveal(Seq::filter);
    let some = |item: ChannelItem<T, R>| item.reply is Some;
    let tell = |item: ChannelItem<T, R>|
        Reply { sender: item.reply->0, result: Err::<R, _>(AccumulatorError::Timeout) };
    if items.len() > 0 {
        let front = items.drop_last();
        law_timeouts_go_to_the_waiters(front);
        if items.last().reply is Some {
            assert(front.filter(some).push(items.last()).map_values(tell) =~= front.filter(
                some,
            ).map_values(tell).push(tell(items.last())));
        }
    } else {
        assert(items.filter(some).map_values(tell) =~= Seq::empty());
    }
}

/// One who waits for an item that has timed out is told so, and nobody else is told anything.
pub proof fn law_timeout_tells_the_waiter<R>(reply: Option<ReplySender<R>>, sender: ReplySender<R>)
    ensures
        reply is None ==> crate::item::timeout_reply(reply) is None,
        reply == Some(sender) ==> crate::item::timeout_reply(reply) == Some(
            Reply { sender, result: Err::<R, _>(AccumulatorError::Timeout) },
        ),
{
}

/// Values, ends for replies and spans stand at the places of their items.
pub proof fn law_parts_stand_at_the_places_of_their_items<T, R>(
    items: Seq<ChannelItem<T, R>>,
    i: int,
)
    ensures
        crate::item::values_of(items).len() == items.len(),
        crate::item::senders_of(items).len() == items.len(),
        crate::item::spans_of(items).len() == items.len(),
        0 <= i < items.len() ==> {
            &&& crate::item::values_of(items)[i] == items[i].value
            &&& crate::item::senders_of(items)[i] == items[i].reply
            &&& crate::item::spans_of(items)[i] == items[i].parent_span
        },
{
}

/// An item is told the result at its own place, and that the accumulator has shut down just where
/// the processor returned none there.
pub proof fn law_result_at_its_place<R>(results: Seq<R>, i: int)
    requires
        0 <= i,
    ensures
        i < results.len() ==> crate::batch::reply_at(results, i) == Ok::<R, AccumulatorError>(
            results[i],
        ),
        i >= results.len() ==> crate::batch::reply_at(results, i) == Err::<R, _>(
            AccumulatorError::Shutdown,
        ),
{
}

/// The replies to a batch go to those who wait, each once and in the order of the items, each with
/// the result at the item's own place; one for which no result came is told of the shutdown.
pub proof fn law_replies_go_to_the_waiters<R>(
    senders: Seq<Option<ReplySender<R>>>,
    results: Seq<R>,
    n: nat,
)
    requires
        n <= senders.len(),
    ensures
        crate::batch::replies_to(senders, results, n) == Seq::new(n, |i: int| i).filter(
            |i: int| senders[i] is Some,
        ).map_values(
            |i: int|
                Reply {
                    sender: senders[i]->0,
                    result: if i < results.len() {
                        Ok::<R, AccumulatorError>(results[i])
                    } else {
                        Err::<R, AccumulatorError>(AccumulatorError::Shutdown)
                    },
                },
        ),
    decreases n,
{
    reveal(Seq::filter);
    let places = Seq::new(n, |i: int| i);
    let some = |i: int| senders[i] is Some;
    let tell = |i: int|
        Reply {
            sender: senders[i]->0,
            result: if i < results.len() {
                Ok::<R, AccumulatorError>(results[i])
            } else {
                Err::<R, AccumulatorError>(AccumulatorError::Shutdown)
            },
        };
    if n > 0 {
        let before = Seq::new((n - 1) as nat, |i: int| i);
        law_replies_go_to_the_waiters(senders, results, (n - 1) as nat);
        assert(places.drop_last() =~= before);
        assert(places.last() == n - 1);
        if senders[n - 1] is Some {
            assert(before.filter(some).push(n - 1).map_values(tell) =~= before.filter(
                some,
            ).map_values(tell).push(tell(n - 1)));
        }
    } else {
        assert(places.filter(some).map_values(tell) =~= Seq::empty());
    }
}

/// Waiting for a reply comes to what has arrived, goes on while nothing has, and ends with the
/// shutdown where nothing will.
pub proof fn law_waiting_comes_to_the_reply<R>(reply: Result<R, AccumulatorError>)
    ensures
        crate::batch::reply_outcome(ReplyState::Arrived(reply)) == Some(reply),
        crate::batch::reply_outcome(ReplyState::<R>::Pending) is None,
        crate::batch::reply_outcome(ReplyState::<R>::Closed) == Some(
            Err::<R, _>(AccumulatorError::Shutdown),
        ),
{
}

/// A reply goes out by being sent from its own end, and as many have been delivered as sends
/// succeeded.
pub proof fn law_delivered_replies_were_sent<R>(
    reply: Reply<R>,
    outcome: Result<(), Result<R, AccumulatorError>>,
    outcomes: Seq<Result<(), Result<R, AccumulatorError>>>,
)
    ensures
        crate::batch::went_out(reply, outcome) <==> call_ensures(
            ReplySender::<R>::send,
            (reply.sender, reply.result),
            outcome,
        ),
        crate::batch::count_ok(outcomes) == outcomes.filter(
            |o: Result<(), Result<R, AccumulatorError>>| o is Ok,
        ).len(),
    decreases outcomes.len(),
{
    reveal(Seq::filter);
    if outcomes.len() > 0 {
        law_delivered_replies_were_sent(reply, outcome, outcomes.drop_last());
    }
}

/// The report of a batch says of it what its ticket says, and of its processing what happened.
pub proof fn law_report_tells_of_its_batch<R>(
    ticket: FlushTicket<R>,
    execution_time: Duration,
    items_remaining: usize,
)
    ensures
        ({
            let info = ticket.info(execution_time, items_remaining);
            &&& info.batch_size == ticket.batch_size
            &&& info.max_batch_size == ticket.max_batch_size
            &&& info.window_duration == ticket.window_duration
            &&& info.items_remaining == items_remaining
            &&& info.batch_id == ticket.batch_id
            &&& info.execution_time == execution_time
            &&& info.time_since_last_flush == ticket.time_since_last_flush
            &&& info.total_weight == ticket.total_weight
        }),
{
}

/// A batch is made where it is processed by the main loop or handed to a task, and nowhere else.
pub proof fn law_two_verdicts_make_a_batch(verdict: FlushVerdict)
    ensures
        verdict.takes_buffer() <==> match verdict {
            FlushVerdict::Skip => false,
            FlushVerdict::Hold => false,
            FlushVerdict::Saturated => false,
            FlushVerdict::Process => true,
            FlushVerdict::Spawn => true,
        },
{
}

/// Batches in flight are counted, and further ones are held up, only where their number is limited:
/// a limit of zero is none, and further ones are held up just from the limit on.
pub proof fn law_limit_on_batches_in_flight(max_inflight: usize, inflight: usize)
    ensures
        ({
            let mode = ConcurrencyMode::Concurrent { max_inflight };
            &&& mode.counts_inflight() <==> max_inflight != 0
            &&& max_inflight == 0 ==> !mode.saturated(inflight)
            &&& max_inflight != 0 ==> (mode.saturated(inflight) <==> inflight >= max_inflight)
        }),
        !ConcurrencyMode::Serial.counts_inflight(),
        !ConcurrencyMode::Serial.saturated(inflight),
{
}

/// A configuration is valid just if its first window lies in its range.
pub proof fn law_valid_configurations(config: AccumulatorConfig)
    ensures
        config.wf() <==> duration_nanos(config.min_window) <= duration_nanos(config.initial_window)
            && duration_nanos(config.initial_window) <= duration_nanos(config.max_window),
{
}

/// A configuration that only has its windows set limits neither batches nor the queue, makes no
/// empty batches, processes one batch at a time, reports what is worth knowing but not single
/// items, waits for its tasks at the end, and takes up to 64 bypasses or reports in a round.
pub proof fn law_plain_configuration(initial: Duration, min: Duration, max: Duration)
    ensures
        ({
            let config = AccumulatorConfig::with_windows(initial, min, max);
            &&& config.initial_window == initial
            &&& config.min_window == min
            &&& config.max_window == max
            &&& config.max_batch_size is None
            &&& config.max_batch_weight is None
            &&& config.max_queue_depth is None
            &&& !config.flush_empty_batches
            &&& config.concurrency_mode is Serial
            &&& config.tracing_level == Some(Level::Info)
            &&& !config.trace_per_item
            &&& config.drain_timeout is None
            &&& config.drain_batch_limit == 64
        }),
{
}

/// What is said against windows that are not valid: which of them is out of order, and both as
/// they are written.
pub proof fn law_reasons_name_both_windows(initial: nat, limit: nat)
    ensures
        crate::config::below_min_reason(initial, limit) == "initial_window ("@
            + crate::text::duration_text(initial) + ") must be >= min_window ("@
            + crate::text::duration_text(limit) + ")"@,
        crate::config::above_max_reason(initial, limit) == "initial_window ("@
            + crate::text::duration_text(initial) + ") must be <= max_window ("@
            + crate::text::duration_text(limit) + ")"@,
{
}

/// What errors say.
pub proof fn law_messages_of_errors(max: usize, pending: usize, reason: String)
    ensures
        AccumulatorError::Shutdown.message_text() == "accumulator has shut down"@,
        AccumulatorError::Timeout.message_text() == "item timed out before processing"@,
        (AccumulatorError::QueueFull { max, pending }).message_text() == "queue is full: max="@
            + crate::text::decimal_text(max as nat) + ", pending="@ + crate::text::decimal_text(
            pending as nat,
        ),
        (AccumulatorError::InvalidConfig { reason }).message_text() == "invalid config: "@
            + reason@,
{
}

/// The number that a row of decimal digits stands for.
pub open spec fn number_read(text: Seq<char>) -> int
    decreases text.len(),
{
    if text.len() == 0 {
        0
    } else {
        10 * number_read(text.drop_last()) + (text.last() as int - '0' as int)
    }
}

/// The text of a digit is the character of that digit.
proof fn lemma_digit(digit: nat)
    requires
        digit < 10,
    ensures
        crate::text::digit_text(digit).len() == 1,
        crate::text::digit_text(digit)[0] as int == '0' as int + digit,
{
    reveal_strlit("0");
    reveal_strlit("1");
    reveal_strlit("2");
    reveal_strlit("3");
    reveal_strlit("4");
    reveal_strlit("5");
    reveal_strlit("6");
    reveal_strlit("7");
    reveal_strlit("8");
    reveal_strlit("9");
}

/// A number in decimal notation is read as that number, is made of digits, and has no zero in front
/// unless it is zero.
pub proof fn law_decimal_text_reads_back(n: nat)
    ensures
        ({
            let text = crate::text::decimal_text(n);
            &&& number_read(text) == n
            &&& text.len() > 0
            &&& text.len() > 1 ==> text[0] != '0'
            &&& n > 0 ==> text[0] != '0'
            &&& forall|i: int|
                0 <= i < text.len() ==> '0' as int <= #[trigger] text[i] as int <= '9' as int
        }),
    decreases n,
{
    let text = crate::text::decimal_text(n);
    if n < 10 {
        lemma_digit(n);
        assert(text.drop_last() =~= Seq::empty());
        assert(number_read(text.drop_last()) == 0);
    } else {
        let front = crate::text::decimal_text(n / 10);
        law_decimal_text_reads_back(n / 10);
        lemma_digit(n % 10);
        assert(text.drop_last() =~= front);
        assert(text.last() == crate::text::digit_text(n % 10)[0]);
        assert forall|i: int| 0 <= i < text.len() implies '0' as int <= #[trigger] text[i] as int
            <= '9' as int by {
            if i < front.len() {
                assert(text[i] == front[i]);
            }
        }
    }
}

/// From errors to single items, less and less weighty events follow on each other.
pub proof fn law_levels_are_ordered()
    ensures
        Level::Error.verbosity() < Level::Warn.verbosity() < Level::Info.verbosity()
            < Level::Debug.verbosity() < Level::Trace.verbosity(),
{
}

/// How full a batch was is its size against the largest, and never more than the whole; without a
/// largest size no batch counts as filled at all.
pub proof fn law_batch_is_measured_against_the_largest(info: FlushInfo, max: usize)
    ensures
        info.max_batch_size is None ==> crate::metrics::utilization_of(info).numerator == 0,
        info.max_batch_size == Some(0usize) ==> crate::metrics::utilization_of(info).numerator == 0,
        info.max_batch_size == Some(max) && max > 0 ==> {
            let share = crate::metrics::utilization_of(info);
            &&& share.denominator == max
            &&& info.batch_size <= max ==> share.numerator == info.batch_size
            &&& info.batch_size > max ==> share.numerator == max
        },
        crate::metrics::utilization_of(info).denominator > 0,
{
}

/// Counters go up by what they count, and start again from zero at the end of their range.
pub proof fn law_counters_go_up(counter: u64, a: u64, b: u64)
    ensures
        counter + a <= u64::MAX ==> crate::stats::counted(counter, a) == counter + a,
        counter + a > u64::MAX ==> crate::stats::counted(counter, a) == counter + a - u64::MAX - 1,
        crate::stats::counted(crate::stats::counted(counter, a), b) == crate::stats::counted(
            crate::stats::counted(counter, b),
            a,
        ),
{
}

/// A new timing comes last; where a thousand are kept already the oldest goes, and the others stay
/// in their order.
pub proof fn law_new_timing_comes_last(samples: Seq<Duration>, sample: Duration)
    ensures
        MAX_LATENCY_SAMPLES == 1000,
        samples.len() < 1000 ==> crate::stats::with_sample(samples, sample) == samples.push(sample),
        samples.len() >= 1000 ==> crate::stats::with_sample(samples, sample) == samples.skip(
            1,
        ).push(sample),
{
}

/// Each thing that is recorded moves the counter that is named after it, and the timings where it
/// has one, and nothing else.
pub proof fn law_records_move_their_own_counter(stats: StatsModel, count: u64, time: Duration)
    ensures
        ({
            let after = stats.after_submit();
            &&& after.submitted == (stats.submitted + 1) % 0x1_0000_0000_0000_0000
            &&& after.flushed == stats.flushed
            &&& after.dropped_timeout == stats.dropped_timeout
            &&& after.bypassed == stats.bypassed
            &&& after.rejected == stats.rejected
            &&& after.latencies == stats.latencies
            &&& after.waits == stats.waits
        }),
        ({
            let after = stats.after_flush(time);
            &&& after.submitted == stats.submitted
            &&& after.flushed == (stats.flushed + 1) % 0x1_0000_0000_0000_0000
            &&& after.dropped_timeout == stats.dropped_timeout
            &&& after.bypassed == stats.bypassed
            &&& after.rejected == stats.rejected
            &&& after.latencies.last() == time
            &&& after.latencies == crate::stats::with_sample(stats.latencies, time)
            &&& after.waits == stats.waits
        }),
        ({
            let after = stats.after_dropped_timeout(count);
            &&& after.submitted == stats.submitted
            &&& after.flushed == stats.flushed
            &&& after.dropped_timeout == (stats.dropped_timeout + count) % 0x1_0000_0000_0000_0000
            &&& after.bypassed == stats.bypassed
            &&& after.rejected == stats.rejected
            &&& after.latencies == stats.latencies
            &&& after.waits == stats.waits
        }),
        ({
            let after = stats.after_bypass();
            &&& after.submitted == stats.submitted
            &&& after.flushed == stats.flushed
            &&& after.dropped_timeout == stats.dropped_timeout
            &&& after.bypassed == (stats.bypassed + 1) % 0x1_0000_0000_0000_0000
            &&& after.rejected == stats.rejected
            &&& after.latencies == stats.latencies
            &&& after.waits == stats.waits
        }),
        ({
            let after = stats.after_rejected();
            &&& after.submitted == stats.submitted
            &&& after.flushed == stats.flushed
            &&& after.dropped_timeout == stats.dropped_timeout
            &&& after.bypassed == stats.bypassed
            &&& after.rejected == (stats.rejected + 1) % 0x1_0000_0000_0000_0000
            &&& after.latencies == stats.latencies
            &&& after.waits == stats.waits
        }),
        ({
            let after = stats.after_wait(time);
            &&& after.submitted == stats.submitted
            &&& after.flushed == stats.flushed
            &&& after.dropped_timeout == stats.dropped_timeout
            &&& after.bypassed == stats.bypassed
            &&& after.rejected == stats.rejected
            &&& after.latencies == stats.latencies
            &&& after.waits.last() == time
            &&& after.waits == crate::stats::with_sample(stats.waits, time)
        }),
{
}

/// Statistics start with nothing counted and nothing timed, and are sound as long as at most a
/// thousand timings of each kind are kept.
pub proof fn law_statistics_start_empty(stats: StatsModel)
    ensures
        ({
            let empty = StatsModel::empty();
            &&& empty.submitted == 0
            &&& empty.flushed == 0
            &&& empty.dropped_timeout == 0
            &&& empty.bypassed == 0
            &&& empty.rejected == 0
            &&& empty.latencies.len() == 0
            &&& empty.waits.len() == 0
        }),
        stats.wf() <==> stats.latencies.len() <= 1000 && stats.waits.len() <= 1000,
{
}

/// The rank of a percentile is that share of the way from the first timing to the last, rounded
/// down.
pub proof fn law_rank_is_a_share_of_the_way(len: nat, percent: nat)
    requires
        len > 0,
    ensures
        ({
            let rank = crate::stats::percentile_rank(len, percent);
            rank * 100 <= (len - 1) * percent < (rank + 1) * 100
        }),
{
    let way = (len - 1) * percent;
    assert(way / 100 * 100 <= way < (way / 100 + 1) * 100) by (nonlinear_arith);
}

/// The lengths of timings stand at their places, and their sum is that of any two parts of them; a
/// single timing is its own sum.
pub proof fn law_sum_of_timings(a: Seq<Duration>, b: Seq<Duration>, d: Duration)
    ensures
        crate::stats::nanos_of(a) == Seq::new(a.len(), |i: int| duration_nanos(a[i]) as int),
        crate::stats::sum_nanos(Seq::<Duration>::empty()) == 0,
        crate::stats::sum_nanos(seq![d]) == duration_nanos(d),
        crate::stats::sum_nanos(a + b) == crate::stats::sum_nanos(a) + crate::stats::sum_nanos(b),
    decreases b.len(),
{
    assert(seq![d].drop_last() =~= Seq::empty());
    assert(crate::stats::sum_nanos(Seq::<Duration>::empty()) == 0);
    if b.len() == 0 {
        assert(a + b =~= a);
    } else {
        law_sum_of_timings(a, b.drop_last(), d);
        assert((a + b).drop_last() =~= a + b.drop_last());
        assert((a + b).last() == b.last());
    }
}

/// The mean of timings is the whole number of nanoseconds that, taken as often as there are
/// timings, comes nearest to their sum without exceeding it; as far as 64 bits have room for it.
pub proof fn law_mean_of_timings(samples: Seq<Duration>, mean: nat)
    ensures
        samples.len() == 0 ==> crate::stats::mean_nanos(samples) == 0,
        samples.len() > 0 && mean <= u64::MAX && mean * samples.len() <= crate::stats::sum_nanos(
            samples,
        ) < (mean + 1) * samples.len() ==> crate::stats::mean_nanos(samples) == mean,
{
    let n = samples.len();
    let sum = crate::stats::sum_nanos(samples);
    if n > 0 && mean * n <= sum < (mean + 1) * n {
        assert(sum / n == mean) by (nonlinear_arith)
            requires
                n > 0,
                mean * n <= sum < (mean + 1) * n,
        ;
    }
}

/// A percentile is one of the timings; as many stand before it in ascending order as its rank says.
pub proof fn law_percentile_stands_at_its_rank(
    samples: Seq<Duration>,
    sorted: Seq<Duration>,
    percent: nat,
    d: Duration,
)
    requires
        samples.len() > 0,
        percent <= 100,
        sorted.to_multiset() == samples.to_multiset(),
        forall|i: int, j: int|
            0 <= i <= j < sorted.len() ==> duration_nanos(sorted[i]) <= duration_nanos(sorted[j]),
        crate::stats::is_percentile(samples, percent, d),
    ensures
        samples.contains(d),
        sorted.len() == samples.len(),
        duration_nanos(d) == duration_nanos(sorted[(samples.len() - 1) * percent / 100]),
{
    crate::stats::lemma_sorted_timings(sorted, samples);
    assert(0 <= (samples.len() - 1) * percent <= (samples.len() - 1) * 100) by (nonlinear_arith)
        requires
            samples.len() > 0,
            percent <= 100,
    ;
}

/// The percentiles of no timings are zero.
pub proof fn law_percentile_of_nothing(percent: nat, d: Duration)
    ensures
        crate::stats::is_percentile(Seq::empty(), percent, d) <==> duration_nanos(d) == 0,
{
}

} // verus!
