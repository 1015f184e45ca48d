//! What each operation of the accumulator comes to: which answer it gives, what it changes and what
//! it leaves alone. The laws here speak of the configuration, of the items and the counters before
//! and after, and of lengths of time in nanoseconds.
use std::time::Duration;

use vstd::prelude::*;

use crate::accumulator::{Found, Phase};
use crate::batch::{Priority, Reply};
use crate::config::{AccumulatorConfig, ConcurrencyMode};
use crate::error::AccumulatorError;
use crate::flush::{BypassAction, FlushAction, FlushJob, FlushTrigger, ItemFate};
use crate::item::{Arrival, ChannelItem};
use crate::shared::SharedModel;
use crate::stats::StatsModel;
use crate::system::{AccumulatorModel, System};
use crate::time::{duration_nanos, Moment};
use crate::vocabulary::overdue;

verus! {

/// The sum of several weights.
pub open spec fn sum_of(weights: Seq<usize>) -> nat
    decreases weights.len(),
{
    if weights.len() == 0 {
        0
    } else {
        sum_of(weights.drop_last()) + weights.last() as nat
    }
}

/// The sum of two rows is that of both.
proof fn lemma_sum_joined(a: Seq<usize>, b: Seq<usize>)
    ensures
        sum_of(a + b) == sum_of(a) + sum_of(b),
    decreases b.len(),
{
    if b.len() == 0 {
        assert(a + b =~= a);
    } else {
        lemma_sum_joined(a, b.drop_last());
        assert((a + b).drop_last() =~= a + b.drop_last());
        assert((a + b).last() == b.last());
    }
}

/// The sum of the first weights and that of the rest are that of all.
proof fn lemma_sum_split(weights: Seq<usize>, n: int)
    requires
        0 <= n <= weights.len(),
    ensures
        sum_of(weights) == sum_of(weights.take(n)) + sum_of(weights.skip(n)),
{
    lemma_sum_joined(weights.take(n), weights.skip(n));
    assert(weights.take(n) + weights.skip(n) =~= weights);
}

/// The sum of one weight is the weight.
proof fn lemma_sum_of_one(weight: usize)
    ensures
        sum_of(seq![weight]) == weight,
{
    assert(seq![weight].drop_last() =~= Seq::empty());
    assert(sum_of(Seq::empty()) == 0);
}

/// Whether an accumulator knows what its items weigh together.
pub open spec fn knows_its_weight<T, R>(acc: AccumulatorModel<T, R>) -> bool {
    &&& acc.weights.len() == acc.buffer.len()
    &&& acc.current_weight == sum_of(acc.weights)
}

/// Weights are added and taken away as numbers are, as far as a weight can go: no further up than
/// the greatest, and no further down than zero.
pub proof fn law_weights_add_up(weight: usize, by: usize, all: Seq<usize>)
    ensures
        weight + by <= usize::MAX ==> crate::system::heavier(weight, by) == weight + by,
        weight + by > usize::MAX ==> crate::system::heavier(weight, by) == usize::MAX,
        by <= weight ==> crate::system::lighter(weight, by) == weight - by,
        by > weight ==> crate::system::lighter(weight, by) == 0,
        sum_of(all) <= usize::MAX ==> crate::system::heavier_by_all(all) == sum_of(all),
        sum_of(all) > usize::MAX ==> crate::system::heavier_by_all(all) == usize::MAX,
        sum_of(all) <= weight ==> crate::system::lighter_by_all(weight, all) == weight - sum_of(
            all,
        ),
        sum_of(all) > weight ==> crate::system::lighter_by_all(weight, all) == 0,
    decreases all.len(),
{
    if all.len() > 0 {
        law_weights_add_up(weight, by, all.drop_last());
    }
}

/// Whether as many batches are in flight as may be.
pub open spec fn no_more_in_flight(config: AccumulatorConfig, inflight: usize) -> bool {
    match config.concurrency_mode {
        ConcurrencyMode::Serial => false,
        ConcurrencyMode::Concurrent { max_inflight } => max_inflight != 0 && inflight
            >= max_inflight,
    }
}

/// How many batches are in flight once one more has been started, where they are counted.
pub open spec fn one_more_in_flight(config: AccumulatorConfig, inflight: usize) -> int {
    match config.concurrency_mode {
        ConcurrencyMode::Serial => inflight as int,
        ConcurrencyMode::Concurrent { max_inflight } => if max_inflight == 0 {
            inflight as int
        } else {
            inflight + 1
        },
    }
}

/// Which answer a flush gives: nothing where there is nothing to flush, unless empty batches are
/// wanted and the accumulator is not paused; nothing where the accumulator is paused and nobody has
/// asked for the flush; nothing where no more batches may be in flight; and otherwise a batch, which
/// the main loop processes in serial mode and only then, and a task in concurrent mode, whatever its
/// limit.
pub proof fn law_answer_to_a_flush<T, R>(
    system: System<T, R>,
    config: AccumulatorConfig,
    trigger: FlushTrigger,
    now: Moment,
    action: FlushAction<T, R>,
)
    requires
        system.is_action(config, trigger, now, action),
    ensures
        ({
            let empty = system.acc.buffer.len() == 0;
            let paused = system.shared.paused;
            let asked = match trigger {
                FlushTrigger::Request => true,
                FlushTrigger::Timer => system.acc.flush_owed,
                FlushTrigger::Threshold => false,
            };
            let nothing = empty && (paused || !config.flush_empty_batches);
            let held = paused && !asked;
            let full = no_more_in_flight(config, system.shared.inflight_count);
            &&& action is Skipped <==> nothing
            &&& action is Held <==> !nothing && held
            &&& action is Saturated <==> !nothing && !held && full
            &&& action is Process <==> !nothing && !held && config.concurrency_mode is Serial
            &&& action is Spawn <==> !nothing && !held && !full
                && config.concurrency_mode is Concurrent
        }),
{
}

/// Who processes a batch, at any flush and as the accumulator shuts down: the main loop in serial
/// mode, a task in concurrent mode. A task's batch is counted just where the number of batches in
/// flight is limited.
pub proof fn law_mode_decides_who_processes<T, R>(
    system: System<T, R>,
    config: AccumulatorConfig,
    trigger: FlushTrigger,
    now: Moment,
    action: FlushAction<T, R>,
)
    requires
        system.is_action(config, trigger, now, action) || system.is_drain_action(
            config,
            now,
            action,
        ) || system.is_final_action(config, now, action),
    ensures
        config.concurrency_mode is Concurrent ==> !(action is Process),
        config.concurrency_mode is Serial ==> !(action is Spawn),
        action matches FlushAction::Spawn(_, guard) ==> (guard.counted() <==> !(
        config.concurrency_mode matches ConcurrencyMode::Concurrent { max_inflight } && max_inflight
            == 0)),
{
}

/// How many of some buffered items go into a batch: all of them, or the largest number where one is
/// set and there are more.
pub open spec fn portion(config: AccumulatorConfig, buffered: nat) -> nat {
    match config.max_batch_size {
        Some(max) => if max != 0 && buffered > max {
            max as nat
        } else {
            buffered
        },
        None => buffered,
    }
}

/// What a batch is made of: the first items of the buffer, each value with its reply and its span,
/// under the next number, with the moment, the window, the queue, the time since the flush before
/// and, where weight is limited, the weight of just those items.
pub proof fn law_batch_is_the_front_of_the_buffer<T, R>(
    system: System<T, R>,
    config: AccumulatorConfig,
    now: Moment,
    job: FlushJob<T, R>,
)
    requires
        system.is_job(config, now, job),
    ensures
        ({
            let n = portion(config, system.acc.buffer.len());
            let batch = job.batch@;
            let ticket = job.ticket;
            &&& batch.items.len() == n
            &&& ticket.senders@.len() == n
            &&& ticket.parent_spans@.len() == n
            &&& ticket.batch_size == n
            &&& forall|i: int|
                0 <= i < n ==> {
                    &&& #[trigger] batch.items[i] == system.acc.buffer[i].value
                    &&& ticket.senders@[i] == system.acc.buffer[i].reply
                    &&& ticket.parent_spans@[i] == system.acc.buffer[i].parent_span
                }
            &&& batch.batch_id == system.acc.next_batch_id
            &&& ticket.batch_id == system.acc.next_batch_id
            &&& batch.created_at == now
            &&& batch.window_duration == system.shared.current_window
            &&& ticket.window_duration == system.shared.current_window
            &&& batch.queue_depth_at_flush == system.shared.pending_count
            &&& ticket.max_batch_size == config.max_batch_size
            &&& system.acc.last_flush <= duration_nanos(now.since_start) ==> system.acc.last_flush
                + duration_nanos(ticket.time_since_last_flush) == duration_nanos(now.since_start)
            &&& system.acc.last_flush > duration_nanos(now.since_start) ==> duration_nanos(
                ticket.time_since_last_flush,
            ) == 0
            &&& config.max_batch_weight is None ==> ticket.total_weight is None
            &&& config.max_batch_weight is Some && knows_its_weight(system.acc) ==> {
                &&& ticket.total_weight matches Some(weight)
                &&& weight == sum_of(system.acc.weights.take(n as int))
            }
        }),
{
    let n = portion(config, system.acc.buffer.len()) as int;
    if knows_its_weight(system.acc) {
        lemma_sum_split(system.acc.weights, n);
        law_weights_add_up(0, 0, system.acc.weights.take(n));
        assert(system.acc.weights.take(system.acc.weights.len() as int) =~= system.acc.weights);
    }
}

/// Whether nothing of the shared state but what is known of batches has changed.
pub open spec fn same_elsewhere(a: SharedModel, b: SharedModel) -> bool {
    &&& a.current_window == b.current_window
    &&& a.cancelled == b.cancelled
    &&& a.paused == b.paused
    &&& a.pending_count == b.pending_count
    &&& a.max_queue_depth == b.max_queue_depth
    &&& a.stats == b.stats
}

/// Whether taking a batch out of the buffer takes one system to another: the first items are gone
/// with their weights, the rest stays as it was, one number is used up, no flush is owed any more,
/// and what is made known of the buffer is true.
pub open spec fn batch_taken<T, R>(
    config: AccumulatorConfig,
    before: System<T, R>,
    after: System<T, R>,
) -> bool {
    let n = portion(config, before.acc.buffer.len()) as int;
    &&& after.acc.buffer == before.acc.buffer.skip(n)
    &&& after.acc.weights == before.acc.weights.skip(n)
    &&& knows_its_weight(before.acc) ==> knows_its_weight(after.acc)
    &&& after.acc.next_batch_id == before.acc.next_batch_id + 1
    &&& after.acc.last_flush == before.acc.last_flush
    &&& after.acc.deadline == before.acc.deadline
    &&& !after.acc.flush_owed
    &&& after.shared.buffer_size == after.acc.buffer.len()
    &&& config.max_batch_weight is Some ==> after.shared.tracked_weight == after.acc.current_weight
    &&& config.max_batch_weight is None ==> after.shared.tracked_weight == 0
    &&& same_elsewhere(before.shared, after.shared)
}

/// Taking a batch leaves the weight of what is left.
proof fn lemma_weight_of_the_rest<T, R>(acc: AccumulatorModel<T, R>, config: AccumulatorConfig)
    requires
        knows_its_weight(acc),
    ensures
        knows_its_weight(acc.flushed(config)),
{
    let n = portion(config, acc.buffer.len()) as int;
    lemma_sum_split(acc.weights, n);
    law_weights_add_up(acc.current_weight, 0, acc.weights.take(n));
    if n == acc.weights.len() {
        assert(acc.weights.skip(n) =~= Seq::empty());
        assert(sum_of(Seq::empty()) == 0);
    }
}

/// What a flush changes. One that makes a batch takes it out of the buffer, asks for another flush
/// just where items are left, and counts the batch just where a task has got it and such batches
/// are counted. One that makes none changes nothing, but that one with nothing to flush counts as
/// the latest flush, and that one that was asked for and had to be put off is remembered.
pub proof fn law_what_a_flush_changes<T, R>(
    system: System<T, R>,
    config: AccumulatorConfig,
    trigger: FlushTrigger,
    now: Moment,
    action: FlushAction<T, R>,
)
    requires
        system.is_action(config, trigger, now, action),
        system.acc.next_batch_id < u64::MAX,
        system.acc.buffer.len() <= usize::MAX,
    ensures
        ({
            let after = system.after_flush(config, trigger, now);
            let takes = action is Process || action is Spawn;
            &&& takes ==> batch_taken(config, system, after)
            &&& takes ==> (after.shared.flush_requested <==> system.shared.flush_requested
                || after.acc.buffer.len() > 0)
            &&& action is Process ==> after.shared.inflight_count == system.shared.inflight_count
            &&& action is Spawn ==> after.shared.inflight_count == one_more_in_flight(
                config,
                system.shared.inflight_count,
            )
            &&& !takes ==> {
                &&& after.shared == system.shared
                &&& after.acc.buffer == system.acc.buffer
                &&& after.acc.weights == system.acc.weights
                &&& after.acc.current_weight == system.acc.current_weight
                &&& after.acc.next_batch_id == system.acc.next_batch_id
                &&& after.acc.deadline == system.acc.deadline
            }
            &&& action is Skipped ==> {
                &&& after.acc.last_flush == duration_nanos(now.since_start)
                &&& !after.acc.flush_owed
            }
            &&& action is Held ==> {
                &&& after.acc.last_flush == system.acc.last_flush
                &&& after.acc.flush_owed == system.acc.flush_owed
            }
            &&& action is Saturated ==> {
                &&& after.acc.last_flush == system.acc.last_flush
                &&& (after.acc.flush_owed <==> system.acc.flush_owed || trigger
                    == FlushTrigger::Request)
            }
        }),
{
    if knows_its_weight(system.acc) {
        lemma_weight_of_the_rest(system.acc, config);
    }
}

/// Whether the timer is the only thing in which two systems may differ.
pub open spec fn same_but_for_the_timer<T, R>(a: System<T, R>, b: System<T, R>) -> bool {
    &&& a.shared == b.shared
    &&& a.acc.buffer == b.acc.buffer
    &&& a.acc.weights == b.acc.weights
    &&& a.acc.current_weight == b.acc.current_weight
    &&& a.acc.next_batch_id == b.acc.next_batch_id
    &&& a.acc.last_flush == b.acc.last_flush
    &&& a.acc.flush_owed == b.acc.flush_owed
}

/// Whether a timer goes off so many nanoseconds after a moment, or as far on as a moment can lie.
pub open spec fn goes_off_after(deadline: nat, now: Moment, nanos: nat) -> bool {
    let due = duration_nanos(now.since_start) + nanos;
    if due <= 0xffff_ffff_ffff_ffff * 1_000_000_000 + 999_999_999 {
        deadline == due
    } else {
        deadline == 0xffff_ffff_ffff_ffff * 1_000_000_000 + 999_999_999
    }
}

/// A flush that the timer or a request brings about sets the timer again: for the window, or for
/// ten milliseconds where no more batches may be in flight. A batch that the main loop processes
/// leaves it alone until it is finished.
pub proof fn law_timer_is_set_again<T, R>(
    system: System<T, R>,
    config: AccumulatorConfig,
    trigger: FlushTrigger,
    now: Moment,
    action: FlushAction<T, R>,
)
    requires
        system.is_action(config, trigger, now, action),
    ensures
        ({
            let flushed = system.after_flush(config, trigger, now);
            let after = system.after_timed_flush(config, trigger, now);
            &&& same_but_for_the_timer(flushed, after)
            &&& action is Saturated ==> goes_off_after(after.acc.deadline, now, 10_000_000)
            &&& action is Process ==> after.acc.deadline == system.acc.deadline
            &&& action is Skipped || action is Held || action is Spawn ==> goes_off_after(
                after.acc.deadline,
                now,
                duration_nanos(system.shared.current_window),
            )
        }),
{
}

/// The timer that is set as the main loop starts goes off after the window, and nothing else
/// changes.
pub proof fn law_first_timer<T, R>(acc: AccumulatorModel<T, R>, now: Moment, nanos: nat)
    ensures
        goes_off_after(acc.armed(now, nanos).deadline, now, nanos),
        acc.armed(now, nanos) == (AccumulatorModel {
            deadline: acc.armed(now, nanos).deadline,
            ..acc
        }),
{
}

/// A look for a request takes it away and brings a flush about, just where there is one; without
/// one it changes nothing.
pub proof fn law_request_is_met_once<T, R>(
    config: AccumulatorConfig,
    before: System<T, R>,
    now: Moment,
    action: FlushAction<T, R>,
    after: System<T, R>,
)
    requires
        crate::accumulator::request_met(config, before, now, action, after),
    ensures
        !before.shared.flush_requested ==> action is Skipped && after == before,
        before.shared.flush_requested ==> {
            let met = System {
                shared: SharedModel { flush_requested: false, ..before.shared },
                ..before
            };
            &&& met.is_action(config, FlushTrigger::Request, now, action)
            &&& after == met.after_timed_flush(config, FlushTrigger::Request, now)
        },
        before.after_request(config, now) == after,
{
}

/// Whether a buffer of so many items that weigh so much together is to be flushed at once.
pub open spec fn enough(config: AccumulatorConfig, items: nat, weight: nat) -> bool {
    ||| config.max_batch_size matches Some(max) && items >= max
    ||| config.max_batch_weight matches Some(max) && weight >= max
}

/// An item that has timed out is not buffered when it comes out of the queue, and no other is
/// dropped: the one who waits for it is told, the drop is counted, and the buffer stays as it is. A
/// place in the queue is free again, and the time that the item waited is recorded, either way.
pub proof fn law_overdue_item_is_dropped_on_arrival<T, R>(
    config: AccumulatorConfig,
    before: System<T, R>,
    arrival: Arrival<T, R>,
    waited: Duration,
    fate: ItemFate<T, R>,
    after: System<T, R>,
)
    requires
        crate::accumulator::item_taken(config, before, arrival, waited, fate, after),
        before.shared.pending_count > 0,
    ensures
        overdue(arrival.item(), arrival.at()) <==> fate is Expired,
        fate matches ItemFate::Expired { reply } ==> {
            &&& reply is Some <==> arrival.item().reply is Some
            &&& reply is Some ==> reply == Some(
                Reply {
                    sender: arrival.item().reply->0,
                    result: Err::<R, _>(AccumulatorError::Timeout),
                },
            )
            &&& after.acc == before.acc
            &&& after.shared == (SharedModel {
                pending_count: (before.shared.pending_count - 1) as usize,
                stats: StatsModel {
                    dropped_timeout: ((before.shared.stats.dropped_timeout + 1)
                        % 0x1_0000_0000_0000_0000) as u64,
                    waits: crate::stats::with_sample(before.shared.stats.waits, waited),
                    ..before.shared.stats
                },
                ..before.shared
            })
        },
        ({
            let came = duration_nanos(arrival.at().since_start);
            let sent = duration_nanos(arrival.item().submitted_at.since_start);
            &&& sent <= came ==> sent + duration_nanos(waited) == came
            &&& sent > came ==> duration_nanos(waited) == 0
        }),
{
}

/// The system once an item has been buffered on its arrival and nothing more has come of it.
pub open spec fn with_item<T, R>(
    config: AccumulatorConfig,
    before: System<T, R>,
    arrival: Arrival<T, R>,
    waited: Duration,
) -> System<T, R> {
    let urgent = arrival.item().priority == Priority::High;
    let weight = if before.acc.current_weight + arrival.weight() <= usize::MAX {
        (before.acc.current_weight + arrival.weight()) as usize
    } else {
        usize::MAX
    };
    System {
        acc: AccumulatorModel {
            buffer: if urgent {
                seq![arrival.item()] + before.acc.buffer
            } else {
                before.acc.buffer + seq![arrival.item()]
            },
            weights: if urgent {
                seq![arrival.weight()] + before.acc.weights
            } else {
                before.acc.weights + seq![arrival.weight()]
            },
            current_weight: weight,
            ..before.acc
        },
        shared: SharedModel {
            pending_count: (before.shared.pending_count - 1) as usize,
            flush_requested: before.shared.flush_requested || urgent,
            buffer_size: (before.acc.buffer.len() + 1) as usize,
            tracked_weight: if config.max_batch_weight is Some {
                weight
            } else {
                0
            },
            stats: StatsModel {
                waits: crate::stats::with_sample(before.shared.stats.waits, waited),
                ..before.shared.stats
            },
            ..before.shared
        },
    }
}

/// An item that has not timed out is buffered, an urgent one at the front with a request for a
/// flush and any other at the back, with its weight. It brings a flush about just where the items
/// are then as many, or as heavy together, as the configuration says; and that flush sets the timer
/// just where a task has got the batch.
pub proof fn law_item_is_buffered_on_arrival<T, R>(
    config: AccumulatorConfig,
    before: System<T, R>,
    arrival: Arrival<T, R>,
    waited: Duration,
    fate: ItemFate<T, R>,
    after: System<T, R>,
)
    requires
        crate::accumulator::item_taken(config, before, arrival, waited, fate, after),
        !overdue(arrival.item(), arrival.at()),
    ensures
        ({
            let held = with_item(config, before, arrival, waited);
            let now = arrival.at();
            &&& fate matches ItemFate::Buffered { weight, flush }
            &&& weight == arrival.weight()
            &&& flush is Some <==> enough(
                config,
                before.acc.buffer.len() + 1,
                held.acc.current_weight as nat,
            )
            &&& flush is None ==> after == held
            &&& flush matches Some(action) ==> {
                &&& held.is_action(config, FlushTrigger::Threshold, now, action)
                &&& same_but_for_the_timer(
                    after,
                    held.after_flush(config, FlushTrigger::Threshold, now),
                )
                &&& action is Spawn ==> goes_off_after(
                    after.acc.deadline,
                    now,
                    duration_nanos(before.shared.current_window),
                )
                &&& !(action is Spawn) ==> after.acc.deadline == before.acc.deadline
            }
        }),
        before.after_item(config, arrival.item(), arrival.weight(), waited, arrival.at()) == after,
{
    let held = with_item(config, before, arrival, waited);
    let model = before.taking_in(config, arrival.item(), arrival.weight(), waited);
    assert(before.acc.buffer + seq![arrival.item()] =~= before.acc.buffer.push(arrival.item()));
    assert(before.acc.weights + seq![arrival.weight()] =~= before.acc.weights.push(
        arrival.weight(),
    ));
    assert(model.acc == held.acc);
    assert(model.shared == held.shared);
}

/// As soon as the buffered items are as many as a batch may hold, or together as heavy as the
/// configuration says, the item that makes them so leads to a batch at once, whichever of the two
/// limits is reached and whatever the other is, unless the accumulator is paused or no more batches
/// may be in flight; and before that none does.
pub proof fn law_reaching_a_limit_flushes_at_once<T, R>(
    config: AccumulatorConfig,
    before: System<T, R>,
    arrival: Arrival<T, R>,
    waited: Duration,
    fate: ItemFate<T, R>,
    after: System<T, R>,
)
    requires
        crate::accumulator::item_taken(config, before, arrival, waited, fate, after),
        !overdue(arrival.item(), arrival.at()),
        !before.shared.paused,
        !no_more_in_flight(config, before.shared.inflight_count),
        knows_its_weight(before.acc),
        sum_of(before.acc.weights) + arrival.weight() <= usize::MAX,
    ensures
        ({
            let makes_batch = fate matches ItemFate::Buffered { flush: Some(action), .. } && (
            action is Process || action is Spawn);
            let heavy = config.max_batch_weight matches Some(max) && sum_of(before.acc.weights)
                + arrival.weight() >= max;
            let many = config.max_batch_size matches Some(max) && before.acc.buffer.len() + 1
                >= max;
            &&& heavy ==> makes_batch
            &&& many ==> makes_batch
            &&& makes_batch ==> heavy || many
            &&& makes_batch ==> after.acc.buffer.len() < before.acc.buffer.len() + 1
            &&& !makes_batch ==> after.acc.buffer.len() == before.acc.buffer.len() + 1
        }),
{
    law_item_is_buffered_on_arrival(config, before, arrival, waited, fate, after);
    let held = with_item(config, before, arrival, waited);
    if let ItemFate::Buffered { flush: Some(action), .. } = fate {
        law_answer_to_a_flush(held, config, FlushTrigger::Threshold, arrival.at(), action);
    }
}

/// Buffering an item keeps the accumulator's knowledge of its weight, as long as there is room for
/// it.
pub proof fn law_item_adds_its_weight<T, R>(
    config: AccumulatorConfig,
    before: System<T, R>,
    arrival: Arrival<T, R>,
    waited: Duration,
)
    requires
        knows_its_weight(before.acc),
        sum_of(before.acc.weights) + arrival.weight() <= usize::MAX,
    ensures
        knows_its_weight(with_item(config, before, arrival, waited).acc),
{
    lemma_sum_of_one(arrival.weight());
    lemma_sum_joined(before.acc.weights, seq![arrival.weight()]);
    lemma_sum_joined(seq![arrival.weight()], before.acc.weights);
}

/// Whether a buffer is to be flushed at once is a matter of its length and its weight alone.
pub proof fn law_when_the_buffer_is_enough<T, R>(
    config: AccumulatorConfig,
    system: System<T, R>,
    size: nat,
    weight: usize,
)
    ensures
        crate::system::threshold_reached(config, size, weight) <==> enough(
            config,
            size,
            weight as nat,
        ),
        system.full(config) <==> enough(
            config,
            system.acc.buffer.len(),
            system.acc.current_weight as nat,
        ),
{
}

/// The system once an item has been buffered as the accumulator shuts down and nothing more has
/// come of it.
pub open spec fn with_drained_item<T, R>(
    config: AccumulatorConfig,
    before: System<T, R>,
    arrival: Arrival<T, R>,
) -> System<T, R> {
    let held = with_item(config, before, arrival, before.shared.current_window);
    System {
        shared: SharedModel {
            flush_requested: before.shared.flush_requested,
            stats: before.shared.stats,
            ..held.shared
        },
        ..held
    }
}

/// An item that comes out of the queue as the accumulator shuts down is dropped just if it has
/// timed out, and told so. Any other is buffered, and makes a batch just where the items are then
/// as many or as heavy as the configuration says, whatever is paused or in flight.
pub proof fn law_item_that_is_drained<T, R>(
    config: AccumulatorConfig,
    before: System<T, R>,
    arrival: Arrival<T, R>,
    fate: ItemFate<T, R>,
    after: System<T, R>,
)
    requires
        crate::accumulator::item_drained(config, before, arrival, fate, after),
    ensures
        overdue(arrival.item(), arrival.at()) <==> fate is Expired,
        fate matches ItemFate::Expired { reply } ==> {
            &&& reply is Some <==> arrival.item().reply is Some
            &&& reply is Some ==> reply == Some(
                Reply {
                    sender: arrival.item().reply->0,
                    result: Err::<R, _>(AccumulatorError::Timeout),
                },
            )
            &&& after.acc == before.acc
            &&& after.shared == (SharedModel {
                pending_count: (before.shared.pending_count - 1) as usize,
                stats: StatsModel {
                    dropped_timeout: ((before.shared.stats.dropped_timeout + 1)
                        % 0x1_0000_0000_0000_0000) as u64,
                    ..before.shared.stats
                },
                ..before.shared
            })
        },
        fate matches ItemFate::Buffered { weight, flush } ==> {
            let held = with_drained_item(config, before, arrival);
            &&& weight == arrival.weight()
            &&& flush is Some <==> enough(
                config,
                before.acc.buffer.len() + 1,
                held.acc.current_weight as nat,
            )
            &&& flush is None ==> after == held
            &&& flush matches Some(action) ==> {
                &&& held.is_drain_action(config, arrival.at(), action)
                &&& after == held.drained(config)
            }
        },
        before.after_drained_item(config, arrival.item(), arrival.weight(), arrival.at()) == after,
{
    let held = with_drained_item(config, before, arrival);
    let model = before.slot_released().buffering(config, arrival.item(), arrival.weight());
    assert(before.acc.buffer + seq![arrival.item()] =~= before.acc.buffer.push(arrival.item()));
    assert(before.acc.weights + seq![arrival.weight()] =~= before.acc.weights.push(
        arrival.weight(),
    ));
    assert(model.acc == held.acc);
    assert(model.shared == held.shared);
}

/// A batch that is made as the accumulator shuts down is the front of the buffer, whatever is paused
/// or in flight; the main loop processes it in serial mode, and a task in concurrent mode. It is
/// taken out of the buffer, and counted as in flight just where a task has got it and such batches
/// are counted.
pub proof fn law_batch_at_shutdown<T, R>(
    system: System<T, R>,
    config: AccumulatorConfig,
    now: Moment,
    action: FlushAction<T, R>,
)
    requires
        system.is_drain_action(config, now, action),
        system.acc.next_batch_id < u64::MAX,
        system.acc.buffer.len() <= usize::MAX,
        one_more_in_flight(config, system.shared.inflight_count) <= usize::MAX,
    ensures
        config.concurrency_mode is Serial ==> (action matches FlushAction::Process(job)
            && system.is_job(config, now, job)),
        config.concurrency_mode is Concurrent ==> (action matches FlushAction::Spawn(job, guard)
            && system.is_job(config, now, job)),
        batch_taken(config, system, system.drained(config)),
        system.drained(config).shared.flush_requested == system.shared.flush_requested,
        system.drained(config).shared.inflight_count == one_more_in_flight(
            config,
            system.shared.inflight_count,
        ),
{
    if knows_its_weight(system.acc) {
        lemma_weight_of_the_rest(system.acc, config);
    }
}

/// The last flush makes a batch as long as anything is buffered; with nothing buffered it makes one
/// just where empty batches are wanted, and otherwise changes nothing.
pub proof fn law_last_flush<T, R>(
    system: System<T, R>,
    config: AccumulatorConfig,
    now: Moment,
    action: FlushAction<T, R>,
)
    requires
        system.is_final_action(config, now, action),
    ensures
        system.acc.buffer.len() > 0 || config.flush_empty_batches ==> {
            &&& system.is_drain_action(config, now, action)
            &&& system.after_final_flush(config) == system.drained(config)
        },
        system.acc.buffer.len() == 0 && !config.flush_empty_batches ==> {
            &&& action is Skipped
            &&& system.after_final_flush(config) == system
        },
{
}

/// Dropping the buffered items that have timed out leaves just those that are not overdue, in their
/// order and with their weights, counts the others, takes their weight away, and makes the new size
/// and weight known. Nothing else changes.
pub proof fn law_overdue_items_leave_the_buffer<T, R>(
    system: System<T, R>,
    config: AccumulatorConfig,
    now: Moment,
)
    requires
        system.acc.buffer.len() <= usize::MAX,
    ensures
        ({
            let after = system.after_expiry(config, now);
            let late = |item: ChannelItem<T, R>| overdue(item, now);
            let gone = system.acc.buffer.filter(late);
            &&& after.acc.buffer == system.acc.buffer.filter(
                |item: ChannelItem<T, R>| !overdue(item, now),
            )
            &&& forall|i: int|
                0 <= i < after.acc.buffer.len() ==> !overdue(#[trigger] after.acc.buffer[i], now)
            &&& gone.len() + after.acc.buffer.len() == system.acc.buffer.len()
            &&& knows_its_weight(system.acc) ==> knows_its_weight(after.acc)
            &&& after.acc.next_batch_id == system.acc.next_batch_id
            &&& after.acc.last_flush == system.acc.last_flush
            &&& after.acc.deadline == system.acc.deadline
            &&& after.acc.flush_owed == system.acc.flush_owed
            &&& after.shared == (SharedModel {
                buffer_size: after.acc.buffer.len() as usize,
                tracked_weight: if config.max_batch_weight is Some {
                    after.acc.current_weight
                } else {
                    0
                },
                stats: StatsModel {
                    dropped_timeout: ((system.shared.stats.dropped_timeout + gone.len())
                        % 0x1_0000_0000_0000_0000) as u64,
                    ..system.shared.stats
                },
                ..system.shared
            })
        }),
{
    crate::vocabulary::law_timed_out_items_are_the_overdue(system.acc.buffer, now);
    let live = |item: ChannelItem<T, R>| !overdue(item, now);
    let kept = system.acc.buffer.filter(live);
    lemma_split_lengths(system.acc.buffer, system.acc.weights, now);
    assert forall|i: int| 0 <= i < kept.len() implies !overdue(#[trigger] kept[i], now) by {
        system.acc.buffer.lemma_filter_pred(live, i);
    }
    if knows_its_weight(system.acc) {
        lemma_split_weights(system.acc.buffer, system.acc.weights, now, system.acc.buffer.len());
        assert(system.acc.buffer.take(system.acc.buffer.len() as int) =~= system.acc.buffer);
        assert(system.acc.weights.take(system.acc.weights.len() as int) =~= system.acc.weights);
        law_weights_add_up(
            system.acc.current_weight,
            0,
            crate::item::expired_weights(system.acc.buffer, system.acc.weights, now),
        );
    }
}

/// Each item has either timed out or not.
proof fn lemma_split_lengths<T, R>(
    items: Seq<ChannelItem<T, R>>,
    weights: Seq<usize>,
    now: Moment,
)
    ensures
        crate::item::expired_items(items, now).len() + crate::item::live_items(items, now).len()
            == items.len(),
        crate::item::live_weights(items, weights, now).len() == crate::item::live_items(
            items,
            now,
        ).len(),
    decreases items.len(),
{
    if items.len() > 0 {
        lemma_split_lengths(items.drop_last(), weights, now);
    }
}

/// The weights of the items that have timed out and those of the others are all weights.
proof fn lemma_split_weights<T, R>(
    items: Seq<ChannelItem<T, R>>,
    weights: Seq<usize>,
    now: Moment,
    n: nat,
)
    requires
        weights.len() == items.len(),
        n <= items.len(),
    ensures
        sum_of(crate::item::expired_weights(items.take(n as int), weights, now)) + sum_of(
            crate::item::live_weights(items.take(n as int), weights, now),
        ) == sum_of(weights.take(n as int)),
    decreases n,
{
    let some = items.take(n as int);
    if n > 0 {
        lemma_split_weights(items, weights, now, (n - 1) as nat);
        assert(some.drop_last() =~= items.take(n - 1));
        assert(weights.take(n as int).drop_last() =~= weights.take(n - 1));
        let gone = crate::item::expired_weights(items.take(n - 1), weights, now);
        let kept = crate::item::live_weights(items.take(n - 1), weights, now);
        assert(gone.push(weights[n - 1]).drop_last() =~= gone);
        assert(kept.push(weights[n - 1]).drop_last() =~= kept);
    }
}

/// A finished batch counts as one more, with the time it took, and its end as the latest flush.
/// Nothing else changes.
pub proof fn law_finished_batch_is_counted<T, R>(
    system: System<T, R>,
    execution_time: Duration,
    now: Moment,
)
    ensures
        ({
            let after = system.after_completion(execution_time, now);
            &&& after.acc == (AccumulatorModel {
                last_flush: duration_nanos(now.since_start),
                ..system.acc
            })
            &&& after.shared == (SharedModel {
                stats: StatsModel {
                    flushed: ((system.shared.stats.flushed + 1) % 0x1_0000_0000_0000_0000) as u64,
                    latencies: crate::stats::with_sample(
                        system.shared.stats.latencies,
                        execution_time,
                    ),
                    ..system.shared.stats
                },
                ..system.shared
            })
        }),
{
}

/// Whether a window is what an answer comes to under a configuration: the answer itself where it
/// lies in the range, and the nearer end of the range otherwise.
pub open spec fn follows(config: AccumulatorConfig, answer: Duration, window: Duration) -> bool {
    let (low, high) = (duration_nanos(config.min_window), duration_nanos(config.max_window));
    let n = duration_nanos(answer);
    &&& low <= n <= high ==> window == answer
    &&& n < low ==> window == config.min_window
    &&& n > high && n >= low ==> window == config.max_window
}

/// Once a batch of the main loop is finished, the window is what the controller's answer comes to,
/// and the timer is set for it. The batch is counted, and nothing else changes.
pub proof fn law_finished_batch_sets_the_window<T, R>(
    system: System<T, R>,
    config: AccumulatorConfig,
    info: crate::batch::FlushInfo,
    answer: Duration,
    now: Moment,
)
    ensures
        ({
            let counted = system.after_completion(info.execution_time, now);
            let after = system.after_serial(config, info, answer, now);
            &&& follows(config, answer, after.shared.current_window)
            &&& goes_off_after(
                after.acc.deadline,
                now,
                duration_nanos(after.shared.current_window),
            )
            &&& after.shared == (SharedModel {
                current_window: after.shared.current_window,
                ..counted.shared
            })
            &&& after.acc == (AccumulatorModel { deadline: after.acc.deadline, ..counted.acc })
        }),
{
}

/// Once a task has reported its batch, the window is what the controller's answer comes to; a flush
/// is asked for just where items have gathered and the accumulator is not paused. The batch is
/// counted, and nothing else changes.
pub proof fn law_reported_batch_sets_the_window<T, R>(
    system: System<T, R>,
    config: AccumulatorConfig,
    info: crate::batch::FlushInfo,
    answer: Duration,
    now: Moment,
)
    ensures
        ({
            let counted = system.after_completion(info.execution_time, now);
            let after = system.after_feedback(config, info, answer, now);
            &&& follows(config, answer, after.shared.current_window)
            &&& after.shared.flush_requested <==> system.shared.flush_requested || (
            system.acc.buffer.len() > 0 && !system.shared.paused)
            &&& after.shared == (SharedModel {
                current_window: after.shared.current_window,
                flush_requested: after.shared.flush_requested,
                ..counted.shared
            })
            &&& after.acc == counted.acc
        }),
{
}

/// Setting the window by an answer changes nothing but the window.
pub proof fn law_answer_sets_the_window<T, R>(
    system: System<T, R>,
    config: AccumulatorConfig,
    answer: Duration,
)
    ensures
        ({
            let after = system.after_adjustment(config, answer);
            &&& follows(config, answer, after.shared.current_window)
            &&& after == (System {
                shared: SharedModel {
                    current_window: after.shared.current_window,
                    ..system.shared
                },
                ..system
            })
        }),
{
}

/// Whether a batch of items that bypass the buffer has just these items and this number, the moment
/// of its making, no window and no queue.
pub open spec fn bypasses<T>(
    batch: crate::batch::BatchModel<T>,
    items: Seq<T>,
    id: int,
    now: Moment,
) -> bool {
    &&& batch.items == items
    &&& batch.batch_id == id
    &&& batch.created_at == now
    &&& duration_nanos(batch.window_duration) == 0
    &&& batch.queue_depth_at_flush == 0
}

/// Items that bypass the buffer go to a task in concurrent mode where one more batch may be in
/// flight, under the number after the next; otherwise the main loop processes them under the next.
/// The numbers are used up, a task's batch is counted where such batches are, and nothing else
/// changes.
pub proof fn law_what_a_bypass_does<T, R>(
    system: System<T, R>,
    config: AccumulatorConfig,
    items: Seq<T>,
    now: Moment,
    action: BypassAction<T>,
)
    requires
        system.is_bypass_action(config, items, now, action),
        system.acc.next_batch_id < u64::MAX - 1,
        one_more_in_flight(config, system.shared.inflight_count) <= usize::MAX,
    ensures
        ({
            let next = system.acc.next_batch_id as int;
            let after = system.after_bypass(config);
            let spawned = config.concurrency_mode is Concurrent && !no_more_in_flight(
                config,
                system.shared.inflight_count,
            );
            &&& action is Spawn <==> spawned
            &&& action matches BypassAction::Spawn(batch, guard) ==> {
                &&& bypasses(batch@, items, next + 1, now)
                &&& (guard.counted() <==> !(
                config.concurrency_mode matches ConcurrencyMode::Concurrent { max_inflight }
                    && max_inflight == 0))
            }
            &&& action matches BypassAction::Process(batch) ==> bypasses(batch@, items, next, now)
            &&& after.acc == (AccumulatorModel {
                next_batch_id: (next + if spawned {
                    2int
                } else {
                    1int
                }) as u64,
                ..system.acc
            })
            &&& after.shared == (SharedModel {
                inflight_count: if spawned {
                    one_more_in_flight(config, system.shared.inflight_count) as usize
                } else {
                    system.shared.inflight_count
                },
                ..system.shared
            })
        }),
{
}

/// Items that are handed to a task past the buffer get the next number, are counted where batches
/// in flight are, and leave everything else alone.
pub proof fn law_what_a_spawned_bypass_does<T, R>(
    system: System<T, R>,
    config: AccumulatorConfig,
    items: Seq<T>,
    now: Moment,
    action: BypassAction<T>,
)
    requires
        system.is_spawned_bypass(config, items, now, action),
        system.acc.next_batch_id < u64::MAX,
        one_more_in_flight(config, system.shared.inflight_count) <= usize::MAX,
    ensures
        action matches BypassAction::Spawn(batch, _) && bypasses(
            batch@,
            items,
            system.acc.next_batch_id as int,
            now,
        ),
        ({
            let after = system.numbered().in_flight(config);
            &&& after.acc == (AccumulatorModel {
                next_batch_id: (system.acc.next_batch_id + 1) as u64,
                ..system.acc
            })
            &&& after.shared == (SharedModel {
                inflight_count: one_more_in_flight(config, system.shared.inflight_count) as usize,
                ..system.shared
            })
        }),
{
}

/// As the accumulator shuts down, items that bypass the buffer get the next number; in serial mode
/// the main loop processes them, in concurrent mode a task, however many are in flight.
pub proof fn law_what_a_drained_bypass_does<T, R>(
    config: AccumulatorConfig,
    before: System<T, R>,
    items: Seq<T>,
    now: Moment,
    action: BypassAction<T>,
    after: System<T, R>,
)
    requires
        crate::accumulator::bypass_drained(config, before, items, now, action, after),
        before.acc.next_batch_id < u64::MAX,
        one_more_in_flight(config, before.shared.inflight_count) <= usize::MAX,
    ensures
        action is Spawn <==> config.concurrency_mode is Concurrent,
        match action {
            BypassAction::Process(batch) => bypasses(
                batch@,
                items,
                before.acc.next_batch_id as int,
                now,
            ),
            BypassAction::Spawn(batch, _) => bypasses(
                batch@,
                items,
                before.acc.next_batch_id as int,
                now,
            ),
        },
        after.acc == (AccumulatorModel {
            next_batch_id: (before.acc.next_batch_id + 1) as u64,
            ..before.acc
        }),
        after.shared == (SharedModel {
            inflight_count: one_more_in_flight(config, before.shared.inflight_count) as usize,
            ..before.shared
        }),
{
}

/// The phases of a shutdown: the items in the queue until there are none, then those that bypass
/// the buffer until there are none, then batches until nothing is buffered, then the tasks, then
/// their reports until there are none; and in each phase only what it looks for is found.
pub proof fn law_phases_of_a_shutdown<T, R>(buffered: nat, phase: Phase, found: Found<T, R>)
    ensures
        Phase::Items.next(true, buffered) == Phase::Items,
        Phase::Items.next(false, buffered) == Phase::Bypass,
        Phase::Bypass.next(true, buffered) == Phase::Bypass,
        Phase::Bypass.next(false, buffered) == Phase::LastBatch,
        buffered > 0 ==> Phase::LastBatch.next(false, buffered) == Phase::LastBatch,
        buffered == 0 ==> Phase::LastBatch.next(false, buffered) == Phase::Tasks,
        Phase::Tasks.next(false, buffered) == Phase::Reports,
        Phase::Reports.next(true, buffered) == Phase::Reports,
        Phase::Reports.next(false, buffered) == Phase::Done,
        Phase::Done.next(false, buffered) == Phase::Done,
        found.fits(phase) <==> match found {
            Found::Item(_) => phase is Items,
            Found::Bypass(_) => phase is Bypass,
            Found::Report(_) => phase is Reports,
            Found::Nothing => true,
        },
{
}

/// A flush goes on just where it makes a batch and leaves items behind: at the end of the window, at
/// a request, and as an item arrives.
pub proof fn law_when_a_flush_goes_on<T, R>(
    system: System<T, R>,
    config: AccumulatorConfig,
    trigger: FlushTrigger,
    now: Moment,
    action: FlushAction<T, R>,
    arrival: Arrival<T, R>,
    waited: Duration,
)
    requires
        system.is_action(config, trigger, now, action),
    ensures
        system.goes_on(config, trigger) <==> (action is Process || action is Spawn) && portion(
            config,
            system.acc.buffer.len(),
        ) < system.acc.buffer.len(),
        crate::accumulator::request_goes_on(config, system) <==> system.shared.flush_requested && (
        System {
            shared: SharedModel { flush_requested: false, ..system.shared },
            ..system
        }).goes_on(config, FlushTrigger::Request),
        crate::accumulator::item_goes_on(config, system, arrival, waited) <==> {
            let held = with_item(config, system, arrival, waited);
            &&& !overdue(arrival.item(), arrival.at())
            &&& enough(config, held.acc.buffer.len(), held.acc.current_weight as nat)
            &&& held.goes_on(config, FlushTrigger::Threshold)
        },
{
    let held = with_item(config, system, arrival, waited);
    let model = system.taking_in(config, arrival.item(), arrival.weight(), waited);
    assert(system.acc.buffer + seq![arrival.item()] =~= system.acc.buffer.push(arrival.item()));
    assert(system.acc.weights + seq![arrival.weight()] =~= system.acc.weights.push(
        arrival.weight(),
    ));
    assert(model.acc == held.acc);
    assert(model.shared == held.shared);
}

/// What holds at all times: the window lies in a range that has the first window in it, no more
/// items wait than may, at most a thousand timings of each kind are kept, each item has a weight,
/// and what is made known of the buffer is its length and, where weight is limited, its weight.
pub proof fn law_sound_systems<T, R>(system: System<T, R>, config: AccumulatorConfig)
    ensures
        system.sound(config) <==> {
            &&& duration_nanos(config.min_window) <= duration_nanos(config.initial_window)
            &&& duration_nanos(config.initial_window) <= duration_nanos(config.max_window)
            &&& duration_nanos(config.min_window) <= duration_nanos(system.shared.current_window)
            &&& duration_nanos(system.shared.current_window) <= duration_nanos(config.max_window)
            &&& system.shared.max_queue_depth == config.max_queue_depth
            &&& config.max_queue_depth matches Some(max) ==> system.shared.pending_count <= max
            &&& system.shared.stats.latencies.len() <= 1000
            &&& system.shared.stats.waits.len() <= 1000
            &&& system.acc.weights.len() == system.acc.buffer.len()
            &&& system.shared.buffer_size == system.acc.buffer.len()
            &&& config.max_batch_weight is Some ==> system.shared.tracked_weight
                == system.acc.current_weight
            &&& config.max_batch_weight is None ==> system.shared.tracked_weight == 0
        },
{
}

/// An accumulator starts with nothing buffered, no number used, no flush owed, and the moment of its
/// making as that of its latest flush and its timer.
pub proof fn law_accumulator_starts_empty<T, R>(now: Moment)
    ensures
        ({
            let acc = AccumulatorModel::<T, R>::initial(now);
            &&& acc.buffer.len() == 0
            &&& acc.weights.len() == 0
            &&& acc.current_weight == 0
            &&& acc.next_batch_id == 0
            &&& acc.last_flush == duration_nanos(now.since_start)
            &&& acc.deadline == duration_nanos(now.since_start)
            &&& !acc.flush_owed
        }),
{
}

} // verus!
