//! What the functions of the library give back and leave behind. Each law takes a call, with what
//! went in and what came out, and says what holds between the two.
use std::collections::VecDeque;
use std::time::Duration;

use vstd::prelude::*;

use crate::accumulator::{BatchAccumulator, Event, Found, Phase, Remainder, Response, Round};
use crate::batch::{Batch, FlushInfo, Priority, Reply, SubmitOptions};
use crate::channel::{ReplySender, ReplyState};
use crate::config::{AccumulatorConfig, ConcurrencyMode};
use crate::controller::{BackoffController, BackoffStep, UtilizationBand};
use crate::effects::{enough, follows, goes_off_after, knows_its_weight, no_more_in_flight};
use crate::effects::{one_more_in_flight, portion, sum_of};
use crate::error::AccumulatorError;
use crate::flush::{Adjustment, BypassAction, FlushAction, FlushTicket, FlushTrigger, ItemFate};
use crate::flush::{Recorded, WindowChange};
use crate::handle::{AccumulatorHandle, Attempt};
use crate::item::{Arrival, ChannelItem};
use crate::metrics::{DefaultMetrics, MetricsSnapshot};
use crate::shared::{InflightGuard, SharedModel, SharedState};
use crate::stats::{AccumulatorHealth, AccumulatorStats, Ratio, StatsModel, StatsSnapshot};
use crate::submission::place_free;
use crate::system::System;
use crate::time::{duration_nanos, Moment};
use crate::trace::{Level, TraceLevel};
use crate::vocabulary::{number_read, overdue};

verus! {

/// Once the main loop has finished a batch, the current window is the controller's answer where it
/// lies in the range of the configuration, and the nearer end of the range otherwise; the timer is
/// set for it, and one more batch has been flushed.
pub proof fn law_finishing_follows_the_controller<T, R, P, M, C, F>(
    acc: &mut BatchAccumulator<T, R, P, M, C, F>,
    shared: &mut SharedState,
    adjustment: Adjustment,
    now: Moment,
    change: WindowChange,
)
    requires
        call_ensures(
            BatchAccumulator::<T, R, P, M, C, F>::finish_serial,
            (acc, shared, adjustment, now),
            change,
        ),
    ensures
        follows(
            old(acc).spec_config(),
            adjustment.spec_change().proposed,
            final(shared)@.current_window,
        ),
        goes_off_after(
            final(acc)@.deadline,
            now,
            duration_nanos(final(shared)@.current_window),
        ),
        final(acc)@.last_flush == duration_nanos(now.since_start),
        final(shared)@.stats.flushed == (old(shared)@.stats.flushed + 1) % 0x1_0000_0000_0000_0000,
        final(shared)@.stats.latencies.last() == adjustment.info().execution_time,
        final(acc)@.buffer == old(acc)@.buffer,
        final(shared)@.pending_count == old(shared)@.pending_count,
        final(shared)@.inflight_count == old(shared)@.inflight_count,
        change.before == old(shared)@.current_window,
        change.after == final(shared)@.current_window,
{
}

/// Once a task's report has been taken in, the current window is the controller's answer where it
/// lies in the range of the configuration, and the nearer end of the range otherwise; one more batch
/// has been flushed, and a flush is asked for where items have gathered and nothing is paused.
pub proof fn law_feedback_follows_the_controller<T, R, P, M, C, F>(
    acc: &mut BatchAccumulator<T, R, P, M, C, F>,
    shared: &mut SharedState,
    adjustment: Adjustment,
    now: Moment,
    change: WindowChange,
)
    requires
        call_ensures(
            BatchAccumulator::<T, R, P, M, C, F>::handle_feedback,
            (acc, shared, adjustment, now),
            change,
        ),
    ensures
        follows(
            old(acc).spec_config(),
            adjustment.spec_change().proposed,
            final(shared)@.current_window,
        ),
        final(acc)@.deadline == old(acc)@.deadline,
        final(acc)@.last_flush == duration_nanos(now.since_start),
        final(shared)@.stats.flushed == (old(shared)@.stats.flushed + 1) % 0x1_0000_0000_0000_0000,
        final(shared)@.stats.latencies.last() == adjustment.info().execution_time,
        final(shared)@.flush_requested <==> old(shared)@.flush_requested || (
        old(acc)@.buffer.len() > 0 && !old(shared)@.paused),
        final(acc)@.buffer == old(acc)@.buffer,
        final(shared)@.pending_count == old(shared)@.pending_count,
        final(shared)@.inflight_count == old(shared)@.inflight_count,
        change.before == old(shared)@.current_window,
        change.after == final(shared)@.current_window,
{
}

/// Counting a finished batch leaves the window, the timer and the buffer alone.
pub proof fn law_completion_is_counted<T, R, P, M, C, F>(
    acc: &mut BatchAccumulator<T, R, P, M, C, F>,
    shared: &mut SharedState,
    recorded: Recorded,
    now: Moment,
)
    requires
        call_ensures(
            BatchAccumulator::<T, R, P, M, C, F>::record_completion,
            (acc, shared, recorded, now),
            (),
        ),
    ensures
        final(shared)@.stats.flushed == (old(shared)@.stats.flushed + 1) % 0x1_0000_0000_0000_0000,
        final(shared)@.stats.latencies.last() == recorded.info().execution_time,
        final(shared)@.current_window == old(shared)@.current_window,
        final(acc)@.last_flush == duration_nanos(now.since_start),
        final(acc)@.deadline == old(acc)@.deadline,
        final(acc)@.buffer == old(acc)@.buffer,
{
}

/// Whether an answer to a flush is the right one for a system in which it was brought about.
pub open spec fn right_answer<T, R>(
    config: AccumulatorConfig,
    before: System<T, R>,
    asked: bool,
    action: FlushAction<T, R>,
) -> bool {
    let nothing = before.acc.buffer.len() == 0 && (before.shared.paused
        || !config.flush_empty_batches);
    let held = before.shared.paused && !asked;
    let full = no_more_in_flight(config, before.shared.inflight_count);
    &&& action is Skipped <==> nothing
    &&& action is Held <==> !nothing && held
    &&& action is Saturated <==> !nothing && !held && full
    &&& action is Process <==> !nothing && !held && config.concurrency_mode is Serial
    &&& action is Spawn <==> !nothing && !held && !full && config.concurrency_mode is Concurrent
    &&& batch_of(action) matches Some(items) ==> {
        let n = portion(config, before.acc.buffer.len());
        &&& items.len() == n
        &&& forall|i: int| 0 <= i < n ==> #[trigger] items[i] == before.acc.buffer[i].value
    }
}

/// The items of the batch that an action comes with, where there is one.
pub open spec fn batch_of<T, R>(action: FlushAction<T, R>) -> Option<Seq<T>> {
    match action {
        FlushAction::Process(job) => Some(job.batch@.items),
        FlushAction::Spawn(job, _) => Some(job.batch@.items),
        _ => None,
    }
}

/// A flush gives the right answer: in concurrent mode a batch goes to a task and in serial mode to
/// the main loop, each batch is the front of the buffer, and none is made where nothing is to be
/// flushed, where the accumulator is paused and nobody asked, or where no more may be in flight.
/// What goes into the batch is no longer buffered, and the rest stays.
pub proof fn law_flush_gives_the_right_answer<T, R, P, M, C, F>(
    acc: &mut BatchAccumulator<T, R, P, M, C, F>,
    shared: &mut SharedState,
    trigger: FlushTrigger,
    now: Moment,
    action: FlushAction<T, R>,
)
    requires
        call_ensures(
            BatchAccumulator::<T, R, P, M, C, F>::flush_batch,
            (acc, shared, trigger, now),
            action,
        ),
        old(acc)@.next_batch_id < u64::MAX,
        old(acc)@.buffer.len() <= usize::MAX,
    ensures
        ({
            let config = old(acc).spec_config();
            let before = System { acc: old(acc)@, shared: old(shared)@ };
            let asked = trigger is Request || (trigger is Timer && old(acc)@.flush_owed);
            let n = portion(config, old(acc)@.buffer.len()) as int;
            &&& right_answer(config, before, asked, action)
            &&& batch_of(action) is Some ==> final(acc)@.buffer == old(acc)@.buffer.skip(n)
            &&& batch_of(action) is None ==> final(acc)@.buffer == old(acc)@.buffer
            &&& final(shared)@.current_window == old(shared)@.current_window
            &&& final(shared)@.stats == old(shared)@.stats
            &&& final(shared)@.pending_count == old(shared)@.pending_count
            &&& action is Spawn ==> final(shared)@.inflight_count == one_more_in_flight(
                config,
                old(shared)@.inflight_count,
            )
            &&& !(action is Spawn) ==> final(shared)@.inflight_count == old(shared)@.inflight_count
        }),
{
    let config = old(acc).spec_config();
    let before = System { acc: old(acc)@, shared: old(shared)@ };
    crate::effects::law_answer_to_a_flush(before, config, trigger, now, action);
    crate::effects::law_what_a_flush_changes(before, config, trigger, now, action);
    lemma_batch_is_the_front(before, config, trigger, now, action);
}

/// The batch of an action is the front of the buffer.
proof fn lemma_batch_is_the_front<T, R>(
    before: System<T, R>,
    config: AccumulatorConfig,
    trigger: FlushTrigger,
    now: Moment,
    action: FlushAction<T, R>,
)
    requires
        before.is_action(config, trigger, now, action),
    ensures
        batch_of(action) matches Some(items) ==> {
            let n = portion(config, before.acc.buffer.len());
            &&& items.len() == n
            &&& forall|i: int| 0 <= i < n ==> #[trigger] items[i] == before.acc.buffer[i].value
        },
{
    match action {
        FlushAction::Process(job) => {
            crate::effects::law_batch_is_the_front_of_the_buffer(before, config, now, job);
        },
        FlushAction::Spawn(job, _) => {
            crate::effects::law_batch_is_the_front_of_the_buffer(before, config, now, job);
        },
        _ => {},
    }
}

/// At the end of the window the right answer is given as well, and the timer is set again: for the
/// window, for ten milliseconds where no more batches may be in flight, and not yet where the main
/// loop processes the batch.
pub proof fn law_window_ends<T, R, P, M, C, F>(
    acc: &mut BatchAccumulator<T, R, P, M, C, F>,
    shared: &mut SharedState,
    now: Moment,
    action: FlushAction<T, R>,
)
    requires
        call_ensures(
            BatchAccumulator::<T, R, P, M, C, F>::on_timer,
            (acc, shared, now),
            action,
        ),
    ensures
        right_answer(
            old(acc).spec_config(),
            System { acc: old(acc)@, shared: old(shared)@ },
            old(acc)@.flush_owed,
            action,
        ),
        action is Saturated ==> goes_off_after(final(acc)@.deadline, now, 10_000_000),
        action is Process ==> final(acc)@.deadline == old(acc)@.deadline,
        action is Skipped || action is Held || action is Spawn ==> goes_off_after(
            final(acc)@.deadline,
            now,
            duration_nanos(old(shared)@.current_window),
        ),
{
    let config = old(acc).spec_config();
    let before = System { acc: old(acc)@, shared: old(shared)@ };
    crate::effects::law_answer_to_a_flush(before, config, FlushTrigger::Timer, now, action);
    crate::effects::law_timer_is_set_again(before, config, FlushTrigger::Timer, now, action);
    lemma_batch_is_the_front(before, config, FlushTrigger::Timer, now, action);
}

/// A request is met just where there is one, whether the accumulator is paused or not.
pub proof fn law_request_is_met<T, R, P, M, C, F>(
    acc: &mut BatchAccumulator<T, R, P, M, C, F>,
    shared: &mut SharedState,
    now: Moment,
    action: FlushAction<T, R>,
)
    requires
        call_ensures(
            BatchAccumulator::<T, R, P, M, C, F>::on_flush_request,
            (acc, shared, now),
            action,
        ),
    ensures
        !old(shared)@.flush_requested ==> {
            &&& action is Skipped
            &&& final(acc)@ == old(acc)@
            &&& final(shared)@ == old(shared)@
        },
        old(shared)@.flush_requested ==> right_answer(
            old(acc).spec_config(),
            System { acc: old(acc)@, shared: old(shared)@ },
            true,
            action,
        ),
{
    let config = old(acc).spec_config();
    let before = System { acc: old(acc)@, shared: old(shared)@ };
    let met = before.request_taken();
    if old(shared)@.flush_requested {
        crate::effects::law_answer_to_a_flush(met, config, FlushTrigger::Request, now, action);
        lemma_batch_is_the_front(met, config, FlushTrigger::Request, now, action);
    }
}

/// A buffer is to be flushed at once just where its items are as many, or together as heavy, as the
/// configuration says.
pub proof fn law_should_flush_by_size_or_weight<T, R, P, M, C, F>(
    acc: BatchAccumulator<T, R, P, M, C, F>,
    yes: bool,
)
    requires
        call_ensures(BatchAccumulator::<T, R, P, M, C, F>::should_flush, (&acc,), yes),
    ensures
        yes <==> enough(acc.spec_config(), acc@.buffer.len(), acc@.current_weight as nat),
{
}

/// A sweep of the buffer drops just the items that are overdue: none of them is left, all others
/// stay in their order, the drops are counted, and those who wait for dropped items are told of the
/// timeout, each once and in order.
pub proof fn law_sweep_drops_the_overdue<T, R, P, M, C, F>(
    acc: &mut BatchAccumulator<T, R, P, M, C, F>,
    shared: &mut SharedState,
    now: Moment,
    replies: Vec<Reply<R>>,
)
    requires
        call_ensures(
            BatchAccumulator::<T, R, P, M, C, F>::drain_expired,
            (acc, shared, now),
            replies,
        ),
        old(acc)@.buffer.len() <= usize::MAX,
    ensures
        ({
            let gone = old(acc)@.buffer.filter(|item: ChannelItem<T, R>| overdue(item, now));
            &&& final(acc)@.buffer == old(acc)@.buffer.filter(
                |item: ChannelItem<T, R>| !overdue(item, now),
            )
            &&& forall|i: int|
                0 <= i < final(acc)@.buffer.len() ==> !overdue(#[trigger] final(acc)@.buffer[i], now)
            &&& final(shared)@.stats.dropped_timeout == (old(shared)@.stats.dropped_timeout
                + gone.len()) % 0x1_0000_0000_0000_0000
            &&& final(shared)@.buffer_size == final(acc)@.buffer.len()
            &&& knows_its_weight(old(acc)@) ==> knows_its_weight(final(acc)@)
            &&& replies@ == gone.filter(
                |item: ChannelItem<T, R>| item.reply is Some,
            ).map_values(
                |item: ChannelItem<T, R>|
                    Reply { sender: item.reply->0, result: Err(AccumulatorError::Timeout) },
            )
        }),
{
    let before = System { acc: old(acc)@, shared: old(shared)@ };
    crate::effects::law_overdue_items_leave_the_buffer(before, old(acc).spec_config(), now);
    crate::vocabulary::law_timed_out_items_are_the_overdue(old(acc)@.buffer, now);
    crate::vocabulary::law_timeouts_go_to_the_waiters(
        old(acc)@.buffer.filter(|item: ChannelItem<T, R>| overdue(item, now)),
    );
}

/// An item that comes out of the queue is dropped just if it is overdue, whatever its urgency, and
/// is buffered otherwise; a place in the queue is free again. Where the buffered items are then as
/// many or as heavy as the configuration says, nothing is paused and one more batch may be in
/// flight, a batch is made at once; and where they are not, none is.
pub proof fn law_item_comes_in<T, R, P, M, C, F>(
    acc: &mut BatchAccumulator<T, R, P, M, C, F>,
    shared: &mut SharedState,
    arrival: Arrival<T, R>,
    out: (Duration, ItemFate<T, R>),
)
    requires
        call_ensures(
            BatchAccumulator::<T, R, P, M, C, F>::receive,
            (acc, shared, arrival),
            out,
        ),
        old(shared)@.pending_count > 0,
        knows_its_weight(old(acc)@),
        sum_of(old(acc)@.weights) + arrival.weight() <= usize::MAX,
    ensures
        out.1 is Expired <==> overdue(arrival.item(), arrival.at()),
        out.1 is Expired ==> {
            &&& final(acc)@.buffer == old(acc)@.buffer
            &&& final(shared)@.stats.dropped_timeout == (old(shared)@.stats.dropped_timeout + 1)
                % 0x1_0000_0000_0000_0000
            &&& final(shared)@.pending_count == old(shared)@.pending_count - 1
        },
        !overdue(arrival.item(), arrival.at()) && !old(shared)@.paused && !no_more_in_flight(
            old(acc).spec_config(),
            old(shared)@.inflight_count,
        ) ==> {
            let makes_batch = out.1 matches ItemFate::Buffered { flush: Some(action), .. } && (
            action is Process || action is Spawn);
            makes_batch <==> enough(
                old(acc).spec_config(),
                old(acc)@.buffer.len() + 1,
                sum_of(old(acc)@.weights) + arrival.weight() as nat,
            )
        },
        crate::channel::woken(old(acc).wiring().queue_notify),
{
    let config = old(acc).spec_config();
    let before = System { acc: old(acc)@, shared: old(shared)@ };
    let after = System { acc: final(acc)@, shared: final(shared)@ };
    crate::effects::law_overdue_item_is_dropped_on_arrival(
        config,
        before,
        arrival,
        out.0,
        out.1,
        after,
    );
    if !overdue(arrival.item(), arrival.at()) && !before.shared.paused && !no_more_in_flight(
        config,
        before.shared.inflight_count,
    ) {
        crate::effects::law_reaching_a_limit_flushes_at_once(
            config,
            before,
            arrival,
            out.0,
            out.1,
            after,
        );
    }
}

/// As the accumulator shuts down, an item is dropped just if it is overdue, and makes a batch just
/// where the items are then as many or as heavy as the configuration says.
pub proof fn law_item_comes_in_at_shutdown<T, R, P, M, C, F>(
    acc: &mut BatchAccumulator<T, R, P, M, C, F>,
    shared: &mut SharedState,
    arrival: Arrival<T, R>,
    fate: ItemFate<T, R>,
)
    requires
        call_ensures(
            BatchAccumulator::<T, R, P, M, C, F>::receive_draining,
            (acc, shared, arrival),
            fate,
        ),
        knows_its_weight(old(acc)@),
        sum_of(old(acc)@.weights) + arrival.weight() <= usize::MAX,
    ensures
        fate is Expired <==> overdue(arrival.item(), arrival.at()),
        fate is Expired ==> final(acc)@.buffer == old(acc)@.buffer,
        fate matches ItemFate::Buffered { flush, .. } ==> (flush is Some <==> enough(
            old(acc).spec_config(),
            old(acc)@.buffer.len() + 1,
            sum_of(old(acc)@.weights) + arrival.weight() as nat,
        )),
        fate matches ItemFate::Buffered { flush: Some(action), .. } ==> {
            &&& old(acc).spec_config().concurrency_mode is Serial ==> action is Process
            &&& old(acc).spec_config().concurrency_mode is Concurrent ==> action is Spawn
        },
{
    let before = System { acc: old(acc)@, shared: old(shared)@ };
    let after = System { acc: final(acc)@, shared: final(shared)@ };
    crate::effects::law_item_that_is_drained(
        old(acc).spec_config(),
        before,
        arrival,
        fate,
        after,
    );
}

/// The last flush makes a batch of the front of the buffer as long as anything is buffered, and an
/// empty one just where that is wanted; in serial mode for the main loop, in concurrent mode for a
/// task.
pub proof fn law_last_flush_empties_the_buffer<T, R, P, M, C, F>(
    acc: &mut BatchAccumulator<T, R, P, M, C, F>,
    shared: &mut SharedState,
    now: Moment,
    action: FlushAction<T, R>,
)
    requires
        call_ensures(
            BatchAccumulator::<T, R, P, M, C, F>::final_flush,
            (acc, shared, now),
            action,
        ),
    ensures
        ({
            let config = old(acc).spec_config();
            let wanted = old(acc)@.buffer.len() > 0 || config.flush_empty_batches;
            let n = portion(config, old(acc)@.buffer.len()) as int;
            &&& action is Skipped <==> !wanted
            &&& action is Process <==> wanted && config.concurrency_mode is Serial
            &&& action is Spawn <==> wanted && config.concurrency_mode is Concurrent
            &&& wanted ==> final(acc)@.buffer == old(acc)@.buffer.skip(n)
            &&& batch_of(action) matches Some(items) ==> items.len() == n
            &&& !wanted ==> final(acc)@ == old(acc)@ && final(shared)@ == old(shared)@
        }),
{
    let config = old(acc).spec_config();
    let before = System { acc: old(acc)@, shared: old(shared)@ };
    match action {
        FlushAction::Process(job) => {
            crate::effects::law_batch_is_the_front_of_the_buffer(before, config, now, job);
        },
        FlushAction::Spawn(job, _) => {
            crate::effects::law_batch_is_the_front_of_the_buffer(before, config, now, job);
        },
        _ => {},
    }
}

/// Items that bypass the buffer are processed as they are, and leave the buffer, the statistics, the
/// window and the timer alone; in concurrent mode a task gets them where one more batch may be in
/// flight, and the main loop otherwise.
pub proof fn law_bypass_is_processed_as_it_is<T, R, P, M, C, F>(
    acc: &mut BatchAccumulator<T, R, P, M, C, F>,
    shared: &mut SharedState,
    items: Vec<T>,
    now: Moment,
    action: BypassAction<T>,
)
    requires
        call_ensures(
            BatchAccumulator::<T, R, P, M, C, F>::process_bypass,
            (acc, shared, items, now),
            action,
        ),
    ensures
        match action {
            BypassAction::Process(batch) => batch@.items == items@ && batch@.batch_id
                == old(acc)@.next_batch_id,
            BypassAction::Spawn(batch, _) => batch@.items == items@,
        },
        action is Spawn <==> old(acc).spec_config().concurrency_mode is Concurrent
            && !no_more_in_flight(old(acc).spec_config(), old(shared)@.inflight_count),
        final(acc)@.buffer == old(acc)@.buffer,
        final(acc)@.deadline == old(acc)@.deadline,
        final(shared)@.stats == old(shared)@.stats,
        final(shared)@.current_window == old(shared)@.current_window,
        final(shared)@.pending_count == old(shared)@.pending_count,
{
}

/// As the accumulator shuts down, items that bypass the buffer are processed as they are too.
pub proof fn law_bypass_at_shutdown<T, R, P, M, C, F>(
    acc: &mut BatchAccumulator<T, R, P, M, C, F>,
    shared: &mut SharedState,
    items: Vec<T>,
    now: Moment,
    action: BypassAction<T>,
)
    requires
        call_ensures(
            BatchAccumulator::<T, R, P, M, C, F>::drain_bypass,
            (acc, shared, items, now),
            action,
        ),
    ensures
        match action {
            BypassAction::Process(batch) => batch@.items == items@,
            BypassAction::Spawn(batch, _) => batch@.items == items@,
        },
        action is Spawn <==> old(acc).spec_config().concurrency_mode is Concurrent,
        final(acc)@.buffer == old(acc)@.buffer,
        final(shared)@.stats == old(shared)@.stats,
{
}

/// A round stops just where the accumulator has been told to shut down.
pub proof fn law_round_stops_when_cancelled<T, R, P, M, C, F>(
    acc: &mut BatchAccumulator<T, R, P, M, C, F>,
    shared: SharedState,
    round: Round,
)
    requires
        call_ensures(
            BatchAccumulator::<T, R, P, M, C, F>::begin_round,
            (acc, &shared),
            round,
        ),
    ensures
        round is Stop <==> shared@.cancelled,
        final(acc)@ == old(acc)@,
{
}

/// A step of the shutdown moves on just where nothing more was found for its phase, and from that
/// of the last batches only once nothing is buffered.
pub proof fn law_shutdown_moves_on<T, R, P, M, C, F>(
    acc: &mut BatchAccumulator<T, R, P, M, C, F>,
    shared: &mut SharedState,
    phase: Phase,
    found: Found<T, R>,
    now: Moment,
    out: (Remainder<T, R>, Phase),
)
    requires
        call_ensures(
            BatchAccumulator::<T, R, P, M, C, F>::drain_step,
            (acc, shared, phase, found, now),
            out,
        ),
    ensures
        phase is Items ==> out.1 == if found is Nothing {
            Phase::Bypass
        } else {
            Phase::Items
        },
        phase is Bypass ==> out.1 == if found is Nothing {
            Phase::LastBatch
        } else {
            Phase::Bypass
        },
        phase is LastBatch ==> out.1 == if final(acc)@.buffer.len() > 0 {
            Phase::LastBatch
        } else {
            Phase::Tasks
        },
        phase is Tasks ==> out.1 == Phase::Reports,
        phase is Reports ==> out.1 == if found is Nothing {
            Phase::Done
        } else {
            Phase::Reports
        },
        phase is Done ==> out.1 == Phase::Done,
        phase is LastBatch && found is Nothing && old(acc)@.buffer.len() > 0 ==> {
            &&& out.0 is Flush
            &&& final(acc)@.buffer.len() < old(acc)@.buffer.len()
        },
        found matches Found::Report(adjustment) ==> follows(
            old(acc).spec_config(),
            adjustment.spec_change().proposed,
            final(shared)@.current_window,
        ),
{
}

/// What happens is answered in kind: the timer and requests with a flush, a report with the window
/// that follows the controller, an item with its fate, and the end of the queue with a stop.
pub proof fn law_events_are_answered_in_kind<T, R, P, M, C, F>(
    acc: &mut BatchAccumulator<T, R, P, M, C, F>,
    shared: &mut SharedState,
    event: Event<T, R>,
    now: Moment,
    response: Response<T, R>,
)
    requires
        call_ensures(
            BatchAccumulator::<T, R, P, M, C, F>::on_event,
            (acc, shared, event, now),
            response,
        ),
        old(shared)@.pending_count > 0,
    ensures
        event is Timer || event is FlushRequest ==> response is Flush,
        event matches Event::Feedback(adjustment) ==> response is Window && follows(
            old(acc).spec_config(),
            adjustment.spec_change().proposed,
            final(shared)@.current_window,
        ),
        event matches Event::Item(arrival) ==> {
            &&& response matches Response::Item(_, fate)
            &&& fate is Expired <==> overdue(arrival.item(), arrival.at())
        },
        event is Closed ==> response is Stop && final(acc)@ == old(acc)@,
        event matches Event::Timer ==> (response matches Response::Flush(action) && right_answer(
            old(acc).spec_config(),
            System { acc: old(acc)@, shared: old(shared)@ },
            old(acc)@.flush_owed,
            action,
        )),
{
    let config = old(acc).spec_config();
    let before = System { acc: old(acc)@, shared: old(shared)@ };
    let after = System { acc: final(acc)@, shared: final(shared)@ };
    match (event, response) {
        (Event::Timer, Response::Flush(action)) => {
            crate::effects::law_answer_to_a_flush(before, config, FlushTrigger::Timer, now, action);
            lemma_batch_is_the_front(before, config, FlushTrigger::Timer, now, action);
        },
        (Event::Item(arrival), Response::Item(waited, fate)) => {
            crate::effects::law_overdue_item_is_dropped_on_arrival(
                config,
                before,
                arrival,
                waited,
                fate,
                after,
            );
        },
        _ => {},
    }
}

/// What remains at a shutdown, what is buffered, which number is next and when the timer goes off
/// are as they are; and the first timer goes off after the window.
pub proof fn law_accumulator_tells_its_state<T, R, P, M, C, F>(
    acc: BatchAccumulator<T, R, P, M, C, F>,
    shared: SharedState,
    remaining: usize,
    buffered: usize,
    next: u64,
)
    requires
        call_ensures(
            BatchAccumulator::<T, R, P, M, C, F>::remaining,
            (&acc, &shared),
            remaining,
        ),
        call_ensures(BatchAccumulator::<T, R, P, M, C, F>::buffered_len, (&acc,), buffered),
        call_ensures(BatchAccumulator::<T, R, P, M, C, F>::next_batch_id, (&acc,), next),
    ensures
        shared@.pending_count + acc@.buffer.len() <= usize::MAX ==> remaining
            == shared@.pending_count + acc@.buffer.len(),
        buffered == acc@.buffer.len(),
        next == acc@.next_batch_id,
{
}

/// As the main loop starts, the timer is set for the current window.
pub proof fn law_start_sets_the_timer<T, R, P, M, C, F>(
    acc: &mut BatchAccumulator<T, R, P, M, C, F>,
    shared: SharedState,
    now: Moment,
)
    requires
        call_ensures(BatchAccumulator::<T, R, P, M, C, F>::start, (acc, &shared, now), ()),
    ensures
        goes_off_after(final(acc)@.deadline, now, duration_nanos(shared@.current_window)),
        final(acc)@.buffer == old(acc)@.buffer,
{
}

/// An item has timed out just if it has a deadline that has been reached, whatever its urgency.
pub proof fn law_is_expired_by_deadline<T, R>(item: ChannelItem<T, R>, now: Moment, yes: bool)
    requires
        call_ensures(ChannelItem::<T, R>::is_expired, (&item, now), yes),
    ensures
        yes <==> overdue(item, now),
{
}

/// What is recorded moves the counters: each by as many as were recorded, and none of the others.
pub proof fn law_recording_moves_the_counters(
    stats: &mut AccumulatorStats,
    count: u64,
    time: Duration,
)
    ensures
        call_ensures(AccumulatorStats::record_dropped_timeout, (stats, count), ()) ==> {
            &&& final(stats)@.dropped_timeout == (old(stats)@.dropped_timeout + count)
                % 0x1_0000_0000_0000_0000
            &&& final(stats)@ == (StatsModel {
                dropped_timeout: final(stats)@.dropped_timeout,
                ..old(stats)@
            })
        },
        call_ensures(AccumulatorStats::record_submit, (stats,), ()) ==> {
            &&& final(stats)@.submitted == (old(stats)@.submitted + 1) % 0x1_0000_0000_0000_0000
            &&& final(stats)@ == (StatsModel { submitted: final(stats)@.submitted, ..old(stats)@ })
        },
        call_ensures(AccumulatorStats::record_bypass, (stats,), ()) ==> {
            &&& final(stats)@.bypassed == (old(stats)@.bypassed + 1) % 0x1_0000_0000_0000_0000
            &&& final(stats)@ == (StatsModel { bypassed: final(stats)@.bypassed, ..old(stats)@ })
        },
        call_ensures(AccumulatorStats::record_rejected, (stats,), ()) ==> {
            &&& final(stats)@.rejected == (old(stats)@.rejected + 1) % 0x1_0000_0000_0000_0000
            &&& final(stats)@ == (StatsModel { rejected: final(stats)@.rejected, ..old(stats)@ })
        },
        call_ensures(AccumulatorStats::record_flush, (stats, time), ()) ==> {
            &&& final(stats)@.flushed == (old(stats)@.flushed + 1) % 0x1_0000_0000_0000_0000
            &&& final(stats)@.latencies.last() == time
            &&& old(stats)@.latencies.len() < 1000 ==> final(stats)@.latencies
                == old(stats)@.latencies.push(time)
            &&& old(stats)@.latencies.len() >= 1000 ==> final(stats)@.latencies
                == old(stats)@.latencies.skip(1).push(time)
            &&& final(stats)@ == (StatsModel {
                flushed: final(stats)@.flushed,
                latencies: final(stats)@.latencies,
                ..old(stats)@
            })
        },
        call_ensures(AccumulatorStats::record_wait, (stats, time), ()) ==> {
            &&& old(stats)@.waits.len() < 1000 ==> final(stats)@.waits == old(stats)@.waits.push(
                time,
            )
            &&& old(stats)@.waits.len() >= 1000 ==> final(stats)@.waits == old(stats)@.waits.skip(
                1,
            ).push(time)
            &&& final(stats)@ == (StatsModel { waits: final(stats)@.waits, ..old(stats)@ })
        },
{
}

/// The statistics that a handle shows are those of the shared state.
pub proof fn law_handle_shows_the_statistics<T, R>(
    handle: AccumulatorHandle<T, R>,
    shared: SharedState,
    shown: StatsSnapshot,
)
    requires
        call_ensures(AccumulatorHandle::<T, R>::stats, (&handle, &shared), shown),
    ensures
        shown.total_submitted == shared@.stats.submitted,
        shown.total_flushed == shared@.stats.flushed,
        shown.total_dropped_timeout == shared@.stats.dropped_timeout,
        shown.total_bypassed == shared@.stats.bypassed,
        shown.total_rejected == shared@.stats.rejected,
        shown.queue_depth == shared@.pending_count,
        shown.buffer_size == shared@.buffer_size,
        shown.inflight_count == shared@.inflight_count,
        shown.current_weight == shared@.tracked_weight,
        shown.current_window == shared@.current_window,
        crate::stats::is_percentile(shared@.stats.latencies, 50, shown.p50_latency),
        crate::stats::is_percentile(shared@.stats.latencies, 99, shown.p99_latency),
        crate::stats::is_percentile(shared@.stats.latencies, 100, shown.max_latency),
        crate::stats::is_percentile(shared@.stats.waits, 50, shown.p50_queue_wait),
        crate::stats::is_percentile(shared@.stats.waits, 99, shown.p99_queue_wait),
        duration_nanos(shown.avg_latency) == crate::stats::mean_nanos(shared@.stats.latencies),
        duration_nanos(shown.avg_queue_wait) == crate::stats::mean_nanos(shared@.stats.waits),
{
}

/// The health that a handle shows is that of the shared state: how many of the places are taken,
/// the window, the batches in flight and the items that were turned away.
pub proof fn law_handle_shows_the_health<T, R>(
    handle: AccumulatorHandle<T, R>,
    shared: SharedState,
    health: AccumulatorHealth,
    max: usize,
)
    requires
        call_ensures(AccumulatorHandle::<T, R>::health, (&handle, &shared), health),
    ensures
        health.current_window == shared@.current_window,
        health.inflight_count == shared@.inflight_count,
        health.total_rejected == shared@.stats.rejected,
        shared@.max_queue_depth is None ==> health.queue_utilization.numerator == 0,
        shared@.max_queue_depth == Some(max) && max > 0 ==> health.queue_utilization == (Ratio {
            numerator: shared@.pending_count,
            denominator: max,
        }),
{
}

/// Pausing, resuming, cancelling and asking for a flush set just what they are named after; resuming
/// and cancelling ask for a flush too, and all but pausing wake the main loop.
pub proof fn law_controls_set_what_they_are_named_after<T, R>(
    handle: AccumulatorHandle<T, R>,
    shared: &mut SharedState,
)
    ensures
        call_ensures(AccumulatorHandle::<T, R>::pause, (&handle, shared), ()) ==> final(shared)@
            == (SharedModel { paused: true, ..old(shared)@ }),
        call_ensures(AccumulatorHandle::<T, R>::resume, (&handle, shared), ()) ==> final(shared)@
            == (SharedModel { paused: false, flush_requested: true, ..old(shared)@ })
            && crate::channel::woken(handle.flush_notify),
        call_ensures(AccumulatorHandle::<T, R>::cancel, (&handle, shared), ()) ==> final(shared)@
            == (SharedModel { cancelled: true, flush_requested: true, ..old(shared)@ })
            && crate::channel::woken(handle.flush_notify),
        call_ensures(AccumulatorHandle::<T, R>::flush_now, (&handle, shared), ())
            ==> final(shared)@ == (SharedModel { flush_requested: true, ..old(shared)@ })
            && crate::channel::woken(handle.flush_notify),
{
}

/// A handle tells how many items wait, and whether the accumulator is paused.
pub proof fn law_handle_tells_the_state<T, R>(
    handle: AccumulatorHandle<T, R>,
    shared: SharedState,
    count: usize,
    paused: bool,
)
    ensures
        call_ensures(AccumulatorHandle::<T, R>::pending_count, (&handle, &shared), count) ==> count
            == shared@.pending_count,
        call_ensures(AccumulatorHandle::<T, R>::is_paused, (&handle, &shared), paused) ==> paused
            == shared@.paused,
{
}

/// Sending an item is refused as full just where the queue has no place, and is counted as a
/// submission just where it succeeds.
pub proof fn law_sending_is_refused_when_full<T, R>(
    handle: AccumulatorHandle<T, R>,
    shared: &mut SharedState,
    item: T,
    result: Result<(), AccumulatorError>,
)
    requires
        call_ensures(AccumulatorHandle::<T, R>::send, (&handle, shared, item), result),
        old(shared)@.pending_count < usize::MAX,
    ensures
        (result matches Err(error) && error is QueueFull) <==> !place_free(old(shared)@),
        result is Ok ==> {
            &&& handle.handed_over(item, None, None, Priority::Normal, true)
            &&& final(shared)@.pending_count == old(shared)@.pending_count + 1
            &&& final(shared)@.stats.submitted == (old(shared)@.stats.submitted + 1)
                % 0x1_0000_0000_0000_0000
        },
        result is Err ==> final(shared)@.pending_count == old(shared)@.pending_count
            && final(shared)@.stats.submitted == old(shared)@.stats.submitted,
        !place_free(old(shared)@) ==> final(shared)@.stats.rejected == (
        old(shared)@.stats.rejected + 1) % 0x1_0000_0000_0000_0000,
{
}

/// Submitting an item with options hands it over with just its urgency, and with a deadline just
/// where it has a time to live.
pub proof fn law_options_go_with_the_item<T, R>(
    handle: AccumulatorHandle<T, R>,
    shared: &mut SharedState,
    item: T,
    opts: SubmitOptions,
    result: Result<crate::batch::ReplyHandle<R>, AccumulatorError>,
)
    requires
        call_ensures(
            AccumulatorHandle::<T, R>::submit_with,
            (&handle, shared, item, opts),
            result,
        ),
    ensures
        result is Ok ==> exists|deadline: Option<Moment>, reply: ReplySender<R>|
            {
                &&& #[trigger] handle.handed_over(
                    item,
                    deadline,
                    Some(reply),
                    opts.priority,
                    true,
                )
                &&& handle.times_out(opts.ttl, deadline)
                &&& deadline is Some <==> opts.ttl is Some
            },
        (result matches Err(error) && error is QueueFull) <==> !place_free(old(shared)@),
{
    let deadline = choose|deadline: Option<Moment>|
        {
            &&& #[trigger] handle.times_out(opts.ttl, deadline)
            &&& handle.submitted_for_reply(
                old(shared)@,
                item,
                deadline,
                opts.priority,
                result,
                final(shared)@,
            )
        };
    crate::submission::law_handle_is_for_its_item(
        handle,
        old(shared)@,
        item,
        deadline,
        opts.priority,
        result,
        final(shared)@,
    );
    if result is Ok {
        let (ends, plain) = choose|
            ends: (ReplySender<R>, crate::channel::ReplyReceiver<R>),
            plain: Result<(), AccumulatorError>,
        |
            {
                &&& #[trigger] call_ensures(
                    tokio::sync::oneshot::channel::<Result<R, AccumulatorError>>,
                    (),
                    ends,
                )
                &&& #[trigger] handle.submitted(
                    old(shared)@,
                    item,
                    deadline,
                    Some(ends.0),
                    opts.priority,
                    plain,
                    final(shared)@,
                )
                &&& result matches Ok(made) ==> plain is Ok && made.receiver() == ends.1
                &&& result matches Err(error) ==> plain == Err::<(), _>(error)
            };
        assert(handle.handed_over(item, deadline, Some(ends.0), opts.priority, true));
    }
}

/// One who waits for a place is given up at the deadline, or where no wake-up came, and then nothing
/// has changed.
pub proof fn law_wait_is_given_up_at_the_deadline<T, R>(
    handle: AccumulatorHandle<T, R>,
    shared: &mut SharedState,
    item: T,
    with_reply: bool,
    notified: bool,
    now: Moment,
    deadline: Moment,
    attempt: Attempt<T, R>,
)
    requires
        call_ensures(
            AccumulatorHandle::<T, R>::attempt_again,
            (&handle, shared, item, with_reply, notified, now, deadline),
            attempt,
        ),
    ensures
        !notified || duration_nanos(deadline.since_start) <= duration_nanos(now.since_start) ==> {
            &&& attempt matches Attempt::Settled(Err(error))
            &&& error is Timeout
            &&& final(shared)@ == old(shared)@
        },
        notified && duration_nanos(now.since_start) < duration_nanos(deadline.since_start) ==> (
        attempt is Full <==> !place_free(old(shared)@)),
{
}

/// Taking a place in the queue succeeds just where there is one, and giving it back undoes it.
pub proof fn law_places_are_taken_and_given_back(
    shared: &mut SharedState,
    taken: Result<(), AccumulatorError>,
    away: bool,
)
    requires
        0 < old(shared)@.pending_count < usize::MAX,
    ensures
        call_ensures(SharedState::acquire_slot, (shared,), taken) ==> {
            &&& taken is Ok <==> place_free(old(shared)@)
            &&& taken is Ok ==> final(shared)@.pending_count == old(shared)@.pending_count + 1
            &&& taken is Err ==> final(shared)@.pending_count == old(shared)@.pending_count
        },
        call_ensures(SharedState::turn_away, (shared,), away) ==> (away <==> !place_free(
            old(shared)@,
        )),
        call_ensures(SharedState::release_slot, (shared,), ()) ==> final(shared)@.pending_count
            == old(shared)@.pending_count - 1,
{
}

/// A batch in flight is counted while it is, where such batches are limited.
pub proof fn law_batches_in_flight_are_counted(
    shared: &mut SharedState,
    mode: ConcurrencyMode,
    guard: InflightGuard,
    max_inflight: usize,
)
    requires
        0 < old(shared)@.inflight_count < usize::MAX,
    ensures
        call_ensures(InflightGuard::new, (shared, mode), guard) && mode == (
        ConcurrencyMode::Concurrent { max_inflight }) && max_inflight > 0 ==> {
            &&& guard.counted()
            &&& final(shared)@.inflight_count == old(shared)@.inflight_count + 1
        },
        call_ensures(InflightGuard::new, (shared, mode), guard) && (mode is Serial || mode == (
        ConcurrencyMode::Concurrent { max_inflight: 0 })) ==> {
            &&& !guard.counted()
            &&& final(shared)@ == old(shared)@
        },
        call_ensures(InflightGuard::release, (guard, shared), ()) && guard.counted()
            ==> final(shared)@.inflight_count == old(shared)@.inflight_count - 1,
        call_ensures(InflightGuard::release, (guard, shared), ()) && !guard.counted()
            ==> final(shared)@ == old(shared)@,
{
}

/// Each option sets what it is named after and nothing else.
pub proof fn law_options_set_what_they_are_named_after(
    config: AccumulatorConfig,
    made: AccumulatorConfig,
    n: usize,
    enabled: bool,
    mode: ConcurrencyMode,
    level: TraceLevel,
    timeout: Option<Duration>,
)
    ensures
        call_ensures(AccumulatorConfig::with_max_batch_size, (config, n), made) ==> made == (
        AccumulatorConfig { max_batch_size: Some(n), ..config }),
        call_ensures(AccumulatorConfig::with_max_queue_depth, (config, n), made) ==> made == (
        AccumulatorConfig { max_queue_depth: Some(n), ..config }),
        call_ensures(AccumulatorConfig::with_max_batch_weight, (config, n), made) ==> made == (
        AccumulatorConfig { max_batch_weight: Some(n), ..config }),
        call_ensures(AccumulatorConfig::with_drain_batch_limit, (config, n), made) ==> made == (
        AccumulatorConfig { drain_batch_limit: n, ..config }),
        call_ensures(AccumulatorConfig::with_flush_empty_batches, (config, enabled), made)
            ==> made == (AccumulatorConfig { flush_empty_batches: enabled, ..config }),
        call_ensures(AccumulatorConfig::with_trace_per_item, (config, enabled), made) ==> made == (
        AccumulatorConfig { trace_per_item: enabled, ..config }),
        call_ensures(AccumulatorConfig::with_concurrency_mode, (config, mode), made) ==> made == (
        AccumulatorConfig { concurrency_mode: mode, ..config }),
        call_ensures(AccumulatorConfig::with_tracing_level, (config, level), made) ==> made == (
        AccumulatorConfig { tracing_level: level, ..config }),
        call_ensures(AccumulatorConfig::with_drain_timeout, (config, timeout), made) ==> made == (
        AccumulatorConfig { drain_timeout: timeout, ..config }),
{
}

/// A configuration is made just where its first window lies in its range, with the windows as they
/// were given.
pub proof fn law_configuration_is_made_when_valid(
    initial: Duration,
    min: Duration,
    max: Duration,
    made: Result<AccumulatorConfig, AccumulatorError>,
)
    requires
        call_ensures(AccumulatorConfig::new, (initial, min, max), made),
    ensures
        made is Ok <==> duration_nanos(min) <= duration_nanos(initial) <= duration_nanos(max),
        made matches Ok(config) ==> {
            &&& config.initial_window == initial
            &&& config.min_window == min
            &&& config.max_window == max
            &&& config.concurrency_mode is Serial
            &&& config.max_batch_size is None
            &&& config.max_batch_weight is None
            &&& config.max_queue_depth is None
            &&& !config.flush_empty_batches
            &&& config.drain_batch_limit == 64
        },
        made matches Err(error) ==> error is InvalidConfig,
{
}

/// Moments are moved and compared as points on a line.
pub proof fn law_moments_are_moved_and_compared(
    a: Moment,
    b: Moment,
    d: Duration,
    later: Moment,
    yes: bool,
)
    ensures
        call_ensures(Moment::after, (a, d), later) ==> goes_off_after(
            duration_nanos(later.since_start),
            a,
            duration_nanos(d),
        ),
        call_ensures(Moment::since, (b, a), d) && duration_nanos(a.since_start) <= duration_nanos(
            b.since_start,
        ) ==> duration_nanos(a.since_start) + duration_nanos(d) == duration_nanos(b.since_start),
        call_ensures(Moment::since, (b, a), d) && duration_nanos(a.since_start) > duration_nanos(
            b.since_start,
        ) ==> duration_nanos(d) == 0,
        call_ensures(Moment::reached, (b, a), yes) ==> (yes <==> duration_nanos(a.since_start)
            <= duration_nanos(b.since_start)),
{
}

/// A window is held to a range by taking the nearest in it.
pub proof fn law_window_is_held_to_its_range(
    window: Duration,
    low: Duration,
    high: Duration,
    held: Duration,
)
    requires
        call_ensures(crate::time::clamp_window, (window, low, high), held),
        duration_nanos(low) <= duration_nanos(high),
    ensures
        duration_nanos(low) <= duration_nanos(window) <= duration_nanos(high) ==> held == window,
        duration_nanos(window) < duration_nanos(low) ==> held == low,
        duration_nanos(window) > duration_nanos(high) ==> held == high,
{
}

/// The results of a batch are paired with those who wait: each once, in order, and each with the
/// result at its own place, or the shutdown where there is none. The report tells of the batch.
pub proof fn law_batch_is_finished<R>(
    ticket: FlushTicket<R>,
    results: Vec<R>,
    execution_time: Duration,
    items_remaining: usize,
    done: (Vec<Reply<R>>, FlushInfo),
)
    requires
        call_ensures(
            FlushTicket::<R>::finish,
            (ticket, results, execution_time, items_remaining),
            done,
        ),
    ensures
        done.0@ == Seq::new(ticket.senders@.len(), |i: int| i).filter(
            |i: int| ticket.senders@[i] is Some,
        ).map_values(
            |i: int|
                Reply {
                    sender: ticket.senders@[i]->0,
                    result: if i < results@.len() {
                        Ok::<R, AccumulatorError>(results@[i])
                    } else {
                        Err::<R, AccumulatorError>(AccumulatorError::Shutdown)
                    },
                },
        ),
        done.1.batch_size == ticket.batch_size,
        done.1.batch_id == ticket.batch_id,
        done.1.execution_time == execution_time,
        done.1.items_remaining == items_remaining,
        done.1.window_duration == ticket.window_duration,
        done.1.max_batch_size == ticket.max_batch_size,
        done.1.time_since_last_flush == ticket.time_since_last_flush,
        done.1.total_weight == ticket.total_weight,
{
    crate::vocabulary::law_replies_go_to_the_waiters(
        ticket.senders@,
        results@,
        ticket.senders@.len(),
    );
}

/// Pairing results with those who wait gives each the result at its own place.
pub proof fn law_results_are_paired<R>(
    senders: VecDeque<Option<ReplySender<R>>>,
    results: Vec<R>,
    replies: Vec<Reply<R>>,
)
    requires
        call_ensures(crate::batch::pair_replies::<R>, (senders, results), replies),
    ensures
        replies@ == Seq::new(senders@.len(), |i: int| i).filter(
            |i: int| senders@[i] is Some,
        ).map_values(
            |i: int|
                Reply {
                    sender: senders@[i]->0,
                    result: if i < results@.len() {
                        Ok::<R, AccumulatorError>(results@[i])
                    } else {
                        Err::<R, AccumulatorError>(AccumulatorError::Shutdown)
                    },
                },
        ),
{
    crate::vocabulary::law_replies_go_to_the_waiters(senders@, results@, senders@.len());
}

/// Waiting for a reply comes to the reply, or to the shutdown where none will come.
pub proof fn law_reply_is_settled<R>(
    state: ReplyState<R>,
    outcome: Option<Result<R, AccumulatorError>>,
)
    requires
        call_ensures(crate::batch::settle_reply::<R>, (state,), outcome),
    ensures
        state is Pending ==> outcome is None,
        state matches ReplyState::Arrived(reply) ==> outcome == Some(reply),
        state is Closed ==> outcome == Some(Err::<R, _>(AccumulatorError::Shutdown)),
{
}

/// A backing off controller counts full and idle flushes in a row, lets the window grow once for
/// each full one, and shrink from the third idle one on.
pub proof fn law_backing_off_counts_rows(
    controller: &mut BackoffController,
    band: UtilizationBand,
    queue_depth: usize,
    step: BackoffStep,
)
    requires
        call_ensures(BackoffController::observe, (controller, band, queue_depth), step),
        old(controller)@.full_count < u64::MAX,
        old(controller)@.empty_count < u64::MAX,
    ensures
        band is Full ==> {
            &&& step == (BackoffStep::Grow { exponent: (old(controller)@.full_count + 1) as u64 })
            &&& final(controller)@.full_count == old(controller)@.full_count + 1
            &&& final(controller)@.empty_count == 0
        },
        band is Idle && queue_depth == 0 ==> {
            &&& step is Shrink <==> old(controller)@.empty_count + 1 >= 3
            &&& step is Hold <==> old(controller)@.empty_count + 1 < 3
            &&& final(controller)@.full_count == 0
            &&& final(controller)@.empty_count == old(controller)@.empty_count + 1
        },
        band is Normal || (band is Idle && queue_depth > 0) ==> {
            &&& step is Hold
            &&& final(controller)@.full_count == 0
            &&& final(controller)@.empty_count == 0
        },
        final(controller)@.min_window == old(controller)@.min_window,
        final(controller)@.max_window == old(controller)@.max_window,
{
}

/// The window that a backing off controller comes to is the scaled one, or the current one where it
/// is left alone, held to its range.
pub proof fn law_backing_off_keeps_to_its_range(
    controller: BackoffController,
    step: BackoffStep,
    current: Duration,
    scaled: Duration,
    window: Duration,
)
    requires
        call_ensures(BackoffController::settle, (&controller, step, current, scaled), window),
        duration_nanos(controller@.min_window) <= duration_nanos(controller@.max_window),
    ensures
        ({
            let low = duration_nanos(controller@.min_window);
            let high = duration_nanos(controller@.max_window);
            let aim = if step is Hold {
                current
            } else {
                scaled
            };
            &&& low <= duration_nanos(aim) <= high ==> window == aim
            &&& duration_nanos(aim) < low ==> window == controller@.min_window
            &&& duration_nanos(aim) > high ==> window == controller@.max_window
        }),
{
}

/// How full a batch was is its size against the largest, and at most the whole.
pub proof fn law_utilization_of_a_batch(info: FlushInfo, share: Ratio, max: usize)
    requires
        call_ensures(crate::metrics::batch_utilization, (&info,), share),
    ensures
        info.max_batch_size == Some(max) && max > 0 && info.batch_size <= max ==> share == (Ratio {
            numerator: info.batch_size,
            denominator: max,
        }),
        info.max_batch_size == Some(max) && max > 0 && info.batch_size > max ==> share.numerator
            == share.denominator,
        info.max_batch_size is None || info.max_batch_size == Some(0usize) ==> share.numerator == 0,
{
}

/// The built-in record shows the smoothed figures that it was given, the latest batch, and how many
/// items were buffered; the smoothed time only from the second batch on.
pub proof fn law_record_shows_what_it_was_given<U: Copy>(
    metrics: &mut DefaultMetrics<U>,
    info: FlushInfo,
    utilization: U,
    time: Duration,
    buffered: usize,
    shown: MetricsSnapshot<U>,
)
    requires
        call_ensures(
            DefaultMetrics::<U>::record,
            (metrics, &info, utilization, time, buffered),
            (),
        ),
        call_ensures(DefaultMetrics::<U>::snapshot, (&*final(metrics),), shown),
    ensures
        shown.batch_utilization_rate == utilization,
        shown.queue_depth == info.items_remaining,
        shown.buffer_size == buffered,
        shown.last_execution_time == info.execution_time,
        old(metrics)@.last_flush_info is Some ==> shown.avg_execution_time == time,
        old(metrics)@.last_flush_info is None ==> duration_nanos(shown.avg_execution_time) == 0,
{
}

/// A number is written so that it reads as the number.
pub proof fn law_number_is_written(n: usize, text: String)
    requires
        call_ensures(crate::text::decimal, (n,), text),
    ensures
        number_read(text@) == n,
        text@.len() > 1 ==> text@[0] != '0',
{
    crate::vocabulary::law_decimal_text_reads_back(n as nat);
}

/// An event is reported just where there is a threshold and the event is at least as weighty: errors
/// under every one, single items only under that for them.
pub proof fn law_weighty_events_are_reported(level: Level, least: Level, yes: bool)
    ensures
        call_ensures(crate::trace::event_enabled, (level, None), yes) ==> !yes,
        call_ensures(crate::trace::event_enabled, (level, Some(least)), yes) ==> (yes <==> match (
            level,
            least,
        ) {
            (Level::Error, _) => true,
            (Level::Warn, Level::Error) => false,
            (Level::Warn, _) => true,
            (Level::Info, Level::Error) => false,
            (Level::Info, Level::Warn) => false,
            (Level::Info, _) => true,
            (Level::Debug, Level::Debug) => true,
            (Level::Debug, Level::Trace) => true,
            (Level::Debug, _) => false,
            (Level::Trace, Level::Trace) => true,
            (Level::Trace, _) => false,
        }),
{
}

/// A batch is what it was made of, and grows older from the moment of its making.
pub proof fn law_batch_is_what_it_was_made_of<T>(
    items: Vec<T>,
    id: u64,
    at: Moment,
    window: Duration,
    depth: usize,
    batch: Batch<T>,
    now: Moment,
    age: Duration,
)
    requires
        call_ensures(Batch::<T>::with_context, (items, id, at, window, depth), batch),
        call_ensures(Batch::<T>::age, (&batch, now), age),
    ensures
        batch@.items == items@,
        batch@.batch_id == id,
        batch@.created_at == at,
        batch@.window_duration == window,
        batch@.queue_depth_at_flush == depth,
        duration_nanos(at.since_start) <= duration_nanos(now.since_start) ==> duration_nanos(
            at.since_start,
        ) + duration_nanos(age) == duration_nanos(now.since_start),
{
}

/// Batches in flight are limited just in concurrent mode with a limit above zero, and no more may be
/// in flight just where as many are.
pub proof fn law_mode_limits_batches_in_flight(mode: ConcurrencyMode, inflight: usize, yes: bool)
    ensures
        call_ensures(ConcurrencyMode::is_counting_inflight, (&mode,), yes) ==> match mode {
            ConcurrencyMode::Serial => !yes,
            ConcurrencyMode::Concurrent { max_inflight } => yes <==> max_inflight > 0,
        },
        call_ensures(ConcurrencyMode::is_saturated, (&mode, inflight), yes) ==> match mode {
            ConcurrencyMode::Serial => !yes,
            ConcurrencyMode::Concurrent { max_inflight } => yes <==> max_inflight > 0 && inflight
                >= max_inflight,
        },
{
}

/// A submission that went out is counted; one that did not gives its place back and is answered with
/// the shutdown.
pub proof fn law_submission_is_settled(
    shared: &mut SharedState,
    sent: bool,
    settled: Result<(), AccumulatorError>,
)
    requires
        call_ensures(SharedState::settle_submit, (shared, sent), settled),
        old(shared)@.pending_count > 0,
    ensures
        sent ==> {
            &&& settled is Ok
            &&& final(shared)@.stats.submitted == (old(shared)@.stats.submitted + 1)
                % 0x1_0000_0000_0000_0000
            &&& final(shared)@.pending_count == old(shared)@.pending_count
        },
        !sent ==> {
            &&& settled == Err::<(), _>(AccumulatorError::Shutdown)
            &&& final(shared)@ == (SharedModel {
                pending_count: (old(shared)@.pending_count - 1) as usize,
                ..old(shared)@
            })
        },
{
}

/// A bypass that went out is counted as one; one that did not changes nothing and is answered with
/// the shutdown.
pub proof fn law_bypass_is_settled(
    shared: &mut SharedState,
    sent: bool,
    settled: Result<(), AccumulatorError>,
)
    requires
        call_ensures(SharedState::settle_bypass, (shared, sent), settled),
    ensures
        sent ==> {
            &&& settled is Ok
            &&& final(shared)@.stats.bypassed == (old(shared)@.stats.bypassed + 1)
                % 0x1_0000_0000_0000_0000
            &&& final(shared)@.stats.submitted == old(shared)@.stats.submitted
            &&& final(shared)@.pending_count == old(shared)@.pending_count
        },
        !sent ==> {
            &&& settled == Err::<(), _>(AccumulatorError::Shutdown)
            &&& final(shared)@ == old(shared)@
        },
{
}

/// A bypass takes no place in the queue, however full it is: it is counted and wakes the main loop
/// where it succeeds, and fails only with the shutdown, changing nothing.
pub proof fn law_bypass_takes_no_place<T, R>(
    handle: AccumulatorHandle<T, R>,
    shared: &mut SharedState,
    item: T,
    result: Result<(), AccumulatorError>,
)
    requires
        call_ensures(AccumulatorHandle::<T, R>::bypass, (&handle, shared, item), result),
    ensures
        final(shared)@.pending_count == old(shared)@.pending_count,
        result is Ok ==> {
            &&& final(shared)@.stats.bypassed == (old(shared)@.stats.bypassed + 1)
                % 0x1_0000_0000_0000_0000
            &&& crate::channel::woken(handle.flush_notify)
        },
        result matches Err(error) ==> error is Shutdown && final(shared)@ == old(shared)@,
{
}

/// A plain submission hands the item over with ordinary urgency and no deadline, and is refused as
/// full just where the queue has no place.
pub proof fn law_plain_submission_has_no_deadline<T, R>(
    handle: AccumulatorHandle<T, R>,
    shared: &mut SharedState,
    item: T,
    result: Result<crate::batch::ReplyHandle<R>, AccumulatorError>,
)
    requires
        call_ensures(AccumulatorHandle::<T, R>::submit, (&handle, shared, item), result),
    ensures
        result is Ok ==> exists|reply: ReplySender<R>| #[trigger]
            handle.handed_over(item, None, Some(reply), Priority::Normal, true),
        (result matches Err(error) && error is QueueFull) <==> !place_free(old(shared)@),
{
    crate::submission::law_handle_is_for_its_item(
        handle,
        old(shared)@,
        item,
        None,
        Priority::Normal,
        result,
        final(shared)@,
    );
    if result is Ok {
        let (ends, plain) = choose|
            ends: (ReplySender<R>, crate::channel::ReplyReceiver<R>),
            plain: Result<(), AccumulatorError>,
        |
            {
                &&& #[trigger] call_ensures(
                    tokio::sync::oneshot::channel::<Result<R, AccumulatorError>>,
                    (),
                    ends,
                )
                &&& #[trigger] handle.submitted(
                    old(shared)@,
                    item,
                    None,
                    Some(ends.0),
                    Priority::Normal,
                    plain,
                    final(shared)@,
                )
                &&& result matches Ok(made) ==> plain is Ok && made.receiver() == ends.1
                &&& result matches Err(error) ==> plain == Err::<(), _>(error)
            };
        assert(handle.handed_over(item, None, Some(ends.0), Priority::Normal, true));
    }
}

/// One who waits for a place does so until as long after a moment that the clock showed as was
/// given.
pub proof fn law_wait_is_as_long_as_given<T, R>(
    handle: AccumulatorHandle<T, R>,
    timeout: Duration,
    deadline: Moment,
)
    requires
        call_ensures(AccumulatorHandle::<T, R>::wait_deadline, (&handle, timeout), deadline),
    ensures
        exists|now: Moment|
            {
                &&& #[trigger] handle.clock.shows(now)
                &&& goes_off_after(
                    duration_nanos(deadline.since_start),
                    now,
                    duration_nanos(timeout),
                )
            },
{
    crate::submission::law_deadline_is_as_long_after_as_the_item_may_live(
        handle,
        Some(timeout),
        Some(deadline),
    );
}

/// A request for a flush is there once it was made, and gone once it was taken.
pub proof fn law_request_is_taken_once(shared: &mut SharedState, requested: bool)
    ensures
        call_ensures(SharedState::request_flush, (shared,), ()) ==> final(shared)@ == (
        SharedModel { flush_requested: true, ..old(shared)@ }),
        call_ensures(SharedState::take_flush_request, (shared,), requested) ==> {
            &&& requested == old(shared)@.flush_requested
            &&& final(shared)@ == (SharedModel { flush_requested: false, ..old(shared)@ })
        },
{
}

/// One round takes in no more bypasses and reports than the configuration says, and where it stops
/// short of the bypasses it wakes the main loop for another.
pub proof fn law_rounds_are_limited<T, R, P, M, C, F>(
    acc: &mut BatchAccumulator<T, R, P, M, C, F>,
    taken: usize,
    items: Option<Vec<T>>,
    info: Option<FlushInfo>,
)
    requires
        taken >= old(acc).spec_config().drain_batch_limit,
    ensures
        call_ensures(BatchAccumulator::<T, R, P, M, C, F>::next_bypass, (acc, taken), items) ==> {
            &&& items is None
            &&& taken > 0 ==> crate::channel::woken(old(acc).wiring().flush_notify)
            &&& final(acc)@ == old(acc)@
        },
        call_ensures(BatchAccumulator::<T, R, P, M, C, F>::next_feedback, (acc, taken), info) ==> {
            &&& info is None
            &&& final(acc)@ == old(acc)@
        },
{
}

/// Where the controller is asked about the window, what it answers comes to that answer where it
/// lies in the range of the configuration, and to the nearer end of the range otherwise.
pub proof fn law_answer_is_held_to_the_range<T, R, P, M, C, F>(
    acc: &mut BatchAccumulator<T, R, P, M, C, F>,
    recorded: Recorded,
    window: Duration,
    adjustment: Adjustment,
) where M: crate::metrics::MetricsCollector, C: crate::controller::WindowController<M::Utilization>
    requires
        call_ensures(
            BatchAccumulator::<T, R, P, M, C, F>::adjust_window_after_flush,
            (acc, recorded, window),
            adjustment,
        ),
    ensures
        adjustment.info() == recorded.info(),
        adjustment.spec_change().before == window,
        follows(
            old(acc).spec_config(),
            adjustment.spec_change().proposed,
            adjustment.spec_change().after,
        ),
        final(acc)@ == old(acc)@,
{
}

/// An item arrives as it is, at the moment given; its weight is asked for just where it is not
/// overdue.
pub proof fn law_item_is_weighed_on_arrival<T, R, P, M, C, F: Fn(&T) -> usize>(
    acc: BatchAccumulator<T, R, P, M, C, F>,
    item: ChannelItem<T, R>,
    now: Moment,
    arrival: Arrival<T, R>,
)
    requires
        call_ensures(BatchAccumulator::<T, R, P, M, C, F>::arrive, (&acc, item, now), arrival),
    ensures
        arrival.item() == item,
        arrival.at() == now,
        overdue(item, now) ==> arrival.weight() == 0,
        !overdue(item, now) ==> call_ensures(acc.weigher(), (&item.value,), arrival.weight()),
{
}

/// One who waits for an item that timed out is told so, and nobody is where nobody waits.
pub proof fn law_timeout_is_told<R>(reply: Option<ReplySender<R>>, told: Option<Reply<R>>)
    requires
        call_ensures(crate::item::tell_timeout::<R>, (reply,), told),
    ensures
        reply is None ==> told is None,
        reply matches Some(sender) ==> told == Some(
            Reply { sender, result: Err::<R, _>(AccumulatorError::Timeout) },
        ),
{
}

/// A whole step of a backing off controller: full batches let the window grow to what the scaling
/// comes to, idle ones let it shrink from the third on, and otherwise it stays, always held to the
/// range.
pub proof fn law_backing_off_as_a_whole<S: Fn(Duration, BackoffStep) -> Duration>(
    controller: &mut BackoffController,
    current: Duration,
    band: UtilizationBand,
    queue_depth: usize,
    scale: S,
    window: Duration,
)
    requires
        call_ensures(
            BackoffController::adjust_window::<S>,
            (controller, current, band, queue_depth, scale),
            window,
        ),
        old(controller)@.full_count < u64::MAX,
        old(controller)@.empty_count < u64::MAX,
        duration_nanos(old(controller)@.min_window) <= duration_nanos(old(controller)@.max_window),
    ensures
        duration_nanos(old(controller)@.min_window) <= duration_nanos(window) <= duration_nanos(
            old(controller)@.max_window,
        ),
        ({
            let grows = band is Full;
            let shrinks = band is Idle && queue_depth == 0 && old(controller)@.empty_count + 1 >= 3;
            let low = duration_nanos(old(controller)@.min_window);
            let high = duration_nanos(old(controller)@.max_window);
            &&& !grows && !shrinks && low <= duration_nanos(current) <= high ==> window == current
            &&& shrinks ==> exists|scaled: Duration|
                {
                    &&& #[trigger] call_ensures(scale, (current, BackoffStep::Shrink), scaled)
                    &&& low <= duration_nanos(scaled) <= high ==> window == scaled
                }
            &&& grows ==> exists|scaled: Duration|
                {
                    &&& #[trigger] call_ensures(
                        scale,
                        (
                            current,
                            BackoffStep::Grow { exponent: (old(controller)@.full_count + 1) as u64 },
                        ),
                        scaled,
                    )
                    &&& low <= duration_nanos(scaled) <= high ==> window == scaled
                }
            &&& final(controller)@.full_count == if grows {
                old(controller)@.full_count + 1
            } else {
                0
            }
        }),
{
}

} // verus!
