//! Whole runs of an accumulator: everything that may happen to it, one thing after the other, and
//! what holds of every such run.
use std::time::Duration;

use vstd::multiset::Multiset;
use vstd::prelude::*;

use crate::batch::{FlushInfo, Priority};
use crate::config::{AccumulatorConfig, ConcurrencyMode};
use crate::flush::FlushTrigger;
use crate::item::ChannelItem;
use crate::shared::SharedModel;
use crate::system::{AccumulatorModel, System};
use crate::time::Moment;

verus! {

/// Something that happens to a system.
#[verifier::reject_recursive_types(R)]
pub enum Happening<T, R> {
    /// An item is put into the queue.
    Submitted,
    /// An item is turned away because the queue is full.
    Rejected,
    /// Items are sent past the queue.
    BypassSent,
    /// A flush is asked for.
    Asked,
    /// The accumulator is told to shut down.
    Cancelled,
    /// The accumulator is paused.
    Paused,
    /// The accumulator is resumed.
    Resumed,
    /// The timer goes off.
    Timer {
        /// When.
        now: Moment,
    },
    /// The main loop looks for a request.
    Request {
        /// When.
        now: Moment,
    },
    /// An item comes out of the queue.
    Item {
        /// The item.
        item: ChannelItem<T, R>,
        /// What it weighs.
        weight: usize,
        /// How long it waited.
        waited: Duration,
        /// When it comes.
        now: Moment,
    },
    /// Buffered items that have timed out are dropped.
    Expiry {
        /// When.
        now: Moment,
    },
    /// The main loop finishes a batch.
    Finished {
        /// The report of the batch.
        info: FlushInfo,
        /// What the controller answers.
        proposed: Duration,
        /// When.
        now: Moment,
    },
    /// A background task reports a batch.
    Feedback {
        /// The report of the batch.
        info: FlushInfo,
        /// What the controller answers.
        proposed: Duration,
        /// When.
        now: Moment,
    },
    /// A background task whose batch is counted ends.
    TaskEnded,
    /// Items bypass the buffer.
    Bypass,
    /// An item comes out of the queue as the accumulator shuts down.
    DrainedItem {
        /// The item.
        item: ChannelItem<T, R>,
        /// What it weighs.
        weight: usize,
        /// When it comes.
        now: Moment,
    },
    /// Items bypass the buffer as the accumulator shuts down.
    DrainedBypass,
    /// The last batch is made.
    FinalFlush,
    /// The last batch is finished by the main loop.
    FinalFinished {
        /// The report of the batch.
        info: FlushInfo,
        /// When.
        now: Moment,
    },
}

impl<T, R> System<T, R> {
    /// The system with another shared state.
    pub open spec fn sharing(self, shared: SharedModel) -> Self {
        System { shared, ..self }
    }

    /// The system once a look for a request has been taken at `now`.
    pub open spec fn after_request(self, config: AccumulatorConfig, now: Moment) -> Self {
        if self.shared.flush_requested {
            self.request_taken().after_timed_flush(config, FlushTrigger::Request, now)
        } else {
            self
        }
    }

    /// The system once items have bypassed the buffer as the accumulator shuts down.
    pub open spec fn after_drained_bypass(self, config: AccumulatorConfig) -> Self {
        if config.concurrency_mode == ConcurrencyMode::Serial {
            self.numbered()
        } else {
            self.numbered().in_flight(config)
        }
    }

    /// Whether something can happen to the system: an item is submitted only where there is room
    /// and turned away only where there is none, it comes out of the queue only if it was put in,
    /// a counted task ends only if one was started, and no counter is at its end.
    pub open spec fn admits(self, config: AccumulatorConfig, happening: Happening<T, R>) -> bool {
        let more_in_flight = config.concurrency_mode.counts_inflight()
            ==> self.shared.inflight_count < usize::MAX;
        let numbers = self.acc.next_batch_id < u64::MAX;
        let buffer_fits = self.acc.buffer.len() < usize::MAX;
        match happening {
            Happening::Submitted => {
                &&& self.shared.has_room()
                &&& self.shared.pending_count < usize::MAX
            },
            Happening::Rejected => !self.shared.has_room(),
            Happening::Timer { .. } => numbers,
            Happening::Request { .. } => numbers,
            Happening::Item { .. } => numbers && buffer_fits && self.shared.pending_count > 0,
            Happening::DrainedItem { .. } => {
                numbers && more_in_flight && buffer_fits && self.shared.pending_count > 0
            },
            Happening::TaskEnded => {
                &&& config.concurrency_mode.counts_inflight()
                &&& self.shared.inflight_count > 0
            },
            Happening::Bypass => {
                numbers && (self.spawns_bypass(config) ==> self.acc.next_batch_id < u64::MAX - 1)
            },
            Happening::DrainedBypass => numbers && more_in_flight,
            Happening::FinalFlush => numbers && more_in_flight,
            _ => true,
        }
    }

    /// The system once something has happened to it.
    pub open spec fn after(self, config: AccumulatorConfig, happening: Happening<T, R>) -> Self {
        match happening {
            Happening::Submitted => self.sharing(self.shared.after_submit()),
            Happening::Rejected => self.sharing(self.shared.after_rejected()),
            Happening::BypassSent => self.sharing(self.shared.after_bypass()),
            Happening::Asked => self.asked(),
            Happening::Cancelled => self.asked().sharing(
                SharedModel { cancelled: true, flush_requested: true, ..self.shared },
            ),
            Happening::Paused => self.sharing(SharedModel { paused: true, ..self.shared }),
            Happening::Resumed => self.sharing(
                SharedModel { paused: false, flush_requested: true, ..self.shared },
            ),
            Happening::Timer { now } => self.after_timed_flush(config, FlushTrigger::Timer, now),
            Happening::Request { now } => self.after_request(config, now),
            Happening::Item { item, weight, waited, now } => self.after_item(
                config,
                item,
                weight,
                waited,
                now,
            ),
            Happening::Expiry { now } => self.after_expiry(config, now),
            Happening::Finished { info, proposed, now } => self.after_serial(
                config,
                info,
                proposed,
                now,
            ),
            Happening::Feedback { info, proposed, now } => self.after_feedback(
                config,
                info,
                proposed,
                now,
            ),
            Happening::TaskEnded => self.sharing(
                SharedModel {
                    inflight_count: (self.shared.inflight_count - 1) as usize,
                    ..self.shared
                },
            ),
            Happening::Bypass => self.after_bypass(config),
            Happening::DrainedItem { item, weight, now } => self.after_drained_item(
                config,
                item,
                weight,
                now,
            ),
            Happening::DrainedBypass => self.after_drained_bypass(config),
            Happening::FinalFlush => self.after_final_flush(config),
            Happening::FinalFinished { info, now } => self.after_completion(
                info.execution_time,
                now,
            ),
        }
    }

    /// The system at the end of a run.
    pub open spec fn run(self, config: AccumulatorConfig, happenings: Seq<Happening<T, R>>) -> Self
        decreases happenings.len(),
    {
        if happenings.len() == 0 {
            self
        } else {
            self.run(config, happenings.drop_last()).after(config, happenings.last())
        }
    }

    /// Whether each thing in a run can happen when it does.
    pub open spec fn admits_run(
        self,
        config: AccumulatorConfig,
        happenings: Seq<Happening<T, R>>,
    ) -> bool
        decreases happenings.len(),
    {
        happenings.len() > 0 ==> {
            &&& self.admits_run(config, happenings.drop_last())
            &&& self.run(config, happenings.drop_last()).admits(config, happenings.last())
        }
    }

    /// The buffered items that a flush takes for a batch.
    pub open spec fn taken_by_flush(self, config: AccumulatorConfig, trigger: FlushTrigger) -> Seq<
        ChannelItem<T, R>,
    > {
        if self.verdict(config, trigger).takes_buffer() {
            self.acc.next_items(config)
        } else {
            Seq::empty()
        }
    }

    /// The items that go into a batch at something that happens, in the order of the batch.
    pub open spec fn batched(self, config: AccumulatorConfig, happening: Happening<T, R>) -> Seq<
        ChannelItem<T, R>,
    > {
        match happening {
            Happening::Timer { .. } => self.taken_by_flush(config, FlushTrigger::Timer),
            Happening::Request { .. } => if self.shared.flush_requested {
                self.request_taken().taken_by_flush(config, FlushTrigger::Request)
            } else {
                Seq::empty()
            },
            Happening::Item { item, weight, waited, now } => {
                let held = self.taking_in(config, item, weight, waited);
                if !item.expired(now) && held.full(config) {
                    held.taken_by_flush(config, FlushTrigger::Threshold)
                } else {
                    Seq::empty()
                }
            },
            Happening::DrainedItem { item, weight, now } => {
                let held = self.slot_released().buffering(config, item, weight);
                if !item.expired(now) && held.full(config) {
                    held.acc.next_items(config)
                } else {
                    Seq::empty()
                }
            },
            Happening::FinalFlush => self.acc.next_items(config),
            _ => Seq::empty(),
        }
    }

    /// The items that are dropped at something that happens because they have timed out.
    pub open spec fn dropped(self, happening: Happening<T, R>) -> Seq<ChannelItem<T, R>> {
        match happening {
            Happening::Item { item, now, .. } => if item.expired(now) {
                seq![item]
            } else {
                Seq::empty()
            },
            Happening::DrainedItem { item, now, .. } => if item.expired(now) {
                seq![item]
            } else {
                Seq::empty()
            },
            Happening::Expiry { now } => crate::item::expired_items(self.acc.buffer, now),
            _ => Seq::empty(),
        }
    }

    /// The items that go into batches in a run, batch by batch.
    pub open spec fn batched_in(
        self,
        config: AccumulatorConfig,
        happenings: Seq<Happening<T, R>>,
    ) -> Seq<ChannelItem<T, R>>
        decreases happenings.len(),
    {
        if happenings.len() == 0 {
            Seq::empty()
        } else {
            let before = happenings.drop_last();
            self.batched_in(config, before) + self.run(config, before).batched(
                config,
                happenings.last(),
            )
        }
    }

    /// The items that are dropped in a run.
    pub open spec fn dropped_in(
        self,
        config: AccumulatorConfig,
        happenings: Seq<Happening<T, R>>,
    ) -> Seq<ChannelItem<T, R>>
        decreases happenings.len(),
    {
        if happenings.len() == 0 {
            Seq::empty()
        } else {
            let before = happenings.drop_last();
            self.dropped_in(config, before) + self.run(config, before).dropped(happenings.last())
        }
    }
}

/// The items that come out of the queue at something that happens.
pub open spec fn received<T, R>(happening: Happening<T, R>) -> Seq<ChannelItem<T, R>> {
    match happening {
        Happening::Item { item, .. } => seq![item],
        Happening::DrainedItem { item, .. } => seq![item],
        _ => Seq::empty(),
    }
}

/// The items that come out of the queue in a run, in their order.
pub open spec fn received_in<T, R>(happenings: Seq<Happening<T, R>>) -> Seq<ChannelItem<T, R>>
    decreases happenings.len(),
{
    if happenings.len() == 0 {
        Seq::empty()
    } else {
        received_in(happenings.drop_last()) + received(happenings.last())
    }
}

/// The items that have timed out and those that have not are together the items.
proof fn lemma_expiry_splits<T, R>(items: Seq<ChannelItem<T, R>>, now: Moment)
    ensures
        items.to_multiset() == crate::item::expired_items(items, now).to_multiset().add(
            crate::item::live_items(items, now).to_multiset(),
        ),
    decreases items.len(),
{
    broadcast use vstd::seq_lib::group_to_multiset_ensures;

    if items.len() > 0 {
        lemma_expiry_splits(items.drop_last(), now);
        assert(items == items.drop_last().push(items.last()));
        assert(items.to_multiset() =~= crate::item::expired_items(items, now).to_multiset().add(
            crate::item::live_items(items, now).to_multiset(),
        ));
    } else {
        assert(items.to_multiset() =~= crate::item::expired_items(items, now).to_multiset().add(
            crate::item::live_items(items, now).to_multiset(),
        ));
    }
}

/// An item that is buffered is added to what is buffered, wherever it goes.
proof fn lemma_buffered_item<T, R>(
    acc: AccumulatorModel<T, R>,
    item: ChannelItem<T, R>,
    weight: usize,
)
    ensures
        acc.buffered(item, weight).buffer.to_multiset() == acc.buffer.to_multiset().add(
            seq![item].to_multiset(),
        ),
{
    let held = acc.buffered(item, weight).buffer;
    lemma_joined(seq![item], acc.buffer);
    lemma_joined(acc.buffer, seq![item]);
    assert(acc.buffer.push(item) =~= acc.buffer + seq![item]);
    assert(held.to_multiset() =~= acc.buffer.to_multiset().add(seq![item].to_multiset()));
}

/// Nothing adds nothing.
proof fn lemma_nothing_added<A>(some: Multiset<A>)
    ensures
        some.add(Seq::<A>::empty().to_multiset()) == some,
        Seq::<A>::empty().to_multiset().add(some) == some,
{
    broadcast use vstd::seq_lib::group_to_multiset_ensures;

    assert(some.add(Seq::<A>::empty().to_multiset()) =~= some);
    assert(Seq::<A>::empty().to_multiset().add(some) =~= some);
}

/// At each thing that happens, what is buffered and what comes in is what goes into a batch, what
/// is dropped and what stays buffered.
proof fn lemma_step_conserves<T, R>(
    system: System<T, R>,
    config: AccumulatorConfig,
    happening: Happening<T, R>,
)
    ensures
        system.acc.buffer.to_multiset().add(received(happening).to_multiset())
            == system.batched(config, happening).to_multiset().add(
            system.dropped(happening).to_multiset(),
        ).add(system.after(config, happening).acc.buffer.to_multiset()),
{
    let before = system.acc.buffer;
    let after = system.after(config, happening).acc.buffer;
    let nothing = Seq::<ChannelItem<T, R>>::empty();
    lemma_nothing_added(before.to_multiset());
    lemma_nothing_added(after.to_multiset());
    lemma_nothing_added(system.batched(config, happening).to_multiset());
    lemma_nothing_added(system.dropped(happening).to_multiset());
    match happening {
        Happening::Item { item, weight, waited, now } => {
            let held = system.taking_in(config, item, weight, waited);
            lemma_next_and_rest(held.acc, config);
            lemma_buffered_item(system.acc, item, weight);
            let both = seq![item].to_multiset().add(before.to_multiset());
            assert(both =~= before.to_multiset().add(seq![item].to_multiset()));
        },
        Happening::DrainedItem { item, weight, now } => {
            let held = system.slot_released().buffering(config, item, weight);
            lemma_next_and_rest(held.acc, config);
            lemma_buffered_item(system.acc, item, weight);
            let both = seq![item].to_multiset().add(before.to_multiset());
            assert(both =~= before.to_multiset().add(seq![item].to_multiset()));
        },
        Happening::Expiry { now } => {
            lemma_expiry_splits(before, now);
        },
        _ => {
            lemma_next_and_rest(system.acc, config);
            assert(received(happening) == nothing && system.dropped(happening) == nothing);
            assert((system.batched(config, happening) == nothing && after == before) || (
            system.batched(config, happening) == system.acc.next_items(config) && after
                == system.acc.flushed(config).buffer));
        },
    }
}

/// What goes into the next batch and what is left are together what is buffered.
proof fn lemma_next_and_rest<T, R>(acc: AccumulatorModel<T, R>, config: AccumulatorConfig)
    ensures
        acc.buffer == acc.next_items(config) + acc.flushed(config).buffer,
        acc.buffer.to_multiset() == acc.next_items(config).to_multiset().add(
            acc.flushed(config).buffer.to_multiset(),
        ),
{
    assert(acc.buffer =~= acc.next_items(config) + acc.flushed(config).buffer);
    lemma_joined(acc.next_items(config), acc.flushed(config).buffer);
}

/// The items of two rows together.
proof fn lemma_joined<A>(a: Seq<A>, b: Seq<A>)
    ensures
        (a + b).to_multiset() == a.to_multiset().add(b.to_multiset()),
{
    vstd::seq_lib::lemma_multiset_commutative(a, b);
}

/// Two sums, of which the first ends with what the second starts with, come to one.
proof fn lemma_sums_chain<A>(
    start: Multiset<A>,
    in1: Multiset<A>,
    out1: Multiset<A>,
    gone1: Multiset<A>,
    middle: Multiset<A>,
    in2: Multiset<A>,
    out2: Multiset<A>,
    gone2: Multiset<A>,
    end: Multiset<A>,
)
    requires
        start.add(in1) == out1.add(gone1).add(middle),
        middle.add(in2) == out2.add(gone2).add(end),
    ensures
        start.add(in1.add(in2)) == out1.add(out2).add(gone1.add(gone2)).add(end),
{
    broadcast use vstd::multiset::group_multiset_axioms;

    let left = start.add(in1.add(in2));
    let right = out1.add(out2).add(gone1.add(gone2)).add(end);
    assert forall|a: A| left.count(a) == right.count(a) by {
        assert(start.count(a) + in1.count(a) == start.add(in1).count(a));
        assert(out1.add(gone1).add(middle).count(a) == out1.count(a) + gone1.count(a)
            + middle.count(a));
        assert(middle.count(a) + in2.count(a) == middle.add(in2).count(a));
        assert(out2.add(gone2).add(end).count(a) == out2.count(a) + gone2.count(a) + end.count(a));
        assert(left.count(a) == start.count(a) + in1.count(a) + in2.count(a));
        assert(right.count(a) == out1.count(a) + out2.count(a) + gone1.count(a) + gone2.count(a)
            + end.count(a));
    }
    assert(left =~= right);
}

/// No item is lost, and none is processed twice: in any run, the items that were buffered before
/// and those that came out of the queue are just those that went into batches, those that were
/// dropped because they had timed out, and those that are still buffered.
pub proof fn law_items_are_conserved<T, R>(
    system: System<T, R>,
    config: AccumulatorConfig,
    happenings: Seq<Happening<T, R>>,
)
    ensures
        (system.acc.buffer + received_in(happenings)).to_multiset() == (system.batched_in(
            config,
            happenings,
        ) + system.dropped_in(config, happenings) + system.run(
            config,
            happenings,
        ).acc.buffer).to_multiset(),
    decreases happenings.len(),
{
    let start = system.acc.buffer;
    let batched = system.batched_in(config, happenings);
    let dropped = system.dropped_in(config, happenings);
    let end = system.run(config, happenings).acc.buffer;
    lemma_joined(start, received_in(happenings));
    lemma_joined(batched + dropped, end);
    lemma_joined(batched, dropped);
    if happenings.len() == 0 {
        assert(start + received_in(happenings) =~= batched + dropped + end);
    } else {
        let before = happenings.drop_last();
        let middle = system.run(config, before);
        let last = happenings.last();
        law_items_are_conserved(system, config, before);
        lemma_step_conserves(middle, config, last);
        lemma_joined(start, received_in(before));
        lemma_joined(received_in(before), received(last));
        lemma_joined(system.batched_in(config, before), middle.batched(config, last));
        lemma_joined(system.dropped_in(config, before), middle.dropped(last));
        lemma_joined(
            system.batched_in(config, before) + system.dropped_in(config, before),
            middle.acc.buffer,
        );
        lemma_joined(system.batched_in(config, before), system.dropped_in(config, before));
        lemma_sums_chain(
            start.to_multiset(),
            received_in(before).to_multiset(),
            system.batched_in(config, before).to_multiset(),
            system.dropped_in(config, before).to_multiset(),
            middle.acc.buffer.to_multiset(),
            received(last).to_multiset(),
            middle.batched(config, last).to_multiset(),
            middle.dropped(last).to_multiset(),
            end.to_multiset(),
        );
    }
}

/// Whether one row is another with some of its members left out: each member of the first has its
/// place in the second, and the places ascend.
pub open spec fn within_at<A>(part: Seq<A>, whole: Seq<A>, places: Seq<int>) -> bool {
    &&& places.len() == part.len()
    &&& forall|i: int|
        0 <= i < part.len() ==> 0 <= #[trigger] places[i] < whole.len() && part[i]
            == whole[places[i]]
    &&& forall|i: int, j: int| 0 <= i < j < part.len() ==> places[i] < places[j]
}

/// Whether one row is another with some of its members left out, the rest in their order.
pub open spec fn within<A>(part: Seq<A>, whole: Seq<A>) -> bool {
    exists|places: Seq<int>| within_at(part, whole, places)
}

/// What is within a row that is within another is within that other.
proof fn lemma_within_chain<A>(a: Seq<A>, b: Seq<A>, c: Seq<A>)
    requires
        within(a, b),
        within(b, c),
    ensures
        within(a, c),
{
    let first = choose|places: Seq<int>| within_at(a, b, places);
    let second = choose|places: Seq<int>| within_at(b, c, places);
    let both = Seq::new(a.len(), |i: int| second[first[i]]);
    assert forall|i: int| 0 <= i < a.len() implies 0 <= #[trigger] both[i] < c.len() && a[i]
        == c[both[i]] by {
        assert(0 <= first[i] < b.len());
        assert(0 <= second[first[i]] < c.len());
    }
    assert forall|i: int, j: int| 0 <= i < j < a.len() implies both[i] < both[j] by {
        assert(first[i] < first[j]);
        assert(0 <= first[i] < b.len() && 0 <= first[j] < b.len());
    }
    assert(within_at(a, c, both));
}

/// Putting the same row in front keeps one row within another.
proof fn lemma_within_after<A>(front: Seq<A>, part: Seq<A>, whole: Seq<A>)
    requires
        within(part, whole),
    ensures
        within(front + part, front + whole),
{
    let n = front.len() as int;
    let places = choose|places: Seq<int>| within_at(part, whole, places);
    let moved = Seq::new(
        (front + part).len(),
        |i: int|
            if i < n {
                i
            } else {
                n + places[i - n]
            },
    );
    assert forall|i: int| 0 <= i < (front + part).len() implies 0 <= #[trigger] moved[i] < (front
        + whole).len() && (front + part)[i] == (front + whole)[moved[i]] by {
        if i >= n {
            assert(0 <= places[i - n] < whole.len());
        }
    }
    assert forall|i: int, j: int| 0 <= i < j < (front + part).len() implies moved[i] < moved[j] by {
        if i >= n {
            assert(places[i - n] < places[j - n]);
        } else if j >= n {
            assert(0 <= places[j - n] < whole.len());
        }
    }
    assert(within_at(front + part, front + whole, moved));
}

/// Putting the same row behind keeps one row within another.
proof fn lemma_within_before<A>(part: Seq<A>, whole: Seq<A>, back: Seq<A>)
    requires
        within(part, whole),
    ensures
        within(part + back, whole + back),
{
    let n = part.len() as int;
    let places = choose|places: Seq<int>| within_at(part, whole, places);
    let moved = Seq::new(
        (part + back).len(),
        |i: int|
            if i < n {
                places[i]
            } else {
                whole.len() + (i - n)
            },
    );
    assert forall|i: int| 0 <= i < (part + back).len() implies 0 <= #[trigger] moved[i] < (whole
        + back).len() && (part + back)[i] == (whole + back)[moved[i]] by {
        if i < n {
            assert(0 <= places[i] < whole.len());
        }
    }
    assert forall|i: int, j: int| 0 <= i < j < (part + back).len() implies moved[i] < moved[j] by {
        if j < n {
            assert(places[i] < places[j]);
        } else if i < n {
            assert(0 <= places[i] < whole.len());
        }
    }
    assert(within_at(part + back, whole + back, moved));
}

/// Every row is within itself.
proof fn lemma_within_itself<A>(row: Seq<A>)
    ensures
        within(row, row),
{
    let places = Seq::new(row.len(), |i: int| i);
    assert(within_at(row, row, places));
}

/// A row within another of the same length is the other.
proof fn lemma_within_full<A>(part: Seq<A>, whole: Seq<A>)
    requires
        within(part, whole),
        part.len() == whole.len(),
    ensures
        part == whole,
{
    let places = choose|places: Seq<int>| within_at(part, whole, places);
    assert forall|i: int| 0 <= i < part.len() implies part[i] == whole[i] by {
        lemma_places_ascend(part, whole, places, i);
        lemma_places_leave_room(part, whole, places, i);
    }
    assert(part =~= whole);
}

/// Ascending places are at least as far on as the members that have them.
proof fn lemma_places_ascend<A>(part: Seq<A>, whole: Seq<A>, places: Seq<int>, i: int)
    requires
        within_at(part, whole, places),
        0 <= i < part.len(),
    ensures
        places[i] >= i,
    decreases i,
{
    if i > 0 {
        lemma_places_ascend(part, whole, places, i - 1);
        assert(places[i - 1] < places[i]);
    }
}

/// Ascending places leave room for those that follow.
proof fn lemma_places_leave_room<A>(part: Seq<A>, whole: Seq<A>, places: Seq<int>, i: int)
    requires
        within_at(part, whole, places),
        0 <= i < part.len(),
    ensures
        places[i] <= whole.len() - (part.len() - i),
    decreases part.len() - i,
{
    if i + 1 < part.len() {
        lemma_places_leave_room(part, whole, places, i + 1);
        assert(places[i] < places[i + 1]);
    }
}

/// The items that have not timed out are the items with those that have left out.
proof fn lemma_live_within<T, R>(items: Seq<ChannelItem<T, R>>, now: Moment)
    ensures
        within(crate::item::live_items(items, now), items),
    decreases items.len(),
{
    if items.len() == 0 {
        lemma_within_itself(items);
        assert(crate::item::live_items(items, now) == items);
    } else {
        let front = items.drop_last();
        let last = seq![items.last()];
        lemma_live_within(front, now);
        assert(front + last == items);
        if items.last().expired(now) {
            let places = choose|places: Seq<int>|
                within_at(crate::item::live_items(front, now), front, places);
            assert(within_at(crate::item::live_items(items, now), items, places));
        } else {
            lemma_within_before(crate::item::live_items(front, now), front, last);
            assert(crate::item::live_items(front, now) + last == crate::item::live_items(
                items,
                now,
            ));
        }
    }
}

/// Whether no item of a row is urgent.
pub open spec fn none_urgent<T, R>(items: Seq<ChannelItem<T, R>>) -> bool {
    forall|i: int| 0 <= i < items.len() ==> (#[trigger] items[i]).priority != Priority::High
}

/// At each thing that happens, items that are not urgent keep their order.
proof fn lemma_step_keeps_order<T, R>(
    system: System<T, R>,
    config: AccumulatorConfig,
    happening: Happening<T, R>,
)
    requires
        none_urgent(received(happening)),
    ensures
        within(
            system.batched(config, happening) + system.after(config, happening).acc.buffer,
            system.acc.buffer + received(happening),
        ),
{
    let before = system.acc.buffer;
    let inputs = received(happening);
    let outputs = system.batched(config, happening) + system.after(config, happening).acc.buffer;
    lemma_within_itself(before + inputs);
    lemma_next_and_rest(system.acc, config);
    match happening {
        Happening::Item { item, weight, waited, now } => {
            assert(inputs[0].priority != Priority::High);
            lemma_next_and_rest(system.taking_in(config, item, weight, waited).acc, config);
            if item.expired(now) {
                lemma_prefix_within(before, inputs);
                assert(outputs =~= before);
            } else {
                assert(outputs =~= before + inputs);
            }
        },
        Happening::DrainedItem { item, weight, now } => {
            assert(inputs[0].priority != Priority::High);
            lemma_next_and_rest(
                system.slot_released().buffering(config, item, weight).acc,
                config,
            );
            if item.expired(now) {
                lemma_prefix_within(before, inputs);
                assert(outputs =~= before);
            } else {
                assert(outputs =~= before + inputs);
            }
        },
        Happening::Expiry { now } => {
            lemma_live_within(before, now);
            assert(before + inputs =~= before);
            assert(outputs =~= crate::item::live_items(before, now));
        },
        _ => {
            assert(before + inputs =~= before);
            assert(outputs =~= before);
        },
    }
}

/// The start of a row is within it.
proof fn lemma_prefix_within<A>(front: Seq<A>, back: Seq<A>)
    ensures
        within(front, front + back),
{
    let places = Seq::new(front.len(), |i: int| i);
    assert(within_at(front, front + back, places));
}

/// First come, first served: in any run without urgent items, the items that go into batches,
/// followed by those that are still buffered, are in the order in which they came; only those that
/// timed out are left out, and where none did the two rows are the same.
pub proof fn law_order_of_arrival<T, R>(
    system: System<T, R>,
    config: AccumulatorConfig,
    happenings: Seq<Happening<T, R>>,
)
    requires
        none_urgent(received_in(happenings)),
    ensures
        within(
            system.batched_in(config, happenings) + system.run(config, happenings).acc.buffer,
            system.acc.buffer + received_in(happenings),
        ),
        system.dropped_in(config, happenings).len() == 0 ==> system.batched_in(config, happenings)
            + system.run(config, happenings).acc.buffer == system.acc.buffer + received_in(
            happenings,
        ),
    decreases happenings.len(),
{
    let start = system.acc.buffer;
    let end = system.run(config, happenings).acc.buffer;
    if happenings.len() == 0 {
        lemma_within_itself(start);
        assert(system.batched_in(config, happenings) + end =~= start);
        assert(start + received_in(happenings) =~= start);
    } else {
        let before = happenings.drop_last();
        let last = happenings.last();
        let middle = system.run(config, before);
        let taken = system.batched_in(config, before);
        let came = received_in(before);
        assert(none_urgent(came)) by {
            assert forall|i: int| 0 <= i < came.len() implies (#[trigger] came[i]).priority
                != Priority::High by {
                assert(received_in(happenings)[i] == came[i]);
            }
        }
        assert(none_urgent(received(last))) by {
            assert forall|i: int| 0 <= i < received(last).len() implies (#[trigger] received(
                last,
            )[i]).priority != Priority::High by {
                assert(received_in(happenings)[came.len() + i] == received(last)[i]);
            }
        }
        law_order_of_arrival(system, config, before);
        lemma_step_keeps_order(middle, config, last);
        lemma_within_after(
            taken,
            middle.batched(config, last) + end,
            middle.acc.buffer + received(last),
        );
        lemma_within_before(taken + middle.acc.buffer, start + came, received(last));
        assert(taken + (middle.batched(config, last) + end) =~= system.batched_in(
            config,
            happenings,
        ) + end);
        assert(taken + (middle.acc.buffer + received(last)) =~= taken + middle.acc.buffer
            + received(last));
        assert(start + came + received(last) =~= start + received_in(happenings));
        lemma_within_chain(
            system.batched_in(config, happenings) + end,
            taken + middle.acc.buffer + received(last),
            start + received_in(happenings),
        );
    }
    if system.dropped_in(config, happenings).len() == 0 {
        let outputs = system.batched_in(config, happenings) + end;
        let inputs = start + received_in(happenings);
        law_items_are_conserved(system, config, happenings);
        assert(system.batched_in(config, happenings) + system.dropped_in(config, happenings) + end
            =~= outputs);
        vstd::seq_lib::to_multiset_len(outputs);
        vstd::seq_lib::to_multiset_len(inputs);
        lemma_within_full(outputs, inputs);
    }
}

/// A flush leaves a sound system sound.
proof fn lemma_flush_stays_sound<T, R>(
    system: System<T, R>,
    config: AccumulatorConfig,
    trigger: FlushTrigger,
    now: Moment,
)
    requires
        system.sound(config),
    ensures
        system.after_flush(config, trigger, now).sound(config),
        system.after_timed_flush(config, trigger, now).sound(config),
{
}

/// An item that comes out of the queue leaves a sound system sound.
proof fn lemma_item_stays_sound<T, R>(
    system: System<T, R>,
    config: AccumulatorConfig,
    item: ChannelItem<T, R>,
    weight: usize,
    waited: Duration,
    now: Moment,
)
    requires
        system.sound(config),
        system.shared.pending_count > 0,
        system.acc.buffer.len() < usize::MAX,
    ensures
        system.after_item(config, item, weight, waited, now).sound(config),
        system.after_drained_item(config, item, weight, now).sound(config),
{
    let held = system.taking_in(config, item, weight, waited);
    assert(held.sound(config));
    lemma_flush_stays_sound(held, config, FlushTrigger::Threshold, now);
    let drained = system.slot_released().buffering(config, item, weight);
    assert(drained.sound(config));
    assert(drained.drained(config).sound(config));
}

/// A finished batch leaves a sound system sound.
proof fn lemma_completion_stays_sound<T, R>(
    system: System<T, R>,
    config: AccumulatorConfig,
    info: FlushInfo,
    proposed: Duration,
    now: Moment,
)
    requires
        system.sound(config),
    ensures
        system.after_completion(info.execution_time, now).sound(config),
        system.after_serial(config, info, proposed, now).sound(config),
        system.after_feedback(config, info, proposed, now).sound(config),
{
    let done = system.after_completion(info.execution_time, now);
    assert(done.sound(config));
    assert(done.after_adjustment(config, proposed).sound(config));
}

/// Each thing that can happen to a sound system leaves it sound.
proof fn lemma_step_stays_sound<T, R>(
    system: System<T, R>,
    config: AccumulatorConfig,
    happening: Happening<T, R>,
)
    requires
        system.sound(config),
        system.admits(config, happening),
    ensures
        system.after(config, happening).sound(config),
{
    match happening {
        Happening::Timer { now } => {
            lemma_flush_stays_sound(system, config, FlushTrigger::Timer, now);
        },
        Happening::Request { now } => {
            let met = system.request_taken();
            assert(met.sound(config));
            lemma_flush_stays_sound(met, config, FlushTrigger::Request, now);
        },
        Happening::Item { item, weight, waited, now } => {
            lemma_item_stays_sound(system, config, item, weight, waited, now);
        },
        Happening::DrainedItem { item, weight, now } => {
            lemma_item_stays_sound(
                system,
                config,
                item,
                weight,
                system.shared.current_window,
                now,
            );
        },
        Happening::Expiry { now } => {
            lemma_expiry_splits_lengths(system.acc.buffer, system.acc.weights, now);
            assert(system.after_expiry(config, now).sound(config));
        },
        Happening::Finished { info, proposed, now } => {
            lemma_completion_stays_sound(system, config, info, proposed, now);
        },
        Happening::Feedback { info, proposed, now } => {
            lemma_completion_stays_sound(system, config, info, proposed, now);
        },
        Happening::FinalFinished { info, now } => {
            lemma_completion_stays_sound(
                system,
                config,
                info,
                system.shared.current_window,
                now,
            );
        },
        Happening::Bypass => {
            assert(system.after_bypass(config).sound(config));
        },
        Happening::DrainedBypass => {
            assert(system.after_drained_bypass(config).sound(config));
        },
        Happening::FinalFlush => {
            assert(system.after_final_flush(config).sound(config));
        },
        _ => {
            assert(system.after(config, happening).sound(config));
        },
    }
}

/// No more items stay than there were, and each keeps its weight.
proof fn lemma_expiry_splits_lengths<T, R>(
    items: Seq<ChannelItem<T, R>>,
    weights: Seq<usize>,
    now: Moment,
)
    ensures
        crate::item::live_items(items, now).len() + crate::item::expired_items(items, now).len()
            == items.len(),
        crate::item::live_weights(items, weights, now).len() == crate::item::live_items(
            items,
            now,
        ).len(),
    decreases items.len(),
{
    if items.len() > 0 {
        lemma_expiry_splits_lengths(items.drop_last(), weights, now);
    }
}

/// At every point of a run the window lies in the range that the configuration allows, no more
/// items wait than may, no more timings are kept than there is room for, and what is made known of
/// the buffer is true.
pub proof fn law_runs_stay_sound<T, R>(
    system: System<T, R>,
    config: AccumulatorConfig,
    happenings: Seq<Happening<T, R>>,
)
    requires
        system.sound(config),
        system.admits_run(config, happenings),
    ensures
        system.run(config, happenings).sound(config),
    decreases happenings.len(),
{
    if happenings.len() > 0 {
        law_runs_stay_sound(system, config, happenings.drop_last());
        lemma_step_stays_sound(
            system.run(config, happenings.drop_last()),
            config,
            happenings.last(),
        );
    }
}

impl<T, R> System<T, R> {
    /// The numbers of the batches that are made at something that happens.
    pub open spec fn numbers(self, config: AccumulatorConfig, happening: Happening<T, R>) -> Seq<
        int,
    > {
        let next = self.acc.next_batch_id as int;
        match happening {
            Happening::Timer { .. } => if self.verdict(config, FlushTrigger::Timer).takes_buffer() {
                seq![next]
            } else {
                Seq::empty()
            },
            Happening::Request { .. } => if self.shared.flush_requested
                && self.request_taken().verdict(config, FlushTrigger::Request).takes_buffer() {
                seq![next]
            } else {
                Seq::empty()
            },
            Happening::Item { item, weight, waited, now } => {
                let held = self.taking_in(config, item, weight, waited);
                if !item.expired(now) && held.full(config) && held.verdict(
                    config,
                    FlushTrigger::Threshold,
                ).takes_buffer() {
                    seq![next]
                } else {
                    Seq::empty()
                }
            },
            Happening::DrainedItem { item, weight, now } => {
                let held = self.slot_released().buffering(config, item, weight);
                if !item.expired(now) && held.full(config) {
                    seq![next]
                } else {
                    Seq::empty()
                }
            },
            Happening::FinalFlush => if self.acc.buffer.len() > 0 || config.flush_empty_batches {
                seq![next]
            } else {
                Seq::empty()
            },
            Happening::Bypass => if self.spawns_bypass(config) {
                seq![next + 1]
            } else {
                seq![next]
            },
            Happening::DrainedBypass => seq![next],
            _ => Seq::empty(),
        }
    }

    /// The numbers of the batches that are made in a run, in their order.
    pub open spec fn numbers_in(
        self,
        config: AccumulatorConfig,
        happenings: Seq<Happening<T, R>>,
    ) -> Seq<int>
        decreases happenings.len(),
    {
        if happenings.len() == 0 {
            Seq::empty()
        } else {
            let before = happenings.drop_last();
            self.numbers_in(config, before) + self.run(config, before).numbers(
                config,
                happenings.last(),
            )
        }
    }
}

/// The batches of a run have ascending numbers, so no two have the same; the first is not below
/// the number that was next when the run began, and all are below the one that is next when it
/// ends.
pub proof fn law_batch_numbers_ascend<T, R>(
    system: System<T, R>,
    config: AccumulatorConfig,
    happenings: Seq<Happening<T, R>>,
)
    requires
        system.admits_run(config, happenings),
    ensures
        system.acc.next_batch_id <= system.run(config, happenings).acc.next_batch_id,
        forall|i: int|
            0 <= i < system.numbers_in(config, happenings).len() ==> system.acc.next_batch_id
                <= #[trigger] system.numbers_in(config, happenings)[i] < system.run(
                config,
                happenings,
            ).acc.next_batch_id,
        forall|i: int, j: int|
            0 <= i < j < system.numbers_in(config, happenings).len() ==> system.numbers_in(
                config,
                happenings,
            )[i] < system.numbers_in(config, happenings)[j],
    decreases happenings.len(),
{
    if happenings.len() > 0 {
        let before = happenings.drop_last();
        let middle = system.run(config, before);
        law_batch_numbers_ascend(system, config, before);
        lemma_numbers_step(middle, config, happenings.last());
        let earlier = system.numbers_in(config, before);
        let fresh = middle.numbers(config, happenings.last());
        let all = system.numbers_in(config, happenings);
        assert(all == earlier + fresh);
        assert forall|i: int| 0 <= i < all.len() implies system.acc.next_batch_id
            <= #[trigger] all[i] < system.run(config, happenings).acc.next_batch_id by {
            if i < earlier.len() {
                assert(all[i] == earlier[i]);
            } else {
                assert(all[i] == fresh[i - earlier.len()]);
            }
        }
        assert forall|i: int, j: int| 0 <= i < j < all.len() implies all[i] < all[j] by {
            if j < earlier.len() {
                assert(all[i] == earlier[i] && all[j] == earlier[j]);
            } else {
                assert(all[i] == earlier[i] && all[j] == fresh[0]);
            }
        }
    }
}

/// At most one batch is made at each thing that happens, under a number that was not used before.
proof fn lemma_numbers_step<T, R>(
    system: System<T, R>,
    config: AccumulatorConfig,
    happening: Happening<T, R>,
)
    requires
        system.admits(config, happening),
    ensures
        system.numbers(config, happening).len() <= 1,
        system.acc.next_batch_id <= system.after(config, happening).acc.next_batch_id,
        forall|i: int|
            0 <= i < system.numbers(config, happening).len() ==> system.acc.next_batch_id
                <= #[trigger] system.numbers(config, happening)[i] < system.after(
                config,
                happening,
            ).acc.next_batch_id,
{
}

/// No batch that any run makes of the buffer holds more items than the configuration allows,
/// whatever was paused or in flight meanwhile, and as the accumulator shuts down too.
pub proof fn law_no_batch_exceeds_the_maximum<T, R>(
    system: System<T, R>,
    config: AccumulatorConfig,
    happenings: Seq<Happening<T, R>>,
    max: usize,
    i: int,
)
    requires
        config.max_batch_size == Some(max),
        max > 0,
        0 <= i < happenings.len(),
    ensures
        system.run(config, happenings.take(i)).batched(config, happenings[i]).len() <= max,
{
}

/// The last batches of a shutdown, `times` of them.
pub open spec fn final_flushes<T, R>(times: nat) -> Seq<Happening<T, R>> {
    Seq::new(times, |i: int| Happening::FinalFlush)
}

/// Each of the last batches makes the buffer shorter, and no item comes in meanwhile.
proof fn lemma_final_flushes<T, R>(
    system: System<T, R>,
    config: AccumulatorConfig,
    happenings: Seq<Happening<T, R>>,
    times: nat,
)
    ensures
        ({
            let all = happenings + final_flushes(times);
            let left = system.run(config, all).acc.buffer.len();
            &&& left > 0 ==> left + times <= system.run(config, happenings).acc.buffer.len()
            &&& received_in(all) == received_in(happenings)
        }),
    decreases times,
{
    let all = happenings + final_flushes(times);
    if times == 0 {
        assert(all =~= happenings);
    } else {
        let before = happenings + final_flushes((times - 1) as nat);
        lemma_final_flushes(system, config, happenings, (times - 1) as nat);
        assert(all.drop_last() =~= before);
        assert(all.last() == Happening::<T, R>::FinalFlush);
        assert(received_in(all) =~= received_in(before));
    }
}

/// Once the accumulator has shut down, nothing is left: every item that was buffered before or came
/// out of the queue has gone into a batch or has been dropped because it had timed out. It takes no
/// more of the last batches for that than items were buffered.
pub proof fn law_shutdown_processes_everything<T, R>(
    system: System<T, R>,
    config: AccumulatorConfig,
    happenings: Seq<Happening<T, R>>,
    times: nat,
)
    requires
        system.run(config, happenings).acc.buffer.len() <= times,
    ensures
        ({
            let all = happenings + final_flushes(times);
            &&& system.run(config, all).acc.buffer.len() == 0
            &&& (system.acc.buffer + received_in(happenings)).to_multiset() == (system.batched_in(
                config,
                all,
            ) + system.dropped_in(config, all)).to_multiset()
        }),
{
    let all = happenings + final_flushes(times);
    lemma_final_flushes(system, config, happenings, times);
    law_items_are_conserved(system, config, all);
    assert(system.batched_in(config, all) + system.dropped_in(config, all) + system.run(
        config,
        all,
    ).acc.buffer =~= system.batched_in(config, all) + system.dropped_in(config, all));
}

/// Whether something happens only as the accumulator shuts down.
pub open spec fn shutting_down<T, R>(happening: Happening<T, R>) -> bool {
    happening is DrainedItem || happening is DrainedBypass || happening is FinalFlush
}

/// Until the accumulator shuts down, never more batches are in flight than the configuration
/// allows.
pub proof fn law_inflight_limit_holds<T, R>(
    system: System<T, R>,
    config: AccumulatorConfig,
    happenings: Seq<Happening<T, R>>,
    max_inflight: usize,
)
    requires
        config.concurrency_mode == (ConcurrencyMode::Concurrent { max_inflight }),
        max_inflight > 0,
        system.shared.inflight_count <= max_inflight,
        system.admits_run(config, happenings),
        forall|i: int| 0 <= i < happenings.len() ==> !shutting_down(#[trigger] happenings[i]),
    ensures
        system.run(config, happenings).shared.inflight_count <= max_inflight,
    decreases happenings.len(),
{
    if happenings.len() > 0 {
        let before = happenings.drop_last();
        assert forall|i: int| 0 <= i < before.len() implies !shutting_down(#[trigger] before[i]) by {
            assert(before[i] == happenings[i]);
        }
        law_inflight_limit_holds(system, config, before, max_inflight);
        assert(!shutting_down(happenings[happenings.len() - 1]));
    }
}

/// Whether something that happens puts an item into the queue.
pub open spec fn enters<T, R>(happening: Happening<T, R>) -> int {
    if happening is Submitted {
        1
    } else {
        0
    }
}

/// How many items are put into the queue in a run.
pub open spec fn entered_in<T, R>(happenings: Seq<Happening<T, R>>) -> int
    decreases happenings.len(),
{
    if happenings.len() == 0 {
        0
    } else {
        entered_in(happenings.drop_last()) + enters(happenings.last())
    }
}

/// The items that wait in the queue at the end of a run are those that waited before and those
/// that were put in, less those that came out.
pub proof fn law_pending_counts_the_queue<T, R>(
    system: System<T, R>,
    config: AccumulatorConfig,
    happenings: Seq<Happening<T, R>>,
)
    requires
        system.admits_run(config, happenings),
    ensures
        system.run(config, happenings).shared.pending_count == system.shared.pending_count
            + entered_in(happenings) - received_in(happenings).len(),
    decreases happenings.len(),
{
    if happenings.len() > 0 {
        law_pending_counts_the_queue(system, config, happenings.drop_last());
    }
}

/// How many things of a run are of a kind.
pub open spec fn times<T, R>(
    happenings: Seq<Happening<T, R>>,
    kind: spec_fn(Happening<T, R>) -> bool,
) -> nat {
    happenings.filter(kind).len()
}

/// Whether a counter has gone up by so many, starting again from zero at the end of its range.
pub open spec fn went_up(before: u64, after: u64, by: int) -> bool {
    after == (before + by) % 0x1_0000_0000_0000_0000
}

/// A counter that has gone up twice has gone up by both.
proof fn lemma_went_up_twice(before: u64, middle: u64, after: u64, a: int, b: int)
    requires
        went_up(before, middle, a),
        went_up(middle, after, b),
        0 <= a,
        0 <= b,
    ensures
        went_up(before, after, a + b),
{
    vstd::arithmetic::div_mod::lemma_add_mod_noop(
        before + a,
        b,
        0x1_0000_0000_0000_0000,
    );
    assert(((before + a) % 0x1_0000_0000_0000_0000 + b) % 0x1_0000_0000_0000_0000 == (before + a
        + b) % 0x1_0000_0000_0000_0000) by (nonlinear_arith);
}

/// One thing that happens moves the counters that are named after it.
proof fn lemma_counters_step<T, R>(
    system: System<T, R>,
    config: AccumulatorConfig,
    happening: Happening<T, R>,
)
    requires
        system.sound(config),
    ensures
        ({
            let before = system.shared.stats;
            let after = system.after(config, happening).shared.stats;
            &&& went_up(
                before.dropped_timeout,
                after.dropped_timeout,
                system.dropped(happening).len() as int,
            )
            &&& went_up(before.submitted, after.submitted, if happening is Submitted {
                1
            } else {
                0
            })
            &&& went_up(before.rejected, after.rejected, if happening is Rejected {
                1
            } else {
                0
            })
            &&& went_up(before.bypassed, after.bypassed, if happening is BypassSent {
                1
            } else {
                0
            })
            &&& went_up(before.flushed, after.flushed, if finishes(happening) {
                1
            } else {
                0
            })
        }),
{
    match happening {
        Happening::Expiry { now } => {
            lemma_expiry_splits_lengths(system.acc.buffer, system.acc.weights, now);
        },
        _ => {},
    }
}

/// Whether a batch is finished at something that happens.
pub open spec fn finishes<T, R>(happening: Happening<T, R>) -> bool {
    happening is Finished || happening is Feedback || happening is FinalFinished
}

/// One more thing is counted where it is of the kind.
proof fn lemma_times_step<T, R>(
    happenings: Seq<Happening<T, R>>,
    kind: spec_fn(Happening<T, R>) -> bool,
)
    requires
        happenings.len() > 0,
    ensures
        times(happenings, kind) == times(happenings.drop_last(), kind) + if kind(
            happenings.last(),
        ) {
            1nat
        } else {
            0nat
        },
{
    reveal(Seq::filter);
}

/// In any run each counter goes up by as many as it is named after: one for each item that was
/// submitted, for each that was turned away, for each that was sent past the queue, for each batch
/// that was finished, and for each item that was dropped because it had timed out.
pub proof fn law_counters_count_what_happened<T, R>(
    system: System<T, R>,
    config: AccumulatorConfig,
    happenings: Seq<Happening<T, R>>,
)
    requires
        system.sound(config),
        system.admits_run(config, happenings),
    ensures
        ({
            let before = system.shared.stats;
            let after = system.run(config, happenings).shared.stats;
            &&& went_up(
                before.dropped_timeout,
                after.dropped_timeout,
                system.dropped_in(config, happenings).len() as int,
            )
            &&& went_up(
                before.submitted,
                after.submitted,
                times(happenings, |h: Happening<T, R>| h is Submitted) as int,
            )
            &&& went_up(
                before.rejected,
                after.rejected,
                times(happenings, |h: Happening<T, R>| h is Rejected) as int,
            )
            &&& went_up(
                before.bypassed,
                after.bypassed,
                times(happenings, |h: Happening<T, R>| h is BypassSent) as int,
            )
            &&& went_up(
                before.flushed,
                after.flushed,
                times(
                    happenings,
                    |h: Happening<T, R>| h is Finished || h is Feedback || h is FinalFinished,
                ) as int,
            )
        }),
    decreases happenings.len(),
{
    let submits = |h: Happening<T, R>| h is Submitted;
    let rejects = |h: Happening<T, R>| h is Rejected;
    let sends = |h: Happening<T, R>| h is BypassSent;
    let ends = |h: Happening<T, R>| h is Finished || h is Feedback || h is FinalFinished;
    let start = system.shared.stats;
    if happenings.len() == 0 {
        reveal(Seq::filter);
    } else {
        let before = happenings.drop_last();
        let last = happenings.last();
        let middle = system.run(config, before);
        let was = middle.shared.stats;
        let is = middle.after(config, last).shared.stats;
        law_runs_stay_sound(system, config, before);
        law_counters_count_what_happened(system, config, before);
        lemma_counters_step(middle, config, last);
        lemma_times_step(happenings, submits);
        lemma_times_step(happenings, rejects);
        lemma_times_step(happenings, sends);
        lemma_times_step(happenings, ends);
        lemma_went_up_twice(
            start.dropped_timeout,
            was.dropped_timeout,
            is.dropped_timeout,
            system.dropped_in(config, before).len() as int,
            middle.dropped(last).len() as int,
        );
        lemma_went_up_twice(
            start.submitted,
            was.submitted,
            is.submitted,
            times(before, submits) as int,
            if last is Submitted {
                1
            } else {
                0
            },
        );
        lemma_went_up_twice(
            start.rejected,
            was.rejected,
            is.rejected,
            times(before, rejects) as int,
            if last is Rejected {
                1
            } else {
                0
            },
        );
        lemma_went_up_twice(
            start.bypassed,
            was.bypassed,
            is.bypassed,
            times(before, sends) as int,
            if last is BypassSent {
                1
            } else {
                0
            },
        );
        lemma_went_up_twice(
            start.flushed,
            was.flushed,
            is.flushed,
            times(before, ends) as int,
            if finishes(last) {
                1
            } else {
                0
            },
        );
    }
}

/// The sum of what items weigh.
pub open spec fn total_weight<T, R>(
    weigh: spec_fn(T) -> usize,
    items: Seq<ChannelItem<T, R>>,
) -> nat
    decreases items.len(),
{
    if items.len() == 0 {
        0
    } else {
        total_weight(weigh, items.drop_last()) + weigh(items.last().value) as nat
    }
}

/// Whether the weight that comes with something that happens is that of the item.
pub open spec fn weighs_truly<T, R>(
    weigh: spec_fn(T) -> usize,
    happening: Happening<T, R>,
) -> bool {
    match happening {
        Happening::Item { item, weight, .. } => weight == weigh(item.value),
        Happening::DrainedItem { item, weight, .. } => weight == weigh(item.value),
        _ => true,
    }
}

/// What items weigh, one by one.
pub open spec fn weights_of<T, R>(
    weigh: spec_fn(T) -> usize,
    items: Seq<ChannelItem<T, R>>,
) -> Seq<usize> {
    items.map_values(|item: ChannelItem<T, R>| weigh(item.value))
}

/// What two rows weigh together.
proof fn lemma_weight_joined<T, R>(
    weigh: spec_fn(T) -> usize,
    a: Seq<ChannelItem<T, R>>,
    b: Seq<ChannelItem<T, R>>,
)
    ensures
        total_weight(weigh, a + b) == total_weight(weigh, a) + total_weight(weigh, b),
    decreases b.len(),
{
    if b.len() == 0 {
        assert(a + b =~= a);
    } else {
        lemma_weight_joined(weigh, a, b.drop_last());
        assert((a + b).drop_last() =~= a + b.drop_last());
        assert((a + b).last() == b.last());
    }
}

/// What the items that have timed out and those that have not weigh, one by one and together.
proof fn lemma_weight_split<T, R>(
    weigh: spec_fn(T) -> usize,
    items: Seq<ChannelItem<T, R>>,
    weights: Seq<usize>,
    now: Moment,
)
    requires
        weights.len() >= items.len(),
        forall|i: int| 0 <= i < items.len() ==> #[trigger] weights[i] == weigh(items[i].value),
    ensures
        total_weight(weigh, items) == total_weight(weigh, crate::item::expired_items(items, now))
            + total_weight(weigh, crate::item::live_items(items, now)),
        crate::item::expired_weights(items, weights, now) == weights_of(
            weigh,
            crate::item::expired_items(items, now),
        ),
        crate::item::live_weights(items, weights, now) == weights_of(
            weigh,
            crate::item::live_items(items, now),
        ),
    decreases items.len(),
{
    let gone = crate::item::expired_items(items, now);
    let kept = crate::item::live_items(items, now);
    if items.len() > 0 {
        let front = items.drop_last();
        assert forall|i: int| 0 <= i < front.len() implies #[trigger] weights[i] == weigh(
            front[i].value,
        ) by {
            assert(front[i] == items[i]);
        }
        lemma_weight_split(weigh, front, weights, now);
        assert(weights[items.len() - 1] == weigh(items[items.len() - 1].value));
        if items.last().expired(now) {
            assert(gone.drop_last() =~= crate::item::expired_items(front, now));
        } else {
            assert(kept.drop_last() =~= crate::item::live_items(front, now));
        }
    }
    assert(crate::item::expired_weights(items, weights, now) =~= weights_of(weigh, gone));
    assert(crate::item::live_weights(items, weights, now) =~= weights_of(weigh, kept));
}

/// Taking away the weights of some items from a weight that they are part of.
proof fn lemma_lighter_by_items<T, R>(
    weigh: spec_fn(T) -> usize,
    weight: usize,
    gone: Seq<ChannelItem<T, R>>,
)
    requires
        total_weight(weigh, gone) <= weight,
    ensures
        crate::system::lighter_by_all(weight, weights_of(weigh, gone)) == weight - total_weight(
            weigh,
            gone,
        ),
    decreases gone.len(),
{
    if gone.len() > 0 {
        lemma_lighter_by_items(weigh, weight, gone.drop_last());
        assert(weights_of(weigh, gone).drop_last() =~= weights_of(weigh, gone.drop_last()));
    }
}

/// Taking a batch out of the buffer leaves the weights, one by one and together, those of what is
/// left.
proof fn lemma_flushed_weight<T, R>(
    weigh: spec_fn(T) -> usize,
    acc: AccumulatorModel<T, R>,
    config: AccumulatorConfig,
)
    requires
        acc.weights == weights_of(weigh, acc.buffer),
        acc.current_weight == total_weight(weigh, acc.buffer),
    ensures
        acc.flushed(config).weights == weights_of(weigh, acc.flushed(config).buffer),
        acc.flushed(config).current_weight == total_weight(weigh, acc.flushed(config).buffer),
        acc.flushed(config).current_weight <= acc.current_weight,
{
    let n = acc.next_len(config);
    let rest = acc.flushed(config).buffer;
    lemma_next_and_rest(acc, config);
    lemma_weight_joined(weigh, acc.next_items(config), rest);
    assert(acc.weights.take(n) =~= weights_of(weigh, acc.next_items(config)));
    assert(acc.weights.skip(n) =~= weights_of(weigh, rest));
    lemma_lighter_by_items(weigh, acc.current_weight, acc.next_items(config));
    if n == acc.buffer.len() {
        assert(rest =~= Seq::empty());
    }
}

/// Buffering an item keeps the weights, one by one and together, those of what is buffered.
proof fn lemma_buffered_weight<T, R>(
    weigh: spec_fn(T) -> usize,
    acc: AccumulatorModel<T, R>,
    item: ChannelItem<T, R>,
)
    requires
        acc.weights == weights_of(weigh, acc.buffer),
        acc.current_weight == total_weight(weigh, acc.buffer),
        total_weight(weigh, acc.buffer) + weigh(item.value) <= usize::MAX,
    ensures
        ({
            let held = acc.buffered(item, weigh(item.value));
            &&& held.weights == weights_of(weigh, held.buffer)
            &&& held.current_weight == total_weight(weigh, held.buffer)
            &&& held.current_weight == acc.current_weight + weigh(item.value)
        }),
{
    let held = acc.buffered(item, weigh(item.value));
    lemma_one_weight(weigh, item);
    lemma_weight_joined(weigh, seq![item], acc.buffer);
    lemma_weight_joined(weigh, acc.buffer, seq![item]);
    assert(acc.buffer + seq![item] =~= acc.buffer.push(item));
    assert(held.weights =~= weights_of(weigh, held.buffer));
}

/// What one item weighs.
proof fn lemma_one_weight<T, R>(weigh: spec_fn(T) -> usize, item: ChannelItem<T, R>)
    ensures
        total_weight(weigh, seq![item]) == weigh(item.value),
{
    assert(seq![item].drop_last() =~= Seq::empty());
    assert(total_weight(weigh, Seq::<ChannelItem<T, R>>::empty()) == 0);
}

/// Whether the weights that are kept are those of the buffered items, one by one and together.
pub open spec fn holds_true_weights<T, R>(
    weigh: spec_fn(T) -> usize,
    acc: AccumulatorModel<T, R>,
) -> bool {
    &&& acc.weights == weights_of(weigh, acc.buffer)
    &&& acc.current_weight == total_weight(weigh, acc.buffer)
}

/// Each thing that happens, other than that items come in or time out, leaves the kept weights
/// those of the items that it leaves.
proof fn lemma_flush_keeps_weights<T, R>(
    weigh: spec_fn(T) -> usize,
    system: System<T, R>,
    config: AccumulatorConfig,
    happening: Happening<T, R>,
)
    requires
        holds_true_weights(weigh, system.acc),
        !(happening is Item),
        !(happening is DrainedItem),
        !(happening is Expiry),
    ensures
        holds_true_weights(weigh, system.after(config, happening).acc),
        system.after(config, happening).acc.current_weight <= system.acc.current_weight,
{
    let end = system.after(config, happening).acc;
    let flushed = system.acc.flushed(config);
    lemma_flushed_weight(weigh, system.acc, config);
    assert((end.buffer == system.acc.buffer && end.weights == system.acc.weights
        && end.current_weight == system.acc.current_weight) || (end.buffer == flushed.buffer
        && end.weights == flushed.weights && end.current_weight == flushed.current_weight));
}

/// So does an item that comes in.
proof fn lemma_item_keeps_weights<T, R>(
    weigh: spec_fn(T) -> usize,
    system: System<T, R>,
    config: AccumulatorConfig,
    item: ChannelItem<T, R>,
    waited: Duration,
    now: Moment,
)
    requires
        holds_true_weights(weigh, system.acc),
        total_weight(weigh, system.acc.buffer) + weigh(item.value) <= usize::MAX,
    ensures
        ({
            let end = system.after_item(config, item, weigh(item.value), waited, now).acc;
            &&& holds_true_weights(weigh, end)
            &&& end.current_weight <= system.acc.current_weight + weigh(item.value)
        }),
{
    let held = system.taking_in(config, item, weigh(item.value), waited);
    let end = system.after_item(config, item, weigh(item.value), waited, now).acc;
    if !item.expired(now) {
        lemma_buffered_weight(weigh, system.acc, item);
        assert(holds_true_weights(weigh, held.acc));
        let flushed = held.acc.flushed(config);
        lemma_flushed_weight(weigh, held.acc, config);
        assert((end.buffer == held.acc.buffer && end.weights == held.acc.weights
            && end.current_weight == held.acc.current_weight) || (end.buffer == flushed.buffer
            && end.weights == flushed.weights && end.current_weight == flushed.current_weight));
    }
}

/// So does an item that comes in as the accumulator shuts down.
proof fn lemma_drained_item_keeps_weights<T, R>(
    weigh: spec_fn(T) -> usize,
    system: System<T, R>,
    config: AccumulatorConfig,
    item: ChannelItem<T, R>,
    now: Moment,
)
    requires
        holds_true_weights(weigh, system.acc),
        total_weight(weigh, system.acc.buffer) + weigh(item.value) <= usize::MAX,
    ensures
        ({
            let end = system.after_drained_item(config, item, weigh(item.value), now).acc;
            &&& holds_true_weights(weigh, end)
            &&& end.current_weight <= system.acc.current_weight + weigh(item.value)
        }),
{
    let held = system.slot_released().buffering(config, item, weigh(item.value));
    if !item.expired(now) {
        lemma_buffered_weight(weigh, system.acc, item);
        assert(holds_true_weights(weigh, held.acc));
        lemma_flushed_weight(weigh, held.acc, config);
    }
}

/// So do items that time out.
proof fn lemma_expiry_keeps_weights<T, R>(
    weigh: spec_fn(T) -> usize,
    system: System<T, R>,
    config: AccumulatorConfig,
    now: Moment,
)
    requires
        holds_true_weights(weigh, system.acc),
    ensures
        holds_true_weights(weigh, system.after_expiry(config, now).acc),
        system.after_expiry(config, now).acc.current_weight <= system.acc.current_weight,
{
    let gone = crate::item::expired_items(system.acc.buffer, now);
    lemma_weight_split(weigh, system.acc.buffer, system.acc.weights, now);
    lemma_lighter_by_items(weigh, system.acc.current_weight, gone);
}

/// The weights that are kept are always those of the buffered items, one by one and together, as
/// long as each item comes with its weight and all items of the run together weigh no more than a
/// weight can be.
pub proof fn law_weight_is_the_sum<T, R>(
    weigh: spec_fn(T) -> usize,
    system: System<T, R>,
    config: AccumulatorConfig,
    happenings: Seq<Happening<T, R>>,
)
    requires
        forall|i: int|
            0 <= i < happenings.len() ==> weighs_truly(weigh, #[trigger] happenings[i]),
        holds_true_weights(weigh, system.acc),
        total_weight(weigh, system.acc.buffer) + total_weight(weigh, received_in(happenings))
            <= usize::MAX,
    ensures
        holds_true_weights(weigh, system.run(config, happenings).acc),
        system.run(config, happenings).acc.current_weight <= total_weight(weigh, system.acc.buffer)
            + total_weight(weigh, received_in(happenings)),
    decreases happenings.len(),
{
    if happenings.len() > 0 {
        let before = happenings.drop_last();
        let last = happenings.last();
        let middle = system.run(config, before);
        assert forall|i: int| 0 <= i < before.len() implies weighs_truly(
            weigh,
            #[trigger] before[i],
        ) by {
            assert(before[i] == happenings[i]);
        }
        assert(weighs_truly(weigh, happenings[happenings.len() - 1]));
        lemma_weight_joined(weigh, received_in(before), received(last));
        law_weight_is_the_sum(weigh, system, config, before);
        match last {
            Happening::Item { item, weight, waited, now } => {
                lemma_one_weight(weigh, item);
                lemma_item_keeps_weights(weigh, middle, config, item, waited, now);
            },
            Happening::DrainedItem { item, weight, now } => {
                lemma_one_weight(weigh, item);
                lemma_drained_item_keeps_weights(weigh, middle, config, item, now);
            },
            Happening::Expiry { now } => {
                lemma_expiry_keeps_weights(weigh, middle, config, now);
            },
            _ => {
                lemma_flush_keeps_weights(weigh, middle, config, last);
            },
        }
    }
}

} // verus!
