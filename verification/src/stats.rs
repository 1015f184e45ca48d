//! Counters and timings of a running accumulator.
use std::time::Duration;

use vstd::prelude::*;
use vstd::relations::{sorted_by, total_ordering};

use crate::time::duration_nanos;

verus! {

/// How many of the latest timings are kept.
pub const MAX_LATENCY_SAMPLES: usize = 1000;

/// A share of a whole, kept as a fraction.
#[derive(Debug, Clone, Copy, PartialEq, Eq, Structural)]
pub struct Ratio {
    /// The part.
    pub numerator: usize,
    /// The whole; never zero.
    pub denominator: usize,
}

/// Whether an accumulator is well.
#[derive(Debug, Clone, Copy)]
pub struct AccumulatorHealth {
    /// Whether it still takes items.
    pub is_accepting: bool,
    /// How much of the queue is in use; zero where the queue has no limit.
    pub queue_utilization: Ratio,
    /// The current window.
    pub current_window: Duration,
    /// How many batches are in flight.
    pub inflight_count: usize,
    /// How many items were turned away because the queue was full.
    pub total_rejected: u64,
}

/// The state of an accumulator's counters and timings at one point.
#[derive(Debug, Clone, Copy)]
pub struct StatsSnapshot {
    /// How many items were submitted.
    pub total_submitted: u64,
    /// How many batches were flushed.
    pub total_flushed: u64,
    /// How many items were dropped because they timed out.
    pub total_dropped_timeout: u64,
    /// How many items bypassed the buffer.
    pub total_bypassed: u64,
    /// How many items were turned away because the queue was full.
    pub total_rejected: u64,
    /// How many items wait in the queue.
    pub queue_depth: usize,
    /// How many items are buffered.
    pub buffer_size: usize,
    /// How many batches are in flight.
    pub inflight_count: usize,
    /// The weight of the buffered items; zero where no weight is tracked.
    pub current_weight: usize,
    /// The current window.
    pub current_window: Duration,
    /// The median time that an item waited in the queue.
    pub p50_queue_wait: Duration,
    /// The 99th percentile of the time that an item waited in the queue.
    pub p99_queue_wait: Duration,
    /// The mean time that an item waited in the queue.
    pub avg_queue_wait: Duration,
    /// The median time that a batch took.
    pub p50_latency: Duration,
    /// The 99th percentile of the time that a batch took.
    pub p99_latency: Duration,
    /// The mean time that a batch took.
    pub avg_latency: Duration,
    /// The longest time that a batch took.
    pub max_latency: Duration,
}

/// What an accumulator's statistics hold.
pub struct StatsModel {
    /// How many items were submitted.
    pub submitted: u64,
    /// How many batches were flushed.
    pub flushed: u64,
    /// How many items were dropped because they timed out.
    pub dropped_timeout: u64,
    /// How many items bypassed the buffer.
    pub bypassed: u64,
    /// How many items were turned away because the queue was full.
    pub rejected: u64,
    /// The latest times that batches took, the oldest first.
    pub latencies: Seq<Duration>,
    /// The latest times that items waited in the queue, the oldest first.
    pub waits: Seq<Duration>,
}

/// A counter that has gone up by `count`. It wraps around at the end of its range.
pub open spec fn counted(counter: u64, count: u64) -> u64 {
    ((counter + count) % 0x1_0000_0000_0000_0000) as u64
}

/// The timings that are kept once `sample` has come in: where there is no room left, the oldest
/// one goes.
pub open spec fn with_sample(samples: Seq<Duration>, sample: Duration) -> Seq<Duration> {
    if samples.len() >= MAX_LATENCY_SAMPLES {
        samples.drop_first().push(sample)
    } else {
        samples.push(sample)
    }
}

impl StatsModel {
    /// Statistics in which nothing has been recorded.
    pub open spec fn empty() -> StatsModel {
        StatsModel {
            submitted: 0,
            flushed: 0,
            dropped_timeout: 0,
            bypassed: 0,
            rejected: 0,
            latencies: Seq::empty(),
            waits: Seq::empty(),
        }
    }

    /// Whether no more timings are kept than there is room for.
    pub open spec fn wf(self) -> bool {
        self.latencies.len() <= MAX_LATENCY_SAMPLES && self.waits.len() <= MAX_LATENCY_SAMPLES
    }

    /// The statistics once a submitted item has been counted.
    pub open spec fn after_submit(self) -> StatsModel {
        StatsModel { submitted: counted(self.submitted, 1), ..self }
    }

    /// The statistics once the time that an item waited has been recorded.
    pub open spec fn after_wait(self, wait: Duration) -> StatsModel {
        StatsModel { waits: with_sample(self.waits, wait), ..self }
    }

    /// The statistics once a batch that took `execution_time` has been recorded.
    pub open spec fn after_flush(self, execution_time: Duration) -> StatsModel {
        StatsModel {
            flushed: counted(self.flushed, 1),
            latencies: with_sample(self.latencies, execution_time),
            ..self
        }
    }

    /// The statistics once `count` timed out items have been counted.
    pub open spec fn after_dropped_timeout(self, count: u64) -> StatsModel {
        StatsModel { dropped_timeout: counted(self.dropped_timeout, count), ..self }
    }

    /// The statistics once an item that bypassed the buffer has been counted.
    pub open spec fn after_bypass(self) -> StatsModel {
        StatsModel { bypassed: counted(self.bypassed, 1), ..self }
    }

    /// The statistics once an item that was turned away has been counted.
    pub open spec fn after_rejected(self) -> StatsModel {
        StatsModel { rejected: counted(self.rejected, 1), ..self }
    }
}

/// The counters and timings of an accumulator.
pub struct AccumulatorStats {
    total_submitted: u64,
    total_flushed: u64,
    total_dropped_timeout: u64,
    total_bypassed: u64,
    total_rejected: u64,
    latency_samples: Vec<Duration>,
    wait_samples: Vec<Duration>,
}

impl View for AccumulatorStats {
    type V = StatsModel;

    closed spec fn view(&self) -> StatsModel {
        StatsModel {
            submitted: self.total_submitted,
            flushed: self.total_flushed,
            dropped_timeout: self.total_dropped_timeout,
            bypassed: self.total_bypassed,
            rejected: self.total_rejected,
            latencies: self.latency_samples@,
            waits: self.wait_samples@,
        }
    }
}

/// The lengths of timings in nanoseconds.
pub open spec fn nanos_of(samples: Seq<Duration>) -> Seq<int> {
    samples.map_values(|d: Duration| duration_nanos(d) as int)
}

/// The sum of timings in nanoseconds.
pub open spec fn sum_nanos(samples: Seq<Duration>) -> nat
    decreases samples.len(),
{
    if samples.len() == 0 {
        0
    } else {
        sum_nanos(samples.drop_last()) + duration_nanos(samples.last())
    }
}

/// The mean of timings in whole nanoseconds, cut to 64 bits; zero where there are none.
pub open spec fn mean_nanos(samples: Seq<Duration>) -> nat {
    if samples.len() == 0 {
        0
    } else {
        (sum_nanos(samples) / samples.len()) % 0x1_0000_0000_0000_0000
    }
}

/// Where the `percent`th percentile stands among `len` timings in ascending order.
pub open spec fn percentile_rank(len: nat, percent: nat) -> int {
    (len - 1) * percent / 100
}

/// Whether `d` is the `percent`th percentile of timings: the one at that rank in ascending order,
/// or zero where there are none.
pub open spec fn is_percentile(samples: Seq<Duration>, percent: nat, d: Duration) -> bool {
    if samples.len() == 0 {
        duration_nanos(d) == 0
    } else {
        &&& samples.contains(d)
        &&& duration_nanos(d) == nanos_of(samples).sort()[percentile_rank(samples.len(), percent)]
    }
}

/// Timings that come in sorted, and that are the same ones, are the sorted timings.
proof fn lemma_sorted_is_sort(sorted: Seq<int>, nanos: Seq<int>)
    requires
        sorted.to_multiset() == nanos.to_multiset(),
        forall|i: int, j: int| 0 <= i <= j < sorted.len() ==> sorted[i] <= sorted[j],
    ensures
        sorted == nanos.sort(),
{
    nanos.lemma_sort_ensures();
    let leq = |x: int, y: int| x <= y;
    assert(total_ordering(leq));
    assert(sorted_by(sorted, leq));
    assert(sorted_by(nanos.sort(), leq));
    vstd::seq_lib::lemma_sorted_unique(sorted, nanos.sort(), leq);
}

/// Whether timings stand in ascending order.
pub open spec fn ascending(samples: Seq<Duration>) -> bool {
    forall|i: int, j: int|
        0 <= i <= j < samples.len() ==> duration_nanos(samples[i]) <= duration_nanos(samples[j])
}

/// Puts two rows of timings in ascending order together to one.
fn merged(a: &Vec<Duration>, b: &Vec<Duration>) -> (all: Vec<Duration>)
    requires
        ascending(a@),
        ascending(b@),
        a@.len() + b@.len() <= usize::MAX,
    ensures
        ascending(all@),
        all@.to_multiset() == a@.to_multiset().add(b@.to_multiset()),
{
    let mut all: Vec<Duration> = Vec::with_capacity(a.len() + b.len());
    let mut i: usize = 0;
    let mut j: usize = 0;
    proof {
        assert(a@.take(0) =~= Seq::empty() && b@.take(0) =~= Seq::empty());
        assert(all@.to_multiset() =~= a@.take(0).to_multiset().add(b@.take(0).to_multiset())) by {
            vstd::seq_lib::to_multiset_len(all@);
            vstd::seq_lib::to_multiset_len(a@.take(0));
            vstd::seq_lib::to_multiset_len(b@.take(0));
        }
    }
    while i < a.len() || j < b.len()
        invariant
            i <= a@.len(),
            j <= b@.len(),
            ascending(a@),
            ascending(b@),
            ascending(all@),
            all@.to_multiset() == a@.take(i as int).to_multiset().add(
                b@.take(j as int).to_multiset(),
            ),
            all@.len() > 0 && i < a@.len() ==> duration_nanos(all@.last()) <= duration_nanos(
                a@[i as int],
            ),
            all@.len() > 0 && j < b@.len() ==> duration_nanos(all@.last()) <= duration_nanos(
                b@[j as int],
            ),
        decreases (a@.len() - i) + (b@.len() - j),
    {
        let from_a = j == b.len() || (i < a.len() && a[i].as_nanos() <= b[j].as_nanos());
        let next = if from_a {
            a[i]
        } else {
            b[j]
        };
        proof {
            broadcast use vstd::seq_lib::group_to_multiset_ensures;

            if from_a {
                assert(a@.take(i + 1) =~= a@.take(i as int).push(next));
            } else {
                assert(b@.take(j + 1) =~= b@.take(j as int).push(next));
            }
            let seen_a = a@.take(i as int).to_multiset();
            let seen_b = b@.take(j as int).to_multiset();
            assert(seen_a.insert(next).add(seen_b) =~= seen_a.add(seen_b).insert(next));
            assert(seen_a.add(seen_b.insert(next)) =~= seen_a.add(seen_b).insert(next));
        }
        all.push(next);
        if from_a {
            i = i + 1;
        } else {
            j = j + 1;
        }
    }
    assert(a@.take(i as int) =~= a@ && b@.take(j as int) =~= b@);
    all
}

/// Some timings of a row, in ascending order.
fn sorted_part(samples: &[Duration], from: usize, to: usize) -> (sorted: Vec<Duration>)
    requires
        from <= to <= samples@.len(),
    ensures
        ascending(sorted@),
        sorted@.len() == to - from,
        sorted@.to_multiset() == samples@.subrange(from as int, to as int).to_multiset(),
    decreases to - from,
{
    if to - from <= 1 {
        let mut sorted: Vec<Duration> = Vec::with_capacity(1);
        if from < to {
            sorted.push(samples[from]);
        }
        assert(sorted@ =~= samples@.subrange(from as int, to as int));
        return sorted;
    }
    let middle: usize = from + (to - from) / 2;
    let left = sorted_part(samples, from, middle);
    let right = sorted_part(samples, middle, to);
    let sorted = merged(&left, &right);
    proof {
        let a = samples@.subrange(from as int, middle as int);
        let b = samples@.subrange(middle as int, to as int);
        assert(a + b =~= samples@.subrange(from as int, to as int));
        vstd::seq_lib::lemma_multiset_commutative(a, b);
        vstd::seq_lib::to_multiset_len(sorted@);
        vstd::seq_lib::to_multiset_len(a + b);
    }
    sorted
}

/// Rows of the same timings, whatever their order, are rows of the same lengths, with the same sum.
proof fn lemma_same_timings(a: Seq<Duration>, b: Seq<Duration>)
    requires
        a.to_multiset() == b.to_multiset(),
    ensures
        a.len() == b.len(),
        nanos_of(a).to_multiset() == nanos_of(b).to_multiset(),
        sum_nanos(a) == sum_nanos(b),
    decreases a.len(),
{
    vstd::seq_lib::to_multiset_len(a);
    vstd::seq_lib::to_multiset_len(b);
    if a.len() == 0 {
        assert(a =~= b);
    } else {
        let last = a.last();
        let nanos = duration_nanos(last) as int;
        let rest = a.drop_last();
        assert(a =~= rest.push(last));
        vstd::seq_lib::to_multiset_build(rest, last);
        vstd::seq_lib::to_multiset_contains(b, last);
        assert(b.contains(last));
        let at = choose|at: int| 0 <= at < b.len() && b[at] == last;
        let others = b.remove(at);
        assert(b =~= others.insert(at, last));
        vstd::seq_lib::to_multiset_insert(others, at, last);
        assert(rest.to_multiset() =~= a.to_multiset().remove(last));
        assert(others.to_multiset() =~= b.to_multiset().remove(last));
        lemma_same_timings(rest, others);
        assert(nanos_of(a) =~= nanos_of(rest).push(nanos));
        assert(nanos_of(b) =~= nanos_of(others).insert(at, nanos));
        vstd::seq_lib::to_multiset_build(nanos_of(rest), nanos);
        vstd::seq_lib::to_multiset_insert(nanos_of(others), at, nanos);
        lemma_sum_without(b, at);
    }
}

/// The lengths of timings in ascending order are the sorted lengths of the same timings.
pub(crate) proof fn lemma_sorted_timings(sorted: Seq<Duration>, samples: Seq<Duration>)
    requires
        sorted.to_multiset() == samples.to_multiset(),
        forall|i: int, j: int|
            0 <= i <= j < sorted.len() ==> duration_nanos(sorted[i]) <= duration_nanos(sorted[j]),
    ensures
        sorted.len() == samples.len(),
        nanos_of(sorted) == nanos_of(samples).sort(),
{
    lemma_same_timings(sorted, samples);
    lemma_sorted_is_sort(nanos_of(sorted), nanos_of(samples));
}

/// The sum of timings is that of all but one, and that one.
proof fn lemma_sum_without(samples: Seq<Duration>, at: int)
    requires
        0 <= at < samples.len(),
    ensures
        sum_nanos(samples) == sum_nanos(samples.remove(at)) + duration_nanos(samples[at]),
    decreases samples.len(),
{
    if at == samples.len() - 1 {
        assert(samples.remove(at) =~= samples.drop_last());
    } else {
        lemma_sum_without(samples.drop_last(), at);
        assert(samples.remove(at).drop_last() =~= samples.drop_last().remove(at));
        assert(samples.remove(at).last() == samples.last());
    }
}

/// The sum of the first timings is at most that of all.
proof fn lemma_sum_grows(samples: Seq<Duration>, n: int)
    requires
        0 <= n <= samples.len(),
    ensures
        sum_nanos(samples.take(n)) <= sum_nanos(samples),
    decreases samples.len(),
{
    if n == samples.len() {
        assert(samples.take(n) =~= samples);
    } else {
        lemma_sum_grows(samples.drop_last(), n);
        assert(samples.drop_last().take(n) =~= samples.take(n));
    }
}

/// Whether 128 bits have room for the sum of timings, be it that they are short enough or that no
/// timings of that number are too long.
pub open spec fn sum_has_room(samples: Seq<Duration>) -> bool {
    sum_nanos(samples) <= u128::MAX || samples.len() <= 0x4_0000_0000
}

/// The sum of timings in nanoseconds.
fn total_nanos(samples: &[Duration]) -> (total: u128)
    requires
        sum_has_room(samples@),
    ensures
        total == sum_nanos(samples@),
{
    let mut total: u128 = 0;
    let mut i: usize = 0;
    while i < samples.len()
        invariant
            i <= samples@.len(),
            sum_has_room(samples@),
            total == sum_nanos(samples@.take(i as int)),
            total <= i * 18446744073709551615999999999,
        decreases samples@.len() - i,
    {
        let nanos: u128 = samples[i].as_nanos();
        proof {
            assert(samples@.take(i + 1).drop_last() =~= samples@.take(i as int));
            lemma_sum_grows(samples@, i + 1);
        }
        total = total + nanos;
        i += 1;
    }
    assert(samples@.take(i as int) =~= samples@);
    total
}

/// The median, the 99th percentile, the mean and the longest of timings; all zero where there are
/// none. There may be as many timings as a 128-bit sum and the ranks have room for.
pub fn percentiles(samples: &[Duration]) -> (figures: (Duration, Duration, Duration, Duration))
    requires
        sum_has_room(samples@),
        (samples@.len() - 1) * 99 <= usize::MAX,
    ensures
        is_percentile(samples@, 50, figures.0),
        is_percentile(samples@, 99, figures.1),
        duration_nanos(figures.2) == mean_nanos(samples@),
        is_percentile(samples@, 100, figures.3),
{
    if samples.len() == 0 {
        let zero = Duration::from_nanos(0);
        return (zero, zero, zero, zero);
    }
    let len: usize = samples.len();
    let sorted = sorted_part(samples, 0, len);
    let total_ns: u128 = total_nanos(samples);
    proof {
        assert(samples@.subrange(0, len as int) =~= samples@);
        lemma_same_timings(sorted@, samples@);
        lemma_sorted_is_sort(nanos_of(sorted@), nanos_of(samples@));
        assert forall|k: int| 0 <= k < len implies samples@.contains(#[trigger] sorted@[k]) by {
            assert(sorted@.contains(sorted@[k]));
            vstd::seq_lib::to_multiset_contains(sorted@, sorted@[k]);
            vstd::seq_lib::to_multiset_contains(samples@, sorted@[k]);
        }
    }
    let p50 = sorted[(len - 1) * 50 / 100];
    let p99 = sorted[(len - 1) * 99 / 100];
    let max = sorted[len - 1];
    let mean: u128 = total_ns / (len as u128);
    let avg = Duration::from_nanos((mean % 0x1_0000_0000_0000_0000) as u64);
    (p50, p99, avg, max)
}

/// Adds a timing; where there is no room left, the oldest one goes.
fn push_sample(samples: &mut Vec<Duration>, sample: Duration)
    ensures
        final(samples)@ == with_sample(old(samples)@, sample),
{
    if samples.len() >= MAX_LATENCY_SAMPLES {
        samples.remove(0);
        assert(samples@ == old(samples)@.drop_first());
    }
    samples.push(sample);
}

impl AccumulatorStats {
    /// Statistics in which nothing has been recorded.
    pub fn new() -> (stats: Self)
        ensures
            stats@ == StatsModel::empty(),
            stats@.wf(),
    {
        AccumulatorStats {
            total_submitted: 0,
            total_flushed: 0,
            total_dropped_timeout: 0,
            total_bypassed: 0,
            total_rejected: 0,
            latency_samples: Vec::with_capacity(MAX_LATENCY_SAMPLES),
            wait_samples: Vec::with_capacity(MAX_LATENCY_SAMPLES),
        }
    }

    /// Counts a submitted item.
    pub fn record_submit(&mut self)
        ensures
            final(self)@ == old(self)@.after_submit(),
    {
        self.total_submitted = self.total_submitted.wrapping_add(1);
    }

    /// Records how long an item waited in the queue.
    pub fn record_wait(&mut self, wait: Duration)
        ensures
            final(self)@ == old(self)@.after_wait(wait),
            old(self)@.wf() ==> final(self)@.wf(),
    {
        push_sample(&mut self.wait_samples, wait);
    }

    /// Records a batch and how long it took.
    pub fn record_flush(&mut self, execution_time: Duration)
        ensures
            final(self)@ == old(self)@.after_flush(execution_time),
            old(self)@.wf() ==> final(self)@.wf(),
    {
        self.total_flushed = self.total_flushed.wrapping_add(1);
        push_sample(&mut self.latency_samples, execution_time);
    }

    /// Counts items that timed out.
    pub fn record_dropped_timeout(&mut self, count: u64)
        ensures
            final(self)@ == old(self)@.after_dropped_timeout(count),
            final(self)@.dropped_timeout == (old(self)@.dropped_timeout + count)
                % 0x1_0000_0000_0000_0000,
    {
        self.total_dropped_timeout = self.total_dropped_timeout.wrapping_add(count);
    }

    /// Counts an item that bypassed the buffer.
    pub fn record_bypass(&mut self)
        ensures
            final(self)@ == old(self)@.after_bypass(),
    {
        self.total_bypassed = self.total_bypassed.wrapping_add(1);
    }

    /// Counts an item that was turned away because the queue was full.
    pub fn record_rejected(&mut self)
        ensures
            final(self)@ == old(self)@.after_rejected(),
    {
        self.total_rejected = self.total_rejected.wrapping_add(1);
    }

    /// What the counters show and what the timings come to, beside the given figures.
    pub fn snapshot(
        &self,
        queue_depth: usize,
        buffer_size: usize,
        inflight_count: usize,
        current_weight: usize,
        current_window: Duration,
    ) -> (snapshot: StatsSnapshot)
        requires
            self@.wf(),
        ensures
            snapshot.total_submitted == self@.submitted,
            snapshot.total_flushed == self@.flushed,
            snapshot.total_dropped_timeout == self@.dropped_timeout,
            snapshot.total_bypassed == self@.bypassed,
            snapshot.total_rejected == self@.rejected,
            snapshot.queue_depth == queue_depth,
            snapshot.buffer_size == buffer_size,
            snapshot.inflight_count == inflight_count,
            snapshot.current_weight == current_weight,
            snapshot.current_window == current_window,
            is_percentile(self@.latencies, 50, snapshot.p50_latency),
            is_percentile(self@.latencies, 99, snapshot.p99_latency),
            is_percentile(self@.latencies, 100, snapshot.max_latency),
            duration_nanos(snapshot.avg_latency) == mean_nanos(self@.latencies),
            is_percentile(self@.waits, 50, snapshot.p50_queue_wait),
            is_percentile(self@.waits, 99, snapshot.p99_queue_wait),
            duration_nanos(snapshot.avg_queue_wait) == mean_nanos(self@.waits),
    {
        let (p50, p99, avg, max) = percentiles(self.latency_samples.as_slice());
        let (wait_p50, wait_p99, wait_avg, _wait_max) = percentiles(self.wait_samples.as_slice());
        StatsSnapshot {
            total_submitted: self.total_submitted,
            total_flushed: self.total_flushed,
            total_dropped_timeout: self.total_dropped_timeout,
            total_bypassed: self.total_bypassed,
            total_rejected: self.total_rejected,
            queue_depth,
            buffer_size,
            inflight_count,
            current_weight,
            current_window,
            p50_queue_wait: wait_p50,
            p99_queue_wait: wait_p99,
            avg_queue_wait: wait_avg,
            p50_latency: p50,
            p99_latency: p99,
            avg_latency: avg,
            max_latency: max,
        }
    }

    /// How many items were turned away because the queue was full.
    pub fn total_rejected(&self) -> (count: u64)
        ensures
            count == self@.rejected,
    {
        self.total_rejected
    }
}

/// The timings that are kept once a whole history of them has come in, one by one.
pub open spec fn kept_samples(history: Seq<Duration>) -> Seq<Duration>
    decreases history.len(),
{
    if history.len() == 0 {
        Seq::empty()
    } else {
        with_sample(kept_samples(history.drop_last()), history.last())
    }
}

/// Of any history of timings, just the latest [`MAX_LATENCY_SAMPLES`] are kept, in their order.
pub proof fn law_latest_samples_kept(history: Seq<Duration>)
    ensures
        history.len() <= MAX_LATENCY_SAMPLES ==> kept_samples(history) == history,
        history.len() > MAX_LATENCY_SAMPLES ==> kept_samples(history) == history.subrange(
            history.len() - MAX_LATENCY_SAMPLES,
            history.len() as int,
        ),
    decreases history.len(),
{
    if history.len() > 0 {
        law_latest_samples_kept(history.drop_last());
        if history.len() <= MAX_LATENCY_SAMPLES {
            assert(kept_samples(history) == history);
        } else {
            assert(kept_samples(history) == history.subrange(
                history.len() - MAX_LATENCY_SAMPLES,
                history.len() as int,
            ));
        }
    }
}

/// A higher percentile is never less than a lower one: the median is at most the 99th percentile,
/// which is at most the longest timing.
pub proof fn law_percentiles_ascend(
    samples: Seq<Duration>,
    lower: nat,
    upper: nat,
    low: Duration,
    high: Duration,
)
    requires
        lower <= upper <= 100,
        is_percentile(samples, lower, low),
        is_percentile(samples, upper, high),
    ensures
        duration_nanos(low) <= duration_nanos(high),
{
    if samples.len() > 0 {
        let sorted = nanos_of(samples).sort();
        lemma_sort_shape(nanos_of(samples));
        assert((samples.len() - 1) * lower <= (samples.len() - 1) * upper <= (samples.len() - 1)
            * 100) by (nonlinear_arith)
            requires
                lower <= upper <= 100,
                samples.len() > 0,
        ;
        assert(0 <= (samples.len() - 1) * lower) by (nonlinear_arith)
            requires
                samples.len() > 0,
        ;
        let i = percentile_rank(samples.len(), lower);
        let j = percentile_rank(samples.len(), upper);
        assert(0 <= i <= j < sorted.len());
        assert(sorted[i] <= sorted[j]);
    }
}

/// The longest timing that is reported is at least as long as every timing that is kept.
pub proof fn law_max_covers_samples(samples: Seq<Duration>, max: Duration, d: Duration)
    requires
        is_percentile(samples, 100, max),
        samples.contains(d),
    ensures
        duration_nanos(d) <= duration_nanos(max),
{
    let nanos = nanos_of(samples);
    let sorted = nanos.sort();
    lemma_sort_shape(nanos);
    let at = choose|at: int| 0 <= at < samples.len() && samples[at] == d;
    assert(nanos[at] == duration_nanos(d));
    vstd::seq_lib::to_multiset_contains(nanos, duration_nanos(d) as int);
    nanos.lemma_sort_ensures();
    vstd::seq_lib::to_multiset_contains(sorted, duration_nanos(d) as int);
    assert(sorted.contains(duration_nanos(d) as int));
    let k = choose|k: int| 0 <= k < sorted.len() && sorted[k] == duration_nanos(d);
    assert(percentile_rank(samples.len(), 100) == samples.len() - 1);
    assert(sorted[k] <= sorted[samples.len() - 1]);
}

/// The percentile of rank zero is the shortest timing.
pub proof fn law_min_is_covered_by_samples(samples: Seq<Duration>, min: Duration, d: Duration)
    requires
        is_percentile(samples, 0, min),
        samples.contains(d),
    ensures
        duration_nanos(min) <= duration_nanos(d),
{
    let nanos = nanos_of(samples);
    let sorted = nanos.sort();
    lemma_sort_shape(nanos);
    let at = choose|at: int| 0 <= at < samples.len() && samples[at] == d;
    assert(nanos[at] == duration_nanos(d));
    vstd::seq_lib::to_multiset_contains(nanos, duration_nanos(d) as int);
    nanos.lemma_sort_ensures();
    vstd::seq_lib::to_multiset_contains(sorted, duration_nanos(d) as int);
    let k = choose|k: int| 0 <= k < sorted.len() && sorted[k] == duration_nanos(d);
    assert(percentile_rank(samples.len(), 0) == 0);
    assert(sorted[0] <= sorted[k]);
}

/// How many timings of a row are picked by their length in nanoseconds.
pub open spec fn how_many(samples: Seq<Duration>, pick: spec_fn(int) -> bool) -> nat {
    samples.filter(|d: Duration| pick(duration_nanos(d) as int)).len()
}

/// How many numbers of a row are picked.
spec fn tally(nanos: Seq<int>, pick: spec_fn(int) -> bool) -> nat
    decreases nanos.len(),
{
    if nanos.len() == 0 {
        0
    } else {
        tally(nanos.drop_last(), pick) + if pick(nanos.last()) {
            1nat
        } else {
            0nat
        }
    }
}

/// Timings are as many as their lengths.
proof fn lemma_how_many(samples: Seq<Duration>, pick: spec_fn(int) -> bool)
    ensures
        how_many(samples, pick) == tally(nanos_of(samples), pick),
    decreases samples.len(),
{
    reveal(Seq::filter);
    if samples.len() > 0 {
        lemma_how_many(samples.drop_last(), pick);
        assert(nanos_of(samples).drop_last() =~= nanos_of(samples.drop_last()));
    }
}

/// As many numbers are picked from a row as from all but one of it, and from that one.
proof fn lemma_tally_without(nanos: Seq<int>, at: int, pick: spec_fn(int) -> bool)
    requires
        0 <= at < nanos.len(),
    ensures
        tally(nanos, pick) == tally(nanos.remove(at), pick) + if pick(nanos[at]) {
            1nat
        } else {
            0nat
        },
    decreases nanos.len(),
{
    if at == nanos.len() - 1 {
        assert(nanos.remove(at) =~= nanos.drop_last());
    } else {
        lemma_tally_without(nanos.drop_last(), at, pick);
        assert(nanos.remove(at).drop_last() =~= nanos.drop_last().remove(at));
        assert(nanos.remove(at).last() == nanos.last());
    }
}

/// As many are picked from a row of numbers, whatever their order.
proof fn lemma_tally_permuted(a: Seq<int>, b: Seq<int>, pick: spec_fn(int) -> bool)
    requires
        a.to_multiset() == b.to_multiset(),
    ensures
        tally(a, pick) == tally(b, pick),
    decreases a.len(),
{
    vstd::seq_lib::to_multiset_len(a);
    vstd::seq_lib::to_multiset_len(b);
    if a.len() > 0 {
        let last = a.last();
        let rest = a.drop_last();
        assert(a =~= rest.push(last));
        vstd::seq_lib::to_multiset_build(rest, last);
        vstd::seq_lib::to_multiset_contains(b, last);
        assert(b.contains(last));
        let at = choose|at: int| 0 <= at < b.len() && b[at] == last;
        let others = b.remove(at);
        assert(b =~= others.insert(at, last));
        vstd::seq_lib::to_multiset_insert(others, at, last);
        assert(rest.to_multiset() =~= a.to_multiset().remove(last));
        assert(others.to_multiset() =~= b.to_multiset().remove(last));
        lemma_tally_permuted(rest, others, pick);
        lemma_tally_without(b, at, pick);
    }
}

/// No more are picked than stand before the place from which on none is.
proof fn lemma_tally_at_most(nanos: Seq<int>, pick: spec_fn(int) -> bool, place: int)
    requires
        0 <= place,
        forall|i: int| place <= i < nanos.len() ==> !pick(#[trigger] nanos[i]),
    ensures
        tally(nanos, pick) <= place,
    decreases nanos.len(),
{
    if nanos.len() > 0 {
        let rest = nanos.drop_last();
        let bound = if nanos.len() - 1 >= place {
            place
        } else {
            place - 1
        };
        assert forall|i: int| bound <= i < rest.len() implies !pick(#[trigger] rest[i]) by {
            assert(rest[i] == nanos[i]);
        }
        lemma_tally_at_most(rest, pick, bound);
        if nanos.len() - 1 >= place {
            assert(!pick(nanos[nanos.len() - 1]));
        }
    }
}

/// At least as many are picked as stand before the place up to which all are.
proof fn lemma_tally_at_least(nanos: Seq<int>, pick: spec_fn(int) -> bool, place: int)
    requires
        0 <= place <= nanos.len(),
        forall|i: int| 0 <= i < place ==> pick(#[trigger] nanos[i]),
    ensures
        tally(nanos, pick) >= place,
    decreases nanos.len(),
{
    if nanos.len() > 0 {
        let rest = nanos.drop_last();
        let bound = if place == nanos.len() {
            place - 1
        } else {
            place
        };
        assert forall|i: int| 0 <= i < bound implies pick(#[trigger] rest[i]) by {
            assert(rest[i] == nanos[i]);
        }
        lemma_tally_at_least(rest, pick, bound);
        if place == nanos.len() {
            assert(pick(nanos[nanos.len() - 1]));
        }
    }
}

/// A percentile has its rank among the timings: no more of them are shorter than the rank says, and
/// more are no longer.
pub proof fn law_percentile_has_its_rank(samples: Seq<Duration>, percent: nat, d: Duration)
    requires
        samples.len() > 0,
        percent <= 100,
        is_percentile(samples, percent, d),
    ensures
        ({
            let nanos = duration_nanos(d);
            let rank = percentile_rank(samples.len(), percent);
            &&& how_many(samples, |n: int| n < nanos) <= rank
            &&& rank < how_many(samples, |n: int| n <= nanos)
        }),
{
    let nanos = duration_nanos(d);
    let shorter = |n: int| n < nanos;
    let no_longer = |n: int| n <= nanos;
    let rank = percentile_rank(samples.len(), percent);
    let row = nanos_of(samples);
    let sorted = row.sort();
    lemma_sort_shape(row);
    row.lemma_sort_ensures();
    assert(0 <= (samples.len() - 1) * percent <= (samples.len() - 1) * 100) by (nonlinear_arith)
        requires
            samples.len() > 0,
            percent <= 100,
    ;
    assert(0 <= rank < sorted.len());
    lemma_how_many(samples, shorter);
    lemma_how_many(samples, no_longer);
    lemma_tally_permuted(row, sorted, shorter);
    lemma_tally_permuted(row, sorted, no_longer);
    assert forall|i: int| rank <= i < sorted.len() implies !shorter(#[trigger] sorted[i]) by {
        assert(sorted[rank] <= sorted[i]);
    }
    lemma_tally_at_most(sorted, shorter, rank);
    assert forall|i: int| 0 <= i < rank + 1 implies no_longer(#[trigger] sorted[i]) by {
        assert(sorted[i] <= sorted[rank]);
    }
    lemma_tally_at_least(sorted, no_longer, rank + 1);
}

/// All that holds of the figures of some timings that 64 bits have room for: the median, the 99th
/// percentile and the longest are among them and have their ranks, the mean is exact, and no timing
/// is shorter than `min`, which is at most the median, or longer than the longest.
pub proof fn law_figures_fit_together(
    samples: Seq<Duration>,
    min: Duration,
    p50: Duration,
    p99: Duration,
    max: Duration,
)
    requires
        samples.len() > 0,
        forall|i: int|
            0 <= i < samples.len() ==> duration_nanos(#[trigger] samples[i]) <= u64::MAX,
        is_percentile(samples, 0, min),
        is_percentile(samples, 50, p50),
        is_percentile(samples, 99, p99),
        is_percentile(samples, 100, max),
    ensures
        samples.contains(min) && samples.contains(p50) && samples.contains(p99)
            && samples.contains(max),
        how_many(samples, |n: int| n < duration_nanos(p50)) <= percentile_rank(samples.len(), 50)
            < how_many(samples, |n: int| n <= duration_nanos(p50)),
        how_many(samples, |n: int| n < duration_nanos(p99)) <= percentile_rank(samples.len(), 99)
            < how_many(samples, |n: int| n <= duration_nanos(p99)),
        forall|i: int|
            0 <= i < samples.len() ==> duration_nanos(min) <= duration_nanos(
                #[trigger] samples[i],
            ) <= duration_nanos(max),
        duration_nanos(min) <= duration_nanos(p50) <= duration_nanos(p99) <= duration_nanos(max),
        mean_nanos(samples) == sum_nanos(samples) / samples.len(),
        mean_nanos(samples) <= duration_nanos(max),
{
    law_percentile_has_its_rank(samples, 50, p50);
    law_percentile_has_its_rank(samples, 99, p99);
    assert forall|i: int| 0 <= i < samples.len() implies duration_nanos(min) <= duration_nanos(
        #[trigger] samples[i],
    ) <= duration_nanos(max) by {
        assert(samples.contains(samples[i]));
        law_min_is_covered_by_samples(samples, min, samples[i]);
        law_max_covers_samples(samples, max, samples[i]);
    }
    law_percentiles_ascend(samples, 0, 50, min, p50);
    law_percentiles_ascend(samples, 50, 99, p50, p99);
    law_percentiles_ascend(samples, 99, 100, p99, max);
    law_mean_is_exact(samples);
    law_mean_at_most_max(samples, max);
}

/// The order in which the same timings came in changes neither a percentile of them nor their mean.
pub proof fn law_order_of_samples_is_irrelevant(
    a: Seq<Duration>,
    b: Seq<Duration>,
    percent: nat,
    x: Duration,
    y: Duration,
)
    requires
        a.to_multiset() == b.to_multiset(),
        is_percentile(a, percent, x),
        is_percentile(b, percent, y),
    ensures
        duration_nanos(x) == duration_nanos(y),
        mean_nanos(a) == mean_nanos(b),
{
    lemma_same_timings(a, b);
    let row = nanos_of(a);
    row.lemma_sort_ensures();
    lemma_sort_shape(row);
    lemma_sorted_is_sort(row.sort(), nanos_of(b));
}

/// The mean of timings that 64 bits have room for is their sum, divided by their number and rounded
/// down.
pub proof fn law_mean_is_exact(samples: Seq<Duration>)
    requires
        samples.len() > 0,
        forall|i: int|
            0 <= i < samples.len() ==> duration_nanos(#[trigger] samples[i]) <= u64::MAX,
    ensures
        mean_nanos(samples) == sum_nanos(samples) / samples.len(),
{
    lemma_sum_at_most(samples, u64::MAX as nat);
    let sum = sum_nanos(samples);
    let n = samples.len();
    assert(sum / n <= u64::MAX) by (nonlinear_arith)
        requires
            sum <= n * (u64::MAX as nat),
            n > 0,
    ;
}

/// The mean that is reported is at most the longest timing.
pub proof fn law_mean_at_most_max(samples: Seq<Duration>, max: Duration)
    requires
        is_percentile(samples, 100, max),
    ensures
        mean_nanos(samples) <= duration_nanos(max),
{
    if samples.len() > 0 {
        assert forall|i: int| 0 <= i < samples.len() implies duration_nanos(#[trigger] samples[i])
            <= duration_nanos(max) by {
            assert(samples.contains(samples[i]));
            law_max_covers_samples(samples, max, samples[i]);
        }
        lemma_sum_at_most(samples, duration_nanos(max));
        let sum = sum_nanos(samples);
        let n = samples.len();
        let m = duration_nanos(max);
        assert(sum / n <= m) by (nonlinear_arith)
            requires
                sum <= n * m,
                n > 0,
        ;
        assert((sum / n) % 0x1_0000_0000_0000_0000 <= sum / n);
    }
}

/// A sum of timings that are all at most `bound` is at most their number times `bound`.
proof fn lemma_sum_at_most(samples: Seq<Duration>, bound: nat)
    requires
        forall|i: int|
            0 <= i < samples.len() ==> duration_nanos(#[trigger] samples[i]) <= bound,
    ensures
        sum_nanos(samples) <= samples.len() * bound,
    decreases samples.len(),
{
    if samples.len() > 0 {
        let rest = samples.drop_last();
        assert forall|i: int| 0 <= i < rest.len() implies duration_nanos(#[trigger] rest[i])
            <= bound by {
            assert(rest[i] == samples[i]);
        }
        lemma_sum_at_most(rest, bound);
        assert(samples.last() == samples[samples.len() - 1]);
        assert(rest.len() * bound + bound == samples.len() * bound) by (nonlinear_arith)
            requires
                rest.len() + 1 == samples.len(),
        ;
    }
}

/// Sorting keeps the length and puts the numbers in ascending order.
proof fn lemma_sort_shape(nanos: Seq<int>)
    ensures
        nanos.sort().len() == nanos.len(),
        forall|i: int, j: int|
            0 <= i <= j < nanos.len() ==> nanos.sort()[i] <= nanos.sort()[j],
{
    nanos.lemma_sort_ensures();
    vstd::seq_lib::to_multiset_len(nanos);
    vstd::seq_lib::to_multiset_len(nanos.sort());
    let sorted = nanos.sort();
    let leq = |x: int, y: int| x <= y;
    assert(sorted_by(sorted, leq));
    assert forall|i: int, j: int| 0 <= i <= j < nanos.len() implies sorted[i] <= sorted[j] by {
        if i < j {
            assert(leq(sorted[i], sorted[j]));
        }
    }
}

} // verus!
