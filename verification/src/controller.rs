//! How the window is adjusted.
use std::time::Duration;

use vstd::prelude::*;

use crate::metrics::MetricsSnapshot;
use crate::time::{clamp_window, clamped, duration_nanos, in_range};

verus! {

/// Adjusts the window. The accumulator asks it after every flush, and holds what it answers to the
/// range that the configuration allows.
pub trait WindowController<U>: Send + 'static {
    /// Whether a controller may answer with `window`, and turn from what it was into what it is
    /// meanwhile. A controller that does not say so may answer with anything.
    open spec fn answers(
        before: &Self,
        current_window: Duration,
        metrics: MetricsSnapshot<U>,
        after: &Self,
        window: Duration,
    ) -> bool {
        true
    }

    /// The window that should follow `current_window`, given the latest measurements.
    fn adjust_window(&mut self, current_window: Duration, metrics: &MetricsSnapshot<U>) -> (window:
        Duration)
        ensures
            Self::answers(old(self), current_window, *metrics, final(self), window),
    ;
}

/// A controller that keeps to one window.
pub struct FixedController {
    window: Duration,
}

impl FixedController {
    /// The window that the controller keeps to.
    pub closed spec fn window(&self) -> Duration {
        self.window
    }

    /// A controller that keeps to `window`.
    pub fn new(window: Duration) -> (controller: Self)
        ensures
            controller.window() == window,
    {
        FixedController { window }
    }
}

impl<U> WindowController<U> for FixedController {
    open spec fn answers(
        before: &Self,
        current_window: Duration,
        metrics: MetricsSnapshot<U>,
        after: &Self,
        window: Duration,
    ) -> bool {
        window == before.window() && *after == *before
    }

    fn adjust_window(
        &mut self,
        _current_window: Duration,
        _metrics: &MetricsSnapshot<U>,
    ) -> (window: Duration) {
        self.window
    }
}

/// How full the latest batches were, as far as backing off goes by it.
#[derive(Debug, Clone, Copy, PartialEq, Eq, Structural)]
pub enum UtilizationBand {
    /// Nothing was flushed at all.
    Idle,
    /// Something was flushed, but no full batch.
    Normal,
    /// The batches were full.
    Full,
}

/// What a backing off controller does to the window.
#[derive(Debug, Clone, Copy, PartialEq, Eq, Structural)]
pub enum BackoffStep {
    /// It multiplies the window by its factor, as many times as there were full batches in a row.
    Grow {
        /// The number of full batches in a row.
        exponent: u64,
    },
    /// It divides the window by its factor.
    Shrink,
    /// It leaves the window.
    Hold,
}

/// How many times in a row nothing must have happened for the window to shrink.
pub const BACKOFF_SHRINK_EMPTY_COUNT: u64 = 3;

/// What a backing off controller holds.
pub struct BackoffModel {
    /// The shortest window.
    pub min_window: Duration,
    /// The longest window.
    pub max_window: Duration,
    /// How many full batches there were in a row.
    pub full_count: u64,
    /// How many times in a row nothing happened.
    pub empty_count: u64,
}

impl BackoffModel {
    /// What the controller holds once it has seen one more flush.
    pub open spec fn after(self, band: UtilizationBand, queue_depth: usize) -> BackoffModel {
        if band == UtilizationBand::Full {
            BackoffModel { full_count: (self.full_count + 1) as u64, empty_count: 0, ..self }
        } else if band == UtilizationBand::Idle && queue_depth == 0 {
            BackoffModel { full_count: 0, empty_count: (self.empty_count + 1) as u64, ..self }
        } else {
            BackoffModel { full_count: 0, empty_count: 0, ..self }
        }
    }

    /// What the controller does to the window when it sees one more flush.
    pub open spec fn step(self, band: UtilizationBand, queue_depth: usize) -> BackoffStep {
        if band == UtilizationBand::Full {
            BackoffStep::Grow { exponent: (self.full_count + 1) as u64 }
        } else if band == UtilizationBand::Idle && queue_depth == 0 && self.empty_count + 1
            >= BACKOFF_SHRINK_EMPTY_COUNT {
            BackoffStep::Shrink
        } else {
            BackoffStep::Hold
        }
    }

    /// What a controller that has not seen any flush holds.
    pub open spec fn fresh(min_window: Duration, max_window: Duration) -> BackoffModel {
        BackoffModel { min_window, max_window, full_count: 0, empty_count: 0 }
    }

    /// What the controller holds once it has seen some flushes, one after the other.
    pub open spec fn after_all(self, flushes: Seq<(UtilizationBand, usize)>) -> BackoffModel
        decreases flushes.len(),
    {
        if flushes.len() == 0 {
            self
        } else {
            self.after_all(flushes.drop_last()).after(flushes.last().0, flushes.last().1)
        }
    }

    /// Whether the controller's range has a window in it.
    pub open spec fn has_range(self) -> bool {
        duration_nanos(self.min_window) <= duration_nanos(self.max_window)
    }

    /// The window that a step comes to: the scaled one where the step scales it, held to the
    /// controller's own range. Where nothing lies in the range, a window that is left alone stays
    /// as it is, and one that is scaled is held to the shortest window only.
    pub open spec fn window_after(self, step: BackoffStep, current: Duration, scaled: Duration) -> Duration {
        let proposed = if step == BackoffStep::Hold {
            current
        } else {
            scaled
        };
        if self.has_range() {
            clamped(proposed, self.min_window, self.max_window)
        } else if step != BackoffStep::Hold && duration_nanos(scaled) < duration_nanos(
            self.min_window,
        ) {
            self.min_window
        } else {
            proposed
        }
    }
}

/// A controller that backs off: it widens the window the faster the more full batches follow on
/// each other, and narrows it slowly while nothing happens. What it widens and narrows by is a
/// factor that scales windows outside of it.
#[derive(Debug)]
pub struct BackoffController {
    min_window: Duration,
    max_window: Duration,
    full_count: u64,
    empty_count: u64,
}

impl View for BackoffController {
    type V = BackoffModel;

    closed spec fn view(&self) -> BackoffModel {
        BackoffModel {
            min_window: self.min_window,
            max_window: self.max_window,
            full_count: self.full_count,
            empty_count: self.empty_count,
        }
    }
}

impl BackoffController {
    /// A controller whose windows lie between `min` and `max`.
    pub fn new(min: Duration, max: Duration) -> (controller: Self)
        ensures
            controller@ == BackoffModel::fresh(min, max),
    {
        BackoffController { min_window: min, max_window: max, full_count: 0, empty_count: 0 }
    }

    /// How many full batches there were in a row.
    pub fn full_count(&self) -> (count: u64)
        ensures
            count == self@.full_count,
    {
        self.full_count
    }

    /// How many times in a row nothing happened.
    pub fn empty_count(&self) -> (count: u64)
        ensures
            count == self@.empty_count,
    {
        self.empty_count
    }

    /// Sees one more flush, and decides what to do to the window.
    pub fn observe(&mut self, band: UtilizationBand, queue_depth: usize) -> (step: BackoffStep)
        requires
            old(self)@.full_count < u64::MAX,
            old(self)@.empty_count < u64::MAX,
        ensures
            step == old(self)@.step(band, queue_depth),
            final(self)@ == old(self)@.after(band, queue_depth),
    {
        if band == UtilizationBand::Full {
            self.full_count = self.full_count + 1;
            self.empty_count = 0;
            BackoffStep::Grow { exponent: self.full_count }
        } else if band == UtilizationBand::Idle && queue_depth == 0 {
            self.empty_count = self.empty_count + 1;
            self.full_count = 0;
            if self.empty_count >= BACKOFF_SHRINK_EMPTY_COUNT {
                BackoffStep::Shrink
            } else {
                BackoffStep::Hold
            }
        } else {
            self.full_count = 0;
            self.empty_count = 0;
            BackoffStep::Hold
        }
    }

    /// Whether the controller's range has a window in it.
    pub fn has_range(&self) -> (yes: bool)
        ensures
            yes == self@.has_range(),
    {
        self.min_window.as_nanos() <= self.max_window.as_nanos()
    }

    /// Sees one more flush while `current` is the window, and answers with the window that should
    /// follow. What a step other than [`BackoffStep::Hold`] makes of a window is up to `scale`.
    pub fn adjust_window<S: Fn(Duration, BackoffStep) -> Duration>(
        &mut self,
        current: Duration,
        band: UtilizationBand,
        queue_depth: usize,
        scale: S,
    ) -> (window: Duration)
        requires
            old(self)@.full_count < u64::MAX,
            old(self)@.empty_count < u64::MAX,
            band == UtilizationBand::Full ==> old(self)@.has_range(),
            call_requires(scale, (current, old(self)@.step(band, queue_depth))),
        ensures
            final(self)@ == old(self)@.after(band, queue_depth),
            old(self)@.step(band, queue_depth) == BackoffStep::Hold ==> window
                == old(self)@.window_after(BackoffStep::Hold, current, current),
            old(self)@.step(band, queue_depth) != BackoffStep::Hold ==> exists|scaled: Duration|
                {
                    &&& #[trigger] call_ensures(
                        scale,
                        (current, old(self)@.step(band, queue_depth)),
                        scaled,
                    )
                    &&& window == old(self)@.window_after(
                        old(self)@.step(band, queue_depth),
                        current,
                        scaled,
                    )
                },
            old(self)@.has_range() ==> in_range(
                window,
                old(self)@.min_window,
                old(self)@.max_window,
            ),
    {
        let step = self.observe(band, queue_depth);
        if step == BackoffStep::Hold {
            return self.settle(step, current, current);
        }
        let scaled = scale(current, step);
        self.settle(step, current, scaled)
    }

    /// The window that a step comes to, given the current one and the current one as the step
    /// scales it. A window can grow only where the controller's range has a window in it.
    pub fn settle(&self, step: BackoffStep, current: Duration, scaled: Duration) -> (window: Duration)
        requires
            step is Grow ==> self@.has_range(),
        ensures
            window == self@.window_after(step, current, scaled),
            self@.has_range() ==> in_range(window, self@.min_window, self@.max_window),
    {
        let proposed = match step {
            BackoffStep::Hold => current,
            _ => scaled,
        };
        if self.has_range() {
            clamp_window(proposed, self.min_window, self.max_window)
        } else if step != BackoffStep::Hold && scaled.as_nanos() < self.min_window.as_nanos() {
            self.min_window
        } else {
            proposed
        }
    }
}

impl BackoffModel {
    /// The window that the controller answers with when it sees one more flush while `current` is
    /// the window, given what a step makes of a window.
    pub open spec fn answer(
        self,
        band: UtilizationBand,
        queue_depth: usize,
        current: Duration,
        scale: spec_fn(Duration, BackoffStep) -> Duration,
    ) -> Duration {
        let step = self.step(band, queue_depth);
        self.window_after(step, current, scale(current, step))
    }

    /// The windows that the controller answers with when it sees some flushes, one after the other,
    /// each with the window at the time.
    pub open spec fn answers_to(
        self,
        flushes: Seq<(UtilizationBand, usize)>,
        windows: Seq<Duration>,
        scale: spec_fn(Duration, BackoffStep) -> Duration,
    ) -> Seq<Duration> {
        Seq::new(
            flushes.len(),
            |i: int|
                self.after_all(flushes.take(i)).answer(
                    flushes[i].0,
                    flushes[i].1,
                    windows[i],
                    scale,
                ),
        )
    }
}

/// What a controller holds once it has seen `times` flushes of the same kind.
pub open spec fn after_run(
    start: BackoffModel,
    band: UtilizationBand,
    queue_depth: usize,
    times: nat,
) -> BackoffModel
    decreases times,
{
    if times == 0 {
        start
    } else {
        after_run(start, band, queue_depth, (times - 1) as nat).after(band, queue_depth)
    }
}

/// The `n`th full batch in a row multiplies the window by the factor `n` times, whatever came
/// before the row was broken: a flush that is not full starts the count anew.
pub proof fn law_growth_counts_full_batches(
    start: BackoffModel,
    break_band: UtilizationBand,
    queue_depth: usize,
    n: nat,
)
    requires
        break_band != UtilizationBand::Full,
        1 <= n <= u64::MAX,
        start.empty_count < u64::MAX,
    ensures
        after_run(
            start.after(break_band, queue_depth),
            UtilizationBand::Full,
            queue_depth,
            (n - 1) as nat,
        ).step(UtilizationBand::Full, queue_depth) == (BackoffStep::Grow { exponent: n as u64 }),
{
    lemma_full_run(start.after(break_band, queue_depth), queue_depth, (n - 1) as nat);
}

/// A row of full batches is counted from zero.
proof fn lemma_full_run(start: BackoffModel, queue_depth: usize, times: nat)
    requires
        start.full_count == 0,
        times < u64::MAX,
    ensures
        after_run(start, UtilizationBand::Full, queue_depth, times).full_count == times,
    decreases times,
{
    if times > 0 {
        lemma_full_run(start, queue_depth, (times - 1) as nat);
    }
}

/// While nothing happens and nothing waits, the window stays for two flushes and shrinks at each
/// one from the third on.
pub proof fn law_idle_shrinks_from_the_third(start: BackoffModel, n: nat)
    requires
        start.empty_count == 0,
        1 <= n <= u64::MAX,
    ensures
        after_run(start, UtilizationBand::Idle, 0, (n - 1) as nat).step(UtilizationBand::Idle, 0)
            == if n >= BACKOFF_SHRINK_EMPTY_COUNT {
            BackoffStep::Shrink
        } else {
            BackoffStep::Hold
        },
{
    lemma_idle_run(start, (n - 1) as nat);
}

/// A row of idle flushes is counted from zero.
proof fn lemma_idle_run(start: BackoffModel, times: nat)
    requires
        start.empty_count == 0,
        times < u64::MAX,
    ensures
        after_run(start, UtilizationBand::Idle, 0, times).empty_count == times,
    decreases times,
{
    if times > 0 {
        lemma_idle_run(start, (times - 1) as nat);
    }
}

/// What a controller makes of one more flush. A full batch makes the row of full ones longer by one
/// and lets the window grow as many times as the row is long. A flush of nothing with nothing
/// waiting makes the row of idle ones longer, and lets the window shrink from the third on. Any
/// other leaves the window alone. Each ends the rows of the other kinds.
pub proof fn law_what_one_more_flush_does(
    model: BackoffModel,
    band: UtilizationBand,
    queue_depth: usize,
)
    requires
        model.full_count < u64::MAX,
        model.empty_count < u64::MAX,
    ensures
        ({
            let after = model.after(band, queue_depth);
            let step = model.step(band, queue_depth);
            let full = band is Full;
            let idle = band is Idle && queue_depth == 0;
            &&& after.min_window == model.min_window
            &&& after.max_window == model.max_window
            &&& full ==> after.full_count == model.full_count + 1
            &&& !full ==> after.full_count == 0
            &&& idle ==> after.empty_count == model.empty_count + 1
            &&& !idle ==> after.empty_count == 0
            &&& step is Grow <==> full
            &&& full ==> step == (BackoffStep::Grow { exponent: after.full_count })
            &&& step is Shrink <==> idle && after.empty_count >= 3
            &&& step is Hold <==> !full && !(idle && after.empty_count >= 3)
        }),
{
}

/// The window that a step comes to lies in the controller's range, as near as can be to the scaled
/// window, or to the current one where the step leaves it alone. Where the shortest window is longer
/// than the longest, a window that is left alone stays, and a scaled one is no shorter than the
/// shortest.
pub proof fn law_window_of_a_step(
    model: BackoffModel,
    step: BackoffStep,
    current: Duration,
    scaled: Duration,
)
    ensures
        ({
            let low = duration_nanos(model.min_window);
            let high = duration_nanos(model.max_window);
            let aim = if step is Hold {
                current
            } else {
                scaled
            };
            let window = model.window_after(step, current, scaled);
            &&& model.has_range() <==> low <= high
            &&& low <= duration_nanos(aim) <= high ==> window == aim
            &&& low <= high && duration_nanos(aim) < low ==> window == model.min_window
            &&& low <= high && duration_nanos(aim) > high ==> window == model.max_window
            &&& low > high && step is Hold ==> window == current
            &&& low > high && !(step is Hold) && duration_nanos(scaled) >= low ==> window == scaled
            &&& low > high && !(step is Hold) && duration_nanos(scaled) < low ==> window
                == model.min_window
        }),
{
}

/// A controller that has seen nothing has no rows; one that sees a row of flushes sees them one by
/// one.
pub proof fn law_flushes_are_seen_one_by_one(
    min: Duration,
    max: Duration,
    model: BackoffModel,
    flushes: Seq<(UtilizationBand, usize)>,
    last: (UtilizationBand, usize),
)
    ensures
        ({
            let fresh = BackoffModel::fresh(min, max);
            &&& fresh.min_window == min
            &&& fresh.max_window == max
            &&& fresh.full_count == 0
            &&& fresh.empty_count == 0
        }),
        model.after_all(Seq::empty()) == model,
        model.after_all(flushes.push(last)) == model.after_all(flushes).after(last.0, last.1),
{
    assert(flushes.push(last).drop_last() =~= flushes);
}

/// A fixed controller answers with its own window, whatever is measured, and stays as it is.
pub proof fn law_fixed_controller_keeps_its_window<U>(
    before: FixedController,
    current: Duration,
    metrics: MetricsSnapshot<U>,
    after: FixedController,
    window: Duration,
)
    requires
        <FixedController as WindowController<U>>::answers(
            &before,
            current,
            metrics,
            &after,
            window,
        ),
    ensures
        window == before.window(),
        after.window() == before.window(),
{
}

/// Whether a flush is an ordinary one: its batch was not full, and either something was flushed or
/// something waits.
pub open spec fn ordinary(band: UtilizationBand, queue_depth: usize) -> bool {
    band != UtilizationBand::Full && (band != UtilizationBand::Idle || queue_depth > 0)
}

/// An ordinary flush leaves a window that lies in the range as it is, and makes the controller as
/// good as new: whatever it has seen before, it answers every later row of flushes as a controller
/// does that has only seen those.
pub proof fn law_ordinary_flush_starts_anew(
    start: BackoffModel,
    band: UtilizationBand,
    queue_depth: usize,
    current: Duration,
    scale: spec_fn(Duration, BackoffStep) -> Duration,
    later: Seq<(UtilizationBand, usize)>,
    windows: Seq<Duration>,
)
    requires
        ordinary(band, queue_depth),
        in_range(current, start.min_window, start.max_window),
    ensures
        start.answer(band, queue_depth, current, scale) == current,
        start.after(band, queue_depth) == BackoffModel::fresh(start.min_window, start.max_window),
        start.after(band, queue_depth).answers_to(later, windows, scale) == BackoffModel::fresh(
            start.min_window,
            start.max_window,
        ).answers_to(later, windows, scale),
{
}

/// Items that wait in the queue keep the window from shrinking, however often nothing was flushed.
pub proof fn law_waiting_items_prevent_shrinking(start: BackoffModel, queue_depth: usize)
    requires
        queue_depth > 0,
    ensures
        start.step(UtilizationBand::Idle, queue_depth) == BackoffStep::Hold,
        start.after(UtilizationBand::Idle, queue_depth).empty_count == 0,
{
}

} // verus!
