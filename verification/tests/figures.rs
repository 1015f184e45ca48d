use std::time::Duration;

use windup::batch::{Batch, FlushInfo, Priority, SubmitOptions, TryBatchAdapter};
use windup::controller::{
    BackoffController, BackoffStep, FixedController, UtilizationBand, WindowController,
};
use windup::metrics::{batch_utilization, DefaultMetrics, MetricsSnapshot};
use windup::shared::SharedState;
use windup::stats::{percentiles, AccumulatorStats, Ratio, MAX_LATENCY_SAMPLES};
use windup::time::Moment;

fn ms(n: u64) -> Duration {
    Duration::from_millis(n)
}

fn snap_with_queue(util: f64, queue: usize) -> MetricsSnapshot<f64> {
    MetricsSnapshot {
        batch_utilization_rate: util,
        queue_depth: queue,
        buffer_size: 0,
        avg_execution_time: Duration::ZERO,
        last_execution_time: Duration::ZERO,
    }
}

fn snap_util(util: f64) -> MetricsSnapshot<f64> {
    snap_with_queue(util, 0)
}

/// A backing off controller with the factor that it scales windows by.
struct Backoff {
    controller: BackoffController,
    factor: f64,
}

impl Backoff {
    fn adjust_window(&mut self, current: Duration, snap: &MetricsSnapshot<f64>) -> Duration {
        let band = if snap.batch_utilization_rate >= 0.95 {
            UtilizationBand::Full
        } else if snap.batch_utilization_rate == 0.0 {
            UtilizationBand::Idle
        } else {
            UtilizationBand::Normal
        };
        let factor = self.factor;
        let scale = |window: Duration, step: BackoffStep| match step {
            BackoffStep::Grow { exponent } => window.mul_f64(factor.powi(exponent as i32)),
            BackoffStep::Shrink => Duration::from_secs_f64(window.as_secs_f64() / factor),
            BackoffStep::Hold => panic!("a window that is held is not scaled"),
        };
        self.controller.adjust_window(current, band, snap.queue_depth, scale)
    }
}

fn bo(min: Duration, max: Duration, factor: f64) -> Backoff {
    Backoff { controller: BackoffController::new(min, max), factor }
}

#[test]
fn fixed_controller_always_same() {
    let mut ctrl = FixedController::new(ms(300));
    let new = ctrl.adjust_window(ms(500), &snap_util(1.0));
    assert_eq!(new, ms(300));
}

#[test]
fn backoff_full_batch_grows_window() {
    let mut ctrl = bo(ms(100), Duration::from_secs(10), 2.0);
    let current = ms(200);
    let new = ctrl.adjust_window(current, &snap_util(0.98));
    assert!(new > current, "full batch should grow window, got {new:?}");
    assert_eq!(new, ms(400), "factor=2.0, 1 full → 200*2=400");
}

#[test]
fn backoff_consecutive_full_exponential() {
    let mut ctrl = bo(ms(100), Duration::from_secs(10), 2.0);
    let current = ms(200);
    let w1 = ctrl.adjust_window(current, &snap_util(0.99));
    assert_eq!(w1, ms(400));
    let w2 = ctrl.adjust_window(current, &snap_util(0.99));
    assert_eq!(w2, ms(800));
    let w3 = ctrl.adjust_window(current, &snap_util(0.99));
    assert_eq!(w3, ms(1600));
}

#[test]
fn backoff_idle_shrinks_after_consecutive() {
    let mut ctrl = bo(ms(100), Duration::from_secs(10), 2.0);
    let current = ms(400);
    let idle_snap = snap_with_queue(0.0, 0);
    let w1 = ctrl.adjust_window(current, &idle_snap);
    assert_eq!(w1, current);
    let w2 = ctrl.adjust_window(current, &idle_snap);
    assert_eq!(w2, current);
    let w3 = ctrl.adjust_window(current, &idle_snap);
    assert_eq!(w3, ms(200), "3rd idle should shrink: 400/2=200");
    assert_eq!(ctrl.controller.empty_count(), 3);
}

#[test]
fn backoff_idle_with_queue_depth_does_not_shrink() {
    let mut ctrl = bo(ms(100), Duration::from_secs(10), 2.0);
    let current = ms(400);
    let snap = snap_with_queue(0.0, 5);
    for _ in 0..5 {
        let w = ctrl.adjust_window(current, &snap);
        assert_eq!(w, current, "queue_depth > 0 should not trigger shrink");
    }
}

#[test]
fn backoff_normal_utilization_resets_counters() {
    let mut ctrl = bo(ms(100), Duration::from_secs(10), 2.0);
    let current = ms(200);
    ctrl.adjust_window(current, &snap_util(0.99));
    ctrl.adjust_window(current, &snap_util(0.99));
    assert_eq!(ctrl.controller.full_count(), 2);

    let w = ctrl.adjust_window(current, &snap_util(0.5));
    assert_eq!(w, current, "normal util should reset, go back to current");

    let w2 = ctrl.adjust_window(current, &snap_util(0.99));
    assert_eq!(w2, ms(400), "after reset, full count should restart at 1");
}

#[test]
fn backoff_clamped_to_bounds() {
    let mut ctrl = bo(ms(100), ms(1000), 3.0);
    let current = ms(500);
    for _ in 0..5 {
        ctrl.adjust_window(current, &snap_util(0.99));
    }
    let w = ctrl.adjust_window(current, &snap_util(0.99));
    assert!(w <= ms(1000), "should clamp to max_window, got {w:?}");

    let mut ctrl2 = bo(ms(50), Duration::from_secs(10), 4.0);
    let small = ms(60);
    for _ in 0..10 {
        ctrl2.adjust_window(small, &snap_with_queue(0.0, 0));
    }
    let w2 = ctrl2.adjust_window(small, &snap_with_queue(0.0, 0));
    assert!(w2 >= ms(50), "should clamp to min_window, got {w2:?}");
}

#[test]
fn backoff_full_then_idle_resets_full_counter() {
    let mut ctrl = bo(ms(100), Duration::from_secs(10), 2.0);
    let current = ms(200);
    ctrl.adjust_window(current, &snap_util(0.99));
    ctrl.adjust_window(current, &snap_util(0.99));

    let w = ctrl.adjust_window(current, &snap_with_queue(0.0, 0));
    assert_eq!(w, current, "idle should reset full counter, not yet shrink");

    let w2 = ctrl.adjust_window(current, &snap_util(0.99));
    assert_eq!(w2, ms(400), "full after idle reset should restart at 1");
}

#[test]
fn a_window_that_is_left_alone_is_held_to_its_range_too() {
    let mut ctrl = bo(ms(100), ms(1000), 2.0);
    assert_eq!(ctrl.adjust_window(ms(5000), &snap_util(0.5)), ms(1000));
    assert_eq!(ctrl.adjust_window(ms(5), &snap_util(0.5)), ms(100));
}

#[test]
fn an_ordinary_flush_makes_a_controller_as_good_as_new() {
    let mut used = bo(ms(100), Duration::from_secs(10), 2.0);
    let mut fresh = bo(ms(100), Duration::from_secs(10), 2.0);
    for util in [0.99, 0.99, 0.0, 0.0, 0.99] {
        used.adjust_window(ms(200), &snap_util(util));
    }
    assert_eq!(used.adjust_window(ms(200), &snap_with_queue(0.0, 1)), ms(200));
    assert_eq!(used.controller.full_count(), 0);
    assert_eq!(used.controller.empty_count(), 0);
    for util in [0.0, 0.0, 0.0, 0.99, 0.99, 0.5, 0.0] {
        let window = used.adjust_window(ms(300), &snap_util(util));
        assert_eq!(window, fresh.adjust_window(ms(300), &snap_util(util)));
    }
}

#[test]
fn a_controller_without_a_range_holds_and_shrinks() {
    let mut ctrl = bo(ms(500), ms(100), 2.0);
    assert!(!ctrl.controller.has_range());
    assert_eq!(ctrl.adjust_window(ms(300), &snap_util(0.5)), ms(300));
    assert_eq!(ctrl.adjust_window(ms(300), &snap_util(0.0)), ms(300));
    assert_eq!(ctrl.adjust_window(ms(300), &snap_util(0.0)), ms(300));
    assert_eq!(ctrl.adjust_window(ms(300), &snap_util(0.0)), ms(500));
    assert_eq!(ctrl.adjust_window(ms(4000), &snap_util(0.0)), ms(2000));
}

#[test]
fn the_order_of_timings_does_not_matter() {
    let row = [7, 3, 9, 3, 1, 12, 3, 8];
    let samples: Vec<Duration> = row.iter().map(|n| ms(*n)).collect();
    let figures = percentiles(&samples);
    for turn in 1..row.len() {
        let mut turned = samples.clone();
        turned.rotate_left(turn);
        assert_eq!(percentiles(&turned), figures);
    }
    assert_eq!(figures.0, ms(3));
    assert_eq!(figures.1, ms(9));
    assert_eq!(figures.2, Duration::from_micros(5_750));
    assert_eq!(figures.3, ms(12));
}

#[test]
fn a_percentile_has_its_rank() {
    let samples: Vec<Duration> = (0..250).map(|i| ms((i * 37) % 91)).collect();
    let (p50, p99, avg, max) = percentiles(&samples);
    let min = *samples.iter().min().unwrap();
    assert!(min <= p50 && p50 <= p99 && p99 <= max && avg <= max);
    assert_eq!(max, *samples.iter().max().unwrap());
    assert_eq!(avg, samples.iter().sum::<Duration>() / 250);
    for (percentile, percent) in [(p50, 50), (p99, 99), (max, 100)] {
        let rank = (samples.len() - 1) * percent / 100;
        assert!(samples.iter().filter(|d| **d < percentile).count() <= rank);
        assert!(samples.iter().filter(|d| **d <= percentile).count() > rank);
    }
}

#[test]
fn percentiles_of_nothing() {
    let zero = Duration::ZERO;
    assert_eq!(percentiles(&[]), (zero, zero, zero, zero));
}

#[test]
fn percentiles_of_a_hundred() {
    let samples: Vec<Duration> = (1..=100).rev().map(ms).collect();
    let (p50, p99, avg, max) = percentiles(&samples);
    assert_eq!(p50, ms(50));
    assert_eq!(p99, ms(99));
    assert_eq!(avg, Duration::from_micros(50_500));
    assert_eq!(max, ms(100));
}

#[test]
fn percentiles_of_a_few() {
    let samples = [ms(30), ms(10), ms(20), ms(10)];
    let (p50, p99, avg, max) = percentiles(&samples);
    assert_eq!(p50, ms(10));
    assert_eq!(p99, ms(20));
    assert_eq!(avg, Duration::from_micros(17_500));
    assert_eq!(max, ms(30));
}

#[test]
fn only_the_latest_timings_are_kept() {
    let mut stats = AccumulatorStats::new();
    for i in 0..(MAX_LATENCY_SAMPLES as u64 + 10) {
        stats.record_flush(ms(i));
        stats.record_wait(ms(2 * i));
    }
    let snapshot = stats.snapshot(1, 2, 3, 4, ms(5));
    assert_eq!(snapshot.total_flushed, 1010);
    assert_eq!(snapshot.max_latency, ms(1009));
    assert_eq!(snapshot.p50_latency, ms(10 + 999 * 50 / 100));
    assert_eq!(snapshot.p99_latency, ms(10 + 999 * 99 / 100));
    assert_eq!(snapshot.p50_queue_wait, ms(2 * (10 + 999 * 50 / 100)));
    assert_eq!(snapshot.queue_depth, 1);
    assert_eq!(snapshot.buffer_size, 2);
    assert_eq!(snapshot.inflight_count, 3);
    assert_eq!(snapshot.current_weight, 4);
    assert_eq!(snapshot.current_window, ms(5));
}

#[test]
fn counters_count() {
    let mut stats = AccumulatorStats::new();
    stats.record_submit();
    stats.record_submit();
    stats.record_bypass();
    stats.record_rejected();
    stats.record_dropped_timeout(5);
    let snapshot = stats.snapshot(0, 0, 0, 0, Duration::ZERO);
    assert_eq!(snapshot.total_submitted, 2);
    assert_eq!(snapshot.total_bypassed, 1);
    assert_eq!(snapshot.total_rejected, 1);
    assert_eq!(snapshot.total_dropped_timeout, 5);
    assert_eq!(snapshot.total_flushed, 0);
    assert_eq!(snapshot.avg_latency, Duration::ZERO);
    assert_eq!(stats.total_rejected(), 1);
}

#[test]
fn places_in_the_queue_are_taken_and_given_back() {
    let mut shared = SharedState::new(ms(100), Some(1));
    assert!(shared.acquire_slot().is_ok());
    assert!(shared.turn_away());
    assert!(shared.acquire_slot().is_err());
    shared.release_slot();
    assert!(!shared.turn_away());
    assert_eq!(shared.pending_count(), 0);
    assert_eq!(shared.health(true).total_rejected, 2);
}

#[test]
fn a_queue_without_places_counts_as_unused() {
    let shared = SharedState::new(ms(100), Some(0));
    let none = Ratio { numerator: 0, denominator: 1 };
    assert_eq!(shared.health(true).queue_utilization, none);
    let shared = SharedState::new(ms(100), None);
    assert_eq!(shared.health(true).queue_utilization, none);
}

fn info(batch_size: usize, max_batch_size: Option<usize>) -> FlushInfo {
    FlushInfo {
        batch_size,
        max_batch_size,
        window_duration: ms(100),
        items_remaining: 3,
        batch_id: 7,
        execution_time: ms(5),
        time_since_last_flush: ms(90),
        total_weight: None,
    }
}

#[test]
fn how_full_a_batch_was() {
    let none = Ratio { numerator: 0, denominator: 1 };
    assert_eq!(batch_utilization(&info(3, Some(4))), Ratio { numerator: 3, denominator: 4 });
    assert_eq!(batch_utilization(&info(9, Some(4))), Ratio { numerator: 4, denominator: 4 });
    assert_eq!(batch_utilization(&info(3, Some(0))), none);
    assert_eq!(batch_utilization(&info(3, None)), none);
}

#[test]
fn measurements_of_the_built_in_record() {
    let mut metrics: DefaultMetrics<f64> = DefaultMetrics::new(0.0);
    let before = metrics.snapshot();
    assert_eq!(before.queue_depth, 0);
    assert_eq!(before.buffer_size, 0);
    assert_eq!(before.last_execution_time, Duration::ZERO);
    assert_eq!(before.avg_execution_time, Duration::ZERO);
    metrics.record(&info(3, Some(4)), 0.225, ms(2), 6);
    let after = metrics.snapshot();
    assert_eq!(after.batch_utilization_rate, 0.225);
    assert_eq!(after.queue_depth, 3);
    assert_eq!(after.buffer_size, 6);
    assert_eq!(after.last_execution_time, ms(5));
    // The first batch has nothing to be compared with.
    assert_eq!(after.avg_execution_time, Duration::ZERO);
    assert_eq!(metrics.smoothed_utilization(), 0.225);
    assert_eq!(metrics.smoothed_execution_time(), ms(2));
    metrics.record(&info(4, Some(4)), 0.5, ms(3), 0);
    assert_eq!(metrics.snapshot().buffer_size, 0);
    assert_eq!(metrics.snapshot().avg_execution_time, ms(3));
}

#[test]
fn what_a_batch_holds() {
    let now = Moment { since_start: ms(40) };
    let batch = Batch::with_context(vec!['a', 'b'], 9, now, ms(100), 6);
    assert_eq!(batch.len(), 2);
    assert!(!batch.is_empty());
    assert_eq!(batch.items(), &['a', 'b']);
    assert_eq!(batch.batch_id(), 9);
    assert_eq!(batch.created_at(), now);
    assert_eq!(batch.age(now.after(ms(3))), ms(3));
    assert_eq!(batch.window_duration(), ms(100));
    assert_eq!(batch.queue_depth_at_flush(), 6);
    assert_eq!(batch.into_inner(), vec!['a', 'b']);
    let empty: Batch<char> = Batch::with_context(vec![], 0, now, ms(100), 0);
    assert!(empty.is_empty());
}

#[test]
fn defaults_of_a_submission() {
    let options = SubmitOptions::default();
    assert_eq!(options.priority, Priority::Normal);
    assert_eq!(options.ttl, None);
    assert_eq!(Priority::default(), Priority::Normal);
    assert!(Priority::High > Priority::Normal);
}

#[test]
fn an_adapter_gives_its_processor_back() {
    let adapter = TryBatchAdapter::new("processor");
    assert_eq!(*adapter.inner(), "processor");
    assert_eq!(adapter.into_inner(), "processor");
}
