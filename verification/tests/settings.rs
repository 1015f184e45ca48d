use std::time::Duration;

use windup::config::{AccumulatorConfig, ConcurrencyMode};
use windup::error::AccumulatorError;
use windup::text::decimal;
use windup::time::{clamp_window, Clock, Moment};
use windup::trace::{batch_event_level, default_tracing_level, event_enabled, Level};

fn ms(n: u64) -> Duration {
    Duration::from_millis(n)
}

fn reason(config: Result<AccumulatorConfig, AccumulatorError>) -> String {
    match config {
        Err(AccumulatorError::InvalidConfig { reason }) => reason,
        _ => panic!("the configuration is not valid"),
    }
}

#[test]
fn a_window_below_the_shortest_is_refused() {
    assert_eq!(
        reason(AccumulatorConfig::new(ms(10), ms(50), ms(5000))),
        "initial_window (10ms) must be >= min_window (50ms)"
    );
}

#[test]
fn a_window_above_the_longest_is_refused() {
    assert_eq!(
        reason(AccumulatorConfig::new(ms(6000), ms(50), ms(5000))),
        "initial_window (6s) must be <= max_window (5s)"
    );
}

#[test]
fn the_shortest_window_is_looked_at_first() {
    assert_eq!(
        reason(AccumulatorConfig::new(Duration::from_micros(1500), ms(50), ms(1))),
        "initial_window (1.5ms) must be >= min_window (50ms)"
    );
}

#[test]
fn the_ends_of_the_range_are_valid() {
    assert!(AccumulatorConfig::new(ms(50), ms(50), ms(50)).is_ok());
    assert!(AccumulatorConfig::new(ms(50), ms(50), ms(60)).is_ok());
    assert!(AccumulatorConfig::new(ms(60), ms(50), ms(60)).is_ok());
}

#[test]
fn a_new_configuration_sets_nothing_but_windows() {
    let config = AccumulatorConfig::new(ms(200), ms(50), ms(5000)).unwrap();
    assert_eq!(config.initial_window, ms(200));
    assert_eq!(config.min_window, ms(50));
    assert_eq!(config.max_window, ms(5000));
    assert_eq!(config.max_batch_size, None);
    assert_eq!(config.max_queue_depth, None);
    assert!(!config.flush_empty_batches);
    assert_eq!(config.concurrency_mode, ConcurrencyMode::Serial);
    assert_eq!(config.max_batch_weight, None);
    assert_eq!(config.tracing_level, Some(Level::Info));
    assert!(!config.trace_per_item);
    assert_eq!(config.drain_timeout, None);
    assert_eq!(config.drain_batch_limit, 64);
}

#[test]
fn the_default_configuration() {
    let config = AccumulatorConfig::default();
    assert_eq!(config.initial_window, ms(200));
    assert_eq!(config.min_window, ms(50));
    assert_eq!(config.max_window, Duration::from_secs(10));
    assert_eq!(config.drain_batch_limit, 64);
    assert_eq!(ConcurrencyMode::default(), ConcurrencyMode::Serial);
}

#[test]
fn every_option_is_set() {
    let mode = ConcurrencyMode::Concurrent { max_inflight: 4 };
    let config = AccumulatorConfig::default()
        .with_max_batch_size(100)
        .with_max_queue_depth(10_000)
        .with_max_batch_weight(1024)
        .with_concurrency_mode(mode)
        .with_flush_empty_batches(true)
        .with_drain_timeout(Some(Duration::from_secs(30)))
        .with_drain_batch_limit(128)
        .with_tracing_level(None)
        .with_trace_per_item(true);
    assert_eq!(config.max_batch_size, Some(100));
    assert_eq!(config.max_queue_depth, Some(10_000));
    assert_eq!(config.max_batch_weight, Some(1024));
    assert_eq!(config.concurrency_mode, mode);
    assert!(config.flush_empty_batches);
    assert_eq!(config.drain_timeout, Some(Duration::from_secs(30)));
    assert_eq!(config.drain_batch_limit, 128);
    assert_eq!(config.tracing_level, None);
    assert!(config.trace_per_item);
    assert_eq!(config.initial_window, ms(200));
}

#[test]
fn the_limit_on_batches_in_flight() {
    let serial = ConcurrencyMode::Serial;
    let unlimited = ConcurrencyMode::Concurrent { max_inflight: 0 };
    let two = ConcurrencyMode::Concurrent { max_inflight: 2 };
    assert!(!serial.is_counting_inflight());
    assert!(!unlimited.is_counting_inflight());
    assert!(two.is_counting_inflight());
    assert!(!serial.is_saturated(99));
    assert!(!unlimited.is_saturated(99));
    assert!(!two.is_saturated(1));
    assert!(two.is_saturated(2));
    assert!(two.is_saturated(3));
}

#[test]
fn error_messages() {
    assert_eq!(AccumulatorError::Shutdown.message(), "accumulator has shut down");
    assert_eq!(
        AccumulatorError::QueueFull { max: 100, pending: 207 }.message(),
        "queue is full: max=100, pending=207"
    );
    assert_eq!(
        AccumulatorError::InvalidConfig { reason: "too short".to_string() }.message(),
        "invalid config: too short"
    );
    assert_eq!(AccumulatorError::Timeout.message(), "item timed out before processing");
}

#[test]
fn numbers_in_decimal() {
    for n in [0, 1, 9, 10, 11, 99, 100, 1234567890, usize::MAX] {
        assert_eq!(decimal(n), n.to_string());
    }
}

#[test]
fn which_events_are_reported() {
    assert_eq!(default_tracing_level(), Some(Level::Info));
    assert!(event_enabled(Level::Error, Some(Level::Info)));
    assert!(event_enabled(Level::Warn, Some(Level::Info)));
    assert!(event_enabled(Level::Info, Some(Level::Info)));
    assert!(!event_enabled(Level::Debug, Some(Level::Info)));
    assert!(!event_enabled(Level::Trace, Some(Level::Debug)));
    assert!(event_enabled(Level::Trace, Some(Level::Trace)));
    assert!(!event_enabled(Level::Error, None));
    assert_eq!(batch_event_level(0), Level::Debug);
    assert_eq!(batch_event_level(1), Level::Info);
}

#[test]
fn moments_and_windows() {
    let early = Moment { since_start: ms(10) };
    let late = early.after(ms(15));
    assert_eq!(late.since_start, ms(25));
    assert_eq!(late.since(early), ms(15));
    assert_eq!(early.since(late), Duration::ZERO);
    assert!(late.reached(early));
    assert!(late.reached(late));
    assert!(!early.reached(late));
    assert_eq!(early.after(Duration::MAX).since_start, Duration::MAX);
    assert_eq!(clamp_window(ms(5), ms(10), ms(20)), ms(10));
    assert_eq!(clamp_window(ms(25), ms(10), ms(20)), ms(20));
    assert_eq!(clamp_window(ms(15), ms(10), ms(20)), ms(15));
}

#[test]
fn a_clock_goes_on() {
    let clock = Clock::start();
    let first = clock.now();
    let second = clock.now();
    assert!(second.reached(first));
    assert!(clock.started_at() <= tokio::time::Instant::now());
}
