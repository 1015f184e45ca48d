use std::time::Duration;

use windup::accumulator::{BatchAccumulator, Event, Found, Phase, Remainder, Response, Round};
use windup::batch::{deliver_all, settle_reply, FlushInfo, Priority, ReplyHandle, SubmitOptions};
use windup::channel::ReplyState;
use windup::config::{AccumulatorConfig, ConcurrencyMode};
use windup::controller::FixedController;
use windup::error::AccumulatorError;
use windup::flush::{Adjustment, BypassAction, FlushAction, FlushJob, FlushTrigger, ItemFate};
use windup::handle::{AccumulatorHandle, Attempt};
use windup::metrics::{batch_utilization, MetricsCollector, MetricsSnapshot};
use windup::shared::{InflightGuard, SharedState};
use windup::time::Moment;

/// A collector that remembers every report.
struct Probe {
    seen: Vec<FlushInfo>,
}

impl MetricsCollector for Probe {
    type Utilization = f64;

    fn record_flush(&mut self, info: &FlushInfo) {
        self.seen.push(*info);
    }

    fn snapshot(&self) -> MetricsSnapshot<f64> {
        let last = self.seen.last().copied();
        MetricsSnapshot {
            batch_utilization_rate: match &last {
                Some(info) => {
                    let share = batch_utilization(info);
                    share.numerator as f64 / share.denominator as f64
                }
                None => 0.0,
            },
            queue_depth: last.map(|info| info.items_remaining).unwrap_or(0),
            buffer_size: last.map(|info| info.batch_size).unwrap_or(0),
            avg_execution_time: Duration::ZERO,
            last_execution_time: last.map(|info| info.execution_time).unwrap_or(Duration::ZERO),
        }
    }
}

fn probe() -> Probe {
    Probe { seen: Vec::new() }
}

fn fixed(ms: u64) -> FixedController {
    FixedController::new(Duration::from_millis(ms))
}

fn cfg(ms: u64) -> AccumulatorConfig {
    let win = Duration::from_millis(ms);
    AccumulatorConfig::new(win, Duration::from_millis(50), Duration::from_secs(30)).unwrap()
}

fn at(ms: u64) -> Moment {
    Moment { since_start: Duration::from_millis(ms) }
}

/// The reply that has come to a handle, where one has.
fn look<R>(handle: ReplyHandle<R>) -> Option<Result<R, AccumulatorError>> {
    let mut receiver = handle.into_receiver();
    settle_reply(match receiver.try_recv() {
        Ok(reply) => ReplyState::Arrived(reply),
        Err(tokio::sync::oneshot::error::TryRecvError::Empty) => ReplyState::Pending,
        Err(tokio::sync::oneshot::error::TryRecvError::Closed) => ReplyState::Closed,
    })
}

/// A batch in a background task, and when the task ends.
struct Task<T, R> {
    due: Moment,
    job: FlushJob<T, R>,
    guard: InflightGuard,
}

/// An accumulator that runs on a clock of its own, one thing after the other.
struct Sim<T, R, F> {
    handle: AccumulatorHandle<T, R>,
    acc: BatchAccumulator<T, R, (), Probe, FixedController, F>,
    shared: SharedState,
    now: Moment,
    process: Box<dyn Fn(Vec<T>) -> Vec<R>>,
    delay: Duration,
    batches: Vec<(u64, Vec<T>)>,
    tasks: Vec<Task<T, R>>,
    bypassed: Vec<(u64, Vec<T>)>,
    flush_infos: Vec<FlushInfo>,
    windows: Vec<Duration>,
    depths: Vec<usize>,
    phases: Vec<Phase>,
}

impl<T: Clone + Send + 'static, R: Send + 'static, F: Fn(&T) -> usize> Sim<T, R, F> {
    fn new(
        made: (
            AccumulatorHandle<T, R>,
            BatchAccumulator<T, R, (), Probe, FixedController, F>,
            SharedState,
        ),
        process: impl Fn(Vec<T>) -> Vec<R> + 'static,
    ) -> Self {
        let (handle, mut acc, shared) = made;
        let now = at(1_000_000);
        acc.start(&shared, now);
        Sim {
            handle,
            acc,
            shared,
            now,
            process: Box::new(process),
            delay: Duration::ZERO,
            batches: Vec::new(),
            tasks: Vec::new(),
            bypassed: Vec::new(),
            flush_infos: Vec::new(),
            windows: Vec::new(),
            depths: Vec::new(),
            phases: Vec::new(),
        }
    }

    fn send(&mut self, item: T) -> Result<(), AccumulatorError> {
        self.handle.send(&mut self.shared, item)
    }

    fn submit(&mut self, item: T) -> Result<ReplyHandle<R>, AccumulatorError> {
        self.handle.submit(&mut self.shared, item)
    }

    fn work(&mut self, job: &FlushJob<T, R>) -> Vec<R> {
        let items: Vec<T> = job.batch.items().to_vec();
        self.windows.push(job.batch.window_duration());
        self.depths.push(job.batch.queue_depth_at_flush());
        self.batches.push((job.batch.batch_id(), items.clone()));
        (self.process)(items)
    }

    /// Passes a report on, and asks for the window that is to follow.
    fn consult(&mut self, info: FlushInfo) -> Adjustment {
        self.flush_infos.push(info);
        let recorded = self.acc.record(info);
        let window = self.shared.current_window();
        self.acc.adjust_window_after_flush(recorded, window)
    }

    fn carry_out(&mut self, action: FlushAction<T, R>, last: bool) {
        match action {
            FlushAction::Process(job) => {
                let results = self.work(&job);
                let remaining = self.shared.pending_count();
                let (replies, info) = job.ticket.finish(results, self.delay, remaining);
                deliver_all(replies);
                if last {
                    self.flush_infos.push(info);
                    let recorded = self.acc.record(info);
                    self.acc.record_completion(&mut self.shared, recorded, self.now);
                } else {
                    let adjustment = self.consult(info);
                    self.acc.finish_serial(&mut self.shared, adjustment, self.now);
                }
            }
            FlushAction::Spawn(job, guard) => {
                let due = self.now.after(self.delay);
                self.tasks.push(Task { due, job, guard });
            }
            FlushAction::Skipped | FlushAction::Held | FlushAction::Saturated => {}
        }
    }

    fn bypass_out(&mut self, action: BypassAction<T>) {
        match action {
            BypassAction::Process(batch) => {
                self.bypassed.push((batch.batch_id(), batch.into_inner()));
            }
            BypassAction::Spawn(batch, guard) => {
                self.bypassed.push((batch.batch_id(), batch.into_inner()));
                guard.release(&mut self.shared);
            }
        }
    }

    fn end_tasks(&mut self, all: bool) {
        let waiting = std::mem::take(&mut self.tasks);
        for task in waiting {
            if all || self.now.reached(task.due) {
                let results = self.work(&task.job);
                let remaining = self.shared.pending_count();
                let (replies, info) = task.job.ticket.finish(results, self.delay, remaining);
                deliver_all(replies);
                task.guard.release(&mut self.shared);
                self.acc.feedback_tx.send(info).unwrap();
            } else {
                self.tasks.push(task);
            }
        }
    }

    /// Does all that there is to do at this moment.
    fn settle(&mut self) {
        loop {
            self.end_tasks(false);
            let mut taken = 0;
            while let Some(items) = self.acc.next_bypass(taken) {
                let action = self.acc.process_bypass(&mut self.shared, items, self.now);
                self.bypass_out(action);
                taken += 1;
            }
            let mut taken = 0;
            while let Some(info) = self.acc.next_feedback(taken) {
                let adjustment = self.consult(info);
                self.acc.handle_feedback(&mut self.shared, adjustment, self.now);
                taken += 1;
            }
            let replies = self.acc.drain_expired(&mut self.shared, self.now);
            deliver_all(replies);
            let event = if self.now.reached(self.acc.deadline()) {
                Event::Timer
            } else if self.shared.is_flush_requested() {
                Event::FlushRequest
            } else if let Ok(item) = self.acc.item_rx.try_recv() {
                Event::Item(self.acc.arrive(item, self.now))
            } else {
                break;
            };
            match self.acc.on_event(&mut self.shared, event, self.now) {
                Response::Flush(action) => self.carry_out(action, false),
                Response::Item(_waited, ItemFate::Expired { reply }) => {
                    deliver_all(reply.into_iter().collect());
                }
                Response::Item(_waited, ItemFate::Buffered { flush, .. }) => {
                    if let Some(action) = flush {
                        self.carry_out(action, false);
                    }
                }
                Response::Window(_) | Response::Stop => unreachable!(),
            }
        }
    }

    fn tick(&mut self, ms: u64) {
        let end = self.now.after(Duration::from_millis(ms));
        loop {
            self.settle();
            let mut next = self.acc.deadline();
            for task in &self.tasks {
                if next.reached(task.due) {
                    next = task.due;
                }
            }
            if end.reached(next) {
                self.now = next;
            } else {
                break;
            }
        }
        self.now = end;
        self.settle();
    }

    /// Shuts down as the main loop does once all handles are gone.
    fn close(&mut self) {
        self.settle();
        self.acc.item_rx.close();
        self.drain();
    }

    /// What there is for a phase of the shutdown.
    fn find(&mut self, phase: Phase) -> Found<T, R> {
        match phase {
            Phase::Items => match self.acc.item_rx.try_recv() {
                Ok(item) => Found::Item(self.acc.arrive(item, self.now)),
                Err(_) => Found::Nothing,
            },
            Phase::Bypass => match self.acc.bypass_rx.try_recv() {
                Ok(items) => Found::Bypass(items),
                Err(_) => Found::Nothing,
            },
            Phase::Tasks => {
                self.end_tasks(true);
                Found::Nothing
            }
            Phase::Reports => match self.acc.feedback_rx.try_recv() {
                Ok(info) => Found::Report(self.consult(info)),
                Err(_) => Found::Nothing,
            },
            Phase::LastBatch | Phase::Done => Found::Nothing,
        }
    }

    /// Processes what is left.
    fn drain(&mut self) {
        let mut phase = Phase::Items;
        while phase != Phase::Done {
            self.phases.push(phase);
            let found = self.find(phase);
            let (rest, next) = self.acc.drain_step(&mut self.shared, phase, found, self.now);
            match rest {
                Remainder::Item(ItemFate::Expired { reply }) => {
                    deliver_all(reply.into_iter().collect());
                }
                Remainder::Item(ItemFate::Buffered { flush, .. }) => {
                    if let Some(action) = flush {
                        self.carry_out(action, true);
                    }
                }
                Remainder::Bypass(action) => self.bypass_out(action),
                Remainder::Flush(action) => self.carry_out(action, true),
                Remainder::Window(_) | Remainder::Nothing => {}
            }
            phase = next;
        }
    }

    fn sizes(&self) -> Vec<usize> {
        self.batches.iter().map(|(_, items)| items.len()).collect()
    }
}

fn units(items: Vec<i32>) -> Vec<()> {
    vec![(); items.len()]
}

fn double(items: Vec<i32>) -> Vec<i32> {
    items.into_iter().map(|x| x * 2).collect()
}

fn named(items: Vec<i32>) -> Vec<String> {
    items.iter().map(|i| format!("y-{i}")).collect()
}

// A batch for each window.

#[test]
fn test_basic_time_flush() {
    let mut sim = Sim::new(cfg(100).build((), probe(), fixed(100)), units);
    sim.send(1).unwrap();
    sim.send(2).unwrap();
    sim.send(3).unwrap();

    sim.tick(80);
    assert_eq!(sim.batches.len(), 0);

    sim.tick(40);
    assert_eq!(sim.batches.len(), 1, "expected 1 batch after window expiry");
    assert_eq!(sim.batches[0].1.len(), 3);
}

#[test]
fn test_max_batch_size_early_flush() {
    let config = cfg(10_000).with_max_batch_size(3);
    let mut sim = Sim::new(config.build((), probe(), fixed(10_000)), units);
    sim.send(1).unwrap();
    sim.send(2).unwrap();
    sim.send(3).unwrap();

    sim.tick(0);
    assert_eq!(sim.batches.len(), 1);
    assert_eq!(sim.batches[0].1.len(), 3);

    sim.send(4).unwrap();
    sim.send(5).unwrap();
    sim.tick(0);
    assert_eq!(sim.batches.len(), 1);
}

#[test]
fn test_multiple_time_flushes() {
    let mut sim = Sim::new(cfg(50).build((), probe(), fixed(50)), units);
    sim.send(1).unwrap();
    sim.send(2).unwrap();
    sim.tick(60);
    assert_eq!(sim.batches.len(), 1, "first flush should have occurred");

    sim.send(3).unwrap();
    sim.send(4).unwrap();
    sim.send(5).unwrap();
    sim.tick(60);
    assert_eq!(sim.batches.len(), 2, "expected 2 batches, got {}", sim.batches.len());
    assert_eq!(sim.batches[0].1.len(), 2);
    assert_eq!(sim.batches[1].1.len(), 3);
}

#[test]
fn test_drain_on_close() {
    let mut sim = Sim::new(cfg(10_000).build((), probe(), fixed(10_000)), units);
    sim.send(1).unwrap();
    sim.send(2).unwrap();
    sim.send(3).unwrap();

    sim.close();
    assert_eq!(sim.batches.len(), 1);
    assert_eq!(sim.batches[0].1.len(), 3);
}

#[test]
fn test_max_queue_depth() {
    let config = cfg(10_000).with_max_queue_depth(2);
    let mut sim = Sim::new(config.build((), probe(), fixed(10_000)), units);
    sim.send(1).unwrap();
    sim.send(2).unwrap();

    let err = sim.send(3).unwrap_err();
    assert!(matches!(err, AccumulatorError::QueueFull { max: 2, .. }));
    assert!(matches!(err, AccumulatorError::QueueFull { max: 2, pending: 2 }));
}

#[test]
fn test_empty_batch_suppression() {
    let mut sim = Sim::new(cfg(50).build((), probe(), fixed(50)), units);
    sim.tick(200);
    assert!(sim.batches.is_empty(), "should suppress empty batches");
}

#[test]
fn test_flush_empty_batches_enabled() {
    let config = cfg(50).with_flush_empty_batches(true);
    let mut sim = Sim::new(config.build((), probe(), fixed(50)), units);
    sim.tick(200);
    assert!(!sim.batches.is_empty(), "should have empty batches when enabled");
    assert_eq!(sim.sizes(), vec![0, 0, 0, 0]);
}

#[test]
fn test_multi_producer() {
    const PRODUCERS: usize = 10;
    const PER_PRODUCER: usize = 100;

    let made = cfg(200).build((), probe(), fixed(200));
    let mut sim = Sim::new(made, |items: Vec<usize>| vec![(); items.len()]);
    let mut handles = vec![];
    for _ in 0..PRODUCERS {
        handles.push(sim.handle.clone());
    }
    for h in handles {
        for i in 0..PER_PRODUCER {
            h.send(&mut sim.shared, i).unwrap();
        }
    }
    sim.tick(500);
    sim.close();

    let total: usize = sim.sizes().iter().sum();
    assert_eq!(total, PRODUCERS * PER_PRODUCER);
}

// Replies.

#[test]
fn test_reply_single_result() {
    let mut sim = Sim::new(cfg(100).build((), probe(), fixed(100)), double);
    let reply = sim.submit(21).unwrap();
    sim.tick(100);
    let result = look(reply).unwrap().unwrap();
    assert_eq!(result, 42);
}

#[test]
fn test_reply_multiple_results() {
    let made = cfg(200).build((), probe(), fixed(200));
    let mut sim = Sim::new(made, |items: Vec<String>| {
        items.into_iter().map(|s| s.to_uppercase()).collect::<Vec<String>>()
    });
    let r1 = sim.submit("hello".into()).unwrap();
    let r2 = sim.submit("world".into()).unwrap();
    let r3 = sim.submit("rust".into()).unwrap();
    sim.tick(200);

    assert_eq!(look(r1).unwrap().unwrap(), "HELLO");
    assert_eq!(look(r2).unwrap().unwrap(), "WORLD");
    assert_eq!(look(r3).unwrap().unwrap(), "RUST");
}

#[test]
fn test_reply_on_shutdown() {
    let mut sim = Sim::new(cfg(10_000).build((), probe(), fixed(10_000)), double);
    let reply = sim.submit(10).unwrap();
    sim.close();
    match look(reply).unwrap() {
        Ok(20) => {}
        Err(AccumulatorError::Shutdown) => {}
        other => panic!("unexpected result: {other:?}"),
    }
}

#[test]
fn test_reply_mixed_fire_and_forget() {
    let mut sim = Sim::new(cfg(200).build((), probe(), fixed(200)), double);
    sim.send(1).unwrap();
    sim.send(2).unwrap();
    let reply = sim.submit(10).unwrap();
    sim.send(3).unwrap();
    sim.tick(200);

    assert_eq!(look(reply).unwrap().unwrap(), 20);
    assert_eq!(sim.sizes(), vec![4]);
}

#[test]
fn missing_results_are_answered_with_shutdown() {
    let made = cfg(100).build((), probe(), fixed(100));
    let mut sim = Sim::new(made, |items: Vec<i32>| items.into_iter().take(1).collect::<Vec<i32>>());
    let r1 = sim.submit(1).unwrap();
    let r2 = sim.submit(2).unwrap();
    sim.tick(100);
    assert_eq!(look(r1).unwrap().unwrap(), 1);
    assert!(matches!(look(r2), Some(Err(AccumulatorError::Shutdown))));
}

#[test]
fn extra_results_are_ignored() {
    let made = cfg(100).build((), probe(), fixed(100));
    let mut sim = Sim::new(made, |_: Vec<i32>| vec![7, 8, 9]);
    let r1 = sim.submit(1).unwrap();
    sim.tick(100);
    assert_eq!(look(r1).unwrap().unwrap(), 7);
}

#[test]
fn a_dropped_reply_handle_does_no_harm() {
    let mut sim = Sim::new(cfg(100).build((), probe(), fixed(100)), double);
    let gone = sim.submit(1).unwrap();
    drop(gone);
    let kept = sim.submit(2).unwrap();
    sim.tick(100);
    assert_eq!(look(kept).unwrap().unwrap(), 4);
    assert_eq!(sim.batches[0].1, vec![1, 2]);
}

#[test]
fn an_unanswered_handle_is_pending() {
    let mut sim = Sim::new(cfg(100).build((), probe(), fixed(100)), double);
    let reply = sim.submit(1).unwrap();
    sim.tick(10);
    assert!(look(reply).is_none());
}

// Background tasks.

fn concurrent(max_inflight: usize) -> ConcurrencyMode {
    ConcurrencyMode::Concurrent { max_inflight }
}

#[test]
fn test_concurrent_basic_time_flush() {
    let config = cfg(100).with_concurrency_mode(concurrent(0));
    let mut sim = Sim::new(config.build((), probe(), fixed(100)), units);
    sim.send(1).unwrap();
    sim.send(2).unwrap();
    sim.tick(150);

    assert!(!sim.batches.is_empty(), "concurrent batch should be processed");
    assert_eq!(sim.batches[0].1.len(), 2);
}

#[test]
fn test_concurrent_drain_on_close() {
    let config = cfg(10_000).with_concurrency_mode(concurrent(0));
    let mut sim = Sim::new(config.build((), probe(), fixed(10_000)), units);
    sim.send(1).unwrap();
    sim.send(2).unwrap();
    sim.send(3).unwrap();
    sim.close();

    assert_eq!(sim.batches.len(), 1);
    assert_eq!(sim.batches[0].1.len(), 3);
}

#[test]
fn test_concurrent_multi_producer() {
    const PRODUCERS: usize = 10;
    const PER_PRODUCER: usize = 100;

    let config = cfg(200).with_concurrency_mode(concurrent(0));
    let made = config.build((), probe(), fixed(200));
    let mut sim = Sim::new(made, |items: Vec<usize>| vec![(); items.len()]);
    for _ in 0..PRODUCERS {
        let h = sim.handle.clone();
        for i in 0..PER_PRODUCER {
            h.send(&mut sim.shared, i).unwrap();
        }
    }
    sim.tick(500);
    sim.close();

    let total: usize = sim.sizes().iter().sum();
    assert_eq!(total, PRODUCERS * PER_PRODUCER);
}

#[test]
fn test_concurrent_max_batch_size() {
    let config = cfg(10_000).with_max_batch_size(3).with_concurrency_mode(concurrent(0));
    let mut sim = Sim::new(config.build((), probe(), fixed(10_000)), units);
    sim.send(1).unwrap();
    sim.send(2).unwrap();
    sim.send(3).unwrap();
    sim.tick(50);

    assert_eq!(sim.batches.len(), 1);
    assert_eq!(sim.batches[0].1.len(), 3);
}

#[test]
fn test_concurrent_max_inflight_limit() {
    let config = AccumulatorConfig::new(
        Duration::from_millis(20),
        Duration::from_millis(10),
        Duration::from_secs(10),
    )
    .unwrap()
    .with_max_batch_size(1)
    .with_concurrency_mode(concurrent(1));
    let mut sim = Sim::new(config.build((), probe(), fixed(20)), units);
    sim.delay = Duration::from_millis(500);
    for i in 0..5 {
        sim.send(i).unwrap();
    }
    sim.tick(10);
    assert_eq!(sim.shared.inflight_count(), 1);
    assert_eq!(sim.tasks.len(), 1);
    sim.tick(4990);

    let total: usize = sim.sizes().iter().sum();
    assert_eq!(total, 5, "all items should be processed");
    assert_eq!(sim.shared.inflight_count(), 0);
    assert_eq!(sim.sizes(), vec![1, 1, 1, 1, 1]);
}

#[test]
fn test_concurrent_with_reply() {
    let config = cfg(200).with_concurrency_mode(concurrent(0));
    let mut sim = Sim::new(config.build((), probe(), fixed(200)), double);
    let r1 = sim.submit(10).unwrap();
    let r2 = sim.submit(20).unwrap();
    sim.tick(200);

    assert_eq!(look(r1).unwrap().unwrap(), 20);
    assert_eq!(look(r2).unwrap().unwrap(), 40);
}

#[test]
fn test_serial_unchanged() {
    let mut sim = Sim::new(cfg(100).build((), probe(), fixed(100)), units);
    sim.send(1).unwrap();
    sim.send(2).unwrap();
    sim.send(3).unwrap();

    sim.tick(80);
    assert_eq!(sim.batches.len(), 0);

    sim.tick(40);
    assert_eq!(sim.batches.len(), 1);
    assert_eq!(sim.batches[0].1.len(), 3);
}

#[test]
fn a_saturated_accumulator_tries_again_soon() {
    let config = cfg(100).with_concurrency_mode(concurrent(1));
    let mut sim = Sim::new(config.build((), probe(), fixed(100)), units);
    sim.delay = Duration::from_millis(1000);
    sim.send(1).unwrap();
    sim.tick(100);
    sim.send(2).unwrap();
    sim.tick(100);
    let due = sim.acc.deadline();
    assert_eq!(due, sim.now.after(Duration::from_millis(10)));
    assert_eq!(sim.acc.buffered_len(), 1);
}

#[test]
fn the_last_batch_ignores_the_limit_on_batches_in_flight() {
    let config = cfg(100).with_concurrency_mode(concurrent(1));
    let mut sim = Sim::new(config.build((), probe(), fixed(100)), units);
    sim.delay = Duration::from_millis(1000);
    sim.send(1).unwrap();
    sim.tick(100);
    sim.send(2).unwrap();
    sim.close();
    assert_eq!(sim.batches, vec![(0, vec![1]), (1, vec![2])]);
    assert_eq!(sim.shared.inflight_count(), 0);
}

// Reports.

#[test]
fn tracing_flush_events_emitted() {
    let config = AccumulatorConfig::new(
        Duration::from_millis(100),
        Duration::from_millis(50),
        Duration::from_secs(1),
    )
    .unwrap()
    .with_flush_empty_batches(false);
    let made = config.build((), probe(), fixed(100));
    let mut sim = Sim::new(made, |items: Vec<i32>| {
        items.iter().map(|i| format!("done-{i}")).collect::<Vec<String>>()
    });
    let reply = sim.submit(42).unwrap();
    sim.tick(100);
    assert_eq!(look(reply).unwrap().unwrap(), "done-42");

    sim.handle.flush_now(&mut sim.shared);
    sim.tick(200);
    assert_eq!(sim.batches.len(), 1);
}

#[test]
fn tracing_queue_full_warns() {
    let config = AccumulatorConfig::new(
        Duration::from_millis(100),
        Duration::from_millis(50),
        Duration::from_secs(1),
    )
    .unwrap()
    .with_max_queue_depth(2);
    let made = config.build((), probe(), fixed(100));
    let mut sim = Sim::new(made, |items: Vec<i32>| {
        items.iter().map(|i| format!("x-{i}")).collect::<Vec<String>>()
    });
    sim.send(1).unwrap();
    sim.send(2).unwrap();
    let result = sim.send(3);
    assert!(matches!(result, Err(AccumulatorError::QueueFull { .. })));

    sim.handle.flush_now(&mut sim.shared);
    sim.tick(150);
    assert_eq!(sim.sizes(), vec![2]);
}

#[test]
fn tracing_config_integration() {
    let config = AccumulatorConfig::new(
        Duration::from_millis(100),
        Duration::from_millis(50),
        Duration::from_secs(1),
    )
    .unwrap()
    .with_trace_per_item(true);
    assert!(config.trace_per_item);
    let mut sim = Sim::new(config.build((), probe(), fixed(100)), named);
    let reply = sim.submit(99).unwrap();
    sim.tick(100);
    assert_eq!(look(reply).unwrap().unwrap(), "y-99");
}

// Waiting for a place in the queue.

fn narrow() -> AccumulatorConfig {
    AccumulatorConfig::new(
        Duration::from_millis(200),
        Duration::from_millis(50),
        Duration::from_secs(5),
    )
    .unwrap()
}

#[test]
fn test_submit_or_wait_waits_for_slot() {
    let config = narrow().with_max_queue_depth(1);
    let mut sim = Sim::new(config.build((), probe(), fixed(200)), named);
    let _reply = sim.submit(1).unwrap();
    let deadline = sim.now.after(Duration::from_secs(5));

    let item = match sim.handle.attempt(&mut sim.shared, 2, true) {
        Attempt::Full(item) => item,
        Attempt::Settled(_) => panic!("the queue is full"),
    };
    sim.tick(300);
    sim.handle.flush_now(&mut sim.shared);

    let again = sim.handle.attempt_again(&mut sim.shared, item, true, true, sim.now, deadline);
    let handle = match again {
        Attempt::Settled(Ok(Some(handle))) => handle,
        _ => panic!("there is room"),
    };
    sim.tick(200);
    assert_eq!(look(handle).unwrap().unwrap(), "y-2");
}

#[test]
fn test_send_or_wait_waits() {
    let config = narrow().with_max_queue_depth(1);
    let mut sim = Sim::new(config.build((), probe(), fixed(200)), named);
    sim.send(1).unwrap();
    let deadline = sim.now.after(Duration::from_secs(5));
    let item = match sim.handle.attempt(&mut sim.shared, 2, false) {
        Attempt::Full(item) => item,
        Attempt::Settled(_) => panic!("the queue is full"),
    };
    sim.tick(300);
    sim.handle.flush_now(&mut sim.shared);
    assert!(matches!(
        sim.handle.attempt_again(&mut sim.shared, item, false, true, sim.now, deadline),
        Attempt::Settled(Ok(None))
    ));
}

#[test]
fn a_wait_that_ends_without_a_wake_up_is_a_timeout() {
    let mut sim = Sim::new(narrow().build((), probe(), fixed(200)), named);
    let deadline = sim.now.after(Duration::from_millis(500));
    assert!(matches!(
        sim.handle.attempt_again(&mut sim.shared, 1, true, false, sim.now, deadline),
        Attempt::Settled(Err(AccumulatorError::Timeout))
    ));
    assert_eq!(sim.handle.stats(&sim.shared).total_submitted, 0);
}

#[test]
fn a_wait_lasts_no_longer_than_it_may_however_often_it_is_woken() {
    let config = narrow().with_max_queue_depth(1);
    let mut sim = Sim::new(config.build((), probe(), fixed(200)), named);
    sim.send(1).unwrap();
    let start = sim.now;
    let deadline = start.after(Duration::from_millis(100));
    let mut item = 2;
    // Another submitter takes each place before this one can.
    for waited in [30, 60, 99] {
        let now = start.after(Duration::from_millis(waited));
        match sim.handle.attempt_again(&mut sim.shared, item, true, true, now, deadline) {
            Attempt::Full(back) => item = back,
            Attempt::Settled(_) => panic!("the queue is full"),
        }
    }
    let before = sim.handle.stats(&sim.shared);
    assert!(matches!(
        sim.handle.attempt_again(&mut sim.shared, item, true, true, deadline, deadline),
        Attempt::Settled(Err(AccumulatorError::Timeout))
    ));
    let after = sim.handle.stats(&sim.shared);
    assert_eq!(after.total_submitted, before.total_submitted);
    assert_eq!(after.total_rejected, before.total_rejected);
    assert_eq!(after.queue_depth, 1);
    // The wake-up that came too late is there for another one who waits.
    wait_for_wake_up(&sim.handle.queue_notify);
}

#[test]
fn a_wait_ends_its_timeout_after_it_began() {
    let sim = Sim::new(narrow().build((), probe(), fixed(200)), named);
    let before = sim.handle.clock.now();
    let deadline = sim.handle.wait_deadline(Duration::from_millis(70));
    let after = sim.handle.clock.now();
    assert!(deadline.reached(before.after(Duration::from_millis(70))));
    assert!(after.after(Duration::from_millis(70)).reached(deadline));
    assert!(!after.reached(deadline));
}

/// Comes back once there is a wake-up to be taken.
fn wait_for_wake_up(notify: &tokio::sync::Notify) {
    let runtime = tokio::runtime::Builder::new_current_thread().build().unwrap();
    runtime.block_on(notify.notified());
}

#[test]
fn an_item_wakes_those_who_wait_for_a_place() {
    let mut sim = Sim::new(narrow().build((), probe(), fixed(200)), named);
    sim.send(1).unwrap();
    let item = sim.acc.item_rx.try_recv().unwrap();
    let arrival = sim.acc.arrive(item, sim.now);
    sim.acc.on_event(&mut sim.shared, Event::Item(arrival), sim.now);
    wait_for_wake_up(&sim.handle.queue_notify);
}

#[test]
fn an_urgent_item_wakes_the_main_loop() {
    let mut sim = Sim::new(narrow().build((), probe(), fixed(200)), named);
    let options = SubmitOptions { priority: Priority::High, ttl: None };
    sim.handle.submit_with(&mut sim.shared, 1, options).unwrap();
    let item = sim.acc.item_rx.try_recv().unwrap();
    let arrival = sim.acc.arrive(item, sim.now);
    sim.acc.on_event(&mut sim.shared, Event::Item(arrival), sim.now);
    assert!(sim.shared.is_flush_requested());
    wait_for_wake_up(&sim.handle.flush_notify);
}

#[test]
fn a_report_wakes_the_main_loop_where_items_have_gathered() {
    let config = cfg(10_000).with_concurrency_mode(concurrent(1));
    let mut sim = Sim::new(config.build((), probe(), fixed(10_000)), units);
    sim.send(1).unwrap();
    sim.tick(0);
    let adjustment = sim.consult(report(0));
    let response = sim.acc.on_event(&mut sim.shared, Event::Feedback(adjustment), sim.now);
    assert!(matches!(response, Response::Window(_)));
    wait_for_wake_up(&sim.handle.flush_notify);
}

#[test]
fn an_attempt_on_a_closed_queue_is_settled() {
    let mut sim = Sim::new(narrow().build((), probe(), fixed(200)), named);
    sim.acc.item_rx.close();
    assert!(matches!(
        sim.handle.attempt(&mut sim.shared, 1, true),
        Attempt::Settled(Err(AccumulatorError::Shutdown))
    ));
    assert!(matches!(
        sim.handle.attempt(&mut sim.shared, 1, false),
        Attempt::Settled(Err(AccumulatorError::Shutdown))
    ));
    assert_eq!(sim.shared.pending_count(), 0);
}

// What a batch knows of its flush.

#[test]
fn test_batch_context_fields() {
    let config = AccumulatorConfig::new(
        Duration::from_millis(100),
        Duration::from_millis(50),
        Duration::from_secs(5),
    )
    .unwrap();
    let mut sim = Sim::new(config.build((), probe(), fixed(100)), units);
    sim.send(1).unwrap();
    sim.tick(200);
    assert!(!sim.windows.is_empty(), "batch context should be set");
    assert!(sim.windows[0] > Duration::ZERO, "window_duration should be non-zero");
    assert_eq!(sim.windows[0], Duration::from_millis(100));
}

#[test]
fn a_batch_knows_how_many_items_waited() {
    let config = cfg(100).with_max_batch_size(2);
    let mut sim = Sim::new(config.build((), probe(), fixed(100)), units);
    for i in 0..5 {
        sim.send(i).unwrap();
    }
    sim.tick(100);
    assert_eq!(sim.sizes(), vec![2, 2, 1]);
    assert_eq!(sim.depths, vec![3, 1, 0]);
}

#[test]
fn a_report_tells_all_about_its_batch() {
    let config = cfg(100).with_max_batch_size(10).with_max_batch_weight(100);
    let made = config.build_with_weight((), probe(), fixed(100), |x: &i32| *x as usize);
    let mut sim = Sim::new(made, units);
    sim.delay = Duration::from_millis(7);
    sim.send(3).unwrap();
    sim.send(4).unwrap();
    sim.tick(100);
    let info = sim.flush_infos[0];
    assert_eq!(info.batch_size, 2);
    assert_eq!(info.max_batch_size, Some(10));
    assert_eq!(info.window_duration, Duration::from_millis(100));
    assert_eq!(info.items_remaining, 0);
    assert_eq!(info.batch_id, 0);
    assert_eq!(info.execution_time, Duration::from_millis(7));
    assert_eq!(info.total_weight, Some(7));
}

#[test]
fn weight_is_reported_only_where_it_is_limited() {
    let made = cfg(100).build_with_weight((), probe(), fixed(100), |x: &i32| *x as usize);
    let mut sim = Sim::new(made, units);
    sim.send(3).unwrap();
    sim.tick(50);
    assert_eq!(sim.handle.stats(&sim.shared).current_weight, 0);
    sim.tick(50);
    assert_eq!(sim.flush_infos[0].total_weight, None);
}

// State of health.

#[test]
fn test_health_reflects_state() {
    let config = narrow().with_max_queue_depth(10);
    let sim = Sim::new(config.build((), probe(), fixed(200)), named);
    let health = sim.handle.health(&sim.shared);
    assert!(health.is_accepting);
    assert!(health.current_window > Duration::ZERO);
    assert_eq!(health.total_rejected, 0);
}

#[test]
fn health_shows_a_closed_queue_and_its_use() {
    let config = narrow().with_max_queue_depth(10);
    let mut sim = Sim::new(config.build((), probe(), fixed(200)), named);
    sim.send(1).unwrap();
    sim.send(2).unwrap();
    sim.acc.item_rx.close();
    let health = sim.handle.health(&sim.shared);
    assert!(!health.is_accepting);
    assert_eq!(health.queue_utilization.numerator, 2);
    assert_eq!(health.queue_utilization.denominator, 10);
    assert_eq!(health.current_window, Duration::from_millis(200));
    assert_eq!(health.inflight_count, 0);
}

#[test]
fn test_rejected_counter_increments() {
    let config = narrow().with_max_queue_depth(1);
    let mut sim = Sim::new(config.build((), probe(), fixed(200)), named);
    let _reply = sim.submit(1).unwrap();
    let err = sim.send(2).unwrap_err();
    assert!(matches!(err, AccumulatorError::QueueFull { .. }));

    let health = sim.handle.health(&sim.shared);
    assert_eq!(health.total_rejected, 1);
}

#[test]
fn test_send_fire_and_forget() {
    let mut sim = Sim::new(narrow().build((), probe(), fixed(200)), named);
    assert!(sim.send(42).is_ok());
}

#[test]
fn statistics_count_everything() {
    let config = cfg(100).with_max_queue_depth(3).with_max_batch_weight(1000);
    let made = config.build_with_weight((), probe(), fixed(100), |x: &i32| *x as usize);
    let mut sim = Sim::new(made, units);
    for i in 1..4 {
        sim.send(i).unwrap();
    }
    assert!(sim.send(4).is_err());
    sim.handle.bypass(&mut sim.shared, 9).unwrap();
    assert_eq!(sim.handle.pending_count(&sim.shared), 3);
    sim.tick(10);
    let stats = sim.handle.stats(&sim.shared);
    assert_eq!(stats.total_submitted, 3);
    assert_eq!(stats.total_rejected, 1);
    assert_eq!(stats.total_bypassed, 1);
    assert_eq!(stats.total_flushed, 0);
    assert_eq!(stats.queue_depth, 0);
    assert_eq!(stats.buffer_size, 3);
    assert_eq!(stats.current_weight, 6);
    assert_eq!(stats.current_window, Duration::from_millis(100));
    sim.delay = Duration::from_millis(4);
    sim.tick(90);
    let stats = sim.handle.stats(&sim.shared);
    assert_eq!(stats.total_flushed, 1);
    assert_eq!(stats.buffer_size, 0);
    assert_eq!(stats.current_weight, 0);
    assert_eq!(stats.p50_latency, Duration::from_millis(4));
    assert_eq!(stats.max_latency, Duration::from_millis(4));
    assert_eq!(stats.avg_latency, Duration::from_millis(4));
    assert!(stats.p99_queue_wait >= stats.p50_queue_wait);
}

// Urgency and time to live.

#[test]
fn urgent_items_go_first_and_at_once() {
    let mut sim = Sim::new(cfg(10_000).build((), probe(), fixed(10_000)), units);
    sim.send(1).unwrap();
    sim.send(2).unwrap();
    sim.tick(10);
    let options = SubmitOptions { priority: Priority::High, ttl: None };
    let reply = sim.handle.submit_with(&mut sim.shared, 3, options).unwrap();
    sim.tick(0);
    assert_eq!(sim.batches, vec![(0, vec![3, 1, 2])]);
    assert!(look(reply).unwrap().is_ok());
}

#[test]
fn an_item_that_waits_too_long_is_dropped() {
    let mut sim = Sim::new(cfg(10_000).build((), probe(), fixed(10_000)), double);
    let options = SubmitOptions { priority: Priority::Normal, ttl: Some(Duration::ZERO) };
    let reply = sim.handle.submit_with(&mut sim.shared, 3, options).unwrap();
    sim.send(4).unwrap();
    sim.tick(0);
    assert!(matches!(look(reply), Some(Err(AccumulatorError::Timeout))));
    assert_eq!(sim.acc.buffered_len(), 1);
    assert_eq!(sim.handle.stats(&sim.shared).total_dropped_timeout, 1);
}

#[test]
fn a_buffered_item_can_time_out() {
    let config = cfg(10_000).with_max_batch_weight(1000);
    let made = config.build_with_weight((), probe(), fixed(10_000), |x: &i32| *x as usize);
    let mut sim = Sim::new(made, double);
    let options = SubmitOptions { priority: Priority::Normal, ttl: Some(Duration::from_secs(2000)) };
    let early = sim.submit(1).unwrap();
    let late = sim.handle.submit_with(&mut sim.shared, 30, options).unwrap();
    sim.send(5).unwrap();
    sim.tick(5);
    assert_eq!(sim.acc.buffered_len(), 3);
    assert_eq!(sim.handle.stats(&sim.shared).current_weight, 36);
    // The clock of the handle has just been started, so the item is due long before this.
    sim.now = at(3_000_000);
    deliver_all(sim.acc.drain_expired(&mut sim.shared, sim.now));
    assert!(matches!(look(late), Some(Err(AccumulatorError::Timeout))));
    assert_eq!(sim.acc.buffered_len(), 2);
    assert_eq!(sim.handle.stats(&sim.shared).current_weight, 6);
    assert_eq!(sim.handle.stats(&sim.shared).total_dropped_timeout, 1);
    sim.settle();
    assert_eq!(sim.batches, vec![(0, vec![1, 5])]);
    assert_eq!(look(early).unwrap().unwrap(), 2);
}

#[test]
fn items_that_have_timed_out_are_dropped_at_shutdown_too() {
    let mut sim = Sim::new(cfg(10_000).build((), probe(), fixed(10_000)), double);
    let options = SubmitOptions { priority: Priority::Normal, ttl: Some(Duration::ZERO) };
    let reply = sim.handle.submit_with(&mut sim.shared, 3, options).unwrap();
    let item = sim.acc.item_rx.try_recv().unwrap();
    let arrival = sim.acc.arrive(item, sim.now);
    let fate = sim.acc.receive_draining(&mut sim.shared, arrival);
    match fate {
        ItemFate::Expired { reply } => {
            assert_eq!(deliver_all(reply.into_iter().collect()), 1);
        }
        ItemFate::Buffered { .. } => panic!("the item has timed out"),
    }
    assert!(matches!(look(reply), Some(Err(AccumulatorError::Timeout))));
    assert_eq!(sim.shared.pending_count(), 0);
}

// Weight.

#[test]
fn heavy_buffers_are_flushed_at_once() {
    let config = cfg(10_000).with_max_batch_weight(10);
    let made = config.build_with_weight((), probe(), fixed(10_000), |x: &i32| *x as usize);
    let mut sim = Sim::new(made, units);
    sim.send(4).unwrap();
    sim.send(5).unwrap();
    sim.tick(0);
    assert!(sim.batches.is_empty());
    assert!(!sim.acc.should_flush());
    sim.send(1).unwrap();
    sim.tick(0);
    assert_eq!(sim.batches, vec![(0, vec![4, 5, 1])]);
}

#[test]
fn without_a_weigher_each_item_weighs_one() {
    let config = cfg(10_000).with_max_batch_weight(2);
    let mut sim = Sim::new(config.build((), probe(), fixed(10_000)), units);
    sim.send(400).unwrap();
    sim.tick(0);
    assert_eq!(sim.handle.stats(&sim.shared).current_weight, 1);
    sim.send(500).unwrap();
    sim.tick(0);
    assert_eq!(sim.sizes(), vec![2]);
}

#[test]
fn each_batch_is_reported_with_its_own_weight() {
    let config = cfg(10_000).with_max_batch_size(2).with_max_batch_weight(100);
    let made = config.build_with_weight((), probe(), fixed(10_000), |x: &i32| *x as usize);
    let mut sim = Sim::new(made, units);
    sim.handle.pause(&mut sim.shared);
    for weight in [3, 4, 5] {
        sim.send(weight).unwrap();
    }
    sim.tick(0);
    assert_eq!(sim.handle.stats(&sim.shared).current_weight, 12);
    let action = sim.acc.flush_batch(&mut sim.shared, FlushTrigger::Request, sim.now);
    assert_eq!(sim.handle.stats(&sim.shared).current_weight, 5);
    assert!(sim.shared.is_flush_requested());
    sim.carry_out(action, false);
    sim.tick(0);
    let weights: Vec<Option<usize>> =
        sim.flush_infos.iter().map(|info| info.total_weight).collect();
    assert_eq!(weights, vec![Some(7), Some(5)]);
    assert_eq!(sim.handle.stats(&sim.shared).current_weight, 0);
}

#[test]
fn an_item_that_has_timed_out_is_not_weighed() {
    let made = cfg(100).build_with_weight((), probe(), fixed(100), |_: &i32| -> usize {
        panic!("weighed")
    });
    let mut sim = Sim::new(made, units);
    let options = SubmitOptions { priority: Priority::Normal, ttl: Some(Duration::ZERO) };
    sim.handle.submit_with(&mut sim.shared, 1, options).unwrap();
    sim.tick(0);
    assert_eq!(sim.handle.stats(&sim.shared).total_dropped_timeout, 1);
}

// Pausing, asking for a flush, shutting down.

#[test]
fn a_paused_accumulator_only_buffers() {
    let config = cfg(100).with_max_batch_size(2);
    let mut sim = Sim::new(config.build((), probe(), fixed(100)), units);
    sim.handle.pause(&mut sim.shared);
    assert!(sim.handle.is_paused(&sim.shared));
    for i in 0..5 {
        sim.send(i).unwrap();
    }
    sim.tick(1000);
    assert!(sim.batches.is_empty());
    assert_eq!(sim.acc.buffered_len(), 5);
    sim.handle.resume(&mut sim.shared);
    assert!(!sim.handle.is_paused(&sim.shared));
    sim.tick(0);
    assert_eq!(sim.batches, vec![(0, vec![0, 1]), (1, vec![2, 3]), (2, vec![4])]);
}

#[test]
fn a_paused_accumulator_flushes_when_asked_and_for_urgent_items() {
    let mut sim = Sim::new(cfg(100).build((), probe(), fixed(100)), units);
    sim.handle.pause(&mut sim.shared);
    sim.send(1).unwrap();
    sim.tick(10);
    sim.handle.flush_now(&mut sim.shared);
    sim.tick(0);
    assert_eq!(sim.sizes(), vec![1]);
    sim.send(2).unwrap();
    let options = SubmitOptions { priority: Priority::High, ttl: None };
    sim.handle.submit_with(&mut sim.shared, 3, options).unwrap();
    sim.tick(0);
    assert_eq!(sim.batches[1].1, vec![3, 2]);
    assert!(sim.handle.is_paused(&sim.shared));
}

#[test]
fn a_request_that_was_put_off_is_made_good_while_paused() {
    let config = cfg(100).with_concurrency_mode(concurrent(1));
    let mut sim = Sim::new(config.build((), probe(), fixed(100)), units);
    sim.delay = Duration::from_millis(300);
    sim.send(1).unwrap();
    sim.tick(100);
    sim.handle.pause(&mut sim.shared);
    sim.send(2).unwrap();
    sim.tick(10);
    sim.handle.flush_now(&mut sim.shared);
    sim.tick(200);
    assert_eq!(sim.acc.buffered_len(), 1);
    sim.tick(150);
    assert_eq!(sim.acc.buffered_len(), 0);
    sim.tick(400);
    assert_eq!(sim.batches, vec![(0, vec![1]), (1, vec![2])]);
}

#[test]
fn requests_merge() {
    let mut sim = Sim::new(cfg(10_000).build((), probe(), fixed(10_000)), units);
    sim.send(1).unwrap();
    sim.tick(0);
    sim.handle.flush_now(&mut sim.shared);
    sim.handle.flush_now(&mut sim.shared);
    assert!(sim.shared.is_flush_requested());
    sim.tick(0);
    assert_eq!(sim.batches.len(), 1);
    assert!(!sim.shared.is_flush_requested());
}

#[test]
fn a_look_without_a_request_does_nothing() {
    let mut sim = Sim::new(cfg(100).build((), probe(), fixed(100)), units);
    sim.send(1).unwrap();
    sim.tick(10);
    let before = sim.acc.deadline();
    assert!(matches!(
        sim.acc.on_flush_request(&mut sim.shared, sim.now),
        FlushAction::Skipped
    ));
    assert_eq!(sim.acc.buffered_len(), 1);
    assert_eq!(sim.acc.deadline(), before);
}

#[test]
fn cancelling_is_seen_by_the_main_loop() {
    let mut sim = Sim::new(cfg(100).build((), probe(), fixed(100)), units);
    assert!(!sim.shared.is_cancelled());
    sim.handle.cancel(&mut sim.shared);
    assert!(sim.shared.is_cancelled());
    assert!(sim.shared.is_flush_requested());
}

#[test]
fn a_cancelled_accumulator_stops_although_a_handle_is_left() {
    let mut sim = Sim::new(cfg(10_000).build((), probe(), fixed(10_000)), units);
    for i in 1..=3 {
        sim.send(i).unwrap();
    }
    assert_eq!(sim.acc.begin_round(&sim.shared), Round::Continue);
    assert!(sim.handle.health(&sim.shared).is_accepting);
    sim.handle.cancel(&mut sim.shared);
    assert_eq!(sim.acc.begin_round(&sim.shared), Round::Stop);
    assert!(!sim.handle.health(&sim.shared).is_accepting);
    assert!(matches!(sim.send(4), Err(AccumulatorError::Shutdown)));
    assert!(matches!(
        sim.handle.bypass(&mut sim.shared, 5),
        Err(AccumulatorError::Shutdown)
    ));
    sim.drain();
    assert_eq!(sim.batches, vec![(0, vec![1, 2, 3])]);
}

#[test]
fn the_largest_batch_holds_while_the_accumulator_shuts_down() {
    let config = cfg(10_000).with_max_batch_size(2);
    let mut sim = Sim::new(config.build((), probe(), fixed(10_000)), units);
    for i in 1..=5 {
        sim.send(i).unwrap();
    }
    sim.handle.cancel(&mut sim.shared);
    assert_eq!(sim.acc.begin_round(&sim.shared), Round::Stop);
    sim.drain();
    assert_eq!(sim.batches, vec![(0, vec![1, 2]), (1, vec![3, 4]), (2, vec![5])]);
}

#[test]
fn what_a_pause_held_back_is_cut_up_at_shutdown() {
    let config = cfg(10_000).with_max_batch_size(2).with_concurrency_mode(concurrent(1));
    let mut sim = Sim::new(config.build((), probe(), fixed(10_000)), units);
    sim.handle.pause(&mut sim.shared);
    for i in 1..=5 {
        sim.send(i).unwrap();
    }
    sim.tick(10);
    assert_eq!(sim.acc.buffered_len(), 5);
    sim.handle.cancel(&mut sim.shared);
    assert_eq!(sim.acc.begin_round(&sim.shared), Round::Stop);
    sim.drain();
    assert_eq!(sim.batches, vec![(0, vec![1, 2]), (1, vec![3, 4]), (2, vec![5])]);
    assert_eq!(sim.acc.buffered_len(), 0);
    assert_eq!(sim.shared.inflight_count(), 0);
}

#[test]
fn a_shutdown_goes_through_its_phases_in_order() {
    let config = cfg(10_000).with_concurrency_mode(concurrent(4));
    let mut sim = Sim::new(config.build((), probe(), fixed(10_000)), units);
    sim.send(1).unwrap();
    sim.handle.bypass(&mut sim.shared, 9).unwrap();
    sim.handle.cancel(&mut sim.shared);
    assert_eq!(sim.acc.begin_round(&sim.shared), Round::Stop);
    sim.drain();
    assert_eq!(
        sim.phases,
        vec![
            Phase::Items,
            Phase::Items,
            Phase::Bypass,
            Phase::Bypass,
            Phase::LastBatch,
            Phase::Tasks,
            Phase::Reports,
            Phase::Reports,
        ]
    );
    assert_eq!(sim.bypassed, vec![(0, vec![9])]);
    assert_eq!(sim.batches, vec![(1, vec![1])]);
    assert_eq!(sim.handle.stats(&sim.shared).total_flushed, 1);
}

#[test]
fn an_empty_batch_is_made_at_shutdown_only_where_it_is_wanted() {
    let mut sim = Sim::new(cfg(10_000).build((), probe(), fixed(10_000)), units);
    sim.close();
    assert!(sim.batches.is_empty());
    let config = cfg(10_000).with_flush_empty_batches(true);
    let mut sim = Sim::new(config.build((), probe(), fixed(10_000)), units);
    sim.close();
    assert_eq!(sim.sizes(), vec![0]);
}

#[test]
fn nothing_can_be_sent_once_the_queue_is_closed() {
    let mut sim = Sim::new(cfg(100).build((), probe(), fixed(100)), double);
    sim.acc.item_rx.close();
    sim.acc.bypass_rx.close();
    assert!(matches!(sim.send(1), Err(AccumulatorError::Shutdown)));
    assert!(matches!(sim.submit(1), Err(AccumulatorError::Shutdown)));
    assert!(matches!(
        sim.handle.bypass(&mut sim.shared, 1),
        Err(AccumulatorError::Shutdown)
    ));
    let stats = sim.handle.stats(&sim.shared);
    assert_eq!(stats.total_submitted, 0);
    assert_eq!(stats.total_bypassed, 0);
    assert_eq!(stats.queue_depth, 0);
}

#[test]
fn the_end_of_the_queue_stops_the_main_loop() {
    let mut sim = Sim::new(cfg(100).build((), probe(), fixed(100)), units);
    assert!(matches!(
        sim.acc.on_event(&mut sim.shared, Event::Closed, sim.now),
        Response::Stop
    ));
}

// Bypass.

#[test]
fn bypassed_items_are_processed_on_their_own() {
    let mut sim = Sim::new(cfg(10_000).build((), probe(), fixed(10_000)), units);
    sim.send(1).unwrap();
    sim.handle.bypass(&mut sim.shared, 7).unwrap();
    sim.tick(0);
    // The main loop is woken for it, but nothing else is flushed.
    wait_for_wake_up(&sim.handle.flush_notify);
    assert!(!sim.shared.is_flush_requested());
    assert_eq!(sim.bypassed, vec![(0, vec![7])]);
    assert_eq!(sim.acc.buffered_len(), 1);
    assert_eq!(sim.acc.next_batch_id(), 1);
    assert!(sim.flush_infos.is_empty());
}

#[test]
fn a_bypass_in_the_background_uses_two_numbers() {
    let config = cfg(10_000).with_concurrency_mode(concurrent(2));
    let mut sim = Sim::new(config.build((), probe(), fixed(10_000)), units);
    sim.handle.bypass(&mut sim.shared, 7).unwrap();
    sim.tick(0);
    assert_eq!(sim.bypassed, vec![(1, vec![7])]);
    assert_eq!(sim.acc.next_batch_id(), 2);
    assert_eq!(sim.shared.inflight_count(), 0);
}

#[test]
fn a_bypass_is_processed_at_once_where_too_many_batches_are_in_flight() {
    let config = cfg(100).with_concurrency_mode(concurrent(1));
    let mut sim = Sim::new(config.build((), probe(), fixed(100)), units);
    sim.delay = Duration::from_millis(500);
    sim.send(1).unwrap();
    sim.tick(100);
    let action = sim.acc.process_bypass(&mut sim.shared, vec![8], sim.now);
    match action {
        BypassAction::Process(batch) => {
            assert_eq!(batch.batch_id(), 1);
            assert_eq!(batch.window_duration(), Duration::ZERO);
            assert_eq!(batch.queue_depth_at_flush(), 0);
            assert_eq!(batch.into_inner(), vec![8]);
        }
        BypassAction::Spawn(..) => panic!("too many batches are in flight"),
    }
    assert_eq!(sim.shared.inflight_count(), 1);
}

#[test]
fn one_round_takes_no_more_bypasses_and_reports_than_it_may() {
    let config = cfg(10_000).with_drain_batch_limit(2);
    let mut sim = Sim::new(config.build((), probe(), fixed(10_000)), units);
    for i in 0..3 {
        sim.handle.bypass(&mut sim.shared, i).unwrap();
        sim.acc.feedback_tx.send(report(i as u64)).unwrap();
    }
    assert_eq!(sim.acc.next_bypass(0), Some(vec![0]));
    assert_eq!(sim.acc.next_bypass(1), Some(vec![1]));
    wait_for_wake_up(&sim.handle.flush_notify);
    assert_eq!(sim.acc.next_bypass(2), None);
    // More may be left, so another round follows at once.
    wait_for_wake_up(&sim.handle.flush_notify);
    assert_eq!(sim.acc.next_bypass(0), Some(vec![2]));
    assert_eq!(sim.acc.next_bypass(0), None);
    assert_eq!(sim.acc.next_feedback(0).unwrap().batch_id, 0);
    assert_eq!(sim.acc.next_feedback(1).unwrap().batch_id, 1);
    assert!(sim.acc.next_feedback(2).is_none());
    assert_eq!(sim.acc.next_feedback(0).unwrap().batch_id, 2);
    assert!(sim.acc.next_feedback(0).is_none());
}

fn report(batch_id: u64) -> FlushInfo {
    FlushInfo {
        batch_size: 1,
        max_batch_size: Some(4),
        window_duration: Duration::from_millis(100),
        items_remaining: 0,
        batch_id,
        execution_time: Duration::from_millis(3),
        time_since_last_flush: Duration::from_millis(9),
        total_weight: None,
    }
}

// The window.

#[test]
fn the_window_is_held_to_its_range() {
    let config = AccumulatorConfig::new(
        Duration::from_millis(100),
        Duration::from_millis(60),
        Duration::from_millis(200),
    )
    .unwrap();
    let mut low = Sim::new(config.build((), probe(), fixed(1)), units);
    let adjustment = low.consult(report(0));
    assert_eq!(adjustment.change().after, Duration::from_millis(60));
    let change = low.acc.handle_feedback(&mut low.shared, adjustment, low.now);
    assert_eq!(change.before, Duration::from_millis(100));
    assert_eq!(change.proposed, Duration::from_millis(1));
    assert_eq!(change.after, Duration::from_millis(60));
    assert_eq!(low.shared.current_window(), Duration::from_millis(60));

    let mut high = Sim::new(config.build((), probe(), fixed(1000)), units);
    high.send(1).unwrap();
    high.tick(100);
    assert_eq!(high.shared.current_window(), Duration::from_millis(200));
    assert_eq!(high.acc.deadline(), high.now.after(Duration::from_millis(200)));
}

#[test]
fn a_report_asks_for_a_flush_where_items_have_gathered() {
    let config = cfg(10_000).with_concurrency_mode(concurrent(1));
    let mut sim = Sim::new(config.build((), probe(), fixed(10_000)), units);
    let adjustment = sim.consult(report(0));
    sim.acc.handle_feedback(&mut sim.shared, adjustment, sim.now);
    assert!(!sim.shared.is_flush_requested());
    sim.send(1).unwrap();
    sim.tick(0);
    let adjustment = sim.consult(report(1));
    sim.acc.handle_feedback(&mut sim.shared, adjustment, sim.now);
    assert!(sim.shared.is_flush_requested());
}

// What holds of whole runs.

#[test]
fn every_item_is_processed_just_once_and_in_order() {
    let config = cfg(50).with_max_batch_size(4);
    let mut sim = Sim::new(config.build((), probe(), fixed(50)), units);
    let mut sent = Vec::new();
    for i in 0..37 {
        sim.send(i).unwrap();
        sent.push(i);
        if i % 5 == 0 {
            sim.tick(13);
        }
        if i % 11 == 0 {
            sim.handle.flush_now(&mut sim.shared);
        }
    }
    sim.close();
    let got: Vec<i32> = sim.batches.iter().flat_map(|(_, items)| items.clone()).collect();
    assert_eq!(got, sent);
    let ids: Vec<u64> = sim.batches.iter().map(|(id, _)| *id).collect();
    assert!(ids.windows(2).all(|pair| pair[0] < pair[1]));
    assert!(sim.sizes().iter().all(|size| *size <= 4));
    assert_eq!(sim.acc.buffered_len(), 0);
    assert_eq!(sim.acc.remaining(&sim.shared), 0);
}

#[test]
fn no_batch_is_larger_than_it_may_be() {
    let config = cfg(50).with_max_batch_size(3).with_concurrency_mode(concurrent(1));
    let mut sim = Sim::new(config.build((), probe(), fixed(50)), units);
    sim.delay = Duration::from_millis(70);
    for i in 0..40 {
        if i % 9 == 0 {
            sim.handle.pause(&mut sim.shared);
        }
        if i % 9 == 7 {
            sim.handle.resume(&mut sim.shared);
        }
        sim.send(i).unwrap();
        sim.tick(11);
    }
    sim.handle.cancel(&mut sim.shared);
    assert_eq!(sim.acc.begin_round(&sim.shared), Round::Stop);
    sim.drain();
    assert!(sim.sizes().iter().all(|size| *size <= 3));
    let got: Vec<i32> = sim.batches.iter().flat_map(|(_, items)| items.clone()).collect();
    assert_eq!(got, (0..40).collect::<Vec<i32>>());
}

#[test]
fn a_largest_size_of_zero_flushes_each_item_and_cuts_no_batch() {
    let config = cfg(10_000).with_max_batch_size(0);
    let mut sim = Sim::new(config.build((), probe(), fixed(10_000)), units);
    sim.send(1).unwrap();
    sim.send(2).unwrap();
    sim.tick(0);
    assert_eq!(sim.batches, vec![(0, vec![1]), (1, vec![2])]);
    sim.handle.pause(&mut sim.shared);
    sim.send(3).unwrap();
    sim.send(4).unwrap();
    sim.tick(0);
    sim.handle.resume(&mut sim.shared);
    sim.tick(0);
    assert_eq!(sim.batches[2], (2, vec![3, 4]));
    assert_eq!(sim.batches.len(), 3);
}

#[test]
fn the_items_that_remain_are_counted() {
    let mut sim = Sim::new(cfg(10_000).build((), probe(), fixed(10_000)), units);
    sim.send(1).unwrap();
    sim.send(2).unwrap();
    sim.tick(0);
    sim.send(3).unwrap();
    assert_eq!(sim.acc.remaining(&sim.shared), 3);
    assert_eq!(sim.acc.config().min_window, Duration::from_millis(50));
}

#[test]
fn a_skipped_flush_counts_as_one() {
    let mut sim = Sim::new(cfg(100).build((), probe(), fixed(100)), units);
    sim.tick(100);
    sim.send(1).unwrap();
    sim.tick(100);
    assert_eq!(sim.flush_infos[0].time_since_last_flush, Duration::from_millis(100));
    assert!(matches!(
        sim.acc.flush_batch(&mut sim.shared, FlushTrigger::Threshold, sim.now),
        FlushAction::Skipped
    ));
}
