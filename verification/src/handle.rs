//! The handle through which items reach an accumulator.
use std::sync::Arc;
use std::time::Duration;

use vstd::prelude::*;

use crate::batch::{Priority, ReplyHandle, SubmitOptions};
use crate::channel::{ReplyReceiver, ReplySender};
use crate::error::AccumulatorError;
use crate::item::ChannelItem;
use crate::shared::{SharedModel, SharedState};
use crate::stats::{AccumulatorHealth, StatsSnapshot};
use crate::time::{Clock, Moment};
use crate::trace::TraceLevel;

verus! {

/// `tracing::Span::current` gives the span that the caller is in. It rests on the caller's
/// surroundings, so nothing is said of it.
pub assume_specification[ tracing::Span::current ]() -> (span: tracing::Span);

/// A handle through which items are submitted to an accumulator and the accumulator is controlled.
/// It may be cloned and used from many tasks.
#[verifier::reject_recursive_types(T)]
#[verifier::reject_recursive_types(R)]
pub struct AccumulatorHandle<T, R> {
    /// Where items are sent.
    pub sender: tokio::sync::mpsc::UnboundedSender<ChannelItem<T, R>>,
    /// Where items that bypass the buffer are sent.
    pub bypass_sender: tokio::sync::mpsc::UnboundedSender<Vec<T>>,
    /// Wakes the main loop when a flush is asked for, or items bypass the buffer.
    pub flush_notify: Arc<tokio::sync::Notify>,
    /// Wakes those who wait for a place in the queue.
    pub queue_notify: Arc<tokio::sync::Notify>,
    /// The clock that moments are read from.
    pub clock: Clock,
    /// The least weighty level of event that is reported.
    pub tracing_level: TraceLevel,
}

/// What comes of trying to submit an item that may wait for a place in the queue.
#[verifier::reject_recursive_types(R)]
pub enum Attempt<T, R> {
    /// The item has been submitted, or cannot be: the reply's handle comes where one was wanted.
    Settled(Result<Option<ReplyHandle<R>>, AccumulatorError>),
    /// There is no place in the queue: the item comes back, to be tried again once it may be.
    Full(T),
}

/// Whether a wait for a place in the queue has led to another attempt: it was ended by a wake-up,
/// and the deadline has not been reached at `now`.
pub open spec fn may_try_again(notified: bool, now: Moment, deadline: Moment) -> bool {
    notified && now.nanos() < deadline.nanos()
}

impl<T, R> AccumulatorHandle<T, R> {
    /// Whether an item has been handed to the queue's channel, with the time and the span of the
    /// submission, and whether the channel took it.
    pub open spec fn handed_over(
        &self,
        value: T,
        deadline: Option<Moment>,
        reply: Option<ReplySender<R>>,
        priority: Priority,
        taken: bool,
    ) -> bool {
        exists|
            parent_span: tracing::Span,
            submitted_at: Moment,
            sent: Result<(), tokio::sync::mpsc::error::SendError<ChannelItem<T, R>>>,
        |
            {
                &&& call_ensures(tracing::Span::current, (), parent_span)
                &&& self.clock.shows(submitted_at)
                &&& #[trigger] call_ensures(
                    tokio::sync::mpsc::UnboundedSender::<ChannelItem<T, R>>::send,
                    (
                        &self.sender,
                        ChannelItem { value, deadline, reply, priority, parent_span, submitted_at },
                    ),
                    sent,
                )
                &&& taken == (sent is Ok)
            }
    }

    /// What submitting an item comes to: it is turned away and counted where the queue is full,
    /// and otherwise handed over; it is counted where the channel takes it, and where it does not
    /// the accumulator has shut down and nothing has changed.
    pub open spec fn submitted(
        &self,
        before: SharedModel,
        value: T,
        deadline: Option<Moment>,
        reply: Option<ReplySender<R>>,
        priority: Priority,
        result: Result<(), AccumulatorError>,
        after: SharedModel,
    ) -> bool {
        if !before.has_room() {
            &&& result == Err::<(), _>(before.queue_full())
            &&& after == before.after_rejected()
        } else {
            &&& result is Ok ==> {
                &&& self.handed_over(value, deadline, reply, priority, true)
                &&& after == before.after_submit()
            }
            &&& result is Err ==> {
                &&& result == Err::<(), _>(AccumulatorError::Shutdown)
                &&& self.handed_over(value, deadline, reply, priority, false)
                &&& after == before
            }
        }
    }

    /// Takes a place in the queue for an item and sends it.
    fn send_channel(
        &self,
        shared: &mut SharedState,
        value: T,
        deadline: Option<Moment>,
        reply: Option<ReplySender<R>>,
        priority: Priority,
    ) -> (result: Result<(), AccumulatorError>)
        requires
            old(shared)@.wf(),
            old(shared)@.has_room() ==> old(shared)@.pending_count < usize::MAX,
        ensures
            self.submitted(
                old(shared)@,
                value,
                deadline,
                reply,
                priority,
                result,
                final(shared)@,
            ),
            final(shared)@.wf(),
    {
        if let Err(full) = shared.acquire_slot() {
            return Err(full);
        }
        let parent_span = tracing::Span::current();
        let submitted_at = self.clock.now();
        let sent = self.sender.send(
            ChannelItem { value, deadline, reply, priority, parent_span, submitted_at },
        );
        let taken = sent.is_ok();
        assert(self.handed_over(value, deadline, reply, priority, taken));
        shared.settle_submit(taken)
    }

    /// Submits an item without waiting for what becomes of it.
    pub fn send(&self, shared: &mut SharedState, item: T) -> (result: Result<(), AccumulatorError>)
        requires
            old(shared)@.wf(),
            old(shared)@.has_room() ==> old(shared)@.pending_count < usize::MAX,
        ensures
            self.submitted(
                old(shared)@,
                item,
                None,
                None,
                Priority::Normal,
                result,
                final(shared)@,
            ),
            final(shared)@.wf(),
    {
        self.send_channel(shared, item, None, None, Priority::Normal)
    }

    /// Whether submitting an item with a reply comes to `result`: the handle is for the reply to
    /// this very item.
    pub open spec fn submitted_for_reply(
        &self,
        before: SharedModel,
        value: T,
        deadline: Option<Moment>,
        priority: Priority,
        result: Result<ReplyHandle<R>, AccumulatorError>,
        after: SharedModel,
    ) -> bool {
        exists|ends: (ReplySender<R>, ReplyReceiver<R>)|
            {
                &&& #[trigger] call_ensures(
                    tokio::sync::oneshot::channel::<Result<R, AccumulatorError>>,
                    (),
                    ends,
                )
                &&& self.submitted(
                    before,
                    value,
                    deadline,
                    Some(ends.0),
                    priority,
                    match result {
                        Ok(_) => Ok(()),
                        Err(error) => Err(error),
                    },
                    after,
                )
                &&& result matches Ok(handle) ==> handle.receiver() == ends.1
            }
    }

    /// Submits an item and gives a handle for its reply.
    pub fn submit(&self, shared: &mut SharedState, item: T) -> (result: Result<
        ReplyHandle<R>,
        AccumulatorError,
    >)
        requires
            old(shared)@.wf(),
            old(shared)@.has_room() ==> old(shared)@.pending_count < usize::MAX,
        ensures
            self.submitted_for_reply(
                old(shared)@,
                item,
                None,
                Priority::Normal,
                result,
                final(shared)@,
            ),
            final(shared)@.wf(),
    {
        self.submit_until(shared, item, None, Priority::Normal)
    }

    /// Submits an item that times out at `deadline`, and gives a handle for its reply.
    fn submit_until(
        &self,
        shared: &mut SharedState,
        item: T,
        deadline: Option<Moment>,
        priority: Priority,
    ) -> (result: Result<ReplyHandle<R>, AccumulatorError>)
        requires
            old(shared)@.wf(),
            old(shared)@.has_room() ==> old(shared)@.pending_count < usize::MAX,
        ensures
            self.submitted_for_reply(
                old(shared)@,
                item,
                deadline,
                priority,
                result,
                final(shared)@,
            ),
            final(shared)@.wf(),
    {
        let ends = tokio::sync::oneshot::channel::<Result<R, AccumulatorError>>();
        let ghost both = ends;
        let (tx, rx) = ends;
        match self.send_channel(shared, item, deadline, Some(tx), priority) {
            Ok(()) => {
                assert(call_ensures(
                    tokio::sync::oneshot::channel::<Result<R, AccumulatorError>>,
                    (),
                    both,
                ));
                Ok(ReplyHandle::new(rx))
            },
            Err(error) => {
                assert(call_ensures(
                    tokio::sync::oneshot::channel::<Result<R, AccumulatorError>>,
                    (),
                    both,
                ));
                Err(error)
            },
        }
    }

    /// Whether an item that may wait for `ttl` times out at `deadline`: that long after a moment
    /// that the clock showed.
    pub open spec fn times_out(&self, ttl: Option<Duration>, deadline: Option<Moment>) -> bool {
        match (ttl, deadline) {
            (Some(ttl), Some(deadline)) => exists|now: Moment|
                {
                    &&& #[trigger] self.clock.shows(now)
                    &&& deadline.nanos() == crate::time::capped_nanos(
                        now.nanos() + crate::time::duration_nanos(ttl),
                    )
                },
            (None, None) => true,
            _ => false,
        }
    }

    /// Submits an item with the given urgency and time to live, and gives a handle for its reply.
    pub fn submit_with(&self, shared: &mut SharedState, item: T, opts: SubmitOptions) -> (result:
        Result<ReplyHandle<R>, AccumulatorError>)
        requires
            old(shared)@.wf(),
            old(shared)@.has_room() ==> old(shared)@.pending_count < usize::MAX,
        ensures
            exists|deadline: Option<Moment>|
                {
                    &&& #[trigger] self.times_out(opts.ttl, deadline)
                    &&& self.submitted_for_reply(
                        old(shared)@,
                        item,
                        deadline,
                        opts.priority,
                        result,
                        final(shared)@,
                    )
                },
            final(shared)@.wf(),
    {
        let deadline = match opts.ttl {
            Some(ttl) => Some(self.clock.now().after(ttl)),
            None => None,
        };
        assert(self.times_out(opts.ttl, deadline));
        self.submit_until(shared, item, deadline, opts.priority)
    }

    /// What an attempt to submit an item comes to: the item comes back and is counted as turned
    /// away where there is no place in the queue, and is submitted otherwise.
    pub open spec fn attempted(
        &self,
        before: SharedModel,
        item: T,
        with_reply: bool,
        attempt: Attempt<T, R>,
        after: SharedModel,
    ) -> bool {
        if !before.has_room() {
            &&& attempt == Attempt::<T, R>::Full(item)
            &&& after == before.after_rejected()
        } else {
            &&& attempt matches Attempt::Settled(result)
            &&& if with_reply {
                &&& result matches Ok(handle) ==> handle is Some
                &&& self.submitted_for_reply(
                    before,
                    item,
                    None,
                    Priority::Normal,
                    match result {
                        Ok(handle) => Ok(handle.unwrap()),
                        Err(error) => Err(error),
                    },
                    after,
                )
            } else {
                &&& result matches Ok(handle) ==> handle is None
                &&& self.submitted(
                    before,
                    item,
                    None,
                    None,
                    Priority::Normal,
                    match result {
                        Ok(_) => Ok(()),
                        Err(error) => Err(error),
                    },
                    after,
                )
            }
        }
    }

    /// Tries to submit an item that may wait for a place in the queue.
    pub fn attempt(&self, shared: &mut SharedState, item: T, with_reply: bool) -> (attempt: Attempt<
        T,
        R,
    >)
        requires
            old(shared)@.wf(),
            old(shared)@.has_room() ==> old(shared)@.pending_count < usize::MAX,
        ensures
            self.attempted(old(shared)@, item, with_reply, attempt, final(shared)@),
            final(shared)@.wf(),
    {
        if shared.turn_away() {
            return Attempt::Full(item);
        }
        if with_reply {
            match self.submit_until(shared, item, None, Priority::Normal) {
                Ok(handle) => Attempt::Settled(Ok(Some(handle))),
                Err(error) => Attempt::Settled(Err(error)),
            }
        } else {
            match self.send_channel(shared, item, None, None, Priority::Normal) {
                Ok(()) => Attempt::Settled(Ok(None)),
                Err(error) => Attempt::Settled(Err(error)),
            }
        }
    }

    /// When a wait for a place in the queue ends that begins now and may last for `timeout`,
    /// however often it is interrupted.
    pub fn wait_deadline(&self, timeout: Duration) -> (deadline: Moment)
        ensures
            self.times_out(Some(timeout), Some(deadline)),
    {
        let deadline = self.clock.now().after(timeout);
        assert(self.times_out(Some(timeout), Some(deadline)));
        deadline
    }

    /// Tries again to submit an item once a wait for a place in the queue has ended at `now`. Once
    /// the deadline is reached, or where no wake-up ended the wait, the item is given up with
    /// [`AccumulatorError::Timeout`] and nothing changes; a wake-up that came too late is passed on
    /// to others who wait.
    pub fn attempt_again(
        &self,
        shared: &mut SharedState,
        item: T,
        with_reply: bool,
        notified: bool,
        now: Moment,
        deadline: Moment,
    ) -> (attempt: Attempt<T, R>)
        requires
            old(shared)@.wf(),
            old(shared)@.has_room() ==> old(shared)@.pending_count < usize::MAX,
        ensures
            may_try_again(notified, now, deadline) ==> self.attempted(
                old(shared)@,
                item,
                with_reply,
                attempt,
                final(shared)@,
            ),
            !may_try_again(notified, now, deadline) ==> {
                &&& attempt == Attempt::<T, R>::Settled(Err(AccumulatorError::Timeout))
                &&& final(shared)@ == old(shared)@
                &&& notified ==> crate::channel::woken(self.queue_notify)
            },
            final(shared)@.wf(),
    {
        if !notified {
            return Attempt::Settled(Err(AccumulatorError::Timeout));
        }
        if now.reached(deadline) {
            self.queue_notify.notify_one();
            return Attempt::Settled(Err(AccumulatorError::Timeout));
        }
        self.attempt(shared, item, with_reply)
    }

    /// Hands an item to the processor past the queue, the buffer and the timer: the main loop is
    /// woken for it. No reply comes to it.
    pub fn bypass(&self, shared: &mut SharedState, item: T) -> (result: Result<(), AccumulatorError>)
        requires
            old(shared)@.wf(),
        ensures
            exists|
                items: Vec<T>,
                sent: Result<(), tokio::sync::mpsc::error::SendError<Vec<T>>>,
            |
                {
                    &&& #[trigger] call_ensures(
                        tokio::sync::mpsc::UnboundedSender::<Vec<T>>::send,
                        (&self.bypass_sender, items),
                        sent,
                    )
                    &&& items@ == seq![item]
                    &&& sent is Ok ==> {
                        &&& result is Ok
                        &&& final(shared)@ == old(shared)@.after_bypass()
                        &&& crate::channel::woken(self.flush_notify)
                    }
                    &&& sent is Err ==> {
                        &&& result == Err::<(), _>(AccumulatorError::Shutdown)
                        &&& final(shared)@ == old(shared)@
                    }
                },
            final(shared)@.wf(),
    {
        let mut items: Vec<T> = Vec::with_capacity(1);
        items.push(item);
        assert(items@ == seq![item]);
        let sent = self.bypass_sender.send(items);
        let taken = sent.is_ok();
        if taken {
            self.flush_notify.notify_one();
        }
        shared.settle_bypass(taken)
    }

    /// How many items wait in the queue. Those that bypass it are not counted.
    pub fn pending_count(&self, shared: &SharedState) -> (count: usize)
        ensures
            count == shared@.pending_count,
    {
        shared.pending_count()
    }

    /// Asks for a flush, and wakes the main loop. A request that has not been met yet takes in any
    /// further one.
    pub fn flush_now(&self, shared: &mut SharedState)
        ensures
            final(shared)@ == (SharedModel { flush_requested: true, ..old(shared)@ }),
            crate::channel::woken(self.flush_notify),
    {
        shared.request_flush();
        self.flush_notify.notify_one();
    }

    /// The statistics at this point.
    pub fn stats(&self, shared: &SharedState) -> (snapshot: StatsSnapshot)
        requires
            shared@.wf(),
        ensures
            crate::shared::snapshot_of(shared@, snapshot),
    {
        shared.stats()
    }

    /// How well the accumulator is. It accepts items as long as their channel is open.
    pub fn health(&self, shared: &SharedState) -> (health: AccumulatorHealth)
        ensures
            exists|closed: bool|
                {
                    &&& #[trigger] call_ensures(
                        tokio::sync::mpsc::UnboundedSender::<ChannelItem<T, R>>::is_closed,
                        (&self.sender,),
                        closed,
                    )
                    &&& health.is_accepting == !closed
                },
            health.queue_utilization == shared@.queue_utilization(),
            health.current_window == shared@.current_window,
            health.inflight_count == shared@.inflight_count,
            health.total_rejected == shared@.stats.rejected,
            health.queue_utilization.denominator > 0,
    {
        let closed = self.sender.is_closed();
        shared.health(!closed)
    }

    /// Tells the accumulator to shut down once it has processed what it holds, and wakes the main
    /// loop.
    pub fn cancel(&self, shared: &mut SharedState)
        ensures
            final(shared)@ == (SharedModel {
                cancelled: true,
                flush_requested: true,
                ..old(shared)@
            }),
            crate::channel::woken(self.flush_notify),
    {
        shared.cancel();
        self.flush_notify.notify_one();
    }

    /// Tells the accumulator to buffer items without flushing them of its own accord. A flush that
    /// is asked for, and an urgent item, still lead to one.
    pub fn pause(&self, shared: &mut SharedState)
        ensures
            final(shared)@ == (SharedModel { paused: true, ..old(shared)@ }),
    {
        shared.pause();
    }

    /// Lets the accumulator flush again, asks for a flush, and wakes the main loop.
    pub fn resume(&self, shared: &mut SharedState)
        ensures
            final(shared)@ == (SharedModel { paused: false, flush_requested: true, ..old(shared)@ }),
            crate::channel::woken(self.flush_notify),
    {
        shared.resume();
        self.flush_notify.notify_one();
    }

    /// Whether the accumulator buffers items without flushing them of its own accord.
    pub fn is_paused(&self, shared: &SharedState) -> (yes: bool)
        ensures
            yes == shared@.paused,
    {
        shared.is_paused()
    }
}

impl<T, R> Clone for AccumulatorHandle<T, R> {
    /// Another handle to the same accumulator.
    fn clone(&self) -> (other: Self)
        ensures
            call_ensures(
                tokio::sync::mpsc::UnboundedSender::<ChannelItem<T, R>>::clone,
                (&self.sender,),
                other.sender,
            ),
            call_ensures(
                tokio::sync::mpsc::UnboundedSender::<Vec<T>>::clone,
                (&self.bypass_sender,),
                other.bypass_sender,
            ),
            other.flush_notify == self.flush_notify,
            other.queue_notify == self.queue_notify,
            other.clock == self.clock,
            other.tracing_level == self.tracing_level,
    {
        AccumulatorHandle {
            sender: self.sender.clone(),
            bypass_sender: self.bypass_sender.clone(),
            flush_notify: self.flush_notify.clone(),
            queue_notify: self.queue_notify.clone(),
            clock: self.clock,
            tracing_level: self.tracing_level,
        }
    }
}

} // verus!
