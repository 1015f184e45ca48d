//! Batches, the items that they are made of, and the replies to them.
use std::collections::VecDeque;
use std::time::Duration;

use vstd::prelude::*;

use crate::channel::{ReplyReceiver, ReplySender, ReplyState};
use crate::error::AccumulatorError;
use crate::time::Moment;
use crate::time::{duration_nanos, nanos_between};

verus! {

/// How urgent an item is.
#[derive(Debug, Clone, Copy, PartialEq, Eq, PartialOrd, Ord, Structural)]
pub enum Priority {
    /// The item takes its turn.
    Normal,
    /// The item goes to the front of the buffer.
    High,
}

impl Default for Priority {
    fn default() -> (priority: Self)
        ensures
            priority == Priority::Normal,
    {
        Priority::Normal
    }
}

/// How an item is submitted.
#[derive(Debug, Clone, Copy)]
pub struct SubmitOptions {
    /// How urgent the item is.
    pub priority: Priority,
    /// How long the item may wait to be processed; `None` lets it wait for any time.
    pub ttl: Option<Duration>,
}

impl Default for SubmitOptions {
    fn default() -> (options: Self)
        ensures
            options == (SubmitOptions { priority: Priority::Normal, ttl: None }),
    {
        SubmitOptions { priority: Priority::Normal, ttl: None }
    }
}

/// What is known of a batch once it has been processed.
#[derive(Debug, Clone, Copy)]
pub struct FlushInfo {
    /// How many items the batch held.
    pub batch_size: usize,
    /// The number of buffered items at which a batch is flushed at once.
    pub max_batch_size: Option<usize>,
    /// The window at the time of the flush.
    pub window_duration: Duration,
    /// How many items were left in the queue.
    pub items_remaining: usize,
    /// The number of the batch.
    pub batch_id: u64,
    /// How long the processor took.
    pub execution_time: Duration,
    /// How much time had passed since the flush before.
    pub time_since_last_flush: Duration,
    /// The weight of the batch, where weight is tracked.
    pub total_weight: Option<usize>,
}

/// An adapter that lets a processor whose items can fail one by one stand where a processor is
/// wanted: the result of an item is then a `Result` of its own.
#[derive(Debug, Clone)]
pub struct TryBatchAdapter<P> {
    inner: P,
}

impl<P> TryBatchAdapter<P> {
    /// The processor that is adapted.
    pub closed spec fn processor(&self) -> P {
        self.inner
    }

    /// Adapts `inner`.
    pub fn new(inner: P) -> (adapter: Self)
        ensures
            adapter.processor() == inner,
    {
        TryBatchAdapter { inner }
    }

    /// Gives back the processor that was adapted.
    pub fn into_inner(self) -> (inner: P)
        ensures
            inner == self.processor(),
    {
        self.inner
    }

    /// The processor that is adapted.
    pub fn inner(&self) -> (inner: &P)
        ensures
            *inner == self.processor(),
    {
        &self.inner
    }
}

/// What a batch holds.
pub struct BatchModel<T> {
    /// The items, in the order in which they are processed.
    pub items: Seq<T>,
    /// The number of the batch.
    pub batch_id: u64,
    /// When the batch was put together.
    pub created_at: Moment,
    /// The window at the time of the flush.
    pub window_duration: Duration,
    /// How many items waited in the queue at the time of the flush.
    pub queue_depth_at_flush: usize,
}

/// Items that are processed together.
#[derive(Debug)]
pub struct Batch<T> {
    items: Vec<T>,
    batch_id: u64,
    created_at: Moment,
    window_duration: Duration,
    queue_depth_at_flush: usize,
}

impl<T> View for Batch<T> {
    type V = BatchModel<T>;

    closed spec fn view(&self) -> BatchModel<T> {
        BatchModel {
            items: self.items@,
            batch_id: self.batch_id,
            created_at: self.created_at,
            window_duration: self.window_duration,
            queue_depth_at_flush: self.queue_depth_at_flush,
        }
    }
}

impl<T> Batch<T> {
    /// A batch of the given items, with what is known of the moment of its flush.
    pub fn with_context(
        items: Vec<T>,
        batch_id: u64,
        created_at: Moment,
        window_duration: Duration,
        queue_depth_at_flush: usize,
    ) -> (batch: Self)
        ensures
            batch@ == (BatchModel {
                items: items@,
                batch_id,
                created_at,
                window_duration,
                queue_depth_at_flush,
            }),
    {
        Batch { items, batch_id, created_at, window_duration, queue_depth_at_flush }
    }

    /// Takes the items out of the batch.
    pub fn into_inner(self) -> (items: Vec<T>)
        ensures
            items@ == self@.items,
    {
        self.items
    }

    /// The items of the batch.
    pub fn items(&self) -> (items: &[T])
        ensures
            items@ == self@.items,
    {
        self.items.as_slice()
    }

    /// How many items the batch holds.
    pub fn len(&self) -> (len: usize)
        ensures
            len == self@.items.len(),
    {
        self.items.len()
    }

    /// Whether the batch holds no item.
    pub fn is_empty(&self) -> (empty: bool)
        ensures
            empty == (self@.items.len() == 0),
    {
        self.items.len() == 0
    }

    /// The number of the batch.
    pub fn batch_id(&self) -> (id: u64)
        ensures
            id == self@.batch_id,
    {
        self.batch_id
    }

    /// When the batch was put together.
    pub fn created_at(&self) -> (at: Moment)
        ensures
            at == self@.created_at,
    {
        self.created_at
    }

    /// How much time has passed at `now` since the batch was put together.
    pub fn age(&self, now: Moment) -> (age: Duration)
        ensures
            duration_nanos(age) == nanos_between(self@.created_at.nanos(), now.nanos()),
    {
        now.since(self.created_at)
    }

    /// The window at the time of the flush.
    pub fn window_duration(&self) -> (window: Duration)
        ensures
            window == self@.window_duration,
    {
        self.window_duration
    }

    /// How many items waited in the queue at the time of the flush.
    pub fn queue_depth_at_flush(&self) -> (depth: usize)
        ensures
            depth == self@.queue_depth_at_flush,
    {
        self.queue_depth_at_flush
    }
}

/// What comes of waiting for a reply, given what a look at its channel shows: nothing yet, the
/// reply itself, or [`AccumulatorError::Shutdown`] where no reply will come.
pub open spec fn reply_outcome<R>(state: ReplyState<R>) -> Option<Result<R, AccumulatorError>> {
    match state {
        ReplyState::Pending => None,
        ReplyState::Arrived(reply) => Some(reply),
        ReplyState::Closed => Some(Err(AccumulatorError::Shutdown)),
    }
}

/// What comes of waiting for a reply, given what a look at its channel shows.
pub fn settle_reply<R>(state: ReplyState<R>) -> (outcome: Option<Result<R, AccumulatorError>>)
    ensures
        outcome == reply_outcome(state),
{
    match state {
        ReplyState::Pending => None,
        ReplyState::Arrived(reply) => Some(reply),
        ReplyState::Closed => Some(Err(AccumulatorError::Shutdown)),
    }
}

/// The reply to an item that was submitted, once it comes.
///
/// A handle may be dropped at any time: the item is processed all the same.
#[verifier::reject_recursive_types(R)]
pub struct ReplyHandle<R> {
    receiver: ReplyReceiver<R>,
}

impl<R> ReplyHandle<R> {
    /// The end of the channel that the reply arrives at.
    pub closed spec fn receiver(&self) -> ReplyReceiver<R> {
        self.receiver
    }

    /// A handle for the reply that arrives at `receiver`.
    pub fn new(receiver: ReplyReceiver<R>) -> (handle: Self)
        ensures
            handle.receiver() == receiver,
    {
        ReplyHandle { receiver }
    }

    /// The end of the channel that the reply arrives at, for waiting there.
    pub fn into_receiver(self) -> (receiver: ReplyReceiver<R>)
        ensures
            receiver == self.receiver(),
    {
        self.receiver
    }
}

/// A reply that is due to one item.
#[verifier::reject_recursive_types(R)]
pub struct Reply<R> {
    /// Where the reply goes.
    pub sender: ReplySender<R>,
    /// What it says.
    pub result: Result<R, AccumulatorError>,
}

/// Whether a reply has gone out with the given outcome: `Ok`, or the reply itself where nobody
/// waited for it any more.
pub open spec fn went_out<R>(
    reply: Reply<R>,
    outcome: Result<(), Result<R, AccumulatorError>>,
) -> bool {
    call_ensures(ReplySender::<R>::send, (reply.sender, reply.result), outcome)
}

/// How many of several outcomes are `Ok`.
pub open spec fn count_ok<R>(outcomes: Seq<Result<(), Result<R, AccumulatorError>>>) -> nat
    decreases outcomes.len(),
{
    if outcomes.len() == 0 {
        0
    } else {
        count_ok(outcomes.drop_last()) + if outcomes.last() is Ok {
            1nat
        } else {
            0nat
        }
    }
}

impl<R> Reply<R> {
    /// Sends the reply. It tells whether somebody was still waiting for it.
    pub fn deliver(self) -> (delivered: bool)
        ensures
            exists|outcome: Result<(), Result<R, AccumulatorError>>|
                #[trigger] went_out(self, outcome) && delivered == (outcome is Ok),
    {
        let outcome = self.sender.send(self.result);
        assert(went_out(self, outcome));
        outcome.is_ok()
    }
}

/// Sends replies, in their order, and tells how many of them somebody was still waiting for.
pub fn deliver_all<R>(replies: Vec<Reply<R>>) -> (delivered: usize)
    ensures
        exists|outcomes: Seq<Result<(), Result<R, AccumulatorError>>>|
            {
                &&& outcomes.len() == replies@.len()
                &&& forall|i: int|
                    0 <= i < replies@.len() ==> #[trigger] went_out(replies@[i], outcomes[i])
                &&& delivered == #[trigger] count_ok(outcomes)
            },
{
    let mut delivered: usize = 0;
    let ghost mut outcomes: Seq<Result<(), Result<R, AccumulatorError>>> = Seq::empty();
    let total: usize = replies.len();
    for reply in it: replies
        invariant
            it.seq() == replies@,
            total == replies@.len(),
            outcomes.len() == it.index(),
            forall|i: int|
                0 <= i < outcomes.len() ==> #[trigger] went_out(replies@[i], outcomes[i]),
            delivered == count_ok(outcomes),
            delivered <= it.index(),
    {
        let ghost sent = reply;
        let waited_for = reply.deliver();
        proof {
            let outcome = choose|outcome: Result<(), Result<R, AccumulatorError>>|
                #[trigger] went_out(sent, outcome) && waited_for == (outcome is Ok);
            assert(outcomes.push(outcome).drop_last() == outcomes);
            outcomes = outcomes.push(outcome);
        }
        if waited_for {
            delivered = delivered + 1;
        }
    }
    delivered
}

/// What the item at place `i` of a batch is told: its own result, or
/// [`AccumulatorError::Shutdown`] where the processor returned none for it.
pub open spec fn reply_at<R>(results: Seq<R>, i: int) -> Result<R, AccumulatorError> {
    if i < results.len() {
        Ok(results[i])
    } else {
        Err(AccumulatorError::Shutdown)
    }
}

/// The replies to the first `n` items of a batch, in their order: an item that nobody waits for
/// gets none.
pub open spec fn replies_to<R>(
    senders: Seq<Option<ReplySender<R>>>,
    results: Seq<R>,
    n: nat,
) -> Seq<Reply<R>>
    decreases n,
{
    if n == 0 {
        Seq::empty()
    } else {
        let before = replies_to(senders, results, (n - 1) as nat);
        match senders[n - 1] {
            Some(sender) => before.push(Reply { sender, result: reply_at(results, n - 1) }),
            None => before,
        }
    }
}

/// Matches the results of a batch with those who wait for them.
pub fn pair_replies<R>(senders: VecDeque<Option<ReplySender<R>>>, results: Vec<R>) -> (replies: Vec<
    Reply<R>,
>)
    ensures
        replies@ == replies_to(senders@, results@, senders@.len()),
{
    let ghost all = senders@;
    let mut waiting = senders;
    let mut replies: Vec<Reply<R>> = Vec::new();
    let ghost mut taken: int = 0;
    for result in it: results
        invariant
            it.seq() == results@,
            0 <= taken <= all.len(),
            taken <= it.index(),
            taken < all.len() ==> taken == it.index(),
            waiting@ == all.skip(taken),
            replies@ == replies_to(all, results@, taken as nat),
    {
        match waiting.pop_front() {
            Some(sender) => {
                proof {
                    taken = taken + 1;
                }
                if let Some(sender) = sender {
                    replies.push(Reply { sender, result: Ok(result) });
                }
            },
            None => {},
        }
    }
    while waiting.len() > 0
        invariant
            0 <= taken <= all.len(),
            taken < all.len() ==> results@.len() <= taken,
            waiting@ == all.skip(taken),
            replies@ == replies_to(all, results@, taken as nat),
        decreases waiting.len(),
    {
        if let Some(sender) = waiting.pop_front() {
            proof {
                taken = taken + 1;
            }
            if let Some(sender) = sender {
                replies.push(Reply { sender, result: Err(AccumulatorError::Shutdown) });
            }
        }
    }
    replies
}

} // verus!
