//! Items on their way to the processor.
use vstd::prelude::*;

use crate::batch::{Priority, Reply};
use crate::channel::ReplySender;
use crate::error::AccumulatorError;
use crate::time::Moment;

verus! {

/// `tracing::Span`, the span in which an item was submitted.
#[verifier::external_type_specification]
#[verifier::external_body]
pub struct ExSpan(tracing::Span);

/// An item on its way to the processor.
#[verifier::reject_recursive_types(R)]
pub struct ChannelItem<T, R> {
    /// What is to be processed.
    pub value: T,
    /// When the item times out, if it does.
    pub deadline: Option<Moment>,
    /// Where the reply goes; `None` where nobody waits for one.
    pub reply: Option<ReplySender<R>>,
    /// How urgent the item is.
    pub priority: Priority,
    /// The span in which the item was submitted.
    pub parent_span: tracing::Span,
    /// When the item was submitted.
    pub submitted_at: Moment,
}

impl<T, R> ChannelItem<T, R> {
    /// Whether the item has timed out at `now`.
    pub open spec fn expired(self, now: Moment) -> bool {
        self.deadline matches Some(deadline) && deadline.nanos() <= now.nanos()
    }

    /// Whether the item has timed out at `now`.
    pub fn is_expired(&self, now: Moment) -> (yes: bool)
        ensures
            yes == self.expired(now),
            self.deadline is None ==> !yes,
            self.deadline matches Some(deadline) ==> (yes <==> crate::time::duration_nanos(
                deadline.since_start,
            ) <= crate::time::duration_nanos(now.since_start)),
    {
        match self.deadline {
            Some(deadline) => now.reached(deadline),
            None => false,
        }
    }
}

/// The values of items.
pub open spec fn values_of<T, R>(items: Seq<ChannelItem<T, R>>) -> Seq<T> {
    items.map_values(|item: ChannelItem<T, R>| item.value)
}

/// Where the replies to items go.
pub open spec fn senders_of<T, R>(items: Seq<ChannelItem<T, R>>) -> Seq<Option<ReplySender<R>>> {
    items.map_values(|item: ChannelItem<T, R>| item.reply)
}

/// The spans in which items were submitted.
pub open spec fn spans_of<T, R>(items: Seq<ChannelItem<T, R>>) -> Seq<tracing::Span> {
    items.map_values(|item: ChannelItem<T, R>| item.parent_span)
}

/// The items that have timed out at `now`, in their order.
pub open spec fn expired_items<T, R>(items: Seq<ChannelItem<T, R>>, now: Moment) -> Seq<
    ChannelItem<T, R>,
>
    decreases items.len(),
{
    if items.len() == 0 {
        Seq::empty()
    } else {
        let before = expired_items(items.drop_last(), now);
        if items.last().expired(now) {
            before.push(items.last())
        } else {
            before
        }
    }
}

/// The items that have not timed out at `now`, in their order.
pub open spec fn live_items<T, R>(items: Seq<ChannelItem<T, R>>, now: Moment) -> Seq<
    ChannelItem<T, R>,
>
    decreases items.len(),
{
    if items.len() == 0 {
        Seq::empty()
    } else {
        let before = live_items(items.drop_last(), now);
        if items.last().expired(now) {
            before
        } else {
            before.push(items.last())
        }
    }
}

/// What whoever waits for an item that has timed out is told.
pub open spec fn timeout_reply<R>(reply: Option<ReplySender<R>>) -> Option<Reply<R>> {
    match reply {
        Some(sender) => Some(Reply { sender, result: Err(AccumulatorError::Timeout) }),
        None => None,
    }
}

/// What those who wait for items that have timed out are told, in the order of the items.
pub open spec fn timeout_replies<T, R>(items: Seq<ChannelItem<T, R>>) -> Seq<Reply<R>>
    decreases items.len(),
{
    if items.len() == 0 {
        Seq::empty()
    } else {
        let before = timeout_replies(items.drop_last());
        match timeout_reply(items.last().reply) {
            Some(reply) => before.push(reply),
            None => before,
        }
    }
}

/// The reply that tells whoever waits for an item that it has timed out.
pub fn tell_timeout<R>(reply: Option<ReplySender<R>>) -> (told: Option<Reply<R>>)
    ensures
        told == timeout_reply(reply),
{
    match reply {
        Some(sender) => Some(Reply { sender, result: Err(AccumulatorError::Timeout) }),
        None => None,
    }
}

/// The weights of the items that have timed out at `now`, in their order.
pub open spec fn expired_weights<T, R>(
    items: Seq<ChannelItem<T, R>>,
    weights: Seq<usize>,
    now: Moment,
) -> Seq<usize>
    decreases items.len(),
{
    if items.len() == 0 {
        Seq::empty()
    } else {
        let before = expired_weights(items.drop_last(), weights, now);
        if items.last().expired(now) {
            before.push(weights[items.len() - 1])
        } else {
            before
        }
    }
}

/// The weights of the items that have not timed out at `now`, in their order.
pub open spec fn live_weights<T, R>(
    items: Seq<ChannelItem<T, R>>,
    weights: Seq<usize>,
    now: Moment,
) -> Seq<usize>
    decreases items.len(),
{
    if items.len() == 0 {
        Seq::empty()
    } else {
        let before = live_weights(items.drop_last(), weights, now);
        if items.last().expired(now) {
            before
        } else {
            before.push(weights[items.len() - 1])
        }
    }
}

/// An item that has come out of the queue, with the moment at which it came and what it weighs.
#[verifier::reject_recursive_types(R)]
pub struct Arrival<T, R> {
    item: ChannelItem<T, R>,
    at: Moment,
    weight: usize,
}

impl<T, R> Arrival<T, R> {
    /// The item.
    pub closed spec fn item(&self) -> ChannelItem<T, R> {
        self.item
    }

    /// When it came.
    pub closed spec fn at(&self) -> Moment {
        self.at
    }

    /// What it weighs.
    pub closed spec fn weight(&self) -> usize {
        self.weight
    }

    /// An item that came at `at` and weighs `weight`.
    pub(crate) fn new(item: ChannelItem<T, R>, at: Moment, weight: usize) -> (arrival: Self)
        ensures
            arrival.item() == item,
            arrival.at() == at,
            arrival.weight() == weight,
    {
        Arrival { item, at, weight }
    }

    /// The item, the moment and the weight.
    pub(crate) fn into_parts(self) -> (parts: (ChannelItem<T, R>, Moment, usize))
        ensures
            parts == (self.item(), self.at(), self.weight()),
    {
        (self.item, self.at, self.weight)
    }
}

} // verus!
