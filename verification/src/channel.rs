//! The channels of the async runtime that items, replies and reports travel through.
//!
//! What a channel does next rests on the tasks at its other end, so little is promised of a call
//! on one. The contracts of those who make such a call say what they hand to it, and what they make
//! of each outcome.
use vstd::prelude::*;

use crate::error::AccumulatorError;

verus! {

/// `tokio::sync::oneshot::Sender`, the end that a reply is sent from.
#[verifier::external_type_specification]
#[verifier::external_body]
#[verifier::reject_recursive_types(T)]
pub struct ExOneshotSender<T>(tokio::sync::oneshot::Sender<T>);

/// `tokio::sync::oneshot::Receiver`, the end that a reply arrives at.
#[verifier::external_type_specification]
#[verifier::external_body]
#[verifier::reject_recursive_types(T)]
pub struct ExOneshotReceiver<T>(tokio::sync::oneshot::Receiver<T>);

/// `tokio::sync::oneshot::error::RecvError`, what waiting for a reply fails with. The receiver, as a
/// future, names it.
#[verifier::external_type_specification]
#[verifier::external_body]
pub struct ExRecvError(tokio::sync::oneshot::error::RecvError);

/// `tokio::sync::mpsc::UnboundedSender`, the end that items are sent from.
#[verifier::external_type_specification]
#[verifier::external_body]
#[verifier::reject_recursive_types(T)]
pub struct ExUnboundedSender<T>(tokio::sync::mpsc::UnboundedSender<T>);

/// `tokio::sync::mpsc::UnboundedReceiver`, the end that items arrive at.
#[verifier::external_type_specification]
#[verifier::external_body]
#[verifier::reject_recursive_types(T)]
pub struct ExUnboundedReceiver<T>(tokio::sync::mpsc::UnboundedReceiver<T>);

/// `tokio::sync::mpsc::error::SendError`, which gives back what could not be sent.
#[verifier::external_type_specification]
#[verifier::external_body]
#[verifier::reject_recursive_types(T)]
pub struct ExSendError<T>(tokio::sync::mpsc::error::SendError<T>);

/// `tokio::sync::mpsc::error::TryRecvError`, which tells why no value was there to take.
#[verifier::external_type_specification]
#[verifier::external_body]
pub struct ExTryRecvError(tokio::sync::mpsc::error::TryRecvError);

/// `tokio::sync::Notify`, the signal that wakes a waiting task.
#[verifier::external_type_specification]
#[verifier::external_body]
pub struct ExNotify(tokio::sync::Notify);

/// `tokio::sync::oneshot::channel` makes a channel for one value. Nothing is said of its ends.
pub assume_specification<T>[ tokio::sync::oneshot::channel::<T> ]() -> (ends: (
    tokio::sync::oneshot::Sender<T>,
    tokio::sync::oneshot::Receiver<T>,
));

/// `tokio::sync::oneshot::Sender::send` hands a value to the receiver, or gives it back unchanged
/// where the receiver is gone.
pub assume_specification<T>[ tokio::sync::oneshot::Sender::<T>::send ](
    sender: tokio::sync::oneshot::Sender<T>,
    value: T,
) -> (sent: Result<(), T>)
    ensures
        sent matches Err(back) ==> back == value,
;

/// `tokio::sync::mpsc::unbounded_channel` makes a channel without a limit. Nothing is said of its
/// ends.
pub assume_specification<T>[ tokio::sync::mpsc::unbounded_channel::<T> ]() -> (ends: (
    tokio::sync::mpsc::UnboundedSender<T>,
    tokio::sync::mpsc::UnboundedReceiver<T>,
));

/// `tokio::sync::mpsc::UnboundedSender::send` puts a value into the channel, or gives it back where
/// the receiver is gone or closed. Which of the two it is rests on the receiver. It ends the process
/// where the channel already holds half of `usize::MAX` values, which memory has no room for.
pub assume_specification<T>[ tokio::sync::mpsc::UnboundedSender::<T>::send ](
    sender: &tokio::sync::mpsc::UnboundedSender<T>,
    message: T,
) -> (sent: Result<(), tokio::sync::mpsc::error::SendError<T>>);

/// `tokio::sync::mpsc::UnboundedSender::is_closed` tells whether the receiver is gone or closed.
pub assume_specification<T>[ tokio::sync::mpsc::UnboundedSender::<T>::is_closed ](
    sender: &tokio::sync::mpsc::UnboundedSender<T>,
) -> (closed: bool);

/// `tokio::sync::mpsc::UnboundedSender::clone` gives another sender of the same channel.
pub assume_specification<T>[ <tokio::sync::mpsc::UnboundedSender<T> as Clone>::clone ](
    sender: &tokio::sync::mpsc::UnboundedSender<T>,
) -> (other: tokio::sync::mpsc::UnboundedSender<T>);

/// `tokio::sync::mpsc::UnboundedReceiver::try_recv` takes the next value out of the channel, or
/// fails where none has come or the channel is closed and empty. Which of these it is, and what the
/// value is, rests on the senders.
pub assume_specification<T>[ tokio::sync::mpsc::UnboundedReceiver::<T>::try_recv ](
    receiver: &mut tokio::sync::mpsc::UnboundedReceiver<T>,
) -> (received: Result<T, tokio::sync::mpsc::error::TryRecvError>);

/// `tokio::sync::mpsc::UnboundedReceiver::close` closes the channel: nothing more can be sent into
/// it, and what it holds can still be taken out. The ends of a channel are separate values, so what
/// this means for its senders is left unsaid.
pub assume_specification<T>[ tokio::sync::mpsc::UnboundedReceiver::<T>::close ](
    receiver: &mut tokio::sync::mpsc::UnboundedReceiver<T>,
);

/// `tokio::sync::Notify::new` makes a signal for which no wake-up is stored.
pub assume_specification[ tokio::sync::Notify::new ]() -> (notify: tokio::sync::Notify);

/// `tokio::sync::Notify::notify_one` wakes one waiting task, or stores one wake-up for the next
/// task that waits.
pub assume_specification[ tokio::sync::Notify::notify_one ](notify: &tokio::sync::Notify);

/// Whether a wake-up has been given through a signal.
pub open spec fn woken(notify: std::sync::Arc<tokio::sync::Notify>) -> bool {
    call_ensures(tokio::sync::Notify::notify_one, (&*notify,), ())
}

/// The end that the reply to one item is sent from.
pub type ReplySender<R> = tokio::sync::oneshot::Sender<Result<R, AccumulatorError>>;

/// The end that the reply to one item arrives at.
pub type ReplyReceiver<R> = tokio::sync::oneshot::Receiver<Result<R, AccumulatorError>>;

/// What a look at a reply's channel shows.
pub enum ReplyState<R> {
    /// The reply has not come yet.
    Pending,
    /// The reply has come.
    Arrived(Result<R, AccumulatorError>),
    /// The channel was closed and no reply will come.
    Closed,
}

/// Takes the next value out of a channel, where one has come.
pub(crate) fn take_unbounded<T>(
    receiver: &mut tokio::sync::mpsc::UnboundedReceiver<T>,
) -> (taken: Option<T>)
    ensures
        exists|
            end: &mut tokio::sync::mpsc::UnboundedReceiver<T>,
            received: Result<T, tokio::sync::mpsc::error::TryRecvError>,
        |
            {
                &&& #[trigger] call_ensures(
                    tokio::sync::mpsc::UnboundedReceiver::<T>::try_recv,
                    (end,),
                    received,
                )
                &&& *end == *old(receiver)
                &&& *final(end) == *final(receiver)
                &&& taken == match received {
                    Ok(value) => Some(value),
                    Err(_) => None,
                }
            },
{
    match receiver.try_recv() {
        Ok(value) => Some(value),
        Err(_) => None,
    }
}

} // verus!
