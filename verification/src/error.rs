//! What can go wrong when an accumulator is configured or used.
use vstd::prelude::*;
use vstd::string::StringExecFns;

use crate::text::decimal;

verus! {

/// An error of the accumulator.
#[derive(Debug)]
pub enum AccumulatorError {
    /// The accumulator has shut down; it takes no more items.
    Shutdown,
    /// The queue is full; the item was turned away.
    QueueFull {
        /// The greatest queue depth that the configuration allows.
        max: usize,
        /// The number of items that were waiting.
        pending: usize,
    },
    /// The configuration is not valid.
    InvalidConfig {
        /// What is wrong with it.
        reason: String,
    },
    /// The item timed out before it was processed.
    Timeout,
}

impl AccumulatorError {
    /// The message that describes the error.
    pub open spec fn message_text(&self) -> Seq<char> {
        match self {
            AccumulatorError::Shutdown => "accumulator has shut down"@,
            AccumulatorError::QueueFull { max, pending } => "queue is full: max="@
                + crate::text::decimal_text(*max as nat) + ", pending="@
                + crate::text::decimal_text(*pending as nat),
            AccumulatorError::InvalidConfig { reason } => "invalid config: "@ + reason@,
            AccumulatorError::Timeout => "item timed out before processing"@,
        }
    }

    /// Describes the error in words.
    pub fn message(&self) -> (text: String)
        ensures
            text@ == self.message_text(),
    {
        match self {
            AccumulatorError::Shutdown => String::from_str("accumulator has shut down"),
            AccumulatorError::QueueFull { max, pending } => {
                let mut text = String::from_str("queue is full: max=");
                text.append(decimal(*max).as_str());
                text.append(", pending=");
                text.append(decimal(*pending).as_str());
                text
            },
            AccumulatorError::InvalidConfig { reason } => {
                let mut text = String::from_str("invalid config: ");
                text.append(reason.as_str());
                text
            },
            AccumulatorError::Timeout => String::from_str("item timed out before processing"),
        }
    }
}

} // verus!
