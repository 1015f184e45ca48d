//! Which events of the accumulator are reported.
use vstd::prelude::*;

verus! {

/// How weighty an event is.
#[derive(Debug, Clone, Copy, PartialEq, Eq, Structural)]
pub enum Level {
    /// A background task has failed.
    Error,
    /// An item was turned away or dropped, or a flush was put off.
    Warn,
    /// A batch, a change of the window, start and shutdown.
    Info,
    /// A single item or a bypass.
    Debug,
    /// The reply to a single item.
    Trace,
}

/// The least weighty level that is reported; `None` reports nothing.
pub type TraceLevel = Option<Level>;

impl Level {
    /// How much is reported at this level: more the less weighty it is.
    pub open spec fn verbosity(self) -> int {
        match self {
            Level::Error => 1,
            Level::Warn => 2,
            Level::Info => 3,
            Level::Debug => 4,
            Level::Trace => 5,
        }
    }

    /// How much is reported at this level, as a number.
    fn rank(self) -> (rank: u8)
        ensures
            rank == self.verbosity(),
    {
        match self {
            Level::Error => 1,
            Level::Warn => 2,
            Level::Info => 3,
            Level::Debug => 4,
            Level::Trace => 5,
        }
    }
}

/// The level that is used unless another one is configured.
pub fn default_tracing_level() -> (level: TraceLevel)
    ensures
        level == Some(Level::Info),
{
    Some(Level::Info)
}

/// Whether an event of `level` is reported under `threshold`: only if there is a threshold, and
/// the event is at least as weighty as it.
pub fn event_enabled(level: Level, threshold: TraceLevel) -> (yes: bool)
    ensures
        yes == (threshold matches Some(least) && level.verbosity() <= least.verbosity()),
{
    match threshold {
        Some(least) => level.rank() <= least.rank(),
        None => false,
    }
}

/// The level at which the start and the end of a batch are reported: an empty batch is a mere
/// heartbeat.
pub fn batch_event_level(batch_size: usize) -> (level: Level)
    ensures
        level == if batch_size == 0 {
            Level::Debug
        } else {
            Level::Info
        },
{
    if batch_size == 0 {
        Level::Debug
    } else {
        Level::Info
    }
}

} // verus!
