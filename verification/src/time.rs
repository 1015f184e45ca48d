//! Points in time and lengths of time.
//!
//! A [`Duration`] is read as its total number of nanoseconds, a [`Moment`] as the
//! nanoseconds that have passed on the accumulator's [`Clock`].
use std::time::Duration;

use vstd::prelude::*;

verus! {

/// The total number of nanoseconds of a duration.
pub uninterp spec fn duration_nanos(d: Duration) -> nat;

/// The largest number of nanoseconds that a `Duration` holds: `u64::MAX` seconds and
/// 999,999,999 nanoseconds.
pub open spec fn max_duration_nanos() -> nat {
    18446744073709551615999999999
}

/// `Duration::as_nanos` gives the total number of nanoseconds of the duration, which is never
/// more than that of `Duration::MAX`.
pub assume_specification[ Duration::as_nanos ](d: &Duration) -> (nanos: u128)
    ensures
        nanos == duration_nanos(*d),
        nanos <= max_duration_nanos(),
;

/// `Duration::from_nanos` gives the duration of that many nanoseconds.
pub assume_specification[ Duration::from_nanos ](nanos: u64) -> (d: Duration)
    ensures
        duration_nanos(d) == nanos,
;

/// `Duration::from_millis` gives the duration of that many milliseconds.
pub assume_specification[ Duration::from_millis ](millis: u64) -> (d: Duration)
    ensures
        duration_nanos(d) == millis * 1_000_000,
;

/// `Duration::saturating_add` adds two durations and stops at `Duration::MAX`.
pub assume_specification[ Duration::saturating_add ](d: Duration, rhs: Duration) -> (sum: Duration)
    ensures
        duration_nanos(sum) == capped_nanos(duration_nanos(d) + duration_nanos(rhs)),
;

/// `Duration::saturating_sub` subtracts one duration from another and stops at zero.
pub assume_specification[ Duration::saturating_sub ](d: Duration, rhs: Duration) -> (rest: Duration)
    ensures
        duration_nanos(rest) == nanos_between(duration_nanos(rhs), duration_nanos(d)),
;

/// `Duration` is `Copy`: its `clone` gives the same duration.
pub assume_specification[ <Duration as Clone>::clone ](d: &Duration) -> (copy: Duration)
    ensures
        copy == *d,
;

/// A number of nanoseconds, cut off at what a `Duration` holds.
pub open spec fn capped_nanos(nanos: nat) -> nat {
    if nanos <= max_duration_nanos() {
        nanos
    } else {
        max_duration_nanos()
    }
}

/// The nanoseconds from one point to a later one; zero where the second is not later.
pub open spec fn nanos_between(earlier: nat, later: nat) -> nat {
    if earlier <= later {
        (later - earlier) as nat
    } else {
        0
    }
}

/// A window held to the range from `low` to `high`.
pub open spec fn clamped(window: Duration, low: Duration, high: Duration) -> Duration {
    if duration_nanos(window) < duration_nanos(low) {
        low
    } else if duration_nanos(window) > duration_nanos(high) {
        high
    } else {
        window
    }
}

/// Whether a window lies in the range from `low` to `high`, both ends counted in.
pub open spec fn in_range(window: Duration, low: Duration, high: Duration) -> bool {
    duration_nanos(low) <= duration_nanos(window) <= duration_nanos(high)
}

/// Holds `window` to the range from `low` to `high`.
pub fn clamp_window(window: Duration, low: Duration, high: Duration) -> (held: Duration)
    requires
        duration_nanos(low) <= duration_nanos(high),
    ensures
        held == clamped(window, low, high),
        in_range(held, low, high),
{
    if window.as_nanos() < low.as_nanos() {
        low
    } else if window.as_nanos() > high.as_nanos() {
        high
    } else {
        window
    }
}

/// A point in time on the accumulator's clock.
#[derive(Debug, Clone, Copy, PartialEq, Eq)]
pub struct Moment {
    /// How long after the clock's start the moment lies.
    pub since_start: Duration,
}

impl Moment {
    /// The nanoseconds from the clock's start to the moment.
    pub open spec fn nanos(self) -> nat {
        duration_nanos(self.since_start)
    }

    /// The moment that lies `delay` after this one.
    pub fn after(self, delay: Duration) -> (later: Moment)
        ensures
            later.nanos() == capped_nanos(self.nanos() + duration_nanos(delay)),
    {
        Moment { since_start: self.since_start.saturating_add(delay) }
    }

    /// The time that has passed from `earlier` to this moment; zero if `earlier` lies later.
    pub fn since(self, earlier: Moment) -> (passed: Duration)
        ensures
            duration_nanos(passed) == nanos_between(earlier.nanos(), self.nanos()),
    {
        self.since_start.saturating_sub(earlier.since_start)
    }

    /// Whether this moment lies at `deadline` or after it.
    pub fn reached(self, deadline: Moment) -> (yes: bool)
        ensures
            yes == (deadline.nanos() <= self.nanos()),
    {
        self.since_start.as_nanos() >= deadline.since_start.as_nanos()
    }
}

/// `tokio::time::Instant`, the point at which a clock was started.
#[verifier::external_type_specification]
#[verifier::external_body]
pub struct ExInstant(tokio::time::Instant);

/// `tokio::time::Instant::now` reads the runtime's clock; nothing is known of what it shows.
pub assume_specification[ tokio::time::Instant::now ]() -> (now: tokio::time::Instant);

/// `tokio::time::Instant::elapsed` gives the time that has passed since the instant; nothing is
/// known of how long that is.
pub assume_specification[ tokio::time::Instant::elapsed ](start: &tokio::time::Instant) -> (passed:
    Duration);

/// The clock that every moment of one accumulator is read from.
#[derive(Debug, Clone, Copy)]
pub struct Clock {
    start: tokio::time::Instant,
}

impl Clock {
    /// Whether the clock may show `now`: its start lies that far back.
    pub open spec fn shows(&self, now: Moment) -> bool {
        call_ensures(
            tokio::time::Instant::elapsed,
            (&self.start_instant(),),
            now.since_start,
        )
    }

    /// A clock that starts now.
    pub fn start() -> (clock: Clock)
        ensures
            call_ensures(tokio::time::Instant::now, (), clock.start_instant()),
    {
        Clock { start: tokio::time::Instant::now() }
    }

    /// The moment that the clock shows: how long ago it was started.
    pub fn now(&self) -> (now: Moment)
        ensures
            self.shows(now),
    {
        Moment { since_start: self.start.elapsed() }
    }

    /// The instant at which the clock was started.
    pub fn started_at(&self) -> (start: tokio::time::Instant)
        ensures
            start == self.start_instant(),
    {
        self.start
    }

    /// The instant at which the clock was started.
    pub closed spec fn start_instant(&self) -> tokio::time::Instant {
        self.start
    }
}

} // verus!
