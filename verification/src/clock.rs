//! Points in time and spans of time, counted in ticks of the system clock.

use vstd::prelude::*;

verus! {

/// Ticks per second of the clock that `Instant::now` reads.
pub const TICK_HZ: u64 = 1_000_000;

/// A point in time: ticks since the system started.
#[derive(Debug, Clone, Copy, PartialEq, Eq, Structural)]
pub struct Instant {
    pub ticks: u64,
}

/// A span of time, in ticks.
#[derive(Debug, Clone, Copy, PartialEq, Eq, Structural)]
pub struct Duration {
    pub ticks: u64,
}

/// Adding a span to a point in time left the range of the clock.
#[derive(Debug, Clone, Copy, PartialEq, Eq, Structural)]
pub struct ClockError;

impl Instant {
    /// The point in time `ticks` ticks after the start.
    pub fn from_ticks(ticks: u64) -> (r: Instant)
        ensures
            r.ticks == ticks,
    {
        Instant { ticks }
    }

    /// Ticks since the start.
    pub fn as_ticks(&self) -> (r: u64)
        ensures
            r == self.ticks,
    {
        self.ticks
    }

    /// `self + duration`, if the clock can represent it.
    pub open spec fn spec_checked_add(self, duration: Duration) -> Option<Instant> {
        if self.ticks + duration.ticks <= u64::MAX {
            Some(Instant { ticks: (self.ticks + duration.ticks) as u64 })
        } else {
            None
        }
    }

    /// Reads the system clock through `embassy_time::Instant::now`.
    /// Nothing is claimed of the value: it is whatever the time driver
    /// reports at the moment of the call.
    #[verifier::external_body]
    pub(crate) fn now() -> Instant {
        Instant { ticks: embassy_time::Instant::now().as_ticks() }
    }

    /// Calls `embassy_time::Instant::checked_add`, which adds the tick
    /// counts with `u64::checked_add`: the sum where it fits in 64 bits,
    /// `None` where it does not.
    #[verifier::external_body]
    pub(crate) fn checked_add(&self, duration: Duration) -> (r: Option<Instant>)
        ensures
            r == self.spec_checked_add(duration),
    {
        embassy_time::Instant::from_ticks(self.ticks)
            .checked_add(embassy_time::Duration::from_ticks(duration.ticks))
            .map(|sum| Instant { ticks: sum.as_ticks() })
    }

    /// The end of a lease of `duration` granted at `self`, or `ClockError`
    /// where the clock cannot represent it.
    pub fn lease_end(&self, duration: Duration) -> (r: Result<Instant, ClockError>)
        ensures
            r == match self.spec_checked_add(duration) {
                Some(end) => Ok::<Instant, ClockError>(end),
                None => Err(ClockError),
            },
    {
        match self.checked_add(duration) {
            Some(end) => Ok(end),
            None => Err(ClockError),
        }
    }
}

impl Duration {
    /// A span of `ticks` ticks.
    pub fn from_ticks(ticks: u64) -> (r: Duration)
        ensures
            r.ticks == ticks,
    {
        Duration { ticks }
    }

    /// Length of the span in ticks.
    pub fn as_ticks(&self) -> (r: u64)
        ensures
            r == self.ticks,
    {
        self.ticks
    }

    /// Whole seconds in the span.
    pub open spec fn spec_as_secs(self) -> u64 {
        self.ticks / TICK_HZ
    }

    /// Calls `embassy_time::Duration::as_secs`, which divides the tick count
    /// by the tick rate and rounds down. The tick rate is the one this
    /// crate builds `embassy-time` with, `TICK_HZ`.
    #[verifier::external_body]
    pub(crate) fn as_secs(&self) -> (r: u64)
        ensures
            r == self.spec_as_secs(),
    {
        embassy_time::Duration::from_ticks(self.ticks).as_secs()
    }
}

} // verus!
