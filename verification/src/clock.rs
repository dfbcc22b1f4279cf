//! Durations and instants of `std::time`, seen through whole milliseconds.

use std::time::Duration;
use std::time::Instant;
use std::time::SystemTime;
use std::time::UNIX_EPOCH;
use vstd::prelude::*;

verus! {

/// The number of whole milliseconds that `Duration::as_millis` reports for `d`.
pub uninterp spec fn duration_millis(d: Duration) -> u128;

/// The duration that `Duration::from_millis` returns for `ms`.
pub uninterp spec fn duration_of_millis(ms: u64) -> Duration;

/// A duration's whole milliseconds, cut to 64 bits as `as u64` does.
pub open spec fn millis_u64(d: Duration) -> u64 {
    duration_millis(d) as u64
}

/// `std::time::Instant`, carried through the library as an opaque value.
#[verifier::external_type_specification]
#[verifier::external_body]
pub struct ExInstant(Instant);

/// Calls `Duration::from_millis`: the result is the duration that name
/// stands for, and the standard library documents that it holds exactly `ms`
/// milliseconds, so `as_millis` gives `ms` back.
#[verifier::external_body]
pub(crate) fn duration_from_millis(ms: u64) -> (d: Duration)
    ensures
        d == duration_of_millis(ms),
        duration_millis(d) == ms as u128,
{
    Duration::from_millis(ms)
}

/// Calls `Duration::as_millis`: the total number of whole milliseconds.
#[verifier::external_body]
pub(crate) fn duration_as_millis(d: &Duration) -> (ms: u128)
    ensures
        ms == duration_millis(*d),
{
    d.as_millis()
}

/// Calls `Instant::now`. The reading depends on the clock, so nothing is
/// stated of it.
#[verifier::external_body]
pub(crate) fn instant_now() -> Instant {
    Instant::now()
}

/// A reading of the monotonic clock: the time that had passed since the
/// instant `start` when the reading was taken. Only the clock makes one.
#[derive(Debug, Clone, Copy)]
pub struct Elapsed {
    start: Instant,
    duration: Duration,
}

impl Elapsed {
    /// The instant that the reading measures from.
    pub closed spec fn start(&self) -> Instant {
        self.start
    }

    /// The time that the reading found had passed since `start`.
    pub closed spec fn measured(&self) -> Duration {
        self.duration
    }

    /// The time that the reading found had passed since its start.
    pub fn duration(&self) -> (d: Duration)
        ensures
            d == self.measured(),
    {
        self.duration
    }
}

/// Calls `Instant::elapsed` on `i` and keeps the result together with `i`,
/// the instant it measures from. What the clock read is not stated.
#[verifier::external_body]
pub(crate) fn instant_elapsed(i: &Instant) -> (e: Elapsed)
    ensures
        e.start() == *i,
{
    Elapsed { start: *i, duration: i.elapsed() }
}

/// `std::time::SystemTime`, carried through the library as an opaque value.
#[verifier::external_type_specification]
#[verifier::external_body]
pub struct ExSystemTime(SystemTime);

/// Calls `SystemTime::now`. The reading depends on the clock, so nothing is
/// stated of it.
#[verifier::external_body]
pub(crate) fn system_time_now() -> SystemTime {
    SystemTime::now()
}

/// A reading of the system clock: the time it showed past the Unix epoch,
/// or `None` where it showed a time before the epoch. Only the clock makes
/// one.
#[derive(Debug, Clone, Copy)]
pub struct EpochReading {
    since_epoch: Option<Duration>,
}

impl EpochReading {
    /// The time past the Unix epoch that the reading found.
    pub closed spec fn value(&self) -> Option<Duration> {
        self.since_epoch
    }

    /// The time past the Unix epoch that the reading found.
    pub fn since_epoch(&self) -> (d: Option<Duration>)
        ensures
            d == self.value(),
    {
        self.since_epoch
    }
}

/// Calls `t.duration_since(UNIX_EPOCH)`: the time since the Unix epoch, or
/// `None` where `t` lies before the epoch (the call's error). Nothing is
/// stated of the time, since `t` is opaque here.
#[verifier::external_body]
pub(crate) fn duration_since_unix_epoch(t: &SystemTime) -> EpochReading {
    EpochReading {
        since_epoch: match t.duration_since(UNIX_EPOCH) {
            Ok(d) => Some(d),
            Err(_) => None,
        },
    }
}

} // verus!
