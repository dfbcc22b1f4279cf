//! Checks a client's reported time against the server's measurement.

use std::time::Duration;
use vstd::prelude::*;

use crate::clock::{duration_as_millis, millis_u64};
use crate::game::AttemptTime;

verus! {

/// The distance between two millisecond counts.
pub open spec fn abs_diff(a: u64, b: u64) -> nat {
    if a >= b {
        (a - b) as nat
    } else {
        (b - a) as nat
    }
}

/// Whether a client time lies within `allowed_ms` of the server's measurement.
pub open spec fn timing_within(client_ms: u64, server_ms: u64, allowed_ms: int) -> bool {
    abs_diff(client_ms, server_ms) <= allowed_ms
}

/// Validates client-reported times against server measurements.
#[derive(Debug, Clone, Copy)]
pub struct TimingValidator {
    /// Acceptable difference between client and server times
    tolerance: Duration,
    /// Maximum network latency to account for
    max_latency: Duration,
}

impl TimingValidator {
    /// The acceptable difference between client and server times.
    pub closed spec fn tolerance(&self) -> Duration {
        self.tolerance
    }

    /// The network latency that is allowed for.
    pub closed spec fn max_latency(&self) -> Duration {
        self.max_latency
    }

    /// The total difference allowed, in milliseconds: tolerance plus latency,
    /// each cut to 64 bits.
    pub open spec fn allowed_ms(&self) -> int {
        millis_u64(self.tolerance()) + millis_u64(self.max_latency())
    }

    pub fn new(tolerance: Duration, max_latency: Duration) -> (v: Self)
        ensures
            v.tolerance() == tolerance,
            v.max_latency() == max_latency,
    {
        TimingValidator { tolerance, max_latency }
    }

    /// Whether tolerance plus latency fits in 64 bits, as `validate` needs.
    pub fn allowance_fits(&self) -> (ok: bool)
        ensures
            ok == (self.allowed_ms() <= u64::MAX),
    {
        let tolerance_ms = duration_as_millis(&self.tolerance) as u64;
        let latency_ms = duration_as_millis(&self.max_latency) as u64;
        tolerance_ms <= u64::MAX - latency_ms
    }

    /// Validate that client time is within acceptable bounds of server time:
    /// the two differ by at most tolerance plus latency.
    pub fn validate(&self, client_time: AttemptTime, server_elapsed: Duration) -> (valid: bool)
        requires
            self.allowed_ms() <= u64::MAX,
        ensures
            valid == timing_within(client_time.0, millis_u64(server_elapsed), self.allowed_ms()),
    {
        let client_ms = client_time.as_millis();
        let server_ms = duration_as_millis(&server_elapsed) as u64;

        // Total allowed difference = tolerance + max_latency
        let allowed_diff = duration_as_millis(&self.tolerance) as u64 + duration_as_millis(
            &self.max_latency,
        ) as u64;

        let diff = if client_ms >= server_ms {
            client_ms - server_ms
        } else {
            server_ms - client_ms
        };

        diff <= allowed_diff
    }
}

} // verus!
