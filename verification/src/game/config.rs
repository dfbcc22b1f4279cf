//! Configuration of game sessions, and its builder.

use std::time::Duration;
use vstd::prelude::*;

use crate::clock::{duration_as_millis, duration_from_millis, duration_millis, duration_of_millis, millis_u64};

verus! {

/// Milliseconds of the default minimum target time.
pub const DEFAULT_MIN_TARGET_MS: u64 = 1000;
/// Milliseconds of the default maximum target time.
pub const DEFAULT_MAX_TARGET_MS: u64 = 10000;
/// Milliseconds of the default client/server timing tolerance.
pub const DEFAULT_TIMING_TOLERANCE_MS: u64 = 100;
/// Milliseconds of the default allowance for network latency.
pub const DEFAULT_MAX_NETWORK_LATENCY_MS: u64 = 500;

/// Configuration for game sessions.
#[derive(Debug, Clone, Copy)]
pub struct GameConfig {
    /// Minimum target time
    pub min_target_time: Duration,
    /// Maximum target time
    pub max_target_time: Duration,
    /// Tolerance for client/server time difference (hybrid validation)
    pub timing_tolerance: Duration,
    /// Maximum allowed network latency for validation
    pub max_network_latency: Duration,
}

impl GameConfig {
    /// A configuration that sessions can run on: the target range is not empty
    /// (drawing a target from it would panic otherwise), and the total timing
    /// allowance fits in 64 bits (adding it up would overflow otherwise). Each
    /// duration is read as its whole milliseconds cut to 64 bits.
    pub open spec fn valid(&self) -> bool {
        &&& self.target_range_nonempty()
        &&& self.allowance_fits()
    }

    /// The target range, in milliseconds cut to 64 bits, is not empty.
    pub open spec fn target_range_nonempty(&self) -> bool {
        millis_u64(self.min_target_time) <= millis_u64(self.max_target_time)
    }

    /// Tolerance plus latency, in milliseconds cut to 64 bits, fits in 64 bits.
    pub open spec fn allowance_fits(&self) -> bool {
        millis_u64(self.timing_tolerance) + millis_u64(self.max_network_latency) <= u64::MAX
    }

    /// Whether the configuration is one that sessions can run on (see `valid`).
    pub fn is_valid(&self) -> (ok: bool)
        ensures
            ok == self.valid(),
    {
        let min_ms = duration_as_millis(&self.min_target_time) as u64;
        let max_ms = duration_as_millis(&self.max_target_time) as u64;
        let tolerance_ms = duration_as_millis(&self.timing_tolerance) as u64;
        let latency_ms = duration_as_millis(&self.max_network_latency) as u64;
        min_ms <= max_ms && tolerance_ms <= u64::MAX - latency_ms
    }

    /// A builder that starts with no field set.
    pub fn builder() -> (b: GameConfigBuilder)
        ensures
            b.min_target() is None,
            b.max_target() is None,
            b.tolerance() is None,
            b.latency() is None,
    {
        GameConfigBuilder::default()
    }
}

/// The default configuration: one to ten seconds of target time, 100 ms of
/// tolerance and 500 ms of allowed network latency.
pub open spec fn default_config() -> GameConfig {
    GameConfig {
        min_target_time: duration_of_millis(DEFAULT_MIN_TARGET_MS),
        max_target_time: duration_of_millis(DEFAULT_MAX_TARGET_MS),
        timing_tolerance: duration_of_millis(DEFAULT_TIMING_TOLERANCE_MS),
        max_network_latency: duration_of_millis(DEFAULT_MAX_NETWORK_LATENCY_MS),
    }
}

/// The configuration's durations are those of the default, in milliseconds.
pub open spec fn is_default_config(c: GameConfig) -> bool {
    &&& duration_millis(c.min_target_time) == DEFAULT_MIN_TARGET_MS as u128
    &&& duration_millis(c.max_target_time) == DEFAULT_MAX_TARGET_MS as u128
    &&& duration_millis(c.timing_tolerance) == DEFAULT_TIMING_TOLERANCE_MS as u128
    &&& duration_millis(c.max_network_latency) == DEFAULT_MAX_NETWORK_LATENCY_MS as u128
}

impl Default for GameConfig {
    /// One to ten seconds of target time, 100 ms of tolerance and 500 ms of
    /// allowed network latency.
    fn default() -> (c: Self)
        ensures
            c == default_config(),
            is_default_config(c),
            c.valid(),
    {
        GameConfig {
            min_target_time: duration_from_millis(DEFAULT_MIN_TARGET_MS),
            max_target_time: duration_from_millis(DEFAULT_MAX_TARGET_MS),
            timing_tolerance: duration_from_millis(DEFAULT_TIMING_TOLERANCE_MS),
            max_network_latency: duration_from_millis(DEFAULT_MAX_NETWORK_LATENCY_MS),
        }
    }
}

/// Builder for `GameConfig`: each field left unset takes the default's value.
pub struct GameConfigBuilder {
    min_target_time: Option<Duration>,
    max_target_time: Option<Duration>,
    timing_tolerance: Option<Duration>,
    max_network_latency: Option<Duration>,
}

/// The duration that `build` puts in a field: the one that was set, else the
/// default's.
pub open spec fn built_duration(set: Option<Duration>, default_ms: u64) -> Duration {
    match set {
        Some(d) => d,
        None => duration_of_millis(default_ms),
    }
}

/// The whole milliseconds of the duration that `build` puts in a field.
pub open spec fn built_millis(set: Option<Duration>, default_ms: u64) -> u128 {
    match set {
        Some(d) => duration_millis(d),
        None => default_ms as u128,
    }
}

impl GameConfigBuilder {
    /// The minimum target time that was set, if any.
    pub closed spec fn min_target(&self) -> Option<Duration> {
        self.min_target_time
    }

    /// The maximum target time that was set, if any.
    pub closed spec fn max_target(&self) -> Option<Duration> {
        self.max_target_time
    }

    /// The timing tolerance that was set, if any.
    pub closed spec fn tolerance(&self) -> Option<Duration> {
        self.timing_tolerance
    }

    /// The network latency allowance that was set, if any.
    pub closed spec fn latency(&self) -> Option<Duration> {
        self.max_network_latency
    }

    pub fn min_target_time(self, duration: Duration) -> (b: Self)
        ensures
            b.min_target() == Some(duration),
            b.max_target() == self.max_target(),
            b.tolerance() == self.tolerance(),
            b.latency() == self.latency(),
    {
        let mut b = self;
        b.min_target_time = Some(duration);
        b
    }

    pub fn max_target_time(self, duration: Duration) -> (b: Self)
        ensures
            b.min_target() == self.min_target(),
            b.max_target() == Some(duration),
            b.tolerance() == self.tolerance(),
            b.latency() == self.latency(),
    {
        let mut b = self;
        b.max_target_time = Some(duration);
        b
    }

    pub fn timing_tolerance(self, duration: Duration) -> (b: Self)
        ensures
            b.min_target() == self.min_target(),
            b.max_target() == self.max_target(),
            b.tolerance() == Some(duration),
            b.latency() == self.latency(),
    {
        let mut b = self;
        b.timing_tolerance = Some(duration);
        b
    }

    pub fn max_network_latency(self, duration: Duration) -> (b: Self)
        ensures
            b.min_target() == self.min_target(),
            b.max_target() == self.max_target(),
            b.tolerance() == self.tolerance(),
            b.latency() == Some(duration),
    {
        let mut b = self;
        b.max_network_latency = Some(duration);
        b
    }

    /// The configuration: each field as set, or the default's where unset.
    pub fn build(self) -> (c: GameConfig)
        ensures
            c.min_target_time == built_duration(self.min_target(), DEFAULT_MIN_TARGET_MS),
            c.max_target_time == built_duration(self.max_target(), DEFAULT_MAX_TARGET_MS),
            c.timing_tolerance == built_duration(self.tolerance(), DEFAULT_TIMING_TOLERANCE_MS),
            c.max_network_latency == built_duration(self.latency(), DEFAULT_MAX_NETWORK_LATENCY_MS),
            duration_millis(c.min_target_time) == built_millis(self.min_target(), DEFAULT_MIN_TARGET_MS),
            duration_millis(c.max_target_time) == built_millis(self.max_target(), DEFAULT_MAX_TARGET_MS),
            duration_millis(c.timing_tolerance) == built_millis(self.tolerance(), DEFAULT_TIMING_TOLERANCE_MS),
            duration_millis(c.max_network_latency) == built_millis(self.latency(), DEFAULT_MAX_NETWORK_LATENCY_MS),
    {
        let default = GameConfig::default();
        GameConfig {
            min_target_time: self.min_target_time.unwrap_or(default.min_target_time),
            max_target_time: self.max_target_time.unwrap_or(default.max_target_time),
            timing_tolerance: self.timing_tolerance.unwrap_or(default.timing_tolerance),
            max_network_latency: self.max_network_latency.unwrap_or(default.max_network_latency),
        }
    }
}

impl Default for GameConfigBuilder {
    fn default() -> (b: Self)
        ensures
            b.min_target() is None,
            b.max_target() is None,
            b.tolerance() is None,
            b.latency() is None,
    {
        GameConfigBuilder {
            min_target_time: None,
            max_target_time: None,
            timing_tolerance: None,
            max_network_latency: None,
        }
    }
}

} // verus!
