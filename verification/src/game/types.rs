//! Identifiers and times of a game.

use std::time::Duration;
use std::time::Instant;
use vstd::prelude::*;

use crate::clock::{
    duration_from_millis, duration_millis, duration_of_millis, instant_elapsed, instant_now, Elapsed,
};

verus! {

/// The lower-case hexadecimal digit of `n`, for `0 <= n < 16`.
pub open spec fn hex_char(n: int) -> char {
    if n < 10 {
        (48 + n) as char
    } else {
        (87 + n) as char
    }
}

/// The last `count` hexadecimal digits of `v`, most significant first.
pub open spec fn hex_digits(v: nat, count: nat) -> Seq<char>
    decreases count,
{
    if count == 0 {
        Seq::empty()
    } else {
        hex_digits(v / 16, (count - 1) as nat).push(hex_char((v % 16) as int))
    }
}

/// The hyphenated lower-case text of a UUID whose 128 bits, big-endian, are `v`:
/// 32 hex digits grouped 8-4-4-4-12.
pub open spec fn uuid_text(v: u128) -> Seq<char> {
    let d = hex_digits(v as nat, 32);
    d.subrange(0, 8) + seq!['-'] + d.subrange(8, 12) + seq!['-'] + d.subrange(12, 16) + seq!['-']
        + d.subrange(16, 20) + seq!['-'] + d.subrange(20, 32)
}

/// The bits of a version-4 (random) UUID: version nibble 4, RFC 4122 variant.
pub open spec fn is_random_uuid(v: u128) -> bool {
    &&& (v >> 76u128) & 0xfu128 == 4
    &&& (v >> 62u128) & 3u128 == 2
}

/// Calls `uuid::Uuid::new_v4` and returns its 128 bits (`as_u128`). The bits
/// are random; `new_v4` sets the version and variant bits, which is all that
/// is stated.
#[verifier::external_body]
fn random_uuid_bits() -> (v: u128)
    ensures
        is_random_uuid(v),
{
    uuid::Uuid::new_v4().as_u128()
}

/// Calls `uuid::Uuid::from_u128(v).to_string()`: the crate's `Display` writes
/// the hyphenated lower-case form.
#[verifier::external_body]
fn uuid_to_string(v: u128) -> (s: String)
    ensures
        s@ == uuid_text(v),
{
    uuid::Uuid::from_u128(v).to_string()
}

/// Unique identifier for a game session: the 128 bits of a UUID.
#[derive(Debug, Clone, Copy, PartialEq, Eq, Hash, Structural)]
pub struct GameId(pub u128);

impl GameId {
    /// A fresh random (version 4) identifier.
    pub fn new() -> (id: Self)
        ensures
            is_random_uuid(id.0),
    {
        GameId(random_uuid_bits())
    }

    /// The identifier in its hyphenated UUID text form.
    pub fn to_uuid_string(&self) -> (s: String)
        ensures
            s@ == uuid_text(self.0),
    {
        uuid_to_string(self.0)
    }
}

impl Default for GameId {
    fn default() -> (id: Self)
        ensures
            is_random_uuid(id.0),
    {
        Self::new()
    }
}

/// Unique identifier for a player: the 128 bits of a UUID.
#[derive(Debug, Clone, Copy, PartialEq, Eq, Hash, Structural)]
pub struct PlayerId(pub u128);

impl PlayerId {
    /// A fresh random (version 4) identifier.
    pub fn new() -> (id: Self)
        ensures
            is_random_uuid(id.0),
    {
        PlayerId(random_uuid_bits())
    }

    /// The identifier in its hyphenated UUID text form.
    pub fn to_uuid_string(&self) -> (s: String)
        ensures
            s@ == uuid_text(self.0),
    {
        uuid_to_string(self.0)
    }
}

impl Default for PlayerId {
    fn default() -> (id: Self)
        ensures
            is_random_uuid(id.0),
    {
        Self::new()
    }
}

/// Target time the player must hit (in milliseconds).
#[derive(Debug, Clone, Copy, PartialEq, Eq, Structural)]
pub struct TargetTime(pub u64);

impl TargetTime {
    pub fn as_millis(&self) -> (ms: u64)
        ensures
            ms == self.0,
    {
        self.0
    }

    pub fn as_duration(&self) -> (d: Duration)
        ensures
            d == duration_of_millis(self.0),
            duration_millis(d) == self.0 as u128,
    {
        duration_from_millis(self.0)
    }
}

/// Player's recorded attempt time (in milliseconds).
#[derive(Debug, Clone, Copy, PartialEq, Eq, Structural)]
pub struct AttemptTime(pub u64);

impl AttemptTime {
    pub fn as_millis(&self) -> (ms: u64)
        ensures
            ms == self.0,
    {
        self.0
    }
}

/// Server-side timestamp for validation.
#[derive(Debug, Clone, Copy)]
pub struct ServerTimestamp(pub Instant);

impl ServerTimestamp {
    /// The current instant of the server's monotonic clock.
    pub fn now() -> Self {
        ServerTimestamp(instant_now())
    }

    /// The time that has passed since this timestamp, by the server's clock.
    pub fn elapsed(&self) -> Duration {
        instant_elapsed(&self.0).duration()
    }

    /// A reading of the time that has passed since this timestamp, kept
    /// together with the timestamp it measures from.
    pub fn elapsed_reading(&self) -> (e: Elapsed)
        ensures
            e.start() == self.0,
    {
        instant_elapsed(&self.0)
    }
}

} // verus!
