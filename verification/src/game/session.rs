//! A game session: one player's round, from start to result.

use rand::Rng;
use std::time::Duration;
use vstd::prelude::*;

use crate::clock::{duration_as_millis, millis_u64};
use crate::error::GameError;
use crate::game::{
    is_transition_error, transition, Action, AttemptTime, GameConfig, GameId, GameState, Phase,
    PlayerId, TargetTime,
};
use crate::validation::{timing_within, TimingValidator};

verus! {

/// Calls `rand::thread_rng().gen_range(min..=max)`: a random integer drawn
/// from the inclusive range, which must not be empty (`gen_range` panics on an
/// empty range).
#[verifier::external_body]
fn random_in_range(min: u64, max: u64) -> (r: u64)
    requires
        min <= max,
    ensures
        min <= r <= max,
{
    rand::thread_rng().gen_range(min..=max)
}

/// Represents a single game session for one player.
#[derive(Debug, Clone, Copy)]
pub struct GameSession {
    pub id: GameId,
    pub player_id: PlayerId,
    pub(crate) state: GameState,
    pub(crate) config: GameConfig,
    pub(crate) timing_validator: TimingValidator,
}

/// Result of stopping the game. The difference in seconds, a float, is
/// `difference_ms` divided by 1000 and is left to the caller.
#[derive(Debug, Clone, Copy)]
pub struct GameResult {
    pub target_time: TargetTime,
    pub attempt_time: AttemptTime,
    pub difference_ms: i64,
    pub timing_valid: bool,
}

/// The signed difference `attempt - target` in milliseconds, each converted
/// to `i64` and subtracted with wrap-around, as 64-bit machine arithmetic does.
pub open spec fn difference_millis(attempt: u64, target: u64) -> i64 {
    vstd::wrapping::i64_specs::wrapping_sub(attempt as i64, target as i64)
}

/// The result of stopping at `client` a round whose target is `target`, when
/// the server measured `server_ms` and allows a difference of `allowed_ms`:
/// the client's time counts if it is within the allowance, else the server's.
pub open spec fn stop_result(
    target: TargetTime,
    client: AttemptTime,
    server_ms: u64,
    allowed_ms: int,
) -> GameResult {
    let valid = timing_within(client.0, server_ms, allowed_ms);
    let effective = if valid {
        client
    } else {
        AttemptTime(server_ms)
    };
    GameResult {
        target_time: target,
        attempt_time: effective,
        difference_ms: difference_millis(effective.0, target.0),
        timing_valid: valid,
    }
}

impl GameSession {
    /// The session's identifier.
    pub closed spec fn game_id(&self) -> GameId {
        self.id
    }

    /// The player that the session belongs to.
    pub closed spec fn owner(&self) -> PlayerId {
        self.player_id
    }

    /// Inside the crate, the identifiers are the fields that hold them.
    pub(crate) proof fn lemma_identifiers(&self)
        ensures
            self.game_id() == self.id,
            self.owner() == self.player_id,
    {
    }

    /// The session's state.
    pub closed spec fn game_state(&self) -> GameState {
        self.state
    }

    /// The session's configuration.
    pub closed spec fn config(&self) -> GameConfig {
        self.config
    }

    /// The validator that checks the client's times.
    pub closed spec fn validator(&self) -> TimingValidator {
        self.timing_validator
    }

    /// The session can be played: its configuration is valid and its
    /// validator uses the configuration's tolerance and latency.
    pub open spec fn runnable(&self) -> bool {
        &&& self.config().valid()
        &&& self.validator().tolerance() == self.config().timing_tolerance
        &&& self.validator().max_latency() == self.config().max_network_latency
    }

    /// The least target time the configuration allows, in milliseconds.
    pub open spec fn min_target_ms(&self) -> u64 {
        millis_u64(self.config().min_target_time)
    }

    /// The greatest target time the configuration allows, in milliseconds.
    pub open spec fn max_target_ms(&self) -> u64 {
        millis_u64(self.config().max_target_time)
    }

    /// Everything but the state is the same in `self` and `other`.
    pub open spec fn same_but_state(&self, other: &GameSession) -> bool {
        &&& self.game_id() == other.game_id()
        &&& self.owner() == other.owner()
        &&& self.config() == other.config()
        &&& self.validator() == other.validator()
    }

    /// A new, idle session.
    pub fn new(id: GameId, player_id: PlayerId, config: GameConfig) -> (s: Self)
        ensures
            s.game_id() == id,
            s.owner() == player_id,
            s.config() == config,
            s.game_state().phase() == Phase::Idle,
            s.validator().tolerance() == config.timing_tolerance,
            s.validator().max_latency() == config.max_network_latency,
            config.valid() ==> s.runnable(),
    {
        let timing_validator = TimingValidator::new(
            config.timing_tolerance,
            config.max_network_latency,
        );
        GameSession { id, player_id, state: GameState::new(), config, timing_validator }
    }

    /// Generate a random target time within configured bounds.
    fn generate_target_time(&self) -> (t: TargetTime)
        requires
            self.min_target_ms() <= self.max_target_ms(),
        ensures
            self.min_target_ms() <= t.0 <= self.max_target_ms(),
    {
        let min_ms = duration_as_millis(&self.config.min_target_time) as u64;
        let max_ms = duration_as_millis(&self.config.max_target_time) as u64;
        TargetTime(random_in_range(min_ms, max_ms))
    }

    /// Start the game with a randomly generated target time within the
    /// configured bounds.
    pub fn start(&mut self) -> (r: Result<TargetTime, GameError>)
        requires
            old(self).min_target_ms() <= old(self).max_target_ms(),
        ensures
            final(self).same_but_state(old(self)),
            r is Ok <==> old(self).game_state().phase() == Phase::Idle,
            r matches Ok(t) ==> {
                &&& old(self).min_target_ms() <= t.0 <= old(self).max_target_ms()
                &&& final(self).game_state().phase() == Phase::Running
                &&& final(self).game_state()->Running_0.target_time == t
            },
            r matches Err(e) ==> {
                &&& is_transition_error(e, old(self).game_state().phase(), Action::Start)
                &&& final(self).game_state().phase() == Phase::Idle
            },
    {
        let target = self.generate_target_time();
        self.start_with_target(target)
    }

    /// Start the game with the given target time. A refused start leaves the
    /// session idle: the state is taken out before the transition is tried.
    pub fn start_with_target(&mut self, target: TargetTime) -> (r: Result<TargetTime, GameError>)
        ensures
            final(self).same_but_state(old(self)),
            r is Ok <==> transition(old(self).game_state().phase(), Action::Start) is Some,
            r matches Ok(t) ==> {
                &&& t == target
                &&& final(self).game_state().phase() == Phase::Running
                &&& final(self).game_state()->Running_0.target_time == target
            },
            r matches Err(e) ==> {
                &&& is_transition_error(e, old(self).game_state().phase(), Action::Start)
                &&& final(self).game_state().phase() == Phase::Idle
            },
    {
        let current = self.state;
        self.state = GameState::default();
        match current.start(target) {
            Ok(next) => {
                self.state = next;
                Ok(target)
            },
            Err(e) => Err(e),
        }
    }

    /// The result of stopping at `client_time` a round whose target is
    /// `target_time`, when the server measured `server_elapsed`.
    fn score(&self, target_time: TargetTime, client_time: AttemptTime, server_elapsed: Duration) -> (r:
        GameResult)
        requires
            self.validator().allowed_ms() <= u64::MAX,
        ensures
            r == stop_result(
                target_time,
                client_time,
                millis_u64(server_elapsed),
                self.validator().allowed_ms(),
            ),
    {
        // Validate client time against server time
        let timing_valid = self.timing_validator.validate(client_time, server_elapsed);

        // Use client time if valid, server time if not
        let effective_time = if timing_valid {
            client_time
        } else {
            AttemptTime(duration_as_millis(&server_elapsed) as u64)
        };

        // Calculate difference
        let difference_ms = (effective_time.as_millis() as i64).wrapping_sub(
            target_time.as_millis() as i64,
        );

        GameResult { target_time, attempt_time: effective_time, difference_ms, timing_valid }
    }

    /// What stopping `before` at `client_time` gives: from a running session,
    /// `after` completed with a reading of the server's clock measured from the
    /// round's start, and the result scored against that reading; from any
    /// other state, the transition error with the session unchanged.
    pub open spec fn stop_outcome(
        before: GameSession,
        client_time: AttemptTime,
        after: GameSession,
        r: Result<GameResult, GameError>,
    ) -> bool {
        &&& after.same_but_state(&before)
        &&& match r {
            Ok(res) => {
                &&& before.game_state().phase() == Phase::Running
                &&& after.game_state().phase() == Phase::Completed
                &&& after.game_state()->Completed_0.server_elapsed.start()
                    == before.game_state()->Running_0.server_start_time.0
                &&& res == stop_result(
                    before.game_state()->Running_0.target_time,
                    client_time,
                    millis_u64(after.game_state()->Completed_0.server_elapsed.measured()),
                    before.validator().allowed_ms(),
                )
                &&& after.game_state()->Completed_0.target_time == res.target_time
                &&& after.game_state()->Completed_0.attempt_time == res.attempt_time
            },
            Err(e) => {
                &&& before.game_state().phase() != Phase::Running
                &&& is_transition_error(e, before.game_state().phase(), Action::Stop)
                &&& after.game_state() == before.game_state()
            },
        }
    }

    /// Stop the game and calculate results, measuring the elapsed time on
    /// the server's clock since the round started. The reading that the
    /// result is scored against is the one kept in the completed state.
    pub fn stop(&mut self, client_time: AttemptTime) -> (r: Result<GameResult, GameError>)
        requires
            old(self).game_state().phase() == Phase::Running ==> old(self).validator().allowed_ms()
                <= u64::MAX,
        ensures
            Self::stop_outcome(*old(self), client_time, *final(self), r),
            final(self).same_but_state(old(self)),
            r is Ok <==> old(self).game_state().phase() == Phase::Running,
            r matches Ok(res) ==> {
                &&& final(self).game_state().phase() == Phase::Completed
                &&& final(self).game_state()->Completed_0.server_elapsed.start()
                    == old(self).game_state()->Running_0.server_start_time.0
                &&& res == stop_result(
                    old(self).game_state()->Running_0.target_time,
                    client_time,
                    millis_u64(final(self).game_state()->Completed_0.server_elapsed.measured()),
                    old(self).validator().allowed_ms(),
                )
                &&& final(self).game_state()->Completed_0.target_time == res.target_time
                &&& final(self).game_state()->Completed_0.attempt_time == res.attempt_time
            },
            r matches Err(e) ==> {
                &&& is_transition_error(e, old(self).game_state().phase(), Action::Stop)
                &&& final(self).game_state() == old(self).game_state()
            },
    {
        let (target_time, measured) = match &self.state {
            GameState::Running(running) => (
                running.target_time,
                running.server_start_time.elapsed_reading(),
            ),
            _ => {
                return Err(
                    GameError::InvalidStateTransition { from: self.state.name(), action: "stop" },
                );
            },
        };

        let result = self.score(target_time, client_time, measured.duration());

        // Transition state
        let current = self.state;
        self.state = GameState::default();
        match current.stop_measured(result.attempt_time, measured) {
            Ok(next) => {
                self.state = next;
            },
            Err(e) => {
                return Err(e);
            },
        }

        Ok(result)
    }

    /// Stop the game given the time that the server measured since the start:
    /// the client's time counts if it is within tolerance plus latency of the
    /// server's, else the server's time counts.
    pub fn stop_with_elapsed(&mut self, client_time: AttemptTime, server_elapsed: Duration) -> (r:
        Result<GameResult, GameError>)
        requires
            old(self).game_state().phase() == Phase::Running ==> old(self).validator().allowed_ms()
                <= u64::MAX,
        ensures
            final(self).same_but_state(old(self)),
            r is Ok <==> transition(old(self).game_state().phase(), Action::Stop) is Some,
            r matches Ok(res) ==> {
                &&& res == stop_result(
                    old(self).game_state()->Running_0.target_time,
                    client_time,
                    millis_u64(server_elapsed),
                    old(self).validator().allowed_ms(),
                )
                &&& final(self).game_state().phase() == Phase::Completed
                &&& final(self).game_state()->Completed_0.target_time == res.target_time
                &&& final(self).game_state()->Completed_0.attempt_time == res.attempt_time
                &&& final(self).game_state()->Completed_0.server_elapsed.start()
                    == old(self).game_state()->Running_0.server_start_time.0
            },
            r matches Err(e) ==> {
                &&& is_transition_error(e, old(self).game_state().phase(), Action::Stop)
                &&& final(self).game_state() == old(self).game_state()
            },
    {
        let target_time = match &self.state {
            GameState::Running(running) => running.target_time,
            _ => {
                return Err(
                    GameError::InvalidStateTransition { from: self.state.name(), action: "stop" },
                );
            },
        };

        let result = self.score(target_time, client_time, server_elapsed);

        // Transition state
        let current = self.state;
        self.state = GameState::default();
        match current.stop(result.attempt_time) {
            Ok(next) => {
                self.state = next;
            },
            Err(e) => {
                return Err(e);
            },
        }

        Ok(result)
    }

    /// Reset for another round. A refused reset leaves the session idle: the
    /// state is taken out before the transition is tried.
    pub fn reset(&mut self) -> (r: Result<(), GameError>)
        ensures
            final(self).same_but_state(old(self)),
            r is Ok <==> transition(old(self).game_state().phase(), Action::Reset) is Some,
            final(self).game_state().phase() == Phase::Idle,
            r matches Err(e) ==> is_transition_error(e, old(self).game_state().phase(), Action::Reset),
    {
        let current = self.state;
        self.state = GameState::default();
        match current.reset() {
            Ok(next) => {
                self.state = next;
                Ok(())
            },
            Err(e) => Err(e),
        }
    }

    pub fn state(&self) -> (s: &GameState)
        ensures
            *s == self.game_state(),
    {
        &self.state
    }
}

} // verus!
