//! Turns each client message into a reply, driving sessions and their store.

use std::sync::Arc;
use std::time::Instant;
use vstd::prelude::*;
use vstd::string::StringExecFns;

use std::time::Duration;

use crate::clock::{
    duration_as_millis, duration_since_unix_epoch, instant_now, millis_u64, system_time_now,
    EpochReading,
};
use crate::error::{error_text, GameError};
use crate::game::{
    is_random_uuid, stop_result, GameResult, transition_error_text, uuid_text, Action, AttemptTime,
    GameConfig, GameSession, GameSessionFactory, GameState, Phase, PlayerId,
};
use crate::messages::protocol::{is_error_reply, ClientMessage, ErrorCode, ServerMessage};
use crate::storage::{
    at_most_adds, at_most_removes, failed_with, no_new_failure, players_after_delete,
    session_of_player, sessions_after_take, GameSessionRepository, StoreCall,
};

verus! {

/// Instructions for the WebSocket handler about streaming.
#[derive(Debug, Clone, Copy)]
pub enum StreamControl {
    /// No streaming action needed
    NoChange,
    /// Start streaming timer ticks from this instant
    StartTimer { start_time: Instant },
    /// Stop streaming timer ticks
    StopTimer,
}

/// Response from handler including message and stream control.
pub struct HandlerResponse {
    pub message: ServerMessage,
    pub stream_control: StreamControl,
    /// The reading of the system clock that the reply rests on, if any.
    pub clock_reading: Option<EpochReading>,
}

impl HandlerResponse {
    fn message_only(message: ServerMessage) -> (r: Self)
        ensures
            r.message == message,
            r.stream_control is NoChange,
            r.clock_reading is None,
    {
        HandlerResponse { message, stream_control: StreamControl::NoChange, clock_reading: None }
    }

    fn with_start_timer(message: ServerMessage, start_time: Instant) -> (r: Self)
        ensures
            r.message == message,
            r.stream_control == (StreamControl::StartTimer { start_time }),
            r.clock_reading is None,
    {
        HandlerResponse {
            message,
            stream_control: StreamControl::StartTimer { start_time },
            clock_reading: None,
        }
    }

    fn with_stop_timer(message: ServerMessage) -> (r: Self)
        ensures
            r.message == message,
            r.stream_control is StopTimer,
            r.clock_reading is None,
    {
        HandlerResponse { message, stream_control: StreamControl::StopTimer, clock_reading: None }
    }
}

/// Every stored session's tolerance plus latency fits in 64 bits, so that
/// stopping it cannot overflow.
pub open spec fn allowances_fit(sessions: Map<u128, GameSession>) -> bool {
    forall|id: u128| #[trigger]
        sessions.contains_key(id) ==> sessions[id].validator().allowed_ms() <= u64::MAX
}

/// `r` answers a store call that failed with `e`: INTERNAL_ERROR with the
/// text of `e`, and no change to the timer stream.
pub open spec fn store_failure_reply(r: HandlerResponse, e: GameError) -> bool {
    &&& r.stream_control is NoChange
    &&& is_error_reply(r.message, ErrorCode::InternalError, error_text(e))
}

/// `s` is a fresh session for `player`, made with `config` and started: a
/// random version-4 identifier, the configuration's validator, and a target
/// within the configured range.
pub open spec fn fresh_started_session(config: GameConfig, player: PlayerId, s: GameSession) -> bool {
    &&& s.owner() == player
    &&& s.config() == config
    &&& s.validator().tolerance() == config.timing_tolerance
    &&& s.validator().max_latency() == config.max_network_latency
    &&& is_random_uuid(s.game_id().0)
    &&& s.game_state().phase() == Phase::Running
    &&& s.min_target_ms() <= s.game_state()->Running_0.target_time.0 <= s.max_target_ms()
}

/// What a `StartGame` from `player` does, for a factory configured with
/// `config`: a fresh session, started, is saved under a new random
/// identifier, and, where the save succeeds (no failure is recorded), it is
/// announced with its target time and the timer stream starts. Where the
/// save fails with `e` (recorded in the store's failures), the reply is
/// INTERNAL_ERROR with the text of `e` and no timer starts.
pub open spec fn start_game_outcome(
    config: GameConfig,
    player: PlayerId,
    sessions: Map<u128, GameSession>,
    players: Map<u128, u128>,
    failures: Seq<(StoreCall, GameError)>,
    new_sessions: Map<u128, GameSession>,
    new_players: Map<u128, u128>,
    new_failures: Seq<(StoreCall, GameError)>,
    r: HandlerResponse,
) -> bool {
    exists|s: GameSession| #[trigger]
        fresh_started_session(config, player, s) && {
            ||| {
                &&& no_new_failure(failures, new_failures)
                &&& new_sessions == sessions.insert(s.game_id().0, s)
                &&& new_players == players.insert(player.0, s.game_id().0)
                &&& r.message is GameStarted
                &&& r.message->GameStarted_game_id@ == uuid_text(s.game_id().0)
                &&& r.message->GameStarted_target_time_ms == s.game_state()->Running_0.target_time.0
                &&& r.stream_control is StartTimer
            }
            ||| exists|e: GameError| #[trigger]
                failed_with(failures, new_failures, StoreCall::Save, e) && {
                    &&& at_most_adds(sessions, new_sessions, s)
                    &&& store_failure_reply(r, e)
                }
        }
}

/// The result of stopping the running session `s` at `client_ms`, scored
/// against the clock reading that the completed session `done` keeps.
pub open spec fn stop_result_of(s: GameSession, client_ms: u64, done: GameSession) -> GameResult {
    stop_result(
        s.game_state()->Running_0.target_time,
        AttemptTime(client_ms),
        millis_u64(done.game_state()->Completed_0.server_elapsed.measured()),
        s.validator().allowed_ms(),
    )
}

/// `done` is the running session `s` stopped at `client_ms`: completed, with
/// a reading of the server's clock measured from `s`'s start, and scored
/// against that reading.
pub open spec fn stopped_session(s: GameSession, client_ms: u64, done: GameSession) -> bool {
    let res = stop_result_of(s, client_ms, done);
    &&& done.same_but_state(&s)
    &&& done.game_state().phase() == Phase::Completed
    &&& done.game_state()->Completed_0.server_elapsed.start()
        == s.game_state()->Running_0.server_start_time.0
    &&& done.game_state()->Completed_0.target_time == res.target_time
    &&& done.game_state()->Completed_0.attempt_time == res.attempt_time
}

/// What a `StopTimer` from `player`, reporting `client_ms`, does: the
/// player's session is taken from the store. Where that lookup fails with
/// `e`, the reply is INTERNAL_ERROR with the text of `e`. Without a session
/// the reply is GAME_NOT_FOUND, and a session that is not running is
/// dropped with an INVALID_STATE reply. A running session is stopped and
/// stored back as completed; where that update succeeds the reply carries
/// the result (the client's time if within the allowance of the server's
/// measurement, else the server's) and the timer stream stops, and where it
/// fails with `e` the reply is INTERNAL_ERROR with the text of `e`.
pub open spec fn stop_timer_outcome(
    player: PlayerId,
    client_ms: u64,
    sessions: Map<u128, GameSession>,
    players: Map<u128, u128>,
    failures: Seq<(StoreCall, GameError)>,
    new_sessions: Map<u128, GameSession>,
    new_players: Map<u128, u128>,
    new_failures: Seq<(StoreCall, GameError)>,
    r: HandlerResponse,
) -> bool {
    let taken = sessions_after_take(sessions, players, player.0);
    ||| exists|e: GameError| #[trigger]
        failed_with(failures, new_failures, StoreCall::FindByPlayer, e) && {
            &&& at_most_removes(sessions, new_sessions)
            &&& store_failure_reply(r, e)
        }
    ||| match session_of_player(sessions, players, player.0) {
        None => {
            &&& no_new_failure(failures, new_failures)
            &&& new_sessions == taken
            &&& new_players == players
            &&& is_error_reply(r.message, ErrorCode::GameNotFound, "No active game"@)
            &&& r.stream_control is NoChange
        },
        Some(s) => if s.game_state().phase() != Phase::Running {
            &&& no_new_failure(failures, new_failures)
            &&& new_sessions == taken
            &&& new_players == players
            &&& is_error_reply(r.message, ErrorCode::InvalidState, "Game not running"@)
            &&& r.stream_control is NoChange
        } else {
            exists|done: GameSession| #[trigger]
                stopped_session(s, client_ms, done) && {
                    let res = stop_result_of(s, client_ms, done);
                    ||| {
                        &&& no_new_failure(failures, new_failures)
                        &&& new_sessions == taken.insert(s.game_id().0, done)
                        &&& new_players == players.insert(s.owner().0, s.game_id().0)
                        &&& r.message == (ServerMessage::GameResult {
                            target_time_ms: res.target_time.0,
                            your_time_ms: res.attempt_time.0,
                            difference_ms: res.difference_ms,
                            timing_valid: res.timing_valid,
                        })
                        &&& r.stream_control is StopTimer
                    }
                    ||| exists|e: GameError| #[trigger]
                        failed_with(failures, new_failures, StoreCall::Update, e) && {
                            &&& at_most_adds(taken, new_sessions, done)
                            &&& store_failure_reply(r, e)
                        }
                }
        },
    }
}

/// What a `PlayAgain` from `player` does: the player's session is taken from
/// the store. Where that lookup fails with `e`, the reply is INTERNAL_ERROR
/// with the text of `e`. Without a session the reply is GAME_NOT_FOUND. A
/// completed session is reset and deleted (a new one is made on the next
/// start) and the reply is `GameReset`, whether or not the deletion
/// succeeds; any other session is dropped with an INVALID_STATE reply that
/// names the refused transition.
pub open spec fn play_again_outcome(
    player: PlayerId,
    sessions: Map<u128, GameSession>,
    players: Map<u128, u128>,
    failures: Seq<(StoreCall, GameError)>,
    new_sessions: Map<u128, GameSession>,
    new_players: Map<u128, u128>,
    new_failures: Seq<(StoreCall, GameError)>,
    r: HandlerResponse,
) -> bool {
    let taken = sessions_after_take(sessions, players, player.0);
    ||| exists|e: GameError| #[trigger]
        failed_with(failures, new_failures, StoreCall::FindByPlayer, e) && {
            &&& at_most_removes(sessions, new_sessions)
            &&& store_failure_reply(r, e)
        }
    ||| {
        &&& r.stream_control is NoChange
        &&& match session_of_player(sessions, players, player.0) {
            None => {
                &&& no_new_failure(failures, new_failures)
                &&& new_sessions == taken
                &&& new_players == players
                &&& is_error_reply(r.message, ErrorCode::GameNotFound, "No game to reset"@)
            },
            Some(s) => if s.game_state().phase() == Phase::Completed {
                &&& r.message is GameReset
                &&& {
                    ||| {
                        &&& no_new_failure(failures, new_failures)
                        &&& new_sessions == taken.remove(s.game_id().0)
                        &&& new_players == players_after_delete(taken, players, s.game_id().0)
                    }
                    ||| exists|e: GameError| #[trigger]
                        failed_with(failures, new_failures, StoreCall::Delete, e)
                            && at_most_removes(taken, new_sessions)
                }
            } else {
                &&& no_new_failure(failures, new_failures)
                &&& new_sessions == taken
                &&& new_players == players
                &&& is_error_reply(
                    r.message,
                    ErrorCode::InvalidState,
                    transition_error_text(s.game_state().phase(), Action::Reset),
                )
            },
        }
    }
}

/// `r` answers a ping carrying `client_timestamp` when the server's clock
/// read `since_epoch` past the Unix epoch (`None`: the clock read before
/// it): a pong with the whole milliseconds of the reading, cut to 64 bits,
/// or else INTERNAL_ERROR.
pub open spec fn is_pong_reply(r: HandlerResponse, client_timestamp: u64, since_epoch: Option<
    Duration,
>) -> bool {
    &&& r.stream_control is NoChange
    &&& match since_epoch {
        Some(d) => r.message == (ServerMessage::Pong {
            client_timestamp,
            server_timestamp: millis_u64(d),
        }),
        None => is_error_reply(
            r.message,
            ErrorCode::InternalError,
            "System clock reads before the Unix epoch"@,
        ),
    }
}

/// What a `Ping` with `timestamp` does: the store is unchanged, and the reply
/// answers the ping for the reading of the server's clock that it carries.
pub open spec fn ping_outcome(
    timestamp: u64,
    sessions: Map<u128, GameSession>,
    players: Map<u128, u128>,
    new_sessions: Map<u128, GameSession>,
    new_players: Map<u128, u128>,
    r: HandlerResponse,
) -> bool {
    &&& new_sessions == sessions
    &&& new_players == players
    &&& r.clock_reading matches Some(reading) && is_pong_reply(r, timestamp, reading.value())
}

/// The reply to a ping carrying `client_timestamp`, given the server
/// clock's reading since the Unix epoch (`None` where the clock reads before
/// the epoch).
pub fn pong_reply(client_timestamp: u64, since_epoch: Option<Duration>) -> (r: HandlerResponse)
    ensures
        is_pong_reply(r, client_timestamp, since_epoch),
        r.clock_reading is None,
{
    match since_epoch {
        Some(since_epoch) => {
            let server_timestamp = duration_as_millis(&since_epoch) as u64;
            HandlerResponse::message_only(ServerMessage::Pong { client_timestamp, server_timestamp })
        },
        None => HandlerResponse::message_only(
            error_response(ErrorCode::InternalError, "System clock reads before the Unix epoch"),
        ),
    }
}

/// An error message with the given code and text.
fn error_response(code: ErrorCode, message: &str) -> (m: ServerMessage)
    ensures
        is_error_reply(m, code, message@),
{
    ServerMessage::Error { code: String::from_str(code.as_str()), message: String::from_str(message) }
}

/// The reply to a store call that failed with `e`.
fn store_failure(e: GameError) -> (r: HandlerResponse)
    ensures
        store_failure_reply(r, e),
{
    HandlerResponse::message_only(error_response(ErrorCode::InternalError, e.message().as_str()))
}

proof fn lemma_fit_after_adds(
    before: Map<u128, GameSession>,
    after: Map<u128, GameSession>,
    added: GameSession,
)
    requires
        allowances_fit(before),
        at_most_adds(before, after, added),
        added.validator().allowed_ms() <= u64::MAX,
    ensures
        allowances_fit(after),
{
    assert forall|id: u128| #[trigger] after.contains_key(id) implies after[id].validator().allowed_ms()
        <= u64::MAX by {
        if before.contains_key(id) && after[id] == before[id] {
            assert(before.contains_key(id));
        }
    }
}

proof fn lemma_fit_after_removes(before: Map<u128, GameSession>, after: Map<u128, GameSession>)
    requires
        allowances_fit(before),
        at_most_removes(before, after),
    ensures
        allowances_fit(after),
{
    assert forall|id: u128| #[trigger] after.contains_key(id) implies after[id].validator().allowed_ms()
        <= u64::MAX by {
        assert(before.contains_key(id));
    }
}

proof fn lemma_take_removes(sessions: Map<u128, GameSession>, players: Map<u128, u128>, player: u128)
    ensures
        at_most_removes(sessions, sessions_after_take(sessions, players, player)),
        session_of_player(sessions, players, player) matches Some(s) ==> at_most_adds(
            sessions_after_take(sessions, players, player),
            sessions,
            s,
        ),
{
}

/// Command handler - processes incoming messages and produces responses,
/// keeping sessions in the store `R`.
pub struct MessageHandler<R: GameSessionRepository> {
    factory: Arc<GameSessionFactory>,
    repository: R,
}

impl<R: GameSessionRepository> MessageHandler<R> {
    /// The configuration of the sessions that the handler creates.
    pub closed spec fn factory_config(&self) -> GameConfig {
        self.factory.config()
    }

    /// The stored sessions, by game identifier.
    pub closed spec fn sessions(&self) -> Map<u128, GameSession> {
        self.repository.sessions()
    }

    /// The active game of each player, by player identifier.
    pub closed spec fn player_sessions(&self) -> Map<u128, u128> {
        self.repository.player_sessions()
    }

    /// The store's operations always succeed.
    pub closed spec fn store_never_fails(&self) -> bool {
        self.repository.never_fails()
    }

    /// The store's record of failed calls, each with its error.
    pub closed spec fn store_failures(&self) -> Seq<(StoreCall, GameError)> {
        self.repository.failures()
    }

    /// What handling `message` from `player_id` needs: a start needs a
    /// non-empty target range (drawing from an empty one panics), and a stop
    /// of a running session needs its tolerance plus latency to fit in 64
    /// bits (adding them up would overflow otherwise).
    pub open spec fn can_handle(&self, player_id: PlayerId, message: ClientMessage) -> bool {
        &&& message is StartGame ==> self.factory_config().target_range_nonempty()
        &&& message is StopTimer ==> match session_of_player(
            self.sessions(),
            self.player_sessions(),
            player_id.0,
        ) {
            Some(s) => s.game_state().phase() == Phase::Running ==> s.validator().allowed_ms()
                <= u64::MAX,
            None => true,
        }
    }

    /// A handler whose factory's configuration is valid and whose stored
    /// sessions all have allowances that fit can handle every message, and
    /// stays so (see `handled`).
    pub open spec fn wf(&self) -> bool {
        &&& self.factory_config().valid()
        &&& allowances_fit(self.sessions())
    }

    pub proof fn lemma_wf_can_handle(&self, player_id: PlayerId, message: ClientMessage)
        requires
            self.wf(),
        ensures
            self.can_handle(player_id, message),
    {
        match session_of_player(self.sessions(), self.player_sessions(), player_id.0) {
            Some(s) => {
                assert(self.sessions().contains_key(self.player_sessions()[player_id.0]));
            },
            None => {},
        }
    }

    pub fn new(factory: Arc<GameSessionFactory>, repository: R) -> (h: Self)
        ensures
            h.factory_config() == factory.config(),
            h.sessions() == repository.sessions(),
            h.player_sessions() == repository.player_sessions(),
            h.store_never_fails() == repository.never_fails(),
            h.store_failures() == repository.failures(),
    {
        MessageHandler { factory, repository }
    }

    /// `after` and `r` are what handling `message` from `player_id` in
    /// `before` leads to.
    pub open spec fn handled(
        before: Self,
        player_id: PlayerId,
        message: ClientMessage,
        after: Self,
        r: HandlerResponse,
    ) -> bool {
        &&& after.factory_config() == before.factory_config()
        &&& after.store_never_fails() == before.store_never_fails()
        &&& (before.store_never_fails() ==> after.store_failures() == before.store_failures())
        &&& (before.wf() ==> after.wf())
        &&& match message {
            ClientMessage::StartGame => start_game_outcome(
                before.factory_config(),
                player_id,
                before.sessions(),
                before.player_sessions(),
                before.store_failures(),
                after.sessions(),
                after.player_sessions(),
                after.store_failures(),
                r,
            ),
            ClientMessage::StopTimer { client_time_ms } => stop_timer_outcome(
                player_id,
                client_time_ms,
                before.sessions(),
                before.player_sessions(),
                before.store_failures(),
                after.sessions(),
                after.player_sessions(),
                after.store_failures(),
                r,
            ),
            ClientMessage::PlayAgain => play_again_outcome(
                player_id,
                before.sessions(),
                before.player_sessions(),
                before.store_failures(),
                after.sessions(),
                after.player_sessions(),
                after.store_failures(),
                r,
            ),
            ClientMessage::Ping { timestamp } => {
                &&& after.store_failures() == before.store_failures()
                &&& ping_outcome(
                    timestamp,
                    before.sessions(),
                    before.player_sessions(),
                    after.sessions(),
                    after.player_sessions(),
                    r,
                )
            },
        }
    }

    /// Handle an incoming client message.
    pub fn handle(&mut self, player_id: PlayerId, message: ClientMessage) -> (r: HandlerResponse)
        requires
            old(self).can_handle(player_id, message),
        ensures
            Self::handled(*old(self), player_id, message, *final(self), r),
    {
        match message {
            ClientMessage::StartGame => self.handle_start_game(player_id),
            ClientMessage::StopTimer { client_time_ms } => {
                self.handle_stop_timer(player_id, client_time_ms)
            },
            ClientMessage::PlayAgain => self.handle_play_again(player_id),
            ClientMessage::Ping { timestamp } => self.handle_ping(timestamp),
        }
    }

    fn handle_start_game(&mut self, player_id: PlayerId) -> (r: HandlerResponse)
        requires
            old(self).factory_config().target_range_nonempty(),
        ensures
            Self::handled(*old(self), player_id, ClientMessage::StartGame, *final(self), r),
    {
        // Create new game session
        let mut session = self.factory.create(player_id);

        match session.start() {
            Ok(target_time) => {
                let game_id = session.id;
                proof {
                    session.lemma_identifiers();
                }
                let ghost saved = session;
                assert(fresh_started_session(self.factory_config(), player_id, saved));
                // Capture start time for streaming
                let start_time = instant_now();

                // Save session
                match self.repository.save(session) {
                    Err(e) => {
                        proof {
                            if old(self).wf() {
                                lemma_fit_after_adds(old(self).sessions(), self.sessions(), saved);
                            }
                        }
                        return store_failure(e);
                    },
                    Ok(_) => {},
                }

                let r = HandlerResponse::with_start_timer(
                    ServerMessage::GameStarted {
                        game_id: game_id.to_uuid_string(),
                        target_time_ms: target_time.as_millis(),
                    },
                    start_time,
                );
                proof {
                    if old(self).wf() {
                        lemma_fit_after_adds(old(self).sessions(), self.sessions(), saved);
                    }
                }
                r
            },
            Err(e) => {
                HandlerResponse::message_only(
                    error_response(ErrorCode::InvalidState, e.message().as_str()),
                )
            },
        }
    }

    fn handle_stop_timer(&mut self, player_id: PlayerId, client_time_ms: u64) -> (r:
        HandlerResponse)
        requires
            old(self).can_handle(player_id, ClientMessage::StopTimer { client_time_ms }),
        ensures
            Self::handled(
                *old(self),
                player_id,
                ClientMessage::StopTimer { client_time_ms },
                *final(self),
                r,
            ),
    {
        proof {
            lemma_take_removes(old(self).sessions(), old(self).player_sessions(), player_id.0);
        }
        // Find player's active session (this takes ownership)
        let session = match self.repository.find_by_player(player_id) {
            Ok(Some(s)) => s,
            Ok(None) => {
                return HandlerResponse::message_only(
                    error_response(ErrorCode::GameNotFound, "No active game"),
                );
            },
            Err(e) => {
                proof {
                    if old(self).wf() {
                        lemma_fit_after_removes(old(self).sessions(), self.sessions());
                    }
                }
                return store_failure(e);
            },
        };
        proof {
            if old(self).wf() {
                lemma_fit_after_removes(old(self).sessions(), self.sessions());
            }
        }

        let mut session = session;
        let ghost found = session;

        // Verify game is in running state
        if !matches!(session.state(), GameState::Running(_)) {
            return HandlerResponse::message_only(
                error_response(ErrorCode::InvalidState, "Game not running"),
            );
        }

        let client_time = AttemptTime(client_time_ms);

        match session.stop(client_time) {
            Ok(result) => {
                proof {
                    session.lemma_identifiers();
                    found.lemma_identifiers();
                    assert(stopped_session(found, client_time_ms, session));
                }
                let ghost done = session;
                let ghost taken = self.sessions();
                // Update session in storage
                match self.repository.update(session) {
                    Err(e) => {
                        proof {
                            if old(self).wf() {
                                lemma_fit_after_adds(taken, self.sessions(), done);
                            }
                        }
                        return store_failure(e);
                    },
                    Ok(_) => {},
                }
                proof {
                    if old(self).wf() {
                        lemma_fit_after_adds(taken, self.sessions(), done);
                    }
                }

                HandlerResponse::with_stop_timer(
                    ServerMessage::GameResult {
                        target_time_ms: result.target_time.as_millis(),
                        your_time_ms: result.attempt_time.as_millis(),
                        difference_ms: result.difference_ms,
                        timing_valid: result.timing_valid,
                    },
                )
            },
            Err(e) => {
                HandlerResponse::message_only(
                    error_response(ErrorCode::InvalidState, e.message().as_str()),
                )
            },
        }
    }

    fn handle_play_again(&mut self, player_id: PlayerId) -> (r: HandlerResponse)
        ensures
            Self::handled(*old(self), player_id, ClientMessage::PlayAgain, *final(self), r),
    {
        proof {
            lemma_take_removes(old(self).sessions(), old(self).player_sessions(), player_id.0);
        }
        // Find player's session
        let session = match self.repository.find_by_player(player_id) {
            Ok(Some(s)) => s,
            Ok(None) => {
                return HandlerResponse::message_only(
                    error_response(ErrorCode::GameNotFound, "No game to reset"),
                );
            },
            Err(e) => {
                proof {
                    if old(self).wf() {
                        lemma_fit_after_removes(old(self).sessions(), self.sessions());
                    }
                }
                return store_failure(e);
            },
        };
        proof {
            if old(self).wf() {
                lemma_fit_after_removes(old(self).sessions(), self.sessions());
            }
        }

        let mut session = session;
        let ghost taken = self.sessions();

        match session.reset() {
            Ok(()) => {
                proof {
                    session.lemma_identifiers();
                }
                // Delete old session - a new one will be created on StartGame
                let _ = self.repository.delete(session.id);
                proof {
                    if old(self).wf() {
                        lemma_fit_after_removes(taken, self.sessions());
                    }
                }
                HandlerResponse::message_only(ServerMessage::GameReset)
            },
            Err(e) => {
                HandlerResponse::message_only(
                    error_response(ErrorCode::InvalidState, e.message().as_str()),
                )
            },
        }
    }

    fn handle_ping(&self, client_timestamp: u64) -> (r: HandlerResponse)
        ensures
            ping_outcome(
                client_timestamp,
                self.sessions(),
                self.player_sessions(),
                self.sessions(),
                self.player_sessions(),
                r,
            ),
    {
        let now = system_time_now();
        let reading = duration_since_unix_epoch(&now);
        let mut r = pong_reply(client_timestamp, reading.since_epoch());
        r.clock_reading = Some(reading);
        r
    }
}

} // verus!
