//! Properties of the library that span several functions or calls.

use vstd::prelude::*;

use crate::error::{error_text, GameError};
use crate::clock::millis_u64;
use crate::game::{
    difference_millis, GameResult, GameState, is_default_config, is_transition_error, stop_result, transition,
    transition_error_text, Action, AttemptTime, GameConfig, GameSession, Phase, PlayerId,
    TargetTime,
};

use crate::messages::{
    fresh_started_session, stop_result_of, stopped_session, store_failure_reply, ClientMessage,
    HandlerResponse, MessageHandler,
};
use crate::storage::{at_most_adds, failed_with, no_new_failure, GameSessionRepository, StoreCall};
use crate::storage::{players_after_delete, session_of_player, sessions_after_take};
use crate::validation::timing_within;

verus! {

// ---------------------------------------------------------------------------
// The state machine
// ---------------------------------------------------------------------------

/// From every phase exactly one action is allowed: start from Idle, stop
/// from Running, reset from Completed.
pub proof fn law_one_action_per_phase(phase: Phase, a: Action, b: Action)
    requires
        transition(phase, a) is Some,
        transition(phase, b) is Some,
    ensures
        a == b,
{
}

/// Every phase allows some action: the machine never gets stuck.
pub proof fn law_no_dead_phase(phase: Phase)
    ensures
        exists|a: Action| #[trigger] transition(phase, a) is Some,
{
    match phase {
        Phase::Idle => assert(transition(phase, Action::Start) is Some),
        Phase::Running => assert(transition(phase, Action::Stop) is Some),
        Phase::Completed => assert(transition(phase, Action::Reset) is Some),
    }
}

/// Start, stop and reset, in that order, lead from Idle back to Idle.
pub proof fn law_round_trip()
    ensures
        transition(Phase::Idle, Action::Start) == Some(Phase::Running),
        transition(Phase::Running, Action::Stop) == Some(Phase::Completed),
        transition(Phase::Completed, Action::Reset) == Some(Phase::Idle),
{
}

/// The message of a refused transition names the action and the phase it
/// was refused in.
pub proof fn law_transition_error_message(e: crate::error::GameError, phase: Phase, a: Action)
    requires
        is_transition_error(e, phase, a),
    ensures
        error_text(e) == transition_error_text(phase, a),
{
}

// ---------------------------------------------------------------------------
// Timing validation
// ---------------------------------------------------------------------------

/// Validation is symmetric: it does not matter which of the two times is the
/// client's.
pub proof fn law_timing_symmetric(a: u64, b: u64, allowed: int)
    ensures
        timing_within(a, b, allowed) == timing_within(b, a, allowed),
{
}

/// A larger allowance accepts every time that a smaller one accepts.
pub proof fn law_timing_monotone(client: u64, server: u64, smaller: int, larger: int)
    requires
        smaller <= larger,
        timing_within(client, server, smaller),
    ensures
        timing_within(client, server, larger),
{
}

/// A client time equal to the server's measurement is always accepted.
pub proof fn law_timing_exact_accepted(ms: u64, allowed: int)
    requires
        0 <= allowed,
    ensures
        timing_within(ms, ms, allowed),
{
}

// ---------------------------------------------------------------------------
// Results
// ---------------------------------------------------------------------------

/// A result counts the client's time when it is valid and the server's when
/// it is not, and always keeps the target.
pub proof fn law_result_time_source(target: TargetTime, client: AttemptTime, server_ms: u64, allowed: int)
    ensures
        stop_result(target, client, server_ms, allowed).target_time == target,
        stop_result(target, client, server_ms, allowed).timing_valid ==> stop_result(
            target,
            client,
            server_ms,
            allowed,
        ).attempt_time == client,
        !stop_result(target, client, server_ms, allowed).timing_valid ==> stop_result(
            target,
            client,
            server_ms,
            allowed,
        ).attempt_time == AttemptTime(server_ms),
{
}

/// Within the range of `i64`, the difference is the exact signed difference
/// of attempt and target.
pub proof fn law_difference_exact(attempt: u64, target: u64)
    requires
        attempt <= i64::MAX,
        target <= i64::MAX,
    ensures
        difference_millis(attempt, target) == attempt - target,
{
    assert(attempt as i64 == attempt) by (bit_vector)
        requires
            attempt <= i64::MAX,
    ;
    assert(target as i64 == target) by (bit_vector)
        requires
            target <= i64::MAX,
    ;
}

// ---------------------------------------------------------------------------
// Configuration
// ---------------------------------------------------------------------------

/// The default configuration is one that sessions can run on.
pub proof fn law_default_config_valid(c: GameConfig)
    requires
        is_default_config(c),
    ensures
        c.valid(),
{
}

// ---------------------------------------------------------------------------
// The session store
// ---------------------------------------------------------------------------

/// Read after write: a lookup by player right after saving a session takes
/// out exactly that session, and leaves the store as it was before the save,
/// minus any session that was stored under the same identifier.
pub proof fn law_find_after_save(
    sessions: Map<u128, GameSession>,
    players: Map<u128, u128>,
    s: GameSession,
)
    ensures
        session_of_player(
            sessions.insert(s.game_id().0, s),
            players.insert(s.owner().0, s.game_id().0),
            s.owner().0,
        ) == Some(s),
        sessions_after_take(
            sessions.insert(s.game_id().0, s),
            players.insert(s.owner().0, s.game_id().0),
            s.owner().0,
        ) == sessions.remove(s.game_id().0),
{
    assert(sessions.insert(s.game_id().0, s).remove(s.game_id().0) =~= sessions.remove(
        s.game_id().0,
    ));
}

/// A lookup by player takes the session out: a second lookup finds nothing.
pub proof fn law_find_takes_session(
    sessions: Map<u128, GameSession>,
    players: Map<u128, u128>,
    player: u128,
)
    ensures
        session_of_player(sessions_after_take(sessions, players, player), players, player) is None,
{
}

/// Putting back the session that a lookup took out restores the store.
pub proof fn law_take_then_put_back(
    sessions: Map<u128, GameSession>,
    players: Map<u128, u128>,
    player: u128,
)
    requires
        session_of_player(sessions, players, player) is Some,
    ensures
        sessions_after_take(sessions, players, player).insert(
            players[player],
            session_of_player(sessions, players, player)->0,
        ) == sessions,
{
    assert(sessions_after_take(sessions, players, player).insert(
        players[player],
        session_of_player(sessions, players, player)->0,
    ) =~= sessions);
}

/// Deleting a session that a lookup has already taken out leaves the
/// player's entry in place: the index keeps pointing at the deleted game.
pub proof fn law_delete_after_take_keeps_entry(
    sessions: Map<u128, GameSession>,
    players: Map<u128, u128>,
    player: u128,
)
    requires
        players.contains_key(player),
    ensures
        players_after_delete(sessions_after_take(sessions, players, player), players, players[player])
            == players,
{
}

// ---------------------------------------------------------------------------
// The message handler
// ---------------------------------------------------------------------------

/// A call that records no failure is not a failed call.
proof fn lemma_unchanged_record_no_failure(f: Seq<(StoreCall, GameError)>)
    ensures
        forall|call: StoreCall, e: GameError| #![trigger failed_with(f, f, call, e)]
            !failed_with(f, f, call, e),
{
    assert forall|call: StoreCall, e: GameError| #![trigger failed_with(f, f, call, e)]
        !failed_with(f, f, call, e) by {
        assert(f.push((call, e)).len() == f.len() + 1);
    }
}

/// The session that a `StartGame` stored, as the handler's contract gives it
/// for a store that never fails.
proof fn started_session<R: GameSessionRepository>(
    h0: MessageHandler<R>,
    h1: MessageHandler<R>,
    player: PlayerId,
    r1: HandlerResponse,
) -> (s: GameSession)
    requires
        h0.store_never_fails(),
        MessageHandler::handled(h0, player, ClientMessage::StartGame, h1, r1),
    ensures
        s.owner() == player,
        s.game_state().phase() == Phase::Running,
        h1.sessions() == h0.sessions().insert(s.game_id().0, s),
        h1.player_sessions() == h0.player_sessions().insert(player.0, s.game_id().0),
        session_of_player(h1.sessions(), h1.player_sessions(), player.0) == Some(s),
        r1.message is GameStarted,
        r1.message->GameStarted_target_time_ms == s.game_state()->Running_0.target_time.0,
{
    lemma_unchanged_record_no_failure(h0.store_failures());
    let s = choose|s: GameSession| #[trigger]
        fresh_started_session(h0.factory_config(), player, s) && {
            ||| {
                &&& no_new_failure(h0.store_failures(), h1.store_failures())
                &&& h1.sessions() == h0.sessions().insert(s.game_id().0, s)
                &&& h1.player_sessions() == h0.player_sessions().insert(player.0, s.game_id().0)
                &&& r1.message is GameStarted
                &&& r1.message->GameStarted_game_id@ == crate::game::uuid_text(s.game_id().0)
                &&& r1.message->GameStarted_target_time_ms == s.game_state()->Running_0.target_time.0
                &&& r1.stream_control is StartTimer
            }
            ||| exists|e: GameError| #[trigger]
                failed_with(h0.store_failures(), h1.store_failures(), StoreCall::Save, e) && {
                    &&& at_most_adds(h0.sessions(), h1.sessions(), s)
                    &&& store_failure_reply(r1, e)
                }
        };
    s
}

/// The completed session that a `StopTimer` stored back, as the handler's
/// contract gives it for a store that never fails, for a player whose
/// running session is `s`.
proof fn stopped_session_of<R: GameSessionRepository>(
    h1: MessageHandler<R>,
    h2: MessageHandler<R>,
    player: PlayerId,
    client_ms: u64,
    s: GameSession,
    r2: HandlerResponse,
) -> (done: GameSession)
    requires
        h1.store_never_fails(),
        session_of_player(h1.sessions(), h1.player_sessions(), player.0) == Some(s),
        s.game_state().phase() == Phase::Running,
        MessageHandler::handled(h1, player, ClientMessage::StopTimer { client_time_ms: client_ms }, h2, r2),
    ensures
        done.same_but_state(&s),
        done.game_state().phase() == Phase::Completed,
        h2.sessions() == sessions_after_take(h1.sessions(), h1.player_sessions(), player.0).insert(
            s.game_id().0,
            done,
        ),
        h2.player_sessions() == h1.player_sessions().insert(s.owner().0, s.game_id().0),
        r2.message is GameResult,
        r2.message->GameResult_target_time_ms == s.game_state()->Running_0.target_time.0,
        r2.stream_control is StopTimer,
{
    lemma_unchanged_record_no_failure(h1.store_failures());
    let taken = sessions_after_take(h1.sessions(), h1.player_sessions(), player.0);
    let done = choose|done: GameSession| #[trigger]
        stopped_session(s, client_ms, done) && {
            let res = stop_result_of(s, client_ms, done);
            ||| {
                &&& no_new_failure(h1.store_failures(), h2.store_failures())
                &&& h2.sessions() == taken.insert(s.game_id().0, done)
                &&& h2.player_sessions() == h1.player_sessions().insert(s.owner().0, s.game_id().0)
                &&& r2.message == (crate::messages::ServerMessage::GameResult {
                    target_time_ms: res.target_time.0,
                    your_time_ms: res.attempt_time.0,
                    difference_ms: res.difference_ms,
                    timing_valid: res.timing_valid,
                })
                &&& r2.stream_control is StopTimer
            }
            ||| exists|e: GameError| #[trigger]
                failed_with(h1.store_failures(), h2.store_failures(), StoreCall::Update, e) && {
                    &&& at_most_adds(taken, h2.sessions(), done)
                    &&& store_failure_reply(r2, e)
                }
        };
    done
}

/// A game that was started can be stopped: with a store that never fails,
/// the `StopTimer` that follows a `GameStarted` reply is answered with the
/// result for the same target, and stops the timer stream.
pub proof fn law_start_then_stop<R: GameSessionRepository>(
    h0: MessageHandler<R>,
    h1: MessageHandler<R>,
    h2: MessageHandler<R>,
    player: PlayerId,
    client_ms: u64,
    r1: HandlerResponse,
    r2: HandlerResponse,
)
    requires
        h0.store_never_fails(),
        MessageHandler::handled(h0, player, ClientMessage::StartGame, h1, r1),
        MessageHandler::handled(h1, player, ClientMessage::StopTimer { client_time_ms: client_ms }, h2, r2),
    ensures
        r1.message is GameStarted,
        r2.message is GameResult,
        r2.message->GameResult_target_time_ms == r1.message->GameStarted_target_time_ms,
        r2.stream_control is StopTimer,
{
    let s = started_session(h0, h1, player, r1);
    let done = stopped_session_of(h1, h2, player, client_ms, s, r2);
}

/// A stopped game cannot be stopped again: with a store that never fails,
/// after start and stop a second `StopTimer` is refused with INVALID_STATE,
/// "Game not running".
pub proof fn law_second_stop_refused<R: GameSessionRepository>(
    h0: MessageHandler<R>,
    h1: MessageHandler<R>,
    h2: MessageHandler<R>,
    h3: MessageHandler<R>,
    player: PlayerId,
    first_ms: u64,
    second_ms: u64,
    r1: HandlerResponse,
    r2: HandlerResponse,
    r3: HandlerResponse,
)
    requires
        h0.store_never_fails(),
        MessageHandler::handled(h0, player, ClientMessage::StartGame, h1, r1),
        MessageHandler::handled(h1, player, ClientMessage::StopTimer { client_time_ms: first_ms }, h2, r2),
        MessageHandler::handled(h2, player, ClientMessage::StopTimer { client_time_ms: second_ms }, h3, r3),
    ensures
        crate::messages::is_error_reply(r3.message, crate::messages::ErrorCode::InvalidState, "Game not running"@),
        r3.stream_control is NoChange,
{
    let s = started_session(h0, h1, player, r1);
    let done = stopped_session_of(h1, h2, player, first_ms, s, r2);
    assert(session_of_player(h2.sessions(), h2.player_sessions(), player.0) == Some(done));
    lemma_unchanged_record_no_failure(h2.store_failures());
}

/// After start and stop, `PlayAgain` resets the game: with a store that
/// never fails, the reply is `GameReset` and the player has no session left
/// to find.
pub proof fn law_stop_then_play_again<R: GameSessionRepository>(
    h0: MessageHandler<R>,
    h1: MessageHandler<R>,
    h2: MessageHandler<R>,
    h3: MessageHandler<R>,
    player: PlayerId,
    client_ms: u64,
    r1: HandlerResponse,
    r2: HandlerResponse,
    r3: HandlerResponse,
)
    requires
        h0.store_never_fails(),
        MessageHandler::handled(h0, player, ClientMessage::StartGame, h1, r1),
        MessageHandler::handled(h1, player, ClientMessage::StopTimer { client_time_ms: client_ms }, h2, r2),
        MessageHandler::handled(h2, player, ClientMessage::PlayAgain, h3, r3),
    ensures
        r3.message is GameReset,
        r3.stream_control is NoChange,
        session_of_player(h3.sessions(), h3.player_sessions(), player.0) is None,
{
    let s = started_session(h0, h1, player, r1);
    let done = stopped_session_of(h1, h2, player, client_ms, s, r2);
    assert(session_of_player(h2.sessions(), h2.player_sessions(), player.0) == Some(done));
    lemma_unchanged_record_no_failure(h2.store_failures());
}

/// Without a game, `StopTimer` is answered GAME_NOT_FOUND ("No active game")
/// and `PlayAgain` GAME_NOT_FOUND ("No game to reset"), and neither changes
/// the store, where the store never fails.
pub proof fn law_no_game_not_found<R: GameSessionRepository>(
    h0: MessageHandler<R>,
    h1: MessageHandler<R>,
    player: PlayerId,
    message: ClientMessage,
    r: HandlerResponse,
)
    requires
        h0.store_never_fails(),
        !h0.player_sessions().contains_key(player.0),
        message is StopTimer || message is PlayAgain,
        MessageHandler::handled(h0, player, message, h1, r),
    ensures
        message is StopTimer ==> crate::messages::is_error_reply(
            r.message,
            crate::messages::ErrorCode::GameNotFound,
            "No active game"@,
        ),
        message is PlayAgain ==> crate::messages::is_error_reply(
            r.message,
            crate::messages::ErrorCode::GameNotFound,
            "No game to reset"@,
        ),
        h1.sessions() == h0.sessions(),
        h1.player_sessions() == h0.player_sessions(),
{
    lemma_unchanged_record_no_failure(h0.store_failures());
}

/// The handler's invariant (a valid configuration, and every stored
/// session's allowance fits in 64 bits) holds on after every message, even
/// one whose store calls fail, so the next message can always be handled.
pub proof fn law_handler_invariant<R: GameSessionRepository>(
    h0: MessageHandler<R>,
    h1: MessageHandler<R>,
    player: PlayerId,
    message: ClientMessage,
    r: HandlerResponse,
)
    requires
        h0.wf(),
        MessageHandler::handled(h0, player, message, h1, r),
    ensures
        h1.wf(),
        h1.can_handle(player, message),
{
    h1.lemma_wf_can_handle(player, message);
}

/// A ping is answered with the client's timestamp and the whole
/// milliseconds of the server clock's reading since the Unix epoch, and
/// changes nothing in the store.
pub proof fn law_ping_reply<R: GameSessionRepository>(
    h0: MessageHandler<R>,
    h1: MessageHandler<R>,
    player: PlayerId,
    timestamp: u64,
    r: HandlerResponse,
)
    requires
        MessageHandler::handled(h0, player, ClientMessage::Ping { timestamp }, h1, r),
    ensures
        h1.sessions() == h0.sessions(),
        h1.player_sessions() == h0.player_sessions(),
        r.clock_reading is Some,
        r.stream_control is NoChange,
        r.clock_reading->0.value() matches Some(d) ==> r.message == (
        crate::messages::ServerMessage::Pong { client_timestamp: timestamp, server_timestamp: millis_u64(d) }),
        r.clock_reading->0.value() is None ==> crate::messages::is_error_reply(
            r.message,
            crate::messages::ErrorCode::InternalError,
            "System clock reads before the Unix epoch"@,
        ),
{
}

// ---------------------------------------------------------------------------
// Clock readings
// ---------------------------------------------------------------------------

/// Stopping a running game records a reading of the server's clock that
/// measures from the instant the game started, and keeps the target and
/// the attempt.
pub proof fn law_state_stop_measures_from_start(
    before: GameState,
    attempt: AttemptTime,
    after: GameState,
)
    requires
        GameState::stop_outcome(before, attempt, Ok(after)),
    ensures
        before is Running,
        after is Completed,
        after->Completed_0.server_elapsed.start() == before->Running_0.server_start_time.0,
        after->Completed_0.target_time == before->Running_0.target_time,
        after->Completed_0.attempt_time == attempt,
{
}

/// A stopped session is scored against the server's own measurement since
/// the round started: the client's time is valid exactly when it lies
/// within the allowance of the milliseconds that the server's clock measured
/// from the start; a valid time is used as given, an invalid one is replaced
/// by the server's milliseconds; the difference is attempt minus target; and
/// the session keeps that measurement and the attempt used.
pub proof fn law_session_stop_scores_against_server_time(
    before: GameSession,
    client: AttemptTime,
    after: GameSession,
    res: GameResult,
)
    requires
        GameSession::stop_outcome(before, client, after, Ok(res)),
    ensures
        ({
            let reading = after.game_state()->Completed_0.server_elapsed;
            let server_ms = millis_u64(reading.measured());
            let target = before.game_state()->Running_0.target_time;
            &&& before.game_state() is Running
            &&& reading.start() == before.game_state()->Running_0.server_start_time.0
            &&& res.timing_valid == timing_within(client.0, server_ms, before.validator().allowed_ms())
            &&& res.attempt_time == (if res.timing_valid {
                client
            } else {
                AttemptTime(server_ms)
            })
            &&& res.target_time == target
            &&& res.difference_ms == difference_millis(res.attempt_time.0, target.0)
            &&& after.game_state()->Completed_0.attempt_time == res.attempt_time
        }),
{
}

} // verus!
