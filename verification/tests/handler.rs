use std::sync::Arc;
use std::time::Duration;

use backend::game::{GameConfig, GameSessionFactory, PlayerId};
use backend::messages::{pong_reply, ClientMessage, HandlerResponse, MessageHandler, ServerMessage, StreamControl};
use backend::storage::InMemoryGameSessionRepository;

fn handler() -> MessageHandler<InMemoryGameSessionRepository> {
    MessageHandler::new(
        Arc::new(GameSessionFactory::new(GameConfig::default())),
        InMemoryGameSessionRepository::new(),
    )
}

fn error_of(r: &HandlerResponse) -> (String, String) {
    match &r.message {
        ServerMessage::Error { code, message } => (code.clone(), message.clone()),
        other => panic!("expected an error, got {:?}", other),
    }
}

fn started_target(r: &HandlerResponse) -> u64 {
    match &r.message {
        ServerMessage::GameStarted { target_time_ms, .. } => *target_time_ms,
        other => panic!("expected GameStarted, got {:?}", other),
    }
}

#[test]
fn start_game_announces_game_and_starts_timer() {
    let mut h = handler();
    let r = h.handle(PlayerId(1), ClientMessage::StartGame);
    match &r.message {
        ServerMessage::GameStarted { game_id, target_time_ms } => {
            assert_eq!(game_id.len(), 36);
            assert_eq!(&game_id[14..15], "4");
            assert!((1000..=10000).contains(target_time_ms));
        }
        other => panic!("expected GameStarted, got {:?}", other),
    }
    assert!(matches!(r.stream_control, StreamControl::StartTimer { .. }));
}

#[test]
fn start_then_stop_reports_result_for_same_target() {
    let mut h = handler();
    let p = PlayerId(1);
    let target = started_target(&h.handle(p, ClientMessage::StartGame));
    let r = h.handle(p, ClientMessage::StopTimer { client_time_ms: 0 });
    match r.message {
        ServerMessage::GameResult { target_time_ms, your_time_ms, difference_ms, timing_valid } => {
            assert_eq!(target_time_ms, target);
            assert!(timing_valid);
            assert_eq!(your_time_ms, 0);
            assert_eq!(difference_ms, -(target as i64));
        }
        other => panic!("expected GameResult, got {:?}", other),
    }
    assert!(matches!(r.stream_control, StreamControl::StopTimer));
}

#[test]
fn implausible_client_time_is_replaced_by_server_time() {
    let mut h = handler();
    let p = PlayerId(1);
    let target = started_target(&h.handle(p, ClientMessage::StartGame));
    let r = h.handle(p, ClientMessage::StopTimer { client_time_ms: 60_000 });
    match r.message {
        ServerMessage::GameResult { your_time_ms, difference_ms, timing_valid, .. } => {
            assert!(!timing_valid);
            assert!(your_time_ms < 5_000);
            assert_eq!(difference_ms, your_time_ms as i64 - target as i64);
        }
        other => panic!("expected GameResult, got {:?}", other),
    }
}

#[test]
fn stop_without_game_is_not_found() {
    let mut h = handler();
    let r = h.handle(PlayerId(9), ClientMessage::StopTimer { client_time_ms: 5 });
    assert_eq!(error_of(&r), ("GAME_NOT_FOUND".to_string(), "No active game".to_string()));
    assert!(matches!(r.stream_control, StreamControl::NoChange));
}

#[test]
fn play_again_without_game_is_not_found() {
    let mut h = handler();
    let r = h.handle(PlayerId(9), ClientMessage::PlayAgain);
    assert_eq!(error_of(&r), ("GAME_NOT_FOUND".to_string(), "No game to reset".to_string()));
}

#[test]
fn second_stop_is_refused() {
    let mut h = handler();
    let p = PlayerId(1);
    h.handle(p, ClientMessage::StartGame);
    h.handle(p, ClientMessage::StopTimer { client_time_ms: 0 });
    let r = h.handle(p, ClientMessage::StopTimer { client_time_ms: 0 });
    assert_eq!(error_of(&r), ("INVALID_STATE".to_string(), "Game not running".to_string()));
    // the refused session was taken out of the store and dropped
    let r = h.handle(p, ClientMessage::StopTimer { client_time_ms: 0 });
    assert_eq!(error_of(&r), ("GAME_NOT_FOUND".to_string(), "No active game".to_string()));
}

#[test]
fn play_again_after_result_resets() {
    let mut h = handler();
    let p = PlayerId(1);
    h.handle(p, ClientMessage::StartGame);
    h.handle(p, ClientMessage::StopTimer { client_time_ms: 0 });
    let r = h.handle(p, ClientMessage::PlayAgain);
    assert!(matches!(r.message, ServerMessage::GameReset));
    assert!(matches!(r.stream_control, StreamControl::NoChange));
    let r = h.handle(p, ClientMessage::PlayAgain);
    assert_eq!(error_of(&r), ("GAME_NOT_FOUND".to_string(), "No game to reset".to_string()));
    // a new round can start
    let r = h.handle(p, ClientMessage::StartGame);
    assert!(matches!(r.message, ServerMessage::GameStarted { .. }));
}

#[test]
fn play_again_while_running_is_refused_with_transition_text() {
    let mut h = handler();
    let p = PlayerId(1);
    h.handle(p, ClientMessage::StartGame);
    let r = h.handle(p, ClientMessage::PlayAgain);
    assert_eq!(
        error_of(&r),
        (
            "INVALID_STATE".to_string(),
            "Invalid state transition: cannot reset from Running state".to_string()
        )
    );
}

#[test]
fn players_are_independent() {
    let mut h = handler();
    h.handle(PlayerId(1), ClientMessage::StartGame);
    let r = h.handle(PlayerId(2), ClientMessage::StopTimer { client_time_ms: 0 });
    assert_eq!(error_of(&r).0, "GAME_NOT_FOUND");
    let r = h.handle(PlayerId(1), ClientMessage::StopTimer { client_time_ms: 0 });
    assert!(matches!(r.message, ServerMessage::GameResult { .. }));
}

#[test]
fn ping_echoes_client_timestamp() {
    let mut h = handler();
    let r = h.handle(PlayerId(1), ClientMessage::Ping { timestamp: 12345 });
    match r.message {
        ServerMessage::Pong { client_timestamp, server_timestamp } => {
            assert_eq!(client_timestamp, 12345);
            // milliseconds since the Unix epoch, later than 2020
            assert!(server_timestamp > 1_577_836_800_000);
        }
        other => panic!("expected Pong, got {:?}", other),
    }
    assert!(matches!(r.stream_control, StreamControl::NoChange));
}

#[test]
fn pong_reply_counts_whole_milliseconds() {
    let r = pong_reply(7, Some(Duration::from_micros(1_700_000_123_999)));
    match r.message {
        ServerMessage::Pong { client_timestamp, server_timestamp } => {
            assert_eq!(client_timestamp, 7);
            assert_eq!(server_timestamp, 1_700_000_123);
        }
        other => panic!("expected Pong, got {:?}", other),
    }
    assert!(matches!(r.stream_control, StreamControl::NoChange));
    let r = pong_reply(7, None);
    assert_eq!(
        error_of(&r),
        ("INTERNAL_ERROR".to_string(), "System clock reads before the Unix epoch".to_string())
    );
}
