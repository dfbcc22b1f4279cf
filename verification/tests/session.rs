use std::time::Duration;

use backend::error::GameError;
use backend::game::{AttemptTime, GameConfig, GameId, GameSession, GameSessionFactory, GameState, PlayerId, TargetTime};

fn session_with(config: GameConfig) -> GameSession {
    GameSession::new(GameId(1), PlayerId(2), config)
}

#[test]
fn start_draws_target_within_bounds() {
    let mut s = session_with(GameConfig::default());
    let t = s.start().unwrap();
    assert!((1000..=10000).contains(&t.as_millis()));
    match s.state() {
        GameState::Running(r) => assert_eq!(r.target_time.as_millis(), t.as_millis()),
        _ => panic!("expected running"),
    }
}

#[test]
fn start_with_single_value_range_is_exact() {
    let config = GameConfig::builder()
        .min_target_time(Duration::from_millis(777))
        .max_target_time(Duration::from_millis(777))
        .build();
    let mut s = session_with(config);
    assert_eq!(s.start().unwrap().as_millis(), 777);
}

#[test]
fn random_targets_vary() {
    let f = GameSessionFactory::with_default_config();
    let mut seen = Vec::new();
    for _ in 0..50 {
        let mut s = f.create(PlayerId(3));
        let t = s.start().unwrap().as_millis();
        if !seen.contains(&t) {
            seen.push(t);
        }
    }
    assert!(seen.len() > 1);
}

#[test]
fn refused_start_leaves_session_idle() {
    let mut s = session_with(GameConfig::default());
    s.start().unwrap();
    let e = s.start().unwrap_err();
    assert_eq!(e.message(), "Invalid state transition: cannot start from Running state");
    assert_eq!(s.state().name(), "Idle");
}

#[test]
fn refused_reset_leaves_session_idle() {
    let mut s = session_with(GameConfig::default());
    s.start_with_target(TargetTime(2000)).unwrap();
    let e = s.reset().unwrap_err();
    assert!(matches!(e, GameError::InvalidStateTransition { from: "Running", action: "reset" }));
    assert_eq!(s.state().name(), "Idle");
}

#[test]
fn stop_when_idle_is_refused_and_keeps_state() {
    let mut s = session_with(GameConfig::default());
    let e = s.stop(AttemptTime(10)).unwrap_err();
    assert_eq!(e.message(), "Invalid state transition: cannot stop from Idle state");
    assert_eq!(s.state().name(), "Idle");
}

#[test]
fn valid_client_time_is_used() {
    let mut s = session_with(GameConfig::default());
    s.start_with_target(TargetTime(3000)).unwrap();
    let r = s.stop_with_elapsed(AttemptTime(3100), Duration::from_millis(3000)).unwrap();
    assert!(r.timing_valid);
    assert_eq!(r.attempt_time.as_millis(), 3100);
    assert_eq!(r.target_time.as_millis(), 3000);
    assert_eq!(r.difference_ms, 100);
    assert_eq!(s.state().name(), "Completed");
}

#[test]
fn invalid_client_time_falls_back_to_server_time() {
    let mut s = session_with(GameConfig::default());
    s.start_with_target(TargetTime(3000)).unwrap();
    // 601 ms apart, more than the default 100 + 500 ms
    let r = s.stop_with_elapsed(AttemptTime(1399), Duration::from_millis(2000)).unwrap();
    assert!(!r.timing_valid);
    assert_eq!(r.attempt_time.as_millis(), 2000);
    assert_eq!(r.difference_ms, -1000);
}

#[test]
fn allowance_boundary_is_inclusive() {
    let mut s = session_with(GameConfig::default());
    s.start_with_target(TargetTime(3000)).unwrap();
    let r = s.stop_with_elapsed(AttemptTime(2600), Duration::from_millis(2000)).unwrap();
    assert!(r.timing_valid);
    assert_eq!(r.difference_ms, -400);
}

#[test]
fn stop_on_real_clock_uses_client_time_when_close() {
    let mut s = session_with(GameConfig::default());
    s.start_with_target(TargetTime(1000)).unwrap();
    let r = s.stop(AttemptTime(0)).unwrap();
    assert!(r.timing_valid);
    assert_eq!(r.attempt_time.as_millis(), 0);
    assert_eq!(r.difference_ms, -1000);
}

#[test]
fn huge_client_time_wraps_difference_like_machine_arithmetic() {
    let config = GameConfig::builder().timing_tolerance(Duration::from_millis(u64::MAX - 500)).build();
    let mut s = session_with(config);
    s.start_with_target(TargetTime(0)).unwrap();
    let r = s.stop_with_elapsed(AttemptTime(u64::MAX), Duration::from_millis(u64::MAX)).unwrap();
    assert!(r.timing_valid);
    assert_eq!(r.difference_ms, -1);
}

#[test]
fn reset_after_stop_returns_to_idle() {
    let mut s = session_with(GameConfig::default());
    s.start_with_target(TargetTime(3000)).unwrap();
    s.stop_with_elapsed(AttemptTime(3000), Duration::from_millis(3000)).unwrap();
    s.reset().unwrap();
    assert_eq!(s.state().name(), "Idle");
    assert_eq!(s.start_with_target(TargetTime(5000)).unwrap().as_millis(), 5000);
}

#[test]
fn server_timestamp_measures_small_elapsed_time() {
    let t = backend::game::ServerTimestamp::now();
    assert!(t.elapsed() < Duration::from_secs(5));
}
