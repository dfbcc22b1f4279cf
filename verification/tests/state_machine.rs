use backend::error::GameError;
use backend::game::{AttemptTime, GameState, TargetTime};

fn transition_parts(e: &GameError) -> (&'static str, &'static str) {
    match e {
        GameError::InvalidStateTransition { from, action } => (*from, *action),
        _ => panic!("expected a transition error"),
    }
}

#[test]
fn new_state_is_idle() {
    let s = GameState::new();
    assert_eq!(s.name(), "Idle");
    assert!(s.can_start());
    assert!(!s.can_stop());
    assert!(!s.can_reset());
    assert_eq!(GameState::default().name(), "Idle");
}

#[test]
fn full_cycle_returns_to_idle() {
    let s = GameState::new().start(TargetTime(2500)).unwrap();
    assert_eq!(s.name(), "Running");
    assert!(s.can_stop() && !s.can_start() && !s.can_reset());
    match &s {
        GameState::Running(r) => assert_eq!(r.target_time.as_millis(), 2500),
        _ => panic!("expected running"),
    }
    let s = s.stop(AttemptTime(2400)).unwrap();
    assert_eq!(s.name(), "Completed");
    assert!(s.can_reset() && !s.can_start() && !s.can_stop());
    match &s {
        GameState::Completed(c) => {
            assert_eq!(c.target_time.as_millis(), 2500);
            assert_eq!(c.attempt_time.as_millis(), 2400);
        }
        _ => panic!("expected completed"),
    }
    let s = s.reset().unwrap();
    assert_eq!(s.name(), "Idle");
}

#[test]
fn refused_transitions_name_state_and_action() {
    let e = GameState::new().stop(AttemptTime(1)).unwrap_err();
    assert_eq!(transition_parts(&e), ("Idle", "stop"));
    let e = GameState::new().reset().unwrap_err();
    assert_eq!(transition_parts(&e), ("Idle", "reset"));

    let running = GameState::new().start(TargetTime(1000)).unwrap();
    let e = running.start(TargetTime(2000)).unwrap_err();
    assert_eq!(transition_parts(&e), ("Running", "start"));
    let e = running.reset().unwrap_err();
    assert_eq!(transition_parts(&e), ("Running", "reset"));

    let completed = running.stop(AttemptTime(900)).unwrap();
    let e = completed.start(TargetTime(1)).unwrap_err();
    assert_eq!(transition_parts(&e), ("Completed", "start"));
    let e = completed.stop(AttemptTime(1)).unwrap_err();
    assert_eq!(transition_parts(&e), ("Completed", "stop"));
}

#[test]
fn error_messages_read_as_displayed() {
    let e = GameState::new().reset().unwrap_err();
    assert_eq!(e.message(), "Invalid state transition: cannot reset from Idle state");
    assert_eq!(GameError::GameNotFound("g1".to_string()).message(), "Game not found: g1");
    assert_eq!(GameError::PlayerNotFound("p1".to_string()).message(), "Player not found: p1");
    assert_eq!(GameError::StorageError("disk".to_string()).message(), "Storage error: disk");
}
