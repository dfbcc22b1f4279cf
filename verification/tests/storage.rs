use backend::game::{GameConfig, GameId, GameSession, PlayerId, TargetTime};
use backend::storage::{GameSessionRepository, InMemoryGameSessionRepository};

fn session(id: u128, player: u128) -> GameSession {
    GameSession::new(GameId(id), PlayerId(player), GameConfig::default())
}

#[test]
fn find_after_save_returns_the_session() {
    let mut repo = InMemoryGameSessionRepository::new();
    let mut s = session(10, 1);
    s.start_with_target(TargetTime(4000)).unwrap();
    repo.save(s).unwrap();
    let found = repo.find_by_player(PlayerId(1)).unwrap().unwrap();
    assert_eq!(found.id, GameId(10));
    assert_eq!(found.player_id, PlayerId(1));
    assert_eq!(found.state().name(), "Running");
}

#[test]
fn find_takes_the_session_out() {
    let mut repo = InMemoryGameSessionRepository::default();
    repo.save(session(10, 1)).unwrap();
    assert!(repo.find_by_player(PlayerId(1)).unwrap().is_some());
    assert!(repo.find_by_player(PlayerId(1)).unwrap().is_none());
}

#[test]
fn update_puts_the_session_back() {
    let mut repo = InMemoryGameSessionRepository::new();
    repo.save(session(10, 1)).unwrap();
    let s = repo.find_by_player(PlayerId(1)).unwrap().unwrap();
    repo.update(s).unwrap();
    assert!(repo.find_by_player(PlayerId(1)).unwrap().is_some());
}

#[test]
fn unknown_player_finds_nothing() {
    let mut repo = InMemoryGameSessionRepository::new();
    repo.save(session(10, 1)).unwrap();
    assert!(repo.find_by_player(PlayerId(2)).unwrap().is_none());
    assert!(repo.find_by_player(PlayerId(1)).unwrap().is_some());
}

#[test]
fn newer_save_replaces_the_players_game() {
    let mut repo = InMemoryGameSessionRepository::new();
    repo.save(session(10, 1)).unwrap();
    repo.save(session(11, 1)).unwrap();
    assert_eq!(repo.find_by_player(PlayerId(1)).unwrap().unwrap().id, GameId(11));
}

#[test]
fn delete_removes_session_and_player_entry() {
    let mut repo = InMemoryGameSessionRepository::new();
    repo.save(session(10, 1)).unwrap();
    repo.delete(GameId(10)).unwrap();
    assert!(repo.find_by_player(PlayerId(1)).unwrap().is_none());
    // the player's entry is gone: a session saved for another player under
    // the same game id is not found through player 1
    repo.save(session(10, 2)).unwrap();
    assert!(repo.find_by_player(PlayerId(1)).unwrap().is_none());
}

#[test]
fn delete_after_take_keeps_player_entry() {
    let mut repo = InMemoryGameSessionRepository::new();
    repo.save(session(10, 1)).unwrap();
    let _ = repo.find_by_player(PlayerId(1)).unwrap().unwrap();
    repo.delete(GameId(10)).unwrap();
    // the stale entry still points at game 10, so a session stored under
    // that id, whoever owns it, is what player 1 finds
    repo.save(session(10, 2)).unwrap();
    assert_eq!(repo.find_by_player(PlayerId(1)).unwrap().unwrap().player_id, PlayerId(2));
}

#[test]
fn find_by_id_returns_stored_session() {
    let mut repo = InMemoryGameSessionRepository::new();
    let mut s = session(10, 1);
    s.start_with_target(TargetTime(4000)).unwrap();
    repo.save(s).unwrap();
    let found = repo.find_by_id(GameId(10)).unwrap().unwrap();
    assert_eq!(found.id, GameId(10));
    assert_eq!(found.player_id, PlayerId(1));
    assert_eq!(found.state().name(), "Running");
    // looking up by id leaves the session stored
    assert!(repo.find_by_player(PlayerId(1)).unwrap().is_some());
}

#[test]
fn find_by_id_of_absent_game_is_none() {
    let repo = InMemoryGameSessionRepository::new();
    assert!(repo.find_by_id(GameId(5)).unwrap().is_none());
}

#[test]
fn delete_of_absent_game_is_ok() {
    let mut repo = InMemoryGameSessionRepository::new();
    assert!(repo.delete(GameId(5)).is_ok());
}
