use backend::game::{GameId, PlayerId};
use backend::messages::ErrorCode;

#[test]
fn uuid_text_is_hyphenated_lowercase_hex() {
    let id = GameId(0xa1a2a3a4b1b2c1c2d1d2d3d4d5d6d7d8);
    assert_eq!(id.to_uuid_string(), "a1a2a3a4-b1b2-c1c2-d1d2-d3d4d5d6d7d8");
    assert_eq!(PlayerId(0).to_uuid_string(), "00000000-0000-0000-0000-000000000000");
    assert_eq!(PlayerId(0xff).to_uuid_string(), "00000000-0000-0000-0000-0000000000ff");
}

#[test]
fn fresh_ids_are_version_four_and_distinct() {
    let a = GameId::new();
    let b = GameId::default();
    assert_ne!(a, b);
    for v in [a.0, b.0, PlayerId::new().0, PlayerId::default().0] {
        assert_eq!((v >> 76) & 0xf, 4);
        assert_eq!((v >> 62) & 3, 2);
    }
}

#[test]
fn error_code_texts() {
    assert_eq!(ErrorCode::InvalidState.as_str(), "INVALID_STATE");
    assert_eq!(ErrorCode::InvalidMessage.as_str(), "INVALID_MESSAGE");
    assert_eq!(ErrorCode::GameNotFound.as_str(), "GAME_NOT_FOUND");
    assert_eq!(ErrorCode::InternalError.as_str(), "INTERNAL_ERROR");
}
