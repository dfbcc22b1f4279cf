use std::sync::Arc;

use backend::game::{GameSessionFactory, PlayerId};
use backend::messages::{ClientMessage, ConnectionEvent, MessageHandler, ServerMessage, StreamControl};
use backend::storage::InMemoryGameSessionRepository;

fn handler() -> MessageHandler<InMemoryGameSessionRepository> {
    MessageHandler::new(
        Arc::new(GameSessionFactory::with_default_config()),
        InMemoryGameSessionRepository::new(),
    )
}

#[test]
fn parsed_message_is_handled_and_replied() {
    let mut h = handler();
    let step = h.on_connection_event(PlayerId(1), ConnectionEvent::Message(ClientMessage::StartGame));
    assert!(matches!(step.reply, Some(ServerMessage::GameStarted { .. })));
    assert!(matches!(step.stream_control, StreamControl::StartTimer { .. }));
    assert!(step.end_on_send_failure);
    assert!(!step.disconnect);
}

#[test]
fn malformed_frame_gets_invalid_message() {
    let mut h = handler();
    let step = h.on_connection_event(PlayerId(1), ConnectionEvent::Malformed("expected value".to_string()));
    match step.reply {
        Some(ServerMessage::Error { code, message }) => {
            assert_eq!(code, "INVALID_MESSAGE");
            assert_eq!(message, "Failed to parse message: expected value");
        }
        other => panic!("expected an error reply, got {:?}", other),
    }
    assert!(!step.end_on_send_failure);
    assert!(!step.disconnect);
    assert!(matches!(step.stream_control, StreamControl::NoChange));
}

#[test]
fn closing_events_disconnect() {
    let mut h = handler();
    for event in [ConnectionEvent::Closed, ConnectionEvent::Failed, ConnectionEvent::Ended] {
        let step = h.on_connection_event(PlayerId(1), event);
        assert!(step.reply.is_none());
        assert!(step.disconnect);
    }
}

#[test]
fn other_frames_are_ignored() {
    let mut h = handler();
    let step = h.on_connection_event(PlayerId(1), ConnectionEvent::Other);
    assert!(step.reply.is_none());
    assert!(!step.disconnect);
    assert!(matches!(step.stream_control, StreamControl::NoChange));
}
