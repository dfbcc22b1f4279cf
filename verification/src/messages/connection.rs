//! The decisions of a client connection: what each incoming event is
//! answered with, what happens to the timer stream, and when to hang up.

use vstd::prelude::*;
use vstd::string::StringExecFns;

use crate::game::PlayerId;
use crate::messages::handler::{HandlerResponse, MessageHandler, StreamControl};
use crate::storage::GameSessionRepository;
use crate::messages::protocol::{error_code_text, ClientMessage, ErrorCode, ServerMessage};

verus! {

/// What arrives on a client connection.
pub enum ConnectionEvent {
    /// A text frame that parsed as a client message.
    Message(ClientMessage),
    /// A text frame that did not parse, with the parser's explanation.
    Malformed(String),
    /// The client closed the connection.
    Closed,
    /// The socket reported an error.
    Failed,
    /// The stream of frames ended.
    Ended,
    /// A frame that is not text (binary, ping or pong).
    Other,
}

/// What the connection does about one event.
pub struct ConnectionStep {
    /// The message to send, if any.
    pub reply: Option<ServerMessage>,
    /// Whether a failure to send `reply` ends the connection.
    pub end_on_send_failure: bool,
    /// What happens to the stream of timer ticks.
    pub stream_control: StreamControl,
    /// Whether the connection ends after this event.
    pub disconnect: bool,
}

/// The text of the reply to a frame that did not parse.
pub open spec fn malformed_reply_text(detail: Seq<char>) -> Seq<char> {
    "Failed to parse message: "@ + detail
}

impl<R: GameSessionRepository> MessageHandler<R> {
    /// Decide what to do about one event on `player_id`'s connection. A
    /// parsed message is handled and its reply sent (a failed send ends the
    /// connection); a malformed frame is answered with INVALID_MESSAGE (a
    /// failed send is ignored); closing, an error or the end of the stream
    /// ends the connection; other frames are ignored.
    pub fn on_connection_event(&mut self, player_id: PlayerId, event: ConnectionEvent) -> (step:
        ConnectionStep)
        requires
            event matches ConnectionEvent::Message(m) ==> old(self).can_handle(player_id, m),
        ensures
            match event {
                ConnectionEvent::Message(m) => {
                    &&& step.reply is Some
                    &&& step.end_on_send_failure
                    &&& !step.disconnect
                    &&& exists|r: HandlerResponse|
                        #![trigger Self::handled(*old(self), player_id, m, *final(self), r)]
                        {
                            &&& Self::handled(*old(self), player_id, m, *final(self), r)
                            &&& step.reply == Some(r.message)
                            &&& step.stream_control == r.stream_control
                        }
                },
                ConnectionEvent::Malformed(detail) => {
                    &&& step.reply matches Some(msg) && msg is Error
                        && msg->Error_code@ == error_code_text(ErrorCode::InvalidMessage)
                        && msg->Error_message@ == malformed_reply_text(detail@)
                    &&& !step.end_on_send_failure
                    &&& step.stream_control is NoChange
                    &&& !step.disconnect
                    &&& *final(self) == *old(self)
                },
                ConnectionEvent::Other => {
                    &&& step.reply is None
                    &&& step.stream_control is NoChange
                    &&& !step.disconnect
                    &&& *final(self) == *old(self)
                },
                _ => {
                    &&& step.reply is None
                    &&& step.stream_control is NoChange
                    &&& step.disconnect
                    &&& *final(self) == *old(self)
                },
            },
    {
        match event {
            ConnectionEvent::Message(m) => {
                let response = self.handle(player_id, m);
                ConnectionStep {
                    reply: Some(response.message),
                    end_on_send_failure: true,
                    stream_control: response.stream_control,
                    disconnect: false,
                }
            },
            ConnectionEvent::Malformed(detail) => {
                let mut text = String::from_str("Failed to parse message: ");
                text.append(detail.as_str());
                let error = ServerMessage::Error {
                    code: String::from_str(ErrorCode::InvalidMessage.as_str()),
                    message: text,
                };
                ConnectionStep {
                    reply: Some(error),
                    end_on_send_failure: false,
                    stream_control: StreamControl::NoChange,
                    disconnect: false,
                }
            },
            ConnectionEvent::Other => ConnectionStep {
                reply: None,
                end_on_send_failure: false,
                stream_control: StreamControl::NoChange,
                disconnect: false,
            },
            _ => ConnectionStep {
                reply: None,
                end_on_send_failure: false,
                stream_control: StreamControl::NoChange,
                disconnect: true,
            },
        }
    }
}

} // verus!
