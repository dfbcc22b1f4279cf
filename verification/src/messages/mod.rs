//! The protocol and the handler of client messages.

mod protocol;

pub use protocol::{error_code_text, is_error_reply, ClientMessage, ErrorCode, ServerMessage};
mod handler;

pub use handler::{allowances_fit, fresh_started_session, is_pong_reply, pong_reply, stop_result_of, stopped_session, store_failure_reply};
pub use handler::{play_again_outcome, ping_outcome, start_game_outcome, stop_timer_outcome};
pub use handler::{HandlerResponse, MessageHandler, StreamControl};
mod connection;

pub use connection::{malformed_reply_text, ConnectionEvent, ConnectionStep};
