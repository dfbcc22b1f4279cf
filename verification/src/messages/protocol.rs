//! The messages that client and server exchange.

use vstd::prelude::*;

verus! {

/// Messages sent from client to server.
#[derive(Debug, Clone, Copy, PartialEq, Eq, Structural)]
pub enum ClientMessage {
    /// Request to start a new game
    StartGame,
    /// Player clicked stop - includes client-measured time in milliseconds
    StopTimer { client_time_ms: u64 },
    /// Request to play again
    PlayAgain,
    /// Ping for latency measurement
    Ping { timestamp: u64 },
}

/// Messages sent from server to client. A game result carries its
/// difference in milliseconds; the difference in seconds that goes on the
/// wire is that number divided by 1000, computed where the message is
/// serialised.
#[derive(Debug, Clone)]
pub enum ServerMessage {
    /// Welcome message with player ID
    Connected { player_id: String },
    /// Game started - client should start timer
    GameStarted { game_id: String, target_time_ms: u64 },
    /// Real-time timer tick (streamed while game is running)
    TimerTick { elapsed_ms: u64 },
    /// Game result after stop
    GameResult { target_time_ms: u64, your_time_ms: u64, difference_ms: i64, timing_valid: bool },
    /// Ready for new game
    GameReset,
    /// Error occurred
    Error { code: String, message: String },
    /// Pong response for latency measurement
    Pong { client_timestamp: u64, server_timestamp: u64 },
}

/// Error codes for client.
#[derive(Debug, Clone, Copy, PartialEq, Eq, Structural)]
pub enum ErrorCode {
    InvalidState,
    InvalidMessage,
    GameNotFound,
    InternalError,
}

/// The text of an error code, as it goes on the wire.
pub open spec fn error_code_text(code: ErrorCode) -> Seq<char> {
    match code {
        ErrorCode::InvalidState => "INVALID_STATE"@,
        ErrorCode::InvalidMessage => "INVALID_MESSAGE"@,
        ErrorCode::GameNotFound => "GAME_NOT_FOUND"@,
        ErrorCode::InternalError => "INTERNAL_ERROR"@,
    }
}

/// `m` is an error message with code `code` and text `text`.
pub open spec fn is_error_reply(m: ServerMessage, code: ErrorCode, text: Seq<char>) -> bool {
    &&& m is Error
    &&& m->Error_code@ == error_code_text(code)
    &&& m->Error_message@ == text
}

impl ErrorCode {
    pub fn as_str(&self) -> (s: &'static str)
        ensures
            s@ == error_code_text(*self),
    {
        match self {
            ErrorCode::InvalidState => "INVALID_STATE",
            ErrorCode::InvalidMessage => "INVALID_MESSAGE",
            ErrorCode::GameNotFound => "GAME_NOT_FOUND",
            ErrorCode::InternalError => "INTERNAL_ERROR",
        }
    }
}

} // verus!
