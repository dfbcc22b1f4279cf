//! Errors of the game and of session storage.

use vstd::prelude::*;
use vstd::string::StringExecFns;

verus! {

/// Errors raised by game sessions and their storage.
#[derive(Debug)]
pub enum GameError {
    /// A state transition that the current state does not allow.
    InvalidStateTransition { from: &'static str, action: &'static str },
    /// No game with the given identifier.
    GameNotFound(String),
    /// No player with the given identifier.
    PlayerNotFound(String),
    /// The session store failed.
    StorageError(String),
}

/// The text that describes an error, as its `Display` form reads.
pub open spec fn error_text(e: GameError) -> Seq<char> {
    match e {
        GameError::InvalidStateTransition { from, action } =>
            "Invalid state transition: cannot "@ + action@ + " from "@ + from@ + " state"@,
        GameError::GameNotFound(id) => "Game not found: "@ + id@,
        GameError::PlayerNotFound(id) => "Player not found: "@ + id@,
        GameError::StorageError(msg) => "Storage error: "@ + msg@,
    }
}

impl GameError {
    /// The error's message, as its `Display` form reads.
    pub fn message(&self) -> (text: String)
        ensures
            text@ == error_text(*self),
    {
        match self {
            GameError::InvalidStateTransition { from, action } => {
                let mut text = String::from_str("Invalid state transition: cannot ");
                text.append(action);
                text.append(" from ");
                text.append(from);
                text.append(" state");
                text
            },
            GameError::GameNotFound(id) => {
                let mut text = String::from_str("Game not found: ");
                text.append(id.as_str());
                text
            },
            GameError::PlayerNotFound(id) => {
                let mut text = String::from_str("Player not found: ");
                text.append(id.as_str());
                text
            },
            GameError::StorageError(msg) => {
                let mut text = String::from_str("Storage error: ");
                text.append(msg.as_str());
                text
            },
        }
    }
}

} // verus!
