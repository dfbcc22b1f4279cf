//! Reaction-timer game backend: the game state machine, sessions, timing
//! validation, the session store and the message handler.

pub mod clock;
pub mod error;
pub mod game;
pub mod validation;
pub mod storage;
pub mod messages;
pub mod laws;
