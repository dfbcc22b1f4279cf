//! Storage of game sessions.

mod memory;
mod repository;

pub use memory::InMemoryGameSessionRepository;
pub use repository::{at_most_adds, at_most_removes, players_after_delete, session_of_game, session_of_player, sessions_after_take};
pub use repository::{failed_with, no_new_failure, GameSessionRepository, RepoResult, StoreCall};
