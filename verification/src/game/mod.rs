//! The game: identifiers, configuration, the state machine and sessions.

mod config;
mod factory;
mod session;
mod state;
mod types;

pub use types::{hex_char, hex_digits, is_random_uuid, uuid_text};
pub use types::{AttemptTime, GameId, PlayerId, ServerTimestamp, TargetTime};
pub use config::{built_duration, built_millis, default_config, is_default_config, GameConfig, GameConfigBuilder};
pub use config::{DEFAULT_MAX_NETWORK_LATENCY_MS, DEFAULT_MAX_TARGET_MS, DEFAULT_MIN_TARGET_MS, DEFAULT_TIMING_TOLERANCE_MS};
pub use state::{action_word, is_transition_error, phase_name, transition, transition_error_text};
pub use state::{Action, CompletedState, GameState, Phase, RunningState};
pub use session::{difference_millis, stop_result, GameResult, GameSession};
pub use factory::GameSessionFactory;
