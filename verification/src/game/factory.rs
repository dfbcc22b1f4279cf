//! Creates game sessions that share one configuration.

use vstd::prelude::*;

use crate::game::{is_default_config, is_random_uuid, GameConfig, GameId, GameSession, Phase, PlayerId};

verus! {

/// Factory for creating game sessions with consistent configuration.
pub struct GameSessionFactory {
    config: GameConfig,
}

impl GameSessionFactory {
    /// The configuration that new sessions get.
    pub closed spec fn config(&self) -> GameConfig {
        self.config
    }

    pub fn new(config: GameConfig) -> (f: Self)
        ensures
            f.config() == config,
    {
        GameSessionFactory { config }
    }

    pub fn with_default_config() -> (f: Self)
        ensures
            is_default_config(f.config()),
            f.config().valid(),
    {
        Self::new(GameConfig::default())
    }

    /// Create a new, idle game session for a player, with a fresh random
    /// game identifier.
    pub fn create(&self, player_id: PlayerId) -> (s: GameSession)
        ensures
            is_random_uuid(s.game_id().0),
            s.owner() == player_id,
            s.config() == self.config(),
            s.game_state().phase() == Phase::Idle,
            s.validator().tolerance() == self.config().timing_tolerance,
            s.validator().max_latency() == self.config().max_network_latency,
            self.config().valid() ==> s.runnable(),
    {
        GameSession::new(GameId::new(), player_id, self.config)
    }

    /// Create with a specific game ID (useful for testing).
    pub fn create_with_id(&self, game_id: GameId, player_id: PlayerId) -> (s: GameSession)
        ensures
            s.game_id() == game_id,
            s.owner() == player_id,
            s.config() == self.config(),
            s.game_state().phase() == Phase::Idle,
            s.validator().tolerance() == self.config().timing_tolerance,
            s.validator().max_latency() == self.config().max_network_latency,
            self.config().valid() ==> s.runnable(),
    {
        GameSession::new(game_id, player_id, self.config)
    }
}

impl Default for GameSessionFactory {
    fn default() -> (f: Self)
        ensures
            is_default_config(f.config()),
            f.config().valid(),
    {
        Self::with_default_config()
    }
}

} // verus!
