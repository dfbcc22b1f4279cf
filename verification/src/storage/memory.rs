//! A session store held in memory.

use std::collections::HashMap;
use vstd::prelude::*;

use crate::error::GameError;
use crate::game::{GameId, GameSession, PlayerId};
use crate::storage::repository::{GameSessionRepository, RepoResult, StoreCall};

verus! {

broadcast use vstd::std_specs::hash::group_hash_axioms;

/// In-memory storage for game sessions. Sharing it between tasks is left to
/// the caller, which holds it behind a lock.
pub struct InMemoryGameSessionRepository {
    sessions: HashMap<u128, GameSession>,
    player_sessions: HashMap<u128, u128>,
}

impl InMemoryGameSessionRepository {
    pub fn new() -> (r: Self)
        ensures
            r.never_fails(),
            r.sessions() == Map::<u128, GameSession>::empty(),
            r.player_sessions() == Map::<u128, u128>::empty(),
    {
        InMemoryGameSessionRepository { sessions: HashMap::new(), player_sessions: HashMap::new() }
    }
}

impl Default for InMemoryGameSessionRepository {
    fn default() -> (r: Self)
        ensures
            r.never_fails(),
            r.sessions() == Map::<u128, GameSession>::empty(),
            r.player_sessions() == Map::<u128, u128>::empty(),
    {
        Self::new()
    }
}

impl GameSessionRepository for InMemoryGameSessionRepository {
    closed spec fn sessions(&self) -> Map<u128, GameSession> {
        self.sessions@
    }

    closed spec fn player_sessions(&self) -> Map<u128, u128> {
        self.player_sessions@
    }

    open spec fn never_fails(&self) -> bool {
        true
    }

    open spec fn failures(&self) -> Seq<(StoreCall, GameError)> {
        Seq::empty()
    }

    fn save(&mut self, session: GameSession) -> (r: RepoResult<()>)
        ensures
            r is Ok,
    {
        proof {
            session.lemma_identifiers();
        }
        let game_id = session.id;
        let player_id = session.player_id;
        self.sessions.insert(game_id.0, session);
        self.player_sessions.insert(player_id.0, game_id.0);
        Ok(())
    }

    fn find_by_id(&self, id: GameId) -> (r: RepoResult<Option<GameSession>>)
        ensures
            r is Ok,
    {
        match self.sessions.get(&id.0) {
            Some(session) => Ok(Some(*session)),
            None => Ok(None),
        }
    }

    fn find_by_player(&mut self, player_id: PlayerId) -> (r: RepoResult<Option<GameSession>>)
        ensures
            r is Ok,
    {
        match self.player_sessions.get(&player_id.0) {
            Some(game_id) => {
                let game_id = *game_id;
                // Remove and return the session (take ownership)
                Ok(self.sessions.remove(&game_id))
            },
            None => Ok(None),
        }
    }

    fn update(&mut self, session: GameSession) -> (r: RepoResult<()>)
        ensures
            r is Ok,
    {
        proof {
            session.lemma_identifiers();
        }
        let game_id = session.id;
        let player_id = session.player_id;
        self.sessions.insert(game_id.0, session);
        self.player_sessions.insert(player_id.0, game_id.0);
        Ok(())
    }

    fn delete(&mut self, id: GameId) -> (r: RepoResult<()>)
        ensures
            r is Ok,
    {
        match self.sessions.remove(&id.0) {
            Some(session) => {
                proof {
                    session.lemma_identifiers();
                }
                self.player_sessions.remove(&session.player_id.0);
            },
            None => {},
        }
        Ok(())
    }
}

} // verus!
