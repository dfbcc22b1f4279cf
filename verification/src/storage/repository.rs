//! The interface of a session store, and the model its contracts speak of.

use vstd::prelude::*;

use crate::error::GameError;
use crate::game::{GameId, GameSession, PlayerId};

verus! {

/// Result type for repository operations.
pub type RepoResult<T> = Result<T, GameError>;

/// The session that a lookup by player takes out of a store whose sessions,
/// by game identifier, are `sessions` and whose active game per player is
/// `players`.
pub open spec fn session_of_player(
    sessions: Map<u128, GameSession>,
    players: Map<u128, u128>,
    player: u128,
) -> Option<GameSession> {
    if players.contains_key(player) && sessions.contains_key(players[player]) {
        Some(sessions[players[player]])
    } else {
        None
    }
}

/// The session stored under game identifier `id`, if any.
pub open spec fn session_of_game(sessions: Map<u128, GameSession>, id: u128) -> Option<
    GameSession,
> {
    if sessions.contains_key(id) {
        Some(sessions[id])
    } else {
        None
    }
}

/// The sessions left after a lookup by player has taken the player's
/// session out.
pub open spec fn sessions_after_take(
    sessions: Map<u128, GameSession>,
    players: Map<u128, u128>,
    player: u128,
) -> Map<u128, GameSession> {
    if players.contains_key(player) {
        sessions.remove(players[player])
    } else {
        sessions
    }
}

/// The player index left after deleting game `id`: the owner's entry goes
/// with the session, if the session was stored.
pub open spec fn players_after_delete(
    sessions: Map<u128, GameSession>,
    players: Map<u128, u128>,
    id: u128,
) -> Map<u128, u128> {
    if sessions.contains_key(id) {
        players.remove(sessions[id].owner().0)
    } else {
        players
    }
}

/// Every session in `after` was in `before`, unchanged, or is `added`: a
/// store call that stores `added` makes up no other session, whether or not
/// it succeeds.
pub open spec fn at_most_adds(
    before: Map<u128, GameSession>,
    after: Map<u128, GameSession>,
    added: GameSession,
) -> bool {
    forall|id: u128| #[trigger]
        after.contains_key(id) ==> (before.contains_key(id) && after[id] == before[id]) || after[id]
            == added
}

/// Every session in `after` was in `before`, unchanged: a store call that
/// stores nothing makes up no session, whether or not it succeeds.
pub open spec fn at_most_removes(before: Map<u128, GameSession>, after: Map<u128, GameSession>) -> bool {
    forall|id: u128| #[trigger]
        after.contains_key(id) ==> before.contains_key(id) && after[id] == before[id]
}

/// The store operations whose failures a store records.
#[derive(Debug, Clone, Copy, PartialEq, Eq, Structural)]
pub enum StoreCall {
    Save,
    FindByPlayer,
    Update,
    Delete,
}

/// `after` is the failure record `before` with nothing added: the call
/// succeeded.
pub open spec fn no_new_failure(
    before: Seq<(StoreCall, GameError)>,
    after: Seq<(StoreCall, GameError)>,
) -> bool {
    after == before
}

/// `after` is the failure record `before` with the failure of `call`, with
/// error `e`, added.
pub open spec fn failed_with(
    before: Seq<(StoreCall, GameError)>,
    after: Seq<(StoreCall, GameError)>,
    call: StoreCall,
    e: GameError,
) -> bool {
    after == before.push((call, e))
}

/// Repository trait for game session storage. Each operation states what a
/// successful call does to the store, and that no call, successful or not,
/// makes up sessions; what else a failed call leaves behind is up to the
/// store. Every failed call that changes the store is recorded, with its
/// error, in `failures`; a successful call records nothing. A store that
/// never fails says so through `never_fails`.
pub trait GameSessionRepository {
    /// The stored sessions, by game identifier.
    spec fn sessions(&self) -> Map<u128, GameSession>;

    /// The active game of each player, by player identifier.
    spec fn player_sessions(&self) -> Map<u128, u128>;

    /// The store's operations always succeed.
    spec fn never_fails(&self) -> bool;

    /// The failed calls so far, in order, each with its error.
    spec fn failures(&self) -> Seq<(StoreCall, GameError)>;

    /// Store a new game session.
    fn save(&mut self, session: GameSession) -> (r: RepoResult<()>)
        ensures
            r is Ok ==> no_new_failure(old(self).failures(), final(self).failures()),
            r matches Err(e) ==> failed_with(old(self).failures(), final(self).failures(), StoreCall::Save, e),
            old(self).never_fails() ==> r is Ok,
            final(self).never_fails() == old(self).never_fails(),
            at_most_adds(old(self).sessions(), final(self).sessions(), session),
            r is Ok ==> {
                &&& final(self).sessions() == old(self).sessions().insert(
                    session.game_id().0,
                    session,
                )
                &&& final(self).player_sessions() == old(self).player_sessions().insert(
                    session.owner().0,
                    session.game_id().0,
                )
            },
    ;

    /// Retrieve a game session by ID.
    fn find_by_id(&self, id: GameId) -> (r: RepoResult<Option<GameSession>>)
        ensures
            self.never_fails() ==> r is Ok,
            r is Ok ==> r == Ok::<Option<GameSession>, GameError>(
                session_of_game(self.sessions(), id.0),
            ),
    ;

    /// Retrieve a game session by player ID (active session). The session is
    /// taken out of the store; the player's entry stays.
    fn find_by_player(&mut self, player_id: PlayerId) -> (r: RepoResult<Option<GameSession>>)
        ensures
            r is Ok ==> no_new_failure(old(self).failures(), final(self).failures()),
            r matches Err(e) ==> failed_with(old(self).failures(), final(self).failures(), StoreCall::FindByPlayer, e),
            old(self).never_fails() ==> r is Ok,
            final(self).never_fails() == old(self).never_fails(),
            at_most_removes(old(self).sessions(), final(self).sessions()),
            r is Ok ==> {
                &&& r == Ok::<Option<GameSession>, GameError>(
                    session_of_player(old(self).sessions(), old(self).player_sessions(), player_id.0),
                )
                &&& final(self).sessions() == sessions_after_take(
                    old(self).sessions(),
                    old(self).player_sessions(),
                    player_id.0,
                )
                &&& final(self).player_sessions() == old(self).player_sessions()
            },
    ;

    /// Update an existing game session.
    fn update(&mut self, session: GameSession) -> (r: RepoResult<()>)
        ensures
            r is Ok ==> no_new_failure(old(self).failures(), final(self).failures()),
            r matches Err(e) ==> failed_with(old(self).failures(), final(self).failures(), StoreCall::Update, e),
            old(self).never_fails() ==> r is Ok,
            final(self).never_fails() == old(self).never_fails(),
            at_most_adds(old(self).sessions(), final(self).sessions(), session),
            r is Ok ==> {
                &&& final(self).sessions() == old(self).sessions().insert(
                    session.game_id().0,
                    session,
                )
                &&& final(self).player_sessions() == old(self).player_sessions().insert(
                    session.owner().0,
                    session.game_id().0,
                )
            },
    ;

    /// Delete a game session, and its owner's entry if the session was stored.
    fn delete(&mut self, id: GameId) -> (r: RepoResult<()>)
        ensures
            r is Ok ==> no_new_failure(old(self).failures(), final(self).failures()),
            r matches Err(e) ==> failed_with(old(self).failures(), final(self).failures(), StoreCall::Delete, e),
            old(self).never_fails() ==> r is Ok,
            final(self).never_fails() == old(self).never_fails(),
            at_most_removes(old(self).sessions(), final(self).sessions()),
            r is Ok ==> {
                &&& final(self).sessions() == old(self).sessions().remove(id.0)
                &&& final(self).player_sessions() == players_after_delete(
                    old(self).sessions(),
                    old(self).player_sessions(),
                    id.0,
                )
            },
    ;
}

} // verus!
