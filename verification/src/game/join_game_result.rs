//! The outcomes of a player's attempt to join a game.
use vstd::prelude::*;

verus! {

/// The outcome of adding a player into a game lobby.
///
/// Every variant that rejects the player hands back `P`, what stands for the player's
/// connection, so that the caller stays responsible for it.
#[derive(Debug, PartialEq, Eq, Structural)]
pub enum JoinGameResult<P> {
    /// The player joined a lobby, which is now responsible for it.
    Joined,
    /// The targeted game is full.
    GameIsFull(P),
    /// The targeted game does not exist, or is in a state that does not take players.
    GameDoesNotExit(P),
    /// Another player of the targeted game already uses the nick.
    NickTaken(P),
    /// The welcome message was ill-formed.
    BadRequest(P),
}

impl<P> Default for JoinGameResult<P> {
    fn default() -> (result: Self)
        ensures
            result is Joined,
    {
        JoinGameResult::Joined
    }
}

} // verus!
