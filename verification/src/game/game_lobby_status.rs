use vstd::prelude::*;

verus! {

/// The states a game lobby goes through.
#[derive(Debug, Clone, Copy, PartialEq, Eq, Structural)]
pub enum GameLobbyStatus {
    /// The requirements for the game to start have not been met yet.
    Waiting,
    /// The lobby is full and waits for every player to confirm readiness.
    ///
    /// If at least one player fails to confirm, the lobby rolls back to `Waiting`.
    Starting,
    /// The game has started.
    Started,
}

impl Default for GameLobbyStatus {
    fn default() -> (s: Self)
        ensures
            s == GameLobbyStatus::Waiting,
    {
        GameLobbyStatus::Waiting
    }
}

} // verus!
