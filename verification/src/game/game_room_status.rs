//! The states a game room goes through.
use vstd::prelude::*;

verus! {

/// The states of a [`GameRoom`](crate::game::game_room::GameRoom).
#[derive(Debug, Clone, Copy, PartialEq, Eq, Structural)]
pub enum GameRoomStatus {
    /// The requirements for the game to start have not been met yet.
    Waiting,
    /// The game room is running its game.
    Running,
}

impl Default for GameRoomStatus {
    fn default() -> (status: Self)
        ensures
            status == GameRoomStatus::Waiting,
    {
        GameRoomStatus::Waiting
    }
}

} // verus!
