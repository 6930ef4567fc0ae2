//! The messages exchanged between a player's browser and the server.
//!
//! A client sends a [`ClientMessage`], the server answers with a [`ServerMessage`]. Each of them
//! carries at most one payload, chosen from the variants in [`client_message`] and
//! [`server_message`].
use vstd::prelude::*;

pub mod client_message;
pub mod lobby_update;
pub mod server_leave;
pub mod server_message;
pub mod server_welcome;

use crate::model::client_message::ClientMessageData;
use crate::model::server_message::ServerMessageData;

verus! {

/// The first message a client sends: who it is and, optionally, which game it wants to join.
#[derive(Debug, Clone, PartialEq, Eq)]
pub struct ClientWelcome {
    /// The nick the player wants to use inside a game lobby.
    pub nick: String,
    /// The textual identifier of the game to join. Without one, the server picks a lobby.
    pub game_id: Option<String>,
}

/// A player's confirmation that it is ready to start the game.
#[derive(Debug, Clone, Copy, PartialEq, Eq, Structural)]
pub struct PlayerReady {}

/// A player's request to leave.
#[derive(Debug, Clone, Copy, PartialEq, Eq, Structural)]
pub struct ClientLeave {}

/// A message sent by a client.
#[derive(Debug, Clone, PartialEq, Eq)]
pub struct ClientMessage {
    /// The payload, if the message carries one.
    pub client_message_data: Option<ClientMessageData>,
}

/// The server's answer to a [`ClientWelcome`].
#[derive(Debug, Clone, Copy, PartialEq, Eq, Structural)]
pub struct ServerWelcome {
    /// The numeric value of a [`server_welcome::StatusCode`].
    pub status_code: i32,
}

/// The state of a game lobby, as broadcast to the players waiting in it.
#[derive(Debug, Clone, PartialEq, Eq)]
pub struct LobbyUpdate {
    /// The numeric value of a [`lobby_update::StatusCode`].
    pub status_code: i32,
    /// The nicks of the players in the lobby.
    pub players: Vec<String>,
}

/// The server's answer to a [`ClientLeave`].
#[derive(Debug, Clone, Copy, PartialEq, Eq, Structural)]
pub struct ServerLeave {
    /// The numeric value of a [`server_leave::StatusCode`].
    pub status_code: i32,
}

/// A message sent by the server.
#[derive(Debug, Clone, PartialEq, Eq)]
pub struct ServerMessage {
    /// The payload, if the message carries one.
    pub server_message_data: Option<ServerMessageData>,
}

} // verus!
