//! The payloads a [`ServerMessage`](crate::model::ServerMessage) can carry.
use vstd::prelude::*;

use crate::model::{LobbyUpdate, ServerLeave, ServerWelcome};

verus! {

/// The payload of a server message.
#[derive(Debug, Clone, PartialEq, Eq)]
pub enum ServerMessageData {
    /// The answer to a client's welcome message.
    WelcomeMessage(ServerWelcome),
    /// The state of the lobby the client waits in.
    LobbyUpdate(LobbyUpdate),
    /// The answer to a client's leave message.
    LeaveMessage(ServerLeave),
}

} // verus!
