//! The payloads a [`ClientMessage`](crate::model::ClientMessage) can carry.
use vstd::prelude::*;

use crate::model::{ClientLeave, ClientWelcome, PlayerReady};

verus! {

/// The payload of a client message.
#[derive(Debug, Clone, PartialEq, Eq)]
pub enum ClientMessageData {
    /// The client introduces itself.
    WelcomeMessage(ClientWelcome),
    /// The client confirms it is ready to start the game.
    PlayerReady(PlayerReady),
    /// The client leaves.
    LeaveMessage(ClientLeave),
}

} // verus!
