//! Helpers that inspect and build protocol messages.
use vstd::prelude::*;

use crate::model::client_message::ClientMessageData;
use crate::model::lobby_update;
use crate::model::server_message::ServerMessageData;
use crate::model::server_welcome;
use crate::model::{ClientMessage, LobbyUpdate, ServerMessage, ServerWelcome};

verus! {

/// Whether `message` is a player's confirmation of readiness.
pub open spec fn spec_is_player_ready(message: ClientMessage) -> bool {
    message.client_message_data matches Some(ClientMessageData::PlayerReady(_))
}

/// The message that answers a client's welcome with `code`.
pub open spec fn server_welcome_message(code: server_welcome::StatusCode) -> ServerMessage {
    ServerMessage {
        server_message_data: Some(
            ServerMessageData::WelcomeMessage(
                ServerWelcome { status_code: server_welcome::status_code_value(code) },
            ),
        ),
    }
}

/// Whether `message` is a lobby update with status `code` that lists exactly the nicks
/// `players`, in that order.
pub open spec fn is_lobby_update(
    message: ServerMessage,
    code: lobby_update::StatusCode,
    players: Seq<Seq<char>>,
) -> bool {
    match message.server_message_data {
        Some(ServerMessageData::LobbyUpdate(update)) => {
            &&& update.status_code == lobby_update::status_code_value(code)
            &&& update.players@.map_values(|nick: String| nick@) == players
        },
        _ => false,
    }
}

/// Returns whether the client confirmed that it is ready to start the game.
pub fn is_player_ready(client_message: &ClientMessage) -> (ready: bool)
    ensures
        ready == spec_is_player_ready(*client_message),
{
    match &client_message.client_message_data {
        Some(ClientMessageData::PlayerReady(_)) => true,
        _ => false,
    }
}

/// Builds the answer to a client's welcome message.
pub fn make_server_welcome(status_code: server_welcome::StatusCode) -> (message: ServerMessage)
    ensures
        message == server_welcome_message(status_code),
{
    ServerMessage {
        server_message_data: Some(
            ServerMessageData::WelcomeMessage(ServerWelcome { status_code: status_code.value() }),
        ),
    }
}

/// Builds the lobby update that tells the players the lobby's status and who is in it.
pub fn make_lobby_update(status_code: lobby_update::StatusCode, players: Vec<String>) -> (message:
    ServerMessage)
    ensures
        message == (ServerMessage {
            server_message_data: Some(
                ServerMessageData::LobbyUpdate(
                    LobbyUpdate {
                        status_code: lobby_update::status_code_value(status_code),
                        players,
                    },
                ),
            ),
        }),
        is_lobby_update(message, status_code, players@.map_values(|nick: String| nick@)),
{
    ServerMessage {
        server_message_data: Some(
            ServerMessageData::LobbyUpdate(
                LobbyUpdate { status_code: status_code.value(), players: players },
            ),
        ),
    }
}

/// An `anyhow::Error`, carried through the library opaquely.
#[verifier::external_type_specification]
#[verifier::external_body]
pub struct ExAnyhowError(anyhow::Error);

/// Turns packets into the bytes sent over a connection, and bytes received back into packets.
///
/// Implementations choose the wire format; the library states nothing about it.
pub trait PacketSerializer: Copy + Send {
    /// The packets this serializer handles.
    type Packet: Send;

    /// Encodes `message` into bytes.
    fn serialize(&self, message: &Self::Packet) -> Vec<u8>;

    /// Decodes `raw` into a packet, or fails.
    fn deserialize(&self, raw: Vec<u8>) -> Result<Self::Packet, anyhow::Error>;
}

} // verus!
