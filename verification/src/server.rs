//! Decisions of the server layer: how a client's first messages are answered, when the tasks
//! that serve a client stop, and how clients are keyed.
use vstd::prelude::*;

use std::collections::hash_map::DefaultHasher;
use std::hash::Hasher;

use vstd::std_specs::convert::FromSpecImpl;
use vstd::std_specs::hash::DefaultHasherAdditionalSpecFns;
use vstd::utf8::encode_utf8;

use crate::game::default_game_state::{
    join_game_spec, lemma_open_lobby_choice, find_open_lobby, lemma_refused_join_changes_nothing,
    GameStateModel,
};
use crate::game::game_lobby::{add_player_spec, empty_lobby};
use crate::game::join_game_result::JoinGameResult;
use crate::model::client_message::ClientMessageData;
use crate::model::server_welcome;
use crate::model::{ClientMessage, ClientWelcome, ServerMessage};
use crate::packet::{make_server_welcome, server_welcome_message};

verus! {

/// The longest nick accepted, in bytes of its UTF-8 encoding.
pub const MAX_NICK_LENGTH: usize = 32;

/// Whether a nick has a reasonable length: between one and [`MAX_NICK_LENGTH`] bytes of its
/// UTF-8 encoding.
pub open spec fn is_reasonable_nick(nick: Seq<char>) -> bool {
    0 < encode_utf8(nick).len() <= MAX_NICK_LENGTH
}

/// Returns whether `nick` has a reasonable length for a player's nick.
pub fn is_nick_of_reasonable_length(nick: &str) -> (reasonable: bool)
    ensures
        reasonable == is_reasonable_nick(nick@),
{
    let nick_len = nick.as_bytes().len();
    !(nick_len == 0 || nick_len > MAX_NICK_LENGTH)
}

/// What the task that receives a client's messages got next.
#[derive(Debug)]
pub enum ReceiveEvent {
    /// The server was cancelled.
    Cancelled,
    /// The client's connection was closed.
    ConnectionClosed,
    /// A message from the client.
    Message(ClientMessage),
}

/// What the receiving task does next.
#[derive(Debug)]
pub enum ReceiveStep {
    /// Stop.
    Exit,
    /// Send the message to the client, then stop.
    ReplyAndExit(ServerMessage),
    /// Ask the game state to let the client join a game, as its welcome message says.
    Join(ClientWelcome),
}

/// Decides what the task that receives a client's messages does with what it got.
///
/// The first message of a client must be its welcome. A welcome with a nick of unreasonable
/// length is answered with `BadRequest`, any other welcome goes on to the game state. Anything
/// else ends the task, and so do cancellation and a closed connection.
pub fn next_receive_step(event: ReceiveEvent) -> (step: ReceiveStep)
    ensures
        match event {
            ReceiveEvent::Message(message) => match message.client_message_data {
                Some(ClientMessageData::WelcomeMessage(welcome)) => if is_reasonable_nick(
                    welcome.nick@,
                ) {
                    step == ReceiveStep::Join(welcome)
                } else {
                    step == ReceiveStep::ReplyAndExit(
                        server_welcome_message(server_welcome::StatusCode::BadRequest),
                    )
                },
                _ => step is Exit,
            },
            _ => step is Exit,
        },
{
    match event {
        ReceiveEvent::Cancelled => ReceiveStep::Exit,
        ReceiveEvent::ConnectionClosed => ReceiveStep::Exit,
        ReceiveEvent::Message(message) => match message.client_message_data {
            Some(ClientMessageData::WelcomeMessage(welcome_message)) => {
                if !is_nick_of_reasonable_length(welcome_message.nick.as_str()) {
                    ReceiveStep::ReplyAndExit(
                        make_server_welcome(server_welcome::StatusCode::BadRequest),
                    )
                } else {
                    ReceiveStep::Join(welcome_message)
                }
            },
            _ => ReceiveStep::Exit,
        },
    }
}

/// The answer the client gets to the result of joining a game, if any, and whether the receiving
/// task stops afterwards.
pub open spec fn join_reply_spec<P>(result: JoinGameResult<P>) -> (Option<ServerMessage>, bool) {
    match result {
        JoinGameResult::Joined => (None, true),
        JoinGameResult::GameIsFull(_) => (
            Some(server_welcome_message(server_welcome::StatusCode::GameCouldNotBeFound)),
            false,
        ),
        JoinGameResult::GameDoesNotExit(_) => (
            Some(server_welcome_message(server_welcome::StatusCode::GameCouldNotBeFound)),
            false,
        ),
        JoinGameResult::NickTaken(_) => (
            Some(server_welcome_message(server_welcome::StatusCode::NickTaken)),
            false,
        ),
        JoinGameResult::BadRequest(_) => (
            Some(server_welcome_message(server_welcome::StatusCode::BadRequest)),
            true,
        ),
    }
}

/// Decides how the client is answered after the game state handled its welcome, and whether the
/// receiving task stops.
///
/// A client that joined is the game's from then on: the task stops without a word. A full or
/// unknown game and a taken nick are reported, and the client may try again. A bad request is
/// reported, and the task stops.
pub fn join_reply<P>(result: &JoinGameResult<P>) -> (reply: (Option<ServerMessage>, bool))
    ensures
        reply == join_reply_spec(*result),
{
    match result {
        JoinGameResult::Joined => (None, true),
        JoinGameResult::GameIsFull(_) => (
            Some(make_server_welcome(server_welcome::StatusCode::GameCouldNotBeFound)),
            false,
        ),
        JoinGameResult::GameDoesNotExit(_) => (
            Some(make_server_welcome(server_welcome::StatusCode::GameCouldNotBeFound)),
            false,
        ),
        JoinGameResult::NickTaken(_) => (
            Some(make_server_welcome(server_welcome::StatusCode::NickTaken)),
            false,
        ),
        JoinGameResult::BadRequest(_) => (
            Some(make_server_welcome(server_welcome::StatusCode::BadRequest)),
            true,
        ),
    }
}

/// What the task that decodes a client's raw packets got next.
#[derive(Debug)]
pub enum PacketEvent<E> {
    /// The server was cancelled.
    Cancelled,
    /// The stream of raw packets is exhausted.
    Exhausted,
    /// A raw packet, decoded (or not) into a client message.
    Decoded(Result<ClientMessage, E>),
}

/// Decides one step of the task that decodes a client's raw packets: returns the message to
/// pass on, if any, and whether the task stops. It stops on cancellation, when the stream is
/// exhausted, and at the first packet that does not decode.
pub fn package_stream_step<E>(event: PacketEvent<E>) -> (step: (Option<ClientMessage>, bool))
    ensures
        match event {
            PacketEvent::Decoded(Ok(message)) => step == (Some(message), false),
            _ => step.0 is None && step.1,
        },
{
    match event {
        PacketEvent::Cancelled => (None, true),
        PacketEvent::Exhausted => (None, true),
        PacketEvent::Decoded(Ok(message)) => (Some(message), false),
        PacketEvent::Decoded(Err(_)) => (None, true),
    }
}

/// Decides what reading one packet from a connection yields: the data read (`None`: the
/// connection is closed), decoded (or not) into a packet. A packet that does not decode is
/// dropped.
pub fn read_packet_outcome<P, E>(read: Option<Result<P, E>>) -> (packet: Option<P>)
    ensures
        match read {
            Some(Ok(p)) => packet == Some(p),
            _ => packet is None,
        },
{
    match read {
        Some(Ok(packet)) => Some(packet),
        Some(Err(_)) => None,
        None => None,
    }
}

/// A key that identifies a connected client among the others.
#[derive(Debug, Clone, Copy, PartialEq, Eq, Structural, Hash)]
pub struct ClientMapKey(pub u64);

impl From<u64> for ClientMapKey {
    fn from(key: u64) -> (map_key: Self) {
        ClientMapKey(key)
    }
}

impl FromSpecImpl<u64> for ClientMapKey {
    open spec fn obeys_from_spec() -> bool {
        true
    }

    open spec fn from_spec(key: u64) -> ClientMapKey {
        ClientMapKey(key)
    }
}

/// Returns the bytes of `value` in the native byte order of the machine, with
/// `u64::to_ne_bytes`. Which order that is depends on the machine: the contract states that the
/// bytes are the little-endian ones or those reversed.
#[verifier::external_body]
fn native_bytes(value: u64) -> (bytes: [u8; 8])
    ensures
        bytes@ == vstd::bytes::spec_u64_to_le_bytes(value) || bytes@ == vstd::bytes::spec_u64_to_le_bytes(
            value,
        ).reverse(),
{
    value.to_ne_bytes()
}

/// Calculates the hash of `value` with the standard library's `DefaultHasher`, which hashes a
/// `u64` by writing its native-order bytes.
pub fn calculate_hash(value: &u64) -> (hash: u64)
    ensures
        exists|bytes: Seq<u8>|
            (bytes == vstd::bytes::spec_u64_to_le_bytes(*value) || bytes
                == vstd::bytes::spec_u64_to_le_bytes(*value).reverse()) && hash
                == DefaultHasher::spec_finish(seq![bytes]),
{
    let mut hasher = DefaultHasher::new();
    let bytes = native_bytes(*value);
    hasher.write(bytes.as_slice());
    let hash = hasher.finish();
    assert(hasher@ =~= seq![bytes@]);
    hash
}

/// What the loop that accepts connections got next.
#[derive(Debug)]
pub enum ServeEvent<C> {
    /// The server was cancelled.
    Cancelled,
    /// A connection whose handshake completed.
    Accepted(C),
    /// The listener failed: no more connections can be accepted.
    ListenerFailed,
}

/// Decides one step of the loop that accepts connections: returns the connection to serve next,
/// or `None` where the loop stops, which it does on cancellation and when the listener fails.
pub fn serve_step<C>(event: ServeEvent<C>) -> (next: Option<C>)
    ensures
        match event {
            ServeEvent::Accepted(connection) => next == Some(connection),
            _ => next is None,
        },
{
    match event {
        ServeEvent::Cancelled => None,
        ServeEvent::Accepted(connection) => Some(connection),
        ServeEvent::ListenerFailed => None,
    }
}

/// What the task that watches a client's messages got next.
#[derive(Debug)]
pub enum ClientTaskEvent {
    /// The server was cancelled.
    Cancelled,
    /// The connection was closed.
    ConnectionClosed,
    /// A message from the client.
    Message(ClientMessage),
}

/// Decides one step of the task that watches a client's messages: returns whether the client is
/// dropped from the server's table of clients and whether the task stops. Cancellation drops the
/// client and stops; a closed connection stops; a message is passed over.
pub fn client_task_step(event: &ClientTaskEvent) -> (step: (bool, bool))
    ensures
        match event {
            ClientTaskEvent::Cancelled => step == (true, true),
            ClientTaskEvent::ConnectionClosed => step == (false, true),
            ClientTaskEvent::Message(_) => step == (false, false),
        },
{
    match event {
        ClientTaskEvent::Cancelled => (true, true),
        ClientTaskEvent::ConnectionClosed => (false, true),
        ClientTaskEvent::Message(_) => (false, false),
    }
}

/// Whether every player of every lobby of `state` has a nick of reasonable length.
pub open spec fn nicks_reasonable(state: GameStateModel) -> bool {
    forall|id: u128, nick: Seq<char>|
        #[trigger] state.lobbies.contains_key(id) && #[trigger] state.lobbies[id].players.contains_key(
            nick,
        ) ==> is_reasonable_nick(nick)
}

/// A client whose request to join is refused is told why with a welcome that is not a success,
/// and no lobby changes; a client that joined gets no answer, and its receiving task ends.
pub proof fn lemma_refused_join_is_answered(
    state: GameStateModel,
    nick: Seq<char>,
    game_id: Option<Seq<char>>,
    player: u64,
    fresh: u128,
)
    ensures
        ({
            let step = join_game_spec(state, nick, game_id, player, fresh);
            let (reply, exit) = join_reply_spec(step.result);
            &&& step.result == JoinGameResult::<u64>::Joined ==> reply is None && exit
            &&& step.result != JoinGameResult::<u64>::Joined ==> step.state.lobbies == state.lobbies
                && exists|code: server_welcome::StatusCode|
                code != server_welcome::StatusCode::Joined && reply == Some(
                    #[trigger] server_welcome_message(code),
                )
        }),
{
    lemma_refused_join_changes_nothing(state, nick, game_id, player, fresh);
    let step = join_game_spec(state, nick, game_id, player, fresh);
    match step.result {
        JoinGameResult::GameIsFull(_) | JoinGameResult::GameDoesNotExit(_) => {
            assert(join_reply_spec(step.result).0 == Some(
                server_welcome_message(server_welcome::StatusCode::GameCouldNotBeFound),
            ));
        },
        JoinGameResult::NickTaken(_) => {
            assert(join_reply_spec(step.result).0 == Some(
                server_welcome_message(server_welcome::StatusCode::NickTaken),
            ));
        },
        JoinGameResult::BadRequest(_) => {
            assert(join_reply_spec(step.result).0 == Some(
                server_welcome_message(server_welcome::StatusCode::BadRequest),
            ));
        },
        JoinGameResult::Joined => {},
    }
}

/// The receiving task only lets welcomes with a nick of reasonable length reach the game state
/// (see [`next_receive_step`]), and joining with such a nick keeps every nick in every lobby
/// reasonable.
pub proof fn lemma_join_keeps_nicks_reasonable(
    state: GameStateModel,
    welcome: ClientWelcome,
    game_id: Option<Seq<char>>,
    player: u64,
    fresh: u128,
)
    requires
        nicks_reasonable(state),
        is_reasonable_nick(welcome.nick@),
    ensures
        nicks_reasonable(join_game_spec(state, welcome.nick@, game_id, player, fresh).state),
{
    let nick = welcome.nick@;
    let after = join_game_spec(state, nick, game_id, player, fresh).state;
    lemma_open_lobby_choice(state.open_lobbies, state.lobbies);
    assert forall|id: u128, k: Seq<char>|
        #[trigger] after.lobbies.contains_key(id) && #[trigger] after.lobbies[id].players.contains_key(
            k,
        ) implies is_reasonable_nick(k) by {
        if k != nick {
            if state.lobbies.contains_key(id) && after.lobbies[id].players.contains_key(k) {
                let (_, chosen) = find_open_lobby(state.open_lobbies, state.lobbies);
                let lobby = state.lobbies[id];
                let added = add_player_spec(lobby, nick, player).1;
                if after.lobbies[id] == added {
                    assert(lobby.players.contains_key(k));
                } else if after.lobbies[id] == lobby {
                    assert(lobby.players.contains_key(k));
                } else {
                    let fresh_lobby = add_player_spec(empty_lobby(state.config), nick, player).1;
                    assert(after.lobbies[id] == fresh_lobby);
                    assert(fresh_lobby.players.dom() =~= Set::empty().insert(nick));
                }
            } else {
                let fresh_lobby = add_player_spec(empty_lobby(state.config), nick, player).1;
                assert(fresh_lobby.players.dom().subset_of(Set::empty().insert(nick)));
            }
        }
    }
}

} // verus!
