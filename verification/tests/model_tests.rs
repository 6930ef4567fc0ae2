#![allow(non_snake_case)]

use spectrum::config::{GameStateConfig, PublicEndpointConfig, ServerConfig};
use spectrum::game::game_lobby_status::GameLobbyStatus;
use spectrum::game::game_room::{GameRoom, HasGameRoomStarted};
use spectrum::game::game_room_status::GameRoomStatus;
use spectrum::game::join_game_result::JoinGameResult;
use spectrum::model::client_message::ClientMessageData;
use spectrum::model::server_message::ServerMessageData;
use spectrum::model::{lobby_update, server_leave, server_welcome};
use spectrum::model::{ClientLeave, ClientMessage, ClientWelcome, LobbyUpdate, PlayerReady};
use spectrum::packet::{is_player_ready, make_lobby_update, make_server_welcome};

#[test]
fn is_player_ready_onlyForReadiness() {
    let ready = ClientMessage {
        client_message_data: Some(ClientMessageData::PlayerReady(PlayerReady {})),
    };
    let leave = ClientMessage {
        client_message_data: Some(ClientMessageData::LeaveMessage(ClientLeave {})),
    };
    let welcome = ClientMessage {
        client_message_data: Some(ClientMessageData::WelcomeMessage(ClientWelcome {
            nick: "n".to_owned(),
            game_id: None,
        })),
    };
    let empty = ClientMessage {
        client_message_data: None,
    };
    assert!(is_player_ready(&ready));
    assert!(!is_player_ready(&leave));
    assert!(!is_player_ready(&welcome));
    assert!(!is_player_ready(&empty));
}

#[test]
fn make_server_welcome_carriesTheCode() {
    let message = make_server_welcome(server_welcome::StatusCode::NickTaken);
    match message.server_message_data.unwrap() {
        ServerMessageData::WelcomeMessage(welcome) => assert_eq!(3, welcome.status_code),
        _ => panic!("not a welcome"),
    }
}

#[test]
fn make_lobby_update_keepsPlayersInOrder() {
    let players = vec!["b".to_string(), "a".to_string()];
    let message = make_lobby_update(lobby_update::StatusCode::GameReady, players.clone());
    assert_eq!(
        Some(ServerMessageData::LobbyUpdate(LobbyUpdate {
            status_code: 1,
            players,
        })),
        message.server_message_data
    );
}

#[test]
fn status_codes_roundtripThroughTheirValues() {
    for code in [
        server_welcome::StatusCode::Joined,
        server_welcome::StatusCode::BadRequest,
        server_welcome::StatusCode::GameCouldNotBeFound,
        server_welcome::StatusCode::NickTaken,
    ] {
        assert_eq!(Some(code), server_welcome::StatusCode::from_i32(code.value()));
    }
    for code in [lobby_update::StatusCode::Waiting, lobby_update::StatusCode::GameReady] {
        assert_eq!(Some(code), lobby_update::StatusCode::from_i32(code.value()));
    }
    assert_eq!(
        Some(server_leave::StatusCode::Success),
        server_leave::StatusCode::from_i32(server_leave::StatusCode::Success.value())
    );
    assert_eq!(None, server_welcome::StatusCode::from_i32(4));
    assert_eq!(None, lobby_update::StatusCode::from_i32(-1));
    assert_eq!(None, server_leave::StatusCode::from_i32(1));
}

#[test]
fn defaults_areEmpty() {
    let config = GameStateConfig::default();
    assert_eq!(0, config.number_of_players_in_game_lobby);
    assert_eq!(0, config.player_readiness_timeout);
    let endpoint = PublicEndpointConfig::default();
    assert_eq!("", endpoint.serve_interface);
    assert_eq!(0, endpoint.serve_port);
    let server = ServerConfig::default();
    assert_eq!(endpoint, server.public_endpoint);
    assert_eq!(config, server.game_state);
    assert_eq!(GameLobbyStatus::Waiting, GameLobbyStatus::default());
    assert_eq!(GameRoomStatus::Waiting, GameRoomStatus::default());
    assert!(matches!(JoinGameResult::<u8>::default(), JoinGameResult::Joined));
}

#[test]
fn game_room_waitingRoom_takesPlayersAndStartsWhenFull() {
    let mut room = GameRoom::new(GameStateConfig {
        number_of_players_in_game_lobby: 2,
        player_readiness_timeout: 0,
    });
    let started = room.add_player("a".to_owned(), 1);
    assert_eq!(HasGameRoomStarted(false), started);
    assert!(!bool::from(started));
    assert_eq!(GameRoomStatus::Waiting, room.get_state());
    let started = room.add_player("b".to_owned(), 2);
    assert!(bool::from(started));
    assert_eq!(GameRoomStatus::Running, room.get_state());
}

#[test]
fn game_room_runningRoom_refusesPlayers() {
    let mut room = GameRoom::new(GameStateConfig {
        number_of_players_in_game_lobby: 5,
        player_readiness_timeout: 0,
    });
    room.start();
    assert_eq!(GameRoomStatus::Running, room.get_state());
    let started = room.add_player("nick".to_owned(), 1);
    assert!(bool::from(started));
    assert_eq!(GameRoomStatus::Running, room.get_state());
}
