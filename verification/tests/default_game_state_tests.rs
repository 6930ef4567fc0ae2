#![allow(non_snake_case)]

use spectrum::config::GameStateConfig;
use spectrum::game::default_game_state::DefaultGameState;
use spectrum::game::game_lobby::{AddPlayerResult, GameLobby, LobbyAction};
use spectrum::game::game_lobby_status::GameLobbyStatus;
use spectrum::game::join_game_result::JoinGameResult;
use spectrum::model::client_message::ClientMessageData;
use spectrum::model::{ClientMessage, ClientWelcome, PlayerReady};
use uuid::Uuid;

fn welcome(nick: &str, game_id: Option<String>) -> ClientWelcome {
    ClientWelcome {
        nick: nick.to_owned(),
        game_id,
    }
}

fn config(players: usize) -> GameStateConfig {
    GameStateConfig {
        number_of_players_in_game_lobby: players,
        ..Default::default()
    }
}

fn ready() -> ClientMessage {
    ClientMessage {
        client_message_data: Some(ClientMessageData::PlayerReady(PlayerReady {})),
    }
}

#[test]
fn new_givenGameStateConfig_configSavedInGameState() {
    // Arrange
    let config = GameStateConfig::default();

    // Act
    let game_state = DefaultGameState::new(config.clone());

    // Assert
    assert_eq!(config, game_state.get_config());
    assert_eq!(0, game_state.lobby_count());
}

#[test]
fn join_game_gameIdIsNotAValidId_returnsBadRequest() {
    let mut game_state = DefaultGameState::new(config(0));

    let outcome = game_state.join_game(welcome("nick", Some("not-a-real-uuid".to_owned())), 3);

    assert_eq!(JoinGameResult::BadRequest(3), outcome.result);
    assert!(outcome.lobby.is_none());
    assert!(matches!(outcome.action, LobbyAction::Nothing));
    assert_eq!(0, game_state.lobby_count());
}

#[test]
fn join_game_gameIdDoesNotExist_returnsGameDoesNotExist() {
    let mut game_state = DefaultGameState::new(config(0));

    let outcome = game_state.join_game(welcome("nick", Some(Uuid::new_v4().to_string())), 4);

    assert_eq!(JoinGameResult::GameDoesNotExit(4), outcome.result);
    assert_eq!(0, game_state.lobby_count());
}

#[test]
fn join_game_gameIdExists_addsPlayerToTheLobbyAndReturnsOk() {
    // Arrange
    let config = config(5);
    let mut game_state = DefaultGameState::new(config);
    let uuid = Uuid::new_v4();
    game_state.insert_lobby(uuid.as_u128(), GameLobby::new(config));

    // Act
    let outcome = game_state.join_game(welcome("nick", Some(uuid.to_string())), 1);

    // Assert
    assert_eq!(JoinGameResult::Joined, outcome.result);
    assert_eq!(Some(uuid.as_u128()), outcome.lobby);
    assert!(matches!(outcome.action, LobbyAction::Broadcast(_)));
    assert_eq!(
        Some((GameLobbyStatus::Waiting, 1)),
        game_state.lobby_summary(uuid.as_u128())
    );
}

#[test]
fn join_game_gameIdInOtherForms_isReadAsTheSameGame() {
    let config = config(5);
    let mut game_state = DefaultGameState::new(config);
    let uuid = Uuid::new_v4();
    game_state.insert_lobby(uuid.as_u128(), GameLobby::new(config));

    let simple = uuid.simple().to_string();
    let braced = uuid.braced().to_string();
    let urn = uuid.urn().to_string();
    for (nick, text) in [("a", simple), ("b", braced), ("c", urn)] {
        let outcome = game_state.join_game(welcome(nick, Some(text)), 1);
        assert_eq!(JoinGameResult::Joined, outcome.result);
    }
    assert_eq!(
        Some((GameLobbyStatus::Waiting, 3)),
        game_state.lobby_summary(uuid.as_u128())
    );
}

#[test]
fn join_game_nickTaken_returnsNickTaken() {
    // Arrange
    let config = config(5);
    let mut game_state = DefaultGameState::new(config);
    let uuid = Uuid::new_v4();
    game_state.insert_lobby(uuid.as_u128(), GameLobby::new(config));
    let message = welcome("nick", Some(uuid.to_string()));
    game_state.join_game(message.clone(), 1);

    // Act
    let outcome = game_state.join_game(message, 2);

    // Assert
    assert_eq!(JoinGameResult::NickTaken(2), outcome.result);
    assert!(matches!(outcome.action, LobbyAction::Nothing));
    assert_eq!(
        Some((GameLobbyStatus::Waiting, 1)),
        game_state.lobby_summary(uuid.as_u128())
    );
}

#[test]
fn join_game_gameIsFull_doesNotAddThePlayerReturnsGameIsFull() {
    // Arrange
    let config = config(0);
    let mut game_state = DefaultGameState::new(config);
    let uuid = Uuid::new_v4();
    let mut lobby = GameLobby::new(config);
    lobby.set_game_lobby_state(GameLobbyStatus::Started);
    game_state.insert_lobby(uuid.as_u128(), lobby);

    // Act
    let outcome = game_state.join_game(welcome("nick", Some(uuid.to_string())), 6);

    // Assert
    assert_eq!(JoinGameResult::GameIsFull(6), outcome.result);
    assert_eq!(
        Some((GameLobbyStatus::Started, 0)),
        game_state.lobby_summary(uuid.as_u128())
    );
}

#[test]
fn join_game_gameIdIsNone_findANewGameForThePlayerAndReturnsOk() {
    // Arrange
    let mut game_state = DefaultGameState::new(config(2));

    // Act
    let outcome = game_state.join_game(welcome("nick", None), 1);

    // Assert
    assert_eq!(JoinGameResult::Joined, outcome.result);
    assert_eq!(1, game_state.lobby_count());
    let id = game_state.lobby_ids()[0];
    assert_eq!(Some(id), outcome.lobby);
    assert_eq!(
        Some((GameLobbyStatus::Waiting, 1)),
        game_state.lobby_summary(id)
    );
}

#[test]
fn join_game_gameIdIsNone_secondPlayerJoinsTheOpenLobby() {
    let mut game_state = DefaultGameState::new(config(3));
    let first = game_state.join_game(welcome("a", None), 1);
    let second = game_state.join_game(welcome("b", None), 2);
    assert_eq!(first.lobby, second.lobby);
    assert_eq!(1, game_state.lobby_count());
    assert_eq!(
        Some((GameLobbyStatus::Waiting, 2)),
        game_state.lobby_summary(first.lobby.unwrap())
    );
}

#[test]
fn join_game_gameIdIsNone_startedLobbyIsSkipped() {
    let mut game_state = DefaultGameState::new(config(1));
    let first = game_state.join_game(welcome("a", None), 1);
    let first_id = first.lobby.unwrap();
    assert!(matches!(first.action, LobbyAction::AwaitReadiness(_)));
    let broadcast = game_state.finish_lobby_start(first_id, Some(vec![("a".to_string(), Some(ready()))]));
    assert!(broadcast.is_some());
    assert_eq!(
        Some((GameLobbyStatus::Started, 1)),
        game_state.lobby_summary(first_id)
    );

    let second = game_state.join_game(welcome("b", None), 2);
    let second_id = second.lobby.unwrap();
    assert_ne!(first_id, second_id);
    assert_eq!(2, game_state.lobby_count());
    assert_eq!(
        Some((GameLobbyStatus::Starting, 1)),
        game_state.lobby_summary(second_id)
    );
}

#[test]
fn join_game_gameIdIsNone_startingLobbyTurnsThePlayerAway() {
    // A lobby that waits for readiness stays in the queue: a newcomer is offered to it, is turned
    // away by the lobby, and gets its handle back.
    let mut game_state = DefaultGameState::new(config(1));
    let first = game_state.join_game(welcome("a", None), 1);
    let id = first.lobby.unwrap();
    let second = game_state.join_game(welcome("b", None), 2);
    assert_eq!(JoinGameResult::GameDoesNotExit(2), second.result);
    assert_eq!(Some(id), second.lobby);
    assert!(matches!(second.action, LobbyAction::Nothing));
    assert_eq!(Some((GameLobbyStatus::Starting, 1)), game_state.lobby_summary(id));
}

#[test]
fn join_game_gameIdIsNone_nickTakenInOpenLobby_returnsNickTaken() {
    let mut game_state = DefaultGameState::new(config(3));
    let first = game_state.join_game(welcome("nick", None), 1);
    let id = first.lobby.unwrap();
    let second = game_state.join_game(welcome("nick", None), 2);
    assert_eq!(JoinGameResult::NickTaken(2), second.result);
    assert_eq!(Some(id), second.lobby);
    assert!(matches!(second.action, LobbyAction::Nothing));
    assert_eq!(1, game_state.lobby_count());
    assert_eq!(Some((GameLobbyStatus::Waiting, 1)), game_state.lobby_summary(id));
    // The lobby stays open: another nick joins it.
    let third = game_state.join_game(welcome("other", None), 3);
    assert_eq!(JoinGameResult::Joined, third.result);
    assert_eq!(Some((GameLobbyStatus::Waiting, 2)), game_state.lobby_summary(id));
}

#[test]
fn join_new_lobby_givenId_createsTheLobbyUnderIt() {
    let mut game_state = DefaultGameState::new(config(4));
    let outcome = game_state.join_new_lobby(42, "nick".to_owned(), 9);
    assert_eq!(JoinGameResult::Joined, outcome.result);
    assert_eq!(Some(42), outcome.lobby);
    assert_eq!(Some((GameLobbyStatus::Waiting, 1)), game_state.lobby_summary(42));
    // The new lobby is open: the next player without a game id joins it.
    let next = game_state.join_any_lobby("other".to_owned(), 10);
    assert_eq!(Some(42), next.lobby);
}

#[test]
fn join_game_by_id_unreadableId_isABadRequest() {
    let mut game_state = DefaultGameState::new(config(4));
    let outcome = game_state.join_game_by_id(None, "nick".to_owned(), 1);
    assert_eq!(JoinGameResult::BadRequest(1), outcome.result);
}

#[test]
fn finish_lobby_start_unknownLobby_changesNothing() {
    let mut game_state = DefaultGameState::new(config(4));
    assert!(game_state.finish_lobby_start(7, Some(vec![])).is_none());
    assert_eq!(0, game_state.lobby_count());
}

#[test]
fn finish_lobby_start_unreadyPlayer_isRemovedAndLobbyWaits() {
    let mut game_state = DefaultGameState::new(config(2));
    let a = game_state.join_game(welcome("a", None), 1);
    let id = a.lobby.unwrap();
    let b = game_state.join_game(welcome("b", None), 2);
    assert!(matches!(b.action, LobbyAction::AwaitReadiness(_)));
    let verdict = game_state
        .finish_lobby_start(id, Some(vec![("a".to_string(), Some(ready())), ("b".to_string(), None)]))
        .unwrap();
    assert_eq!(vec![1], verdict.broadcast.recipients);
    assert_eq!(vec![("b".to_string(), 2)], verdict.removed);
    assert_eq!(Some((GameLobbyStatus::Waiting, 1)), game_state.lobby_summary(id));
}

#[test]
fn add_player_result_namesMatchTheLobby() {
    let mut lobby = GameLobby::new(config(2));
    assert_eq!(AddPlayerResult::Success, lobby.add_player("x".to_owned(), 1).0);
}

#[test]
fn join_any_lobby_openLobbiesAreServedOldestFirst() {
    let mut game_state = DefaultGameState::new(config(5));
    game_state.join_new_lobby(1, "a".to_owned(), 1);
    game_state.join_new_lobby(2, "b".to_owned(), 2);
    let first = game_state.join_any_lobby("c".to_owned(), 3);
    assert_eq!(Some(1), first.lobby);
    // The lobby just served goes to the back of the queue.
    let second = game_state.join_any_lobby("d".to_owned(), 4);
    assert_eq!(Some(2), second.lobby);
    let third = game_state.join_any_lobby("e".to_owned(), 5);
    assert_eq!(Some(1), third.lobby);
}

#[test]
fn join_game_refusedRequest_changesNothing() {
    let config = config(5);
    let mut game_state = DefaultGameState::new(config);
    let uuid = Uuid::new_v4();
    game_state.insert_lobby(uuid.as_u128(), GameLobby::new(config));
    game_state.join_game(welcome("nick", Some(uuid.to_string())), 1);
    let before = game_state.lobby_summary(uuid.as_u128());

    let refused = [
        game_state.join_game(welcome("nick", Some(uuid.to_string())), 2),
        game_state.join_game(welcome("other", Some("garbage".to_owned())), 3),
        game_state.join_game(welcome("other", Some(Uuid::new_v4().to_string())), 4),
    ];

    for (outcome, handle) in refused.iter().zip([2u64, 3, 4]) {
        assert_ne!(JoinGameResult::Joined, outcome.result);
        match outcome.result {
            JoinGameResult::NickTaken(h)
            | JoinGameResult::BadRequest(h)
            | JoinGameResult::GameDoesNotExit(h)
            | JoinGameResult::GameIsFull(h) => assert_eq!(handle, h),
            JoinGameResult::Joined => unreachable!(),
        }
    }
    assert_eq!(1, game_state.lobby_count());
    assert_eq!(before, game_state.lobby_summary(uuid.as_u128()));
}

#[test]
fn join_game_gameIdIsNone_newLobbyGetsARandomVersion4Id() {
    let mut game_state = DefaultGameState::new(config(2));
    let outcome = game_state.join_game(welcome("nick", None), 1);
    let id = outcome.lobby.unwrap();
    assert_eq!(0x4000_8000_0000_0000_0000u128, id & 0xF000_C000_0000_0000_0000u128);
    assert_eq!(4, Uuid::from_u128(id).get_version_num());
}
