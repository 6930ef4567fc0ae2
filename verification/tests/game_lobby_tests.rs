#![allow(non_snake_case)]

use spectrum::config::GameStateConfig;
use spectrum::game::game_lobby::{
    players_to_remove, readiness_reply, AddPlayerResult, GameLobby, LobbyAction, LobbyBroadcast,
    ReadinessOutcome, ReadinessVerdict,
};
use spectrum::game::game_lobby_status::GameLobbyStatus;
use spectrum::model::client_message::ClientMessageData;
use spectrum::model::lobby_update::StatusCode;
use spectrum::model::server_message::ServerMessageData;
use spectrum::model::{ClientMessage, ClientWelcome, PlayerReady};

fn make_player_welcome() -> ClientMessage {
    ClientMessage {
        client_message_data: Some(ClientMessageData::WelcomeMessage(ClientWelcome {
            nick: "nick".to_owned(),
            game_id: None,
        })),
    }
}

fn make_player_ready() -> ClientMessage {
    ClientMessage {
        client_message_data: Some(ClientMessageData::PlayerReady(PlayerReady {})),
    }
}

fn config(players: usize) -> GameStateConfig {
    GameStateConfig {
        player_readiness_timeout: 2000,
        number_of_players_in_game_lobby: players,
    }
}

fn lobby_update_of(broadcast: &LobbyBroadcast) -> (StatusCode, Vec<String>) {
    match broadcast.message.server_message_data.clone().unwrap() {
        ServerMessageData::LobbyUpdate(update) => (
            StatusCode::from_i32(update.status_code).unwrap(),
            update.players,
        ),
        other => panic!("ServerMessageData is not a LobbyUpdate. It's {:?}", other),
    }
}

fn lobby_with_players(players: &[(&str, u64)]) -> GameLobby {
    let mut lobby = GameLobby::new(config(10));
    for (nick, handle) in players {
        let (result, _) = lobby.add_player(nick.to_string(), *handle);
        assert!(matches!(result, AddPlayerResult::Success));
    }
    lobby
}

#[test]
fn broadcast_players_singlePlayerPresent_broadcastsSent() {
    // Arrange
    let lobby = lobby_with_players(&[("nick", 7)]);

    // Act
    let broadcast = lobby.broadcast_players(StatusCode::Waiting);

    // Assert
    let (status, players) = lobby_update_of(&broadcast);
    assert_eq!(StatusCode::Waiting, status);
    assert_eq!(1, players.len());
    assert_eq!("nick", players.get(0).unwrap());
    assert_eq!(vec![7], broadcast.recipients);
}

#[test]
fn broadcast_players_playerClosedItsChannel_broadcastedToOtherPlayers() {
    // Arrange
    let lobby = lobby_with_players(&[("nick1", 1), ("nick2", 2), ("nick3", 3)]);

    // Act
    let broadcast = lobby.broadcast_players(StatusCode::GameReady);

    // Assert
    let (status, players) = lobby_update_of(&broadcast);
    assert_eq!(StatusCode::GameReady, status);
    assert_eq!(3, players.len());
    assert!(players.contains(&"nick1".to_owned()));
    assert!(players.contains(&"nick2".to_owned()));
    assert!(players.contains(&"nick3".to_owned()));
    let mut recipients = broadcast.recipients.clone();
    recipients.sort();
    assert_eq!(vec![1, 2, 3], recipients);
}

#[test]
fn broadcast_players_recipientsFollowTheListedNicks() {
    let lobby = lobby_with_players(&[("a", 10), ("b", 20), ("c", 30)]);
    let broadcast = lobby.broadcast_players(StatusCode::Waiting);
    let (_, players) = lobby_update_of(&broadcast);
    for (nick, handle) in players.iter().zip(broadcast.recipients.iter()) {
        let expected = match nick.as_str() {
            "a" => 10,
            "b" => 20,
            "c" => 30,
            other => panic!("unexpected nick {}", other),
        };
        assert_eq!(expected, *handle);
    }
}

#[test]
fn wait_for_readiness_getsNone_playerIsAddedToRemoveList() {
    let replies = vec![("nick1".to_string(), None), ("nick2".to_string(), None)];

    let result = players_to_remove(&replies);

    assert_eq!(2, result.len());
    assert!(result.contains(&"nick1".to_string()));
    assert!(result.contains(&"nick2".to_string()));
}

#[test]
fn wait_for_readiness_playerSendsIncorrectMessage_playerIsAddedToRemoveList() {
    let message = make_player_welcome();
    let replies = vec![
        ("nick1".to_string(), Some(message.clone())),
        ("nick2".to_string(), Some(message.clone())),
    ];

    let result = players_to_remove(&replies);

    assert_eq!(2, result.len());
    assert!(result.contains(&"nick1".to_string()));
    assert!(result.contains(&"nick2".to_string()));
}

#[test]
fn wait_for_readiness_playerSendsCorrectMessage_playerIsNotAddedToRemoveList() {
    let message = make_player_ready();
    let replies = vec![
        ("nick1".to_string(), Some(message.clone())),
        ("nick2".to_string(), Some(message.clone())),
    ];

    let result = players_to_remove(&replies);

    assert_eq!(0, result.len());
}

#[test]
fn wait_for_readiness_onePlayerSendsIncorrectMessage_hasNoEffectOnOtherPlayers() {
    let replies = vec![
        ("nick1".to_string(), Some(make_player_ready())),
        ("nick2".to_string(), Some(make_player_welcome())),
    ];

    let result = players_to_remove(&replies);

    assert_eq!(1, result.len());
    assert!(result.contains(&"nick2".to_string()));
}

#[test]
fn players_to_remove_keepsTheOrderOfTheReplies() {
    let replies = vec![
        ("c".to_string(), None),
        ("a".to_string(), Some(make_player_ready())),
        ("b".to_string(), Some(make_player_welcome())),
    ];
    assert_eq!(
        vec!["c".to_string(), "b".to_string()],
        players_to_remove(&replies)
    );
}

#[test]
fn get_readiness_futures_collection_timeoutIsDefined_futuresCancelledInADefinedTimeout() {
    assert_eq!(None, readiness_reply(ReadinessOutcome::TimedOut));
}

#[test]
fn get_readiness_futures_collection_tokenHasBeenCancelled_futuresCompleteImmediately() {
    assert_eq!(None, readiness_reply(ReadinessOutcome::Cancelled));
}

#[test]
fn get_readiness_futures_collection_clientCloseConnection_futuresCompleteImmediately() {
    assert_eq!(None, readiness_reply(ReadinessOutcome::Received(None)));
}

#[test]
fn get_readiness_futures_collection_clientSentMessage_futuresCompleteImmediatelyWithMessage() {
    let client_message = make_player_ready();
    assert_eq!(
        Some(client_message.clone()),
        readiness_reply(ReadinessOutcome::Received(Some(client_message)))
    );
}

#[test]
fn add_player_gameAlreadyStarted_ReturnsGameStarted() {
    // Arrange
    let mut lobby = GameLobby::new(config(10));
    lobby.set_game_lobby_state(GameLobbyStatus::Starting);

    // Act
    let (result, action) = lobby.add_player(String::new(), 5);

    // Assert
    assert_eq!(AddPlayerResult::GameRunning(5), result);
    assert!(matches!(action, LobbyAction::Nothing));
    assert_eq!(0, lobby.player_count());
}

#[test]
fn add_player_nickTaken_ReturnsNickTaken() {
    // Arrange
    let mut lobby = GameLobby::new(config(10));

    let (result, _) = lobby.add_player("nick".to_owned(), 1);
    assert!(matches!(result, AddPlayerResult::Success));

    // Act
    let (result, action) = lobby.add_player("nick".to_owned(), 2);

    // Assert
    assert_eq!(AddPlayerResult::NickTaken(2), result);
    assert!(matches!(action, LobbyAction::Nothing));
    assert_eq!(1, lobby.player_count());
}

#[test]
fn add_player_numberOfPlayersHasNotBeenMet_ReturnsSuccess() {
    // Arrange
    let mut lobby = GameLobby::new(config(3));

    // Act
    let (result, _) = lobby.add_player("nick1".to_owned(), 1);
    assert!(matches!(result, AddPlayerResult::Success));
    let (result, _) = lobby.add_player("nick2".to_owned(), 2);
    assert!(matches!(result, AddPlayerResult::Success));

    // Assert
    assert_eq!(GameLobbyStatus::Waiting, lobby.get_state());
}

#[test]
fn add_player_numberOfPlayersHasNotBeenMet_broadCastsWaitingLobbyUpdate() {
    // Arrange
    let mut lobby = GameLobby::new(config(3));

    // Act
    let (_, first) = lobby.add_player("nick1".to_owned(), 1);
    let (_, second) = lobby.add_player("nick2".to_owned(), 2);

    // Assert
    match first {
        LobbyAction::Broadcast(broadcast) => {
            let (status, players) = lobby_update_of(&broadcast);
            assert_eq!(StatusCode::Waiting, status);
            assert_eq!(vec!["nick1".to_string()], players);
            assert_eq!(vec![1], broadcast.recipients);
        }
        other => panic!("expected a broadcast, got {:?}", other),
    }
    match second {
        LobbyAction::Broadcast(broadcast) => {
            let (status, players) = lobby_update_of(&broadcast);
            assert_eq!(StatusCode::Waiting, status);
            assert_eq!(2, players.len());
            let mut recipients = broadcast.recipients.clone();
            recipients.sort();
            assert_eq!(vec![1, 2], recipients);
        }
        other => panic!("expected a broadcast, got {:?}", other),
    }
}

#[test]
fn add_player_numberOfPlayersHasBeenMet_startsTheGame() {
    // Arrange
    let mut lobby = GameLobby::new(config(2));

    let (result, _) = lobby.add_player("nick1".to_owned(), 1);
    assert!(matches!(result, AddPlayerResult::Success));

    // Act
    let (result, action) = lobby.add_player("nick2".to_owned(), 2);

    // Assert
    assert_eq!(AddPlayerResult::GameStarted, result);
    assert_eq!(GameLobbyStatus::Starting, lobby.get_state());
    match action {
        LobbyAction::AwaitReadiness(mut players) => {
            players.sort();
            assert_eq!(
                vec![("nick1".to_string(), 1), ("nick2".to_string(), 2)],
                players
            );
        }
        other => panic!("expected a readiness check, got {:?}", other),
    }
}

#[test]
fn add_player_capacityZero_firstPlayerStartsTheGame() {
    let mut lobby = GameLobby::new(config(0));
    let (result, _) = lobby.add_player("solo".to_owned(), 9);
    assert_eq!(AddPlayerResult::GameStarted, result);
    assert_eq!(GameLobbyStatus::Starting, lobby.get_state());
}

#[test]
fn start_statusIsNotWaiting_returnsImmediately() {
    // Arrange
    let mut lobby = GameLobby::new(GameStateConfig::default());
    lobby.set_game_lobby_state(GameLobbyStatus::Started);

    // Act
    let action = lobby.start();

    // Assert
    assert!(matches!(action, LobbyAction::Nothing));
    assert_eq!(GameLobbyStatus::Started, lobby.get_state());
}

fn start_with_one_unresponsive_player() -> (GameLobby, Option<ReadinessVerdict>) {
    let mut lobby = GameLobby::new(config(3));
    let (result, _) = lobby.add_player("nick1".to_owned(), 1);
    assert!(matches!(result, AddPlayerResult::Success));
    let (result, _) = lobby.add_player("nick2".to_owned(), 2);
    assert!(matches!(result, AddPlayerResult::Success));

    let asked = match lobby.start() {
        LobbyAction::AwaitReadiness(players) => players,
        other => panic!("expected a readiness check, got {:?}", other),
    };
    assert_eq!(2, asked.len());
    assert_eq!(GameLobbyStatus::Starting, lobby.get_state());

    let replies = vec![
        ("nick1".to_string(), None),
        ("nick2".to_string(), Some(make_player_ready())),
    ];
    let verdict = lobby.finish_start(Some(replies));
    (lobby, verdict)
}

#[test]
fn start_playerFailsToConfirmReadiness_changesStatusToWaiting() {
    let (lobby, _) = start_with_one_unresponsive_player();
    assert_eq!(GameLobbyStatus::Waiting, lobby.get_state());
}

#[test]
fn start_playerFailsToConfirmReadiness_removesPlayerFromLobby() {
    let (lobby, _) = start_with_one_unresponsive_player();
    assert_eq!(1, lobby.player_count());
    assert!(lobby.has_player(&"nick2".to_string()));
    assert!(!lobby.has_player(&"nick1".to_string()));
}

#[test]
fn start_playerFailsToConfirmReadiness_broadcastsWaiting() {
    let (_, verdict) = start_with_one_unresponsive_player();
    let verdict = verdict.unwrap();
    assert_eq!(vec![("nick1".to_string(), 1)], verdict.removed);
    let broadcast = verdict.broadcast;
    let (status, players) = lobby_update_of(&broadcast);
    assert_eq!(StatusCode::Waiting, status);
    assert_eq!(vec!["nick2".to_string()], players);
    assert_eq!(vec![2], broadcast.recipients);
}

#[test]
fn start_gameStarts_broadcastsGameReady() {
    // Arrange
    let mut lobby = GameLobby::new(config(2));
    let (result, _) = lobby.add_player("nick1".to_owned(), 1);
    assert!(matches!(result, AddPlayerResult::Success));
    assert!(matches!(lobby.start(), LobbyAction::AwaitReadiness(_)));

    // Act
    let verdict = lobby.finish_start(Some(vec![("nick1".to_string(), Some(make_player_ready()))]));

    // Assert
    assert_eq!(GameLobbyStatus::Started, lobby.get_state());
    let verdict = verdict.unwrap();
    assert!(verdict.removed.is_empty());
    let broadcast = verdict.broadcast;
    let (status, players) = lobby_update_of(&broadcast);
    assert_eq!(StatusCode::GameReady, status);
    assert_eq!(vec!["nick1".to_string()], players);
    assert_eq!(vec![1], broadcast.recipients);
}

#[test]
fn finish_start_checkFailed_leavesTheLobbyStarting() {
    let mut lobby = lobby_with_players(&[("a", 1)]);
    assert!(matches!(lobby.start(), LobbyAction::AwaitReadiness(_)));
    assert!(lobby.finish_start(None).is_none());
    assert_eq!(GameLobbyStatus::Starting, lobby.get_state());
    assert_eq!(1, lobby.player_count());
}

#[test]
fn finish_start_afterFailedCheck_lobbyIsShortOfPlayersAgain() {
    // A lobby of capacity 2 fills up, one player does not confirm: the lobby waits with fewer
    // players than it needs, and the next player fills it up again.
    let mut lobby = GameLobby::new(config(2));
    lobby.add_player("a".to_owned(), 1);
    let (result, _) = lobby.add_player("b".to_owned(), 2);
    assert_eq!(AddPlayerResult::GameStarted, result);
    lobby.finish_start(Some(vec![
        ("a".to_string(), Some(make_player_ready())),
        ("b".to_string(), Some(make_player_welcome())),
    ]));
    assert_eq!(GameLobbyStatus::Waiting, lobby.get_state());
    assert_eq!(1, lobby.player_count());
    let (result, _) = lobby.add_player("c".to_owned(), 3);
    assert_eq!(AddPlayerResult::GameStarted, result);
}

#[test]
fn lobby_neverExceedsItsCapacity() {
    // Players join until the lobby starts; while it is starting nobody else gets in.
    let mut lobby = GameLobby::new(config(3));
    for handle in 0..3u64 {
        lobby.add_player(format!("p{}", handle), handle);
    }
    assert_eq!(GameLobbyStatus::Starting, lobby.get_state());
    let (result, _) = lobby.add_player("late".to_owned(), 99);
    assert_eq!(AddPlayerResult::GameRunning(99), result);
    assert_eq!(3, lobby.player_count());
}

#[test]
fn started_onlyAfterEveryPlayerConfirmed() {
    let mut lobby = GameLobby::new(config(2));
    lobby.add_player("a".to_owned(), 1);
    lobby.add_player("b".to_owned(), 2);
    assert_eq!(GameLobbyStatus::Starting, lobby.get_state());
    // A second start while starting does nothing.
    assert!(matches!(lobby.start(), LobbyAction::Nothing));
    lobby.finish_start(Some(vec![
        ("a".to_string(), Some(make_player_ready())),
        ("b".to_string(), Some(make_player_ready())),
    ]));
    assert_eq!(GameLobbyStatus::Started, lobby.get_state());
    assert_eq!(2, lobby.player_count());
}

#[test]
fn finish_start_playerWithoutReply_isNotReady() {
    // A player that no reply speaks of has not confirmed: the game does not start, and the
    // player leaves.
    let mut lobby = GameLobby::new(config(1));
    let (result, _) = lobby.add_player("solo".to_owned(), 9);
    assert_eq!(AddPlayerResult::GameStarted, result);
    let verdict = lobby.finish_start(Some(vec![])).unwrap();
    assert_eq!(GameLobbyStatus::Waiting, lobby.get_state());
    assert_eq!(0, lobby.player_count());
    assert_eq!(vec![("solo".to_string(), 9)], verdict.removed);
    let (status, players) = lobby_update_of(&verdict.broadcast);
    assert_eq!(StatusCode::Waiting, status);
    assert!(players.is_empty());
    assert!(verdict.broadcast.recipients.is_empty());
}

#[test]
fn finish_start_confirmationAndRefusalForOneNick_isNotReady() {
    let mut lobby = GameLobby::new(config(2));
    lobby.add_player("a".to_owned(), 1);
    lobby.add_player("b".to_owned(), 2);
    let verdict = lobby
        .finish_start(Some(vec![
            ("a".to_string(), Some(make_player_ready())),
            ("b".to_string(), Some(make_player_ready())),
            ("b".to_string(), None),
            ("stranger".to_string(), None),
        ]))
        .unwrap();
    assert_eq!(GameLobbyStatus::Waiting, lobby.get_state());
    assert_eq!(vec![("b".to_string(), 2)], verdict.removed);
    assert!(lobby.has_player(&"a".to_string()));
}
