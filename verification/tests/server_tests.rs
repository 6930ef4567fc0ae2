#![allow(non_snake_case)]

use spectrum::game::join_game_result::JoinGameResult;
use spectrum::model::client_message::ClientMessageData;
use spectrum::model::server_message::ServerMessageData;
use spectrum::model::server_welcome;
use spectrum::model::{ClientLeave, ClientMessage, ClientWelcome, PlayerReady, ServerMessage};
use spectrum::server::{
    client_task_step, is_nick_of_reasonable_length, join_reply, next_receive_step,
    package_stream_step, read_packet_outcome, serve_step, ClientMapKey, ClientTaskEvent,
    PacketEvent, ReceiveEvent, ReceiveStep, ServeEvent,
};

fn welcome_message(nick: String) -> ClientMessage {
    ClientMessage {
        client_message_data: Some(ClientMessageData::WelcomeMessage(ClientWelcome {
            nick,
            game_id: None,
        })),
    }
}

fn welcome_status(message: &ServerMessage) -> i32 {
    match message.server_message_data.clone().unwrap() {
        ServerMessageData::WelcomeMessage(welcome) => welcome.status_code,
        _ => panic!("ServerMessage type is not a welcome message"),
    }
}

#[test]
fn spawn_receiving_task_operationCancelled_futureCanComplete() {
    assert!(matches!(next_receive_step(ReceiveEvent::Cancelled), ReceiveStep::Exit));
}

#[test]
fn spawn_receiving_task_sendInvalidMessage_futureCanComplete() {
    let client_message = ClientMessage {
        client_message_data: Some(ClientMessageData::LeaveMessage(ClientLeave {})),
    };
    assert!(matches!(
        next_receive_step(ReceiveEvent::Message(client_message)),
        ReceiveStep::Exit
    ));
}

#[test]
fn spawn_receiving_task_connectionClosed_futureCanComplete() {
    assert!(matches!(
        next_receive_step(ReceiveEvent::ConnectionClosed),
        ReceiveStep::Exit
    ));
}

#[test]
fn spawn_receiving_task_sendEmptyNick_sendsBadRequest() {
    match next_receive_step(ReceiveEvent::Message(welcome_message(String::new()))) {
        ReceiveStep::ReplyAndExit(message) => {
            let bad_request: i32 = server_welcome::StatusCode::BadRequest.value();
            assert_eq!(bad_request, welcome_status(&message));
        }
        _ => panic!("ServerMessage type is not a BadRequest"),
    }
}

#[test]
fn spawn_receiving_task_sendNickWithMaxLength_doesNotComplete() {
    match next_receive_step(ReceiveEvent::Message(welcome_message("A".repeat(32)))) {
        ReceiveStep::Join(welcome) => assert_eq!("A".repeat(32), welcome.nick),
        _ => panic!("the welcome should go on to the game state"),
    }
}

#[test]
fn next_receive_step_nickTooLong_sendsBadRequest() {
    assert!(matches!(
        next_receive_step(ReceiveEvent::Message(welcome_message("A".repeat(33)))),
        ReceiveStep::ReplyAndExit(_)
    ));
}

#[test]
fn next_receive_step_nickLengthCountsBytes() {
    // Eleven characters of three bytes each make 33 bytes.
    assert!(!is_nick_of_reasonable_length(&"€".repeat(11)));
    assert!(is_nick_of_reasonable_length(&"€".repeat(10)));
    assert!(!is_nick_of_reasonable_length(""));
    assert!(is_nick_of_reasonable_length("a"));
}

#[test]
fn next_receive_step_playerReadyFirst_exits() {
    let message = ClientMessage {
        client_message_data: Some(ClientMessageData::PlayerReady(PlayerReady {})),
    };
    assert!(matches!(
        next_receive_step(ReceiveEvent::Message(message)),
        ReceiveStep::Exit
    ));
    let empty = ClientMessage {
        client_message_data: None,
    };
    assert!(matches!(
        next_receive_step(ReceiveEvent::Message(empty)),
        ReceiveStep::Exit
    ));
}

#[test]
fn spawn_receiving_task_gameIsFull_acceptsNextPackets() {
    let (reply, exit) = join_reply(&JoinGameResult::GameIsFull(()));
    let game_is_full: i32 = server_welcome::StatusCode::GameCouldNotBeFound.value();
    assert_eq!(game_is_full, welcome_status(&reply.unwrap()));
    assert!(!exit);
}

#[test]
fn spawn_receiving_task_gameDoesNotExist_acceptsNextPackets() {
    let (reply, exit) = join_reply(&JoinGameResult::GameDoesNotExit(()));
    let game_does_not_exist: i32 = server_welcome::StatusCode::GameCouldNotBeFound.value();
    assert_eq!(game_does_not_exist, welcome_status(&reply.unwrap()));
    assert!(!exit);
}

#[test]
fn spawn_receiving_task_nickTaken_acceptsNextPackets() {
    let (reply, exit) = join_reply(&JoinGameResult::NickTaken(()));
    let nick_taken: i32 = server_welcome::StatusCode::NickTaken.value();
    assert_eq!(nick_taken, welcome_status(&reply.unwrap()));
    assert!(!exit);
}

#[test]
fn join_reply_joined_exitsSilently() {
    let (reply, exit) = join_reply(&JoinGameResult::<()>::Joined);
    assert!(reply.is_none());
    assert!(exit);
}

#[test]
fn join_reply_badRequest_repliesAndExits() {
    let (reply, exit) = join_reply(&JoinGameResult::BadRequest(()));
    let bad_request: i32 = server_welcome::StatusCode::BadRequest.value();
    assert_eq!(bad_request, welcome_status(&reply.unwrap()));
    assert!(exit);
}

#[test]
fn package_stream_step_decodedMessage_isForwarded() {
    let message = welcome_message("foo".to_owned());
    let (forwarded, stop) = package_stream_step::<()>(PacketEvent::Decoded(Ok(message.clone())));
    assert_eq!(Some(message), forwarded);
    assert!(!stop);
}

#[test]
fn package_stream_step_undecodablePacketOrEnd_stops() {
    for event in [
        PacketEvent::Decoded(Err(())),
        PacketEvent::Cancelled,
        PacketEvent::Exhausted,
    ] {
        let (forwarded, stop) = package_stream_step(event);
        assert!(forwarded.is_none());
        assert!(stop);
    }
}

#[test]
fn read_packet_outcome_dropsUndecodablePackets() {
    assert_eq!(Some(5), read_packet_outcome::<i32, ()>(Some(Ok(5))));
    assert_eq!(None, read_packet_outcome::<i32, ()>(Some(Err(()))));
    assert_eq!(None, read_packet_outcome::<i32, ()>(None));
}

#[test]
fn client_task_step_cancellationDropsTheClient() {
    assert_eq!((true, true), client_task_step(&ClientTaskEvent::Cancelled));
    assert_eq!((false, true), client_task_step(&ClientTaskEvent::ConnectionClosed));
    let message = welcome_message("x".to_owned());
    assert_eq!((false, false), client_task_step(&ClientTaskEvent::Message(message)));
}

#[test]
fn serve_step_servesAcceptedConnectionsUntilCancelledOrFailed() {
    assert_eq!(Some(7), serve_step(ServeEvent::Accepted(7)));
    assert_eq!(None, serve_step::<i32>(ServeEvent::Cancelled));
    assert_eq!(None, serve_step::<i32>(ServeEvent::ListenerFailed));
}

#[test]
fn client_map_key_fromU64_keepsTheValue() {
    assert_eq!(ClientMapKey(17), ClientMapKey::from(17u64));
}

#[test]
fn open_package_stream_sendPacketsBeforePackageStreamConstruction_yieldsPreviousPackets() {
    let client_message = ClientMessage {
        client_message_data: Some(ClientMessageData::WelcomeMessage(ClientWelcome {
            nick: "foo".to_owned(),
            game_id: Some("bar".to_owned()),
        })),
    };
    let mut forwarded = Vec::new();
    for event in [
        PacketEvent::<()>::Decoded(Ok(client_message.clone())),
        PacketEvent::Decoded(Ok(client_message.clone())),
    ] {
        let (message, stop) = package_stream_step(event);
        assert!(!stop);
        forwarded.extend(message);
    }
    assert_eq!(vec![client_message.clone(), client_message], forwarded);
}

#[test]
fn open_package_stream_channelReceivedPacketsAfterCancelling_yieldsNoPreviousPackets() {
    let (message, stop) = package_stream_step::<()>(PacketEvent::Cancelled);
    assert!(message.is_none());
    assert!(stop);
}
