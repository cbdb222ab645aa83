use communityvi::broadcast_message::{LeftReason, MediumBroadcast, MediumStateChangedBroadcast, VersionedMediumBroadcast};
use communityvi::lifecycle::{
    classify_pong, handle_request, medium_state_change, registration_step, Heartbeat, PongOutcome, RegistrationStep, RoomCommand, RoomError,
};
use communityvi::message::{
    ChatRequest, ClientRequest, ClientRequestWithId, ErrorMessage, ErrorMessageType, InsertMediumRequest, MediumRequest,
    PauseRequest, PlayRequest, ReceivedMessage, RegisterRequest,
};
use communityvi::sequence::ClientId;

#[test]
fn the_client_should_get_an_error_for_empty_chat_messages() {
    let empty_chat_request = ChatRequest {
        message: " \t".to_string(),
    };
    let non_empty_chat_request = ChatRequest {
        message: "Hi!".to_string(),
    };
    let error = handle_request(empty_chat_request.into_request()).expect_err("Accepted empty chat message.");
    let command = handle_request(non_empty_chat_request.clone().into_request())
        .expect("Failed to send proper chat message");

    assert_eq!(
        error,
        ErrorMessage::new(
            ErrorMessageType::EmptyChatMessage,
            "Chat messages must not be empty!".to_string()
        )
    );
    match command {
        RoomCommand::SendChatMessage(message) => assert_eq!(non_empty_chat_request.message, message),
        _ => panic!("Chat request did not become a chat message"),
    }
}

trait IntoRequest {
    fn into_request(self) -> ClientRequest;
}

impl IntoRequest for ChatRequest {
    fn into_request(self) -> ClientRequest {
        ClientRequest::Chat(self)
    }
}

#[test]
fn accepted_medium_changes_are_broadcast_with_the_changing_client() {
    let medium = VersionedMediumBroadcast {
        version: 1,
        medium: MediumBroadcast::FixedLength {
            name: "Metropolis".to_string(),
            length_in_milliseconds: 153 * 60 * 1000,
            playback_skipped: false,
            playback_state: communityvi::broadcast_message::PlaybackStateBroadcast::Paused {
                position_in_milliseconds: 0,
            },
        },
    };
    let broadcast = medium_state_change(ClientId::from(3), "Alice".to_string(), Some(medium.clone()), 0, 1)
        .expect("Change was refused");
    assert_eq!(
        MediumStateChangedBroadcast {
            changed_by_name: "Alice".to_string(),
            changed_by_id: ClientId::from(3),
            medium,
        },
        broadcast
    );
}

#[test]
fn should_not_allow_registering_client_twice() {
    let register_message = RegisterRequest {
        name: "Parcival".to_string(),
    };
    let error = handle_request(ClientRequest::Register(register_message)).expect_err("Registered twice");
    assert_eq!(
        error,
        ErrorMessage::new(ErrorMessageType::InvalidOperation, "Already registered".to_string())
    );
}

#[test]
fn medium_requests_go_to_the_room() {
    let insert = InsertMediumRequest {
        previous_version: 0,
        medium: MediumRequest::Empty,
    };
    assert!(matches!(
        handle_request(ClientRequest::InsertMedium(insert.clone())),
        Ok(RoomCommand::InsertMedium(request)) if request == insert
    ));
    let play = PlayRequest {
        previous_version: 1,
        skipped: true,
        start_time_in_milliseconds: -3,
    };
    assert!(matches!(handle_request(ClientRequest::Play(play)), Ok(RoomCommand::Play(request)) if request == play));
    let pause = PauseRequest {
        previous_version: 2,
        skipped: false,
        position_in_milliseconds: 1024,
    };
    assert!(matches!(handle_request(ClientRequest::Pause(pause)), Ok(RoomCommand::Pause(request)) if request == pause));
}

#[test]
fn registration_needs_a_register_request() {
    assert!(matches!(
        registration_step(ReceivedMessage::Finished),
        RegistrationStep::ClosedPrematurely
    ));
    assert!(matches!(
        registration_step(ReceivedMessage::Pong { payload: vec![] }),
        RegistrationStep::UnexpectedPong
    ));
    let chat = ClientRequestWithId {
        request_id: 5,
        request: ClientRequest::Chat(ChatRequest {
            message: "Hello".to_string(),
        }),
    };
    match registration_step(ReceivedMessage::Request(chat)) {
        RegistrationStep::Rejected { error, request_id } => {
            assert_eq!(5, request_id);
            assert_eq!(
                ErrorMessage::new(ErrorMessageType::InvalidOperation, "Invalid request".to_string()),
                error
            );
        }
        _ => panic!("Chat request was accepted for registration"),
    }
    let register = ClientRequestWithId {
        request_id: 6,
        request: ClientRequest::Register(RegisterRequest {
            name: "Johnny 5".to_string(),
        }),
    };
    match registration_step(ReceivedMessage::Request(register)) {
        RegistrationStep::Register { name, request_id } => {
            assert_eq!("Johnny 5", name);
            assert_eq!(6, request_id);
        }
        _ => panic!("Register request was refused"),
    }
}

#[test]
fn should_stop_after_missed_heartbeat_limit() {
    let mut heartbeat = Heartbeat::new(1);
    assert_eq!(Some(0), heartbeat.next_ping());
    assert_eq!(Some(LeftReason::Timeout), heartbeat.record(false));
}

#[test]
fn answered_heartbeats_reset_the_missed_count() {
    let mut heartbeat = Heartbeat::new(3);
    for count in 0..4usize {
        assert_eq!(Some(count), heartbeat.next_ping());
        assert_eq!(None, heartbeat.record(false));
        assert_eq!(None, heartbeat.record(false));
        assert_eq!(None, heartbeat.record(true));
    }
    assert_eq!(None, heartbeat.record(false));
    assert_eq!(None, heartbeat.record(false));
    assert_eq!(Some(LeftReason::Timeout), heartbeat.record(false));
}

#[test]
fn heartbeats_with_a_zero_limit_continue_while_answered() {
    let mut heartbeat = Heartbeat::new(0);
    for count in 0..4usize {
        assert_eq!(Some(count), heartbeat.next_ping());
        assert_eq!(None, heartbeat.record(true));
    }
}

#[test]
fn pongs_are_matched_by_their_payload() {
    let expected = 7usize.to_ne_bytes();
    assert_eq!(PongOutcome::Answered, classify_pong(&7usize.to_ne_bytes(), &expected));
    assert_eq!(PongOutcome::Other, classify_pong(&8usize.to_ne_bytes(), &expected));
    assert_eq!(PongOutcome::Malformed, classify_pong(&[1, 2, 3], &expected));
}
