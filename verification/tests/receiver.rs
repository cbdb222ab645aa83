use communityvi::message::{
    ChatRequest, ClientRequest, ClientRequestWithId, ErrorMessage, ErrorMessageType, MessageError, ReceivedMessage,
};
use communityvi::receiver::{ReceiveAttempt, ReceiverAction, ReceiverEvent, MAXIMUM_RETRIES};

#[test]
fn should_close_after_10_invalid_messages() {
    let mut attempt = ReceiveAttempt::new();
    let mut responses = Vec::new();
    let mut finished = false;
    for _ in 0usize..10 {
        let event = ReceiverEvent::Malformed {
            error: MessageError::WrongMessageType("Binary([1, 2, 3, 4])".to_string()),
            request_id: None,
        };
        match attempt.on_event(event) {
            ReceiverAction::Reject { error, request_id } => responses.push((error, request_id)),
            ReceiverAction::RejectAndGiveUp {
                error,
                request_id,
                final_error,
            } => {
                responses.push((error, request_id));
                responses.push((final_error, None));
                finished = true;
            }
            _ => panic!("Unexpected action"),
        }
    }
    assert!(finished);
    assert_eq!(11, responses.len());
    assert_eq!(
        ErrorMessage::new(
            ErrorMessageType::InvalidFormat,
            "Client request has incorrect message type. Message was: Binary([1, 2, 3, 4])".to_string()
        ),
        responses[0].0
    );
    assert_eq!(
        (
            ErrorMessage::new(ErrorMessageType::InvalidOperation, "Too many retries".to_string()),
            None
        ),
        responses[10]
    );
    assert_eq!(10, MAXIMUM_RETRIES);
}

#[test]
fn receiver_answers_pings_and_hands_on_requests_and_pongs() {
    let mut attempt = ReceiveAttempt::new();
    match attempt.on_event(ReceiverEvent::Ping { payload: vec![1, 2] }) {
        ReceiverAction::SendPong { payload } => assert_eq!(vec![1, 2], payload),
        _ => panic!("Ping was not answered"),
    }
    let request = ClientRequestWithId {
        request_id: 7,
        request: ClientRequest::Chat(ChatRequest {
            message: "Hi".to_string(),
        }),
    };
    match attempt.on_event(ReceiverEvent::Request(request.clone())) {
        ReceiverAction::Deliver(received) => assert_eq!(ReceivedMessage::Request(request.clone()), received),
        _ => panic!("Request was not delivered"),
    }
    match attempt.on_event(ReceiverEvent::Pong { payload: vec![9] }) {
        ReceiverAction::Deliver(received) => assert_eq!(ReceivedMessage::Pong { payload: vec![9] }, received),
        _ => panic!("Pong was not delivered"),
    }
    assert!(matches!(attempt.on_event(ReceiverEvent::Close), ReceiverAction::CloseAndFinish));
    assert!(matches!(
        attempt.on_event(ReceiverEvent::Ended),
        ReceiverAction::Deliver(ReceivedMessage::Finished)
    ));
    assert!(matches!(
        attempt.on_event(ReceiverEvent::PongSendFailed),
        ReceiverAction::Deliver(ReceivedMessage::Finished)
    ));
    assert_eq!(ReceivedMessage::Request(request.clone()), ReceivedMessage::from(request));
}

#[test]
fn receiver_explains_undeserializable_messages_with_their_request_id() {
    let mut attempt = ReceiveAttempt::new();
    let event = ReceiverEvent::Malformed {
        error: MessageError::DeserializationFailed {
            error: "missing field `type`".to_string(),
            json: "{\"request_id\":3}".to_string(),
        },
        request_id: Some(3),
    };
    match attempt.on_event(event) {
        ReceiverAction::Reject { error, request_id } => {
            assert_eq!(Some(3), request_id);
            assert_eq!(ErrorMessageType::InvalidFormat, error.error);
            assert_eq!(
                "Failed to deserialize client message with error: missing field `type`, message was: {\"request_id\":3}",
                error.message
            );
        }
        _ => panic!("Malformed message was not rejected"),
    }
}
