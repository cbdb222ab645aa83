use communityvi::message::MessageError;
use communityvi::receiver::{ReceiveAttempt, MAXIMUM_RETRIES};
use communityvi::server_connection::{
    ErrorResponse, OrderedMessage, ServerConnectionAction, ServerConnectionEvent, ServerResponse, StreamServerConnection,
};

#[derive(Clone, Debug, PartialEq, Eq)]
enum ClientRequest {
    Ping,
}

fn some_ordered_message(number: u64) -> OrderedMessage<ClientRequest> {
    OrderedMessage {
        number,
        message: ClientRequest::Ping,
    }
}

/// Feeds the messages to a fresh connection and returns how many were delivered
/// and the responses sent back.
fn receive_all(messages: Vec<OrderedMessage<ClientRequest>>) -> (usize, Vec<ServerResponse>) {
    let mut connection = StreamServerConnection::new();
    let mut delivered = 0;
    let mut responses = Vec::new();
    let mut attempt = ReceiveAttempt::new();
    for message in messages {
        match connection.on_event(&mut attempt, ServerConnectionEvent::Message(message)) {
            ServerConnectionAction::Deliver(_) => {
                delivered += 1;
                attempt = ReceiveAttempt::new();
            }
            ServerConnectionAction::Respond(response) => responses.push(response),
            ServerConnectionAction::RespondAndGiveUp { response, final_response } => {
                responses.push(response);
                responses.push(final_response);
                break;
            }
            ServerConnectionAction::Finish | ServerConnectionAction::CloseAndFinish => break,
        }
    }
    (delivered, responses)
}

fn invalid_message_number(message: &str) -> ServerResponse {
    ServerResponse::Error {
        error: ErrorResponse::InvalidMessageNumber,
        message: message.to_string(),
    }
}

#[test]
fn should_reject_nonzero_message_numbers_at_start_of_conversation() {
    let (delivered, responses) = receive_all(vec![some_ordered_message(42)]);
    assert_eq!(0, delivered);
    assert_eq!(
        vec![invalid_message_number(
            "Received message number '42', conversation must start with '0'!"
        )],
        responses
    );
}

#[test]
fn should_reject_messages_with_message_numbers_lower_than_the_previous() {
    let (delivered, responses) = receive_all(vec![
        some_ordered_message(0),
        some_ordered_message(1),
        some_ordered_message(0),
    ]);
    assert_eq!(2, delivered);
    assert_eq!(
        vec![invalid_message_number("Received message number '0', expected larger than '1'!")],
        responses
    );
}

#[test]
fn should_reject_messages_with_message_numbers_identical_to_the_previous() {
    let first_message = some_ordered_message(0);
    let first_message_sent_again = first_message.clone();
    let (delivered, responses) = receive_all(vec![first_message, first_message_sent_again]);
    assert_eq!(1, delivered);
    assert_eq!(
        vec![invalid_message_number("Received message number '0', expected larger than '0'!")],
        responses
    );
}

#[test]
fn should_accept_conversations_beginning_with_message_number_zero() {
    let (delivered, responses) = receive_all(vec![some_ordered_message(0)]);
    assert_eq!(1, delivered);
    assert!(responses.is_empty());
}

#[test]
fn should_accept_strictly_increasing_message_numbers() {
    let (delivered, responses) = receive_all(vec![
        some_ordered_message(0),
        some_ordered_message(1),
        some_ordered_message(9),
        some_ordered_message(1337),
    ]);
    assert_eq!(4, delivered);
    assert!(responses.is_empty());
}

#[test]
fn server_connection_gives_up_after_too_many_retries() {
    let mut connection = StreamServerConnection::new();
    let mut attempt = ReceiveAttempt::new();
    for retry in 1..=MAXIMUM_RETRIES {
        let action = connection.on_event(
            &mut attempt,
            ServerConnectionEvent::<ClientRequest>::Malformed(MessageError::DeserializationFailed {
                error: "expected value".to_string(),
                json: "nope".to_string(),
            }),
        );
        let expected = ServerResponse::Error {
            error: ErrorResponse::InvalidFormat,
            message: "Failed to deserialize client message with error: expected value, message was: nope".to_string(),
        };
        match action {
            ServerConnectionAction::Respond(response) => {
                assert!(retry < MAXIMUM_RETRIES);
                assert_eq!(expected, response);
            }
            ServerConnectionAction::RespondAndGiveUp { response, final_response } => {
                assert_eq!(MAXIMUM_RETRIES, retry);
                assert_eq!(expected, response);
                assert_eq!(
                    ServerResponse::Error {
                        error: ErrorResponse::InvalidOperation,
                        message: "Too many retries".to_string(),
                    },
                    final_response
                );
            }
            _ => panic!("Unexpected action"),
        }
    }
}

#[test]
fn server_connection_finishes_on_close_and_end() {
    let mut connection = StreamServerConnection::new();
    let mut attempt = ReceiveAttempt::new();
    assert!(matches!(
        connection.on_event(&mut attempt, ServerConnectionEvent::<ClientRequest>::Close),
        ServerConnectionAction::CloseAndFinish
    ));
    assert!(matches!(
        connection.on_event(&mut attempt, ServerConnectionEvent::<ClientRequest>::Ended),
        ServerConnectionAction::Finish
    ));
}
