use vstd::prelude::*;
use vstd::string::StringExecFns;
use crate::message::{ClientRequestWithId, ErrorMessage, ErrorMessageType, MessageError, ReceivedMessage};

verus! {

/// How many malformed messages one receive tolerates before it gives up.
pub const MAXIMUM_RETRIES: usize = 10;

/// The explanation sent back for a message that could not be read as a request.
pub open spec fn message_error_text(error: MessageError) -> Seq<char> {
    match error {
        MessageError::DeserializationFailed { error, json } =>
            "Failed to deserialize client message with error: "@ + error@ + ", message was: "@ + json@,
        MessageError::WrongMessageType(shown) =>
            "Client request has incorrect message type. Message was: "@ + shown@,
    }
}

/// Writes the explanation for a message that could not be read as a request.
pub fn describe_message_error(error: &MessageError) -> (text: String)
    ensures
        text@ == message_error_text(*error),
{
    match error {
        MessageError::DeserializationFailed { error, json } => {
            let mut text = String::from_str("Failed to deserialize client message with error: ");
            text.append(error.as_str());
            text.append(", message was: ");
            text.append(json.as_str());
            text
        },
        MessageError::WrongMessageType(shown) => {
            let mut text = String::from_str("Client request has incorrect message type. Message was: ");
            text.append(shown.as_str());
            text
        },
    }
}

/// What arrived on a client's websocket while receiving.
pub enum ReceiverEvent {
    /// A ping with its payload.
    Ping { payload: Vec<u8> },
    /// Answering a ping with a pong failed.
    PongSendFailed,
    /// A pong with its payload.
    Pong { payload: Vec<u8> },
    /// The client closed the connection.
    Close,
    /// The stream ended or failed.
    Ended,
    /// A well-formed request.
    Request(ClientRequestWithId),
    /// A message that is no request, with the request id that could still be read from it.
    Malformed { error: MessageError, request_id: Option<u64> },
}

/// What the receiving side does next.
pub enum ReceiverAction {
    /// Answer with a pong carrying this payload, then wait for the next message.
    SendPong { payload: Vec<u8> },
    /// Stop receiving and hand this on.
    Deliver(ReceivedMessage),
    /// Close the connection, then hand on `Finished`.
    CloseAndFinish,
    /// Answer with this error, then wait for the next message.
    Reject { error: ErrorMessage, request_id: Option<u64> },
    /// Answer with this error, then with `final_error` (without request id), close
    /// the connection and hand on `Finished`.
    RejectAndGiveUp { error: ErrorMessage, request_id: Option<u64>, final_error: ErrorMessage },
}

/// One call of receiving: counts the malformed messages seen so far.
pub struct ReceiveAttempt {
    failed_attempts: usize,
}

impl ReceiveAttempt {
    /// How many malformed messages this attempt has answered.
    pub closed spec fn failed_attempts(&self) -> nat {
        self.failed_attempts as nat
    }

    /// A fresh attempt that has seen no malformed message yet.
    pub fn new() -> (attempt: Self)
        ensures
            attempt.failed_attempts() == 0,
    {
        ReceiveAttempt { failed_attempts: 0 }
    }

    /// Counts one more malformed message and tells whether the attempt is used up.
    pub(crate) fn record_failure(&mut self) -> (exhausted: bool)
        requires
            old(self).failed_attempts() < MAXIMUM_RETRIES,
        ensures
            final(self).failed_attempts() == old(self).failed_attempts() + 1,
            exhausted == (final(self).failed_attempts() >= MAXIMUM_RETRIES),
    {
        self.failed_attempts = self.failed_attempts + 1;
        self.failed_attempts >= MAXIMUM_RETRIES
    }

    /// Decides what to do with the next thing that arrived.
    ///
    /// Pings are answered in place; pongs, requests, the end of the stream and a
    /// close are handed on. A malformed message is answered with an
    /// `InvalidFormat` error; the `MAXIMUM_RETRIES`-th malformed message is also
    /// followed by an `InvalidOperation` error "Too many retries" and the close of
    /// the connection.
    pub fn on_event(&mut self, event: ReceiverEvent) -> (action: ReceiverAction)
        requires
            old(self).failed_attempts() < MAXIMUM_RETRIES,
        ensures
            final(self).failed_attempts() <= MAXIMUM_RETRIES,
            match event {
                ReceiverEvent::Ping { payload } =>
                    action == ReceiverAction::SendPong { payload }
                        && final(self).failed_attempts() == old(self).failed_attempts(),
                ReceiverEvent::PongSendFailed =>
                    action == ReceiverAction::Deliver(ReceivedMessage::Finished)
                        && final(self).failed_attempts() == old(self).failed_attempts(),
                ReceiverEvent::Pong { payload } =>
                    action == ReceiverAction::Deliver(ReceivedMessage::Pong { payload })
                        && final(self).failed_attempts() == old(self).failed_attempts(),
                ReceiverEvent::Close => action == ReceiverAction::CloseAndFinish
                        && final(self).failed_attempts() == old(self).failed_attempts(),
                ReceiverEvent::Ended => action == ReceiverAction::Deliver(ReceivedMessage::Finished)
                        && final(self).failed_attempts() == old(self).failed_attempts(),
                ReceiverEvent::Request(request) =>
                    action == ReceiverAction::Deliver(ReceivedMessage::Request(request))
                        && final(self).failed_attempts() == old(self).failed_attempts(),
                ReceiverEvent::Malformed { error, request_id } => {
                    &&& final(self).failed_attempts() == old(self).failed_attempts() + 1
                    &&& if final(self).failed_attempts() < MAXIMUM_RETRIES {
                        action matches ReceiverAction::Reject { error: answer, request_id: id }
                            && answer.error == ErrorMessageType::InvalidFormat
                            && answer.message@ == message_error_text(error)
                            && id == request_id
                    } else {
                        action matches ReceiverAction::RejectAndGiveUp { error: answer, request_id: id, final_error }
                            && answer.error == ErrorMessageType::InvalidFormat
                            && answer.message@ == message_error_text(error)
                            && id == request_id
                            && final_error.error == ErrorMessageType::InvalidOperation
                            && final_error.message@ == "Too many retries"@
                    }
                },
            },
    {
        match event {
            ReceiverEvent::Ping { payload } => ReceiverAction::SendPong { payload },
            ReceiverEvent::PongSendFailed => ReceiverAction::Deliver(ReceivedMessage::Finished),
            ReceiverEvent::Pong { payload } => ReceiverAction::Deliver(ReceivedMessage::Pong { payload }),
            ReceiverEvent::Close => ReceiverAction::CloseAndFinish,
            ReceiverEvent::Ended => ReceiverAction::Deliver(ReceivedMessage::Finished),
            ReceiverEvent::Request(request) => ReceiverAction::Deliver(ReceivedMessage::Request(request)),
            ReceiverEvent::Malformed { error, request_id } => {
                let exhausted = self.record_failure();
                let answer = ErrorMessage::new(ErrorMessageType::InvalidFormat, describe_message_error(&error));
                if !exhausted {
                    ReceiverAction::Reject { error: answer, request_id }
                } else {
                    let final_error = ErrorMessage::new(
                        ErrorMessageType::InvalidOperation,
                        String::from_str("Too many retries"),
                    );
                    ReceiverAction::RejectAndGiveUp { error: answer, request_id, final_error }
                }
            },
        }
    }
}

} // verus!
