use vstd::prelude::*;
use vstd::string::StringExecFns;
use crate::message::MessageError;
use crate::receiver::{describe_message_error, message_error_text, ReceiveAttempt, MAXIMUM_RETRIES};
use crate::text::{decimal, u64_to_decimal};

verus! {

/// What kind of error the server answers a numbered message with.
#[derive(Clone, Copy, Debug, PartialEq, Eq, Structural)]
pub enum ErrorResponse {
    InvalidFormat,
    InvalidMessageNumber,
    InvalidOperation,
}

/// An answer of the server to a numbered message.
#[derive(Clone, Debug, PartialEq, Eq)]
pub enum ServerResponse {
    Error { error: ErrorResponse, message: String },
}

/// A message together with its number in the conversation.
#[derive(Clone, Debug, PartialEq, Eq)]
pub struct OrderedMessage<T> {
    pub number: u64,
    pub message: T,
}

/// Whether a message with this number may follow the highest number accepted so
/// far: a conversation starts with zero and its numbers strictly increase.
pub open spec fn accepts_number(highest_message_number: Option<u64>, number: u64) -> bool {
    match highest_message_number {
        None => number == 0,
        Some(highest) => number > highest,
    }
}

/// The explanation sent back for a message with a number out of order.
pub open spec fn number_rejection_text(highest_message_number: Option<u64>, number: u64) -> Seq<char> {
    match highest_message_number {
        Some(highest) =>
            "Received message number '"@ + decimal(number as nat) + "', expected larger than '"@
                + decimal(highest as nat) + "'!"@,
        None =>
            "Received message number '"@ + decimal(number as nat) + "', conversation must start with '0'!"@,
    }
}

/// What arrived on a client's websocket while receiving numbered messages.
pub enum ServerConnectionEvent<T> {
    /// The stream ended.
    Ended,
    /// The client closed the connection.
    Close,
    /// A message that could not be read.
    Malformed(MessageError),
    /// A numbered message.
    Message(OrderedMessage<T>),
}

/// What the receiving side does next.
pub enum ServerConnectionAction<T> {
    /// Stop receiving; the conversation is over.
    Finish,
    /// Close the connection; the conversation is over.
    CloseAndFinish,
    /// Answer with this response, then wait for the next message.
    Respond(ServerResponse),
    /// Answer with this response, then with `final_response`, close the
    /// connection; the conversation is over.
    RespondAndGiveUp { response: ServerResponse, final_response: ServerResponse },
    /// Hand on this message.
    Deliver(OrderedMessage<T>),
}

/// The receiving side of a connection that checks the order of message numbers.
pub struct StreamServerConnection {
    highest_message_number: Option<u64>,
}

impl StreamServerConnection {
    /// The highest message number accepted so far.
    pub closed spec fn highest_message_number(&self) -> Option<u64> {
        self.highest_message_number
    }

    /// A connection that has not accepted any message yet.
    pub fn new() -> (connection: Self)
        ensures
            connection.highest_message_number() == None::<u64>,
    {
        StreamServerConnection { highest_message_number: None }
    }

    fn rejection_text(&self, number: u64) -> (text: String)
        ensures
            text@ == number_rejection_text(self.highest_message_number(), number),
    {
        let shown_number = u64_to_decimal(number);
        let mut text = String::from_str("Received message number '");
        text.append(shown_number.as_str());
        match self.highest_message_number {
            Some(highest) => {
                let shown_highest = u64_to_decimal(highest);
                text.append("', expected larger than '");
                text.append(shown_highest.as_str());
                text.append("'!");
            },
            None => {
                text.append("', conversation must start with '0'!");
            },
        }
        text
    }

    /// Decides what to do with the next thing that arrived.
    ///
    /// A message whose number does not follow the highest accepted number is
    /// answered with an `InvalidMessageNumber` error, a malformed message with an
    /// `InvalidFormat` error; the `MAXIMUM_RETRIES`-th such message is also followed
    /// by an `InvalidOperation` error "Too many retries" and the close of the
    /// connection.
    pub fn on_event<T>(&mut self, attempt: &mut ReceiveAttempt, event: ServerConnectionEvent<T>) -> (action: ServerConnectionAction<T>)
        requires
            old(attempt).failed_attempts() < MAXIMUM_RETRIES,
        ensures
            final(attempt).failed_attempts() <= MAXIMUM_RETRIES,
            match event {
                ServerConnectionEvent::Ended => {
                    &&& action == ServerConnectionAction::<T>::Finish
                    &&& final(attempt).failed_attempts() == old(attempt).failed_attempts()
                    &&& final(self).highest_message_number() == old(self).highest_message_number()
                },
                ServerConnectionEvent::Close => {
                    &&& action == ServerConnectionAction::<T>::CloseAndFinish
                    &&& final(attempt).failed_attempts() == old(attempt).failed_attempts()
                    &&& final(self).highest_message_number() == old(self).highest_message_number()
                },
                ServerConnectionEvent::Malformed(error) => {
                    &&& final(self).highest_message_number() == old(self).highest_message_number()
                    &&& final(attempt).failed_attempts() == old(attempt).failed_attempts() + 1
                    &&& rejection_matches(action, final(attempt).failed_attempts(), ErrorResponse::InvalidFormat, message_error_text(error))
                },
                ServerConnectionEvent::Message(message) => if accepts_number(old(self).highest_message_number(), message.number) {
                    &&& action == ServerConnectionAction::Deliver(message)
                    &&& final(self).highest_message_number() == Some(message.number)
                    &&& final(attempt).failed_attempts() == old(attempt).failed_attempts()
                } else {
                    &&& final(self).highest_message_number() == old(self).highest_message_number()
                    &&& final(attempt).failed_attempts() == old(attempt).failed_attempts() + 1
                    &&& rejection_matches(action, final(attempt).failed_attempts(), ErrorResponse::InvalidMessageNumber,
                        number_rejection_text(old(self).highest_message_number(), message.number))
                },
            },
    {
        match event {
            ServerConnectionEvent::Ended => ServerConnectionAction::Finish,
            ServerConnectionEvent::Close => ServerConnectionAction::CloseAndFinish,
            ServerConnectionEvent::Malformed(error) => {
                let text = describe_message_error(&error);
                Self::reject(attempt, ErrorResponse::InvalidFormat, text)
            },
            ServerConnectionEvent::Message(message) => {
                let accepted = match self.highest_message_number {
                    Some(highest) => message.number > highest,
                    None => message.number == 0,
                };
                if accepted {
                    self.highest_message_number = Some(message.number);
                    ServerConnectionAction::Deliver(message)
                } else {
                    let text = self.rejection_text(message.number);
                    Self::reject(attempt, ErrorResponse::InvalidMessageNumber, text)
                }
            },
        }
    }

    fn reject<T>(attempt: &mut ReceiveAttempt, error: ErrorResponse, message: String) -> (action: ServerConnectionAction<T>)
        requires
            old(attempt).failed_attempts() < MAXIMUM_RETRIES,
        ensures
            final(attempt).failed_attempts() == old(attempt).failed_attempts() + 1,
            rejection_matches(action, final(attempt).failed_attempts(), error, message@),
    {
        let exhausted = attempt.record_failure();
        let response = ServerResponse::Error { error, message };
        if !exhausted {
            ServerConnectionAction::Respond(response)
        } else {
            let final_response = ServerResponse::Error {
                error: ErrorResponse::InvalidOperation,
                message: String::from_str("Too many retries"),
            };
            ServerConnectionAction::RespondAndGiveUp { response, final_response }
        }
    }
}

/// The action answers with an error of this kind and text; once the attempt has
/// used up its retries, it also gives up with "Too many retries".
pub open spec fn rejection_matches<T>(action: ServerConnectionAction<T>, failed_attempts: nat, error: ErrorResponse, text: Seq<char>) -> bool {
    if failed_attempts < MAXIMUM_RETRIES {
        action matches ServerConnectionAction::Respond(ServerResponse::Error { error: kind, message })
            && kind == error && message@ == text
    } else {
        action matches ServerConnectionAction::RespondAndGiveUp {
            response: ServerResponse::Error { error: kind, message },
            final_response: ServerResponse::Error { error: final_kind, message: final_message },
        } && kind == error && message@ == text
            && final_kind == ErrorResponse::InvalidOperation && final_message@ == "Too many retries"@
    }
}

/// Across a conversation, the accepted message numbers start at zero and strictly
/// increase: a number that follows an accepted number is larger than it.
pub proof fn lemma_accepted_numbers_increase(highest_message_number: Option<u64>, number: u64, next_number: u64)
    requires
        accepts_number(highest_message_number, number),
        accepts_number(Some(number), next_number),
    ensures
        next_number > number,
        highest_message_number is None ==> number == 0,
        highest_message_number matches Some(highest) ==> number > highest,
{
}

} // verus!
