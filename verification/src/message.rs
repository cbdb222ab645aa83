use vstd::prelude::*;
use vstd::std_specs::convert::FromSpecImpl;

verus! {

/// What kind of error the server answers a request with.
#[derive(Clone, Copy, Debug, PartialEq, Eq, Structural)]
pub enum ErrorMessageType {
    InvalidFormat,
    InvalidOperation,
    EmptyChatMessage,
    IncorrectMediumVersion,
}

/// An error answer: its kind and a human readable explanation.
#[derive(Clone, Debug, PartialEq, Eq)]
pub struct ErrorMessage {
    pub error: ErrorMessageType,
    pub message: String,
}

impl ErrorMessage {
    pub fn new(error: ErrorMessageType, message: String) -> (error_message: Self)
        ensures
            error_message.error == error,
            error_message.message == message,
    {
        ErrorMessage { error, message }
    }
}

/// A chat message a client wants to send to the room.
#[derive(Clone, Debug, PartialEq, Eq)]
pub struct ChatRequest {
    pub message: String,
}

/// A client's request to join the room under a name.
#[derive(Clone, Debug, PartialEq, Eq)]
pub struct RegisterRequest {
    pub name: String,
}

/// The medium a client wants to insert.
#[derive(Clone, Debug, PartialEq, Eq)]
pub enum MediumRequest {
    FixedLength { name: String, length_in_milliseconds: u64 },
    Empty,
}

/// A client's request to replace the room's medium.
#[derive(Clone, Debug, PartialEq, Eq)]
pub struct InsertMediumRequest {
    pub previous_version: u64,
    pub medium: MediumRequest,
}

/// A client's request to start playback at a point in reference time.
#[derive(Clone, Copy, Debug, PartialEq, Eq, Structural)]
pub struct PlayRequest {
    pub previous_version: u64,
    pub skipped: bool,
    pub start_time_in_milliseconds: i64,
}

/// A client's request to pause playback at a position.
#[derive(Clone, Copy, Debug, PartialEq, Eq, Structural)]
pub struct PauseRequest {
    pub previous_version: u64,
    pub skipped: bool,
    pub position_in_milliseconds: u64,
}

/// A request a client sends to the server.
#[derive(Clone, Debug, PartialEq, Eq)]
pub enum ClientRequest {
    Chat(ChatRequest),
    Register(RegisterRequest),
    InsertMedium(InsertMediumRequest),
    Play(PlayRequest),
    Pause(PauseRequest),
}

/// A request together with the id under which the client expects the answer.
#[derive(Clone, Debug, PartialEq, Eq)]
pub struct ClientRequestWithId {
    pub request_id: u64,
    pub request: ClientRequest,
}

/// Why a websocket message could not be read as a client request.
#[derive(Clone, Debug, PartialEq, Eq)]
pub enum MessageError {
    /// The text was no valid request; the parser's explanation and the text.
    DeserializationFailed { error: String, json: String },
    /// The message was no text message; how the message looked.
    WrongMessageType(String),
}

/// What the receiving side of a connection hands on.
#[derive(Clone, Debug, PartialEq, Eq)]
pub enum ReceivedMessage {
    Request(ClientRequestWithId),
    Pong { payload: Vec<u8> },
    Finished,
}

impl From<ClientRequestWithId> for ReceivedMessage {
    fn from(request: ClientRequestWithId) -> (received: Self) {
        ReceivedMessage::Request(request)
    }
}

impl FromSpecImpl<ClientRequestWithId> for ReceivedMessage {
    open spec fn obeys_from_spec() -> bool {
        true
    }

    open spec fn from_spec(request: ClientRequestWithId) -> Self {
        ReceivedMessage::Request(request)
    }
}

} // verus!
