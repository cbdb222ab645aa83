use vstd::prelude::*;
use vstd::string::StringExecFns;
use crate::broadcast_message::{LeftReason, MediumStateChangedBroadcast, VersionedMediumBroadcast};
use crate::message::{
    ClientRequest, ErrorMessage, ErrorMessageType, InsertMediumRequest, PauseRequest, PlayRequest, ReceivedMessage,
    RegisterRequest, ChatRequest,
};
use crate::sequence::ClientId;
use crate::text::{decimal, u64_to_decimal};
use crate::whitespace::{is_blank, is_blank_text};

verus! {

/// Why a room refused to add a client.
#[derive(Clone, Copy, Debug, PartialEq, Eq, Structural)]
pub enum RoomError {
    EmptyClientName,
    ClientNameTooLong,
    ClientNameAlreadyInUse,
    RoomFull,
}

/// The kind of error a refused registration is answered with: a bad name is an
/// invalid format, a name in use or a full room an invalid operation.
pub open spec fn registration_error_type(error: RoomError) -> ErrorMessageType {
    match error {
        RoomError::EmptyClientName | RoomError::ClientNameTooLong => ErrorMessageType::InvalidFormat,
        RoomError::ClientNameAlreadyInUse | RoomError::RoomFull => ErrorMessageType::InvalidOperation,
    }
}

/// A refusal for the name itself is an invalid format; a refusal because of the
/// room, a name taken or no place left, is an invalid operation.
pub proof fn lemma_registration_errors_by_cause(error: RoomError)
    ensures
        registration_error_type(error) == ErrorMessageType::InvalidFormat
            <==> (error is EmptyClientName || error is ClientNameTooLong),
        registration_error_type(error) == ErrorMessageType::InvalidOperation
            <==> (error is ClientNameAlreadyInUse || error is RoomFull),
{
}

/// How a room explains why it refused a client.
pub open spec fn room_error_text(error: RoomError) -> Seq<char> {
    match error {
        RoomError::EmptyClientName => "Name was empty or whitespace-only."@,
        RoomError::ClientNameTooLong => "Name was too long."@,
        RoomError::ClientNameAlreadyInUse => "Client name is already in use."@,
        RoomError::RoomFull => "Can't join, room is already full."@,
    }
}

impl RoomError {
    /// The text by which the error is shown.
    pub fn to_display_string(&self) -> (text: String)
        ensures
            text@ == room_error_text(*self),
    {
        match self {
            RoomError::EmptyClientName => String::from_str("Name was empty or whitespace-only."),
            RoomError::ClientNameTooLong => String::from_str("Name was too long."),
            RoomError::ClientNameAlreadyInUse => String::from_str("Client name is already in use."),
            RoomError::RoomFull => String::from_str("Can't join, room is already full."),
        }
    }
}

/// The answer to a refused registration, explained by the error's text.
pub fn registration_rejection(error: RoomError) -> (answer: ErrorMessage)
    ensures
        answer.error == registration_error_type(error),
        answer.message@ == room_error_text(error),
{
    let error_type = match error {
        RoomError::EmptyClientName | RoomError::ClientNameTooLong => ErrorMessageType::InvalidFormat,
        RoomError::ClientNameAlreadyInUse | RoomError::RoomFull => ErrorMessageType::InvalidOperation,
    };
    ErrorMessage::new(error_type, error.to_display_string())
}

/// What to do with the first thing a new client sends.
#[derive(Debug)]
pub enum RegistrationStep {
    /// The connection closed before the client registered.
    ClosedPrematurely,
    /// The client sent a pong instead of registering.
    UnexpectedPong,
    /// The client sent another request; answer it with this error and give up.
    Rejected { error: ErrorMessage, request_id: u64 },
    /// Try to add the client to the room under this name.
    Register { name: String, request_id: u64 },
}

/// Decides what to do with the first thing a new client sends: only a register
/// request lets the client in.
pub fn registration_step(received: ReceivedMessage) -> (step: RegistrationStep)
    ensures
        match received {
            ReceivedMessage::Finished => step is ClosedPrematurely,
            ReceivedMessage::Pong { .. } => step is UnexpectedPong,
            ReceivedMessage::Request(request) => match request.request {
                ClientRequest::Register(RegisterRequest { name }) =>
                    step == (RegistrationStep::Register { name, request_id: request.request_id }),
                _ => step matches RegistrationStep::Rejected { error, request_id }
                    && error.error == ErrorMessageType::InvalidOperation
                    && error.message@ == "Invalid request"@
                    && request_id == request.request_id,
            },
        },
{
    match received {
        ReceivedMessage::Finished => RegistrationStep::ClosedPrematurely,
        ReceivedMessage::Pong { .. } => RegistrationStep::UnexpectedPong,
        ReceivedMessage::Request(request) => {
            let request_id = request.request_id;
            match request.request {
                ClientRequest::Register(RegisterRequest { name }) => RegistrationStep::Register { name, request_id },
                _ => RegistrationStep::Rejected {
                    error: ErrorMessage::new(ErrorMessageType::InvalidOperation, String::from_str("Invalid request")),
                    request_id,
                },
            }
        },
    }
}

/// What a registered client's request asks the room to do.
#[derive(Debug)]
pub enum RoomCommand {
    SendChatMessage(String),
    InsertMedium(InsertMediumRequest),
    Play(PlayRequest),
    Pause(PauseRequest),
}

/// Decides how to handle a request of a registered client: blank chat messages
/// and a second registration are refused, everything else goes to the room.
pub fn handle_request(request: ClientRequest) -> (command: Result<RoomCommand, ErrorMessage>)
    ensures
        match request {
            ClientRequest::Chat(ChatRequest { message }) => if is_blank(message@) {
                command matches Err(error) && error.error == ErrorMessageType::EmptyChatMessage
                    && error.message@ == "Chat messages must not be empty!"@
            } else {
                command == Ok::<RoomCommand, ErrorMessage>(RoomCommand::SendChatMessage(message))
            },
            ClientRequest::Register(_) => command matches Err(error)
                && error.error == ErrorMessageType::InvalidOperation && error.message@ == "Already registered"@,
            ClientRequest::InsertMedium(insert) => command == Ok::<RoomCommand, ErrorMessage>(RoomCommand::InsertMedium(insert)),
            ClientRequest::Play(play) => command == Ok::<RoomCommand, ErrorMessage>(RoomCommand::Play(play)),
            ClientRequest::Pause(pause) => command == Ok::<RoomCommand, ErrorMessage>(RoomCommand::Pause(pause)),
        },
{
    match request {
        ClientRequest::Chat(ChatRequest { message }) => {
            if is_blank_text(message.as_str()) {
                Err(ErrorMessage::new(ErrorMessageType::EmptyChatMessage, String::from_str("Chat messages must not be empty!")))
            } else {
                Ok(RoomCommand::SendChatMessage(message))
            }
        },
        ClientRequest::Register(_) => Err(ErrorMessage::new(
            ErrorMessageType::InvalidOperation,
            String::from_str("Already registered"),
        )),
        ClientRequest::InsertMedium(insert) => Ok(RoomCommand::InsertMedium(insert)),
        ClientRequest::Play(play) => Ok(RoomCommand::Play(play)),
        ClientRequest::Pause(pause) => Ok(RoomCommand::Pause(pause)),
    }
}

/// The explanation for a medium change that named the wrong previous version.
pub open spec fn incorrect_version_text(previous_version: u64, current_version: u64) -> Seq<char> {
    "Medium version is incorrect. Request had "@ + decimal(previous_version as nat) + " but current version is "@
        + decimal(current_version as nat) + "."@
}

/// The answer to a medium change that the room refused because the request named
/// the wrong previous version.
pub fn incorrect_medium_version_error(previous_version: u64, current_version: u64) -> (error: ErrorMessage)
    ensures
        error.error == ErrorMessageType::IncorrectMediumVersion,
        error.message@ == incorrect_version_text(previous_version, current_version),
{
    let mut message = String::from_str("Medium version is incorrect. Request had ");
    let previous = u64_to_decimal(previous_version);
    let current = u64_to_decimal(current_version);
    message.append(previous.as_str());
    message.append(" but current version is ");
    message.append(current.as_str());
    message.append(".");
    ErrorMessage::new(ErrorMessageType::IncorrectMediumVersion, message)
}

/// Turns the room's answer to a medium change into the broadcast of the new
/// medium state, or, if the room refused the change, into the error for the
/// client.
pub fn medium_state_change(
    client_id: ClientId,
    client_name: String,
    changed: Option<VersionedMediumBroadcast>,
    previous_version: u64,
    current_version: u64,
) -> (outcome: Result<MediumStateChangedBroadcast, ErrorMessage>)
    ensures
        match changed {
            Some(medium) => outcome == Ok::<MediumStateChangedBroadcast, ErrorMessage>(MediumStateChangedBroadcast {
                changed_by_name: client_name,
                changed_by_id: client_id,
                medium,
            }),
            None => outcome matches Err(error) && error.error == ErrorMessageType::IncorrectMediumVersion
                && error.message@ == incorrect_version_text(previous_version, current_version),
        },
{
    match changed {
        Some(medium) => Ok(MediumStateChangedBroadcast { changed_by_name: client_name, changed_by_id: client_id, medium }),
        None => Err(incorrect_medium_version_error(previous_version, current_version)),
    }
}

/// How a pong answers the heartbeat that is waited for.
#[derive(Clone, Copy, Debug, PartialEq, Eq, Structural)]
pub enum PongOutcome {
    /// The pong carries the payload of the ping.
    Answered,
    /// The pong answers another ping; keep waiting.
    Other,
    /// The pong's payload has the wrong size; waiting for this heartbeat ends
    /// without it counting as missed.
    Malformed,
}

/// How a pong with this payload answers a ping with the expected payload.
pub open spec fn pong_outcome(payload: Seq<u8>, expected: Seq<u8>) -> PongOutcome {
    if payload.len() != expected.len() {
        PongOutcome::Malformed
    } else if payload == expected {
        PongOutcome::Answered
    } else {
        PongOutcome::Other
    }
}

/// Compares the payload of a pong with the payload of the ping that is waited for.
pub fn classify_pong(payload: &[u8], expected: &[u8]) -> (outcome: PongOutcome)
    ensures
        outcome == pong_outcome(payload@, expected@),
{
    if payload.len() != expected.len() {
        return PongOutcome::Malformed;
    }
    let mut index: usize = 0;
    while index < payload.len()
        invariant
            payload@.len() == expected@.len(),
            index <= payload@.len(),
            forall|i: int| 0 <= i < index ==> payload@[i] == expected@[i],
        decreases payload@.len() - index,
    {
        if payload[index] != expected[index] {
            return PongOutcome::Other;
        }
        index = index + 1;
    }
    assert(payload@ =~= expected@);
    PongOutcome::Answered
}

/// The heartbeat of one client: counts the pings sent and the heartbeats missed
/// in a row.
pub struct Heartbeat {
    missed_heartbeats: u8,
    missed_heartbeat_limit: u8,
    count: usize,
}

impl Heartbeat {
    /// How many heartbeats in a row went unanswered.
    pub closed spec fn missed_heartbeats(&self) -> u8 {
        self.missed_heartbeats
    }

    /// How many missed heartbeats in a row end the connection.
    pub closed spec fn missed_heartbeat_limit(&self) -> u8 {
        self.missed_heartbeat_limit
    }

    /// The number that the next ping carries.
    pub closed spec fn count(&self) -> usize {
        self.count
    }

    /// A heartbeat that has sent nothing and missed nothing.
    pub fn new(missed_heartbeat_limit: u8) -> (heartbeat: Self)
        ensures
            heartbeat.missed_heartbeats() == 0,
            heartbeat.missed_heartbeat_limit() == missed_heartbeat_limit,
            heartbeat.count() == 0,
    {
        Heartbeat { missed_heartbeats: 0, missed_heartbeat_limit, count: 0 }
    }

    /// The number for the next ping, or `None` once every number was used.
    pub fn next_ping(&mut self) -> (number: Option<usize>)
        ensures
            final(self).missed_heartbeats() == old(self).missed_heartbeats(),
            final(self).missed_heartbeat_limit() == old(self).missed_heartbeat_limit(),
            old(self).count() < usize::MAX ==> number == Some(old(self).count())
                && final(self).count() == old(self).count() + 1,
            old(self).count() == usize::MAX ==> number is None && final(self).count() == old(self).count(),
    {
        if self.count < usize::MAX {
            let number = self.count;
            self.count = self.count + 1;
            Some(number)
        } else {
            None
        }
    }

    /// Records whether the ping was answered in time. Returns the reason to end
    /// the connection once `missed_heartbeat_limit` heartbeats in a row were missed.
    pub fn record(&mut self, answered: bool) -> (left_reason: Option<LeftReason>)
        requires
            old(self).missed_heartbeats() < old(self).missed_heartbeat_limit() || old(self).missed_heartbeats() == 0,
        ensures
            final(self).missed_heartbeat_limit() == old(self).missed_heartbeat_limit(),
            final(self).count() == old(self).count(),
            answered ==> final(self).missed_heartbeats() == 0 && left_reason is None,
            !answered ==> final(self).missed_heartbeats() == old(self).missed_heartbeats() + 1
                && (left_reason == (if final(self).missed_heartbeats() >= final(self).missed_heartbeat_limit() {
                    Some(LeftReason::Timeout)
                } else {
                    None
                })),
            left_reason is None ==> final(self).missed_heartbeats() < final(self).missed_heartbeat_limit()
                || final(self).missed_heartbeats() == 0,
    {
        if answered {
            self.missed_heartbeats = 0;
            None
        } else {
            self.missed_heartbeats = self.missed_heartbeats + 1;
            if self.missed_heartbeats >= self.missed_heartbeat_limit {
                Some(LeftReason::Timeout)
            } else {
                None
            }
        }
    }
}

} // verus!
