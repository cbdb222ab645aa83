use vstd::prelude::*;
use vstd::string::StringExecFns;
use crate::text::{decimal, i64_to_decimal, signed_decimal, u64_to_decimal};

verus! {

/// When the playback of the medium started, in server time.
#[derive(Clone, Copy, Debug, PartialEq, Eq, Structural)]
pub struct OffsetMessage {
    /// Server time in milliseconds when the playback of the medium has started.
    pub offset: u64,
}

/// The server's reference time at a point in real time.
#[derive(Clone, Copy, Debug, PartialEq, Eq, Structural)]
pub struct ServerTimeMessage {
    /// Monotonic time in milliseconds the server uses for synchronising playback.
    pub server_time: u64,
    /// Real time in UTC that the server time belongs to, in milliseconds since the Unix epoch.
    pub real_time: i64,
}

/// A timing message between server and clients.
#[derive(Clone, Copy, Debug, PartialEq, Eq, Structural)]
pub enum Message {
    /// Server time the media playback starts at.
    Offset(OffsetMessage),
    /// The server reference time value at the given point in UTC time.
    ServerTime(ServerTimeMessage),
}

/// The shared playback state of the server.
#[derive(Clone, Copy, Debug, PartialEq, Eq, Structural)]
pub struct State {
    pub offset: u64,
}

/// The JSON text of a message: an object tagged by `"type"` with the message's
/// fields, real times as millisecond timestamps.
pub open spec fn message_json(message: Message) -> Seq<char> {
    match message {
        Message::Offset(offset) =>
            "{\"type\":\"offset\",\"offset\":"@ + decimal(offset.offset as nat) + "}"@,
        Message::ServerTime(server_time) =>
            "{\"type\":\"server_time\",\"server_time\":"@ + decimal(server_time.server_time as nat)
                + ",\"real_time\":"@ + signed_decimal(server_time.real_time as int) + "}"@,
    }
}

impl Message {
    /// Writes the message as JSON.
    pub fn to_json(&self) -> (json: String)
        ensures
            json@ == message_json(*self),
    {
        match self {
            Message::Offset(offset) => {
                let mut json = String::from_str("{\"type\":\"offset\",\"offset\":");
                let shown = u64_to_decimal(offset.offset);
                json.append(shown.as_str());
                json.append("}");
                json
            },
            Message::ServerTime(server_time) => {
                let mut json = String::from_str("{\"type\":\"server_time\",\"server_time\":");
                let shown_server_time = u64_to_decimal(server_time.server_time);
                let shown_real_time = i64_to_decimal(server_time.real_time);
                json.append(shown_server_time.as_str());
                json.append(",\"real_time\":");
                json.append(shown_real_time.as_str());
                json.append("}");
                json
            },
        }
    }
}

/// The earliest millisecond timestamp that chrono represents: the start of
/// January 1, 262144 BCE (year -262143), chrono's earliest date.
pub const EARLIEST_TIMESTAMP_MILLISECONDS: i64 = -8334601228800000;

/// The latest millisecond timestamp that chrono represents: the last millisecond
/// of December 31, 262142 CE, chrono's latest date.
pub const LATEST_TIMESTAMP_MILLISECONDS: i64 = 8210266876799999;

/// Whether a millisecond timestamp is a point in time that chrono represents.
pub open spec fn is_representable_timestamp(timestamp: i64) -> bool {
    EARLIEST_TIMESTAMP_MILLISECONDS <= timestamp <= LATEST_TIMESTAMP_MILLISECONDS
}

/// Asks chrono whether `Utc.timestamp_millis_opt(timestamp)` is a single point
/// in time, as opposed to none. Claimed: it is exactly for the timestamps from
/// the start of chrono's earliest date to the end of its latest date
/// (`DateTime::from_timestamp_millis` splits the timestamp into days and
/// milliseconds of the day, and `NaiveDate` accepts the years -262143 to 262142).
/// The call stays although the range is stated: chrono is what decides which
/// instants the server can represent, and the tests hold both bounds to it.
#[verifier::external_body]
fn timestamp_is_representable(timestamp: i64) -> (representable: bool)
    ensures
        representable == is_representable_timestamp(timestamp),
{
    match chrono::TimeZone::timestamp_millis_opt(&chrono::Utc, timestamp) {
        chrono::LocalResult::Single(_) => true,
        chrono::LocalResult::Ambiguous(_, _) => false,
        chrono::LocalResult::None => false,
    }
}

/// Reads a real time from a millisecond timestamp; a timestamp that is no point
/// in time is refused with an explanation.
pub fn real_time_from_timestamp(timestamp: i64) -> (real_time: Result<i64, String>)
    ensures
        is_representable_timestamp(timestamp) ==> real_time == Ok::<i64, String>(timestamp),
        !is_representable_timestamp(timestamp) ==> (real_time matches Err(message)
            && message@ == "Invalid millisecond timestamp: "@ + signed_decimal(timestamp as int)),
{
    if timestamp_is_representable(timestamp) {
        Ok(timestamp)
    } else {
        let mut message = String::from_str("Invalid millisecond timestamp: ");
        let shown = i64_to_decimal(timestamp);
        message.append(shown.as_str());
        Err(message)
    }
}

/// Why a websocket message could not be read as a timing message.
#[derive(Clone, Debug, PartialEq, Eq)]
pub enum MessageError {
    /// The parser's explanation and the message's content.
    DeserializationFailed(String, String),
    /// How the message, which is no text message, looked.
    WrongMessageType(String),
}

/// How a timing message error is shown.
pub open spec fn message_error_text(error: MessageError) -> Seq<char> {
    match error {
        MessageError::DeserializationFailed(error_message, message) =>
            "Invalid message: "@ + error_message@ + "; "@ + message@,
        MessageError::WrongMessageType(shown) => "Wrong message type. Expected text, got: "@ + shown@,
    }
}

impl MessageError {
    /// The text by which the error is shown.
    pub fn to_display_string(&self) -> (text: String)
        ensures
            text@ == message_error_text(*self),
    {
        match self {
            MessageError::DeserializationFailed(error_message, message) => {
                let mut text = String::from_str("Invalid message: ");
                text.append(error_message.as_str());
                text.append("; ");
                text.append(message.as_str());
                text
            },
            MessageError::WrongMessageType(shown) => {
                let mut text = String::from_str("Wrong message type. Expected text, got: ");
                text.append(shown.as_str());
                text
            },
        }
    }
}

} // verus!
