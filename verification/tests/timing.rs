use chrono::{TimeZone, Utc};
use communityvi::timing::{
    real_time_from_timestamp, Message, EARLIEST_TIMESTAMP_MILLISECONDS, LATEST_TIMESTAMP_MILLISECONDS, MessageError, OffsetMessage, ServerTimeMessage, State,
};

/// Reads a timing message back from its JSON text.
fn message_from_json(json: &str) -> Message {
    let value: serde_json::Value = serde_json::from_str(json).expect("Failed to parse JSON.");
    match value["type"].as_str().expect("Message has no type.") {
        "offset" => Message::Offset(OffsetMessage {
            offset: value["offset"].as_u64().expect("Offset is missing."),
        }),
        "server_time" => Message::ServerTime(ServerTimeMessage {
            server_time: value["server_time"].as_u64().expect("Server time is missing."),
            real_time: real_time_from_timestamp(value["real_time"].as_i64().expect("Real time is missing."))
                .expect("Real time is out of range."),
        }),
        other => panic!("Unknown message type {}", other),
    }
}

#[test]
fn offset_message_should_serialize_and_deserialize() {
    let offset_message = Message::Offset(OffsetMessage { offset: 42 });
    let json = offset_message.to_json();
    assert_eq!(json, r#"{"type":"offset","offset":42}"#);

    let deserialized_offset_message = message_from_json(&json);
    assert_eq!(deserialized_offset_message, offset_message);
}

#[test]
fn server_time_message_should_serialize_and_deserialize() {
    let real_time = Utc
        .with_ymd_and_hms(2019, 7, 21, 13, 37, 42)
        .single()
        .expect("Invalid date")
        .timestamp_millis()
        + 666;
    let server_time_message = Message::ServerTime(ServerTimeMessage {
        server_time: 1337,
        real_time,
    });
    let json = server_time_message.to_json();
    assert_eq!(
        json,
        r#"{"type":"server_time","server_time":1337,"real_time":1563716262666}"#
    );

    let deserialized_server_time_message = message_from_json(&json);
    assert_eq!(deserialized_server_time_message, server_time_message);
}

#[test]
fn negative_real_times_are_written_with_a_sign() {
    let message = Message::ServerTime(ServerTimeMessage {
        server_time: 0,
        real_time: -1,
    });
    assert_eq!(r#"{"type":"server_time","server_time":0,"real_time":-1}"#, message.to_json());
}

#[test]
fn out_of_range_timestamps_are_refused() {
    assert_eq!(Ok(0), real_time_from_timestamp(0));
    assert_eq!(Ok(1563716262666), real_time_from_timestamp(1563716262666));
    assert_eq!(
        Ok(EARLIEST_TIMESTAMP_MILLISECONDS),
        real_time_from_timestamp(EARLIEST_TIMESTAMP_MILLISECONDS)
    );
    assert_eq!(
        Ok(LATEST_TIMESTAMP_MILLISECONDS),
        real_time_from_timestamp(LATEST_TIMESTAMP_MILLISECONDS)
    );
    assert_eq!(
        Err(format!("Invalid millisecond timestamp: {}", EARLIEST_TIMESTAMP_MILLISECONDS - 1)),
        real_time_from_timestamp(EARLIEST_TIMESTAMP_MILLISECONDS - 1)
    );
    assert_eq!(
        Err(format!("Invalid millisecond timestamp: {}", LATEST_TIMESTAMP_MILLISECONDS + 1)),
        real_time_from_timestamp(LATEST_TIMESTAMP_MILLISECONDS + 1)
    );
    assert_eq!(
        Err(format!("Invalid millisecond timestamp: {}", i64::MAX)),
        real_time_from_timestamp(i64::MAX)
    );
    assert_eq!(
        Err(format!("Invalid millisecond timestamp: {}", i64::MIN)),
        real_time_from_timestamp(i64::MIN)
    );
}

#[test]
fn timing_message_errors_are_explained() {
    assert_eq!(
        "Invalid message: expected value; {",
        MessageError::DeserializationFailed("expected value".to_string(), "{".to_string()).to_display_string()
    );
    assert_eq!(
        "Wrong message type. Expected text, got: Binary([])",
        MessageError::WrongMessageType("Binary([])".to_string()).to_display_string()
    );
    let state = State { offset: 3 };
    assert_eq!(3, state.offset);
}
