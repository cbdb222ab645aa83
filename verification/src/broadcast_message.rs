use vstd::prelude::*;
use vstd::std_specs::convert::FromSpecImpl;
use crate::sequence::ClientId;

verus! {

/// Why a client left the room.
#[derive(Clone, Copy, Debug, PartialEq, Eq, Structural)]
pub enum LeftReason {
    Closed,
    Timeout,
}

/// Announces that a client joined the room.
#[derive(Clone, Debug, PartialEq, Eq)]
pub struct ClientJoinedBroadcast {
    pub id: ClientId,
    pub name: String,
}

/// Announces that a client left the room.
#[derive(Clone, Debug, PartialEq, Eq)]
pub struct ClientLeftBroadcast {
    pub id: ClientId,
    pub name: String,
    pub reason: LeftReason,
}

/// A chat message, numbered by the room in the order it was sent.
#[derive(Clone, Debug, PartialEq, Eq)]
pub struct ChatBroadcast {
    pub sender_id: ClientId,
    pub sender_name: String,
    pub message: String,
    pub counter: u64,
}

/// The playback state of a medium as it is broadcast.
#[derive(Clone, Copy, Debug, PartialEq, Eq, Structural)]
pub enum PlaybackStateBroadcast {
    Playing { start_time_in_milliseconds: i64 },
    Paused { position_in_milliseconds: u64 },
}

/// The medium of a room as it is broadcast.
#[derive(Clone, Debug, PartialEq, Eq)]
pub enum MediumBroadcast {
    FixedLength {
        name: String,
        length_in_milliseconds: u64,
        playback_skipped: bool,
        playback_state: PlaybackStateBroadcast,
    },
    Empty,
}

/// A medium together with the version the room gave it.
#[derive(Clone, Debug, PartialEq, Eq)]
pub struct VersionedMediumBroadcast {
    pub version: u64,
    pub medium: MediumBroadcast,
}

/// Announces that a client changed the medium or its playback state.
#[derive(Clone, Debug, PartialEq, Eq)]
pub struct MediumStateChangedBroadcast {
    pub changed_by_name: String,
    pub changed_by_id: ClientId,
    pub medium: VersionedMediumBroadcast,
}

/// A message that the room sends to every client.
#[derive(Clone, Debug, PartialEq, Eq)]
pub enum BroadcastMessage {
    ClientJoined(ClientJoinedBroadcast),
    ClientLeft(ClientLeftBroadcast),
    Chat(ChatBroadcast),
    MediumStateChanged(MediumStateChangedBroadcast),
}

impl From<ClientJoinedBroadcast> for BroadcastMessage {
    fn from(broadcast: ClientJoinedBroadcast) -> (message: Self) {
        BroadcastMessage::ClientJoined(broadcast)
    }
}

impl FromSpecImpl<ClientJoinedBroadcast> for BroadcastMessage {
    open spec fn obeys_from_spec() -> bool {
        true
    }

    open spec fn from_spec(broadcast: ClientJoinedBroadcast) -> Self {
        BroadcastMessage::ClientJoined(broadcast)
    }
}

impl From<ClientLeftBroadcast> for BroadcastMessage {
    fn from(broadcast: ClientLeftBroadcast) -> (message: Self) {
        BroadcastMessage::ClientLeft(broadcast)
    }
}

impl FromSpecImpl<ClientLeftBroadcast> for BroadcastMessage {
    open spec fn obeys_from_spec() -> bool {
        true
    }

    open spec fn from_spec(broadcast: ClientLeftBroadcast) -> Self {
        BroadcastMessage::ClientLeft(broadcast)
    }
}

impl From<ChatBroadcast> for BroadcastMessage {
    fn from(broadcast: ChatBroadcast) -> (message: Self) {
        BroadcastMessage::Chat(broadcast)
    }
}

impl FromSpecImpl<ChatBroadcast> for BroadcastMessage {
    open spec fn obeys_from_spec() -> bool {
        true
    }

    open spec fn from_spec(broadcast: ChatBroadcast) -> Self {
        BroadcastMessage::Chat(broadcast)
    }
}

impl From<MediumStateChangedBroadcast> for BroadcastMessage {
    fn from(broadcast: MediumStateChangedBroadcast) -> (message: Self) {
        BroadcastMessage::MediumStateChanged(broadcast)
    }
}

impl FromSpecImpl<MediumStateChangedBroadcast> for BroadcastMessage {
    open spec fn obeys_from_spec() -> bool {
        true
    }

    open spec fn from_spec(broadcast: MediumStateChangedBroadcast) -> Self {
        BroadcastMessage::MediumStateChanged(broadcast)
    }
}

} // verus!
