use vstd::prelude::*;
use vstd::string::StringExecFns;
use crate::broadcast_message::{MediumBroadcast, MediumStateChangedBroadcast, PlaybackStateBroadcast, VersionedMediumBroadcast};
use crate::lifecycle::{incorrect_version_text, medium_state_change, registration_error_type, registration_rejection, room_error_text, RoomError};
use crate::message::{ErrorMessage, ErrorMessageType, InsertMediumRequest, MediumRequest, PauseRequest, PlayRequest};
use crate::sequence::ClientId;
use crate::whitespace::{is_blank, is_blank_text};

verus! {

/// The longest client name a room accepts, in characters.
pub const MAXIMUM_CLIENT_NAME_LENGTH: usize = 256;

/// The longest medium a room accepts: one year of 365 days, in milliseconds.
pub const MAXIMUM_MEDIUM_LENGTH_IN_MILLISECONDS: u64 = 31536000000;

/// The medium a room plays.
#[derive(Clone, Debug, PartialEq, Eq)]
pub enum Medium {
    FixedLength { name: String, length_in_milliseconds: u64, playback_state: PlaybackStateBroadcast },
    Empty,
}

/// The room's medium together with its version, which every change increases.
#[derive(Clone, Debug, PartialEq, Eq)]
pub struct VersionedMedium {
    pub version: u64,
    pub medium: Medium,
}

/// The medium with another playback state; the empty medium has none.
pub open spec fn with_playback_state(medium: Medium, playback_state: PlaybackStateBroadcast) -> Medium {
    match medium {
        Medium::FixedLength { name, length_in_milliseconds, .. } =>
            Medium::FixedLength { name, length_in_milliseconds, playback_state },
        Medium::Empty => Medium::Empty,
    }
}

/// Playing or pausing puts a fixed-length medium into exactly the requested
/// playback state, whatever state it was in before, and keeps its name and length;
/// the empty medium stays empty.
pub proof fn lemma_playback_changes_set_the_requested_state(
    name: String,
    length_in_milliseconds: u64,
    before: PlaybackStateBroadcast,
    requested: PlaybackStateBroadcast,
)
    ensures
        with_playback_state((Medium::FixedLength { name, length_in_milliseconds, playback_state: before }), requested)
            == (Medium::FixedLength { name, length_in_milliseconds, playback_state: requested }),
        with_playback_state(Medium::Empty, requested) == Medium::Empty,
{
}

/// How a versioned medium is broadcast, marked as skipped or not.
pub open spec fn medium_broadcast(medium: VersionedMedium, skipped: bool) -> VersionedMediumBroadcast {
    VersionedMediumBroadcast {
        version: medium.version,
        medium: match medium.medium {
            Medium::FixedLength { name, length_in_milliseconds, playback_state } => MediumBroadcast::FixedLength {
                name,
                length_in_milliseconds,
                playback_skipped: skipped,
                playback_state,
            },
            Medium::Empty => MediumBroadcast::Empty,
        },
    }
}

/// A broadcast shows the medium as it is: its version, and for a fixed-length
/// medium its name, length and playback state, with the given skip mark; the
/// empty medium shows as empty.
pub proof fn lemma_broadcast_shows_the_medium(
    version: u64,
    name: String,
    length_in_milliseconds: u64,
    playback_state: PlaybackStateBroadcast,
    skipped: bool,
)
    ensures
        medium_broadcast((VersionedMedium {
            version,
            medium: (Medium::FixedLength { name, length_in_milliseconds, playback_state }),
        }), skipped) == (VersionedMediumBroadcast {
            version,
            medium: (MediumBroadcast::FixedLength { name, length_in_milliseconds, playback_skipped: skipped, playback_state }),
        }),
        medium_broadcast((VersionedMedium { version, medium: Medium::Empty }), skipped)
            == (VersionedMediumBroadcast { version, medium: MediumBroadcast::Empty }),
{
}

impl VersionedMedium {
    /// The empty medium at version zero, with which every room starts.
    pub fn empty() -> (medium: Self)
        ensures
            medium == (VersionedMedium { version: 0, medium: Medium::Empty }),
    {
        VersionedMedium { version: 0, medium: Medium::Empty }
    }

    /// A copy of the versioned medium.
    pub fn copied(&self) -> (copy: Self)
        ensures
            copy == *self,
    {
        let medium = match &self.medium {
            Medium::FixedLength { name, length_in_milliseconds, playback_state } => Medium::FixedLength {
                name: name.clone(),
                length_in_milliseconds: *length_in_milliseconds,
                playback_state: *playback_state,
            },
            Medium::Empty => Medium::Empty,
        };
        VersionedMedium { version: self.version, medium }
    }

    /// How the versioned medium is broadcast, marked as skipped or not.
    pub fn to_broadcast(&self, skipped: bool) -> (broadcast: VersionedMediumBroadcast)
        ensures
            broadcast == medium_broadcast(*self, skipped),
    {
        let medium = match &self.medium {
            Medium::FixedLength { name, length_in_milliseconds, playback_state } => MediumBroadcast::FixedLength {
                name: name.clone(),
                length_in_milliseconds: *length_in_milliseconds,
                playback_skipped: skipped,
                playback_state: *playback_state,
            },
            Medium::Empty => MediumBroadcast::Empty,
        };
        VersionedMediumBroadcast { version: self.version, medium }
    }
}

/// The medium a request asks for: a fixed-length medium starts paused at its
/// beginning; one longer than a year is refused.
pub open spec fn requested_medium(request: MediumRequest) -> Option<Medium> {
    match request {
        MediumRequest::FixedLength { name, length_in_milliseconds } =>
            if length_in_milliseconds > MAXIMUM_MEDIUM_LENGTH_IN_MILLISECONDS {
                None
            } else {
                Some(Medium::FixedLength {
                    name,
                    length_in_milliseconds,
                    playback_state: PlaybackStateBroadcast::Paused { position_in_milliseconds: 0 },
                })
            },
        MediumRequest::Empty => Some(Medium::Empty),
    }
}

/// A fixed-length medium is accepted exactly when it lasts at most one year of 365
/// days (31536000000 milliseconds), and then it starts paused at its beginning,
/// with the name and length it was requested with.
pub proof fn lemma_media_up_to_a_year_are_accepted(name: String, length_in_milliseconds: u64)
    ensures
        requested_medium((MediumRequest::FixedLength { name, length_in_milliseconds })) is None
            <==> length_in_milliseconds > 31536000000,
        length_in_milliseconds <= 31536000000 ==> requested_medium((MediumRequest::FixedLength { name, length_in_milliseconds }))
            == Some((Medium::FixedLength {
                name,
                length_in_milliseconds,
                playback_state: (PlaybackStateBroadcast::Paused { position_in_milliseconds: 0 }),
            })),
        requested_medium(MediumRequest::Empty) == Some(Medium::Empty),
{
}

/// Turns a client's medium request into the medium to insert.
pub fn medium_from_request(request: MediumRequest) -> (medium: Result<Medium, ErrorMessage>)
    ensures
        match (medium, requested_medium(request)) {
            (Ok(medium), Some(expected)) => medium == expected,
            (Err(error), None) => error.error == ErrorMessageType::InvalidFormat
                && error.message@ == "Length of a medium must not be larger than one year."@,
            _ => false,
        },
        request matches MediumRequest::FixedLength { name, length_in_milliseconds } ==> if length_in_milliseconds <= 31536000000 {
            medium == Ok::<Medium, ErrorMessage>(Medium::FixedLength {
                name,
                length_in_milliseconds,
                playback_state: PlaybackStateBroadcast::Paused { position_in_milliseconds: 0 },
            })
        } else {
            medium is Err
        },
        request is Empty ==> medium == Ok::<Medium, ErrorMessage>(Medium::Empty),
{
    match request {
        MediumRequest::FixedLength { name, length_in_milliseconds } => {
            if length_in_milliseconds > MAXIMUM_MEDIUM_LENGTH_IN_MILLISECONDS {
                Err(ErrorMessage::new(
                    ErrorMessageType::InvalidFormat,
                    String::from_str("Length of a medium must not be larger than one year."),
                ))
            } else {
                Ok(Medium::FixedLength {
                    name,
                    length_in_milliseconds,
                    playback_state: PlaybackStateBroadcast::Paused { position_in_milliseconds: 0 },
                })
            }
        },
        MediumRequest::Empty => Ok(Medium::Empty),
    }
}

/// Another client of the room, as a newly registered client is told of it.
#[derive(Clone, Debug, PartialEq, Eq)]
pub struct ClientResponse {
    pub id: ClientId,
    pub name: String,
}

/// The answer to a successful registration: the new client's id, the clients that
/// were in the room before, and the room's current medium.
#[derive(Clone, Debug, PartialEq, Eq)]
pub struct HelloResponse {
    pub id: ClientId,
    pub clients: Vec<ClientResponse>,
    pub current_medium: VersionedMedium,
}

/// A client of the room: its id, its name and the channel that reaches it.
pub struct Member<Sender> {
    id: ClientId,
    name: String,
    sender: Sender,
}

impl<Sender> Member<Sender> {
    pub closed spec fn spec_id(&self) -> u64 {
        self.id.id
    }

    pub closed spec fn spec_name(&self) -> Seq<char> {
        self.name@
    }

    pub closed spec fn spec_sender(&self) -> Sender {
        self.sender
    }

    pub fn id(&self) -> (id: ClientId)
        ensures
            id.id == self.spec_id(),
    {
        self.id
    }

    pub fn name(&self) -> (name: &str)
        ensures
            name@ == self.spec_name(),
    {
        self.name.as_str()
    }

    pub fn sender(&self) -> (sender: &Sender)
        ensures
            *sender == self.spec_sender(),
    {
        &self.sender
    }
}

/// The ids and names of clients, in order.
pub open spec fn members_view<Sender>(members: Seq<Member<Sender>>) -> Seq<(u64, Seq<char>)> {
    members.map_values(|member: Member<Sender>| (member.spec_id(), member.spec_name()))
}

/// The ids and names of client responses, in order.
pub open spec fn responses_view(clients: Seq<ClientResponse>) -> Seq<(u64, Seq<char>)> {
    clients.map_values(|client: ClientResponse| (client.id.id, client.name@))
}

/// Some client has this name.
pub open spec fn name_in_use(clients: Seq<(u64, Seq<char>)>, name: Seq<char>) -> bool {
    exists|k: int| 0 <= k < clients.len() && #[trigger] clients[k].1 == name
}

/// Why a room refuses a client under this name, if it does: a blank name, a name
/// longer than `MAXIMUM_CLIENT_NAME_LENGTH` characters, a name another client
/// has, or a room that is full, checked in this order.
pub open spec fn admission_error(clients: Seq<(u64, Seq<char>)>, size_limit: usize, name: Seq<char>) -> Option<RoomError> {
    if is_blank(name) {
        Some(RoomError::EmptyClientName)
    } else if name.len() > MAXIMUM_CLIENT_NAME_LENGTH {
        Some(RoomError::ClientNameTooLong)
    } else if name_in_use(clients, name) {
        Some(RoomError::ClientNameAlreadyInUse)
    } else if clients.len() >= size_limit {
        Some(RoomError::RoomFull)
    } else {
        None
    }
}

/// A room admits a non-blank name of at most `MAXIMUM_CLIENT_NAME_LENGTH`
/// characters that no client has while it has room; a name that a client has is
/// refused as in use. Only the very same name counts as in use.
pub proof fn lemma_admission_by_name(clients: Seq<(u64, Seq<char>)>, size_limit: usize, name: Seq<char>)
    ensures
        !is_blank(name) && name.len() <= 256 && clients.len() < size_limit
            && (forall|k: int| 0 <= k < clients.len() ==> #[trigger] clients[k].1 != name)
            ==> admission_error(clients, size_limit, name) is None,
        !is_blank(name) && name.len() <= 256 && (exists|k: int| 0 <= k < clients.len() && #[trigger] clients[k].1 == name)
            ==> admission_error(clients, size_limit, name) == Some(RoomError::ClientNameAlreadyInUse),
        is_blank(name) ==> admission_error(clients, size_limit, name) == Some(RoomError::EmptyClientName),
        !is_blank(name) && name.len() > 256 ==> admission_error(clients, size_limit, name) == Some(RoomError::ClientNameTooLong),
        !is_blank(name) && name.len() <= 256 && clients.len() >= size_limit
            && (forall|k: int| 0 <= k < clients.len() ==> #[trigger] clients[k].1 != name)
            ==> admission_error(clients, size_limit, name) == Some(RoomError::RoomFull),
{
}

/// A room of clients that watch a medium together.
pub struct RoomState<Sender> {
    members: Vec<Member<Sender>>,
    next_client_id: u64,
    size_limit: usize,
    medium: VersionedMedium,
}

impl<Sender> RoomState<Sender> {
    /// The clients, in the order they joined.
    pub closed spec fn spec_members(&self) -> Seq<Member<Sender>> {
        self.members@
    }

    /// The ids and names of the clients, in the order they joined.
    pub open spec fn clients(&self) -> Seq<(u64, Seq<char>)> {
        members_view(self.spec_members())
    }

    /// The id the next client gets.
    pub closed spec fn next_client_id(&self) -> u64 {
        self.next_client_id
    }

    /// How many clients the room holds at most.
    pub closed spec fn size_limit(&self) -> usize {
        self.size_limit
    }

    /// The room's current medium.
    pub closed spec fn spec_medium(&self) -> VersionedMedium {
        self.medium
    }

    /// No two clients share an id or a name, and every id was handed out before.
    pub closed spec fn well_formed(&self) -> bool {
        &&& forall|i: int, j: int| 0 <= i < j < self.members@.len()
            ==> #[trigger] self.members@[i].id.id != #[trigger] self.members@[j].id.id
        &&& forall|i: int, j: int| 0 <= i < j < self.members@.len()
            ==> #[trigger] self.members@[i].name@ != #[trigger] self.members@[j].name@
        &&& forall|i: int| 0 <= i < self.members@.len() ==> #[trigger] self.members@[i].id.id < self.next_client_id
    }

    /// An empty room for at most `size_limit` clients, with the empty medium.
    pub fn new(size_limit: usize) -> (room: Self)
        ensures
            room.well_formed(),
            room.clients() == Seq::<(u64, Seq<char>)>::empty(),
            room.next_client_id() == 0,
            room.size_limit() == size_limit,
            room.spec_medium() == (VersionedMedium { version: 0, medium: Medium::Empty }),
    {
        let room = RoomState { members: Vec::new(), next_client_id: 0, size_limit, medium: VersionedMedium::empty() };
        assert(room.clients() =~= Seq::<(u64, Seq<char>)>::empty());
        room
    }

    /// The room's current medium.
    pub fn medium(&self) -> (medium: &VersionedMedium)
        ensures
            *medium == self.spec_medium(),
    {
        &self.medium
    }

    /// The clients, in the order they joined.
    pub fn members(&self) -> (members: &[Member<Sender>])
        ensures
            members@ == self.spec_members(),
    {
        self.members.as_slice()
    }

    /// Whether another client id can still be handed out.
    pub fn has_free_client_id(&self) -> (free: bool)
        ensures
            free == (self.next_client_id() < u64::MAX),
    {
        self.next_client_id < u64::MAX
    }

    /// Whether another medium change can still be numbered.
    pub fn has_free_medium_version(&self) -> (free: bool)
        ensures
            free == (self.spec_medium().version < u64::MAX),
    {
        self.medium.version < u64::MAX
    }

    fn is_name_in_use(&self, name: &String) -> (in_use: bool)
        ensures
            in_use == name_in_use(self.clients(), name@),
    {
        let mut index: usize = 0;
        while index < self.members.len()
            invariant
                index <= self.members@.len(),
                forall|k: int| 0 <= k < index ==> #[trigger] self.clients()[k].1 != name@,
            decreases self.members@.len() - index,
        {
            assert(self.clients()[index as int] == (self.members@[index as int].id.id, self.members@[index as int].name@));
            if self.members[index].name.eq(name) {
                assert(self.clients()[index as int].1 == name@);
                return true;
            }
            index = index + 1;
        }
        proof {
            if name_in_use(self.clients(), name@) {
                let k = choose|k: int| 0 <= k < self.clients().len() && #[trigger] self.clients()[k].1 == name@;
            }
        }
        false
    }

    fn responses(&self) -> (clients: Vec<ClientResponse>)
        ensures
            responses_view(clients@) == self.clients(),
    {
        let mut clients: Vec<ClientResponse> = Vec::new();
        let mut index: usize = 0;
        while index < self.members.len()
            invariant
                index <= self.members@.len(),
                responses_view(clients@) == self.clients().subrange(0, index as int),
            decreases self.members@.len() - index,
        {
            let member = &self.members[index];
            let ghost before = clients@;
            clients.push(ClientResponse { id: member.id, name: member.name.clone() });
            proof {
                assert(responses_view(clients@) =~= responses_view(before).push((member.id.id, member.name@)));
                assert(self.clients()[index as int] == (member.id.id, member.name@));
                assert(self.clients().subrange(0, index + 1) =~= self.clients().subrange(0, index as int).push(self.clients()[index as int]));
            }
            index = index + 1;
        }
        assert(self.clients().subrange(0, self.members@.len() as int) =~= self.clients());
        clients
    }

    /// Adds a client under this name, reached through `sender`, unless the room
    /// refuses it. Gives the new client's id and the clients that were there before.
    pub fn add_client(&mut self, name: String, sender: Sender) -> (added: Result<(ClientId, Vec<ClientResponse>), RoomError>)
        requires
            old(self).well_formed(),
            old(self).next_client_id() < u64::MAX,
        ensures
            final(self).well_formed(),
            final(self).size_limit() == old(self).size_limit(),
            final(self).spec_medium() == old(self).spec_medium(),
            match admission_error(old(self).clients(), old(self).size_limit(), name@) {
                Some(error) => {
                    &&& added == Err::<(ClientId, Vec<ClientResponse>), RoomError>(error)
                    &&& final(self).spec_members() == old(self).spec_members()
                    &&& final(self).next_client_id() == old(self).next_client_id()
                },
                None => added matches Ok((id, others)) && {
                    &&& id.id == old(self).next_client_id()
                    &&& responses_view(others@) == old(self).clients()
                    &&& final(self).clients() == old(self).clients().push((id.id, name@))
                    &&& final(self).spec_members().last().spec_sender() == sender
                    &&& final(self).spec_members().subrange(0, old(self).spec_members().len() as int) == old(self).spec_members()
                    &&& final(self).next_client_id() == old(self).next_client_id() + 1
                },
            },
    {
        if is_blank_text(name.as_str()) {
            return Err(RoomError::EmptyClientName);
        }
        if name.as_str().unicode_len() > MAXIMUM_CLIENT_NAME_LENGTH {
            return Err(RoomError::ClientNameTooLong);
        }
        if self.is_name_in_use(&name) {
            return Err(RoomError::ClientNameAlreadyInUse);
        }
        if self.members.len() >= self.size_limit {
            return Err(RoomError::RoomFull);
        }
        let others = self.responses();
        let id = ClientId { id: self.next_client_id };
        self.next_client_id = self.next_client_id + 1;
        let ghost before = self.members@;
        let ghost name_view = name@;
        self.members.push(Member { id, name, sender });
        proof {
            let after = self.members@;
            assert(after.subrange(0, before.len() as int) =~= before);
            assert(members_view(after) =~= members_view(before).push((id.id, name_view)));
            assert forall|i: int| 0 <= i < after.len() implies #[trigger] after[i].id.id < self.next_client_id by {
                if i < before.len() {
                    assert(after[i] == before[i]);
                }
            }
            assert forall|i: int, j: int| 0 <= i < j < after.len() implies
                #[trigger] after[i].id.id != #[trigger] after[j].id.id by {
                assert(after[i] == before[i]);
                if j < before.len() {
                    assert(after[j] == before[j]);
                }
            }
            assert forall|i: int, j: int| 0 <= i < j < after.len() implies
                #[trigger] after[i].name@ != #[trigger] after[j].name@ by {
                assert(after[i] == before[i]);
                if j < before.len() {
                    assert(after[j] == before[j]);
                } else {
                    assert(members_view(before)[i] == (before[i].id.id, before[i].name@));
                    assert(members_view(before)[i].1 != name_view);
                }
            }
        }
        Ok((id, others))
    }

    /// Removes the client with this id, if the room has one, and gives its name.
    pub fn remove_client(&mut self, id: ClientId) -> (removed: Option<String>)
        requires
            old(self).well_formed(),
        ensures
            final(self).well_formed(),
            final(self).next_client_id() == old(self).next_client_id(),
            final(self).size_limit() == old(self).size_limit(),
            final(self).spec_medium() == old(self).spec_medium(),
            match removed {
                None => {
                    &&& forall|k: int| 0 <= k < old(self).clients().len() ==> #[trigger] old(self).clients()[k].0 != id.id
                    &&& final(self).spec_members() == old(self).spec_members()
                },
                Some(name) => exists|k: int| 0 <= k < old(self).spec_members().len() && {
                    &&& #[trigger] old(self).spec_members()[k].spec_id() == id.id
                    &&& old(self).spec_members()[k].spec_name() == name@
                    &&& final(self).spec_members() == old(self).spec_members().remove(k)
                },
            },
    {
        let mut index: usize = 0;
        while index < self.members.len()
            invariant
                self.members@ == old(self).members@,
                self.next_client_id == old(self).next_client_id,
                self.size_limit == old(self).size_limit,
                self.medium == old(self).medium,
                old(self).well_formed(),
                index <= self.members@.len(),
                forall|k: int| 0 <= k < index ==> #[trigger] self.members@[k].id.id != id.id,
            decreases self.members@.len() - index,
        {
            if self.members[index].id.id == id.id {
                let ghost before = self.members@;
                let member = self.members.remove(index);
                proof {
                    let after = self.members@;
                    assert(after == before.remove(index as int));
                    assert forall|i: int| 0 <= i < after.len() implies #[trigger] after[i].id.id < self.next_client_id by {
                        if i < index {
                            assert(after[i] == before[i]);
                        } else {
                            assert(after[i] == before[i + 1]);
                        }
                    }
                    assert forall|i: int, j: int| 0 <= i < j < after.len() implies
                        #[trigger] after[i].id.id != #[trigger] after[j].id.id by {
                        let bi = if i < index { i } else { i + 1 };
                        let bj = if j < index { j } else { j + 1 };
                        assert(after[i] == before[bi]);
                        assert(after[j] == before[bj]);
                    }
                    assert forall|i: int, j: int| 0 <= i < j < after.len() implies
                        #[trigger] after[i].name@ != #[trigger] after[j].name@ by {
                        let bi = if i < index { i } else { i + 1 };
                        let bj = if j < index { j } else { j + 1 };
                        assert(after[i] == before[bi]);
                        assert(after[j] == before[bj]);
                    }
                    assert(member == before[index as int]);
                    assert(before[index as int].spec_id() == id.id);
                    assert(old(self).spec_members()[index as int].spec_name() == member.name@);
                    assert(self.members@ == old(self).spec_members().remove(index as int));
                }
                return Some(member.name);
            }
            index = index + 1;
        }
        proof {
            assert forall|k: int| 0 <= k < old(self).clients().len() implies #[trigger] old(self).clients()[k].0 != id.id by {
                assert(old(self).clients()[k] == (old(self).members@[k].id.id, old(self).members@[k].name@));
            }
        }
        None
    }

    /// Replaces the medium, if the request names the current version.
    pub fn insert_medium(&mut self, medium: Medium, previous_version: u64) -> (inserted: Option<VersionedMedium>)
        requires
            old(self).spec_medium().version < u64::MAX,
        ensures
            final(self).spec_members() == old(self).spec_members(),
            final(self).next_client_id() == old(self).next_client_id(),
            final(self).size_limit() == old(self).size_limit(),
            previous_version == old(self).spec_medium().version ==> {
                let changed = VersionedMedium { version: (previous_version + 1) as u64, medium };
                &&& inserted == Some(changed)
                &&& final(self).spec_medium() == changed
            },
            previous_version != old(self).spec_medium().version ==> {
                &&& inserted is None
                &&& final(self).spec_medium() == old(self).spec_medium()
            },
    {
        if previous_version != self.medium.version {
            return None;
        }
        self.medium = VersionedMedium { version: previous_version + 1, medium };
        Some(self.medium.copied())
    }

    fn change_playback(&mut self, playback_state: PlaybackStateBroadcast, previous_version: u64) -> (changed: Option<VersionedMedium>)
        requires
            old(self).spec_medium().version < u64::MAX,
        ensures
            final(self).spec_members() == old(self).spec_members(),
            final(self).next_client_id() == old(self).next_client_id(),
            final(self).size_limit() == old(self).size_limit(),
            previous_version == old(self).spec_medium().version ==> {
                let expected = VersionedMedium {
                    version: (previous_version + 1) as u64,
                    medium: with_playback_state(old(self).spec_medium().medium, playback_state),
                };
                &&& changed == Some(expected)
                &&& final(self).spec_medium() == expected
            },
            previous_version != old(self).spec_medium().version ==> {
                &&& changed is None
                &&& final(self).spec_medium() == old(self).spec_medium()
            },
    {
        if previous_version != self.medium.version {
            return None;
        }
        let medium = match &self.medium.medium {
            Medium::FixedLength { name, length_in_milliseconds, .. } => Medium::FixedLength {
                name: name.clone(),
                length_in_milliseconds: *length_in_milliseconds,
                playback_state,
            },
            Medium::Empty => Medium::Empty,
        };
        self.medium = VersionedMedium { version: previous_version + 1, medium };
        Some(self.medium.copied())
    }

    /// Starts playback at this point in reference time, if the request names the
    /// current version.
    pub fn play_medium(&mut self, start_time_in_milliseconds: i64, previous_version: u64) -> (played: Option<VersionedMedium>)
        requires
            old(self).spec_medium().version < u64::MAX,
        ensures
            final(self).spec_members() == old(self).spec_members(),
            final(self).next_client_id() == old(self).next_client_id(),
            final(self).size_limit() == old(self).size_limit(),
            previous_version == old(self).spec_medium().version ==> {
                let expected = VersionedMedium {
                    version: (previous_version + 1) as u64,
                    medium: with_playback_state(old(self).spec_medium().medium,
                        PlaybackStateBroadcast::Playing { start_time_in_milliseconds }),
                };
                &&& played == Some(expected)
                &&& final(self).spec_medium() == expected
            },
            previous_version == old(self).spec_medium().version ==> match old(self).spec_medium().medium {
                Medium::FixedLength { name, length_in_milliseconds, .. } => final(self).spec_medium().medium
                    == Medium::FixedLength { name, length_in_milliseconds, playback_state: PlaybackStateBroadcast::Playing { start_time_in_milliseconds } },
                Medium::Empty => final(self).spec_medium().medium == Medium::Empty,
            },
            previous_version != old(self).spec_medium().version ==> {
                &&& played is None
                &&& final(self).spec_medium() == old(self).spec_medium()
            },
    {
        self.change_playback(PlaybackStateBroadcast::Playing { start_time_in_milliseconds }, previous_version)
    }

    /// Pauses playback at this position, if the request names the current version.
    pub fn pause_medium(&mut self, position_in_milliseconds: u64, previous_version: u64) -> (paused: Option<VersionedMedium>)
        requires
            old(self).spec_medium().version < u64::MAX,
        ensures
            final(self).spec_members() == old(self).spec_members(),
            final(self).next_client_id() == old(self).next_client_id(),
            final(self).size_limit() == old(self).size_limit(),
            previous_version == old(self).spec_medium().version ==> {
                let expected = VersionedMedium {
                    version: (previous_version + 1) as u64,
                    medium: with_playback_state(old(self).spec_medium().medium,
                        PlaybackStateBroadcast::Paused { position_in_milliseconds }),
                };
                &&& paused == Some(expected)
                &&& final(self).spec_medium() == expected
            },
            previous_version == old(self).spec_medium().version ==> match old(self).spec_medium().medium {
                Medium::FixedLength { name, length_in_milliseconds, .. } => final(self).spec_medium().medium
                    == Medium::FixedLength { name, length_in_milliseconds, playback_state: PlaybackStateBroadcast::Paused { position_in_milliseconds } },
                Medium::Empty => final(self).spec_medium().medium == Medium::Empty,
            },
            previous_version != old(self).spec_medium().version ==> {
                &&& paused is None
                &&& final(self).spec_medium() == old(self).spec_medium()
            },
    {
        self.change_playback(PlaybackStateBroadcast::Paused { position_in_milliseconds }, previous_version)
    }
}

/// No two clients of a room share a name or an id: admission refuses a name in
/// use and hands out each id once.
pub proof fn lemma_room_names_and_ids_are_distinct<Sender>(room: RoomState<Sender>)
    requires
        room.well_formed(),
    ensures
        forall|i: int, j: int| 0 <= i < j < room.clients().len() ==> {
            &&& #[trigger] room.clients()[i].0 != #[trigger] room.clients()[j].0
            &&& room.clients()[i].1 != room.clients()[j].1
        },
{
    assert forall|i: int, j: int| 0 <= i < j < room.clients().len() implies {
        &&& #[trigger] room.clients()[i].0 != #[trigger] room.clients()[j].0
        &&& room.clients()[i].1 != room.clients()[j].1
    } by {
        assert(room.clients()[i] == (room.members@[i].id.id, room.members@[i].name@));
        assert(room.clients()[j] == (room.members@[j].id.id, room.members@[j].name@));
    }
}

/// Registers a client in the room: a refused client gets the error answer for the
/// room's reason; an admitted one gets its id, the clients that were there before
/// and the current medium.
pub fn register_in_room<Sender>(room: &mut RoomState<Sender>, name: String, sender: Sender) -> (answer: Result<HelloResponse, ErrorMessage>)
    requires
        old(room).well_formed(),
        old(room).next_client_id() < u64::MAX,
    ensures
        final(room).well_formed(),
        final(room).spec_medium() == old(room).spec_medium(),
        match admission_error(old(room).clients(), old(room).size_limit(), name@) {
            Some(error) => {
                &&& answer matches Err(message) && message.error == registration_error_type(error)
                    && message.message@ == room_error_text(error)
                &&& final(room).clients() == old(room).clients()
            },
            None => answer matches Ok(hello) && {
                &&& hello.id.id == old(room).next_client_id()
                &&& responses_view(hello.clients@) == old(room).clients()
                &&& hello.current_medium == old(room).spec_medium()
                &&& final(room).clients() == old(room).clients().push((hello.id.id, name@))
            },
        },
{
    match room.add_client(name, sender) {
        Ok((id, clients)) => Ok(HelloResponse { id, clients, current_medium: room.medium().copied() }),
        Err(error) => Err(registration_rejection(error)),
    }
}

/// The answer to a medium change when the room refused it: the request named a
/// version other than the current one.
pub open spec fn refused_change(answer: Result<MediumStateChangedBroadcast, ErrorMessage>, previous_version: u64, current_version: u64) -> bool {
    answer matches Err(error) && error.error == ErrorMessageType::IncorrectMediumVersion
        && error.message@ == incorrect_version_text(previous_version, current_version)
}

/// Inserts the requested medium on behalf of a client and gives the broadcast of
/// the new state; a too long medium or a wrong version is refused.
pub fn handle_insert_medium_request<Sender>(
    room: &mut RoomState<Sender>,
    client_id: ClientId,
    client_name: String,
    request: InsertMediumRequest,
) -> (answer: Result<MediumStateChangedBroadcast, ErrorMessage>)
    requires
        old(room).spec_medium().version < u64::MAX,
    ensures
        final(room).spec_members() == old(room).spec_members(),
        final(room).next_client_id() == old(room).next_client_id(),
        request.previous_version == old(room).spec_medium().version ==> match request.medium {
            MediumRequest::FixedLength { name, length_in_milliseconds } => if length_in_milliseconds <= 31536000000 {
                answer matches Ok(broadcast) && broadcast.medium == (VersionedMediumBroadcast {
                    version: (request.previous_version + 1) as u64,
                    medium: MediumBroadcast::FixedLength {
                        name,
                        length_in_milliseconds,
                        playback_skipped: false,
                        playback_state: PlaybackStateBroadcast::Paused { position_in_milliseconds: 0 },
                    },
                })
            } else {
                answer is Err
            },
            MediumRequest::Empty => answer matches Ok(broadcast) && broadcast.medium == (VersionedMediumBroadcast {
                version: (request.previous_version + 1) as u64,
                medium: MediumBroadcast::Empty,
            }),
        },
        match requested_medium(request.medium) {
            None => answer matches Err(error) && error.error == ErrorMessageType::InvalidFormat
                && error.message@ == "Length of a medium must not be larger than one year."@
                && final(room).spec_medium() == old(room).spec_medium(),
            Some(medium) => if request.previous_version == old(room).spec_medium().version {
                let changed = VersionedMedium { version: (request.previous_version + 1) as u64, medium };
                &&& final(room).spec_medium() == changed
                &&& answer == Ok::<MediumStateChangedBroadcast, ErrorMessage>(MediumStateChangedBroadcast {
                    changed_by_name: client_name,
                    changed_by_id: client_id,
                    medium: medium_broadcast(changed, false),
                })
            } else {
                &&& final(room).spec_medium() == old(room).spec_medium()
                &&& refused_change(answer, request.previous_version, old(room).spec_medium().version)
            },
        },
{
    let medium = match medium_from_request(request.medium) {
        Ok(medium) => medium,
        Err(error) => return Err(error),
    };
    let current_version = room.medium().version;
    let inserted = room.insert_medium(medium, request.previous_version);
    let changed = match inserted {
        Some(medium) => Some(medium.to_broadcast(false)),
        None => None,
    };
    medium_state_change(client_id, client_name, changed, request.previous_version, current_version)
}

/// Starts playback on behalf of a client and gives the broadcast of the new
/// state; a wrong version is refused.
pub fn handle_play_request<Sender>(
    room: &mut RoomState<Sender>,
    client_id: ClientId,
    client_name: String,
    request: PlayRequest,
) -> (answer: Result<MediumStateChangedBroadcast, ErrorMessage>)
    requires
        old(room).spec_medium().version < u64::MAX,
    ensures
        final(room).spec_members() == old(room).spec_members(),
        final(room).next_client_id() == old(room).next_client_id(),
        request.previous_version == old(room).spec_medium().version ==> match old(room).spec_medium().medium {
            Medium::FixedLength { name, length_in_milliseconds, .. } => answer matches Ok(broadcast)
                && broadcast.medium == (VersionedMediumBroadcast {
                    version: (request.previous_version + 1) as u64,
                    medium: MediumBroadcast::FixedLength {
                        name,
                        length_in_milliseconds,
                        playback_skipped: request.skipped,
                        playback_state: PlaybackStateBroadcast::Playing { start_time_in_milliseconds: request.start_time_in_milliseconds },
                    },
                }),
            Medium::Empty => answer matches Ok(broadcast) && broadcast.medium.medium == MediumBroadcast::Empty,
        },
        if request.previous_version == old(room).spec_medium().version {
            let changed = VersionedMedium {
                version: (request.previous_version + 1) as u64,
                medium: with_playback_state(old(room).spec_medium().medium,
                    PlaybackStateBroadcast::Playing { start_time_in_milliseconds: request.start_time_in_milliseconds }),
            };
            &&& final(room).spec_medium() == changed
            &&& answer == Ok::<MediumStateChangedBroadcast, ErrorMessage>(MediumStateChangedBroadcast {
                changed_by_name: client_name,
                changed_by_id: client_id,
                medium: medium_broadcast(changed, request.skipped),
            })
        } else {
            &&& final(room).spec_medium() == old(room).spec_medium()
            &&& refused_change(answer, request.previous_version, old(room).spec_medium().version)
        },
{
    let current_version = room.medium().version;
    let played = room.play_medium(request.start_time_in_milliseconds, request.previous_version);
    let changed = match played {
        Some(medium) => Some(medium.to_broadcast(request.skipped)),
        None => None,
    };
    medium_state_change(client_id, client_name, changed, request.previous_version, current_version)
}

/// Pauses playback on behalf of a client and gives the broadcast of the new
/// state; a wrong version is refused.
pub fn handle_pause_request<Sender>(
    room: &mut RoomState<Sender>,
    client_id: ClientId,
    client_name: String,
    request: PauseRequest,
) -> (answer: Result<MediumStateChangedBroadcast, ErrorMessage>)
    requires
        old(room).spec_medium().version < u64::MAX,
    ensures
        final(room).spec_members() == old(room).spec_members(),
        final(room).next_client_id() == old(room).next_client_id(),
        request.previous_version == old(room).spec_medium().version ==> match old(room).spec_medium().medium {
            Medium::FixedLength { name, length_in_milliseconds, .. } => answer matches Ok(broadcast)
                && broadcast.medium == (VersionedMediumBroadcast {
                    version: (request.previous_version + 1) as u64,
                    medium: MediumBroadcast::FixedLength {
                        name,
                        length_in_milliseconds,
                        playback_skipped: request.skipped,
                        playback_state: PlaybackStateBroadcast::Paused { position_in_milliseconds: request.position_in_milliseconds },
                    },
                }),
            Medium::Empty => answer matches Ok(broadcast) && broadcast.medium.medium == MediumBroadcast::Empty,
        },
        if request.previous_version == old(room).spec_medium().version {
            let changed = VersionedMedium {
                version: (request.previous_version + 1) as u64,
                medium: with_playback_state(old(room).spec_medium().medium,
                    PlaybackStateBroadcast::Paused { position_in_milliseconds: request.position_in_milliseconds }),
            };
            &&& final(room).spec_medium() == changed
            &&& answer == Ok::<MediumStateChangedBroadcast, ErrorMessage>(MediumStateChangedBroadcast {
                changed_by_name: client_name,
                changed_by_id: client_id,
                medium: medium_broadcast(changed, request.skipped),
            })
        } else {
            &&& final(room).spec_medium() == old(room).spec_medium()
            &&& refused_change(answer, request.previous_version, old(room).spec_medium().version)
        },
{
    let current_version = room.medium().version;
    let paused = room.pause_medium(request.position_in_milliseconds, request.previous_version);
    let changed = match paused {
        Some(medium) => Some(medium.to_broadcast(request.skipped)),
        None => None,
    };
    medium_state_change(client_id, client_name, changed, request.previous_version, current_version)
}

} // verus!
