use vstd::prelude::*;
use crate::server_connection::OrderedMessage;

verus! {

/// A client of a room: its id and the channel that reaches it.
pub struct Client<Sender> {
    id: usize,
    sender: Sender,
}

impl<Sender> Client<Sender> {
    /// The client's id.
    pub closed spec fn spec_id(&self) -> usize {
        self.id
    }

    /// The channel that reaches the client.
    pub closed spec fn spec_sender(&self) -> Sender {
        self.sender
    }

    pub fn id(&self) -> (id: usize)
        ensures
            id == self.spec_id(),
    {
        self.id
    }

    pub fn sender(&self) -> (sender: &Sender)
        ensures
            *sender == self.spec_sender(),
    {
        &self.sender
    }
}

/// The ids of the clients in the order they joined.
pub open spec fn ids_of<Sender>(clients: Seq<Client<Sender>>) -> Seq<usize> {
    clients.map_values(|client: Client<Sender>| client.spec_id())
}

/// A room: the offset of the playback, the clients, and the counters that number
/// clients and messages.
pub struct Room<Sender> {
    offset: i64,
    next_client_id: usize,
    next_sequence_number: u64,
    clients: Vec<Client<Sender>>,
}

impl<Sender> Room<Sender> {
    /// The clients of the room, in the order they joined.
    pub closed spec fn spec_clients(&self) -> Seq<Client<Sender>> {
        self.clients@
    }

    /// The playback offset.
    pub closed spec fn spec_offset(&self) -> i64 {
        self.offset
    }

    /// The id the next client gets.
    pub closed spec fn next_client_id(&self) -> usize {
        self.next_client_id
    }

    /// The number the next message gets.
    pub closed spec fn next_sequence_number(&self) -> u64 {
        self.next_sequence_number
    }

    /// No two clients share an id, and every id was handed out before.
    pub closed spec fn well_formed(&self) -> bool {
        &&& forall|i: int, j: int| 0 <= i < j < self.clients@.len()
            ==> #[trigger] self.clients@[i].id != #[trigger] self.clients@[j].id
        &&& forall|i: int| 0 <= i < self.clients@.len() ==> #[trigger] self.clients@[i].id < self.next_client_id
    }

    /// An empty room whose playback starts at offset zero.
    pub fn new() -> (room: Self)
        ensures
            room.well_formed(),
            room.spec_offset() == 0,
            room.spec_clients().len() == 0,
            room.next_client_id() == 0,
            room.next_sequence_number() == 0,
    {
        Room { offset: 0, next_client_id: 0, next_sequence_number: 0, clients: Vec::new() }
    }

    /// Adds a new client that is reached through `sender` and returns its id, which
    /// no other client of the room has.
    pub fn add_client(&mut self, sender: Sender) -> (id: usize)
        requires
            old(self).well_formed(),
            old(self).next_client_id() < usize::MAX,
        ensures
            final(self).well_formed(),
            id == old(self).next_client_id(),
            final(self).next_client_id() == old(self).next_client_id() + 1,
            final(self).next_sequence_number() == old(self).next_sequence_number(),
            final(self).spec_offset() == old(self).spec_offset(),
            final(self).spec_clients().len() == old(self).spec_clients().len() + 1,
            final(self).spec_clients().subrange(0, old(self).spec_clients().len() as int) == old(self).spec_clients(),
            final(self).spec_clients().last().spec_id() == id,
            final(self).spec_clients().last().spec_sender() == sender,
            !ids_of(old(self).spec_clients()).contains(id),
    {
        let id = self.next_client_id;
        self.next_client_id = self.next_client_id + 1;
        let ghost before = self.clients@;
        self.clients.push(Client { id, sender });
        proof {
            let ids_before = ids_of(before);
            assert(self.clients@ == before.push(Client { id, sender }));
            assert(self.clients@.subrange(0, before.len() as int) =~= before);
            if ids_before.contains(id) {
                let k = choose|k: int| 0 <= k < ids_before.len() && ids_before[k] == id;
                assert(ids_before[k] == before[k].spec_id());
                assert(before[k].id < old(self).next_client_id);
            }
            assert forall|i: int| 0 <= i < self.clients@.len() implies #[trigger] self.clients@[i].id < self.next_client_id by {
                if i < before.len() {
                    assert(self.clients@[i] == before[i]);
                }
            }
            assert forall|i: int, j: int| 0 <= i < j < self.clients@.len() implies
                #[trigger] self.clients@[i].id != #[trigger] self.clients@[j].id by {
                assert(self.clients@[i] == before[i]);
                if j < before.len() {
                    assert(self.clients@[j] == before[j]);
                } else {
                    assert(before[i].id < old(self).next_client_id);
                }
            }
        }
        id
    }

    /// Removes the client with this id, if the room has one. Tells whether it had.
    pub fn remove_client(&mut self, id: usize) -> (removed: bool)
        requires
            old(self).well_formed(),
        ensures
            final(self).well_formed(),
            removed == ids_of(old(self).spec_clients()).contains(id),
            !ids_of(final(self).spec_clients()).contains(id),
            ids_of(final(self).spec_clients()) == ids_of(old(self).spec_clients()).filter(|other: usize| other != id),
            final(self).spec_clients() == old(self).spec_clients().filter(|client: Client<Sender>| client.spec_id() != id),
            final(self).next_client_id() == old(self).next_client_id(),
            final(self).next_sequence_number() == old(self).next_sequence_number(),
            final(self).spec_offset() == old(self).spec_offset(),
    {
        let ghost ids = ids_of(self.clients@);
        let mut index: usize = 0;
        while index < self.clients.len()
            invariant
                self.clients@ == old(self).clients@,
                self.next_client_id == old(self).next_client_id,
                self.next_sequence_number == old(self).next_sequence_number,
                self.offset == old(self).offset,
                old(self).well_formed(),
                ids == ids_of(self.clients@),
                index <= self.clients@.len(),
                forall|k: int| 0 <= k < index ==> ids[k] != id,
            decreases self.clients@.len() - index,
        {
            assert(ids[index as int] == self.clients@[index as int].spec_id());
            if self.clients[index].id == id {
                let ghost before = self.clients@;
                self.clients.remove(index);
                proof {
                    let after = ids_of(self.clients@);
                    assert(self.clients@ == before.remove(index as int));
                    assert(after =~= ids.remove(index as int));
                    assert forall|k: int| 0 <= k < ids.len() && ids[k] == id implies k == index by {
                        assert(ids[k] == before[k].spec_id());
                        assert(ids[index as int] == before[index as int].spec_id());
                        if k < index {
                            assert(before[k].id != before[index as int].id);
                        } else if k > index {
                            assert(before[index as int].id != before[k].id);
                        }
                    }
                    assert forall|i: int| 0 <= i < self.clients@.len() implies #[trigger] self.clients@[i].id < self.next_client_id by {
                        if i < index {
                            assert(self.clients@[i] == before[i]);
                        } else {
                            assert(self.clients@[i] == before[i + 1]);
                        }
                    }
                    assert forall|i: int, j: int| 0 <= i < j < self.clients@.len() implies
                        #[trigger] self.clients@[i].id != #[trigger] self.clients@[j].id by {
                        let bi = if i < index { i } else { i + 1 };
                        let bj = if j < index { j } else { j + 1 };
                        assert(self.clients@[i] == before[bi]);
                        assert(self.clients@[j] == before[bj]);
                        assert(before[bi].id != before[bj].id);
                    }
                    lemma_filter_removes_single(ids, index as int, id);
                    assert forall|k: int| 0 <= k < before.len() && before[k].spec_id() == id implies k == index by {
                        assert(ids[k] == before[k].spec_id());
                    }
                    lemma_client_filter_removes_single(before, index as int, id);
                    assert(ids.contains(id)) by {
                        assert(ids[index as int] == id);
                    }
                }
                return true;
            }
            index = index + 1;
        }
        proof {
            assert(!ids.contains(id)) by {
                if ids.contains(id) {
                    let k = choose|k: int| 0 <= k < ids.len() && ids[k] == id;
                }
            }
            lemma_filter_keeps_all(ids, id);
            assert forall|k: int| 0 <= k < self.clients@.len() implies #[trigger] self.clients@[k].spec_id() != id by {
                assert(ids[k] == self.clients@[k].spec_id());
            }
            lemma_client_filter_keeps_all(self.clients@, id);
        }
        false
    }

    /// Numbers a message with the room's next sequence number.
    pub fn number_message<Message>(&mut self, message: Message) -> (ordered: OrderedMessage<Message>)
        requires
            old(self).well_formed(),
        ensures
            final(self).well_formed(),
            ordered == (OrderedMessage { number: old(self).next_sequence_number(), message }),
            final(self).next_sequence_number() == (if old(self).next_sequence_number() == u64::MAX {
                0
            } else {
                (old(self).next_sequence_number() + 1) as u64
            }),
            final(self).spec_clients() == old(self).spec_clients(),
            final(self).next_client_id() == old(self).next_client_id(),
            final(self).spec_offset() == old(self).spec_offset(),
    {
        let number = self.next_sequence_number;
        self.next_sequence_number = self.next_sequence_number.wrapping_add(1);
        OrderedMessage { number, message }
    }

    /// The playback offset.
    pub fn offset(&self) -> (offset: i64)
        ensures
            offset == self.spec_offset(),
    {
        self.offset
    }

    /// Sets the playback offset.
    pub fn set_offset(&mut self, offset: i64)
        ensures
            final(self).spec_offset() == offset,
            final(self).spec_clients() == old(self).spec_clients(),
            final(self).next_client_id() == old(self).next_client_id(),
            final(self).next_sequence_number() == old(self).next_sequence_number(),
    {
        self.offset = offset;
    }

    /// Whether the room already holds `size_limit` clients or more.
    pub fn is_full(&self, size_limit: usize) -> (full: bool)
        ensures
            full == (self.spec_clients().len() >= size_limit),
    {
        self.clients.len() >= size_limit
    }

    /// Whether another client id can still be handed out.
    pub fn has_free_client_id(&self) -> (free: bool)
        ensures
            free == (self.next_client_id() < usize::MAX),
    {
        self.next_client_id < usize::MAX
    }

    /// The clients of the room, in the order they joined.
    pub fn clients(&self) -> (clients: &[Client<Sender>])
        ensures
            clients@ == self.spec_clients(),
    {
        self.clients.as_slice()
    }
}

/// No two clients of a well-formed room share an id: each added client gets an id
/// that no client in the room has.
pub proof fn lemma_client_ids_are_distinct<Sender>(room: Room<Sender>)
    requires
        room.well_formed(),
    ensures
        forall|i: int, j: int| 0 <= i < j < ids_of(room.spec_clients()).len()
            ==> ids_of(room.spec_clients())[i] != ids_of(room.spec_clients())[j],
{
    let ids = ids_of(room.spec_clients());
    assert forall|i: int, j: int| 0 <= i < j < ids.len() implies ids[i] != ids[j] by {
        assert(ids[i] == room.clients@[i].id);
        assert(ids[j] == room.clients@[j].id);
    }
}

/// Removing the only occurrence of a value from a sequence is the same as
/// filtering it out.
proof fn lemma_filter_removes_single(ids: Seq<usize>, index: int, id: usize)
    requires
        0 <= index < ids.len(),
        ids[index] == id,
        forall|k: int| 0 <= k < ids.len() && ids[k] == id ==> k == index,
    ensures
        ids.filter(|other: usize| other != id) == ids.remove(index),
    decreases ids.len(),
{
    reveal_with_fuel(Seq::filter, 1);
    let last = ids.len() - 1;
    if index == last {
        lemma_filter_keeps_all(ids.drop_last(), id);
        assert(ids.drop_last() =~= ids.remove(index));
    } else {
        lemma_filter_removes_single(ids.drop_last(), index, id);
        assert(ids.remove(index).drop_last() =~= ids.drop_last().remove(index));
        assert(ids.remove(index) =~= ids.drop_last().remove(index).push(ids[last]));
    }
}

/// Filtering out a value that does not occur keeps the sequence as it is.
proof fn lemma_filter_keeps_all(ids: Seq<usize>, id: usize)
    requires
        !ids.contains(id),
    ensures
        ids.filter(|other: usize| other != id) == ids,
    decreases ids.len(),
{
    reveal_with_fuel(Seq::filter, 1);
    if ids.len() > 0 {
        assert(!ids.drop_last().contains(id)) by {
            if ids.drop_last().contains(id) {
                let k = choose|k: int| 0 <= k < ids.drop_last().len() && ids.drop_last()[k] == id;
                assert(ids[k] == id);
            }
        }
        lemma_filter_keeps_all(ids.drop_last(), id);
        assert(ids.last() != id) by {
            assert(ids[ids.len() - 1] == ids.last());
        }
        assert(ids =~= ids.drop_last().push(ids.last()));
    }
}

/// Removing the only client with an id is the same as filtering that id out.
proof fn lemma_client_filter_removes_single<Sender>(clients: Seq<Client<Sender>>, index: int, id: usize)
    requires
        0 <= index < clients.len(),
        clients[index].spec_id() == id,
        forall|k: int| 0 <= k < clients.len() && clients[k].spec_id() == id ==> k == index,
    ensures
        clients.filter(|client: Client<Sender>| client.spec_id() != id) == clients.remove(index),
    decreases clients.len(),
{
    reveal_with_fuel(Seq::filter, 1);
    let last = clients.len() - 1;
    if index == last {
        assert forall|k: int| 0 <= k < clients.drop_last().len()
            implies #[trigger] clients.drop_last()[k].spec_id() != id by {
            assert(clients.drop_last()[k] == clients[k]);
        }
        lemma_client_filter_keeps_all(clients.drop_last(), id);
        assert(clients.drop_last() =~= clients.remove(index));
    } else {
        assert forall|k: int| 0 <= k < clients.drop_last().len() && clients.drop_last()[k].spec_id() == id
            implies k == index by {
            assert(clients.drop_last()[k] == clients[k]);
        }
        lemma_client_filter_removes_single(clients.drop_last(), index, id);
        assert(clients[last].spec_id() != id);
        assert(clients.remove(index).drop_last() =~= clients.drop_last().remove(index));
        assert(clients.remove(index) =~= clients.drop_last().remove(index).push(clients[last]));
    }
}

/// Filtering out an id that no client has keeps the clients as they are.
proof fn lemma_client_filter_keeps_all<Sender>(clients: Seq<Client<Sender>>, id: usize)
    requires
        forall|k: int| 0 <= k < clients.len() ==> #[trigger] clients[k].spec_id() != id,
    ensures
        clients.filter(|client: Client<Sender>| client.spec_id() != id) == clients,
    decreases clients.len(),
{
    reveal_with_fuel(Seq::filter, 1);
    if clients.len() > 0 {
        assert forall|k: int| 0 <= k < clients.drop_last().len()
            implies #[trigger] clients.drop_last()[k].spec_id() != id by {
            assert(clients.drop_last()[k] == clients[k]);
        }
        lemma_client_filter_keeps_all(clients.drop_last(), id);
        assert(clients.last().spec_id() != id) by {
            assert(clients[clients.len() - 1] == clients.last());
        }
        assert(clients =~= clients.drop_last().push(clients.last()));
    }
}

} // verus!
