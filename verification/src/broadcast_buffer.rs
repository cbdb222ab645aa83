use vstd::prelude::*;
use std::collections::{BTreeSet, VecDeque};
use crate::broadcast_message::{BroadcastMessage, ChatBroadcast, MediumStateChangedBroadcast, VersionedMediumBroadcast};

verus! {

broadcast use vstd::std_specs::btree::group_btree_axioms, vstd::laws_cmp::group_laws_cmp;

/// How many chat messages a buffer keeps at most.
pub const CHAT_MESSAGE_BUFFER_LIMIT: usize = 10;

/// The id of the client that a join announcement is about.
pub open spec fn joined_id(message: BroadcastMessage) -> Option<u64> {
    match message {
        BroadcastMessage::ClientJoined(joined) => Some(joined.id.id),
        _ => None,
    }
}

/// The id of the client that a leave announcement is about.
pub open spec fn left_id(message: BroadcastMessage) -> Option<u64> {
    match message {
        BroadcastMessage::ClientLeft(left) => Some(left.id.id),
        _ => None,
    }
}

/// The id of the client that sent a chat message.
pub open spec fn chatter_id(message: BroadcastMessage) -> Option<u64> {
    match message {
        BroadcastMessage::Chat(chat) => Some(chat.sender_id.id),
        _ => None,
    }
}

pub open spec fn is_chat(message: BroadcastMessage) -> bool {
    message is Chat
}

pub open spec fn is_medium_state(message: BroadcastMessage) -> bool {
    message is MediumStateChanged
}

/// Some message among the first `n` announces that client `id` joined.
pub open spec fn joined_before(messages: Seq<BroadcastMessage>, n: int, id: u64) -> bool {
    exists|i: int| 0 <= i < n && #[trigger] joined_id(messages[i]) == Some(id)
}

/// Some message among the first `n` announces that client `id` left.
pub open spec fn left_before(messages: Seq<BroadcastMessage>, n: int, id: u64) -> bool {
    exists|i: int| 0 <= i < n && #[trigger] left_id(messages[i]) == Some(id)
}

/// The number of chat messages among the first `n` messages.
pub open spec fn chats_before(messages: Seq<BroadcastMessage>, n: int) -> nat
    decreases n,
{
    if n <= 0 {
        0
    } else {
        chats_before(messages, n - 1) + (if is_chat(messages[n - 1]) { 1nat } else { 0nat })
    }
}

/// The number of chat messages in the whole sequence.
pub open spec fn chat_count(messages: Seq<BroadcastMessage>) -> nat {
    chats_before(messages, messages.len() as int)
}

/// The number of medium state messages among the first `n` messages.
pub open spec fn media_before(messages: Seq<BroadcastMessage>, n: int) -> nat
    decreases n,
{
    if n <= 0 {
        0
    } else {
        media_before(messages, n - 1) + (if is_medium_state(messages[n - 1]) { 1nat } else { 0nat })
    }
}

/// The number of medium state messages in the whole sequence.
pub open spec fn medium_state_count(messages: Seq<BroadcastMessage>) -> nat {
    media_before(messages, messages.len() as int)
}

/// The chat message at position `i` is among the last `CHAT_MESSAGE_BUFFER_LIMIT`
/// chat messages: counting from it to the end, there are at most that many.
pub open spec fn is_recent_chat(messages: Seq<BroadcastMessage>, i: int) -> bool {
    chats_before(messages, messages.len() as int) - chats_before(messages, i) <= CHAT_MESSAGE_BUFFER_LIMIT
}

/// Some message among the first `n` is a chat message sent by client `id` that
/// garbage collection keeps.
pub open spec fn kept_chat_before(messages: Seq<BroadcastMessage>, n: int, id: u64) -> bool {
    exists|i: int| 0 <= i < n && #[trigger] chatter_id(messages[i]) == Some(id) && is_recent_chat(messages, i)
}

/// No medium state message comes after position `i`.
pub open spec fn is_last_medium_state(messages: Seq<BroadcastMessage>, i: int) -> bool {
    forall|j: int| i < j < messages.len() ==> !is_medium_state(#[trigger] messages[j])
}

/// Whether garbage collection keeps the message at position `i`:
/// * a join (or leave) announcement stays unless the same client also left (or joined),
///   except when a chat message of that client stays in the buffer;
/// * a chat message stays if it is among the last `CHAT_MESSAGE_BUFFER_LIMIT` chat messages;
/// * a medium state stays if it is the last medium state.
pub open spec fn is_kept(messages: Seq<BroadcastMessage>, i: int) -> bool {
    let len = messages.len() as int;
    match messages[i] {
        BroadcastMessage::ClientJoined(joined) =>
            !left_before(messages, len, joined.id.id) || kept_chat_before(messages, len, joined.id.id),
        BroadcastMessage::ClientLeft(left) =>
            !joined_before(messages, len, left.id.id) || kept_chat_before(messages, len, left.id.id),
        BroadcastMessage::Chat(_) => is_recent_chat(messages, i),
        BroadcastMessage::MediumStateChanged(_) => is_last_medium_state(messages, i),
    }
}

/// The kept messages among the first `n`, in the order they came.
pub open spec fn kept_before(messages: Seq<BroadcastMessage>, n: int) -> Seq<BroadcastMessage>
    decreases n,
{
    if n <= 0 {
        Seq::empty()
    } else if is_kept(messages, n - 1) {
        kept_before(messages, n - 1).push(messages[n - 1])
    } else {
        kept_before(messages, n - 1)
    }
}

/// The buffer after garbage collection: the kept messages in the order they came.
pub open spec fn garbage_collected(messages: Seq<BroadcastMessage>) -> Seq<BroadcastMessage> {
    kept_before(messages, messages.len() as int)
}

proof fn lemma_chats_before_monotonic(messages: Seq<BroadcastMessage>, i: int, j: int)
    requires
        i <= j,
    ensures
        chats_before(messages, i) <= chats_before(messages, j),
    decreases j - i,
{
    if i < j {
        lemma_chats_before_monotonic(messages, i, j - 1);
    }
}

/// Counting chat messages only looks at the positions counted.
proof fn lemma_chats_before_prefix(a: Seq<BroadcastMessage>, b: Seq<BroadcastMessage>, n: int)
    requires
        0 <= n <= a.len(),
        n <= b.len(),
        forall|i: int| 0 <= i < n ==> a[i] == b[i],
    ensures
        chats_before(a, n) == chats_before(b, n),
    decreases n,
{
    if n > 0 {
        lemma_chats_before_prefix(a, b, n - 1);
    }
}

/// Counting medium states only looks at the positions counted.
proof fn lemma_media_before_prefix(a: Seq<BroadcastMessage>, b: Seq<BroadcastMessage>, n: int)
    requires
        0 <= n <= a.len(),
        n <= b.len(),
        forall|i: int| 0 <= i < n ==> a[i] == b[i],
    ensures
        media_before(a, n) == media_before(b, n),
    decreases n,
{
    if n > 0 {
        lemma_media_before_prefix(a, b, n - 1);
    }
}

proof fn lemma_chat_count_push(s: Seq<BroadcastMessage>, x: BroadcastMessage)
    ensures
        chat_count(s.push(x)) == chat_count(s) + (if is_chat(x) { 1nat } else { 0nat }),
{
    lemma_chats_before_prefix(s.push(x), s, s.len() as int);
}

proof fn lemma_medium_state_count_push(s: Seq<BroadcastMessage>, x: BroadcastMessage)
    ensures
        medium_state_count(s.push(x)) == medium_state_count(s) + (if is_medium_state(x) { 1nat } else { 0nat }),
{
    lemma_media_before_prefix(s.push(x), s, s.len() as int);
}

/// Dropping the oldest message removes at most one chat message.
proof fn lemma_chats_before_drop_first(s: Seq<BroadcastMessage>, n: int)
    requires
        1 <= n <= s.len(),
    ensures
        chats_before(s, n) == chats_before(s.subrange(1, s.len() as int), n - 1)
            + (if is_chat(s[0]) { 1nat } else { 0nat }),
    decreases n,
{
    let rest = s.subrange(1, s.len() as int);
    if n > 1 {
        lemma_chats_before_drop_first(s, n - 1);
        assert(rest[n - 2] == s[n - 1]);
        assert(chats_before(rest, n - 1) == chats_before(rest, n - 2) + (if is_chat(rest[n - 2]) { 1nat } else { 0nat }));
    } else {
        assert(chats_before(s, 1) == chats_before(s, 0) + (if is_chat(s[0]) { 1nat } else { 0nat }));
        assert(chats_before(rest, 0) == 0);
    }
}

/// Dropping the oldest message removes at most one medium state.
proof fn lemma_media_before_drop_first(s: Seq<BroadcastMessage>, n: int)
    requires
        1 <= n <= s.len(),
    ensures
        media_before(s, n) == media_before(s.subrange(1, s.len() as int), n - 1)
            + (if is_medium_state(s[0]) { 1nat } else { 0nat }),
    decreases n,
{
    let rest = s.subrange(1, s.len() as int);
    if n > 1 {
        lemma_media_before_drop_first(s, n - 1);
        assert(rest[n - 2] == s[n - 1]);
        assert(media_before(rest, n - 1) == media_before(rest, n - 2) + (if is_medium_state(rest[n - 2]) { 1nat } else { 0nat }));
    } else {
        assert(media_before(s, 1) == media_before(s, 0) + (if is_medium_state(s[0]) { 1nat } else { 0nat }));
        assert(media_before(rest, 0) == 0);
    }
}

/// Every message that survives garbage collection among the first `n` is one of
/// the first `n` messages it was given.
proof fn lemma_kept_before_origin(messages: Seq<BroadcastMessage>, n: int)
    requires
        0 <= n <= messages.len(),
    ensures
        kept_before(messages, n).len() <= n,
        forall|i: int| 0 <= i < kept_before(messages, n).len() ==>
            exists|k: int| 0 <= k < n && #[trigger] kept_before(messages, n)[i] == messages[k],
    decreases n,
{
    if n > 0 {
        lemma_kept_before_origin(messages, n - 1);
        let previous = kept_before(messages, n - 1);
        let current = kept_before(messages, n);
        assert forall|i: int| 0 <= i < current.len() implies
            exists|k: int| 0 <= k < n && #[trigger] current[i] == messages[k] by {
            if i < previous.len() {
                assert(current[i] == previous[i]);
                let k = choose|k: int| 0 <= k < n - 1 && #[trigger] previous[i] == messages[k];
                assert(current[i] == messages[k]);
            } else {
                assert(current[i] == messages[n - 1]);
            }
        }
    }
}

/// The positions of the kept messages among the first `n`, in increasing order.
pub open spec fn kept_positions(messages: Seq<BroadcastMessage>, n: int) -> Seq<int>
    decreases n,
{
    if n <= 0 {
        Seq::empty()
    } else if is_kept(messages, n - 1) {
        kept_positions(messages, n - 1).push(n - 1)
    } else {
        kept_positions(messages, n - 1)
    }
}

proof fn lemma_kept_positions(messages: Seq<BroadcastMessage>, n: int)
    requires
        0 <= n <= messages.len(),
    ensures
        kept_positions(messages, n).len() == kept_before(messages, n).len(),
        forall|i: int| 0 <= i < kept_positions(messages, n).len() ==> {
            &&& 0 <= #[trigger] kept_positions(messages, n)[i] < n
            &&& kept_before(messages, n)[i] == messages[kept_positions(messages, n)[i]]
        },
        forall|i: int, j: int| 0 <= i < j < kept_positions(messages, n).len()
            ==> #[trigger] kept_positions(messages, n)[i] < #[trigger] kept_positions(messages, n)[j],
    decreases n,
{
    if n > 0 {
        lemma_kept_positions(messages, n - 1);
        let previous = kept_positions(messages, n - 1);
        let current = kept_positions(messages, n);
        if is_kept(messages, n - 1) {
            assert forall|i: int| 0 <= i < current.len() implies {
                &&& 0 <= #[trigger] current[i] < n
                &&& kept_before(messages, n)[i] == messages[current[i]]
            } by {
                if i < previous.len() {
                    assert(current[i] == previous[i]);
                    assert(kept_before(messages, n)[i] == kept_before(messages, n - 1)[i]);
                }
            }
            assert forall|i: int, j: int| 0 <= i < j < current.len() implies
                #[trigger] current[i] < #[trigger] current[j] by {
                assert(current[i] == previous[i]);
                if j < previous.len() {
                    assert(current[j] == previous[j]);
                }
            }
        }
    }
}

/// Garbage collection only removes messages: what remains is the buffer with some
/// messages left out, the others in the order they came.
pub proof fn lemma_garbage_collection_keeps_order(messages: Seq<BroadcastMessage>)
    ensures
        ({
            let collected = garbage_collected(messages);
            let positions = kept_positions(messages, messages.len() as int);
            &&& positions.len() == collected.len()
            &&& forall|i: int| 0 <= i < positions.len() ==> {
                &&& 0 <= #[trigger] positions[i] < messages.len()
                &&& collected[i] == messages[positions[i]]
                &&& is_kept(messages, positions[i])
            }
            &&& forall|i: int, j: int| 0 <= i < j < positions.len() ==> #[trigger] positions[i] < #[trigger] positions[j]
        }),
{
    lemma_kept_positions(messages, messages.len() as int);
    lemma_kept_positions_are_kept(messages, messages.len() as int);
}

proof fn lemma_kept_positions_are_kept(messages: Seq<BroadcastMessage>, n: int)
    requires
        0 <= n <= messages.len(),
    ensures
        forall|i: int| 0 <= i < kept_positions(messages, n).len() ==> is_kept(messages, #[trigger] kept_positions(messages, n)[i]),
    decreases n,
{
    if n > 0 {
        lemma_kept_positions_are_kept(messages, n - 1);
        let previous = kept_positions(messages, n - 1);
        let current = kept_positions(messages, n);
        assert forall|i: int| 0 <= i < current.len() implies is_kept(messages, #[trigger] current[i]) by {
            if i < previous.len() {
                assert(current[i] == previous[i]);
            }
        }
    }
}

/// Garbage collection keeps at most the last `CHAT_MESSAGE_BUFFER_LIMIT` chat messages:
/// among the first `n` messages, it keeps those chat messages whose rank is at least
/// the total count of chat messages minus the limit.
proof fn lemma_kept_chats(messages: Seq<BroadcastMessage>, n: int)
    requires
        0 <= n <= messages.len(),
    ensures
        ({
            let total = chats_before(messages, messages.len() as int) as int;
            let threshold = if total >= CHAT_MESSAGE_BUFFER_LIMIT { total - CHAT_MESSAGE_BUFFER_LIMIT } else { 0 };
            let ranked = chats_before(messages, n) as int;
            chat_count(kept_before(messages, n)) as int == (if ranked >= threshold { ranked - threshold } else { 0 })
        }),
    decreases n,
{
    if n > 0 {
        lemma_kept_chats(messages, n - 1);
        let previous = kept_before(messages, n - 1);
        if is_kept(messages, n - 1) {
            lemma_chat_count_push(previous, messages[n - 1]);
        }
        lemma_chats_before_monotonic(messages, n, messages.len() as int);
    }
}

/// Garbage collection keeps at most one medium state; once one is kept, no
/// medium state follows it.
proof fn lemma_kept_media(messages: Seq<BroadcastMessage>, n: int)
    requires
        0 <= n <= messages.len(),
    ensures
        medium_state_count(kept_before(messages, n)) <= 1,
        medium_state_count(kept_before(messages, n)) == 1 ==>
            forall|j: int| n <= j < messages.len() ==> !is_medium_state(#[trigger] messages[j]),
    decreases n,
{
    if n > 0 {
        lemma_kept_media(messages, n - 1);
        let previous = kept_before(messages, n - 1);
        if is_kept(messages, n - 1) {
            lemma_medium_state_count_push(previous, messages[n - 1]);
        }
    }
}

/// What garbage collection leaves behind is bounded: at most
/// `CHAT_MESSAGE_BUFFER_LIMIT` chat messages and at most one medium state,
/// each of them taken from the buffer before, which it never grows.
pub proof fn lemma_garbage_collected_is_bounded(messages: Seq<BroadcastMessage>)
    ensures
        chat_count(garbage_collected(messages)) <= CHAT_MESSAGE_BUFFER_LIMIT,
        medium_state_count(garbage_collected(messages)) <= 1,
        garbage_collected(messages).len() <= messages.len(),
        forall|i: int| 0 <= i < garbage_collected(messages).len() ==>
            exists|k: int| 0 <= k < messages.len() && #[trigger] garbage_collected(messages)[i] == messages[k],
{
    lemma_kept_chats(messages, messages.len() as int);
    lemma_kept_media(messages, messages.len() as int);
    lemma_kept_before_origin(messages, messages.len() as int);
}

/// A kept message among the first `n` appears among the messages kept from them.
proof fn lemma_kept_appears(messages: Seq<BroadcastMessage>, n: int, p: int)
    requires
        0 <= p < n <= messages.len(),
        is_kept(messages, p),
    ensures
        exists|k: int| 0 <= k < kept_before(messages, n).len() && #[trigger] kept_before(messages, n)[k] == messages[p],
    decreases n,
{
    let previous = kept_before(messages, n - 1);
    if p == n - 1 {
        assert(kept_before(messages, n)[previous.len() as int] == messages[p]);
    } else {
        lemma_kept_appears(messages, n - 1, p);
        let k = choose|k: int| 0 <= k < previous.len() && #[trigger] previous[k] == messages[p];
        assert(kept_before(messages, n)[k] == messages[p]);
    }
}

/// The senders of the chat messages.
pub open spec fn chatters(messages: Seq<BroadcastMessage>) -> Set<u64> {
    Set::new(|id: u64| exists|k: int| 0 <= k < messages.len() && #[trigger] chatter_id(messages[k]) == Some(id))
}

/// There are no more senders than chat messages.
proof fn lemma_chatters_bounded(messages: Seq<BroadcastMessage>)
    ensures
        chatters(messages).finite(),
        chatters(messages).len() <= chat_count(messages),
    decreases messages.len(),
{
    broadcast use vstd::set::group_set_axioms;
    if messages.len() == 0 {
        assert(chatters(messages) =~= Set::<u64>::empty());
    } else {
        let rest = messages.drop_last();
        let last = messages.last();
        lemma_chatters_bounded(rest);
        lemma_chat_count_push(rest, last);
        assert(messages =~= rest.push(last));
        match chatter_id(last) {
            Some(id) => {
                assert(chatters(messages) =~= chatters(rest).insert(id)) by {
                    assert forall|other: u64| chatters(messages).contains(other) implies chatters(rest).insert(id).contains(other) by {
                        let k = choose|k: int| 0 <= k < messages.len() && #[trigger] chatter_id(messages[k]) == Some(other);
                        if k < rest.len() {
                            assert(chatter_id(rest[k]) == Some(other));
                        }
                    }
                    assert forall|other: u64| chatters(rest).insert(id).contains(other) implies chatters(messages).contains(other) by {
                        if other == id {
                            assert(chatter_id(messages[messages.len() - 1]) == Some(id));
                        } else {
                            let k = choose|k: int| 0 <= k < rest.len() && #[trigger] chatter_id(rest[k]) == Some(other);
                            assert(chatter_id(messages[k]) == Some(other));
                        }
                    }
                }
            },
            None => {
                assert(chatters(messages) =~= chatters(rest)) by {
                    assert forall|other: u64| chatters(messages).contains(other) implies chatters(rest).contains(other) by {
                        let k = choose|k: int| 0 <= k < messages.len() && #[trigger] chatter_id(messages[k]) == Some(other);
                        assert(k < rest.len());
                        assert(chatter_id(rest[k]) == Some(other));
                    }
                    assert forall|other: u64| chatters(rest).contains(other) implies chatters(messages).contains(other) by {
                        let k = choose|k: int| 0 <= k < rest.len() && #[trigger] chatter_id(rest[k]) == Some(other);
                        assert(chatter_id(messages[k]) == Some(other));
                    }
                }
            },
        }
    }
}

/// The message announces that client `id` joined or left.
pub open spec fn announces(message: BroadcastMessage, id: u64) -> bool {
    joined_id(message) == Some(id) || left_id(message) == Some(id)
}

/// The clients that both joined and left in the messages and of which a join or
/// leave announcement survives garbage collection.
pub open spec fn surviving_pairs(messages: Seq<BroadcastMessage>) -> Set<u64> {
    let len = messages.len() as int;
    let collected = garbage_collected(messages);
    Set::new(|id: u64| joined_before(messages, len, id) && left_before(messages, len, id)
        && exists|k: int| 0 <= k < collected.len() && #[trigger] announces(collected[k], id))
}

/// Join and leave announcements of a client that came and went survive garbage
/// collection only together with a chat message of that client, so there are at
/// most `CHAT_MESSAGE_BUFFER_LIMIT` such clients; each announces itself at most
/// once joining and once leaving, hence at most twice that many such messages.
pub proof fn lemma_few_join_leave_pairs_survive(messages: Seq<BroadcastMessage>)
    ensures
        surviving_pairs(messages).subset_of(chatters(garbage_collected(messages))),
        surviving_pairs(messages).finite(),
        surviving_pairs(messages).len() <= CHAT_MESSAGE_BUFFER_LIMIT,
{
    let len = messages.len() as int;
    let collected = garbage_collected(messages);
    lemma_garbage_collection_keeps_order(messages);
    let positions = kept_positions(messages, len);
    assert forall|id: u64| surviving_pairs(messages).contains(id) implies chatters(collected).contains(id) by {
        let k = choose|k: int| 0 <= k < collected.len() && #[trigger] announces(collected[k], id);
        let p = positions[k];
        assert(collected[k] == messages[p]);
        assert(is_kept(messages, p));
        assert(kept_chat_before(messages, len, id));
        let i = choose|i: int| 0 <= i < len && #[trigger] chatter_id(messages[i]) == Some(id) && is_recent_chat(messages, i);
        assert(is_kept(messages, i));
        lemma_kept_appears(messages, len, i);
        let j = choose|j: int| 0 <= j < collected.len() && #[trigger] collected[j] == messages[i];
        assert(chatter_id(collected[j]) == Some(id));
    }
    lemma_chatters_bounded(collected);
    lemma_garbage_collected_is_bounded(messages);
    vstd::set_lib::lemma_len_subset(surviving_pairs(messages), chatters(collected));
}

/// Garbage collection keeps exactly the last `CHAT_MESSAGE_BUFFER_LIMIT` chat
/// messages, or all of them where there are fewer: a chat message stays exactly
/// when at most that many chat messages come from it onwards.
pub proof fn lemma_garbage_collection_keeps_last_chats(messages: Seq<BroadcastMessage>)
    ensures
        chat_count(garbage_collected(messages)) == (if chat_count(messages) <= CHAT_MESSAGE_BUFFER_LIMIT {
            chat_count(messages)
        } else {
            CHAT_MESSAGE_BUFFER_LIMIT as nat
        }),
        forall|i: int| 0 <= i < messages.len() && is_chat(#[trigger] messages[i]) ==>
            (is_kept(messages, i) <==> is_recent_chat(messages, i)),
{
    lemma_kept_chats(messages, messages.len() as int);
}

/// Some message among the first `n` is a medium state.
proof fn lemma_media_before_positive(messages: Seq<BroadcastMessage>, n: int, p: int)
    requires
        0 <= p < n <= messages.len(),
        is_medium_state(messages[p]),
    ensures
        media_before(messages, n) >= 1,
    decreases n,
{
    if p < n - 1 {
        lemma_media_before_positive(messages, n - 1, p);
    }
}

/// Without medium states among the first `n` messages, none is counted.
proof fn lemma_media_before_zero(messages: Seq<BroadcastMessage>, n: int)
    requires
        0 <= n <= messages.len(),
        forall|j: int| 0 <= j < n ==> !is_medium_state(#[trigger] messages[j]),
    ensures
        media_before(messages, n) == 0,
    decreases n,
{
    if n > 0 {
        lemma_media_before_zero(messages, n - 1);
    }
}

/// Garbage collection keeps exactly one medium state where there was any, the
/// last one, and none otherwise.
pub proof fn lemma_garbage_collection_keeps_last_medium_state(messages: Seq<BroadcastMessage>)
    ensures
        medium_state_count(garbage_collected(messages)) == (if medium_state_count(messages) > 0 { 1nat } else { 0nat }),
        forall|i: int| 0 <= i < messages.len() && is_medium_state(#[trigger] messages[i]) ==>
            (is_kept(messages, i) <==> is_last_medium_state(messages, i)),
        forall|i: int| 0 <= i < messages.len() && is_medium_state(#[trigger] messages[i]) && is_last_medium_state(messages, i)
            ==> garbage_collected(messages).contains(messages[i]),
{
    let len = messages.len() as int;
    let collected = garbage_collected(messages);
    lemma_kept_media(messages, len);
    lemma_garbage_collected_is_bounded(messages);
    assert forall|i: int| 0 <= i < len && is_medium_state(#[trigger] messages[i]) && is_last_medium_state(messages, i)
        implies collected.contains(messages[i]) by {
        lemma_kept_appears(messages, len, i);
        let k = choose|k: int| 0 <= k < collected.len() && #[trigger] collected[k] == messages[i];
        assert(collected[k] == messages[i]);
    }
    if exists|i: int| 0 <= i < len && #[trigger] is_medium_state(messages[i]) {
        let some = choose|i: int| 0 <= i < len && #[trigger] is_medium_state(messages[i]);
        lemma_media_before_positive(messages, len, some);
        let last = choose|i: int| 0 <= i < len && is_medium_state(#[trigger] messages[i]) && is_last_medium_state(messages, i);
        assert(exists|i: int| 0 <= i < len && is_medium_state(#[trigger] messages[i]) && is_last_medium_state(messages, i)) by {
            lemma_last_medium_state_exists(messages, len, some);
        }
        assert(collected.contains(messages[last]));
        let k = choose|k: int| 0 <= k < collected.len() && collected[k] == messages[last];
        lemma_media_before_positive(collected, collected.len() as int, k);
    } else {
        lemma_media_before_zero(messages, len);
        assert forall|j: int| 0 <= j < collected.len() implies !is_medium_state(#[trigger] collected[j]) by {
            let k = choose|k: int| 0 <= k < len && #[trigger] collected[j] == messages[k];
            assert(!is_medium_state(messages[k]));
        }
        lemma_media_before_zero(collected, collected.len() as int);
    }
}

/// Where some message among the first `n` is a medium state, one of them is the last.
proof fn lemma_last_medium_state_exists(messages: Seq<BroadcastMessage>, n: int, p: int)
    requires
        0 <= p < n == messages.len(),
        is_medium_state(messages[p]),
    ensures
        exists|i: int| 0 <= i < n && is_medium_state(#[trigger] messages[i]) && is_last_medium_state(messages, i),
    decreases n - p,
{
    if !is_last_medium_state(messages, p) {
        let q = choose|q: int| p < q < messages.len() && is_medium_state(#[trigger] messages[q]);
        lemma_last_medium_state_exists(messages, n, q);
    }
}

/// A client has a chat message left after garbage collection exactly when one of
/// its chat messages is among the last `CHAT_MESSAGE_BUFFER_LIMIT`.
proof fn lemma_kept_chatters(messages: Seq<BroadcastMessage>, id: u64)
    ensures
        chatters(garbage_collected(messages)).contains(id) <==> kept_chat_before(messages, messages.len() as int, id),
{
    let len = messages.len() as int;
    let collected = garbage_collected(messages);
    lemma_garbage_collection_keeps_order(messages);
    let positions = kept_positions(messages, len);
    if chatters(collected).contains(id) {
        let k = choose|k: int| 0 <= k < collected.len() && #[trigger] chatter_id(collected[k]) == Some(id);
        let p = positions[k];
        assert(collected[k] == messages[p]);
        assert(is_kept(messages, p));
        assert(chatter_id(messages[p]) == Some(id));
    }
    if kept_chat_before(messages, len, id) {
        let i = choose|i: int| 0 <= i < len && #[trigger] chatter_id(messages[i]) == Some(id) && is_recent_chat(messages, i);
        assert(is_kept(messages, i));
        lemma_kept_appears(messages, len, i);
        let j = choose|j: int| 0 <= j < collected.len() && #[trigger] collected[j] == messages[i];
        assert(chatter_id(collected[j]) == Some(id));
    }
}

/// A client's join (or leave) announcement survives garbage collection exactly
/// when the client did not also leave (or join), or when a chat message of that
/// client is still in the buffer afterwards; so a client that came and went
/// leaves no trace once its chat messages are gone.
pub proof fn lemma_join_and_leave_stay_only_with_a_chat(messages: Seq<BroadcastMessage>)
    ensures
        forall|i: int| #![trigger joined_id(messages[i])] 0 <= i < messages.len() && joined_id(messages[i]) is Some ==>
            (is_kept(messages, i) <==> (!left_before(messages, messages.len() as int, joined_id(messages[i])->0)
                || chatters(garbage_collected(messages)).contains(joined_id(messages[i])->0))),
        forall|i: int| #![trigger left_id(messages[i])] 0 <= i < messages.len() && left_id(messages[i]) is Some ==>
            (is_kept(messages, i) <==> (!joined_before(messages, messages.len() as int, left_id(messages[i])->0)
                || chatters(garbage_collected(messages)).contains(left_id(messages[i])->0))),
{
    assert forall|i: int| #![trigger joined_id(messages[i])] 0 <= i < messages.len() && joined_id(messages[i]) is Some implies
        (is_kept(messages, i) <==> (!left_before(messages, messages.len() as int, joined_id(messages[i])->0)
            || chatters(garbage_collected(messages)).contains(joined_id(messages[i])->0))) by {
        lemma_kept_chatters(messages, joined_id(messages[i])->0);
    }
    assert forall|i: int| #![trigger left_id(messages[i])] 0 <= i < messages.len() && left_id(messages[i]) is Some implies
        (is_kept(messages, i) <==> (!joined_before(messages, messages.len() as int, left_id(messages[i])->0)
            || chatters(garbage_collected(messages)).contains(left_id(messages[i])->0))) by {
        lemma_kept_chatters(messages, left_id(messages[i])->0);
    }
}

/// The counter of a chat message.
pub open spec fn chat_counter(message: BroadcastMessage) -> Option<u64> {
    match message {
        BroadcastMessage::Chat(chat) => Some(chat.counter),
        _ => None,
    }
}

/// The version of the medium that a medium state message carries.
pub open spec fn medium_version(message: BroadcastMessage) -> Option<u64> {
    match message {
        BroadcastMessage::MediumStateChanged(changed) => Some(changed.medium.version),
        _ => None,
    }
}

/// The chat messages come in strictly increasing order of their counters.
pub open spec fn chats_in_order(messages: Seq<BroadcastMessage>) -> bool {
    forall|i: int, j: int|
        0 <= i < j < messages.len() && #[trigger] chat_counter(messages[i]) is Some
            && #[trigger] chat_counter(messages[j]) is Some
            ==> chat_counter(messages[i])->0 < chat_counter(messages[j])->0
}

/// A message that is older than what the buffer already saw: a medium state with
/// a version below the next expected one, or a chat message with a counter below
/// the next expected one.
pub open spec fn is_stale(message: BroadcastMessage, next_medium_version: u64, next_chat_message_counter: u64) -> bool {
    match message {
        BroadcastMessage::MediumStateChanged(changed) => changed.medium.version < next_medium_version,
        BroadcastMessage::Chat(chat) => chat.counter < next_chat_message_counter,
        _ => false,
    }
}

/// The bounds a broadcast buffer keeps: every buffered medium state and chat
/// message is older than the next expected one, chat messages are in order, there
/// are at most `CHAT_MESSAGE_BUFFER_LIMIT` chat messages and at most one medium state.
pub open spec fn is_bounded_buffer(messages: Seq<BroadcastMessage>, next_medium_version: u64, next_chat_message_counter: u64) -> bool {
    &&& forall|i: int| 0 <= i < messages.len() && #[trigger] medium_version(messages[i]) is Some
        ==> medium_version(messages[i])->0 < next_medium_version
    &&& forall|i: int| 0 <= i < messages.len() && #[trigger] chat_counter(messages[i]) is Some
        ==> chat_counter(messages[i])->0 < next_chat_message_counter
    &&& chats_in_order(messages)
    &&& chat_count(messages) <= CHAT_MESSAGE_BUFFER_LIMIT
    &&& medium_state_count(messages) <= 1
}

/// Garbage collection keeps the order of the messages it keeps: it never swaps
/// two chat messages.
proof fn lemma_kept_before_keeps_chat_order(messages: Seq<BroadcastMessage>, n: int)
    requires
        0 <= n <= messages.len(),
        chats_in_order(messages),
    ensures
        chats_in_order(kept_before(messages, n)),
        forall|i: int| 0 <= i < kept_before(messages, n).len() ==>
            exists|k: int| 0 <= k < n && #[trigger] kept_before(messages, n)[i] == messages[k],
    decreases n,
{
    lemma_kept_before_origin(messages, n);
    if n > 0 {
        lemma_kept_before_keeps_chat_order(messages, n - 1);
        let previous = kept_before(messages, n - 1);
        let current = kept_before(messages, n);
        if is_kept(messages, n - 1) {
            assert forall|i: int, j: int|
                0 <= i < j < current.len() && #[trigger] chat_counter(current[i]) is Some
                    && #[trigger] chat_counter(current[j]) is Some
                implies chat_counter(current[i])->0 < chat_counter(current[j])->0 by {
                assert(current[i] == previous[i]);
                if j < previous.len() {
                    assert(current[j] == previous[j]);
                } else {
                    let k = choose|k: int| 0 <= k < n - 1 && #[trigger] previous[i] == messages[k];
                    assert(chat_counter(messages[k]) is Some);
                    assert(chat_counter(messages[n - 1]) is Some);
                }
            }
        }
    }
}

/// Garbage collection keeps a bounded buffer bounded, and bounds any buffer whose
/// medium states and chat messages are older than the next expected ones and
/// whose chat messages are in order.
pub proof fn lemma_garbage_collection_bounds_buffer(
    messages: Seq<BroadcastMessage>,
    next_medium_version: u64,
    next_chat_message_counter: u64,
)
    requires
        forall|i: int| 0 <= i < messages.len() && #[trigger] medium_version(messages[i]) is Some
            ==> medium_version(messages[i])->0 < next_medium_version,
        forall|i: int| 0 <= i < messages.len() && #[trigger] chat_counter(messages[i]) is Some
            ==> chat_counter(messages[i])->0 < next_chat_message_counter,
        chats_in_order(messages),
    ensures
        is_bounded_buffer(garbage_collected(messages), next_medium_version, next_chat_message_counter),
{
    lemma_garbage_collected_is_bounded(messages);
    lemma_kept_before_keeps_chat_order(messages, messages.len() as int);
    let collected = garbage_collected(messages);
    assert forall|i: int| 0 <= i < collected.len() && #[trigger] medium_version(collected[i]) is Some
        implies medium_version(collected[i])->0 < next_medium_version by {
        let k = choose|k: int| 0 <= k < messages.len() && #[trigger] collected[i] == messages[k];
        assert(medium_version(messages[k]) is Some);
    }
    assert forall|i: int| 0 <= i < collected.len() && #[trigger] chat_counter(collected[i]) is Some
        implies chat_counter(collected[i])->0 < next_chat_message_counter by {
        let k = choose|k: int| 0 <= k < messages.len() && #[trigger] collected[i] == messages[k];
        assert(chat_counter(messages[k]) is Some);
    }
}

/// The newest message survives garbage collection when it is a chat message or
/// a medium state: the buffer always ends with the latest chat message or the
/// latest medium state that was enqueued.
pub proof fn lemma_newest_chat_or_medium_state_survives(messages: Seq<BroadcastMessage>)
    requires
        messages.len() > 0,
        is_chat(messages.last()) || is_medium_state(messages.last()),
    ensures
        garbage_collected(messages).len() > 0,
        garbage_collected(messages).last() == messages.last(),
{
    let len = messages.len() as int;
    assert(chats_before(messages, len) == chats_before(messages, len - 1)
        + (if is_chat(messages[len - 1]) { 1nat } else { 0nat }));
    assert(is_kept(messages, len - 1));
}

/// The state behind a client's broadcast buffer.
pub struct Inner {
    next_medium_version: u64,
    next_chat_message_counter: u64,
    messages: VecDeque<BroadcastMessage>,
    next_broadcast_number: Option<usize>,
}

impl Inner {
    /// The buffered messages, oldest first.
    pub closed spec fn messages(&self) -> Seq<BroadcastMessage> {
        self.messages@
    }

    /// Medium states with a lower version than this are stale.
    pub closed spec fn next_medium_version(&self) -> u64 {
        self.next_medium_version
    }

    /// Chat messages with a lower counter than this are stale.
    pub closed spec fn next_chat_message_counter(&self) -> u64 {
        self.next_chat_message_counter
    }

    /// The broadcast number that the next enqueued message must carry, once one was enqueued.
    pub closed spec fn next_broadcast_number(&self) -> Option<usize> {
        self.next_broadcast_number
    }

    fn new() -> (inner: Self)
        ensures
            inner.messages() == Seq::<BroadcastMessage>::empty(),
            inner.next_medium_version() == 0,
            inner.next_chat_message_counter() == 0,
            inner.next_broadcast_number() == None::<usize>,
    {
        Inner {
            next_medium_version: 0,
            next_chat_message_counter: 0,
            messages: VecDeque::new(),
            next_broadcast_number: None,
        }
    }

    /// Bounds the buffer: keeps only the last medium state, the last
    /// `CHAT_MESSAGE_BUFFER_LIMIT` chat messages, and drops join and leave
    /// announcements of the same client unless a chat message of that client stays.
    ///
    /// Whether a client's chat message stays is decided after the old chat
    /// messages are left out: a chat message dropped in this pass no longer keeps
    /// its sender's join and leave. This is what bounds the join and leave
    /// announcements of clients that came and went to twice the chat limit; keeping
    /// them for any chat message seen before the sweep would not.
    fn collect_garbage(&mut self)
        ensures
            final(self).messages() == garbage_collected(old(self).messages()),
            final(self).next_medium_version() == old(self).next_medium_version(),
            final(self).next_chat_message_counter() == old(self).next_chat_message_counter(),
            final(self).next_broadcast_number() == old(self).next_broadcast_number(),
    {
        let ghost messages = self.messages@;
        let ghost before = *self;
        let len = self.messages.len();
        let mut seen_chat_messages: usize = 0;
        let mut last_seen_medium_index: Option<usize> = None;
        let mut joined_clients: BTreeSet<u64> = BTreeSet::new();
        let mut left_clients: BTreeSet<u64> = BTreeSet::new();

        // Mark phase: who joined, who left, how many chat messages, the last medium state.
        let mut index: usize = 0;
        while index < len
            invariant
                len == messages.len(),
                self.messages@ == messages,
                index <= len,
                seen_chat_messages == chats_before(messages, index as int),
                seen_chat_messages <= index,
                self.next_medium_version == before.next_medium_version,
                self.next_chat_message_counter == before.next_chat_message_counter,
                self.next_broadcast_number == before.next_broadcast_number,
                forall|id: u64| #[trigger] joined_clients@.contains(id) <==> joined_before(messages, index as int, id),
                forall|id: u64| #[trigger] left_clients@.contains(id) <==> left_before(messages, index as int, id),
                match last_seen_medium_index {
                    None => forall|j: int| 0 <= j < index ==> !is_medium_state(#[trigger] messages[j]),
                    Some(k) => k < index && is_medium_state(messages[k as int])
                        && forall|j: int| k < j < index ==> !is_medium_state(#[trigger] messages[j]),
                },
            decreases len - index,
        {
            let message = &self.messages[index];
            proof {
                assert(forall|id: u64| joined_before(messages, index as int, id) ==> joined_before(messages, index + 1, id));
                assert(forall|id: u64| left_before(messages, index as int, id) ==> left_before(messages, index + 1, id));
            }
            match message {
                BroadcastMessage::ClientJoined(joined) => {
                    joined_clients.insert(joined.id.id);
                    proof {
                        assert(joined_id(messages[index as int]) == Some(joined.id.id));
                    }
                },
                BroadcastMessage::ClientLeft(left) => {
                    left_clients.insert(left.id.id);
                    proof {
                        assert(left_id(messages[index as int]) == Some(left.id.id));
                    }
                },
                BroadcastMessage::Chat(_) => {
                    seen_chat_messages = seen_chat_messages + 1;
                },
                BroadcastMessage::MediumStateChanged(_) => {
                    last_seen_medium_index = Some(index);
                },
            }
            index = index + 1;
        }

        // Second pass: the senders of the chat messages that stay.
        let mut remaining_chat_messages: usize = seen_chat_messages;
        let mut kept_chatters: BTreeSet<u64> = BTreeSet::new();
        let mut index: usize = 0;
        proof {
            lemma_chats_before_monotonic(messages, 0, len as int);
        }
        while index < len
            invariant
                len == messages.len(),
                self.messages@ == messages,
                index <= len,
                seen_chat_messages == chats_before(messages, len as int),
                remaining_chat_messages == chats_before(messages, len as int) - chats_before(messages, index as int),
                chats_before(messages, index as int) <= chats_before(messages, len as int),
                forall|id: u64| #[trigger] kept_chatters@.contains(id) <==> kept_chat_before(messages, index as int, id),
            decreases len - index,
        {
            proof {
                lemma_chats_before_monotonic(messages, index + 1, len as int);
                assert(forall|id: u64| kept_chat_before(messages, index as int, id) ==> kept_chat_before(messages, index + 1, id));
            }
            let message = &self.messages[index];
            match message {
                BroadcastMessage::Chat(chat) => {
                    if remaining_chat_messages <= CHAT_MESSAGE_BUFFER_LIMIT {
                        kept_chatters.insert(chat.sender_id.id);
                    }
                    proof {
                        assert(chatter_id(messages[index as int]) == Some(chat.sender_id.id));
                        assert(remaining_chat_messages <= CHAT_MESSAGE_BUFFER_LIMIT <==> is_recent_chat(messages, index as int));
                        assert forall|id: u64| kept_chat_before(messages, index + 1, id)
                            implies #[trigger] kept_chatters@.contains(id) by {
                            let i = choose|i: int| 0 <= i < index + 1 && #[trigger] chatter_id(messages[i]) == Some(id)
                                && is_recent_chat(messages, i);
                            if i < index {
                                assert(kept_chat_before(messages, index as int, id));
                            }
                        }
                    }
                    remaining_chat_messages = remaining_chat_messages - 1;
                },
                _ => {
                    proof {
                        assert(chatter_id(messages[index as int]) is None);
                        assert forall|id: u64| kept_chat_before(messages, index + 1, id)
                            implies #[trigger] kept_chatters@.contains(id) by {
                            let i = choose|i: int| 0 <= i < index + 1 && #[trigger] chatter_id(messages[i]) == Some(id)
                                && is_recent_chat(messages, i);
                            assert(kept_chat_before(messages, index as int, id));
                        }
                    }
                },
            }
            index = index + 1;
        }

        // Sweep phase
        let mut kept_messages: VecDeque<BroadcastMessage> = VecDeque::new();
        let mut index: usize = 0;
        while index < len
            invariant
                len == messages.len(),
                index <= len,
                self.messages@ == messages.subrange(index as int, len as int),
                kept_messages@ == kept_before(messages, index as int),
                self.next_medium_version == before.next_medium_version,
                self.next_chat_message_counter == before.next_chat_message_counter,
                self.next_broadcast_number == before.next_broadcast_number,
                seen_chat_messages == chats_before(messages, len as int) - chats_before(messages, index as int),
                chats_before(messages, index as int) <= chats_before(messages, len as int),
                forall|id: u64| #[trigger] joined_clients@.contains(id) <==> joined_before(messages, len as int, id),
                forall|id: u64| #[trigger] left_clients@.contains(id) <==> left_before(messages, len as int, id),
                forall|id: u64| #[trigger] kept_chatters@.contains(id) <==> kept_chat_before(messages, len as int, id),
                match last_seen_medium_index {
                    None => forall|j: int| 0 <= j < len ==> !is_medium_state(#[trigger] messages[j]),
                    Some(k) => k < len && is_medium_state(messages[k as int])
                        && forall|j: int| k < j < len ==> !is_medium_state(#[trigger] messages[j]),
                },
            decreases len - index,
        {
            let popped = self.messages.pop_front();
            if let Some(message) = popped {
                assert(message == messages[index as int]);
                proof {
                    lemma_chats_before_monotonic(messages, index + 1, len as int);
                }
                let keep = match &message {
                    BroadcastMessage::ClientJoined(joined) => {
                        !left_clients.contains(&joined.id.id) || kept_chatters.contains(&joined.id.id)
                    },
                    BroadcastMessage::ClientLeft(left) => {
                        !joined_clients.contains(&left.id.id) || kept_chatters.contains(&left.id.id)
                    },
                    BroadcastMessage::Chat(_) => {
                        let keep = seen_chat_messages <= CHAT_MESSAGE_BUFFER_LIMIT;
                        seen_chat_messages = seen_chat_messages - 1;
                        keep
                    },
                    BroadcastMessage::MediumStateChanged(_) => {
                        match last_seen_medium_index {
                            Some(last) => last == index,
                            None => false,
                        }
                    },
                };
                assert(keep == is_kept(messages, index as int));
                if keep {
                    kept_messages.push_back(message);
                }
            }
            index = index + 1;
        }
        self.messages = kept_messages;
    }
}

impl Inner {
    /// The buffer keeps its bounds.
    pub open spec fn well_formed(&self) -> bool {
        is_bounded_buffer(self.messages(), self.next_medium_version(), self.next_chat_message_counter())
    }

    fn is_empty(&self) -> (empty: bool)
        ensures
            empty == (self.messages().len() == 0),
    {
        self.messages.len() == 0
    }
}

/// The queue of broadcasts that still have to be sent to one client.
pub struct BroadcastBuffer {
    inner: Inner,
}

impl BroadcastBuffer {
    /// The buffered messages, oldest first.
    pub closed spec fn messages(&self) -> Seq<BroadcastMessage> {
        self.inner.messages()
    }

    /// Medium states with a lower version than this are stale.
    pub closed spec fn next_medium_version(&self) -> u64 {
        self.inner.next_medium_version()
    }

    /// Chat messages with a lower counter than this are stale.
    pub closed spec fn next_chat_message_counter(&self) -> u64 {
        self.inner.next_chat_message_counter()
    }

    /// The broadcast number that the next enqueued message must carry, once one was enqueued.
    pub closed spec fn next_broadcast_number(&self) -> Option<usize> {
        self.inner.next_broadcast_number()
    }

    /// The buffer keeps its bounds.
    pub open spec fn well_formed(&self) -> bool {
        is_bounded_buffer(self.messages(), self.next_medium_version(), self.next_chat_message_counter())
    }

    /// An empty buffer that has not seen any broadcast yet.
    pub fn new() -> (buffer: Self)
        ensures
            buffer.well_formed(),
            buffer.messages() == Seq::<BroadcastMessage>::empty(),
            buffer.next_medium_version() == 0,
            buffer.next_chat_message_counter() == 0,
            buffer.next_broadcast_number() == None::<usize>,
    {
        BroadcastBuffer { inner: Inner::new() }
    }

    /// Adds the broadcast with the given number to the buffer.
    ///
    /// Broadcasts must come with consecutive numbers. A medium state whose
    /// version is below the last one seen, and a chat message whose counter is
    /// below the last one seen, are dropped. Otherwise the message is appended and
    /// the buffer is garbage collected.
    pub fn enqueue(&mut self, message: BroadcastMessage, broadcast_number: usize)
        requires
            old(self).well_formed(),
            old(self).next_broadcast_number() matches Some(next) ==> next == broadcast_number,
            broadcast_number < usize::MAX,
            medium_version(message) matches Some(version) ==> version < u64::MAX,
            chat_counter(message) matches Some(counter) ==> counter < u64::MAX,
        ensures
            final(self).well_formed(),
            final(self).next_broadcast_number() == Some((broadcast_number + 1) as usize),
            is_stale(message, old(self).next_medium_version(), old(self).next_chat_message_counter()) ==> {
                &&& final(self).messages() == old(self).messages()
                &&& final(self).next_medium_version() == old(self).next_medium_version()
                &&& final(self).next_chat_message_counter() == old(self).next_chat_message_counter()
            },
            !is_stale(message, old(self).next_medium_version(), old(self).next_chat_message_counter()) ==> {
                &&& final(self).messages() == garbage_collected(old(self).messages().push(message))
                &&& (is_chat(message) || is_medium_state(message)) ==> final(self).messages().len() > 0
                    && final(self).messages().last() == message
                &&& final(self).next_medium_version() == (match medium_version(message) {
                    Some(version) => (version + 1) as u64,
                    None => old(self).next_medium_version(),
                })
                &&& final(self).next_chat_message_counter() == (match chat_counter(message) {
                    Some(counter) => (counter + 1) as u64,
                    None => old(self).next_chat_message_counter(),
                })
            },
    {
        let inner = &mut self.inner;
        inner.next_broadcast_number = Some(broadcast_number + 1);

        match &message {
            BroadcastMessage::MediumStateChanged(MediumStateChangedBroadcast {
                medium: VersionedMediumBroadcast { version, .. },
                ..
            }) => {
                if *version < inner.next_medium_version {
                    return;
                }
                inner.next_medium_version = *version + 1;
            },
            BroadcastMessage::Chat(ChatBroadcast { counter, .. }) => {
                if *counter < inner.next_chat_message_counter {
                    return;
                }
                inner.next_chat_message_counter = *counter + 1;
            },
            _ => {},
        }

        let ghost before = inner.messages@;
        inner.messages.push_back(message);
        proof {
            let pushed = before.push(message);
            assert(pushed.last() == message);
            assert forall|i: int, j: int|
                0 <= i < j < pushed.len() && #[trigger] chat_counter(pushed[i]) is Some
                    && #[trigger] chat_counter(pushed[j]) is Some
                implies chat_counter(pushed[i])->0 < chat_counter(pushed[j])->0 by {
                assert(pushed[i] == before[i]);
                if j < before.len() {
                    assert(pushed[j] == before[j]);
                }
            }
            assert forall|i: int| 0 <= i < pushed.len() && #[trigger] medium_version(pushed[i]) is Some
                implies medium_version(pushed[i])->0 < inner.next_medium_version by {
                if i < before.len() {
                    assert(pushed[i] == before[i]);
                }
            }
            assert forall|i: int| 0 <= i < pushed.len() && #[trigger] chat_counter(pushed[i]) is Some
                implies chat_counter(pushed[i])->0 < inner.next_chat_message_counter by {
                if i < before.len() {
                    assert(pushed[i] == before[i]);
                }
            }
            lemma_garbage_collection_bounds_buffer(pushed, inner.next_medium_version, inner.next_chat_message_counter);
            if is_chat(message) || is_medium_state(message) {
                lemma_newest_chat_or_medium_state_survives(pushed);
            }
        }
        inner.collect_garbage();
    }

    /// Takes the oldest buffered message out of the buffer.
    pub fn dequeue(&mut self) -> (message: Option<BroadcastMessage>)
        requires
            old(self).well_formed(),
        ensures
            final(self).well_formed(),
            final(self).next_medium_version() == old(self).next_medium_version(),
            final(self).next_chat_message_counter() == old(self).next_chat_message_counter(),
            final(self).next_broadcast_number() == old(self).next_broadcast_number(),
            old(self).messages().len() == 0 ==> message is None && final(self).messages() == old(self).messages(),
            old(self).messages().len() > 0 ==> {
                &&& message == Some(old(self).messages()[0])
                &&& final(self).messages() == old(self).messages().subrange(1, old(self).messages().len() as int)
            },
    {
        let ghost before = self.inner.messages@;
        let message = self.inner.messages.pop_front();
        proof {
            if before.len() > 0 {
                let after = before.subrange(1, before.len() as int);
                lemma_chats_before_drop_first(before, before.len() as int);
                lemma_media_before_drop_first(before, before.len() as int);
                assert forall|i: int, j: int|
                    0 <= i < j < after.len() && #[trigger] chat_counter(after[i]) is Some
                        && #[trigger] chat_counter(after[j]) is Some
                    implies chat_counter(after[i])->0 < chat_counter(after[j])->0 by {
                    assert(after[i] == before[i + 1]);
                    assert(after[j] == before[j + 1]);
                }
                assert forall|i: int| 0 <= i < after.len() && #[trigger] medium_version(after[i]) is Some
                    implies medium_version(after[i])->0 < self.inner.next_medium_version by {
                    assert(after[i] == before[i + 1]);
                }
                assert forall|i: int| 0 <= i < after.len() && #[trigger] chat_counter(after[i]) is Some
                    implies chat_counter(after[i])->0 < self.inner.next_chat_message_counter by {
                    assert(after[i] == before[i + 1]);
                }
            }
        }
        message
    }

    /// The broadcast number that the next enqueued message must carry, once one was enqueued.
    pub fn expected_broadcast_number(&self) -> (number: Option<usize>)
        ensures
            number == self.next_broadcast_number(),
    {
        self.inner.next_broadcast_number
    }

    /// Whether no message is buffered.
    pub fn is_empty(&self) -> (empty: bool)
        ensures
            empty == (self.messages().len() == 0),
    {
        self.inner.is_empty()
    }
}

impl Default for BroadcastBuffer {
    fn default() -> (buffer: Self)
        ensures
            buffer.well_formed(),
            buffer.messages() == Seq::<BroadcastMessage>::empty(),
            buffer.next_medium_version() == 0,
            buffer.next_chat_message_counter() == 0,
            buffer.next_broadcast_number() == None::<usize>,
    {
        BroadcastBuffer::new()
    }
}

} // verus!
