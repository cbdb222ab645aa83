use vstd::prelude::*;
use vstd::string::StringExecFns;
use crate::database_error::DatabaseError;

verus! {

/// A universally unique identifier, held as its 128 bits.
#[derive(Clone, Copy, Debug, PartialEq, Eq, Hash, Structural)]
pub struct Uuid {
    pub value: u128,
}

/// A point in time, held as milliseconds since the Unix epoch.
#[derive(Clone, Copy, Debug, PartialEq, Eq, Hash, Structural)]
pub struct DateTime {
    pub timestamp_milliseconds: i64,
}

/// A registered user.
#[derive(Clone, Debug, PartialEq, Eq)]
pub struct User {
    pub uuid: Uuid,
    pub name: String,
    pub normalized_name: String,
}

/// A chat message as the database stores it.
#[derive(Clone, Debug, PartialEq, Eq)]
pub struct ChatMessage {
    pub uuid: Uuid,
    pub room_uuid: Uuid,
    pub user_uuid: Option<Uuid>,
    pub user_name: String,
    pub message: String,
    pub created_at: DateTime,
}

/// A row of the join of a room with its users: the user columns are empty for a
/// room without users.
#[derive(Clone, Debug, PartialEq, Eq)]
pub struct OptionalUser {
    pub uuid: Option<Uuid>,
    pub name: Option<String>,
    pub normalized_name: Option<String>,
}

/// The user a row describes, if all of its columns are filled.
pub open spec fn complete_user(row: OptionalUser) -> Option<User> {
    match (row.uuid, row.name, row.normalized_name) {
        (Some(uuid), Some(name), Some(normalized_name)) => Some(User { uuid, name, normalized_name }),
        _ => None,
    }
}

/// The users that the first `n` rows describe, in row order.
pub open spec fn complete_users_before(rows: Seq<OptionalUser>, n: int) -> Seq<User>
    decreases n,
{
    if n <= 0 {
        Seq::empty()
    } else {
        match complete_user(rows[n - 1]) {
            Some(user) => complete_users_before(rows, n - 1).push(user),
            None => complete_users_before(rows, n - 1),
        }
    }
}

/// The users of a room, read from the rows of the join of the room with its users.
pub open spec fn room_users(rows: Seq<OptionalUser>) -> Seq<User> {
    complete_users_before(rows, rows.len() as int)
}

/// Reads the users of a room from the rows of the join of the room with its
/// users, ordered by user. No row at all means that the room does not exist.
pub fn collect_room_users(rows: Vec<OptionalUser>) -> (users: Result<Vec<User>, DatabaseError>)
    ensures
        rows@.len() == 0 ==> (users matches Err(DatabaseError::NotFound(message)) && message@ == "Room not found"@),
        rows@.len() > 0 ==> (users matches Ok(found) && found@ == room_users(rows@)),
{
    if rows.len() == 0 {
        return Err(DatabaseError::NotFound(String::from_str("Room not found")));
    }
    let ghost initial = rows@;
    let mut rows = rows;
    let mut reversed: Vec<OptionalUser> = Vec::new();
    let count = rows.len();
    let mut index: usize = 0;
    while index < count
        invariant
            count == initial.len(),
            index <= count,
            rows@ == initial.subrange(0, count - index),
            reversed@.len() == index,
            forall|k: int| 0 <= k < index ==> #[trigger] reversed@[k] == initial[count - 1 - k],
        decreases count - index,
    {
        let row = rows.pop();
        match row {
            Some(row) => {
                reversed.push(row);
            },
            None => {},
        }
        index = index + 1;
    }
    let mut users: Vec<User> = Vec::new();
    let mut index: usize = 0;
    while index < count
        invariant
            count == initial.len(),
            index <= count,
            reversed@.len() == count - index,
            forall|k: int| 0 <= k < count - index ==> #[trigger] reversed@[k] == initial[count - 1 - k],
            users@ == complete_users_before(initial, index as int),
        decreases count - index,
    {
        let row = reversed.pop();
        match row {
            Some(OptionalUser { uuid: Some(uuid), name: Some(name), normalized_name: Some(normalized_name) }) => {
                users.push(User { uuid, name, normalized_name });
            },
            _ => {},
        }
        index = index + 1;
    }
    Ok(users)
}

} // verus!
