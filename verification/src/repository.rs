use vstd::prelude::*;
use crate::database_error::DatabaseError;
use crate::model::{collect_room_users, room_users, OptionalUser, User};

verus! {

/// The repository that stores its data with libsql.
#[derive(Clone, Copy, Debug, Default)]
pub struct LibSqlRepository;

/// The repository that stores its data with SQLite through sqlx.
#[derive(Clone, Copy, Debug, Default)]
pub struct SqliteRepository;

/// The repository that stores its data with turso.
#[derive(Clone, Copy, Debug, Default)]
pub struct TursoRepository;

impl LibSqlRepository {
    /// The users of a room, from the rows that the room's user query returned.
    pub fn room_users_from_rows(&self, rows: Vec<OptionalUser>) -> (users: Result<Vec<User>, DatabaseError>)
        ensures
            rows@.len() == 0 ==> (users matches Err(DatabaseError::NotFound(message)) && message@ == "Room not found"@),
            rows@.len() > 0 ==> (users matches Ok(found) && found@ == room_users(rows@)),
    {
        collect_room_users(rows)
    }
}

impl SqliteRepository {
    /// The users of a room, from the rows that the room's user query returned.
    pub fn room_users_from_rows(&self, rows: Vec<OptionalUser>) -> (users: Result<Vec<User>, DatabaseError>)
        ensures
            rows@.len() == 0 ==> (users matches Err(DatabaseError::NotFound(message)) && message@ == "Room not found"@),
            rows@.len() > 0 ==> (users matches Ok(found) && found@ == room_users(rows@)),
    {
        collect_room_users(rows)
    }
}

impl TursoRepository {
    /// The users of a room, from the rows that the room's user query returned.
    pub fn room_users_from_rows(&self, rows: Vec<OptionalUser>) -> (users: Result<Vec<User>, DatabaseError>)
        ensures
            rows@.len() == 0 ==> (users matches Err(DatabaseError::NotFound(message)) && message@ == "Room not found"@),
            rows@.len() > 0 ==> (users matches Ok(found) && found@ == room_users(rows@)),
    {
        collect_room_users(rows)
    }
}

} // verus!
