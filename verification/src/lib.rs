//! A verified core for a shared media-watching server: client id sequences,
//! per-client broadcast buffers, message ordering and retry state machines,
//! database error classification and the wire texts the server answers with.

pub mod sequence;
pub mod text;
pub mod broadcast_message;
pub mod broadcast_buffer;
pub mod message;
pub mod receiver;
pub mod server_connection;
pub mod text_search;
pub mod database_error;
pub mod transaction;
pub mod http_test;
pub mod whitespace;
pub mod lifecycle;
pub mod model;
pub mod repository;
pub mod infallible_stream;
pub mod commandline;
pub mod timing;
pub mod room;
pub mod pool;
pub mod request;
pub mod room_state;
