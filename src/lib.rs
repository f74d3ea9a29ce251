//! Driver layer of an asynchronous SQL client: transaction inference,
//! statement execution, cursor pagination and connection lifecycle, stated
//! as verified state machines that an engine runner steps through.
pub mod config;
pub mod connection;
pub mod cursor;
pub mod error;
pub mod pipeline;
pub mod policy;

pub use connection::Connection;
pub use cursor::Cursor;
