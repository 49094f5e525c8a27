//! What a connection task decides for the events it is handed.

pub mod connection;
pub mod history;
pub mod laws;
pub mod ping;
pub mod sender;
