//! What a client decides on a connection.

pub mod config;
pub mod connection_handler;
pub mod encoding;
pub mod handshake;
pub mod history;
pub mod laws;
pub mod upgrade;
