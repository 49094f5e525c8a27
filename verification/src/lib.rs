//! The connection logic of Loqui, a framed request/response protocol over a byte stream.
//!
//! [`client`] holds what a client decides: how it upgrades a stream, what it accepts in a
//! handshake, which waiter an answer belongs to. [`server`] holds what a connection task decides
//! for each event it is handed. Reading and writing the stream is left to the caller.
#![allow(unused_imports)]

pub mod client;
pub mod clock;
pub mod error;
pub mod frames;
pub mod sequence;
pub mod server;
pub mod waiter;
