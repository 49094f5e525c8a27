//! The frames that two Loqui peers exchange.

use vstd::prelude::*;

verus! {

/// The version of the protocol that a client announces.
pub const VERSION: u8 = 1;

/// Opens a handshake: what the client can speak.
#[derive(Debug, PartialEq, Eq)]
pub struct Hello {
    pub flags: u8,
    pub version: u8,
    pub encodings: Vec<String>,
    pub compressions: Vec<String>,
}

impl Hello {
    pub const OPCODE: u8 = 1;
}

/// Closes a handshake: what the server chose.
#[derive(Debug, PartialEq, Eq)]
pub struct HelloAck {
    pub flags: u8,
    pub ping_interval_ms: u32,
    pub encoding: String,
    pub compression: Option<String>,
}

impl HelloAck {
    pub const OPCODE: u8 = 2;
}

/// Asks whether the peer is still there.
#[derive(Debug, PartialEq, Eq)]
pub struct Ping {
    pub flags: u8,
    pub sequence_id: u32,
}

impl Ping {
    pub const OPCODE: u8 = 3;
}

/// Answers the [`Ping`] with the same sequence id.
#[derive(Debug, PartialEq, Eq)]
pub struct Pong {
    pub flags: u8,
    pub sequence_id: u32,
}

impl Pong {
    pub const OPCODE: u8 = 4;
}

/// Asks for a [`Response`] with the same sequence id.
#[derive(Debug, PartialEq, Eq)]
pub struct Request {
    pub flags: u8,
    pub sequence_id: u32,
    pub payload: Vec<u8>,
}

impl Request {
    pub const OPCODE: u8 = 5;
}

/// Answers the [`Request`] with the same sequence id.
#[derive(Debug, PartialEq, Eq)]
pub struct Response {
    pub flags: u8,
    pub sequence_id: u32,
    pub payload: Vec<u8>,
}

impl Response {
    pub const OPCODE: u8 = 6;
}

/// Carries a payload that nobody answers.
#[derive(Debug, PartialEq, Eq)]
pub struct Push {
    pub flags: u8,
    pub payload: Vec<u8>,
}

impl Push {
    pub const OPCODE: u8 = 7;
}

/// Tells the peer to leave.
#[derive(Debug, PartialEq, Eq)]
pub struct GoAway {
    pub flags: u8,
    pub code: u16,
    pub payload: Vec<u8>,
}

impl GoAway {
    pub const OPCODE: u8 = 8;
}

/// Answers the [`Request`] with the same sequence id, which failed. The payload is a reason in
/// UTF-8.
#[derive(Debug, PartialEq, Eq)]
pub struct ErrorFrame {
    pub flags: u8,
    pub sequence_id: u32,
    pub code: u16,
    pub payload: Vec<u8>,
}

impl ErrorFrame {
    pub const OPCODE: u8 = 9;
}

/// Any frame of the protocol.
#[derive(Debug, PartialEq, Eq)]
pub enum LoquiFrame {
    Hello(Hello),
    HelloAck(HelloAck),
    Ping(Ping),
    Pong(Pong),
    Request(Request),
    Response(Response),
    Push(Push),
    GoAway(GoAway),
    Error(ErrorFrame),
}

impl LoquiFrame {
    /// The byte that tells this kind of frame from the others.
    pub open spec fn spec_opcode(self) -> u8 {
        match self {
            LoquiFrame::Hello(_) => Hello::OPCODE,
            LoquiFrame::HelloAck(_) => HelloAck::OPCODE,
            LoquiFrame::Ping(_) => Ping::OPCODE,
            LoquiFrame::Pong(_) => Pong::OPCODE,
            LoquiFrame::Request(_) => Request::OPCODE,
            LoquiFrame::Response(_) => Response::OPCODE,
            LoquiFrame::Push(_) => Push::OPCODE,
            LoquiFrame::GoAway(_) => GoAway::OPCODE,
            LoquiFrame::Error(_) => ErrorFrame::OPCODE,
        }
    }

    /// The byte that tells this kind of frame from the others.
    pub fn opcode(&self) -> (r: u8)
        ensures
            r == self.spec_opcode(),
    {
        match self {
            LoquiFrame::Hello(_) => Hello::OPCODE,
            LoquiFrame::HelloAck(_) => HelloAck::OPCODE,
            LoquiFrame::Ping(_) => Ping::OPCODE,
            LoquiFrame::Pong(_) => Pong::OPCODE,
            LoquiFrame::Request(_) => Request::OPCODE,
            LoquiFrame::Response(_) => Response::OPCODE,
            LoquiFrame::Push(_) => Push::OPCODE,
            LoquiFrame::GoAway(_) => GoAway::OPCODE,
            LoquiFrame::Error(_) => ErrorFrame::OPCODE,
        }
    }
}

/// The frames of an established connection that are not the connection's own business.
#[derive(Debug, PartialEq, Eq)]
pub enum DelegatedFrame {
    Push(Push),
    Request(Request),
    Response(Response),
    Error(ErrorFrame),
}

/// The two messages that turn a plain stream into a Loqui stream.
#[derive(Debug, PartialEq, Eq)]
pub enum UpgradeFrame {
    Request,
    Response,
}

} // verus!
