use vstd::prelude::*;

verus! {

/// The code and reason of a close frame.
#[derive(Clone, Debug, PartialEq, Eq)]
pub struct CloseInfo {
    pub code: u16,
    pub reason: String,
}

/// A WebSocket message as it arrives from the other side, held as plain values.
#[derive(Clone, Debug, PartialEq, Eq)]
pub enum Frame {
    /// A text message.
    Text(String),
    /// A binary message.
    Binary(Vec<u8>),
    /// A ping with its payload.
    Ping(Vec<u8>),
    /// A pong with its payload.
    Pong(Vec<u8>),
    /// A close message, with the close frame when the other side sent one.
    Close(Option<CloseInfo>),
    /// A raw frame; reading a stream never yields one.
    Raw,
}

} // verus!
