//! The error taxonomy of the client.

use vstd::prelude::*;

verus! {

/// Everything a connect, disconnect or run call can fail with.
#[derive(Debug, Clone, PartialEq)]
pub enum WsError {
    /// The handshake with the endpoint failed; carries the underlying cause.
    Handshake(String),
    /// An operation that needs a live socket was called without one.
    NotConnected,
    /// An I/O failure while reading a frame; terminal for the run.
    Transport(String),
    /// A frame's text did not parse, or a classified payload did not match
    /// the schema of its variant; terminal for the run.
    Decode,
    /// The peer sent a close frame; carries the peer's stated reason.
    PeerClosed(Option<String>),
}

/// The mathematical value of a `WsError`.
pub enum WsErrorVal {
    Handshake(Seq<char>),
    NotConnected,
    Transport(Seq<char>),
    Decode,
    PeerClosed(Option<Seq<char>>),
}

impl View for WsError {
    type V = WsErrorVal;

    open spec fn view(&self) -> WsErrorVal {
        match self {
            WsError::Handshake(s) => WsErrorVal::Handshake(s@),
            WsError::NotConnected => WsErrorVal::NotConnected,
            WsError::Transport(s) => WsErrorVal::Transport(s@),
            WsError::Decode => WsErrorVal::Decode,
            WsError::PeerClosed(r) => WsErrorVal::PeerClosed(match r {
                Some(s) => Some(s@),
                None => None,
            }),
        }
    }
}

} // verus!
