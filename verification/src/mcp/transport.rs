//! The MCP transport: its mode and whether it is connected.

use vstd::prelude::*;
use crate::json::{Json, JsonV};

verus! {

/// Transport layer error types.
#[derive(Debug)]
pub enum TransportError {
    ConnectionFailed(String),
    SendFailed(String),
    ReceiveFailed(String),
    ProtocolError(String),
}

impl TransportError {
    /// The error as it is displayed.
    pub fn message(&self) -> (r: String)
        ensures
            r@ == match *self {
                TransportError::ConnectionFailed(m) => "Connection failed: "@ + m@,
                TransportError::SendFailed(m) => "Send failed: "@ + m@,
                TransportError::ReceiveFailed(m) => "Receive failed: "@ + m@,
                TransportError::ProtocolError(m) => "Protocol error: "@ + m@,
            },
    {
        let (prefix, detail) = match self {
            TransportError::ConnectionFailed(m) => ("Connection failed: ", m),
            TransportError::SendFailed(m) => ("Send failed: ", m),
            TransportError::ReceiveFailed(m) => ("Receive failed: ", m),
            TransportError::ProtocolError(m) => ("Protocol error: ", m),
        };
        let mut r = prefix.to_string();
        r.append(detail.as_str());
        r
    }
}

/// Transport type for MCP communication.
#[derive(Clone, Copy, Debug, PartialEq, Eq)]
pub enum TransportMode {
    /// Server-Sent Events (SSE)
    Sse,
    /// Stdio based transport
    Stdio,
    /// WebSocket transport
    WebSocket,
}

/// MCP transport layer for client/server communication.
pub struct Transport {
    mode: TransportMode,
    connected: bool,
}

impl Transport {
    /// Whether the transport is connected.
    pub closed spec fn connected_state(&self) -> bool {
        self.connected
    }

    /// The transport's mode.
    pub closed spec fn mode_of(&self) -> TransportMode {
        self.mode
    }

    /// Creates a transport with the given mode, not yet connected.
    pub fn new(mode: TransportMode) -> (r: Self)
        ensures
            !r.connected_state(),
            r.mode_of() == mode,
    {
        Transport { mode, connected: false }
    }

    /// Connects the transport; it always succeeds.
    pub fn connect(&mut self) -> (r: Result<(), TransportError>)
        ensures
            r is Ok,
            final(self).connected_state(),
            final(self).mode_of() == old(self).mode_of(),
    {
        self.connected = true;
        Ok(())
    }

    /// Sends a message: refused with `SendFailed` while disconnected.
    pub fn send(&self, message: &Json) -> (r: Result<(), TransportError>)
        ensures
            !self.connected_state() ==> (r matches Err(TransportError::SendFailed(m)) && m@ == "Transport not connected"@),
            self.connected_state() ==> r is Ok,
    {
        if !self.connected {
            return Err(TransportError::SendFailed("Transport not connected".to_string()));
        }
        Ok(())
    }

    /// Receives a message: refused with `ReceiveFailed` while disconnected,
    /// else the empty object.
    pub fn receive(&self) -> (r: Result<Json, TransportError>)
        ensures
            !self.connected_state() ==> (r matches Err(TransportError::ReceiveFailed(m)) && m@ == "Transport not connected"@),
            self.connected_state() ==> (r matches Ok(j) && j@ == JsonV::Object(Seq::empty())),
    {
        if !self.connected {
            return Err(TransportError::ReceiveFailed("Transport not connected".to_string()));
        }
        let r = Json::Object(Vec::new());
        assert(r@->Object_0 =~= Seq::<(Seq<char>, JsonV)>::empty());
        Ok(r)
    }

    /// Closes the transport; it always succeeds.
    pub fn close(&mut self) -> (r: Result<(), TransportError>)
        ensures
            r is Ok,
            !final(self).connected_state(),
            final(self).mode_of() == old(self).mode_of(),
    {
        self.connected = false;
        Ok(())
    }

    /// Whether the transport is connected.
    pub fn is_connected(&self) -> (r: bool)
        ensures
            r == self.connected_state(),
    {
        self.connected
    }

    /// The transport mode.
    pub fn mode(&self) -> (r: &TransportMode)
        ensures
            *r == self.mode_of(),
    {
        &self.mode
    }
}

} // verus!
