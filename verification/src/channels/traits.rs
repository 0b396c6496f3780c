//! What every channel shares: its errors and the messages it carries.

use vstd::prelude::*;
use crate::json::Json;

verus! {

/// Error types for channel operations.
#[derive(Debug)]
pub enum ChannelError {
    ConnectionFailed(String),
    SendFailed(String),
    ReceiveFailed(String),
    AuthenticationFailed(String),
    Unknown(String),
}

/// The text of a channel error, as it is displayed.
pub open spec fn channel_error_text(e: ChannelError) -> Seq<char> {
    match e {
        ChannelError::ConnectionFailed(m) => "Connection failed: "@ + m@,
        ChannelError::SendFailed(m) => "Send failed: "@ + m@,
        ChannelError::ReceiveFailed(m) => "Receive failed: "@ + m@,
        ChannelError::AuthenticationFailed(m) => "Authentication failed: "@ + m@,
        ChannelError::Unknown(m) => "Unknown error: "@ + m@,
    }
}

impl ChannelError {
    /// The error as it is displayed: a prefix naming the kind, then the detail.
    pub fn message(&self) -> (r: String)
        ensures
            r@ == channel_error_text(*self),
    {
        let (prefix, detail) = match self {
            ChannelError::ConnectionFailed(m) => ("Connection failed: ", m),
            ChannelError::SendFailed(m) => ("Send failed: ", m),
            ChannelError::ReceiveFailed(m) => ("Receive failed: ", m),
            ChannelError::AuthenticationFailed(m) => ("Authentication failed: ", m),
            ChannelError::Unknown(m) => ("Unknown error: ", m),
        };
        let mut r = prefix.to_string();
        r.append(detail.as_str());
        r
    }
}

/// A message received from a channel.
#[derive(Debug)]
pub struct Message {
    pub content: String,
    pub sender: String,
    pub timestamp: String,
    pub metadata: Option<Json>,
}

} // verus!
