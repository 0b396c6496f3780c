//! The Slack channel.

use vstd::prelude::*;
use crate::channels::traits::{ChannelError, Message};

verus! {

/// Slack channel implementation.
pub struct SlackChannel {
    bot_token: String,
    channel_id: String,
    connected: bool,
}

impl SlackChannel {
    /// Whether the channel is connected.
    pub closed spec fn connected_state(&self) -> bool {
        self.connected
    }

    /// The channel the channel posts to.
    pub closed spec fn channel(&self) -> Seq<char> {
        self.channel_id@
    }

    /// The bot token the channel authenticates with.
    pub closed spec fn token(&self) -> Seq<char> {
        self.bot_token@
    }

    /// Creates a Slack channel, not yet connected.
    pub fn new(bot_token: &str, channel_id: &str) -> (r: Self)
        ensures
            !r.connected_state(),
            r.token() == bot_token@,
            r.channel() == channel_id@,
    {
        SlackChannel {
            bot_token: bot_token.to_string(),
            channel_id: channel_id.to_string(),
            connected: false,
        }
    }

    /// Connects the channel; it always succeeds.
    pub fn connect(&mut self) -> (r: Result<(), ChannelError>)
        ensures
            r is Ok,
            final(self).connected_state(),
            final(self).token() == old(self).token(),
            final(self).channel() == old(self).channel(),
    {
        self.connected = true;
        Ok(())
    }

    /// Disconnects the channel; it always succeeds.
    pub fn disconnect(&mut self) -> (r: Result<(), ChannelError>)
        ensures
            r is Ok,
            !final(self).connected_state(),
            final(self).token() == old(self).token(),
            final(self).channel() == old(self).channel(),
    {
        self.connected = false;
        Ok(())
    }

    /// Sends a message: refused with `SendFailed` while disconnected, else
    /// answered with the message id.
    pub fn send_message(&self, content: &str) -> (r: Result<String, ChannelError>)
        ensures
            !self.connected_state() ==> (r matches Err(ChannelError::SendFailed(m)) && m@ == "Not connected to Slack"@),
            self.connected_state() ==> (r matches Ok(id) && id@ == "ts-123456.789"@),
    {
        if !self.connected {
            return Err(ChannelError::SendFailed("Not connected to Slack".to_string()));
        }
        Ok("ts-123456.789".to_string())
    }

    /// Receives pending messages: refused with `ReceiveFailed` while
    /// disconnected, else none are pending.
    pub fn receive_messages(&self) -> (r: Result<Vec<Message>, ChannelError>)
        ensures
            !self.connected_state() ==> (r matches Err(ChannelError::ReceiveFailed(m)) && m@ == "Not connected to Slack"@),
            self.connected_state() ==> (r matches Ok(v) && v@.len() == 0),
    {
        if !self.connected {
            return Err(ChannelError::ReceiveFailed("Not connected to Slack".to_string()));
        }
        Ok(Vec::new())
    }

    /// Whether the channel is connected.
    pub fn is_connected(&self) -> (r: bool)
        ensures
            r == self.connected_state(),
    {
        self.connected
    }

    /// The channel's name, `slack`.
    pub fn name(&self) -> (r: &'static str)
        ensures
            r@ == "slack"@,
    {
        "slack"
    }
}

} // verus!
