//! The Telegram channel.

use vstd::prelude::*;
use crate::channels::traits::{ChannelError, Message};

verus! {

/// Telegram channel implementation.
pub struct TelegramChannel {
    bot_token: String,
    chat_id: String,
    connected: bool,
}

impl TelegramChannel {
    /// Whether the channel is connected.
    pub closed spec fn connected_state(&self) -> bool {
        self.connected
    }

    /// The chat the channel posts to.
    pub closed spec fn channel(&self) -> Seq<char> {
        self.chat_id@
    }

    /// The bot token the channel authenticates with.
    pub closed spec fn token(&self) -> Seq<char> {
        self.bot_token@
    }

    /// Creates a Telegram channel, not yet connected.
    pub fn new(bot_token: &str, chat_id: &str) -> (r: Self)
        ensures
            !r.connected_state(),
            r.token() == bot_token@,
            r.channel() == chat_id@,
    {
        TelegramChannel {
            bot_token: bot_token.to_string(),
            chat_id: chat_id.to_string(),
            connected: false,
        }
    }

    /// Connects the channel; it always succeeds.
    pub fn connect(&mut self) -> (r: Result<(), ChannelError>)
        ensures
            r is Ok,
            final(self).connected_state(),
            final(self).token() == old(self).token(),
            final(self).channel() == old(self).channel(),
    {
        self.connected = true;
        Ok(())
    }

    /// Disconnects the channel; it always succeeds.
    pub fn disconnect(&mut self) -> (r: Result<(), ChannelError>)
        ensures
            r is Ok,
            !final(self).connected_state(),
            final(self).token() == old(self).token(),
            final(self).channel() == old(self).channel(),
    {
        self.connected = false;
        Ok(())
    }

    /// Sends a message: refused with `SendFailed` while disconnected, else
    /// answered with the message id.
    pub fn send_message(&self, content: &str) -> (r: Result<String, ChannelError>)
        ensures
            !self.connected_state() ==> (r matches Err(ChannelError::SendFailed(m)) && m@ == "Not connected to Telegram"@),
            self.connected_state() ==> (r matches Ok(id) && id@ == "message-id-123"@),
    {
        if !self.connected {
            return Err(ChannelError::SendFailed("Not connected to Telegram".to_string()));
        }
        Ok("message-id-123".to_string())
    }

    /// Receives pending messages: refused with `ReceiveFailed` while
    /// disconnected, else none are pending.
    pub fn receive_messages(&self) -> (r: Result<Vec<Message>, ChannelError>)
        ensures
            !self.connected_state() ==> (r matches Err(ChannelError::ReceiveFailed(m)) && m@ == "Not connected to Telegram"@),
            self.connected_state() ==> (r matches Ok(v) && v@.len() == 0),
    {
        if !self.connected {
            return Err(ChannelError::ReceiveFailed("Not connected to Telegram".to_string()));
        }
        Ok(Vec::new())
    }

    /// Whether the channel is connected.
    pub fn is_connected(&self) -> (r: bool)
        ensures
            r == self.connected_state(),
    {
        self.connected
    }

    /// The channel's name, `telegram`.
    pub fn name(&self) -> (r: &'static str)
        ensures
            r@ == "telegram"@,
    {
        "telegram"
    }
}

} // verus!
