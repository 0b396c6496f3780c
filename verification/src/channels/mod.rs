//! Message platform channels (Discord, Slack, Telegram): connection state
//! and the answers each gives while connected or not.

pub mod traits;
pub mod discord;
pub mod slack;
pub mod telegram;
