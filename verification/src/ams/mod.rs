//! The Automaton Management Service's wire types and the decisions taken
//! on its replies.

pub mod warden;
pub mod fleet;
pub mod continuation;
pub mod endpoints;
pub mod messages;
pub mod llm;
