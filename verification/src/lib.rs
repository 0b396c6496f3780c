//! Verified core of the Abot agent runtime.

pub mod text;
pub mod json;
pub mod json_text;
pub mod security;
pub mod sandbox;
pub mod llm;
pub mod agent;
pub mod channels;
pub mod mcp;
pub mod telemetry;
pub mod ids;
pub mod config;
pub mod hand;
pub mod ams;
