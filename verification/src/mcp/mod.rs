//! Model Context Protocol: transport state, a client handle and a server's
//! tool registry.

pub mod transport;
pub mod client;
pub mod server;
