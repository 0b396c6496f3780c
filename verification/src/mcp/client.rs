//! A client handle for an external MCP server.

use vstd::prelude::*;
use crate::json::{Json, JsonV, jtext};
use crate::agent::runtime::worker::entry;

verus! {

/// The reply to a tool call while calls are not carried out:
/// `{"status": "not_implemented"}`.
pub open spec fn not_implemented_reply() -> JsonV {
    JsonV::Object(seq![("status"@, jtext("not_implemented"@))])
}

/// MCP (Model Context Protocol) client for connecting to external MCP servers.
pub struct McpClient {
    pub server_url: String,
}

impl McpClient {
    /// Creates a client for the server at `server_url`.
    pub fn new(server_url: &str) -> (r: Self)
        ensures
            r.server_url@ == server_url@,
    {
        McpClient { server_url: server_url.to_string() }
    }

    /// Connects to the server; it always succeeds.
    pub fn connect(&mut self) -> (r: Result<(), String>)
        ensures
            r is Ok,
            final(self).server_url@ == old(self).server_url@,
    {
        Ok(())
    }

    /// The tools the server offers: none are listed yet.
    pub fn list_tools(&self) -> (r: Result<Vec<String>, String>)
        ensures
            r matches Ok(v) && v@.len() == 0,
    {
        Ok(Vec::new())
    }

    /// Calls a tool on the server: answered with `{"status": "not_implemented"}`.
    pub fn call_tool(&self, tool_name: &str, arguments: &Json) -> (r: Result<Json, String>)
        ensures
            r matches Ok(j) && j@ == not_implemented_reply(),
    {
        let mut v: Vec<(String, Json)> = Vec::new();
        v.push(entry("status", Json::text("not_implemented")));
        let r = Json::Object(v);
        assert(r@->Object_0 =~= not_implemented_reply()->Object_0);
        Ok(r)
    }

    /// Disconnects from the server; it always succeeds.
    pub fn disconnect(&mut self) -> (r: Result<(), String>)
        ensures
            r is Ok,
            final(self).server_url@ == old(self).server_url@,
    {
        Ok(())
    }
}

} // verus!
