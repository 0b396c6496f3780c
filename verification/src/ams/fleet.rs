//! Fleet registration, execution chunks and heartbeats.

use vstd::prelude::*;
use crate::json::Json;

verus! {

/// Register execution payload.
#[derive(Debug)]
pub struct RegisterExecutionRequest<'a> {
    pub agent_id: &'a str,
    pub tenant_id: &'a str,
    pub execution_id: &'a str,
    pub agent_name: &'a str,
    pub task: &'a str,
    pub model: &'a str,
    pub instance_id: Option<&'a str>,
    pub user_id: Option<&'a str>,
}

/// The fleet's answer to a registration.
#[derive(Debug)]
pub struct RegisterExecutionResponse {
    pub ok: bool,
    pub fleet_execution_id: String,
    pub execution_id: String,
    pub agent_id: String,
    pub reused: bool,
}

/// The fleet's answer to an execution chunk.
#[derive(Debug)]
pub struct ExecutionChunkResponse {
    pub ok: bool,
    pub chunk_type: String,
    pub execution_id: String,
}

/// Usage since the last fleet heartbeat.
#[derive(Debug, Clone, Copy, PartialEq, Eq)]
pub struct FleetHeartbeatUsage {
    pub tokens_in_since_last_heartbeat: u64,
    pub tokens_out_since_last_heartbeat: u64,
    pub executions_since_last_heartbeat: u64,
}

impl FleetHeartbeatUsage {
    /// The usage part of a fleet heartbeat from drained counters
    /// (tokens in, tokens out, executions).
    pub fn from_drained(d: (u64, u64, u64)) -> (r: Self)
        ensures
            r.tokens_in_since_last_heartbeat == d.0,
            r.tokens_out_since_last_heartbeat == d.1,
            r.executions_since_last_heartbeat == d.2,
    {
        FleetHeartbeatUsage {
            tokens_in_since_last_heartbeat: d.0,
            tokens_out_since_last_heartbeat: d.1,
            executions_since_last_heartbeat: d.2,
        }
    }
}

/// The fleet's answer to a heartbeat.
#[derive(Debug)]
pub struct FleetHeartbeatResponse {
    pub ok: bool,
    pub received: Option<String>,
}

/// A fleet registration request.
#[derive(Debug)]
pub struct FleetRegisterAgentRequest {
    pub agent_id: String,
    pub tenant_id: Option<String>,
    pub agent_name: Option<String>,
    pub instance_id: Option<String>,
    pub metadata: Json,
}

/// The fleet's answer to a registration.
#[derive(Debug)]
pub struct FleetRegisterAgentResponse {
    pub ok: bool,
    pub agent_id: Option<String>,
    pub registered_at: Option<String>,
}

} // verus!
