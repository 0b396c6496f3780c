//! Continuations: work handed from one life of an agent to the next.

use vstd::prelude::*;

verus! {

/// Request to create a continuation (usually during the death ritual).
#[derive(Debug)]
pub struct CreateContinuationRequest {
    pub agent_id: String,
    pub session_id: String,
    pub original_goal: String,
    pub next_action: String,
    pub completed_subtasks: Vec<String>,
    pub remaining_subtasks: Vec<String>,
    pub priority_memories: Vec<String>,
    pub handoff_notes: Option<String>,
    pub project: Option<String>,
    pub task_type: Option<String>,
}

/// Continuation state from AMS.
#[derive(Debug)]
pub struct ContinuationState {
    pub id: String,
    pub status: String,
    pub original_goal: String,
    pub next_action: String,
    pub remaining_subtasks: Vec<String>,
    pub priority_memories: Vec<String>,
    pub chain_depth: u32,
    pub created_at: String,
    pub expires_at: String,
}

} // verus!
