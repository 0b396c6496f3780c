//! Steering messages queued for an agent by DLPFC, an admin or the system.

use vstd::prelude::*;
use crate::json::{Json, JsonV};
use crate::json_text::json_text;

verus! {

/// The type of a message that names none: `guidance`.
pub fn default_guidance_type() -> (r: String)
    ensures
        r@ == "guidance"@,
{
    "guidance".to_string()
}

/// The sender of a message that names none: `dashboard`.
pub fn default_dashboard_sender() -> (r: String)
    ensures
        r@ == "dashboard"@,
{
    "dashboard".to_string()
}

/// The recipient of a message that names none: `agent`.
pub fn default_agent_recipient() -> (r: String)
    ensures
        r@ == "agent"@,
{
    "agent".to_string()
}

/// A steering message from AMS.
///
/// `metadata` is a correlation blob passed through verbatim. By message
/// type: a `task` (orchestrator to team lead) carries the parent's agent and
/// execution and maybe a chat session; a `rollup` (team lead back to the
/// orchestrator) carries the parent execution, the child's execution and
/// agent, the stored memory and maybe a chat session; `guidance`,
/// `intervention` and `command` may carry the dashboard chat session that
/// started the turn.
#[derive(Debug)]
pub struct SteeringMessage {
    pub id: String,
    pub msg_type: String,
    pub content: Json,
    pub sender: String,
    pub recipient: String,
    pub timestamp: String,
    pub metadata: Option<Json>,
}

/// The text of a message's content: a string as it is, anything else as
/// compact JSON.
pub open spec fn content_of(c: JsonV) -> Seq<char> {
    match c {
        JsonV::Str(s) => s,
        _ => json_text(c),
    }
}

impl SteeringMessage {
    /// The content as text.
    pub fn content_text(&self) -> (r: String)
        ensures
            r@ == content_of(self.content@),
    {
        match &self.content {
            Json::Str(text) => text.clone(),
            other => other.to_text(),
        }
    }
}

} // verus!
