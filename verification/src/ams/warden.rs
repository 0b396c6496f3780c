//! The warden lifecycle: heartbeat directives, birth and death rituals.

use vstd::prelude::*;
use crate::json::Json;
use crate::text::str_eq;

verus! {

/// Raw AMS heartbeat response, as the warden sends it: an optional `action`
/// rather than a directive.
#[derive(Debug)]
pub struct AmsHeartbeatResponse {
    pub state: Option<String>,
    pub action: Option<String>,
    pub message: Option<String>,
    pub final_chance: bool,
    pub governance: Option<Json>,
}

/// What the runtime is told to do after a heartbeat.
#[derive(Debug, Clone, Copy, PartialEq, Eq)]
pub enum Directive {
    /// Keep working, everything fine. (no action)
    Continue,
    /// Context getting high, be mindful. (action `remind`)
    Warn,
    /// Start the death ritual now. (action `begin_death_ritual`)
    BeginDeathRitual,
    /// Emergency stop: death ritual immediately. (action `pause_and_queue`)
    HardStop,
}

/// The directive an AMS action maps to; an unknown action is treated as
/// no action.
pub open spec fn directive_of(action: Option<Seq<char>>) -> Directive {
    match action {
        None => Directive::Continue,
        Some(a) => if a == "remind"@ {
            Directive::Warn
        } else if a == "begin_death_ritual"@ {
            Directive::BeginDeathRitual
        } else if a == "pause_and_queue"@ {
            Directive::HardStop
        } else {
            Directive::Continue
        },
    }
}

/// An optional string as an optional character sequence.
pub open spec fn opt_string(o: Option<String>) -> Option<Seq<char>> {
    match o {
        Some(s) => Some(s@),
        None => None,
    }
}

impl AmsHeartbeatResponse {
    /// Maps the AMS action to a directive.
    pub fn to_directive(&self) -> (r: Directive)
        ensures
            r == directive_of(opt_string(self.action)),
    {
        match &self.action {
            None => Directive::Continue,
            Some(a) => {
                if str_eq(a.as_str(), "remind") {
                    Directive::Warn
                } else if str_eq(a.as_str(), "begin_death_ritual") {
                    Directive::BeginDeathRitual
                } else if str_eq(a.as_str(), "pause_and_queue") {
                    Directive::HardStop
                } else {
                    Directive::Continue
                }
            },
        }
    }
}

/// The heartbeat reply as the runtime uses it: the directive, with the
/// message and governance carried along and the raw reply kept.
#[derive(Debug)]
pub struct HeartbeatResponse {
    pub directive: Directive,
    pub message: Option<String>,
    pub governance: Option<Json>,
    pub raw: AmsHeartbeatResponse,
}

impl HeartbeatResponse {
    /// Builds the runtime's view of a raw reply.
    pub fn from_raw(raw: AmsHeartbeatResponse) -> (r: Self)
        ensures
            r.directive == directive_of(opt_string(raw.action)),
            opt_string(r.message) == opt_string(raw.message),
            r.raw == raw,
            match (r.governance, raw.governance) {
                (Some(a), Some(b)) => a@ == b@,
                (None, None) => true,
                _ => false,
            },
    {
        let directive = raw.to_directive();
        let message = match &raw.message {
            Some(m) => Some(m.clone()),
            None => None,
        };
        let governance = match &raw.governance {
            Some(g) => Some(g.deep_clone()),
            None => None,
        };
        HeartbeatResponse { directive, message, governance, raw }
    }
}

/// Birth ritual request.
#[derive(Debug)]
pub struct BirthRequest {
    pub agent_id: String,
    pub agent_name: String,
    pub metadata: Json,
}

/// Birth ritual response; it may carry a continuation to resume and the
/// limits AMS grants.
#[derive(Debug)]
pub struct BirthResponse {
    pub ok: bool,
    pub agent_id: String,
    pub registered: bool,
    pub grants: Option<AmsGrants>,
    pub continuation: Option<ContinuationClaim>,
}

/// AMS-granted operating limits. They come from the seeded agent database,
/// not from the body's manifest, and cannot be overridden locally.
#[derive(Debug)]
pub struct AmsGrants {
    pub trust_tier: u8,
    pub agent_class: String,
    pub warn_threshold: u8,
    pub critical_threshold: u8,
    pub nanny_managed: bool,
    pub enable_tools: bool,
    pub max_iterations: u32,
    pub default_model: Option<String>,
}

/// A continuation claimed during the birth ritual.
#[derive(Debug)]
pub struct ContinuationClaim {
    pub continuation_id: String,
    pub original_goal: String,
    pub next_action: String,
    pub completed_subtasks: Vec<String>,
    pub remaining_subtasks: Vec<String>,
    pub priority_memories: Vec<String>,
    pub handoff_notes: Option<String>,
    pub chain_depth: u32,
}

/// Death ritual response.
#[derive(Debug)]
pub struct DeathResponse {
    pub ok: bool,
    pub agent_id: String,
    pub continuation_id: Option<String>,
    pub memories_saved: u32,
}

} // verus!
