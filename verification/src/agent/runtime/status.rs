//! The agent's lifecycle status.

use vstd::prelude::*;

verus! {

/// Lifecycle status reported to AMS.
#[derive(Debug, Clone, Copy, PartialEq, Eq)]
pub enum AgentStatus {
    Booting,
    Idle,
    Working,
    Dying,
}

/// The wire name of each status.
pub open spec fn status_name(s: AgentStatus) -> Seq<char> {
    match s {
        AgentStatus::Booting => "booting"@,
        AgentStatus::Idle => "idle"@,
        AgentStatus::Working => "working"@,
        AgentStatus::Dying => "dying"@,
    }
}

impl AgentStatus {
    /// The wire name of this status.
    pub fn as_str(&self) -> (r: &'static str)
        ensures
            r@ == status_name(*self),
    {
        match self {
            AgentStatus::Booting => "booting",
            AgentStatus::Idle => "idle",
            AgentStatus::Working => "working",
            AgentStatus::Dying => "dying",
        }
    }
}

} // verus!
