//! The agent's life: what it claims at birth, what it registers with the
//! fleet, how it answers AMS directives, and how its status moves while it
//! works.

use vstd::prelude::*;
use crate::json::{Json, JsonV, jtext, set_member};
use crate::text::str_eq;
use crate::hand::{LoadedHand, ams_claims};
use crate::ams::warden::Directive;
use crate::agent::runtime::status::AgentStatus;
use crate::agent::runtime::worker::entry;

verus! {

/// The runtime facts every birth and fleet registration carries.
pub open spec fn runtime_facts(engine: Seq<char>) -> Seq<(Seq<char>, JsonV)> {
    seq![("version"@, jtext("3.0.0"@)), ("runtime"@, jtext("rust"@)), ("sandbox"@, jtext(engine))]
}

/// `base` with the first `n` of `extra`'s members set on it in turn (a
/// member already there takes the new value in place).
pub open spec fn merge_members(base: Seq<(Seq<char>, JsonV)>, extra: Seq<(Seq<char>, JsonV)>, n: int) -> Seq<(Seq<char>, JsonV)>
    decreases n,
{
    if n <= 0 || n > extra.len() {
        base
    } else {
        set_member(merge_members(base, extra, n - 1), extra[n - 1].0, extra[n - 1].1)
    }
}

/// The birth metadata: the runtime facts, the hand's identity claims set
/// over them, and `has_system_prompt` when the hand has a system prompt.
/// Only claims are sent: what the body may do is granted by AMS.
pub open spec fn birth_meta(engine: Seq<char>, hand: Option<LoadedHand>) -> JsonV {
    match hand {
        None => JsonV::Object(runtime_facts(engine)),
        Some(h) => {
            let claims = ams_claims(h.manifest)->Object_0;
            let merged = merge_members(runtime_facts(engine), claims, claims.len() as int);
            JsonV::Object(if h.system_prompt is Some {
                set_member(merged, "has_system_prompt"@, JsonV::Bool(true))
            } else {
                merged
            })
        },
    }
}

fn facts_json(engine: &str) -> (r: Json)
    ensures
        r@ == JsonV::Object(runtime_facts(engine@)),
{
    let mut v: Vec<(String, Json)> = Vec::new();
    v.push(entry("version", Json::text("3.0.0")));
    v.push(entry("runtime", Json::text("rust")));
    v.push(entry("sandbox", Json::text(engine)));
    let r = Json::Object(v);
    assert(r@->Object_0 =~= runtime_facts(engine@));
    r
}

/// Builds the birth metadata.
pub fn birth_metadata(engine: &str, hand: Option<&LoadedHand>) -> (r: Json)
    ensures
        r@ == birth_meta(engine@, match hand { Some(h) => Some(*h), None => None }),
{
    let mut meta = facts_json(engine);
    match hand {
        None => meta,
        Some(h) => {
            let claims = h.to_ams_claims();
            let ghost cv = claims@->Object_0;
            let ghost base = runtime_facts(engine@);
            match &claims {
                Json::Object(members) => {
                    let mut i: usize = 0;
                    while i < members.len()
                        invariant
                            i <= members@.len(),
                            claims == Json::Object(*members),
                            cv == claims@->Object_0,
                            cv.len() == members@.len(),
                            forall|k: int| 0 <= k < members@.len() ==> #[trigger] cv[k] == (members@[k].0@, members@[k].1@),
                            meta@ == JsonV::Object(merge_members(base, cv, i as int)),
                        decreases members.len() - i,
                    {
                        let ghost before = meta@;
                        meta.set(members[i].0.as_str(), members[i].1.deep_clone());
                        assert(cv[i as int] == (members@[i as int].0@, members@[i as int].1@));
                        i += 1;
                    }
                },
                _ => {},
            }
            if h.system_prompt.is_some() {
                meta.set("has_system_prompt", Json::Bool(true));
            }
            meta
        },
    }
}

/// The metadata of the fleet registration: the runtime facts and the
/// container id.
pub open spec fn fleet_meta(engine: Seq<char>, container_id: Seq<char>) -> JsonV {
    JsonV::Object(runtime_facts(engine).push(("container_id"@, jtext(container_id))))
}

/// Builds the fleet registration metadata.
pub fn fleet_metadata(engine: &str, container_id: &str) -> (r: Json)
    ensures
        r@ == fleet_meta(engine@, container_id@),
{
    let mut v: Vec<(String, Json)> = Vec::new();
    v.push(entry("version", Json::text("3.0.0")));
    v.push(entry("runtime", Json::text("rust")));
    v.push(entry("sandbox", Json::text(engine)));
    v.push(entry("container_id", Json::text(container_id)));
    let r = Json::Object(v);
    assert(r@->Object_0 =~= fleet_meta(engine@, container_id@)->Object_0);
    r
}

/// What the main loop does after a heartbeat.
#[derive(Clone, Copy, Debug, PartialEq, Eq)]
pub enum LoopStep {
    /// Keep working.
    KeepRunning,
    /// Keep working, mindful that context is running high.
    Warned,
    /// Perform the death ritual and stop.
    Die,
}

/// The step a directive calls for.
pub open spec fn directive_step(d: Directive) -> LoopStep {
    match d {
        Directive::Continue => LoopStep::KeepRunning,
        Directive::Warn => LoopStep::Warned,
        Directive::BeginDeathRitual => LoopStep::Die,
        Directive::HardStop => LoopStep::Die,
    }
}

/// Law: AMS's death ritual and hard stop both end the loop, and only they
/// do; a warning is told apart from plain continuing.
pub proof fn law_stop_directives_end_the_loop(d: Directive)
    ensures
        (directive_step(d) == LoopStep::Die) <==> (d is BeginDeathRitual || d is HardStop),
        d is Warn <==> directive_step(d) == LoopStep::Warned,
        d is Continue <==> directive_step(d) == LoopStep::KeepRunning,
{
}

/// The agent's working state.
pub struct AgentState {
    pub agent_id: String,
    pub status: AgentStatus,
    pub current_execution: Option<String>,
    pub token_count: u64,
    pub max_tokens: u64,
}

impl AgentState {
    /// A freshly born agent: idle, no execution, no tokens used, a budget
    /// of 200000 tokens.
    pub fn born(agent_id: &str) -> (r: Self)
        ensures
            r.agent_id@ == agent_id@,
            r.status == AgentStatus::Idle,
            r.current_execution is None,
            r.token_count == 0,
            r.max_tokens == 200_000,
    {
        AgentState {
            agent_id: agent_id.to_string(),
            status: AgentStatus::Idle,
            current_execution: None,
            token_count: 0,
            max_tokens: 200_000,
        }
    }

    /// Answers a heartbeat directive: a death ritual or hard stop makes the
    /// agent dying and ends the loop; otherwise nothing changes.
    pub fn on_directive(&mut self, d: Directive) -> (r: LoopStep)
        ensures
            r == directive_step(d),
            (d is BeginDeathRitual || d is HardStop) ==> r == LoopStep::Die && final(self).status == AgentStatus::Dying,
            (d is Continue || d is Warn) ==> r != LoopStep::Die && final(self).status == old(self).status,
            r == LoopStep::Die ==> final(self).status == AgentStatus::Dying,
            r != LoopStep::Die ==> final(self).status == old(self).status,
            final(self).current_execution == old(self).current_execution,
            final(self).token_count == old(self).token_count,
            final(self).agent_id == old(self).agent_id,
    {
        match d {
            Directive::Continue => LoopStep::KeepRunning,
            Directive::Warn => LoopStep::Warned,
            Directive::BeginDeathRitual => {
                self.status = AgentStatus::Dying;
                LoopStep::Die
            },
            Directive::HardStop => {
                self.status = AgentStatus::Dying;
                LoopStep::Die
            },
        }
    }

    /// A shutdown signal: the agent is dying.
    pub fn on_shutdown(&mut self)
        ensures
            final(self).status == AgentStatus::Dying,
            final(self).current_execution == old(self).current_execution,
            final(self).token_count == old(self).token_count,
    {
        self.status = AgentStatus::Dying;
    }

    /// Work starts on a registered execution.
    pub fn begin_work(&mut self, execution_id: &str)
        ensures
            final(self).status == AgentStatus::Working,
            final(self).current_execution matches Some(e) && e@ == execution_id@,
            final(self).token_count == old(self).token_count,
            final(self).agent_id == old(self).agent_id,
    {
        self.status = AgentStatus::Working;
        self.current_execution = Some(execution_id.to_string());
    }

    /// Work ended, done or failed: the agent is idle with no execution.
    pub fn end_work(&mut self)
        ensures
            final(self).status == AgentStatus::Idle,
            final(self).current_execution is None,
            final(self).token_count == old(self).token_count,
            final(self).agent_id == old(self).agent_id,
    {
        self.status = AgentStatus::Idle;
        self.current_execution = None;
    }
}

/// Whether a polled steering message is for the agent itself (its
/// recipient is `agent`); others are skipped.
pub fn addressed_to_agent(recipient: &str) -> (r: bool)
    ensures
        r == (recipient@ == "agent"@),
{
    str_eq(recipient, "agent")
}

/// Every member's name satisfies `p`.
pub open spec fn names_within(e: Seq<(Seq<char>, JsonV)>, p: spec_fn(Seq<char>) -> bool) -> bool {
    forall|i: int| 0 <= i < e.len() ==> #[trigger] p(e[i].0)
}

proof fn lemma_set_member_within(e: Seq<(Seq<char>, JsonV)>, k: Seq<char>, v: JsonV, p: spec_fn(Seq<char>) -> bool)
    requires
        names_within(e, p),
        p(k),
    ensures
        names_within(set_member(e, k, v), p),
    decreases e.len(),
{
    if e.len() > 0 && e[0].0 != k {
        let t = e.drop_first();
        assert(names_within(t, p)) by {
            assert forall|i: int| 0 <= i < t.len() implies #[trigger] p(t[i].0) by {
                assert(t[i] == e[i + 1]);
            }
        }
        lemma_set_member_within(t, k, v, p);
        let r = set_member(e, k, v);
        assert forall|i: int| 0 <= i < r.len() implies #[trigger] p(r[i].0) by {
            if i > 0 {
                assert(r[i] == set_member(t, k, v)[i - 1]);
            }
        }
    } else if e.len() > 0 {
        let r = set_member(e, k, v);
        assert forall|i: int| 0 <= i < r.len() implies #[trigger] p(r[i].0) by {
            if i > 0 {
                assert(r[i] == e[i]);
            }
        }
    }
}

proof fn lemma_merge_within(base: Seq<(Seq<char>, JsonV)>, extra: Seq<(Seq<char>, JsonV)>, n: int, p: spec_fn(Seq<char>) -> bool)
    requires
        names_within(base, p),
        names_within(extra, p),
    ensures
        names_within(merge_members(base, extra, n), p),
    decreases n,
{
    if n > 0 && n <= extra.len() {
        lemma_merge_within(base, extra, n - 1, p);
        assert(p(extra[n - 1].0));
        lemma_set_member_within(merge_members(base, extra, n - 1), extra[n - 1].0, extra[n - 1].1, p);
    }
}

/// The names birth metadata may carry: the runtime facts, the identity
/// claims and whether there is a system prompt.
pub open spec fn birth_name(k: Seq<char>) -> bool {
    k == "version"@ || k == "runtime"@ || k == "sandbox"@ || crate::hand::claim_name(k) || k == "has_system_prompt"@
}

/// Law: what a body announces at birth is only claims. Its metadata names
/// nothing but the runtime facts, its identity and whether it has a system
/// prompt; it never asserts a trust tier, an agent class, tool permissions,
/// an iteration limit or a tool switch.
pub proof fn law_birth_claims_no_grants(engine: Seq<char>, hand: Option<LoadedHand>)
    ensures
        names_within(birth_meta(engine, hand)->Object_0, |k: Seq<char>| birth_name(k)),
        crate::json::jget(birth_meta(engine, hand), "trust_tier"@) is None,
        crate::json::jget(birth_meta(engine, hand), "agent_class"@) is None,
        crate::json::jget(birth_meta(engine, hand), "tool_permissions"@) is None,
        crate::json::jget(birth_meta(engine, hand), "max_iterations"@) is None,
        crate::json::jget(birth_meta(engine, hand), "enable_tools"@) is None,
{
    let p = |k: Seq<char>| birth_name(k);
    let facts = runtime_facts(engine);
    assert(names_within(facts, p));
    match hand {
        None => {},
        Some(h) => {
            crate::hand::law_claims_are_not_grants(h.manifest);
            let claims = ams_claims(h.manifest)->Object_0;
            assert(names_within(claims, p));
            lemma_merge_within(facts, claims, claims.len() as int, p);
            if h.system_prompt is Some {
                lemma_set_member_within(merge_members(facts, claims, claims.len() as int), "has_system_prompt"@, JsonV::Bool(true), p);
            }
        },
    }
    let e = birth_meta(engine, hand)->Object_0;
    reveal_strlit("version");
    reveal_strlit("runtime");
    reveal_strlit("sandbox");
    reveal_strlit("has_system_prompt");
    reveal_strlit("trust_tier");
    reveal_strlit("agent_class");
    reveal_strlit("tool_permissions");
    reveal_strlit("max_iterations");
    reveal_strlit("enable_tools");
    reveal_strlit("hand_name");
    reveal_strlit("archetype");
    reveal_strlit("domain");
    reveal_strlit("description");
    reveal_strlit("default_model");
    reveal_strlit("persona_role");
    reveal_strlit("persona_style");
    reveal_strlit("goals");
    reveal_strlit("tags");
    assert("version"@ != "trust_tier"@) by { assert("version"@.len() != "trust_tier"@.len()); }
    assert("runtime"@ != "trust_tier"@) by { assert("runtime"@.len() != "trust_tier"@.len()); }
    assert("sandbox"@ != "trust_tier"@) by { assert("sandbox"@.len() != "trust_tier"@.len()); }
    assert("has_system_prompt"@ != "trust_tier"@) by { assert("has_system_prompt"@.len() != "trust_tier"@.len()); }
    assert("hand_name"@ != "trust_tier"@) by { assert("hand_name"@.len() != "trust_tier"@.len()); }
    assert("archetype"@ != "trust_tier"@) by { assert("archetype"@.len() != "trust_tier"@.len()); }
    assert("domain"@ != "trust_tier"@) by { assert("domain"@.len() != "trust_tier"@.len()); }
    assert("description"@ != "trust_tier"@) by { assert("description"@.len() != "trust_tier"@.len()); }
    assert("default_model"@ != "trust_tier"@) by { assert("default_model"@.len() != "trust_tier"@.len()); }
    assert("persona_role"@ != "trust_tier"@) by { assert("persona_role"@.len() != "trust_tier"@.len()); }
    assert("persona_style"@ != "trust_tier"@) by { assert("persona_style"@.len() != "trust_tier"@.len()); }
    assert("goals"@ != "trust_tier"@) by { assert("goals"@.len() != "trust_tier"@.len()); }
    assert("tags"@ != "trust_tier"@) by { assert("tags"@.len() != "trust_tier"@.len()); }
    assert("version"@ != "agent_class"@) by { assert("version"@.len() != "agent_class"@.len()); }
    assert("runtime"@ != "agent_class"@) by { assert("runtime"@.len() != "agent_class"@.len()); }
    assert("sandbox"@ != "agent_class"@) by { assert("sandbox"@.len() != "agent_class"@.len()); }
    assert("has_system_prompt"@ != "agent_class"@) by { assert("has_system_prompt"@.len() != "agent_class"@.len()); }
    assert("hand_name"@ != "agent_class"@) by { assert("hand_name"@.len() != "agent_class"@.len()); }
    assert("archetype"@ != "agent_class"@) by { assert("archetype"@.len() != "agent_class"@.len()); }
    assert("domain"@ != "agent_class"@) by { assert("domain"@.len() != "agent_class"@.len()); }
    assert("description"@ != "agent_class"@) by { assert("description"@[0] != "agent_class"@[0]); }
    assert("default_model"@ != "agent_class"@) by { assert("default_model"@.len() != "agent_class"@.len()); }
    assert("persona_role"@ != "agent_class"@) by { assert("persona_role"@.len() != "agent_class"@.len()); }
    assert("persona_style"@ != "agent_class"@) by { assert("persona_style"@.len() != "agent_class"@.len()); }
    assert("goals"@ != "agent_class"@) by { assert("goals"@.len() != "agent_class"@.len()); }
    assert("tags"@ != "agent_class"@) by { assert("tags"@.len() != "agent_class"@.len()); }
    assert("version"@ != "tool_permissions"@) by { assert("version"@.len() != "tool_permissions"@.len()); }
    assert("runtime"@ != "tool_permissions"@) by { assert("runtime"@.len() != "tool_permissions"@.len()); }
    assert("sandbox"@ != "tool_permissions"@) by { assert("sandbox"@.len() != "tool_permissions"@.len()); }
    assert("has_system_prompt"@ != "tool_permissions"@) by { assert("has_system_prompt"@.len() != "tool_permissions"@.len()); }
    assert("hand_name"@ != "tool_permissions"@) by { assert("hand_name"@.len() != "tool_permissions"@.len()); }
    assert("archetype"@ != "tool_permissions"@) by { assert("archetype"@.len() != "tool_permissions"@.len()); }
    assert("domain"@ != "tool_permissions"@) by { assert("domain"@.len() != "tool_permissions"@.len()); }
    assert("description"@ != "tool_permissions"@) by { assert("description"@.len() != "tool_permissions"@.len()); }
    assert("default_model"@ != "tool_permissions"@) by { assert("default_model"@.len() != "tool_permissions"@.len()); }
    assert("persona_role"@ != "tool_permissions"@) by { assert("persona_role"@.len() != "tool_permissions"@.len()); }
    assert("persona_style"@ != "tool_permissions"@) by { assert("persona_style"@.len() != "tool_permissions"@.len()); }
    assert("goals"@ != "tool_permissions"@) by { assert("goals"@.len() != "tool_permissions"@.len()); }
    assert("tags"@ != "tool_permissions"@) by { assert("tags"@.len() != "tool_permissions"@.len()); }
    assert("version"@ != "max_iterations"@) by { assert("version"@.len() != "max_iterations"@.len()); }
    assert("runtime"@ != "max_iterations"@) by { assert("runtime"@.len() != "max_iterations"@.len()); }
    assert("sandbox"@ != "max_iterations"@) by { assert("sandbox"@.len() != "max_iterations"@.len()); }
    assert("has_system_prompt"@ != "max_iterations"@) by { assert("has_system_prompt"@.len() != "max_iterations"@.len()); }
    assert("hand_name"@ != "max_iterations"@) by { assert("hand_name"@.len() != "max_iterations"@.len()); }
    assert("archetype"@ != "max_iterations"@) by { assert("archetype"@.len() != "max_iterations"@.len()); }
    assert("domain"@ != "max_iterations"@) by { assert("domain"@.len() != "max_iterations"@.len()); }
    assert("description"@ != "max_iterations"@) by { assert("description"@.len() != "max_iterations"@.len()); }
    assert("default_model"@ != "max_iterations"@) by { assert("default_model"@.len() != "max_iterations"@.len()); }
    assert("persona_role"@ != "max_iterations"@) by { assert("persona_role"@.len() != "max_iterations"@.len()); }
    assert("persona_style"@ != "max_iterations"@) by { assert("persona_style"@.len() != "max_iterations"@.len()); }
    assert("goals"@ != "max_iterations"@) by { assert("goals"@.len() != "max_iterations"@.len()); }
    assert("tags"@ != "max_iterations"@) by { assert("tags"@.len() != "max_iterations"@.len()); }
    assert("version"@ != "enable_tools"@) by { assert("version"@.len() != "enable_tools"@.len()); }
    assert("runtime"@ != "enable_tools"@) by { assert("runtime"@.len() != "enable_tools"@.len()); }
    assert("sandbox"@ != "enable_tools"@) by { assert("sandbox"@.len() != "enable_tools"@.len()); }
    assert("has_system_prompt"@ != "enable_tools"@) by { assert("has_system_prompt"@.len() != "enable_tools"@.len()); }
    assert("hand_name"@ != "enable_tools"@) by { assert("hand_name"@.len() != "enable_tools"@.len()); }
    assert("archetype"@ != "enable_tools"@) by { assert("archetype"@.len() != "enable_tools"@.len()); }
    assert("domain"@ != "enable_tools"@) by { assert("domain"@.len() != "enable_tools"@.len()); }
    assert("description"@ != "enable_tools"@) by { assert("description"@.len() != "enable_tools"@.len()); }
    assert("default_model"@ != "enable_tools"@) by { assert("default_model"@.len() != "enable_tools"@.len()); }
    assert("persona_role"@ != "enable_tools"@) by { assert("persona_role"@[0] != "enable_tools"@[0]); }
    assert("persona_style"@ != "enable_tools"@) by { assert("persona_style"@.len() != "enable_tools"@.len()); }
    assert("goals"@ != "enable_tools"@) by { assert("goals"@.len() != "enable_tools"@.len()); }
    assert("tags"@ != "enable_tools"@) by { assert("tags"@.len() != "enable_tools"@.len()); }
    assert forall|x: Seq<char>| birth_name(x) implies x != "trust_tier"@ && x != "agent_class"@ && x != "tool_permissions"@
        && x != "max_iterations"@ && x != "enable_tools"@ by {}
    assert forall|i: int| 0 <= i < e.len() implies e[i].0 != "trust_tier"@ by { assert(p(e[i].0)); }
    assert forall|i: int| 0 <= i < e.len() implies e[i].0 != "agent_class"@ by { assert(p(e[i].0)); }
    assert forall|i: int| 0 <= i < e.len() implies e[i].0 != "tool_permissions"@ by { assert(p(e[i].0)); }
    assert forall|i: int| 0 <= i < e.len() implies e[i].0 != "max_iterations"@ by { assert(p(e[i].0)); }
    assert forall|i: int| 0 <= i < e.len() implies e[i].0 != "enable_tools"@ by { assert(p(e[i].0)); }
    crate::json::lemma_member_absent(e, "trust_tier"@);
    crate::json::lemma_member_absent(e, "agent_class"@);
    crate::json::lemma_member_absent(e, "tool_permissions"@);
    crate::json::lemma_member_absent(e, "max_iterations"@);
    crate::json::lemma_member_absent(e, "enable_tools"@);
}

} // verus!
