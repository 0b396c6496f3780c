//! HAND manifests: who a shipped body claims to be.
//!
//! Each body has a `hands/<name>/` directory with `HAND.toml` (identity,
//! persona, runtime hints), a system prompt and a role card. The manifest's
//! claims are sent to AMS at birth; what the body may do is granted by AMS.

use vstd::prelude::*;
use crate::json::{Json, JsonV, jtext};
use crate::agent::runtime::worker::entry;

verus! {

/// A parsed HAND.toml manifest.
#[derive(Debug)]
pub struct HandManifest {
    pub schema_version: String,
    pub hand: HandIdentity,
    pub matching: Option<HandMatching>,
    pub runtime: Option<HandRuntime>,
    pub persona: Option<HandPersona>,
    pub tool_permissions: Vec<String>,
    pub goals: Vec<String>,
    pub tags: Vec<String>,
}

/// The body's identity.
#[derive(Debug)]
pub struct HandIdentity {
    pub name: String,
    pub agent_id: String,
    pub description: String,
    pub persona: String,
    pub archetype: String,
    pub domain: String,
    pub primary_use: String,
    pub skill_file: String,
    pub system_prompt_file: String,
    pub default_model: String,
    pub launcher_group: String,
}

/// How the body is matched to a seeded agent.
#[derive(Debug)]
pub struct HandMatching {
    pub strategy: String,
    pub requires_seeded_head: bool,
    pub seed_name: String,
    pub notes: String,
}

/// Runtime hints (AMS grants override them).
#[derive(Debug)]
pub struct HandRuntime {
    pub agent_class: String,
    pub trust_tier: u8,
    pub enable_tools: bool,
    pub max_iterations: u32,
    pub operating_mode: String,
}

/// The body's persona.
#[derive(Debug)]
pub struct HandPersona {
    pub role: String,
    pub style: String,
    pub focus: String,
}

/// A loaded hand: its manifest, its directory and its system prompt.
#[derive(Debug)]
pub struct LoadedHand {
    pub manifest: HandManifest,
    pub dir: String,
    pub system_prompt: Option<String>,
}

/// The system prompt's file name: the manifest's, or `system_prompt.md`
/// when it names none.
pub open spec fn prompt_file(m: HandManifest) -> Seq<char> {
    if m.hand.system_prompt_file@.len() == 0 { "system_prompt.md"@ } else { m.hand.system_prompt_file@ }
}

/// The system prompt's file name within the hand's directory.
pub fn system_prompt_filename(manifest: &HandManifest) -> (r: &str)
    ensures
        r@ == prompt_file(*manifest),
{
    if manifest.hand.system_prompt_file.as_str().is_empty() {
        "system_prompt.md"
    } else {
        manifest.hand.system_prompt_file.as_str()
    }
}

/// A list of strings as a JSON array.
pub open spec fn text_array(v: Seq<String>) -> JsonV {
    JsonV::Array(Seq::new(v.len(), |i: int| jtext(v[i]@)))
}

fn strings_json(v: &Vec<String>) -> (r: Json)
    ensures
        r@ == text_array(v@),
{
    let mut out: Vec<Json> = Vec::new();
    let mut i: usize = 0;
    while i < v.len()
        invariant
            i <= v@.len(),
            out@.len() == i,
            forall|j: int| 0 <= j < i ==> out@[j]@ == jtext(v@[j]@),
        decreases v@.len() - i,
    {
        out.push(Json::text(v[i].as_str()));
        i = i + 1;
    }
    let r = Json::Array(out);
    assert(r@->Array_0 =~= text_array(v@)->Array_0);
    r
}

/// The identity claims a body sends to AMS: name, archetype, domain,
/// description and default model; the persona's role and style when there is
/// a persona; goals and tags when there are any. Trust tier, agent class,
/// tool permissions, iteration limits and tool switches are never claimed:
/// AMS grants them.
pub open spec fn ams_claims(m: HandManifest) -> JsonV {
    let base = seq![
        ("hand_name"@, jtext(m.hand.name@)),
        ("archetype"@, jtext(m.hand.archetype@)),
        ("domain"@, jtext(m.hand.domain@)),
        ("description"@, jtext(m.hand.description@)),
        ("default_model"@, jtext(m.hand.default_model@)),
    ];
    let with_persona = match m.persona {
        Some(p) => base + seq![("persona_role"@, jtext(p.role@)), ("persona_style"@, jtext(p.style@))],
        None => base,
    };
    let with_goals = if m.goals@.len() > 0 {
        with_persona + seq![("goals"@, text_array(m.goals@))]
    } else {
        with_persona
    };
    let with_tags = if m.tags@.len() > 0 { with_goals + seq![("tags"@, text_array(m.tags@))] } else { with_goals };
    JsonV::Object(with_tags)
}

impl LoadedHand {
    /// Identity claims for AMS at birth and heartbeat (see [`ams_claims`]).
    pub fn to_ams_claims(&self) -> (r: Json)
        ensures
            r@ == ams_claims(self.manifest),
    {
        let hand = &self.manifest.hand;
        let mut v: Vec<(String, Json)> = Vec::new();
        v.push(entry("hand_name", Json::text(hand.name.as_str())));
        v.push(entry("archetype", Json::text(hand.archetype.as_str())));
        v.push(entry("domain", Json::text(hand.domain.as_str())));
        v.push(entry("description", Json::text(hand.description.as_str())));
        v.push(entry("default_model", Json::text(hand.default_model.as_str())));
        if let Some(persona) = &self.manifest.persona {
            v.push(entry("persona_role", Json::text(persona.role.as_str())));
            v.push(entry("persona_style", Json::text(persona.style.as_str())));
        }
        if self.manifest.goals.len() > 0 {
            v.push(entry("goals", strings_json(&self.manifest.goals)));
        }
        if self.manifest.tags.len() > 0 {
            v.push(entry("tags", strings_json(&self.manifest.tags)));
        }
        let r = Json::Object(v);
        assert(r@->Object_0 =~= ams_claims(self.manifest)->Object_0);
        r
    }
}

/// The names a body may claim.
pub open spec fn claim_name(k: Seq<char>) -> bool {
    k == "hand_name"@ || k == "archetype"@ || k == "domain"@ || k == "description"@ || k == "default_model"@
        || k == "persona_role"@ || k == "persona_style"@ || k == "goals"@ || k == "tags"@
}

/// Law: a body only ever claims who it is. Its claims name nothing but its
/// identity, persona, goals and tags, so they never carry a trust tier, an
/// agent class, tool permissions, an iteration limit or a tool switch:
/// those are granted by AMS.
pub proof fn law_claims_are_not_grants(m: HandManifest)
    ensures
        forall|i: int| 0 <= i < ams_claims(m)->Object_0.len() ==> claim_name(#[trigger] ams_claims(m)->Object_0[i].0),
        crate::json::jget(ams_claims(m), "trust_tier"@) is None,
        crate::json::jget(ams_claims(m), "agent_class"@) is None,
        crate::json::jget(ams_claims(m), "tool_permissions"@) is None,
        crate::json::jget(ams_claims(m), "max_iterations"@) is None,
        crate::json::jget(ams_claims(m), "enable_tools"@) is None,
{
    let e = ams_claims(m)->Object_0;
    assert forall|i: int| 0 <= i < e.len() implies claim_name(#[trigger] e[i].0) by {}
    reveal_strlit("hand_name");
    reveal_strlit("archetype");
    reveal_strlit("domain");
    reveal_strlit("description");
    reveal_strlit("default_model");
    reveal_strlit("persona_role");
    reveal_strlit("persona_style");
    reveal_strlit("goals");
    reveal_strlit("tags");
    reveal_strlit("trust_tier");
    reveal_strlit("agent_class");
    reveal_strlit("tool_permissions");
    reveal_strlit("max_iterations");
    reveal_strlit("enable_tools");
    assert("hand_name"@ != "trust_tier"@) by { assert("hand_name"@.len() != "trust_tier"@.len()); }
    assert("archetype"@ != "trust_tier"@) by { assert("archetype"@.len() != "trust_tier"@.len()); }
    assert("domain"@ != "trust_tier"@) by { assert("domain"@.len() != "trust_tier"@.len()); }
    assert("description"@ != "trust_tier"@) by { assert("description"@.len() != "trust_tier"@.len()); }
    assert("default_model"@ != "trust_tier"@) by { assert("default_model"@.len() != "trust_tier"@.len()); }
    assert("persona_role"@ != "trust_tier"@) by { assert("persona_role"@.len() != "trust_tier"@.len()); }
    assert("persona_style"@ != "trust_tier"@) by { assert("persona_style"@.len() != "trust_tier"@.len()); }
    assert("goals"@ != "trust_tier"@) by { assert("goals"@.len() != "trust_tier"@.len()); }
    assert("tags"@ != "trust_tier"@) by { assert("tags"@.len() != "trust_tier"@.len()); }
    assert forall|k: int| 0 <= k < e.len() implies e[k].0 != "trust_tier"@ by { assert(claim_name(e[k].0)); }
    assert("hand_name"@ != "agent_class"@) by { assert("hand_name"@.len() != "agent_class"@.len()); }
    assert("archetype"@ != "agent_class"@) by { assert("archetype"@.len() != "agent_class"@.len()); }
    assert("domain"@ != "agent_class"@) by { assert("domain"@.len() != "agent_class"@.len()); }
    assert("description"@ != "agent_class"@) by { assert("description"@[0] != "agent_class"@[0]); }
    assert("default_model"@ != "agent_class"@) by { assert("default_model"@.len() != "agent_class"@.len()); }
    assert("persona_role"@ != "agent_class"@) by { assert("persona_role"@.len() != "agent_class"@.len()); }
    assert("persona_style"@ != "agent_class"@) by { assert("persona_style"@.len() != "agent_class"@.len()); }
    assert("goals"@ != "agent_class"@) by { assert("goals"@.len() != "agent_class"@.len()); }
    assert("tags"@ != "agent_class"@) by { assert("tags"@.len() != "agent_class"@.len()); }
    assert forall|k: int| 0 <= k < e.len() implies e[k].0 != "agent_class"@ by { assert(claim_name(e[k].0)); }
    assert("hand_name"@ != "tool_permissions"@) by { assert("hand_name"@.len() != "tool_permissions"@.len()); }
    assert("archetype"@ != "tool_permissions"@) by { assert("archetype"@.len() != "tool_permissions"@.len()); }
    assert("domain"@ != "tool_permissions"@) by { assert("domain"@.len() != "tool_permissions"@.len()); }
    assert("description"@ != "tool_permissions"@) by { assert("description"@.len() != "tool_permissions"@.len()); }
    assert("default_model"@ != "tool_permissions"@) by { assert("default_model"@.len() != "tool_permissions"@.len()); }
    assert("persona_role"@ != "tool_permissions"@) by { assert("persona_role"@.len() != "tool_permissions"@.len()); }
    assert("persona_style"@ != "tool_permissions"@) by { assert("persona_style"@.len() != "tool_permissions"@.len()); }
    assert("goals"@ != "tool_permissions"@) by { assert("goals"@.len() != "tool_permissions"@.len()); }
    assert("tags"@ != "tool_permissions"@) by { assert("tags"@.len() != "tool_permissions"@.len()); }
    assert forall|k: int| 0 <= k < e.len() implies e[k].0 != "tool_permissions"@ by { assert(claim_name(e[k].0)); }
    assert("hand_name"@ != "max_iterations"@) by { assert("hand_name"@.len() != "max_iterations"@.len()); }
    assert("archetype"@ != "max_iterations"@) by { assert("archetype"@.len() != "max_iterations"@.len()); }
    assert("domain"@ != "max_iterations"@) by { assert("domain"@.len() != "max_iterations"@.len()); }
    assert("description"@ != "max_iterations"@) by { assert("description"@.len() != "max_iterations"@.len()); }
    assert("default_model"@ != "max_iterations"@) by { assert("default_model"@.len() != "max_iterations"@.len()); }
    assert("persona_role"@ != "max_iterations"@) by { assert("persona_role"@.len() != "max_iterations"@.len()); }
    assert("persona_style"@ != "max_iterations"@) by { assert("persona_style"@.len() != "max_iterations"@.len()); }
    assert("goals"@ != "max_iterations"@) by { assert("goals"@.len() != "max_iterations"@.len()); }
    assert("tags"@ != "max_iterations"@) by { assert("tags"@.len() != "max_iterations"@.len()); }
    assert forall|k: int| 0 <= k < e.len() implies e[k].0 != "max_iterations"@ by { assert(claim_name(e[k].0)); }
    assert("hand_name"@ != "enable_tools"@) by { assert("hand_name"@.len() != "enable_tools"@.len()); }
    assert("archetype"@ != "enable_tools"@) by { assert("archetype"@.len() != "enable_tools"@.len()); }
    assert("domain"@ != "enable_tools"@) by { assert("domain"@.len() != "enable_tools"@.len()); }
    assert("description"@ != "enable_tools"@) by { assert("description"@.len() != "enable_tools"@.len()); }
    assert("default_model"@ != "enable_tools"@) by { assert("default_model"@.len() != "enable_tools"@.len()); }
    assert("persona_role"@ != "enable_tools"@) by { assert("persona_role"@[0] != "enable_tools"@[0]); }
    assert("persona_style"@ != "enable_tools"@) by { assert("persona_style"@.len() != "enable_tools"@.len()); }
    assert("goals"@ != "enable_tools"@) by { assert("goals"@.len() != "enable_tools"@.len()); }
    assert("tags"@ != "enable_tools"@) by { assert("tags"@.len() != "enable_tools"@.len()); }
    assert forall|k: int| 0 <= k < e.len() implies e[k].0 != "enable_tools"@ by { assert(claim_name(e[k].0)); }
    crate::json::lemma_member_absent(e, "trust_tier"@);
    crate::json::lemma_member_absent(e, "agent_class"@);
    crate::json::lemma_member_absent(e, "tool_permissions"@);
    crate::json::lemma_member_absent(e, "max_iterations"@);
    crate::json::lemma_member_absent(e, "enable_tools"@);
}

} // verus!
