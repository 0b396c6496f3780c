//! What a steering message sets in motion: its prompt, the lineage it is
//! registered under, whether the agent works with tools, and where the
//! result rolls up to.

use vstd::prelude::*;
use crate::json::{Json, JsonV, jget, jstr};
use crate::text::{chars_of, string_from_chars, str_eq, to_ascii_lower, ascii_lower_seq, chars_eq};
use crate::llm::kilo::{KiloMode, trim, trim_from};
use crate::config::{KiloConfig, LlmProvider};
use crate::hand::LoadedHand;
use crate::agent::runtime::worker::{first_text_member, keys_view, metadata_string, opt_json_view, opt_view};
use crate::agent::runtime::replies::arg_text_or;

verus! {

/// The prompt of a message: its text trimmed; none when nothing is left.
pub open spec fn steering_prompt(text: Seq<char>) -> Option<Seq<char>> {
    if trim(text).len() == 0 { None } else { Some(trim(text)) }
}

/// The prompt a message asks for, if it asks for anything.
pub fn prompt_of(text: &str) -> (r: Option<String>)
    ensures
        match r {
            Some(p) => steering_prompt(text@) == Some(p@),
            None => steering_prompt(text@) is None,
        },
{
    let c = chars_of(text);
    let t = trim_from(&c, 0);
    assert(c@.skip(0) =~= c@);
    if t.len() == 0 {
        None
    } else {
        Some(string_from_chars(t.as_slice()))
    }
}

/// The lineage an execution is registered under, read from the incoming
/// message's metadata (each the first non-empty string among its keys).
pub struct Lineage {
    pub parent_orchestration_id: Option<String>,
    pub parent_task_id: Option<String>,
    pub parent_execution_id: Option<String>,
    pub trace_id: Option<String>,
    pub span_id: Option<String>,
    pub parent_span_id: Option<String>,
    pub correlation_id: Option<String>,
    pub dispatch_id: Option<String>,
    pub child_agent_id: Option<String>,
    pub specialist_role: Option<String>,
    pub artifact_ref: Option<String>,
}

/// The first non-empty string among `keys` in the metadata (none without
/// metadata).
pub open spec fn meta_text(meta: Option<JsonV>, keys: Seq<Seq<char>>) -> Option<Seq<char>> {
    match meta {
        Some(m) => first_text_member(m, keys),
        None => None,
    }
}

/// An optional string as values.
pub open spec fn ov(o: Option<String>) -> Option<Seq<char>> {
    match o {
        Some(s) => Some(s@),
        None => None,
    }
}

fn lookup(meta: Option<&Json>, keys: &[&str]) -> (r: Option<String>)
    ensures
        ov(r) == meta_text(opt_json_view(meta), keys_view(keys@)),
{
    metadata_string(meta, keys)
}

/// Reads the lineage: the parent execution from `parent_execution_id` or
/// `parent_exec_id`, the correlation from `correlation_id` or
/// `dispatch_id` (and the dispatch id the other way round), the specialist
/// role from `specialist_role` or `child_agent_id`; the rest by their names.
pub fn execution_lineage(meta: Option<&Json>) -> (r: Lineage)
    ensures
        ov(r.parent_orchestration_id) == meta_text(opt_json_view(meta), seq!["parent_orchestration_id"@]),
        ov(r.parent_task_id) == meta_text(opt_json_view(meta), seq!["parent_task_id"@]),
        ov(r.parent_execution_id) == meta_text(opt_json_view(meta), seq!["parent_execution_id"@, "parent_exec_id"@]),
        ov(r.trace_id) == meta_text(opt_json_view(meta), seq!["trace_id"@]),
        ov(r.span_id) == meta_text(opt_json_view(meta), seq!["span_id"@]),
        ov(r.parent_span_id) == meta_text(opt_json_view(meta), seq!["parent_span_id"@]),
        ov(r.correlation_id) == meta_text(opt_json_view(meta), seq!["correlation_id"@, "dispatch_id"@]),
        ov(r.dispatch_id) == meta_text(opt_json_view(meta), seq!["dispatch_id"@, "correlation_id"@]),
        ov(r.child_agent_id) == meta_text(opt_json_view(meta), seq!["child_agent_id"@]),
        ov(r.specialist_role) == meta_text(opt_json_view(meta), seq!["specialist_role"@, "child_agent_id"@]),
        ov(r.artifact_ref) == meta_text(opt_json_view(meta), seq!["artifact_ref"@]),
{
    let k1: [&str; 1] = ["parent_orchestration_id"];
    assert(keys_view(k1@) =~= seq!["parent_orchestration_id"@]);
    let k2: [&str; 1] = ["parent_task_id"];
    assert(keys_view(k2@) =~= seq!["parent_task_id"@]);
    let k3: [&str; 2] = ["parent_execution_id", "parent_exec_id"];
    assert(keys_view(k3@) =~= seq!["parent_execution_id"@, "parent_exec_id"@]);
    let k4: [&str; 1] = ["trace_id"];
    assert(keys_view(k4@) =~= seq!["trace_id"@]);
    let k5: [&str; 1] = ["span_id"];
    assert(keys_view(k5@) =~= seq!["span_id"@]);
    let k6: [&str; 1] = ["parent_span_id"];
    assert(keys_view(k6@) =~= seq!["parent_span_id"@]);
    let k7: [&str; 2] = ["correlation_id", "dispatch_id"];
    assert(keys_view(k7@) =~= seq!["correlation_id"@, "dispatch_id"@]);
    let k8: [&str; 2] = ["dispatch_id", "correlation_id"];
    assert(keys_view(k8@) =~= seq!["dispatch_id"@, "correlation_id"@]);
    let k9: [&str; 1] = ["child_agent_id"];
    assert(keys_view(k9@) =~= seq!["child_agent_id"@]);
    let k10: [&str; 2] = ["specialist_role", "child_agent_id"];
    assert(keys_view(k10@) =~= seq!["specialist_role"@, "child_agent_id"@]);
    let k11: [&str; 1] = ["artifact_ref"];
    assert(keys_view(k11@) =~= seq!["artifact_ref"@]);
    Lineage {
        parent_orchestration_id: lookup(meta, &k1),
        parent_task_id: lookup(meta, &k2),
        parent_execution_id: lookup(meta, &k3),
        trace_id: lookup(meta, &k4),
        span_id: lookup(meta, &k5),
        parent_span_id: lookup(meta, &k6),
        correlation_id: lookup(meta, &k7),
        dispatch_id: lookup(meta, &k8),
        child_agent_id: lookup(meta, &k9),
        specialist_role: lookup(meta, &k10),
        artifact_ref: lookup(meta, &k11),
    }
}

/// Whether an `AUTOMATON_ENABLE_TOOLS` value turns tools on: `1`, `true`,
/// `yes` or `on`, in any ASCII case.
pub open spec fn env_enables(v: Seq<char>) -> bool {
    let l = ascii_lower_seq(v);
    l == "1"@ || l == "true"@ || l == "yes"@ || l == "on"@
}

/// Tools are on when the environment asks for them, when the hand's
/// archetype is `team-lead` or `orchestrator`, or when AMS granted them.
pub open spec fn tools_on(env: Option<Seq<char>>, archetype: Seq<char>, granted: bool) -> bool {
    (env matches Some(v) && env_enables(v)) || archetype == "team-lead"@ || archetype == "orchestrator"@ || granted
}

fn is_word(v: &Vec<char>, lit: &str) -> (r: bool)
    ensures
        r == (v@ == lit@),
{
    let l = chars_of(lit);
    chars_eq(v.as_slice(), l.as_slice())
}

/// Whether this activation runs the tool loop.
pub fn tools_enabled(env: Option<&str>, archetype: &str, granted: bool) -> (r: bool)
    ensures
        r == tools_on(opt_view(env), archetype@, granted),
{
    let env_on = match env {
        Some(v) => {
            let l = to_ascii_lower(v);
            is_word(&l, "1") || is_word(&l, "true") || is_word(&l, "yes") || is_word(&l, "on")
        },
        None => false,
    };
    env_on || str_eq(archetype, "team-lead") || str_eq(archetype, "orchestrator") || granted
}


/// Law: team leads and orchestrators always run the tool loop, whatever the
/// environment says and whether or not AMS granted tools; an AMS grant
/// turns tools on for any hand; and with no environment setting and no
/// grant, every other archetype runs without tools.
pub proof fn law_tools_follow_archetype_and_grant(env: Option<Seq<char>>, archetype: Seq<char>, granted: bool)
    ensures
        tools_on(env, "orchestrator"@, granted),
        tools_on(env, "team-lead"@, granted),
        tools_on(env, archetype, true),
        env is None && !granted && archetype != "team-lead"@ && archetype != "orchestrator"@
            ==> !tools_on(env, archetype, granted),
{
}

/// The hand's archetype, or empty without a hand.
pub open spec fn archetype_of(hand: Option<LoadedHand>) -> Seq<char> {
    match hand {
        Some(h) => h.manifest.hand.archetype@,
        None => Seq::empty(),
    }
}

/// The hand's archetype (empty without a hand).
pub fn archetype(hand: Option<&LoadedHand>) -> (r: &str)
    ensures
        r@ == archetype_of(match hand { Some(h) => Some(*h), None => None }),
{
    match hand {
        Some(h) => h.manifest.hand.archetype.as_str(),
        None => {
            proof {
                reveal_strlit("");
            }
            ""
        },
    }
}

/// What an activation works from: its prompt, the parent to roll the
/// result up to (agent and execution), and the dashboard chat session.
pub struct Activation {
    pub prompt: String,
    pub rollup_target: Option<(String, String)>,
    pub chat_session_id: Option<String>,
}

/// A metadata member's string value.
pub open spec fn meta_str(meta: Option<JsonV>, key: Seq<char>) -> Option<Seq<char>> {
    match meta {
        Some(m) => jstr(jget(m, key)),
        None => None,
    }
}

/// The prompt of a rollup arriving from a team lead.
pub open spec fn rollup_prompt(child_agent: Seq<char>, child_exec: Seq<char>, memory_id: Seq<char>, prompt: Seq<char>) -> Seq<char> {
    "[rollup from team-lead "@ + child_agent + ", exec "@ + child_exec + ", memory "@ + memory_id + "]\n\n"@
        + prompt + "\n\nSynthesize this result for the user."@
}

/// `Some(x)`'s value, or `d`.
pub open spec fn or_default(o: Option<Seq<char>>, d: Seq<char>) -> Seq<char> {
    match o {
        Some(x) => x,
        None => d,
    }
}

/// The activation a message of `msg_type` sets up. A `task` carries a
/// rollup target when its metadata names both the parent agent and its
/// execution. A `rollup` is the end of the line: its prompt is framed as a
/// team lead's result to synthesize for the user. Any type keeps the chat
/// session it names.
pub open spec fn activation(msg_type: Seq<char>, sender: Seq<char>, meta: Option<JsonV>, prompt: Seq<char>) -> (Seq<char>, Option<(Seq<char>, Seq<char>)>, Option<Seq<char>>) {
    let chat = meta_str(meta, "chat_session_id"@);
    if msg_type == "task"@ {
        let target = match (meta_str(meta, "parent_agent_id"@), meta_str(meta, "parent_exec_id"@)) {
            (Some(a), Some(e)) => Some((a, e)),
            _ => None,
        };
        (prompt, target, chat)
    } else if msg_type == "rollup"@ {
        (rollup_prompt(
            or_default(meta_str(meta, "child_agent_id"@), sender),
            or_default(meta_str(meta, "child_exec_id"@), Seq::empty()),
            or_default(meta_str(meta, "memory_id"@), Seq::empty()),
            prompt,
        ), None, chat)
    } else {
        (prompt, None, chat)
    }
}

fn meta_member<'a>(meta: Option<&'a Json>, key: &str) -> (r: Option<&'a str>)
    ensures
        opt_view(r) == meta_str(opt_json_view(meta), key@),
{
    match meta {
        Some(m) => match m.get(key) {
            Some(v) => v.as_str(),
            None => None,
        },
        None => None,
    }
}

/// Sets up the activation of a message.
pub fn activation_for(msg_type: &str, sender: &str, meta: Option<&Json>, prompt: String) -> (r: Activation)
    ensures
        (r.prompt@, match r.rollup_target { Some(t) => Some((t.0@, t.1@)), None => None }, ov(r.chat_session_id))
            == activation(msg_type@, sender@, opt_json_view(meta), prompt@),
{
    let chat = match meta_member(meta, "chat_session_id") {
        Some(c) => Some(c.to_string()),
        None => None,
    };
    if str_eq(msg_type, "task") {
        let target = match (meta_member(meta, "parent_agent_id"), meta_member(meta, "parent_exec_id")) {
            (Some(a), Some(e)) => Some((a.to_string(), e.to_string())),
            _ => None,
        };
        Activation { prompt, rollup_target: target, chat_session_id: chat }
    } else if str_eq(msg_type, "rollup") {
        let empty = "";
        proof {
            reveal_strlit("");
        }
        let child_agent = match meta_member(meta, "child_agent_id") {
            Some(a) => a,
            None => sender,
        };
        let child_exec = match meta_member(meta, "child_exec_id") {
            Some(e) => e,
            None => empty,
        };
        let memory_id = match meta_member(meta, "memory_id") {
            Some(m) => m,
            None => empty,
        };
        let mut p = "[rollup from team-lead ".to_string();
        p.append(child_agent);
        p.append(", exec ");
        p.append(child_exec);
        p.append(", memory ");
        p.append(memory_id);
        p.append("]\n\n");
        p.append(prompt.as_str());
        p.append("\n\nSynthesize this result for the user.");
        Activation { prompt: p, rollup_target: None, chat_session_id: chat }
    } else {
        Activation { prompt, rollup_target: None, chat_session_id: chat }
    }
}

/// The model this agent asks for: the hand's default model when set
/// (trimmed), else `kilo` or `ams-agent` by provider.
pub open spec fn model_request(hand_model: Option<Seq<char>>, provider: LlmProvider) -> Seq<char> {
    match hand_model {
        Some(m) if trim(m).len() > 0 => trim(m),
        _ => match provider {
            LlmProvider::Kilo => "kilo"@,
            LlmProvider::Direct => "ams-agent"@,
        },
    }
}

/// The model to request.
pub fn requested_model(hand: Option<&LoadedHand>, provider: LlmProvider) -> (r: String)
    ensures
        r@ == model_request(match hand { Some(h) => Some(h.manifest.hand.default_model@), None => None }, provider),
{
    if let Some(h) = hand {
        let c = chars_of(h.manifest.hand.default_model.as_str());
        let t = trim_from(&c, 0);
        assert(c@.skip(0) =~= c@);
        if t.len() > 0 {
            return string_from_chars(t.as_slice());
        }
    }
    match provider {
        LlmProvider::Kilo => "kilo".to_string(),
        LlmProvider::Direct => "ams-agent".to_string(),
    }
}

/// The Kilo mode a configured name selects (`code` for anything unknown,
/// and when there is no Kilo configuration).
pub open spec fn mode_named(name: Seq<char>) -> KiloMode {
    if name == "architect"@ {
        KiloMode::Architect
    } else if name == "debug"@ {
        KiloMode::Debug
    } else if name == "ask"@ {
        KiloMode::Ask
    } else if name == "orchestrator"@ {
        KiloMode::Orchestrator
    } else {
        KiloMode::Code
    }
}

/// The Kilo mode to run in.
pub fn kilo_mode(kilo: Option<&KiloConfig>) -> (r: KiloMode)
    ensures
        r == mode_named(match kilo { Some(k) => k.default_mode@, None => "code"@ }),
{
    let raw = match kilo {
        Some(k) => k.default_mode.as_str(),
        None => "code",
    };
    if str_eq(raw, "architect") {
        KiloMode::Architect
    } else if str_eq(raw, "debug") {
        KiloMode::Debug
    } else if str_eq(raw, "ask") {
        KiloMode::Ask
    } else if str_eq(raw, "orchestrator") {
        KiloMode::Orchestrator
    } else {
        proof {
            reveal_strlit("code");
            reveal_strlit("architect");
        }
        KiloMode::Code
    }
}

/// The Kilo binary to look for: the configured one, else `kilo`.
pub fn kilo_binary(kilo: Option<&KiloConfig>) -> (r: String)
    ensures
        r@ == match kilo { Some(k) => k.binary@, None => "kilo"@ },
{
    match kilo {
        Some(k) => k.binary.clone(),
        None => "kilo".to_string(),
    }
}

/// The prompt handed to Kilo: the system prompt, then the user's request.
pub open spec fn kilo_prompt(system: Option<Seq<char>>, prompt: Seq<char>) -> Seq<char> {
    match system {
        Some(s) => s + "\n\nUser request:\n"@ + prompt,
        None => prompt,
    }
}

/// Builds the prompt handed to Kilo.
pub fn kilo_prompt_text(system: Option<&str>, prompt: &str) -> (r: String)
    ensures
        r@ == kilo_prompt(opt_view(system), prompt@),
{
    match system {
        Some(s) => {
            let mut r = s.to_string();
            r.append("\n\nUser request:\n");
            r.append(prompt);
            r
        },
        None => prompt.to_string(),
    }
}

/// Which tool set an archetype gets.
#[derive(Clone, Copy, Debug, PartialEq, Eq)]
pub enum Toolset {
    TeamLead,
    Orchestrator,
    McpBridge,
}

/// The tool set of an archetype: team leads and orchestrators get theirs;
/// everyone else the MCP bridge.
pub open spec fn toolset_of(archetype: Seq<char>) -> Toolset {
    if archetype == "team-lead"@ {
        Toolset::TeamLead
    } else if archetype == "orchestrator"@ {
        Toolset::Orchestrator
    } else {
        Toolset::McpBridge
    }
}

/// Chooses the tool set.
pub fn toolset_for(archetype: &str) -> (r: Toolset)
    ensures
        r == toolset_of(archetype@),
{
    if str_eq(archetype, "team-lead") {
        Toolset::TeamLead
    } else if str_eq(archetype, "orchestrator") {
        Toolset::Orchestrator
    } else {
        Toolset::McpBridge
    }
}

/// The Kilo bridge to generate with: only when the provider is Kilo and its
/// binary was found (an absolute path that exists, or a name on the `PATH`;
/// the caller looks).
pub fn kilo_bridge_for(provider: LlmProvider, binary: String, found: bool) -> (r: Option<crate::llm::kilo::KiloBridge>)
    ensures
        r is Some <==> (provider == LlmProvider::Kilo && found),
        r matches Some(b) ==> b.path() == binary@,
{
    match provider {
        LlmProvider::Kilo => {
            if found {
                Some(crate::llm::kilo::KiloBridge::new(Some(binary)))
            } else {
                None
            }
        },
        LlmProvider::Direct => None,
    }
}

} // verus!
