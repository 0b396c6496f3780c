//! The tool-use loop: the conversation with the model, the calls it asks
//! for, and what is reported and stored when the loop ends.
//!
//! The caller performs each model call and each tool call; the loop decides
//! what is sent next, when it is over, and what the result is.

use vstd::prelude::*;
use crate::json::{Json, JsonV, jget, jstr, jtext, or_else};
use crate::text::str_eq;
use crate::llm::kilo::{trim, trim_from};
use crate::text::chars_of;
use crate::agent::runtime::worker::{entry, opt_view, rollup_summary, summarize_rollup_text};
use crate::agent::runtime::replies::{arg_text_or, res_view, strings_view};
use crate::agent::runtime::toolsets::defs_view;
use crate::agent::runtime::schema::{members_view, object};

verus! {

/// The most model calls one activation makes.
pub const MAX_TOOL_ITERATIONS: u32 = 12;

/// What the model answered in one turn of the loop.
pub struct ToolCompletion {
    pub text: String,
    pub input_tokens: u64,
    pub output_tokens: u64,
    pub tool_calls: Vec<Json>,
    pub finish_reason: String,
}

/// A tool call to perform: its id, the function's name and the arguments
/// as the model wrote them (JSON text, parsed by the caller; text that does
/// not parse stands for `null`).
pub struct PlannedCall {
    pub id: String,
    pub name: String,
    pub arguments_text: String,
}

/// `{"role": role, "content": text}`.
pub open spec fn chat_message(role: Seq<char>, content: Seq<char>) -> JsonV {
    JsonV::Object(seq![("role"@, jtext(role)), ("content"@, jtext(content))])
}

fn chat_message_json(role: &str, content: &str) -> (r: Json)
    ensures
        r@ == chat_message(role@, content@),
{
    let mut v: Vec<(String, Json)> = Vec::new();
    v.push(entry("role", Json::text(role)));
    v.push(entry("content", Json::text(content)));
    let r = Json::Object(v);
    assert(r@->Object_0 =~= chat_message(role@, content@)->Object_0);
    r
}

/// The opening of the conversation: the system prompt when there is one,
/// then the user's prompt.
pub open spec fn opening(system: Option<Seq<char>>, prompt: Seq<char>) -> Seq<JsonV> {
    match system {
        Some(s) => seq![chat_message("system"@, s), chat_message("user"@, prompt)],
        None => seq![chat_message("user"@, prompt)],
    }
}

/// The assistant turn that asked for tools: its text (`null` when empty)
/// and the calls.
pub open spec fn assistant_turn(text: Seq<char>, calls: Seq<JsonV>) -> JsonV {
    JsonV::Object(seq![
        ("role"@, jtext("assistant"@)),
        ("content"@, if text.len() == 0 { JsonV::Null } else { jtext(text) }),
        ("tool_calls"@, JsonV::Array(calls)),
    ])
}

/// The message that hands a tool's result back to the model.
pub open spec fn tool_turn(call_id: Seq<char>, result: Seq<char>) -> JsonV {
    JsonV::Object(seq![
        ("role"@, jtext("tool"@)),
        ("tool_call_id"@, jtext(call_id)),
        ("content"@, jtext(result)),
    ])
}

/// A call's id (empty when missing), function name (empty when missing)
/// and arguments text (`{}` when missing).
pub open spec fn planned(call: JsonV) -> (Seq<char>, Seq<char>, Seq<char>) {
    let func = match jget(call, "function"@) {
        Some(f) => f,
        None => JsonV::Null,
    };
    (
        arg_text_or(call, "id"@, Seq::empty()),
        arg_text_or(func, "name"@, Seq::empty()),
        arg_text_or(func, "arguments"@, "{}"@),
    )
}

/// Planned calls as values.
pub open spec fn plans_view(v: Seq<PlannedCall>) -> Seq<(Seq<char>, Seq<char>, Seq<char>)> {
    Seq::new(v.len(), |i: int| (v[i].id@, v[i].name@, v[i].arguments_text@))
}

/// Adding that saturates at the largest count.
pub open spec fn sat_add(a: u64, b: u64) -> u64 {
    if a + b > u64::MAX { u64::MAX } else { (a + b) as u64 }
}

/// The tool loop's state.
pub struct ToolLoop {
    pub messages: Vec<Json>,
    pub iterations: u32,
    pub total_in: u64,
    pub total_out: u64,
    pub final_text: String,
    pub finished: bool,
}

fn plan_call(call: &Json) -> (r: PlannedCall)
    ensures
        (r.id@, r.name@, r.arguments_text@) == planned(call@),
{
    let empty = "";
    proof {
        reveal_strlit("");
    }
    let null = Json::Null;
    let func: &Json = match call.get("function") {
        Some(f) => f,
        None => &null,
    };
    let id = crate::agent::runtime::replies::arg_str_or(call, "id", empty);
    let name = crate::agent::runtime::replies::arg_str_or(func, "name", empty);
    let args = crate::agent::runtime::replies::arg_str_or(func, "arguments", "{}");
    PlannedCall { id: id.to_string(), name: name.to_string(), arguments_text: args.to_string() }
}

impl ToolLoop {
    /// Starts the conversation.
    pub fn start(system: Option<&str>, prompt: &str) -> (r: Self)
        ensures
            defs_view(r.messages@) == opening(opt_view(system), prompt@),
            r.iterations == 0,
            r.total_in == 0,
            r.total_out == 0,
            r.final_text@.len() == 0,
            !r.finished,
    {
        let mut messages: Vec<Json> = Vec::new();
        if let Some(s) = system {
            messages.push(chat_message_json("system", s));
        }
        messages.push(chat_message_json("user", prompt));
        assert(defs_view(messages@) =~= opening(opt_view(system), prompt@));
        ToolLoop { messages, iterations: 0, total_in: 0, total_out: 0, final_text: String::new(), finished: false }
    }

    /// Whether another model call is due: the loop has not finished and
    /// has made fewer than [`MAX_TOOL_ITERATIONS`] calls.
    pub open spec fn running(&self) -> bool {
        !self.finished && self.iterations < 12
    }

    /// Whether another model call is due.
    pub fn can_continue(&self) -> (r: bool)
        ensures
            r == self.running(),
    {
        !self.finished && self.iterations < MAX_TOOL_ITERATIONS
    }

    /// Takes in the model's answer. Its tokens are added to the totals. An
    /// answer without tool calls, or one that says it stopped, ends the loop
    /// with its text. Otherwise the assistant turn is recorded and the calls
    /// to perform are returned, in order.
    pub fn on_reply(&mut self, reply: ToolCompletion) -> (r: Vec<PlannedCall>)
        requires
            old(self).running(),
        ensures
            final(self).iterations == old(self).iterations + 1,
            final(self).total_in == sat_add(old(self).total_in, reply.input_tokens),
            final(self).total_out == sat_add(old(self).total_out, reply.output_tokens),
            (reply.tool_calls@.len() == 0 || reply.finish_reason@ == "stop"@) ==> (
                final(self).finished && final(self).final_text@ == reply.text@ && r@.len() == 0
                && final(self).messages@ == old(self).messages@),
            !(reply.tool_calls@.len() == 0 || reply.finish_reason@ == "stop"@) ==> (
                !final(self).finished && final(self).final_text@ == old(self).final_text@
                && defs_view(final(self).messages@) == defs_view(old(self).messages@).push(
                    assistant_turn(reply.text@, defs_view(reply.tool_calls@)))
                && plans_view(r@) == Seq::new(reply.tool_calls@.len(), |i: int| planned(reply.tool_calls@[i]@))),
    {
        self.iterations = self.iterations + 1;
        self.total_in = self.total_in.saturating_add(reply.input_tokens);
        self.total_out = self.total_out.saturating_add(reply.output_tokens);
        if reply.tool_calls.len() == 0 || str_eq(reply.finish_reason.as_str(), "stop") {
            self.final_text = reply.text;
            self.finished = true;
            return Vec::new();
        }
        let mut plans: Vec<PlannedCall> = Vec::new();
        let mut i: usize = 0;
        while i < reply.tool_calls.len()
            invariant
                i <= reply.tool_calls@.len(),
                plans@.len() == i,
                forall|k: int| 0 <= k < i ==> ((#[trigger] plans@[k]).id@, plans@[k].name@, plans@[k].arguments_text@) == planned(reply.tool_calls@[k]@),
            decreases reply.tool_calls@.len() - i,
        {
            let p = plan_call(&reply.tool_calls[i]);
            plans.push(p);
            i = i + 1;
        }
        assert(plans_view(plans@) =~= Seq::new(reply.tool_calls@.len(), |k: int| planned(reply.tool_calls@[k]@)));
        let ghost calls = defs_view(reply.tool_calls@);
        let ghost text = reply.text@;
        let content = if reply.text.as_str().is_empty() { Json::Null } else { Json::text(reply.text.as_str()) };
        let calls_json = Json::Array(reply.tool_calls);
        assert(calls_json@->Array_0 =~= calls);
        let mut v: Vec<(String, Json)> = Vec::new();
        v.push(entry("role", Json::text("assistant")));
        v.push(entry("content", content));
        v.push(entry("tool_calls", calls_json));
        let turn = Json::Object(v);
        assert(turn@->Object_0 =~= assistant_turn(text, calls)->Object_0);
        let ghost before = defs_view(self.messages@);
        self.messages.push(turn);
        assert(defs_view(self.messages@) =~= before.push(assistant_turn(text, calls)));
        plans
    }

    /// Hands a tool's result (its reply as text) back to the model.
    pub fn record_result(&mut self, call_id: &str, result: String)
        ensures
            defs_view(final(self).messages@) == defs_view(old(self).messages@).push(tool_turn(call_id@, result@)),
            final(self).iterations == old(self).iterations,
            final(self).total_in == old(self).total_in,
            final(self).total_out == old(self).total_out,
            final(self).final_text == old(self).final_text,
            final(self).finished == old(self).finished,
    {
        let ghost rv = result@;
        let mut v: Vec<(String, Json)> = Vec::new();
        v.push(entry("role", Json::text("tool")));
        v.push(entry("tool_call_id", Json::text(call_id)));
        v.push(entry("content", Json::Str(result)));
        let turn = Json::Object(v);
        assert(turn@->Object_0 =~= tool_turn(call_id@, rv)->Object_0);
        let ghost before = defs_view(self.messages@);
        self.messages.push(turn);
        assert(defs_view(self.messages@) =~= before.push(tool_turn(call_id@, rv)));
    }
}

/// Law: every model call the loop allows keeps it within the iteration
/// budget, so no activation makes more than [`MAX_TOOL_ITERATIONS`] calls.
pub proof fn law_tool_loop_is_bounded(l: ToolLoop)
    requires
        l.running(),
    ensures
        l.iterations + 1 <= 12,
{
}

/// How an execution ended, as reported in its final chunk.
pub struct ExecutionCompleteEvent {
    pub content: Option<String>,
    pub tokens_in: Option<u64>,
    pub tokens_out: Option<u64>,
    pub duration_ms: Option<u64>,
    pub error: Option<String>,
    pub model: Option<String>,
    pub chunk_type: &'static str,
}

impl ExecutionCompleteEvent {
    /// A completed execution: its tokens, how long it took, and the model.
    pub fn complete(tokens_in: u64, tokens_out: u64, duration_ms: u64, model: &str) -> (r: Self)
        ensures
            r.chunk_type@ == "complete"@,
            r.tokens_in == Some(tokens_in),
            r.tokens_out == Some(tokens_out),
            r.duration_ms == Some(duration_ms),
            r.model matches Some(m) && m@ == model@,
            r.content is None,
            r.error is None,
    {
        ExecutionCompleteEvent {
            content: None,
            tokens_in: Some(tokens_in),
            tokens_out: Some(tokens_out),
            duration_ms: Some(duration_ms),
            error: None,
            model: Some(model.to_string()),
            chunk_type: "complete",
        }
    }

    /// A failed execution: how long it ran, the error and the model asked for.
    pub fn failed(duration_ms: u64, error: &str, model: &str) -> (r: Self)
        ensures
            r.chunk_type@ == "error"@,
            r.duration_ms == Some(duration_ms),
            r.error matches Some(e) && e@ == error@,
            r.model matches Some(m) && m@ == model@,
            r.tokens_in is None,
            r.tokens_out is None,
            r.content is None,
    {
        ExecutionCompleteEvent {
            content: None,
            tokens_in: None,
            tokens_out: None,
            duration_ms: Some(duration_ms),
            error: Some(error.to_string()),
            model: Some(model.to_string()),
            chunk_type: "error",
        }
    }
}

/// The token count after an activation used `a` + `b` more (saturating).
pub fn add_tokens(count: u64, a: u64, b: u64) -> (r: u64)
    ensures
        r == sat_add(count, sat_add(a, b)),
{
    count.saturating_add(a.saturating_add(b))
}

/// The memory an orchestration result is kept as.
pub struct OrchestrationMemory {
    pub title: String,
    pub content: String,
    pub memory_tier: String,
    pub entity_type: String,
    pub tags: Vec<String>,
    pub metadata: Json,
}

/// The tags of an orchestration result.
pub open spec fn orchestration_tags(agent: Seq<char>, fleet: Seq<char>) -> Seq<Seq<char>> {
    seq!["orchestration"@, "fan-in"@, "agent:"@ + agent, "exec:"@ + fleet]
}

/// Builds the episodic memory that records an orchestration result:
/// titled `<agent>: orchestration result`, tagged with the agent and the
/// execution, and pointing back at both.
pub fn orchestration_memory(agent_id: &str, fleet_execution_id: &str, final_text: &str) -> (r: OrchestrationMemory)
    ensures
        r.title@ == agent_id@ + ": orchestration result"@,
        r.content@ == final_text@,
        r.memory_tier@ == "episodic"@,
        r.entity_type@ == "event"@,
        strings_view(r.tags@) == orchestration_tags(agent_id@, fleet_execution_id@),
        r.metadata@ == JsonV::Object(seq![
            ("source_agent"@, jtext(agent_id@)),
            ("fleet_execution_id"@, jtext(fleet_execution_id@)),
        ]),
{
    let mut title = agent_id.to_string();
    title.append(": orchestration result");
    let mut agent_tag = "agent:".to_string();
    agent_tag.append(agent_id);
    let mut exec_tag = "exec:".to_string();
    exec_tag.append(fleet_execution_id);
    let mut tags: Vec<String> = Vec::new();
    tags.push("orchestration".to_string());
    tags.push("fan-in".to_string());
    tags.push(agent_tag);
    tags.push(exec_tag);
    assert(strings_view(tags@) =~= orchestration_tags(agent_id@, fleet_execution_id@));
    let mut m: Vec<(String, Json)> = Vec::new();
    m.push(entry("source_agent", Json::text(agent_id)));
    m.push(entry("fleet_execution_id", Json::text(fleet_execution_id)));
    let metadata = Json::Object(m);
    assert(metadata@->Object_0 =~= seq![
        ("source_agent"@, jtext(agent_id@)),
        ("fleet_execution_id"@, jtext(fleet_execution_id@)),
    ]);
    OrchestrationMemory {
        title,
        content: final_text.to_string(),
        memory_tier: "episodic".to_string(),
        entity_type: "event".to_string(),
        tags,
        metadata,
    }
}

/// The id a memory was stored under: the response's `id`, else its
/// `memory_id`, when a string; none when the write failed.
pub open spec fn stored_memory_id(resp: Result<JsonV, Seq<char>>) -> Option<Seq<char>> {
    match resp {
        Ok(v) => jstr(or_else(jget(v, "id"@), jget(v, "memory_id"@))),
        Err(_) => None,
    }
}

/// Reads the id of a stored memory.
pub fn created_memory_id(resp: &Result<Json, String>) -> (r: Option<String>)
    ensures
        crate::agent::runtime::steering::ov(r) == stored_memory_id(res_view(*resp)),
{
    match resp {
        Ok(v) => {
            let m = match v.get("id") {
                Some(x) => x,
                None => match v.get("memory_id") {
                    Some(x) => x,
                    None => return None,
                },
            };
            match m.as_str() {
                Some(s) => Some(s.to_string()),
                None => None,
            }
        },
        Err(_) => None,
    }
}

/// The metadata of the rollup sent back to the parent: its execution (under
/// both names), this child's registry and fleet executions, this agent, the
/// stored memory (empty when none) and the chat session when there is one.
pub open spec fn rollup_meta(
    parent_exec: Seq<char>,
    child_exec: Seq<char>,
    fleet: Seq<char>,
    agent: Seq<char>,
    memory_id: Option<Seq<char>>,
    chat: Option<Seq<char>>,
) -> JsonV {
    let base = seq![
        ("parent_exec_id"@, jtext(parent_exec)),
        ("parent_execution_id"@, jtext(parent_exec)),
        ("child_exec_id"@, jtext(child_exec)),
        ("child_fleet_execution_id"@, jtext(fleet)),
        ("child_agent_id"@, jtext(agent)),
        ("memory_id"@, jtext(match memory_id { Some(m) => m, None => Seq::empty() })),
    ];
    JsonV::Object(match chat {
        Some(c) => base.push(("chat_session_id"@, jtext(c))),
        None => base,
    })
}

/// The rollup steering for the parent: the result summarised (at most 500
/// characters, then `...`) and its metadata. The child's execution is the
/// registry one when known, else the fleet one.
pub fn rollup_steering(
    parent_exec: &str,
    current_execution: Option<&str>,
    fleet_execution_id: &str,
    agent_id: &str,
    memory_id: Option<&str>,
    chat_session_id: Option<&str>,
    final_text: &str,
) -> (r: (String, Json))
    ensures
        r.0@ == rollup_summary(final_text@),
        r.1@ == rollup_meta(
            parent_exec@,
            match current_execution { Some(c) => c@, None => fleet_execution_id@ },
            fleet_execution_id@,
            agent_id@,
            opt_view(memory_id),
            opt_view(chat_session_id),
        ),
{
    let summary = summarize_rollup_text(final_text);
    let child = match current_execution {
        Some(c) => c,
        None => fleet_execution_id,
    };
    let mem = match memory_id {
        Some(m) => m.to_string(),
        None => String::new(),
    };
    let mut v: Vec<(String, Json)> = Vec::new();
    v.push(entry("parent_exec_id", Json::text(parent_exec)));
    v.push(entry("parent_execution_id", Json::text(parent_exec)));
    v.push(entry("child_exec_id", Json::text(child)));
    v.push(entry("child_fleet_execution_id", Json::text(fleet_execution_id)));
    v.push(entry("child_agent_id", Json::text(agent_id)));
    v.push(entry("memory_id", Json::Str(mem)));
    if let Some(c) = chat_session_id {
        v.push(entry("chat_session_id", Json::text(c)));
    }
    let meta = Json::Object(v);
    assert(meta@->Object_0 =~= rollup_meta(
        parent_exec@,
        match current_execution { Some(c) => c@, None => fleet_execution_id@ },
        fleet_execution_id@,
        agent_id@,
        opt_view(memory_id),
        opt_view(chat_session_id),
    )->Object_0);
    (summary, meta)
}

/// Whether the result is posted back to a dashboard chat: only when the
/// activation came from one and the result is not blank.
pub fn posts_to_chat(chat_session_id: Option<&str>, final_text: &str) -> (r: bool)
    ensures
        r == (chat_session_id is Some && trim(final_text@).len() > 0),
{
    match chat_session_id {
        Some(_) => {
            let c = chars_of(final_text);
            let t = trim_from(&c, 0);
            assert(c@.skip(0) =~= c@);
            t.len() > 0
        },
        None => false,
    }
}

/// What a single-shot answer leads to: the new token count, the output to
/// report (its content and model) when there is one, and the final event.
pub struct SingleShotOutcome {
    pub token_count: u64,
    pub output: Option<(String, String)>,
    pub event: ExecutionCompleteEvent,
}

/// Settles a single-shot generation (agents without tools): a generated
/// answer adds its tokens, is reported as output and completes the
/// execution with its model; a failure ends it with the error and the model
/// asked for, leaving the count unchanged.
pub fn single_shot_outcome(
    result: Result<crate::ams::llm::GenerationResult, String>,
    token_count: u64,
    duration_ms: u64,
    requested_model: &str,
) -> (r: SingleShotOutcome)
    ensures
        match result {
            Ok(g) => r.token_count == sat_add(token_count, sat_add(g.input_tokens, g.output_tokens))
                && (r.output matches Some(o) && o.0@ == g.content@ && o.1@ == g.model@)
                && r.event.chunk_type@ == "complete"@
                && r.event.tokens_in == Some(g.input_tokens)
                && r.event.tokens_out == Some(g.output_tokens)
                && r.event.duration_ms == Some(duration_ms)
                && (r.event.model matches Some(m) && m@ == g.model@)
                && r.event.error is None,
            Err(e) => r.token_count == token_count
                && r.output is None
                && r.event.chunk_type@ == "error"@
                && r.event.duration_ms == Some(duration_ms)
                && (r.event.error matches Some(x) && x@ == e@)
                && (r.event.model matches Some(m) && m@ == requested_model@),
        },
{
    match result {
        Ok(g) => {
            let count = add_tokens(token_count, g.input_tokens, g.output_tokens);
            let event = ExecutionCompleteEvent::complete(g.input_tokens, g.output_tokens, duration_ms, g.model.as_str());
            SingleShotOutcome { token_count: count, output: Some((g.content, g.model)), event }
        },
        Err(e) => {
            let event = ExecutionCompleteEvent::failed(duration_ms, e.as_str(), requested_model);
            SingleShotOutcome { token_count, output: None, event }
        },
    }
}

} // verus!
