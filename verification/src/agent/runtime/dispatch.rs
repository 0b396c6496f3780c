//! Which outside call a tool call turns into.
//!
//! Given the tool's name and arguments and who is calling, [`plan_tool`]
//! decides everything that does not need AMS: which call to make with which
//! values, or the reply to give at once (a refused argument, an unknown
//! tool). The caller makes the call and shapes its answer with the reply
//! functions.

use vstd::prelude::*;
use crate::json::{Json, JsonV, jget, jstr, ju64};
use crate::llm::kilo::trim;
use crate::ids::{uuid_parses, uuid_v4_simple};
use crate::agent::runtime::worker::{opt_view, opt_json_view};
use crate::agent::runtime::tools::{
    ToolKind, tool_of, tool_kind, error_object, unknown_tool, arg_text, arg_u64, plan_dispatch_to_worker,
    plan_poll_worker,
};
use crate::agent::runtime::replies::{
    arg_text_or, plan_dispatch_to_tl, rollup_metadata, rollup_meta, plan_goal_task, plan_create_memory, valid_tier,
    memory_tags, memory_title, memory_metadata, arg_strings, strings_view, plan_search, plan_complete_task,
    plan_mcp_call, specialist_prefix, tl_specialist_prefix,
};

verus! {

/// What a tool call needs done.
pub enum ToolPlan {
    /// Answer at once.
    Reply(Json),
    /// Dispatch a task to a worker and wait up to the timeout (seconds).
    DispatchToWorker { worker: String, task: String, timeout_secs: u64 },
    /// Poll an execution for up to the given seconds.
    PollWorker { execution_id: String, wait_secs: u64 },
    /// Send a task to a team lead, with the rollup breadcrumbs.
    DispatchToTl { tl_name: String, task: String, priority: String, metadata: Option<Json> },
    /// List the team leads.
    ListTlAgents,
    /// Create a goal task.
    CreateGoalTask { title: String, description: String, priority: String },
    /// Store a memory.
    CreateMemory { title: String, content: String, memory_tier: String, entity_type: String, tags: Vec<String>, metadata: Json },
    /// Search memories.
    SearchMemories { query: String, limit: u32 },
    /// Close a board task with a summary.
    CompleteTask { task_id: String, summary: String },
    /// Read the task board.
    GetTaskBoard,
    /// List workers under a name prefix (all when none).
    ListWorkers { prefix: Option<String> },
    /// List the MCP servers.
    McpListServers,
    /// Call an MCP tool.
    McpCallTool { server: String, tool: String, arguments: Json, timeout_seconds: u64 },
}

/// A tool plan as values.
pub enum PlanV {
    Reply(JsonV),
    DispatchToWorker(Seq<char>, Seq<char>, u64),
    PollWorker(Seq<char>, u64),
    DispatchToTl(Seq<char>, Seq<char>, Seq<char>, Option<JsonV>),
    ListTlAgents,
    CreateGoalTask(Seq<char>, Seq<char>, Seq<char>),
    CreateMemory(Seq<char>, Seq<char>, Seq<char>, Seq<char>, Seq<Seq<char>>, JsonV),
    SearchMemories(Seq<char>, u32),
    CompleteTask(Seq<char>, Seq<char>),
    GetTaskBoard,
    ListWorkers(Option<Seq<char>>),
    McpListServers,
    McpCallTool(Seq<char>, Seq<char>, JsonV, u64),
}

/// A plan's values.
pub open spec fn plan_view(p: ToolPlan) -> PlanV {
    match p {
        ToolPlan::Reply(j) => PlanV::Reply(j@),
        ToolPlan::DispatchToWorker { worker, task, timeout_secs } => PlanV::DispatchToWorker(worker@, task@, timeout_secs),
        ToolPlan::PollWorker { execution_id, wait_secs } => PlanV::PollWorker(execution_id@, wait_secs),
        ToolPlan::DispatchToTl { tl_name, task, priority, metadata } => PlanV::DispatchToTl(
            tl_name@, task@, priority@, match metadata { Some(m) => Some(m@), None => None }),
        ToolPlan::ListTlAgents => PlanV::ListTlAgents,
        ToolPlan::CreateGoalTask { title, description, priority } => PlanV::CreateGoalTask(title@, description@, priority@),
        ToolPlan::CreateMemory { title, content, memory_tier, entity_type, tags, metadata } => PlanV::CreateMemory(
            title@, content@, memory_tier@, entity_type@, strings_view(tags@), metadata@),
        ToolPlan::SearchMemories { query, limit } => PlanV::SearchMemories(query@, limit),
        ToolPlan::CompleteTask { task_id, summary } => PlanV::CompleteTask(task_id@, summary@),
        ToolPlan::GetTaskBoard => PlanV::GetTaskBoard,
        ToolPlan::ListWorkers { prefix } => PlanV::ListWorkers(match prefix { Some(p) => Some(p@), None => None }),
        ToolPlan::McpListServers => PlanV::McpListServers,
        ToolPlan::McpCallTool { server, tool, arguments, timeout_seconds } => PlanV::McpCallTool(
            server@, tool@, arguments@, timeout_seconds),
    }
}

/// What a tool call needs done: by the tool its name selects, the checked
/// arguments of its call or the reply that refuses them; for a name no tool
/// has, `{"error": "Unknown tool: <name>"}`.
pub open spec fn tool_plan(
    name: Seq<char>,
    args: JsonV,
    caller: Seq<char>,
    caller_exec: Option<Seq<char>>,
    chat: Option<Seq<char>>,
) -> PlanV {
    match tool_of(name) {
        ToolKind::DispatchToWorker =>
            if arg_text(args, "worker_name"@).len() == 0 || arg_text(args, "task"@).len() == 0 {
                PlanV::Reply(error_object("worker_name and task are required"@))
            } else {
                PlanV::DispatchToWorker(arg_text(args, "worker_name"@), arg_text(args, "task"@),
                    arg_u64(args, "timeout_secs"@, 900))
            },
        ToolKind::PollWorkerExecution =>
            if arg_text(args, "execution_id"@).len() == 0 {
                PlanV::Reply(error_object("execution_id is required"@))
            } else {
                PlanV::PollWorker(arg_text(args, "execution_id"@),
                    if arg_u64(args, "wait_secs"@, 0) < 600 { arg_u64(args, "wait_secs"@, 0) } else { 600 })
            },
        ToolKind::DispatchToTl =>
            if arg_text(args, "tl_name"@).len() == 0 || arg_text(args, "task"@).len() == 0 {
                PlanV::Reply(error_object("tl_name and task are required"@))
            } else {
                PlanV::DispatchToTl(arg_text(args, "tl_name"@), arg_text(args, "task"@),
                    arg_text_or(args, "priority"@, "normal"@), rollup_meta(caller, caller_exec, chat))
            },
        ToolKind::ListTlAgents => PlanV::ListTlAgents,
        ToolKind::CreateGoalTask =>
            if arg_text(args, "title"@).len() == 0 {
                PlanV::Reply(error_object("title is required"@))
            } else {
                PlanV::CreateGoalTask(arg_text(args, "title"@), arg_text(args, "description"@),
                    arg_text_or(args, "priority"@, "normal"@))
            },
        ToolKind::CreateMemory =>
            if trim(arg_text(args, "content"@)).len() == 0 {
                PlanV::Reply(error_object("content is required"@))
            } else if !valid_tier(arg_text_or(args, "tier"@, "episodic"@)) {
                PlanV::Reply(error_object("tier must be one of episodic, semantic, procedural"@))
            } else {
                PlanV::CreateMemory(memory_title(args, caller), arg_text(args, "content"@),
                    arg_text_or(args, "tier"@, "episodic"@), "event"@,
                    memory_tags(arg_strings(jget(args, "tags"@)), caller), memory_metadata(caller))
            },
        ToolKind::SearchMemories => PlanV::SearchMemories(arg_text(args, "query"@),
            (match ju64(jget(args, "limit"@)) { Some(n) => n, None => 5 }) as u32),
        ToolKind::CompleteTask =>
            if trim(arg_text(args, "task_id"@)).len() == 0 || trim(arg_text(args, "summary"@)).len() == 0 {
                PlanV::Reply(error_object("task_id and summary are required"@))
            } else if !uuid_parses(trim(arg_text(args, "task_id"@))) {
                PlanV::Reply(error_object("task_id must be the CAP task UUID from the [BOARD] line"@))
            } else {
                PlanV::CompleteTask(trim(arg_text(args, "task_id"@)), trim(arg_text(args, "summary"@)))
            },
        ToolKind::GetTaskBoard => PlanV::GetTaskBoard,
        ToolKind::ListWorkers => PlanV::ListWorkers(specialist_prefix(caller)),
        ToolKind::McpListServers => PlanV::McpListServers,
        ToolKind::McpCallTool =>
            if arg_text(args, "server"@).len() == 0 || arg_text(args, "tool"@).len() == 0 {
                PlanV::Reply(error_object("server and tool are required"@))
            } else {
                PlanV::McpCallTool(arg_text(args, "server"@), arg_text(args, "tool"@),
                    match jget(args, "arguments"@) { Some(a) => a, None => JsonV::Object(Seq::empty()) },
                    match ju64(jget(args, "timeout_seconds"@)) { Some(n) => n, None => 30 })
            },
        ToolKind::Unknown => PlanV::Reply(error_object("Unknown tool: "@ + name)),
    }
}

/// Decides what a tool call needs done.
pub fn plan_tool(name: &str, args: &Json, caller: &str, caller_exec: Option<&str>, chat: Option<&str>) -> (r: ToolPlan)
    ensures
        plan_view(r) == tool_plan(name@, args@, caller@, opt_view(caller_exec), opt_view(chat)),
{
    match tool_kind(name) {
        ToolKind::DispatchToWorker => match plan_dispatch_to_worker(args) {
            Ok(d) => ToolPlan::DispatchToWorker { worker: d.worker, task: d.task, timeout_secs: d.timeout_secs },
            Err(e) => ToolPlan::Reply(e),
        },
        ToolKind::PollWorkerExecution => match plan_poll_worker(args) {
            Ok((execution_id, wait_secs)) => ToolPlan::PollWorker { execution_id, wait_secs },
            Err(e) => ToolPlan::Reply(e),
        },
        ToolKind::DispatchToTl => match plan_dispatch_to_tl(args) {
            Ok(d) => ToolPlan::DispatchToTl {
                tl_name: d.tl_name,
                task: d.task,
                priority: d.priority,
                metadata: rollup_metadata(caller, caller_exec, chat),
            },
            Err(e) => ToolPlan::Reply(e),
        },
        ToolKind::ListTlAgents => ToolPlan::ListTlAgents,
        ToolKind::CreateGoalTask => match plan_goal_task(args) {
            Ok(g) => ToolPlan::CreateGoalTask { title: g.title, description: g.description, priority: g.priority },
            Err(e) => ToolPlan::Reply(e),
        },
        ToolKind::CreateMemory => match plan_create_memory(args, caller) {
            Ok(m) => ToolPlan::CreateMemory {
                title: m.title,
                content: m.content,
                memory_tier: m.memory_tier,
                entity_type: m.entity_type,
                tags: m.tags,
                metadata: m.metadata,
            },
            Err(e) => ToolPlan::Reply(e),
        },
        ToolKind::SearchMemories => {
            let (query, limit) = plan_search(args);
            ToolPlan::SearchMemories { query, limit }
        },
        ToolKind::CompleteTask => match plan_complete_task(args) {
            Ok((task_id, summary)) => ToolPlan::CompleteTask { task_id, summary },
            Err(e) => ToolPlan::Reply(e),
        },
        ToolKind::GetTaskBoard => ToolPlan::GetTaskBoard,
        ToolKind::ListWorkers => ToolPlan::ListWorkers { prefix: tl_specialist_prefix(caller) },
        ToolKind::McpListServers => ToolPlan::McpListServers,
        ToolKind::McpCallTool => match plan_mcp_call(args) {
            Ok(c) => ToolPlan::McpCallTool {
                server: c.server,
                tool: c.tool,
                arguments: c.arguments,
                timeout_seconds: c.timeout_seconds,
            },
            Err(e) => ToolPlan::Reply(e),
        },
        ToolKind::Unknown => ToolPlan::Reply(unknown_tool(name)),
    }
}

/// A fresh dispatch id: `dispatch-` and 32 random hex digits. It is the
/// correlation id the worker's execution row is later found by.
pub fn new_dispatch_id() -> (r: String)
    ensures
        r@.len() == 41,
        r@.subrange(0, 9) == "dispatch-"@,
{
    let id = uuid_v4_simple();
    let mut r = "dispatch-".to_string();
    r.append(id.as_str());
    proof {
        reveal_strlit("dispatch-");
    }
    assert(r@.subrange(0, 9) =~= "dispatch-"@);
    r
}

/// A fresh fleet execution id: `fleet-` and 32 random hex digits.
pub fn new_fleet_execution_id() -> (r: String)
    ensures
        r@.len() == 38,
        r@.subrange(0, 6) == "fleet-"@,
{
    let id = uuid_v4_simple();
    let mut r = "fleet-".to_string();
    r.append(id.as_str());
    proof {
        reveal_strlit("fleet-");
    }
    assert(r@.subrange(0, 6) =~= "fleet-"@);
    r
}

/// Law: every tool call gets a plan, and a name that selects no tool is
/// answered with the unknown-tool error naming it.
pub proof fn law_unknown_tool_is_refused(name: Seq<char>, args: JsonV, caller: Seq<char>, exec: Option<Seq<char>>, chat: Option<Seq<char>>)
    requires
        tool_of(name) == ToolKind::Unknown,
    ensures
        tool_plan(name, args, caller, exec, chat) == PlanV::Reply(error_object("Unknown tool: "@ + name)),
{
}

/// Law: one poll never waits longer than ten minutes, whatever it asks for.
pub proof fn law_poll_wait_is_capped(name: Seq<char>, args: JsonV, caller: Seq<char>, exec: Option<Seq<char>>, chat: Option<Seq<char>>)
    ensures
        tool_plan(name, args, caller, exec, chat) matches PlanV::PollWorker(_, w) ==> w <= 600,
{
}

/// Law: a memory written by a tool is always tagged with the agent that
/// wrote it, exactly once when the caller already gave that tag.
pub proof fn law_memory_carries_agent_tag(given: Seq<Seq<char>>, caller: Seq<char>)
    ensures
        memory_tags(given, caller).contains("agent:"@ + caller),
        given.contains("agent:"@ + caller) ==> memory_tags(given, caller) == given,
{
    let tag = "agent:"@ + caller;
    if !given.contains(tag) {
        assert(given.push(tag)[given.len() as int] == tag);
    }
}

/// Law: a goal task with a title is created with the title and description
/// the call gave and with the priority it asked for; only a call that names
/// no priority (or not as text) gets `normal`.
pub proof fn law_goal_task_keeps_requested_priority(
    name: Seq<char>,
    args: JsonV,
    caller: Seq<char>,
    exec: Option<Seq<char>>,
    chat: Option<Seq<char>>,
)
    requires
        tool_of(name) == ToolKind::CreateGoalTask,
        jstr(jget(args, "title"@)) matches Some(t) && t.len() > 0,
    ensures
        tool_plan(name, args, caller, exec, chat) matches PlanV::CreateGoalTask(title, description, priority) && {
            &&& jstr(jget(args, "title"@)) == Some(title)
            &&& description == (match jstr(jget(args, "description"@)) { Some(d) => d, None => Seq::<char>::empty() })
            &&& jstr(jget(args, "priority"@)) matches Some(p) ==> priority == p
            &&& jstr(jget(args, "priority"@)) is None ==> priority == "normal"@
        },
{
}

} // verus!
