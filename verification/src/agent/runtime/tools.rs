//! The tools an agent can call: which one a name selects, how its arguments
//! are checked and read, and how outcomes become the JSON returned to the model.

use vstd::prelude::*;
use crate::json::{Json, JsonNumber, JsonV, NumV, jget, jstr, ju64, jtext, jopt_text, jor_null, or_else};
use crate::text::{str_eq, chars_of, starts_with_chars, string_from_chars, has_prefix};
use crate::llm::kilo::{trim, trim_from};
use crate::agent::runtime::worker::{entry, opt_view, opt_json_view};

verus! {

/// The tools the runtime knows.
#[derive(Clone, Copy, Debug, PartialEq, Eq)]
pub enum ToolKind {
    DispatchToWorker,
    PollWorkerExecution,
    DispatchToTl,
    ListTlAgents,
    CreateGoalTask,
    CreateMemory,
    SearchMemories,
    CompleteTask,
    GetTaskBoard,
    ListWorkers,
    McpListServers,
    McpCallTool,
    Unknown,
}

/// The tool a name selects.
pub open spec fn tool_of(name: Seq<char>) -> ToolKind {
    if name == "dispatch_to_worker"@ { ToolKind::DispatchToWorker }
    else if name == "poll_worker_execution"@ { ToolKind::PollWorkerExecution }
    else if name == "dispatch_to_tl"@ { ToolKind::DispatchToTl }
    else if name == "list_tl_agents"@ { ToolKind::ListTlAgents }
    else if name == "create_goal_task"@ { ToolKind::CreateGoalTask }
    else if name == "create_memory"@ { ToolKind::CreateMemory }
    else if name == "search_memories"@ { ToolKind::SearchMemories }
    else if name == "complete_task"@ { ToolKind::CompleteTask }
    else if name == "get_task_board"@ { ToolKind::GetTaskBoard }
    else if name == "list_workers"@ { ToolKind::ListWorkers }
    else if name == "mcp_list_servers"@ { ToolKind::McpListServers }
    else if name == "mcp_call_tool"@ { ToolKind::McpCallTool }
    else { ToolKind::Unknown }
}

/// The tool a name selects.
pub fn tool_kind(name: &str) -> (r: ToolKind)
    ensures
        r == tool_of(name@),
{
    if str_eq(name, "dispatch_to_worker") { ToolKind::DispatchToWorker }
    else if str_eq(name, "poll_worker_execution") { ToolKind::PollWorkerExecution }
    else if str_eq(name, "dispatch_to_tl") { ToolKind::DispatchToTl }
    else if str_eq(name, "list_tl_agents") { ToolKind::ListTlAgents }
    else if str_eq(name, "create_goal_task") { ToolKind::CreateGoalTask }
    else if str_eq(name, "create_memory") { ToolKind::CreateMemory }
    else if str_eq(name, "search_memories") { ToolKind::SearchMemories }
    else if str_eq(name, "complete_task") { ToolKind::CompleteTask }
    else if str_eq(name, "get_task_board") { ToolKind::GetTaskBoard }
    else if str_eq(name, "list_workers") { ToolKind::ListWorkers }
    else if str_eq(name, "mcp_list_servers") { ToolKind::McpListServers }
    else if str_eq(name, "mcp_call_tool") { ToolKind::McpCallTool }
    else { ToolKind::Unknown }
}

/// `{"error": msg}`.
pub open spec fn error_object(msg: Seq<char>) -> JsonV {
    JsonV::Object(seq![("error"@, jtext(msg))])
}

/// `{"error": msg}`.
pub fn error_json(msg: &str) -> (r: Json)
    ensures
        r@ == error_object(msg@),
{
    let mut v: Vec<(String, Json)> = Vec::new();
    v.push(entry("error", Json::text(msg)));
    let r = Json::Object(v);
    assert(r@->Object_0 =~= error_object(msg@)->Object_0);
    r
}

/// The reply to an unknown tool: `{"error": "Unknown tool: <name>"}`.
pub fn unknown_tool(name: &str) -> (r: Json)
    ensures
        r@ == error_object("Unknown tool: "@ + name@),
{
    let mut msg = "Unknown tool: ".to_string();
    msg.append(name);
    error_json(msg.as_str())
}

/// A string argument, or the empty string when it is missing or not a string.
pub open spec fn arg_text(args: JsonV, key: Seq<char>) -> Seq<char> {
    match jstr(jget(args, key)) {
        Some(s) => s,
        None => Seq::empty(),
    }
}

/// An unsigned argument, or `default` when it is missing or not one.
pub open spec fn arg_u64(args: JsonV, key: Seq<char>, default: u64) -> u64 {
    match ju64(jget(args, key)) {
        Some(n) => n,
        None => default,
    }
}

/// A string argument (`""` when missing or not a string).
pub fn arg_str<'a>(args: &'a Json, key: &str) -> (r: &'a str)
    ensures
        r@ == arg_text(args@, key@),
{
    let empty = "";
    proof {
        reveal_strlit("");
    }
    match args.get(key) {
        Some(v) => match v.as_str() {
            Some(s) => s,
            None => empty,
        },
        None => empty,
    }
}

/// An unsigned argument (`default` when missing or not one).
pub fn arg_unsigned(args: &Json, key: &str, default: u64) -> (r: u64)
    ensures
        r == arg_u64(args@, key@, default),
{
    match args.get(key) {
        Some(v) => match v.as_u64() {
            Some(n) => n,
            None => default,
        },
        None => default,
    }
}

/// What `dispatch_to_worker` was asked: worker, task and wait.
pub struct WorkerDispatch {
    pub worker: String,
    pub task: String,
    pub timeout_secs: u64,
}

/// Reads `dispatch_to_worker` arguments: `worker_name` and `task` are
/// required; the wait defaults to 900 seconds.
pub fn plan_dispatch_to_worker(args: &Json) -> (r: Result<WorkerDispatch, Json>)
    ensures
        (arg_text(args@, "worker_name"@).len() == 0 || arg_text(args@, "task"@).len() == 0)
            ==> (r matches Err(e) && e@ == error_object("worker_name and task are required"@)),
        (arg_text(args@, "worker_name"@).len() > 0 && arg_text(args@, "task"@).len() > 0)
            ==> (r matches Ok(d) && d.worker@ == arg_text(args@, "worker_name"@)
                && d.task@ == arg_text(args@, "task"@)
                && d.timeout_secs == arg_u64(args@, "timeout_secs"@, 900)),
{
    let worker = arg_str(args, "worker_name");
    let task = arg_str(args, "task");
    let timeout_secs = arg_unsigned(args, "timeout_secs", 900);
    if worker.is_empty() || task.is_empty() {
        return Err(error_json("worker_name and task are required"));
    }
    Ok(WorkerDispatch { worker: worker.to_string(), task: task.to_string(), timeout_secs })
}

/// The metadata stamped on a worker dispatch: who dispatched it, under which
/// correlation id, to whom; with the caller's execution and chat session when known.
pub open spec fn dispatch_metadata(
    caller: Seq<char>,
    dispatch_id: Seq<char>,
    worker: Seq<char>,
    exec: Option<Seq<char>>,
    chat: Option<Seq<char>>,
) -> JsonV {
    let base = seq![
        ("parent_agent_id"@, jtext(caller)),
        ("correlation_id"@, jtext(dispatch_id)),
        ("dispatch_id"@, jtext(dispatch_id)),
        ("child_agent_id"@, jtext(worker)),
        ("specialist_role"@, jtext(worker)),
    ];
    let with_exec = match exec {
        Some(e) => base + seq![("parent_exec_id"@, jtext(e)), ("parent_execution_id"@, jtext(e))],
        None => base,
    };
    let with_chat = match chat {
        Some(c) => with_exec + seq![("chat_session_id"@, jtext(c))],
        None => with_exec,
    };
    JsonV::Object(with_chat)
}

/// Builds the metadata of a worker dispatch.
pub fn dispatch_metadata_json(
    caller_agent_id: &str,
    dispatch_id: &str,
    worker: &str,
    caller_exec_id: Option<&str>,
    chat_session_id: Option<&str>,
) -> (r: Json)
    ensures
        r@ == dispatch_metadata(caller_agent_id@, dispatch_id@, worker@, opt_view(caller_exec_id), opt_view(chat_session_id)),
{
    let mut v: Vec<(String, Json)> = Vec::new();
    v.push(entry("parent_agent_id", Json::text(caller_agent_id)));
    v.push(entry("correlation_id", Json::text(dispatch_id)));
    v.push(entry("dispatch_id", Json::text(dispatch_id)));
    v.push(entry("child_agent_id", Json::text(worker)));
    v.push(entry("specialist_role", Json::text(worker)));
    match caller_exec_id {
        Some(e) => {
            v.push(entry("parent_exec_id", Json::text(e)));
            v.push(entry("parent_execution_id", Json::text(e)));
        },
        None => {},
    }
    match chat_session_id {
        Some(c) => {
            v.push(entry("chat_session_id", Json::text(c)));
        },
        None => {},
    }
    let r = Json::Object(v);
    assert(r@->Object_0 =~= dispatch_metadata(caller_agent_id@, dispatch_id@, worker@, opt_view(caller_exec_id), opt_view(chat_session_id))->Object_0);
    r
}

/// The longest single `poll_worker_execution` wait, in seconds.
pub const MAX_POLL_WAIT_SECS: u64 = 600;

/// Reads `poll_worker_execution` arguments: `execution_id` is required; the
/// wait defaults to 0 and is capped at 600 seconds.
pub fn plan_poll_worker(args: &Json) -> (r: Result<(String, u64), Json>)
    ensures
        arg_text(args@, "execution_id"@).len() == 0 ==> (r matches Err(e) && e@ == error_object("execution_id is required"@)),
        arg_text(args@, "execution_id"@).len() > 0 ==> (r matches Ok(p) && p.0@ == arg_text(args@, "execution_id"@)
            && p.1 == if arg_u64(args@, "wait_secs"@, 0) < 600 { arg_u64(args@, "wait_secs"@, 0) } else { 600 }),
{
    let exec_id = arg_str(args, "execution_id");
    if exec_id.is_empty() {
        return Err(error_json("execution_id is required"));
    }
    let wait = arg_unsigned(args, "wait_secs", 0);
    let wait_secs = if wait < MAX_POLL_WAIT_SECS { wait } else { MAX_POLL_WAIT_SECS };
    Ok((exec_id.to_string(), wait_secs))
}

} // verus!
