//! The tool sets offered to the model: team leads, orchestrators and MCP
//! bridge agents each get their own.

use vstd::prelude::*;
use crate::json::{Json, JsonV};
use crate::agent::runtime::worker::{entry, keys_view};
use crate::agent::runtime::schema::{
    members_view, string_param, string_param_json, enum_param, enum_param_json, enum_default_param,
    enum_default_param_json, integer_param, integer_param_json, string_list_param, string_list_param_json,
    object_param, object_param_json, tool_def, tool_definition,
};

verus! {

/// The `create_memory` tool definition.
pub open spec fn create_memory_def() -> JsonV {
    tool_def("create_memory"@, "Write a durable AMS memory receipt or domain note."@, seq![("content"@, string_param("Memory content to persist."@)), ("tier"@, enum_default_param(seq!["episodic"@, "semantic"@, "procedural"@], "Memory tier (default episodic)."@, "episodic"@)), ("tags"@, string_list_param("Tags to attach to the memory."@, true)), ("title"@, string_param("Optional short title."@))], seq!["content"@])
}

/// Builds the `create_memory` tool definition.
pub fn create_memory_tool() -> (r: Json)
    ensures
        r@ == create_memory_def(),
{
    let mut props: Vec<(String, Json)> = Vec::new();
    props.push(entry("content", string_param_json("Memory content to persist.")));
    let v1: [&str; 3] = ["episodic", "semantic", "procedural"];
    assert(keys_view(v1@) =~= seq!["episodic"@, "semantic"@, "procedural"@]);
    props.push(entry("tier", enum_default_param_json(&v1, "Memory tier (default episodic).", "episodic")));
    props.push(entry("tags", string_list_param_json("Tags to attach to the memory.", true)));
    props.push(entry("title", string_param_json("Optional short title.")));
    let req: [&str; 1] = ["content"];
    assert(keys_view(req@) =~= seq!["content"@]);
    let ghost pv = members_view(props@);
    assert(pv =~= seq![("content"@, string_param("Memory content to persist."@)), ("tier"@, enum_default_param(seq!["episodic"@, "semantic"@, "procedural"@], "Memory tier (default episodic)."@, "episodic"@)), ("tags"@, string_list_param("Tags to attach to the memory."@, true)), ("title"@, string_param("Optional short title."@))]);
    tool_definition("create_memory", "Write a durable AMS memory receipt or domain note.", props, &req)
}

/// The `get_task_board` tool definition.
pub open spec fn get_task_board_def() -> JsonV {
    tool_def("get_task_board"@, "Read the AMS task board summary: pending/active/done/failed counts and top task titles."@, Seq::empty(), Seq::empty())
}

/// Builds the `get_task_board` tool definition.
pub fn get_task_board_tool() -> (r: Json)
    ensures
        r@ == get_task_board_def(),
{
    let mut props: Vec<(String, Json)> = Vec::new();
    let req: [&str; 0] = [];
    assert(keys_view(req@) =~= Seq::<Seq<char>>::empty());
    let ghost pv = members_view(props@);
    assert(pv =~= Seq::<(Seq<char>, JsonV)>::empty());
    tool_definition("get_task_board", "Read the AMS task board summary: pending/active/done/failed counts and top task titles.", props, &req)
}

/// The `complete_task` tool definition.
pub open spec fn complete_task_def() -> JsonV {
    tool_def("complete_task"@, "Close out the CAP board task this dispatch claimed for you (the task_id in its [BOARD] line). Call it exactly once, only after the work is actually finished and every worker result has been fanned in. Never call it while a worker is still_running or the task is blocked; the board stays CLAIMED until you do, so a finished task you never close will be re-dispatched tomorrow."@, seq![("task_id"@, string_param("CAP task UUID from the [BOARD] line of the dispatch."@)), ("summary"@, string_param("What was delivered, with receipts: commits, files, memory ids, and the worker execution ids that produced the result."@)), ("worker_execution_ids"@, string_list_param("Execution ids (spawn-*) of the workers whose output this completion rests on."@, false))], seq!["task_id"@, "summary"@])
}

/// Builds the `complete_task` tool definition.
pub fn complete_task_tool() -> (r: Json)
    ensures
        r@ == complete_task_def(),
{
    let mut props: Vec<(String, Json)> = Vec::new();
    props.push(entry("task_id", string_param_json("CAP task UUID from the [BOARD] line of the dispatch.")));
    props.push(entry("summary", string_param_json("What was delivered, with receipts: commits, files, memory ids, and the worker execution ids that produced the result.")));
    props.push(entry("worker_execution_ids", string_list_param_json("Execution ids (spawn-*) of the workers whose output this completion rests on.", false)));
    let req: [&str; 2] = ["task_id", "summary"];
    assert(keys_view(req@) =~= seq!["task_id"@, "summary"@]);
    let ghost pv = members_view(props@);
    assert(pv =~= seq![("task_id"@, string_param("CAP task UUID from the [BOARD] line of the dispatch."@)), ("summary"@, string_param("What was delivered, with receipts: commits, files, memory ids, and the worker execution ids that produced the result."@)), ("worker_execution_ids"@, string_list_param("Execution ids (spawn-*) of the workers whose output this completion rests on."@, false))]);
    tool_definition("complete_task", "Close out the CAP board task this dispatch claimed for you (the task_id in its [BOARD] line). Call it exactly once, only after the work is actually finished and every worker result has been fanned in. Never call it while a worker is still_running or the task is blocked; the board stays CLAIMED until you do, so a finished task you never close will be re-dispatched tomorrow.", props, &req)
}

/// The `poll_worker_execution` tool definition.
pub open spec fn poll_worker_execution_def() -> JsonV {
    tool_def("poll_worker_execution"@, "Fan in on a worker execution you dispatched earlier (including on a previous turn) by its execution_id. Returns the terminal status and full output once the worker finishes, or status 'still_running' with partial output. Use this instead of re-dispatching a task whose wait window ran out."@, seq![("execution_id"@, string_param("The execution_id returned by dispatch_to_worker (e.g. spawn-ab12cd34ef56)."@)), ("wait_secs"@, integer_param("Optionally keep polling up to this many seconds (max 600) before giving up. Default 0 = check once and return."@, 0))], seq!["execution_id"@])
}

/// Builds the `poll_worker_execution` tool definition.
pub fn poll_worker_execution_tool() -> (r: Json)
    ensures
        r@ == poll_worker_execution_def(),
{
    let mut props: Vec<(String, Json)> = Vec::new();
    props.push(entry("execution_id", string_param_json("The execution_id returned by dispatch_to_worker (e.g. spawn-ab12cd34ef56).")));
    props.push(entry("wait_secs", integer_param_json("Optionally keep polling up to this many seconds (max 600) before giving up. Default 0 = check once and return.", 0)));
    let req: [&str; 1] = ["execution_id"];
    assert(keys_view(req@) =~= seq!["execution_id"@]);
    let ghost pv = members_view(props@);
    assert(pv =~= seq![("execution_id"@, string_param("The execution_id returned by dispatch_to_worker (e.g. spawn-ab12cd34ef56)."@)), ("wait_secs"@, integer_param("Optionally keep polling up to this many seconds (max 600) before giving up. Default 0 = check once and return."@, 0))]);
    tool_definition("poll_worker_execution", "Fan in on a worker execution you dispatched earlier (including on a previous turn) by its execution_id. Returns the terminal status and full output once the worker finishes, or status 'still_running' with partial output. Use this instead of re-dispatching a task whose wait window ran out.", props, &req)
}

/// The `search_memories` tool definition.
pub open spec fn search_memories_def() -> JsonV {
    tool_def("search_memories"@, "Search AMS memories for relevant domain knowledge, past decisions, and context."@, seq![("query"@, string_param("Search query to find relevant memories"@)), ("limit"@, integer_param("Max results to return (default 5)"@, 5))], seq!["query"@])
}

/// Builds the `search_memories` tool definition.
pub fn search_memories_tool() -> (r: Json)
    ensures
        r@ == search_memories_def(),
{
    let mut props: Vec<(String, Json)> = Vec::new();
    props.push(entry("query", string_param_json("Search query to find relevant memories")));
    props.push(entry("limit", integer_param_json("Max results to return (default 5)", 5)));
    let req: [&str; 1] = ["query"];
    assert(keys_view(req@) =~= seq!["query"@]);
    let ghost pv = members_view(props@);
    assert(pv =~= seq![("query"@, string_param("Search query to find relevant memories"@)), ("limit"@, integer_param("Max results to return (default 5)"@, 5))]);
    tool_definition("search_memories", "Search AMS memories for relevant domain knowledge, past decisions, and context.", props, &req)
}

/// The `list_workers` tool definition.
pub open spec fn list_workers_def() -> JsonV {
    tool_def("list_workers"@, "List your domain specialists that can be dispatched to. Scoped to this TL only."@, Seq::empty(), Seq::empty())
}

/// Builds the `list_workers` tool definition.
pub fn list_workers_tool() -> (r: Json)
    ensures
        r@ == list_workers_def(),
{
    let mut props: Vec<(String, Json)> = Vec::new();
    let req: [&str; 0] = [];
    assert(keys_view(req@) =~= Seq::<Seq<char>>::empty());
    let ghost pv = members_view(props@);
    assert(pv =~= Seq::<(Seq<char>, JsonV)>::empty());
    tool_definition("list_workers", "List your domain specialists that can be dispatched to. Scoped to this TL only.", props, &req)
}

/// The `dispatch_to_tl` tool definition.
pub open spec fn dispatch_to_tl_def() -> JsonV {
    tool_def("dispatch_to_tl"@, "Dispatch a task to a Team Lead agent. The TL will route it to appropriate specialist workers in their domain. Use this to delegate work — you orchestrate, they execute."@, seq![("tl_name"@, string_param("Team Lead agent name (e.g. tl-engineering, tl-marketing, tl-product, tl-design, tl-sales, tl-gamedev, tl-academic, tl-paid-media, tl-project-mgmt, tl-spatial, tl-support, tl-testing, tl-specialized)"@)), ("task"@, string_param("Detailed task description. Include context, requirements, and expected deliverables."@)), ("priority"@, enum_param(seq!["low"@, "normal"@, "high"@, "urgent"@], "Task priority level (default: normal)"@))], seq!["tl_name"@, "task"@])
}

/// Builds the `dispatch_to_tl` tool definition.
pub fn dispatch_to_tl_tool() -> (r: Json)
    ensures
        r@ == dispatch_to_tl_def(),
{
    let mut props: Vec<(String, Json)> = Vec::new();
    props.push(entry("tl_name", string_param_json("Team Lead agent name (e.g. tl-engineering, tl-marketing, tl-product, tl-design, tl-sales, tl-gamedev, tl-academic, tl-paid-media, tl-project-mgmt, tl-spatial, tl-support, tl-testing, tl-specialized)")));
    props.push(entry("task", string_param_json("Detailed task description. Include context, requirements, and expected deliverables.")));
    let v2: [&str; 4] = ["low", "normal", "high", "urgent"];
    assert(keys_view(v2@) =~= seq!["low"@, "normal"@, "high"@, "urgent"@]);
    props.push(entry("priority", enum_param_json(&v2, "Task priority level (default: normal)")));
    let req: [&str; 2] = ["tl_name", "task"];
    assert(keys_view(req@) =~= seq!["tl_name"@, "task"@]);
    let ghost pv = members_view(props@);
    assert(pv =~= seq![("tl_name"@, string_param("Team Lead agent name (e.g. tl-engineering, tl-marketing, tl-product, tl-design, tl-sales, tl-gamedev, tl-academic, tl-paid-media, tl-project-mgmt, tl-spatial, tl-support, tl-testing, tl-specialized)"@)), ("task"@, string_param("Detailed task description. Include context, requirements, and expected deliverables."@)), ("priority"@, enum_param(seq!["low"@, "normal"@, "high"@, "urgent"@], "Task priority level (default: normal)"@))]);
    tool_definition("dispatch_to_tl", "Dispatch a task to a Team Lead agent. The TL will route it to appropriate specialist workers in their domain. Use this to delegate work — you orchestrate, they execute.", props, &req)
}

/// The `list_tl_agents` tool definition.
pub open spec fn list_tl_agents_def() -> JsonV {
    tool_def("list_tl_agents"@, "List all available Team Lead agents and their current status."@, Seq::empty(), Seq::empty())
}

/// Builds the `list_tl_agents` tool definition.
pub fn list_tl_agents_tool() -> (r: Json)
    ensures
        r@ == list_tl_agents_def(),
{
    let mut props: Vec<(String, Json)> = Vec::new();
    let req: [&str; 0] = [];
    assert(keys_view(req@) =~= Seq::<Seq<char>>::empty());
    let ghost pv = members_view(props@);
    assert(pv =~= Seq::<(Seq<char>, JsonV)>::empty());
    tool_definition("list_tl_agents", "List all available Team Lead agents and their current status.", props, &req)
}

/// The `create_goal_task` tool definition.
pub open spec fn create_goal_task_def() -> JsonV {
    tool_def("create_goal_task"@, "Create a goal/task for DLPFC to route via NEXUS. Use this for complex multi-domain tasks that need intelligent routing rather than direct TL dispatch."@, seq![("title"@, string_param("Short task title"@)), ("description"@, string_param("Detailed task description with context and requirements"@)), ("priority"@, enum_param(seq!["low"@, "normal"@, "high"@, "urgent"@], "Task priority (default: normal)"@))], seq!["title"@])
}

/// Builds the `create_goal_task` tool definition.
pub fn create_goal_task_tool() -> (r: Json)
    ensures
        r@ == create_goal_task_def(),
{
    let mut props: Vec<(String, Json)> = Vec::new();
    props.push(entry("title", string_param_json("Short task title")));
    props.push(entry("description", string_param_json("Detailed task description with context and requirements")));
    let v2: [&str; 4] = ["low", "normal", "high", "urgent"];
    assert(keys_view(v2@) =~= seq!["low"@, "normal"@, "high"@, "urgent"@]);
    props.push(entry("priority", enum_param_json(&v2, "Task priority (default: normal)")));
    let req: [&str; 1] = ["title"];
    assert(keys_view(req@) =~= seq!["title"@]);
    let ghost pv = members_view(props@);
    assert(pv =~= seq![("title"@, string_param("Short task title"@)), ("description"@, string_param("Detailed task description with context and requirements"@)), ("priority"@, enum_param(seq!["low"@, "normal"@, "high"@, "urgent"@], "Task priority (default: normal)"@))]);
    tool_definition("create_goal_task", "Create a goal/task for DLPFC to route via NEXUS. Use this for complex multi-domain tasks that need intelligent routing rather than direct TL dispatch.", props, &req)
}

/// The `mcp_list_servers` tool definition.
pub open spec fn mcp_list_servers_def() -> JsonV {
    tool_def("mcp_list_servers"@, "List MCP servers available through AMS gateway and their health/connectivity stats."@, Seq::empty(), Seq::empty())
}

/// Builds the `mcp_list_servers` tool definition.
pub fn mcp_list_servers_tool() -> (r: Json)
    ensures
        r@ == mcp_list_servers_def(),
{
    let mut props: Vec<(String, Json)> = Vec::new();
    let req: [&str; 0] = [];
    assert(keys_view(req@) =~= Seq::<Seq<char>>::empty());
    let ghost pv = members_view(props@);
    assert(pv =~= Seq::<(Seq<char>, JsonV)>::empty());
    tool_definition("mcp_list_servers", "List MCP servers available through AMS gateway and their health/connectivity stats.", props, &req)
}

/// The `mcp_call_tool` tool definition.
pub open spec fn mcp_call_tool_def() -> JsonV {
    tool_def("mcp_call_tool"@, "Call a tool on an MCP server through AMS MCP gateway."@, seq![("server"@, string_param("MCP server name (use mcp_list_servers first)."@)), ("tool"@, string_param("Tool name exposed by the selected MCP server."@)), ("arguments"@, object_param("Arguments object passed to the MCP tool."@)), ("timeout_seconds"@, integer_param("Optional timeout in seconds (default 30)."@, 30))], seq!["server"@, "tool"@])
}

/// Builds the `mcp_call_tool` tool definition.
pub fn mcp_call_tool_tool() -> (r: Json)
    ensures
        r@ == mcp_call_tool_def(),
{
    let mut props: Vec<(String, Json)> = Vec::new();
    props.push(entry("server", string_param_json("MCP server name (use mcp_list_servers first).")));
    props.push(entry("tool", string_param_json("Tool name exposed by the selected MCP server.")));
    props.push(entry("arguments", object_param_json("Arguments object passed to the MCP tool.")));
    props.push(entry("timeout_seconds", integer_param_json("Optional timeout in seconds (default 30).", 30)));
    let req: [&str; 2] = ["server", "tool"];
    assert(keys_view(req@) =~= seq!["server"@, "tool"@]);
    let ghost pv = members_view(props@);
    assert(pv =~= seq![("server"@, string_param("MCP server name (use mcp_list_servers first)."@)), ("tool"@, string_param("Tool name exposed by the selected MCP server."@)), ("arguments"@, object_param("Arguments object passed to the MCP tool."@)), ("timeout_seconds"@, integer_param("Optional timeout in seconds (default 30)."@, 30))]);
    tool_definition("mcp_call_tool", "Call a tool on an MCP server through AMS MCP gateway.", props, &req)
}

/// The `search_memories` tool definition.
pub open spec fn search_memories_mcp_def() -> JsonV {
    tool_def("search_memories"@, "Search AMS memories for relevant context before/after MCP calls."@, seq![("query"@, string_param("Search query to find relevant memories"@)), ("limit"@, integer_param("Max results to return (default 5)"@, 5))], seq!["query"@])
}

/// Builds the `search_memories` tool definition.
pub fn search_memories_mcp_tool() -> (r: Json)
    ensures
        r@ == search_memories_mcp_def(),
{
    let mut props: Vec<(String, Json)> = Vec::new();
    props.push(entry("query", string_param_json("Search query to find relevant memories")));
    props.push(entry("limit", integer_param_json("Max results to return (default 5)", 5)));
    let req: [&str; 1] = ["query"];
    assert(keys_view(req@) =~= seq!["query"@]);
    let ghost pv = members_view(props@);
    assert(pv =~= seq![("query"@, string_param("Search query to find relevant memories"@)), ("limit"@, integer_param("Max results to return (default 5)"@, 5))]);
    tool_definition("search_memories", "Search AMS memories for relevant context before/after MCP calls.", props, &req)
}

/// The `dispatch_to_worker` tool definition.
pub open spec fn dispatch_to_worker_def(worker_schema: JsonV) -> JsonV {
    tool_def("dispatch_to_worker"@, "Dispatch a subtask to one of your domain specialists. The worker will execute the task and produce a result."@, seq![("worker_name"@, worker_schema), ("task"@, string_param("Detailed task description for the worker. Include context, requirements, and expected deliverables."@)), ("timeout_secs"@, integer_param("How long to wait for the worker's result before returning status 'still_running' (default 900). Workers keep running past this and their output persists on the Observatory execution row, so running out of time is not a failure: fan the result in later with poll_worker_execution."@, 900))], seq!["worker_name"@, "task"@])
}

/// Builds the `dispatch_to_worker` tool definition.
pub fn dispatch_to_worker_tool(worker_schema: Json) -> (r: Json)
    ensures
        r@ == dispatch_to_worker_def(worker_schema@),
{
    let mut props: Vec<(String, Json)> = Vec::new();
    props.push(entry("worker_name", worker_schema));
    props.push(entry("task", string_param_json("Detailed task description for the worker. Include context, requirements, and expected deliverables.")));
    props.push(entry("timeout_secs", integer_param_json("How long to wait for the worker's result before returning status 'still_running' (default 900). Workers keep running past this and their output persists on the Observatory execution row, so running out of time is not a failure: fan the result in later with poll_worker_execution.", 900)));
    let req: [&str; 2] = ["worker_name", "task"];
    assert(keys_view(req@) =~= seq!["worker_name"@, "task"@]);
    let ghost pv = members_view(props@);
    assert(pv =~= seq![("worker_name"@, worker_schema@), ("task"@, string_param("Detailed task description for the worker. Include context, requirements, and expected deliverables."@)), ("timeout_secs"@, integer_param("How long to wait for the worker's result before returning status 'still_running' (default 900). Workers keep running past this and their output persists on the Observatory execution row, so running out of time is not a failure: fan the result in later with poll_worker_execution."@, 900))]);
    tool_definition("dispatch_to_worker", "Dispatch a subtask to one of your domain specialists. The worker will execute the task and produce a result.", props, &req)
}

} // verus!
