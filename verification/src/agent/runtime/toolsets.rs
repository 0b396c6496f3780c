//! Which tools each kind of agent is offered.

use vstd::prelude::*;
use crate::json::{Json, JsonV, jget, jstr, or_else};
use crate::text::{chars_of, string_from_chars, take_chars, truncate_chars};
use crate::llm::kilo::{trim, trim_from, join_lines};
use crate::agent::runtime::worker::entry;
use crate::agent::runtime::replies::arg_text_or;
use crate::agent::runtime::schema::{string_param, string_param_json, enum_param, text_values};
use crate::agent::runtime::definitions::{create_memory_def, create_memory_tool, get_task_board_def, get_task_board_tool, complete_task_def, complete_task_tool, poll_worker_execution_def, poll_worker_execution_tool, search_memories_def, search_memories_tool, list_workers_def, list_workers_tool, dispatch_to_tl_def, dispatch_to_tl_tool, list_tl_agents_def, list_tl_agents_tool, create_goal_task_def, create_goal_task_tool, mcp_list_servers_def, mcp_list_servers_tool, mcp_call_tool_def, mcp_call_tool_tool, search_memories_mcp_def, search_memories_mcp_tool, dispatch_to_worker_def, dispatch_to_worker_tool};

verus! {

/// Definitions as values.
pub open spec fn defs_view(v: Seq<Json>) -> Seq<JsonV> {
    Seq::new(v.len(), |i: int| v[i]@)
}

/// The orchestrator's tools: dispatch to team leads, list them, create goal
/// tasks, search and write memories, read the task board.
pub open spec fn orchestrator_defs() -> Seq<JsonV> {
    seq![dispatch_to_tl_def(), list_tl_agents_def(), create_goal_task_def(), search_memories_def(),
        create_memory_def(), get_task_board_def()]
}

/// Tool definitions for orchestrator agents, which dispatch to team leads
/// rather than to workers.
pub fn orchestrator_tool_definitions() -> (r: Vec<Json>)
    ensures
        defs_view(r@) == orchestrator_defs(),
{
    let mut v: Vec<Json> = Vec::new();
    v.push(dispatch_to_tl_tool());
    v.push(list_tl_agents_tool());
    v.push(create_goal_task_tool());
    v.push(search_memories_tool());
    v.push(create_memory_tool());
    v.push(get_task_board_tool());
    assert(defs_view(v@) =~= orchestrator_defs());
    v
}

/// The MCP bridge tools: list servers, call a tool, search and write
/// memories, read the task board.
pub open spec fn mcp_bridge_defs() -> Seq<JsonV> {
    seq![mcp_list_servers_def(), mcp_call_tool_def(), search_memories_mcp_def(), create_memory_def(),
        get_task_board_def()]
}

/// Tool definitions for agents that are neither team leads nor the
/// orchestrator but have tools enabled: they reach MCP through the AMS gateway.
pub fn mcp_bridge_tool_definitions() -> (r: Vec<Json>)
    ensures
        defs_view(r@) == mcp_bridge_defs(),
{
    let mut v: Vec<Json> = Vec::new();
    v.push(mcp_list_servers_tool());
    v.push(mcp_call_tool_tool());
    v.push(search_memories_mcp_tool());
    v.push(create_memory_tool());
    v.push(get_task_board_tool());
    assert(defs_view(v@) =~= mcp_bridge_defs());
    v
}

/// A specialist row's name: its `agent_id`, else its `name`, when a string.
pub open spec fn specialist_name(a: JsonV) -> Option<Seq<char>> {
    jstr(or_else(jget(a, "agent_id"@), jget(a, "name"@)))
}

/// The names of the first `n` specialist rows that have one.
pub open spec fn specialist_names(rows: Seq<JsonV>, n: int) -> Seq<Seq<char>>
    decreases n,
{
    if n <= 0 || n > rows.len() {
        Seq::empty()
    } else {
        match specialist_name(rows[n - 1]) {
            Some(s) => specialist_names(rows, n - 1).push(s),
            None => specialist_names(rows, n - 1),
        }
    }
}

/// A specialist's roster line: `- name`, or `- name: description` with the
/// trimmed description cut to 160 characters and `...` when longer.
pub open spec fn roster_line(name: Seq<char>, a: JsonV) -> Seq<char> {
    let desc = trim(arg_text_or(a, "description"@, Seq::empty()));
    if desc.len() == 0 {
        "- "@ + name
    } else {
        "- "@ + name + ": "@ + (if desc.len() > 160 { take_chars(desc, 160) + "..."@ } else { desc })
    }
}

/// The roster lines of the first `n` specialist rows that have a name.
pub open spec fn roster_lines(rows: Seq<JsonV>, n: int) -> Seq<Seq<char>>
    decreases n,
{
    if n <= 0 || n > rows.len() {
        Seq::empty()
    } else {
        match specialist_name(rows[n - 1]) {
            Some(s) => roster_lines(rows, n - 1).push(roster_line(s, rows[n - 1])),
            None => roster_lines(rows, n - 1),
        }
    }
}

/// The roster description offered with `worker_name`.
pub open spec fn roster_description(rows: Seq<JsonV>) -> Seq<char> {
    if specialist_names(rows, rows.len() as int).len() == 0 {
        "No domain specialists are registered for you. Report this to the caller."@
    } else {
        "Available specialists (domain-scoped). Pick the one whose role best fits the task. Do NOT invent names:\n"@
            + join_lines(roster_lines(rows, rows.len() as int))
    }
}

/// The `worker_name` schema: a string with the roster as description,
/// limited to the specialists' names when there are any.
pub open spec fn worker_schema(rows: Seq<JsonV>) -> JsonV {
    let names = specialist_names(rows, rows.len() as int);
    if names.len() == 0 {
        string_param(roster_description(rows))
    } else {
        enum_param(names, roster_description(rows))
    }
}

/// The team lead's tools: dispatch to and poll its specialists, search and
/// write memories, read the task board, close its task, list its workers.
pub open spec fn tl_defs(rows: Seq<JsonV>) -> Seq<JsonV> {
    seq![dispatch_to_worker_def(worker_schema(rows)), poll_worker_execution_def(), search_memories_def(),
        create_memory_def(), get_task_board_def(), complete_task_def(), list_workers_def()]
}

fn name_of(a: &Json) -> (r: Option<&str>)
    ensures
        crate::agent::runtime::worker::opt_view(r) == specialist_name(a@),
{
    let v = match a.get("agent_id") {
        Some(v) => v,
        None => match a.get("name") {
            Some(v) => v,
            None => return None,
        },
    };
    v.as_str()
}

fn roster_line_of(name: &str, a: &Json) -> (r: String)
    ensures
        r@ == roster_line(name@, a@),
{
    let empty = "";
    proof {
        reveal_strlit("");
    }
    let d = crate::agent::runtime::replies::arg_str_or(a, "description", empty);
    let dc = chars_of(d);
    let desc = trim_from(&dc, 0);
    assert(dc@.skip(0) =~= dc@);
    let mut line = "- ".to_string();
    line.append(name);
    if desc.len() == 0 {
        return line;
    }
    line.append(": ");
    let ds = string_from_chars(desc.as_slice());
    if desc.len() > 160 {
        let t = truncate_chars(ds.as_str(), 160);
        line.append(t.as_str());
        line.append("...");
    } else {
        line.append(ds.as_str());
    }
    line
}

/// Tool definitions for team leads. `specialists` is the domain-scoped
/// roster; `worker_name` is limited to its names, so the model cannot
/// invent a worker that does not exist.
pub fn tl_tool_definitions(specialists: &[Json]) -> (r: Vec<Json>)
    ensures
        defs_view(r@) == tl_defs(defs_view(specialists@)),
{
    let ghost rows = defs_view(specialists@);
    let mut names: Vec<&str> = Vec::new();
    let mut lines: String = String::new();
    let mut i: usize = 0;
    while i < specialists.len()
        invariant
            i <= specialists@.len(),
            rows == defs_view(specialists@),
            crate::agent::runtime::worker::keys_view(names@) == specialist_names(rows, i as int),
            roster_lines(rows, i as int).len() == specialist_names(rows, i as int).len(),
            lines@ == join_lines(roster_lines(rows, i as int)),
        decreases specialists.len() - i,
    {
        match name_of(&specialists[i]) {
            Some(n) => {
                let ghost before = roster_lines(rows, i as int);
                let ghost prev = lines@;
                assert(names@.len() == before.len());
                proof {
                    reveal_strlit("\n");
                }
                let line = roster_line_of(n, &specialists[i]);
                if names.len() > 0 {
                    lines.append("\n");
                }
                lines.append(line.as_str());
                names.push(n);
                assert(crate::agent::runtime::worker::keys_view(names@) =~= specialist_names(rows, i + 1));
                assert(roster_lines(rows, i + 1) == before.push(line@));
                assert(before.push(line@).drop_last() =~= before);
                proof {
                    if before.len() == 0 {
                        assert(lines@ =~= line@);
                        assert(join_lines(before.push(line@)) == line@);
                    } else {
                        assert(lines@ =~= prev + seq!['\n'] + line@);
                    }
                }
                assert(lines@ =~= join_lines(before.push(line@)));
            },
            None => {},
        }
        i += 1;
    }
    let roster = if names.len() == 0 {
        "No domain specialists are registered for you. Report this to the caller.".to_string()
    } else {
        let mut s = "Available specialists (domain-scoped). Pick the one whose role best fits the task. Do NOT invent names:\n".to_string();
        s.append(lines.as_str());
        s
    };
    let schema = if names.len() == 0 {
        string_param_json(roster.as_str())
    } else {
        crate::agent::runtime::schema::enum_param_json(names.as_slice(), roster.as_str())
    };
    let mut v: Vec<Json> = Vec::new();
    v.push(dispatch_to_worker_tool(schema));
    v.push(poll_worker_execution_tool());
    v.push(search_memories_tool());
    v.push(create_memory_tool());
    v.push(get_task_board_tool());
    v.push(complete_task_tool());
    v.push(list_workers_tool());
    assert(defs_view(v@) =~= tl_defs(rows));
    v
}

} // verus!
