use abot::agent::runtime::replies::{complete_task_record, complete_task_result, plan_complete_task, plan_create_memory};
use abot::agent::runtime::status::AgentStatus;
use abot::agent::runtime::board::task_board_summary;
use abot::agent::runtime::toolsets::{orchestrator_tool_definitions, tl_tool_definitions, mcp_bridge_tool_definitions};
use abot::agent::runtime::worker::{
    is_terminal_exec_status, pending_worker_result, summarize_rollup_text, terminal_worker_result,
};
use abot::json::{Json, JsonNumber};
use abot::text::truncate_chars;

fn obj(members: Vec<(&str, Json)>) -> Json {
    Json::Object(members.into_iter().map(|(k, v)| (k.to_string(), v)).collect())
}

fn text(s: &str) -> Json {
    Json::Str(s.to_string())
}

fn str_at<'a>(j: &'a Json, key: &str) -> Option<&'a str> {
    j.get(key).and_then(|v| v.as_str())
}

fn bool_at(j: &Json, key: &str) -> Option<bool> {
    match j.get(key) {
        Some(Json::Bool(b)) => Some(*b),
        _ => None,
    }
}

#[test]
fn truncate_chars_respects_utf8_boundaries() {
    let value = format!("{}étail", "a".repeat(199));
    let truncated = truncate_chars(&value, 200);

    assert_eq!(truncated.chars().count(), 200);
    assert_eq!(truncated, format!("{}é", "a".repeat(199)));
}

#[test]
fn truncate_chars_supports_description_ellipsis() {
    let description = format!("{}émore", "a".repeat(159));
    let truncated = truncate_chars(&description, 160);
    let short = if truncated.len() < description.len() {
        format!("{}...", truncated)
    } else {
        description.clone()
    };

    assert_eq!(short, format!("{}é...", "a".repeat(159)));
}

#[test]
fn summarize_rollup_text_appends_ellipsis_after_500_chars() {
    let value = format!("{}étail", "a".repeat(499));

    assert_eq!(summarize_rollup_text(&value), format!("{}é...", "a".repeat(499)));
}

#[test]
fn summarize_rollup_text_keeps_short_values_unchanged() {
    let value = "short summary";

    assert_eq!(summarize_rollup_text(value), value);
}

#[test]
fn error_and_timeout_rows_are_terminal() {
    for status in ["completed", "failed", "killed", "error", "timeout"] {
        assert!(is_terminal_exec_status(status), "{status} should be terminal");
    }
    for status in ["queued", "running", "bridged", "unknown"] {
        assert!(!is_terminal_exec_status(status), "{status} should not be terminal");
    }
}

#[test]
fn terminal_result_is_ok_only_when_completed() {
    let exec = obj(vec![("output", text("done")), ("duration_ms", Json::Number(JsonNumber::PosInt(1200)))]);
    let completed = terminal_worker_result(Some("coder"), "spawn-1", "completed", &exec);
    assert_eq!(bool_at(&completed, "ok"), Some(true));
    assert_eq!(str_at(&completed, "output"), Some("done"));
    assert_eq!(bool_at(&completed, "terminal"), Some(true));

    let failed = terminal_worker_result(Some("coder"), "spawn-1", "error", &exec);
    assert_eq!(bool_at(&failed, "ok"), Some(false));
    assert_eq!(str_at(&failed, "status"), Some("error"));
    assert_eq!(bool_at(&failed, "terminal"), Some(true));
}

#[test]
fn pending_result_carries_partial_output_and_resume_call() {
    let exec = obj(vec![("status", text("running")), ("output", text("half a report"))]);
    let pending = pending_worker_result(Some("coder"), "spawn-9", "running", 900, Some(&exec));

    assert_eq!(str_at(&pending, "status"), Some("still_running"));
    assert_eq!(bool_at(&pending, "terminal"), Some(false));
    assert_eq!(str_at(&pending, "observed_status"), Some("running"));
    assert_eq!(str_at(&pending, "partial_output"), Some("half a report"));
    let resume = pending.get("resume_with").unwrap();
    assert_eq!(str_at(resume, "tool"), Some("poll_worker_execution"));
    assert_eq!(str_at(resume.get("arguments").unwrap(), "execution_id"), Some("spawn-9"));
}

#[test]
fn pending_result_without_a_row_has_no_partial_output() {
    let pending = pending_worker_result(None, "spawn-9", "unknown", 180, None);

    assert_eq!(str_at(&pending, "status"), Some("still_running"));
    assert!(matches!(pending.get("partial_output"), Some(Json::Null)));
    let resume = pending.get("resume_with").unwrap();
    assert_eq!(str_at(resume.get("arguments").unwrap(), "execution_id"), Some("spawn-9"));
}

fn tool_names(defs: &[Json]) -> Vec<String> {
    defs.iter()
        .filter_map(|t| t.get("function").and_then(|f| str_at(f, "name")).map(str::to_string))
        .collect()
}

#[test]
fn tl_toolset_exposes_complete_task() {
    let names = tool_names(&tl_tool_definitions(&[]));

    assert!(names.iter().any(|n| n == "complete_task"));
    assert!(names.iter().any(|n| n == "poll_worker_execution"));
}

#[test]
fn complete_task_result_carries_receipts() {
    let workers = Json::Array(vec![text("spawn-1"), Json::Number(JsonNumber::PosInt(7)), text("spawn-2")]);
    let result = complete_task_result("done", "tl-engineering", Some("exec-9"), Some(&workers));

    assert_eq!(str_at(&result, "summary"), Some("done"));
    assert_eq!(str_at(&result, "completed_by"), Some("tl-engineering"));
    assert_eq!(str_at(&result, "execution_id"), Some("exec-9"));
    match result.get("worker_execution_ids") {
        Some(Json::Array(ids)) => {
            let ids: Vec<&str> = ids.iter().filter_map(|v| v.as_str()).collect();
            assert_eq!(ids, vec!["spawn-1", "spawn-2"]);
        },
        other => panic!("unexpected worker ids: {other:?}"),
    }
    assert_eq!(str_at(&result, "source"), Some("abot.complete_task"));
    assert!(str_at(&result, "completed_at").is_some());
}

#[test]
fn complete_task_record_stamps_given_time() {
    let result = complete_task_record("s", "me", None, None, "2026-01-01T00:00:00+00:00");
    assert_eq!(str_at(&result, "completed_at"), Some("2026-01-01T00:00:00+00:00"));
    assert!(matches!(result.get("execution_id"), Some(Json::Null)));
    assert!(matches!(result.get("worker_execution_ids"), Some(Json::Array(v)) if v.is_empty()));
}

#[test]
fn agent_status_wire_names() {
    assert_eq!(AgentStatus::Booting.as_str(), "booting");
    assert_eq!(AgentStatus::Idle.as_str(), "idle");
    assert_eq!(AgentStatus::Working.as_str(), "working");
    assert_eq!(AgentStatus::Dying.as_str(), "dying");
}

#[test]
fn tl_toolset_lists_specialists_in_worker_enum() {
    let rows = vec![
        obj(vec![("agent_id", text("engineering-backend")), ("description", text("  Builds APIs  "))]),
        obj(vec![("name", text("engineering-frontend"))]),
        obj(vec![("other", text("x"))]),
    ];
    let defs = tl_tool_definitions(&rows);
    assert_eq!(tool_names(&defs), vec![
        "dispatch_to_worker", "poll_worker_execution", "search_memories", "create_memory",
        "get_task_board", "complete_task", "list_workers",
    ]);
    let schema = defs[0].get("function").unwrap().get("parameters").unwrap().get("properties").unwrap()
        .get("worker_name").unwrap();
    match schema.get("enum") {
        Some(Json::Array(v)) => {
            let names: Vec<&str> = v.iter().filter_map(|x| x.as_str()).collect();
            assert_eq!(names, vec!["engineering-backend", "engineering-frontend"]);
        },
        other => panic!("no enum: {other:?}"),
    }
    assert_eq!(
        str_at(schema, "description"),
        Some("Available specialists (domain-scoped). Pick the one whose role best fits the task. Do NOT invent names:\n- engineering-backend: Builds APIs\n- engineering-frontend")
    );
}

#[test]
fn tl_toolset_without_specialists_has_no_enum() {
    let defs = tl_tool_definitions(&[]);
    let schema = defs[0].get("function").unwrap().get("parameters").unwrap().get("properties").unwrap()
        .get("worker_name").unwrap();
    assert!(schema.get("enum").is_none());
    assert_eq!(
        str_at(schema, "description"),
        Some("No domain specialists are registered for you. Report this to the caller.")
    );
}

#[test]
fn other_toolsets_offer_their_tools() {
    assert_eq!(tool_names(&orchestrator_tool_definitions()), vec![
        "dispatch_to_tl", "list_tl_agents", "create_goal_task", "search_memories", "create_memory", "get_task_board",
    ]);
    assert_eq!(tool_names(&mcp_bridge_tool_definitions()), vec![
        "mcp_list_servers", "mcp_call_tool", "search_memories", "create_memory", "get_task_board",
    ]);
}

#[test]
fn complete_task_requires_a_uuid() {
    let args = obj(vec![("task_id", text("  not-a-uuid ")), ("summary", text("done"))]);
    let err = plan_complete_task(&args).unwrap_err();
    assert_eq!(str_at(&err, "error"), Some("task_id must be the CAP task UUID from the [BOARD] line"));

    let args = obj(vec![("task_id", text(" 67e55044-10b1-426f-9247-bb680e5fe0c8 ")), ("summary", text(" done "))]);
    let (id, summary) = plan_complete_task(&args).unwrap();
    assert_eq!(id, "67e55044-10b1-426f-9247-bb680e5fe0c8");
    assert_eq!(summary, "done");

    let args = obj(vec![("task_id", text("   "))]);
    let err = plan_complete_task(&args).unwrap_err();
    assert_eq!(str_at(&err, "error"), Some("task_id and summary are required"));
}

#[test]
fn create_memory_adds_agent_tag_and_default_title() {
    let args = obj(vec![
        ("content", text("remember this")),
        ("tags", Json::Array(vec![text("a"), Json::Bool(true), text("b")])),
    ]);
    let plan = plan_create_memory(&args, "tl-x").ok().unwrap();
    assert_eq!(plan.tags, vec!["a", "b", "agent:tl-x"]);
    assert_eq!(plan.title, "tl-x memory receipt");
    assert_eq!(plan.memory_tier, "episodic");

    let args = obj(vec![("content", text("x")), ("tier", text("bogus"))]);
    let err = plan_create_memory(&args, "tl-x").err().unwrap();
    assert_eq!(str_at(&err, "error"), Some("tier must be one of episodic, semantic, procedural"));

    let args = obj(vec![("content", text("  "))]);
    let err = plan_create_memory(&args, "tl-x").err().unwrap();
    assert_eq!(str_at(&err, "error"), Some("content is required"));
}

#[test]
fn board_counts_add_up_to_the_items() {
    let board = Json::Array(vec![
        obj(vec![("status", text("todo")), ("title", text("a"))]),
        obj(vec![("status", text("In Progress")), ("title", text("b"))]),
        obj(vec![("state", text("completed")), ("title", text("c"))]),
        obj(vec![("status", text("cancelled")), ("title", text("d"))]),
        obj(vec![("status", text("weird")), ("title", text("not an item"))]),
        obj(vec![("done", Json::Array(vec![obj(vec![("title", text("e"))])]))]),
    ]);
    let summary = task_board_summary(&board);
    let counts = summary.get("counts").unwrap();
    let n = |k: &str| counts.get(k).and_then(|v| v.as_u64()).unwrap();
    assert_eq!((n("pending"), n("active"), n("done"), n("failed")), (1, 1, 2, 1));
    let top = summary.get("top_tasks").and_then(|v| v.as_array()).unwrap();
    assert_eq!(n("pending") + n("active") + n("done") + n("failed"), top.len() as u64);
}
