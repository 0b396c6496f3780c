use abot::agent::runtime::dispatch::{new_dispatch_id, new_fleet_execution_id, plan_tool, ToolPlan};
use abot::agent::runtime::lifecycle::{addressed_to_agent, birth_metadata, fleet_metadata, AgentState, LoopStep};
use abot::agent::runtime::replies::{
    create_memory_reply, dispatch_to_tl_reply, goal_task_reply, list_tl_agents_reply, list_workers_reply,
    passthrough_reply, search_hit_summary, task_board_reply, tl_specialist_prefix, ToolReply,
};
use abot::agent::runtime::status::AgentStatus;
use abot::agent::runtime::steering::{
    activation_for, kilo_bridge_for, kilo_mode, kilo_prompt_text, prompt_of, requested_model, toolset_for,
    tools_enabled, Toolset,
};
use abot::agent::runtime::toolloop::{
    add_tokens, created_memory_id, orchestration_memory, posts_to_chat, rollup_steering, single_shot_outcome,
    ToolCompletion, ToolLoop,
};
use abot::agent::runtime::wait::{dispatch_failed_reply, DispatchWait, PollWait};
use abot::ams::endpoints::{array_items, chat_payload, goal_payload, steering_payload, AmsEndpoints};
use abot::ams::llm::GenerationResult;
use abot::ams::messages::SteeringMessage;
use abot::ams::warden::{AmsHeartbeatResponse, Directive, HeartbeatResponse};
use abot::config::{
    default_agent_id, default_connect_timeout, default_engine, default_epoch_deadline, default_fuel_limit,
    default_hands_dir, default_heartbeat_interval, default_log_format, default_log_level, default_mcp_port,
    default_memory_limit, default_metrics_port, default_request_timeout, default_true, AbotConfig, AgentConfig,
    AmsConfig, ChannelsConfig, EnvOverrides, HandsConfig, KiloConfig, LlmConfig, LlmProvider, McpConfig,
    SandboxConfig, SecurityConfig, TelemetryConfig,
};
use abot::hand::{HandIdentity, HandManifest, HandPersona, LoadedHand};
use abot::json::{Json, JsonNumber};
use abot::llm::kilo::{KiloError, KiloMode};

fn obj(members: Vec<(&str, Json)>) -> Json {
    Json::Object(members.into_iter().map(|(k, v)| (k.to_string(), v)).collect())
}

fn text(s: &str) -> Json {
    Json::Str(s.to_string())
}

fn num(n: u64) -> Json {
    Json::Number(JsonNumber::PosInt(n))
}

fn str_at<'a>(j: &'a Json, key: &str) -> Option<&'a str> {
    j.get(key).and_then(|v| v.as_str())
}

fn hand(archetype: &str, model: &str, prompt: Option<&str>) -> LoadedHand {
    LoadedHand {
        manifest: HandManifest {
            schema_version: String::new(),
            hand: HandIdentity {
                name: "researcher".into(),
                agent_id: String::new(),
                description: "finds things".into(),
                persona: String::new(),
                archetype: archetype.into(),
                domain: "research".into(),
                primary_use: String::new(),
                skill_file: String::new(),
                system_prompt_file: String::new(),
                default_model: model.into(),
                launcher_group: String::new(),
            },
            matching: None,
            runtime: None,
            persona: Some(HandPersona { role: "analyst".into(), style: "terse".into(), focus: String::new() }),
            tool_permissions: vec!["admin".into()],
            goals: vec!["learn".into()],
            tags: vec![],
        },
        dir: "/hands/researcher".into(),
        system_prompt: prompt.map(str::to_string),
    }
}

#[test]
fn json_text_is_compact_and_escaped() {
    let v = obj(vec![
        ("a", num(1)),
        ("b", Json::Array(vec![Json::Null, Json::Bool(true), Json::Number(JsonNumber::NegInt(-42))])),
        ("c", text("q\"\\\n\u{1}é")),
        ("d", Json::Number(JsonNumber::Float("1.5".into()))),
    ]);
    assert_eq!(v.to_text(), "{\"a\":1,\"b\":[null,true,-42],\"c\":\"q\\\"\\\\\\n\\u0001é\",\"d\":1.5}");
    assert_eq!(Json::Number(JsonNumber::NegInt(i64::MIN)).to_text(), "-9223372036854775808");
    assert_eq!(num(0).to_text(), "0");
}

#[test]
fn steering_message_deserializes_current_warden_shape() {
    let message = SteeringMessage {
        id: "msg-123".into(),
        msg_type: "guidance".into(),
        content: text("hello"),
        sender: "dashboard".into(),
        recipient: "agent".into(),
        timestamp: "2026-04-02T19:00:00+00:00".into(),
        metadata: None,
    };
    assert_eq!(message.id, "msg-123");
    assert_eq!(message.msg_type, "guidance");
    assert_eq!(message.content_text(), "hello");
    assert_eq!(message.sender, "dashboard");
    assert_eq!(message.recipient, "agent");
}

#[test]
fn non_text_content_is_its_json() {
    let message = SteeringMessage {
        id: String::new(),
        msg_type: abot::ams::messages::default_guidance_type(),
        content: obj(vec![("task", text("x"))]),
        sender: abot::ams::messages::default_dashboard_sender(),
        recipient: abot::ams::messages::default_agent_recipient(),
        timestamp: String::new(),
        metadata: None,
    };
    assert_eq!(message.content_text(), "{\"task\":\"x\"}");
    assert_eq!(message.msg_type, "guidance");
    assert_eq!(abot::ams::llm::default_stop(), "stop");
}

#[test]
fn endpoints_trim_and_encode() {
    let ep = AmsEndpoints::new("http://ams:3001//", "", 1000);
    assert_eq!(ep.base_url, "http://ams:3001");
    assert!(!ep.sends_api_key());
    assert_eq!(ep.llm_timeout_ms(), 180_000);
    assert_eq!(ep.agent_messages_url("a b/c~"), "http://ams:3001/api/warden/agents/a%20b%2Fc~/messages");
    assert_eq!(ep.agents_url(Some("eng-")), "http://ams:3001/api/v1/agents?limit=500&name_prefix=eng-");
    assert_eq!(ep.agents_url(Some("")), "http://ams:3001/api/v1/agents?limit=500");
    assert_eq!(ep.execution_chunk_url("x/y"), "http://ams:3001/api/fleet/executions/x/y/emit");
    assert_eq!(ep.execution_url("é"), "http://ams:3001/observatory/executions/%C3%A9");
    assert_eq!(ep.chat_message_url("s1"), "http://ams:3001/api/v1/chat/sessions/s1/assistant-message");
    let ep = AmsEndpoints::new("http://h", "k", 200_000);
    assert!(ep.sends_api_key());
    assert_eq!(ep.llm_timeout_ms(), 200_000);
    assert_eq!(ep.execution_url("A-z_0.~!"), "http://h/observatory/executions/A-z_0.~%21");
}

#[test]
fn payloads_carry_their_fields() {
    let meta = obj(vec![("k", text("v"))]);
    let p = steering_payload("task", "do it", "me", Some(&meta));
    assert_eq!(str_at(&p, "type"), Some("task"));
    assert_eq!(str_at(p.get("metadata").unwrap(), "k"), Some("v"));
    assert!(steering_payload("task", "x", "me", None).get("metadata").is_none());
    let c = chat_payload("hi", "tl-a", None);
    assert!(c.get("model").is_none());
    assert_eq!(str_at(&chat_payload("hi", "tl-a", Some("m")), "model"), Some("m"));
    assert_eq!(str_at(&goal_payload("t", "d", "high", "me"), "source"), Some("abot-orchestrator"));
    let resp = obj(vec![("agents", Json::Array(vec![text("a"), text("b")]))]);
    assert_eq!(array_items(&resp, "agents").len(), 2);
    assert!(array_items(&resp, "results").is_empty());
}

#[test]
fn actions_map_to_directives() {
    let raw = |a: Option<&str>| AmsHeartbeatResponse {
        state: None,
        action: a.map(str::to_string),
        message: Some("m".into()),
        final_chance: false,
        governance: None,
    };
    assert_eq!(raw(None).to_directive(), Directive::Continue);
    assert_eq!(raw(Some("remind")).to_directive(), Directive::Warn);
    assert_eq!(raw(Some("begin_death_ritual")).to_directive(), Directive::BeginDeathRitual);
    assert_eq!(raw(Some("pause_and_queue")).to_directive(), Directive::HardStop);
    assert_eq!(raw(Some("dance")).to_directive(), Directive::Continue);
    let r = HeartbeatResponse::from_raw(raw(Some("remind")));
    assert_eq!(r.directive, Directive::Warn);
    assert_eq!(r.message.as_deref(), Some("m"));
}

#[test]
fn plan_tool_routes_and_refuses() {
    let args = obj(vec![("worker_name", text("eng-a")), ("task", text("build"))]);
    match plan_tool("dispatch_to_worker", &args, "tl-eng", Some("e1"), None) {
        ToolPlan::DispatchToWorker { worker, task, timeout_secs } => {
            assert_eq!((worker.as_str(), task.as_str(), timeout_secs), ("eng-a", "build", 900));
        }
        _ => panic!("expected a dispatch"),
    }
    match plan_tool("dispatch_to_worker", &obj(vec![("task", text("x"))]), "tl", None, None) {
        ToolPlan::Reply(j) => assert_eq!(str_at(&j, "error"), Some("worker_name and task are required")),
        _ => panic!("expected a refusal"),
    }
    match plan_tool("poll_worker_execution", &obj(vec![("execution_id", text("s")), ("wait_secs", num(5000))]), "a", None, None) {
        ToolPlan::PollWorker { execution_id, wait_secs } => assert_eq!((execution_id.as_str(), wait_secs), ("s", 600)),
        _ => panic!("expected a poll"),
    }
    match plan_tool("nope", &Json::Null, "a", None, None) {
        ToolPlan::Reply(j) => assert_eq!(str_at(&j, "error"), Some("Unknown tool: nope")),
        _ => panic!("expected a refusal"),
    }
    match plan_tool("dispatch_to_tl", &obj(vec![("tl_name", text("tl-x")), ("task", text("t"))]), "prime", Some("ex"), Some("chat")) {
        ToolPlan::DispatchToTl { tl_name, priority, metadata, .. } => {
            assert_eq!(tl_name, "tl-x");
            assert_eq!(priority, "normal");
            let m = metadata.unwrap();
            assert_eq!(str_at(&m, "parent_agent_id"), Some("prime"));
            assert_eq!(str_at(&m, "parent_exec_id"), Some("ex"));
            assert_eq!(str_at(&m, "chat_session_id"), Some("chat"));
        }
        _ => panic!("expected a TL dispatch"),
    }
    match plan_tool("dispatch_to_tl", &obj(vec![("tl_name", text("tl-x")), ("task", text("t"))]), "prime", None, Some("chat")) {
        ToolPlan::DispatchToTl { metadata, .. } => assert!(metadata.is_none()),
        _ => panic!("expected a TL dispatch"),
    }
    match plan_tool("list_workers", &Json::Null, "tl-paid-media", None, None) {
        ToolPlan::ListWorkers { prefix } => assert_eq!(prefix.as_deref(), Some("paid-media-")),
        _ => panic!("expected a listing"),
    }
    match plan_tool("search_memories", &obj(vec![("limit", num((1u64 << 32) + 3))]), "a", None, None) {
        ToolPlan::SearchMemories { query, limit } => assert_eq!((query.as_str(), limit), ("", 3)),
        _ => panic!("expected a search"),
    }
    match plan_tool("mcp_call_tool", &obj(vec![("server", text("s")), ("tool", text("t"))]), "a", None, None) {
        ToolPlan::McpCallTool { arguments, timeout_seconds, .. } => {
            assert!(matches!(arguments, Json::Object(v) if v.is_empty()));
            assert_eq!(timeout_seconds, 30);
        }
        _ => panic!("expected an MCP call"),
    }
    assert_eq!(tl_specialist_prefix("tl-"), None);
    assert_eq!(tl_specialist_prefix("worker"), None);
}

#[test]
fn ids_have_their_shapes() {
    let d = new_dispatch_id();
    assert_eq!(d.len(), 41);
    assert!(d.starts_with("dispatch-"));
    let f = new_fleet_execution_id();
    assert_eq!(f.len(), 38);
    assert!(f.starts_with("fleet-"));
    assert_ne!(new_fleet_execution_id(), f);
}

#[test]
fn dispatch_wait_finds_row_and_finishes() {
    let mut w = DispatchWait::start("eng-a", "dispatch-1", 30, obj(vec![("ok", Json::Bool(true))]));
    assert!(w.needs_lineage());
    let timed = w.timed_out_reply();
    assert_eq!(str_at(&timed, "status"), Some("no_execution_row"));
    assert_eq!(str_at(&timed, "correlation_id"), Some("dispatch-1"));
    w.absorb_lineage(Some(obj(vec![("executionId", text("spawn-7"))])));
    assert_eq!(w.exec_id.as_deref(), Some("spawn-7"));
    assert!(w.absorb_execution(obj(vec![("status", text("running")), ("output", text("half"))])).is_none());
    let pending = w.timed_out_reply();
    assert_eq!(str_at(&pending, "status"), Some("still_running"));
    assert_eq!(str_at(&pending, "partial_output"), Some("half"));
    assert_eq!(str_at(&pending, "correlation_id"), Some("dispatch-1"));
    let done = w.absorb_execution(obj(vec![("status", text("completed")), ("output", text("all"))])).unwrap();
    assert!(matches!(done.get("ok"), Some(Json::Bool(true))));
    assert_eq!(str_at(&done, "correlation_id"), Some("dispatch-1"));
    assert_eq!(str_at(&dispatch_failed_reply("boom"), "error"), Some("dispatch: boom"));
}

#[test]
fn poll_wait_reports_unseen_rows() {
    let mut p = PollWait::start("spawn-1", 0);
    assert!(p.absorb(Err("404".into())).is_none());
    let r = p.timed_out_reply();
    assert_eq!(str_at(&r, "error"), Some("404"));
    assert_eq!(str_at(&r, "status"), Some("unknown"));
    let mut p = PollWait::start("spawn-1", 0);
    assert_eq!(str_at(&p.timed_out_reply(), "error"), Some("execution row not found"));
    let done = p.absorb(Ok(obj(vec![("status", text("timeout"))]))).unwrap();
    assert!(matches!(done.get("ok"), Some(Json::Bool(false))));
    assert!(matches!(done.get("dispatched_to"), Some(Json::Null)));
}

#[test]
fn tool_loop_runs_calls_then_stops() {
    let mut l = ToolLoop::start(Some("sys"), "hi");
    assert_eq!(l.messages.len(), 2);
    let call = obj(vec![("id", text("c1")), ("function", obj(vec![("name", text("list_workers"))]))]);
    let plans = l.on_reply(ToolCompletion {
        text: String::new(),
        input_tokens: 10,
        output_tokens: 5,
        tool_calls: vec![call],
        finish_reason: "tool_calls".into(),
    });
    assert_eq!(plans.len(), 1);
    assert_eq!(plans[0].id, "c1");
    assert_eq!(plans[0].name, "list_workers");
    assert_eq!(plans[0].arguments_text, "{}");
    assert!(matches!(l.messages[2].get("content"), Some(Json::Null)));
    l.record_result("c1", "{\"workers\":[]}".into());
    assert_eq!(l.messages.len(), 4);
    assert_eq!(str_at(&l.messages[3], "tool_call_id"), Some("c1"));
    let plans = l.on_reply(ToolCompletion {
        text: "done".into(),
        input_tokens: 1,
        output_tokens: 2,
        tool_calls: vec![],
        finish_reason: "stop".into(),
    });
    assert!(plans.is_empty());
    assert!(!l.can_continue());
    assert_eq!(l.final_text, "done");
    assert_eq!((l.total_in, l.total_out, l.iterations), (11, 7, 2));
}

#[test]
fn tool_loop_gives_up_after_twelve_calls() {
    let mut l = ToolLoop::start(None, "hi");
    let mut n = 0;
    while l.can_continue() {
        let call = obj(vec![("id", text("c")), ("function", obj(vec![("name", text("x")), ("arguments", text("{}"))]))]);
        l.on_reply(ToolCompletion { text: "t".into(), input_tokens: 0, output_tokens: 0, tool_calls: vec![call], finish_reason: "tool_calls".into() });
        n += 1;
    }
    assert_eq!(n, 12);
    assert_eq!(l.final_text, "");
}

#[test]
fn activations_by_message_type() {
    let meta = obj(vec![("parent_agent_id", text("prime")), ("parent_exec_id", text("e1")), ("chat_session_id", text("c"))]);
    let a = activation_for("task", "prime", Some(&meta), "do".into());
    assert_eq!(a.rollup_target, Some(("prime".into(), "e1".into())));
    assert_eq!(a.chat_session_id.as_deref(), Some("c"));
    assert_eq!(a.prompt, "do");
    let meta = obj(vec![("child_exec_id", text("x9")), ("memory_id", text("m3"))]);
    let a = activation_for("rollup", "tl-eng", Some(&meta), "result".into());
    assert_eq!(a.prompt, "[rollup from team-lead tl-eng, exec x9, memory m3]\n\nresult\n\nSynthesize this result for the user.");
    assert!(a.rollup_target.is_none());
    let a = activation_for("guidance", "dash", None, "p".into());
    assert!(a.rollup_target.is_none() && a.chat_session_id.is_none());
    assert_eq!(prompt_of("  \n "), None);
    assert_eq!(prompt_of("  ask  ").as_deref(), Some("ask"));
}

#[test]
fn tools_and_models_are_chosen() {
    assert!(tools_enabled(Some("ON"), "", false));
    assert!(!tools_enabled(Some("nope"), "worker", false));
    assert!(tools_enabled(None, "team-lead", false));
    assert!(tools_enabled(None, "x", true));
    assert_eq!(toolset_for("orchestrator"), Toolset::Orchestrator);
    assert_eq!(toolset_for("team-lead"), Toolset::TeamLead);
    assert_eq!(toolset_for("other"), Toolset::McpBridge);
    let h = hand("team-lead", "  big-model ", None);
    assert_eq!(requested_model(Some(&h), LlmProvider::Kilo), "big-model");
    let h = hand("team-lead", "   ", None);
    assert_eq!(requested_model(Some(&h), LlmProvider::Direct), "ams-agent");
    assert_eq!(requested_model(None, LlmProvider::Kilo), "kilo");
    let k = KiloConfig { binary: "/bin/kilo".into(), default_mode: "debug".into() };
    assert!(matches!(kilo_mode(Some(&k)), KiloMode::Debug));
    assert!(matches!(kilo_mode(None), KiloMode::Code));
    assert_eq!(kilo_prompt_text(Some("sys"), "req"), "sys\n\nUser request:\nreq");
    assert!(kilo_bridge_for(LlmProvider::Direct, "kilo".into(), true).is_none());
    assert!(kilo_bridge_for(LlmProvider::Kilo, "kilo".into(), false).is_none());
    assert_eq!(kilo_bridge_for(LlmProvider::Kilo, "/x/kilo".into(), true).unwrap().kilo_path(), "/x/kilo");
}

#[test]
fn birth_metadata_claims_identity_only() {
    let h = hand("team-lead", "m", Some("prompt"));
    let meta = birth_metadata("wasmtime", Some(&h));
    assert_eq!(str_at(&meta, "sandbox"), Some("wasmtime"));
    assert_eq!(str_at(&meta, "hand_name"), Some("researcher"));
    assert_eq!(str_at(&meta, "persona_role"), Some("analyst"));
    assert!(matches!(meta.get("has_system_prompt"), Some(Json::Bool(true))));
    assert!(meta.get("tool_permissions").is_none());
    assert!(meta.get("trust_tier").is_none());
    assert!(meta.get("tags").is_none());
    let bare = birth_metadata("wasmtime", None);
    assert_eq!(str_at(&bare, "version"), Some("3.0.0"));
    assert!(bare.get("has_system_prompt").is_none());
    assert_eq!(str_at(&fleet_metadata("e", "box-1"), "container_id"), Some("box-1"));
    let claims = h.to_ams_claims();
    assert!(claims.get("goals").is_some());
    assert!(claims.get("agent_class").is_none());
    assert_eq!(abot::hand::system_prompt_filename(&h.manifest), "system_prompt.md");
}

#[test]
fn agent_state_moves_through_its_life() {
    let mut s = AgentState::born("a1");
    assert_eq!(s.status, AgentStatus::Idle);
    assert_eq!(s.max_tokens, 200_000);
    s.begin_work("exec-1");
    assert_eq!(s.status, AgentStatus::Working);
    assert_eq!(s.current_execution.as_deref(), Some("exec-1"));
    s.end_work();
    assert_eq!(s.status, AgentStatus::Idle);
    assert!(s.current_execution.is_none());
    assert_eq!(s.on_directive(Directive::Warn), LoopStep::Warned);
    assert_eq!(s.status, AgentStatus::Idle);
    assert_eq!(s.on_directive(Directive::HardStop), LoopStep::Die);
    assert_eq!(s.status, AgentStatus::Dying);
    assert!(addressed_to_agent("agent"));
    assert!(!addressed_to_agent("dashboard"));
}

#[test]
fn replies_are_shaped() {
    let rows = vec![
        obj(vec![("agent_id", text("tl-eng")), ("trust_tier", text("1")), ("automata_count", num(4))]),
        obj(vec![("agent_id", text("eng-a"))]),
        obj(vec![("agent_id", text("memory-curator"))]),
        obj(vec![("agent_id", text("tl-ops"))]),
    ];
    let r = list_tl_agents_reply(Ok(rows.iter().map(|j| j.deep_clone()).collect()));
    assert!(matches!(r.get("count"), Some(Json::Number(JsonNumber::PosInt(2)))));
    match r.get("team_leads") {
        Some(Json::Array(v)) => {
            assert_eq!(str_at(&v[1], "trust_tier"), Some("unknown"));
            assert!(matches!(v[1].get("automata_count"), Some(Json::Number(JsonNumber::PosInt(0)))));
        }
        _ => panic!("no team leads"),
    }
    let w = list_workers_reply(Ok(rows), Some("eng-"));
    assert!(matches!(w.get("count"), Some(Json::Number(JsonNumber::PosInt(1)))));
    assert_eq!(str_at(&w, "scope_prefix"), Some("eng-"));
    assert_eq!(str_at(&list_workers_reply(Err("down".into()), None), "error"), Some("down"));
    let d = dispatch_to_tl_reply("tl-x", "high", Ok(Json::Null));
    assert!(matches!(d.get("ok"), Some(Json::Bool(true))));
    assert_eq!(str_at(&dispatch_to_tl_reply("tl-x", "high", Err("e".into())), "error"), Some("e"));
    assert!(matches!(goal_task_reply(Ok("raw".into())), ToolReply::Raw(t) if t == "raw"));
    let m = create_memory_reply(Ok(obj(vec![("memory_id", text("m9"))])));
    assert_eq!(str_at(&m, "memory_id"), Some("m9"));
    let hit = obj(vec![
        ("memory", obj(vec![("file_path", text("f.md"))])),
        ("content_snippet", text(&"x".repeat(250))),
    ]);
    let s = search_hit_summary(&hit);
    assert_eq!(str_at(&s, "file_path"), Some("f.md"));
    assert_eq!(str_at(&s, "snippet").unwrap().len(), 200);
    assert!(matches!(s.get("tags"), Some(Json::Array(v)) if v.is_empty()));
    assert_eq!(str_at(&task_board_reply(Err("no board".into())), "error"), Some("no board"));
    assert!(matches!(passthrough_reply(Ok(num(3))), Json::Number(JsonNumber::PosInt(3))));
}

#[test]
fn outcomes_of_a_turn() {
    let g = GenerationResult { content: "hi".into(), model: "m".into(), provider: "p".into(), input_tokens: 3, output_tokens: 4 };
    let o = single_shot_outcome(Ok(g), 10, 99, "asked");
    assert_eq!(o.token_count, 17);
    assert_eq!(o.event.chunk_type, "complete");
    assert_eq!(o.output, Some(("hi".into(), "m".into())));
    let o = single_shot_outcome(Err("boom".into()), 10, 5, "asked");
    assert_eq!(o.token_count, 10);
    assert_eq!(o.event.chunk_type, "error");
    assert_eq!(o.event.model.as_deref(), Some("asked"));
    assert_eq!(add_tokens(u64::MAX - 1, 5, 5), u64::MAX);
    let m = orchestration_memory("tl-a", "fleet-1", "result");
    assert_eq!(m.title, "tl-a: orchestration result");
    assert_eq!(m.tags, vec!["orchestration", "fan-in", "agent:tl-a", "exec:fleet-1"]);
    assert_eq!(created_memory_id(&Ok(obj(vec![("id", text("m1"))]))).as_deref(), Some("m1"));
    assert_eq!(created_memory_id(&Err("x".into())), None);
    let (summary, meta) = rollup_steering("p-exec", None, "fleet-1", "tl-a", None, Some("c"), &"y".repeat(600));
    assert_eq!(summary.chars().count(), 503);
    assert_eq!(str_at(&meta, "child_exec_id"), Some("fleet-1"));
    assert_eq!(str_at(&meta, "memory_id"), Some(""));
    assert_eq!(str_at(&meta, "chat_session_id"), Some("c"));
    assert!(posts_to_chat(Some("c"), " x "));
    assert!(!posts_to_chat(Some("c"), "  "));
    assert!(!posts_to_chat(None, "x"));
}

#[test]
fn error_messages_match_their_display() {
    assert_eq!(KiloError::InvalidOutput("x".into()).message(), "Invalid output: x");
    assert_eq!(KiloError::BinaryNotFound.message(), "Kilo binary not found");
    assert_eq!(abot::llm::provider::LlmError::RateLimited.message(), "Rate limited");
    assert_eq!(abot::mcp::transport::TransportError::ProtocolError("p".into()).message(), "Protocol error: p");
    assert_eq!(abot::security::manifest::ManifestError::InvalidKey.message(), "Invalid key");
}

#[test]
fn config_overrides_and_defaults() {
    assert_eq!(default_fuel_limit(), 10_000_000_000);
    assert_eq!(default_hands_dir(), "./hands");
    assert_eq!(default_mcp_port(), 5100);
    assert_eq!(default_agent_id().len(), 36);
    let mut c = AbotConfig {
        agent: AgentConfig { name: "n".into(), id: "i".into() },
        ams: AmsConfig { url: "u".into(), api_key: String::new(), heartbeat_interval_secs: default_heartbeat_interval(), connect_timeout_ms: default_connect_timeout(), request_timeout_ms: default_request_timeout() },
        llm: LlmConfig { provider: LlmProvider::Kilo, kilo: None, routing: None, fallback: None },
        sandbox: SandboxConfig { enabled: default_true(), engine: default_engine(), fuel_limit: default_fuel_limit(), memory_limit_mb: default_memory_limit(), epoch_deadline_ms: default_epoch_deadline(), allowed_paths: vec![], network_allowed: false },
        security: SecurityConfig { merkle_audit: true, secret_zeroization: true, taint_tracking: true, ssrf_protection: true, manifest_signing: true, signing_key_path: None },
        channels: ChannelsConfig::default(),
        mcp: McpConfig { server_enabled: false, server_port: default_mcp_port(), clients: vec![] },
        telemetry: TelemetryConfig { enabled: true, log_level: default_log_level(), log_format: default_log_format(), metrics_port: default_metrics_port() },
        hands: HandsConfig { enabled: true, directory: default_hands_dir() },
    };
    c.apply_env_overrides(EnvOverrides { api_key: Some("secret".into()), url: None, agent_id: None, agent_name: Some("env-name".into()) });
    assert_eq!(c.ams.api_key, "secret");
    assert_eq!(c.ams.url, "u");
    assert_eq!(c.agent.name, "env-name");
    c.apply_cli_overrides(None, Some("cli-id".into()));
    assert_eq!(c.agent.id, "cli-id");
    assert_eq!(c.agent.name, "env-name");
    assert_eq!(c.ams.heartbeat_interval_secs, 10);
}
