use abot::llm::kilo::{KiloBridge, KiloError, KiloMode};
use abot::llm::router::{TaskRouter, TaskType};

#[test]
fn test_kilo_mode_flags() {
    assert_eq!(KiloMode::Code.as_flag(), "--code");
    assert_eq!(KiloMode::Ask.as_flag(), "--ask");
    assert_eq!(KiloMode::Architect.as_flag(), "--architect");
}

#[test]
fn test_parse_output() {
    let output = "TOKENS: 42\nThis is the generated content";
    let (content, tokens) = KiloBridge::parse_output(output).unwrap();

    assert_eq!(content, "This is the generated content");
    assert_eq!(tokens, 42);
}

#[test]
fn test_parse_output_multiline() {
    let output = "TOKENS: 100\nLine 1\nLine 2\nLine 3";
    let (content, tokens) = KiloBridge::parse_output(output).unwrap();

    assert!(content.contains("Line 1"));
    assert!(content.contains("Line 3"));
    assert_eq!(tokens, 100);
}

#[test]
fn test_kilo_bridge_creation() {
    let bridge = KiloBridge::new(None);
    assert_eq!(bridge.kilo_path(), "kilo");

    let bridge = KiloBridge::new(Some("/usr/local/bin/kilo".to_string()));
    assert_eq!(bridge.kilo_path(), "/usr/local/bin/kilo");
}

#[test]
fn parse_output_without_content_is_an_error() {
    assert!(KiloBridge::parse_output("TOKENS: 5\n\n").is_err());
}

#[test]
fn parse_output_last_token_line_wins_and_bad_count_is_zero() {
    let (content, tokens) = KiloBridge::parse_output("TOKENS: 7\nhello\r\nTOKENS: x\nworld").unwrap();
    assert_eq!(content, "hello\nworld");
    assert_eq!(tokens, 0);
}

#[test]
fn test_task_type_defaults() {
    assert_eq!(TaskType::CodeGeneration.default_model(), "kilo-code");
    assert_eq!(TaskType::ArchitectureDesign.default_model(), "kilo-architect");
    assert_eq!(TaskType::Debugging.default_model(), "kilo-debug");
    assert_eq!(TaskType::GeneralQuery.default_model(), "kilo-ask");
    assert_eq!(TaskType::Orchestration.default_model(), "kilo-orchestrator");
}

#[test]
fn test_router_default_routing() {
    let router = TaskRouter::default();

    assert_eq!(router.route(TaskType::CodeGeneration), "kilo-code");
    assert_eq!(router.route(TaskType::Debugging), "kilo-debug");
}

#[test]
fn test_router_custom_mapping() {
    let mut router = TaskRouter::default();
    router.set_model(TaskType::CodeGeneration, "custom-code-model".to_string());

    assert_eq!(router.route(TaskType::CodeGeneration), "custom-code-model");

    // Other routes should still use defaults
    assert_eq!(router.route(TaskType::Debugging), "kilo-debug");
}

#[test]
fn test_router_multiple_custom_mappings() {
    let map = vec![
        (TaskType::CodeGeneration, "gpt4-code".to_string()),
        (TaskType::ArchitectureDesign, "gpt4-architect".to_string()),
    ];

    let router = TaskRouter::new(map);

    assert_eq!(router.route(TaskType::CodeGeneration), "gpt4-code");
    assert_eq!(router.route(TaskType::ArchitectureDesign), "gpt4-architect");
}

#[test]
fn router_later_mapping_wins_and_mappings_lists_overrides() {
    let router = TaskRouter::new(vec![
        (TaskType::Debugging, "a".to_string()),
        (TaskType::Debugging, "b".to_string()),
    ]);
    assert_eq!(router.route(TaskType::Debugging), "b");
    let m = router.mappings();
    assert_eq!(m.len(), 1);
    assert_eq!(m[0].1, "b");
}

#[test]
fn finish_reports_failures_and_bad_output() {
    match KiloBridge::finish(KiloMode::Code, false, vec![], &[b'o', b'o', 0xff]) {
        Err(KiloError::ExecutionFailed(m)) => assert_eq!(m, "oo\u{FFFD}"),
        other => panic!("unexpected: {other:?}"),
    }
    match KiloBridge::finish(KiloMode::Code, true, vec![0xc3], &[]) {
        Err(KiloError::InvalidOutput(m)) => assert!(m.starts_with("Invalid UTF-8: ")),
        other => panic!("unexpected: {other:?}"),
    }
    let r = KiloBridge::finish(KiloMode::Debug, true, b"TOKENS: 3\nok".to_vec(), &[]).unwrap();
    assert_eq!((r.content.as_str(), r.model_used.as_str(), r.tokens_used), ("ok", "kilo-debug", 3));
}
