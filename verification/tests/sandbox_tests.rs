use abot::sandbox::engine::{SandboxConfig, SandboxEngine};
use abot::sandbox::fuel::FuelMeter;
use abot::sandbox::permissions::{normalize_path, PermissionSet};

#[test]
fn test_sandbox_config_default() {
    let config = SandboxConfig::default();
    assert_eq!(config.fuel_limit, 1_000_000);
    assert_eq!(config.memory_limit_mb, 512);
    assert!(!config.network_allowed);
}

#[test]
fn test_invalid_wasm_module() {
    let config = SandboxConfig::default();
    let permissions = PermissionSet::default();
    let engine = SandboxEngine::new(config, permissions).unwrap();

    let invalid_wasm = b"not a wasm module";
    let result = engine.execute(invalid_wasm);

    assert!(!result.success);
    assert!(result.error.is_some());
}

#[test]
fn valid_magic_runs_within_limits() {
    let engine = SandboxEngine::new(SandboxConfig::default(), PermissionSet::default()).unwrap();
    let result = engine.execute(b"\0asm\x01\0\0\0");
    assert!(result.success);
    assert!(result.error.is_none());
    assert_eq!(result.fuel_consumed, 0);
}

#[test]
fn test_fuel_meter_creation() {
    let meter = FuelMeter::new(1000, 5000);
    assert_eq!(meter.remaining(), 1000);
    assert!(!meter.is_exhausted());
}

#[test]
fn test_fuel_consumption() {
    let meter = FuelMeter::new(1000, 5000);
    assert!(meter.consume(500));
    assert_eq!(meter.consumed(), 500);
    assert_eq!(meter.remaining(), 500);
}

#[test]
fn test_fuel_limit_exceeded() {
    let meter = FuelMeter::new(1000, 5000);
    assert!(meter.consume(900));
    assert!(!meter.consume(200)); // Would exceed limit
    assert_eq!(meter.consumed(), 900);
}

#[test]
fn test_exhaustion_check() {
    let meter = FuelMeter::new(100, 5000);
    meter.consume(100);
    assert!(meter.is_exhausted());
}

#[test]
fn test_deadline_tracking() {
    let meter = FuelMeter::new(1000, 10_000);
    let remaining = meter.remaining_time_ms();
    assert!(remaining > 0 && remaining <= 10_000);
}

#[test]
fn fuel_step_refuses_past_limit() {
    assert_eq!(FuelMeter::step(900, 1000, 200), (false, 900));
    assert_eq!(FuelMeter::step(900, 1000, 100), (true, 1000));
    assert_eq!(FuelMeter::new(5, 10).deadline_ms(), 10);
}

#[test]
fn test_path_check_allowed() {
    let perms = PermissionSet::new(vec!["/tmp/sandbox".to_string()], false);

    assert!(perms.check_path("/tmp/sandbox/file.txt"));
    assert!(!perms.check_path("/etc/passwd"));
}

#[test]
fn test_path_check_empty() {
    let perms = PermissionSet::default();
    assert!(!perms.check_path("/tmp/file.txt"));
}

#[test]
fn test_network_permission() {
    let mut perms = PermissionSet::default();
    assert!(!perms.check_network());

    perms.enable_network();
    assert!(perms.check_network());

    perms.disable_network();
    assert!(!perms.check_network());
}

#[test]
fn test_add_path() {
    let mut perms = PermissionSet::default();
    perms.add_path("/tmp/work".to_string());

    assert!(perms.check_path("/tmp/work/output.txt"));
}

#[test]
fn test_multiple_allowed_paths() {
    let perms = PermissionSet::new(vec!["/tmp/a".to_string(), "/tmp/b".to_string()], false);

    assert!(perms.check_path("/tmp/a/file.txt"));
    assert!(perms.check_path("/tmp/b/file.txt"));
    assert!(!perms.check_path("/tmp/c/file.txt"));
}

#[test]
fn test_path_traversal() {
    let perms = PermissionSet::new(vec!["/tmp/sandbox".to_string()], false);

    // Standard usage is allowed
    assert!(perms.check_path("/tmp/sandbox/file.txt"));

    // Path traversal escaping the directory should be denied
    assert!(!perms.check_path("/tmp/sandbox/../etc/passwd"));
    assert!(!perms.check_path("/tmp/sandbox/../../etc/passwd"));

    // Redundant inside-directory traversal is still allowed
    assert!(perms.check_path("/tmp/sandbox/foo/../file.txt"));
}

#[test]
fn normalize_path_collapses_dots() {
    assert_eq!(normalize_path("/tmp/./a/../b"), "/tmp/b");
    assert_eq!(normalize_path("/../x"), "/x");
    assert_eq!(normalize_path("a/b/../../.."), "..");
}

#[test]
fn sibling_prefix_is_not_inside() {
    let perms = PermissionSet::new(vec!["/tmp/sandbox".to_string()], false);
    assert!(!perms.check_path("/tmp/sandboxed/file.txt"));
    assert!(perms.check_path("/tmp/sandbox"));
}

#[test]
fn deadline_arithmetic_on_given_clock_readings() {
    let meter = FuelMeter::new(1000, 5000);
    // A reading before the start counts as no time elapsed.
    assert_eq!(meter.remaining_time_at(0), 5000);
    assert!(!meter.deadline_exceeded_at(0));
    // A reading far past the start is past the deadline.
    assert_eq!(meter.remaining_time_at(u64::MAX), 0);
    assert!(meter.deadline_exceeded_at(u64::MAX));
}

#[test]
fn add_path_compares_paths_by_components() {
    let mut perms = PermissionSet::default();
    perms.add_path("/tmp/a".to_string());
    perms.add_path("/tmp/a/".to_string());
    perms.add_path("/tmp//a".to_string());
    perms.add_path("/tmp/./a".to_string());
    assert_eq!(perms.allowed_paths, vec!["/tmp/a".to_string()]);
    // `..` is a component of its own, so this is another path.
    perms.add_path("/tmp/b/../a".to_string());
    assert_eq!(perms.allowed_paths.len(), 2);
    // A leading `.` is kept, inner ones are not.
    perms.add_path("a/b".to_string());
    perms.add_path("a/./b".to_string());
    assert_eq!(perms.allowed_paths.len(), 3);
    perms.add_path("./a/b".to_string());
    assert_eq!(perms.allowed_paths.len(), 4);
    perms.add_path(".//a/b/".to_string());
    assert_eq!(perms.allowed_paths.len(), 4);
}

#[test]
fn add_path_twice_changes_nothing() {
    let mut perms = PermissionSet::new(vec!["/srv".to_string()], true);
    perms.add_path("/data".to_string());
    let once = perms.allowed_paths.clone();
    perms.add_path("/data".to_string());
    assert_eq!(perms.allowed_paths, once);
    assert!(perms.network_allowed);
}
