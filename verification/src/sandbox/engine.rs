//! The sandbox execution engine: configuration, module validation and results.

use vstd::prelude::*;
use std::time::Instant;
use crate::sandbox::fuel::FuelMeter;
use crate::sandbox::permissions::PermissionSet;
use crate::text::some_text;

verus! {

#[verifier::external_type_specification]
#[verifier::external_body]
pub struct ExInstant(Instant);

/// Trusted: `Instant::now()`; the reading is not stated.
#[verifier::external_body]
fn clock_start() -> Instant {
    Instant::now()
}

/// Trusted: `Instant::elapsed` in whole milliseconds; the reading is not stated.
#[verifier::external_body]
fn elapsed_ms(start: &Instant) -> u64 {
    start.elapsed().as_millis() as u64
}

/// Configuration for the sandbox execution environment.
#[derive(Clone, Debug)]
pub struct SandboxConfig {
    /// Fuel limit for execution (abstract units).
    pub fuel_limit: u64,
    /// Memory limit in MB.
    pub memory_limit_mb: u32,
    /// Epoch deadline in milliseconds.
    pub epoch_deadline_ms: u64,
    /// List of allowed file paths.
    pub allowed_paths: Vec<String>,
    /// Whether network access is allowed.
    pub network_allowed: bool,
}

impl Default for SandboxConfig {
    fn default() -> (r: Self)
        ensures
            r.fuel_limit == 1_000_000,
            r.memory_limit_mb == 512,
            r.epoch_deadline_ms == 30_000,
            r.allowed_paths@.len() == 0,
            !r.network_allowed,
    {
        SandboxConfig {
            fuel_limit: 1_000_000,
            memory_limit_mb: 512,
            epoch_deadline_ms: 30_000,
            allowed_paths: Vec::new(),
            network_allowed: false,
        }
    }
}

/// Result of sandbox execution.
#[derive(Clone, Debug)]
pub struct ExecutionResult {
    /// Output data from the execution.
    pub output: Vec<u8>,
    /// Fuel consumed during execution.
    pub fuel_consumed: u64,
    /// Wall clock time in milliseconds.
    pub wall_time_ms: u64,
    /// Whether execution succeeded.
    pub success: bool,
    /// Error message if execution failed.
    pub error: Option<String>,
}

/// A module is accepted when it starts with the WASM magic bytes `\0asm`.
pub open spec fn has_wasm_magic(bytes: Seq<u8>) -> bool {
    bytes.len() >= 4 && bytes[0] == 0u8 && bytes[1] == 0x61u8 && bytes[2] == 0x73u8 && bytes[3] == 0x6du8
}

/// WASM sandbox execution engine.
pub struct SandboxEngine {
    config: SandboxConfig,
    fuel_meter: FuelMeter,
    permissions: PermissionSet,
}

impl SandboxEngine {
    /// The engine's configuration.
    pub closed spec fn config(&self) -> SandboxConfig {
        self.config
    }

    /// The engine's fuel meter and permissions.
    pub closed spec fn meter(&self) -> FuelMeter {
        self.fuel_meter
    }

    pub closed spec fn perms(&self) -> PermissionSet {
        self.permissions
    }

    /// Whether the engine's meter is well formed.
    pub closed spec fn wf(&self) -> bool {
        self.fuel_meter.wf() && self.fuel_meter.limit() == self.config.fuel_limit
    }

    /// Creates an engine whose meter has the configured fuel limit and deadline.
    pub fn new(config: SandboxConfig, permissions: PermissionSet) -> (r: Result<Self, ()>)
        ensures
            r is Ok,
            r matches Ok(e) ==> e.wf() && e.config() == config && e.perms() == permissions
                && e.meter().limit() == config.fuel_limit
                && e.meter().deadline() == config.epoch_deadline_ms,
    {
        let fuel_meter = FuelMeter::new(config.fuel_limit, config.epoch_deadline_ms);
        Ok(SandboxEngine { config, fuel_meter, permissions })
    }

    /// Runs a module: one without the WASM magic bytes is rejected with
    /// "Invalid WASM module"; otherwise the run succeeds unless the wall time
    /// passed the configured deadline ("Execution deadline exceeded").
    pub fn execute(&self, wasm_bytes: &[u8]) -> (r: ExecutionResult)
        requires
            self.wf(),
        ensures
            r.output@.len() == 0,
            !has_wasm_magic(wasm_bytes@) ==> !r.success && r.fuel_consumed == 0
                && some_text(r.error, "Invalid WASM module"@),
            has_wasm_magic(wasm_bytes@) ==> {
                &&& r.fuel_consumed <= self.config().fuel_limit
                &&& r.success == (r.wall_time_ms <= self.config().epoch_deadline_ms)
                &&& r.success ==> r.error is None
                &&& !r.success ==> some_text(r.error, "Execution deadline exceeded"@)
            },
    {
        let start = clock_start();
        if wasm_bytes.len() < 4 || wasm_bytes[0] != 0u8 || wasm_bytes[1] != 0x61u8 || wasm_bytes[2] != 0x73u8
            || wasm_bytes[3] != 0x6du8 {
            return ExecutionResult {
                output: Vec::new(),
                fuel_consumed: 0,
                wall_time_ms: elapsed_ms(&start),
                success: false,
                error: Some("Invalid WASM module".to_string()),
            };
        }
        let fuel_consumed = self.fuel_meter.consumed();
        let wall_time_ms = elapsed_ms(&start);
        if wall_time_ms > self.config.epoch_deadline_ms {
            return ExecutionResult {
                output: Vec::new(),
                fuel_consumed,
                wall_time_ms,
                success: false,
                error: Some("Execution deadline exceeded".to_string()),
            };
        }
        ExecutionResult { output: Vec::new(), fuel_consumed, wall_time_ms, success: true, error: None }
    }

    /// The engine's fuel meter.
    pub fn fuel_meter(&self) -> (r: &FuelMeter)
        ensures
            *r == self.meter(),
    {
        &self.fuel_meter
    }

    /// The engine's permission set.
    pub fn permissions(&self) -> (r: &PermissionSet)
        ensures
            *r == self.perms(),
    {
        &self.permissions
    }
}

} // verus!
