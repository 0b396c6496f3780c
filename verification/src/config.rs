//! The runtime's configuration: its sections, their defaults, and the
//! environment variables that override the file.

use vstd::prelude::*;
use crate::ids::uuid_v4_hyphenated;

verus! {

/// Root configuration. Loaded from `config/abot.toml` with environment
/// overrides.
#[derive(Debug)]
pub struct AbotConfig {
    pub agent: AgentConfig,
    pub ams: AmsConfig,
    pub llm: LlmConfig,
    pub sandbox: SandboxConfig,
    pub security: SecurityConfig,
    pub channels: ChannelsConfig,
    pub mcp: McpConfig,
    pub telemetry: TelemetryConfig,
    pub hands: HandsConfig,
}

/// The agent's name and id.
#[derive(Debug)]
pub struct AgentConfig {
    pub name: String,
    pub id: String,
}

/// The id of an agent whose configuration names none: a fresh UUID v4.
pub fn default_agent_id() -> (r: String)
    ensures
        r@.len() == 36,
{
    uuid_v4_hyphenated()
}

/// Where AMS is and how to talk to it.
#[derive(Debug)]
pub struct AmsConfig {
    pub url: String,
    pub api_key: String,
    pub heartbeat_interval_secs: u64,
    pub connect_timeout_ms: u64,
    pub request_timeout_ms: u64,
}

/// Default heartbeat interval: 10 seconds.
pub fn default_heartbeat_interval() -> (r: u64)
    ensures
        r == 10,
{
    10
}

/// Default connect timeout: 5000 ms.
pub fn default_connect_timeout() -> (r: u64)
    ensures
        r == 5000,
{
    5000
}

/// Default request timeout: 30000 ms.
pub fn default_request_timeout() -> (r: u64)
    ensures
        r == 30000,
{
    30000
}

/// How the model is reached.
#[derive(Debug)]
pub struct LlmConfig {
    pub provider: LlmProvider,
    pub kilo: Option<KiloConfig>,
    pub routing: Option<LlmRouting>,
    pub fallback: Option<LlmFallback>,
}

/// The model provider (`kilo` or `direct` in the file).
#[derive(Clone, Copy, Debug, PartialEq, Eq)]
pub enum LlmProvider {
    Kilo,
    Direct,
}

/// The kilo CLI: which binary and which mode by default.
#[derive(Debug)]
pub struct KiloConfig {
    pub binary: String,
    pub default_mode: String,
}

/// Default kilo binary: `kilo`.
pub fn default_kilo_binary() -> (r: String)
    ensures
        r@ == "kilo"@,
{
    "kilo".to_string()
}

/// Default kilo mode: `code`.
pub fn default_kilo_mode() -> (r: String)
    ensures
        r@ == "code"@,
{
    "code".to_string()
}

/// Per-task model overrides.
#[derive(Debug)]
pub struct LlmRouting {
    pub simple_chat: Option<String>,
    pub code_generation: Option<String>,
    pub architecture: Option<String>,
    pub debugging: Option<String>,
    pub research: Option<String>,
}

/// Models to fall back to, and how often to retry.
#[derive(Debug)]
pub struct LlmFallback {
    pub chain: Vec<String>,
    pub max_retries: u32,
}

/// Default retries: 2.
pub fn default_max_retries() -> (r: u32)
    ensures
        r == 2,
{
    2
}

/// Sandbox limits.
#[derive(Debug)]
pub struct SandboxConfig {
    pub enabled: bool,
    pub engine: String,
    pub fuel_limit: u64,
    pub memory_limit_mb: u32,
    pub epoch_deadline_ms: u64,
    pub allowed_paths: Vec<String>,
    pub network_allowed: bool,
}

/// Default for switches that are on unless turned off.
pub fn default_true() -> (r: bool)
    ensures
        r,
{
    true
}

/// Default sandbox engine: `wasmtime`.
pub fn default_engine() -> (r: String)
    ensures
        r@ == "wasmtime"@,
{
    "wasmtime".to_string()
}

/// Default fuel limit: ten billion units.
pub fn default_fuel_limit() -> (r: u64)
    ensures
        r == 10_000_000_000,
{
    10_000_000_000
}

/// Default memory limit: 256 MB.
pub fn default_memory_limit() -> (r: u32)
    ensures
        r == 256,
{
    256
}

/// Default epoch deadline: 60000 ms.
pub fn default_epoch_deadline() -> (r: u64)
    ensures
        r == 60_000,
{
    60_000
}

/// Security switches.
#[derive(Debug)]
pub struct SecurityConfig {
    pub merkle_audit: bool,
    pub secret_zeroization: bool,
    pub taint_tracking: bool,
    pub ssrf_protection: bool,
    pub manifest_signing: bool,
    pub signing_key_path: Option<String>,
}

/// Message channel adapters.
#[derive(Debug)]
pub struct ChannelsConfig {
    pub telegram: Option<ChannelAdapterConfig>,
    pub discord: Option<ChannelAdapterConfig>,
    pub slack: Option<ChannelAdapterConfig>,
    pub whatsapp: Option<ChannelAdapterConfig>,
}

impl Default for ChannelsConfig {
    /// No adapter configured.
    fn default() -> (r: Self)
        ensures
            r.telegram is None,
            r.discord is None,
            r.slack is None,
            r.whatsapp is None,
    {
        ChannelsConfig { telegram: None, discord: None, slack: None, whatsapp: None }
    }
}

/// One channel adapter.
#[derive(Debug)]
pub struct ChannelAdapterConfig {
    pub enabled: bool,
    pub token: String,
}

/// The MCP server and clients.
#[derive(Debug)]
pub struct McpConfig {
    pub server_enabled: bool,
    pub server_port: u16,
    pub clients: Vec<McpClientConfig>,
}

/// Default MCP port: 5100.
pub fn default_mcp_port() -> (r: u16)
    ensures
        r == 5100,
{
    5100
}

/// One MCP client.
#[derive(Debug)]
pub struct McpClientConfig {
    pub name: String,
    pub transport: String,
    pub command: Option<String>,
    pub args: Option<Vec<String>>,
    pub url: Option<String>,
}

/// Logging and metrics.
#[derive(Debug)]
pub struct TelemetryConfig {
    pub enabled: bool,
    pub log_level: String,
    pub log_format: String,
    pub metrics_port: u16,
}

/// Default log level: `info`.
pub fn default_log_level() -> (r: String)
    ensures
        r@ == "info"@,
{
    "info".to_string()
}

/// Default log format: `json`.
pub fn default_log_format() -> (r: String)
    ensures
        r@ == "json"@,
{
    "json".to_string()
}

/// Default metrics port: 9090.
pub fn default_metrics_port() -> (r: u16)
    ensures
        r == 9090,
{
    9090
}

/// Where hand manifests live.
#[derive(Debug)]
pub struct HandsConfig {
    pub enabled: bool,
    pub directory: String,
}

/// Default hands directory: `./hands`.
pub fn default_hands_dir() -> (r: String)
    ensures
        r@ == "./hands"@,
{
    "./hands".to_string()
}

/// The overrides the environment supplies (each `None` when the variable is
/// unset): `AUTOMATON_AMS_API_KEY`, `AUTOMATON_AMS_URL`, `AUTOMATON_AGENT_ID`,
/// `AUTOMATON_AGENT_NAME`.
pub struct EnvOverrides {
    pub api_key: Option<String>,
    pub url: Option<String>,
    pub agent_id: Option<String>,
    pub agent_name: Option<String>,
}

/// `v` replaced by `o` when the override is present.
pub open spec fn overridden(v: Seq<char>, o: Option<String>) -> Seq<char> {
    match o {
        Some(s) => s@,
        None => v,
    }
}

fn take_override(v: &mut String, o: Option<String>)
    ensures
        final(v)@ == overridden(old(v)@, o),
{
    if let Some(s) = o {
        *v = s;
    }
}

impl AbotConfig {
    /// Applies environment overrides: each present variable replaces its
    /// field (secrets never need to be in the file); nothing else changes.
    pub fn apply_env_overrides(&mut self, env: EnvOverrides)
        ensures
            final(self).ams.api_key@ == overridden(old(self).ams.api_key@, env.api_key),
            final(self).ams.url@ == overridden(old(self).ams.url@, env.url),
            final(self).agent.id@ == overridden(old(self).agent.id@, env.agent_id),
            final(self).agent.name@ == overridden(old(self).agent.name@, env.agent_name),
            final(self).ams.heartbeat_interval_secs == old(self).ams.heartbeat_interval_secs,
            final(self).ams.connect_timeout_ms == old(self).ams.connect_timeout_ms,
            final(self).ams.request_timeout_ms == old(self).ams.request_timeout_ms,
            final(self).llm == old(self).llm,
            final(self).sandbox == old(self).sandbox,
            final(self).security == old(self).security,
            final(self).channels == old(self).channels,
            final(self).mcp == old(self).mcp,
            final(self).telemetry == old(self).telemetry,
            final(self).hands == old(self).hands,
    {
        take_override(&mut self.ams.api_key, env.api_key);
        take_override(&mut self.ams.url, env.url);
        take_override(&mut self.agent.id, env.agent_id);
        take_override(&mut self.agent.name, env.agent_name);
    }
}

impl AbotConfig {
    /// Applies the command line's overrides of the agent's name and id.
    pub fn apply_cli_overrides(&mut self, agent_name: Option<String>, agent_id: Option<String>)
        ensures
            final(self).agent.name@ == overridden(old(self).agent.name@, agent_name),
            final(self).agent.id@ == overridden(old(self).agent.id@, agent_id),
            final(self).ams.url@ == old(self).ams.url@,
            final(self).ams.api_key@ == old(self).ams.api_key@,
            final(self).ams.heartbeat_interval_secs == old(self).ams.heartbeat_interval_secs,
            final(self).ams.connect_timeout_ms == old(self).ams.connect_timeout_ms,
            final(self).ams.request_timeout_ms == old(self).ams.request_timeout_ms,
            final(self).llm == old(self).llm,
            final(self).sandbox == old(self).sandbox,
            final(self).security == old(self).security,
            final(self).channels == old(self).channels,
            final(self).mcp == old(self).mcp,
            final(self).telemetry == old(self).telemetry,
            final(self).hands == old(self).hands,
    {
        take_override(&mut self.agent.name, agent_name);
        take_override(&mut self.agent.id, agent_id);
    }
}

} // verus!
