# abot

The verified core of the Abot agent runtime: the body an AI agent runs in,
driven by AMS (the Agent Memory System), which decides lifecycle and grants.

`src/` is a Verus library. Its public functions state what they return or
change in their contracts, and Verus proves it. The exceptions are the
handles whose state is shared by every clone behind a lock (`TaintTracker`,
the `FuelMeter` counter, `UsageCounters`): what one handle reads depends on
what the others did, so their readers state only success and the lock's
invariant (bounds). The rules they apply are stated exactly on plain values
(`TaintSet`, `FuelMeter::step`, `UsageTotals`), and the clock-driven parts
of the fuel meter are exact for a given clock reading.

- `agent::runtime` — what a steering message sets in motion (prompt,
  lineage, tools or not, rollup target), the tool loop, the plan of every
  tool call and the shaping of its reply, the waits on worker executions,
  the tool definitions offered to the model, birth metadata and the
  agent's status.
- `ams` — AMS endpoints and request bodies, heartbeat directives, wire
  types, steering messages.
- `sandbox` — permission checks on normalised paths, fuel metering, the
  module check.
- `security` — hex encoding, ed25519 manifest signing, the hash-chained
  audit trail, taint tracking, the secret store.
- `llm` — task routing and reading the Kilo CLI's output.
- `mcp`, `channels`, `telemetry`, `config`, `hand` — transports, channels,
  usage counters and fleet status, configuration defaults and overrides,
  hand manifests and the identity claims they send.
- `json`, `json_text`, `text` — the JSON model the library reads and builds,
  its compact text, and string helpers.

Calls into outside crates (hashing, signatures, UUIDs, URL encoding, clocks)
go through small trusted functions whose contracts say what the crate
documents.

`app/` is the program around it: command line, configuration files, the
HTTP client, the event loop, subprocesses and system metrics.

`tests/` exercise the library on concrete values.
