//! Usage counters and the fleet heartbeat's status and container id.

use vstd::prelude::*;
use vstd::rwlock::{RwLock, RwLockPredicate};
use std::sync::Arc;
use crate::text::{ascii_lower_seq, to_ascii_lower, chars_eq, chars_of};
use crate::llm::kilo::{trim, trim_from};

verus! {

/// Token and execution totals since the last flush.
#[derive(Clone, Copy, Debug, PartialEq, Eq)]
pub struct UsageTotals {
    pub tokens_in: u64,
    pub tokens_out: u64,
    pub executions: u64,
}

/// Adding to a counter wraps on overflow, as an atomic `fetch_add` does.
pub open spec fn wrapping(a: u64, b: u64) -> u64 {
    if a + b <= u64::MAX { (a + b) as u64 } else { (a + b - (u64::MAX + 1)) as u64 }
}

impl UsageTotals {
    /// All counters at zero.
    pub fn zero() -> (r: Self)
        ensures
            r == (UsageTotals { tokens_in: 0, tokens_out: 0, executions: 0 }),
    {
        UsageTotals { tokens_in: 0, tokens_out: 0, executions: 0 }
    }

    /// Adds `n` input tokens (wrapping).
    pub fn with_tokens_in(self, n: u64) -> (r: Self)
        ensures
            r == (UsageTotals { tokens_in: wrapping(self.tokens_in, n), ..self }),
    {
        UsageTotals { tokens_in: self.tokens_in.wrapping_add(n), ..self }
    }

    /// Adds `n` output tokens (wrapping).
    pub fn with_tokens_out(self, n: u64) -> (r: Self)
        ensures
            r == (UsageTotals { tokens_out: wrapping(self.tokens_out, n), ..self }),
    {
        UsageTotals { tokens_out: self.tokens_out.wrapping_add(n), ..self }
    }

    /// Counts one more execution (wrapping).
    pub fn with_execution(self) -> (r: Self)
        ensures
            r == (UsageTotals { executions: wrapping(self.executions, 1), ..self }),
    {
        UsageTotals { executions: self.executions.wrapping_add(1), ..self }
    }
}

/// The counters' lock holds any totals.
pub struct AnyTotals;

impl RwLockPredicate<UsageTotals> for AnyTotals {
    open spec fn inv(self, t: UsageTotals) -> bool {
        true
    }
}

/// Counters accumulated between heartbeats and flushed on every tick.
///
/// Clones share the same counters, so any token-accounting path can bump
/// them. Updates go through the shared lock, each a single step of
/// [`UsageTotals`]; since other holders may update in between, the values a
/// flush returns are not stated here beyond their type.
#[derive(Clone)]
pub struct UsageCounters {
    totals: Arc<RwLock<UsageTotals, AnyTotals>>,
}

impl UsageCounters {
    /// Fresh counters, all zero.
    pub fn new() -> (r: Self) {
        UsageCounters { totals: Arc::new(RwLock::new(UsageTotals::zero(), Ghost(AnyTotals))) }
    }

    /// Adds `n` input tokens.
    pub fn add_tokens_in(&self, n: u64) {
        let (t, handle) = self.totals.acquire_write();
        handle.release_write(t.with_tokens_in(n));
    }

    /// Adds `n` output tokens.
    pub fn add_tokens_out(&self, n: u64) {
        let (t, handle) = self.totals.acquire_write();
        handle.release_write(t.with_tokens_out(n));
    }

    /// Counts one execution.
    pub fn inc_executions(&self) {
        let (t, handle) = self.totals.acquire_write();
        handle.release_write(t.with_execution());
    }

    /// Swaps the counters to zero in one step and returns the old values
    /// (tokens in, tokens out, executions).
    pub fn drain(&self) -> (r: (u64, u64, u64)) {
        let (t, handle) = self.totals.acquire_write();
        handle.release_write(UsageTotals::zero());
        (t.tokens_in, t.tokens_out, t.executions)
    }
}

/// The fleet's narrower status vocabulary: `working`, `error` or `idle`.
pub open spec fn fleet_status(status: Seq<char>) -> Seq<char> {
    let s = ascii_lower_seq(status);
    if s == "working"@ || s == "running"@ || s == "busy"@ || s == "executing"@ {
        "working"@
    } else if s == "error"@ || s == "failed"@ || s == "crashed"@ {
        "error"@
    } else {
        "idle"@
    }
}

fn is_word(v: &Vec<char>, lit: &str) -> (r: bool)
    ensures
        r == (v@ == lit@),
{
    let l = chars_of(lit);
    chars_eq(v.as_slice(), l.as_slice())
}

/// Maps the runtime status to the fleet vocabulary (`idle` | `working` |
/// `error`), ignoring ASCII case.
pub fn normalize_fleet_status(status: &str) -> (r: String)
    ensures
        r@ == fleet_status(status@),
{
    let s = to_ascii_lower(status);
    if is_word(&s, "working") || is_word(&s, "running") || is_word(&s, "busy") || is_word(&s, "executing") {
        "working".to_string()
    } else if is_word(&s, "error") || is_word(&s, "failed") || is_word(&s, "crashed") {
        "error".to_string()
    } else {
        "idle".to_string()
    }
}

/// The container id: the first non-empty of the `ABOT_CONTAINER_ID` and
/// `HOSTNAME` variables, else the trimmed hostname file when non-empty,
/// else `unknown`.
pub open spec fn container_id_choice(
    container_var: Option<Seq<char>>,
    hostname_var: Option<Seq<char>>,
    hostname_file: Option<Seq<char>>,
) -> Seq<char> {
    let from_file = match hostname_file {
        Some(f) if trim(f).len() > 0 => trim(f),
        _ => "unknown"@,
    };
    match (container_var, hostname_var) {
        (Some(id), _) if id.len() > 0 => id,
        (_, Some(id)) if id.len() > 0 => id,
        _ => from_file,
    }
}

/// Chooses the container id from what the environment and the hostname
/// file gave (each `None` when unreadable).
pub fn resolve_container_id(
    container_var: Option<String>,
    hostname_var: Option<String>,
    hostname_file: Option<String>,
) -> (r: String)
    ensures
        r@ == container_id_choice(
            match container_var { Some(s) => Some(s@), None => None },
            match hostname_var { Some(s) => Some(s@), None => None },
            match hostname_file { Some(s) => Some(s@), None => None },
        ),
{
    if let Some(id) = container_var {
        if !id.as_str().is_empty() {
            return id;
        }
    }
    if let Some(id) = hostname_var {
        if !id.as_str().is_empty() {
            return id;
        }
    }
    match hostname_file {
        Some(f) => {
            let chars = chars_of(f.as_str());
            let t = trim_from(&chars, 0);
            assert(chars@.skip(0) =~= chars@);
            if t.len() == 0 {
                "unknown".to_string()
            } else {
                crate::text::string_from_chars(t.as_slice())
            }
        },
        None => "unknown".to_string(),
    }
}

} // verus!
