//! Waiting on a worker: the decisions of `dispatch_to_worker` and
//! `poll_worker_execution` between their observatory lookups.
//!
//! The caller owns the clock, the AMS calls and the sleeps. After each
//! outside step it hands the outcome to one of these functions, which
//! update the wait and say when it is over and with what reply.

use vstd::prelude::*;
use crate::json::{Json, JsonNumber, JsonV, NumV, jget, jstr, jtext, jset};
use crate::agent::runtime::worker::{
    entry, execution_id_from_value, is_terminal_exec_status, named_execution_id, opt_json_view,
    pending_result, pending_worker_result, terminal_result, terminal_status, terminal_worker_result,
};
use crate::agent::runtime::replies::arg_text_or;

verus! {

/// The status an observatory row reports (`unknown` when it has none).
pub open spec fn row_status(row: JsonV) -> Seq<char> {
    arg_text_or(row, "status"@, "unknown"@)
}

fn status_of(row: &Json) -> (r: String)
    ensures
        r@ == row_status(row@),
{
    match row.get("status") {
        Some(v) => match v.as_str() {
            Some(s) => s.to_string(),
            None => "unknown".to_string(),
        },
        None => "unknown".to_string(),
    }
}

/// The reply when the dispatch message itself could not be sent.
pub open spec fn dispatch_failure(e: Seq<char>) -> JsonV {
    JsonV::Object(seq![("ok"@, JsonV::Bool(false)), ("error"@, jtext("dispatch: "@ + e))])
}

/// Shapes a failed dispatch.
pub fn dispatch_failed_reply(e: &str) -> (r: Json)
    ensures
        r@ == dispatch_failure(e@),
{
    let mut msg = "dispatch: ".to_string();
    msg.append(e);
    let mut v: Vec<(String, Json)> = Vec::new();
    v.push(entry("ok", Json::Bool(false)));
    v.push(entry("error", Json::Str(msg)));
    let r = Json::Object(v);
    assert(r@->Object_0 =~= dispatch_failure(e@)->Object_0);
    r
}

/// The note of a dispatch whose row never appeared.
pub open spec fn no_row_note() -> Seq<char> {
    "The worker was dispatched but no execution row appeared for this correlation_id within the wait window. The steering message is queued; confirm the worker is alive before re-dispatching."@
}

/// The reply when the wait ran out before any execution row was found.
pub open spec fn no_row_result(worker: Seq<char>, waited: u64, dispatch_id: Seq<char>, response: JsonV) -> JsonV {
    JsonV::Object(seq![
        ("ok"@, JsonV::Bool(false)),
        ("dispatched_to"@, jtext(worker)),
        ("execution_id"@, JsonV::Null),
        ("status"@, jtext("no_execution_row"@)),
        ("terminal"@, JsonV::Bool(false)),
        ("waited_secs"@, JsonV::Number(NumV::PosInt(waited))),
        ("correlation_id"@, jtext(dispatch_id)),
        ("note"@, jtext(no_row_note())),
        ("response"@, response),
    ])
}

/// A dispatched task being waited on.
pub struct DispatchWait {
    pub worker: String,
    pub dispatch_id: String,
    pub timeout_secs: u64,
    pub response: Json,
    pub exec_id: Option<String>,
    pub last_exec: Option<Json>,
    pub last_status: String,
}

/// An optional string as values.
pub open spec fn sv(o: Option<String>) -> Option<Seq<char>> {
    match o {
        Some(s) => Some(s@),
        None => None,
    }
}

/// An optional JSON value as values.
pub open spec fn jv(o: Option<Json>) -> Option<JsonV> {
    match o {
        Some(j) => Some(j@),
        None => None,
    }
}

impl DispatchWait {
    /// Starts waiting after a dispatch was accepted: the execution id is
    /// the one the dispatch response names, if any; nothing is observed yet.
    pub fn start(worker: &str, dispatch_id: &str, timeout_secs: u64, response: Json) -> (r: Self)
        ensures
            r.worker@ == worker@,
            r.dispatch_id@ == dispatch_id@,
            r.timeout_secs == timeout_secs,
            r.response@ == response@,
            sv(r.exec_id) == named_execution_id(response@),
            r.last_exec is None,
            r.last_status@ == "unknown"@,
    {
        let exec_id = execution_id_from_value(&response);
        DispatchWait {
            worker: worker.to_string(),
            dispatch_id: dispatch_id.to_string(),
            timeout_secs,
            response,
            exec_id,
            last_exec: None,
            last_status: "unknown".to_string(),
        }
    }

    /// The reply once the wait has run out: still running (with the poll
    /// call that fans it in later) when a row was found, else the
    /// no-execution-row reply. Both carry the correlation id.
    pub open spec fn timed_out(&self) -> JsonV {
        match self.exec_id {
            Some(id) => jset(
                pending_result(Some(self.worker@), id@, self.last_status@, self.timeout_secs, jv(self.last_exec)),
                "correlation_id"@,
                jtext(self.dispatch_id@),
            ),
            None => no_row_result(self.worker@, self.timeout_secs, self.dispatch_id@, self.response@),
        }
    }

    /// Shapes the reply of a wait that ran out.
    pub fn timed_out_reply(&self) -> (r: Json)
        ensures
            r@ == self.timed_out(),
    {
        match &self.exec_id {
            Some(id) => {
                let last = match &self.last_exec {
                    Some(j) => Some(j),
                    None => None,
                };
                let mut p = pending_worker_result(
                    Some(self.worker.as_str()),
                    id.as_str(),
                    self.last_status.as_str(),
                    self.timeout_secs,
                    last,
                );
                p.set("correlation_id", Json::text(self.dispatch_id.as_str()));
                p
            },
            None => {
                let mut v: Vec<(String, Json)> = Vec::new();
                v.push(entry("ok", Json::Bool(false)));
                v.push(entry("dispatched_to", Json::text(self.worker.as_str())));
                v.push(entry("execution_id", Json::Null));
                v.push(entry("status", Json::text("no_execution_row")));
                v.push(entry("terminal", Json::Bool(false)));
                v.push(entry("waited_secs", Json::Number(JsonNumber::PosInt(self.timeout_secs))));
                v.push(entry("correlation_id", Json::text(self.dispatch_id.as_str())));
                v.push(entry("note", Json::text("The worker was dispatched but no execution row appeared for this correlation_id within the wait window. The steering message is queued; confirm the worker is alive before re-dispatching.")));
                v.push(entry("response", self.response.deep_clone()));
                let r = Json::Object(v);
                assert(r@->Object_0 =~= self.timed_out()->Object_0);
                r
            },
        }
    }

    /// Whether the row must still be looked up by lineage.
    pub fn needs_lineage(&self) -> (r: bool)
        ensures
            r == (self.exec_id is None),
    {
        self.exec_id.is_none()
    }

    /// Takes in a lineage lookup: a row found by the dispatch's correlation
    /// id gives the execution id it names. A failed or empty lookup changes
    /// nothing.
    pub fn absorb_lineage(&mut self, found: Option<Json>)
        requires
            old(self).exec_id is None,
        ensures
            sv(final(self).exec_id) == match jv(found) {
                Some(row) => named_execution_id(row),
                None => None,
            },
            final(self).worker == old(self).worker,
            final(self).dispatch_id == old(self).dispatch_id,
            final(self).timeout_secs == old(self).timeout_secs,
            final(self).response == old(self).response,
            final(self).last_exec == old(self).last_exec,
            final(self).last_status == old(self).last_status,
    {
        if let Some(row) = found {
            self.exec_id = execution_id_from_value(&row);
        }
    }

    /// Takes in an observatory row of the awaited execution. A terminal row
    /// ends the wait with its result (and the correlation id); any other
    /// row is remembered as the last one seen.
    pub fn absorb_execution(&mut self, row: Json) -> (r: Option<Json>)
        requires
            old(self).exec_id is Some,
        ensures
            terminal_status(row_status(row@)) ==> (r matches Some(j) && j@ == jset(
                terminal_result(Some(old(self).worker@), old(self).exec_id->0@, row_status(row@), row@),
                "correlation_id"@,
                jtext(old(self).dispatch_id@),
            )),
            terminal_status(row_status(row@)) ==> *final(self) == *old(self),
            !terminal_status(row_status(row@)) ==> (r is None
                && jv(final(self).last_exec) == Some(row@)
                && final(self).last_status@ == row_status(row@)
                && final(self).exec_id == old(self).exec_id
                && final(self).worker == old(self).worker
                && final(self).dispatch_id == old(self).dispatch_id
                && final(self).timeout_secs == old(self).timeout_secs
                && final(self).response == old(self).response),
    {
        let status = status_of(&row);
        if is_terminal_exec_status(status.as_str()) {
            let id = match &self.exec_id {
                Some(id) => id,
                None => return None,
            };
            let mut t = terminal_worker_result(Some(self.worker.as_str()), id.as_str(), status.as_str(), &row);
            t.set("correlation_id", Json::text(self.dispatch_id.as_str()));
            return Some(t);
        }
        self.last_status = status;
        self.last_exec = Some(row);
        None
    }
}

/// The note of a poll that never saw a row.
pub open spec fn unseen_note() -> Seq<char> {
    "No observatory row for this execution id. Check the id before assuming the work is still running."@
}

/// An earlier execution being polled.
pub struct PollWait {
    pub exec_id: String,
    pub wait_secs: u64,
    pub last_exec: Option<Json>,
    pub last_status: String,
    pub last_error: Option<String>,
}

impl PollWait {
    /// Starts polling `exec_id` for up to `wait_secs` seconds.
    pub fn start(exec_id: &str, wait_secs: u64) -> (r: Self)
        ensures
            r.exec_id@ == exec_id@,
            r.wait_secs == wait_secs,
            r.last_exec is None,
            r.last_status@ == "unknown"@,
            r.last_error is None,
    {
        PollWait {
            exec_id: exec_id.to_string(),
            wait_secs,
            last_exec: None,
            last_status: "unknown".to_string(),
            last_error: None,
        }
    }

    /// Takes in one poll. A terminal row ends the poll with its result; any
    /// other row is remembered; a failed lookup keeps its error.
    pub fn absorb(&mut self, outcome: Result<Json, String>) -> (r: Option<Json>)
        ensures
            match outcome {
                Ok(row) => if terminal_status(row_status(row@)) {
                    r matches Some(j) && j@ == terminal_result(None, old(self).exec_id@, row_status(row@), row@)
                        && *final(self) == *old(self)
                } else {
                    r is None && jv(final(self).last_exec) == Some(row@)
                        && final(self).last_status@ == row_status(row@)
                        && final(self).last_error == old(self).last_error
                        && final(self).exec_id == old(self).exec_id
                        && final(self).wait_secs == old(self).wait_secs
                },
                Err(e) => r is None && sv(final(self).last_error) == Some(e@)
                    && final(self).last_exec == old(self).last_exec
                    && final(self).last_status == old(self).last_status
                    && final(self).exec_id == old(self).exec_id
                    && final(self).wait_secs == old(self).wait_secs,
            },
    {
        match outcome {
            Ok(row) => {
                let status = status_of(&row);
                if is_terminal_exec_status(status.as_str()) {
                    return Some(terminal_worker_result(None, self.exec_id.as_str(), status.as_str(), &row));
                }
                self.last_status = status;
                self.last_exec = Some(row);
                None
            },
            Err(e) => {
                self.last_error = Some(e);
                None
            },
        }
    }

    /// The reply once the poll window has run out: still running when a row
    /// was seen, else a not-found reply with the last error.
    pub open spec fn timed_out(&self) -> JsonV {
        match self.last_exec {
            Some(row) => pending_result(None, self.exec_id@, self.last_status@, self.wait_secs, Some(row@)),
            None => JsonV::Object(seq![
                ("ok"@, JsonV::Bool(false)),
                ("execution_id"@, jtext(self.exec_id@)),
                ("status"@, jtext("unknown"@)),
                ("terminal"@, JsonV::Bool(false)),
                ("error"@, jtext(match self.last_error { Some(e) => e@, None => "execution row not found"@ })),
                ("note"@, jtext(unseen_note())),
            ]),
        }
    }

    /// Shapes the reply of a poll whose window ran out.
    pub fn timed_out_reply(&self) -> (r: Json)
        ensures
            r@ == self.timed_out(),
    {
        match &self.last_exec {
            Some(row) => pending_worker_result(None, self.exec_id.as_str(), self.last_status.as_str(), self.wait_secs, Some(row)),
            None => {
                let err = match &self.last_error {
                    Some(e) => e.clone(),
                    None => "execution row not found".to_string(),
                };
                let mut v: Vec<(String, Json)> = Vec::new();
                v.push(entry("ok", Json::Bool(false)));
                v.push(entry("execution_id", Json::text(self.exec_id.as_str())));
                v.push(entry("status", Json::text("unknown")));
                v.push(entry("terminal", Json::Bool(false)));
                v.push(entry("error", Json::Str(err)));
                v.push(entry("note", Json::text("No observatory row for this execution id. Check the id before assuming the work is still running.")));
                let r = Json::Object(v);
                assert(r@->Object_0 =~= self.timed_out()->Object_0);
                r
            },
        }
    }
}

/// Law: a wait that runs out after a row was seen is never a failure
/// report: it says the worker is still running, is not terminal, and hands
/// back the exact poll call that fans the result in later.
pub proof fn law_expired_wait_resumes(
    worker: Option<Seq<char>>,
    exec_id: Seq<char>,
    observed: Seq<char>,
    waited: u64,
    row: Option<JsonV>,
)
    ensures
        jget(pending_result(worker, exec_id, observed, waited, row), "status"@) == Some(jtext("still_running"@)),
        jget(pending_result(worker, exec_id, observed, waited, row), "terminal"@) == Some(JsonV::Bool(false)),
        jget(pending_result(worker, exec_id, observed, waited, row), "resume_with"@) == Some(JsonV::Object(seq![
            ("tool"@, jtext("poll_worker_execution"@)),
            ("arguments"@, JsonV::Object(seq![("execution_id"@, jtext(exec_id))])),
        ])),
{
    reveal_strlit("status");
    reveal_strlit("ok");
    reveal_strlit("dispatched_to");
    reveal_strlit("execution_id");
    reveal_strlit("terminal");
    reveal_strlit("observed_status");
    reveal_strlit("waited_secs");
    reveal_strlit("partial_output");
    reveal_strlit("note");
    reveal_strlit("resume_with");
    let e = pending_result(worker, exec_id, observed, waited, row)->Object_0;
    assert(e[0].0 != "status"@) by { assert("ok"@.len() != "status"@.len() || "ok"@[0] != "status"@[0]); }
    assert(e[1].0 != "status"@) by { assert("dispatched_to"@.len() != "status"@.len() || "dispatched_to"@[0] != "status"@[0]); }
    assert(e[2].0 != "status"@) by { assert("execution_id"@.len() != "status"@.len() || "execution_id"@[0] != "status"@[0]); }
    crate::json::lemma_member_at(e, "status"@, 3);
    assert(e[0].0 != "terminal"@) by { assert("ok"@.len() != "terminal"@.len() || "ok"@[0] != "terminal"@[0]); }
    assert(e[1].0 != "terminal"@) by { assert("dispatched_to"@.len() != "terminal"@.len() || "dispatched_to"@[0] != "terminal"@[0]); }
    assert(e[2].0 != "terminal"@) by { assert("execution_id"@.len() != "terminal"@.len() || "execution_id"@[0] != "terminal"@[0]); }
    assert(e[3].0 != "terminal"@) by { assert("status"@.len() != "terminal"@.len() || "status"@[0] != "terminal"@[0]); }
    crate::json::lemma_member_at(e, "terminal"@, 4);
    assert(e[0].0 != "resume_with"@) by { assert("ok"@.len() != "resume_with"@.len() || "ok"@[0] != "resume_with"@[0]); }
    assert(e[1].0 != "resume_with"@) by { assert("dispatched_to"@.len() != "resume_with"@.len() || "dispatched_to"@[0] != "resume_with"@[0]); }
    assert(e[2].0 != "resume_with"@) by { assert("execution_id"@.len() != "resume_with"@.len() || "execution_id"@[0] != "resume_with"@[0]); }
    assert(e[3].0 != "resume_with"@) by { assert("status"@.len() != "resume_with"@.len() || "status"@[0] != "resume_with"@[0]); }
    assert(e[4].0 != "resume_with"@) by { assert("terminal"@.len() != "resume_with"@.len() || "terminal"@[0] != "resume_with"@[0]); }
    assert(e[5].0 != "resume_with"@) by { assert("observed_status"@.len() != "resume_with"@.len() || "observed_status"@[0] != "resume_with"@[0]); }
    assert(e[6].0 != "resume_with"@) by { assert("waited_secs"@.len() != "resume_with"@.len() || "waited_secs"@[0] != "resume_with"@[0]); }
    assert(e[7].0 != "resume_with"@) by { assert("partial_output"@.len() != "resume_with"@.len() || "partial_output"@[0] != "resume_with"@[0]); }
    assert(e[8].0 != "resume_with"@) by { assert("note"@.len() != "resume_with"@.len() || "note"@[0] != "resume_with"@[0]); }
    crate::json::lemma_member_at(e, "resume_with"@, 9);
}

/// Law: a terminal row's result is `ok` exactly when the execution
/// completed, and is always marked terminal.
pub proof fn law_terminal_ok_iff_completed(worker: Option<Seq<char>>, exec_id: Seq<char>, status: Seq<char>, row: JsonV)
    ensures
        jget(terminal_result(worker, exec_id, status, row), "ok"@) == Some(JsonV::Bool(status == "completed"@)),
        jget(terminal_result(worker, exec_id, status, row), "terminal"@) == Some(JsonV::Bool(true)),
{
    reveal_strlit("ok");
    reveal_strlit("dispatched_to");
    reveal_strlit("execution_id");
    reveal_strlit("status");
    reveal_strlit("terminal");
    let e = terminal_result(worker, exec_id, status, row)->Object_0;
    crate::json::lemma_member_at(e, "ok"@, 0);
    assert(e[0].0 != "terminal"@) by { assert("ok"@.len() != "terminal"@.len() || "ok"@[0] != "terminal"@[0]); }
    assert(e[1].0 != "terminal"@) by { assert("dispatched_to"@.len() != "terminal"@.len() || "dispatched_to"@[0] != "terminal"@[0]); }
    assert(e[2].0 != "terminal"@) by { assert("execution_id"@.len() != "terminal"@.len() || "execution_id"@[0] != "terminal"@[0]); }
    assert(e[3].0 != "terminal"@) by { assert("status"@.len() != "terminal"@.len() || "status"@[0] != "terminal"@[0]); }
    crate::json::lemma_member_at(e, "terminal"@, 4);
}

} // verus!
