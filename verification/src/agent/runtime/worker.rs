//! Shaping the results of worker dispatches and polls from observatory rows.

use vstd::prelude::*;
use crate::json::{Json, JsonNumber, JsonV, NumV, jget, jstr, jtext, jopt_text, jor_null, or_else, nonempty};
use crate::text::{str_eq, truncate_chars, take_chars};

verus! {

/// Observatory statuses after which an execution row never changes again.
pub open spec fn terminal_status(s: Seq<char>) -> bool {
    s == "completed"@ || s == "failed"@ || s == "killed"@ || s == "error"@ || s == "timeout"@
}

/// Whether an observatory status is terminal: completed, failed, killed,
/// error or timeout.
pub fn is_terminal_exec_status(status: &str) -> (r: bool)
    ensures
        r == terminal_status(status@),
{
    str_eq(status, "completed") || str_eq(status, "failed") || str_eq(status, "killed")
        || str_eq(status, "error") || str_eq(status, "timeout")
}

/// A summary of at most 500 characters: longer text is cut there and `...` appended.
pub open spec fn rollup_summary(v: Seq<char>) -> Seq<char> {
    if v.len() > 500 { take_chars(v, 500) + "..."@ } else { v }
}

/// Summarises text for a rollup message.
pub fn summarize_rollup_text(value: &str) -> (r: String)
    ensures
        r@ == rollup_summary(value@),
{
    // A proper character prefix is shorter in bytes exactly when characters were cut.
    let chars = crate::text::chars_of(value);
    if chars.len() > 500 {
        let mut truncated = truncate_chars(value, 500);
        truncated.append("...");
        truncated
    } else {
        value.to_string()
    }
}

/// The output of an observatory row: its `output` member, else its
/// `output_buffer` member, else `null`.
pub open spec fn row_output(row: JsonV) -> JsonV {
    jor_null(or_else(jget(row, "output"@), jget(row, "output_buffer"@)))
}

/// The output of an observatory row.
pub fn terminal_output(value: &Json) -> (r: Json)
    ensures
        r@ == row_output(value@),
{
    match value.get("output") {
        Some(v) => v.deep_clone(),
        None => match value.get("output_buffer") {
            Some(v) => v.deep_clone(),
            None => Json::Null,
        },
    }
}

pub open spec fn opt_view(s: Option<&str>) -> Option<Seq<char>> {
    match s {
        Some(x) => Some(x@),
        None => None,
    }
}

/// The result of a dispatch or poll whose row reached a terminal status.
pub open spec fn terminal_result(worker: Option<Seq<char>>, exec_id: Seq<char>, status: Seq<char>, row: JsonV) -> JsonV {
    JsonV::Object(seq![
        ("ok"@, JsonV::Bool(status == "completed"@)),
        ("dispatched_to"@, jopt_text(worker)),
        ("execution_id"@, jtext(exec_id)),
        ("status"@, jtext(status)),
        ("terminal"@, JsonV::Bool(true)),
        ("output"@, row_output(row)),
        ("duration_ms"@, jor_null(jget(row, "duration_ms"@))),
    ])
}

/// A member `key: value` of an object under construction.
pub fn entry(key: &str, value: Json) -> (r: (String, Json))
    ensures
        r.0@ == key@,
        r.1@ == value@,
{
    (key.to_string(), value)
}

/// Shapes a terminal observatory row into a dispatch or poll result; it is
/// `ok` only when the status is `completed`.
pub fn terminal_worker_result(worker: Option<&str>, exec_id: &str, status: &str, exec: &Json) -> (r: Json)
    ensures
        r@ == terminal_result(opt_view(worker), exec_id@, status@, exec@),
{
    let mut v: Vec<(String, Json)> = Vec::new();
    v.push(entry("ok", Json::Bool(str_eq(status, "completed"))));
    v.push(entry("dispatched_to", Json::opt_text(worker)));
    v.push(entry("execution_id", Json::text(exec_id)));
    v.push(entry("status", Json::text(status)));
    v.push(entry("terminal", Json::Bool(true)));
    v.push(entry("output", terminal_output(exec)));
    let duration = match exec.get("duration_ms") {
        Some(d) => d.deep_clone(),
        None => Json::Null,
    };
    v.push(entry("duration_ms", duration));
    let r = Json::Object(v);
    assert(r@->Object_0 =~= terminal_result(opt_view(worker), exec_id@, status@, exec@)->Object_0);
    r
}

/// The note attached to a wait that ran out.
pub open spec fn still_running_note() -> Seq<char> {
    "Wait window elapsed; the worker is still running and its full "@
        + "output will land on this execution row. This is not a failure "@
        + "and not a lost result - do not re-dispatch this"@ + " task."@
}

/// The partial output of a still-running row: its output, when a string, summarised.
pub open spec fn partial_output(row: Option<JsonV>) -> JsonV {
    match row {
        Some(r) => match row_output(r) {
            JsonV::Str(s) => JsonV::Str(rollup_summary(s)),
            _ => JsonV::Null,
        },
        None => JsonV::Null,
    }
}

/// The result of a dispatch or poll whose wait ran out before the row was terminal.
pub open spec fn pending_result(
    worker: Option<Seq<char>>,
    exec_id: Seq<char>,
    observed: Seq<char>,
    waited_secs: u64,
    row: Option<JsonV>,
) -> JsonV {
    JsonV::Object(seq![
        ("ok"@, JsonV::Bool(false)),
        ("dispatched_to"@, jopt_text(worker)),
        ("execution_id"@, jtext(exec_id)),
        ("status"@, jtext("still_running"@)),
        ("terminal"@, JsonV::Bool(false)),
        ("observed_status"@, jtext(observed)),
        ("waited_secs"@, JsonV::Number(NumV::PosInt(waited_secs))),
        ("partial_output"@, partial_output(row)),
        ("note"@, jtext(still_running_note())),
        ("resume_with"@, JsonV::Object(seq![
            ("tool"@, jtext("poll_worker_execution"@)),
            ("arguments"@, JsonV::Object(seq![("execution_id"@, jtext(exec_id))])),
        ])),
    ])
}

pub open spec fn opt_json_view(j: Option<&Json>) -> Option<JsonV> {
    match j {
        Some(x) => Some(x@),
        None => None,
    }
}

/// Shapes a still-running row: not a failure, carrying any partial output
/// and the exact call that fans the result in later.
pub fn pending_worker_result(
    worker: Option<&str>,
    exec_id: &str,
    observed_status: &str,
    waited_secs: u64,
    exec: Option<&Json>,
) -> (r: Json)
    ensures
        r@ == pending_result(opt_view(worker), exec_id@, observed_status@, waited_secs, opt_json_view(exec)),
{
    let partial = match exec {
        Some(row) => {
            let out = terminal_output(row);
            match out.as_str() {
                Some(s) => Json::Str(summarize_rollup_text(s)),
                None => Json::Null,
            }
        },
        None => Json::Null,
    };
    let mut args: Vec<(String, Json)> = Vec::new();
    args.push(entry("execution_id", Json::text(exec_id)));
    let args = Json::Object(args);
    assert(args@->Object_0 =~= seq![("execution_id"@, jtext(exec_id@))]);
    let mut resume: Vec<(String, Json)> = Vec::new();
    resume.push(entry("tool", Json::text("poll_worker_execution")));
    resume.push(entry("arguments", args));
    let resume = Json::Object(resume);
    assert(resume@->Object_0 =~= seq![
        ("tool"@, jtext("poll_worker_execution"@)),
        ("arguments"@, JsonV::Object(seq![("execution_id"@, jtext(exec_id@))])),
    ]);
    let mut v: Vec<(String, Json)> = Vec::new();
    v.push(entry("ok", Json::Bool(false)));
    v.push(entry("dispatched_to", Json::opt_text(worker)));
    v.push(entry("execution_id", Json::text(exec_id)));
    v.push(entry("status", Json::text("still_running")));
    v.push(entry("terminal", Json::Bool(false)));
    v.push(entry("observed_status", Json::text(observed_status)));
    v.push(entry("waited_secs", Json::Number(JsonNumber::PosInt(waited_secs))));
    v.push(entry("partial_output", partial));
    let mut note = "Wait window elapsed; the worker is still running and its full ".to_string();
    note.append("output will land on this execution row. This is not a failure ");
    note.append("and not a lost result - do not re-dispatch this");
    note.append(" task.");
    v.push(entry("note", Json::Str(note)));
    v.push(entry("resume_with", resume));
    let r = Json::Object(v);
    assert(r@->Object_0 =~= pending_result(opt_view(worker), exec_id@, observed_status@, waited_secs, opt_json_view(exec))->Object_0);
    r
}

/// The first of `keys` whose member in `meta` is a non-empty string.
pub open spec fn first_text_member(meta: JsonV, keys: Seq<Seq<char>>) -> Option<Seq<char>>
    decreases keys.len(),
{
    if keys.len() == 0 {
        None
    } else {
        match nonempty(jstr(jget(meta, keys[0]))) {
            Some(v) => Some(v),
            None => first_text_member(meta, keys.drop_first()),
        }
    }
}

pub open spec fn keys_view(keys: Seq<&str>) -> Seq<Seq<char>> {
    keys.map_values(|k: &str| k@)
}

/// The first of `keys` whose value in the metadata is a non-empty string.
pub fn metadata_string(meta: Option<&Json>, keys: &[&str]) -> (r: Option<String>)
    ensures
        match meta {
            None => r is None,
            Some(m) => match r {
                Some(s) => first_text_member(m@, keys_view(keys@)) == Some(s@),
                None => first_text_member(m@, keys_view(keys@)) is None,
            },
        },
{
    let m = match meta {
        Some(m) => m,
        None => return None,
    };
    let ghost kv = keys_view(keys@);
    let mut i: usize = 0;
    assert(kv.skip(0) =~= kv);
    while i < keys.len()
        invariant
            i <= keys@.len(),
            kv == keys_view(keys@),
            meta == Some(m),
            first_text_member(m@, kv) == first_text_member(m@, kv.skip(i as int)),
        decreases keys.len() - i,
    {
        assert(kv.skip(i as int)[0] == keys@[i as int]@);
        assert(kv.skip(i as int).drop_first() =~= kv.skip(i + 1));
        match m.get(keys[i]) {
            Some(v) => match v.as_str() {
                Some(s) => {
                    if !s.is_empty() {
                        return Some(s.to_string());
                    }
                },
                None => {},
            },
            None => {},
        }
        i += 1;
    }
    None
}

/// The execution id a response names: its `execution_id` member, else its
/// `executionId` member, when that is a non-empty string.
pub open spec fn named_execution_id(v: JsonV) -> Option<Seq<char>> {
    nonempty(jstr(or_else(jget(v, "execution_id"@), jget(v, "executionId"@))))
}

/// The execution id a response names, if any.
pub fn execution_id_from_value(value: &Json) -> (r: Option<String>)
    ensures
        match r {
            Some(s) => named_execution_id(value@) == Some(s@),
            None => named_execution_id(value@) is None,
        },
{
    let v = match value.get("execution_id") {
        Some(v) => v,
        None => match value.get("executionId") {
            Some(v) => v,
            None => return None,
        },
    };
    match v.as_str() {
        Some(s) => {
            if !s.is_empty() {
                Some(s.to_string())
            } else {
                None
            }
        },
        None => None,
    }
}

/// Law: a rollup summary is never longer than 500 characters and the
/// ellipsis, and short text passes through unchanged.
pub proof fn law_rollup_summary_is_short(v: Seq<char>)
    ensures
        rollup_summary(v).len() <= 503,
        v.len() <= 500 ==> rollup_summary(v) == v,
{
    reveal_strlit("...");
}

} // verus!
