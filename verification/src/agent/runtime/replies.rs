//! Reading the remaining tools' arguments and shaping what their AMS calls
//! answered into the reply the model sees.

use vstd::prelude::*;
use crate::json::{Json, JsonNumber, JsonV, NumV, jget, jstr, ju64, jtext, jopt_text, jor_null, or_else};
use crate::text::{chars_of, starts_with_chars, has_prefix, str_eq, string_from_chars, utc_now_rfc3339};
use crate::llm::kilo::{trim, trim_from};
use crate::ids::{is_uuid, uuid_parses};
use crate::agent::runtime::worker::{entry, opt_view, opt_json_view};
use crate::agent::runtime::tools::{arg_text, arg_str, error_object, error_json};
use crate::agent::runtime::board::{board_summary, task_board_summary};

verus! {

/// What a tool hands back to the model: a JSON value, or text that AMS
/// returned as it was.
#[derive(Debug)]
pub enum ToolReply {
    Json(Json),
    Raw(String),
}

/// A string argument, or `default` when it is missing or not a string.
pub open spec fn arg_text_or(args: JsonV, key: Seq<char>, default: Seq<char>) -> Seq<char> {
    match jstr(jget(args, key)) {
        Some(s) => s,
        None => default,
    }
}

/// A string argument (`default` when missing or not a string).
pub fn arg_str_or<'a>(args: &'a Json, key: &str, default: &'a str) -> (r: &'a str)
    ensures
        r@ == arg_text_or(args@, key@, default@),
{
    match args.get(key) {
        Some(v) => match v.as_str() {
            Some(s) => s,
            None => default,
        },
        None => default,
    }
}

/// `{"error": e}` for a failed AMS call, or the value it answered.
pub open spec fn passthrough(r: Result<JsonV, Seq<char>>) -> JsonV {
    match r {
        Ok(v) => v,
        Err(e) => error_object(e),
    }
}


/// A result as values.
pub open spec fn res_view(r: Result<Json, String>) -> Result<JsonV, Seq<char>> {
    match r {
        Ok(v) => Ok(v@),
        Err(e) => Err(e@),
    }
}

/// The answer of a call whose reply is passed on as it came
/// (`mcp_list_servers`, `complete_task`), or its error.
pub fn passthrough_reply(resp: Result<Json, String>) -> (r: Json)
    ensures
        r@ == passthrough(res_view(resp)),
{
    match resp {
        Ok(v) => v,
        Err(e) => error_json(e.as_str()),
    }
}

// ---------------------------------------------------------------------------
// dispatch_to_tl
// ---------------------------------------------------------------------------

/// The rollup breadcrumbs a team lead is handed: who asked and from which
/// execution (and chat session, when known). Without an execution there
/// are none.
pub open spec fn rollup_meta(caller: Seq<char>, exec: Option<Seq<char>>, chat: Option<Seq<char>>) -> Option<JsonV> {
    match exec {
        None => None,
        Some(e) => {
            let base = seq![("parent_agent_id"@, jtext(caller)), ("parent_exec_id"@, jtext(e))];
            Some(JsonV::Object(match chat {
                Some(c) => base + seq![("chat_session_id"@, jtext(c))],
                None => base,
            }))
        },
    }
}

/// Builds the rollup breadcrumbs of a team-lead dispatch.
pub fn rollup_metadata(caller: &str, exec: Option<&str>, chat: Option<&str>) -> (r: Option<Json>)
    ensures
        opt_json_view(match r { Some(ref j) => Some(j), None => None }) == rollup_meta(caller@, opt_view(exec), opt_view(chat)),
{
    match exec {
        None => None,
        Some(e) => {
            let mut v: Vec<(String, Json)> = Vec::new();
            v.push(entry("parent_agent_id", Json::text(caller)));
            v.push(entry("parent_exec_id", Json::text(e)));
            if let Some(c) = chat {
                v.push(entry("chat_session_id", Json::text(c)));
            }
            let j = Json::Object(v);
            assert(j@->Object_0 =~= rollup_meta(caller@, opt_view(exec), opt_view(chat))->0->Object_0);
            Some(j)
        },
    }
}

/// What `dispatch_to_tl` was asked.
pub struct TlDispatch {
    pub tl_name: String,
    pub task: String,
    pub priority: String,
}

/// Reads `dispatch_to_tl` arguments: `tl_name` and `task` are required;
/// the priority defaults to `normal`.
pub fn plan_dispatch_to_tl(args: &Json) -> (r: Result<TlDispatch, Json>)
    ensures
        (arg_text(args@, "tl_name"@).len() == 0 || arg_text(args@, "task"@).len() == 0)
            ==> (r matches Err(e) && e@ == error_object("tl_name and task are required"@)),
        (arg_text(args@, "tl_name"@).len() > 0 && arg_text(args@, "task"@).len() > 0)
            ==> (r matches Ok(d) && d.tl_name@ == arg_text(args@, "tl_name"@)
                && d.task@ == arg_text(args@, "task"@)
                && d.priority@ == arg_text_or(args@, "priority"@, "normal"@)),
{
    let tl_name = arg_str(args, "tl_name");
    let task = arg_str(args, "task");
    let priority = arg_str_or(args, "priority", "normal");
    if tl_name.is_empty() || task.is_empty() {
        return Err(error_json("tl_name and task are required"));
    }
    Ok(TlDispatch { tl_name: tl_name.to_string(), task: task.to_string(), priority: priority.to_string() })
}

/// The reply to a team-lead dispatch.
pub open spec fn tl_dispatch_reply(tl: Seq<char>, priority: Seq<char>, resp: Result<JsonV, Seq<char>>) -> JsonV {
    match resp {
        Ok(v) => JsonV::Object(seq![
            ("ok"@, JsonV::Bool(true)),
            ("dispatched_to"@, jtext(tl)),
            ("priority"@, jtext(priority)),
            ("response"@, v),
        ]),
        Err(e) => JsonV::Object(seq![("ok"@, JsonV::Bool(false)), ("error"@, jtext(e))]),
    }
}

/// Shapes the answer to a team-lead dispatch.
pub fn dispatch_to_tl_reply(tl_name: &str, priority: &str, resp: Result<Json, String>) -> (r: Json)
    ensures
        r@ == tl_dispatch_reply(tl_name@, priority@, res_view(resp)),
{
    let mut v: Vec<(String, Json)> = Vec::new();
    match resp {
        Ok(j) => {
            v.push(entry("ok", Json::Bool(true)));
            v.push(entry("dispatched_to", Json::text(tl_name)));
            v.push(entry("priority", Json::text(priority)));
            v.push(entry("response", j));
        },
        Err(e) => {
            v.push(entry("ok", Json::Bool(false)));
            v.push(entry("error", Json::text(e.as_str())));
        },
    }
    let r = Json::Object(v);
    assert(r@->Object_0 =~= tl_dispatch_reply(tl_name@, priority@, res_view(resp))->Object_0);
    r
}

// ---------------------------------------------------------------------------
// list_tl_agents / list_workers
// ---------------------------------------------------------------------------

/// An agent row's `agent_id`, when a string.
pub open spec fn agent_id_of(a: JsonV) -> Option<Seq<char>> {
    jstr(jget(a, "agent_id"@))
}

/// The team-lead entry of an agent row whose id starts with `tl-`.
pub open spec fn tl_entry(a: JsonV) -> Option<JsonV> {
    match agent_id_of(a) {
        Some(name) => if has_prefix(name, "tl-"@) {
            Some(JsonV::Object(seq![
                ("name"@, jtext(name)),
                ("trust_tier"@, jtext(arg_text_or(a, "trust_tier"@, "unknown"@))),
                ("automata_count"@, JsonV::Number(NumV::PosInt(match ju64(jget(a, "automata_count"@)) { Some(n) => n, None => 0 }))),
            ]))
        } else {
            None
        },
        None => None,
    }
}

/// The team-lead entries of the first `n` agent rows, in order.
pub open spec fn tl_entries(agents: Seq<JsonV>, n: int) -> Seq<JsonV>
    decreases n,
{
    if n <= 0 || n > agents.len() {
        Seq::empty()
    } else {
        match tl_entry(agents[n - 1]) {
            Some(e) => tl_entries(agents, n - 1).push(e),
            None => tl_entries(agents, n - 1),
        }
    }
}

/// The reply to `list_tl_agents`.
pub open spec fn tl_list_reply(agents: Result<Seq<JsonV>, Seq<char>>) -> JsonV {
    match agents {
        Ok(a) => {
            let tls = tl_entries(a, a.len() as int);
            JsonV::Object(seq![
                ("team_leads"@, JsonV::Array(tls)),
                ("count"@, JsonV::Number(NumV::PosInt(tls.len() as u64))),
            ])
        },
        Err(e) => error_object(e),
    }
}

/// Rows as values.
pub open spec fn rows_view(r: Result<Vec<Json>, String>) -> Result<Seq<JsonV>, Seq<char>> {
    match r {
        Ok(v) => Ok(Seq::new(v@.len(), |i: int| v@[i]@)),
        Err(e) => Err(e@),
    }
}

fn is_tl_id(id: &str) -> (r: bool)
    ensures
        r == has_prefix(id@, "tl-"@),
{
    let c = chars_of(id);
    let p = chars_of("tl-");
    starts_with_chars(c.as_slice(), p.as_slice())
}

fn tl_entry_of(a: &Json) -> (r: Option<Json>)
    ensures
        opt_json_view(match r { Some(ref j) => Some(j), None => None }) == tl_entry(a@),
{
    let name = match a.get("agent_id") {
        Some(v) => match v.as_str() {
            Some(s) => s,
            None => return None,
        },
        None => return None,
    };
    if !is_tl_id(name) {
        return None;
    }
    let tier = arg_str_or(a, "trust_tier", "unknown");
    let count = match a.get("automata_count") {
        Some(v) => match v.as_u64() {
            Some(n) => n,
            None => 0,
        },
        None => 0,
    };
    let mut v: Vec<(String, Json)> = Vec::new();
    v.push(entry("name", Json::text(name)));
    v.push(entry("trust_tier", Json::text(tier)));
    v.push(entry("automata_count", Json::Number(JsonNumber::PosInt(count))));
    let j = Json::Object(v);
    assert(j@->Object_0 =~= tl_entry(a@)->0->Object_0);
    Some(j)
}

/// Shapes the answer to `list_tl_agents`: the agents whose id starts with
/// `tl-`, with their trust tier (`unknown` when absent) and automata count
/// (0 when absent), and how many there are.
pub fn list_tl_agents_reply(agents: Result<Vec<Json>, String>) -> (r: Json)
    requires
        agents matches Ok(v) ==> v@.len() <= u64::MAX,
    ensures
        r@ == tl_list_reply(rows_view(agents)),
{
    match agents {
        Err(e) => error_json(e.as_str()),
        Ok(rows) => {
            let ghost av = Seq::new(rows@.len(), |i: int| rows@[i]@);
            let mut out: Vec<Json> = Vec::new();
            let mut i: usize = 0;
            while i < rows.len()
                invariant
                    i <= rows@.len(),
                    av == Seq::new(rows@.len(), |k: int| rows@[k]@),
                    out@.len() == tl_entries(av, i as int).len(),
                    forall|k: int| 0 <= k < out@.len() ==> #[trigger] out@[k]@ == tl_entries(av, i as int)[k],
                decreases rows.len() - i,
            {
                let e = tl_entry_of(&rows[i]);
                match e {
                    Some(j) => {
                        out.push(j);
                    },
                    None => {},
                }
                i += 1;
            }
            let n = out.len();
            let ghost ov = out@;
            let arr = Json::Array(out);
            assert(arr@->Array_0 =~= tl_entries(av, av.len() as int)) by {
                assert(av.len() == i);
                assert forall|k: int| 0 <= k < ov.len() implies arr@->Array_0[k] == tl_entries(av, av.len() as int)[k] by {
                    assert(arr@->Array_0[k] == ov[k]@);
                }
            }
            let mut v: Vec<(String, Json)> = Vec::new();
            v.push(entry("team_leads", arr));
            v.push(entry("count", Json::Number(JsonNumber::PosInt(n as u64))));
            let r = Json::Object(v);
            assert(r@->Object_0 =~= tl_list_reply(Ok(av))->Object_0);
            r
        },
    }
}

/// The specialist-name prefix of a team lead: `tl-engineering` gives
/// `engineering-`; ids without the `tl-` prefix, or with nothing after it,
/// give none.
pub open spec fn specialist_prefix(agent_id: Seq<char>) -> Option<Seq<char>> {
    if has_prefix(agent_id, "tl-"@) && agent_id.len() > 3 {
        Some(agent_id.skip(3).push('-'))
    } else {
        None
    }
}

/// Derives the specialist prefix from a team lead's id.
pub fn tl_specialist_prefix(agent_id: &str) -> (r: Option<String>)
    ensures
        match r {
            Some(p) => specialist_prefix(agent_id@) == Some(p@),
            None => specialist_prefix(agent_id@) is None,
        },
{
    let c = chars_of(agent_id);
    let p = chars_of("tl-");
    proof {
        reveal_strlit("tl-");
    }
    if !starts_with_chars(c.as_slice(), p.as_slice()) || c.len() <= 3 {
        return None;
    }
    let mut rest: Vec<char> = Vec::new();
    let mut i: usize = 3;
    while i < c.len()
        invariant
            3 <= i <= c@.len(),
            rest@ =~= c@.subrange(3, i as int),
        decreases c.len() - i,
    {
        rest.push(c[i]);
        i += 1;
    }
    rest.push('-');
    assert(rest@ =~= c@.skip(3).push('-'));
    Some(string_from_chars(rest.as_slice()))
}

/// The worker entry of an agent row: its id, unless it is a team lead or
/// the memory curator.
pub open spec fn worker_entry(a: JsonV) -> Option<Seq<char>> {
    match agent_id_of(a) {
        Some(id) => if has_prefix(id, "tl-"@) || id == "memory-curator"@ { None } else { Some(id) },
        None => None,
    }
}

/// The worker ids among the first `n` agent rows, in order.
pub open spec fn worker_entries(agents: Seq<JsonV>, n: int) -> Seq<Seq<char>>
    decreases n,
{
    if n <= 0 || n > agents.len() {
        Seq::empty()
    } else {
        match worker_entry(agents[n - 1]) {
            Some(e) => worker_entries(agents, n - 1).push(e),
            None => worker_entries(agents, n - 1),
        }
    }
}

/// The reply to `list_workers`.
pub open spec fn worker_list_reply(agents: Result<Seq<JsonV>, Seq<char>>, prefix: Option<Seq<char>>) -> JsonV {
    match agents {
        Ok(a) => {
            let names = worker_entries(a, a.len() as int);
            JsonV::Object(seq![
                ("workers"@, JsonV::Array(Seq::new(names.len(), |i: int| jtext(names[i])))),
                ("count"@, JsonV::Number(NumV::PosInt(names.len() as u64))),
                ("scope_prefix"@, jopt_text(prefix)),
            ])
        },
        Err(e) => error_object(e),
    }
}

/// Shapes the answer to `list_workers`: the specialist ids (team leads and
/// the memory curator left out), how many, and the scope they were listed
/// under.
pub fn list_workers_reply(agents: Result<Vec<Json>, String>, prefix: Option<&str>) -> (r: Json)
    requires
        agents matches Ok(v) ==> v@.len() <= u64::MAX,
    ensures
        r@ == worker_list_reply(rows_view(agents), opt_view(prefix)),
{
    match agents {
        Err(e) => error_json(e.as_str()),
        Ok(rows) => {
            let ghost av = Seq::new(rows@.len(), |i: int| rows@[i]@);
            let mut out: Vec<Json> = Vec::new();
            let mut i: usize = 0;
            while i < rows.len()
                invariant
                    i <= rows@.len(),
                    av == Seq::new(rows@.len(), |k: int| rows@[k]@),
                    out@.len() == worker_entries(av, i as int).len(),
                    forall|k: int| 0 <= k < out@.len() ==> #[trigger] out@[k]@ == jtext(worker_entries(av, i as int)[k]),
                decreases rows.len() - i,
            {
                match rows[i].get("agent_id") {
                    Some(v) => match v.as_str() {
                        Some(id) => {
                            if !is_tl_id(id) && !str_eq(id, "memory-curator") {
                                out.push(Json::text(id));
                            }
                        },
                        None => {},
                    },
                    None => {},
                }
                i += 1;
            }
            let n = out.len();
            let ghost names = worker_entries(av, av.len() as int);
            let ghost ov = out@;
            let arr = Json::Array(out);
            assert(arr@->Array_0 =~= Seq::new(names.len(), |k: int| jtext(names[k]))) by {
                assert(av.len() == i);
                assert forall|k: int| 0 <= k < ov.len() implies arr@->Array_0[k] == jtext(names[k]) by {
                    assert(arr@->Array_0[k] == ov[k]@);
                }
            }
            let mut v: Vec<(String, Json)> = Vec::new();
            v.push(entry("workers", arr));
            v.push(entry("count", Json::Number(JsonNumber::PosInt(n as u64))));
            v.push(entry("scope_prefix", Json::opt_text(prefix)));
            let r = Json::Object(v);
            assert(r@->Object_0 =~= worker_list_reply(Ok(av), opt_view(prefix))->Object_0);
            r
        },
    }
}


// ---------------------------------------------------------------------------
// create_goal_task
// ---------------------------------------------------------------------------

/// What `create_goal_task` was asked.
pub struct GoalTask {
    pub title: String,
    pub description: String,
    pub priority: String,
}

/// Reads `create_goal_task` arguments: a title is required; the description
/// defaults to empty and the priority to `normal`.
pub fn plan_goal_task(args: &Json) -> (r: Result<GoalTask, Json>)
    ensures
        arg_text(args@, "title"@).len() == 0 ==> (r matches Err(e) && e@ == error_object("title is required"@)),
        arg_text(args@, "title"@).len() > 0 ==> (r matches Ok(g) && g.title@ == arg_text(args@, "title"@)
            && g.description@ == arg_text(args@, "description"@)
            && g.priority@ == arg_text_or(args@, "priority"@, "normal"@)),
{
    let title = arg_str(args, "title");
    let description = arg_str(args, "description");
    let priority = arg_str_or(args, "priority", "normal");
    if title.is_empty() {
        return Err(error_json("title is required"));
    }
    Ok(GoalTask { title: title.to_string(), description: description.to_string(), priority: priority.to_string() })
}

/// The reply to `create_goal_task`: AMS's text as it came, or the error.
pub fn goal_task_reply(resp: Result<String, String>) -> (r: ToolReply)
    ensures
        match resp {
            Ok(t) => r matches ToolReply::Raw(x) && x@ == t@,
            Err(e) => r matches ToolReply::Json(j) && j@ == error_object(e@),
        },
{
    match resp {
        Ok(t) => ToolReply::Raw(t),
        Err(e) => ToolReply::Json(error_json(e.as_str())),
    }
}

// ---------------------------------------------------------------------------
// create_memory
// ---------------------------------------------------------------------------

/// A memory to store, as the `create_memory` tool asked for it. Its
/// importance is fixed by the tool (0.6) and added where it is sent.
pub struct MemoryPlan {
    pub title: String,
    pub content: String,
    pub memory_tier: String,
    pub entity_type: String,
    pub tags: Vec<String>,
    pub metadata: Json,
}

/// The memory tiers a tool may write.
pub open spec fn valid_tier(t: Seq<char>) -> bool {
    t == "episodic"@ || t == "semantic"@ || t == "procedural"@
}

/// The string elements of the tags argument, in order (none when absent or
/// not an array).
pub open spec fn string_items(items: Seq<JsonV>, n: int) -> Seq<Seq<char>>
    decreases n,
{
    if n <= 0 || n > items.len() {
        Seq::empty()
    } else {
        match items[n - 1] {
            JsonV::Str(s) => string_items(items, n - 1).push(s),
            _ => string_items(items, n - 1),
        }
    }
}

/// The strings of an optional array value.
pub open spec fn arg_strings(v: Option<JsonV>) -> Seq<Seq<char>> {
    match v {
        Some(JsonV::Array(items)) => string_items(items, items.len() as int),
        _ => Seq::empty(),
    }
}

/// The tags a memory is stored with: the given ones, with `agent:<caller>`
/// added at the end unless already there.
pub open spec fn memory_tags(given: Seq<Seq<char>>, caller: Seq<char>) -> Seq<Seq<char>> {
    let agent_tag = "agent:"@ + caller;
    if given.contains(agent_tag) { given } else { given.push(agent_tag) }
}

/// The title a memory is stored with: the trimmed title argument when it is
/// a non-empty string, else `<caller> memory receipt`.
pub open spec fn memory_title(args: JsonV, caller: Seq<char>) -> Seq<char> {
    match jstr(jget(args, "title"@)) {
        Some(t) => if trim(t).len() > 0 { trim(t) } else { caller + " memory receipt"@ },
        None => caller + " memory receipt"@,
    }
}

/// The metadata a tool-written memory carries.
pub open spec fn memory_metadata(caller: Seq<char>) -> JsonV {
    JsonV::Object(seq![("source_agent"@, jtext(caller)), ("source"@, jtext("agent_tool:create_memory"@))])
}

/// Strings as values.
pub open spec fn strings_view(v: Seq<String>) -> Seq<Seq<char>> {
    Seq::new(v.len(), |i: int| v[i]@)
}

fn collect_strings(v: Option<&Json>) -> (r: Vec<String>)
    ensures
        strings_view(r@) == arg_strings(opt_json_view(v)),
{
    let mut out: Vec<String> = Vec::new();
    let items = match v {
        Some(j) => match j.as_array() {
            Some(a) => a,
            None => {
                assert(strings_view(out@) =~= arg_strings(opt_json_view(v)));
                return out;
            },
        },
        None => {
            assert(strings_view(out@) =~= arg_strings(opt_json_view(v)));
            return out;
        },
    };
    let ghost iv = v->0@->Array_0;
    let mut i: usize = 0;
    while i < items.len()
        invariant
            i <= items@.len(),
            iv.len() == items@.len(),
            forall|k: int| 0 <= k < items@.len() ==> #[trigger] iv[k] == items@[k]@,
            strings_view(out@) =~= string_items(iv, i as int),
        decreases items.len() - i,
    {
        match items[i].as_str() {
            Some(s) => {
                out.push(s.to_string());
            },
            None => {},
        }
        assert(iv[i as int] == items@[i as int]@);
        i += 1;
    }
    out
}

fn contains_string(v: &Vec<String>, s: &str) -> (r: bool)
    ensures
        r == strings_view(v@).contains(s@),
{
    let mut i: usize = 0;
    while i < v.len()
        invariant
            i <= v@.len(),
            forall|k: int| 0 <= k < i ==> v@[k]@ != s@,
        decreases v.len() - i,
    {
        if str_eq(v[i].as_str(), s) {
            assert(strings_view(v@)[i as int] == s@);
            return true;
        }
        i += 1;
    }
    false
}

/// Reads `create_memory` arguments. Content that is empty after trimming
/// and tiers other than episodic, semantic or procedural are refused.
pub fn plan_create_memory(args: &Json, caller: &str) -> (r: Result<MemoryPlan, Json>)
    ensures
        trim(arg_text(args@, "content"@)).len() == 0 ==> (r matches Err(e) && e@ == error_object("content is required"@)),
        (trim(arg_text(args@, "content"@)).len() > 0 && !valid_tier(arg_text_or(args@, "tier"@, "episodic"@)))
            ==> (r matches Err(e) && e@ == error_object("tier must be one of episodic, semantic, procedural"@)),
        (trim(arg_text(args@, "content"@)).len() > 0 && valid_tier(arg_text_or(args@, "tier"@, "episodic"@)))
            ==> (r matches Ok(m)
                && m.content@ == arg_text(args@, "content"@)
                && m.memory_tier@ == arg_text_or(args@, "tier"@, "episodic"@)
                && m.entity_type@ == "event"@
                && strings_view(m.tags@) == memory_tags(arg_strings(jget(args@, "tags"@)), caller@)
                && m.title@ == memory_title(args@, caller@)
                && m.metadata@ == memory_metadata(caller@)),
{
    let content = arg_str(args, "content");
    let cc = chars_of(content);
    let ct = trim_from(&cc, 0);
    assert(cc@.skip(0) =~= cc@);
    if ct.len() == 0 {
        return Err(error_json("content is required"));
    }
    let tier = arg_str_or(args, "tier", "episodic");
    if !(str_eq(tier, "episodic") || str_eq(tier, "semantic") || str_eq(tier, "procedural")) {
        return Err(error_json("tier must be one of episodic, semantic, procedural"));
    }
    let mut tags = collect_strings(args.get("tags"));
    let mut agent_tag = "agent:".to_string();
    agent_tag.append(caller);
    let ghost given = strings_view(tags@);
    if !contains_string(&tags, agent_tag.as_str()) {
        tags.push(agent_tag);
        assert(strings_view(tags@) =~= given.push("agent:"@ + caller@));
    }
    let title = match args.get("title") {
        Some(v) => match v.as_str() {
            Some(t) => {
                let tc = chars_of(t);
                let tt = trim_from(&tc, 0);
                assert(tc@.skip(0) =~= tc@);
                if tt.len() > 0 {
                    string_from_chars(tt.as_slice())
                } else {
                    let mut d = caller.to_string();
                    d.append(" memory receipt");
                    d
                }
            },
            None => {
                let mut d = caller.to_string();
                d.append(" memory receipt");
                d
            },
        },
        None => {
            let mut d = caller.to_string();
            d.append(" memory receipt");
            d
        },
    };
    let mut meta: Vec<(String, Json)> = Vec::new();
    meta.push(entry("source_agent", Json::text(caller)));
    meta.push(entry("source", Json::text("agent_tool:create_memory")));
    let metadata = Json::Object(meta);
    assert(metadata@->Object_0 =~= memory_metadata(caller@)->Object_0);
    Ok(MemoryPlan {
        title,
        content: content.to_string(),
        memory_tier: tier.to_string(),
        entity_type: "event".to_string(),
        tags,
        metadata,
    })
}

/// The reply to `create_memory`.
pub open spec fn memory_reply(resp: Result<JsonV, Seq<char>>) -> JsonV {
    match resp {
        Ok(v) => JsonV::Object(seq![
            ("ok"@, JsonV::Bool(true)),
            ("memory_id"@, jor_null(or_else(jget(v, "id"@), jget(v, "memory_id"@)))),
            ("response"@, v),
        ]),
        Err(e) => JsonV::Object(seq![("ok"@, JsonV::Bool(false)), ("error"@, jtext(e))]),
    }
}

/// Shapes the answer to `create_memory`: the stored memory's id (its `id`,
/// else its `memory_id`) with the full response.
pub fn create_memory_reply(resp: Result<Json, String>) -> (r: Json)
    ensures
        r@ == memory_reply(res_view(resp)),
{
    let mut v: Vec<(String, Json)> = Vec::new();
    match resp {
        Ok(j) => {
            let id = match j.get("id") {
                Some(x) => x.deep_clone(),
                None => match j.get("memory_id") {
                    Some(x) => x.deep_clone(),
                    None => Json::Null,
                },
            };
            v.push(entry("ok", Json::Bool(true)));
            v.push(entry("memory_id", id));
            v.push(entry("response", j));
        },
        Err(e) => {
            v.push(entry("ok", Json::Bool(false)));
            v.push(entry("error", Json::text(e.as_str())));
        },
    }
    let r = Json::Object(v);
    assert(r@->Object_0 =~= memory_reply(res_view(resp))->Object_0);
    r
}

// ---------------------------------------------------------------------------
// search_memories
// ---------------------------------------------------------------------------

/// Reads `search_memories` arguments: the query (empty when absent) and the
/// limit (5 when absent), cut to its low 32 bits.
pub fn plan_search(args: &Json) -> (r: (String, u32))
    ensures
        r.0@ == arg_text(args@, "query"@),
        r.1 == (match ju64(jget(args@, "limit"@)) { Some(n) => n, None => 5 }) as u32,
{
    let query = arg_str(args, "query");
    let limit: u64 = match args.get("limit") {
        Some(v) => match v.as_u64() {
            Some(n) => n,
            None => 5,
        },
        None => 5,
    };
    (query.to_string(), limit as u32)
}

/// One search hit as the model sees it (its score is added by the caller,
/// which owns the floating-point value): the memory's file path (empty when
/// absent), its tags (empty array when absent) and the snippet cut to 200
/// characters.
pub open spec fn hit_summary(hit: JsonV) -> JsonV {
    let memory = jor_null(jget(hit, "memory"@));
    JsonV::Object(seq![
        ("file_path"@, jtext(arg_text(memory, "file_path"@))),
        ("tags"@, match jget(memory, "tags"@) { Some(t) => t, None => JsonV::Array(Seq::empty()) }),
        ("snippet"@, jtext(crate::text::take_chars(arg_text(hit, "content_snippet"@), 200))),
    ])
}

/// Summarises one search hit (without its score).
pub fn search_hit_summary(hit: &Json) -> (r: Json)
    ensures
        r@ == hit_summary(hit@),
{
    let null = Json::Null;
    let memory: &Json = match hit.get("memory") {
        Some(m) => m,
        None => &null,
    };
    let file_path = arg_str(memory, "file_path");
    let tags = match memory.get("tags") {
        Some(t) => t.deep_clone(),
        None => {
            let a = Json::Array(Vec::new());
            assert(a@->Array_0 =~= Seq::<JsonV>::empty());
            a
        },
    };
    let snippet = arg_str(hit, "content_snippet");
    let short = crate::text::truncate_chars(snippet, 200);
    let mut v: Vec<(String, Json)> = Vec::new();
    v.push(entry("file_path", Json::text(file_path)));
    v.push(entry("tags", tags));
    v.push(entry("snippet", Json::Str(short)));
    let r = Json::Object(v);
    assert(r@->Object_0 =~= hit_summary(hit@)->Object_0);
    r
}

// ---------------------------------------------------------------------------
// complete_task
// ---------------------------------------------------------------------------

/// Reads `complete_task` arguments: the trimmed task id and summary are
/// required, and the id must be a UUID.
pub fn plan_complete_task(args: &Json) -> (r: Result<(String, String), Json>)
    ensures
        (trim(arg_text(args@, "task_id"@)).len() == 0 || trim(arg_text(args@, "summary"@)).len() == 0)
            ==> (r matches Err(e) && e@ == error_object("task_id and summary are required"@)),
        (trim(arg_text(args@, "task_id"@)).len() > 0 && trim(arg_text(args@, "summary"@)).len() > 0
            && !uuid_parses(trim(arg_text(args@, "task_id"@))))
            ==> (r matches Err(e) && e@ == error_object("task_id must be the CAP task UUID from the [BOARD] line"@)),
        (trim(arg_text(args@, "task_id"@)).len() > 0 && trim(arg_text(args@, "summary"@)).len() > 0
            && uuid_parses(trim(arg_text(args@, "task_id"@))))
            ==> (r matches Ok(p) && p.0@ == trim(arg_text(args@, "task_id"@))
                && p.1@ == trim(arg_text(args@, "summary"@))),
{
    let tc = chars_of(arg_str(args, "task_id"));
    let task_id = trim_from(&tc, 0);
    assert(tc@.skip(0) =~= tc@);
    let sc = chars_of(arg_str(args, "summary"));
    let summary = trim_from(&sc, 0);
    assert(sc@.skip(0) =~= sc@);
    if task_id.len() == 0 || summary.len() == 0 {
        return Err(error_json("task_id and summary are required"));
    }
    let task_id = string_from_chars(task_id.as_slice());
    if !is_uuid(task_id.as_str()) {
        return Err(error_json("task_id must be the CAP task UUID from the [BOARD] line"));
    }
    Ok((task_id, string_from_chars(summary.as_slice())))
}

/// The result stored on a board task when a team lead closes it.
pub open spec fn task_completion(
    summary: Seq<char>,
    completed_by: Seq<char>,
    exec: Option<Seq<char>>,
    workers: Option<JsonV>,
    completed_at: Seq<char>,
) -> JsonV {
    let ids = arg_strings(workers);
    JsonV::Object(seq![
        ("summary"@, jtext(summary)),
        ("completed_by"@, jtext(completed_by)),
        ("execution_id"@, jopt_text(exec)),
        ("worker_execution_ids"@, JsonV::Array(Seq::new(ids.len(), |i: int| jtext(ids[i])))),
        ("completed_at"@, jtext(completed_at)),
        ("source"@, jtext("abot.complete_task"@)),
    ])
}

/// The completion record for the time `completed_at`: summary, closer,
/// execution, the string worker execution ids, and the source tag.
pub fn complete_task_record(
    summary: &str,
    completed_by: &str,
    execution_id: Option<&str>,
    worker_execution_ids: Option<&Json>,
    completed_at: &str,
) -> (r: Json)
    ensures
        r@ == task_completion(summary@, completed_by@, opt_view(execution_id), opt_json_view(worker_execution_ids), completed_at@),
{
    let workers = collect_strings(worker_execution_ids);
    let ghost ids = strings_view(workers@);
    let mut arr: Vec<Json> = Vec::new();
    let mut i: usize = 0;
    while i < workers.len()
        invariant
            i <= workers@.len(),
            ids == strings_view(workers@),
            arr@.len() == i,
            forall|k: int| 0 <= k < i ==> #[trigger] arr@[k]@ == jtext(ids[k]),
        decreases workers.len() - i,
    {
        arr.push(Json::text(workers[i].as_str()));
        i += 1;
    }
    let ghost av = arr@;
    let a = Json::Array(arr);
    assert(a@->Array_0 =~= Seq::new(ids.len(), |k: int| jtext(ids[k]))) by {
        assert forall|k: int| 0 <= k < av.len() implies a@->Array_0[k] == jtext(ids[k]) by {
            assert(a@->Array_0[k] == av[k]@);
        }
    }
    let mut v: Vec<(String, Json)> = Vec::new();
    v.push(entry("summary", Json::text(summary)));
    v.push(entry("completed_by", Json::text(completed_by)));
    v.push(entry("execution_id", Json::opt_text(execution_id)));
    v.push(entry("worker_execution_ids", a));
    v.push(entry("completed_at", Json::text(completed_at)));
    v.push(entry("source", Json::text("abot.complete_task")));
    let r = Json::Object(v);
    assert(r@->Object_0 =~= task_completion(summary@, completed_by@, opt_view(execution_id), opt_json_view(worker_execution_ids), completed_at@)->Object_0);
    r
}

/// The completion record stamped with the current time (RFC 3339); every
/// other member is as [`task_completion`] says for some timestamp.
pub fn complete_task_result(
    summary: &str,
    completed_by: &str,
    execution_id: Option<&str>,
    worker_execution_ids: Option<&Json>,
) -> (r: Json)
    ensures
        exists|at: Seq<char>| r@ == task_completion(summary@, completed_by@, opt_view(execution_id), opt_json_view(worker_execution_ids), at),
{
    let now = utc_now_rfc3339();
    complete_task_record(summary, completed_by, execution_id, worker_execution_ids, now.as_str())
}

/// The reply to `get_task_board`: the board's summary, or the error.
pub open spec fn board_reply(resp: Result<JsonV, Seq<char>>) -> JsonV {
    match resp {
        Ok(b) => board_summary(b),
        Err(e) => error_object(e),
    }
}

/// Shapes the answer to `get_task_board`.
pub fn task_board_reply(resp: Result<Json, String>) -> (r: Json)
    ensures
        r@ == board_reply(res_view(resp)),
{
    match resp {
        Ok(b) => task_board_summary(&b),
        Err(e) => error_json(e.as_str()),
    }
}

// ---------------------------------------------------------------------------
// mcp_call_tool
// ---------------------------------------------------------------------------

/// What `mcp_call_tool` was asked. The timeout is sent as a floating-point
/// number of seconds by the caller.
pub struct McpCall {
    pub server: String,
    pub tool: String,
    pub arguments: Json,
    pub timeout_seconds: u64,
}

/// Reads `mcp_call_tool` arguments: server and tool are required; the
/// arguments default to `{}` and the timeout to 30 seconds.
pub fn plan_mcp_call(args: &Json) -> (r: Result<McpCall, Json>)
    ensures
        (arg_text(args@, "server"@).len() == 0 || arg_text(args@, "tool"@).len() == 0)
            ==> (r matches Err(e) && e@ == error_object("server and tool are required"@)),
        (arg_text(args@, "server"@).len() > 0 && arg_text(args@, "tool"@).len() > 0)
            ==> (r matches Ok(c) && c.server@ == arg_text(args@, "server"@)
                && c.tool@ == arg_text(args@, "tool"@)
                && c.arguments@ == (match jget(args@, "arguments"@) { Some(a) => a, None => JsonV::Object(Seq::empty()) })
                && c.timeout_seconds == (match ju64(jget(args@, "timeout_seconds"@)) { Some(n) => n, None => 30 })),
{
    let server = arg_str(args, "server");
    let tool = arg_str(args, "tool");
    let arguments = match args.get("arguments") {
        Some(a) => a.deep_clone(),
        None => {
            let o = Json::Object(Vec::new());
            assert(o@->Object_0 =~= Seq::<(Seq<char>, JsonV)>::empty());
            o
        },
    };
    let timeout_seconds: u64 = match args.get("timeout_seconds") {
        Some(v) => match v.as_u64() {
            Some(n) => n,
            None => 30,
        },
        None => 30,
    };
    if server.is_empty() || tool.is_empty() {
        return Err(error_json("server and tool are required"));
    }
    Ok(McpCall { server: server.to_string(), tool: tool.to_string(), arguments, timeout_seconds })
}

} // verus!
