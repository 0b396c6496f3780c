//! Summarising the AMS task board.

use vstd::prelude::*;
use crate::json::{Json, JsonNumber, JsonV, NumV, jget, jstr, jtext, or_else};
use crate::llm::kilo::{trim, trim_from};
use crate::text::{ascii_lower, chars_of, chars_eq, string_from_chars, to_ascii_lower_char};
use crate::agent::runtime::worker::{entry, opt_view};

verus! {

/// A status word lower-cased with `-` and spaces turned into `_`.
pub open spec fn status_key(s: Seq<char>) -> Seq<char> {
    s.map_values(|c: char| if ascii_lower(c) == '-' || ascii_lower(c) == ' ' { '_' } else { ascii_lower(c) })
}

/// The board column a status word belongs to.
pub open spec fn task_status_class(s: Seq<char>) -> Option<Seq<char>> {
    let k = status_key(s);
    if k == "pending"@ || k == "todo"@ || k == "to_do"@ || k == "backlog"@ || k == "open"@ || k == "queued"@ {
        Some("pending"@)
    } else if k == "active"@ || k == "in_progress"@ || k == "running"@ || k == "working"@ || k == "started"@ {
        Some("active"@)
    } else if k == "done"@ || k == "complete"@ || k == "completed"@ || k == "succeeded"@ || k == "closed"@ {
        Some("done"@)
    } else if k == "failed"@ || k == "error"@ || k == "errored"@ || k == "killed"@ || k == "cancelled"@
        || k == "canceled"@ {
        Some("failed"@)
    } else {
        None
    }
}

fn lit_eq(v: &Vec<char>, lit: &str) -> (r: bool)
    ensures
        r == (v@ == lit@),
{
    let l = chars_of(lit);
    chars_eq(v.as_slice(), l.as_slice())
}

fn status_key_of(status: &str) -> (r: Vec<char>)
    ensures
        r@ == status_key(status@),
{
    let v = chars_of(status);
    let mut out: Vec<char> = Vec::new();
    let mut i: usize = 0;
    while i < v.len()
        invariant
            i <= v@.len(),
            out@ =~= status_key(v@.take(i as int)),
        decreases v.len() - i,
    {
        let l = to_ascii_lower_char(v[i]);
        out.push(if l == '-' || l == ' ' { '_' } else { l });
        assert(v@.take(i + 1) =~= v@.take(i as int).push(v@[i as int]));
        i += 1;
    }
    assert(v@.take(v@.len() as int) =~= v@);
    out
}

/// Maps a task status to its board column: pending, active, done or failed.
pub fn normalize_task_status(status: &str) -> (r: Option<&'static str>)
    ensures
        match r {
            Some(c) => task_status_class(status@) == Some(c@),
            None => task_status_class(status@) is None,
        },
{
    let k = status_key_of(status);
    if lit_eq(&k, "pending") || lit_eq(&k, "todo") || lit_eq(&k, "to_do") || lit_eq(&k, "backlog")
        || lit_eq(&k, "open") || lit_eq(&k, "queued") {
        Some("pending")
    } else if lit_eq(&k, "active") || lit_eq(&k, "in_progress") || lit_eq(&k, "running") || lit_eq(&k, "working")
        || lit_eq(&k, "started") {
        Some("active")
    } else if lit_eq(&k, "done") || lit_eq(&k, "complete") || lit_eq(&k, "completed") || lit_eq(&k, "succeeded")
        || lit_eq(&k, "closed") {
        Some("done")
    } else if lit_eq(&k, "failed") || lit_eq(&k, "error") || lit_eq(&k, "errored") || lit_eq(&k, "killed")
        || lit_eq(&k, "cancelled") || lit_eq(&k, "canceled") {
        Some("failed")
    } else {
        None
    }
}

/// A task's title: its title, name, task or description member (the first
/// present), as a trimmed non-empty string; over 120 characters it is cut
/// there and `...` appended.
pub open spec fn task_title_of(v: JsonV) -> Option<Seq<char>> {
    match jstr(or_else(or_else(or_else(jget(v, "title"@), jget(v, "name"@)), jget(v, "task"@)), jget(v, "description"@))) {
        Some(s) => {
            let t = trim(s);
            if t.len() == 0 {
                None
            } else if t.len() > 120 {
                Some(t.take(120) + "..."@)
            } else {
                Some(t)
            }
        },
        None => None,
    }
}

/// A task's title, when it has one.
pub fn task_title(value: &Json) -> (r: Option<String>)
    ensures
        match r {
            Some(s) => task_title_of(value@) == Some(s@),
            None => task_title_of(value@) is None,
        },
{
    let found = match value.get("title") {
        Some(v) => v,
        None => match value.get("name") {
            Some(v) => v,
            None => match value.get("task") {
                Some(v) => v,
                None => match value.get("description") {
                    Some(v) => v,
                    None => return None,
                },
            },
        },
    };
    let s = match found.as_str() {
        Some(s) => s,
        None => return None,
    };
    let cs = chars_of(s);
    let t = trim_from(&cs, 0);
    assert(cs@.skip(0) =~= cs@);
    if t.len() == 0 {
        return None;
    }
    if t.len() > 120 {
        let mut head: Vec<char> = Vec::new();
        let mut i: usize = 0;
        while i < 120
            invariant
                i <= 120 < t@.len(),
                head@ =~= t@.take(i as int),
            decreases 120 - i,
        {
            head.push(t[i]);
            i += 1;
        }
        head.push('.');
        head.push('.');
        head.push('.');
        proof { reveal_strlit("..."); }
        assert(head@ =~= t@.take(120) + "..."@);
        Some(string_from_chars(head.as_slice()))
    } else {
        Some(string_from_chars(t.as_slice()))
    }
}

/// The first that is present.
pub open spec fn or_opt(a: Option<Seq<char>>, b: Option<Seq<char>>) -> Option<Seq<char>> {
    if a is Some { a } else { b }
}

/// The column of an object's own status: its `status` member, else its
/// `state` member, when a string naming a column; else the inherited one.
pub open spec fn own_status(v: JsonV, inherited: Option<Seq<char>>) -> Option<Seq<char>> {
    let named = match jstr(or_else(jget(v, "status"@), jget(v, "state"@))) {
        Some(s) => task_status_class(s),
        None => None,
    };
    or_opt(named, inherited)
}

/// The (column, title) items of a board, in document order: an object with
/// a column and a title is an item; an object's members inherit the column
/// their key names, else the object's own.
pub open spec fn board_items(v: JsonV, inherited: Option<Seq<char>>) -> Seq<(Seq<char>, Seq<char>)>
    decreases v, 0int,
{
    match v {
        JsonV::Array(items) => array_items(items, items.len() as int, inherited),
        JsonV::Object(m) => {
            let own = own_status(v, inherited);
            let head = match (own, task_title_of(v)) {
                (Some(c), Some(t)) => seq![(c, t)],
                _ => Seq::empty(),
            };
            head + member_items(m, m.len() as int, own)
        },
        _ => Seq::empty(),
    }
}

pub open spec fn array_items(items: Seq<JsonV>, n: int, inherited: Option<Seq<char>>) -> Seq<(Seq<char>, Seq<char>)>
    decreases items, n,
{
    if n <= 0 || n > items.len() {
        Seq::empty()
    } else {
        array_items(items, n - 1, inherited) + board_items(items[n - 1], inherited)
    }
}

pub open spec fn member_items(m: Seq<(Seq<char>, JsonV)>, n: int, own: Option<Seq<char>>) -> Seq<(Seq<char>, Seq<char>)>
    decreases m, n,
{
    if n <= 0 || n > m.len() {
        Seq::empty()
    } else {
        member_items(m, n - 1, own) + board_items(m[n - 1].1, or_opt(task_status_class(m[n - 1].0), own))
    }
}

pub open spec fn items_view(v: Seq<(String, String)>) -> Seq<(Seq<char>, Seq<char>)> {
    v.map_values(|p: (String, String)| (p.0@, p.1@))
}

fn status_of_object(value: &Json) -> (r: Option<&'static str>)
    ensures
        opt_view(r) == match jstr(or_else(jget(value@, "status"@), jget(value@, "state"@))) {
            Some(s) => task_status_class(s),
            None => None,
        },
{
    let member = match value.get("status") {
        Some(v) => v,
        None => match value.get("state") {
            Some(v) => v,
            None => return None,
        },
    };
    match member.as_str() {
        Some(s) => normalize_task_status(s),
        None => None,
    }
}

fn or_static(a: Option<&'static str>, b: Option<&'static str>) -> (r: Option<&'static str>)
    ensures
        opt_view(r) == or_opt(opt_view(a), opt_view(b)),
{
    match a {
        Some(x) => Some(x),
        None => b,
    }
}

/// Collects the (column, title) items of a task board, in document order.
pub fn collect_task_board_items(value: &Json, inherited: Option<&'static str>, out: &mut Vec<(String, String)>)
    ensures
        items_view(final(out)@) == items_view(old(out)@) + board_items(value@, opt_view(inherited)),
    decreases value,
{
    let ghost start = items_view(out@);
    match value {
        Json::Array(items) => {
            let ghost iv = value@->Array_0;
            let mut i: usize = 0;
            while i < items.len()
                invariant
                    i <= items@.len(),
                    *value == Json::Array(*items),
                    iv == value@->Array_0,
                    iv.len() == items@.len(),
                    forall|k: int| 0 <= k < items@.len() ==> iv[k] == items@[k]@,
                    items_view(out@) == start + array_items(iv, i as int, opt_view(inherited)),
                decreases items.len() - i,
            {
                proof {
                    let vv = *items;
                    assert(decreases_to!(*value => (*value)->Array_0));
                    assert(decreases_to!(vv => vv@));
                    assert(decreases_to!(vv@ => vv@[i as int]));
                }
                collect_task_board_items(&items[i], inherited, out);
                assert(items_view(out@) =~= start + array_items(iv, i + 1, opt_view(inherited)));
                i += 1;
            }
            assert(items_view(out@) =~= items_view(old(out)@) + board_items(value@, opt_view(inherited)));
        },
        Json::Object(members) => {
            let ghost mv = value@->Object_0;
            let own = or_static(status_of_object(value), inherited);
            match (own, task_title(value)) {
                (Some(c), Some(t)) => {
                    out.push((c.to_string(), t));
                    assert(items_view(out@) =~= start + seq![(c@, t@)]);
                },
                _ => {},
            }
            let ghost head = items_view(out@);
            let mut i: usize = 0;
            while i < members.len()
                invariant
                    i <= members@.len(),
                    *value == Json::Object(*members),
                    mv == value@->Object_0,
                    mv.len() == members@.len(),
                    forall|k: int| 0 <= k < members@.len() ==> mv[k] == (members@[k].0@, members@[k].1@),
                    items_view(out@) == head + member_items(mv, i as int, opt_view(own)),
                decreases members.len() - i,
            {
                proof {
                    let vv = *members;
                    assert(decreases_to!(*value => (*value)->Object_0));
                    assert(decreases_to!(vv => vv@));
                    assert(decreases_to!(vv@ => vv@[i as int]));
                    assert(decreases_to!(vv@[i as int] => vv@[i as int].1));
                }
                let key_status = or_static(normalize_task_status(members[i].0.as_str()), own);
                collect_task_board_items(&members[i].1, key_status, out);
                assert(items_view(out@) =~= head + member_items(mv, i + 1, opt_view(own)));
                i += 1;
            }
            assert(items_view(out@) =~= items_view(old(out)@) + board_items(value@, opt_view(inherited)));
        },
        _ => {
            assert(items_view(out@) =~= items_view(old(out)@) + board_items(value@, opt_view(inherited)));
        },
    }
}

/// How many items are in column `c`.
pub open spec fn column_count(items: Seq<(Seq<char>, Seq<char>)>, c: Seq<char>) -> nat
    decreases items.len(),
{
    if items.len() == 0 {
        0
    } else {
        column_count(items.drop_last(), c) + if items.last().0 == c { 1nat } else { 0nat }
    }
}

/// A board item as a JSON object.
pub open spec fn item_json(it: (Seq<char>, Seq<char>)) -> JsonV {
    JsonV::Object(seq![("status"@, jtext(it.0)), ("title"@, jtext(it.1))])
}

/// The board summary: the item count of each column and the first ten items.
pub open spec fn board_summary(board: JsonV) -> JsonV {
    let items = board_items(board, None);
    let top = if items.len() < 10 { items.len() } else { 10 };
    JsonV::Object(seq![
        ("counts"@, JsonV::Object(seq![
            ("pending"@, JsonV::Number(NumV::PosInt(column_count(items, "pending"@) as u64))),
            ("active"@, JsonV::Number(NumV::PosInt(column_count(items, "active"@) as u64))),
            ("done"@, JsonV::Number(NumV::PosInt(column_count(items, "done"@) as u64))),
            ("failed"@, JsonV::Number(NumV::PosInt(column_count(items, "failed"@) as u64))),
        ])),
        ("top_tasks"@, JsonV::Array(Seq::new(top as nat, |i: int| item_json(items[i])))),
    ])
}

proof fn lemma_column_count_le(items: Seq<(Seq<char>, Seq<char>)>, c: Seq<char>)
    ensures
        column_count(items, c) <= items.len(),
    decreases items.len(),
{
    if items.len() > 0 {
        lemma_column_count_le(items.drop_last(), c);
    }
}

proof fn lemma_columns_distinct()
    ensures
        "pending"@ != "active"@ && "pending"@ != "done"@ && "pending"@ != "failed"@,
        "active"@ != "done"@ && "active"@ != "failed"@ && "done"@ != "failed"@,
{
    reveal_strlit("pending");
    reveal_strlit("active");
    reveal_strlit("done");
    reveal_strlit("failed");
    assert("pending"@.len() == 7);
    assert("active"@.len() == 6);
    assert("done"@.len() == 4);
    assert("failed"@.len() == 6);
    assert("active"@[0] == 'a');
    assert("failed"@[0] == 'f');
}

fn count_json(n: usize) -> (r: Json)
    ensures
        r@ == JsonV::Number(NumV::PosInt(n as u64)),
{
    Json::Number(JsonNumber::PosInt(n as u64))
}

/// Summarises the task board: counts per column and the first ten tasks.
pub fn task_board_summary(board: &Json) -> (r: Json)
    ensures
        r@ == board_summary(board@),
{
    let mut items: Vec<(String, String)> = Vec::new();
    collect_task_board_items(board, None, &mut items);
    let ghost iv = board_items(board@, None);
    assert(items_view(items@) =~= iv);
    let mut pending: usize = 0;
    let mut active: usize = 0;
    let mut done: usize = 0;
    let mut failed: usize = 0;
    let mut top: Vec<Json> = Vec::new();
    let mut i: usize = 0;
    while i < items.len()
        invariant
            i <= items@.len(),
            iv == items_view(items@),
            pending == column_count(iv.take(i as int), "pending"@),
            active == column_count(iv.take(i as int), "active"@),
            done == column_count(iv.take(i as int), "done"@),
            failed == column_count(iv.take(i as int), "failed"@),
            top@.len() == if i < 10 { i as int } else { 10 },
            forall|k: int| 0 <= k < top@.len() ==> (#[trigger] top@[k])@ == item_json(iv[k]),
        decreases items.len() - i,
    {
        let ghost t = iv.take(i + 1);
        assert(t.drop_last() =~= iv.take(i as int));
        proof { lemma_columns_distinct(); }
        proof {
            lemma_column_count_le(iv.take(i as int), "pending"@);
            lemma_column_count_le(iv.take(i as int), "active"@);
            lemma_column_count_le(iv.take(i as int), "done"@);
            lemma_column_count_le(iv.take(i as int), "failed"@);
        }
        let st = items[i].0.as_str();
        assert(iv[i as int].0 == st@);
        assert(t.last() == iv[i as int]);
        if lit_eq(&chars_of(st), "pending") {
            pending += 1;
        } else if lit_eq(&chars_of(st), "active") {
            active += 1;
        } else if lit_eq(&chars_of(st), "done") {
            done += 1;
        } else if lit_eq(&chars_of(st), "failed") {
            failed += 1;
        }
        if top.len() < 10 {
            let mut o: Vec<(String, Json)> = Vec::new();
            o.push(entry("status", Json::text(items[i].0.as_str())));
            o.push(entry("title", Json::text(items[i].1.as_str())));
            let oj = Json::Object(o);
            assert(oj@->Object_0 =~= item_json(iv[i as int])->Object_0);
            top.push(oj);
        }
        i += 1;
    }
    assert(iv.take(iv.len() as int) =~= iv);
    let mut counts: Vec<(String, Json)> = Vec::new();
    counts.push(entry("pending", count_json(pending)));
    counts.push(entry("active", count_json(active)));
    counts.push(entry("done", count_json(done)));
    counts.push(entry("failed", count_json(failed)));
    let counts = Json::Object(counts);
    let mut v: Vec<(String, Json)> = Vec::new();
    v.push(entry("counts", counts));
    let tj = Json::Array(top);
    v.push(entry("top_tasks", tj));
    let r = Json::Object(v);
    proof {
        let bs = board_summary(board@);
        assert(counts@->Object_0 =~= bs->Object_0[0].1->Object_0);
        assert(tj@->Array_0 =~= bs->Object_0[1].1->Array_0);
        assert(r@->Object_0 =~= bs->Object_0);
    }
    r
}

/// One of the four board columns.
pub open spec fn is_column(c: Seq<char>) -> bool {
    c == "pending"@ || c == "active"@ || c == "done"@ || c == "failed"@
}

/// Every item stands in one of the four columns.
pub open spec fn all_in_columns(items: Seq<(Seq<char>, Seq<char>)>) -> bool {
    forall|i: int| 0 <= i < items.len() ==> is_column(#[trigger] items[i].0)
}

pub open spec fn column_or_none(c: Option<Seq<char>>) -> bool {
    match c {
        Some(x) => is_column(x),
        None => true,
    }
}

proof fn lemma_class_is_column(s: Seq<char>)
    ensures
        column_or_none(task_status_class(s)),
{
}

proof fn lemma_all_in_columns_add(a: Seq<(Seq<char>, Seq<char>)>, b: Seq<(Seq<char>, Seq<char>)>)
    requires
        all_in_columns(a),
        all_in_columns(b),
    ensures
        all_in_columns(a + b),
{
    assert forall|i: int| 0 <= i < (a + b).len() implies is_column(#[trigger] (a + b)[i].0) by {
        if i < a.len() {
            assert((a + b)[i] == a[i]);
        } else {
            assert((a + b)[i] == b[i - a.len()]);
        }
    }
}

proof fn lemma_board_items_columns(v: JsonV, inherited: Option<Seq<char>>)
    requires
        column_or_none(inherited),
    ensures
        all_in_columns(board_items(v, inherited)),
    decreases v, 0int,
{
    match v {
        JsonV::Array(items) => {
            lemma_array_items_columns(items, items.len() as int, inherited);
        },
        JsonV::Object(m) => {
            match jstr(or_else(jget(v, "status"@), jget(v, "state"@))) {
                Some(s) => lemma_class_is_column(s),
                None => {},
            }
            let own = own_status(v, inherited);
            assert(column_or_none(own));
            let head: Seq<(Seq<char>, Seq<char>)> = match (own, task_title_of(v)) {
                (Some(c), Some(t)) => seq![(c, t)],
                _ => Seq::empty(),
            };
            assert(all_in_columns(head));
            lemma_member_items_columns(m, m.len() as int, own);
            lemma_all_in_columns_add(head, member_items(m, m.len() as int, own));
        },
        _ => {},
    }
}

proof fn lemma_array_items_columns(items: Seq<JsonV>, n: int, inherited: Option<Seq<char>>)
    requires
        column_or_none(inherited),
    ensures
        all_in_columns(array_items(items, n, inherited)),
    decreases items, n,
{
    if n > 0 && n <= items.len() {
        lemma_array_items_columns(items, n - 1, inherited);
        assert(decreases_to!(items => items[n - 1]));
        lemma_board_items_columns(items[n - 1], inherited);
        lemma_all_in_columns_add(array_items(items, n - 1, inherited), board_items(items[n - 1], inherited));
    }
}

proof fn lemma_member_items_columns(m: Seq<(Seq<char>, JsonV)>, n: int, own: Option<Seq<char>>)
    requires
        column_or_none(own),
    ensures
        all_in_columns(member_items(m, n, own)),
    decreases m, n,
{
    if n > 0 && n <= m.len() {
        lemma_member_items_columns(m, n - 1, own);
        lemma_class_is_column(m[n - 1].0);
        let inh = or_opt(task_status_class(m[n - 1].0), own);
        assert(decreases_to!(m => m[n - 1]));
        assert(decreases_to!(m[n - 1] => m[n - 1].1));
        lemma_board_items_columns(m[n - 1].1, inh);
        lemma_all_in_columns_add(member_items(m, n - 1, own), board_items(m[n - 1].1, inh));
    }
}

proof fn lemma_column_counts_sum(items: Seq<(Seq<char>, Seq<char>)>)
    requires
        all_in_columns(items),
    ensures
        column_count(items, "pending"@) + column_count(items, "active"@) + column_count(items, "done"@)
            + column_count(items, "failed"@) == items.len(),
    decreases items.len(),
{
    if items.len() > 0 {
        let d = items.drop_last();
        assert forall|i: int| 0 <= i < d.len() implies is_column(#[trigger] d[i].0) by {
            assert(d[i] == items[i]);
        }
        lemma_column_counts_sum(d);
        lemma_columns_distinct();
        assert(is_column(items[items.len() - 1].0));
    }
}

/// Law: every board item stands in exactly one of the four columns, so the
/// four column counts of a summary add up to the number of items.
pub proof fn law_board_counts_sum_to_items(board: JsonV)
    ensures
        all_in_columns(board_items(board, None)),
        column_count(board_items(board, None), "pending"@) + column_count(board_items(board, None), "active"@)
            + column_count(board_items(board, None), "done"@) + column_count(board_items(board, None), "failed"@)
            == board_items(board, None).len(),
{
    lemma_board_items_columns(board, None);
    lemma_column_counts_sum(board_items(board, None));
}

} // verus!
