//! Building blocks of the function-calling tool definitions offered to the
//! model: parameter schemas and the definition that wraps them.

use vstd::prelude::*;
use crate::json::{Json, JsonNumber, JsonV, NumV, jtext};
use crate::agent::runtime::worker::{entry, keys_view};

verus! {

/// Object members as values.
pub open spec fn members_view(m: Seq<(String, Json)>) -> Seq<(Seq<char>, JsonV)> {
    Seq::new(m.len(), |i: int| (m[i].0@, m[i].1@))
}

/// A JSON object from its members, in order.
pub fn object(members: Vec<(String, Json)>) -> (r: Json)
    ensures
        r@ == JsonV::Object(members_view(members@)),
{
    let r = Json::Object(members);
    assert(r@->Object_0 =~= members_view(members@));
    r
}

/// Strings as a JSON array.
pub open spec fn text_values(v: Seq<Seq<char>>) -> JsonV {
    JsonV::Array(Seq::new(v.len(), |i: int| jtext(v[i])))
}

/// A JSON array of the given strings.
pub fn text_array(items: &[&str]) -> (r: Json)
    ensures
        r@ == text_values(keys_view(items@)),
{
    let mut out: Vec<Json> = Vec::new();
    let mut i: usize = 0;
    while i < items.len()
        invariant
            i <= items@.len(),
            out@.len() == i,
            forall|k: int| 0 <= k < i ==> #[trigger] out@[k]@ == jtext(items@[k]@),
        decreases items.len() - i,
    {
        out.push(Json::text(items[i]));
        i = i + 1;
    }
    let ghost ov = out@;
    let r = Json::Array(out);
    assert(r@->Array_0 =~= text_values(keys_view(items@))->Array_0) by {
        assert forall|k: int| 0 <= k < ov.len() implies r@->Array_0[k] == text_values(keys_view(items@))->Array_0[k] by {
            assert(r@->Array_0[k] == ov[k]@);
        }
    }
    r
}

/// `{"type": "string", "description": d}`.
pub open spec fn string_param(d: Seq<char>) -> JsonV {
    JsonV::Object(seq![("type"@, jtext("string"@)), ("description"@, jtext(d))])
}

/// A string parameter.
pub fn string_param_json(d: &str) -> (r: Json)
    ensures
        r@ == string_param(d@),
{
    let mut v: Vec<(String, Json)> = Vec::new();
    v.push(entry("type", Json::text("string")));
    v.push(entry("description", Json::text(d)));
    let r = object(v);
    assert(members_view(v@) =~= string_param(d@)->Object_0);
    r
}

/// `{"type": "string", "enum": values, "description": d}`.
pub open spec fn enum_param(values: Seq<Seq<char>>, d: Seq<char>) -> JsonV {
    JsonV::Object(seq![("type"@, jtext("string"@)), ("enum"@, text_values(values)), ("description"@, jtext(d))])
}

/// A string parameter limited to some values.
pub fn enum_param_json(values: &[&str], d: &str) -> (r: Json)
    ensures
        r@ == enum_param(keys_view(values@), d@),
{
    let mut v: Vec<(String, Json)> = Vec::new();
    v.push(entry("type", Json::text("string")));
    v.push(entry("enum", text_array(values)));
    v.push(entry("description", Json::text(d)));
    let r = Json::Object(v);
    assert(r@->Object_0 =~= enum_param(keys_view(values@), d@)->Object_0);
    r
}

/// `{"type": "string", "enum": values, "description": d, "default": v}`.
pub open spec fn enum_default_param(values: Seq<Seq<char>>, d: Seq<char>, default: Seq<char>) -> JsonV {
    JsonV::Object(seq![
        ("type"@, jtext("string"@)),
        ("enum"@, text_values(values)),
        ("description"@, jtext(d)),
        ("default"@, jtext(default)),
    ])
}

/// A string parameter limited to some values, with a default.
pub fn enum_default_param_json(values: &[&str], d: &str, default: &str) -> (r: Json)
    ensures
        r@ == enum_default_param(keys_view(values@), d@, default@),
{
    let mut v: Vec<(String, Json)> = Vec::new();
    v.push(entry("type", Json::text("string")));
    v.push(entry("enum", text_array(values)));
    v.push(entry("description", Json::text(d)));
    v.push(entry("default", Json::text(default)));
    let r = Json::Object(v);
    assert(r@->Object_0 =~= enum_default_param(keys_view(values@), d@, default@)->Object_0);
    r
}

/// `{"type": "integer", "description": d, "default": n}`.
pub open spec fn integer_param(d: Seq<char>, default: u64) -> JsonV {
    JsonV::Object(seq![
        ("type"@, jtext("integer"@)),
        ("description"@, jtext(d)),
        ("default"@, JsonV::Number(NumV::PosInt(default))),
    ])
}

/// An integer parameter with a default.
pub fn integer_param_json(d: &str, default: u64) -> (r: Json)
    ensures
        r@ == integer_param(d@, default),
{
    let mut v: Vec<(String, Json)> = Vec::new();
    v.push(entry("type", Json::text("integer")));
    v.push(entry("description", Json::text(d)));
    v.push(entry("default", Json::Number(JsonNumber::PosInt(default))));
    let r = Json::Object(v);
    assert(r@->Object_0 =~= integer_param(d@, default)->Object_0);
    r
}

/// `{"type": "array", "items": {"type": "string"}, "description": d}`, with
/// `"default": []` when asked.
pub open spec fn string_list_param(d: Seq<char>, with_default: bool) -> JsonV {
    let base = seq![
        ("type"@, jtext("array"@)),
        ("items"@, JsonV::Object(seq![("type"@, jtext("string"@))])),
        ("description"@, jtext(d)),
    ];
    JsonV::Object(if with_default { base.push(("default"@, JsonV::Array(Seq::empty()))) } else { base })
}

/// A list-of-strings parameter.
pub fn string_list_param_json(d: &str, with_default: bool) -> (r: Json)
    ensures
        r@ == string_list_param(d@, with_default),
{
    let mut items: Vec<(String, Json)> = Vec::new();
    items.push(entry("type", Json::text("string")));
    let items = Json::Object(items);
    assert(items@->Object_0 =~= seq![("type"@, jtext("string"@))]);
    let mut v: Vec<(String, Json)> = Vec::new();
    v.push(entry("type", Json::text("array")));
    v.push(entry("items", items));
    v.push(entry("description", Json::text(d)));
    if with_default {
        let empty = Json::Array(Vec::new());
        assert(empty@->Array_0 =~= Seq::<JsonV>::empty());
        v.push(entry("default", empty));
    }
    let r = Json::Object(v);
    assert(r@->Object_0 =~= string_list_param(d@, with_default)->Object_0);
    r
}

/// `{"type": "object", "description": d, "default": {}}`.
pub open spec fn object_param(d: Seq<char>) -> JsonV {
    JsonV::Object(seq![
        ("type"@, jtext("object"@)),
        ("description"@, jtext(d)),
        ("default"@, JsonV::Object(Seq::empty())),
    ])
}

/// An object parameter defaulting to `{}`.
pub fn object_param_json(d: &str) -> (r: Json)
    ensures
        r@ == object_param(d@),
{
    let empty = Json::Object(Vec::new());
    assert(empty@->Object_0 =~= Seq::<(Seq<char>, JsonV)>::empty());
    let mut v: Vec<(String, Json)> = Vec::new();
    v.push(entry("type", Json::text("object")));
    v.push(entry("description", Json::text(d)));
    v.push(entry("default", empty));
    let r = Json::Object(v);
    assert(r@->Object_0 =~= object_param(d@)->Object_0);
    r
}

/// A function-calling tool definition: its name, description, parameter
/// properties and, when there are any, the required ones.
pub open spec fn tool_def(
    name: Seq<char>,
    description: Seq<char>,
    properties: Seq<(Seq<char>, JsonV)>,
    required: Seq<Seq<char>>,
) -> JsonV {
    let params = seq![("type"@, jtext("object"@)), ("properties"@, JsonV::Object(properties))];
    JsonV::Object(seq![
        ("type"@, jtext("function"@)),
        ("function"@, JsonV::Object(seq![
            ("name"@, jtext(name)),
            ("description"@, jtext(description)),
            ("parameters"@, JsonV::Object(
                if required.len() > 0 { params.push(("required"@, text_values(required))) } else { params },
            )),
        ])),
    ])
}

/// Builds a tool definition.
pub fn tool_definition(name: &str, description: &str, properties: Vec<(String, Json)>, required: &[&str]) -> (r: Json)
    ensures
        r@ == tool_def(name@, description@, members_view(properties@), keys_view(required@)),
{
    let props = object(properties);
    let mut params: Vec<(String, Json)> = Vec::new();
    params.push(entry("type", Json::text("object")));
    params.push(entry("properties", props));
    if required.len() > 0 {
        params.push(entry("required", text_array(required)));
    }
    let params = Json::Object(params);
    let mut f: Vec<(String, Json)> = Vec::new();
    f.push(entry("name", Json::text(name)));
    f.push(entry("description", Json::text(description)));
    f.push(entry("parameters", params));
    let f = Json::Object(f);
    let mut v: Vec<(String, Json)> = Vec::new();
    v.push(entry("type", Json::text("function")));
    v.push(entry("function", f));
    let r = Json::Object(v);
    assert(params@->Object_0 =~= tool_def(name@, description@, members_view(properties@), keys_view(required@))->Object_0[1].1->Object_0[2].1->Object_0);
    assert(f@->Object_0 =~= tool_def(name@, description@, members_view(properties@), keys_view(required@))->Object_0[1].1->Object_0);
    assert(r@->Object_0 =~= tool_def(name@, description@, members_view(properties@), keys_view(required@))->Object_0);
    r
}

} // verus!
