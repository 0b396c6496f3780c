//! A JSON value model for the runtime's decisions.
//!
//! Payloads exchanged with AMS are JSON. The library reads and builds them as
//! [`Json`] values; the program around it converts to and from text.

use vstd::prelude::*;
use crate::text::str_eq;

verus! {

/// A JSON number: non-negative and negative integers exactly, other numbers
/// by their text.
#[derive(Clone, Debug)]
pub enum JsonNumber {
    PosInt(u64),
    NegInt(i64),
    Float(String),
}

/// A JSON value. Object members keep their order.
#[derive(Debug)]
pub enum Json {
    Null,
    Bool(bool),
    Number(JsonNumber),
    Str(String),
    Array(Vec<Json>),
    Object(Vec<(String, Json)>),
}

/// The mathematical form of a JSON number.
pub enum NumV {
    PosInt(u64),
    NegInt(i64),
    Float(Seq<char>),
}

/// The mathematical form of a JSON value.
pub enum JsonV {
    Null,
    Bool(bool),
    Number(NumV),
    Str(Seq<char>),
    Array(Seq<JsonV>),
    Object(Seq<(Seq<char>, JsonV)>),
}

pub open spec fn num_view(n: JsonNumber) -> NumV {
    match n {
        JsonNumber::PosInt(u) => NumV::PosInt(u),
        JsonNumber::NegInt(i) => NumV::NegInt(i),
        JsonNumber::Float(s) => NumV::Float(s@),
    }
}

pub open spec fn json_view(j: Json) -> JsonV
    decreases j,
{
    match j {
        Json::Null => JsonV::Null,
        Json::Bool(b) => JsonV::Bool(b),
        Json::Number(n) => JsonV::Number(num_view(n)),
        Json::Str(s) => JsonV::Str(s@),
        Json::Array(v) => JsonV::Array(
            Seq::new(v@.len(), |i: int| if 0 <= i < v@.len() { json_view(v@[i]) } else { JsonV::Null }),
        ),
        Json::Object(v) => JsonV::Object(
            Seq::new(
                v@.len(),
                |i: int|
                    if 0 <= i < v@.len() {
                        (v@[i].0@, json_view(v@[i].1))
                    } else {
                        (Seq::<char>::empty(), JsonV::Null)
                    },
            ),
        ),
    }
}

impl View for Json {
    type V = JsonV;

    open spec fn view(&self) -> JsonV {
        json_view(*self)
    }
}

/// The first member named `key`.
pub open spec fn member(entries: Seq<(Seq<char>, JsonV)>, key: Seq<char>) -> Option<JsonV>
    decreases entries.len(),
{
    if entries.len() == 0 {
        None
    } else if entries[0].0 == key {
        Some(entries[0].1)
    } else {
        member(entries.drop_first(), key)
    }
}

/// `Value::get(key)`: the member of an object named `key`.
pub open spec fn jget(j: JsonV, key: Seq<char>) -> Option<JsonV> {
    match j {
        JsonV::Object(e) => member(e, key),
        _ => None,
    }
}

/// `Value::as_str`.
pub open spec fn jstr(j: Option<JsonV>) -> Option<Seq<char>> {
    match j {
        Some(JsonV::Str(s)) => Some(s),
        _ => None,
    }
}

/// `Value::as_u64`.
pub open spec fn ju64(j: Option<JsonV>) -> Option<u64> {
    match j {
        Some(JsonV::Number(NumV::PosInt(n))) => Some(n),
        _ => None,
    }
}

/// `Option::or_else`: the first that is present.
pub open spec fn or_else<T>(a: Option<T>, b: Option<T>) -> Option<T> {
    if a is Some { a } else { b }
}

/// A present, non-empty string member.
pub open spec fn nonempty(s: Option<Seq<char>>) -> Option<Seq<char>> {
    match s {
        Some(x) => if x.len() > 0 { Some(x) } else { None },
        None => None,
    }
}

/// A JSON string with the characters of `s`.
pub open spec fn jtext(s: Seq<char>) -> JsonV {
    JsonV::Str(s)
}

/// An optional string as JSON: the string, or `null`.
pub open spec fn jopt_text(s: Option<Seq<char>>) -> JsonV {
    match s {
        Some(x) => JsonV::Str(x),
        None => JsonV::Null,
    }
}

/// An optional value as JSON: the value, or `null`.
pub open spec fn jor_null(j: Option<JsonV>) -> JsonV {
    match j {
        Some(x) => x,
        None => JsonV::Null,
    }
}

impl Json {
    /// A JSON string.
    pub fn text(s: &str) -> (r: Json)
        ensures
            r@ == JsonV::Str(s@),
    {
        Json::Str(s.to_string())
    }

    /// A JSON string, or `null`.
    pub fn opt_text(s: Option<&str>) -> (r: Json)
        ensures
            r@ == jopt_text(match s { Some(x) => Some(x@), None => None }),
    {
        match s {
            Some(x) => Json::Str(x.to_string()),
            None => Json::Null,
        }
    }

    /// The member named `key`, when this is an object that has one.
    pub fn get(&self, key: &str) -> (r: Option<&Json>)
        ensures
            match r {
                Some(v) => jget(self@, key@) == Some(v@),
                None => jget(self@, key@) is None,
            },
    {
        match self {
            Json::Object(entries) => {
                let mut i: usize = 0;
                let ghost ev = self@->Object_0;
                assert(ev.skip(0) =~= ev);
                assert(self@ == JsonV::Object(ev));
                while i < entries.len()
                    invariant
                        i <= entries@.len(),
                        ev == self@->Object_0,
                        self@ == JsonV::Object(ev),
                        ev.len() == entries@.len(),
                        forall|k: int| 0 <= k < entries@.len() ==> ev[k] == (entries@[k].0@, entries@[k].1@),
                        member(ev, key@) == member(ev.skip(i as int), key@),
                    decreases entries.len() - i,
                {
                    assert(ev.skip(i as int)[0] == ev[i as int]);
                    assert(ev.skip(i as int).drop_first() =~= ev.skip(i + 1));
                    if str_eq(entries[i].0.as_str(), key) {
                        assert(ev[i as int].0 == key@);
                        assert(member(ev.skip(i as int), key@) == Some(ev[i as int].1));
                        assert(jget(self@, key@) == Some(entries@[i as int].1@));
                        return Some(&entries[i].1);
                    }
                    i += 1;
                }
                None
            },
            _ => None,
        }
    }

    /// The string this is, if it is one.
    pub fn as_str(&self) -> (r: Option<&str>)
        ensures
            match r {
                Some(s) => self@ == JsonV::Str(s@),
                None => !(self@ is Str),
            },
    {
        match self {
            Json::Str(s) => Some(s.as_str()),
            _ => None,
        }
    }

    /// The unsigned integer this is, if it is one.
    pub fn as_u64(&self) -> (r: Option<u64>)
        ensures
            r == ju64(Some(self@)),
    {
        match self {
            Json::Number(JsonNumber::PosInt(n)) => Some(*n),
            _ => None,
        }
    }

    /// The elements of this array, if it is one.
    pub fn as_array(&self) -> (r: Option<&Vec<Json>>)
        ensures
            match r {
                Some(v) => self@ is Array && self@->Array_0.len() == v@.len()
                    && forall|i: int| 0 <= i < v@.len() ==> #[trigger] self@->Array_0[i] == v@[i]@,
                None => !(self@ is Array),
            },
    {
        match self {
            Json::Array(v) => Some(v),
            _ => None,
        }
    }

    /// A copy of this value.
    pub fn deep_clone(&self) -> (r: Json)
        ensures
            r@ == self@,
        decreases self,
    {
        match self {
            Json::Null => Json::Null,
            Json::Bool(b) => Json::Bool(*b),
            Json::Number(JsonNumber::PosInt(n)) => Json::Number(JsonNumber::PosInt(*n)),
            Json::Number(JsonNumber::NegInt(n)) => Json::Number(JsonNumber::NegInt(*n)),
            Json::Number(JsonNumber::Float(s)) => Json::Number(JsonNumber::Float(s.clone())),
            Json::Str(s) => Json::Str(s.clone()),
            Json::Array(v) => {
                let mut out: Vec<Json> = Vec::new();
                let mut i: usize = 0;
                while i < v.len()
                    invariant
                        i <= v@.len(),
                        out@.len() == i,
                        *self == Json::Array(*v),
                        forall|k: int| 0 <= k < i ==> (#[trigger] out@[k])@ == v@[k]@,
                    decreases v.len() - i,
                {
                    proof {
                        let vv = *v;
                        assert(*self == Json::Array(vv));
                        assert(decreases_to!(*self => (*self)->Array_0));
                        assert(decreases_to!(vv => vv@));
                        assert(decreases_to!(vv@ => vv@[i as int]));
                    }
                    out.push(v[i].deep_clone());
                    i += 1;
                }
                let r = Json::Array(out);
                assert(r@ == self@) by {
                    assert(r@->Array_0 =~= self@->Array_0);
                }
                r
            },
            Json::Object(v) => {
                let mut out: Vec<(String, Json)> = Vec::new();
                let mut i: usize = 0;
                while i < v.len()
                    invariant
                        i <= v@.len(),
                        out@.len() == i,
                        *self == Json::Object(*v),
                        forall|k: int| 0 <= k < i ==> (#[trigger] out@[k]).0@ == v@[k].0@ && out@[k].1@ == v@[k].1@,
                    decreases v.len() - i,
                {
                    proof {
                        let vv = *v;
                        assert(*self == Json::Object(vv));
                        assert(decreases_to!(*self => (*self)->Object_0));
                        assert(decreases_to!(vv => vv@));
                        assert(decreases_to!(vv@ => vv@[i as int]));
                        assert(decreases_to!(vv@[i as int] => vv@[i as int].1));
                    }
                    out.push((v[i].0.clone(), v[i].1.deep_clone()));
                    i += 1;
                }
                let r = Json::Object(out);
                assert(r@ == self@) by {
                    assert(r@->Object_0 =~= self@->Object_0);
                }
                r
            },
        }
    }
}


/// `value[key] = v` on an object's members: the first member named `key`
/// takes the new value, or the member is added at the end.
pub open spec fn set_member(e: Seq<(Seq<char>, JsonV)>, key: Seq<char>, v: JsonV) -> Seq<(Seq<char>, JsonV)>
    decreases e.len(),
{
    if e.len() == 0 {
        seq![(key, v)]
    } else if e[0].0 == key {
        seq![(key, v)] + e.drop_first()
    } else {
        seq![e[0]] + set_member(e.drop_first(), key, v)
    }
}

/// `value[key] = v` on a JSON value (objects only; others are left alone).
pub open spec fn jset(j: JsonV, key: Seq<char>, v: JsonV) -> JsonV {
    match j {
        JsonV::Object(e) => JsonV::Object(set_member(e, key, v)),
        _ => j,
    }
}

proof fn lemma_set_member_at(e: Seq<(Seq<char>, JsonV)>, key: Seq<char>, v: JsonV, i: int)
    requires
        0 <= i <= e.len(),
        forall|k: int| 0 <= k < i ==> e[k].0 != key,
        i < e.len() ==> e[i].0 == key,
    ensures
        i < e.len() ==> set_member(e, key, v) == e.update(i, (key, v)),
        i == e.len() ==> set_member(e, key, v) == e.push((key, v)),
    decreases e.len(),
{
    if e.len() == 0 {
        assert(set_member(e, key, v) =~= e.push((key, v)));
    } else if i == 0 {
        assert(set_member(e, key, v) =~= e.update(0, (key, v)));
    } else {
        let t = e.drop_first();
        assert forall|k: int| 0 <= k < i - 1 implies t[k].0 != key by {
            assert(t[k] == e[k + 1]);
        }
        lemma_set_member_at(t, key, v, i - 1);
        if i < e.len() {
            assert(set_member(e, key, v) =~= e.update(i, (key, v)));
        } else {
            assert(set_member(e, key, v) =~= e.push((key, v)));
        }
    }
}

impl Json {
    /// `self[key] = value` for an object: the member named `key` takes the
    /// value, or is added at the end; anything else is left unchanged.
    pub fn set(&mut self, key: &str, value: Json)
        ensures
            final(self)@ == jset(old(self)@, key@, value@),
    {
        match self {
            Json::Object(entries) => {
                let ghost ev = old(self)@->Object_0;
                let mut i: usize = 0;
                while i < entries.len()
                    invariant
                        i <= entries@.len(),
                        ev.len() == entries@.len(),
                        forall|k: int| 0 <= k < entries@.len() ==> ev[k] == (entries@[k].0@, entries@[k].1@),
                        forall|k: int| 0 <= k < i ==> ev[k].0 != key@,
                    ensures
                        i <= entries@.len(),
                        forall|k: int| 0 <= k < i ==> ev[k].0 != key@,
                        i < entries@.len() ==> ev[i as int].0 == key@,
                    decreases entries.len() - i,
                {
                    if str_eq(entries[i].0.as_str(), key) {
                        break;
                    }
                    i += 1;
                }
                proof {
                    lemma_set_member_at(ev, key@, value@, i as int);
                }
                let ghost vv = value@;
                if i < entries.len() {
                    entries.set(i, (key.to_string(), value));
                    assert(self@->Object_0 =~= ev.update(i as int, (key@, vv)));
                } else {
                    entries.push((key.to_string(), value));
                    assert(self@->Object_0 =~= ev.push((key@, vv)));
                }
            },
            _ => {},
        }
    }
}

/// The member found for `key` is the one at `i` when no earlier member
/// has that name.
pub proof fn lemma_member_at(e: Seq<(Seq<char>, JsonV)>, key: Seq<char>, i: int)
    requires
        0 <= i < e.len(),
        e[i].0 == key,
        forall|k: int| 0 <= k < i ==> e[k].0 != key,
    ensures
        member(e, key) == Some(e[i].1),
    decreases i,
{
    if i > 0 {
        let t = e.drop_first();
        assert forall|k: int| 0 <= k < i - 1 implies t[k].0 != key by {
            assert(t[k] == e[k + 1]);
        }
        lemma_member_at(t, key, i - 1);
    }
}

/// No member is found for a name no member has.
pub proof fn lemma_member_absent(e: Seq<(Seq<char>, JsonV)>, key: Seq<char>)
    requires
        forall|k: int| 0 <= k < e.len() ==> e[k].0 != key,
    ensures
        member(e, key) is None,
    decreases e.len(),
{
    if e.len() > 0 {
        let t = e.drop_first();
        assert forall|k: int| 0 <= k < t.len() implies t[k].0 != key by {
            assert(t[k] == e[k + 1]);
        }
        lemma_member_absent(t, key);
    }
}

} // verus!
