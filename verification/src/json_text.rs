//! JSON values as compact text: no whitespace, members in their stored
//! order, strings escaped as `serde_json` writes them.

use vstd::prelude::*;
use crate::json::{Json, JsonNumber, JsonV, NumV};
use crate::text::{chars_of, string_from_chars};

verus! {

/// The decimal digit for `d < 10`.
pub open spec fn digit(d: nat) -> char {
    if d == 0 { '0' } else if d == 1 { '1' } else if d == 2 { '2' } else if d == 3 { '3' } else if d == 4 { '4' }
    else if d == 5 { '5' } else if d == 6 { '6' } else if d == 7 { '7' } else if d == 8 { '8' } else { '9' }
}

/// The decimal digits of `n`, most significant first, without leading zeros.
pub open spec fn decimal(n: nat) -> Seq<char>
    decreases n,
{
    if n < 10 { seq![digit(n)] } else { decimal(n / 10).push(digit(n % 10)) }
}

/// A number's text.
pub open spec fn number_text(n: NumV) -> Seq<char> {
    match n {
        NumV::PosInt(u) => decimal(u as nat),
        NumV::NegInt(i) => if i < 0 { seq!['-'] + decimal((-i) as nat) } else { decimal(i as nat) },
        NumV::Float(t) => t,
    }
}

/// The lower-case hex digit for `d < 16`.
pub open spec fn hex_digit(d: nat) -> char {
    if d < 10 { digit(d) } else if d == 10 { 'a' } else if d == 11 { 'b' } else if d == 12 { 'c' }
    else if d == 13 { 'd' } else if d == 14 { 'e' } else { 'f' }
}

/// How one character is written inside a string: quote and backslash are
/// escaped, the control characters with short escapes use them, other
/// control characters are `\u00XX`; everything else is written as it is.
pub open spec fn escaped(c: char) -> Seq<char> {
    if c == '"' {
        seq!['\\', '"']
    } else if c == '\\' {
        seq!['\\', '\\']
    } else if c == '\n' {
        seq!['\\', 'n']
    } else if c == '\r' {
        seq!['\\', 'r']
    } else if c == '\t' {
        seq!['\\', 't']
    } else if (c as u32) == 8 {
        seq!['\\', 'b']
    } else if (c as u32) == 12 {
        seq!['\\', 'f']
    } else if (c as u32) < 32 {
        seq!['\\', 'u', '0', '0', hex_digit((c as u32 / 16) as nat), hex_digit((c as u32 % 16) as nat)]
    } else {
        seq![c]
    }
}

/// The escaped characters of `s`.
pub open spec fn escaped_text(s: Seq<char>) -> Seq<char>
    decreases s.len(),
{
    if s.len() == 0 { Seq::empty() } else { escaped_text(s.drop_last()) + escaped(s.last()) }
}

proof fn lemma_escaped_printable(c: char)
    ensures
        forall|i: int| 0 <= i < escaped(c).len() ==> (#[trigger] escaped(c)[i]) as u32 >= 32,
{
    let code = c as u32;
    if (c as u32) < 32 && c != '\n' && c != '\r' && c != '\t' && code != 8 && code != 12 {
        let hi = (code / 16) as nat;
        let lo = (code % 16) as nat;
        assert(hex_digit(hi) as u32 >= 48);
        assert(hex_digit(lo) as u32 >= 48);
    }
}

/// Law: escaped text never holds a raw control character, so a string
/// written into JSON cannot break its line or its quoting.
pub proof fn law_escaped_text_is_printable(s: Seq<char>)
    ensures
        forall|i: int| 0 <= i < escaped_text(s).len() ==> (#[trigger] escaped_text(s)[i]) as u32 >= 32,
    decreases s.len(),
{
    if s.len() > 0 {
        law_escaped_text_is_printable(s.drop_last());
        lemma_escaped_printable(s.last());
        let a = escaped_text(s.drop_last());
        let e = escaped(s.last());
        assert forall|i: int| 0 <= i < escaped_text(s).len() implies (#[trigger] escaped_text(s)[i]) as u32 >= 32 by {
            if i < a.len() {
                assert(escaped_text(s)[i] == a[i]);
            } else {
                assert(escaped_text(s)[i] == e[i - a.len()]);
            }
        }
    }
}

/// A string literal.
pub open spec fn string_text(s: Seq<char>) -> Seq<char> {
    seq!['"'] + escaped_text(s) + seq!['"']
}

/// The compact text of a JSON value.
pub open spec fn json_text(j: JsonV) -> Seq<char>
    decreases j, 0int,
{
    match j {
        JsonV::Null => seq!['n', 'u', 'l', 'l'],
        JsonV::Bool(b) => if b { seq!['t', 'r', 'u', 'e'] } else { seq!['f', 'a', 'l', 's', 'e'] },
        JsonV::Number(n) => number_text(n),
        JsonV::Str(s) => string_text(s),
        JsonV::Array(items) => seq!['['] + items_text(items, items.len() as int) + seq![']'],
        JsonV::Object(m) => seq!['{'] + members_text(m, m.len() as int) + seq!['}'],
    }
}

/// The first `n` items, separated by commas.
pub open spec fn items_text(items: Seq<JsonV>, n: int) -> Seq<char>
    decreases items, n,
{
    if n <= 0 || n > items.len() {
        Seq::empty()
    } else if n == 1 {
        json_text(items[0])
    } else {
        items_text(items, n - 1) + seq![','] + json_text(items[n - 1])
    }
}

/// The first `n` members as `"key":value`, separated by commas.
pub open spec fn members_text(m: Seq<(Seq<char>, JsonV)>, n: int) -> Seq<char>
    decreases m, n,
{
    if n <= 0 || n > m.len() {
        Seq::empty()
    } else if n == 1 {
        string_text(m[0].0) + seq![':'] + json_text(m[0].1)
    } else {
        members_text(m, n - 1) + seq![','] + string_text(m[n - 1].0) + seq![':'] + json_text(m[n - 1].1)
    }
}

fn digit_char(d: u64) -> (c: char)
    requires
        d < 10,
    ensures
        c == digit(d as nat),
{
    if d == 0 { '0' } else if d == 1 { '1' } else if d == 2 { '2' } else if d == 3 { '3' } else if d == 4 { '4' }
    else if d == 5 { '5' } else if d == 6 { '6' } else if d == 7 { '7' } else if d == 8 { '8' } else { '9' }
}

fn push_decimal(n: u64, out: &mut Vec<char>)
    ensures
        final(out)@ == old(out)@ + decimal(n as nat),
    decreases n,
{
    if n >= 10 {
        push_decimal(n / 10, out);
    }
    out.push(digit_char(n % 10));
    assert(final(out)@ =~= old(out)@ + decimal(n as nat)) by {
        if n >= 10 {
            assert(decimal(n as nat) == decimal((n / 10) as nat).push(digit((n % 10) as nat)));
        }
    }
}

fn hex_digit_char(d: u32) -> (c: char)
    requires
        d < 16,
    ensures
        c == hex_digit(d as nat),
{
    if d < 10 { digit_char(d as u64) } else if d == 10 { 'a' } else if d == 11 { 'b' } else if d == 12 { 'c' }
    else if d == 13 { 'd' } else if d == 14 { 'e' } else { 'f' }
}

fn push_escaped(c: char, out: &mut Vec<char>)
    ensures
        final(out)@ == old(out)@ + escaped(c),
{
    let code = c as u32;
    if c == '"' {
        out.push('\\');
        out.push('"');
    } else if c == '\\' {
        out.push('\\');
        out.push('\\');
    } else if c == '\n' {
        out.push('\\');
        out.push('n');
    } else if c == '\r' {
        out.push('\\');
        out.push('r');
    } else if c == '\t' {
        out.push('\\');
        out.push('t');
    } else if code == 8 {
        out.push('\\');
        out.push('b');
    } else if code == 12 {
        out.push('\\');
        out.push('f');
    } else if code < 32 {
        out.push('\\');
        out.push('u');
        out.push('0');
        out.push('0');
        out.push(hex_digit_char(code / 16));
        out.push(hex_digit_char(code % 16));
    } else {
        out.push(c);
    }
    assert(final(out)@ =~= old(out)@ + escaped(c));
}

fn push_string(s: &str, out: &mut Vec<char>)
    ensures
        final(out)@ == old(out)@ + string_text(s@),
{
    let ghost start = out@;
    let chars = chars_of(s);
    out.push('"');
    let mut i: usize = 0;
    while i < chars.len()
        invariant
            i <= chars@.len(),
            chars@ == s@,
            out@ == start + seq!['"'] + escaped_text(chars@.take(i as int)),
        decreases chars.len() - i,
    {
        push_escaped(chars[i], out);
        assert(chars@.take(i + 1).drop_last() =~= chars@.take(i as int));
        assert(out@ =~= start + seq!['"'] + escaped_text(chars@.take(i + 1)));
        i += 1;
    }
    assert(chars@.take(chars@.len() as int) =~= chars@);
    out.push('"');
    assert(out@ =~= start + string_text(s@));
}

fn push_literal(lit: &str, out: &mut Vec<char>)
    ensures
        final(out)@ == old(out)@ + lit@,
{
    let c = chars_of(lit);
    let mut i: usize = 0;
    let ghost start = out@;
    while i < c.len()
        invariant
            i <= c@.len(),
            out@ == start + c@.take(i as int),
        decreases c.len() - i,
    {
        out.push(c[i]);
        assert(out@ =~= start + c@.take(i + 1));
        i += 1;
    }
    assert(c@.take(c@.len() as int) =~= c@);
}

/// Appends the compact text of `j` to `out`.
pub fn write_json(j: &Json, out: &mut Vec<char>)
    ensures
        final(out)@ == old(out)@ + json_text(j@),
    decreases j,
{
    let ghost start = out@;
    match j {
        Json::Null => {
            out.push('n');
            out.push('u');
            out.push('l');
            out.push('l');
            assert(out@ =~= start + json_text(j@));
        },
        Json::Bool(b) => {
            if *b {
                out.push('t');
                out.push('r');
                out.push('u');
                out.push('e');
            } else {
                out.push('f');
                out.push('a');
                out.push('l');
                out.push('s');
                out.push('e');
            }
            assert(out@ =~= start + json_text(j@));
        },
        Json::Number(JsonNumber::PosInt(u)) => {
            push_decimal(*u, out);
        },
        Json::Number(JsonNumber::NegInt(i)) => {
            if *i < 0 {
                out.push('-');
                let m: u64 = ((-(*i + 1)) as u64) + 1;
                push_decimal(m, out);
                assert(out@ =~= start + json_text(j@));
            } else {
                push_decimal(*i as u64, out);
            }
        },
        Json::Number(JsonNumber::Float(t)) => {
            push_literal(t.as_str(), out);
        },
        Json::Str(s) => {
            push_string(s.as_str(), out);
        },
        Json::Array(items) => {
            let ghost iv = j@->Array_0;
            out.push('[');
            let mut i: usize = 0;
            while i < items.len()
                invariant
                    i <= items@.len(),
                    *j == Json::Array(*items),
                    iv == j@->Array_0,
                    iv.len() == items@.len(),
                    forall|k: int| 0 <= k < items@.len() ==> #[trigger] iv[k] == items@[k]@,
                    out@ == start + seq!['['] + items_text(iv, i as int),
                decreases items.len() - i,
            {
                proof {
                    let vv = *items;
                    assert(decreases_to!(*j => (*j)->Array_0));
                    assert(decreases_to!(vv => vv@));
                    assert(decreases_to!(vv@ => vv@[i as int]));
                }
                if i > 0 {
                    out.push(',');
                }
                write_json(&items[i], out);
                assert(iv[i as int] == items@[i as int]@);
                assert(out@ =~= start + seq!['['] + items_text(iv, i + 1));
                i += 1;
            }
            out.push(']');
            assert(out@ =~= start + json_text(j@));
        },
        Json::Object(members) => {
            let ghost mv = j@->Object_0;
            out.push('{');
            let mut i: usize = 0;
            while i < members.len()
                invariant
                    i <= members@.len(),
                    *j == Json::Object(*members),
                    mv == j@->Object_0,
                    mv.len() == members@.len(),
                    forall|k: int| 0 <= k < members@.len() ==> #[trigger] mv[k] == (members@[k].0@, members@[k].1@),
                    out@ == start + seq!['{'] + members_text(mv, i as int),
                decreases members.len() - i,
            {
                proof {
                    let vv = *members;
                    assert(decreases_to!(*j => (*j)->Object_0));
                    assert(decreases_to!(vv => vv@));
                    assert(decreases_to!(vv@ => vv@[i as int]));
                    assert(decreases_to!(vv@[i as int] => vv@[i as int].1));
                }
                if i > 0 {
                    out.push(',');
                }
                push_string(members[i].0.as_str(), out);
                out.push(':');
                write_json(&members[i].1, out);
                assert(mv[i as int] == (members@[i as int].0@, members@[i as int].1@));
                assert(out@ =~= start + seq!['{'] + members_text(mv, i + 1));
                i += 1;
            }
            out.push('}');
            assert(out@ =~= start + json_text(j@));
        },
    }
}

impl Json {
    /// The value as compact JSON text.
    pub fn to_text(&self) -> (r: String)
        ensures
            r@ == json_text(self@),
    {
        let mut out: Vec<char> = Vec::new();
        write_json(self, &mut out);
        assert(out@ =~= json_text(self@));
        string_from_chars(out.as_slice())
    }
}

} // verus!
