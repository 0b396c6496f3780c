//! Character-level helpers over `str` and `String`, with their contracts.

use vstd::prelude::*;

verus! {

/// The characters of `s`, in order.
///
/// Trusted: calls `str::chars` and collects; std documents that `chars`
/// yields the string's `char`s in order, which is what `s@` is.
#[verifier::external_body]
pub(crate) fn chars_of(s: &str) -> (v: Vec<char>)
    ensures
        v@ == s@,
{
    s.chars().collect()
}

/// A `String` made of the characters `v`, in order.
///
/// Trusted: collects an iterator of `char` into a `String`
/// (`FromIterator<&char> for String`), which std documents as pushing each one.
#[verifier::external_body]
pub(crate) fn string_from_chars(v: &[char]) -> (s: String)
    ensures
        s@ == v@,
{
    v.iter().collect()
}

/// The current UTC time in RFC 3339 form.
///
/// Trusted: `chrono::Utc::now().to_rfc3339()`; the time read is not stated.
#[verifier::external_body]
pub(crate) fn utc_now_rfc3339() -> String {
    chrono::Utc::now().to_rfc3339()
}

/// Two character vectors are equal.
pub fn chars_eq(a: &[char], b: &[char]) -> (r: bool)
    ensures
        r == (a@ == b@),
{
    if a.len() != b.len() {
        return false;
    }
    let mut i: usize = 0;
    while i < a.len()
        invariant
            a@.len() == b@.len(),
            i <= a@.len(),
            forall|j: int| 0 <= j < i ==> a@[j] == b@[j],
        decreases a.len() - i,
    {
        if a[i] != b[i] {
            return false;
        }
        i += 1;
    }
    assert(a@ =~= b@);
    true
}

/// Two strings hold the same characters.
pub fn str_eq(a: &str, b: &str) -> (r: bool)
    ensures
        r == (a@ == b@),
{
    let av = chars_of(a);
    let bv = chars_of(b);
    chars_eq(av.as_slice(), bv.as_slice())
}

/// `o` holds a string with the characters `t`.
pub open spec fn some_text(o: Option<String>, t: Seq<char>) -> bool {
    o matches Some(x) && x@ == t
}

/// `s` begins with `prefix`.
pub open spec fn has_prefix(s: Seq<char>, prefix: Seq<char>) -> bool {
    prefix.len() <= s.len() && s.subrange(0, prefix.len() as int) == prefix
}

/// `s` begins with the characters `prefix`.
pub fn starts_with_chars(s: &[char], prefix: &[char]) -> (r: bool)
    ensures
        r == has_prefix(s@, prefix@),
{
    if prefix.len() > s.len() {
        return false;
    }
    let mut i: usize = 0;
    while i < prefix.len()
        invariant
            prefix@.len() <= s@.len(),
            i <= prefix@.len(),
            forall|j: int| 0 <= j < i ==> s@[j] == prefix@[j],
        decreases prefix.len() - i,
    {
        if s[i] != prefix[i] {
            assert(s@.subrange(0, prefix@.len() as int)[i as int] != prefix@[i as int]);
            return false;
        }
        i += 1;
    }
    assert(s@.subrange(0, prefix@.len() as int) =~= prefix@);
    true
}

/// ASCII lower-casing of one character (what `char::to_ascii_lowercase` does).
pub open spec fn ascii_lower(c: char) -> char {
    if 'A' <= c && c <= 'Z' {
        ((c as u32) + 32) as char
    } else {
        c
    }
}

/// ASCII lower-casing of every character (what `str::to_ascii_lowercase` does).
pub open spec fn ascii_lower_seq(s: Seq<char>) -> Seq<char> {
    s.map_values(|c: char| ascii_lower(c))
}

pub fn to_ascii_lower_char(c: char) -> (r: char)
    ensures
        r == ascii_lower(c),
{
    if 'A' <= c && c <= 'Z' {
        let b: u8 = c as u8;
        (b + 32) as char
    } else {
        c
    }
}

/// The characters of `s`, ASCII lower-cased.
pub fn to_ascii_lower(s: &str) -> (r: Vec<char>)
    ensures
        r@ == ascii_lower_seq(s@),
{
    let v = chars_of(s);
    let mut out: Vec<char> = Vec::new();
    let mut i: usize = 0;
    while i < v.len()
        invariant
            i <= v@.len(),
            out@ =~= ascii_lower_seq(v@.take(i as int)),
        decreases v.len() - i,
    {
        out.push(to_ascii_lower_char(v[i]));
        assert(v@.take(i + 1) =~= v@.take(i as int).push(v@[i as int]));
        i += 1;
    }
    assert(v@.take(v@.len() as int) =~= v@);
    out
}

/// The first `n` characters of `s` (all of `s` when it is shorter).
pub open spec fn take_chars(s: Seq<char>, n: nat) -> Seq<char> {
    if n < s.len() { s.take(n as int) } else { s }
}

/// `value` cut to at most `max_chars` characters, never inside a character.
pub fn truncate_chars(value: &str, max_chars: usize) -> (r: String)
    ensures
        r@ == take_chars(value@, max_chars as nat),
{
    let v = chars_of(value);
    if max_chars < v.len() {
        let mut head: Vec<char> = Vec::new();
        let mut i: usize = 0;
        while i < max_chars
            invariant
                max_chars < v@.len(),
                i <= max_chars,
                head@ =~= v@.take(i as int),
            decreases max_chars - i,
        {
            head.push(v[i]);
            i += 1;
        }
        string_from_chars(head.as_slice())
    } else {
        value.to_string()
    }
}

} // verus!
