//! Random identifiers (UUID v4) and UUID syntax checks.

use vstd::prelude::*;

verus! {

/// A lower-case hexadecimal digit.
pub open spec fn lower_hex_digit(c: char) -> bool {
    ('0' <= c && c <= '9') || ('a' <= c && c <= 'f')
}

/// Where the hyphenated UUID form puts its `-`.
pub open spec fn uuid_dash_at(i: int) -> bool {
    i == 8 || i == 13 || i == 18 || i == 23
}

/// A fresh random UUID v4 in hyphenated lower-case form.
///
/// Trusted: calls `uuid::Uuid::new_v4()` and formats it with `Display`,
/// which writes the 36-character hyphenated form: lower-case hex digits in
/// groups of 8-4-4-4-12 joined by `-`. Which UUID comes out is random and
/// not stated.
#[verifier::external_body]
pub(crate) fn uuid_v4_hyphenated() -> (r: String)
    ensures
        r@.len() == 36,
        forall|i: int| 0 <= i < 36 ==> if uuid_dash_at(i) { r@[i] == '-' } else { lower_hex_digit(#[trigger] r@[i]) },
{
    uuid::Uuid::new_v4().to_string()
}

/// A fresh random UUID v4 as 32 lower-case hex digits.
///
/// Trusted: calls `uuid::Uuid::new_v4().simple()` and formats it, which
/// writes 32 lower-case hex digits without hyphens; which UUID comes out is
/// random and not stated.
#[verifier::external_body]
pub(crate) fn uuid_v4_simple() -> (r: String)
    ensures
        r@.len() == 32,
        forall|i: int| 0 <= i < 32 ==> lower_hex_digit(#[trigger] r@[i]),
{
    uuid::Uuid::new_v4().simple().to_string()
}

/// Whether `uuid::Uuid::parse_str` accepts the text (its grammar takes the
/// hyphenated, simple, braced and URN forms).
pub uninterp spec fn uuid_parses(s: Seq<char>) -> bool;

/// Whether the text is a UUID.
///
/// Trusted: calls `uuid::Uuid::parse_str` and reports whether it returned
/// `Ok`; the answer is named [`uuid_parses`] of the text.
#[verifier::external_body]
pub(crate) fn is_uuid(s: &str) -> (r: bool)
    ensures
        r == uuid_parses(s@),
{
    uuid::Uuid::parse_str(s).is_ok()
}

} // verus!
