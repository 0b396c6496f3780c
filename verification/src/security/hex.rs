//! Hexadecimal encoding of byte strings, and the decoding of ed25519
//! signatures written as 128 hex digits.

use vstd::prelude::*;
use crate::text::{chars_of, string_from_chars};
use vstd::string::StringSliceAdditionalSpecFns;

verus! {

/// The hexadecimal digit for a nibble `n < 16`, lower or upper case.
pub open spec fn nibble_char(n: u8, upper: bool) -> char {
    if n < 10 {
        ((48u8 + n) as u8) as char
    } else if upper {
        ((55u8 + n) as u8) as char
    } else {
        ((87u8 + n) as u8) as char
    }
}

/// The `i`-th digit of the hex text of `bytes`: two digits per byte, high nibble first.
pub open spec fn hex_char_at(bytes: Seq<u8>, i: int, upper: bool) -> char {
    if i % 2 == 0 {
        nibble_char(bytes[i / 2] / 16, upper)
    } else {
        nibble_char(bytes[i / 2] % 16, upper)
    }
}

/// The hex text of `bytes`, in lower or upper case.
pub open spec fn hex_text(bytes: Seq<u8>, upper: bool) -> Seq<char> {
    Seq::new(2 * bytes.len(), |i: int| hex_char_at(bytes, i, upper))
}

fn nibble_to_char(n: u8, upper: bool) -> (c: char)
    requires
        n < 16,
    ensures
        c == nibble_char(n, upper),
{
    if n < 10 {
        (48u8 + n) as char
    } else if upper {
        (55u8 + n) as char
    } else {
        (87u8 + n) as char
    }
}

/// The hex digits of `bytes` as characters.
pub fn hex_chars(bytes: &[u8], upper: bool) -> (r: Vec<char>)
    requires
        bytes@.len() * 2 <= usize::MAX,
    ensures
        r@ == hex_text(bytes@, upper),
{
    let mut out: Vec<char> = Vec::new();
    let mut j: usize = 0;
    while j < bytes.len()
        invariant
            j <= bytes@.len(),
            out@ =~= hex_text(bytes@.take(j as int), upper),
        decreases bytes.len() - j,
    {
        let b = bytes[j];
        let ghost prev = out@;
        out.push(nibble_to_char(b / 16, upper));
        out.push(nibble_to_char(b % 16, upper));
        proof {
            let t = bytes@.take(j + 1);
            assert forall|i: int| 0 <= i < 2 * t.len() implies out@[i] == hex_char_at(t, i, upper) by {
                if i < 2 * j {
                    assert(i / 2 < j);
                    assert(t[i / 2] == bytes@.take(j as int)[i / 2]);
                } else if i == 2 * j {
                    assert(i / 2 == j);
                } else {
                    assert(i / 2 == j);
                }
            }
        }
        j += 1;
    }
    assert(bytes@.take(bytes@.len() as int) =~= bytes@);
    out
}

/// Encodes bytes as lower-case hexadecimal, two digits per byte.
pub fn encode(bytes: &[u8]) -> (r: String)
    requires
        bytes@.len() * 2 <= usize::MAX,
    ensures
        r@ == hex_text(bytes@, false),
{
    let v = hex_chars(bytes, false);
    string_from_chars(v.as_slice())
}

/// The value of a hexadecimal digit (either case).
pub open spec fn hex_value(c: char) -> Option<u8> {
    if '0' <= c <= '9' {
        Some(((c as u8) - 48) as u8)
    } else if 'a' <= c <= 'f' {
        Some(((c as u8) - 87) as u8)
    } else if 'A' <= c <= 'F' {
        Some(((c as u8) - 55) as u8)
    } else {
        None
    }
}

/// What `u8::from_str_radix` gives on the two characters `c0 c1` in base 16:
/// two digits, or a `+` sign and one digit.
pub open spec fn pair_value(c0: char, c1: char) -> Option<u8> {
    if c0 == '+' {
        hex_value(c1)
    } else {
        match (hex_value(c0), hex_value(c1)) {
            (Some(h), Some(l)) => Some((h * 16 + l) as u8),
            _ => None,
        }
    }
}

/// Every digit pair of `s` has a value.
pub open spec fn pairs_valid(s: Seq<char>) -> bool {
    forall|i: int| 0 <= i < 64 ==> (#[trigger] pair_value(s[2 * i], s[2 * i + 1])) is Some
}

/// The 64 bytes that the 128 characters of `s` stand for.
pub open spec fn pairs_bytes(s: Seq<char>) -> Seq<u8> {
    Seq::new(64, |i: int| pair_value(s[2 * i], s[2 * i + 1])->0)
}

/// A signature text decodes when it is 128 bytes of ASCII (so 128
/// characters) whose digit pairs all parse in base 16.
pub open spec fn signature_decodes(s: Seq<char>) -> bool {
    &&& s.len() == 128
    &&& vstd::utf8::is_ascii_chars(s)
    &&& pairs_valid(s)
}

fn hex_digit_value(c: char) -> (r: Option<u8>)
    ensures
        r == hex_value(c),
{
    if '0' <= c && c <= '9' {
        Some((c as u8) - 48)
    } else if 'a' <= c && c <= 'f' {
        Some((c as u8) - 87)
    } else if 'A' <= c && c <= 'F' {
        Some((c as u8) - 55)
    } else {
        None
    }
}

fn parse_pair(c0: char, c1: char) -> (r: Option<u8>)
    ensures
        r == pair_value(c0, c1),
{
    if c0 == '+' {
        hex_digit_value(c1)
    } else {
        match (hex_digit_value(c0), hex_digit_value(c1)) {
            (Some(h), Some(l)) => Some(h * 16 + l),
            _ => None,
        }
    }
}

/// Decodes a signature written as 128 hexadecimal characters into its 64
/// bytes, without ever slicing inside a character: `None` unless the text is
/// 128 bytes of ASCII and each digit pair parses in base 16.
pub fn decode_signature_bytes(sig_str: &str) -> (r: Option<[u8; 64]>)
    ensures
        r is Some <==> signature_decodes(sig_str@),
        r matches Some(b) ==> b@ == pairs_bytes(sig_str@),
{
    broadcast use vstd::string::is_ascii_spec_bytes;
    // Only ASCII text is cut into digit pairs, so no slice falls inside a
    // character; for ASCII the byte length is the character count.
    if !sig_str.is_ascii() {
        return None;
    }
    let s = chars_of(sig_str);
    proof {
        vstd::string::is_ascii_spec_bytes(sig_str);
    }
    if s.len() != 128 {
        return None;
    }
    let mut out = [0u8; 64];
    let mut i: usize = 0;
    while i < 64
        invariant
            s@ == sig_str@,
            s@.len() == 128,
            i <= 64,
            forall|k: int| 0 <= k < i ==> (#[trigger] pair_value(s@[2 * k], s@[2 * k + 1])) is Some,
            forall|k: int| 0 <= k < i ==> out@[k] == pair_value(s@[2 * k], s@[2 * k + 1])->0,
        decreases 64 - i,
    {
        match parse_pair(s[2 * i], s[2 * i + 1]) {
            Some(b) => {
                out[i] = b;
            },
            None => {
                return None;
            },
        }
        i += 1;
    }
    assert(out@ =~= pairs_bytes(sig_str@));
    Some(out)
}

proof fn lemma_nibble_value(n: u8, upper: bool)
    requires
        n < 16,
    ensures
        hex_value(nibble_char(n, upper)) == Some(n),
        '\0' <= nibble_char(n, upper) <= '\u{7f}',
        nibble_char(n, upper) != '+',
{
}

/// Law: the upper-case hex text of 64 bytes decodes back to those bytes.
pub proof fn law_hex_roundtrip(bytes: Seq<u8>)
    requires
        bytes.len() == 64,
    ensures
        pairs_valid(hex_text(bytes, true)),
        pairs_bytes(hex_text(bytes, true)) == bytes,
        vstd::utf8::is_ascii_chars(hex_text(bytes, true)),
        hex_text(bytes, true).len() == 128,
{
    let t = hex_text(bytes, true);
    assert forall|i: int| 0 <= i < 64 implies
        #[trigger] pair_value(t[2 * i], t[2 * i + 1]) == Some(bytes[i]) by {
        assert((2 * i) / 2 == i && (2 * i) % 2 == 0);
        assert((2 * i + 1) / 2 == i && (2 * i + 1) % 2 == 1);
        lemma_nibble_value(bytes[i] / 16, true);
        lemma_nibble_value(bytes[i] % 16, true);
        assert((bytes[i] / 16) * 16 + bytes[i] % 16 == bytes[i]);
    }
    assert forall|j: int| 0 <= j < t.len() implies '\0' <= #[trigger] t[j] <= '\u{7f}' by {
        lemma_nibble_value(bytes[j / 2] / 16, true);
        lemma_nibble_value(bytes[j / 2] % 16, true);
    }
    assert(pairs_bytes(t) =~= bytes);
}

} // verus!
