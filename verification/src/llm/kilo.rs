//! Invoking the Kilo CLI: modes, and reading what it prints.
//!
//! Running the subprocess is I/O and happens outside this crate; what the
//! library decides is how the process's status and output become a response.

use vstd::prelude::*;
use vstd::utf8::{encode_utf8, valid_utf8};
use crate::llm::provider::LlmResponse;
use crate::text::{chars_of, string_from_chars, has_prefix, some_text};

verus! {

/// Mode for Kilo invocation.
#[derive(Clone, Copy, Debug)]
pub enum KiloMode {
    Code,
    Architect,
    Debug,
    Ask,
    Orchestrator,
}

/// The CLI flag of each mode.
pub open spec fn mode_flag(m: KiloMode) -> Seq<char> {
    match m {
        KiloMode::Code => "--code"@,
        KiloMode::Architect => "--architect"@,
        KiloMode::Debug => "--debug"@,
        KiloMode::Ask => "--ask"@,
        KiloMode::Orchestrator => "--orchestrator"@,
    }
}

/// The model name a mode reports: `kilo-` and the mode's name in lower case.
pub open spec fn mode_model(m: KiloMode) -> Seq<char> {
    match m {
        KiloMode::Code => "kilo-code"@,
        KiloMode::Architect => "kilo-architect"@,
        KiloMode::Debug => "kilo-debug"@,
        KiloMode::Ask => "kilo-ask"@,
        KiloMode::Orchestrator => "kilo-orchestrator"@,
    }
}

impl KiloMode {
    /// The CLI flag for this mode.
    pub fn as_flag(&self) -> (r: &'static str)
        ensures
            r@ == mode_flag(*self),
    {
        match self {
            KiloMode::Code => "--code",
            KiloMode::Architect => "--architect",
            KiloMode::Debug => "--debug",
            KiloMode::Ask => "--ask",
            KiloMode::Orchestrator => "--orchestrator",
        }
    }

    /// The model name reported for this mode.
    pub fn model_name(&self) -> (r: &'static str)
        ensures
            r@ == mode_model(*self),
    {
        match self {
            KiloMode::Code => "kilo-code",
            KiloMode::Architect => "kilo-architect",
            KiloMode::Debug => "kilo-debug",
            KiloMode::Ask => "kilo-ask",
            KiloMode::Orchestrator => "kilo-orchestrator",
        }
    }
}

/// Error types for Kilo operations.
#[derive(Debug)]
pub enum KiloError {
    BinaryNotFound,
    ExecutionFailed(String),
    InvalidOutput(String),
    SubprocessError(String),
}

impl KiloError {
    /// The error as it is displayed.
    pub fn message(&self) -> (r: String)
        ensures
            r@ == match *self {
                KiloError::BinaryNotFound => "Kilo binary not found"@,
                KiloError::ExecutionFailed(m) => "Execution failed: "@ + m@,
                KiloError::InvalidOutput(m) => "Invalid output: "@ + m@,
                KiloError::SubprocessError(m) => "Subprocess error: "@ + m@,
            },
    {
        match self {
            KiloError::BinaryNotFound => "Kilo binary not found".to_string(),
            KiloError::ExecutionFailed(m) => {
                let mut r = "Execution failed: ".to_string();
                r.append(m.as_str());
                r
            },
            KiloError::InvalidOutput(m) => {
                let mut r = "Invalid output: ".to_string();
                r.append(m.as_str());
                r
            },
            KiloError::SubprocessError(m) => {
                let mut r = "Subprocess error: ".to_string();
                r.append(m.as_str());
                r
            },
        }
    }
}

/// `char::is_whitespace`: the Unicode `White_Space` characters.
pub open spec fn is_ws(c: char) -> bool {
    ('\u{9}' <= c <= '\u{d}') || c == ' ' || c == '\u{85}' || c == '\u{a0}' || c == '\u{1680}'
        || ('\u{2000}' <= c <= '\u{200a}') || c == '\u{2028}' || c == '\u{2029}' || c == '\u{202f}'
        || c == '\u{205f}' || c == '\u{3000}'
}

pub open spec fn trim_front(s: Seq<char>) -> Seq<char>
    decreases s.len(),
{
    if s.len() > 0 && is_ws(s[0]) { trim_front(s.drop_first()) } else { s }
}

pub open spec fn trim_back(s: Seq<char>) -> Seq<char>
    decreases s.len(),
{
    if s.len() > 0 && is_ws(s.last()) { trim_back(s.drop_last()) } else { s }
}

/// `str::trim`: leading and trailing whitespace removed.
pub open spec fn trim(s: Seq<char>) -> Seq<char> {
    trim_back(trim_front(s))
}

pub open spec fn all_digits(d: Seq<char>) -> bool {
    forall|i: int| 0 <= i < d.len() ==> '0' <= #[trigger] d[i] <= '9'
}

/// The value of a run of decimal digits.
pub open spec fn digits_value(d: Seq<char>) -> nat
    decreases d.len(),
{
    if d.len() == 0 { 0 } else { digits_value(d.drop_last()) * 10 + ((d.last() as nat) - 48) as nat }
}

/// What `str::parse::<u64>` gives: digits after an optional `+`, in range.
pub open spec fn parse_u64(s: Seq<char>) -> Option<u64> {
    let d = if s.len() > 0 && s[0] == '+' { s.drop_first() } else { s };
    if d.len() == 0 || !all_digits(d) || digits_value(d) > u64::MAX {
        None
    } else {
        Some(digits_value(d) as u64)
    }
}

/// The pieces of `s` between separators `sep`, empty pieces included.
pub open spec fn split_on(s: Seq<char>, sep: char) -> Seq<Seq<char>>
    decreases s.len(),
{
    if s.len() == 0 {
        seq![Seq::<char>::empty()]
    } else {
        let prev = split_on(s.drop_last(), sep);
        if s.last() == sep {
            prev.push(Seq::<char>::empty())
        } else {
            prev.update(prev.len() - 1, prev.last().push(s.last()))
        }
    }
}

/// A line ended by `\n` loses one trailing `\r`.
pub open spec fn strip_cr(line: Seq<char>) -> Seq<char> {
    if line.len() > 0 && line.last() == '\r' { line.drop_last() } else { line }
}

/// The lines that a line feed has ended.
pub open spec fn ended_lines(s: Seq<char>) -> Seq<Seq<char>> {
    split_on(s, '\n').drop_last().map_values(|l: Seq<char>| strip_cr(l))
}

/// `str::lines`: lines split at `\n` (a `\r` just before it dropped), the
/// final line ending optional.
pub open spec fn str_lines(s: Seq<char>) -> Seq<Seq<char>> {
    let tail = split_on(s, '\n').last();
    if tail.len() == 0 { ended_lines(s) } else { ended_lines(s).push(tail) }
}

/// The lines `ls` joined by `\n`.
pub open spec fn join_lines(ls: Seq<Seq<char>>) -> Seq<char>
    decreases ls.len(),
{
    if ls.len() == 0 {
        Seq::empty()
    } else if ls.len() == 1 {
        ls[0]
    } else {
        join_lines(ls.drop_last()) + seq!['\n'] + ls.last()
    }
}

/// How one output line changes (token count, content lines): a `TOKENS:`
/// line sets the count (0 when it does not parse); another non-empty line is
/// content; an empty line is skipped.
pub open spec fn kilo_step(st: (u64, Seq<Seq<char>>), line: Seq<char>) -> (u64, Seq<Seq<char>>) {
    if has_prefix(line, "TOKENS:"@) {
        let v = parse_u64(trim(line.skip(7)));
        (if v is Some { v->0 } else { 0 }, st.1)
    } else if line.len() > 0 {
        (st.0, st.1.push(line))
    } else {
        st
    }
}

pub open spec fn kilo_fold(ls: Seq<Seq<char>>) -> (u64, Seq<Seq<char>>)
    decreases ls.len(),
{
    if ls.len() == 0 {
        (0, Seq::empty())
    } else {
        kilo_step(kilo_fold(ls.drop_last()), ls.last())
    }
}

/// What Kilo's output means: the content lines joined by `\n` and the token
/// count, or an error when there is no content.
pub open spec fn parse_output_spec(out: Seq<char>) -> Option<(Seq<char>, u64)> {
    let st = kilo_fold(str_lines(out));
    let content = join_lines(st.1);
    if content.len() == 0 { None } else { Some((content, st.0)) }
}

/// The content of parseable output.
pub open spec fn parsed_content(out: Seq<char>) -> Seq<char> {
    join_lines(kilo_fold(str_lines(out)).1)
}

/// The token count of parseable output.
pub open spec fn parsed_tokens(out: Seq<char>) -> u64 {
    kilo_fold(str_lines(out)).0
}

proof fn lemma_join_empty(ls: Seq<Seq<char>>)
    requires
        forall|j: int| 0 <= j < ls.len() ==> (#[trigger] ls[j]).len() > 0,
    ensures
        (join_lines(ls).len() == 0) == (ls.len() == 0),
{
    if ls.len() > 1 {
        assert(ls[ls.len() - 1].len() > 0);
    } else if ls.len() == 1 {
        assert(ls[0].len() > 0);
    }
}

fn is_ws_char(c: char) -> (r: bool)
    ensures
        r == is_ws(c),
{
    ('\u{9}' <= c && c <= '\u{d}') || c == ' ' || c == '\u{85}' || c == '\u{a0}' || c == '\u{1680}'
        || ('\u{2000}' <= c && c <= '\u{200a}') || c == '\u{2028}' || c == '\u{2029}' || c == '\u{202f}'
        || c == '\u{205f}' || c == '\u{3000}'
}

proof fn lemma_trim_front_skip(s: Seq<char>, k: int)
    requires
        0 <= k <= s.len(),
        forall|j: int| 0 <= j < k ==> is_ws(#[trigger] s[j]),
    ensures
        trim_front(s) == trim_front(s.skip(k)),
    decreases k,
{
    if k > 0 {
        assert(s.skip(1) =~= s.drop_first());
        lemma_trim_front_skip(s.drop_first(), k - 1);
        assert(s.drop_first().skip(k - 1) =~= s.skip(k));
    } else {
        assert(s.skip(0) =~= s);
    }
}

proof fn lemma_trim_back_take(s: Seq<char>, k: int)
    requires
        0 <= k <= s.len(),
        forall|j: int| k <= j < s.len() ==> is_ws(#[trigger] s[j]),
    ensures
        trim_back(s) == trim_back(s.take(k)),
    decreases s.len() - k,
{
    if k < s.len() {
        assert(s.take(s.len() - 1) =~= s.drop_last());
        lemma_trim_back_take(s.drop_last(), k);
        assert(s.drop_last().take(k) =~= s.take(k));
    } else {
        assert(s.take(k) =~= s);
    }
}

/// `s[from..]` with surrounding whitespace removed.
pub fn trim_from(s: &Vec<char>, from: usize) -> (r: Vec<char>)
    requires
        from <= s@.len(),
    ensures
        r@ == trim(s@.skip(from as int)),
{
    let ghost t = s@.skip(from as int);
    let mut a: usize = from;
    while a < s.len() && is_ws_char(s[a])
        invariant
            from <= a <= s@.len(),
            t == s@.skip(from as int),
            forall|j: int| 0 <= j < a - from ==> is_ws(#[trigger] t[j]),
        decreases s.len() - a,
    {
        a += 1;
    }
    proof {
        lemma_trim_front_skip(t, a - from);
        assert(t.skip(a - from) =~= s@.skip(a as int));
        assert(a < s@.len() ==> !is_ws(s@[a as int]));
        assert(trim_front(s@.skip(a as int)) == s@.skip(a as int));
    }
    let mut b: usize = s.len();
    while b > a && is_ws_char(s[b - 1])
        invariant
            a <= b <= s@.len(),
            forall|j: int| b <= j < s@.len() ==> is_ws(#[trigger] s@[j]),
        decreases b,
    {
        b -= 1;
    }
    let ghost u = s@.skip(a as int);
    proof {
        assert forall|j: int| b - a <= j < u.len() implies is_ws(#[trigger] u[j]) by {
            assert(u[j] == s@[a + j]);
        }
        lemma_trim_back_take(u, b - a);
        assert(u.take(b - a) =~= s@.subrange(a as int, b as int));
        if b > a {
            assert(s@.subrange(a as int, b as int).last() == s@[b - 1]);
        }
    }
    let mut out: Vec<char> = Vec::new();
    let mut i: usize = a;
    while i < b
        invariant
            a <= i <= b <= s@.len(),
            out@ =~= s@.subrange(a as int, i as int),
        decreases b - i,
    {
        out.push(s[i]);
        i += 1;
    }
    out
}

proof fn lemma_digits_push(d: Seq<char>, c: char)
    ensures
        digits_value(d.push(c)) == digits_value(d) * 10 + ((c as nat) - 48) as nat,
{
    assert(d.push(c).drop_last() =~= d);
}

/// `str::parse::<u64>` on characters.
fn parse_u64_chars(s: &Vec<char>) -> (r: Option<u64>)
    ensures
        r == parse_u64(s@),
{
    let start: usize = if s.len() > 0 && s[0] == '+' { 1 } else { 0 };
    let ghost d = if s@.len() > 0 && s@[0] == '+' { s@.drop_first() } else { s@ };
    assert(d =~= s@.skip(start as int));
    if start >= s.len() {
        return None;
    }
    let mut acc: u64 = 0;
    let mut i: usize = start;
    while i < s.len()
        invariant
            start <= i <= s@.len(),
            d =~= s@.skip(start as int),
            d == (if s@.len() > 0 && s@[0] == '+' { s@.drop_first() } else { s@ }),
            all_digits(d.take(i - start)),
            acc == digits_value(d.take(i - start)),
        decreases s.len() - i,
    {
        let c = s[i];
        assert(d.take(i + 1 - start) =~= d.take(i - start).push(c));
        if c < '0' || c > '9' {
            proof {
                let k: int = i - start;
                assert(d[k] == c);
                if all_digits(d) {
                    assert('0' <= d[k] <= '9');
                }
                assert(!all_digits(d));
                assert(parse_u64(s@) is None);
            }
            return None;
        }
        proof { lemma_digits_push(d.take(i - start), c); }
        let dv: u64 = (c as u64) - 48;
        assert(dv == ((c as nat) - 48) as nat);
        let ghost next = digits_value(d.take(i + 1 - start));
        assert(next == acc * 10 + dv);
        if acc > (u64::MAX - dv) / 10 {
            proof {
                assert(acc * 10 + dv > u64::MAX) by (nonlinear_arith)
                    requires acc > (u64::MAX - dv) / 10, dv <= 9;
                lemma_prefix_value_le(d, (i + 1 - start) as int);
                if all_digits(d) {
                    assert(digits_value(d) > u64::MAX);
                }
                assert(parse_u64(s@) is None);
            }
            return None;
        }
        assert(acc * 10 + dv <= u64::MAX) by (nonlinear_arith)
            requires acc <= (u64::MAX - dv) / 10, dv <= 9;
        acc = acc * 10 + dv;
        i += 1;
    }
    assert(d.take(d.len() as int) =~= d);
    Some(acc)
}

proof fn lemma_prefix_value_le(d: Seq<char>, k: int)
    requires
        0 <= k <= d.len(),
        all_digits(d) || true,
    ensures
        all_digits(d) ==> digits_value(d.take(k)) <= digits_value(d),
    decreases d.len() - k,
{
    if k < d.len() && all_digits(d) {
        lemma_prefix_value_le(d, k + 1);
        let t = d.take(k + 1);
        assert(t.drop_last() =~= d.take(k));
        assert(digits_value(t) == digits_value(d.take(k)) * 10 + ((t.last() as nat) - 48) as nat);
    } else if k == d.len() {
        assert(d.take(k) =~= d);
    }
}

/// Bridge to invoke the Kilo CLI as a subprocess.
pub struct KiloBridge {
    kilo_path: String,
}

impl KiloBridge {
    /// The path of the kilo binary.
    pub closed spec fn path(&self) -> Seq<char> {
        self.kilo_path@
    }

    /// Creates a bridge; the binary path defaults to `kilo`.
    pub fn new(kilo_path: Option<String>) -> (r: Self)
        ensures
            r.path() == match kilo_path {
                Some(p) => p@,
                None => "kilo"@,
            },
    {
        match kilo_path {
            Some(p) => KiloBridge { kilo_path: p },
            None => KiloBridge { kilo_path: "kilo".to_string() },
        }
    }

    /// The path of the kilo binary.
    pub fn kilo_path(&self) -> (r: &str)
        ensures
            r@ == self.path(),
    {
        self.kilo_path.as_str()
    }

    /// Parses Kilo's output: a `TOKENS: n` line gives the token count (the
    /// last such line wins, 0 when it does not parse) and the other non-empty
    /// lines, joined by `\n`, are the content. No content is an error.
    pub fn parse_output(output: &str) -> (r: Result<(String, u64), KiloError>)
        ensures
            parse_output_spec(output@) is None ==> (r matches Err(KiloError::InvalidOutput(m)) && m@ == "No content in output"@),
            parse_output_spec(output@) is Some ==> (r matches Ok(q) && q.0@ == parsed_content(output@) && q.1 == parsed_tokens(output@)),
    {
        let s = chars_of(output);
        let ghost sv = s@;
        let mut tokens: u64 = 0;
        let mut content: Vec<char> = Vec::new();
        let mut n_lines: usize = 0;
        let ghost mut lines: Seq<Seq<char>> = Seq::empty();
        let mut cur: Vec<char> = Vec::new();
        let mut i: usize = 0;
        assert(sv.take(0) =~= Seq::<char>::empty());
        assert(ended_lines(sv.take(0)) =~= Seq::<Seq<char>>::empty());
        while i < s.len()
            invariant
                sv == s@,
                i <= sv.len(),
                split_on(sv.take(i as int), '\n').len() > 0,
                cur@ == split_on(sv.take(i as int), '\n').last(),
                (tokens, lines) == kilo_fold(ended_lines(sv.take(i as int))),
                content@ == join_lines(lines),
                forall|j: int| 0 <= j < lines.len() ==> (#[trigger] lines[j]).len() > 0,
            decreases s.len() - i,
        {
            let ghost segs = split_on(sv.take(i as int), '\n');
            assert(sv.take(i + 1).drop_last() =~= sv.take(i as int));
            let c = s[i];
            if c == '\n' {
                let line = Self::strip_cr_vec(&cur);
                let ghost before = (tokens, lines);
                proof {
                    let nsegs = split_on(sv.take(i + 1), '\n');
                    assert(nsegs =~= segs.push(Seq::<char>::empty()));
                    assert(nsegs.drop_last() =~= segs);
                    assert(segs =~= segs.drop_last().push(segs.last()));
                    assert(ended_lines(sv.take(i + 1)) =~= ended_lines(sv.take(i as int)).push(strip_cr(segs.last())));
                }
                let Ghost(nl) = Self::step(&line, &mut tokens, &mut content, Ghost(lines));
                proof {
                    lines = nl;
                    assert(ended_lines(sv.take(i + 1)).drop_last() =~= ended_lines(sv.take(i as int)));
                }
                cur = Vec::new();
            } else {
                cur.push(c);
                proof {
                    let nsegs = split_on(sv.take(i + 1), '\n');
                    assert(nsegs.drop_last() =~= segs.drop_last());
                    assert(ended_lines(sv.take(i + 1)) =~= ended_lines(sv.take(i as int)));
                }
            }
            i += 1;
        }
        assert(sv.take(sv.len() as int) =~= sv);
        if cur.len() > 0 {
            let Ghost(nl) = Self::step(&cur, &mut tokens, &mut content, Ghost(lines));
            proof {
                lines = nl;
                assert(str_lines(sv).drop_last() =~= ended_lines(sv));
            }
        }
        assert((tokens, lines) == kilo_fold(str_lines(sv)));
        if content.len() == 0 {
            return Err(KiloError::InvalidOutput("No content in output".to_string()));
        }
        Ok((string_from_chars(content.as_slice()), tokens))
    }

    fn strip_cr_vec(line: &Vec<char>) -> (r: Vec<char>)
        ensures
            r@ == strip_cr(line@),
    {
        let mut out = line.clone();
        if out.len() > 0 && out[out.len() - 1] == '\r' {
            out.pop();
        }
        assert(line@.len() > 0 && line@.last() == '\r' ==> out@ =~= line@.drop_last());
        out
    }

    fn step(
        line: &Vec<char>,
        tokens: &mut u64,
        content: &mut Vec<char>,
        Ghost(lines): Ghost<Seq<Seq<char>>>,
    ) -> (new_lines: Ghost<Seq<Seq<char>>>)
        requires
            old(content)@ == join_lines(lines),
            forall|j: int| 0 <= j < lines.len() ==> (#[trigger] lines[j]).len() > 0,
        ensures
            (*final(tokens), new_lines@) == kilo_step((*old(tokens), lines), line@),
            final(content)@ == join_lines(new_lines@),
            forall|j: int| 0 <= j < new_lines@.len() ==> (#[trigger] new_lines@[j]).len() > 0,
    {
        let prefix = chars_of("TOKENS:");
        proof { reveal_strlit("TOKENS:"); }
        if crate::text::starts_with_chars(line.as_slice(), prefix.as_slice()) {
            assert(prefix@ == "TOKENS:"@);
            let rest = trim_from(line, 7);
            *tokens = match parse_u64_chars(&rest) {
                Some(v) => v,
                None => 0,
            };
            Ghost(lines)
        } else if line.len() > 0 {
            let ghost before = lines;
            proof { lemma_join_empty(before); }
            if content.len() > 0 {
                content.push('\n');
            }
            let mut k: usize = 0;
            let ghost start = content@;
            while k < line.len()
                invariant
                    k <= line@.len(),
                    content@ == start + line@.take(k as int),
                decreases line.len() - k,
            {
                content.push(line[k]);
                assert(line@.take(k + 1) =~= line@.take(k as int).push(line@[k as int]));
                k += 1;
            }
            assert(line@.take(line@.len() as int) =~= line@);
            let ghost after = before.push(line@);
            proof {
                assert(after.drop_last() =~= before);
                if before.len() == 0 {
                    assert(content@ =~= line@);
                } else {
                    assert(content@ =~= join_lines(before) + seq!['\n'] + line@);
                }
            }
            Ghost(after)
        } else {
            Ghost(lines)
        }
    }

    /// Turns a finished Kilo run into a response: a failed run is
    /// `ExecutionFailed` with its stderr text, output that is not UTF-8 is
    /// `InvalidOutput`, and otherwise the output is parsed.
    pub fn finish(mode: KiloMode, success: bool, stdout: Vec<u8>, stderr: &[u8]) -> (r: Result<LlmResponse, KiloError>)
        ensures
            !success ==> (r matches Err(KiloError::ExecutionFailed(m)) && m@ == utf8_lossy_text(stderr@)),
            success && !valid_utf8(stdout@) ==> r matches Err(KiloError::InvalidOutput(_)),
            success && valid_utf8(stdout@) ==> exists|text: Seq<char>| encode_utf8(text) == stdout@ && {
                match parse_output_spec(text) {
                    None => (r matches Err(KiloError::InvalidOutput(m)) && m@ == "No content in output"@),
                    Some(p) => (r matches Ok(resp) && resp.content@ == p.0 && resp.tokens_used == p.1
                        && resp.model_used@ == mode_model(mode)),
                }
            },
    {
        if !success {
            return Err(KiloError::ExecutionFailed(utf8_lossy(stderr)));
        }
        let text = match decode_utf8(stdout) {
            Ok(t) => t,
            Err(msg) => {
                let mut m = "Invalid UTF-8: ".to_string();
                m.append(msg.as_str());
                return Err(KiloError::InvalidOutput(m));
            },
        };
        let (content, tokens_used) = match Self::parse_output(text.as_str()) {
            Ok(p) => p,
            Err(e) => return Err(e),
        };
        Ok(LlmResponse { content, model_used: mode.model_name().to_string(), tokens_used })
    }
}

/// The text `String::from_utf8_lossy` makes of some bytes (invalid sequences
/// replaced by U+FFFD).
pub uninterp spec fn utf8_lossy_text(b: Seq<u8>) -> Seq<char>;

/// Trusted: `String::from_utf8_lossy(bytes).to_string()`, named [`utf8_lossy_text`].
#[verifier::external_body]
fn utf8_lossy(bytes: &[u8]) -> (r: String)
    ensures
        r@ == utf8_lossy_text(bytes@),
{
    String::from_utf8_lossy(bytes).to_string()
}

/// Trusted: `String::from_utf8`, which std documents as succeeding exactly on
/// valid UTF-8 and then holding the decoded characters; the error's text is
/// its `Display` and is not stated.
#[verifier::external_body]
fn decode_utf8(bytes: Vec<u8>) -> (r: Result<String, String>)
    ensures
        r is Ok <==> valid_utf8(bytes@),
        r matches Ok(s) ==> encode_utf8(s@) == bytes@,
{
    String::from_utf8(bytes).map_err(|e| e.to_string())
}

} // verus!
