//! Where each AMS call goes and what it sends: URLs, headers, timeouts and
//! request bodies, and the arrays read out of list replies.

use vstd::prelude::*;
use vstd::utf8::encode_utf8;
use crate::json::{Json, JsonNumber, JsonV, NumV, jget, jtext};
use crate::security::hex::nibble_char;
use crate::agent::runtime::worker::{entry, opt_view, opt_json_view};

verus! {

/// Bytes left as they are in a URL component: ASCII letters and digits and
/// `-`, `.`, `_`, `~`.
pub open spec fn unreserved(b: u8) -> bool {
    (0x30 <= b <= 0x39) || (0x41 <= b <= 0x5a) || (0x61 <= b <= 0x7a) || b == 0x2d || b == 0x2e || b == 0x5f || b == 0x7e
}

/// One byte of a URL component: itself when unreserved, else `%` and two
/// upper-case hex digits.
pub open spec fn encoded_byte(b: u8) -> Seq<char> {
    if unreserved(b) { seq![b as char] } else { seq!['%', nibble_char(b / 16, true), nibble_char(b % 16, true)] }
}

/// Percent-encoding of bytes, byte by byte.
pub open spec fn url_encoded(bytes: Seq<u8>) -> Seq<char>
    decreases bytes.len(),
{
    if bytes.len() == 0 {
        Seq::empty()
    } else {
        url_encoded(bytes.drop_last()) + encoded_byte(bytes.last())
    }
}

/// Percent-encodes text for use in a URL.
///
/// Trusted: calls `urlencoding::encode`, which encodes every UTF-8 byte
/// except ASCII alphanumerics and `-`, `.`, `_`, `~` as `%` followed by two
/// upper-case hex digits, as [`url_encoded`] states.
#[verifier::external_body]
pub(crate) fn url_encode(s: &str) -> (r: String)
    ensures
        r@ == url_encoded(encode_utf8(s@)),
{
    urlencoding::encode(s).into_owned()
}

/// Characters that would end or restructure a URL path segment.
pub open spec fn segment_breaking(c: char) -> bool {
    c == '/' || c == '?' || c == '#' || c == '&' || c == '=' || c == ' '
}

proof fn lemma_encoded_byte_safe(b: u8)
    ensures
        forall|i: int| 0 <= i < encoded_byte(b).len() ==> !segment_breaking(#[trigger] encoded_byte(b)[i]),
{
    if unreserved(b) {
        assert(encoded_byte(b)[0] == b as char);
        assert(!segment_breaking(b as char)) by {
            assert((b as char) as u32 == b as u32);
        }
    } else {
        let hi = b / 16;
        let lo = b % 16;
        assert(nibble_char(hi, true) as u32 >= 48);
        assert(nibble_char(lo, true) as u32 >= 48);
    }
}

/// Law: an encoded value cannot break out of its place in a URL. Whatever
/// an agent id, session id or prefix holds, its encoding has no `/`, `?`,
/// `#`, `&`, `=` or space, so it stays one path segment or one query value.
pub proof fn law_encoded_text_stays_in_its_segment(bytes: Seq<u8>)
    ensures
        forall|i: int| 0 <= i < url_encoded(bytes).len() ==> !segment_breaking(#[trigger] url_encoded(bytes)[i]),
    decreases bytes.len(),
{
    if bytes.len() > 0 {
        law_encoded_text_stays_in_its_segment(bytes.drop_last());
        lemma_encoded_byte_safe(bytes.last());
        let a = url_encoded(bytes.drop_last());
        let e = encoded_byte(bytes.last());
        assert forall|i: int| 0 <= i < url_encoded(bytes).len() implies !segment_breaking(#[trigger] url_encoded(bytes)[i]) by {
            if i < a.len() {
                assert(url_encoded(bytes)[i] == a[i]);
            } else {
                assert(url_encoded(bytes)[i] == e[i - a.len()]);
            }
        }
    }
}

/// `s` without its trailing `/` characters.
pub open spec fn without_trailing_slashes(s: Seq<char>) -> Seq<char>
    decreases s.len(),
{
    if s.len() > 0 && s.last() == '/' { without_trailing_slashes(s.drop_last()) } else { s }
}

/// The shortest LLM call timeout: three minutes.
pub const MIN_LLM_TIMEOUT_MS: u64 = 180_000;

/// How to reach AMS: the base URL (no trailing `/`), the API key and the
/// request timeout.
pub struct AmsEndpoints {
    pub base_url: String,
    pub api_key: String,
    pub request_timeout_ms: u64,
}

impl AmsEndpoints {
    /// Sets up the endpoints from the configured URL, key and timeout.
    pub fn new(url: &str, api_key: &str, request_timeout_ms: u64) -> (r: Self)
        ensures
            r.base_url@ == without_trailing_slashes(url@),
            r.api_key@ == api_key@,
            r.request_timeout_ms == request_timeout_ms,
    {
        let c = crate::text::chars_of(url);
        let mut n: usize = c.len();
        assert(c@.take(c@.len() as int) =~= c@);
        while n > 0 && c[n - 1] == '/'
            invariant
                n <= c@.len(),
                without_trailing_slashes(c@) == without_trailing_slashes(c@.take(n as int)),
            decreases n,
        {
            assert(c@.take(n as int).drop_last() =~= c@.take(n - 1));
            n = n - 1;
        }
        let mut head: Vec<char> = Vec::new();
        let mut i: usize = 0;
        while i < n
            invariant
                i <= n <= c@.len(),
                head@ =~= c@.take(i as int),
            decreases n - i,
        {
            head.push(c[i]);
            i += 1;
        }
        AmsEndpoints {
            base_url: crate::text::string_from_chars(head.as_slice()),
            api_key: api_key.to_string(),
            request_timeout_ms,
        }
    }

    /// Whether requests carry the `X-API-Key` header: only when a key is set.
    pub fn sends_api_key(&self) -> (r: bool)
        ensures
            r == (self.api_key@.len() > 0),
    {
        !self.api_key.as_str().is_empty()
    }

    /// The timeout of an LLM call: the request timeout, but at least three
    /// minutes.
    pub fn llm_timeout_ms(&self) -> (r: u64)
        ensures
            r == if self.request_timeout_ms > MIN_LLM_TIMEOUT_MS { self.request_timeout_ms } else { MIN_LLM_TIMEOUT_MS },
    {
        if self.request_timeout_ms > MIN_LLM_TIMEOUT_MS { self.request_timeout_ms } else { MIN_LLM_TIMEOUT_MS }
    }

    /// The base URL followed by `path`.
    pub fn url(&self, path: &str) -> (r: String)
        ensures
            r@ == self.base_url@ + path@,
    {
        let mut r = self.base_url.clone();
        r.append(path);
        r
    }

    /// Where an agent's steering messages are polled and sent.
    pub fn agent_messages_url(&self, agent_id: &str) -> (r: String)
        ensures
            r@ == self.base_url@ + "/api/warden/agents/"@ + url_encoded(encode_utf8(agent_id@)) + "/messages"@,
    {
        let mut r = self.url("/api/warden/agents/");
        r.append(url_encode(agent_id).as_str());
        r.append("/messages");
        r
    }

    /// Where an execution's chunks are emitted (the id is used as given).
    pub fn execution_chunk_url(&self, execution_id: &str) -> (r: String)
        ensures
            r@ == self.base_url@ + "/api/fleet/executions/"@ + execution_id@ + "/emit"@,
    {
        let mut r = self.url("/api/fleet/executions/");
        r.append(execution_id);
        r.append("/emit");
        r
    }

    /// Where an assistant message is posted into a dashboard chat session.
    pub fn chat_message_url(&self, session_id: &str) -> (r: String)
        ensures
            r@ == self.base_url@ + "/api/v1/chat/sessions/"@ + url_encoded(encode_utf8(session_id@)) + "/assistant-message"@,
    {
        let mut r = self.url("/api/v1/chat/sessions/");
        r.append(url_encode(session_id).as_str());
        r.append("/assistant-message");
        r
    }

    /// Where agents are listed: up to 500, restricted to a name prefix when
    /// one is given and not empty.
    pub fn agents_url(&self, prefix: Option<&str>) -> (r: String)
        ensures
            r@ == match prefix {
                Some(p) if p@.len() > 0 => self.base_url@ + "/api/v1/agents?limit=500&name_prefix="@ + url_encoded(encode_utf8(p@)),
                _ => self.base_url@ + "/api/v1/agents?limit=500"@,
            },
    {
        match prefix {
            Some(p) => {
                if !p.is_empty() {
                    let mut r = self.url("/api/v1/agents?limit=500&name_prefix=");
                    r.append(url_encode(p).as_str());
                    return r;
                }
                self.url("/api/v1/agents?limit=500")
            },
            None => self.url("/api/v1/agents?limit=500"),
        }
    }

    /// Where an observatory execution is read.
    pub fn execution_url(&self, execution_id: &str) -> (r: String)
        ensures
            r@ == self.base_url@ + "/observatory/executions/"@ + url_encoded(encode_utf8(execution_id@)),
    {
        let mut r = self.url("/observatory/executions/");
        r.append(url_encode(execution_id).as_str());
        r
    }
}

/// The body of a steering message: its type, content and sender, with the
/// metadata when there is any.
pub open spec fn steering_body(msg_type: Seq<char>, content: Seq<char>, sender: Seq<char>, metadata: Option<JsonV>) -> JsonV {
    let base = seq![("type"@, jtext(msg_type)), ("content"@, jtext(content)), ("sender"@, jtext(sender))];
    JsonV::Object(match metadata {
        Some(m) => base.push(("metadata"@, m)),
        None => base,
    })
}

/// Builds the body of a steering message.
pub fn steering_payload(msg_type: &str, content: &str, sender: &str, metadata: Option<&Json>) -> (r: Json)
    ensures
        r@ == steering_body(msg_type@, content@, sender@, opt_json_view(metadata)),
{
    let mut v: Vec<(String, Json)> = Vec::new();
    v.push(entry("type", Json::text(msg_type)));
    v.push(entry("content", Json::text(content)));
    v.push(entry("sender", Json::text(sender)));
    if let Some(m) = metadata {
        v.push(entry("metadata", m.deep_clone()));
    }
    let r = Json::Object(v);
    assert(r@->Object_0 =~= steering_body(msg_type@, content@, sender@, opt_json_view(metadata))->Object_0);
    r
}

/// The body of a dashboard chat message: its content and source agent, with
/// the model when known.
pub open spec fn chat_body(content: Seq<char>, source: Seq<char>, model: Option<Seq<char>>) -> JsonV {
    let base = seq![("content"@, jtext(content)), ("source_agent_id"@, jtext(source))];
    JsonV::Object(match model {
        Some(m) => base.push(("model"@, jtext(m))),
        None => base,
    })
}

/// Builds the body of a dashboard chat message.
pub fn chat_payload(content: &str, source_agent_id: &str, model: Option<&str>) -> (r: Json)
    ensures
        r@ == chat_body(content@, source_agent_id@, opt_view(model)),
{
    let mut v: Vec<(String, Json)> = Vec::new();
    v.push(entry("content", Json::text(content)));
    v.push(entry("source_agent_id", Json::text(source_agent_id)));
    if let Some(m) = model {
        v.push(entry("model", Json::text(m)));
    }
    let r = Json::Object(v);
    assert(r@->Object_0 =~= chat_body(content@, source_agent_id@, opt_view(model))->Object_0);
    r
}

/// The body of a memory search.
pub fn search_payload(query: &str, limit: u32) -> (r: Json)
    ensures
        r@ == JsonV::Object(seq![("query"@, jtext(query@)), ("limit"@, JsonV::Number(NumV::PosInt(limit as u64)))]),
{
    let mut v: Vec<(String, Json)> = Vec::new();
    v.push(entry("query", Json::text(query)));
    v.push(entry("limit", Json::Number(JsonNumber::PosInt(limit as u64))));
    let r = Json::Object(v);
    assert(r@->Object_0 =~= seq![("query"@, jtext(query@)), ("limit"@, JsonV::Number(NumV::PosInt(limit as u64)))]);
    r
}

/// The body of a goal task, marked as coming from the orchestrator.
pub open spec fn goal_body(title: Seq<char>, description: Seq<char>, priority: Seq<char>, creator: Seq<char>) -> JsonV {
    JsonV::Object(seq![
        ("title"@, jtext(title)),
        ("description"@, jtext(description)),
        ("priority"@, jtext(priority)),
        ("created_by"@, jtext(creator)),
        ("source"@, jtext("abot-orchestrator"@)),
    ])
}

/// Builds the body of a goal task.
pub fn goal_payload(title: &str, description: &str, priority: &str, creator_agent_id: &str) -> (r: Json)
    ensures
        r@ == goal_body(title@, description@, priority@, creator_agent_id@),
{
    let mut v: Vec<(String, Json)> = Vec::new();
    v.push(entry("title", Json::text(title)));
    v.push(entry("description", Json::text(description)));
    v.push(entry("priority", Json::text(priority)));
    v.push(entry("created_by", Json::text(creator_agent_id)));
    v.push(entry("source", Json::text("abot-orchestrator")));
    let r = Json::Object(v);
    assert(r@->Object_0 =~= goal_body(title@, description@, priority@, creator_agent_id@)->Object_0);
    r
}

/// The elements of a reply's array member (none when it is missing or not
/// an array): `results` of a search, `agents` of a listing.
pub open spec fn array_member(resp: JsonV, key: Seq<char>) -> Seq<JsonV> {
    match jget(resp, key) {
        Some(JsonV::Array(items)) => items,
        _ => Seq::empty(),
    }
}

/// Copies out a reply's array member.
pub fn array_items(resp: &Json, key: &str) -> (r: Vec<Json>)
    ensures
        crate::agent::runtime::toolsets::defs_view(r@) == array_member(resp@, key@),
{
    let mut out: Vec<Json> = Vec::new();
    match resp.get(key) {
        Some(v) => match v.as_array() {
            Some(items) => {
                let mut i: usize = 0;
                while i < items.len()
                    invariant
                        i <= items@.len(),
                        out@.len() == i,
                        v@ is Array,
                        v@->Array_0.len() == items@.len(),
                        forall|k: int| 0 <= k < items@.len() ==> #[trigger] v@->Array_0[k] == items@[k]@,
                        forall|k: int| 0 <= k < i ==> #[trigger] out@[k]@ == items@[k]@,
                    decreases items.len() - i,
                {
                    out.push(items[i].deep_clone());
                    i += 1;
                }
                assert(crate::agent::runtime::toolsets::defs_view(out@) =~= array_member(resp@, key@));
            },
            None => {
                assert(crate::agent::runtime::toolsets::defs_view(out@) =~= array_member(resp@, key@));
            },
        },
        None => {
            assert(crate::agent::runtime::toolsets::defs_view(out@) =~= array_member(resp@, key@));
        },
    }
    out
}

} // verus!
