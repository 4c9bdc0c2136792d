//! Chat responses and the chunked streaming decoder.
//!
//! The streaming protocol carries one JSON record per `data: ` line over
//! an HTTP body. [`ChunkedEventDecoder`] turns arbitrary byte chunks into
//! an ordered sequence of emitted strings: generated text, rendered
//! tool-call fragments, or diagnostic markers for malformed lines. One
//! corrupt line never stops the stream: a marker is emitted and decoding
//! goes on.

use crate::chat::data::{Choice, ToolCall, Usage, WebSearchResponse};
use crate::json::{
    json_parse, lookup, parsed_json, spec_lookup, spec_str_field, spec_u32_field, JsonValue,
};
use crate::lines::{split_lines, LineFrameExtractor};
use crate::rtav::value::{
    opt_str_field, opt_u32_field, opt_u64_field, req_str_field, spec_opt_str, spec_opt_u32,
    spec_opt_u64, spec_opt_view,
};
use crate::utf8buf::{scan, utf8_string, ByteAccumulator};
use vstd::prelude::*;
use vstd::utf8::{decode_utf8, valid_utf8};

verus! {

broadcast use vstd::utf8::valid_utf8_concat;

/// A complete, non-streaming chat answer. Single-shot deserialization is
/// an outer concern; this crate holds the values.
#[derive(Debug, PartialEq)]
pub struct ChatApiResponse {
    pub id: Option<String>,
    pub created: Option<u64>,
    pub model: Option<String>,
    pub choices: Option<Vec<Choice>>,
    pub request_id: Option<String>,
    pub usage: Option<Usage>,
    pub web_search: Option<Vec<WebSearchResponse>>,
}

impl ChatApiResponse {
    /// The answer's choices, when there are any.
    pub fn get_choices(&self) -> (r: Option<&Vec<Choice>>)
        ensures
            match r {
                Some(cs) => self.choices == Some(*cs),
                None => self.choices is None,
            },
    {
        self.choices.as_ref()
    }

    /// The web-search results consulted, if any.
    pub fn get_web_search(&self) -> (r: &Option<Vec<WebSearchResponse>>)
        ensures
            *r == self.web_search,
    {
        &self.web_search
    }
}

/// The incremental change one streamed record carries for one choice.
#[derive(Debug, PartialEq)]
pub struct Delta {
    pub role: String,
    pub content: Option<String>,
    pub tool_calls: Option<Vec<ToolCall>>,
}

/// One choice of one streamed record.
#[derive(Debug, PartialEq)]
pub struct ChoiceStream {
    pub index: u32,
    pub delta: Delta,
}

/// The text a tool-call fragment renders to when handed to the caller.
pub open spec fn tool_call_text(t: ToolCall) -> Seq<char> {
    t.name@ + "("@ + t.arguments@ + ")"@
}

/// The concatenated rendering of a list of tool-call fragments.
pub open spec fn tool_calls_text(ts: Seq<ToolCall>) -> Seq<char>
    decreases ts.len(),
{
    if ts.len() == 0 {
        Seq::<char>::empty()
    } else {
        tool_call_text(ts[0]) + tool_calls_text(ts.skip(1))
    }
}

impl ChoiceStream {
    /// The choice's new text, or empty when this record carries none.
    pub fn get_content(&self) -> (r: String)
        ensures
            match self.delta.content {
                Some(c) => r@ == c@,
                None => r@ == Seq::<char>::empty(),
            },
    {
        match &self.delta.content {
            Some(c) => c.clone(),
            None => String::new(),
        }
    }

    /// The choice's tool-call fragments, rendered one after another as
    /// `name(arguments)`; empty when the record carries none.
    pub fn get_tool_calls(&self) -> (r: String)
        ensures
            match self.delta.tool_calls {
                Some(ts) => r@ == tool_calls_text(ts@),
                None => r@ == Seq::<char>::empty(),
            },
    {
        let mut out = String::new();
        let ts = match &self.delta.tool_calls {
            Some(ts) => ts,
            None => {
                return out;
            },
        };
        let n = ts.len();
        let mut i: usize = 0;
        proof {
            assert(ts@.skip(0) =~= ts@);
        }
        while i < n
            invariant
                n == ts@.len(),
                0 <= i <= n,
                out@ + tool_calls_text(ts@.skip(i as int)) == tool_calls_text(ts@),
            decreases n - i,
        {
            proof {
                assert(ts@.skip(i as int)[0] == ts@[i as int]);
                assert(ts@.skip(i as int).skip(1) =~= ts@.skip(i as int + 1));
            }
            out.append(ts[i].name.as_str());
            out.append("(");
            out.append(ts[i].arguments.as_str());
            out.append(")");
            i = i + 1;
        }
        proof {
            assert(tool_calls_text(ts@.skip(n as int)) =~= Seq::<char>::empty());
            assert(out@ =~= out@ + tool_calls_text(ts@.skip(n as int)));
        }
        out
    }
}

/// One streamed record: the incremental answer shape.
#[derive(Debug, PartialEq)]
pub struct ChatApiResponseStream {
    pub id: Option<String>,
    pub created: Option<u64>,
    pub model: Option<String>,
    pub choices: Option<Vec<ChoiceStream>>,
    pub usage: Option<Usage>,
    pub web_search: Option<Vec<WebSearchResponse>>,
}

/// The shape one tool-call fragment must have on the wire.
pub open spec fn tool_call_json_ok(v: JsonValue) -> bool {
    match v {
        JsonValue::Obj(es) => {
            &&& spec_str_field(es@, "id"@) is Some
            &&& spec_str_field(es@, "type"@) is Some
            &&& spec_str_field(es@, "name"@) is Some
            &&& spec_str_field(es@, "arguments"@) is Some
        },
        _ => false,
    }
}

/// How a parsed tool-call fragment relates to its frame.
pub open spec fn tool_call_parsed(t: ToolCall, v: JsonValue) -> bool {
    match v {
        JsonValue::Obj(es) => {
            &&& spec_str_field(es@, "id"@) == Some(t.id@)
            &&& spec_str_field(es@, "type"@) == Some(t.kind@)
            &&& spec_str_field(es@, "name"@) == Some(t.name@)
            &&& spec_str_field(es@, "arguments"@) == Some(t.arguments@)
        },
        _ => false,
    }
}

/// Reads one tool-call fragment.
fn tool_call_from_json(v: &JsonValue) -> (r: Option<ToolCall>)
    ensures
        r is Some <==> tool_call_json_ok(*v),
        match r {
            Some(t) => tool_call_parsed(t, *v),
            None => true,
        },
{
    let es = match v.as_obj() {
        Some(es) => es,
        None => {
            return None;
        },
    };
    let id = match req_str_field(es, "id") {
        Ok(s) => s,
        Err(_) => {
            return None;
        },
    };
    let kind = match req_str_field(es, "type") {
        Ok(s) => s,
        Err(_) => {
            return None;
        },
    };
    let name = match req_str_field(es, "name") {
        Ok(s) => s,
        Err(_) => {
            return None;
        },
    };
    let arguments = match req_str_field(es, "arguments") {
        Ok(s) => s,
        Err(_) => {
            return None;
        },
    };
    Some(ToolCall { id, kind, name, arguments })
}

/// The shape one streamed choice must have: a delta object with a
/// required role; the index is optional and reads as zero when absent,
/// so a record that carries only the delta decodes.
pub open spec fn choice_stream_json_ok(v: JsonValue) -> bool {
    match v {
        JsonValue::Obj(es) => {
            &&& spec_opt_u32(es@, "index"@) is Some
            &&& match spec_lookup(es@, "delta"@) {
                Some(JsonValue::Obj(des)) => {
                    &&& spec_str_field(des@, "role"@) is Some
                    &&& spec_opt_str(des@, "content"@) is Some
                    &&& match spec_lookup(des@, "tool_calls"@) {
                        None => true,
                        Some(JsonValue::Null) => true,
                        Some(JsonValue::Arr(xs)) => forall|j: int|
                            0 <= j < xs@.len() ==> #[trigger] tool_call_json_ok(xs@[j]),
                        Some(_) => false,
                    }
                },
                _ => false,
            }
        },
        _ => false,
    }
}

/// How a parsed streamed choice relates to its frame.
pub open spec fn choice_stream_parsed(c: ChoiceStream, v: JsonValue) -> bool {
    match v {
        JsonValue::Obj(es) => {
            &&& (match spec_opt_u32(es@, "index"@) {
                Some(Some(n)) => c.index == n,
                Some(None) => c.index == 0,
                None => false,
            })
            &&& match spec_lookup(es@, "delta"@) {
                Some(JsonValue::Obj(des)) => {
                    &&& spec_str_field(des@, "role"@) == Some(c.delta.role@)
                    &&& spec_opt_str(des@, "content"@) == Some(spec_opt_view(c.delta.content))
                    &&& match spec_lookup(des@, "tool_calls"@) {
                        None => c.delta.tool_calls is None,
                        Some(JsonValue::Null) => c.delta.tool_calls is None,
                        Some(JsonValue::Arr(xs)) => c.delta.tool_calls matches Some(ts)
                            && ts@.len() == xs@.len() && (forall|j: int|
                            0 <= j < xs@.len() ==> #[trigger] tool_call_parsed(ts@[j], xs@[j])),
                        Some(_) => false,
                    }
                },
                _ => false,
            }
        },
        _ => false,
    }
}

/// Reads one streamed choice.
fn choice_stream_from_json(v: &JsonValue) -> (r: Option<ChoiceStream>)
    ensures
        r is Some <==> choice_stream_json_ok(*v),
        match r {
            Some(c) => choice_stream_parsed(c, *v),
            None => true,
        },
{
    let es = match v.as_obj() {
        Some(es) => es,
        None => {
            return None;
        },
    };
    let index = match opt_u32_field(es, "index") {
        Ok(Some(n)) => n,
        Ok(None) => 0,
        Err(_) => {
            return None;
        },
    };
    let des = match lookup(es, "delta") {
        Some(JsonValue::Obj(des)) => des,
        _ => {
            return None;
        },
    };
    let role = match req_str_field(des, "role") {
        Ok(s) => s,
        Err(_) => {
            return None;
        },
    };
    let content = match opt_str_field(des, "content") {
        Ok(o) => o,
        Err(_) => {
            return None;
        },
    };
    let tool_calls = match lookup(des, "tool_calls") {
        None => None,
        Some(JsonValue::Null) => None,
        Some(JsonValue::Arr(xs)) => {
            let mut ts: Vec<ToolCall> = Vec::new();
            let n = xs.len();
            let mut j: usize = 0;
            while j < n
                invariant
                    n == xs@.len(),
                    0 <= j <= n,
                    ts@.len() == j,
                    *v == JsonValue::Obj(*es),
                    spec_lookup(es@, "delta"@) == Some(JsonValue::Obj(*des)),
                    spec_lookup(des@, "tool_calls"@) == Some(JsonValue::Arr(*xs)),
                    forall|k: int|
                        0 <= k < j ==> tool_call_json_ok(#[trigger] xs@[k]) && tool_call_parsed(
                            ts@[k],
                            xs@[k],
                        ),
                decreases n - j,
            {
                let xj = &xs[j];
                proof {
                    assert(*xj == xs@[j as int]);
                }
                let tcr = tool_call_from_json(xj);
                match tcr {
                    Some(t) => ts.push(t),
                    None => {
                        proof {
                            if choice_stream_json_ok(*v) {
                                assert((*v)->Obj_0 == *es);
                                assert(match spec_lookup(es@, "delta"@) {
                                    Some(JsonValue::Obj(des2)) => {
                                        &&& spec_str_field(des2@, "role"@) is Some
                                        &&& spec_opt_str(des2@, "content"@) is Some
                                        &&& match spec_lookup(des2@, "tool_calls"@) {
                                            None => true,
                                            Some(JsonValue::Null) => true,
                                            Some(JsonValue::Arr(xs2)) => forall|k: int|
                                                0 <= k < xs2@.len()
                                                    ==> #[trigger] tool_call_json_ok(xs2@[k]),
                                            Some(_) => false,
                                        }
                                    },
                                    _ => false,
                                });
                                assert(tool_call_json_ok(xs@[j as int]));
                                assert(false);
                            }
                        }
                        return None;
                    },
                }
                j = j + 1;
            }
            Some(ts)
        },
        Some(_) => {
            return None;
        },
    };
    Some(ChoiceStream { index, delta: Delta { role, content, tool_calls } })
}

/// The shape a chat token-usage payload must have: its three counters.
pub open spec fn chat_usage_json_ok(v: JsonValue) -> bool {
    match v {
        JsonValue::Obj(es) => {
            &&& spec_u32_field(es@, "prompt_tokens"@) is Some
            &&& spec_u32_field(es@, "completion_tokens"@) is Some
            &&& spec_u32_field(es@, "total_tokens"@) is Some
        },
        _ => false,
    }
}

/// How parsed chat usage relates to its frame.
pub open spec fn chat_usage_parsed(u: Usage, v: JsonValue) -> bool {
    match v {
        JsonValue::Obj(es) => {
            &&& spec_u32_field(es@, "prompt_tokens"@) == Some(u.prompt_tokens)
            &&& spec_u32_field(es@, "completion_tokens"@) == Some(u.completion_tokens)
            &&& spec_u32_field(es@, "total_tokens"@) == Some(u.total_tokens)
        },
        _ => false,
    }
}

/// Reads a chat token-usage payload.
fn chat_usage_from_json(v: &JsonValue) -> (r: Option<Usage>)
    ensures
        r is Some <==> chat_usage_json_ok(*v),
        match r {
            Some(u) => chat_usage_parsed(u, *v),
            None => true,
        },
{
    let es = match v.as_obj() {
        Some(es) => es,
        None => {
            return None;
        },
    };
    let prompt_tokens = match crate::rtav::value::req_u32_field(es, "prompt_tokens") {
        Ok(n) => n,
        Err(_) => {
            return None;
        },
    };
    let completion_tokens = match crate::rtav::value::req_u32_field(es, "completion_tokens") {
        Ok(n) => n,
        Err(_) => {
            return None;
        },
    };
    let total_tokens = match crate::rtav::value::req_u32_field(es, "total_tokens") {
        Ok(n) => n,
        Err(_) => {
            return None;
        },
    };
    Some(Usage { prompt_tokens, completion_tokens, total_tokens })
}

/// The shape one web-search result must have: three texts.
pub open spec fn web_search_json_ok(v: JsonValue) -> bool {
    match v {
        JsonValue::Obj(es) => {
            &&& spec_str_field(es@, "title"@) is Some
            &&& spec_str_field(es@, "link"@) is Some
            &&& spec_str_field(es@, "content"@) is Some
        },
        _ => false,
    }
}

/// How a parsed web-search result relates to its frame.
pub open spec fn web_search_parsed(w: WebSearchResponse, v: JsonValue) -> bool {
    match v {
        JsonValue::Obj(es) => {
            &&& spec_str_field(es@, "title"@) == Some(w.title@)
            &&& spec_str_field(es@, "link"@) == Some(w.link@)
            &&& spec_str_field(es@, "content"@) == Some(w.content@)
        },
        _ => false,
    }
}

/// Reads one web-search result.
fn web_search_from_json(v: &JsonValue) -> (r: Option<WebSearchResponse>)
    ensures
        r is Some <==> web_search_json_ok(*v),
        match r {
            Some(w) => web_search_parsed(w, *v),
            None => true,
        },
{
    let es = match v.as_obj() {
        Some(es) => es,
        None => {
            return None;
        },
    };
    let title = match req_str_field(es, "title") {
        Ok(t) => t,
        Err(_) => {
            return None;
        },
    };
    let link = match req_str_field(es, "link") {
        Ok(t) => t,
        Err(_) => {
            return None;
        },
    };
    let content = match req_str_field(es, "content") {
        Ok(t) => t,
        Err(_) => {
            return None;
        },
    };
    Some(WebSearchResponse { title, link, content })
}

impl ChatApiResponseStream {
    /// The record's choices, when there are any.
    pub fn get_choices(&self) -> (r: Option<&Vec<ChoiceStream>>)
        ensures
            match r {
                Some(cs) => self.choices == Some(*cs),
                None => self.choices is None,
            },
    {
        self.choices.as_ref()
    }

    /// The web-search results consulted, if any.
    pub fn get_web_search(&self) -> (r: &Option<Vec<WebSearchResponse>>)
        ensures
            *r == self.web_search,
    {
        &self.web_search
    }

    /// The shape an incremental record must have: every field optional,
    /// choices an array of well-shaped streamed choices, the token usage
    /// and web-search results well shaped when present.
    pub open spec fn json_ok(v: JsonValue) -> bool {
        match v {
            JsonValue::Obj(es) => {
                &&& spec_opt_str(es@, "id"@) is Some
                &&& spec_opt_str(es@, "model"@) is Some
                &&& spec_opt_u64(es@, "created"@) is Some
                &&& match spec_lookup(es@, "choices"@) {
                    None => true,
                    Some(JsonValue::Null) => true,
                    Some(JsonValue::Arr(xs)) => forall|j: int|
                        0 <= j < xs@.len() ==> #[trigger] choice_stream_json_ok(xs@[j]),
                    Some(_) => false,
                }
                &&& match spec_lookup(es@, "usage"@) {
                    None => true,
                    Some(JsonValue::Null) => true,
                    Some(uv) => chat_usage_json_ok(uv),
                }
                &&& match spec_lookup(es@, "web_search"@) {
                    None => true,
                    Some(JsonValue::Null) => true,
                    Some(JsonValue::Arr(ws)) => forall|j: int|
                        0 <= j < ws@.len() ==> #[trigger] web_search_json_ok(ws@[j]),
                    Some(_) => false,
                }
            },
            _ => false,
        }
    }

    /// How a parsed record relates to its frame, field by field.
    pub open spec fn parsed_from(self, v: JsonValue) -> bool {
        match v {
            JsonValue::Obj(es) => {
                &&& spec_opt_str(es@, "id"@) == Some(spec_opt_view(self.id))
                &&& spec_opt_str(es@, "model"@) == Some(spec_opt_view(self.model))
                &&& spec_opt_u64(es@, "created"@) == Some(self.created)
                &&& match spec_lookup(es@, "choices"@) {
                    None => self.choices is None,
                    Some(JsonValue::Null) => self.choices is None,
                    Some(JsonValue::Arr(xs)) => self.choices matches Some(cs) && cs@.len()
                        == xs@.len() && (forall|j: int|
                        0 <= j < xs@.len() ==> #[trigger] choice_stream_parsed(cs@[j], xs@[j])),
                    Some(_) => false,
                }
                &&& match spec_lookup(es@, "usage"@) {
                    None => self.usage is None,
                    Some(JsonValue::Null) => self.usage is None,
                    Some(uv) => self.usage matches Some(u) && chat_usage_parsed(u, uv),
                }
                &&& match spec_lookup(es@, "web_search"@) {
                    None => self.web_search is None,
                    Some(JsonValue::Null) => self.web_search is None,
                    Some(JsonValue::Arr(ws)) => self.web_search matches Some(wr) && wr@.len()
                        == ws@.len() && (forall|j: int|
                        0 <= j < ws@.len() ==> #[trigger] web_search_parsed(wr@[j], ws@[j])),
                    Some(_) => false,
                }
            },
            _ => false,
        }
    }

    /// Reads one incremental record out of a frame value.
    pub fn from_json(v: &JsonValue) -> (r: Option<ChatApiResponseStream>)
        ensures
            r is Some <==> ChatApiResponseStream::json_ok(*v),
            match r {
                Some(rec) => rec.parsed_from(*v),
                None => true,
            },
    {
        let es = match v.as_obj() {
            Some(es) => es,
            None => {
                return None;
            },
        };
        let id = match opt_str_field(es, "id") {
            Ok(o) => o,
            Err(_) => {
                return None;
            },
        };
        let model = match opt_str_field(es, "model") {
            Ok(o) => o,
            Err(_) => {
                return None;
            },
        };
        let created = match opt_u64_field(es, "created") {
            Ok(o) => o,
            Err(_) => {
                return None;
            },
        };
        let usage = match lookup(es, "usage") {
            None => None,
            Some(JsonValue::Null) => None,
            Some(uv) => match chat_usage_from_json(uv) {
                Some(u) => Some(u),
                None => {
                    return None;
                },
            },
        };
        let web_search = match lookup(es, "web_search") {
            None => None,
            Some(JsonValue::Null) => None,
            Some(JsonValue::Arr(ws)) => {
                let mut wr: Vec<WebSearchResponse> = Vec::new();
                let n = ws.len();
                let mut j: usize = 0;
                while j < n
                    invariant
                        n == ws@.len(),
                        0 <= j <= n,
                        wr@.len() == j,
                        *v == JsonValue::Obj(*es),
                        spec_lookup(es@, "web_search"@) == Some(JsonValue::Arr(*ws)),
                        forall|k: int|
                            0 <= k < j ==> web_search_json_ok(#[trigger] ws@[k])
                                && web_search_parsed(wr@[k], ws@[k]),
                    decreases n - j,
                {
                    match web_search_from_json(&ws[j]) {
                        Some(w) => wr.push(w),
                        None => {
                            proof {
                                if ChatApiResponseStream::json_ok(*v) {
                                    assert((*v)->Obj_0 == *es);
                                    assert(match spec_lookup(es@, "web_search"@) {
                                        None => true,
                                        Some(JsonValue::Null) => true,
                                        Some(JsonValue::Arr(ws2)) => forall|k: int|
                                            0 <= k < ws2@.len()
                                                ==> #[trigger] web_search_json_ok(ws2@[k]),
                                        Some(_) => false,
                                    });
                                    assert(web_search_json_ok(ws@[j as int]));
                                    assert(false);
                                }
                            }
                            return None;
                        },
                    }
                    j = j + 1;
                }
                Some(wr)
            },
            Some(_) => {
                return None;
            },
        };
        let choices = match lookup(es, "choices") {
            None => None,
            Some(JsonValue::Null) => None,
            Some(JsonValue::Arr(xs)) => {
                let mut cs: Vec<ChoiceStream> = Vec::new();
                let n = xs.len();
                let mut j: usize = 0;
                while j < n
                    invariant
                        n == xs@.len(),
                        0 <= j <= n,
                        cs@.len() == j,
                        *v == JsonValue::Obj(*es),
                        spec_lookup(es@, "choices"@) == Some(JsonValue::Arr(*xs)),
                        forall|k: int|
                            0 <= k < j ==> choice_stream_json_ok(#[trigger] xs@[k])
                                && choice_stream_parsed(cs@[k], xs@[k]),
                    decreases n - j,
                {
                    match choice_stream_from_json(&xs[j]) {
                        Some(c) => cs.push(c),
                        None => {
                            proof {
                                if ChatApiResponseStream::json_ok(*v) {
                                    assert((*v)->Obj_0 == *es);
                                    assert(match spec_lookup(es@, "choices"@) {
                                        None => true,
                                        Some(JsonValue::Null) => true,
                                        Some(JsonValue::Arr(xs2)) => forall|k: int|
                                            0 <= k < xs2@.len()
                                                ==> #[trigger] choice_stream_json_ok(xs2@[k]),
                                        Some(_) => false,
                                    });
                                    assert(choice_stream_json_ok(xs@[j as int]));
                                    assert(false);
                                }
                            }
                            return None;
                        },
                    }
                    j = j + 1;
                }
                Some(cs)
            },
            Some(_) => {
                return None;
            },
        };
        Some(ChatApiResponseStream { id, created, model, choices, usage, web_search })
    }
}

/// A whitespace byte as the line decoder trims it: space, tab, carriage
/// return, newline, vertical tab or form feed.
pub open spec fn ws_byte(b: u8) -> bool {
    b == 32 || b == 9 || b == 13 || b == 10 || b == 11 || b == 12
}

/// `b` with leading and trailing whitespace bytes removed.
pub open spec fn trim_spec(b: Seq<u8>) -> Seq<u8>
    decreases b.len(),
{
    if b.len() == 0 {
        b
    } else if ws_byte(b[0]) {
        trim_spec(b.skip(1))
    } else if ws_byte(b.last()) {
        trim_spec(b.drop_last())
    } else {
        b
    }
}

/// The bytes of the stream-end sentinel line.
pub open spec fn sentinel_bytes() -> Seq<u8> {
    vstd::utf8::encode_utf8("data: [DONE]"@)
}

/// The bytes of the payload-line prefix.
pub open spec fn data_prefix() -> Seq<u8> {
    vstd::utf8::encode_utf8("data: "@)
}

/// The marker emitted for a payload that is not valid JSON.
pub open spec fn invalid_marker(rest: Seq<u8>) -> Seq<char> {
    "Invalid JSON data: "@ + decode_utf8(rest)
}

/// The marker emitted for valid JSON that is not an incremental record.
pub open spec fn mismatch_marker(rest: Seq<u8>) -> Seq<char> {
    "JSON format is correct, but does not match ChatApiResponseStream structure: "@ + decode_utf8(
        rest,
    )
}

/// What one choice of a well-shaped record emits: its text when there is
/// any, else its rendered tool calls when there are any, else nothing.
pub open spec fn choice_emission(cv: JsonValue) -> Seq<Seq<char>> {
    match cv {
        JsonValue::Obj(es) => match spec_lookup(es@, "delta"@) {
            Some(JsonValue::Obj(des)) => {
                let c = match spec_lookup(des@, "content"@) {
                    Some(JsonValue::Str(s)) => s@,
                    _ => Seq::<char>::empty(),
                };
                if c.len() > 0 {
                    seq![c]
                } else {
                    let tc = match spec_lookup(des@, "tool_calls"@) {
                        Some(JsonValue::Arr(xs)) => tc_json_text(xs@),
                        _ => Seq::<char>::empty(),
                    };
                    if tc.len() > 0 {
                        seq![tc]
                    } else {
                        Seq::<Seq<char>>::empty()
                    }
                }
            },
            _ => Seq::<Seq<char>>::empty(),
        },
        _ => Seq::<Seq<char>>::empty(),
    }
}

/// The rendered text of a tool-call array on the wire.
pub open spec fn tc_json_text(xs: Seq<JsonValue>) -> Seq<char>
    decreases xs.len(),
{
    if xs.len() == 0 {
        Seq::<char>::empty()
    } else {
        let one = match xs[0] {
            JsonValue::Obj(es) => {
                let nm = match spec_lookup(es@, "name"@) {
                    Some(JsonValue::Str(s)) => s@,
                    _ => Seq::<char>::empty(),
                };
                let ar = match spec_lookup(es@, "arguments"@) {
                    Some(JsonValue::Str(s)) => s@,
                    _ => Seq::<char>::empty(),
                };
                nm + "("@ + ar + ")"@
            },
            _ => "("@ + ")"@,
        };
        one + tc_json_text(xs.skip(1))
    }
}

/// What all choices of a record emit, in order.
pub open spec fn choices_emission(xs: Seq<JsonValue>) -> Seq<Seq<char>>
    decreases xs.len(),
{
    if xs.len() == 0 {
        Seq::<Seq<char>>::empty()
    } else {
        choice_emission(xs[0]) + choices_emission(xs.skip(1))
    }
}

/// What a well-shaped record emits: its choices' emissions, or nothing
/// when it has no choices.
pub open spec fn record_emissions(v: JsonValue) -> Seq<Seq<char>> {
    match v {
        JsonValue::Obj(es) => match spec_lookup(es@, "choices"@) {
            Some(JsonValue::Arr(xs)) => choices_emission(xs@),
            _ => Seq::<Seq<char>>::empty(),
        },
        _ => Seq::<Seq<char>>::empty(),
    }
}

/// What one line of the stream emits. Empty lines and the end sentinel
/// emit nothing and are consumed; a line without the `data: ` prefix is
/// ignored; a payload emits its choices' content, or one diagnostic
/// marker when the payload is not valid JSON or not an incremental
/// record. A diagnostic never stops the stream.
pub open spec fn line_emissions(line: Seq<u8>) -> Seq<Seq<char>> {
    let t = trim_spec(line);
    if t.len() == 0 {
        Seq::<Seq<char>>::empty()
    } else if t == sentinel_bytes() {
        Seq::<Seq<char>>::empty()
    } else if t.len() >= 6 && t.take(6) == data_prefix() {
        let rest = t.skip(6);
        match parsed_json(rest) {
            None => seq![invalid_marker(rest)],
            Some(v) => if ChatApiResponseStream::json_ok(v) {
                record_emissions(v)
            } else {
                seq![mismatch_marker(rest)]
            },
        }
    } else {
        Seq::<Seq<char>>::empty()
    }
}

/// What a list of lines emits, in order.
pub open spec fn lines_emissions(ls: Seq<Seq<u8>>) -> Seq<Seq<char>>
    decreases ls.len(),
{
    if ls.len() == 0 {
        Seq::<Seq<char>>::empty()
    } else {
        line_emissions(ls[0]) + lines_emissions(ls.skip(1))
    }
}

/// Byte-slice equality.
fn bytes_eq(a: &[u8], b: &[u8]) -> (r: bool)
    ensures
        r == (a@ == b@),
{
    if a.len() != b.len() {
        return false;
    }
    let n = a.len();
    let mut i: usize = 0;
    while i < n
        invariant
            n == a@.len() == b@.len(),
            0 <= i <= n,
            forall|j: int| 0 <= j < i ==> a@[j] == b@[j],
        decreases n - i,
    {
        if a[i] != b[i] {
            return false;
        }
        i = i + 1;
    }
    proof {
        assert(a@ =~= b@);
    }
    true
}

/// A rendered tool-call list matches the wire text of the array it was
/// parsed from.
proof fn lemma_tc_text(ts: Seq<ToolCall>, xs: Seq<JsonValue>)
    requires
        ts.len() == xs.len(),
        forall|j: int| 0 <= j < xs.len() ==> tool_call_parsed(#[trigger] ts[j], xs[j]),
        forall|j: int| 0 <= j < xs.len() ==> tool_call_json_ok(#[trigger] xs[j]),
    ensures
        tool_calls_text(ts) == tc_json_text(xs),
    decreases ts.len(),
{
    if ts.len() == 0 {
    } else {
        assert(forall|j: int| 0 <= j < xs.skip(1).len() ==> #[trigger] xs.skip(1)[j] == xs[j + 1]);
        assert(forall|j: int| 0 <= j < ts.skip(1).len() ==> #[trigger] ts.skip(1)[j] == ts[j + 1]);
        lemma_tc_text(ts.skip(1), xs.skip(1));
    }
}

/// Decodes one line, as [`line_emissions`] describes.
#[verifier::rlimit(100)]
pub fn process_line(line: &[u8]) -> (out: Vec<String>)
    requires
        valid_utf8(line@),
    ensures
        out@.map_values(|s: String| s@) == line_emissions(line@),
{
    // trim whitespace from both ends, staying on character boundaries
    let n = line.len();
    let mut lo: usize = 0;
    proof {
        assert(line@.skip(0) =~= line@);
    }
    while lo < n && is_ws(line[lo])
        invariant
            n == line@.len(),
            0 <= lo <= n,
            valid_utf8(line@.skip(lo as int)),
            trim_spec(line@) == trim_spec(line@.skip(lo as int)),
        decreases n - lo,
    {
        proof {
            let cur = line@.skip(lo as int);
            assert(cur[0] == line@[lo as int]);
            assert(vstd::utf8::is_leading_byte_width_1(cur[0]));
            assert(vstd::utf8::valid_first_scalar(cur));
            assert(vstd::utf8::pop_first_scalar(cur) =~= line@.skip(lo as int + 1));
        }
        lo = lo + 1;
    }
    let mut hi: usize = n;
    proof {
        assert(line@.skip(lo as int).subrange(0, (hi - lo) as int) =~= line@.subrange(
            lo as int,
            hi as int,
        ));
    }
    while hi > lo && is_ws(line[hi - 1])
        invariant
            n == line@.len(),
            0 <= lo <= hi <= n,
            valid_utf8(line@.subrange(lo as int, hi as int)),
            trim_spec(line@) == trim_spec(line@.subrange(lo as int, hi as int)),
            lo < n ==> !ws_byte(line@[lo as int]),
        decreases hi,
    {
        proof {
            let cur = line@.subrange(lo as int, hi as int);
            assert(cur.last() == line@[hi - 1]);
            assert(!vstd::utf8::is_continuation_byte(cur.last()));
            vstd::utf8::is_char_boundary_iff_not_is_continuation_byte(cur, cur.len() - 1);
            vstd::utf8::valid_utf8_split(cur, cur.len() - 1);
            assert(cur.subrange(0, cur.len() - 1) =~= line@.subrange(lo as int, hi - 1));
            assert(cur.drop_last() =~= line@.subrange(lo as int, hi - 1));
            assert(cur[0] == line@[lo as int]);
        }
        hi = hi - 1;
    }
    let t = vstd::slice::slice_subrange(line, lo, hi);
    proof {
        let tv = line@.subrange(lo as int, hi as int);
        assert(trim_spec(tv) == tv) by {
            if tv.len() > 0 {
                assert(tv[0] == line@[lo as int]);
                assert(tv.last() == line@[hi - 1]);
            }
        }
    }
    let mut out: Vec<String> = Vec::new();
    if t.len() == 0 {
        proof {
            assert(out@.map_values(|s: String| s@) =~= line_emissions(line@));
        }
        return out;
    }
    if bytes_eq(t, "data: [DONE]".as_bytes()) {
        proof {
            assert(out@.map_values(|s: String| s@) =~= line_emissions(line@));
        }
        return out;
    }
    if t.len() < 6 || !bytes_eq(vstd::slice::slice_subrange(t, 0, 6), "data: ".as_bytes()) {
        proof {
            assert(t@.take(6) =~= t@.subrange(0, 6)) by {
                if t@.len() >= 6 {
                }
            }
            assert(out@.map_values(|s: String| s@) =~= line_emissions(line@));
        }
        return out;
    }
    let rest = vstd::slice::slice_subrange(t, 6, t.len());
    proof {
        // the six prefix bytes are ASCII, so the rest is valid UTF-8
        reveal_strlit("data: ");
        assert(vstd::utf8::is_ascii_chars("data: "@));
        vstd::utf8::is_ascii_chars_encode_utf8("data: "@);
        assert(t@.take(6) =~= t@.subrange(0, 6));
        assert(forall|j: int| 0 <= j < 6 ==> t@[j] < 0x80) by {
            assert(forall|j: int| 0 <= j < 6 ==> t@[j] == t@.take(6)[j]);
            assert(forall|j: int| 0 <= j < 6 ==> data_prefix()[j] == ("data: "@)[j] as u8);
        }
        lemma_ascii_skip(t@, 6);
        assert(rest@ =~= t@.skip(6));
    }
    match json_parse(rest) {
        None => {
            let mut m = String::from_str("Invalid JSON data: ");
            let body = utf8_string(rest);
            m.append(body.as_str());
            out.push(m);
            proof {
                assert(out@.map_values(|s: String| s@) =~= line_emissions(line@));
            }
            out
        },
        Some(v) => {
            match ChatApiResponseStream::from_json(&v) {
                Some(rec) => {
                    match &rec.choices {
                        Some(cs) => {
                            let ghost xs: Seq<JsonValue> = choices_arr(v);
                            proof {
                                assert(v matches JsonValue::Obj(es) && spec_lookup(
                                    es@,
                                    "choices"@,
                                ) == Some(JsonValue::Arr(choices_arr_vec(v))));
                            }
                            let m = cs.len();
                            let mut i: usize = 0;
                            proof {
                                assert(xs.skip(0) =~= xs);
                                assert(out@.map_values(|s2: String| s2@) =~= Seq::<
                                    Seq<char>,
                                >::empty());
                            }
                            while i < m
                                invariant
                                    m == cs@.len(),
                                    0 <= i <= m,
                                    m == xs.len(),
                                    forall|k: int|
                                        0 <= k < m ==> choice_stream_parsed(
                                            #[trigger] cs@[k],
                                            xs[k],
                                        ) && choice_stream_json_ok(xs[k]),
                                    out@.map_values(|s: String| s@) + choices_emission(
                                        xs.skip(i as int),
                                    ) == choices_emission(xs),
                                decreases m - i,
                            {
                                proof {
                                    assert(xs.skip(i as int)[0] == xs[i as int]);
                                    assert(xs.skip(i as int).skip(1) =~= xs.skip(i as int + 1));
                                }
                                let content = cs[i].get_content();
                                if !content.as_str().is_empty() {
                                    out.push(content);
                                    proof {
                                        lemma_choice_emitted(cs@[i as int], xs[i as int]);
                                        assert(out@.map_values(|s: String| s@) =~= out@.map_values(
                                            |s: String| s@,
                                        ));
                                    }
                                } else {
                                    let tcs = cs[i].get_tool_calls();
                                    proof {
                                        lemma_choice_emitted(cs@[i as int], xs[i as int]);
                                    }
                                    if !tcs.as_str().is_empty() {
                                        out.push(tcs);
                                    }
                                }
                                proof {
                                    assert(out@.map_values(|s: String| s@) + choices_emission(
                                        xs.skip(i as int + 1),
                                    ) =~= choices_emission(xs));
                                }
                                i = i + 1;
                            }
                            proof {
                                assert(choices_emission(xs.skip(m as int)) =~= Seq::<
                                    Seq<char>,
                                >::empty());
                                assert(out@.map_values(|s: String| s@) =~= choices_emission(xs));
                                assert(out@.map_values(|s: String| s@) =~= line_emissions(line@));
                            }
                            out
                        },
                        None => {
                            proof {
                                assert(out@.map_values(|s: String| s@) =~= line_emissions(line@));
                            }
                            out
                        },
                    }
                },
                None => {
                    let mut m = String::from_str(
                        "JSON format is correct, but does not match ChatApiResponseStream structure: ",
                    );
                    let body = utf8_string(rest);
                    m.append(body.as_str());
                    out.push(m);
                    proof {
                        assert(out@.map_values(|s: String| s@) =~= line_emissions(line@));
                    }
                    out
                },
            }
        },
    }
}

/// The choices array of a record value, when it has one.
pub open spec fn choices_arr_vec(v: JsonValue) -> Vec<JsonValue> {
    match v {
        JsonValue::Obj(es) => match spec_lookup(es@, "choices"@) {
            Some(JsonValue::Arr(xs)) => xs,
            _ => vstd::pervasive::arbitrary(),
        },
        _ => vstd::pervasive::arbitrary(),
    }
}

/// The choices array's view.
pub open spec fn choices_arr(v: JsonValue) -> Seq<JsonValue> {
    choices_arr_vec(v)@
}

/// One parsed choice emits exactly what its frame describes.
proof fn lemma_choice_emitted(c: ChoiceStream, cv: JsonValue)
    requires
        choice_stream_parsed(c, cv),
        choice_stream_json_ok(cv),
    ensures
        choice_emission(cv) == (if (c.delta.content matches Some(s) && s@.len() > 0) {
            seq![c.delta.content->0@]
        } else if (c.delta.tool_calls matches Some(ts) && tool_calls_text(ts@).len() > 0) {
            seq![tool_calls_text(c.delta.tool_calls->0@)]
        } else {
            Seq::<Seq<char>>::empty()
        }),
{
    let es = cv->Obj_0;
    let dv = spec_lookup(es@, "delta"@)->0;
    let des = dv->Obj_0;
    match spec_lookup(des@, "tool_calls"@) {
        Some(JsonValue::Arr(xs)) => {
            let ts = c.delta.tool_calls->0;
            lemma_tc_text(ts@, xs@);
        },
        _ => {},
    }
}

/// A whitespace byte, as [`ws_byte`].
fn is_ws(b: u8) -> (r: bool)
    ensures
        r == ws_byte(b),
{
    b == 32 || b == 9 || b == 13 || b == 10 || b == 11 || b == 12
}

/// The bytes after an all-ASCII prefix of a valid text are valid.
proof fn lemma_ascii_skip(b: Seq<u8>, k: int)
    requires
        valid_utf8(b),
        0 <= k <= b.len(),
        forall|j: int| 0 <= j < k ==> b[j] < 0x80,
    ensures
        valid_utf8(b.skip(k)),
    decreases k,
{
    if k == 0 {
        assert(b.skip(0) =~= b);
    } else {
        assert(vstd::utf8::is_leading_byte_width_1(b[0]));
        assert(vstd::utf8::valid_first_scalar(b));
        assert(vstd::utf8::length_of_first_scalar(b) == 1);
        assert(vstd::utf8::pop_first_scalar(b) =~= b.skip(1));
        assert(forall|j: int| 0 <= j < k - 1 ==> b.skip(1)[j] == b[j + 1]);
        lemma_ascii_skip(b.skip(1), k - 1);
        assert(b.skip(1).skip(k - 1) =~= b.skip(k));
    }
}

/// The incremental decoder: bytes in, emitted strings out. Composes the
/// byte accumulator, the line extractor and the per-line decoding. It is
/// single-pass and not restartable; the stream lives as long as the
/// transport does.
pub struct ChunkedEventDecoder {
    /// Reassembles UTF-8 text from the transport's chunks.
    pub acc: ByteAccumulator,
    /// Cuts the text into lines.
    pub lines: LineFrameExtractor,
}

impl ChunkedEventDecoder {
    /// Both buffers hold what their invariants say.
    pub open spec fn wf(&self) -> bool {
        &&& self.acc.wf()
        &&& self.lines.wf()
        &&& valid_utf8(self.lines.buffered())
    }

    /// A fresh decoder with empty buffers.
    pub fn new() -> (r: Self)
        ensures
            r.wf(),
            r.acc.tail_bytes() == Seq::<u8>::empty(),
            r.lines.buffered() == Seq::<u8>::empty(),
    {
        ChunkedEventDecoder { acc: ByteAccumulator::new(), lines: LineFrameExtractor::new() }
    }

    /// Feed one transport chunk; everything the completed lines emit is
    /// returned in order, as [`line_emissions`] describes line by line.
    pub fn decode_chunk(&mut self, chunk: &[u8]) -> (out: Vec<String>)
        requires
            old(self).wf(),
        ensures
            final(self).wf(),
            ({
                let s = scan(old(self).acc.tail_bytes() + chunk@);
                let nl = split_lines(old(self).lines.buffered() + s.0);
                &&& final(self).acc.tail_bytes() == s.1
                &&& final(self).lines.buffered() == nl.1
                &&& out@.map_values(|x: String| x@) == lines_emissions(nl.0)
            }),
    {
        let text = self.acc.accumulate(chunk);
        let ghost piece: Seq<u8> = text@;
        let ls = self.lines.feed(text.as_slice());
        proof {
            let whole = old(self).lines.buffered() + piece;
            crate::lines::lemma_split_lines_valid(whole);
            assert forall|i: int| 0 <= i < ls@.len() implies valid_utf8(#[trigger] ls@[i]@) by {
                assert(ls@.map_values(|l: Vec<u8>| l@)[i] == ls@[i]@);
                assert(crate::lines::split_lines(whole).0[i] == ls@[i]@);
            }
            assert(valid_utf8(self.lines.buffered()));
        }
        let ghost nls: Seq<Seq<u8>> = ls@.map_values(|l: Vec<u8>| l@);
        let mut out: Vec<String> = Vec::new();
        let n = ls.len();
        let mut i: usize = 0;
        proof {
            assert(nls.skip(0) =~= nls);
        }
        while i < n
            invariant
                n == ls@.len(),
                0 <= i <= n,
                nls == ls@.map_values(|l: Vec<u8>| l@),
                forall|k: int| 0 <= k < n ==> valid_utf8(#[trigger] ls@[k]@),
                out@.map_values(|x: String| x@) + lines_emissions(nls.skip(i as int))
                    == lines_emissions(nls),
            decreases n - i,
        {
            proof {
                assert(nls.skip(i as int)[0] == nls[i as int]);
                assert(nls.skip(i as int).skip(1) =~= nls.skip(i as int + 1));
                assert(nls[i as int] == ls@[i as int]@);
            }
            let ghost pre = out@;
            let mut emitted = process_line(ls[i].as_slice());
            out.append(&mut emitted);
            proof {
                assert(out@.map_values(|x: String| x@) =~= pre.map_values(|x: String| x@)
                    + line_emissions(nls[i as int]));
                assert(out@.map_values(|x: String| x@) + lines_emissions(nls.skip(i as int + 1))
                    =~= lines_emissions(nls));
            }
            i = i + 1;
        }
        proof {
            assert(lines_emissions(nls.skip(n as int)) =~= Seq::<Seq<char>>::empty());
            assert(out@.map_values(|x: String| x@) =~= lines_emissions(nls));
        }
        out
    }

    /// At end of input: the unterminated trailing line, surfaced as a
    /// final marker rather than silently dropped; nothing when all input
    /// ended in complete lines.
    pub fn finish(&self) -> (r: Option<String>)
        requires
            self.wf(),
        ensures
            match r {
                Some(s) => self.lines.buffered().len() > 0 && s@ == "Remaining unprocessed data: "@
                    + decode_utf8(self.lines.buffered()),
                None => self.lines.buffered().len() == 0,
            },
    {
        let rest = self.lines.peek_buffered();
        if rest.len() == 0 {
            None
        } else {
            let mut m = String::from_str("Remaining unprocessed data: ");
            let body = utf8_string(rest);
            m.append(body.as_str());
            Some(m)
        }
    }
}

} // verus!
