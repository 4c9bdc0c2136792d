//! Values exchanged over a realtime session: the session configuration,
//! conversation items, responses and the error payload.
//!
//! Each type that travels outbound has a `to_json` function whose result
//! is pinned by an `is_wire` predicate; each type that arrives inbound
//! has a `from_json` function whose success is an exact condition on the
//! frame and whose result is pinned field by field.

use crate::json::{
    lookup, spec_int_field, spec_lookup, spec_str_field, str_eq, JsonValue,
};
use crate::role::Role;
use vstd::prelude::*;

verus! {

/// A server-reported error payload.
#[derive(Debug, PartialEq, Clone)]
pub struct Error {
    /// The error's type, such as `invalid_request_error` or `server_error`.
    pub kind: Option<String>,
    /// A readable message.
    pub message: Option<String>,
    /// The error code, if any.
    pub code: String,
}

/// An optional string field: absent or `null` reads as `None`, a string as
/// `Some`, anything else is a shape mismatch.
pub open spec fn spec_opt_str(entries: Seq<(String, JsonValue)>, key: Seq<char>) -> Option<
    Option<Seq<char>>,
> {
    match spec_lookup(entries, key) {
        None => Some(None),
        Some(JsonValue::Null) => Some(None),
        Some(JsonValue::Str(s)) => Some(Some(s@)),
        Some(_) => None,
    }
}

/// Reads an optional string field, as [`spec_opt_str`].
pub fn opt_str_field(entries: &Vec<(String, JsonValue)>, key: &str) -> (r: Result<
    Option<String>,
    (),
>)
    ensures
        match r {
            Ok(o) => spec_opt_str(entries@, key@) == Some(
                match o {
                    Some(s) => Some(s@),
                    None => None,
                },
            ),
            Err(_) => spec_opt_str(entries@, key@) is None,
        },
{
    match lookup(entries, key) {
        None => Ok(None),
        Some(v) => match v {
            JsonValue::Null => Ok(None),
            JsonValue::Str(s) => Ok(Some(s.clone())),
            _ => Err(()),
        },
    }
}

/// A required string field.
pub fn req_str_field(entries: &Vec<(String, JsonValue)>, key: &str) -> (r: Result<String, ()>)
    ensures
        match r {
            Ok(s) => spec_str_field(entries@, key@) == Some(s@),
            Err(_) => spec_str_field(entries@, key@) is None,
        },
{
    match lookup(entries, key) {
        Some(JsonValue::Str(s)) => Ok(s.clone()),
        _ => Err(()),
    }
}

/// A required integer field that must fit in `u32`.
pub fn req_u32_field(entries: &Vec<(String, JsonValue)>, key: &str) -> (r: Result<u32, ()>)
    ensures
        match r {
            Ok(n) => spec_int_field(entries@, key@) == Some(n as i64),
            Err(_) => match spec_int_field(entries@, key@) {
                Some(i) => !(0 <= i <= u32::MAX),
                None => true,
            },
        },
{
    match lookup(entries, key) {
        Some(JsonValue::Int(i)) => {
            let i = *i;
            if 0 <= i && i <= u32::MAX as i64 {
                Ok(i as u32)
            } else {
                Err(())
            }
        },
        _ => Err(()),
    }
}

impl Error {
    /// The frame shape an error payload must have: an object whose
    /// `type` and `message` are strings or absent, with a string `code`.
    pub open spec fn json_ok(v: JsonValue) -> bool {
        match v {
            JsonValue::Obj(es) => {
                &&& spec_opt_str(es@, "type"@) is Some
                &&& spec_opt_str(es@, "message"@) is Some
                &&& spec_str_field(es@, "code"@) is Some
            },
            _ => false,
        }
    }

    /// How a parsed error relates to its frame.
    pub open spec fn parsed_from(self, v: JsonValue) -> bool {
        match v {
            JsonValue::Obj(es) => {
                &&& spec_opt_str(es@, "type"@) == Some(
                    match self.kind {
                        Some(k) => Some(k@),
                        None => None,
                    },
                )
                &&& spec_opt_str(es@, "message"@) == Some(
                    match self.message {
                        Some(m) => Some(m@),
                        None => None,
                    },
                )
                &&& spec_str_field(es@, "code"@) == Some(self.code@)
            },
            _ => false,
        }
    }

    /// Reads an error payload out of a frame value.
    pub fn from_json(v: &JsonValue) -> (r: Option<Error>)
        ensures
            r is Some <==> Error::json_ok(*v),
            match r {
                Some(e) => e.parsed_from(*v),
                None => true,
            },
    {
        let es = match v.as_obj() {
            Some(es) => es,
            None => {
                return None;
            },
        };
        let kind = match opt_str_field(es, "type") {
            Ok(o) => o,
            Err(_) => {
                return None;
            },
        };
        let message = match opt_str_field(es, "message") {
            Ok(o) => o,
            Err(_) => {
                return None;
            },
        };
        let code = match req_str_field(es, "code") {
            Ok(s) => s,
            Err(_) => {
                return None;
            },
        };
        Some(Error { kind, message, code })
    }

    /// The text [`Error::describe`] renders: the message when there is
    /// one, else the error's type, else `Other`, with the code appended.
    pub open spec fn spec_describe(self) -> Seq<char> {
        (match self.message {
            Some(m) => m@,
            None => match self.kind {
                Some(t) => t@,
                None => "Other"@,
            },
        }) + " (Error code: "@ + self.code@ + ")"@
    }

    /// A readable rendering, in place of `Display`.
    pub fn describe(&self) -> (r: String)
        ensures
            r@ == self.spec_describe(),
    {
        let base = match &self.message {
            Some(m) => m.clone(),
            None => match &self.kind {
                Some(t) => t.clone(),
                None => String::from_str("Other"),
            },
        };
        let mut out = base;
        out.append(" (Error code: ");
        out.append(self.code.as_str());
        out.append(")");
        out
    }
}

/// The call mode of a realtime session.
#[derive(Copy, Clone, Debug, PartialEq, Eq, Structural)]
pub enum ChatMode {
    Audio,
    VideoPassive,
}

impl ChatMode {
    /// The wire name of the mode.
    pub open spec fn spec_name(self) -> Seq<char> {
        match self {
            ChatMode::Audio => "audio"@,
            ChatMode::VideoPassive => "video_passive"@,
        }
    }

    /// The wire name of the mode.
    pub fn as_ref(&self) -> (r: &'static str)
        ensures
            r@ == self.spec_name(),
    {
        match self {
            ChatMode::Audio => "audio",
            ChatMode::VideoPassive => "video_passive",
        }
    }
}

impl Default for ChatMode {
    /// Audio is the default call mode.
    fn default() -> (r: Self)
        ensures
            r == ChatMode::Audio,
    {
        ChatMode::Audio
    }
}

/// The built-in search tool's payload.
#[derive(Clone, Debug, PartialEq)]
pub struct SimpleBrowser {
    /// Holding phrase spoken before the search.
    pub description: String,
    pub meta: String,
    pub search_meta: String,
    pub text_citation: String,
}

impl SimpleBrowser {
    /// How the payload renders on the wire.
    pub open spec fn is_wire(self, v: JsonValue) -> bool {
        match v {
            JsonValue::Obj(es) => {
                &&& es@.len() == 4
                &&& es@[0].0@ == "description"@ && es@[0].1 == JsonValue::Str(self.description)
                &&& es@[1].0@ == "meta"@ && es@[1].1 == JsonValue::Str(self.meta)
                &&& es@[2].0@ == "search_meta"@ && es@[2].1 == JsonValue::Str(self.search_meta)
                &&& es@[3].0@ == "text_citation"@ && es@[3].1 == JsonValue::Str(self.text_citation)
            },
            _ => false,
        }
    }

    /// Renders the payload.
    pub fn to_json(&self) -> (v: JsonValue)
        ensures
            self.is_wire(v),
    {
        let mut es: Vec<(String, JsonValue)> = Vec::new();
        es.push((String::from_str("description"), JsonValue::Str(self.description.clone())));
        es.push((String::from_str("meta"), JsonValue::Str(self.meta.clone())));
        es.push((String::from_str("search_meta"), JsonValue::Str(self.search_meta.clone())));
        es.push((String::from_str("text_citation"), JsonValue::Str(self.text_citation.clone())));
        JsonValue::Obj(es)
    }
}

/// Whether the session opens with a greeting.
#[derive(Copy, Clone, Debug, PartialEq, Eq, Structural)]
pub struct GreetingConfig {
    pub enable: bool,
}

impl GreetingConfig {
    /// A greeting configuration that opens with a greeting.
    pub fn enable() -> (r: Self)
        ensures
            r.enable == true,
    {
        GreetingConfig { enable: true }
    }

    /// A greeting configuration without a greeting.
    pub fn disable() -> (r: Self)
        ensures
            r.enable == false,
    {
        GreetingConfig { enable: false }
    }
}

/// Extra session switches.
#[derive(Clone, Debug, PartialEq)]
pub struct BetaFields {
    /// Server-side automatic search; on by default, audio mode only.
    pub auto_search: Option<bool>,
    /// The call mode.
    pub chat_mode: ChatMode,
    /// Text-to-speech pathway; the service accepts only `e2e` now.
    pub tts_source: Option<String>,
    pub is_last_text: Option<bool>,
    pub simple_browser: Option<SimpleBrowser>,
    /// Greeting switch.
    pub greeting_config: Option<GreetingConfig>,
    /// Greeting text.
    pub content: Option<String>,
}

impl BetaFields {
    /// The default switches: audio mode, `e2e` speech, nothing else set.
    pub open spec fn is_default(self) -> bool {
        &&& self.auto_search is None
        &&& self.chat_mode == ChatMode::Audio
        &&& self.tts_source matches Some(s) && s@ == "e2e"@
        &&& self.is_last_text is None
        &&& self.simple_browser is None
        &&& self.greeting_config is None
        &&& self.content is None
    }

    /// The default switches.
    pub fn new() -> (r: Self)
        ensures
            r.is_default(),
    {
        BetaFields {
            auto_search: None,
            chat_mode: ChatMode::Audio,
            tts_source: Some(String::from_str("e2e")),
            is_last_text: None,
            simple_browser: None,
            greeting_config: None,
            content: None,
        }
    }

    /// Sets the call mode.
    pub fn with_chat_mode(&mut self, chat_mode: ChatMode)
        ensures
            *final(self) == (BetaFields { chat_mode: chat_mode, ..*old(self) }),
    {
        self.chat_mode = chat_mode;
    }

    /// Sets the text-to-speech pathway.
    pub fn with_tts_source(&mut self, tts_source: &str)
        ensures
            final(self).tts_source matches Some(s) && s@ == tts_source@,
            *final(self) == (BetaFields { tts_source: final(self).tts_source, ..*old(self) }),
    {
        self.tts_source = Some(tts_source.to_owned());
    }

    /// Switches the built-in automatic search.
    pub fn with_auto_search(&mut self, auto_search: bool)
        ensures
            *final(self) == (BetaFields { auto_search: Some(auto_search), ..*old(self) }),
    {
        self.auto_search = Some(auto_search);
    }

    /// Sets the greeting switch.
    pub fn with_greeting_config(&mut self, greeting_config: GreetingConfig)
        ensures
            *final(self) == (BetaFields {
                greeting_config: Some(greeting_config),
                ..*old(self)
            }),
    {
        self.greeting_config = Some(greeting_config);
    }

    /// Sets the greeting text.
    pub fn with_content(&mut self, content: &str)
        ensures
            final(self).content matches Some(s) && s@ == content@,
            *final(self) == (BetaFields { content: final(self).content, ..*old(self) }),
    {
        self.content = Some(content.to_owned());
    }
}

/// An optional `u32` field: absent or `null` reads as `None`; a number
/// outside `u32` or a non-number is a shape mismatch.
pub open spec fn spec_opt_u32(entries: Seq<(String, JsonValue)>, key: Seq<char>) -> Option<
    Option<u32>,
> {
    match spec_lookup(entries, key) {
        None => Some(None),
        Some(JsonValue::Null) => Some(None),
        Some(JsonValue::Int(i)) => if 0 <= i <= u32::MAX {
            Some(Some(i as u32))
        } else {
            None
        },
        Some(_) => None,
    }
}

/// Reads an optional `u32` field, as [`spec_opt_u32`].
pub fn opt_u32_field(entries: &Vec<(String, JsonValue)>, key: &str) -> (r: Result<
    Option<u32>,
    (),
>)
    ensures
        match r {
            Ok(o) => spec_opt_u32(entries@, key@) == Some(o),
            Err(_) => spec_opt_u32(entries@, key@) is None,
        },
{
    match lookup(entries, key) {
        None => Ok(None),
        Some(v) => match v {
            JsonValue::Null => Ok(None),
            JsonValue::Int(i) => {
                let i = *i;
                if 0 <= i && i <= u32::MAX as i64 {
                    Ok(Some(i as u32))
                } else {
                    Err(())
                }
            },
            _ => Err(()),
        },
    }
}

/// An optional `u64` field: absent or `null` reads as `None`; a negative
/// number or a non-number is a shape mismatch.
pub open spec fn spec_opt_u64(entries: Seq<(String, JsonValue)>, key: Seq<char>) -> Option<
    Option<u64>,
> {
    match spec_lookup(entries, key) {
        None => Some(None),
        Some(JsonValue::Null) => Some(None),
        Some(JsonValue::Int(i)) => if 0 <= i {
            Some(Some(i as u64))
        } else {
            None
        },
        Some(_) => None,
    }
}

/// Reads an optional `u64` field, as [`spec_opt_u64`].
pub fn opt_u64_field(entries: &Vec<(String, JsonValue)>, key: &str) -> (r: Result<
    Option<u64>,
    (),
>)
    ensures
        match r {
            Ok(o) => spec_opt_u64(entries@, key@) == Some(o),
            Err(_) => spec_opt_u64(entries@, key@) is None,
        },
{
    match lookup(entries, key) {
        None => Ok(None),
        Some(v) => match v {
            JsonValue::Null => Ok(None),
            JsonValue::Int(i) => {
                let i = *i;
                if 0 <= i {
                    Ok(Some(i as u64))
                } else {
                    Err(())
                }
            },
            _ => Err(()),
        },
    }
}

/// An optional boolean field: absent or `null` reads as `None`.
pub open spec fn spec_opt_bool(entries: Seq<(String, JsonValue)>, key: Seq<char>) -> Option<
    Option<bool>,
> {
    match spec_lookup(entries, key) {
        None => Some(None),
        Some(JsonValue::Null) => Some(None),
        Some(JsonValue::Bool(b)) => Some(Some(b)),
        Some(_) => None,
    }
}

/// Reads an optional boolean field, as [`spec_opt_bool`].
pub fn opt_bool_field(entries: &Vec<(String, JsonValue)>, key: &str) -> (r: Result<
    Option<bool>,
    (),
>)
    ensures
        match r {
            Ok(o) => spec_opt_bool(entries@, key@) == Some(o),
            Err(_) => spec_opt_bool(entries@, key@) is None,
        },
{
    match lookup(entries, key) {
        None => Ok(None),
        Some(v) => match v {
            JsonValue::Null => Ok(None),
            JsonValue::Bool(b) => Ok(Some(*b)),
            _ => Err(()),
        },
    }
}

impl BetaFields {
    /// The frame shape the extra switches must have to be read back.
    pub open spec fn json_ok(v: JsonValue) -> bool {
        match v {
            JsonValue::Obj(es) => {
                &&& spec_opt_bool(es@, "auto_search"@) is Some
                &&& spec_opt_bool(es@, "is_last_text"@) is Some
                &&& spec_opt_str(es@, "tts_source"@) is Some
                &&& spec_opt_str(es@, "content"@) is Some
                &&& match spec_lookup(es@, "chat_mode"@) {
                    None => true,
                    Some(JsonValue::Str(s)) => s@ == "audio"@ || s@ == "video_passive"@,
                    Some(_) => false,
                }
                &&& match spec_lookup(es@, "simple_browser"@) {
                    None => true,
                    Some(JsonValue::Null) => true,
                    Some(sv) => sv matches JsonValue::Obj(ses) && spec_str_field(
                        ses@,
                        "description"@,
                    ) is Some && spec_str_field(ses@, "meta"@) is Some && spec_str_field(
                        ses@,
                        "search_meta"@,
                    ) is Some && spec_str_field(ses@, "text_citation"@) is Some,
                }
                &&& match spec_lookup(es@, "greeting_config"@) {
                    None => true,
                    Some(JsonValue::Null) => true,
                    Some(gv) => gv matches JsonValue::Obj(ges) && spec_lookup(ges@, "enable"@)
                        matches Some(JsonValue::Bool(_)),
                }
            },
            _ => false,
        }
    }

    /// How parsed switches relate to their frame.
    pub open spec fn parsed_from(self, v: JsonValue) -> bool {
        match v {
            JsonValue::Obj(es) => {
                &&& spec_opt_bool(es@, "auto_search"@) == Some(self.auto_search)
                &&& spec_opt_bool(es@, "is_last_text"@) == Some(self.is_last_text)
                &&& spec_opt_str(es@, "tts_source"@) == Some(spec_opt_view(self.tts_source))
                &&& spec_opt_str(es@, "content"@) == Some(spec_opt_view(self.content))
                &&& match spec_lookup(es@, "chat_mode"@) {
                    None => self.chat_mode == ChatMode::Audio,
                    Some(JsonValue::Str(s)) => s@ == self.chat_mode.spec_name(),
                    Some(_) => false,
                }
                &&& match spec_lookup(es@, "simple_browser"@) {
                    None => self.simple_browser is None,
                    Some(JsonValue::Null) => self.simple_browser is None,
                    Some(sv) => sv matches JsonValue::Obj(ses) && self.simple_browser matches Some(
                        sb,
                    ) && Some(sb.description@) == spec_str_field(ses@, "description"@) && Some(
                        sb.meta@,
                    ) == spec_str_field(ses@, "meta"@) && Some(sb.search_meta@) == spec_str_field(
                        ses@,
                        "search_meta"@,
                    ) && Some(sb.text_citation@) == spec_str_field(ses@, "text_citation"@),
                }
                &&& match spec_lookup(es@, "greeting_config"@) {
                    None => self.greeting_config is None,
                    Some(JsonValue::Null) => self.greeting_config is None,
                    Some(gv) => gv matches JsonValue::Obj(ges) && self.greeting_config
                        matches Some(gc) && spec_lookup(ges@, "enable"@) == Some(
                        JsonValue::Bool(gc.enable),
                    ),
                }
            },
            _ => false,
        }
    }

    /// Reads the switches out of a frame value.
    pub fn from_json(v: &JsonValue) -> (r: Option<BetaFields>)
        ensures
            r is Some <==> BetaFields::json_ok(*v),
            match r {
                Some(b) => b.parsed_from(*v),
                None => true,
            },
    {
        let es = match v.as_obj() {
            Some(es) => es,
            None => {
                return None;
            },
        };
        let auto_search = match opt_bool_field(es, "auto_search") {
            Ok(o) => o,
            Err(_) => {
                return None;
            },
        };
        let is_last_text = match opt_bool_field(es, "is_last_text") {
            Ok(o) => o,
            Err(_) => {
                return None;
            },
        };
        let tts_source = match opt_str_field(es, "tts_source") {
            Ok(o) => o,
            Err(_) => {
                return None;
            },
        };
        let content = match opt_str_field(es, "content") {
            Ok(o) => o,
            Err(_) => {
                return None;
            },
        };
        let chat_mode = match lookup(es, "chat_mode") {
            None => ChatMode::Audio,
            Some(JsonValue::Str(s)) => {
                if str_eq(s.as_str(), "audio") {
                    ChatMode::Audio
                } else if str_eq(s.as_str(), "video_passive") {
                    ChatMode::VideoPassive
                } else {
                    return None;
                }
            },
            Some(_) => {
                return None;
            },
        };
        let simple_browser = match lookup(es, "simple_browser") {
            None => None,
            Some(JsonValue::Null) => None,
            Some(sv) => match sv.as_obj() {
                Some(ses) => {
                    let description = match req_str_field(ses, "description") {
                        Ok(s) => s,
                        Err(_) => {
                            return None;
                        },
                    };
                    let meta = match req_str_field(ses, "meta") {
                        Ok(s) => s,
                        Err(_) => {
                            return None;
                        },
                    };
                    let search_meta = match req_str_field(ses, "search_meta") {
                        Ok(s) => s,
                        Err(_) => {
                            return None;
                        },
                    };
                    let text_citation = match req_str_field(ses, "text_citation") {
                        Ok(s) => s,
                        Err(_) => {
                            return None;
                        },
                    };
                    Some(SimpleBrowser { description, meta, search_meta, text_citation })
                },
                None => {
                    return None;
                },
            },
        };
        let greeting_config = match lookup(es, "greeting_config") {
            None => None,
            Some(JsonValue::Null) => None,
            Some(gv) => match gv.as_obj() {
                Some(ges) => match lookup(ges, "enable") {
                    Some(JsonValue::Bool(b)) => Some(GreetingConfig { enable: *b }),
                    _ => {
                        return None;
                    },
                },
                None => {
                    return None;
                },
            },
        };
        Some(
            BetaFields {
                auto_search,
                chat_mode,
                tts_source,
                is_last_text,
                simple_browser,
                greeting_config,
                content,
            },
        )
    }

    /// Renders the switches; the frame reads back to the same switches.
    #[verifier::rlimit(60)]
    pub fn to_json(&self) -> (v: JsonValue)
        ensures
            BetaFields::json_ok(v),
            self.parsed_from(v),
    {
        let mut es: Vec<(String, JsonValue)> = Vec::new();
        es.push((
            String::from_str("auto_search"),
            match self.auto_search {
                Some(b) => JsonValue::Bool(b),
                None => JsonValue::Null,
            },
        ));
        es.push((
            String::from_str("chat_mode"),
            JsonValue::Str(String::from_str(self.chat_mode.as_ref())),
        ));
        es.push((
            String::from_str("tts_source"),
            match &self.tts_source {
                Some(s) => JsonValue::Str(s.clone()),
                None => JsonValue::Null,
            },
        ));
        es.push((
            String::from_str("is_last_text"),
            match self.is_last_text {
                Some(b) => JsonValue::Bool(b),
                None => JsonValue::Null,
            },
        ));
        let sb_json = match &self.simple_browser {
            Some(sb) => {
                let sv = sb.to_json();
                proof {
                    reveal_strlit("description");
                    reveal_strlit("meta");
                    reveal_strlit("search_meta");
                    reveal_strlit("text_citation");
                    assert("description"@.len() == 11);
                    assert("meta"@.len() == 4);
                    assert("search_meta"@.len() == 11);
                    assert("text_citation"@.len() == 13);
                    assert("description"@[0] == 'd');
                    assert("search_meta"@[0] == 's');
                    let ses = sv->Obj_0;
                    crate::json::lemma_lookup_index(ses@, "description"@, 0);
                    assert(forall|j: int| 0 <= j < 1 ==> (#[trigger] ses@[j]).0@ != "meta"@);
                    crate::json::lemma_lookup_index(ses@, "meta"@, 1);
                    assert(forall|j: int|
                        0 <= j < 2 ==> (#[trigger] ses@[j]).0@ != "search_meta"@);
                    crate::json::lemma_lookup_index(ses@, "search_meta"@, 2);
                    assert(forall|j: int|
                        0 <= j < 3 ==> (#[trigger] ses@[j]).0@ != "text_citation"@);
                    crate::json::lemma_lookup_index(ses@, "text_citation"@, 3);
                }
                sv
            },
            None => JsonValue::Null,
        };
        es.push((String::from_str("simple_browser"), sb_json));
        let gc_json = match self.greeting_config {
            Some(gc) => {
                let mut ges: Vec<(String, JsonValue)> = Vec::new();
                ges.push((String::from_str("enable"), JsonValue::Bool(gc.enable)));
                proof {
                    crate::json::lemma_lookup_index(ges@, "enable"@, 0);
                }
                JsonValue::Obj(ges)
            },
            None => JsonValue::Null,
        };
        es.push((String::from_str("greeting_config"), gc_json));
        es.push((
            String::from_str("content"),
            match &self.content {
                Some(s) => JsonValue::Str(s.clone()),
                None => JsonValue::Null,
            },
        ));
        proof {
            reveal_strlit("auto_search");
            reveal_strlit("chat_mode");
            reveal_strlit("tts_source");
            reveal_strlit("is_last_text");
            reveal_strlit("simple_browser");
            reveal_strlit("greeting_config");
            reveal_strlit("content");
            assert("auto_search"@.len() == 11);
            assert("chat_mode"@.len() == 9);
            assert("tts_source"@.len() == 10);
            assert("is_last_text"@.len() == 12);
            assert("simple_browser"@.len() == 14);
            assert("greeting_config"@.len() == 15);
            assert("content"@.len() == 7);
            assert("auto_search"@[0] == 'a');
            assert("simple_browser"@[0] == 's');
            crate::json::lemma_lookup_index(es@, "auto_search"@, 0);
            assert(forall|j: int| 0 <= j < 1 ==> (#[trigger] es@[j]).0@ != "chat_mode"@);
            crate::json::lemma_lookup_index(es@, "chat_mode"@, 1);
            assert(forall|j: int| 0 <= j < 2 ==> (#[trigger] es@[j]).0@ != "tts_source"@);
            crate::json::lemma_lookup_index(es@, "tts_source"@, 2);
            assert(forall|j: int| 0 <= j < 3 ==> (#[trigger] es@[j]).0@ != "is_last_text"@);
            crate::json::lemma_lookup_index(es@, "is_last_text"@, 3);
            assert(forall|j: int| 0 <= j < 4 ==> (#[trigger] es@[j]).0@ != "simple_browser"@);
            crate::json::lemma_lookup_index(es@, "simple_browser"@, 4);
            assert(forall|j: int| 0 <= j < 5 ==> (#[trigger] es@[j]).0@ != "greeting_config"@);
            crate::json::lemma_lookup_index(es@, "greeting_config"@, 5);
            assert(forall|j: int| 0 <= j < 6 ==> (#[trigger] es@[j]).0@ != "content"@);
            crate::json::lemma_lookup_index(es@, "content"@, 6);
        }
        JsonValue::Obj(es)
    }

    /// A deep copy, with its contents pinned.
    pub fn duplicate(&self) -> (r: Self)
        ensures
            r == *self,
    {
        BetaFields {
            auto_search: self.auto_search,
            chat_mode: self.chat_mode,
            tts_source: match &self.tts_source {
                Some(s) => Some(s.clone()),
                None => None,
            },
            is_last_text: self.is_last_text,
            simple_browser: match &self.simple_browser {
                Some(sb) => Some(
                    SimpleBrowser {
                        description: sb.description.clone(),
                        meta: sb.meta.clone(),
                        search_meta: sb.search_meta.clone(),
                        text_citation: sb.text_citation.clone(),
                    },
                ),
                None => None,
            },
            greeting_config: self.greeting_config,
            content: match &self.content {
                Some(s) => Some(s.clone()),
                None => None,
            },
        }
    }
}

impl Default for BetaFields {
    /// The default switches, as [`BetaFields::new`].
    fn default() -> (r: Self)
        ensures
            r.is_default(),
    {
        BetaFields::new()
    }
}

/// Who detects the end of a spoken turn.
#[derive(Copy, Clone, Debug, PartialEq, Eq, Structural)]
pub enum VadType {
    /// The caller decides and commits explicitly.
    ClientVad,
    /// The server detects speech boundaries and commits on its own.
    ServerVad,
}

impl VadType {
    /// The wire name of the detection mode.
    pub open spec fn spec_name(self) -> Seq<char> {
        match self {
            VadType::ClientVad => "client_vad"@,
            VadType::ServerVad => "server_vad"@,
        }
    }

    /// The wire name of the detection mode.
    pub fn as_ref(&self) -> (r: &'static str)
        ensures
            r@ == self.spec_name(),
    {
        match self {
            VadType::ClientVad => "client_vad",
            VadType::ServerVad => "server_vad",
        }
    }
}

/// Turn-detection settings.
#[derive(Copy, Clone, Debug, PartialEq, Eq, Structural)]
pub struct TurnDetection {
    pub create_response: bool,
    pub interrupt_response: bool,
    pub prefix_padding_ms: i32,
    pub silence_duration_ms: i32,
    pub kind: VadType,
}

impl TurnDetection {
    /// Fresh settings: responses are created and may be interrupted, no
    /// padding, client-side detection.
    pub fn new() -> (r: Self)
        ensures
            r == (TurnDetection {
                create_response: true,
                interrupt_response: true,
                prefix_padding_ms: 0,
                silence_duration_ms: 0,
                kind: VadType::ClientVad,
            }),
    {
        TurnDetection {
            create_response: true,
            interrupt_response: true,
            prefix_padding_ms: 0,
            silence_duration_ms: 0,
            kind: VadType::ClientVad,
        }
    }

    /// The caller detects turns and commits audio itself.
    pub fn with_client_vad(&mut self)
        ensures
            *final(self) == (TurnDetection { kind: VadType::ClientVad, ..*old(self) }),
    {
        self.kind = VadType::ClientVad;
    }

    /// The server detects turns and commits on its own; the caller must
    /// not send redundant commit or create calls.
    pub fn with_server_vad(&mut self)
        ensures
            *final(self) == (TurnDetection { kind: VadType::ServerVad, ..*old(self) }),
    {
        self.kind = VadType::ServerVad;
    }

    /// How the settings render on the wire.
    pub open spec fn is_wire(self, v: JsonValue) -> bool {
        match v {
            JsonValue::Obj(es) => {
                &&& es@.len() == 5
                &&& es@[0].0@ == "create_response"@ && es@[0].1 == JsonValue::Bool(
                    self.create_response,
                )
                &&& es@[1].0@ == "interrupt_response"@ && es@[1].1 == JsonValue::Bool(
                    self.interrupt_response,
                )
                &&& es@[2].0@ == "prefix_padding_ms"@ && es@[2].1 == JsonValue::Int(
                    self.prefix_padding_ms as i64,
                )
                &&& es@[3].0@ == "silence_duration_ms"@ && es@[3].1 == JsonValue::Int(
                    self.silence_duration_ms as i64,
                )
                &&& es@[4].0@ == "type"@ && (es@[4].1 matches JsonValue::Str(s) && s@
                    == self.kind.spec_name())
            },
            _ => false,
        }
    }

    /// Renders the settings.
    pub fn to_json(&self) -> (v: JsonValue)
        ensures
            self.is_wire(v),
    {
        let mut es: Vec<(String, JsonValue)> = Vec::new();
        es.push((String::from_str("create_response"), JsonValue::Bool(self.create_response)));
        es.push((
            String::from_str("interrupt_response"),
            JsonValue::Bool(self.interrupt_response),
        ));
        es.push((
            String::from_str("prefix_padding_ms"),
            JsonValue::Int(self.prefix_padding_ms as i64),
        ));
        es.push((
            String::from_str("silence_duration_ms"),
            JsonValue::Int(self.silence_duration_ms as i64),
        ));
        es.push((String::from_str("type"), JsonValue::Str(String::from_str(self.kind.as_ref()))));
        JsonValue::Obj(es)
    }

    /// Reads settings out of a frame value.
    pub fn from_json(v: &JsonValue) -> (r: Option<TurnDetection>)
        ensures
            r is Some <==> TurnDetection::json_ok(*v),
            match r {
                Some(td) => td.is_wire_fields(*v),
                None => true,
            },
    {
        let es = match v.as_obj() {
            Some(es) => es,
            None => {
                return None;
            },
        };
        let create_response = match lookup(es, "create_response") {
            Some(JsonValue::Bool(b)) => *b,
            _ => {
                return None;
            },
        };
        let interrupt_response = match lookup(es, "interrupt_response") {
            Some(JsonValue::Bool(b)) => *b,
            _ => {
                return None;
            },
        };
        let prefix_padding_ms = match lookup(es, "prefix_padding_ms") {
            Some(JsonValue::Int(i)) => {
                let i = *i;
                if i32::MIN as i64 <= i && i <= i32::MAX as i64 {
                    i as i32
                } else {
                    return None;
                }
            },
            _ => {
                return None;
            },
        };
        let silence_duration_ms = match lookup(es, "silence_duration_ms") {
            Some(JsonValue::Int(i)) => {
                let i = *i;
                if i32::MIN as i64 <= i && i <= i32::MAX as i64 {
                    i as i32
                } else {
                    return None;
                }
            },
            _ => {
                return None;
            },
        };
        let kind = match lookup(es, "type") {
            Some(JsonValue::Str(s)) => {
                if str_eq(s.as_str(), "client_vad") {
                    VadType::ClientVad
                } else if str_eq(s.as_str(), "server_vad") {
                    VadType::ServerVad
                } else {
                    return None;
                }
            },
            _ => {
                return None;
            },
        };
        Some(
            TurnDetection {
                create_response,
                interrupt_response,
                prefix_padding_ms,
                silence_duration_ms,
                kind,
            },
        )
    }

    /// The frame shape turn-detection settings must have to be read back.
    pub open spec fn json_ok(v: JsonValue) -> bool {
        match v {
            JsonValue::Obj(es) => {
                &&& spec_lookup(es@, "create_response"@) matches Some(JsonValue::Bool(_))
                &&& spec_lookup(es@, "interrupt_response"@) matches Some(JsonValue::Bool(_))
                &&& (match spec_int_field(es@, "prefix_padding_ms"@) {
                    Some(i) => i32::MIN <= i <= i32::MAX,
                    None => false,
                })
                &&& (match spec_int_field(es@, "silence_duration_ms"@) {
                    Some(i) => i32::MIN <= i <= i32::MAX,
                    None => false,
                })
                &&& (match spec_str_field(es@, "type"@) {
                    Some(s) => s == "client_vad"@ || s == "server_vad"@,
                    None => false,
                })
            },
            _ => false,
        }
    }

    /// An exactly rendered frame satisfies the read-back shape and fields.
    pub proof fn wire_readable(self, v: JsonValue)
        requires
            self.is_wire(v),
        ensures
            TurnDetection::json_ok(v),
            self.is_wire_fields(v),
    {
        reveal_strlit("create_response");
        reveal_strlit("interrupt_response");
        reveal_strlit("prefix_padding_ms");
        reveal_strlit("silence_duration_ms");
        reveal_strlit("type");
        reveal_strlit("client_vad");
        reveal_strlit("server_vad");
        let es = v->Obj_0;
        assert("create_response"@.len() == 15);
        assert("interrupt_response"@.len() == 18);
        assert("prefix_padding_ms"@.len() == 17);
        assert("silence_duration_ms"@.len() == 19);
        assert("type"@.len() == 4);
        crate::json::lemma_lookup_index(es@, "create_response"@, 0);
        assert(forall|j: int| 0 <= j < 1 ==> (#[trigger] es@[j]).0@ != "interrupt_response"@);
        crate::json::lemma_lookup_index(es@, "interrupt_response"@, 1);
        assert(forall|j: int| 0 <= j < 2 ==> (#[trigger] es@[j]).0@ != "prefix_padding_ms"@);
        crate::json::lemma_lookup_index(es@, "prefix_padding_ms"@, 2);
        assert(forall|j: int| 0 <= j < 3 ==> (#[trigger] es@[j]).0@ != "silence_duration_ms"@);
        crate::json::lemma_lookup_index(es@, "silence_duration_ms"@, 3);
        assert(forall|j: int| 0 <= j < 4 ==> (#[trigger] es@[j]).0@ != "type"@);
        crate::json::lemma_lookup_index(es@, "type"@, 4);
    }

    /// A parsed value's fields agree with the frame's fields.
    pub open spec fn is_wire_fields(self, v: JsonValue) -> bool {
        match v {
            JsonValue::Obj(es) => {
                &&& spec_lookup(es@, "create_response"@) == Some(
                    JsonValue::Bool(self.create_response),
                )
                &&& spec_lookup(es@, "interrupt_response"@) == Some(
                    JsonValue::Bool(self.interrupt_response),
                )
                &&& spec_int_field(es@, "prefix_padding_ms"@) == Some(
                    self.prefix_padding_ms as i64,
                )
                &&& spec_int_field(es@, "silence_duration_ms"@) == Some(
                    self.silence_duration_ms as i64,
                )
                &&& spec_str_field(es@, "type"@) == Some(self.kind.spec_name())
            },
            _ => false,
        }
    }
}

/// Input noise reduction.
#[derive(Clone, Debug, PartialEq)]
pub struct InputAudioNoiseReduction {
    /// `near_field` for a close microphone, `far_field` for a distant one.
    pub kind: String,
}

impl InputAudioNoiseReduction {
    /// Near-field reduction, for headsets and handsets.
    pub fn near() -> (r: Self)
        ensures
            r.kind@ == "near_field"@,
    {
        InputAudioNoiseReduction { kind: String::from_str("near_field") }
    }

    /// Far-field reduction, for laptop or room microphones.
    pub fn far() -> (r: Self)
        ensures
            r.kind@ == "far_field"@,
    {
        InputAudioNoiseReduction { kind: String::from_str("far_field") }
    }

    /// How the value renders on the wire.
    pub open spec fn is_wire(self, v: JsonValue) -> bool {
        match v {
            JsonValue::Obj(es) => es@.len() == 1 && es@[0].0@ == "type"@ && es@[0].1
                == JsonValue::Str(self.kind),
            _ => false,
        }
    }

    /// Renders the value.
    pub fn to_json(&self) -> (v: JsonValue)
        ensures
            self.is_wire(v),
    {
        let mut es: Vec<(String, JsonValue)> = Vec::new();
        es.push((String::from_str("type"), JsonValue::Str(self.kind.clone())));
        JsonValue::Obj(es)
    }
}

/// The session configuration negotiated with the service. The client
/// keeps only what it last sent; the service owns the actual state.
#[derive(Debug, PartialEq)]
pub struct Session {
    pub object: String,
    pub id: String,
    pub model: String,
    /// Output kinds: `text` alone, or `text` and `audio` (the default).
    pub modalities: Vec<String>,
    /// System instructions guiding the responses.
    pub instructions: Option<String>,
    /// Noise reduction for voice calls.
    pub input_audio_noise_reduction: Option<InputAudioNoiseReduction>,
    /// The speaking voice.
    pub voice: Option<String>,
    /// Input format; `wav`, with `wav48` for a 48 kHz sample rate.
    pub input_audio_format: String,
    /// Output format; `pcm` (the default) or `mp3`.
    pub output_audio_format: String,
    /// Cap on the textual length of a reply, as the service counts it.
    pub max_response_output_tokens: Option<String>,
    pub tool_choice: Option<String>,
    /// Tools the model may call; audio mode only.
    pub tools: Option<Vec<crate::chat::data::Function>>,
    pub turn_detection: Option<TurnDetection>,
    pub beta_fields: BetaFields,
}

impl Session {
    /// A fresh configuration: `wav` in, `pcm` out, default switches,
    /// nothing else set.
    pub fn new() -> (r: Self)
        ensures
            r.object@ == Seq::<char>::empty(),
            r.id@ == Seq::<char>::empty(),
            r.model@ == Seq::<char>::empty(),
            r.modalities@ == Seq::<String>::empty(),
            r.instructions is None,
            r.input_audio_noise_reduction is None,
            r.voice is None,
            r.input_audio_format@ == "wav"@,
            r.output_audio_format@ == "pcm"@,
            r.max_response_output_tokens is None,
            r.tool_choice is None,
            r.tools is None,
            r.turn_detection is None,
            r.beta_fields.is_default(),
    {
        Session {
            object: String::new(),
            id: String::new(),
            model: String::new(),
            modalities: Vec::new(),
            instructions: None,
            input_audio_noise_reduction: None,
            voice: None,
            input_audio_format: String::from_str("wav"),
            output_audio_format: String::from_str("pcm"),
            max_response_output_tokens: None,
            tool_choice: None,
            tools: None,
            turn_detection: None,
            beta_fields: BetaFields::new(),
        }
    }

    /// Selects the `glm-realtime-air` model.
    pub fn with_air_model(&mut self)
        ensures
            final(self).model@ == "glm-realtime-air"@,
            *final(self) == (Session { model: final(self).model, ..*old(self) }),
    {
        self.model = String::from_str("glm-realtime-air");
    }

    /// Selects the `glm-realtime-flash` model.
    pub fn with_flash_model(&mut self)
        ensures
            final(self).model@ == "glm-realtime-flash"@,
            *final(self) == (Session { model: final(self).model, ..*old(self) }),
    {
        self.model = String::from_str("glm-realtime-flash");
    }

    /// Sets the input audio format.
    pub fn with_input_audio_format(&mut self, input_audio_format: &str)
        ensures
            final(self).input_audio_format@ == input_audio_format@,
            *final(self) == (Session {
                input_audio_format: final(self).input_audio_format,
                ..*old(self)
            }),
    {
        self.input_audio_format = input_audio_format.to_owned();
    }

    /// Sets the output audio format.
    pub fn with_output_audio_format(&mut self, output_audio_format: &str)
        ensures
            final(self).output_audio_format@ == output_audio_format@,
            *final(self) == (Session {
                output_audio_format: final(self).output_audio_format,
                ..*old(self)
            }),
    {
        self.output_audio_format = output_audio_format.to_owned();
    }

    /// Sets the noise-reduction mode.
    pub fn with_input_audio_noise_reduction(
        &mut self,
        input_audio_noise_reduction: InputAudioNoiseReduction,
    )
        ensures
            *final(self) == (Session {
                input_audio_noise_reduction: Some(input_audio_noise_reduction),
                ..*old(self)
            }),
    {
        self.input_audio_noise_reduction = Some(input_audio_noise_reduction);
    }

    /// Sets the output kinds.
    pub fn with_modalities(&mut self, modalities: &[&str])
        ensures
            final(self).modalities@.map_values(|s: String| s@) == modalities@.map_values(
                |s: &str| s@,
            ),
            *final(self) == (Session { modalities: final(self).modalities, ..*old(self) }),
    {
        let mut out: Vec<String> = Vec::new();
        let n = modalities.len();
        let mut i: usize = 0;
        while i < n
            invariant
                n == modalities@.len(),
                0 <= i <= n,
                out@.len() == i,
                forall|k: int| 0 <= k < i ==> out@[k]@ == modalities@[k]@,
            decreases n - i,
        {
            out.push(modalities[i].to_owned());
            i = i + 1;
        }
        proof {
            assert(out@.map_values(|s: String| s@) =~= modalities@.map_values(|s: &str| s@));
        }
        self.modalities = out;
    }

    /// Sets the system instructions.
    pub fn with_instructions(&mut self, instructions: &str)
        ensures
            final(self).instructions matches Some(s) && s@ == instructions@,
            *final(self) == (Session { instructions: final(self).instructions, ..*old(self) }),
    {
        self.instructions = Some(instructions.to_owned());
    }

    /// Sets the speaking voice.
    pub fn with_voice(&mut self, voice: &str)
        ensures
            final(self).voice matches Some(s) && s@ == voice@,
            *final(self) == (Session { voice: final(self).voice, ..*old(self) }),
    {
        self.voice = Some(voice.to_owned());
    }

    /// Caps the reply length.
    pub fn with_max_response_output_tokens(&mut self, max_response_output_tokens: &str)
        ensures
            final(self).max_response_output_tokens matches Some(s) && s@
                == max_response_output_tokens@,
            *final(self) == (Session {
                max_response_output_tokens: final(self).max_response_output_tokens,
                ..*old(self)
            }),
    {
        self.max_response_output_tokens = Some(max_response_output_tokens.to_owned());
    }

    /// Sets the turn-detection mode.
    pub fn with_turn_detection(&mut self, turn_detection: &TurnDetection)
        ensures
            *final(self) == (Session { turn_detection: Some(*turn_detection), ..*old(self) }),
    {
        self.turn_detection = Some(*turn_detection);
    }

    /// Sets the extra switches.
    pub fn with_beta_fields(&mut self, beta_fields: &BetaFields)
        ensures
            *final(self) == (Session { beta_fields: *beta_fields, ..*old(self) }),
    {
        self.beta_fields = beta_fields.duplicate();
    }

    /// Sets the tool list. With server-side turn detection the service
    /// wants the turn-detection settings sent along in the same update.
    pub fn with_tools(&mut self, tools: &[crate::chat::data::Function])
        ensures
            final(self).tools matches Some(ts) && ts@ == tools@,
            *final(self) == (Session { tools: final(self).tools, ..*old(self) }),
    {
        let mut out: Vec<crate::chat::data::Function> = Vec::new();
        let n = tools.len();
        let mut i: usize = 0;
        while i < n
            invariant
                n == tools@.len(),
                0 <= i <= n,
                out@ == tools@.take(i as int),
            decreases n - i,
        {
            out.push(tools[i].duplicate());
            proof {
                assert(out@ =~= tools@.take(i as int + 1));
            }
            i = i + 1;
        }
        proof {
            assert(tools@.take(n as int) =~= tools@);
        }
        self.tools = Some(out);
    }

    /// Renders the configuration for a `session.update` envelope; the
    /// frame reads back to the same configuration, tool list included.
    #[verifier::rlimit(100)]
    pub fn to_json(&self) -> (v: JsonValue)
        ensures
            Session::json_ok(v),
            self.parsed_from(v),
    {
        let mut es: Vec<(String, JsonValue)> = Vec::new();
        es.push((String::from_str("object"), JsonValue::Str(self.object.clone())));
        es.push((String::from_str("id"), JsonValue::Str(self.id.clone())));
        es.push((String::from_str("model"), JsonValue::Str(self.model.clone())));
        let mut xs: Vec<JsonValue> = Vec::new();
        let n = self.modalities.len();
        let mut j: usize = 0;
        while j < n
            invariant
                n == self.modalities@.len(),
                0 <= j <= n,
                xs@.len() == j,
                forall|k: int|
                    0 <= k < j ==> (#[trigger] xs@[k] matches JsonValue::Str(st) && st@
                        == self.modalities@[k]@),
            decreases n - j,
        {
            xs.push(JsonValue::Str(self.modalities[j].clone()));
            j = j + 1;
        }
        es.push((String::from_str("modalities"), JsonValue::Arr(xs)));
        es.push((
            String::from_str("instructions"),
            match &self.instructions {
                Some(s) => JsonValue::Str(s.clone()),
                None => JsonValue::Null,
            },
        ));
        let nr_json = match &self.input_audio_noise_reduction {
            Some(nr) => {
                let nv = nr.to_json();
                proof {
                    let nes = nv->Obj_0;
                    crate::json::lemma_lookup_index(nes@, "type"@, 0);
                }
                nv
            },
            None => JsonValue::Null,
        };
        es.push((String::from_str("input_audio_noise_reduction"), nr_json));
        es.push((
            String::from_str("voice"),
            match &self.voice {
                Some(s) => JsonValue::Str(s.clone()),
                None => JsonValue::Null,
            },
        ));
        es.push((
            String::from_str("input_audio_format"),
            JsonValue::Str(self.input_audio_format.clone()),
        ));
        es.push((
            String::from_str("output_audio_format"),
            JsonValue::Str(self.output_audio_format.clone()),
        ));
        es.push((
            String::from_str("max_response_output_tokens"),
            match &self.max_response_output_tokens {
                Some(s) => JsonValue::Str(s.clone()),
                None => JsonValue::Null,
            },
        ));
        es.push((
            String::from_str("tool_choice"),
            match &self.tool_choice {
                Some(s) => JsonValue::Str(s.clone()),
                None => JsonValue::Null,
            },
        ));
        let td_json = match &self.turn_detection {
            Some(td) => {
                let tv = td.to_json();
                proof {
                    td.wire_readable(tv);
                }
                tv
            },
            None => JsonValue::Null,
        };
        es.push((String::from_str("turn_detection"), td_json));
        es.push((String::from_str("beta_fields"), self.beta_fields.to_json()));
        if let Some(ts) = &self.tools {
            let mut fs: Vec<JsonValue> = Vec::new();
            let m = ts.len();
            let mut i: usize = 0;
            while i < m
                invariant
                    m == ts@.len(),
                    0 <= i <= m,
                    fs@.len() == i,
                    forall|k: int|
                        0 <= k < i ==> crate::chat::data::Function::json_ok(#[trigger] fs@[k])
                            && ts@[k].parsed_from(fs@[k]),
                decreases m - i,
            {
                let fv = ts[i].to_json();
                proof {
                    ts@[i as int].wire_readable(fv);
                }
                fs.push(fv);
                i = i + 1;
            }
            es.push((String::from_str("tools"), JsonValue::Arr(fs)));
        }
        proof {
            reveal_strlit("object");
            reveal_strlit("id");
            reveal_strlit("model");
            reveal_strlit("modalities");
            reveal_strlit("instructions");
            reveal_strlit("input_audio_noise_reduction");
            reveal_strlit("voice");
            reveal_strlit("input_audio_format");
            reveal_strlit("output_audio_format");
            reveal_strlit("max_response_output_tokens");
            reveal_strlit("tool_choice");
            reveal_strlit("turn_detection");
            reveal_strlit("beta_fields");
            reveal_strlit("tools");
            reveal_strlit("type");
            assert("object"@.len() == 6);
            assert("id"@.len() == 2);
            assert("model"@.len() == 5);
            assert("modalities"@.len() == 10);
            assert("instructions"@.len() == 12);
            assert("input_audio_noise_reduction"@.len() == 27);
            assert("voice"@.len() == 5);
            assert("input_audio_format"@.len() == 18);
            assert("output_audio_format"@.len() == 19);
            assert("max_response_output_tokens"@.len() == 26);
            assert("tool_choice"@.len() == 11);
            assert("turn_detection"@.len() == 14);
            assert("beta_fields"@.len() == 11);
            assert("tools"@.len() == 5);
            assert("type"@.len() == 4);
            assert("model"@[0] == 'm');
            assert("voice"@[0] == 'v');
            assert("tools"@[0] == 't');
            assert("tool_choice"@[0] == 't');
            assert("beta_fields"@[0] == 'b');
            crate::json::lemma_lookup_index(es@, "object"@, 0);
            assert(forall|j2: int| 0 <= j2 < 1 ==> (#[trigger] es@[j2]).0@ != "id"@);
            crate::json::lemma_lookup_index(es@, "id"@, 1);
            assert(forall|j2: int| 0 <= j2 < 2 ==> (#[trigger] es@[j2]).0@ != "model"@);
            crate::json::lemma_lookup_index(es@, "model"@, 2);
            assert(forall|j2: int| 0 <= j2 < 3 ==> (#[trigger] es@[j2]).0@ != "modalities"@);
            crate::json::lemma_lookup_index(es@, "modalities"@, 3);
            assert(forall|j2: int| 0 <= j2 < 4 ==> (#[trigger] es@[j2]).0@ != "instructions"@);
            crate::json::lemma_lookup_index(es@, "instructions"@, 4);
            assert(forall|j2: int|
                0 <= j2 < 5 ==> (#[trigger] es@[j2]).0@ != "input_audio_noise_reduction"@);
            crate::json::lemma_lookup_index(es@, "input_audio_noise_reduction"@, 5);
            assert(forall|j2: int| 0 <= j2 < 6 ==> (#[trigger] es@[j2]).0@ != "voice"@);
            crate::json::lemma_lookup_index(es@, "voice"@, 6);
            assert(forall|j2: int| 0 <= j2 < 7 ==> (#[trigger] es@[j2]).0@ != "input_audio_format"@);
            crate::json::lemma_lookup_index(es@, "input_audio_format"@, 7);
            assert(forall|j2: int|
                0 <= j2 < 8 ==> (#[trigger] es@[j2]).0@ != "output_audio_format"@);
            crate::json::lemma_lookup_index(es@, "output_audio_format"@, 8);
            assert(forall|j2: int|
                0 <= j2 < 9 ==> (#[trigger] es@[j2]).0@ != "max_response_output_tokens"@);
            crate::json::lemma_lookup_index(es@, "max_response_output_tokens"@, 9);
            assert(forall|j2: int| 0 <= j2 < 10 ==> (#[trigger] es@[j2]).0@ != "tool_choice"@);
            crate::json::lemma_lookup_index(es@, "tool_choice"@, 10);
            assert(forall|j2: int| 0 <= j2 < 11 ==> (#[trigger] es@[j2]).0@ != "turn_detection"@);
            crate::json::lemma_lookup_index(es@, "turn_detection"@, 11);
            assert(forall|j2: int| 0 <= j2 < 12 ==> (#[trigger] es@[j2]).0@ != "beta_fields"@);
            crate::json::lemma_lookup_index(es@, "beta_fields"@, 12);
            if self.tools is Some {
                assert(forall|j2: int| 0 <= j2 < 13 ==> (#[trigger] es@[j2]).0@ != "tools"@);
                crate::json::lemma_lookup_index(es@, "tools"@, 13);
            } else {
                assert(forall|j2: int|
                    0 <= j2 < es@.len() ==> (#[trigger] es@[j2]).0@ != "tools"@);
                crate::json::lemma_lookup_none(es@, "tools"@);
            }
        }
        JsonValue::Obj(es)
    }

    /// The frame shape a session payload must have to be read back.
    pub open spec fn json_ok(v: JsonValue) -> bool {
        match v {
            JsonValue::Obj(es) => {
                &&& spec_opt_str(es@, "object"@) is Some
                &&& spec_opt_str(es@, "id"@) is Some
                &&& spec_opt_str(es@, "model"@) is Some
                &&& spec_opt_str(es@, "instructions"@) is Some
                &&& spec_opt_str(es@, "voice"@) is Some
                &&& spec_opt_str(es@, "input_audio_format"@) is Some
                &&& spec_opt_str(es@, "output_audio_format"@) is Some
                &&& spec_opt_str(es@, "max_response_output_tokens"@) is Some
                &&& spec_opt_str(es@, "tool_choice"@) is Some
                &&& match spec_lookup(es@, "modalities"@) {
                    None => true,
                    Some(JsonValue::Null) => true,
                    Some(JsonValue::Arr(xs)) => forall|j: int|
                        0 <= j < xs@.len() ==> (#[trigger] xs@[j]) is Str,
                    Some(_) => false,
                }
                &&& match spec_lookup(es@, "input_audio_noise_reduction"@) {
                    None => true,
                    Some(JsonValue::Null) => true,
                    Some(nv) => nv matches JsonValue::Obj(nes) && spec_str_field(nes@, "type"@)
                        is Some,
                }
                &&& match spec_lookup(es@, "turn_detection"@) {
                    None => true,
                    Some(JsonValue::Null) => true,
                    Some(tv) => TurnDetection::json_ok(tv),
                }
                &&& match spec_lookup(es@, "tools"@) {
                    None => true,
                    Some(JsonValue::Null) => true,
                    Some(JsonValue::Arr(fs)) => forall|j: int|
                        0 <= j < fs@.len() ==> #[trigger] crate::chat::data::Function::json_ok(
                            fs@[j],
                        ),
                    Some(_) => false,
                }
                &&& match spec_lookup(es@, "beta_fields"@) {
                    Some(bv) => BetaFields::json_ok(bv),
                    None => false,
                }
            },
            _ => false,
        }
    }

    /// How a parsed configuration relates to its frame: each field holds
    /// what the frame holds, with the documented defaults for absent ones.
    pub open spec fn parsed_from(self, v: JsonValue) -> bool {
        match v {
            JsonValue::Obj(es) => {
                &&& self.object@ == spec_str_or_empty(es@, "object"@)
                &&& self.id@ == spec_str_or_empty(es@, "id"@)
                &&& self.model@ == spec_str_or_empty(es@, "model"@)
                &&& self.input_audio_format@ == spec_str_or_empty(es@, "input_audio_format"@)
                &&& self.output_audio_format@ == spec_str_or_empty(es@, "output_audio_format"@)
                &&& spec_opt_str(es@, "instructions"@) == Some(spec_opt_view(self.instructions))
                &&& spec_opt_str(es@, "voice"@) == Some(spec_opt_view(self.voice))
                &&& spec_opt_str(es@, "max_response_output_tokens"@) == Some(
                    spec_opt_view(self.max_response_output_tokens),
                )
                &&& spec_opt_str(es@, "tool_choice"@) == Some(spec_opt_view(self.tool_choice))
                &&& match spec_lookup(es@, "modalities"@) {
                    None => self.modalities@.len() == 0,
                    Some(JsonValue::Null) => self.modalities@.len() == 0,
                    Some(JsonValue::Arr(xs)) => self.modalities@.len() == xs@.len() && forall|
                        j: int,
                    |
                        0 <= j < xs@.len() ==> (#[trigger] xs@[j] matches JsonValue::Str(st)
                            && self.modalities@[j]@ == st@),
                    Some(_) => false,
                }
                &&& match spec_lookup(es@, "input_audio_noise_reduction"@) {
                    None => self.input_audio_noise_reduction is None,
                    Some(JsonValue::Null) => self.input_audio_noise_reduction is None,
                    Some(nv) => nv matches JsonValue::Obj(nes)
                        && self.input_audio_noise_reduction matches Some(nr) && Some(nr.kind@)
                        == spec_str_field(nes@, "type"@),
                }
                &&& match spec_lookup(es@, "turn_detection"@) {
                    None => self.turn_detection is None,
                    Some(JsonValue::Null) => self.turn_detection is None,
                    Some(tv) => self.turn_detection matches Some(td) && td.is_wire_fields(tv),
                }
                &&& match spec_lookup(es@, "tools"@) {
                    None => self.tools is None,
                    Some(JsonValue::Null) => self.tools is None,
                    Some(JsonValue::Arr(fs)) => self.tools matches Some(ts) && ts@.len()
                        == fs@.len() && (forall|j: int|
                        0 <= j < fs@.len() ==> (#[trigger] ts@[j]).parsed_from(fs@[j])),
                    Some(_) => false,
                }
                &&& match spec_lookup(es@, "beta_fields"@) {
                    Some(bv) => self.beta_fields.parsed_from(bv),
                    None => false,
                }
            },
            _ => false,
        }
    }

    /// Reads a configuration out of a frame value.
    pub fn from_json(v: &JsonValue) -> (r: Option<Session>)
        ensures
            r is Some <==> Session::json_ok(*v),
            match r {
                Some(s) => s.parsed_from(*v),
                None => true,
            },
    {
        let es = match v.as_obj() {
            Some(es) => es,
            None => {
                return None;
            },
        };
        let object = match opt_str_field(es, "object") {
            Ok(o) => str_or_empty(o),
            Err(_) => {
                return None;
            },
        };
        let id = match opt_str_field(es, "id") {
            Ok(o) => str_or_empty(o),
            Err(_) => {
                return None;
            },
        };
        let model = match opt_str_field(es, "model") {
            Ok(o) => str_or_empty(o),
            Err(_) => {
                return None;
            },
        };
        let input_audio_format = match opt_str_field(es, "input_audio_format") {
            Ok(o) => str_or_empty(o),
            Err(_) => {
                return None;
            },
        };
        let output_audio_format = match opt_str_field(es, "output_audio_format") {
            Ok(o) => str_or_empty(o),
            Err(_) => {
                return None;
            },
        };
        let instructions = match opt_str_field(es, "instructions") {
            Ok(o) => o,
            Err(_) => {
                return None;
            },
        };
        let voice = match opt_str_field(es, "voice") {
            Ok(o) => o,
            Err(_) => {
                return None;
            },
        };
        let max_response_output_tokens = match opt_str_field(es, "max_response_output_tokens") {
            Ok(o) => o,
            Err(_) => {
                return None;
            },
        };
        let tool_choice = match opt_str_field(es, "tool_choice") {
            Ok(o) => o,
            Err(_) => {
                return None;
            },
        };
        let modalities = match lookup(es, "modalities") {
            None => Vec::new(),
            Some(JsonValue::Null) => Vec::new(),
            Some(JsonValue::Arr(xs)) => {
                let mut out: Vec<String> = Vec::new();
                let n = xs.len();
                let mut j: usize = 0;
                while j < n
                    invariant
                        n == xs@.len(),
                        0 <= j <= n,
                        out@.len() == j,
                        *v == JsonValue::Obj(*es),
                        spec_lookup(es@, "modalities"@) == Some(JsonValue::Arr(*xs)),
                        forall|k: int|
                            0 <= k < j ==> (#[trigger] xs@[k] matches JsonValue::Str(st)
                                && out@[k]@ == st@),
                    decreases n - j,
                {
                    match &xs[j] {
                        JsonValue::Str(st) => out.push(st.clone()),
                        _ => {
                            return None;
                        },
                    }
                    j = j + 1;
                }
                out
            },
            Some(_) => {
                return None;
            },
        };
        let input_audio_noise_reduction = match lookup(es, "input_audio_noise_reduction") {
            None => None,
            Some(JsonValue::Null) => None,
            Some(nv) => match nv.as_obj() {
                Some(nes) => match req_str_field(nes, "type") {
                    Ok(kind) => Some(InputAudioNoiseReduction { kind }),
                    Err(_) => {
                        return None;
                    },
                },
                None => {
                    return None;
                },
            },
        };
        let turn_detection = match lookup(es, "turn_detection") {
            None => None,
            Some(JsonValue::Null) => None,
            Some(tv) => match TurnDetection::from_json(tv) {
                Some(td) => Some(td),
                None => {
                    return None;
                },
            },
        };
        let tools = match lookup(es, "tools") {
            None => None,
            Some(JsonValue::Null) => None,
            Some(JsonValue::Arr(fs)) => {
                let mut ts: Vec<crate::chat::data::Function> = Vec::new();
                let n = fs.len();
                let mut j: usize = 0;
                while j < n
                    invariant
                        n == fs@.len(),
                        0 <= j <= n,
                        ts@.len() == j,
                        *v == JsonValue::Obj(*es),
                        spec_lookup(es@, "tools"@) == Some(JsonValue::Arr(*fs)),
                        forall|k: int|
                            0 <= k < j ==> crate::chat::data::Function::json_ok(
                                #[trigger] fs@[k],
                            ) && ts@[k].parsed_from(fs@[k]),
                    decreases n - j,
                {
                    match crate::chat::data::Function::from_json(&fs[j]) {
                        Some(f) => ts.push(f),
                        None => {
                            proof {
                                if Session::json_ok(*v) {
                                    assert((*v)->Obj_0 == *es);
                                    assert(match spec_lookup(es@, "tools"@) {
                                        None => true,
                                        Some(JsonValue::Null) => true,
                                        Some(JsonValue::Arr(fs2)) => forall|k: int|
                                            0 <= k < fs2@.len()
                                                ==> #[trigger] crate::chat::data::Function::json_ok(
                                                fs2@[k],
                                            ),
                                        Some(_) => false,
                                    });
                                    assert(crate::chat::data::Function::json_ok(fs@[j as int]));
                                    assert(false);
                                }
                            }
                            return None;
                        },
                    }
                    j = j + 1;
                }
                Some(ts)
            },
            Some(_) => {
                return None;
            },
        };
        let beta_fields = match lookup(es, "beta_fields") {
            Some(bv) => match BetaFields::from_json(bv) {
                Some(b) => b,
                None => {
                    return None;
                },
            },
            None => {
                return None;
            },
        };
        Some(
            Session {
                object,
                id,
                model,
                modalities,
                instructions,
                input_audio_noise_reduction,
                voice,
                input_audio_format,
                output_audio_format,
                max_response_output_tokens,
                tool_choice,
                tools,
                turn_detection,
                beta_fields,
            },
        )
    }
}

/// The view of an optional string.
pub open spec fn spec_opt_view(o: Option<String>) -> Option<Seq<char>> {
    match o {
        Some(s) => Some(s@),
        None => None,
    }
}

/// The string a field holds, or empty when the field is absent or `null`.
pub open spec fn spec_str_or_empty(entries: Seq<(String, JsonValue)>, key: Seq<char>) -> Seq<
    char,
> {
    match spec_opt_str(entries, key) {
        Some(Some(s)) => s,
        _ => Seq::<char>::empty(),
    }
}

/// Unwraps an optional string to itself or the empty string.
fn str_or_empty(o: Option<String>) -> (r: String)
    ensures
        match o {
            Some(s) => r@ == s@,
            None => r@ == Seq::<char>::empty(),
        },
{
    match o {
        Some(s) => s,
        None => String::new(),
    }
}

/// A conversation on an open session; one per session.
#[derive(Clone, Debug, PartialEq)]
pub struct Conversation {
    pub object: String,
    pub id: String,
}

impl Conversation {
    /// The frame shape of a conversation payload.
    pub open spec fn json_ok(v: JsonValue) -> bool {
        match v {
            JsonValue::Obj(es) => spec_str_field(es@, "object"@) is Some && spec_str_field(
                es@,
                "id"@,
            ) is Some,
            _ => false,
        }
    }

    /// How a parsed conversation relates to its frame.
    pub open spec fn parsed_from(self, v: JsonValue) -> bool {
        match v {
            JsonValue::Obj(es) => spec_str_field(es@, "object"@) == Some(self.object@)
                && spec_str_field(es@, "id"@) == Some(self.id@),
            _ => false,
        }
    }

    /// Reads a conversation out of a frame value.
    pub fn from_json(v: &JsonValue) -> (r: Option<Conversation>)
        ensures
            r is Some <==> Conversation::json_ok(*v),
            match r {
                Some(c) => c.parsed_from(*v),
                None => true,
            },
    {
        let es = match v.as_obj() {
            Some(es) => es,
            None => {
                return None;
            },
        };
        let object = match req_str_field(es, "object") {
            Ok(s) => s,
            Err(_) => {
                return None;
            },
        };
        let id = match req_str_field(es, "id") {
            Ok(s) => s,
            Err(_) => {
                return None;
            },
        };
        Some(Conversation { object, id })
    }
}

/// The state of a conversation item.
#[derive(Clone, Copy, Debug, PartialEq, Eq, Structural)]
pub enum ConversationItemStatus {
    Completed,
    Incomplete,
    InProgress,
}

impl ConversationItemStatus {
    /// The wire name of the state.
    pub open spec fn spec_name(self) -> Seq<char> {
        match self {
            ConversationItemStatus::Completed => "completed"@,
            ConversationItemStatus::Incomplete => "incomplete"@,
            ConversationItemStatus::InProgress => "in_progress"@,
        }
    }

    /// The wire name of the state.
    pub fn as_ref(&self) -> (r: &'static str)
        ensures
            r@ == self.spec_name(),
    {
        match self {
            ConversationItemStatus::Completed => "completed",
            ConversationItemStatus::Incomplete => "incomplete",
            ConversationItemStatus::InProgress => "in_progress",
        }
    }

    /// The state a wire name denotes; anything unrecognized reads as
    /// in-progress, for compatibility with states added by the service.
    pub open spec fn spec_parse(s: Seq<char>) -> ConversationItemStatus {
        if s == "completed"@ {
            ConversationItemStatus::Completed
        } else if s == "incomplete"@ {
            ConversationItemStatus::Incomplete
        } else {
            ConversationItemStatus::InProgress
        }
    }

    /// The state a wire name denotes, as [`Self::spec_parse`].
    pub fn parse(s: &str) -> (r: ConversationItemStatus)
        ensures
            r == ConversationItemStatus::spec_parse(s@),
    {
        if str_eq(s, "completed") {
            ConversationItemStatus::Completed
        } else if str_eq(s, "incomplete") {
            ConversationItemStatus::Incomplete
        } else {
            ConversationItemStatus::InProgress
        }
    }
}

/// One part of a message's content.
#[derive(Clone, Debug, PartialEq)]
pub enum ContentPart {
    /// An audio part, holding its transcript.
    Audio(String),
    /// A text part.
    Text(String),
    /// An audio part supplied by the caller.
    InputAudio,
}

/// The string under `key`, or empty when the field is absent or not a
/// string; how a content part's payload text reads.
pub open spec fn spec_str_or_default(entries: Seq<(String, JsonValue)>, key: Seq<char>) -> Seq<
    char,
> {
    match spec_lookup(entries, key) {
        Some(JsonValue::Str(s)) => s@,
        _ => Seq::<char>::empty(),
    }
}

impl ContentPart {
    /// What a content-part frame denotes: a `text` or `audio` object by
    /// its `type`, with a missing payload reading as empty; an object
    /// whose `type` is absent, empty or not a string reads as an audio
    /// part with empty text — any `transcript` it may carry is ignored,
    /// since only the `audio` tag gives that field a meaning; an
    /// unrecognized non-empty type, or a frame that is not an object,
    /// denotes nothing.
    pub open spec fn spec_parse(v: JsonValue) -> Option<PartShape> {
        match v {
            JsonValue::Obj(es) => match spec_lookup(es@, "type"@) {
                Some(JsonValue::Str(t)) => if t@ == "text"@ {
                    Some(PartShape::Text(spec_str_or_default(es@, "text"@)))
                } else if t@ == "audio"@ {
                    Some(PartShape::Audio(spec_str_or_default(es@, "transcript"@)))
                } else if t@ == "input_audio"@ {
                    Some(PartShape::InputAudio)
                } else if t@.len() > 0 {
                    None
                } else {
                    Some(PartShape::Audio(Seq::<char>::empty()))
                },
                _ => Some(PartShape::Audio(Seq::<char>::empty())),
            },
            _ => None,
        }
    }

    /// Reads one content part, with the view of [`Self::spec_parse`].
    pub fn from_value(v: &JsonValue) -> (r: Option<ContentPart>)
        ensures
            r is Some <==> ContentPart::spec_parse(*v) is Some,
            match r {
                Some(p) => ContentPart::spec_parse(*v) matches Some(q) && p.matches_spec(q),
                None => true,
            },
    {
        let es = match v.as_obj() {
            Some(es) => es,
            None => {
                return None;
            },
        };
        match lookup(es, "type") {
            Some(JsonValue::Str(t)) => {
                if str_eq(t.as_str(), "text") {
                    Some(ContentPart::Text(str_field_or_default(es, "text")))
                } else if str_eq(t.as_str(), "audio") {
                    Some(ContentPart::Audio(str_field_or_default(es, "transcript")))
                } else if str_eq(t.as_str(), "input_audio") {
                    Some(ContentPart::InputAudio)
                } else if !t.as_str().is_empty() {
                    None
                } else {
                    Some(ContentPart::Audio(String::new()))
                }
            },
            _ => Some(ContentPart::Audio(String::new())),
        }
    }

    /// The part has the same variant and text as its spec-level shape.
    pub open spec fn matches_spec(self, q: PartShape) -> bool {
        match (self, q) {
            (ContentPart::Audio(a), PartShape::Audio(b)) => a@ == b,
            (ContentPart::Text(a), PartShape::Text(b)) => a@ == b,
            (ContentPart::InputAudio, PartShape::InputAudio) => true,
            _ => false,
        }
    }

    /// The spec-level shape of this part.
    pub open spec fn shape(self) -> PartShape {
        match self {
            ContentPart::Audio(a) => PartShape::Audio(a@),
            ContentPart::Text(a) => PartShape::Text(a@),
            ContentPart::InputAudio => PartShape::InputAudio,
        }
    }

    /// How a part renders on the wire.
    pub open spec fn is_wire(self, v: JsonValue) -> bool {
        match v {
            JsonValue::Obj(es) => match self {
                ContentPart::Audio(t) => {
                    &&& es@.len() == 2
                    &&& es@[0].0@ == "type"@ && (es@[0].1 matches JsonValue::Str(s) && s@
                        == "audio"@)
                    &&& es@[1].0@ == "transcript"@ && es@[1].1 == JsonValue::Str(t)
                },
                ContentPart::Text(t) => {
                    &&& es@.len() == 2
                    &&& es@[0].0@ == "type"@ && (es@[0].1 matches JsonValue::Str(s) && s@
                        == "text"@)
                    &&& es@[1].0@ == "text"@ && es@[1].1 == JsonValue::Str(t)
                },
                ContentPart::InputAudio => {
                    &&& es@.len() == 1
                    &&& es@[0].0@ == "type"@ && (es@[0].1 matches JsonValue::Str(s) && s@
                        == "input_audio"@)
                },
            },
            _ => false,
        }
    }

    /// An exactly rendered part reads back as the same part.
    pub proof fn wire_readable(self, v: JsonValue)
        requires
            self.is_wire(v),
        ensures
            ContentPart::spec_parse(v) matches Some(q) && self.matches_spec(q),
    {
        reveal_strlit("type");
        reveal_strlit("text");
        reveal_strlit("audio");
        reveal_strlit("transcript");
        reveal_strlit("input_audio");
        let es = v->Obj_0;
        assert("type"@.len() == 4);
        assert("text"@.len() == 4);
        assert("audio"@.len() == 5);
        assert("transcript"@.len() == 10);
        assert("input_audio"@.len() == 11);
        assert("type"@[1] == 'y');
        assert("text"@[1] == 'e');
        crate::json::lemma_lookup_index(es@, "type"@, 0);
        match self {
            ContentPart::Audio(_) => {
                assert(forall|j: int| 0 <= j < 1 ==> (#[trigger] es@[j]).0@ != "transcript"@);
                crate::json::lemma_lookup_index(es@, "transcript"@, 1);
            },
            ContentPart::Text(_) => {
                assert(forall|j: int| 0 <= j < 1 ==> (#[trigger] es@[j]).0@ != "text"@);
                crate::json::lemma_lookup_index(es@, "text"@, 1);
            },
            ContentPart::InputAudio => {},
        }
    }

    /// Renders the part.
    pub fn to_json(&self) -> (v: JsonValue)
        ensures
            self.is_wire(v),
    {
        let mut es: Vec<(String, JsonValue)> = Vec::new();
        match self {
            ContentPart::Audio(t) => {
                es.push((String::from_str("type"), JsonValue::Str(String::from_str("audio"))));
                es.push((String::from_str("transcript"), JsonValue::Str(t.clone())));
            },
            ContentPart::Text(t) => {
                es.push((String::from_str("type"), JsonValue::Str(String::from_str("text"))));
                es.push((String::from_str("text"), JsonValue::Str(t.clone())));
            },
            ContentPart::InputAudio => {
                es.push((
                    String::from_str("type"),
                    JsonValue::Str(String::from_str("input_audio")),
                ));
            },
        }
        JsonValue::Obj(es)
    }
}

/// The spec-level shape of a content part: its variant and its text.
pub enum PartShape {
    Audio(Seq<char>),
    Text(Seq<char>),
    InputAudio,
}

/// Reads the string under `key`, or empty when absent or not a string.
pub fn str_field_or_default(entries: &Vec<(String, JsonValue)>, key: &str) -> (r: String)
    ensures
        r@ == spec_str_or_default(entries@, key@),
{
    match lookup(entries, key) {
        Some(JsonValue::Str(s)) => s.clone(),
        _ => String::new(),
    }
}

/// One entry of a conversation: a message, a function call, or a
/// function call's result.
#[derive(Clone, Debug, PartialEq)]
pub struct ConversationItem {
    /// Always `realtime.item`.
    pub object: String,
    /// `message`, `function_call` or `function_call_output`.
    pub kind: String,
    pub id: String,
    /// The item's state.
    pub status: ConversationItemStatus,
    /// The message's content parts.
    pub content: Vec<ContentPart>,
    /// The sender, for `message` items.
    pub role: Option<Role>,
    /// The called function's name, for `function_call` items.
    pub name: Option<String>,
    /// The call's arguments, for `function_call` items.
    pub arguments: Option<String>,
    /// The call's result, for `function_call_output` items.
    pub output: Option<String>,
}

impl ConversationItem {
    /// A fresh, empty, incomplete item.
    pub fn new() -> (r: Self)
        ensures
            r.object@ == Seq::<char>::empty(),
            r.kind@ == Seq::<char>::empty(),
            r.id@ == Seq::<char>::empty(),
            r.status == ConversationItemStatus::Incomplete,
            r.content@ == Seq::<ContentPart>::empty(),
            r.role is None,
            r.name is None,
            r.arguments is None,
            r.output is None,
    {
        ConversationItem {
            object: String::new(),
            kind: String::new(),
            id: String::new(),
            status: ConversationItemStatus::Incomplete,
            content: Vec::new(),
            role: None,
            name: None,
            arguments: None,
            output: None,
        }
    }

    /// Sets the sender; meaningful for `message` items only.
    pub fn with_role(&mut self, role: Role)
        ensures
            *final(self) == (ConversationItem { role: Some(role), ..*old(self) }),
    {
        self.role = Some(role);
    }

    /// Turns the item into a function call's result. The caller must not
    /// send such an item before the `response.done` event of the response
    /// that requested the call has been observed: the session does not
    /// enforce that order, and the service rejects or ignores an early
    /// result.
    pub fn with_function_call_output(&mut self, output: &str)
        ensures
            final(self).kind@ == "function_call_output"@,
            final(self).output matches Some(s) && s@ == output@,
            *final(self) == (ConversationItem {
                kind: final(self).kind,
                output: final(self).output,
                ..*old(self)
            }),
    {
        self.kind = String::from_str("function_call_output");
        self.output = Some(output.to_owned());
    }

    /// The frame shape a conversation item must have to be read back.
    pub open spec fn json_ok(v: JsonValue) -> bool {
        match v {
            JsonValue::Obj(es) => {
                &&& spec_str_field(es@, "object"@) is Some
                &&& spec_str_field(es@, "type"@) is Some
                &&& spec_str_field(es@, "id"@) is Some
                &&& spec_str_field(es@, "status"@) is Some
                &&& spec_opt_str(es@, "name"@) is Some
                &&& spec_opt_str(es@, "arguments"@) is Some
                &&& spec_opt_str(es@, "output"@) is Some
                &&& match spec_lookup(es@, "role"@) {
                    None => true,
                    Some(JsonValue::Null) => true,
                    Some(JsonValue::Str(s)) => s@ == "system"@ || s@ == "user"@ || s@
                        == "assistant"@,
                    Some(_) => false,
                }
                &&& match spec_lookup(es@, "content"@) {
                    None => true,
                    Some(JsonValue::Null) => true,
                    Some(JsonValue::Arr(xs)) => forall|j: int|
                        0 <= j < xs@.len() ==> ContentPart::spec_parse(#[trigger] xs@[j]) is Some,
                    Some(_) => false,
                }
            },
            _ => false,
        }
    }

    /// How a parsed item relates to its frame.
    pub open spec fn parsed_from(self, v: JsonValue) -> bool {
        match v {
            JsonValue::Obj(es) => {
                &&& spec_str_field(es@, "object"@) == Some(self.object@)
                &&& spec_str_field(es@, "type"@) == Some(self.kind@)
                &&& spec_str_field(es@, "id"@) == Some(self.id@)
                &&& spec_str_field(es@, "status"@) matches Some(st) && self.status
                    == ConversationItemStatus::spec_parse(st)
                &&& spec_opt_str(es@, "name"@) == Some(spec_opt_view(self.name))
                &&& spec_opt_str(es@, "arguments"@) == Some(spec_opt_view(self.arguments))
                &&& spec_opt_str(es@, "output"@) == Some(spec_opt_view(self.output))
                &&& match spec_lookup(es@, "role"@) {
                    None => self.role is None,
                    Some(JsonValue::Null) => self.role is None,
                    Some(JsonValue::Str(s)) => self.role matches Some(ro) && ro.spec_name() == s@,
                    Some(_) => false,
                }
                &&& match spec_lookup(es@, "content"@) {
                    None => self.content@.len() == 0,
                    Some(JsonValue::Null) => self.content@.len() == 0,
                    Some(JsonValue::Arr(xs)) => self.content@.len() == xs@.len() && forall|j: int|
                        0 <= j < xs@.len() ==> (ContentPart::spec_parse(#[trigger] xs@[j])
                            matches Some(q) && self.content@[j].matches_spec(q)),
                    Some(_) => false,
                }
            },
            _ => false,
        }
    }

    /// Reads an item out of a frame value.
    pub fn from_json(v: &JsonValue) -> (r: Option<ConversationItem>)
        ensures
            r is Some <==> ConversationItem::json_ok(*v),
            match r {
                Some(it) => it.parsed_from(*v),
                None => true,
            },
    {
        let es = match v.as_obj() {
            Some(es) => es,
            None => {
                return None;
            },
        };
        let object = match req_str_field(es, "object") {
            Ok(s) => s,
            Err(_) => {
                return None;
            },
        };
        let kind = match req_str_field(es, "type") {
            Ok(s) => s,
            Err(_) => {
                return None;
            },
        };
        let id = match req_str_field(es, "id") {
            Ok(s) => s,
            Err(_) => {
                return None;
            },
        };
        let status = match req_str_field(es, "status") {
            Ok(s) => ConversationItemStatus::parse(s.as_str()),
            Err(_) => {
                return None;
            },
        };
        let name = match opt_str_field(es, "name") {
            Ok(o) => o,
            Err(_) => {
                return None;
            },
        };
        let arguments = match opt_str_field(es, "arguments") {
            Ok(o) => o,
            Err(_) => {
                return None;
            },
        };
        let output = match opt_str_field(es, "output") {
            Ok(o) => o,
            Err(_) => {
                return None;
            },
        };
        let role = match lookup(es, "role") {
            None => None,
            Some(JsonValue::Null) => None,
            Some(JsonValue::Str(s)) => match Role::from_name(s.as_str()) {
                Some(ro) => Some(ro),
                None => {
                    return None;
                },
            },
            Some(_) => {
                return None;
            },
        };
        let content = match lookup(es, "content") {
            None => Vec::new(),
            Some(JsonValue::Null) => Vec::new(),
            Some(JsonValue::Arr(xs)) => {
                let mut out: Vec<ContentPart> = Vec::new();
                let n = xs.len();
                let mut j: usize = 0;
                while j < n
                    invariant
                        n == xs@.len(),
                        0 <= j <= n,
                        out@.len() == j,
                        *v == JsonValue::Obj(*es),
                        spec_lookup(es@, "content"@) == Some(JsonValue::Arr(*xs)),
                        forall|k: int|
                            0 <= k < j ==> (ContentPart::spec_parse(#[trigger] xs@[k])
                                matches Some(q) && out@[k].matches_spec(q)),
                    decreases n - j,
                {
                    match ContentPart::from_value(&xs[j]) {
                        Some(p) => out.push(p),
                        None => {
                            return None;
                        },
                    }
                    j = j + 1;
                }
                out
            },
            Some(_) => {
                return None;
            },
        };
        Some(ConversationItem { object, kind, id, status, content, role, name, arguments, output })
    }

    /// Renders the item for a `conversation.item.create` envelope; the
    /// frame reads back to an item with the same fields.
    #[verifier::rlimit(100)]
    pub fn to_json(&self) -> (v: JsonValue)
        ensures
            ConversationItem::json_ok(v),
            self.parsed_from(v),
    {
        let mut es: Vec<(String, JsonValue)> = Vec::new();
        es.push((String::from_str("object"), JsonValue::Str(self.object.clone())));
        es.push((String::from_str("type"), JsonValue::Str(self.kind.clone())));
        es.push((String::from_str("id"), JsonValue::Str(self.id.clone())));
        es.push((
            String::from_str("status"),
            JsonValue::Str(String::from_str(self.status.as_ref())),
        ));
        let mut xs: Vec<JsonValue> = Vec::new();
        let n = self.content.len();
        let mut j: usize = 0;
        while j < n
            invariant
                n == self.content@.len(),
                0 <= j <= n,
                xs@.len() == j,
                forall|k: int|
                    0 <= k < j ==> (ContentPart::spec_parse(#[trigger] xs@[k]) matches Some(q)
                        && self.content@[k].matches_spec(q)),
            decreases n - j,
        {
            let w = self.content[j].to_json();
            proof {
                self.content@[j as int].wire_readable(w);
            }
            xs.push(w);
            j = j + 1;
        }
        es.push((String::from_str("content"), JsonValue::Arr(xs)));
        es.push((
            String::from_str("role"),
            match &self.role {
                Some(ro) => JsonValue::Str(String::from_str(ro.as_ref())),
                None => JsonValue::Null,
            },
        ));
        es.push((
            String::from_str("arguments"),
            match &self.arguments {
                Some(s) => JsonValue::Str(s.clone()),
                None => JsonValue::Null,
            },
        ));
        es.push((
            String::from_str("output"),
            match &self.output {
                Some(s) => JsonValue::Str(s.clone()),
                None => JsonValue::Null,
            },
        ));
        if let Some(nm) = &self.name {
            es.push((String::from_str("name"), JsonValue::Str(nm.clone())));
        }
        proof {
            reveal_strlit("object");
            reveal_strlit("type");
            reveal_strlit("id");
            reveal_strlit("status");
            reveal_strlit("content");
            reveal_strlit("role");
            reveal_strlit("arguments");
            reveal_strlit("output");
            reveal_strlit("name");
            assert("object"@.len() == 6);
            assert("type"@.len() == 4);
            assert("id"@.len() == 2);
            assert("status"@.len() == 6);
            assert("content"@.len() == 7);
            assert("role"@.len() == 4);
            assert("arguments"@.len() == 9);
            assert("output"@.len() == 6);
            assert("name"@.len() == 4);
            assert("object"@[0] == 'o');
            assert("status"@[0] == 's');
            assert("output"@[0] == 'o');
            assert("object"@[1] == 'b');
            assert("output"@[1] == 'u');
            assert("type"@[0] == 't');
            assert("role"@[0] == 'r');
            assert("name"@[0] == 'n');
            crate::json::lemma_lookup_index(es@, "object"@, 0);
            assert(forall|j2: int| 0 <= j2 < 1 ==> (#[trigger] es@[j2]).0@ != "type"@);
            crate::json::lemma_lookup_index(es@, "type"@, 1);
            assert(forall|j2: int| 0 <= j2 < 2 ==> (#[trigger] es@[j2]).0@ != "id"@);
            crate::json::lemma_lookup_index(es@, "id"@, 2);
            assert(forall|j2: int| 0 <= j2 < 3 ==> (#[trigger] es@[j2]).0@ != "status"@);
            crate::json::lemma_lookup_index(es@, "status"@, 3);
            assert(forall|j2: int| 0 <= j2 < 4 ==> (#[trigger] es@[j2]).0@ != "content"@);
            crate::json::lemma_lookup_index(es@, "content"@, 4);
            assert(forall|j2: int| 0 <= j2 < 5 ==> (#[trigger] es@[j2]).0@ != "role"@);
            crate::json::lemma_lookup_index(es@, "role"@, 5);
            assert(forall|j2: int| 0 <= j2 < 6 ==> (#[trigger] es@[j2]).0@ != "arguments"@);
            crate::json::lemma_lookup_index(es@, "arguments"@, 6);
            assert(forall|j2: int| 0 <= j2 < 7 ==> (#[trigger] es@[j2]).0@ != "output"@);
            crate::json::lemma_lookup_index(es@, "output"@, 7);
            if self.name is Some {
                assert(forall|j2: int| 0 <= j2 < 8 ==> (#[trigger] es@[j2]).0@ != "name"@);
                crate::json::lemma_lookup_index(es@, "name"@, 8);
            } else {
                assert(forall|j2: int|
                    0 <= j2 < es@.len() ==> (#[trigger] es@[j2]).0@ != "name"@);
                crate::json::lemma_lookup_none(es@, "name"@);
            }
            assert(ConversationItemStatus::spec_parse(self.status.spec_name()) == self.status)
                by {
                reveal_strlit("completed");
                reveal_strlit("incomplete");
                reveal_strlit("in_progress");
                assert("completed"@.len() == 9);
                assert("incomplete"@.len() == 10);
                assert("in_progress"@.len() == 11);
            }
        }
        JsonValue::Obj(es)
    }
}

/// Token usage reported when a response completes.
#[derive(Clone, Copy, Debug, PartialEq, Eq, Structural)]
pub struct Usage {
    pub total_tokens: u32,
    pub input_tokens: u32,
    pub output_tokens: u32,
    pub input_token_details: InputTokenDetails,
    pub output_token_details: OutputTokenDetails,
}

/// Input-side token breakdown.
#[derive(Clone, Copy, Debug, PartialEq, Eq, Structural)]
pub struct InputTokenDetails {
    pub text_tokens: u32,
    pub audio_tokens: u32,
}

/// Output-side token breakdown.
#[derive(Clone, Copy, Debug, PartialEq, Eq, Structural)]
pub struct OutputTokenDetails {
    pub text_tokens: u32,
    pub audio_tokens: u32,
}

/// The two `u32` token counters of a token-detail object.
pub open spec fn spec_detail_ok(v: JsonValue) -> bool {
    match v {
        JsonValue::Obj(es) => crate::json::spec_u32_field(es@, "text_tokens"@) is Some
            && crate::json::spec_u32_field(es@, "audio_tokens"@) is Some,
        _ => false,
    }
}

/// Reads a token-detail object.
fn detail_from_json(v: &JsonValue) -> (r: Option<(u32, u32)>)
    ensures
        r is Some <==> spec_detail_ok(*v),
        match r {
            Some(d) => v matches JsonValue::Obj(es) && crate::json::spec_u32_field(
                es@,
                "text_tokens"@,
            ) == Some(d.0) && crate::json::spec_u32_field(es@, "audio_tokens"@) == Some(d.1),
            None => true,
        },
{
    let es = match v.as_obj() {
        Some(es) => es,
        None => {
            return None;
        },
    };
    let text_tokens = match req_u32_field(es, "text_tokens") {
        Ok(n) => n,
        Err(_) => {
            return None;
        },
    };
    let audio_tokens = match req_u32_field(es, "audio_tokens") {
        Ok(n) => n,
        Err(_) => {
            return None;
        },
    };
    Some((text_tokens, audio_tokens))
}

impl Usage {
    /// The frame shape a usage payload must have.
    pub open spec fn json_ok(v: JsonValue) -> bool {
        match v {
            JsonValue::Obj(es) => {
                &&& crate::json::spec_u32_field(es@, "total_tokens"@) is Some
                &&& crate::json::spec_u32_field(es@, "input_tokens"@) is Some
                &&& crate::json::spec_u32_field(es@, "output_tokens"@) is Some
                &&& (match spec_lookup(es@, "input_token_details"@) {
                    Some(dv) => spec_detail_ok(dv),
                    None => false,
                })
                &&& (match spec_lookup(es@, "output_token_details"@) {
                    Some(dv) => spec_detail_ok(dv),
                    None => false,
                })
            },
            _ => false,
        }
    }

    /// How parsed usage relates to its frame.
    pub open spec fn parsed_from(self, v: JsonValue) -> bool {
        match v {
            JsonValue::Obj(es) => {
                &&& crate::json::spec_u32_field(es@, "total_tokens"@) == Some(self.total_tokens)
                &&& crate::json::spec_u32_field(es@, "input_tokens"@) == Some(self.input_tokens)
                &&& crate::json::spec_u32_field(es@, "output_tokens"@) == Some(self.output_tokens)
                &&& (match spec_lookup(es@, "input_token_details"@) {
                    Some(JsonValue::Obj(des)) => crate::json::spec_u32_field(des@, "text_tokens"@)
                        == Some(self.input_token_details.text_tokens) && crate::json::spec_u32_field(
                        des@,
                        "audio_tokens"@,
                    ) == Some(self.input_token_details.audio_tokens),
                    _ => false,
                })
                &&& (match spec_lookup(es@, "output_token_details"@) {
                    Some(JsonValue::Obj(des)) => crate::json::spec_u32_field(des@, "text_tokens"@)
                        == Some(self.output_token_details.text_tokens)
                        && crate::json::spec_u32_field(des@, "audio_tokens"@) == Some(
                        self.output_token_details.audio_tokens,
                    ),
                    _ => false,
                })
            },
            _ => false,
        }
    }

    /// Reads a usage payload out of a frame value.
    pub fn from_json(v: &JsonValue) -> (r: Option<Usage>)
        ensures
            r is Some <==> Usage::json_ok(*v),
            match r {
                Some(u) => u.parsed_from(*v),
                None => true,
            },
    {
        let es = match v.as_obj() {
            Some(es) => es,
            None => {
                return None;
            },
        };
        let total_tokens = match req_u32_field(es, "total_tokens") {
            Ok(n) => n,
            Err(_) => {
                return None;
            },
        };
        let input_tokens = match req_u32_field(es, "input_tokens") {
            Ok(n) => n,
            Err(_) => {
                return None;
            },
        };
        let output_tokens = match req_u32_field(es, "output_tokens") {
            Ok(n) => n,
            Err(_) => {
                return None;
            },
        };
        let input_token_details = match lookup(es, "input_token_details") {
            Some(dv) => match detail_from_json(dv) {
                Some(d) => InputTokenDetails { text_tokens: d.0, audio_tokens: d.1 },
                None => {
                    return None;
                },
            },
            None => {
                return None;
            },
        };
        let output_token_details = match lookup(es, "output_token_details") {
            Some(dv) => match detail_from_json(dv) {
                Some(d) => OutputTokenDetails { text_tokens: d.0, audio_tokens: d.1 },
                None => {
                    return None;
                },
            },
            None => {
                return None;
            },
        };
        Some(
            Usage {
                total_tokens,
                input_tokens,
                output_tokens,
                input_token_details,
                output_token_details,
            },
        )
    }
}

/// The state of a response.
#[derive(Clone, Copy, Debug, PartialEq, Eq, Structural)]
pub enum ResponseStatus {
    Completed,
    Cancelled,
    Failed,
    Incomplete,
    InProgress,
}

impl ResponseStatus {
    /// The wire name of the state.
    pub open spec fn spec_name(self) -> Seq<char> {
        match self {
            ResponseStatus::Completed => "completed"@,
            ResponseStatus::Cancelled => "cancelled"@,
            ResponseStatus::Failed => "failed"@,
            ResponseStatus::Incomplete => "incomplete"@,
            ResponseStatus::InProgress => "in_progress"@,
        }
    }

    /// The state a wire name denotes, if it denotes one.
    pub fn parse(s: &str) -> (r: Option<ResponseStatus>)
        ensures
            match r {
                Some(st) => st.spec_name() == s@,
                None => s@ != "completed"@ && s@ != "cancelled"@ && s@ != "failed"@ && s@
                    != "incomplete"@ && s@ != "in_progress"@,
            },
    {
        if str_eq(s, "completed") {
            Some(ResponseStatus::Completed)
        } else if str_eq(s, "cancelled") {
            Some(ResponseStatus::Cancelled)
        } else if str_eq(s, "failed") {
            Some(ResponseStatus::Failed)
        } else if str_eq(s, "incomplete") {
            Some(ResponseStatus::Incomplete)
        } else if str_eq(s, "in_progress") {
            Some(ResponseStatus::InProgress)
        } else {
            None
        }
    }
}

/// A response reported by the service.
#[derive(Clone, Debug, PartialEq)]
pub struct Response {
    /// Always `realtime.response`.
    pub object: Option<String>,
    /// The response's unique id.
    pub id: String,
    /// The response's state.
    pub status: ResponseStatus,
    /// Token usage; reported when the response is done.
    pub usage: Option<Usage>,
}

impl Response {
    /// The frame shape a response payload must have.
    pub open spec fn json_ok(v: JsonValue) -> bool {
        match v {
            JsonValue::Obj(es) => {
                &&& spec_opt_str(es@, "object"@) is Some
                &&& spec_str_field(es@, "id"@) is Some
                &&& (match spec_str_field(es@, "status"@) {
                    Some(s) => s == "completed"@ || s == "cancelled"@ || s == "failed"@ || s
                        == "incomplete"@ || s == "in_progress"@,
                    None => false,
                })
                &&& (match spec_lookup(es@, "usage"@) {
                    None => true,
                    Some(JsonValue::Null) => true,
                    Some(uv) => Usage::json_ok(uv),
                })
            },
            _ => false,
        }
    }

    /// How a parsed response relates to its frame.
    pub open spec fn parsed_from(self, v: JsonValue) -> bool {
        match v {
            JsonValue::Obj(es) => {
                &&& spec_opt_str(es@, "object"@) == Some(spec_opt_view(self.object))
                &&& spec_str_field(es@, "id"@) == Some(self.id@)
                &&& spec_str_field(es@, "status"@) == Some(self.status.spec_name())
                &&& (match spec_lookup(es@, "usage"@) {
                    None => self.usage is None,
                    Some(JsonValue::Null) => self.usage is None,
                    Some(uv) => self.usage matches Some(u) && u.parsed_from(uv),
                })
            },
            _ => false,
        }
    }

    /// Reads a response out of a frame value.
    pub fn from_json(v: &JsonValue) -> (r: Option<Response>)
        ensures
            r is Some <==> Response::json_ok(*v),
            match r {
                Some(resp) => resp.parsed_from(*v),
                None => true,
            },
    {
        let es = match v.as_obj() {
            Some(es) => es,
            None => {
                return None;
            },
        };
        let object = match opt_str_field(es, "object") {
            Ok(o) => o,
            Err(_) => {
                return None;
            },
        };
        let id = match req_str_field(es, "id") {
            Ok(s) => s,
            Err(_) => {
                return None;
            },
        };
        let status = match req_str_field(es, "status") {
            Ok(s) => match ResponseStatus::parse(s.as_str()) {
                Some(st) => st,
                None => {
                    return None;
                },
            },
            Err(_) => {
                return None;
            },
        };
        let usage = match lookup(es, "usage") {
            None => None,
            Some(JsonValue::Null) => None,
            Some(uv) => match Usage::from_json(uv) {
                Some(u) => Some(u),
                None => {
                    return None;
                },
            },
        };
        Some(Response { object, id, status, usage })
    }
}

/// A rate-limit notice. The reset interval the service reports alongside
/// is fractional seconds and is not carried here, though the frame must
/// bring the field.
#[derive(Clone, Debug, PartialEq)]
pub struct RateLimit {
    pub limit: u8,
    pub remaining: u8,
    pub name: String,
}

impl RateLimit {
    /// The frame shape a rate-limit entry must have. The `reset_seconds`
    /// field must be there as a number; this crate's JSON model folds a
    /// fractional number into `Null`, so the field reads as an integer or
    /// as `Null` and its value is not carried.
    pub open spec fn json_ok(v: JsonValue) -> bool {
        match v {
            JsonValue::Obj(es) => {
                &&& (match spec_int_field(es@, "limit"@) {
                    Some(i) => 0 <= i <= u8::MAX,
                    None => false,
                })
                &&& (match spec_int_field(es@, "remaining"@) {
                    Some(i) => 0 <= i <= u8::MAX,
                    None => false,
                })
                &&& spec_str_field(es@, "name"@) is Some
                &&& (match spec_lookup(es@, "reset_seconds"@) {
                    Some(JsonValue::Int(_)) => true,
                    Some(JsonValue::Null) => true,
                    _ => false,
                })
            },
            _ => false,
        }
    }

    /// How a parsed entry relates to its frame.
    pub open spec fn parsed_from(self, v: JsonValue) -> bool {
        match v {
            JsonValue::Obj(es) => {
                &&& spec_int_field(es@, "limit"@) == Some(self.limit as i64)
                &&& spec_int_field(es@, "remaining"@) == Some(self.remaining as i64)
                &&& spec_str_field(es@, "name"@) == Some(self.name@)
            },
            _ => false,
        }
    }

    /// Reads one rate-limit entry out of a frame value.
    pub fn from_json(v: &JsonValue) -> (r: Option<RateLimit>)
        ensures
            r is Some <==> RateLimit::json_ok(*v),
            match r {
                Some(rl) => rl.parsed_from(*v),
                None => true,
            },
    {
        let es = match v.as_obj() {
            Some(es) => es,
            None => {
                return None;
            },
        };
        let limit = match lookup(es, "limit") {
            Some(JsonValue::Int(i)) => {
                let i = *i;
                if 0 <= i && i <= u8::MAX as i64 {
                    i as u8
                } else {
                    return None;
                }
            },
            _ => {
                return None;
            },
        };
        let remaining = match lookup(es, "remaining") {
            Some(JsonValue::Int(i)) => {
                let i = *i;
                if 0 <= i && i <= u8::MAX as i64 {
                    i as u8
                } else {
                    return None;
                }
            },
            _ => {
                return None;
            },
        };
        let name = match req_str_field(es, "name") {
            Ok(s) => s,
            Err(_) => {
                return None;
            },
        };
        match lookup(es, "reset_seconds") {
            Some(JsonValue::Int(_)) => (),
            Some(JsonValue::Null) => (),
            _ => {
                return None;
            },
        }
        Some(RateLimit { limit, remaining, name })
    }
}

/// Two sessions read from the same frame hold the same configuration,
/// field by field.
pub open spec fn session_agrees(a: Session, b: Session) -> bool {
    &&& a.object@ == b.object@
    &&& a.id@ == b.id@
    &&& a.model@ == b.model@
    &&& a.input_audio_format@ == b.input_audio_format@
    &&& a.output_audio_format@ == b.output_audio_format@
    &&& spec_opt_view(a.instructions) == spec_opt_view(b.instructions)
    &&& spec_opt_view(a.voice) == spec_opt_view(b.voice)
    &&& spec_opt_view(a.max_response_output_tokens) == spec_opt_view(
        b.max_response_output_tokens,
    )
    &&& spec_opt_view(a.tool_choice) == spec_opt_view(b.tool_choice)
    &&& a.modalities@.map_values(|s: String| s@) == b.modalities@.map_values(|s: String| s@)
    &&& a.turn_detection == b.turn_detection
    &&& (match (a.input_audio_noise_reduction, b.input_audio_noise_reduction) {
        (Some(x), Some(y)) => x.kind@ == y.kind@,
        (None, None) => true,
        _ => false,
    })
    &&& (match (a.tools, b.tools) {
        (Some(x), Some(y)) => x@.len() == y@.len() && (forall|j: int|
            0 <= j < x@.len() ==> (#[trigger] x@[j]).name@ == y@[j].name@ && x@[j].description@
                == y@[j].description@ && x@[j].parameters@ == y@[j].parameters@),
        (None, None) => true,
        _ => false,
    })
    &&& beta_agrees(a.beta_fields, b.beta_fields)
}

/// Two switch sets read from the same frame agree, field by field.
pub open spec fn beta_agrees(a: BetaFields, b: BetaFields) -> bool {
    &&& a.auto_search == b.auto_search
    &&& a.chat_mode == b.chat_mode
    &&& a.is_last_text == b.is_last_text
    &&& spec_opt_view(a.tts_source) == spec_opt_view(b.tts_source)
    &&& spec_opt_view(a.content) == spec_opt_view(b.content)
    &&& (match (a.simple_browser, b.simple_browser) {
        (Some(x), Some(y)) => x.description@ == y.description@ && x.meta@ == y.meta@
            && x.search_meta@ == y.search_meta@ && x.text_citation@ == y.text_citation@,
        (None, None) => true,
        _ => false,
    })
    &&& a.greeting_config == b.greeting_config
}

/// Law (round trip, session half): a `session.update` payload built by
/// [`Session::to_json`] reads back, through [`Session::from_json`], to a
/// session with the same configuration — every type-specific field is
/// preserved, the tool list included. Stated for any two sessions read
/// from one frame; with the builder's contract, one of them may be the
/// original.
pub proof fn lemma_session_round_trip(a: Session, b: Session, v: JsonValue)
    requires
        a.parsed_from(v),
        b.parsed_from(v),
    ensures
        session_agrees(a, b),
{
    reveal_strlit("audio");
    reveal_strlit("video_passive");
    reveal_strlit("client_vad");
    reveal_strlit("server_vad");
    assert("audio"@.len() == 5);
    assert("video_passive"@.len() == 13);
    assert("client_vad"@.len() == 10);
    assert("server_vad"@.len() == 10);
    assert("client_vad"@[0] == 'c');
    assert("server_vad"@[0] == 's');
    let es = v->Obj_0;
    match spec_lookup(es@, "modalities"@) {
        Some(JsonValue::Arr(xs)) => {
            assert(a.modalities@.len() == xs@.len());
            assert(b.modalities@.len() == xs@.len());
            assert forall|j: int| 0 <= j < xs@.len() implies a.modalities@[j]@ == b.modalities@[
            j]@ by {
                assert(#[trigger] xs@[j] matches JsonValue::Str(st) && a.modalities@[j]@ == st@);
                assert(xs@[j] matches JsonValue::Str(st) && b.modalities@[j]@ == st@);
            }
            assert(a.modalities@.map_values(|s: String| s@) =~= b.modalities@.map_values(
                |s: String| s@,
            ));
        },
        _ => {
            assert(a.modalities@.map_values(|s: String| s@) =~= b.modalities@.map_values(
                |s: String| s@,
            ));
        },
    }
    match spec_lookup(es@, "turn_detection"@) {
        Some(JsonValue::Null) => {},
        Some(tv) => {
            if a.turn_detection is Some {
                let x = a.turn_detection->0;
                let y = b.turn_detection->0;
                assert(x.kind.spec_name() == y.kind.spec_name());
                assert(x.kind == y.kind);
                assert(x == y);
            }
        },
        None => {},
    }
    match spec_lookup(es@, "tools"@) {
        Some(JsonValue::Arr(fs)) => {
            let x = a.tools->0;
            let y = b.tools->0;
            assert(x@.len() == fs@.len());
            assert(y@.len() == fs@.len());
            assert forall|j: int|
                0 <= j < x@.len() implies (#[trigger] x@[j]).name@ == y@[j].name@ && x@[
            j].description@ == y@[j].description@ && x@[j].parameters@ == y@[j].parameters@ by {
                assert((#[trigger] x@[j]).parsed_from(fs@[j]));
                assert(y@[j].parsed_from(fs@[j]));
            }
        },
        _ => {},
    }
    let bv = spec_lookup(es@, "beta_fields"@)->0;
    assert(beta_agrees(a.beta_fields, b.beta_fields)) by {
        let bes = bv->Obj_0;
        match spec_lookup(bes@, "chat_mode"@) {
            Some(JsonValue::Str(st)) => {
                assert(a.beta_fields.chat_mode.spec_name() == b.beta_fields.chat_mode.spec_name());
                assert(a.beta_fields.chat_mode == b.beta_fields.chat_mode);
            },
            _ => {},
        }
    }
}

/// Two items read from the same frame agree, field by field; content
/// parts agree by shape.
pub open spec fn item_agrees(a: ConversationItem, b: ConversationItem) -> bool {
    &&& a.object@ == b.object@
    &&& a.kind@ == b.kind@
    &&& a.id@ == b.id@
    &&& a.status == b.status
    &&& a.role == b.role
    &&& spec_opt_view(a.name) == spec_opt_view(b.name)
    &&& spec_opt_view(a.arguments) == spec_opt_view(b.arguments)
    &&& spec_opt_view(a.output) == spec_opt_view(b.output)
    &&& a.content@.len() == b.content@.len()
    &&& (forall|j: int|
        0 <= j < a.content@.len() ==> (#[trigger] a.content@[j]).shape() == b.content@[j].shape())
}

/// Law (round trip, conversation-item half): a `conversation.item.create`
/// payload built by [`ConversationItem::to_json`] reads back, through
/// [`ConversationItem::from_json`], to an item with the same fields —
/// message text, function name, arguments and a function call's output
/// all preserved. Stated for any two items read from one frame; with the
/// builder's contract, one of them may be the original.
pub proof fn lemma_item_round_trip(a: ConversationItem, b: ConversationItem, v: JsonValue)
    requires
        a.parsed_from(v),
        b.parsed_from(v),
    ensures
        item_agrees(a, b),
{
    reveal_strlit("system");
    reveal_strlit("user");
    reveal_strlit("assistant");
    assert("system"@.len() == 6);
    assert("user"@.len() == 4);
    assert("assistant"@.len() == 9);
    let es = v->Obj_0;
    match spec_lookup(es@, "role"@) {
        Some(JsonValue::Str(st)) => {
            let x = a.role->0;
            let y = b.role->0;
            assert(x.spec_name() == y.spec_name());
            assert(x == y);
        },
        _ => {},
    }
    match spec_lookup(es@, "content"@) {
        Some(JsonValue::Arr(xs)) => {
            assert forall|j: int| 0 <= j < a.content@.len() implies (#[trigger] a.content@[
            j]).shape() == b.content@[j].shape() by {
                assert(ContentPart::spec_parse(xs@[j]) matches Some(q) && a.content@[
                j].matches_spec(q));
                assert(ContentPart::spec_parse(xs@[j]) matches Some(q) && b.content@[
                j].matches_spec(q));
            }
        },
        _ => {},
    }
}

} // verus!
