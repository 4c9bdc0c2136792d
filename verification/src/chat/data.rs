//! Data carried by chat requests and responses.

use crate::json::JsonValue;
use vstd::prelude::*;

verus! {

/// A tool function the model may call.
#[derive(Clone, Debug, PartialEq)]
pub struct Function {
    /// The function's name.
    pub name: String,
    /// What the function does, for the model.
    pub description: String,
    /// The parameter schema, as raw JSON text.
    pub parameters: String,
}

impl Function {
    /// How the function renders on the wire.
    pub open spec fn is_wire(self, v: JsonValue) -> bool {
        match v {
            JsonValue::Obj(es) => {
                &&& es@.len() == 3
                &&& es@[0].0@ == "name"@ && es@[0].1 == JsonValue::Str(self.name)
                &&& es@[1].0@ == "description"@ && es@[1].1 == JsonValue::Str(self.description)
                &&& es@[2].0@ == "parameters"@ && es@[2].1 == JsonValue::Str(self.parameters)
            },
            _ => false,
        }
    }

    /// Renders the function.
    pub fn to_json(&self) -> (v: JsonValue)
        ensures
            self.is_wire(v),
    {
        let mut es: Vec<(String, JsonValue)> = Vec::new();
        es.push((String::from_str("name"), JsonValue::Str(self.name.clone())));
        es.push((String::from_str("description"), JsonValue::Str(self.description.clone())));
        es.push((String::from_str("parameters"), JsonValue::Str(self.parameters.clone())));
        JsonValue::Obj(es)
    }

    /// A deep copy, with its contents pinned.
    pub fn duplicate(&self) -> (r: Self)
        ensures
            r == *self,
    {
        Function {
            name: self.name.clone(),
            description: self.description.clone(),
            parameters: self.parameters.clone(),
        }
    }

    /// The frame shape a tool function must have to be read back.
    pub open spec fn json_ok(v: JsonValue) -> bool {
        match v {
            JsonValue::Obj(es) => {
                &&& crate::json::spec_str_field(es@, "name"@) is Some
                &&& crate::json::spec_str_field(es@, "description"@) is Some
                &&& crate::json::spec_str_field(es@, "parameters"@) is Some
            },
            _ => false,
        }
    }

    /// How a parsed tool function relates to its frame.
    pub open spec fn parsed_from(self, v: JsonValue) -> bool {
        match v {
            JsonValue::Obj(es) => {
                &&& crate::json::spec_str_field(es@, "name"@) == Some(self.name@)
                &&& crate::json::spec_str_field(es@, "description"@) == Some(self.description@)
                &&& crate::json::spec_str_field(es@, "parameters"@) == Some(self.parameters@)
            },
            _ => false,
        }
    }

    /// An exactly rendered function satisfies the read-back shape and
    /// fields.
    pub proof fn wire_readable(self, v: JsonValue)
        requires
            self.is_wire(v),
        ensures
            Function::json_ok(v),
            self.parsed_from(v),
    {
        reveal_strlit("name");
        reveal_strlit("description");
        reveal_strlit("parameters");
        assert("name"@.len() == 4);
        assert("description"@.len() == 11);
        assert("parameters"@.len() == 10);
        let es = v->Obj_0;
        crate::json::lemma_lookup_index(es@, "name"@, 0);
        assert(forall|j: int| 0 <= j < 1 ==> (#[trigger] es@[j]).0@ != "description"@);
        crate::json::lemma_lookup_index(es@, "description"@, 1);
        assert(forall|j: int| 0 <= j < 2 ==> (#[trigger] es@[j]).0@ != "parameters"@);
        crate::json::lemma_lookup_index(es@, "parameters"@, 2);
    }

    /// Reads a tool function out of a frame value.
    pub fn from_json(v: &JsonValue) -> (r: Option<Function>)
        ensures
            r is Some <==> Function::json_ok(*v),
            match r {
                Some(f) => f.parsed_from(*v),
                None => true,
            },
    {
        let es = match v.as_obj() {
            Some(es) => es,
            None => {
                return None;
            },
        };
        let name = match crate::rtav::value::req_str_field(es, "name") {
            Ok(t) => t,
            Err(_) => {
                return None;
            },
        };
        let description = match crate::rtav::value::req_str_field(es, "description") {
            Ok(t) => t,
            Err(_) => {
                return None;
            },
        };
        let parameters = match crate::rtav::value::req_str_field(es, "parameters") {
            Ok(t) => t,
            Err(_) => {
                return None;
            },
        };
        Some(Function { name, description, parameters })
    }
}

/// One decoded unit of a complete (non-streaming) chat answer.
#[derive(Clone, Debug, PartialEq)]
pub struct Choice {
    pub index: u32,
    pub role: String,
    pub content: String,
    pub finish_reason: Option<String>,
}

/// Token usage of a chat exchange.
#[derive(Clone, Copy, Debug, PartialEq, Eq, Structural)]
pub struct Usage {
    pub prompt_tokens: u32,
    pub completion_tokens: u32,
    pub total_tokens: u32,
}

/// One web-search result the service consulted.
#[derive(Clone, Debug, PartialEq)]
pub struct WebSearchResponse {
    pub title: String,
    pub link: String,
    pub content: String,
}

/// One fragment of a tool call streamed by the model.
#[derive(Clone, Debug, PartialEq)]
pub struct ToolCall {
    pub id: String,
    /// The call's kind; `function` for function calls.
    pub kind: String,
    /// The called function's name.
    pub name: String,
    /// The call's arguments, as raw JSON text.
    pub arguments: String,
}

} // verus!
