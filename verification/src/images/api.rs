//! The image-generation request and its builder.

use crate::images::data::ImageSize;
use crate::json::{json_dump, JsonValue};
use vstd::prelude::*;

verus! {

/// A finished image-generation request.
#[derive(Debug, PartialEq)]
pub struct ImagesApiRequest {
    pub model: String,
    pub prompt: String,
    pub size: Option<ImageSize>,
    pub user_id: Option<String>,
}

impl ImagesApiRequest {
    /// How the request renders on the wire: model and prompt always,
    /// size and user id only when set.
    pub open spec fn is_wire(self, v: JsonValue) -> bool {
        match v {
            JsonValue::Obj(es) => {
                let s: int = if self.size is Some {
                    1
                } else {
                    0
                };
                let u: int = if self.user_id is Some {
                    1
                } else {
                    0
                };
                &&& es@.len() == 2 + s + u
                &&& es@[0].0@ == "model"@ && es@[0].1 == JsonValue::Str(self.model)
                &&& es@[1].0@ == "prompt"@ && es@[1].1 == JsonValue::Str(self.prompt)
                &&& (self.size matches Some(sz) ==> es@[2].0@ == "size"@ && (es@[2].1
                    matches JsonValue::Str(t) && t@ == sz.spec_name()))
                &&& (self.user_id matches Some(uid) ==> es@[2 + s].0@ == "user_id"@ && es@[2
                    + s].1 == JsonValue::Str(uid))
            },
            _ => false,
        }
    }

    /// The request's JSON value.
    pub fn to_json_value(&self) -> (v: JsonValue)
        ensures
            self.is_wire(v),
    {
        let mut es: Vec<(String, JsonValue)> = Vec::new();
        es.push((String::from_str("model"), JsonValue::Str(self.model.clone())));
        es.push((String::from_str("prompt"), JsonValue::Str(self.prompt.clone())));
        if let Some(sz) = &self.size {
            es.push((String::from_str("size"), JsonValue::Str(String::from_str(sz.as_ref()))));
        }
        if let Some(uid) = &self.user_id {
            es.push((String::from_str("user_id"), JsonValue::Str(uid.clone())));
        }
        JsonValue::Obj(es)
    }

    /// The request's JSON text.
    pub fn to_json(&self) -> (r: String)
        ensures
            wire_text(*self, r@),
    {
        let v = self.to_json_value();
        let r = json_dump(&v);
        proof {
            assert(wire_text(*self, r@));
        }
        r
    }
}

/// `text` is the dumped JSON of this request's wire value.
pub open spec fn wire_text(req: ImagesApiRequest, text: Seq<char>) -> bool {
    exists|v: JsonValue| #[trigger] req.is_wire(v) && text == crate::json::dumped_json(v)
}

/// Builds an image-generation request step by step.
#[derive(Debug, PartialEq)]
pub struct ImagesApiRequestBuilder {
    pub model: String,
    pub prompt: String,
    pub size: Option<ImageSize>,
    pub user_id: Option<String>,
}

impl ImagesApiRequestBuilder {
    /// A fresh builder for the given model.
    pub fn new(model: &str) -> (r: Self)
        ensures
            r.model@ == model@,
            r.prompt@ == Seq::<char>::empty(),
            r.size is None,
            r.user_id is None,
    {
        ImagesApiRequestBuilder {
            model: model.to_owned(),
            prompt: String::new(),
            size: None,
            user_id: None,
        }
    }

    /// Sets the prompt.
    pub fn prompt(self, prompt: &str) -> (r: Self)
        ensures
            r.prompt@ == prompt@,
            r == (ImagesApiRequestBuilder { prompt: r.prompt, ..self }),
    {
        ImagesApiRequestBuilder { prompt: prompt.to_owned(), ..self }
    }

    /// Sets the size.
    pub fn size(self, size: ImageSize) -> (r: Self)
        ensures
            r == (ImagesApiRequestBuilder { size: Some(size), ..self }),
    {
        ImagesApiRequestBuilder { size: Some(size), ..self }
    }

    /// Sets the user id.
    pub fn user_id(self, user_id: &str) -> (r: Self)
        ensures
            r.user_id matches Some(u) && u@ == user_id@,
            r == (ImagesApiRequestBuilder { user_id: r.user_id, ..self }),
    {
        ImagesApiRequestBuilder { user_id: Some(user_id.to_owned()), ..self }
    }

    /// The endpoint and the finished request.
    pub fn build(self) -> (r: (String, ImagesApiRequest))
        ensures
            r.0@ == "https://open.bigmodel.cn/api/paas/v4/images/generations"@,
            r.1 == (ImagesApiRequest {
                model: self.model,
                prompt: self.prompt,
                size: self.size,
                user_id: self.user_id,
            }),
    {
        (
            String::from_str("https://open.bigmodel.cn/api/paas/v4/images/generations"),
            ImagesApiRequest {
                model: self.model,
                prompt: self.prompt,
                size: self.size,
                user_id: self.user_id,
            },
        )
    }
}

} // verus!
