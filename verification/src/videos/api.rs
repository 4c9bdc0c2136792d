//! The video-generation requests and their builder.

use crate::json::{json_dump, JsonValue};
use crate::videos::data::{VideoFPS, VideoQuality, VideoSize};
use vstd::prelude::*;

verus! {

/// A finished video-generation request.
#[derive(Debug, PartialEq)]
pub struct VideosApiRequest {
    pub model: String,
    pub prompt: String,
    pub quality: Option<VideoQuality>,
    pub with_audio: Option<bool>,
    pub image_url: Option<String>,
    pub size: Option<VideoSize>,
    pub fps: Option<VideoFPS>,
    pub request_id: Option<String>,
    pub user_id: Option<String>,
}

impl VideosApiRequest {
    /// How the request renders on the wire: model and prompt always, the
    /// optional fields in declaration order only when set; the frame
    /// rate travels as its number.
    pub open spec fn is_wire(self, v: JsonValue) -> bool {
        match v {
            JsonValue::Obj(es) => {
                let q: int = if self.quality is Some { 1 } else { 0 };
                let a: int = if self.with_audio is Some { 1 } else { 0 };
                let iu: int = if self.image_url is Some { 1 } else { 0 };
                let sz: int = if self.size is Some { 1 } else { 0 };
                let f: int = if self.fps is Some { 1 } else { 0 };
                let ri: int = if self.request_id is Some { 1 } else { 0 };
                let u: int = if self.user_id is Some { 1 } else { 0 };
                &&& es@.len() == 2 + q + a + iu + sz + f + ri + u
                &&& es@[0].0@ == "model"@ && es@[0].1 == JsonValue::Str(self.model)
                &&& es@[1].0@ == "prompt"@ && es@[1].1 == JsonValue::Str(self.prompt)
                &&& (self.quality matches Some(qv) ==> es@[2].0@ == "quality"@ && (es@[2].1
                    matches JsonValue::Str(t) && t@ == qv.spec_name()))
                &&& (self.with_audio matches Some(b) ==> es@[2 + q].0@ == "with_audio"@ && es@[2
                    + q].1 == JsonValue::Bool(b))
                &&& (self.image_url matches Some(iuv) ==> es@[2 + q + a].0@ == "image_url"@
                    && es@[2 + q + a].1 == JsonValue::Str(iuv))
                &&& (self.size matches Some(szv) ==> es@[2 + q + a + iu].0@ == "size"@ && (es@[2
                    + q + a + iu].1 matches JsonValue::Str(t) && t@ == szv.spec_name()))
                &&& (self.fps matches Some(fv) ==> es@[2 + q + a + iu + sz].0@ == "fps"@ && es@[2
                    + q + a + iu + sz].1 == JsonValue::Int(fv.spec_rate() as i64))
                &&& (self.request_id matches Some(rv) ==> es@[2 + q + a + iu + sz + f].0@
                    == "request_id"@ && es@[2 + q + a + iu + sz + f].1 == JsonValue::Str(rv))
                &&& (self.user_id matches Some(uv) ==> es@[2 + q + a + iu + sz + f + ri].0@
                    == "user_id"@ && es@[2 + q + a + iu + sz + f + ri].1 == JsonValue::Str(uv))
            },
            _ => false,
        }
    }

    /// The request's JSON value.
    #[verifier::rlimit(100)]
    pub fn to_json_value(&self) -> (v: JsonValue)
        ensures
            self.is_wire(v),
    {
        let mut es: Vec<(String, JsonValue)> = Vec::new();
        es.push((String::from_str("model"), JsonValue::Str(self.model.clone())));
        es.push((String::from_str("prompt"), JsonValue::Str(self.prompt.clone())));
        if let Some(qv) = &self.quality {
            es.push((String::from_str("quality"), JsonValue::Str(String::from_str(qv.as_ref()))));
        }
        if let Some(b) = self.with_audio {
            es.push((String::from_str("with_audio"), JsonValue::Bool(b)));
        }
        if let Some(iuv) = &self.image_url {
            es.push((String::from_str("image_url"), JsonValue::Str(iuv.clone())));
        }
        if let Some(szv) = &self.size {
            es.push((String::from_str("size"), JsonValue::Str(String::from_str(szv.as_ref()))));
        }
        if let Some(fv) = &self.fps {
            let n: u32 = fv.as_u32();
            es.push((String::from_str("fps"), JsonValue::Int(n as i64)));
        }
        if let Some(rv) = &self.request_id {
            es.push((String::from_str("request_id"), JsonValue::Str(rv.clone())));
        }
        if let Some(uv) = &self.user_id {
            es.push((String::from_str("user_id"), JsonValue::Str(uv.clone())));
        }
        JsonValue::Obj(es)
    }

    /// The request's JSON text.
    pub fn to_json(&self) -> (r: String)
        ensures
            video_wire_text(*self, r@),
    {
        let v = self.to_json_value();
        let r = json_dump(&v);
        proof {
            assert(video_wire_text(*self, r@));
        }
        r
    }
}

/// `text` is the dumped JSON of this request's wire value.
pub open spec fn video_wire_text(req: VideosApiRequest, text: Seq<char>) -> bool {
    exists|v: JsonValue| #[trigger] req.is_wire(v) && text == crate::json::dumped_json(v)
}

/// The polling request for a started video task.
#[derive(Debug, PartialEq)]
pub struct VideosApiAsynRequest {
    pub id: String,
}

impl VideosApiAsynRequest {
    /// How the request renders on the wire.
    pub open spec fn is_wire(self, v: JsonValue) -> bool {
        match v {
            JsonValue::Obj(es) => es@.len() == 1 && es@[0].0@ == "id"@ && es@[0].1
                == JsonValue::Str(self.id),
            _ => false,
        }
    }

    /// The request's JSON text.
    pub fn to_json(&self) -> (r: String)
        ensures
            exists|v: JsonValue| #[trigger] self.is_wire(v) && r@ == crate::json::dumped_json(v),
    {
        let mut es: Vec<(String, JsonValue)> = Vec::new();
        es.push((String::from_str("id"), JsonValue::Str(self.id.clone())));
        let v = JsonValue::Obj(es);
        proof {
            assert(self.is_wire(v));
        }
        let r = json_dump(&v);
        r
    }
}

/// Builds a video-generation request step by step.
#[derive(Debug, PartialEq)]
pub struct VideosApiRequestBuilder {
    pub model: String,
    pub prompt: String,
    pub quality: Option<VideoQuality>,
    pub with_audio: Option<bool>,
    pub image_url: Option<String>,
    pub size: Option<VideoSize>,
    pub fps: Option<VideoFPS>,
    pub request_id: Option<String>,
    pub user_id: Option<String>,
    pub response_id: String,
}

impl VideosApiRequestBuilder {
    /// A fresh builder for the given model.
    pub fn new(model: &str) -> (r: Self)
        ensures
            r.model@ == model@,
            r.prompt@ == Seq::<char>::empty(),
            r.quality is None,
            r.with_audio is None,
            r.image_url is None,
            r.size is None,
            r.fps is None,
            r.request_id is None,
            r.user_id is None,
            r.response_id@ == Seq::<char>::empty(),
    {
        VideosApiRequestBuilder {
            model: model.to_owned(),
            prompt: String::new(),
            quality: None,
            with_audio: None,
            image_url: None,
            size: None,
            fps: None,
            request_id: None,
            user_id: None,
            response_id: String::new(),
        }
    }

    /// Sets the prompt.
    pub fn prompt(self, prompt: &str) -> (r: Self)
        ensures
            r.prompt@ == prompt@,
            r == (VideosApiRequestBuilder { prompt: r.prompt, ..self }),
    {
        VideosApiRequestBuilder { prompt: prompt.to_owned(), ..self }
    }

    /// Sets the quality trade-off.
    pub fn quality(self, quality: VideoQuality) -> (r: Self)
        ensures
            r == (VideosApiRequestBuilder { quality: Some(quality), ..self }),
    {
        VideosApiRequestBuilder { quality: Some(quality), ..self }
    }

    /// Switches sound generation.
    pub fn with_audio(self, with_audio: bool) -> (r: Self)
        ensures
            r == (VideosApiRequestBuilder { with_audio: Some(with_audio), ..self }),
    {
        VideosApiRequestBuilder { with_audio: Some(with_audio), ..self }
    }

    /// Sets the starting image.
    pub fn image_url(self, image_url: &str) -> (r: Self)
        ensures
            r.image_url matches Some(u) && u@ == image_url@,
            r == (VideosApiRequestBuilder { image_url: r.image_url, ..self }),
    {
        VideosApiRequestBuilder { image_url: Some(image_url.to_owned()), ..self }
    }

    /// Sets the size.
    pub fn size(self, size: VideoSize) -> (r: Self)
        ensures
            r == (VideosApiRequestBuilder { size: Some(size), ..self }),
    {
        VideosApiRequestBuilder { size: Some(size), ..self }
    }

    /// Sets the frame rate.
    pub fn fps(self, fps: VideoFPS) -> (r: Self)
        ensures
            r == (VideosApiRequestBuilder { fps: Some(fps), ..self }),
    {
        VideosApiRequestBuilder { fps: Some(fps), ..self }
    }

    /// Sets the caller's request id.
    pub fn request_id(self, request_id: &str) -> (r: Self)
        ensures
            r.request_id matches Some(u) && u@ == request_id@,
            r == (VideosApiRequestBuilder { request_id: r.request_id, ..self }),
    {
        VideosApiRequestBuilder { request_id: Some(request_id.to_owned()), ..self }
    }

    /// Sets the user id.
    pub fn user_id(self, user_id: &str) -> (r: Self)
        ensures
            r.user_id matches Some(u) && u@ == user_id@,
            r == (VideosApiRequestBuilder { user_id: r.user_id, ..self }),
    {
        VideosApiRequestBuilder { user_id: Some(user_id.to_owned()), ..self }
    }

    /// Sets the task id to poll for.
    pub fn response_id(self, response_id: &str) -> (r: Self)
        ensures
            r.response_id@ == response_id@,
            r == (VideosApiRequestBuilder { response_id: r.response_id, ..self }),
    {
        VideosApiRequestBuilder { response_id: response_id.to_owned(), ..self }
    }

    /// The endpoint and the finished generation request.
    pub fn build(self) -> (r: (String, VideosApiRequest))
        ensures
            r.0@ == "https://open.bigmodel.cn/api/paas/v4/videos/generations"@,
            r.1 == (VideosApiRequest {
                model: self.model,
                prompt: self.prompt,
                quality: self.quality,
                with_audio: self.with_audio,
                image_url: self.image_url,
                size: self.size,
                fps: self.fps,
                request_id: self.request_id,
                user_id: self.user_id,
            }),
    {
        (
            String::from_str("https://open.bigmodel.cn/api/paas/v4/videos/generations"),
            VideosApiRequest {
                model: self.model,
                prompt: self.prompt,
                quality: self.quality,
                with_audio: self.with_audio,
                image_url: self.image_url,
                size: self.size,
                fps: self.fps,
                request_id: self.request_id,
                user_id: self.user_id,
            },
        )
    }

    /// The polling endpoint for the stored task id, and the request.
    pub fn build_response(self) -> (r: (String, VideosApiAsynRequest))
        ensures
            r.0@ == "https://open.bigmodel.cn/api/paas/v4/async-result/"@ + self.response_id@,
            r.1 == (VideosApiAsynRequest { id: self.response_id }),
    {
        let mut url = String::from_str("https://open.bigmodel.cn/api/paas/v4/async-result/");
        url.append(self.response_id.as_str());
        (url, VideosApiAsynRequest { id: self.response_id })
    }
}

} // verus!
