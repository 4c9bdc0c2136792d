//! Video-generation responses.

use vstd::prelude::*;

verus! {

/// The immediate answer to a video-generation request: a task handle.
#[derive(Debug, PartialEq)]
pub struct VideosChatApiResponse {
    pub request_id: Option<String>,
    pub id: Option<String>,
    pub model: Option<String>,
    pub task_status: Option<String>,
}

impl VideosChatApiResponse {
    /// The caller-supplied request id, or empty.
    pub fn request_id(&self) -> (r: String)
        ensures
            (match self.request_id {
                Some(s2) => r@ == s2@,
                None => r@ == Seq::<char>::empty(),
            }),
    {
        match &self.request_id {
            Some(s) => s.clone(),
            None => String::new(),
        }
    }

    /// The task id, or empty.
    pub fn id(&self) -> (r: String)
        ensures
            (match self.id {
                Some(s2) => r@ == s2@,
                None => r@ == Seq::<char>::empty(),
            }),
    {
        match &self.id {
            Some(s) => s.clone(),
            None => String::new(),
        }
    }

    /// The model that took the task, or empty.
    pub fn model(&self) -> (r: String)
        ensures
            (match self.model {
                Some(s2) => r@ == s2@,
                None => r@ == Seq::<char>::empty(),
            }),
    {
        match &self.model {
            Some(s) => s.clone(),
            None => String::new(),
        }
    }

    /// The task's state, or empty.
    pub fn task_status(&self) -> (r: String)
        ensures
            (match self.task_status {
                Some(s2) => r@ == s2@,
                None => r@ == Seq::<char>::empty(),
            }),
    {
        match &self.task_status {
            Some(s) => s.clone(),
            None => String::new(),
        }
    }
}

/// One finished video.
#[derive(Debug, PartialEq, Clone)]
pub struct Video {
    pub url: String,
    pub cover_image_url: String,
}

impl Video {
    /// The video's address.
    pub fn url(&self) -> (r: &str)
        ensures
            r@ == self.url@,
    {
        self.url.as_str()
    }

    /// The cover image's address.
    pub fn cover_image_url(&self) -> (r: &str)
        ensures
            r@ == self.cover_image_url@,
    {
        self.cover_image_url.as_str()
    }
}

/// The polled answer for a video task.
#[derive(Debug, PartialEq)]
pub struct VideosChatApiAsynResponse {
    pub model: Option<String>,
    pub video_result: Option<Vec<Video>>,
    pub request_id: Option<String>,
    pub task_status: Option<String>,
}

impl VideosChatApiAsynResponse {
    /// The model that took the task, or empty.
    pub fn model(&self) -> (r: String)
        ensures
            (match self.model {
                Some(s2) => r@ == s2@,
                None => r@ == Seq::<char>::empty(),
            }),
    {
        match &self.model {
            Some(s) => s.clone(),
            None => String::new(),
        }
    }

    /// The finished videos, empty while the task runs.
    pub fn video_result(&self) -> (r: &[Video])
        ensures
            match self.video_result {
                Some(vs) => r@ == vs@,
                None => r@.len() == 0,
            },
    {
        match &self.video_result {
            Some(vs) => vs.as_slice(),
            None => &[],
        }
    }

    /// The caller-supplied request id, or empty.
    pub fn request_id(&self) -> (r: String)
        ensures
            (match self.request_id {
                Some(s2) => r@ == s2@,
                None => r@ == Seq::<char>::empty(),
            }),
    {
        match &self.request_id {
            Some(s) => s.clone(),
            None => String::new(),
        }
    }

    /// The task's state, or empty.
    pub fn task_status(&self) -> (r: String)
        ensures
            (match self.task_status {
                Some(s2) => r@ == s2@,
                None => r@ == Seq::<char>::empty(),
            }),
    {
        match &self.task_status {
            Some(s) => s.clone(),
            None => String::new(),
        }
    }
}

} // verus!
