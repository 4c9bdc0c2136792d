//! The video-generation API: request builder, formats and responses.

pub mod api;
pub mod data;
pub mod model;
pub mod response;

pub use api::{VideosApiAsynRequest, VideosApiRequest, VideosApiRequestBuilder};
pub use data::{VideoDuration, VideoFPS, VideoQuality, VideoSize};
pub use model::VideosModelName;
pub use response::{Video, VideosChatApiAsynResponse, VideosChatApiResponse};

use vstd::prelude::*;

verus! {

/// The video builder under its service name.
pub type Videos = VideosApiRequestBuilder;

impl crate::builder::Builder for Videos {
    type Item = Videos;

    /// A fresh video builder for the given model.
    fn new(model_name: &str) -> Self::Item {
        Videos::new(model_name)
    }
}

} // verus!
