//! The image-generation API: request builder, sizes and responses.

pub mod api;
pub mod data;
pub mod model;
pub mod response;

pub use api::{ImagesApiRequest, ImagesApiRequestBuilder};
pub use data::ImageSize;
pub use model::ImagesModelName;
pub use response::{ContentFilter, ImagesChatApiResponse, Url};

use vstd::prelude::*;

verus! {

/// The image builder under its service name.
pub type Images = ImagesApiRequestBuilder;

impl crate::builder::Builder for Images {
    type Item = Images;

    /// A fresh image builder for the given model.
    fn new(model_name: &str) -> Self::Item {
        Images::new(model_name)
    }
}

} // verus!
