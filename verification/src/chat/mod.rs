//! The chat API: its streaming decoder and response types.

pub mod data;
pub mod model;
pub mod response;

pub use data::{Choice, Function, ToolCall, Usage, WebSearchResponse};
pub use model::ChatModelName;
pub use response::{ChatApiResponse, ChatApiResponseStream, ChoiceStream, ChunkedEventDecoder};
