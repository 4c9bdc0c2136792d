//! The realtime session protocol: event envelopes, inbound event data and
//! the session values they carry.

pub mod error;
pub mod event;
pub mod value;

pub use error::SessionError;
pub use event::{Event, EventData};
pub use value::{
    BetaFields, ChatMode, Conversation, ConversationItem, ConversationItemStatus, ContentPart,
    Error, GreetingConfig, InputAudioNoiseReduction, InputTokenDetails, OutputTokenDetails,
    RateLimit, Response, ResponseStatus, Session, SimpleBrowser, TurnDetection, Usage, VadType,
};
