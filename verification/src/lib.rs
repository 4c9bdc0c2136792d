//! Client-side protocol layer for the BigModel generative-AI service:
//! an incremental byte-to-event decoder for the chunked `data:` line
//! protocol carried over an HTTP response body, and the event codec and
//! session values for the realtime WebSocket protocol.
//!
//! Transport (HTTP, WebSocket, TLS) stays outside this crate; the modules
//! here hold the framing, decoding and envelope-building logic, each
//! function with a contract.

pub mod b64;
pub mod bigmodel;
pub mod builder;
pub mod chat;
pub mod error;
pub mod images;
pub mod json;
pub mod lines;
pub mod role;
pub mod rtav;
pub mod values;
pub mod utf8buf;
pub mod videos;
