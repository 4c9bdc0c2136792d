//! Errors of the realtime session alone.

use vstd::prelude::*;

verus! {

/// What can go wrong on a realtime session. Variants that wrap an outer
/// library's error carry its text.
#[derive(Debug, PartialEq, Clone)]
pub enum SessionError {
    /// Base64 decoding of a binary payload failed.
    Decode(String),
    /// A header value could not be built.
    InvalidHeader(String),
    /// An I/O failure.
    Io(String),
    /// A frame was not the JSON the protocol calls for.
    Json(String),
    /// An error event reported by the service.
    Realtime(crate::rtav::value::Error),
    /// A non-success HTTP status on the upgrade.
    StatusCode(String),
    /// The system clock was unusable.
    SystemTime(String),
    /// A WebSocket failure.
    TungsteniteError(String),
}

impl SessionError {
    /// The text [`SessionError::describe`] renders: a fixed prefix and
    /// the variant's own text.
    pub open spec fn spec_describe(self) -> Seq<char> {
        "RealtimeApiError: "@ + (match self {
            SessionError::Decode(s) => s@,
            SessionError::InvalidHeader(s) => s@,
            SessionError::Io(s) => s@,
            SessionError::Json(s) => s@,
            SessionError::Realtime(e) => e.spec_describe(),
            SessionError::StatusCode(s) => s@,
            SessionError::SystemTime(s) => s@,
            SessionError::TungsteniteError(s) => s@,
        })
    }

    /// A readable rendering, in place of `Display`.
    pub fn describe(&self) -> (r: String)
        ensures
            r@ == self.spec_describe(),
    {
        let mut out = String::from_str("RealtimeApiError: ");
        match self {
            SessionError::Decode(s) => out.append(s.as_str()),
            SessionError::InvalidHeader(s) => out.append(s.as_str()),
            SessionError::Io(s) => out.append(s.as_str()),
            SessionError::Json(s) => out.append(s.as_str()),
            SessionError::Realtime(e) => {
                let d = e.describe();
                out.append(d.as_str());
            },
            SessionError::StatusCode(s) => out.append(s.as_str()),
            SessionError::SystemTime(s) => out.append(s.as_str()),
            SessionError::TungsteniteError(s) => out.append(s.as_str()),
        }
        out
    }
}

} // verus!
