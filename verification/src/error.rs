//! The crate's error taxonomy.

use vstd::prelude::*;

verus! {

/// What can go wrong talking to the service. Transport errors are fatal
/// to the operation at hand; decode errors are local to one frame or
/// line; a protocol error reported by the service leaves the session
/// usable. Variants that wrap an outer library's error carry its text.
#[derive(Debug, PartialEq, Clone)]
pub enum ZhipuApiError {
    /// Base64 decoding of a binary payload failed.
    Decode(String),
    /// A header value could not be built.
    InvalidHeader(String),
    /// An I/O failure.
    Io(String),
    /// A frame or body was not the JSON the protocol calls for; holds
    /// the offending field or text.
    Json(String),
    /// An error event reported by the service.
    Realtime(crate::rtav::value::Error),
    /// A non-success HTTP status.
    StatusCode(String),
    /// The system clock was unusable.
    SystemTime(String),
    /// A WebSocket failure.
    TungsteniteError(String),
}

impl ZhipuApiError {
    /// The text [`ZhipuApiError::describe`] renders: a fixed prefix and
    /// the variant's own text.
    pub open spec fn spec_describe(self) -> Seq<char> {
        "ZhipuApiError: "@ + (match self {
            ZhipuApiError::Decode(s) => s@,
            ZhipuApiError::InvalidHeader(s) => s@,
            ZhipuApiError::Io(s) => s@,
            ZhipuApiError::Json(s) => s@,
            ZhipuApiError::Realtime(e) => e.spec_describe(),
            ZhipuApiError::StatusCode(s) => s@,
            ZhipuApiError::SystemTime(s) => s@,
            ZhipuApiError::TungsteniteError(s) => s@,
        })
    }

    /// A readable rendering, in place of `Display`.
    pub fn describe(&self) -> (r: String)
        ensures
            r@ == self.spec_describe(),
    {
        let mut out = String::from_str("ZhipuApiError: ");
        match self {
            ZhipuApiError::Decode(s) => out.append(s.as_str()),
            ZhipuApiError::InvalidHeader(s) => out.append(s.as_str()),
            ZhipuApiError::Io(s) => out.append(s.as_str()),
            ZhipuApiError::Json(s) => out.append(s.as_str()),
            ZhipuApiError::Realtime(e) => {
                let d = e.describe();
                out.append(d.as_str());
            },
            ZhipuApiError::StatusCode(s) => out.append(s.as_str()),
            ZhipuApiError::SystemTime(s) => out.append(s.as_str()),
            ZhipuApiError::TungsteniteError(s) => out.append(s.as_str()),
        }
        out
    }
}

} // verus!
