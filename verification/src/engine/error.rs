//! Engine errors. Only [`EngineError::Wire`] carries a message meant for a client; everything
//! else is an internal fault that is logged, never transmitted.
use vstd::prelude::*;

use crate::protocol::envelope::{ErrorCode, ErrorPayload};

verus! {

#[derive(Debug)]
pub enum EngineError {
    /// A file operation failed; `detail` is the operating system's description.
    Io { context: &'static str, path: String, detail: String },
    /// A stored JSON document could not be read or written.
    Json { context: &'static str, path: String, detail: String },
    /// Certificate generation or use failed.
    Certificate(String),
    /// The operating system's entropy source failed.
    Entropy(String),
    /// A stored key is malformed.
    CorruptIdentity { what: &'static str },
    /// Owner-only permissions could not be set on a secret file.
    Permissions { path: String, detail: String },
    /// A platform auto-start tool was absent or refused.
    Service { context: &'static str, detail: String },
    /// A failure that maps directly onto a wire error.
    Wire(ErrorPayload),
}

/// The fixed message every internal fault is reported with.
pub open spec fn internal_message() -> Seq<char> {
    "internal engine error"@
}

/// `e` is a wire error with exactly this code and message.
pub open spec fn is_wire_error(e: EngineError, code: ErrorCode, message: Seq<char>) -> bool {
    e matches EngineError::Wire(p) && p.code == code && p.message@ == message
}

/// `r` failed with a wire error carrying this code.
pub open spec fn fails_with<T>(r: Result<T, EngineError>, code: ErrorCode) -> bool {
    r matches Err(EngineError::Wire(p)) && p.code == code
}

impl EngineError {
    pub fn io(context: &'static str, path: String, detail: String) -> (r: Self)
        ensures
            r == (EngineError::Io { context, path, detail }),
    {
        EngineError::Io { context, path, detail }
    }

    pub fn json(context: &'static str, path: String, detail: String) -> (r: Self)
        ensures
            r == (EngineError::Json { context, path, detail }),
    {
        EngineError::Json { context, path, detail }
    }

    pub fn service(context: &'static str, detail: String) -> (r: Self)
        ensures
            r == (EngineError::Service { context, detail }),
    {
        EngineError::Service { context, detail }
    }

    pub fn wire(code: ErrorCode, message: String) -> (r: Self)
        ensures
            r == EngineError::Wire(ErrorPayload { code, message }),
    {
        EngineError::Wire(ErrorPayload::new(code, message))
    }

    /// The payload to send back over the socket: a wire error as it is, anything else as
    /// `INTERNAL` with a fixed message, since its details can name host paths.
    pub fn to_payload(&self) -> (r: ErrorPayload)
        ensures
            match self {
                EngineError::Wire(p) => r == *p,
                _ => r.code == ErrorCode::Internal && r.message@ == internal_message(),
            },
    {
        match self {
            EngineError::Wire(payload) => payload.clone(),
            _ => ErrorPayload::new(ErrorCode::Internal, String::from_str("internal engine error")),
        }
    }
}

} // verus!
