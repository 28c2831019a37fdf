//! Library error type, tagged with the kind of failure.
use vstd::prelude::*;

verus! {

/// The taxonomy of failures the core can report. Construction-time failures
/// (`ConfigurationError`, `TransportError` during connect) and runtime
/// failures (`TransportError` during the drive loop, `ProtocolError`,
/// `ChannelClosedError`, `DecodeError`) share one enumeration so that a
/// caller can match on a single type while still telling them apart.
#[derive(Clone, Copy, Debug, PartialEq, Eq, Structural)]
pub enum ErrorKind {
    /// Bad credentials or bad session configuration.
    ConfigurationError,
    /// Connection or transport-level failure.
    TransportError,
    /// Malformed or out-of-sequence inbound message.
    ProtocolError,
    /// A send was attempted on a closed bounded channel.
    ChannelClosedError,
    /// A payload could not be parsed.
    DecodeError,
}

/// An error of the library. `message` is free text; `code` is an optional
/// service-supplied code; `kind` tags core-produced errors with their place
/// in the taxonomy, and is `None` on errors built by callers through the
/// plain constructors.
#[derive(Debug)]
pub struct Error {
    pub message: String,
    pub code: Option<String>,
    pub kind: Option<ErrorKind>,
}

impl Error {
    /// A plain error carrying only a message.
    pub fn new(message: String) -> (r: Error)
        ensures
            r.message == message,
            r.code is None,
            r.kind is None,
    {
        Error { message, code: None, kind: None }
    }

    /// A plain error carrying a message and a service code.
    pub fn new_with_code(message: String, code: String) -> (r: Error)
        ensures
            r.message == message,
            r.code == Some(code),
            r.kind is None,
    {
        Error { message, code: Some(code), kind: None }
    }

    /// A core-produced error tagged with its kind.
    pub fn with_kind(kind: ErrorKind, message: String) -> (r: Error)
        ensures
            r.message == message,
            r.code is None,
            r.kind == Some(kind),
    {
        Error { message, code: None, kind: Some(kind) }
    }
}

} // verus!
