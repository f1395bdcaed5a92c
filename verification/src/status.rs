//! The error value that an RPC attempt can surface.
//!
//! Errors are passed through to callers verbatim: nothing in this library
//! wraps or re-codes them, so the caller sees the service's own
//! classification.

use vstd::prelude::*;

verus! {

/// A canonical RPC status code, as reported by the remote service or the
/// transport.
#[derive(Clone, Copy, Debug, PartialEq, Eq, Structural)]
pub enum StatusCode {
    Cancelled,
    Unknown,
    InvalidArgument,
    DeadlineExceeded,
    NotFound,
    AlreadyExists,
    PermissionDenied,
    ResourceExhausted,
    FailedPrecondition,
    Aborted,
    OutOfRange,
    Unimplemented,
    Internal,
    Unavailable,
    DataLoss,
    Unauthenticated,
}

/// One failed outcome of an RPC attempt: a code plus the server's message.
#[derive(Clone, Debug, PartialEq)]
pub struct Status {
    pub code: StatusCode,
    pub message: String,
}

impl Status {
    /// Builds a status from its parts.
    pub fn new(code: StatusCode, message: String) -> (r: Status)
        ensures
            r.code == code,
            r.message == message,
    {
        Status { code, message }
    }
}

} // verus!
