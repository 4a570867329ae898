//! Typed outcomes of the solver service boundary: a status code and a message,
//! as the RPC layer reports them.
use vstd::prelude::*;

verus! {

/// The RPC status codes that the service answers with.
#[derive(Debug, Clone, Copy, PartialEq, Eq, Structural)]
pub enum StatusCode {
    InvalidArgument,
    PermissionDenied,
    ResourceExhausted,
    Unavailable,
    Unauthenticated,
    Internal,
}

/// A refused or failed request: its status code and message.
#[derive(Debug, Clone, PartialEq, Eq)]
pub struct ServiceStatus {
    pub code: StatusCode,
    pub message: String,
}

/// `s` carries `code` and the message `message`.
pub open spec fn is_status(s: ServiceStatus, code: StatusCode, message: Seq<char>) -> bool {
    s.code == code && s.message@ == message
}

impl ServiceStatus {
    /// A status with the given code and message.
    pub fn new(code: StatusCode, message: String) -> (r: ServiceStatus)
        ensures
            r.code == code,
            r.message == message,
    {
        ServiceStatus { code, message }
    }
}

/// The message `prefix` followed by `value`.
pub fn joined(prefix: &str, value: &str) -> (r: String)
    ensures
        r@ == prefix@ + value@,
{
    let mut out = String::from_str(prefix);
    out.append(value);
    out
}

} // verus!
