//! Request outcomes as RPC status codes with messages.
use vstd::prelude::*;
use vstd::string::StringExecFns;

verus! {

/// The kinds of failure a request can end in.
#[derive(Debug, Clone, Copy, PartialEq, Eq, Structural)]
pub enum Code {
    /// The request's own input is malformed or conflicts with what it refers to.
    InvalidArgument,
    /// The request carried no credential.
    Unauthenticated,
    /// The node could not be reached or did not accept the credential.
    Unavailable,
    /// Any other failure.
    Internal,
}

/// A failed request: its kind and a message for the caller.
#[derive(Debug, Clone)]
pub struct RpcStatus {
    pub code: Code,
    pub message: String,
}

/// A status whose message is `prefix` followed by `detail`.
pub fn status_with(code: Code, prefix: &str, detail: &str) -> (r: RpcStatus)
    ensures
        r.code == code,
        r.message@ == prefix@ + detail@,
{
    let mut message = String::from_str(prefix);
    message.append(detail);
    RpcStatus { code, message }
}

} // verus!
