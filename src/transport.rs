//! What a request hands back to the decision logic.

use vstd::prelude::*;

verus! {

/// The outcome of one HTTP request, as the host program observed it.
#[derive(Debug, Clone, PartialEq, Eq)]
pub enum Reply {
    /// The server answered with a status, perhaps a `Location` header, and a body.
    Answered { status: u16, location: Option<String>, body: String },
    /// No answer came: the connection failed or the request timed out.
    Failed { timed_out: bool, message: String },
}

/// A 2xx status.
pub open spec fn is_success(status: u16) -> bool {
    200 <= status < 300
}

/// A 3xx status.
pub open spec fn is_redirection(status: u16) -> bool {
    300 <= status < 400
}

/// The server answered with a 2xx status.
pub open spec fn succeeded(r: Reply) -> bool {
    match r {
        Reply::Answered { status, .. } => is_success(status),
        Reply::Failed { .. } => false,
    }
}

/// The status of an answer, if the server answered.
pub open spec fn status_of(r: Reply) -> Option<u16> {
    match r {
        Reply::Answered { status, .. } => Some(status),
        Reply::Failed { .. } => None,
    }
}

impl Reply {
    /// Whether the server answered with a 2xx status.
    pub fn succeeded(&self) -> (r: bool)
        ensures
            r == succeeded(*self),
    {
        match self {
            Reply::Answered { status, .. } => 200 <= *status && *status < 300,
            Reply::Failed { .. } => false,
        }
    }

    /// The status of an answer, if the server answered.
    pub fn status(&self) -> (r: Option<u16>)
        ensures
            r == status_of(*self),
    {
        match self {
            Reply::Answered { status, .. } => Some(*status),
            Reply::Failed { .. } => None,
        }
    }
}

} // verus!
