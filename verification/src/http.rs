//! Plain models of the HTTP-level values the core reads and produces:
//! the request method, the request URI, the response status, and the
//! structured error that carries a status plus a diagnostic message.
//!
//! The transport layer converts its own request type into these values
//! and converts the resulting status back; the core never touches the
//! wire format.

use vstd::prelude::*;

verus! {

/// The subset of response statuses this gateway ever produces.
#[derive(Debug, Clone, Copy, PartialEq, Eq, Structural)]
pub enum Status {
    Okay,
    BadRequest,
    InternalServerError,
    MethodNotAllowed,
}

impl Status {
    /// The numeric HTTP status code of this status.
    pub fn code(&self) -> (c: u16)
        ensures
            c == self.spec_code(),
    {
        match self {
            Status::Okay => 200,
            Status::BadRequest => 400,
            Status::InternalServerError => 500,
            Status::MethodNotAllowed => 405,
        }
    }

    /// What `code` returns for each status.
    pub open spec fn spec_code(&self) -> u16 {
        match self {
            Status::Okay => 200,
            Status::BadRequest => 400,
            Status::InternalServerError => 500,
            Status::MethodNotAllowed => 405,
        }
    }
}

/// The request methods the dispatcher distinguishes. Every method other
/// than `Put`, `Post` and `Get` behaves alike, so they share `Other`.
#[derive(Debug, Clone, Copy, PartialEq, Eq, Structural)]
pub enum Method {
    Get,
    Put,
    Post,
    Other,
}

/// The shapes a request URI can take. Only a plain absolute path
/// (`/repo/file.rpm`) can be resolved; the remaining shapes are kept
/// apart so the resolver can reject them explicitly.
#[derive(Debug, Clone, PartialEq, Eq)]
pub enum RequestUri {
    /// A simple absolute path such as `/acme/pkg-1.0.rpm`.
    AbsolutePath(String),
    /// A full URI with scheme and authority.
    AbsoluteUri,
    /// An authority form (host and port only).
    Authority(String),
    /// The asterisk form used by server-wide requests.
    Star,
}

/// A rejected request: the status to answer with and a diagnostic
/// message for the operator.
#[derive(Debug, Clone, PartialEq, Eq)]
pub struct HttpError {
    pub code: Status,
    pub error: String,
}

} // verus!
