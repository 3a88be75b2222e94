//! What a request is answered with.

use vstd::prelude::*;

verus! {

/// The HTTP statuses that the server answers with.
#[derive(Clone, Copy, Debug, PartialEq, Eq, Structural)]
pub enum StatusCode {
    Created,
    BadRequest,
    Unauthorized,
    TooManyRequests,
    InternalServerError,
}

impl StatusCode {
    /// The number of a status.
    pub open spec fn number(self) -> u16 {
        match self {
            StatusCode::Created => 201,
            StatusCode::BadRequest => 400,
            StatusCode::Unauthorized => 401,
            StatusCode::TooManyRequests => 429,
            StatusCode::InternalServerError => 500,
        }
    }

    /// The number of a status.
    pub fn as_u16(&self) -> (number: u16)
        ensures
            number == self.number(),
    {
        match self {
            StatusCode::Created => 201,
            StatusCode::BadRequest => 400,
            StatusCode::Unauthorized => 401,
            StatusCode::TooManyRequests => 429,
            StatusCode::InternalServerError => 500,
        }
    }
}

/// The database did not do what it was asked.
#[derive(Clone, Copy, Debug, PartialEq, Eq, Structural)]
pub struct DatabaseFailure;

/// A short answer: whether the request succeeded, and perhaps a message or the
/// lifetime of messages that was set.
#[derive(Clone, Debug)]
pub struct StatusReply {
    pub success: bool,
    pub message: Option<String>,
    pub default_ttl_seconds: Option<i32>,
}

/// The characters of a text that may be missing.
pub open spec fn opt_text(text: Option<String>) -> Option<Seq<char>> {
    match text {
        Some(text) => Some(text@),
        None => None,
    }
}

/// The characters of a borrowed text that may be missing.
pub open spec fn opt_str(text: Option<&str>) -> Option<Seq<char>> {
    match text {
        Some(text) => Some(text@),
        None => None,
    }
}

impl StatusReply {
    /// Whether this answer has the given parts.
    pub open spec fn has(
        self,
        success: bool,
        message: Option<Seq<char>>,
        default_ttl_seconds: Option<i32>,
    ) -> bool {
        &&& self.success == success
        &&& opt_text(self.message) == message
        &&& self.default_ttl_seconds == default_ttl_seconds
    }

    /// An answer that says only whether the request succeeded.
    pub fn plain(success: bool) -> (reply: StatusReply)
        ensures
            reply.has(success, None, None),
    {
        StatusReply { success, message: None, default_ttl_seconds: None }
    }

    /// An answer with a message.
    pub fn with_message(success: bool, message: &str) -> (reply: StatusReply)
        ensures
            reply.has(success, Some(message@), None),
    {
        StatusReply { success, message: Some(message.to_owned()), default_ttl_seconds: None }
    }

    /// An answer that names the lifetime of messages that was set.
    pub fn with_ttl(default_ttl_seconds: i32) -> (reply: StatusReply)
        ensures
            reply.has(true, None, Some(default_ttl_seconds)),
    {
        StatusReply { success: true, message: None, default_ttl_seconds: Some(default_ttl_seconds) }
    }
}

} // verus!
