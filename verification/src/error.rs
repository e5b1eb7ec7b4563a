//! The library's error type and how each error is answered over HTTP.

use vstd::prelude::*;
use vstd::string::*;

verus! {

#[verifier::external_type_specification]
#[verifier::external_body]
pub struct ExSqlxError(sqlx::Error);

#[verifier::external_type_specification]
#[verifier::external_body]
pub struct ExJsonError(serde_json::Error);

#[derive(Debug)]
pub enum OracleError {
    SourceFetch { source_name: String, message: String },
    FeedNotFound(String),
    BadRequest(String),
    Database(sqlx::Error),
    Serialization(serde_json::Error),
}

/// What an HTTP client is answered for an error: a status code, a stable error
/// code, and a human-readable message.
#[derive(Debug)]
pub struct ErrorReply {
    pub status: u16,
    pub code: &'static str,
    pub message: String,
}

/// The text of an error as its `Display` renders it, for the errors whose text
/// is shown to clients.
pub open spec fn error_text(e: OracleError) -> Seq<char> {
    match e {
        OracleError::SourceFetch { source_name, message } =>
            "Failed to fetch from source "@ + source_name@ + ": "@ + message@,
        OracleError::FeedNotFound(id) => "Feed not found: "@ + id@,
        OracleError::BadRequest(m) => "Invalid request : "@ + m@,
        _ => Seq::empty(),
    }
}

/// The status code each error is answered with.
pub open spec fn reply_status(e: OracleError) -> u16 {
    match e {
        OracleError::FeedNotFound(_) => 404,
        OracleError::BadRequest(_) => 400,
        OracleError::SourceFetch { .. } => 503,
        _ => 500,
    }
}

/// The error code each error is answered with.
pub open spec fn reply_code(e: OracleError) -> Seq<char> {
    match e {
        OracleError::FeedNotFound(_) => "FEED_NOT_FOUND"@,
        OracleError::BadRequest(_) => "BAD_REQUEST"@,
        OracleError::SourceFetch { .. } => "SOURCE_UNAVAILABLE"@,
        _ => "INTERNAL_ERROR"@,
    }
}

/// The message each error is answered with: its own text for the errors a
/// client can act on, a fixed text for internal ones.
pub open spec fn reply_message(e: OracleError) -> Seq<char> {
    match e {
        OracleError::FeedNotFound(_) | OracleError::BadRequest(_) | OracleError::SourceFetch { .. } =>
            error_text(e),
        _ => "An internal error occured"@,
    }
}

impl OracleError {
    /// True of the internal errors (database and serialization failures),
    /// whose details are logged rather than shown.
    pub open spec fn is_internal(&self) -> bool {
        ||| self is Database
        ||| self is Serialization
    }

    pub fn is_internal_error(&self) -> (r: bool)
        ensures
            r == self.is_internal(),
    {
        match self {
            OracleError::Database(_) | OracleError::Serialization(_) => true,
            _ => false,
        }
    }

    /// How this error is answered over HTTP.
    pub fn reply(&self) -> (r: ErrorReply)
        ensures
            r.status == reply_status(*self),
            r.code@ == reply_code(*self),
            r.message@ == reply_message(*self),
    {
        match self {
            OracleError::FeedNotFound(id) => {
                let mut message = "Feed not found: ".to_owned();
                message.append(id.as_str());
                ErrorReply { status: 404, code: "FEED_NOT_FOUND", message }
            },
            OracleError::BadRequest(m) => {
                let mut message = "Invalid request : ".to_owned();
                message.append(m.as_str());
                ErrorReply { status: 400, code: "BAD_REQUEST", message }
            },
            OracleError::SourceFetch { source_name, message: detail } => {
                let mut message = "Failed to fetch from source ".to_owned();
                message.append(source_name.as_str());
                message.append(": ");
                message.append(detail.as_str());
                ErrorReply { status: 503, code: "SOURCE_UNAVAILABLE", message }
            },
            _ => {
                ErrorReply {
                    status: 500,
                    code: "INTERNAL_ERROR",
                    message: "An internal error occured".to_owned(),
                }
            },
        }
    }
}

} // verus!
