//! Errors of the HTTP API: each knows its status and machine-readable code.
//! Everything unexpected folds into `Internal`, which a client sees as a bare
//! 500; the details stay in the server's log.

use crate::proto::ApiErrorBody;
use vstd::prelude::*;
use vstd::string::*;

verus! {

/// An error that a handler answers with.
#[derive(Debug)]
pub enum ApiError {
    BadRequest { code: &'static str, message: String },
    Unauthorized { code: &'static str, message: String },
    NotFound { code: &'static str, message: String },
    /// Anything unexpected; the text is for the log only.
    Internal(String),
}

/// Status of the answer for an error.
pub open spec fn spec_status(e: &ApiError) -> u16 {
    match e {
        ApiError::BadRequest { .. } => 400,
        ApiError::Unauthorized { .. } => 401,
        ApiError::NotFound { .. } => 404,
        ApiError::Internal(_) => 500,
    }
}

/// Code of the error body for an error.
pub open spec fn spec_body_code(e: &ApiError) -> Seq<char> {
    match e {
        ApiError::BadRequest { code, .. } => code@,
        ApiError::Unauthorized { code, .. } => code@,
        ApiError::NotFound { code, .. } => code@,
        ApiError::Internal(_) => "internal"@,
    }
}

/// Message of the error body for an error: the error's own message, and a
/// fixed text for internal errors, whatever they carry.
pub open spec fn spec_body_message(e: &ApiError) -> Seq<char> {
    match e {
        ApiError::BadRequest { message, .. } => message@,
        ApiError::Unauthorized { message, .. } => message@,
        ApiError::NotFound { message, .. } => message@,
        ApiError::Internal(_) => "внутренняя ошибка сервера"@,
    }
}

/// `e` is a 400 with this code and message.
pub open spec fn is_bad_request(e: ApiError, code: Seq<char>, message: Seq<char>) -> bool {
    e matches ApiError::BadRequest { code: c, message: m } && c@ == code && m@ == message
}

/// `e` is a 401 with this code and message.
pub open spec fn is_unauthorized(e: ApiError, code: Seq<char>, message: Seq<char>) -> bool {
    e matches ApiError::Unauthorized { code: c, message: m } && c@ == code && m@ == message
}

/// `e` is a 404 with this code and message.
pub open spec fn is_not_found(e: ApiError, code: Seq<char>, message: Seq<char>) -> bool {
    e matches ApiError::NotFound { code: c, message: m } && c@ == code && m@ == message
}

/// `e` is an internal error with this log text.
pub open spec fn is_internal(e: ApiError, detail: Seq<char>) -> bool {
    e matches ApiError::Internal(d) && d@ == detail
}

impl ApiError {
    /// A 400 answer.
    pub fn bad_request(code: &'static str, message: &str) -> (e: Self)
        ensures
            is_bad_request(e, code@, message@),
    {
        ApiError::BadRequest { code, message: String::from_str(message) }
    }

    /// A 401 answer.
    pub fn unauthorized(code: &'static str, message: &str) -> (e: Self)
        ensures
            is_unauthorized(e, code@, message@),
    {
        ApiError::Unauthorized { code, message: String::from_str(message) }
    }

    /// A 404 answer.
    pub fn not_found(code: &'static str, message: &str) -> (e: Self)
        ensures
            is_not_found(e, code@, message@),
    {
        ApiError::NotFound { code, message: String::from_str(message) }
    }

    /// A 500 answer; `detail` goes to the log only.
    pub fn internal(detail: String) -> (e: Self)
        ensures
            is_internal(e, detail@),
    {
        ApiError::Internal(detail)
    }

    /// The HTTP status of the answer.
    pub fn status(&self) -> (s: u16)
        ensures
            s == spec_status(self),
    {
        match self {
            ApiError::BadRequest { .. } => 400,
            ApiError::Unauthorized { .. } => 401,
            ApiError::NotFound { .. } => 404,
            ApiError::Internal(_) => 500,
        }
    }

    /// The JSON body of the answer. An internal error shows a fixed text,
    /// never its detail.
    pub fn body(&self) -> (b: ApiErrorBody)
        ensures
            b.code@ == spec_body_code(self),
            b.message@ == spec_body_message(self),
    {
        match self {
            ApiError::BadRequest { code, message } => ApiErrorBody {
                code: String::from_str(code),
                message: message.clone(),
            },
            ApiError::Unauthorized { code, message } => ApiErrorBody {
                code: String::from_str(code),
                message: message.clone(),
            },
            ApiError::NotFound { code, message } => ApiErrorBody {
                code: String::from_str(code),
                message: message.clone(),
            },
            ApiError::Internal(_) => ApiErrorBody {
                code: String::from_str("internal"),
                message: String::from_str("внутренняя ошибка сервера"),
            },
        }
    }
}

/// An internal error tells the client nothing of its detail: two internal
/// errors give the same status and body.
pub proof fn lemma_internal_detail_hidden(a: ApiError, b: ApiError)
    requires
        a is Internal,
        b is Internal,
    ensures
        spec_status(&a) == spec_status(&b) == 500,
        spec_body_code(&a) == spec_body_code(&b),
        spec_body_message(&a) == spec_body_message(&b),
{
}

} // verus!
