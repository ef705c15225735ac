//! The errors an API call can end in, the HTTP status each maps to, and the
//! body that reports it. Errors raised by outside layers (the database,
//! request extraction, password hashing) are carried as their message.

use crate::response::{ApiResponse, CODE_ERR};
use vstd::prelude::*;
use vstd::string::*;

verus! {

/// Why an API call failed.
#[derive(Debug, Clone)]
pub enum ApiError {
    NotFound,
    MethodNotAllowed,
    /// A database failure, with its message.
    DatabaseErr(String),
    /// Query parameters that could not be read, with the reason.
    Query(String),
    /// Path parameters that could not be read, with the reason.
    Path(String),
    /// A body that could not be read, with the reason.
    Json(String),
    /// Parameters that failed validation, with the details.
    Validation(String),
    /// A password-hashing failure, with its message.
    Bcrypt(String),
    /// A business rule refused the call, with the message shown.
    Biz(String),
    /// Any other failure, with its message.
    Internal(String),
}

/// The HTTP status code of error `e`.
pub open spec fn status_of(e: ApiError) -> u16 {
    match e {
        ApiError::NotFound => 404,
        ApiError::Query(_) | ApiError::Path(_) | ApiError::Json(_) | ApiError::Validation(_) => 400,
        ApiError::MethodNotAllowed => 405,
        ApiError::DatabaseErr(_) | ApiError::Bcrypt(_) | ApiError::Internal(_) => 500,
        ApiError::Biz(_) => 400,
    }
}

/// The text that reports error `e`.
pub open spec fn message_of(e: ApiError) -> Seq<char> {
    match e {
        ApiError::NotFound => "Not Found"@,
        ApiError::MethodNotAllowed => "Method Not Allowed"@,
        ApiError::DatabaseErr(m) => "Database Error: "@ + m@,
        ApiError::Query(m) => "查询参数错误: "@ + m@,
        ApiError::Path(m) => "路径参数错误: "@ + m@,
        ApiError::Json(m) => "Body参数错误: "@ + m@,
        ApiError::Validation(_) => "参数校验错误"@,
        ApiError::Bcrypt(m) => "密钥 Hash 错误: "@ + m@,
        ApiError::Biz(m) => m@,
        ApiError::Internal(m) => "Error: "@ + m@,
    }
}

/// `prefix` followed by `m`.
fn prefixed(prefix: &str, m: &String) -> (r: String)
    ensures
        r@ == prefix@ + m@,
{
    let s = String::from_str(prefix);
    s.concat(m.as_str())
}

impl ApiError {
    /// The HTTP status code this error is answered with.
    pub fn status_code(&self) -> (r: u16)
        ensures
            r == status_of(*self),
    {
        match self {
            ApiError::NotFound => 404,
            ApiError::Query(_) | ApiError::Path(_) | ApiError::Json(_) | ApiError::Validation(_) => 400,
            ApiError::MethodNotAllowed => 405,
            ApiError::DatabaseErr(_) | ApiError::Bcrypt(_) | ApiError::Internal(_) => 500,
            ApiError::Biz(_) => 400,
        }
    }

    /// The text that reports this error.
    pub fn message(&self) -> (r: String)
        ensures
            r@ == message_of(*self),
    {
        match self {
            ApiError::NotFound => String::from_str("Not Found"),
            ApiError::MethodNotAllowed => String::from_str("Method Not Allowed"),
            ApiError::DatabaseErr(m) => prefixed("Database Error: ", m),
            ApiError::Query(m) => prefixed("查询参数错误: ", m),
            ApiError::Path(m) => prefixed("路径参数错误: ", m),
            ApiError::Json(m) => prefixed("Body参数错误: ", m),
            ApiError::Validation(_) => String::from_str("参数校验错误"),
            ApiError::Bcrypt(m) => prefixed("密钥 Hash 错误: ", m),
            ApiError::Biz(m) => m.clone(),
            ApiError::Internal(m) => prefixed("Error: ", m),
        }
    }

    /// The answer to a call that ended in this error: its status code and
    /// a failed body carrying its text.
    pub fn to_response(&self) -> (r: (u16, ApiResponse<()>))
        ensures
            r.0 == status_of(*self),
            r.1.code == CODE_ERR,
            r.1.message@ == message_of(*self),
            r.1.data is None,
    {
        let message = self.message();
        (self.status_code(), ApiResponse::err(message.as_str()))
    }
}

} // verus!
