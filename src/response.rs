//! The uniform body of every API answer: a code, a message and optional
//! data.

use vstd::prelude::*;
use vstd::string::*;

verus! {

/// Code of a successful answer.
pub const CODE_OK: i32 = 0;

/// Code of a failed answer.
pub const CODE_ERR: i32 = 1;

/// The body of an API answer.
#[derive(Debug)]
pub struct ApiResponse<T> {
    pub code: i32,
    pub message: String,
    pub data: Option<T>,
}

impl<T> ApiResponse<T> {
    /// An answer made of the given parts.
    pub fn new(code: i32, message: String, data: Option<T>) -> (r: Self)
        ensures
            r.code == code,
            r.message@ == message@,
            r.data == data,
    {
        ApiResponse { code, message, data }
    }

    /// A successful answer with `message` and `data`.
    pub fn ok(message: &str, data: Option<T>) -> (r: Self)
        ensures
            r.code == CODE_OK,
            r.message@ == message@,
            r.data == data,
    {
        ApiResponse::new(CODE_OK, String::from_str(message), data)
    }

    /// A failed answer with `message` and no data.
    pub fn err(message: &str) -> (r: Self)
        ensures
            r.code == CODE_ERR,
            r.message@ == message@,
            r.data is None,
    {
        ApiResponse::new(CODE_ERR, String::from_str(message), None)
    }
}

} // verus!
