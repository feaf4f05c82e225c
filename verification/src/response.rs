//! The uniform API envelope and API errors.

use vstd::prelude::*;
use crate::text::{contains_run, str_contains};

verus! {

/// Every API answer: `code` 0 means success.
#[derive(Debug)]
pub struct Response<T> {
    pub code: i32,
    pub message: String,
    pub data: Option<T>,
}

impl<T> Response<T> {
    pub fn new(code: i32, message: String, data: Option<T>) -> (r: Self)
        ensures
            r.code == code,
            r.message == message,
            r.data == data,
    {
        Response { code, message, data }
    }

    /// Code 0, message "success", carrying `data`.
    pub fn success(data: T) -> (r: Self)
        ensures
            r.code == 0,
            r.message@ == "success"@,
            r.data == Some(data),
    {
        Self::new(0, "success".to_owned(), Some(data))
    }

    /// An error answer without data.
    pub fn error(code: i32, message: String) -> (r: Self)
        ensures
            r.code == code,
            r.message == message,
            r.data is None,
    {
        Self::new(code, message, None)
    }
}

/// An API error: an HTTP status code and a message.
#[derive(Debug, Clone)]
pub struct ApiError {
    pub status: u16,
    pub message: String,
}

impl ApiError {
    /// 500 Internal Server Error.
    pub fn internal(message: String) -> (e: Self)
        ensures
            e.status == 500,
            e.message == message,
    {
        ApiError { status: 500, message }
    }

    /// 400 Bad Request.
    pub fn bad_request(message: String) -> (e: Self)
        ensures
            e.status == 400,
            e.message == message,
    {
        ApiError { status: 400, message }
    }

    /// 404 Not Found.
    pub fn not_found(message: String) -> (e: Self)
        ensures
            e.status == 404,
            e.message == message,
    {
        ApiError { status: 404, message }
    }

    /// 403 Forbidden.
    pub fn forbidden(message: String) -> (e: Self)
        ensures
            e.status == 403,
            e.message == message,
    {
        ApiError { status: 403, message }
    }

    /// 401 Unauthorized.
    pub fn unauthorized(message: String) -> (e: Self)
        ensures
            e.status == 401,
            e.message == message,
    {
        ApiError { status: 401, message }
    }

    /// A storage error becomes 404 when its message says "not found", else 500.
    pub fn from_storage_error(message: String) -> (e: Self)
        ensures
            e.status == (if contains_run(message@, "not found"@) { 404u16 } else { 500u16 }),
            e.message == message,
    {
        if str_contains(message.as_str(), "not found") {
            ApiError::not_found(message)
        } else {
            ApiError::internal(message)
        }
    }

    /// The envelope sent for this error: its status as the code, no data.
    pub fn into_body(self) -> (r: Response<()>)
        ensures
            r.code == self.status as i32,
            r.message == self.message,
            r.data is None,
    {
        Response::error(self.status as i32, self.message)
    }
}

} // verus!
