//! The JSON envelope of the gateway's answers.

use vstd::prelude::*;

verus! {

pub const OK: u16 = 200;

pub const BAD_REQUEST: u16 = 400;

pub const UNAUTHORIZED: u16 = 401;

pub const FORBIDDEN: u16 = 403;

pub const NOT_FOUND: u16 = 404;

pub const CONFLICT: u16 = 409;

pub const INTERNAL_SERVER_ERROR: u16 = 500;

/// What went wrong, in two parts.
pub struct JsonError {
    /// The kind of failure, the same for every failure with one status.
    pub message: String,
    /// What is known of this failure.
    pub details: String,
}

/// An error as plain values.
pub struct JsonErrorView {
    pub message: Seq<char>,
    pub details: Seq<char>,
}

impl View for JsonError {
    type V = JsonErrorView;

    open spec fn view(&self) -> JsonErrorView {
        JsonErrorView { message: self.message@, details: self.details@ }
    }
}

/// An answer: a status with either data or an error.
pub struct JsonResponse<T> {
    /// The HTTP status. It is not part of the body.
    pub status: u16,
    pub data: Option<T>,
    pub error: Option<JsonError>,
}

impl<T> JsonResponse<T> {
    /// The answer carries `data` and no error, with status 200.
    pub open spec fn is_ok_with(self, data: T) -> bool {
        self.status == OK && self.data == Some(data) && self.error is None
    }

    /// The answer carries no data and the error `message` with `details`,
    /// with the status `status`.
    pub open spec fn is_failure(self, status: u16, message: Seq<char>, details: Seq<char>) -> bool {
        &&& self.status == status
        &&& self.data is None
        &&& self.error is Some
        &&& self.error->0@ == (JsonErrorView { message, details })
    }

    /// The answer to a request that went well.
    pub fn new_ok(data: T) -> (r: Self)
        ensures
            r.is_ok_with(data),
    {
        JsonResponse { status: OK, data: Some(data), error: None }
    }

    /// The answer to a request that failed.
    pub fn new_err(status: u16, message: &str, details: String) -> (r: Self)
        ensures
            r.is_failure(status, message@, details@),
    {
        JsonResponse {
            status,
            data: None,
            error: Some(JsonError { message: message.to_string(), details }),
        }
    }

    /// Status 500.
    pub fn new_int_ser_err(details: String) -> (r: Self)
        ensures
            r.is_failure(INTERNAL_SERVER_ERROR, "Internal Server Error"@, details@),
    {
        Self::new_err(INTERNAL_SERVER_ERROR, "Internal Server Error", details)
    }

    /// Status 400.
    pub fn new_bad_req_err(details: String) -> (r: Self)
        ensures
            r.is_failure(BAD_REQUEST, "Bad request"@, details@),
    {
        Self::new_err(BAD_REQUEST, "Bad request", details)
    }

    /// Status 409.
    pub fn new_conflict_err(details: String) -> (r: Self)
        ensures
            r.is_failure(CONFLICT, "Conflict"@, details@),
    {
        Self::new_err(CONFLICT, "Conflict", details)
    }

    /// Status 401.
    pub fn new_unauthorized_err(details: String) -> (r: Self)
        ensures
            r.is_failure(UNAUTHORIZED, "Unauthorized"@, details@),
    {
        Self::new_err(UNAUTHORIZED, "Unauthorized", details)
    }

    /// Status 404.
    pub fn new_not_found_err(details: String) -> (r: Self)
        ensures
            r.is_failure(NOT_FOUND, "Not found"@, details@),
    {
        Self::new_err(NOT_FOUND, "Not found", details)
    }

    /// Status 403.
    pub fn new_forbidden_err(details: String) -> (r: Self)
        ensures
            r.is_failure(FORBIDDEN, "Forbidden"@, details@),
    {
        Self::new_err(FORBIDDEN, "Forbidden", details)
    }
}

} // verus!
