//! The closed set of application errors and the JSON error envelopes.
//!
//! Every failure surfaces to the caller as one of the [`AppError`] kinds,
//! each mapped to a fixed HTTP status code, and is rendered as an envelope
//! carrying a timestamp and a success flag fixed to `false`.

use vstd::prelude::*;
use crate::ext::utc_now_rfc3339;

verus! {

/// HTTP status codes used by this library.
pub const STATUS_OK: u16 = 200;

pub const STATUS_CREATED: u16 = 201;

pub const STATUS_BAD_REQUEST: u16 = 400;

pub const STATUS_UNAUTHORIZED: u16 = 401;

pub const STATUS_NOT_FOUND: u16 = 404;

pub const STATUS_INTERNAL_SERVER_ERROR: u16 = 500;

/// One field that failed validation, with the messages describing why.
#[derive(Debug)]
pub struct FieldErrors {
    pub field: String,
    pub messages: Vec<String>,
}

/// A request rejected by validation: every failing field with its messages.
#[derive(Debug)]
pub struct ValidationFailure {
    pub fields: Vec<FieldErrors>,
}

/// The closed set of error kinds. Each carries a message (or, for
/// validation, the failing fields) and maps to one HTTP status code.
#[derive(Debug)]
pub enum AppError {
    BadRequest(String),
    NotFound(String),
    InternalServer(String),
    UnAuthorized(String),
    ValidationError(ValidationFailure),
}

/// The HTTP status code each error kind maps to.
pub open spec fn spec_status_code(e: &AppError) -> u16 {
    match e {
        AppError::BadRequest(_) => STATUS_BAD_REQUEST,
        AppError::NotFound(_) => STATUS_NOT_FOUND,
        AppError::InternalServer(_) => STATUS_INTERNAL_SERVER_ERROR,
        AppError::UnAuthorized(_) => STATUS_UNAUTHORIZED,
        AppError::ValidationError(_) => STATUS_BAD_REQUEST,
    }
}

impl AppError {
    /// The HTTP status code this error maps to.
    pub fn status_code(&self) -> (r: u16)
        ensures
            r == spec_status_code(self),
    {
        match self {
            AppError::BadRequest(_) => STATUS_BAD_REQUEST,
            AppError::NotFound(_) => STATUS_NOT_FOUND,
            AppError::InternalServer(_) => STATUS_INTERNAL_SERVER_ERROR,
            AppError::UnAuthorized(_) => STATUS_UNAUTHORIZED,
            AppError::ValidationError(_) => STATUS_BAD_REQUEST,
        }
    }
}

/// The uniform envelope for non-validation errors.
pub struct ErrorResponse {
    pub message: String,
    pub status_code: u16,
    pub timestamp: String,
    pub success: bool,
}

impl ErrorResponse {
    /// Builds the envelope for a message, a status code and the instant the
    /// error was rendered. The success flag of an error envelope is `false`.
    pub fn new(message: String, status_code: u16, timestamp: String) -> (r: Self)
        ensures
            r.message == message,
            r.status_code == status_code,
            r.timestamp == timestamp,
            r.success == false,
    {
        ErrorResponse { message, status_code, timestamp, success: false }
    }
}

/// The envelope for validation failures: the failing fields instead of a
/// single message.
pub struct ValidationResponse {
    pub fields: Vec<FieldErrors>,
    pub status_code: u16,
    pub timestamp: String,
    pub success: bool,
}

impl ValidationResponse {
    /// Builds the validation envelope. Validation failures always map to the
    /// bad-request status, and the success flag is `false`.
    pub fn new(failure: ValidationFailure, timestamp: String) -> (r: Self)
        ensures
            r.fields == failure.fields,
            r.status_code == STATUS_BAD_REQUEST,
            r.timestamp == timestamp,
            r.success == false,
    {
        ValidationResponse {
            fields: failure.fields,
            status_code: STATUS_BAD_REQUEST,
            timestamp,
            success: false,
        }
    }
}

/// The body of an error response: either the uniform error envelope or the
/// validation envelope.
pub enum ResponseBody {
    Error(ErrorResponse),
    Validation(ValidationResponse),
}

/// Renders an error as the pair of HTTP status code and response body, as of
/// the given instant. The status code of the pair, and the one recorded
/// inside the envelope, both equal the error kind's fixed status code; the
/// envelope keeps the error's message (or its failing fields), carries the
/// given timestamp, and has its success flag set to `false`.
pub fn response_parts_at(e: AppError, timestamp: String) -> (r: (u16, ResponseBody))
    ensures
        r.0 == spec_status_code(&e),
        match e {
            AppError::ValidationError(failure) => (r.1 matches ResponseBody::Validation(v)
                && v.fields == failure.fields && v.status_code == spec_status_code(&e)
                && v.timestamp == timestamp && v.success == false),
            AppError::BadRequest(msg) | AppError::NotFound(msg) | AppError::InternalServer(msg)
                | AppError::UnAuthorized(msg) => (r.1 matches ResponseBody::Error(b) && b.message
                == msg && b.status_code == spec_status_code(&e) && b.timestamp == timestamp
                && b.success == false),
        },
{
    let status = e.status_code();
    match e {
        AppError::ValidationError(failure) => (
            status,
            ResponseBody::Validation(ValidationResponse::new(failure, timestamp)),
        ),
        AppError::BadRequest(msg) => (
            status,
            ResponseBody::Error(ErrorResponse::new(msg, status, timestamp)),
        ),
        AppError::NotFound(msg) => (
            status,
            ResponseBody::Error(ErrorResponse::new(msg, status, timestamp)),
        ),
        AppError::InternalServer(msg) => (
            status,
            ResponseBody::Error(ErrorResponse::new(msg, status, timestamp)),
        ),
        AppError::UnAuthorized(msg) => (
            status,
            ResponseBody::Error(ErrorResponse::new(msg, status, timestamp)),
        ),
    }
}

/// Renders an error as the pair of HTTP status code and response body,
/// stamped with the current UTC instant: exactly [`response_parts_at`],
/// except that the timestamp inside the envelope is whatever the clock
/// returned.
pub fn response_parts(e: AppError) -> (r: (u16, ResponseBody))
    ensures
        r.0 == spec_status_code(&e),
        match e {
            AppError::ValidationError(failure) => (r.1 matches ResponseBody::Validation(v)
                && v.fields == failure.fields && v.status_code == spec_status_code(&e) && v.success
                == false),
            AppError::BadRequest(msg) | AppError::NotFound(msg) | AppError::InternalServer(msg)
                | AppError::UnAuthorized(msg) => (r.1 matches ResponseBody::Error(b) && b.message
                == msg && b.status_code == spec_status_code(&e) && b.success == false),
        },
{
    let timestamp = utc_now_rfc3339();
    response_parts_at(e, timestamp)
}

} // verus!
