//! The connector's error type and the HTTP error answer that each error becomes.

use vstd::prelude::*;

use crate::text::push_str;

verus! {

/// Everything that can make a request fail.
///
/// Storage and encoding failures carry the text of the underlying error.
#[derive(Debug, Clone)]
pub enum AppError {
    InvalidRequest { message: String, param: Option<String> },
    InvalidCard { message: String, param: Option<String> },
    IdempotencyConflict,
    RateLimitExceeded,
    ProcessingError(String),
    ServiceUnavailable,
    RedisError(String),
    SerializationError(String),
    ValidationError(String),
    NotFound,
}

/// The abstract value of an [`AppError`]: the same variants, texts as character sequences.
pub enum ErrorView {
    InvalidRequest { message: Seq<char>, param: Option<Seq<char>> },
    InvalidCard { message: Seq<char>, param: Option<Seq<char>> },
    IdempotencyConflict,
    RateLimitExceeded,
    ProcessingError(Seq<char>),
    ServiceUnavailable,
    RedisError(Seq<char>),
    SerializationError(Seq<char>),
    ValidationError(Seq<char>),
    NotFound,
}

pub open spec fn opt_text(o: Option<String>) -> Option<Seq<char>> {
    match o {
        Some(s) => Some(s@),
        None => None,
    }
}

impl View for AppError {
    type V = ErrorView;

    open spec fn view(&self) -> ErrorView {
        match self {
            AppError::InvalidRequest { message, param } => ErrorView::InvalidRequest {
                message: message@,
                param: opt_text(*param),
            },
            AppError::InvalidCard { message, param } => ErrorView::InvalidCard {
                message: message@,
                param: opt_text(*param),
            },
            AppError::IdempotencyConflict => ErrorView::IdempotencyConflict,
            AppError::RateLimitExceeded => ErrorView::RateLimitExceeded,
            AppError::ProcessingError(m) => ErrorView::ProcessingError(m@),
            AppError::ServiceUnavailable => ErrorView::ServiceUnavailable,
            AppError::RedisError(m) => ErrorView::RedisError(m@),
            AppError::SerializationError(m) => ErrorView::SerializationError(m@),
            AppError::ValidationError(m) => ErrorView::ValidationError(m@),
            AppError::NotFound => ErrorView::NotFound,
        }
    }
}

/// A check's outcome as the contracts speak of it.
pub open spec fn outcome(r: Result<(), AppError>) -> Result<(), ErrorView> {
    match r {
        Ok(()) => Ok(()),
        Err(e) => Err(e@),
    }
}

/// An `invalid_card` error naming the offending field.
pub open spec fn card_fault(message: Seq<char>, param: Seq<char>) -> ErrorView {
    ErrorView::InvalidCard { message, param: Some(param) }
}

/// An `invalid_request` error naming the offending field.
pub open spec fn request_fault(message: Seq<char>, param: Seq<char>) -> ErrorView {
    ErrorView::InvalidRequest { message, param: Some(param) }
}

pub fn invalid_card(message: &str, param: &str) -> (e: AppError)
    ensures
        e@ == card_fault(message@, param@),
{
    AppError::InvalidCard { message: String::from_str(message), param: Some(String::from_str(param)) }
}

pub fn invalid_request(message: &str, param: &str) -> (e: AppError)
    ensures
        e@ == request_fault(message@, param@),
{
    AppError::InvalidRequest {
        message: String::from_str(message),
        param: Some(String::from_str(param)),
    }
}

/// The JSON body of an error answer.
#[derive(Debug, Clone)]
pub struct ErrorResponse {
    pub error_type: String,
    pub code: String,
    pub message: String,
    pub param: Option<String>,
}

/// The HTTP status that an error is answered with.
pub open spec fn status_of(e: ErrorView) -> u16 {
    match e {
        ErrorView::InvalidRequest { .. } => 400,
        ErrorView::InvalidCard { .. } => 422,
        ErrorView::IdempotencyConflict => 409,
        ErrorView::RateLimitExceeded => 429,
        ErrorView::ProcessingError(_) => 500,
        ErrorView::ServiceUnavailable => 503,
        ErrorView::RedisError(_) => 500,
        ErrorView::SerializationError(_) => 500,
        ErrorView::ValidationError(_) => 400,
        ErrorView::NotFound => 404,
    }
}

/// The `type` field of an error answer.
pub open spec fn error_type_of(e: ErrorView) -> Seq<char> {
    match e {
        ErrorView::InvalidRequest { .. } => "invalid_request"@,
        ErrorView::InvalidCard { .. } => "invalid_request"@,
        ErrorView::IdempotencyConflict => "idempotency_conflict"@,
        ErrorView::RateLimitExceeded => "rate_limit_exceeded"@,
        ErrorView::ProcessingError(_) => "processing_error"@,
        ErrorView::ServiceUnavailable => "service_unavailable"@,
        ErrorView::RedisError(_) => "processing_error"@,
        ErrorView::SerializationError(_) => "processing_error"@,
        ErrorView::ValidationError(_) => "invalid_request"@,
        ErrorView::NotFound => "invalid_request"@,
    }
}

/// The `code` field of an error answer.
pub open spec fn code_of(e: ErrorView) -> Seq<char> {
    match e {
        ErrorView::InvalidRequest { .. } => "invalid_request"@,
        ErrorView::InvalidCard { .. } => "invalid_card"@,
        ErrorView::IdempotencyConflict => "idempotency_conflict"@,
        ErrorView::RateLimitExceeded => "rate_limit_exceeded"@,
        ErrorView::ProcessingError(_) => "processing_error"@,
        ErrorView::ServiceUnavailable => "service_unavailable"@,
        ErrorView::RedisError(_) => "processing_error"@,
        ErrorView::SerializationError(_) => "processing_error"@,
        ErrorView::ValidationError(_) => "invalid_request"@,
        ErrorView::NotFound => "not_found"@,
    }
}

/// The `message` field of an error answer.
pub open spec fn message_of(e: ErrorView) -> Seq<char> {
    match e {
        ErrorView::InvalidRequest { message, .. } => message,
        ErrorView::InvalidCard { message, .. } => message,
        ErrorView::IdempotencyConflict => "Same idempotency key with different parameters"@,
        ErrorView::RateLimitExceeded => "Too many requests"@,
        ErrorView::ProcessingError(m) => m,
        ErrorView::ServiceUnavailable => "Temporary outage"@,
        ErrorView::RedisError(m) => "Storage error: "@ + m,
        ErrorView::SerializationError(m) => "Serialization error: "@ + m,
        ErrorView::ValidationError(m) => m,
        ErrorView::NotFound => "Resource not found"@,
    }
}

/// The `param` field of an error answer: only request and card errors name a field.
pub open spec fn param_of(e: ErrorView) -> Option<Seq<char>> {
    match e {
        ErrorView::InvalidRequest { param, .. } => param,
        ErrorView::InvalidCard { param, .. } => param,
        _ => None,
    }
}

/// The one-line description of an error.
pub open spec fn display_of(e: ErrorView) -> Seq<char> {
    match e {
        ErrorView::InvalidRequest { message, .. } => "Invalid request: "@ + message,
        ErrorView::InvalidCard { message, .. } => "Invalid card: "@ + message,
        ErrorView::IdempotencyConflict => "Idempotency conflict"@,
        ErrorView::RateLimitExceeded => "Rate limit exceeded"@,
        ErrorView::ProcessingError(m) => "Processing error: "@ + m,
        ErrorView::ServiceUnavailable => "Service unavailable"@,
        ErrorView::RedisError(m) => "Redis error: "@ + m,
        ErrorView::SerializationError(m) => "Serialization error: "@ + m,
        ErrorView::ValidationError(m) => "Validation error: "@ + m,
        ErrorView::NotFound => "Not found"@,
    }
}

fn prefixed(prefix: &str, s: &String) -> (r: String)
    ensures
        r@ == prefix@ + s@,
{
    let mut r = String::from_str(prefix);
    push_str(&mut r, s.as_str());
    r
}

fn clone_opt(o: &Option<String>) -> (r: Option<String>)
    ensures
        opt_text(r) == opt_text(*o),
{
    match o {
        Some(s) => Some(s.clone()),
        None => None,
    }
}

impl AppError {
    /// The HTTP status code that this error is answered with.
    pub fn status_code(&self) -> (s: u16)
        ensures
            s == status_of(self@),
    {
        match self {
            AppError::InvalidRequest { .. } => 400,
            AppError::InvalidCard { .. } => 422,
            AppError::IdempotencyConflict => 409,
            AppError::RateLimitExceeded => 429,
            AppError::ProcessingError(_) => 500,
            AppError::ServiceUnavailable => 503,
            AppError::RedisError(_) => 500,
            AppError::SerializationError(_) => 500,
            AppError::ValidationError(_) => 400,
            AppError::NotFound => 404,
        }
    }

    /// The error answer: the HTTP status and the JSON body.
    pub fn error_response(&self) -> (r: (u16, ErrorResponse))
        ensures
            r.0 == status_of(self@),
            r.1.error_type@ == error_type_of(self@),
            r.1.code@ == code_of(self@),
            r.1.message@ == message_of(self@),
            opt_text(r.1.param) == param_of(self@),
    {
        let (status, error_type, code, message, param) = match self {
            AppError::InvalidRequest { message, param } => (
                400u16,
                "invalid_request",
                "invalid_request",
                message.clone(),
                clone_opt(param),
            ),
            AppError::InvalidCard { message, param } => (
                422u16,
                "invalid_request",
                "invalid_card",
                message.clone(),
                clone_opt(param),
            ),
            AppError::IdempotencyConflict => (
                409u16,
                "idempotency_conflict",
                "idempotency_conflict",
                String::from_str("Same idempotency key with different parameters"),
                None,
            ),
            AppError::RateLimitExceeded => (
                429u16,
                "rate_limit_exceeded",
                "rate_limit_exceeded",
                String::from_str("Too many requests"),
                None,
            ),
            AppError::ProcessingError(msg) => (
                500u16,
                "processing_error",
                "processing_error",
                msg.clone(),
                None,
            ),
            AppError::ServiceUnavailable => (
                503u16,
                "service_unavailable",
                "service_unavailable",
                String::from_str("Temporary outage"),
                None,
            ),
            AppError::RedisError(e) => (
                500u16,
                "processing_error",
                "processing_error",
                prefixed("Storage error: ", e),
                None,
            ),
            AppError::SerializationError(e) => (
                500u16,
                "processing_error",
                "processing_error",
                prefixed("Serialization error: ", e),
                None,
            ),
            AppError::ValidationError(msg) => (
                400u16,
                "invalid_request",
                "invalid_request",
                msg.clone(),
                None,
            ),
            AppError::NotFound => (
                404u16,
                "invalid_request",
                "not_found",
                String::from_str("Resource not found"),
                None,
            ),
        };
        (
            status,
            ErrorResponse {
                error_type: String::from_str(error_type),
                code: String::from_str(code),
                message,
                param,
            },
        )
    }

    /// The one-line description of this error.
    pub fn display_text(&self) -> (t: String)
        ensures
            t@ == display_of(self@),
    {
        match self {
            AppError::InvalidRequest { message, .. } => prefixed("Invalid request: ", message),
            AppError::InvalidCard { message, .. } => prefixed("Invalid card: ", message),
            AppError::IdempotencyConflict => String::from_str("Idempotency conflict"),
            AppError::RateLimitExceeded => String::from_str("Rate limit exceeded"),
            AppError::ProcessingError(m) => prefixed("Processing error: ", m),
            AppError::ServiceUnavailable => String::from_str("Service unavailable"),
            AppError::RedisError(m) => prefixed("Redis error: ", m),
            AppError::SerializationError(m) => prefixed("Serialization error: ", m),
            AppError::ValidationError(m) => prefixed("Validation error: ", m),
            AppError::NotFound => String::from_str("Not found"),
        }
    }
}

} // verus!
