//! What clients see of an error: machine-readable codes, the HTTP status and
//! the JSON error body.

use vstd::prelude::*;

use crate::error::{display_text, ServiceError};

verus! {

/// A JSON value (`serde_json::Value`), carried as extra details of a response.
#[verifier::external_type_specification]
#[verifier::external_body]
pub struct ExJsonValue(serde_json::Value);

/// The code a JSON error body carries for an error.
pub open spec fn response_code(e: ServiceError) -> Seq<char> {
    match e {
        ServiceError::Database { .. } => "DATABASE_ERROR"@,
        ServiceError::NotFound { .. } => "NOT_FOUND"@,
        ServiceError::InvalidInput { .. } => "INVALID_INPUT"@,
        ServiceError::ValidationErrors(_) => "VALIDATION_ERRORS"@,
        ServiceError::Unauthenticated(_) => "UNAUTHENTICATED"@,
        ServiceError::PermissionDenied(_) => "PERMISSION_DENIED"@,
        ServiceError::BusinessRule(_) => "BUSINESS_RULE_VIOLATION"@,
        ServiceError::ExternalService { .. } => "EXTERNAL_SERVICE_ERROR"@,
        ServiceError::Configuration(_) => "CONFIGURATION_ERROR"@,
        ServiceError::RateLimitExceeded(_) => "RATE_LIMIT_EXCEEDED"@,
        ServiceError::Conflict(_) => "CONFLICT"@,
        ServiceError::Cache { .. } => "CACHE_ERROR"@,
        ServiceError::Timeout { .. } => "TIMEOUT"@,
        ServiceError::ResourceExhausted { .. } => "RESOURCE_EXHAUSTED"@,
        ServiceError::Internal { .. } => "INTERNAL_ERROR"@,
    }
}

/// The HTTP status an error is answered with.
pub open spec fn http_status(e: ServiceError) -> u16 {
    match e {
        ServiceError::NotFound { .. } => 404,
        ServiceError::InvalidInput { .. } => 400,
        ServiceError::ValidationErrors(_) => 400,
        ServiceError::Unauthenticated(_) => 401,
        ServiceError::PermissionDenied(_) => 403,
        ServiceError::BusinessRule(_) => 422,
        ServiceError::RateLimitExceeded(_) => 429,
        ServiceError::Conflict(_) => 409,
        ServiceError::Timeout { .. } => 504,
        ServiceError::ResourceExhausted { .. } => 503,
        ServiceError::Database { .. } => 500,
        ServiceError::Cache { .. } => 500,
        ServiceError::ExternalService { .. } => 500,
        ServiceError::Configuration(_) => 500,
        ServiceError::Internal { .. } => 500,
    }
}

/// The field an error names, for invalid input that names one.
pub open spec fn error_field(e: ServiceError) -> Option<Seq<char>> {
    match e {
        ServiceError::InvalidInput { field: Some(f), .. } => Some(f@),
        _ => None,
    }
}

impl ServiceError {
    /// The machine-readable code of the JSON error body.
    pub fn error_code(&self) -> (r: &'static str)
        ensures
            r@ == response_code(*self),
    {
        match self {
            ServiceError::Database { .. } => "DATABASE_ERROR",
            ServiceError::NotFound { .. } => "NOT_FOUND",
            ServiceError::InvalidInput { .. } => "INVALID_INPUT",
            ServiceError::ValidationErrors(_) => "VALIDATION_ERRORS",
            ServiceError::Unauthenticated(_) => "UNAUTHENTICATED",
            ServiceError::PermissionDenied(_) => "PERMISSION_DENIED",
            ServiceError::BusinessRule(_) => "BUSINESS_RULE_VIOLATION",
            ServiceError::ExternalService { .. } => "EXTERNAL_SERVICE_ERROR",
            ServiceError::Configuration(_) => "CONFIGURATION_ERROR",
            ServiceError::RateLimitExceeded(_) => "RATE_LIMIT_EXCEEDED",
            ServiceError::Conflict(_) => "CONFLICT",
            ServiceError::Cache { .. } => "CACHE_ERROR",
            ServiceError::Timeout { .. } => "TIMEOUT",
            ServiceError::ResourceExhausted { .. } => "RESOURCE_EXHAUSTED",
            ServiceError::Internal { .. } => "INTERNAL_ERROR",
        }
    }

    /// The HTTP status code an error is answered with.
    pub fn status_code(&self) -> (r: u16)
        ensures
            r == http_status(*self),
    {
        match self {
            ServiceError::NotFound { .. } => 404,
            ServiceError::InvalidInput { .. } => 400,
            ServiceError::ValidationErrors(_) => 400,
            ServiceError::Unauthenticated(_) => 401,
            ServiceError::PermissionDenied(_) => 403,
            ServiceError::BusinessRule(_) => 422,
            ServiceError::RateLimitExceeded(_) => 429,
            ServiceError::Conflict(_) => 409,
            ServiceError::Timeout { .. } => 504,
            ServiceError::ResourceExhausted { .. } => 503,
            ServiceError::Database { .. }
            | ServiceError::Cache { .. }
            | ServiceError::ExternalService { .. }
            | ServiceError::Configuration(_)
            | ServiceError::Internal { .. } => 500,
        }
    }

    /// The field named by an invalid-input error, if any.
    pub fn field(&self) -> (r: Option<String>)
        ensures
            match r {
                Some(f) => error_field(*self) == Some(f@),
                None => error_field(*self) is None,
            },
    {
        match self {
            ServiceError::InvalidInput { field: Some(f), .. } => Some(f.clone()),
            _ => None,
        }
    }
}

/// The JSON body of an error response.
#[derive(Debug)]
pub struct ErrorResponse {
    pub error: String,
    pub message: String,
    pub field: Option<String>,
    pub details: Option<serde_json::Value>,
}

impl From<ServiceError> for ErrorResponse {
    fn from(error: ServiceError) -> (r: Self)
        ensures
            r.error@ == response_code(error),
            r.message@ == display_text(error),
            r.field matches Some(f) ==> error_field(error) == Some(f@),
            r.field is None ==> error_field(error) is None,
            r.details is None,
    {
        let error_type = error.error_code();
        let field = error.field();
        ErrorResponse {
            error: error_type.to_owned(),
            message: error.to_string(),
            field,
            details: None,
        }
    }
}

/// No spec function gives the body, whose strings only have views here;
/// `from` states each of its fields instead.
impl vstd::std_specs::convert::FromSpecImpl<ServiceError> for ErrorResponse {
    open spec fn obeys_from_spec() -> bool {
        false
    }

    open spec fn from_spec(v: ServiceError) -> Self {
        vstd::pervasive::arbitrary()
    }
}


/// `http::StatusCode`, carried opaquely.
#[verifier::external_type_specification]
#[verifier::external_body]
pub struct ExStatusCode(http::StatusCode);

/// `http::status::InvalidStatusCode`, carried opaquely.
#[verifier::external_type_specification]
#[verifier::external_body]
pub struct ExInvalidStatusCode(http::status::InvalidStatusCode);

/// The HTTP status whose code is `code` (what `StatusCode::from_u16` gives
/// for a code it accepts); it depends on the code alone.
pub uninterp spec fn status_with_code(code: u16) -> http::StatusCode;

/// `StatusCode::from_u16` accepts exactly the codes from 100 to 999, and
/// then gives the status with that code.
pub assume_specification[ http::StatusCode::from_u16 ](src: u16) -> (r: std::result::Result<
    http::StatusCode,
    http::status::InvalidStatusCode,
>)
    ensures
        r is Ok <==> 100 <= src <= 999,
        r matches Ok(s) ==> s == status_with_code(src),
;

impl From<ServiceError> for http::StatusCode {
    /// The HTTP status for an error: the status whose code is
    /// [`ServiceError::status_code`].
    fn from(error: ServiceError) -> (r: http::StatusCode)
        ensures
            r == status_with_code(http_status(error)),
    {
        let code = error.status_code();
        http::StatusCode::from_u16(code).unwrap()
    }
}

/// An error converts to the status whose code is its HTTP status.
impl vstd::std_specs::convert::FromSpecImpl<ServiceError> for http::StatusCode {
    open spec fn obeys_from_spec() -> bool {
        true
    }

    open spec fn from_spec(v: ServiceError) -> Self {
        status_with_code(http_status(v))
    }
}

} // verus!
