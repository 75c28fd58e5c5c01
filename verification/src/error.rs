//! The service error type, its constructors, its classification and its
//! rendered message.

use vstd::prelude::*;
use vstd::string::to_string_from_display_ensures;

use crate::text::{decimal, push_decimal};
use crate::validation::{debug_groups, ValidationErrorMap};

verus! {

/// What caused an error.
#[derive(Debug)]
pub enum ErrorSource {
    /// An error from outside this type, kept as its rendered message.
    External(String),
    /// A service error that was wrapped with more context.
    Service(Box<ServiceError>),
}

/// The error type shared by services: errors flow on their own track,
/// separate from successful results.
#[derive(Debug)]
pub enum ServiceError {
    /// Database operation failed
    Database { message: String, source: Option<ErrorSource> },
    /// Resource not found
    NotFound { resource_type: String, identifier: String },
    /// Invalid input or validation error
    InvalidInput { message: String, field: Option<String> },
    /// Authentication required
    Unauthenticated(String),
    /// Permission denied
    PermissionDenied(String),
    /// Business logic constraint violated
    BusinessRule(String),
    /// External service error (e.g., payment gateway, email service)
    ExternalService { service: String, message: String, source: Option<ErrorSource> },
    /// Configuration error
    Configuration(String),
    /// Rate limit exceeded
    RateLimitExceeded(String),
    /// Conflict (e.g., duplicate resource)
    Conflict(String),
    /// Cache operation failed
    Cache { message: String, source: Option<ErrorSource> },
    /// Operation timeout
    Timeout { operation: String, timeout_ms: u64 },
    /// Resource exhausted (memory, disk, connections, etc.)
    ResourceExhausted { resource: String, message: String },
    /// Validation errors for multiple fields
    ValidationErrors(ValidationErrorMap),
    /// Internal server error (catch-all)
    Internal { message: String, source: Option<ErrorSource> },
}

/// The result type of fallible service operations.
pub type Result<T> = std::result::Result<T, ServiceError>;

/// The message an error renders to.
pub open spec fn display_text(e: ServiceError) -> Seq<char> {
    match e {
        ServiceError::Database { message, .. } => "Database error: "@ + message@,
        ServiceError::NotFound { resource_type, identifier } =>
            "Not found: "@ + resource_type@ + " with "@ + identifier@,
        ServiceError::InvalidInput { message, .. } => "Invalid input: "@ + message@,
        ServiceError::Unauthenticated(m) => "Authentication required: "@ + m@,
        ServiceError::PermissionDenied(m) => "Permission denied: "@ + m@,
        ServiceError::BusinessRule(m) => "Business rule violation: "@ + m@,
        ServiceError::ExternalService { service, message, .. } =>
            "External service error: "@ + service@ + " - "@ + message@,
        ServiceError::Configuration(m) => "Configuration error: "@ + m@,
        ServiceError::RateLimitExceeded(m) => "Rate limit exceeded: "@ + m@,
        ServiceError::Conflict(m) => "Conflict: "@ + m@,
        ServiceError::Cache { message, .. } => "Cache error: "@ + message@,
        ServiceError::Timeout { operation, timeout_ms } =>
            "Timeout: "@ + operation@ + " exceeded "@ + decimal(timeout_ms as nat) + "ms"@,
        ServiceError::ResourceExhausted { resource, message } =>
            "Resource exhausted: "@ + resource@ + " - "@ + message@,
        ServiceError::ValidationErrors(m) => "Validation failed: "@ + debug_groups(m@),
        ServiceError::Internal { message, .. } => "Internal error: "@ + message@,
    }
}

/// Errors worth retrying with backoff: transient failures of infrastructure.
pub open spec fn retryable(e: ServiceError) -> bool {
    ||| e is Database
    ||| e is ExternalService
    ||| e is Cache
    ||| e is Timeout
    ||| e is ResourceExhausted
    ||| e is RateLimitExceeded
    ||| e is Internal
}

/// Errors to log at error level: failures of the service itself.
pub open spec fn severe(e: ServiceError) -> bool {
    ||| e is Database
    ||| e is Internal
    ||| e is Configuration
    ||| e is ResourceExhausted
}

/// `s` is the text `value` renders to.
pub open spec fn renders<T: std::fmt::Display>(value: &T, s: String) -> bool {
    to_string_from_display_ensures::<T>(value, s)
}

/// `source` holds the rendered message of `value`.
pub open spec fn external_source<T: std::fmt::Display>(source: Option<ErrorSource>, value: &T) -> bool {
    source matches Some(ErrorSource::External(d)) && renders(value, d)
}

impl ServiceError {
    /// Create a database error with context
    pub fn database<E: std::fmt::Display>(message: &str, error: E) -> (r: Self)
        ensures
            r matches ServiceError::Database { message: m, source: s }
                && m@ == message@ && external_source(s, &error),
    {
        ServiceError::Database { message: message.to_owned(), source: Some(ErrorSource::External(error.to_string())) }
    }

    /// Create a database error without source
    pub fn database_msg(message: &str) -> (r: Self)
        ensures
            r matches ServiceError::Database { message: m, source: None } && m@ == message@,
    {
        ServiceError::Database { message: message.to_owned(), source: None }
    }

    /// Create a not found error
    pub fn not_found<D: std::fmt::Display>(resource_type: &str, id: D) -> (r: Self)
        ensures
            r matches ServiceError::NotFound { resource_type: t, identifier: i }
                && t@ == resource_type@ && renders(&id, i),
    {
        ServiceError::NotFound { resource_type: resource_type.to_owned(), identifier: id.to_string() }
    }

    /// Create an invalid input error
    pub fn invalid_input(message: &str) -> (r: Self)
        ensures
            r matches ServiceError::InvalidInput { message: m, field: None } && m@ == message@,
    {
        ServiceError::InvalidInput { message: message.to_owned(), field: None }
    }

    /// Create an invalid input error with field name
    pub fn invalid_field(field: &str, message: &str) -> (r: Self)
        ensures
            r matches ServiceError::InvalidInput { message: m, field: Some(f) }
                && m@ == message@ && f@ == field@,
    {
        ServiceError::InvalidInput { message: message.to_owned(), field: Some(field.to_owned()) }
    }

    /// Create an external service error
    pub fn external_service<E: std::fmt::Display>(service: &str, message: &str, error: E) -> (r: Self)
        ensures
            r matches ServiceError::ExternalService { service: sv, message: m, source: s }
                && sv@ == service@ && m@ == message@ && external_source(s, &error),
    {
        ServiceError::ExternalService {
            service: service.to_owned(),
            message: message.to_owned(),
            source: Some(ErrorSource::External(error.to_string())),
        }
    }

    /// Create an internal error with context
    pub fn internal<E: std::fmt::Display>(message: &str, error: E) -> (r: Self)
        ensures
            r matches ServiceError::Internal { message: m, source: s }
                && m@ == message@ && external_source(s, &error),
    {
        ServiceError::Internal { message: message.to_owned(), source: Some(ErrorSource::External(error.to_string())) }
    }

    /// Create an internal error without source
    pub fn internal_msg(message: &str) -> (r: Self)
        ensures
            r matches ServiceError::Internal { message: m, source: None } && m@ == message@,
    {
        ServiceError::Internal { message: message.to_owned(), source: None }
    }

    /// Create a cache error with context
    pub fn cache<E: std::fmt::Display>(message: &str, error: E) -> (r: Self)
        ensures
            r matches ServiceError::Cache { message: m, source: s }
                && m@ == message@ && external_source(s, &error),
    {
        ServiceError::Cache { message: message.to_owned(), source: Some(ErrorSource::External(error.to_string())) }
    }

    /// Create a cache error without source
    pub fn cache_msg(message: &str) -> (r: Self)
        ensures
            r matches ServiceError::Cache { message: m, source: None } && m@ == message@,
    {
        ServiceError::Cache { message: message.to_owned(), source: None }
    }

    /// Create a timeout error
    pub fn timeout(operation: &str, timeout_ms: u64) -> (r: Self)
        ensures
            r matches ServiceError::Timeout { operation: o, timeout_ms: t }
                && o@ == operation@ && t == timeout_ms,
    {
        ServiceError::Timeout { operation: operation.to_owned(), timeout_ms }
    }

    /// Create a resource exhausted error
    pub fn resource_exhausted(resource: &str, message: &str) -> (r: Self)
        ensures
            r matches ServiceError::ResourceExhausted { resource: res, message: m }
                && res@ == resource@ && m@ == message@,
    {
        ServiceError::ResourceExhausted { resource: resource.to_owned(), message: message.to_owned() }
    }

    /// Check if error is retryable (for exponential backoff)
    pub fn is_retryable(&self) -> (r: bool)
        ensures
            r == retryable(*self),
    {
        match self {
            ServiceError::Database { .. }
            | ServiceError::ExternalService { .. }
            | ServiceError::Cache { .. }
            | ServiceError::Timeout { .. }
            | ServiceError::ResourceExhausted { .. }
            | ServiceError::RateLimitExceeded(_)
            | ServiceError::Internal { .. } => true,
            _ => false,
        }
    }

    /// Check if error should be logged at error level
    pub fn is_severe(&self) -> (r: bool)
        ensures
            r == severe(*self),
    {
        match self {
            ServiceError::Database { .. }
            | ServiceError::Internal { .. }
            | ServiceError::Configuration(_)
            | ServiceError::ResourceExhausted { .. } => true,
            _ => false,
        }
    }

    /// The message this error renders to, as its `Display` text would read.
    pub fn to_string(&self) -> (r: String)
        ensures
            r@ == display_text(*self),
    {
        let mut out = String::new();
        match self {
            ServiceError::Database { message, .. } => {
                out.append("Database error: ");
                out.append(message.as_str());
            },
            ServiceError::NotFound { resource_type, identifier } => {
                out.append("Not found: ");
                out.append(resource_type.as_str());
                out.append(" with ");
                out.append(identifier.as_str());
            },
            ServiceError::InvalidInput { message, .. } => {
                out.append("Invalid input: ");
                out.append(message.as_str());
            },
            ServiceError::Unauthenticated(m) => {
                out.append("Authentication required: ");
                out.append(m.as_str());
            },
            ServiceError::PermissionDenied(m) => {
                out.append("Permission denied: ");
                out.append(m.as_str());
            },
            ServiceError::BusinessRule(m) => {
                out.append("Business rule violation: ");
                out.append(m.as_str());
            },
            ServiceError::ExternalService { service, message, .. } => {
                out.append("External service error: ");
                out.append(service.as_str());
                out.append(" - ");
                out.append(message.as_str());
            },
            ServiceError::Configuration(m) => {
                out.append("Configuration error: ");
                out.append(m.as_str());
            },
            ServiceError::RateLimitExceeded(m) => {
                out.append("Rate limit exceeded: ");
                out.append(m.as_str());
            },
            ServiceError::Conflict(m) => {
                out.append("Conflict: ");
                out.append(m.as_str());
            },
            ServiceError::Cache { message, .. } => {
                out.append("Cache error: ");
                out.append(message.as_str());
            },
            ServiceError::Timeout { operation, timeout_ms } => {
                out.append("Timeout: ");
                out.append(operation.as_str());
                out.append(" exceeded ");
                push_decimal(&mut out, *timeout_ms);
                out.append("ms");
            },
            ServiceError::ResourceExhausted { resource, message } => {
                out.append("Resource exhausted: ");
                out.append(resource.as_str());
                out.append(" - ");
                out.append(message.as_str());
            },
            ServiceError::ValidationErrors(m) => {
                out.append("Validation failed: ");
                m.push_debug(&mut out);
            },
            ServiceError::Internal { message, .. } => {
                out.append("Internal error: ");
                out.append(message.as_str());
            },
        }
        out
    }

    /// Add context to an error (for chaining): the result is an internal
    /// error whose message is `message`, `": "` and this error's message, and
    /// whose source is this error.
    pub fn context(self, message: &str) -> (r: Self)
        ensures
            r matches ServiceError::Internal { message: m, source: Some(ErrorSource::Service(inner)) }
                && m@ == message@ + ": "@ + display_text(self) && *inner == self,
            retryable(r) && severe(r),
    {
        let mut text = message.to_owned();
        text.append(": ");
        let rendered = self.to_string();
        text.append(rendered.as_str());
        ServiceError::Internal { message: text, source: Some(ErrorSource::Service(Box::new(self))) }
    }
}

} // verus!
