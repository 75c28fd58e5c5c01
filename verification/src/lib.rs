//! Unified error handling for services, written in the railway-oriented style:
//! every fallible operation yields `Ok(value)` on the success track or a
//! [`ServiceError`] on the error track.
//!
//! - [`error`]: the error type, its constructors, classification and message;
//! - [`validation`]: collecting and grouping per-field validation messages;
//! - [`response`]: error codes, HTTP status and the JSON error body;
//! - [`graphql`]: GraphQL error codes and extensions;
//! - [`logging`]: the log event of an error;
//! - [`conversions`]: `From` conversions from other libraries' errors;
//! - [`laws`]: how the classifications of an error agree.

pub mod conversions;
pub mod error;
pub mod graphql;
pub mod laws;
pub mod logging;
pub mod response;
pub mod text;
pub mod validation;

pub use anyhow::Context;
pub use error::{ErrorSource, Result, ServiceError};
pub use logging::{log_error, ErrorLogEvent, LogLevel};
pub use response::ErrorResponse;
pub use validation::{
    validation_errors_from_fields, validation_from_fields, FieldValidator, ValidationErrorMap,
};
