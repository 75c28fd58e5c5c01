//! How an error is logged: the level follows its severity.

use vstd::prelude::*;

use crate::error::{display_text, severe, ServiceError};

verus! {

/// The level an error is logged at.
#[derive(Debug, Clone, Copy, PartialEq, Eq, Structural)]
pub enum LogLevel {
    Error,
    Warn,
}

/// A structured log event for an error that occurred during `context`.
#[derive(Debug)]
pub struct ErrorLogEvent {
    pub level: LogLevel,
    pub error: String,
    pub context: String,
}

/// The log event for `error`: severe errors are logged at error level, all
/// others as warnings, with the error's message and the context. The event
/// is only built here; the caller emits it.
#[must_use]
pub fn log_error(error: &ServiceError, context: &str) -> (r: ErrorLogEvent)
    ensures
        r.level == (if severe(*error) { LogLevel::Error } else { LogLevel::Warn }),
        r.error@ == display_text(*error),
        r.context@ == context@,
{
    let level = if error.is_severe() { LogLevel::Error } else { LogLevel::Warn };
    ErrorLogEvent { level, error: error.to_string(), context: context.to_owned() }
}

} // verus!
