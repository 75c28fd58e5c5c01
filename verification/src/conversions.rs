//! Conversions from the errors of libraries and of std into service errors,
//! so that `?` moves them onto the error track.

use vstd::prelude::*;
use vstd::string::to_string_from_display_ensures;

use crate::error::{ErrorSource, ServiceError};

verus! {

/// `serde_json::Error`, carried opaquely.
#[verifier::external_type_specification]
#[verifier::external_body]
pub struct ExJsonError(serde_json::Error);

/// `url::ParseError`, carried opaquely.
#[verifier::external_type_specification]
#[verifier::external_body]
pub struct ExUrlParseError(url::ParseError);

/// `anyhow::Error`, carried opaquely.
#[verifier::external_type_specification]
#[verifier::external_body]
pub struct ExAnyhowError(anyhow::Error);

/// `std::io::Error`, carried opaquely.
#[verifier::external_type_specification]
#[verifier::external_body]
pub struct ExIoError(std::io::Error);

/// `sqlx::Error`, carried opaquely.
#[verifier::external_type_specification]
#[verifier::external_body]
pub struct ExSqlxError(sqlx::Error);

/// `redis::RedisError`, carried opaquely.
#[verifier::external_type_specification]
#[verifier::external_body]
pub struct ExRedisError(redis::RedisError);

/// The kinds of I/O failure that convert to distinct service errors.
#[derive(Debug, Clone, Copy, PartialEq, Eq, Structural)]
pub enum IoFailureKind {
    NotFound,
    PermissionDenied,
    TimedOut,
    Other,
}

/// What a database failure reported, as far as its conversion depends on it.
#[derive(Debug)]
pub enum DatabaseFailure {
    /// A query that expected a row returned none.
    RowNotFound,
    /// The database rejected the statement with `message`, naming the violated
    /// `constraint` when the driver reports one.
    Rejected { message: String, constraint: Option<String> },
    /// Any other failure.
    Other,
}

/// `r` is what an I/O failure of kind `kind` with message `d` converts to.
pub open spec fn io_conversion(r: ServiceError, kind: IoFailureKind, d: Seq<char>) -> bool {
    match kind {
        IoFailureKind::NotFound => r matches ServiceError::NotFound { resource_type: t, identifier: i }
            && t@ == "file"@ && i@ == d,
        IoFailureKind::PermissionDenied => r matches ServiceError::PermissionDenied(m)
            && m@ == "I/O permission denied: "@ + d,
        IoFailureKind::TimedOut => r matches ServiceError::Timeout { operation: o, timeout_ms: t }
            && o@ == "I/O operation"@ && t == 0,
        IoFailureKind::Other => r matches ServiceError::Internal { message: m, source: Some(ErrorSource::External(e)) }
            && m@ == "I/O error"@ && e@ == d,
    }
}

/// `r` is what the database failure `failure` with message `d` converts to.
pub open spec fn database_conversion(r: ServiceError, failure: DatabaseFailure, d: Seq<char>) -> bool {
    match failure {
        DatabaseFailure::RowNotFound => r matches ServiceError::NotFound { resource_type: t, identifier: i }
            && t@ == "record"@ && i@ == "unknown"@,
        DatabaseFailure::Rejected { constraint: Some(c), .. } => r matches ServiceError::Conflict(m)
            && m@ == "Constraint violation: "@ + c@,
        DatabaseFailure::Rejected { message, constraint: None } => r matches ServiceError::Database { message: m, source: None }
            && m@ == message@,
        DatabaseFailure::Other => r matches ServiceError::Database { message: m, source: Some(ErrorSource::External(e)) }
            && m@ == "Database operation failed"@ && e@ == d,
    }
}

/// The OS error code an I/O error carries (`std::io::Error::raw_os_error`):
/// `Some` exactly for errors made from an operating-system code. It is
/// stored in the error.
pub uninterp spec fn io_os_code_of(error: std::io::Error) -> Option<i32>;

/// The kind an I/O error was made with (`std::io::Error::kind`), told apart
/// into the kinds that convert differently. For an error without an OS code
/// the kind is stored in the error; for one with an OS code it is decoded by
/// the platform, so this name is claimed only for errors without one.
pub uninterp spec fn io_failure_kind_of(error: std::io::Error) -> IoFailureKind;

/// The kind of an I/O error (`std::io::Error::kind`), told apart into the
/// kinds that convert differently, and its OS error code
/// (`std::io::Error::raw_os_error`). The code is the one
/// [`io_os_code_of`] names; when there is none the kind is the one
/// [`io_failure_kind_of`] names. The kind of an error with an OS code is
/// left unsaid: the platform decodes it.
#[verifier::external_body]
fn io_failure_kind(error: &std::io::Error) -> (r: (IoFailureKind, Option<i32>))
    ensures
        r.1 == io_os_code_of(*error),
        r.1 is None ==> r.0 == io_failure_kind_of(*error),
{
    let kind = match error.kind() {
        std::io::ErrorKind::NotFound => IoFailureKind::NotFound,
        std::io::ErrorKind::PermissionDenied => IoFailureKind::PermissionDenied,
        std::io::ErrorKind::TimedOut => IoFailureKind::TimedOut,
        _ => IoFailureKind::Other,
    };
    (kind, error.raw_os_error())
}

/// What a `sqlx::Error` reports, as far as its conversion depends on it:
/// whether it is `RowNotFound`, or a database error with its `message()` and
/// `constraint()`, or neither. It depends on the error alone.
pub uninterp spec fn sqlx_failure_of(error: sqlx::Error) -> DatabaseFailure;

/// What a `sqlx::Error` reports (its variant, and for a database error the
/// driver's `message()` and `constraint()`): the failure
/// [`sqlx_failure_of`] names for the error.
#[verifier::external_body]
fn sqlx_failure(error: &sqlx::Error) -> (r: DatabaseFailure)
    ensures
        r == sqlx_failure_of(*error),
{
    match error {
        sqlx::Error::RowNotFound => DatabaseFailure::RowNotFound,
        sqlx::Error::Database(db) => DatabaseFailure::Rejected {
            message: db.message().to_string(),
            constraint: db.constraint().map(|c| c.to_string()),
        },
        _ => DatabaseFailure::Other,
    }
}

/// `prefix` followed by `text`.
fn prefixed(prefix: &str, text: &str) -> (r: String)
    ensures
        r@ == prefix@ + text@,
{
    let mut out = prefix.to_owned();
    out.append(text);
    out
}

impl ServiceError {
    /// The service error for an I/O failure of kind `kind` whose message is
    /// `description`: a missing file, a refused permission, a timeout, or an
    /// internal error with the failure as source.
    pub fn from_io_failure(kind: IoFailureKind, description: String) -> (r: Self)
        ensures
            io_conversion(r, kind, description@),
    {
        match kind {
            IoFailureKind::NotFound => ServiceError::NotFound {
                resource_type: "file".to_owned(),
                identifier: description,
            },
            IoFailureKind::PermissionDenied => ServiceError::PermissionDenied(
                prefixed("I/O permission denied: ", description.as_str()),
            ),
            IoFailureKind::TimedOut => ServiceError::timeout("I/O operation", 0),
            IoFailureKind::Other => ServiceError::Internal {
                message: "I/O error".to_owned(),
                source: Some(ErrorSource::External(description)),
            },
        }
    }

    /// The service error for a database failure; `description` is the
    /// failure's own message, kept as source when nothing more specific
    /// applies.
    pub fn from_database_failure(failure: DatabaseFailure, description: String) -> (r: Self)
        ensures
            database_conversion(r, failure, description@),
    {
        match failure {
            DatabaseFailure::RowNotFound => ServiceError::not_found_of("record", "unknown"),
            DatabaseFailure::Rejected { constraint: Some(c), .. } => ServiceError::Conflict(
                prefixed("Constraint violation: ", c.as_str()),
            ),
            DatabaseFailure::Rejected { message, constraint: None } => ServiceError::Database {
                message,
                source: None,
            },
            DatabaseFailure::Other => ServiceError::Database {
                message: "Database operation failed".to_owned(),
                source: Some(ErrorSource::External(description)),
            },
        }
    }

    fn not_found_of(resource_type: &str, identifier: &str) -> (r: Self)
        ensures
            r matches ServiceError::NotFound { resource_type: t, identifier: i }
                && t@ == resource_type@ && i@ == identifier@,
    {
        ServiceError::NotFound { resource_type: resource_type.to_owned(), identifier: identifier.to_owned() }
    }
}

impl From<serde_json::Error> for ServiceError {
    /// A JSON error is invalid input, with the parser's message.
    fn from(error: serde_json::Error) -> (r: Self)
        ensures
            exists|d: String| #[trigger] to_string_from_display_ensures::<serde_json::Error>(&error, d)
                && (r matches ServiceError::InvalidInput { message: m, field: None }
                && m@ == "JSON parsing failed: "@ + d@),
    {
        let d = error.to_string();
        ServiceError::InvalidInput { message: prefixed("JSON parsing failed: ", d.as_str()), field: None }
    }
}

/// No spec function gives this conversion's result, which renders an opaque
/// error; `from` states what holds of it instead.
impl vstd::std_specs::convert::FromSpecImpl<serde_json::Error> for ServiceError {
    open spec fn obeys_from_spec() -> bool {
        false
    }

    open spec fn from_spec(v: serde_json::Error) -> Self {
        vstd::pervasive::arbitrary()
    }
}

impl From<url::ParseError> for ServiceError {
    /// A URL parse error is invalid input, with the parser's message.
    fn from(error: url::ParseError) -> (r: Self)
        ensures
            exists|d: String| #[trigger] to_string_from_display_ensures::<url::ParseError>(&error, d)
                && (r matches ServiceError::InvalidInput { message: m, field: None }
                && m@ == "URL parsing failed: "@ + d@),
    {
        let d = error.to_string();
        ServiceError::InvalidInput { message: prefixed("URL parsing failed: ", d.as_str()), field: None }
    }
}

/// No spec function gives this conversion's result, which renders an opaque
/// error; `from` states what holds of it instead.
impl vstd::std_specs::convert::FromSpecImpl<url::ParseError> for ServiceError {
    open spec fn obeys_from_spec() -> bool {
        false
    }

    open spec fn from_spec(v: url::ParseError) -> Self {
        vstd::pervasive::arbitrary()
    }
}

impl From<anyhow::Error> for ServiceError {
    /// An `anyhow` error is an internal error with the error's message.
    fn from(error: anyhow::Error) -> (r: Self)
        ensures
            exists|d: String| #[trigger] to_string_from_display_ensures::<anyhow::Error>(&error, d)
                && (r matches ServiceError::Internal { message: m, source: None } && m@ == d@),
    {
        let d = error.to_string();
        ServiceError::internal_msg(d.as_str())
    }
}

/// No spec function gives this conversion's result, which renders an opaque
/// error; `from` states what holds of it instead.
impl vstd::std_specs::convert::FromSpecImpl<anyhow::Error> for ServiceError {
    open spec fn obeys_from_spec() -> bool {
        false
    }

    open spec fn from_spec(v: anyhow::Error) -> Self {
        vstd::pervasive::arbitrary()
    }
}

impl From<std::io::Error> for ServiceError {
    /// An I/O error converts by its kind, see [`ServiceError::from_io_failure`]:
    /// for an error without an OS code, the kind it was made with.
    fn from(error: std::io::Error) -> (r: Self)
        ensures
            exists|kind: IoFailureKind, d: String|
                #[trigger] to_string_from_display_ensures::<std::io::Error>(&error, d)
                && #[trigger] io_conversion(r, kind, d@)
                && (io_os_code_of(error) is None ==> kind == io_failure_kind_of(error)),
    {
        let (kind, _os_code) = io_failure_kind(&error);
        let d = error.to_string();
        ServiceError::from_io_failure(kind, d)
    }
}

/// No spec function gives this conversion's result, which renders an opaque
/// error; `from` states what holds of it instead.
impl vstd::std_specs::convert::FromSpecImpl<std::io::Error> for ServiceError {
    open spec fn obeys_from_spec() -> bool {
        false
    }

    open spec fn from_spec(v: std::io::Error) -> Self {
        vstd::pervasive::arbitrary()
    }
}

impl From<sqlx::Error> for ServiceError {
    /// A database error converts by what it reports, see
    /// [`ServiceError::from_database_failure`].
    fn from(error: sqlx::Error) -> (r: Self)
        ensures
            exists|d: String|
                #[trigger] to_string_from_display_ensures::<sqlx::Error>(&error, d)
                && database_conversion(r, sqlx_failure_of(error), d@),
    {
        let failure = sqlx_failure(&error);
        let d = error.to_string();
        ServiceError::from_database_failure(failure, d)
    }
}

/// No spec function gives this conversion's result, which renders an opaque
/// error; `from` states what holds of it instead.
impl vstd::std_specs::convert::FromSpecImpl<sqlx::Error> for ServiceError {
    open spec fn obeys_from_spec() -> bool {
        false
    }

    open spec fn from_spec(v: sqlx::Error) -> Self {
        vstd::pervasive::arbitrary()
    }
}

impl From<redis::RedisError> for ServiceError {
    /// A Redis error is a database error with the Redis error as source.
    fn from(error: redis::RedisError) -> (r: Self)
        ensures
            r matches ServiceError::Database { message: m, source: Some(ErrorSource::External(d)) }
                && m@ == "Redis operation failed"@
                && to_string_from_display_ensures::<redis::RedisError>(&error, d),
    {
        ServiceError::database("Redis operation failed", error)
    }
}

/// No spec function gives this conversion's result, which renders an opaque
/// error; `from` states what holds of it instead.
impl vstd::std_specs::convert::FromSpecImpl<redis::RedisError> for ServiceError {
    open spec fn obeys_from_spec() -> bool {
        false
    }

    open spec fn from_spec(v: redis::RedisError) -> Self {
        vstd::pervasive::arbitrary()
    }
}

} // verus!
