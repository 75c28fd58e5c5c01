//! GraphQL errors: the code, the flags and the details a client receives as
//! error extensions.

use vstd::prelude::*;

use crate::error::{display_text, retryable, severe, ServiceError};
use crate::response::error_field;

verus! {

/// `async_graphql::Error`, carried opaquely.
#[verifier::external_type_specification]
#[verifier::external_body]
pub struct ExGraphqlError(async_graphql::Error);

/// A value of a GraphQL error extension.
#[derive(Debug, Clone, PartialEq, Eq)]
pub enum ExtensionValue {
    Text(String),
    Flag(bool),
    Number(u64),
}

/// The view of an extension value.
pub enum ExtensionView {
    Text(Seq<char>),
    Flag(bool),
    Number(u64),
}

impl View for ExtensionValue {
    type V = ExtensionView;

    open spec fn view(&self) -> ExtensionView {
        match self {
            ExtensionValue::Text(t) => ExtensionView::Text(t@),
            ExtensionValue::Flag(b) => ExtensionView::Flag(*b),
            ExtensionValue::Number(n) => ExtensionView::Number(*n),
        }
    }
}

/// The error code a GraphQL client receives; the failures of the service
/// itself that have no code of their own are all `INTERNAL_ERROR`.
pub open spec fn graphql_code(e: ServiceError) -> Seq<char> {
    match e {
        ServiceError::NotFound { .. } => "NOT_FOUND"@,
        ServiceError::InvalidInput { .. } => "INVALID_INPUT"@,
        ServiceError::ValidationErrors(_) => "VALIDATION_ERRORS"@,
        ServiceError::Unauthenticated(_) => "UNAUTHENTICATED"@,
        ServiceError::PermissionDenied(_) => "PERMISSION_DENIED"@,
        ServiceError::BusinessRule(_) => "BUSINESS_RULE_VIOLATION"@,
        ServiceError::RateLimitExceeded(_) => "RATE_LIMIT_EXCEEDED"@,
        ServiceError::Conflict(_) => "CONFLICT"@,
        ServiceError::Cache { .. } => "CACHE_ERROR"@,
        ServiceError::Timeout { .. } => "TIMEOUT"@,
        ServiceError::ResourceExhausted { .. } => "RESOURCE_EXHAUSTED"@,
        _ => "INTERNAL_ERROR"@,
    }
}

/// The extensions of a GraphQL error, by name: `code`, `retryable` and
/// `severe` always; `field` for invalid input naming a field; `operation` and
/// `timeout_ms` for a timeout; `resource` for an exhausted resource.
pub open spec fn graphql_extensions(e: ServiceError) -> Seq<(Seq<char>, ExtensionView)> {
    let base = seq![
        ("code"@, ExtensionView::Text(graphql_code(e))),
        ("retryable"@, ExtensionView::Flag(retryable(e))),
        ("severe"@, ExtensionView::Flag(severe(e))),
    ];
    let with_field = match error_field(e) {
        Some(f) => base.push(("field"@, ExtensionView::Text(f))),
        None => base,
    };
    match e {
        ServiceError::Timeout { operation, timeout_ms } => with_field.push(
            ("operation"@, ExtensionView::Text(operation@)),
        ).push(("timeout_ms"@, ExtensionView::Number(timeout_ms))),
        ServiceError::ResourceExhausted { resource, .. } => with_field.push(
            ("resource"@, ExtensionView::Text(resource@)),
        ),
        _ => with_field,
    }
}

/// The views of named extension values.
pub open spec fn extensions_view(v: Seq<(String, ExtensionValue)>) -> Seq<(Seq<char>, ExtensionView)> {
    v.map_values(|p: (String, ExtensionValue)| (p.0@, p.1@))
}

/// The GraphQL error with message `message` and the named `extensions`:
/// what `async_graphql::Error::new` gives once its extensions are set. It
/// depends on the message and the extensions alone.
pub uninterp spec fn graphql_error_with(
    message: Seq<char>,
    extensions: Seq<(Seq<char>, ExtensionView)>,
) -> async_graphql::Error;

/// A GraphQL error with `message` and the named `extensions`
/// (`async_graphql::Error::new`, then `ErrorExtensionValues::set` for each
/// extension). The result is the one [`graphql_error_with`] names for the
/// views of the arguments; nothing more is stated of it, the GraphQL error
/// being opaque here.
#[verifier::external_body]
fn new_graphql_error(message: String, extensions: Vec<(String, ExtensionValue)>) -> (r: async_graphql::Error)
    ensures
        r == graphql_error_with(message@, extensions_view(extensions@)),
{
    let mut values = async_graphql::ErrorExtensionValues::default();
    for (name, value) in extensions {
        match value {
            ExtensionValue::Text(t) => values.set(name, t),
            ExtensionValue::Flag(b) => values.set(name, b),
            ExtensionValue::Number(n) => values.set(name, n),
        }
    }
    let mut error = async_graphql::Error::new(message);
    error.extensions = Some(values);
    error
}

fn push_extension(v: &mut Vec<(String, ExtensionValue)>, name: &str, value: ExtensionValue)
    ensures
        extensions_view(final(v)@) == extensions_view(old(v)@).push((name@, value@)),
{
    let ghost before = v@;
    v.push((name.to_owned(), value));
    assert(extensions_view(v@) =~= extensions_view(before).push((name@, value@)));
}

impl ServiceError {
    /// The code of this error for GraphQL clients.
    pub fn graphql_code(&self) -> (r: &'static str)
        ensures
            r@ == graphql_code(*self),
    {
        match self {
            ServiceError::NotFound { .. } => "NOT_FOUND",
            ServiceError::InvalidInput { .. } => "INVALID_INPUT",
            ServiceError::ValidationErrors(_) => "VALIDATION_ERRORS",
            ServiceError::Unauthenticated(_) => "UNAUTHENTICATED",
            ServiceError::PermissionDenied(_) => "PERMISSION_DENIED",
            ServiceError::BusinessRule(_) => "BUSINESS_RULE_VIOLATION",
            ServiceError::RateLimitExceeded(_) => "RATE_LIMIT_EXCEEDED",
            ServiceError::Conflict(_) => "CONFLICT",
            ServiceError::Cache { .. } => "CACHE_ERROR",
            ServiceError::Timeout { .. } => "TIMEOUT",
            ServiceError::ResourceExhausted { .. } => "RESOURCE_EXHAUSTED",
            _ => "INTERNAL_ERROR",
        }
    }

    /// The extensions a GraphQL error for this error carries.
    pub fn graphql_extensions(&self) -> (r: Vec<(String, ExtensionValue)>)
        ensures
            extensions_view(r@) == graphql_extensions(*self),
    {
        let mut ext: Vec<(String, ExtensionValue)> = Vec::new();
        let code = self.graphql_code();
        push_extension(&mut ext, "code", ExtensionValue::Text(code.to_owned()));
        push_extension(&mut ext, "retryable", ExtensionValue::Flag(self.is_retryable()));
        push_extension(&mut ext, "severe", ExtensionValue::Flag(self.is_severe()));
        if let Some(field_name) = self.field() {
            push_extension(&mut ext, "field", ExtensionValue::Text(field_name));
        }
        match self {
            ServiceError::Timeout { operation, timeout_ms } => {
                push_extension(&mut ext, "operation", ExtensionValue::Text(operation.clone()));
                push_extension(&mut ext, "timeout_ms", ExtensionValue::Number(*timeout_ms));
            },
            ServiceError::ResourceExhausted { resource, .. } => {
                push_extension(&mut ext, "resource", ExtensionValue::Text(resource.clone()));
            },
            _ => {},
        }
        assert(extensions_view(ext@) =~= graphql_extensions(*self));
        ext
    }

    /// Convert to a GraphQL error: the message is this error's message and
    /// the extensions are [`ServiceError::graphql_extensions`].
    pub fn into_graphql_error(self) -> (r: async_graphql::Error)
        ensures
            r == graphql_error_with(display_text(self), graphql_extensions(self)),
    {
        let message = self.to_string();
        let extensions = self.graphql_extensions();
        new_graphql_error(message, extensions)
    }
}

} // verus!
