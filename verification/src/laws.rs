//! Properties that tie the classifications of an error together.

use vstd::prelude::*;

use crate::error::{display_text, retryable, severe, ServiceError};
use crate::text::decimal;
use crate::graphql::{graphql_code, graphql_extensions, ExtensionView};
use crate::response::{error_field, http_status, response_code, status_with_code};

verus! {

/// Severity and HTTP status agree: a severe error is always answered with a
/// server error (5xx), and among client errors (4xx) only an exceeded rate
/// limit is worth retrying.
pub proof fn lemma_status_follows_classification(e: ServiceError)
    ensures
        severe(e) ==> http_status(e) >= 500,
        (retryable(e) && http_status(e) < 500) <==> e is RateLimitExceeded,
        400 <= http_status(e) < 600,
{
}

/// GraphQL clients and JSON error bodies see the same code, except that the
/// failures of the service itself without a code of their own (database,
/// external service, configuration, internal) are all `INTERNAL_ERROR` for
/// GraphQL clients.
pub proof fn lemma_codes_agree(e: ServiceError)
    ensures
        (e is Database || e is ExternalService || e is Configuration || e is Internal)
            ==> graphql_code(e) == "INTERNAL_ERROR"@,
        !(e is Database || e is ExternalService || e is Configuration || e is Internal)
            ==> graphql_code(e) == response_code(e),
{
}

/// The status of an error response is the status the error converts to:
/// the code [`ServiceError::status_code`] gives is always one that
/// `StatusCode::from_u16` accepts, and the status it then gives is
/// `StatusCode::from(error)`.
pub proof fn lemma_response_status(e: ServiceError)
    ensures
        100 <= http_status(e) <= 999,
        <http::StatusCode as vstd::std_specs::convert::FromSpec<ServiceError>>::obeys_from_spec(),
        <http::StatusCode as vstd::std_specs::convert::FromSpec<ServiceError>>::from_spec(e)
            == status_with_code(http_status(e)),
{
}

/// Which kind of error `e` is, ignoring what it carries: its variant's
/// position in the declaration of [`ServiceError`].
pub open spec fn variant_tag(e: ServiceError) -> int {
    match e {
        ServiceError::Database { .. } => 0,
        ServiceError::NotFound { .. } => 1,
        ServiceError::InvalidInput { .. } => 2,
        ServiceError::Unauthenticated(_) => 3,
        ServiceError::PermissionDenied(_) => 4,
        ServiceError::BusinessRule(_) => 5,
        ServiceError::ExternalService { .. } => 6,
        ServiceError::Configuration(_) => 7,
        ServiceError::RateLimitExceeded(_) => 8,
        ServiceError::Conflict(_) => 9,
        ServiceError::Cache { .. } => 10,
        ServiceError::Timeout { .. } => 11,
        ServiceError::ResourceExhausted { .. } => 12,
        ServiceError::ValidationErrors(_) => 13,
        ServiceError::Internal { .. } => 14,
    }
}

/// An error is classified by its kind alone: two errors of the same kind,
/// whatever their messages, sources, fields or durations, are equally
/// retryable and severe, get the same HTTP status and the same codes.
pub proof fn lemma_classified_by_kind(a: ServiceError, b: ServiceError)
    requires
        variant_tag(a) == variant_tag(b),
    ensures
        retryable(a) == retryable(b),
        severe(a) == severe(b),
        http_status(a) == http_status(b),
        response_code(a) == response_code(b),
        graphql_code(a) == graphql_code(b),
{
}

/// Failures of the infrastructure are transient: database, external service,
/// cache, timeout, exhausted resource, rate limit and internal errors are
/// worth retrying; errors caused by the request or by the rules of the
/// domain are not.
pub proof fn lemma_retryable_kinds(e: ServiceError)
    ensures
        (e is Database || e is ExternalService || e is Cache || e is Timeout
            || e is ResourceExhausted || e is RateLimitExceeded || e is Internal) ==> retryable(e),
        (e is NotFound || e is InvalidInput || e is ValidationErrors || e is Unauthenticated
            || e is PermissionDenied || e is BusinessRule || e is Conflict || e is Configuration)
            ==> !retryable(e),
{
}

/// Failures of the service itself are severe (logged at error level):
/// database, internal, configuration and exhausted-resource errors; every
/// other error is expected and logged as a warning.
pub proof fn lemma_severe_kinds(e: ServiceError)
    ensures
        (e is Database || e is Internal || e is Configuration || e is ResourceExhausted) <==> severe(e),
{
}

/// Errors caused by the request are client errors: invalid input and failed
/// validation are answered with 400 whatever they carry, a missing resource
/// with 404, missing authentication with 401, a refused permission with 403.
pub proof fn lemma_client_error_statuses(e: ServiceError)
    ensures
        (e is InvalidInput || e is ValidationErrors) ==> http_status(e) == 400,
        e is NotFound ==> http_status(e) == 404,
        e is Unauthenticated ==> http_status(e) == 401,
        e is PermissionDenied ==> http_status(e) == 403,
        e is Conflict ==> http_status(e) == 409,
        e is BusinessRule ==> http_status(e) == 422,
        e is RateLimitExceeded ==> http_status(e) == 429,
        e is Timeout ==> http_status(e) == 504,
        e is ResourceExhausted ==> http_status(e) == 503,
        (e is Database || e is Cache || e is ExternalService || e is Configuration || e is Internal)
            ==> http_status(e) == 500,
{
}

/// The GraphQL extensions agree with the error's own classification: the
/// first three are the code, whether it is retryable and whether it is
/// severe; invalid input adds a fourth, the `field` it names, exactly when it
/// names one.
pub proof fn lemma_graphql_extensions_agree(e: ServiceError)
    ensures
        graphql_extensions(e).len() >= 3,
        graphql_extensions(e)[0] == ("code"@, ExtensionView::Text(graphql_code(e))),
        graphql_extensions(e)[1] == ("retryable"@, ExtensionView::Flag(retryable(e))),
        graphql_extensions(e)[2] == ("severe"@, ExtensionView::Flag(severe(e))),
        error_field(e) matches Some(f) ==> graphql_extensions(e)[3] == ("field"@, ExtensionView::Text(f)),
        e is InvalidInput ==> graphql_extensions(e).len() == (if error_field(e) is Some { 4int } else { 3int }),
        e matches ServiceError::Timeout { operation, timeout_ms } ==> graphql_extensions(e).len() == 5
            && graphql_extensions(e)[3] == ("operation"@, ExtensionView::Text(operation@))
            && graphql_extensions(e)[4] == ("timeout_ms"@, ExtensionView::Number(timeout_ms)),
        e matches ServiceError::ResourceExhausted { resource, .. } ==> graphql_extensions(e).len() == 4
            && graphql_extensions(e)[3] == ("resource"@, ExtensionView::Text(resource@)),
        !(e is InvalidInput || e is Timeout || e is ResourceExhausted) ==> graphql_extensions(e).len() == 3,
{
}

/// An error's message ends with the text it carries: the message, the reason,
/// the identifier of what was not found, or, for a timeout, the duration in
/// decimal followed by `ms`.
pub proof fn lemma_message_ends_with_content(e: ServiceError)
    ensures
        e matches ServiceError::Database { message, .. } ==> display_text(e).take(display_text(e).len() - message@.len()) + message@ == display_text(e),
        e matches ServiceError::InvalidInput { message, .. } ==> display_text(e).take(display_text(e).len() - message@.len()) + message@ == display_text(e),
        e matches ServiceError::Internal { message, .. } ==> display_text(e).take(display_text(e).len() - message@.len()) + message@ == display_text(e),
        e matches ServiceError::Cache { message, .. } ==> display_text(e).take(display_text(e).len() - message@.len()) + message@ == display_text(e),
        e matches ServiceError::NotFound { identifier, .. } ==> display_text(e).take(display_text(e).len() - identifier@.len()) + identifier@ == display_text(e),
        e matches ServiceError::Timeout { timeout_ms, .. } ==> display_text(e).take(display_text(e).len() - decimal(timeout_ms as nat).len() - 2) + decimal(timeout_ms as nat) + "ms"@ == display_text(e),
{
    match e {
        ServiceError::Database { message, .. } => {
            assert(display_text(e).take(display_text(e).len() - message@.len()) =~= "Database error: "@);
        },
        ServiceError::InvalidInput { message, .. } => {
            assert(display_text(e).take(display_text(e).len() - message@.len()) =~= "Invalid input: "@);
        },
        ServiceError::Internal { message, .. } => {
            assert(display_text(e).take(display_text(e).len() - message@.len()) =~= "Internal error: "@);
        },
        ServiceError::Cache { message, .. } => {
            assert(display_text(e).take(display_text(e).len() - message@.len()) =~= "Cache error: "@);
        },
        ServiceError::NotFound { resource_type, identifier } => {
            assert(display_text(e).take(display_text(e).len() - identifier@.len())
                =~= "Not found: "@ + resource_type@ + " with "@);
        },
        ServiceError::Timeout { operation, timeout_ms } => {
            reveal_strlit("ms");
            assert(display_text(e).take(display_text(e).len() - decimal(timeout_ms as nat).len() - 2)
                =~= "Timeout: "@ + operation@ + " exceeded "@);
        },
        _ => {},
    }
}

} // verus!
