use http::StatusCode;
use pleme_error::conversions::{DatabaseFailure, IoFailureKind};
use pleme_error::graphql::ExtensionValue;
use pleme_error::{
    log_error, validation_errors_from_fields, validation_from_fields, Context, ErrorResponse,
    ErrorSource, FieldValidator, LogLevel, ServiceError, ValidationErrorMap,
};

fn grouped(err: &ServiceError) -> &ValidationErrorMap {
    match err {
        ServiceError::ValidationErrors(m) => m,
        _ => panic!("not a validation error"),
    }
}

#[test]
fn messages_render_as_documented() {
    assert_eq!(
        ServiceError::not_found("User", "123").to_string(),
        "Not found: User with 123"
    );
    assert_eq!(
        ServiceError::database_msg("Connection failed").to_string(),
        "Database error: Connection failed"
    );
    assert_eq!(
        ServiceError::invalid_field("email", "Must contain @").to_string(),
        "Invalid input: Must contain @"
    );
    assert_eq!(
        ServiceError::Unauthenticated("Login required".to_string()).to_string(),
        "Authentication required: Login required"
    );
    assert_eq!(
        ServiceError::PermissionDenied("Admin only".to_string()).to_string(),
        "Permission denied: Admin only"
    );
    assert_eq!(
        ServiceError::BusinessRule("Cannot refund shipped orders".to_string()).to_string(),
        "Business rule violation: Cannot refund shipped orders"
    );
    assert_eq!(
        ServiceError::external_service("Stripe", "Card declined", "declined").to_string(),
        "External service error: Stripe - Card declined"
    );
    assert_eq!(
        ServiceError::Configuration("missing key".to_string()).to_string(),
        "Configuration error: missing key"
    );
    assert_eq!(
        ServiceError::RateLimitExceeded("Too many requests".to_string()).to_string(),
        "Rate limit exceeded: Too many requests"
    );
    assert_eq!(
        ServiceError::Conflict("Email already registered".to_string()).to_string(),
        "Conflict: Email already registered"
    );
    assert_eq!(ServiceError::cache_msg("Cache miss").to_string(), "Cache error: Cache miss");
    assert_eq!(
        ServiceError::resource_exhausted("memory", "Out of memory").to_string(),
        "Resource exhausted: memory - Out of memory"
    );
    assert_eq!(ServiceError::internal_msg("Panic").to_string(), "Internal error: Panic");
}

#[test]
fn timeout_message_renders_milliseconds_in_decimal() {
    assert_eq!(
        ServiceError::timeout("API call", 3000).to_string(),
        "Timeout: API call exceeded 3000ms"
    );
    assert_eq!(
        ServiceError::timeout("I/O operation", 0).to_string(),
        "Timeout: I/O operation exceeded 0ms"
    );
    assert_eq!(
        ServiceError::timeout("x", 10).to_string(),
        "Timeout: x exceeded 10ms"
    );
    assert_eq!(
        ServiceError::timeout("x", u64::MAX).to_string(),
        "Timeout: x exceeded 18446744073709551615ms"
    );
}

#[test]
fn constructors_keep_their_sources() {
    let err = ServiceError::database("Query failed", "connection reset");
    match err {
        ServiceError::Database { message, source: Some(ErrorSource::External(d)) } => {
            assert_eq!(message, "Query failed");
            assert_eq!(d, "connection reset");
        }
        _ => panic!("wrong variant"),
    }
    let err = ServiceError::internal("boom", 42);
    match err {
        ServiceError::Internal { message, source: Some(ErrorSource::External(d)) } => {
            assert_eq!(message, "boom");
            assert_eq!(d, "42");
        }
        _ => panic!("wrong variant"),
    }
    let err = ServiceError::cache("Cache write failed", "full");
    assert!(matches!(err, ServiceError::Cache { source: Some(ErrorSource::External(_)), .. }));
    let err = ServiceError::cache_msg("miss");
    assert!(matches!(err, ServiceError::Cache { source: None, .. }));
    let err = ServiceError::external_service("SendGrid", "Email bounce", "Bounce");
    match err {
        ServiceError::ExternalService { service, message, source: Some(ErrorSource::External(d)) } => {
            assert_eq!(service, "SendGrid");
            assert_eq!(message, "Email bounce");
            assert_eq!(d, "Bounce");
        }
        _ => panic!("wrong variant"),
    }
    match ServiceError::invalid_field("email", "Must be valid") {
        ServiceError::InvalidInput { message, field } => {
            assert_eq!(message, "Must be valid");
            assert_eq!(field.as_deref(), Some("email"));
        }
        _ => panic!("wrong variant"),
    }
}

#[test]
fn context_wraps_the_original_error() {
    let err = ServiceError::not_found("User", "123");
    let wrapped = err.context("Failed to load user profile");
    assert_eq!(
        wrapped.to_string(),
        "Internal error: Failed to load user profile: Not found: User with 123"
    );
    assert!(wrapped.is_retryable());
    assert!(wrapped.is_severe());
    match wrapped {
        ServiceError::Internal { source: Some(ErrorSource::Service(inner)), .. } => {
            assert!(matches!(*inner, ServiceError::NotFound { .. }));
            assert_eq!(inner.to_string(), "Not found: User with 123");
        }
        _ => panic!("context must wrap the error"),
    }
}

#[test]
fn classification_of_every_variant() {
    let cases: Vec<(ServiceError, bool, bool, u16, &str, &str)> = vec![
        (ServiceError::database_msg("d"), true, true, 500, "DATABASE_ERROR", "INTERNAL_ERROR"),
        (ServiceError::not_found("User", "1"), false, false, 404, "NOT_FOUND", "NOT_FOUND"),
        (ServiceError::invalid_input("x"), false, false, 400, "INVALID_INPUT", "INVALID_INPUT"),
        (
            validation_from_fields(vec![("a", "b")]),
            false,
            false,
            400,
            "VALIDATION_ERRORS",
            "VALIDATION_ERRORS",
        ),
        (ServiceError::Unauthenticated("u".to_string()), false, false, 401, "UNAUTHENTICATED", "UNAUTHENTICATED"),
        (ServiceError::PermissionDenied("p".to_string()), false, false, 403, "PERMISSION_DENIED", "PERMISSION_DENIED"),
        (
            ServiceError::BusinessRule("b".to_string()),
            false,
            false,
            422,
            "BUSINESS_RULE_VIOLATION",
            "BUSINESS_RULE_VIOLATION",
        ),
        (
            ServiceError::external_service("s", "m", "e"),
            true,
            false,
            500,
            "EXTERNAL_SERVICE_ERROR",
            "INTERNAL_ERROR",
        ),
        (
            ServiceError::Configuration("c".to_string()),
            false,
            true,
            500,
            "CONFIGURATION_ERROR",
            "INTERNAL_ERROR",
        ),
        (
            ServiceError::RateLimitExceeded("r".to_string()),
            true,
            false,
            429,
            "RATE_LIMIT_EXCEEDED",
            "RATE_LIMIT_EXCEEDED",
        ),
        (ServiceError::Conflict("c".to_string()), false, false, 409, "CONFLICT", "CONFLICT"),
        (ServiceError::cache_msg("c"), true, false, 500, "CACHE_ERROR", "CACHE_ERROR"),
        (ServiceError::timeout("t", 1), true, false, 504, "TIMEOUT", "TIMEOUT"),
        (
            ServiceError::resource_exhausted("r", "m"),
            true,
            true,
            503,
            "RESOURCE_EXHAUSTED",
            "RESOURCE_EXHAUSTED",
        ),
        (ServiceError::internal_msg("i"), true, true, 500, "INTERNAL_ERROR", "INTERNAL_ERROR"),
    ];
    for (err, retry, severe, status, code, gql) in cases {
        assert_eq!(err.is_retryable(), retry, "{:?}", err);
        assert_eq!(err.is_severe(), severe, "{:?}", err);
        assert_eq!(err.status_code(), status, "{:?}", err);
        assert_eq!(err.error_code(), code, "{:?}", err);
        assert_eq!(err.graphql_code(), gql, "{:?}", err);
        // severe errors are server errors; client errors are retried only when rate limited
        if severe {
            assert!(status >= 500);
        }
        if retry && status < 500 {
            assert_eq!(status, 429);
        }
        assert_eq!(StatusCode::from(err).as_u16(), status);
    }
}

#[test]
fn error_response_body() {
    let response = ErrorResponse::from(ServiceError::not_found("User", "123"));
    assert_eq!(response.error, "NOT_FOUND");
    assert_eq!(response.message, "Not found: User with 123");
    assert!(response.field.is_none());
    assert!(response.details.is_none());

    let response = ErrorResponse::from(ServiceError::invalid_field("email", "Must be valid"));
    assert_eq!(response.error, "INVALID_INPUT");
    assert_eq!(response.field.as_deref(), Some("email"));
    assert!(response.details.is_none());
}

#[test]
fn graphql_extensions_of_a_timeout() {
    let err = ServiceError::timeout("database query", 5000);
    let ext = err.graphql_extensions();
    let expected: Vec<(String, ExtensionValue)> = vec![
        ("code".to_string(), ExtensionValue::Text("TIMEOUT".to_string())),
        ("retryable".to_string(), ExtensionValue::Flag(true)),
        ("severe".to_string(), ExtensionValue::Flag(false)),
        ("operation".to_string(), ExtensionValue::Text("database query".to_string())),
        ("timeout_ms".to_string(), ExtensionValue::Number(5000)),
    ];
    assert_eq!(ext, expected);

    let graphql = err.into_graphql_error();
    assert_eq!(graphql.message, "Timeout: database query exceeded 5000ms");
    let values = graphql.extensions.expect("extensions are set");
    assert_eq!(values.get("code"), Some(&async_graphql::Value::from("TIMEOUT")));
    assert_eq!(values.get("timeout_ms"), Some(&async_graphql::Value::from(5000u64)));
    assert_eq!(values.get("retryable"), Some(&async_graphql::Value::from(true)));
}

#[test]
fn graphql_extensions_name_the_field_and_resource() {
    let ext = ServiceError::invalid_field("limit", "Must be greater than 0").graphql_extensions();
    assert_eq!(ext.len(), 4);
    assert_eq!(ext[0], ("code".to_string(), ExtensionValue::Text("INVALID_INPUT".to_string())));
    assert_eq!(ext[3], ("field".to_string(), ExtensionValue::Text("limit".to_string())));

    let ext = ServiceError::resource_exhausted("memory", "Out of memory").graphql_extensions();
    assert_eq!(ext.len(), 4);
    assert_eq!(ext[2], ("severe".to_string(), ExtensionValue::Flag(true)));
    assert_eq!(ext[3], ("resource".to_string(), ExtensionValue::Text("memory".to_string())));

    let ext = ServiceError::database_msg("down").graphql_extensions();
    assert_eq!(ext.len(), 3);
    assert_eq!(ext[0], ("code".to_string(), ExtensionValue::Text("INTERNAL_ERROR".to_string())));

    let graphql = ServiceError::not_found("User", "550e8400-e29b-41d4-a716-446655440000").into_graphql_error();
    assert_eq!(
        graphql.message,
        "Not found: User with 550e8400-e29b-41d4-a716-446655440000"
    );
}

#[test]
fn log_level_follows_severity() {
    let event = log_error(
        &ServiceError::external_service("Stripe", "Card declined", "declined"),
        "payment_processing",
    );
    assert_eq!(event.level, LogLevel::Warn);
    assert_eq!(event.error, "External service error: Stripe - Card declined");
    assert_eq!(event.context, "payment_processing");

    let event = log_error(&ServiceError::database_msg("Connection failed"), "startup");
    assert_eq!(event.level, LogLevel::Error);
    assert_eq!(event.error, "Database error: Connection failed");
}

#[test]
fn field_validator_collects_in_order() {
    let mut validator = FieldValidator::new();
    assert!(validator.is_empty());
    validator.add_if("".is_empty(), "email", "Email is required");
    validator.add_if("secret".len() < 8, "password", "Password too short");
    validator.add_if(false, "age", "never added");
    validator.add("email", "Must contain @");
    assert!(!validator.is_empty());
    assert_eq!(validator.len(), 3);
    assert_eq!(
        validator.errors(),
        &[
            ("email".to_string(), "Email is required".to_string()),
            ("password".to_string(), "Password too short".to_string()),
            ("email".to_string(), "Must contain @".to_string()),
        ]
    );
    assert_eq!(
        validator.as_static_errors(),
        vec![
            ("email", "Email is required"),
            ("password", "Password too short"),
            ("email", "Must contain @"),
        ]
    );
    let err = validator.into_service_error();
    let map = grouped(&err);
    assert_eq!(map.len(), 2);
    assert_eq!(
        map.get("email").unwrap(),
        &vec!["Email is required".to_string(), "Must contain @".to_string()]
    );
    assert_eq!(map.get("password").unwrap(), &vec!["Password too short".to_string()]);
    assert!(map.get("age").is_none());
}

#[test]
fn default_validator_is_empty() {
    let validator = FieldValidator::default();
    assert!(validator.is_empty());
    assert_eq!(validator.len(), 0);
    assert!(validator.into_errors().is_empty());
}

#[test]
fn into_errors_returns_what_was_added() {
    let mut validator = FieldValidator::new();
    validator.add("a", "1");
    validator.add("b", "2");
    assert_eq!(
        validator.into_errors(),
        vec![("a".to_string(), "1".to_string()), ("b".to_string(), "2".to_string())]
    );
}

#[test]
fn grouping_keeps_every_message_per_field() {
    let err = validation_errors_from_fields(vec![
        ("email".to_string(), "Must contain @".to_string()),
        ("password".to_string(), "Too short".to_string()),
        ("email".to_string(), "Too short".to_string()),
        ("age".to_string(), "Must be 18 or older".to_string()),
    ]);
    let map = grouped(&err);
    let entries = map.entries();
    assert_eq!(entries.len(), 3);
    assert_eq!(entries[0].0, "email");
    assert_eq!(entries[0].1, vec!["Must contain @".to_string(), "Too short".to_string()]);
    assert_eq!(entries[1].0, "password");
    assert_eq!(entries[2].0, "age");
    assert_eq!(
        err.to_string(),
        "Validation failed: {\"email\": [\"Must contain @\", \"Too short\"], \"password\": [\"Too short\"], \"age\": [\"Must be 18 or older\"]}"
    );
}

#[test]
fn grouping_of_nothing_is_empty() {
    let err = validation_from_fields(vec![]);
    assert!(grouped(&err).is_empty());
    assert_eq!(err.to_string(), "Validation failed: {}");
}

#[test]
fn validation_message_quotes_like_debug() {
    let err = validation_from_fields(vec![("name", "say \"hi\"\n")]);
    assert_eq!(
        err.to_string(),
        "Validation failed: {\"name\": [\"say \\\"hi\\\"\\n\"]}"
    );
    assert_eq!(grouped(&err).to_debug_string(), "{\"name\": [\"say \\\"hi\\\"\\n\"]}");
}

#[test]
fn validation_map_built_by_hand() {
    let mut map = ValidationErrorMap::new();
    assert!(map.is_empty());
    map.add_message("x".to_string(), "1".to_string());
    map.add_message("y".to_string(), "2".to_string());
    map.add_message("x".to_string(), "3".to_string());
    assert_eq!(map.len(), 2);
    assert_eq!(map.get("x").unwrap(), &vec!["1".to_string(), "3".to_string()]);
    assert_eq!(map.to_debug_string(), "{\"x\": [\"1\", \"3\"], \"y\": [\"2\"]}");
}

#[test]
fn io_errors_convert_by_kind() {
    let err = ServiceError::from(std::io::Error::new(std::io::ErrorKind::NotFound, "missing.txt"));
    match err {
        ServiceError::NotFound { resource_type, identifier } => {
            assert_eq!(resource_type, "file");
            assert_eq!(identifier, "missing.txt");
        }
        _ => panic!("wrong variant"),
    }
    let err = ServiceError::from(std::io::Error::new(std::io::ErrorKind::PermissionDenied, "denied"));
    match err {
        ServiceError::PermissionDenied(m) => assert_eq!(m, "I/O permission denied: denied"),
        _ => panic!("wrong variant"),
    }
    let err = ServiceError::from(std::io::Error::new(std::io::ErrorKind::TimedOut, "slow"));
    match err {
        ServiceError::Timeout { operation, timeout_ms } => {
            assert_eq!(operation, "I/O operation");
            assert_eq!(timeout_ms, 0);
        }
        _ => panic!("wrong variant"),
    }
    let err = ServiceError::from(std::io::Error::new(std::io::ErrorKind::Other, "boom"));
    match err {
        ServiceError::Internal { message, source: Some(ErrorSource::External(d)) } => {
            assert_eq!(message, "I/O error");
            assert_eq!(d, "boom");
        }
        _ => panic!("wrong variant"),
    }
}

#[test]
fn io_failure_by_kind() {
    let err = ServiceError::from_io_failure(IoFailureKind::PermissionDenied, "nope".to_string());
    assert_eq!(err.to_string(), "Permission denied: I/O permission denied: nope");
    let err = ServiceError::from_io_failure(IoFailureKind::NotFound, "a.txt".to_string());
    assert_eq!(err.to_string(), "Not found: file with a.txt");
}

#[test]
fn database_failures_convert() {
    let err = ServiceError::from_database_failure(
        DatabaseFailure::Rejected {
            message: "duplicate key value".to_string(),
            constraint: Some("users_email_key".to_string()),
        },
        "ignored".to_string(),
    );
    match err {
        ServiceError::Conflict(m) => assert_eq!(m, "Constraint violation: users_email_key"),
        _ => panic!("wrong variant"),
    }
    let err = ServiceError::from_database_failure(
        DatabaseFailure::Rejected { message: "syntax error".to_string(), constraint: None },
        "ignored".to_string(),
    );
    match err {
        ServiceError::Database { message, source: None } => assert_eq!(message, "syntax error"),
        _ => panic!("wrong variant"),
    }

    let err = ServiceError::from(sqlx::Error::RowNotFound);
    match err {
        ServiceError::NotFound { resource_type, identifier } => {
            assert_eq!(resource_type, "record");
            assert_eq!(identifier, "unknown");
        }
        _ => panic!("wrong variant"),
    }
    let err = ServiceError::from(sqlx::Error::Protocol("bad frame".to_string()));
    match err {
        ServiceError::Database { message, source: Some(ErrorSource::External(d)) } => {
            assert_eq!(message, "Database operation failed");
            assert_eq!(d, "encountered unexpected or invalid data: bad frame");
        }
        _ => panic!("wrong variant"),
    }
}

#[test]
fn redis_errors_are_database_errors() {
    let err = ServiceError::from(redis::RedisError::from((redis::ErrorKind::Client, "connection refused")));
    match err {
        ServiceError::Database { message, source: Some(ErrorSource::External(d)) } => {
            assert_eq!(message, "Redis operation failed");
            assert!(d.contains("connection refused"));
        }
        _ => panic!("wrong variant"),
    }
}

#[test]
fn anyhow_errors_are_internal() {
    let err = ServiceError::from(anyhow::Error::msg("worker crashed"));
    match err {
        ServiceError::Internal { message, source: None } => assert_eq!(message, "worker crashed"),
        _ => panic!("wrong variant"),
    }
}

#[test]
fn anyhow_context_then_question_mark() {
    fn load() -> pleme_error::Result<String> {
        let read: std::result::Result<String, std::io::Error> =
            Err(std::io::Error::new(std::io::ErrorKind::NotFound, "no such file"));
        let text = read.context("Failed to read config.yaml")?;
        Ok(text)
    }
    match load() {
        Err(ServiceError::Internal { message, .. }) => assert_eq!(message, "Failed to read config.yaml"),
        _ => panic!("expected an internal error"),
    }
}

#[test]
fn parse_errors_are_invalid_input() {
    let err = ServiceError::from(url::ParseError::RelativeUrlWithoutBase);
    assert_eq!(
        err.to_string(),
        "Invalid input: URL parsing failed: relative URL without a base"
    );
    let json: std::result::Result<serde_json::Value, serde_json::Error> = serde_json::from_str("{");
    let err = ServiceError::from(json.unwrap_err());
    match err {
        ServiceError::InvalidInput { message, field: None } => {
            assert!(message.starts_with("JSON parsing failed: "));
            assert!(message.len() > "JSON parsing failed: ".len());
        }
        _ => panic!("wrong variant"),
    }
}
