use pleme_error::{ErrorResponse, ServiceError};
use http::StatusCode;
use uuid::Uuid;

#[test]
fn test_error_creation() {
    let err = ServiceError::not_found("User", Uuid::new_v4());
    assert!(matches!(err, ServiceError::NotFound { .. }));

    let err = ServiceError::invalid_input("Invalid email");
    assert!(matches!(err, ServiceError::InvalidInput { .. }));

    let err = ServiceError::invalid_field("email", "Must be valid");
    assert!(matches!(err, ServiceError::InvalidInput { field: Some(_), .. }));
}

#[test]
fn test_error_retryable() {
    assert!(ServiceError::database_msg("Connection failed").is_retryable());
    assert!(ServiceError::RateLimitExceeded("Too many requests".to_string()).is_retryable());
    assert!(!ServiceError::not_found("User", "123").is_retryable());
    assert!(!ServiceError::InvalidInput {
        message: "Bad input".to_string(),
        field: None
    }
    .is_retryable());
}

#[test]
fn test_error_severity() {
    assert!(ServiceError::database_msg("Connection failed").is_severe());
    assert!(ServiceError::internal_msg("Panic").is_severe());
    assert!(!ServiceError::not_found("User", "123").is_severe());
    assert!(!ServiceError::InvalidInput {
        message: "Bad input".to_string(),
        field: None
    }
    .is_severe());
}

#[test]
fn test_error_serialization() {
    let err = ServiceError::not_found("User", "123");
    let response = ErrorResponse::from(err);
    assert_eq!(response.error, "NOT_FOUND");
    assert!(response.message.contains("User"));
}

#[test]
fn test_http_status_conversion() {
    assert_eq!(
        StatusCode::from(ServiceError::not_found("User", "123")),
        StatusCode::NOT_FOUND
    );
    assert_eq!(
        StatusCode::from(ServiceError::invalid_input("Bad")),
        StatusCode::BAD_REQUEST
    );
    assert_eq!(
        StatusCode::from(ServiceError::Unauthenticated("Login required".to_string())),
        StatusCode::UNAUTHORIZED
    );
    assert_eq!(
        StatusCode::from(ServiceError::timeout("database query", 5000)),
        StatusCode::GATEWAY_TIMEOUT
    );
    assert_eq!(
        StatusCode::from(ServiceError::resource_exhausted("memory", "Out of memory")),
        StatusCode::SERVICE_UNAVAILABLE
    );
}

#[test]
fn test_new_error_variants() {
    let cache_err = ServiceError::cache_msg("Cache miss");
    assert!(matches!(cache_err, ServiceError::Cache { .. }));
    assert!(cache_err.is_retryable());

    let timeout_err = ServiceError::timeout("API call", 3000);
    assert!(matches!(timeout_err, ServiceError::Timeout { .. }));
    assert!(timeout_err.is_retryable());
    assert!(timeout_err.to_string().contains("3000ms"));

    let exhausted_err = ServiceError::resource_exhausted("connections", "Pool exhausted");
    assert!(matches!(exhausted_err, ServiceError::ResourceExhausted { .. }));
    assert!(exhausted_err.is_retryable());
    assert!(exhausted_err.is_severe());
}

#[test]
fn test_context_method() {
    let err = ServiceError::not_found("User", "123");
    let with_context = err.context("Failed to load user profile");

    assert!(matches!(with_context, ServiceError::Internal { .. }));
    assert!(with_context.to_string().contains("Failed to load user profile"));
    assert!(with_context.to_string().contains("User"));
}

#[test]
fn test_graphql_error_conversion() {
    let timeout_err = ServiceError::timeout("database query", 5000);
    let graphql_err = timeout_err.into_graphql_error();

    // async-graphql doesn't provide direct access to extensions in tests,
    // but we can verify the error message is present
    assert!(graphql_err.message.contains("database query"));
}

#[test]
fn test_json_error_conversion() {
    let json_str = r#"{"invalid": json"#;
    let result: std::result::Result<serde_json::Value, serde_json::Error> = serde_json::from_str(json_str);

    if let Err(json_err) = result {
        let service_err = ServiceError::from(json_err);
        assert!(matches!(service_err, ServiceError::InvalidInput { .. }));
        assert!(service_err.to_string().contains("JSON parsing failed"));
    }
}

#[test]
fn test_url_error_conversion() {
    let invalid_url = "not a valid url";
    let result = url::Url::parse(invalid_url);

    if let Err(url_err) = result {
        let service_err = ServiceError::from(url_err);
        assert!(matches!(service_err, ServiceError::InvalidInput { .. }));
        assert!(service_err.to_string().contains("URL parsing failed"));
    }
}
