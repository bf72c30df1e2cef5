use config_store::AdapterInitError;
use config_store::CloudError;
use config_store::ResolutionError;
use config_store::StoreError;

#[test]
fn store_errors_say_what_was_missing_or_why() {
    let missing = StoreError::KeyNotFound { key: "retry-count".to_string() };
    assert_eq!(missing.message(), "no value found for retry-count");
    let down = StoreError::StoreUnavailable { detail: "timed out".to_string() };
    assert_eq!(down.message(), "parameter store unavailable: timed out");
}

#[test]
fn resolution_errors_name_the_field_and_the_cause() {
    assert_eq!(ResolutionError::UnsupportedShape.message(), "Only structs supported");
    let failed = ResolutionError::FieldResolutionFailed {
        field_name: "retry_count".to_string(),
        cause: StoreError::KeyNotFound { key: "retry-count".to_string() },
    };
    assert_eq!(
        failed.message(),
        "could not resolve field retry_count: no value found for retry-count"
    );
    let failed = ResolutionError::FieldResolutionFailed {
        field_name: "api_endpoint".to_string(),
        cause: StoreError::StoreUnavailable { detail: "throttled".to_string() },
    };
    assert_eq!(
        failed.message(),
        "could not resolve field api_endpoint: parameter store unavailable: throttled"
    );
}

#[test]
fn adapter_errors_carry_their_detail() {
    let error = AdapterInitError { detail: "no credentials".to_string() };
    assert_eq!(error.message(), "could not set up the parameter store adapter: no credentials");
}

#[test]
fn a_resolution_error_becomes_a_deserialization_error_with_the_same_text() {
    let errors = [
        ResolutionError::UnsupportedShape,
        ResolutionError::FieldResolutionFailed {
            field_name: "retry_count".to_string(),
            cause: StoreError::KeyNotFound { key: "retry-count".to_string() },
        },
        ResolutionError::FieldResolutionFailed {
            field_name: "f".to_string(),
            cause: StoreError::StoreUnavailable { detail: String::new() },
        },
    ];
    for error in errors {
        assert_eq!(error.to_deserialization_error().to_string(), error.message());
    }
    assert_eq!(
        ResolutionError::UnsupportedShape.to_deserialization_error().to_string(),
        "Only structs supported"
    );
}

#[test]
fn a_deserialization_error_is_what_the_framework_would_have_made() {
    let error = ResolutionError::FieldResolutionFailed {
        field_name: "a".to_string(),
        cause: StoreError::KeyNotFound { key: "a".to_string() },
    };
    let made: serde::de::value::Error = serde::de::Error::custom(error.message());
    assert_eq!(error.to_deserialization_error(), made);
}

#[test]
fn a_server_error_keeps_the_text_of_its_cause() {
    let cause = std::io::Error::new(std::io::ErrorKind::Other, "disk on fire");
    let error = CloudError::server(cause);
    assert_eq!(error, CloudError::Server("disk on fire".to_string()));
    assert_eq!(error.message(), "Server error: disk on fire");
}

#[test]
fn a_server_error_of_a_parse_failure() {
    let cause = "x".parse::<u8>().unwrap_err();
    let text = cause.to_string();
    assert_eq!(CloudError::server(cause), CloudError::Server(text));
}

#[test]
fn a_client_error_says_so() {
    let error = CloudError::Client("bad request".to_string());
    assert_eq!(error.message(), "Client error: bad request");
    assert_eq!(CloudError::Client(String::new()).message(), "Client error: ");
}
