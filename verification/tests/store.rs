use config_store::interpret_response;
use config_store::ParameterResponse;
use config_store::StoreError;

#[test]
fn a_parameter_with_a_value_gives_the_value() {
    let response = ParameterResponse::Parameter { value: Some("https://x".to_string()) };
    assert_eq!(interpret_response("api-endpoint", response), Ok("https://x".to_string()));
}

#[test]
fn a_parameter_with_an_empty_value_gives_the_empty_value() {
    let response = ParameterResponse::Parameter { value: Some(String::new()) };
    assert_eq!(interpret_response("blank", response), Ok(String::new()));
}

#[test]
fn a_parameter_without_a_value_is_a_key_not_found() {
    let response = ParameterResponse::Parameter { value: None };
    assert_eq!(
        interpret_response("retry-count", response),
        Err(StoreError::KeyNotFound { key: "retry-count".to_string() })
    );
}

#[test]
fn no_parameter_is_a_key_not_found() {
    assert_eq!(
        interpret_response("retry-count", ParameterResponse::NoParameter),
        Err(StoreError::KeyNotFound { key: "retry-count".to_string() })
    );
}

#[test]
fn a_failed_request_is_an_unavailable_store() {
    let response = ParameterResponse::Failed { detail: "dispatch failure".to_string() };
    assert_eq!(
        interpret_response("retry-count", response),
        Err(StoreError::StoreUnavailable { detail: "dispatch failure".to_string() })
    );
}
