use strat_sdk::StratError;

#[test]
fn network_error_text() {
    let error = StratError::NetworkError("connection refused".to_string());
    assert_eq!(error.to_text(), "Network error: connection refused");
}

#[test]
fn api_error_text() {
    let error = StratError::ApiError {
        status: 404,
        message: "not found".to_string(),
    };
    assert_eq!(error.to_text(), "API error (404): not found");
    let error = StratError::ApiError {
        status: 500,
        message: String::new(),
    };
    assert_eq!(error.to_text(), "API error (500): ");
}

#[test]
fn serialization_error_text() {
    let error = StratError::SerializationError("Invalid balance format".to_string());
    assert_eq!(
        error.to_text(),
        "Serialization error: Invalid balance format"
    );
}

#[test]
fn invalid_address_text() {
    assert_eq!(StratError::InvalidAddress.to_text(), "Invalid address format");
}

#[test]
fn json_failure_becomes_serialization_error() {
    let failure = serde_json::from_str::<serde_json::Value>("{").unwrap_err();
    let expected = failure.to_string();
    match StratError::from(failure) {
        StratError::SerializationError(description) => assert_eq!(description, expected),
        other => panic!("unexpected error: {:?}", other),
    }
}
