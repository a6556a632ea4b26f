use std::time::Duration;
use strat_sdk::{HttpMethod, StratSDK, StratSDKConfig};

#[test]
fn test_sdk_creation() {
    let sdk = StratSDK::with_default();
    assert!(sdk.is_ok());
}

#[test]
fn default_configuration() {
    let config = StratSDKConfig::default();
    assert_eq!(config.api_url, "http://localhost:3000");
    assert_eq!(config.api_key, None);
    assert_eq!(config.timeout, Duration::from_secs(30));
}

#[test]
fn new_accepts_any_configuration() {
    let config = StratSDKConfig {
        api_url: String::new(),
        api_key: Some(String::new()),
        timeout: Duration::from_millis(0),
    };
    assert!(StratSDK::new(config).is_ok());
}

#[test]
fn clone_keeps_the_configuration() {
    let config = StratSDKConfig {
        api_url: "https://node.example".to_string(),
        api_key: Some("k-1".to_string()),
        timeout: Duration::from_millis(1500),
    };
    let copy = config.clone();
    assert_eq!(copy.api_url, config.api_url);
    assert_eq!(copy.api_key, config.api_key);
    assert_eq!(copy.timeout, config.timeout);
}

#[test]
fn default_client_sends_no_credential() {
    let sdk = StratSDK::with_default().unwrap();
    let request = sdk.health_check();
    assert_eq!(request.method, HttpMethod::Get);
    assert_eq!(request.url, "http://localhost:3000/health");
    assert!(request.headers.is_empty());
    assert!(request.body.is_none());
}

#[test]
fn credential_goes_into_a_bearer_header() {
    let sdk = StratSDK::new(StratSDKConfig {
        api_url: "https://node.example".to_string(),
        api_key: Some("abc123".to_string()),
        timeout: Duration::from_secs(5),
    })
    .unwrap();
    let request = sdk.get_mining_info();
    assert_eq!(request.url, "https://node.example/api/mining/info");
    assert_eq!(request.headers.len(), 1);
    assert_eq!(request.headers[0].name, "Authorization");
    assert_eq!(request.headers[0].value, "Bearer abc123");
}

#[test]
fn payload_is_announced_after_the_credential() {
    let sdk = StratSDK::new(StratSDKConfig {
        api_url: "https://node.example".to_string(),
        api_key: Some("abc123".to_string()),
        timeout: Duration::from_secs(5),
    })
    .unwrap();
    let request = sdk.start_mining("0xabc");
    assert_eq!(request.headers.len(), 2);
    assert_eq!(request.headers[0].name, "Authorization");
    assert_eq!(request.headers[0].value, "Bearer abc123");
    assert_eq!(request.headers[1].name, "Content-Type");
    assert_eq!(request.headers[1].value, "application/json");
    let request = sdk.stop_mining();
    assert_eq!(request.headers.len(), 1);
    assert_eq!(request.headers[0].name, "Authorization");
}

#[test]
fn empty_credential_is_still_sent() {
    let sdk = StratSDK::new(StratSDKConfig {
        api_url: "https://node.example".to_string(),
        api_key: Some(String::new()),
        timeout: Duration::from_secs(5),
    })
    .unwrap();
    let request = sdk.health_check();
    assert_eq!(request.headers.len(), 1);
    assert_eq!(request.headers[0].name, "Authorization");
    assert_eq!(request.headers[0].value, "Bearer ");
}

#[test]
fn url_is_base_and_path_as_given() {
    let sdk = StratSDK::new(StratSDKConfig {
        api_url: "http://host/".to_string(),
        api_key: None,
        timeout: Duration::from_secs(5),
    })
    .unwrap();
    let request = sdk.request(HttpMethod::Get, "/health", None);
    assert_eq!(request.url, "http://host//health");
    let request = sdk.request(HttpMethod::Post, "health", None);
    assert_eq!(request.method, HttpMethod::Post);
    assert_eq!(request.url, "http://host/health");
    let request = sdk.request(HttpMethod::Get, "", None);
    assert_eq!(request.url, "http://host/");
}

#[test]
fn request_carries_the_body_unchanged() {
    let sdk = StratSDK::with_default().unwrap();
    let body = serde_json::from_str::<serde_json::Value>(r#"{"a":[1,2.5,"x",null]}"#).unwrap();
    let request = sdk.request(HttpMethod::Post, "/x", Some(body.clone()));
    assert_eq!(request.body, Some(body));
    assert_eq!(request.headers.len(), 1);
    assert_eq!(request.headers[0].name, "Content-Type");
    assert_eq!(request.headers[0].value, "application/json");
}
