//! Configuration builder tests.

use outlit::OutlitBuilder;
use outlit::DEFAULT_API_HOST;
use outlit::DEFAULT_FLUSH_INTERVAL_MS;
use outlit::DEFAULT_MAX_BATCH_SIZE;
use outlit::DEFAULT_TIMEOUT_MS;
use outlit::Error;

#[test]
fn test_builder_defaults() {
    let config = OutlitBuilder::new("pk_test".to_string()).build_config().unwrap();

    assert_eq!(config.public_key(), "pk_test");
    assert_eq!(config.api_host(), DEFAULT_API_HOST);
    assert_eq!(config.flush_interval(), DEFAULT_FLUSH_INTERVAL_MS);
    assert_eq!(config.max_batch_size(), DEFAULT_MAX_BATCH_SIZE);
    assert_eq!(config.timeout(), DEFAULT_TIMEOUT_MS);
}

#[test]
fn test_builder_custom_values() {
    let config = OutlitBuilder::new("pk_test".to_string())
        .api_host("https://custom.example.com".to_string())
        .flush_interval(5000)
        .max_batch_size(50)
        .timeout(30000)
        .build_config()
        .unwrap();

    assert_eq!(config.api_host(), "https://custom.example.com");
    assert_eq!(config.flush_interval(), 5000);
    assert_eq!(config.max_batch_size(), 50);
    assert_eq!(config.timeout(), 30000);
}

#[test]
fn test_builder_empty_public_key_fails() {
    let result = OutlitBuilder::new("".to_string()).build_config();
    assert!(result.is_err());
}

#[test]
fn test_builder_accepts_string_and_str() {
    // from a string literal
    let _ = OutlitBuilder::new("pk_test".to_string());
    // from an owned String value
    let _ = OutlitBuilder::new(String::from("pk_test"));
    // Same for api_host
    let _ = OutlitBuilder::new("pk_test".to_string()).api_host("https://example.com".to_string());
    let _ = OutlitBuilder::new("pk_test".to_string()).api_host(String::from("https://example.com"));
}

#[test]
fn test_empty_public_key_error_variant() {
    let result = OutlitBuilder::new("".to_string()).build_config();
    match result {
        Err(Error::Config(message)) => assert_eq!(message, "public_key cannot be empty"),
        _ => panic!("Expected a configuration error"),
    }
}
