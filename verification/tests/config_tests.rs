use span_pipeline::config::resolve;
use span_pipeline::errors::ConfigError;

#[test]
fn resolve_accepts_valid_endpoint_and_credential() {
    let cfg = resolve(
        Some("https://collector.example:4317".to_string()),
        Some("tok-123".to_string()),
    )
    .unwrap();
    assert_eq!(cfg.endpoint.url, "https://collector.example:4317");
    assert_eq!(cfg.endpoint.host, "collector.example");
    assert_eq!(cfg.credential, "tok-123");
}

#[test]
fn resolve_missing_endpoint_names_the_key() {
    let err = resolve(None, Some("tok-123".to_string())).unwrap_err();
    assert_eq!(err, ConfigError::EndpointMissing);
    assert_eq!(err.message(), "endpoint missing");
}

#[test]
fn resolve_missing_credential_names_the_key() {
    let err = resolve(Some("https://collector.example:4317".to_string()), None).unwrap_err();
    assert_eq!(err, ConfigError::CredentialMissing);
    assert_eq!(err.message(), "credential missing");
}

#[test]
fn resolve_rejects_malformed_endpoint() {
    let err = resolve(Some("not a url".to_string()), Some("tok-123".to_string())).unwrap_err();
    assert_eq!(err, ConfigError::EndpointInvalid);
    assert_eq!(err.message(), "endpoint is not a valid url");
}

#[test]
fn resolve_rejects_endpoint_without_host() {
    let err = resolve(
        Some("mailto:someone@example.com".to_string()),
        Some("tok-123".to_string()),
    )
    .unwrap_err();
    assert_eq!(err, ConfigError::EndpointHostMissing);
    assert_eq!(err.message(), "endpoint has no host");
}

#[test]
fn resolve_hands_back_the_parsed_host_not_the_input() {
    // URL parsing lowercases the host: the stored host comes out of the
    // parser, not out of the raw endpoint string.
    let cfg = resolve(
        Some("HTTPS://COLLECTOR.Example:4317/v1/traces".to_string()),
        Some("tok-123".to_string()),
    )
    .unwrap();
    assert_eq!(cfg.endpoint.host, "collector.example");
    assert_eq!(cfg.endpoint.url, "HTTPS://COLLECTOR.Example:4317/v1/traces");
}
