use span_pipeline::config::resolve;
use span_pipeline::errors::TransportError;
use span_pipeline::exporter::build;

fn resolved(credential: &str) -> span_pipeline::config::Config {
    resolve(
        Some("https://collector.example:4317".to_string()),
        Some(credential.to_string()),
    )
    .unwrap()
}

#[test]
fn build_binds_endpoint_tls_identity_and_credential() {
    let plan = build(resolved("tok-123"), "lab_honeycomb_service".to_string()).unwrap();
    assert_eq!(plan.endpoint, "https://collector.example:4317");
    assert_eq!(plan.tls_server_name, "collector.example");
    assert_eq!(plan.header_key, "x-honeycomb-team");
    assert_eq!(plan.header_value, "tok-123");
    assert_eq!(
        plan.resource,
        vec![("service.name".to_string(), "lab_honeycomb_service".to_string())]
    );
}

#[test]
fn build_rejects_control_characters_in_credential() {
    let err = build(resolved("tok\n123"), "svc".to_string()).unwrap_err();
    assert_eq!(err, TransportError::CredentialNotAscii);
    assert_eq!(err.message(), "credential is not a valid header value");
}

#[test]
fn build_rejects_delete_character_in_credential() {
    let err = build(resolved("tok\u{7f}"), "svc".to_string()).unwrap_err();
    assert_eq!(err, TransportError::CredentialNotAscii);
}

#[test]
fn build_accepts_spaces_tabs_and_non_ascii_bytes() {
    // Header-value encoding rejects only the C0 controls (except horizontal
    // tab) and delete; spaces and multi-byte characters pass.
    let plan = build(resolved("tok 123\t\u{e9}"), "svc".to_string()).unwrap();
    assert_eq!(plan.header_value, "tok 123\t\u{e9}");
}
