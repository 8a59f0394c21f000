use span_pipeline::span::{request_span, OpenSpan, SpanStatus};

#[test]
fn open_span_records_attributes_and_status_then_seals() {
    let mut open = OpenSpan::begin("db query".to_string(), 10, Some(7));
    open.set_attribute("db.system".to_string(), "postgres".to_string());
    open.set_attribute("db.rows".to_string(), "3".to_string());
    open.set_status(SpanStatus::Completed);
    let sealed = open.finish(25);
    assert_eq!(sealed.name, "db query");
    assert_eq!(sealed.start, 10);
    assert_eq!(sealed.end, 25);
    assert_eq!(sealed.parent, Some(7));
    assert_eq!(sealed.status, SpanStatus::Completed);
    assert_eq!(
        sealed.attributes,
        vec![
            ("db.system".to_string(), "postgres".to_string()),
            ("db.rows".to_string(), "3".to_string()),
        ]
    );
}

#[test]
fn request_span_carries_the_standard_http_attributes() {
    let s = request_span("GET".to_string(), "/hello".to_string(), 200, 100, 140);
    assert_eq!(s.name, "HTTP request");
    assert_eq!(s.start, 100);
    assert_eq!(s.end, 140);
    assert_eq!(
        s.attributes,
        vec![
            ("http.method".to_string(), "GET".to_string()),
            ("http.target".to_string(), "/hello".to_string()),
        ]
    );
    assert_eq!(s.status, SpanStatus::Completed);
    assert_eq!(s.parent, None);
}

#[test]
fn request_span_marks_server_errors_as_failed() {
    let s = request_span("GET".to_string(), "/hello".to_string(), 503, 100, 140);
    assert_eq!(s.status, SpanStatus::Failed);
}
