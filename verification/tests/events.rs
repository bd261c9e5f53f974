//! What a stream's end says of a request, and texts that are made safe to show.

use grok_build_proxy::events::{
    classify_stream_end, parse_capture_diagnostics, sanitize, sanitize_id, CaptureDiagnostics,
    FailureKind, RequestEventKind,
};

#[test]
fn classifies_proxy_incomplete_on_2xx() {
    let sse = r#"event: error
data: {"type":"error","error":{"type":"proxy_incomplete_output","message":"The proxy could not safely assemble a terminal response."}}

"#;
    let diag = parse_capture_diagnostics(sse.as_bytes());
    assert!(diag.has_proxy_error);
    assert_eq!(diag.error_type, "proxy_incomplete_output");
    let (kind, fk, et, _) = classify_stream_end(true, None, &diag);
    assert_eq!(kind, RequestEventKind::Failed);
    assert_eq!(fk, Some(FailureKind::ProxyAssemble));
    assert_eq!(et, "proxy_incomplete_output");
}

#[test]
fn classifies_response_failed() {
    let sse = r#"event: response.failed
data: {"type":"response.failed","response":{"id":"resp_abc","error":{"type":"server_error","message":"boom"}}}

"#;
    let diag = parse_capture_diagnostics(sse.as_bytes());
    assert!(diag.has_stream_terminal_failure);
    assert_eq!(diag.response_id, "resp_abc");
    let (kind, fk, et, msg) = classify_stream_end(true, None, &diag);
    assert_eq!(kind, RequestEventKind::Failed);
    assert_eq!(fk, Some(FailureKind::StreamTerminalFailed));
    assert_eq!(et, "server_error");
    assert!(msg.contains("boom"));
}

#[test]
fn classifies_response_incomplete() {
    let sse = r#"event: response.incomplete
data: {"type":"response.incomplete","response":{"id":"resp_inc","status":"incomplete"}}

"#;
    let diag = parse_capture_diagnostics(sse.as_bytes());
    assert!(diag.has_stream_terminal_failure);
    assert!(!diag.has_proxy_error);
    let (kind, fk, et, _) = classify_stream_end(true, None, &diag);
    assert_eq!(kind, RequestEventKind::Failed);
    assert_eq!(fk, Some(FailureKind::StreamTerminalFailed));
    assert_eq!(et, "response.incomplete");
    assert_eq!(diag.response_id, "resp_inc");
}

#[test]
fn classifies_response_incomplete_with_nested_error_type() {
    let sse = r#"event: response.incomplete
data: {"type":"response.incomplete","response":{"id":"resp_inc","error":{"type":"max_output_tokens","message":"hit limit"}}}

"#;
    let diag = parse_capture_diagnostics(sse.as_bytes());
    let (kind, fk, et, msg) = classify_stream_end(true, None, &diag);
    assert_eq!(kind, RequestEventKind::Failed);
    assert_eq!(fk, Some(FailureKind::StreamTerminalFailed));
    assert_eq!(et, "max_output_tokens");
    assert!(msg.contains("hit limit"));
}

#[test]
fn classifies_stream_io() {
    let diag = CaptureDiagnostics::default();
    let (kind, fk, et, msg) = classify_stream_end(true, Some("connection reset"), &diag);
    assert_eq!(kind, RequestEventKind::Failed);
    assert_eq!(fk, Some(FailureKind::StreamIo));
    assert_eq!(et, "stream_io");
    assert!(msg.contains("connection reset"));
}

#[test]
fn sanitize_id_is_lossless_and_control_safe() {
    let newline = sanitize_id("session\n");
    let literal = sanitize_id("session\\n");
    assert_eq!(newline, "session\\n");
    assert_eq!(literal, "session\\\\n");
    assert_ne!(newline, literal);
    assert!(!newline.contains('\n'));
}

#[test]
fn sanitize_strips_control_and_caps() {
    let s = sanitize(&format!("a\nb{}", "x".repeat(300)));
    assert!(!s.contains('\n'));
    assert!(s.ends_with('…'));
    assert!(s.chars().count() <= 256);
}

#[test]
fn success_with_clean_capture() {
    let sse = r#"event: response.completed
data: {"type":"response.completed","response":{"id":"resp_ok","output":[{"type":"message"}]}}

"#;
    let diag = parse_capture_diagnostics(sse.as_bytes());
    assert!(diag.has_completed);
    assert!(diag.has_terminal_end());
    let (kind, fk, _, _) = classify_stream_end(true, None, &diag);
    assert_eq!(kind, RequestEventKind::Completed);
    assert_eq!(fk, None);
    assert_eq!(diag.response_id, "resp_ok");
}

#[test]
fn content_mentioning_proxy_mode_does_not_fail() {
    let sse = r#"event: response.output_text.delta
data: {"type":"response.output_text.delta","delta":"configure proxy_mode now"}

event: response.completed
data: {"type":"response.completed","response":{"id":"resp_ok","output":[{"type":"message","content":[{"type":"output_text","text":"configure proxy_mode now"}]}]}}

"#;
    let diag = parse_capture_diagnostics(sse.as_bytes());
    assert!(!diag.has_proxy_error);
    assert!(!diag.has_stream_terminal_failure);
    let (kind, fk, _, _) = classify_stream_end(true, None, &diag);
    assert_eq!(kind, RequestEventKind::Completed);
    assert_eq!(fk, None);
}

#[test]
fn embedded_error_json_in_completed_output_does_not_fail() {
    let sse = r#"event: response.completed
data: {"type":"response.completed","response":{"id":"resp_ok","output":[{"type":"message","content":[{"type":"output_text","text":"{\"error\":{\"type\":\"proxy_incomplete_output\",\"message\":\"nope\"}}"}]}]}}

"#;
    let diag = parse_capture_diagnostics(sse.as_bytes());
    assert!(!diag.has_proxy_error);
    let (kind, fk, _, _) = classify_stream_end(true, None, &diag);
    assert_eq!(kind, RequestEventKind::Completed);
    assert_eq!(fk, None);
}

#[test]
fn plain_json_upstream_error_body() {
    let body = r#"{"error":{"type":"invalid_request_error","message":"bad model"}}"#;
    let diag = parse_capture_diagnostics(body.as_bytes());
    assert_eq!(diag.error_type, "invalid_request_error");
    assert!(!diag.has_proxy_error);
    let (kind, fk, et, msg) = classify_stream_end(false, None, &diag);
    assert_eq!(kind, RequestEventKind::Failed);
    assert_eq!(fk, Some(FailureKind::UpstreamHttp));
    assert_eq!(et, "invalid_request_error");
    assert!(msg.contains("bad model"));
}
