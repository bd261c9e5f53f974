//! Reports of failures.

use grok_build_proxy::events::{FailureKind, RequestDiagnostics};
use grok_build_proxy::report::{
    count, export_body, fallback_outcome, render_json, render_markdown, summary_counts,
    written_outcome, ExportOutcome, ReportMeta,
};
use grok_build_proxy::store::FailureRecord;
use serde_json::Value;

/// Noon on 18 July 2026.
const NOON: i64 = 1_784_376_000_000_000_000;

fn sample_record(kind: FailureKind, session: &str, req: &str) -> FailureRecord {
    FailureRecord {
        ts: NOON + 2_096_000_000_000,
        request_id: req.into(),
        session_id: session.into(),
        requested_model: "alias".into(),
        model: "gpt-test".into(),
        provider: "codex".into(),
        status_code: 502,
        duration_ms: 1823,
        kind,
        error_type: "upstream_http".into(),
        error_message: "bad gateway".into(),
        response_id: "resp_x".into(),
        mapped: true,
        lite: true,
        fast: false,
        auth_retried: false,
        attempt: 1,
        output_count: 2,
        capture_bytes: 4096,
        session_failure_index: 1,
        diagnostics: RequestDiagnostics::none(),
        retry_candidate: false,
    }
}

#[test]
fn markdown_includes_meta_summary_and_fields() {
    let mut assemble = sample_record(FailureKind::ProxyAssemble, "sess-a", "req-1");
    assemble.error_type = "proxy_incomplete_output".into();
    assemble.error_message = "could not assemble".into();
    assemble.status_code = 200;
    let mut third = sample_record(FailureKind::ProxyAssemble, "sess-b", "req-3");
    third.error_type = "proxy_incomplete_output".into();
    let records =
        [assemble, sample_record(FailureKind::UpstreamHttp, "sess-a", "req-2"), third];

    let meta = ReportMeta {
        version: "0.0.12".into(),
        listen: "127.0.0.1:18765".into(),
        generated: NOON,
        filter: "All".into(),
    };
    let md = render_markdown(&records, &meta);
    assert!(md.contains("# grok-build-proxy failure report"));
    assert!(md.contains("version: 0.0.12"));
    assert!(md.contains("listen: 127.0.0.1:18765"));
    assert!(md.contains("filter: All"));
    assert!(md.contains("| ProxyAssemble | 2 |"));
    assert!(md.contains("| UpstreamHttp | 1 |"));
    assert!(md.contains("request_id: req-1"));
    assert!(md.contains("session_id: sess-a"));
    assert!(md.contains("duration_ms: 1823"));
    assert!(md.contains("auth_retried: false"));
    assert!(md.contains("capture_bytes: 4096"));
    assert!(md.contains("(no prompt/response body included)"));
    assert!(md.contains("2026-07-18T12:34:56+00:00"));
    assert!(!md.to_lowercase().contains("authorization"));
    assert!(!md.contains("refresh_token"));
    assert!(!md.contains("access_token"));
    assert!(!md.contains("prompt:"));
    assert!(!md.contains("\"prompt\""));
}

#[test]
fn json_round_shape_and_no_secrets() {
    let records = vec![sample_record(FailureKind::AuthRetryFailed, "s", "r")];
    let meta = ReportMeta::new("0.0.12", "127.0.0.1:1", "Auth", NOON);
    let s = render_json(&records, &meta);
    let v: Value = serde_json::from_str(&s).expect("valid json");
    assert_eq!(v["meta"]["filter"], "Auth");
    assert_eq!(v["meta"]["failure_count"], 1);
    assert_eq!(v["meta"]["summary"]["AuthRetryFailed"], 1);
    assert_eq!(v["failures"][0]["kind"], "AuthRetryFailed");
    assert_eq!(v["failures"][0]["request_id"], "r");
    let text = s.to_lowercase();
    assert!(!text.contains("authorization"));
    assert!(!text.contains("refresh_token"));
    assert!(!text.contains("\"prompt\""));
}

#[test]
fn empty_report_still_valid() {
    let meta = ReportMeta::new("0.0.12", "127.0.0.1:1", "Stream", NOON);
    let md = render_markdown(&[], &meta);
    assert!(md.contains("last 0 failures"));
    assert!(md.contains("_(no failures"));
    let j = render_json(&[], &meta);
    let v: Value = serde_json::from_str(&j).unwrap();
    assert_eq!(v["meta"]["failure_count"], 0);
    assert!(v["failures"].as_array().unwrap().is_empty());
}

#[test]
fn export_empty_is_empty_outcome() {
    let meta = ReportMeta::new("0.0.12", "l", "All", NOON);
    assert!(export_body(&[], &meta, false).is_none());
    assert!(export_body(&[], &meta, true).is_none());
    assert_eq!(ExportOutcome::Empty.toast(), "no failures to export (current filter)");
}

#[test]
fn summaries_count_every_record() {
    let records = [
        sample_record(FailureKind::StreamIo, "s", "a"),
        sample_record(FailureKind::StreamIo, "s", "b"),
        sample_record(FailureKind::Unknown, "s", "c"),
    ];
    assert_eq!(summary_counts(&records), vec![("StreamIo", 2), ("Unknown", 1)]);
    assert_eq!(count(&records, FailureKind::StreamIo), 2);
    let meta = ReportMeta::new("v", "l", "All", NOON);
    assert_eq!(export_body(&records, &meta, false), Some(render_markdown(&records, &meta)));
    assert_eq!(export_body(&records, &meta, true), Some(render_json(&records, &meta)));
}

#[test]
fn exports_are_told() {
    let copied = ExportOutcome::Copied { count: 2, json: false };
    assert!(copied.toast().contains("2"));
    let written = written_outcome(1, true, Ok("/tmp/x.json".into()));
    assert!(written.toast().contains("/tmp/x.json"));
    assert!(matches!(written_outcome(1, true, Err("full".into())), ExportOutcome::Error(_)));
    assert!(matches!(
        fallback_outcome(1, false, "no clipboard", Ok("/tmp/x.md".into())),
        ExportOutcome::Written { .. }
    ));
    match fallback_outcome(1, false, "no clipboard", Err("full".into())) {
        ExportOutcome::Error(e) => assert!(e.contains("no clipboard") && e.contains("full")),
        _ => panic!("no error"),
    }
}
