//! Requests on their way upstream, and what is told of the answers.

use grok_build_proxy::catalog::Catalog;
use grok_build_proxy::events::{FailureKind, RequestEvent, RequestEventKind, TokenUsage};
use grok_build_proxy::modelmap::ModelMap;
use grok_build_proxy::provider::Provider;
use grok_build_proxy::proxy::codex::codex_compat_body_for_identity;
use grok_build_proxy::proxy::context::extract_session_context;
use grok_build_proxy::proxy::headers::Headers;
use grok_build_proxy::proxy::identity::UpstreamIdentity;
use grok_build_proxy::proxy::respond::{
    as_retried, body_too_large, check_entry, codex_headers, kimi_headers, kimi_refusal,
    kimi_whole, plan_response, prepare, retries, upstream_failure, Handling, ResponseStream,
    Stage,
};
use grok_build_proxy::proxy::routes::{
    health, models, ready_answer, ready_either, ready_step, Outcome, ReadyStep, Reply,
};
use grok_build_proxy::proxy::stream::{
    failure_event, kimi_upstream_error, stream_end_event, StreamObserveGuard, CAPTURE_BYTES,
};
use grok_build_proxy::proxy::{
    check_config, codex_compat_body, is_loopback_listen, may_listen, normalize_sse,
    transform_request, CompatMode, KimiConfig, TransformedRequest,
    DEFAULT_CODEX_COMPATIBILITY_VERSION,
};
use serde_json::Value;

const NOW: u64 = 1_000_000_000_000;

fn value(bytes: &[u8]) -> Value {
    serde_json::from_slice(bytes).unwrap()
}

fn headers(fields: &[(&str, &str)]) -> Headers {
    let mut out = Headers::new();
    for (name, text) in fields {
        out.push(name, Some(text.to_string()));
    }
    out
}

fn transform(raw: &str) -> TransformedRequest {
    transform_request(raw.as_bytes(), &Catalog::default(), &ModelMap::default()).unwrap()
}

fn refused(raw: &str) -> String {
    transform_request(raw.as_bytes(), &Catalog::default(), &ModelMap::default()).unwrap_err()
}

fn reply(r: &Reply) -> Value {
    serde_json::from_str(&r.body.encode()).unwrap()
}

fn header(list: &[(&'static str, String)], name: &str) -> Option<String> {
    list.iter().find(|h| h.0 == name).map(|h| h.1.clone())
}

#[test]
fn transforms_lite() {
    let t = transform(
        r#"{"model":"gpt-5.6-sol","input":"hi","instructions":"dev","tools":[{"type":"function"}]}"#,
    );
    let v = value(&t.body);
    assert_eq!(v["parallel_tool_calls"], false);
    assert_eq!(v["input"][0]["type"], "additional_tools");
    assert!(v["input"][0].get("id").is_none());
    let wire = value(&codex_compat_body(&t.body, "session", true).unwrap());
    assert!(wire["input"][0].get("id").is_none());
    assert_eq!(wire["input"][0]["type"], "additional_tools");
    assert_eq!(v["input"][1]["role"], "developer");
    assert_eq!(v["input"][2]["role"], "user");
}

#[test]
fn extracts_latest_user_prompt_and_metadata_cwd() {
    let context = extract_session_context(
        br#"{
      "client_metadata":{"cwd":"/tmp/project"},
      "input":[
          {"role":"user","content":[{"type":"input_text","text":"older"}]},
          {"role":"assistant","content":[{"type":"output_text","text":"answer"}]},
          {"role":"user","content":[{"type":"input_text","text":"latest"},{"type":"input_text","text":"prompt"}]}
      ]
  }"#,
        &Headers::new(),
    );
    assert_eq!(context.last_prompt, "latest prompt");
    assert_eq!(context.cwd, "/tmp/project");
}

#[test]
fn extracts_environment_cwd_with_header_precedence() {
    let raw = br#"{
  "model":"gpt-5.6-sol",
  "input":[
      {"role":"developer","content":[{"type":"input_text","text":"<environment_context><cwd>/from/body</cwd></environment_context>"}]},
      {"role":"user","content":[{"type":"input_text","text":"hello"}]}
  ]
        }"#;
    let body_context = extract_session_context(raw, &Headers::new());
    assert_eq!(body_context.cwd, "/from/body");

    let header_context =
        extract_session_context(raw, &headers(&[("x-codex-cwd", "/from/header")]));
    assert_eq!(header_context.cwd, "/from/header");
}

#[test]
fn normalizes_terminal() {
    let input=b"event: response.output_text.delta\ndata: {\"type\":\"response.output_text.delta\",\"delta\":\"hello\"}\n\nevent: response.completed\ndata: {\"type\":\"response.completed\",\"response\":{\"output\":[]}}\n\n";
    let out = normalize_sse(input, CompatMode::Full, "gpt-5.6-sol", "r");
    let s = String::from_utf8(out).unwrap();
    assert!(s.contains("hello"));
    assert!(s.contains("sequence_number"));
    assert!(s.contains("output_text"));
}

#[test]
fn loopback_policy() {
    assert!(is_loopback_listen("127.0.0.1:123"));
    assert!(is_loopback_listen("[::1]:123"));
    assert!(!is_loopback_listen("0.0.0.0:123"));
}

#[test]
fn open_addresses_need_a_token() {
    assert!(may_listen("127.0.0.1:1", ""));
    assert!(may_listen("localhost:1", ""));
    assert!(!may_listen("0.0.0.0:1", "  "));
    assert!(may_listen("0.0.0.0:1", "secret"));
    assert!(!is_loopback_listen("127.0.0.1"));
    assert!(!is_loopback_listen("192.168.0.1:80"));
}

#[test]
fn non_lite_string_input_reaches_codex_shape() {
    let transformed = transform(r#"{"model":"gpt-5.5","input":"hello"}"#);
    let value = value(&codex_compat_body(&transformed.body, "session", false).unwrap());
    assert_eq!(value["input"][0]["role"], "user");
    assert_eq!(value["input"][0]["content"][0]["text"], "hello");
}

#[test]
fn normalizes_codex_contract() {
    let raw=br#"{"model":"gpt-5.6-sol","input":[{"type":"message","role":"system","id":"drop","content":[{"type":"input_image","detail":"high"}]}],"temperature":1,"tool_choice":"required"}"#;
    let value = value(&codex_compat_body(raw, "session", false).unwrap());
    assert!(value.get("temperature").is_none());
    assert_eq!(value["input"][0]["role"], "developer");
    assert!(value["input"][0].get("id").is_none());
    assert!(value["input"][0]["content"][0].get("detail").is_none());
    assert_eq!(value["prompt_cache_key"], "session");
    assert_eq!(value["tool_choice"], "required");
}

#[test]
fn nothing_unknown_is_sent() {
    let raw = br#"{"model":"gpt-5.5","input":"hi","store":true,"top_p":1,"reasoning":{"effort":"high"},"max_output_tokens":3}"#;
    let value = value(&codex_compat_body(raw, "session", false).unwrap());
    assert_eq!(value["store"], false);
    assert!(value.get("top_p").is_none());
    assert!(value.get("max_output_tokens").is_none());
    assert_eq!(value["reasoning"]["effort"], "high");
    assert!(codex_compat_body(b"[1]", "session", false).is_err());
}

fn cache_identity(thread_id: &str, request_id: &str, cache_key: Option<&str>) -> UpstreamIdentity {
    UpstreamIdentity {
        thread_id: thread_id.into(),
        request_id: request_id.into(),
        cache_key: cache_key.map(str::to_owned),
    }
}

#[test]
fn preserves_valid_gpt_5_6_prompt_cache_fields_and_thread_metadata() {
    let identity = cache_identity("session-thread", "turn-request", Some("conversation-cache"));
    let raw = br#"{"model":"gpt-5.6-sol","input":"hello","prompt_cache_key":"explicit-cache","prompt_cache_options":{"mode":"explicit","ttl":"30m"},"client_metadata":{}}"#;
    let value = value(&codex_compat_body_for_identity(raw, &identity, false).unwrap());
    assert_eq!(value["prompt_cache_key"], "explicit-cache");
    assert_eq!(value["prompt_cache_options"]["mode"], "explicit");
    assert_eq!(value["prompt_cache_options"]["ttl"], "30m");
    assert!(value.get("prompt_cache_retention").is_none());
    assert_eq!(value["client_metadata"]["session_id"], "session-thread");
    assert_eq!(value["client_metadata"]["thread_id"], "session-thread");
    assert_eq!(value["client_metadata"]["window_id"], "session-thread:0");
}

#[test]
fn preserves_valid_pre_gpt_5_6_prompt_cache_retention() {
    for (model, retention) in [("gpt-5.5", "24h"), ("gpt-5.2", "in_memory")] {
        let raw = format!(
            r#"{{"model":"{model}","input":"hello","prompt_cache_retention":"{retention}"}}"#
        );
        let value = value(
            &codex_compat_body_for_identity(
                raw.as_bytes(),
                &cache_identity("session", "request", None),
                false,
            )
            .unwrap(),
        );
        assert_eq!(value["prompt_cache_retention"], retention);
        assert!(value.get("prompt_cache_options").is_none());
    }
}

#[test]
fn prompt_cache_key_has_64_character_boundary() {
    let valid_key = "a".repeat(64);
    let raw =
        format!(r#"{{"model":"gpt-5.6-sol","input":"hello","prompt_cache_key":"{valid_key}"}}"#);
    let transformed = transform(&raw);
    assert_eq!(value(&transformed.body)["prompt_cache_key"], valid_key);

    let invalid_key = "a".repeat(65);
    let raw = format!(
        r#"{{"model":"gpt-5.6-sol","input":"hello","prompt_cache_key":"{invalid_key}"}}"#
    );
    assert_eq!(refused(&raw), "prompt_cache_key must be at most 64 characters");
}

#[test]
fn rejects_malformed_prompt_cache_fields() {
    let cases = [
        (
            r#"{"model":"gpt-5.6-sol","input":"hello","prompt_cache_key":17}"#,
            "prompt_cache_key must be a string",
        ),
        (
            r#"{"model":"gpt-5.6-sol","input":"hello","prompt_cache_key":"key","prompt_cache_options":true}"#,
            "prompt_cache_options must be an object",
        ),
        (
            r#"{"model":"gpt-5.6-sol","input":"hello","prompt_cache_key":"key","prompt_cache_options":{"mode":"auto"}}"#,
            "prompt_cache_options.mode must be \"implicit\" or \"explicit\"",
        ),
        (
            r#"{"model":"gpt-5.6-sol","input":"hello","prompt_cache_key":"key","prompt_cache_options":{"mode":17}}"#,
            "prompt_cache_options.mode must be \"implicit\" or \"explicit\"",
        ),
        (
            r#"{"model":"gpt-5.6-sol","input":"hello","prompt_cache_key":"key","prompt_cache_options":{"ttl":"24h"}}"#,
            "prompt_cache_options.ttl must be \"30m\"",
        ),
        (
            r#"{"model":"gpt-5.6-sol","input":"hello","prompt_cache_key":"key","prompt_cache_options":{"ttl":30}}"#,
            "prompt_cache_options.ttl must be \"30m\"",
        ),
        (
            r#"{"model":"gpt-5.6-sol","input":"hello","prompt_cache_key":"key","prompt_cache_options":{"mode":"implicit","extra":true}}"#,
            "unsupported prompt_cache_options field \"extra\"",
        ),
        (
            r#"{"model":"gpt-5.6-sol","input":"hello","prompt_cache_retention":"24h"}"#,
            "prompt_cache_retention is not supported for GPT-5.6 models and later; use prompt_cache_options.ttl",
        ),
        (
            r#"{"model":"gpt-6","input":"hello","prompt_cache_retention":"24h"}"#,
            "prompt_cache_retention is not supported for GPT-5.6 models and later; use prompt_cache_options.ttl",
        ),
        (
            r#"{"model":"gpt-5.5","input":"hello","prompt_cache_options":{"mode":"implicit"}}"#,
            "prompt_cache_options is only supported for GPT-5.6 models and later",
        ),
        (
            r#"{"model":"gpt-5.5","input":"hello","prompt_cache_retention":"in_memory"}"#,
            "prompt_cache_retention must be \"24h\" for GPT-5.5 models",
        ),
        (
            r#"{"model":"gpt-5.5-pro","input":"hello","prompt_cache_retention":"in_memory"}"#,
            "prompt_cache_retention must be \"24h\" for GPT-5.5 models",
        ),
        (
            r#"{"model":"gpt-5.2","input":"hello","prompt_cache_retention":"forever"}"#,
            "prompt_cache_retention must be \"in_memory\" or \"24h\"",
        ),
    ];
    for (raw, expected) in cases {
        assert_eq!(refused(raw), expected);
    }
}

#[test]
fn handler_rejects_malformed_prompt_cache_policy_locally() {
    let refused = prepare(
        br#"{"model":"gpt-5.6-sol","input":"hi","prompt_cache_key":"key","prompt_cache_options":{"mode":"auto"}}"#,
        &Headers::new(),
        &Catalog::default(),
        &ModelMap::default(),
        "request",
        NOW,
    )
    .unwrap_err();
    assert_eq!(refused.status, 400);
    let body = reply(&refused);
    assert_eq!(body["error"]["type"], "invalid_request_error");
    assert_eq!(
        body["error"]["message"],
        "prompt_cache_options.mode must be \"implicit\" or \"explicit\""
    );
}

#[test]
fn bearer_protects_models_but_not_health() {
    let map = ModelMap::default();
    let catalog = Catalog::default();
    let healthy = health(true, "test", &map);
    assert_eq!(healthy.status, 200);
    assert_eq!(reply(&healthy)["service"], "grok-build-proxy");
    assert_eq!(health(false, "test", &map).status, 405);
    let denied = models("secret", &Headers::new(), true, &map, &catalog);
    assert_eq!(denied.status, 401);
    assert!(denied.authenticate.is_some());
    let allowed =
        models("secret", &headers(&[("authorization", "Bearer secret")]), true, &map, &catalog);
    assert_eq!(allowed.status, 200);
    let wrong =
        models("secret", &headers(&[("authorization", "Bearer secreT")]), true, &map, &catalog);
    assert_eq!(wrong.status, 401);
}

#[test]
fn mapped_kimi_fast_suffix_is_advertised_as_standard() {
    let map = ModelMap::parse("alias-fast=kimi-for-coding").unwrap();
    let body = reply(&models("", &Headers::new(), true, &map, &Catalog::default()));
    let model = body["data"]
        .as_array()
        .unwrap()
        .iter()
        .find(|model| model["id"] == "alias-fast")
        .unwrap();
    assert_eq!(model["owned_by"], "kimi");
    assert_eq!(model["target_model"], "kimi-for-coding");
    assert!(model.get("service_tier").is_none());
    assert!(!model["name"].as_str().unwrap().contains("Fast"));
}

#[test]
fn models_are_listed_with_their_fast_variants() {
    let map = ModelMap::parse("mine=gpt-5.6-sol").unwrap();
    let body = reply(&models("", &Headers::new(), true, &map, &Catalog::default()));
    let ids: Vec<String> = body["data"]
        .as_array()
        .unwrap()
        .iter()
        .map(|m| m["id"].as_str().unwrap().to_owned())
        .collect();
    let mut unique = ids.clone();
    unique.sort();
    unique.dedup();
    assert_eq!(unique.len(), ids.len());
    assert!(ids.iter().any(|id| id == "mine"));
    assert!(ids.iter().any(|id| id == "gpt-5.6-sol-fast"));
}

#[test]
fn readiness_is_asked_of_the_right_provider() {
    let none = Headers::new();
    assert!(matches!(ready_step("", &none, true, None, false), ReadyStep::Codex));
    assert!(matches!(ready_step("", &none, true, None, true), ReadyStep::Either));
    assert!(matches!(ready_step("", &none, true, Some("codex"), true), ReadyStep::Codex));
    assert!(matches!(ready_step("", &none, true, Some("kimi"), true), ReadyStep::Kimi));
    match ready_step("", &none, true, Some("kimi"), false) {
        ReadyStep::Answer(r) => {
            assert_eq!(r.status, 503);
            assert_eq!(reply(&r)["error"]["message"], "Kimi provider is not configured");
        }
        _ => panic!("no answer"),
    }
    match ready_step("", &none, true, Some("other"), true) {
        ReadyStep::Answer(r) => assert_eq!(r.status, 400),
        _ => panic!("no answer"),
    }
    match ready_step("secret", &none, true, None, true) {
        ReadyStep::Answer(r) => assert_eq!(r.status, 401),
        _ => panic!("no answer"),
    }
    let ready = ready_answer(Some("kimi"), None);
    assert_eq!(ready.status, 200);
    assert_eq!(reply(&ready)["provider"], "kimi");
    assert_eq!(ready_answer(None, Some("gone")).status, 503);
    let failed = || Outcome::Failed("no".into());
    assert!(ready_either(&failed(), &Outcome::Pending).is_none());
    assert_eq!(ready_either(&failed(), &Outcome::Ready).unwrap().status, 200);
    assert_eq!(ready_either(&Outcome::Ready, &Outcome::Pending).unwrap().status, 200);
    assert_eq!(ready_either(&failed(), &failed()).unwrap().status, 503);
}

#[test]
fn identity_selects_stable_cache_fallbacks_but_never_request_ids() {
    let all = headers(&[
        ("x-grok-session-id", "session-stable"),
        ("x-grok-conv-id", "conversation-stable"),
        ("x-grok-req-id", "request-unique"),
    ]);
    let identity = UpstreamIdentity::from_request(
        &all,
        br#"{"model":"gpt-5.6-sol","input":"hi"}"#,
        "proxy-request",
    );
    assert_eq!(identity.thread_id, "session-stable");
    assert_eq!(identity.request_id, "request-unique");
    assert_eq!(identity.cache_key.as_deref(), Some("conversation-stable"));

    let no_conversation =
        headers(&[("x-grok-session-id", "session-stable"), ("x-grok-req-id", "request-unique")]);
    let identity = UpstreamIdentity::from_request(&no_conversation, b"{}", "proxy-request");
    assert_eq!(identity.cache_key.as_deref(), Some("session-stable"));

    let no_session = headers(&[("x-grok-req-id", "request-unique")]);
    let identity = UpstreamIdentity::from_request(&no_session, b"{}", "proxy-request");
    assert_eq!(identity.thread_id, "request-unique");
    assert_eq!(identity.request_id, "request-unique");
    assert_eq!(identity.cache_key, None);

    let identity = UpstreamIdentity::from_request(&Headers::new(), b"{}", "proxy-request");
    assert_eq!(identity.thread_id, "proxy-request");
    assert_eq!(identity.request_id, "proxy-request");
    assert_eq!(identity.cache_key, None);
}

#[test]
fn upstream_keeps_thread_request_and_cache_routing_identities_separate() {
    let send = |fields: &[(&str, &str)], body: &str| {
        let incoming = headers(fields);
        let p = prepare(
            body.as_bytes(),
            &incoming,
            &Catalog::default(),
            &ModelMap::default(),
            "generated",
            NOW,
        )
        .unwrap();
        let list = codex_headers(
            &p.transformed,
            &p.identity,
            "test",
            DEFAULT_CODEX_COMPATIBILITY_VERSION,
            "",
            &incoming,
        );
        let wire =
            codex_compat_body_for_identity(&p.transformed.body, &p.identity, p.transformed.lite)
                .unwrap();
        (list, value(&wire))
    };
    let (list, body) = send(
        &[
            ("x-grok-session-id", "session-stable"),
            ("x-grok-conv-id", "conversation-stable"),
            ("x-grok-req-id", "request-unique"),
        ],
        r#"{"model":"gpt-5.6-sol","input":"hi","prompt_cache_key":"explicit-cache","prompt_cache_options":{"mode":"implicit","ttl":"30m"}}"#,
    );
    assert_eq!(header(&list, "session-id").as_deref(), Some("session-stable"));
    assert_eq!(header(&list, "thread-id").as_deref(), Some("session-stable"));
    assert_eq!(header(&list, "x-client-request-id").as_deref(), Some("request-unique"));
    assert_eq!(header(&list, "x-codex-window-id").as_deref(), Some("session-stable:0"));
    assert_eq!(header(&list, "x-session-affinity").as_deref(), Some("explicit-cache"));
    assert_eq!(body["prompt_cache_key"], "explicit-cache");
    assert_eq!(body["client_metadata"]["session_id"], "session-stable");
    assert_eq!(body["client_metadata"]["thread_id"], "session-stable");

    let (list, body) = send(
        &[
            ("x-grok-session-id", "session-fallback"),
            ("x-grok-conv-id", "conversation-fallback"),
            ("x-grok-req-id", "request-fallback"),
        ],
        r#"{"model":"gpt-5.6-sol","input":"hi"}"#,
    );
    assert_eq!(header(&list, "session-id").as_deref(), Some("session-fallback"));
    assert_eq!(header(&list, "thread-id").as_deref(), Some("session-fallback"));
    assert_eq!(header(&list, "x-client-request-id").as_deref(), Some("request-fallback"));
    assert_eq!(header(&list, "x-session-affinity").as_deref(), Some("conversation-fallback"));
    assert_eq!(body["prompt_cache_key"], "conversation-fallback");
    assert_eq!(body["client_metadata"]["session_id"], "session-fallback");

    let (list, body) = send(
        &[("x-grok-req-id", "request-only")],
        r#"{"model":"gpt-5.6-sol","input":"hi"}"#,
    );
    assert_eq!(header(&list, "session-id").as_deref(), Some("request-only"));
    assert_eq!(header(&list, "thread-id").as_deref(), Some("request-only"));
    assert_eq!(header(&list, "x-client-request-id").as_deref(), Some("request-only"));
    assert_eq!(header(&list, "x-session-affinity"), None);
    assert!(body.get("prompt_cache_key").is_none());
    assert_eq!(body["client_metadata"]["session_id"], "request-only");
}

fn sample_event() -> RequestEvent {
    RequestEvent::started(
        "req-1",
        "sess",
        "alias",
        "gpt-5.6-sol",
        true,
        true,
        false,
        NOW - 50_000_000,
    )
}

#[test]
fn observe_stream_end_marks_2xx_proxy_incomplete_as_failed() {
    let capture = br#"event: error
data: {"type":"error","sequence_number":3,"response_id":"resp_x","error":{"type":"proxy_incomplete_output","message":"The proxy could not safely assemble a complete Responses stream."}}

"#;
    let e = stream_end_event(sample_event(), 200, capture, None, None, NOW);
    assert_eq!(e.kind, RequestEventKind::Failed);
    assert_eq!(e.failure_kind, Some(FailureKind::ProxyAssemble));
    assert_eq!(e.error_type, "proxy_incomplete_output");
    assert_eq!(e.status_code, 200);
    assert_eq!(e.response_id, "resp_x");
    assert_eq!(e.usage, None);
    assert!(e.duration_ms >= 50);
    assert!(e.capture_bytes > 0);
}

#[test]
fn observe_stream_end_preserves_usage_fields() {
    let capture = b"event: response.completed\r\ndata: {\"type\":\"response.completed\",\"response\":{\"id\":\"resp_usage\",\"output\":[{\"type\":\"message\",\"content\":[{\"type\":\"output_text\",\"text\":\"ok\"}]}]}}\r\n\r\n";
    let usage = Some(TokenUsage {
        input_tokens: 100,
        cached_input_tokens: 60,
        cache_write_tokens: 25,
        output_tokens: 4,
    });
    let e = stream_end_event(sample_event(), 200, capture, usage, None, NOW);
    assert_eq!(
        e.usage,
        Some(TokenUsage {
            input_tokens: 100,
            cached_input_tokens: 60,
            cache_write_tokens: 25,
            output_tokens: 4,
        })
    );
    assert_eq!(e.output_tokens, 4);
}

#[test]
fn observe_stream_end_auth_retry_attempt() {
    let mut event = sample_event();
    event.auth_retried = true;
    event.attempt = 2;
    let e = stream_end_event(
        event,
        401,
        br#"{"error":{"type":"invalid_request_error","message":"unauthorized"}}"#,
        None,
        None,
        NOW,
    );
    assert_eq!(e.kind, RequestEventKind::Failed);
    assert_eq!(e.failure_kind, Some(FailureKind::AuthRetryFailed));
    assert_eq!(e.attempt, 2);
    assert!(e.auth_retried);
}

#[test]
fn observe_stream_end_stream_io() {
    let e = stream_end_event(sample_event(), 200, b"", None, Some("connection reset"), NOW);
    assert_eq!(e.failure_kind, Some(FailureKind::StreamIo));
    assert_eq!(e.kind, RequestEventKind::Failed);
}

#[test]
fn observe_stream_end_proxy_mode_in_content_stays_completed() {
    let capture = br#"event: response.completed
data: {"type":"response.completed","response":{"id":"resp_ok","output":[{"type":"message","content":[{"type":"output_text","text":"configure proxy_mode now"}]}]}}

"#;
    let e = stream_end_event(sample_event(), 200, capture, None, None, NOW);
    assert_eq!(e.kind, RequestEventKind::Completed);
    assert_eq!(e.failure_kind, None);
}

#[test]
fn observe_failure_sanitizes_and_auth_retry_kind() {
    let mut base = sample_event();
    base.auth_retried = true;
    base.attempt = 2;
    let e = failure_event(
        &base,
        FailureKind::AuthRetryFailed,
        "auth_retry_failed",
        &format!("connect error\n{}", "x".repeat(300)),
        502,
        NOW,
    );
    assert_eq!(e.failure_kind, Some(FailureKind::AuthRetryFailed));
    assert_eq!(e.attempt, 2);
    assert!(!e.error.contains('\n'));
    assert!(e.error.chars().count() <= 256);
    assert_eq!(e.error_type, "auth_retry_failed");
}

#[test]
fn stream_observe_guard_emits_on_drop() {
    let mut guard = StreamObserveGuard::new(sample_event(), 200, true);
    guard.capture_chunk(b"partial");
    let e = guard.abandon(NOW).unwrap();
    assert_eq!(e.kind, RequestEventKind::Failed);
    assert_eq!(e.failure_kind, Some(FailureKind::StreamIo));
    assert!(e.error.contains("client disconnected"));
    assert!(guard.abandon(NOW).is_none());
}

#[test]
fn stream_observe_guard_drop_with_completed_capture_stays_completed() {
    let completed = br#"event: response.completed
data: {"type":"response.completed","response":{"id":"resp_ok","output":[{"type":"message"}]}}

"#;
    let mut guard = StreamObserveGuard::new(sample_event(), 200, true);
    guard.capture_chunk(completed);
    let e = guard.abandon(NOW).unwrap();
    assert_eq!(e.kind, RequestEventKind::Completed);
    assert_eq!(e.failure_kind, None);
    assert_eq!(e.response_id, "resp_ok");
}

#[test]
fn stream_observe_guard_retains_usage_from_frame_larger_than_capture_tail() {
    let padding = "x".repeat((256 << 10) + 1024);
    let completed = format!(
        "event: response.completed\ndata: {{\"type\":\"response.completed\",\"response\":{{\"id\":\"resp_large\",\"output\":[],\"usage\":{{\"input_tokens\":321,\"input_tokens_details\":{{\"cached_tokens\":123,\"cache_write_tokens\":45}},\"output_tokens\":9}}}},\"padding\":\"{padding}\"}}\n\n"
    );
    let mut guard = StreamObserveGuard::new(sample_event(), 200, true);
    for chunk in completed.as_bytes().chunks(8191) {
        guard.capture_chunk(chunk);
    }
    assert_eq!(guard.captured().len(), 256 << 10);
    assert_eq!(CAPTURE_BYTES, 256 << 10);
    assert!(!String::from_utf8_lossy(guard.captured()).contains("input_tokens"));
    let e = guard.finish(None, NOW).unwrap();
    assert_eq!(
        e.usage,
        Some(TokenUsage {
            input_tokens: 321,
            cached_input_tokens: 123,
            cache_write_tokens: 45,
            output_tokens: 9,
        })
    );
    assert_eq!(e.output_tokens, 9);
    assert!(guard.abandon(NOW).is_none());
}

#[test]
fn stream_observe_guard_drop_with_proxy_error_keeps_assemble() {
    let err = br#"event: error
data: {"type":"error","error":{"type":"proxy_incomplete_output","message":"incomplete"}}

"#;
    let mut guard = StreamObserveGuard::new(sample_event(), 200, true);
    guard.capture_chunk(err);
    let e = guard.abandon(NOW).unwrap();
    assert_eq!(e.kind, RequestEventKind::Failed);
    assert_eq!(e.failure_kind, Some(FailureKind::ProxyAssemble));
    assert_eq!(e.error_type, "proxy_incomplete_output");
}

#[test]
fn handler_streams_and_normalizes_fake_upstream() {
    let p = prepare(
        br#"{"model":"gpt-5.6-sol","input":"hi"}"#,
        &Headers::new(),
        &Catalog::default(),
        &ModelMap::default(),
        "request",
        NOW,
    )
    .unwrap();
    let plan = plan_response(&p.transformed, CompatMode::Full, 200, Some("text/event-stream"));
    assert_eq!(plan.handling, Handling::Normalize);
    let mut stream =
        ResponseStream::new(plan, CompatMode::Full, "gpt-5.6-sol", "request", p.event, 200);
    let upstream = b"event: response.created\ndata: {\"type\":\"response.created\",\"response\":{\"id\":\"resp_live\"}}\n\nevent: response.output_text.delta\ndata: {\"type\":\"response.output_text.delta\",\"delta\":\"live\"}\n\ndata: [DONE]\n\n";
    let mut out = stream.chunk(upstream, 7).unwrap_or_default();
    let ending = stream.ended(NOW, 7);
    out.extend(ending.output.unwrap_or_default());
    let text = String::from_utf8(out).unwrap();
    assert!(text.contains("live"));
    assert!(text.contains("response.completed"));
    assert_eq!(ending.event.unwrap().kind, RequestEventKind::Completed);
    assert!(stream.dropped(NOW).is_none());
}

#[test]
fn bodies_of_other_models_pass_unchanged() {
    let t = transform(r#"{"model":"gpt-5.5","input":"hi"}"#);
    let plan = plan_response(&t, CompatMode::Full, 200, Some("application/json"));
    assert_eq!(plan.handling, Handling::Pass);
    let mut stream = ResponseStream::new(plan, CompatMode::Full, "m", "r", sample_event(), 200);
    assert_eq!(stream.chunk(b"{\"a\":1}", 7).unwrap(), b"{\"a\":1}");
    let broken = stream.broken("reset", NOW);
    assert_eq!(broken.event.unwrap().failure_kind, Some(FailureKind::StreamIo));
}

#[test]
fn unauthorized_requests_are_sent_once_more() {
    let event = sample_event();
    assert!(retries(&event, 401));
    assert!(!retries(&event, 500));
    let again = as_retried(event);
    assert_eq!(again.attempt, 2);
    assert!(again.auth_retried);
    assert!(!retries(&again, 401));
    let (told, answer) = upstream_failure(&again, Stage::Send, "no route", NOW);
    assert_eq!(told.failure_kind, Some(FailureKind::AuthRetryFailed));
    assert_eq!(answer.status, 502);
    let (told, _) = upstream_failure(&sample_event(), Stage::Body, "cut", NOW);
    assert_eq!(told.failure_kind, Some(FailureKind::StreamIo));
}

#[test]
fn entries_are_checked_in_order() {
    assert_eq!(check_entry("secret", &Headers::new(), true).unwrap().status, 401);
    assert_eq!(check_entry("", &Headers::new(), false).unwrap().status, 405);
    assert!(check_entry("", &Headers::new(), true).is_none());
    assert_eq!(body_too_large().status, 413);
}

#[test]
fn kimi_answers_take_their_own_way() {
    let t = transform(r#"{"model":"kimi-for-coding","input":"hi","stream":false}"#);
    assert_eq!(t.provider, Provider::Kimi);
    let whole = plan_response(&t, CompatMode::Off, 200, None);
    assert_eq!(whole.handling, Handling::KimiWhole);
    let failed = plan_response(&t, CompatMode::Full, 429, None);
    assert_eq!(failed.handling, Handling::KimiError);
    let streamed = transform(r#"{"model":"kimi-for-coding","input":"hi","stream":true}"#);
    assert_eq!(
        plan_response(&streamed, CompatMode::Full, 200, None).handling,
        Handling::KimiStream
    );
    let (response, told) = kimi_whole(
        "req",
        "kimi-for-coding",
        b"data: {\"choices\":[{\"delta\":{\"content\":\"hi\"},\"finish_reason\":\"stop\"}]}\n\ndata: [DONE]\n\n",
        sample_event(),
        200,
        NOW,
    );
    let response: Value = serde_json::from_str(&response.encode()).unwrap();
    assert_eq!(response["status"], "completed");
    assert_eq!(response["output"][0]["content"][0]["text"], "hi");
    assert_eq!(told.kind, RequestEventKind::Completed);
}

#[test]
fn kimi_errors_are_put_into_other_words() {
    let body = br#"{"error":{"type":"rate_limit_error","message":"slow down"}}"#;
    assert_eq!(
        kimi_upstream_error(body, 429),
        ("rate_limit_error".into(), "slow down".into())
    );
    let (told, answer) = kimi_refusal(sample_event(), body, 429, NOW);
    assert_eq!(told.kind, RequestEventKind::Failed);
    assert_eq!(answer.status, 429);
    assert_eq!(reply(&answer)["error"]["message"], "slow down");
}

#[test]
fn kimi_headers_depend_on_the_key() {
    let with_key = kimi_headers(None, "1.2.3");
    assert!(with_key.iter().all(|h| h.0 != "x-msh-device-id"));
    let device = vec![("x-msh-device-id", "abc".to_string())];
    let with_device = kimi_headers(Some(device), "1.2.3");
    assert_eq!(header(&with_device, "x-msh-device-id").as_deref(), Some("abc"));
}

#[test]
fn modes_and_addresses_are_checked() {
    assert_eq!(CompatMode::from_setting(None), CompatMode::Full);
    assert_eq!(CompatMode::from_setting(Some("LEGACY")), CompatMode::Text);
    assert_eq!(CompatMode::from_setting(Some("0")), CompatMode::Off);
    assert_eq!(CompatMode::from_setting(Some("what")), CompatMode::Full);
    assert!(check_config("https://example.com/x", None).is_ok());
    assert_eq!(check_config("not a url", None).unwrap_err(), "invalid upstream URL");
    let untrusted = KimiConfig { upstream_url: "http://example.com/".into(), api_key: "".into() };
    assert!(check_config("https://example.com/x", Some(&untrusted)).is_err());
    assert_eq!(untrusted.key(), None);
    let keyed = KimiConfig { upstream_url: "u".into(), api_key: " k ".into() };
    assert_eq!(keyed.key().as_deref(), Some("k"));
}
