//! Requests to Kimi, its streams, and its credentials.

use grok_build_proxy::catalog::Catalog;
use grok_build_proxy::kimi_cli::{masked, status_lines};
use grok_build_proxy::provider::kimi::auth::{
    ascii, check_deadline, check_private_file, check_stored, credentials, credentials_not_found,
    device_headers, device_id_of, first_interval, inspect_stored, needs_refresh, poll_step,
    refresh_refused, refresh_token, start_refused, stored_auth, DeviceAuthorization, FileKind,
    PollStep, Store, StoredAuth, TokenResponse,
};
use grok_build_proxy::provider::kimi::request::translate_request;
use grok_build_proxy::provider::kimi::stream::Translator;
use grok_build_proxy::provider::kimi::{canonical_model, is_model, validate_upstream_url};
use grok_build_proxy::provider::Provider;
use serde_json::Value;

const NOW_MS: u64 = 1_800_000_000_000;

fn translate_stream(input: &[u8], chunk_size: usize) -> Vec<u8> {
    let mut translator = Translator::new("resp_kimi", "kimi-for-coding");
    let mut output = Vec::new();
    for chunk in input.chunks(chunk_size) {
        output.extend(translator.push(chunk));
    }
    output.extend(translator.finish());
    output
}

fn events(stream: &[u8]) -> Vec<Value> {
    String::from_utf8_lossy(stream)
        .split("\n\n")
        .filter_map(|frame| {
            frame
                .lines()
                .find_map(|line| line.strip_prefix("data: "))
                .filter(|data| *data != "[DONE]")
                .map(|data| serde_json::from_str(data).unwrap())
        })
        .collect()
}

#[test]
fn kimi_catalog_aliases_resolve_to_the_canonical_wire_model() {
    let catalog = Catalog::default();

    for alias in ["kimi-for-coding", "kimi-k2.6", "k2.6"] {
        let (model, known) = catalog.lookup(alias);
        assert!(known);
        assert_eq!(model.provider, Provider::Kimi);
        assert_eq!(model.upstream_id, "kimi-for-coding");
    }
}

#[test]
fn kimi_request_translates_responses_history_tools_and_reasoning() {
    let request = r#"{
        "model": "kimi-k2.6",
        "instructions": "system context",
        "input": [
            {"type":"message","role":"user","content":[
                {"type":"input_text","text":"hello"},
                {"type":"input_image","image_url":"data:image/png;base64,AA=="}
            ]},
            {"type":"reasoning","summary":[{"type":"summary_text","text":"prior thought"}]},
            {"type":"message","role":"assistant","content":[{"type":"output_text","text":"checking"}]},
            {"type":"function_call","call_id":"call_1","name":"search","arguments":"{\"q\":\"rust\"}"},
            {"type":"function_call","call_id":"call_2","name":"search","arguments":"{\"q\":\"axum\"}"},
            {"type":"function_call_output","call_id":"call_1","output":"result 1"},
            {"type":"function_call_output","call_id":"call_2","output":"result 2"}
        ],
        "tools": [{
            "type": "function",
            "name": "search",
            "description": "Search",
            "parameters": {"type":"object","properties":{"q":{"type":"string"}}}
        }],
        "tool_choice": {"type":"function","name":"search"},
        "reasoning": {"effort":"xhigh"},
        "max_output_tokens": 50000,
        "store": false
    }"#;

    let translated = translate_request(request.as_bytes(), Some("session-1")).unwrap();
    let translated: Value = serde_json::from_str(&translated.encode()).unwrap();

    assert_eq!(translated["model"], "kimi-for-coding");
    assert_eq!(translated["stream"], true);
    assert_eq!(translated["stream_options"]["include_usage"], true);
    assert_eq!(translated["max_tokens"], 32000);
    assert_eq!(translated["reasoning_effort"], "high");
    assert_eq!(translated["thinking"]["type"], "enabled");
    assert_eq!(translated["prompt_cache_key"], "session-1");
    assert_eq!(translated["messages"][0]["role"], "system");
    assert_eq!(translated["messages"][1]["role"], "user");
    assert_eq!(
        translated["messages"][1]["content"][1]["image_url"]["url"],
        "data:image/png;base64,AA=="
    );
    assert_eq!(
        translated["messages"][2]["reasoning_content"],
        "prior thought"
    );
    assert_eq!(translated["messages"][2]["content"], "checking");
    assert_eq!(translated["messages"][2]["tool_calls"][0]["id"], "call_1");
    assert_eq!(translated["messages"][2]["tool_calls"][1]["id"], "call_2");
    assert_eq!(translated["messages"][3]["tool_call_id"], "call_1");
    assert_eq!(translated["messages"][4]["tool_call_id"], "call_2");
    assert_eq!(translated["tools"][0]["function"]["name"], "search");
    assert_eq!(translated["tool_choice"]["function"]["name"], "search");
    assert!(translated.get("input").is_none());
    assert!(translated.get("store").is_none());
}

#[test]
fn kimi_stream_translates_reasoning_text_tools_and_usage() {
    let upstream = [
        "data: {\"choices\":[{\"delta\":{\"reasoning_content\":\"think\"}}]}\n\n",
        "data: {\"choices\":[{\"delta\":{\"content\":\"KIMI_OK\"}}]}\n\n",
        "data: {\"choices\":[{\"delta\":{\"tool_calls\":[{\"index\":0,\"id\":\"call_1\",\"function\":{\"name\":\"search\",\"arguments\":\"{\\\"q\\\":\"}}]}}]}\n\n",
        "data: {\"choices\":[{\"delta\":{\"tool_calls\":[{\"index\":0,\"function\":{\"arguments\":\"\\\"rust\\\"}\"}}]}}]}\n\n",
        "data: {\"choices\":[{\"finish_reason\":\"tool_calls\"}],\"usage\":{\"prompt_tokens\":10,\"completion_tokens\":4,\"total_tokens\":14}}\n\n",
        "data: [DONE]\n\n"
    ].concat();

    let translated = translate_stream(upstream.as_bytes(), upstream.len());
    let parsed = events(&translated);
    let kinds: Vec<_> = parsed
        .iter()
        .filter_map(|event| event["type"].as_str())
        .collect();

    assert!(kinds.contains(&"response.reasoning_summary_text.delta"));
    assert!(kinds.contains(&"response.output_text.delta"));
    assert!(kinds.contains(&"response.function_call_arguments.delta"));
    assert_eq!(kinds.last(), Some(&"response.completed"));

    for kind in [
        "response.reasoning_summary_text.delta",
        "response.output_text.delta",
        "response.function_call_arguments.delta",
    ] {
        let event = parsed.iter().find(|event| event["type"] == kind).unwrap();
        assert!(event["item_id"].as_str().is_some_and(|id| !id.is_empty()));
    }

    let completed = parsed.last().unwrap();
    assert_eq!(completed["response"]["usage"]["input_tokens"], 10);
    assert_eq!(completed["response"]["usage"]["output_tokens"], 4);
    assert_eq!(completed["response"]["usage"]["total_tokens"], 14);
    let output = completed["response"]["output"].as_array().unwrap();
    assert!(output.iter().any(|item| item["type"] == "reasoning"));
    assert!(
        output
            .iter()
            .any(|item| { item["type"] == "message" && item["content"][0]["text"] == "KIMI_OK" })
    );
    assert!(output.iter().any(|item| {
        item["type"] == "function_call"
            && item["call_id"] == "call_1"
            && item["name"] == "search"
            && item["arguments"] == "{\"q\":\"rust\"}"
    }));
}

#[test]
fn kimi_stream_translation_is_invariant_to_network_chunk_boundaries() {
    let upstream = [
        "data: {\"choices\":[{\"delta\":{\"content\":\"hello\"}}]}\n\n",
        "data: {\"choices\":[{\"finish_reason\":\"stop\"}],\"usage\":{\"prompt_tokens\":2,\"completion_tokens\":1}}\n\n",
        "data: [DONE]\n\n"
    ].concat();
    let upstream = upstream.as_bytes();
    let expected = translate_stream(upstream, upstream.len());

    for chunk_size in 1..=upstream.len() {
        assert_eq!(translate_stream(upstream, chunk_size), expected);
    }
}

#[test]
fn kimi_stream_parses_mixed_crlf_and_lf_frames_in_wire_order() {
    let upstream = [
        "data: {\"choices\":[{\"delta\":{\"content\":\"mixed\"}}]}\r\n\r\n",
        "data: {\"choices\":[{\"finish_reason\":\"stop\"}]}\n\n",
        "data: [DONE]\n\n"
    ].concat();
    let parsed = events(&translate_stream(upstream.as_bytes(), upstream.len()));
    assert!(parsed.iter().any(|event| {
        event["type"] == "response.output_text.delta" && event["delta"] == "mixed"
    }));
    assert_eq!(parsed.last().unwrap()["type"], "response.completed");
}

#[test]
fn kimi_stream_fails_closed_on_truncated_or_invalid_tool_calls() {
    for upstream in [
        "data: {\"choices\":[{\"delta\":{\"tool_calls\":[{\"index\":0,\"id\":\"call_1\",\"function\":{\"name\":\"shell\",\"arguments\":\"{\\\"cmd\\\":\"}}]}}]}\n\n".to_string(),
        [
            "data: {\"choices\":[{\"delta\":{\"tool_calls\":[{\"index\":0,\"id\":\"call_1\",\"function\":{\"name\":\"shell\",\"arguments\":\"not-json\"}}]}}]}\n\n",
            "data: {\"choices\":[{\"finish_reason\":\"tool_calls\"}]}\n\n",
            "data: [DONE]\n\n"
        ].concat(),
    ] {
        let parsed = events(&translate_stream(upstream.as_bytes(), upstream.len()));
        let kinds: Vec<_> = parsed
            .iter()
            .filter_map(|event| event["type"].as_str())
            .collect();
        assert!(kinds.contains(&"response.failed"));
        assert!(!kinds.contains(&"response.completed"));
        assert!(!kinds.contains(&"response.output_item.done"));
    }
}

#[test]
fn kimi_stream_rejects_malformed_frames_and_reports_length_as_incomplete() {
    for (upstream, terminal) in [
        ("data: not-json\n\n".to_string(), "response.failed"),
        (
            [
                "data: {\"choices\":[{\"delta\":{\"content\":\"partial\"}}]}\n\n",
                "data: {\"choices\":[{\"finish_reason\":\"length\"}]}\n\n",
                "data: [DONE]\n\n"
            ].concat(),
            "response.incomplete",
        ),
    ] {
        let parsed = events(&translate_stream(upstream.as_bytes(), upstream.len()));
        assert_eq!(parsed.last().unwrap()["type"], terminal);
        assert!(
            !parsed
                .iter()
                .any(|event| event["type"] == "response.completed")
        );
        if terminal == "response.incomplete" {
            assert_eq!(
                parsed.last().unwrap()["response"]["output"][0]["content"][0]["text"],
                "partial"
            );
        }
    }
}

#[test]
fn kimi_tool_item_is_added_once_when_the_first_argument_fragment_is_empty() {
    let upstream = [
        "data: {\"choices\":[{\"delta\":{\"tool_calls\":[{\"index\":0,\"id\":\"call_1\",\"function\":{\"name\":\"search\",\"arguments\":\"\"}}]}}]}\n\n",
        "data: {\"choices\":[{\"delta\":{\"tool_calls\":[{\"index\":0,\"function\":{\"arguments\":\"{}\"}}]}}]}\n\n",
        "data: {\"choices\":[{\"finish_reason\":\"tool_calls\"}]}\n\n",
        "data: [DONE]\n\n"
    ].concat();
    let parsed = events(&translate_stream(upstream.as_bytes(), upstream.len()));
    let additions = parsed
        .iter()
        .filter(|event| {
            event["type"] == "response.output_item.added"
                && event["item"]["type"] == "function_call"
        })
        .count();
    assert_eq!(additions, 1);
    assert_eq!(parsed.last().unwrap()["type"], "response.completed");
}

#[test]
fn kimi_credential_endpoints_reject_untrusted_origins() {
    assert!(Store::new("auth.json", "https://auth.kimi.com").is_ok());
    assert!(Store::new("auth.json", "http://127.0.0.1:3000").is_ok());
    assert!(Store::new("auth.json", "http://auth.kimi.com").is_err());
    assert!(Store::new("auth.json", "https://example.com").is_err());

    assert!(validate_upstream_url("https://api.kimi.com/coding/v1/chat/completions").is_ok());
    assert!(validate_upstream_url("http://127.0.0.1:3000/chat/completions").is_ok());
    assert!(validate_upstream_url("http://api.kimi.com/coding/v1/chat/completions").is_err());
    assert!(validate_upstream_url("https://example.com/chat/completions").is_err());
}

#[test]
fn user_ids_are_always_masked() {
    for value in ["a", "abcd", "abcdefgh", "abcdefghijkl", "사용자"] {
        let masked = masked(value);
        assert_ne!(masked, value);
        assert!(!masked.contains(value));
    }
    assert_eq!(masked(""), "…");
    assert_eq!(masked("abcdefgh"), "…efgh");
}

fn stored(access: &str, refresh: &str, expires: u64) -> StoredAuth {
    StoredAuth {
        access: access.into(),
        refresh: refresh.into(),
        expires,
        scope: None,
        user_id: Some("user-1".into()),
    }
}

#[test]
fn expired_kimi_credentials_refresh_and_rotate_tokens() {
    let expired = stored("expired", "refresh-me", 1);
    assert!(needs_refresh(&expired, false, NOW_MS));
    assert_eq!(refresh_token(&expired).unwrap(), "refresh-me");
    let fresh = TokenResponse {
        access_token: "fresh-access".into(),
        refresh_token: Some("rotated-refresh".into()),
        expires_in: Some(900),
        scope: None,
    };
    let saved = stored_auth(fresh, Some(&expired), NOW_MS).unwrap();
    assert_eq!(saved.refresh, "rotated-refresh");
    assert_eq!(saved.expires, NOW_MS + 900_000);
    let used = credentials(&saved);
    assert_eq!(used.access_token, "fresh-access");
    assert_eq!(used.account_id, "user-1");
    assert_eq!(used.expires_at, Some((NOW_MS + 900_000) as i64));
    assert!(!needs_refresh(&saved, false, NOW_MS));
    assert!(needs_refresh(&saved, true, NOW_MS));
}

#[test]
fn refreshes_keep_what_the_server_leaves_out() {
    let old = stored("old", "keep-me", 1);
    let fresh = TokenResponse {
        access_token: "fresh".into(),
        refresh_token: None,
        expires_in: None,
        scope: None,
    };
    let saved = stored_auth(fresh, Some(&old), NOW_MS).unwrap();
    assert_eq!(saved.refresh, "keep-me");
    assert_eq!(saved.user_id.as_deref(), Some("user-1"));
    let named = TokenResponse {
        access_token: "h.eyJzdWIiOiJ1LTkifQ.s".into(),
        refresh_token: Some("r".into()),
        expires_in: Some(1),
        scope: None,
    };
    let saved = stored_auth(named, None, NOW_MS).unwrap();
    assert_eq!(saved.user_id.as_deref(), Some("u-9"));
    let useless = TokenResponse {
        access_token: " ".into(),
        refresh_token: None,
        expires_in: None,
        scope: None,
    };
    assert!(stored_auth(useless, None, NOW_MS).is_err());
}

#[test]
fn permissive_kimi_credentials_are_rejected_for_use() {
    let refused =
        check_private_file(FileKind::Regular, 0o100644, true, "Kimi credentials", "auth.json");
    assert!(refused.unwrap_err().contains("group/world-accessible"));
    assert!(check_private_file(FileKind::Regular, 0o100600, true, "x", "p").is_ok());
    assert!(check_private_file(FileKind::Missing, 0, true, "x", "p").is_ok());
    assert!(check_private_file(FileKind::SymbolicLink, 0o600, true, "x", "p").is_err());
    assert!(check_private_file(FileKind::Other, 0o600, true, "x", "p").is_err());
    let status =
        inspect_stored(&stored("a", "r", 4_102_444_800_000), "auth.json", 0o644, 7).unwrap();
    assert_eq!(status.file_mode & 0o077, 0o044);
    assert_eq!(
        status_lines(&status, "2100-01-01"),
        vec![
            "Kimi credential file: auth.json",
            "Expires at: 2100-01-01",
            "Refresh token: present",
            "User: …er-1",
        ]
    );
    let far = inspect_stored(&stored("a", "r", i64::MAX as u64), "auth.json", 0o600, 7);
    assert_eq!(far.unwrap_err(), "Kimi credential expiry is out of range");
}

#[test]
fn incomplete_kimi_credentials_are_refused() {
    assert!(check_stored(&stored(" ", "r", 1)).is_err());
    assert!(check_stored(&stored("a", "r", 1)).is_ok());
    assert!(refresh_token(&stored("a", " ", 1)).is_err());
    assert_eq!(device_id_of(" abc\n", "p").unwrap(), "abc");
    assert_eq!(device_id_of(" \n", "p").unwrap_err(), "Kimi device ID file is empty at p");
    assert!(credentials_not_found("p").contains("p"));
}

#[test]
fn logins_are_polled_until_they_end() {
    let start = DeviceAuthorization {
        user_code: "u".into(),
        device_code: "d".into(),
        verification_uri: None,
        verification_uri_complete: "v".into(),
        expires_in: 10,
        interval: 0,
    };
    assert_eq!(first_interval(&start), 1);
    assert!(matches!(poll_step(Some("authorization_pending"), "400", 3), PollStep::Wait(3)));
    assert!(matches!(poll_step(Some("slow_down"), "400", 3), PollStep::Wait(8)));
    match poll_step(Some("expired_token"), "400", 3) {
        PollStep::Stop(m) => assert_eq!(m, "Kimi device code expired; run login again"),
        PollStep::Wait(_) => panic!("waits"),
    }
    match poll_step(Some("access_denied"), "400 Bad Request", 3) {
        PollStep::Stop(m) => {
            assert_eq!(m, "Kimi device authorization failed (400 Bad Request): access_denied")
        }
        PollStep::Wait(_) => panic!("waits"),
    }
    match poll_step(None, "500", 3) {
        PollStep::Stop(m) => assert_eq!(m, "Kimi device authorization failed: HTTP 500"),
        PollStep::Wait(_) => panic!("waits"),
    }
    assert!(check_deadline(9_999, 10).is_ok());
    assert!(check_deadline(10_000, 10).is_err());
    assert_eq!(start_refused("500", "x"), "start Kimi device authorization: HTTP 500: x");
    assert!(refresh_refused("401").starts_with("refresh Kimi access token: HTTP 401;"));
}

#[test]
fn devices_are_described_in_ascii() {
    assert_eq!(ascii("Zo\u{eb}'s Mac\n"), "Zo's Mac");
    assert_eq!(ascii("사용자"), "unknown");
    let list = device_headers(Some("host"), "macos", "aarch64", "id-1");
    assert!(list.contains(&("x-msh-device-id", "id-1".to_string())));
    assert!(list.contains(&("x-msh-device-name", "host".to_string())));
    assert!(list.contains(&("x-msh-device-model", "macos aarch64".to_string())));
}

#[test]
fn kimi_models_have_many_names() {
    assert!(is_model("kimi-for-coding"));
    assert!(!is_model("gpt-5.5"));
    assert_eq!(canonical_model("k2.6"), Some("kimi-for-coding"));
    assert_eq!(canonical_model("other"), None);
}

#[test]
fn kimi_requests_name_their_cache() {
    let raw = br#"{"model":"kimi-for-coding","input":"hi","prompt_cache_key":"own"}"#;
    let v: Value =
        serde_json::from_str(&translate_request(raw, Some("fallback")).unwrap().encode()).unwrap();
    assert_eq!(v["prompt_cache_key"], "fallback");
    assert_eq!(v["messages"][0]["content"], "hi");
    assert!(translate_request(b"not json", None).is_err());
    let unknown = br#"{"model":"gpt-5.5","input":"hi"}"#;
    assert!(translate_request(unknown, None).is_err());
}

#[test]
fn ended_kimi_streams_are_silent() {
    let mut t = Translator::new("r", "kimi-for-coding");
    let done = b"data: {\"choices\":[{\"delta\":{\"content\":\"x\"},\"finish_reason\":\"stop\"}]}\n\ndata: [DONE]\n\n";
    assert!(!t.push(done).is_empty());
    assert!(t.is_terminal());
    assert!(t.push(done).is_empty());
    assert!(t.finish().is_empty());
    assert!(t.terminal_response().is_some());
}
