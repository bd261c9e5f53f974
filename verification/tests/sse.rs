//! Streams that are repaired, however they are cut.

use grok_build_proxy::proxy::CompatMode;
use grok_build_proxy::sse::{normalize_sse, normalize_sse_at, StreamNormalizer};
use serde_json::Value;

fn terminal(stream: &str) -> Value {
    let out = normalize_sse(stream.as_bytes(), CompatMode::Full, "gpt-5.6-sol", "test");
    let text = String::from_utf8(out).unwrap();
    text.split("\n\n")
        .filter_map(|f| f.lines().find_map(|l| l.strip_prefix("data: ")))
        .filter_map(|d| serde_json::from_str::<Value>(d).ok())
        .last()
        .unwrap()
}

#[test]
fn indexless_function_is_assembled() {
    let s = r#"event: response.created
data: {"type":"response.created","response":{"id":"resp_x"}}

event: response.output_item.added
data: {"type":"response.output_item.added","item":{"type":"function_call","id":"fc_x","call_id":"call_x","name":"update_goal"}}

event: response.function_call_arguments.delta
data: {"type":"response.function_call_arguments.delta","call_id":"call_x","delta":"{\"completed\":"}

event: response.function_call_arguments.delta
data: {"type":"response.function_call_arguments.delta","call_id":"call_x","delta":"true}"}

event: response.function_call_arguments.done
data: {"type":"response.function_call_arguments.done","call_id":"call_x","arguments":""}

data: [DONE]

"#;
    let t = terminal(s);
    assert_eq!(t["response"]["output"][0]["call_id"], "call_x");
    assert_eq!(
        t["response"]["output"][0]["arguments"],
        "{\"completed\":true}"
    );
}

#[test]
fn incomplete_function_fails_closed() {
    let s = r#"event: response.created
data: {"type":"response.created","response":{"id":"resp_x"}}

event: response.output_item.added
data: {"type":"response.output_item.added","item":{"type":"function_call","id":"fc_x","call_id":"call_x","name":"danger","arguments":"{\"x\":"}}

data: [DONE]

"#;
    let t = terminal(s);
    assert_eq!(t["error"]["type"], "proxy_incomplete_output");
}

#[test]
fn failed_terminal_is_not_upgraded() {
    let s = "event: response.failed\ndata: {\"type\":\"response.failed\",\"response\":{}}\n\ndata: [DONE]\n\n";
    let out =
        String::from_utf8(normalize_sse(s.as_bytes(), CompatMode::Full, "m", "r")).unwrap();
    assert!(out.contains("response.failed"));
    assert!(!out.contains("response.completed"));
}

#[test]
fn interleaved_tools_remain_distinct() {
    let stream = r#"event: response.created
data: {"type":"response.created","response":{"id":"resp_multi"}}

event: response.output_item.added
data: {"type":"response.output_item.added","item":{"type":"function_call","id":"fc_a","call_id":"call_a","name":"first"}}

event: response.output_item.added
data: {"type":"response.output_item.added","item":{"type":"function_call","id":"fc_b","call_id":"call_b","name":"second"}}

event: response.function_call_arguments.delta
data: {"type":"response.function_call_arguments.delta","call_id":"call_b","delta":"{\"b\":2}"}

event: response.function_call_arguments.done
data: {"type":"response.function_call_arguments.done","call_id":"call_b","arguments":""}

event: response.function_call_arguments.delta
data: {"type":"response.function_call_arguments.delta","call_id":"call_a","delta":"{\"a\":1}"}

event: response.function_call_arguments.done
data: {"type":"response.function_call_arguments.done","call_id":"call_a","arguments":""}

data: [DONE]

"#;
    let t = terminal(stream);
    let output = t["response"]["output"].as_array().unwrap();
    assert_eq!(output.len(), 2);
    assert_eq!(output[0]["call_id"], "call_a");
    assert_eq!(output[1]["call_id"], "call_b");
}

#[test]
fn text_id_rebind_and_done_fallback() {
    let stream = r#"event: response.created
data: {"type":"response.created","response":{"id":"resp_text"}}

event: response.output_text.delta
data: {"type":"response.output_text.delta","delta":"hello"}

event: response.output_item.done
data: {"type":"response.output_item.done","output_index":0,"item":{"type":"message","id":"msg_real","role":"assistant","content":[]}}

event: response.completed
data: {"type":"response.completed","response":{"id":"resp_text","output":[]}}

"#;
    let t = terminal(stream);
    assert_eq!(t["response"]["output"][0]["id"], "msg_real");
    assert_eq!(t["response"]["output"][0]["content"][0]["text"], "hello");
}

#[test]
fn metadata_is_dropped_and_crlf_frames_parse() {
    let stream = "event: response.metadata\r\ndata: {\"type\":\"response.metadata\",\"secret\":\"drop\"}\r\n\r\nevent: response.created\r\ndata: {\"type\":\"response.created\",\"response\":{}}\r\n\r\nevent: response.output_text.delta\r\ndata: {\"type\":\"response.output_text.delta\",\"delta\":\"ok\"}\r\n\r\ndata: [DONE]\r\n\r\n";
    let out = String::from_utf8(normalize_sse(stream.as_bytes(), CompatMode::Full, "m", "r"))
        .unwrap();
    assert!(!out.contains("secret"));
    assert!(out.contains("response.completed"));
    assert!(out.contains("ok"));
}

#[test]
fn custom_input_delta_fallback_and_missing_input_policy() {
    let complete = r#"event: response.created
data: {"type":"response.created","response":{}}

event: response.output_item.added
data: {"type":"response.output_item.added","item":{"type":"custom_tool_call","id":"ct","call_id":"call","name":"shell"}}

event: response.custom_tool_call_input.delta
data: {"type":"response.custom_tool_call_input.delta","call_id":"call","delta":"echo hi"}

event: response.custom_tool_call_input.done
data: {"type":"response.custom_tool_call_input.done","call_id":"call","input":""}

data: [DONE]

"#;
    assert_eq!(
        terminal(complete)["response"]["output"][0]["input"],
        "echo hi"
    );
    let missing = r#"event: response.created
data: {"type":"response.created","response":{}}

event: response.output_item.added
data: {"type":"response.output_item.added","item":{"type":"custom_tool_call","id":"ct","call_id":"call","name":"shell"}}

event: response.custom_tool_call_input.done
data: {"type":"response.custom_tool_call_input.done","call_id":"call"}

data: [DONE]

"#;
    assert_eq!(
        terminal(missing)["error"]["type"],
        "proxy_incomplete_output"
    );
}

#[test]
fn compact_auxiliary_and_usage_envelopes_are_filled() {
    let stream = r#"event: response.created
data: {"response":{"id":"resp_aux","usage":{"input_tokens":2,"output_tokens":3,"input_tokens_details":null}}}

event: response.content_part.added
data: {"type":"response.content_part.added","part":{}}

event: response.reasoning_summary_part.added
data: {"type":"response.reasoning_summary_part.added"}

event: response.failed
data: {"type":"response.failed","response":{}}

"#;
    let text = String::from_utf8(normalize_sse(
        stream.as_bytes(),
        CompatMode::Full,
        "model",
        "req",
    ))
    .unwrap();
    let events: Vec<Value> = text
        .split("\n\n")
        .filter_map(|f| f.lines().find_map(|l| l.strip_prefix("data: ")))
        .filter_map(|d| serde_json::from_str(d).ok())
        .collect();
    assert!(events[0]["response"]["created_at"].is_number());
    assert_eq!(events[0]["response"]["usage"]["total_tokens"], 5);
    assert_eq!(
        events[0]["response"]["usage"]["input_tokens_details"]["cached_tokens"],
        0
    );
    assert!(events[1]["item_id"].is_string());
    assert_eq!(events[1]["content_index"], 0);
    assert_eq!(events[2]["summary_index"], 0);
}

#[test]
fn custom_empty_input_is_valid() {
    let s = r#"event: response.created
data: {"type":"response.created","response":{}}

event: response.output_item.added
data: {"type":"response.output_item.added","output_index":0,"item":{"type":"custom_tool_call","id":"ct","call_id":"call","name":"shell"}}

event: response.custom_tool_call_input.done
data: {"type":"response.custom_tool_call_input.done","output_index":0,"input":""}

data: [DONE]

"#;
    assert_eq!(terminal(s)["response"]["output"][0]["input"], "");
}

#[test]
fn created_event_uses_in_progress_response_status() {
    let input = b"event: response.created\ndata: {\"type\":\"response.created\",\"response\":{\"id\":\"resp_created\"}}\n\n";

    let output = String::from_utf8(normalize_sse(
        input,
        CompatMode::Full,
        "gpt-5.6-sol",
        "created",
    ))
    .unwrap();
    let data = output
        .lines()
        .find_map(|line| line.strip_prefix("data: "))
        .unwrap();
    let event: Value = serde_json::from_str(data).unwrap();

    assert_eq!(event["response"]["status"], "in_progress");
}

#[test]
fn normalization_is_invariant_to_network_chunk_boundaries() {
    // Supply a fixed timestamp so the one-shot and incrementally chunked normalizers remain
    // comparable even when this loop crosses a wall-clock second boundary.
    let input=b"event: response.created\r\ndata: {\"type\":\"response.created\",\"response\":{\"id\":\"resp_chunks\",\"created_at\":123}}\r\n\r\nevent: keepalive\r\ndata: {\"type\":\"keepalive\"}\r\n\r\nevent: response.output_text.delta\r\ndata: {\"type\":\"response.output_text.delta\",\"delta\":\"chunk safe\"}\r\n\r\ndata: [DONE]\r\n\r\n";
    let expected = normalize_sse(input, CompatMode::Full, "gpt-5.6-sol", "chunks");
    assert!(!String::from_utf8_lossy(&expected).contains("keepalive"));
    let expected = stable_sse_bytes(&expected);
    for size in 1..=input.len() {
        let mut normalizer = StreamNormalizer::new(CompatMode::Full, "gpt-5.6-sol", "chunks");
        let mut actual = Vec::new();
        for chunk in input.chunks(size) {
            actual.extend(normalizer.push(chunk));
        }
        actual.extend(normalizer.finish());
        assert_eq!(stable_sse_bytes(&actual), expected, "chunk size {size}");
    }
}

/// Zero wall-clock `created_at` values so comparisons are not flaky across second
/// boundaries (normalize injects `Utc::now()` when the field is missing).
fn stable_sse_bytes(bytes: &[u8]) -> Vec<u8> {
    let text = String::from_utf8_lossy(bytes);
    let mut out = String::with_capacity(text.len());
    let mut rest = text.as_ref();
    let marker = "\"created_at\":";
    while let Some(index) = rest.find(marker) {
        out.push_str(&rest[..index]);
        out.push_str(marker);
        out.push('0');
        rest = &rest[index + marker.len()..];
        while rest.chars().next().is_some_and(|ch| ch.is_ascii_digit()) {
            rest = &rest[1..];
        }
    }
    out.push_str(rest);
    out.into_bytes()
}

#[test]
fn repaired_streams_are_numbered_and_stamped() {
    let input = b"event: response.created\ndata: {\"type\":\"response.created\",\"response\":{\"id\":\"resp\"}}\n\nevent: response.output_text.delta\ndata: {\"type\":\"response.output_text.delta\",\"delta\":\"a\"}\n\ndata: [DONE]\n\n";
    let out = normalize_sse_at(input, CompatMode::Full, "m", "r", 77);
    let text = String::from_utf8(out).unwrap();
    let events: Vec<Value> = text
        .split("\n\n")
        .filter_map(|f| f.lines().find_map(|l| l.strip_prefix("data: ")))
        .filter_map(|d| serde_json::from_str(d).ok())
        .collect();
    for (i, event) in events.iter().enumerate() {
        assert_eq!(event["sequence_number"], i as u64 + 1);
    }
    assert_eq!(events[0]["response"]["created_at"], 77);
    assert_eq!(events.last().unwrap()["response"]["output"][0]["content"][0]["text"], "a");
}

#[test]
fn ended_streams_are_not_completed() {
    let mut n = StreamNormalizer::new(CompatMode::Full, "m", "r");
    let failed = b"event: response.failed\ndata: {\"type\":\"response.failed\",\"response\":{}}\n\n";
    assert!(!n.push(failed).is_empty());
    assert!(n.finish().is_empty());
    let mut open = StreamNormalizer::new(CompatMode::Full, "m", "r");
    open.push(b"event: response.created\ndata: {\"type\":\"response.created\",\"response\":{}}\n\n");
    assert!(String::from_utf8(open.finish()).unwrap().contains("proxy_missing_terminal_output"));
    assert!(open.finish().is_empty());
}

#[test]
fn frames_that_are_no_json_pass_unchanged() {
    let odd = b"event: response.created\ndata: {nope\n\n";
    let mut n = StreamNormalizer::new(CompatMode::Full, "m", "r");
    assert_eq!(n.push(odd), odd);
    assert_eq!(n.push(b": comment\n\n"), b": comment\n\n");
}

fn events_of(stream: &[u8], mode: CompatMode) -> Vec<Value> {
    let out = normalize_sse_at(stream, mode, "m", "r", 5);
    String::from_utf8(out)
        .unwrap()
        .split("\n\n")
        .filter_map(|f| f.lines().find_map(|l| l.strip_prefix("data: ")))
        .filter_map(|d| serde_json::from_str(d).ok())
        .collect()
}

#[test]
fn refusals_outlive_an_empty_close() {
    let events = events_of(
        b"data: {\"type\":\"response.refusal.delta\",\"item_id\":\"m1\",\"delta\":\"no\"}\n\ndata: {\"type\":\"response.refusal.done\",\"item_id\":\"m1\",\"refusal\":\"\"}\n\ndata: [DONE]\n\n",
        CompatMode::Full,
    );
    assert_eq!(events[1]["refusal"], "no");
    assert_eq!(events[1]["output_index"], 0);
    assert_eq!(events[1]["content_index"], 0);
    assert_eq!(events[2]["type"], "response.completed");
    assert_eq!(events[2]["response"]["output"].as_array().unwrap().len(), 1);
    assert_eq!(events[2]["response"]["output"][0]["id"], "m1");
    assert_eq!(events[2]["response"]["output"][0]["content"][0]["refusal"], "no");
}

#[test]
fn events_follow_their_item_id() {
    let events = events_of(
        b"data: {\"type\":\"response.output_text.delta\",\"output_index\":4,\"item_id\":\"m4\",\"delta\":\"a\"}\n\ndata: {\"type\":\"response.output_text.delta\",\"output_index\":2,\"item_id\":\"m2\",\"delta\":\"b\"}\n\ndata: {\"type\":\"response.output_text.delta\",\"item_id\":\"m4\",\"delta\":\"c\"}\n\ndata: [DONE]\n\n",
        CompatMode::Full,
    );
    assert_eq!(events[2]["output_index"], 4);
    let output = events[3]["response"]["output"].as_array().unwrap();
    assert_eq!(output.len(), 2);
    assert_eq!(output[0]["content"][0]["text"], "b");
    assert_eq!(output[1]["content"][0]["text"], "ac");
}

#[test]
fn text_repair_leaves_calls_unbuilt() {
    let stream = b"data: {\"type\":\"response.output_item.done\",\"item\":{\"type\":\"function_call\",\"id\":\"f\",\"call_id\":\"c\",\"name\":\"n\",\"arguments\":\"{}\"}}\n\ndata: [DONE]\n\n";
    let full = events_of(stream, CompatMode::Full);
    assert_eq!(full.last().unwrap()["response"]["output"][0]["arguments"], "{}");
    let text = events_of(stream, CompatMode::Text);
    assert_eq!(text.last().unwrap()["error"]["type"], "proxy_incomplete_output");
}

#[test]
fn incomplete_responses_keep_their_type() {
    let events = events_of(
        b"event: response.incomplete\ndata: {\"response\":{\"id\":\"resp_i\"}}\n\ndata: [DONE]\n\n",
        CompatMode::Full,
    );
    assert_eq!(events.len(), 1);
    assert_eq!(events[0]["type"], "response.incomplete");
    assert_eq!(events[0]["response_id"], "resp_i");
    assert_eq!(events[0]["sequence_number"], 1);
    assert_eq!(events[0]["response"]["status"], "incomplete");
}

#[test]
fn given_envelopes_stay_and_filled_numbers_rise() {
    let events = events_of(
        b"data: {\"type\":\"response.created\",\"sequence_number\":40,\"response_id\":\"mine\",\"response\":{\"id\":\"resp_x\"}}\n\ndata: {\"type\":\"response.output_text.delta\",\"delta\":\"a\"}\n\ndata: {\"type\":\"response.output_text.delta\",\"sequence_number\":7,\"delta\":\"b\"}\n\ndata: {\"type\":\"response.output_text.delta\",\"delta\":\"c\"}\n\ndata: [DONE]\n\n",
        CompatMode::Full,
    );
    let numbers: Vec<u64> =
        events.iter().map(|e| e["sequence_number"].as_u64().unwrap()).collect();
    assert_eq!(numbers, [40, 41, 7, 42, 43]);
    assert_eq!(events[0]["response_id"], "mine");
    assert_eq!(events[1]["response_id"], "resp_x");
}

#[test]
fn times_show_in_stamps_alone() {
    let input = b"data: {\"type\":\"response.created\",\"response\":{\"id\":\"resp_t\"}}\n\ndata: {\"type\":\"response.output_text.delta\",\"delta\":\"a\"}\n\ndata: {\"type\":\"response.completed\",\"response\":{\"id\":\"resp_t\"}}\n\n";
    let whole = normalize_sse_at(input, CompatMode::Full, "m", "r", 1000);
    let mut n = StreamNormalizer::new(CompatMode::Full, "m", "r");
    let mut cut = Vec::new();
    for (i, chunk) in input.chunks(11).enumerate() {
        cut.extend(n.push_at(chunk, 2000 + i as u64));
    }
    cut.extend(n.finish_at(9000));
    assert_ne!(cut, whole);
    assert_eq!(stable_sse_bytes(&cut), stable_sse_bytes(&whole));
    let given = b"data: {\"type\":\"response.created\",\"response\":{\"created_at\":5}}\n\ndata: {\"type\":\"response.output_text.delta\",\"delta\":\"a\"}\n\ndata: [DONE]\n\n";
    assert_eq!(
        normalize_sse_at(given, CompatMode::Full, "m", "r", 1),
        normalize_sse_at(given, CompatMode::Full, "m", "r", 2)
    );
}
