//! What request events do to the monitor's store.

use grok_build_proxy::events::{
    FailureKind, RequestDiagnostics, RequestEvent, RequestEventKind, RequestPhase, TokenUsage,
};
use grok_build_proxy::store::model::{DEFAULT_CAP, METRICS_CAP};
use grok_build_proxy::store::rates::{Rate, Share};
use grok_build_proxy::store::{cap_from_setting, Dashboard, Moment, Request};

const SECOND: u64 = 1_000_000_000;
const NOW: u64 = 1_000 * SECOND;
const NO_TOKENS: TokenUsage = TokenUsage {
    input_tokens: 0,
    cached_input_tokens: 0,
    cache_write_tokens: 0,
    output_tokens: 0,
};

fn moment() -> Moment {
    Moment { tick: NOW, wall: 1_800_000_000_000_000_000 }
}

fn per_second(rate: Rate) -> f64 {
    if rate.nanos > 0 {
        rate.tokens as f64 / (rate.nanos as f64 / 1e9)
    } else {
        0.0
    }
}

fn wall_rate(request: &Request) -> f64 {
    per_second(request.rate(NOW))
}

fn generation_rate(request: &Request) -> f64 {
    per_second(request.generation_rate(NOW))
}

fn ratio(share: Option<Share>) -> Option<f64> {
    share.map(|s| s.part as f64 / s.whole as f64)
}

fn base_event(kind: RequestEventKind) -> RequestEvent {
    RequestEvent {
        kind,
        request_id: "req\n1".into(),
        session_id: "session".into(),
        requested_model: "alias".into(),
        model: "gpt".into(),
        provider: "codex".into(),
        status_code: 200,
        usage: None,
        output_tokens: 20,
        error: String::new(),
        started_at: NOW - 2 * SECOND,
        duration_ms: 2000,
        failure_kind: None,
        error_type: String::new(),
        response_id: String::new(),
        mapped: true,
        lite: true,
        fast: false,
        auth_retried: false,
        attempt: 1,
        output_count: 0,
        capture_bytes: 0,
        warn_on_cache_miss: false,
        diagnostics: RequestDiagnostics::none(),
        phase: RequestPhase::Preparing,
        streamed_bytes: 0,
        stream_chunks: 0,
        mark_generation_start: false,
    }
}

#[test]
fn provider_threads_to_session_and_failure() {
    let mut d = Dashboard::new();
    let mut start = base_event(RequestEventKind::Started);
    start.provider = "kimi".into();
    d.apply(&start, moment());
    assert_eq!(d.snapshot().active[0].provider, "kimi");
    let mut fail = base_event(RequestEventKind::Failed);
    fail.provider = "kimi".into();
    fail.failure_kind = Some(FailureKind::UpstreamHttp);
    d.apply(&fail, moment());
    let s = d.snapshot();
    assert_eq!(s.sessions[0].last_provider, "kimi");
    assert_eq!(s.failures[0].provider, "kimi");
}

#[test]
fn updated_mutates_active_only_never_failures() {
    let mut d = Dashboard::new();
    d.apply(&base_event(RequestEventKind::Started), moment());
    let mut upd = base_event(RequestEventKind::Updated);
    upd.phase = RequestPhase::Streaming;
    upd.output_tokens = 50;
    upd.streamed_bytes = 1000;
    upd.stream_chunks = 5;
    upd.mark_generation_start = true;
    d.apply(&upd, moment());
    let s = d.snapshot();
    assert_eq!(s.active.len(), 1);
    assert_eq!(s.active[0].phase, RequestPhase::Streaming);
    assert_eq!(s.active[0].output_tokens, 50);
    assert_eq!(s.active[0].streamed_bytes, 1000);
    assert!(s.active[0].generation_started_at.is_some());
    assert!(s.recent.is_empty());
    assert!(s.failures.is_empty());
    assert!(s.errors.is_empty());
}

#[test]
fn progress_then_completed_does_not_double_count_tokens() {
    let mut d = Dashboard::new();
    d.apply(&base_event(RequestEventKind::Started), moment());
    let mut upd = base_event(RequestEventKind::Updated);
    upd.phase = RequestPhase::Streaming;
    upd.output_tokens = 40;
    upd.streamed_bytes = 800;
    d.apply(&upd, moment());
    let mut done = base_event(RequestEventKind::Completed);
    done.output_tokens = 40; // same absolute final, not 40+40
    done.output_count = 1;
    d.apply(&done, moment());
    let s = d.snapshot();
    assert!(s.active.is_empty());
    assert_eq!(s.recent[0].output_tokens, 40);
    assert_eq!(s.sessions[0].output_tokens, 40);
}

#[test]
fn generation_window_rate_exceeds_wall_clock_on_ttft_heavy_turn() {
    let mut d = Dashboard::new();
    let start_at = NOW - 10 * SECOND;
    let mut start = base_event(RequestEventKind::Started);
    start.started_at = start_at;
    d.apply(&start, moment());
    // Generation starts late (TTFT ~8s).
    let mut upd = base_event(RequestEventKind::Updated);
    upd.started_at = start_at;
    upd.phase = RequestPhase::Streaming;
    upd.mark_generation_start = true;
    upd.output_tokens = 0;
    d.apply(&upd, moment());
    // Simulate generation window of ~2s with 100 tokens by setting generation_started_at back.
    {
        let req = d.active.get_mut("req\n1").expect("active");
        req.generation_started_at = Some(NOW - 2 * SECOND);
        req.generation_initial_output_tokens = 0;
    }
    let mut done = base_event(RequestEventKind::Completed);
    done.started_at = start_at;
    done.duration_ms = 10_000;
    done.output_tokens = 100;
    done.output_count = 1;
    d.apply(&done, moment());
    let req = &d.snapshot().recent[0];
    let wall = wall_rate(req);
    let gen_rate = generation_rate(req);
    assert!(
        gen_rate > wall,
        "generation rate {gen_rate} should exceed wall-clock {wall} on TTFT-heavy turn"
    );
    assert!(wall > 0.0 && wall < 15.0, "wall ~10 tok/s, got {wall}");
    assert!(gen_rate > 30.0, "gen ~50 tok/s, got {gen_rate}");
}

/// Terminal-only generation mark (no mid-flight Updated): baseline must not be final
/// tokens, and gen rate must be > 0 when output tokens exist (Kimi non-stream path).
#[test]
fn terminal_only_generation_mark_yields_nonzero_gen_window() {
    let mut d = Dashboard::new();
    let start_at = NOW - 5 * SECOND;
    let mut start = base_event(RequestEventKind::Started);
    start.started_at = start_at;
    d.apply(&start, moment());

    let mut done = base_event(RequestEventKind::Completed);
    done.started_at = start_at;
    done.duration_ms = 5_000;
    done.output_tokens = 80;
    done.output_count = 1;
    done.diagnostics.first_chunk_ms = 2_000; // generation after ~2s TTFT
    done.mark_generation_start = true;
    done.phase = RequestPhase::Preparing; // publisher still stuck at Preparing
    d.apply(&done, moment());

    let req = &d.snapshot().recent[0];
    assert!(
        req.generation_started_at.is_some(),
        "terminal-only path must mark generation"
    );
    assert_eq!(
        req.generation_initial_output_tokens, 0,
        "baseline must be pre-final (0), not final output_tokens"
    );
    let gen_tokens = req
        .output_tokens
        .saturating_sub(req.generation_initial_output_tokens);
    assert_eq!(gen_tokens, 80, "gen tokens must equal final output");
    let gen_rate = generation_rate(req);
    assert!(
        gen_rate > 0.0,
        "gen rate must be non-zero with tokens; got {gen_rate}"
    );
    // ~80 tokens over ~3s generation window → well above 0
    assert!(
        gen_rate > 10.0,
        "expected meaningful gen rate from first_chunk_ms reconstruction, got {gen_rate}"
    );
}

/// Terminal must not regress an already-advanced phase to Preparing.
#[test]
fn terminal_does_not_regress_phase_to_preparing() {
    let mut d = Dashboard::new();
    d.apply(&base_event(RequestEventKind::Started), moment());
    let mut upd = base_event(RequestEventKind::Updated);
    upd.phase = RequestPhase::Streaming;
    d.apply(&upd, moment());
    assert_eq!(d.snapshot().active[0].phase, RequestPhase::Streaming);

    let mut done = base_event(RequestEventKind::Completed);
    done.phase = RequestPhase::Preparing; // base_event default from many publishers
    d.apply(&done, moment());

    let recent = &d.snapshot().recent[0];
    assert_eq!(
        recent.phase,
        RequestPhase::Streaming,
        "terminal Preparing must not overwrite advanced Streaming phase"
    );
}

/// Zero-length generation window falls back to wall-clock (not 0.0).
#[test]
fn zero_length_generation_window_falls_back_to_wall_clock() {
    let mut d = Dashboard::new();
    let start_at = NOW - 4 * SECOND;
    let mut start = base_event(RequestEventKind::Started);
    start.started_at = start_at;
    d.apply(&start, moment());
    // Force a zero-length generation window: mark at ended_at with baseline == final.
    {
        let req = d.active.get_mut("req\n1").expect("active");
        req.generation_started_at = Some(NOW);
        req.generation_initial_output_tokens = 0;
    }
    let mut done = base_event(RequestEventKind::Completed);
    done.started_at = start_at;
    done.duration_ms = 4_000;
    done.output_tokens = 40;
    done.output_count = 1;
    // Clear mark signals so maybe_mark_generation does not rewrite our zero window;
    // but terminal apply will set ended_at ≈ generation_started_at.
    done.mark_generation_start = false;
    done.diagnostics.first_chunk_ms = 0;
    done.output_tokens = 40;
    d.apply(&done, moment());

    // After complete, force generation_started_at == ended_at for a pure zero window.
    {
        let req = d.recent.first_mut().expect("recent");
        let ended = req.ended_at.expect("ended");
        req.generation_started_at = Some(ended);
        req.generation_initial_output_tokens = 0;
        req.output_tokens = 40;
    }
    let req = &d.snapshot().recent[0];
    let wall = wall_rate(req);
    let gen_rate = generation_rate(req);
    assert!(wall > 0.0, "wall-clock rate should be positive, got {wall}");
    assert!(
        (gen_rate - wall).abs() < 1e-9,
        "zero-length gen window must fall back to wall-clock: gen={gen_rate} wall={wall}"
    );
}

#[test]
fn recent_cap_default_is_at_least_200() {
    assert!(cap_from_setting(None) >= 200);
    let mut d = Dashboard::with_recent_cap(3);
    for i in 0..5 {
        let mut start = base_event(RequestEventKind::Started);
        start.request_id = format!("r{i}");
        d.apply(&start, moment());
        let mut done = base_event(RequestEventKind::Completed);
        done.request_id = format!("r{i}");
        d.apply(&done, moment());
    }
    assert_eq!(d.snapshot().recent.len(), 3);
}

#[test]
fn session_output_buckets_recorded_on_complete() {
    let mut d = Dashboard::new();
    d.apply(&base_event(RequestEventKind::Started), moment());
    d.apply(&base_event(RequestEventKind::Completed), moment());
    let s = d.snapshot();
    assert!(
        !s.sessions[0].output_token_buckets.is_empty(),
        "expected per-session token bucket after complete"
    );
    assert_eq!(s.sessions[0].output_token_buckets.last().copied(), Some(20));
}

#[test]
fn store_lifecycle_updates_bounded_state() {
    let mut d = Dashboard::new();
    d.apply(&base_event(RequestEventKind::Started), moment());
    assert_eq!(d.snapshot().active.len(), 1);
    d.apply(&base_event(RequestEventKind::Completed), moment());
    let s = d.snapshot();
    assert!(s.active.is_empty());
    assert_eq!(s.recent.len(), 1);
    assert_eq!(s.sessions[0].active, 0);
    assert_eq!(s.sessions[0].output_tokens, 20);
    assert!(!s.recent[0].id.contains('\n'));
    assert!(s.recent[0].mapped);
    assert!(s.recent[0].lite);
}

#[test]
fn request_diagnostics_reach_active_recent_and_failure_records() {
    let mut dashboard = Dashboard::new();
    let diagnostics = RequestDiagnostics {
        request_body_bytes: 1234,
        input_item_count: 9,
        proxy_prepare_ms: 3,
        credential_ms: 4,
        upstream_headers_ms: 5,
        first_chunk_ms: 8,
        request_fingerprint: "fp-safe".into(),
    };

    let mut started = base_event(RequestEventKind::Started);
    started.diagnostics = diagnostics.copy();
    dashboard.apply(&started, moment());
    assert_eq!(dashboard.snapshot().active[0].diagnostics, diagnostics);

    let mut failed = base_event(RequestEventKind::Failed);
    failed.failure_kind = Some(FailureKind::ProxyAssemble);
    failed.diagnostics = diagnostics.copy();
    dashboard.apply(&failed, moment());

    let snapshot = dashboard.snapshot();
    assert_eq!(snapshot.recent[0].diagnostics, diagnostics);
    assert_eq!(snapshot.failures[0].diagnostics, diagnostics);
}

fn observe_turn(
    dashboard: &mut Dashboard,
    request_id: &str,
    fingerprint: &str,
    kind: RequestEventKind,
    output_count: u32,
) {
    let mut started = base_event(RequestEventKind::Started);
    started.request_id = request_id.into();
    started.diagnostics.request_fingerprint = fingerprint.into();
    dashboard.apply(&started, moment());

    let mut terminal = base_event(kind);
    terminal.request_id = request_id.into();
    terminal.output_count = output_count;
    terminal.diagnostics.request_fingerprint = fingerprint.into();
    if kind == RequestEventKind::Failed {
        terminal.failure_kind = Some(FailureKind::ProxyAssemble);
        terminal.error_type = "proxy_incomplete_output".into();
    }
    dashboard.apply(&terminal, moment());
}

#[test]
fn matching_suspicious_fingerprints_are_retry_candidates() {
    let mut dashboard = Dashboard::new();
    observe_turn(
        &mut dashboard,
        "first",
        "same-fingerprint",
        RequestEventKind::Failed,
        0,
    );
    observe_turn(
        &mut dashboard,
        "second",
        "same-fingerprint",
        RequestEventKind::Completed,
        1,
    );

    let snapshot = dashboard.snapshot();
    assert!(
        snapshot
            .recent
            .iter()
            .all(|request| request.retry_candidate)
    );
    assert!(snapshot.failures[0].retry_candidate);
}

#[test]
fn successful_repeats_and_different_fingerprints_are_not_retry_candidates() {
    let mut dashboard = Dashboard::new();
    for request_id in ["success-a", "success-b"] {
        observe_turn(
            &mut dashboard,
            request_id,
            "successful-repeat",
            RequestEventKind::Completed,
            1,
        );
    }
    observe_turn(
        &mut dashboard,
        "different",
        "different-fingerprint",
        RequestEventKind::Failed,
        0,
    );

    assert!(
        dashboard
            .snapshot()
            .recent
            .iter()
            .all(|request| !request.retry_candidate)
    );
}

#[test]
fn matching_suspicious_fingerprints_after_window_are_not_retry_candidates() {
    let mut dashboard = Dashboard::new();
    let old_start = NOW - 31 * SECOND;

    let mut first_started = base_event(RequestEventKind::Started);
    first_started.request_id = "old".into();
    first_started.started_at = old_start;
    first_started.diagnostics.request_fingerprint = "same-fingerprint".into();
    dashboard.apply(&first_started, moment());
    let mut first_failed = base_event(RequestEventKind::Failed);
    first_failed.request_id = "old".into();
    first_failed.failure_kind = Some(FailureKind::ProxyAssemble);
    first_failed.diagnostics.request_fingerprint = "same-fingerprint".into();
    dashboard.apply(&first_failed, moment());

    let mut second_started = base_event(RequestEventKind::Started);
    second_started.request_id = "new".into();
    second_started.started_at = NOW;
    second_started.diagnostics.request_fingerprint = "same-fingerprint".into();
    dashboard.apply(&second_started, moment());
    let mut second_failed = base_event(RequestEventKind::Failed);
    second_failed.request_id = "new".into();
    second_failed.failure_kind = Some(FailureKind::ProxyAssemble);
    second_failed.diagnostics.request_fingerprint = "same-fingerprint".into();
    dashboard.apply(&second_failed, moment());

    assert!(
        dashboard
            .snapshot()
            .recent
            .iter()
            .all(|request| !request.retry_candidate)
    );
}

#[test]
fn aggregates_usage_with_weighted_cache_read_ratio() {
    let mut d = Dashboard::new();
    for (request_id, session_id, usage) in [
        (
            "large",
            "session-a",
            TokenUsage {
                input_tokens: 1_000,
                cached_input_tokens: 900,
                cache_write_tokens: 50,
                output_tokens: 20,
            },
        ),
        (
            "small",
            "session-a",
            TokenUsage {
                input_tokens: 10,
                cached_input_tokens: 0,
                cache_write_tokens: 4,
                output_tokens: 2,
            },
        ),
        ("zero", "session-b", NO_TOKENS),
    ] {
        let mut start = base_event(RequestEventKind::Started);
        start.request_id = request_id.into();
        start.session_id = session_id.into();
        d.apply(&start, moment());
        let mut completed = base_event(RequestEventKind::Completed);
        completed.request_id = request_id.into();
        completed.session_id = session_id.into();
        completed.usage = Some(usage);
        completed.output_tokens = usage.output_tokens;
        d.apply(&completed, moment());
    }

    let snapshot = d.snapshot();
    assert_eq!(snapshot.totals.usage_requests, 3);
    assert_eq!(snapshot.totals.input_tokens, 1_010);
    assert_eq!(snapshot.totals.cached_input_tokens, 900);
    assert_eq!(snapshot.totals.cache_write_tokens, 54);
    assert_eq!(snapshot.totals.fresh_input_tokens, 56);
    assert!((ratio(snapshot.totals.cache_read_share()).unwrap() - 900.0 / 1_010.0).abs() < 1e-12);
    assert_eq!(snapshot.recent[0].usage, Some(NO_TOKENS));

    let session_a = snapshot
        .sessions
        .iter()
        .find(|session| session.id == "session-a")
        .unwrap();
    assert_eq!(session_a.usage_requests, 2);
    assert_eq!(session_a.input_tokens, 1_010);
    assert_eq!(session_a.cached_input_tokens, 900);
    assert_eq!(session_a.cache_write_tokens, 54);
    assert_eq!(session_a.fresh_input_tokens, 56);
    // Weighted aggregate is ~89%, not the 45% average of per-request percentages.
    assert!((ratio(session_a.cache_read_share()).unwrap() - 900.0 / 1_010.0).abs() < 1e-12);

    let session_b = snapshot
        .sessions
        .iter()
        .find(|session| session.id == "session-b")
        .unwrap();
    assert_eq!(ratio(session_b.cache_read_share()), Some(0.0));
}

#[test]
fn missing_usage_is_not_counted_as_zero_usage() {
    let mut d = Dashboard::new();
    d.apply(&base_event(RequestEventKind::Started), moment());
    d.apply(&base_event(RequestEventKind::Completed), moment());
    let snapshot = d.snapshot();
    assert_eq!(snapshot.totals.usage_requests, 0);
    assert_eq!(ratio(snapshot.totals.cache_read_share()), None);
    assert_eq!(ratio(snapshot.sessions[0].cache_read_share()), None);
    assert_eq!(snapshot.recent[0].usage, None);
}


#[test]
fn failure_ring_respects_cap() {
    let mut d = Dashboard::with_failure_cap(5);
    for i in 0..12 {
        let mut start = base_event(RequestEventKind::Started);
        start.request_id = format!("req-{i}");
        d.apply(&start, moment());
        let mut fail = base_event(RequestEventKind::Failed);
        fail.request_id = format!("req-{i}");
        fail.failure_kind = Some(FailureKind::UpstreamHttp);
        fail.error_type = "upstream_http".into();
        fail.error = format!("err {i}");
        fail.status_code = 502;
        d.apply(&fail, moment());
    }
    let s = d.snapshot();
    assert_eq!(s.failures.len(), 5);
    assert_eq!(s.errors.len(), 12); // recent-errors ring uses RECENT_CAP (50)
    assert_eq!(s.failures[0].request_id, "req-11");
    assert_eq!(s.failures[4].request_id, "req-7");
}

#[test]
fn classifies_proxy_assemble_failure_record() {
    let mut d = Dashboard::new();
    d.apply(&base_event(RequestEventKind::Started), moment());
    let mut fail = base_event(RequestEventKind::Failed);
    fail.failure_kind = Some(FailureKind::ProxyAssemble);
    fail.error_type = "proxy_incomplete_output".into();
    fail.error = "could not assemble".into();
    fail.status_code = 200;
    fail.response_id = "resp_x".into();
    fail.output_count = 1;
    fail.capture_bytes = 4096;
    d.apply(&fail, moment());
    let s = d.snapshot();
    assert_eq!(s.failures.len(), 1);
    let f = &s.failures[0];
    assert_eq!(f.kind, FailureKind::ProxyAssemble);
    assert_eq!(f.error_type, "proxy_incomplete_output");
    assert_eq!(f.status_code, 200);
    assert_eq!(f.session_failure_index, 1);
    assert_eq!(f.response_id, "resp_x");
    assert_eq!(
        s.sessions[0].last_failure_kind,
        Some(FailureKind::ProxyAssemble)
    );
    assert_eq!(s.sessions[0].errors, 1);
}

#[test]
fn auth_retry_attempt_field_recorded() {
    let mut d = Dashboard::new();
    let mut start = base_event(RequestEventKind::Started);
    start.auth_retried = true;
    start.attempt = 2;
    d.apply(&start, moment());
    let mut fail = base_event(RequestEventKind::Failed);
    fail.auth_retried = true;
    fail.attempt = 2;
    fail.failure_kind = Some(FailureKind::AuthRetryFailed);
    fail.error_type = "auth_retry_failed".into();
    fail.status_code = 401;
    d.apply(&fail, moment());
    let s = d.snapshot();
    assert_eq!(s.failures[0].attempt, 2);
    assert!(s.failures[0].auth_retried);
    assert_eq!(s.failures[0].kind, FailureKind::AuthRetryFailed);
    assert_eq!(s.recent[0].attempt, 2);
}

#[test]
fn started_reobserve_updates_active_attempt() {
    let mut d = Dashboard::new();
    d.apply(&base_event(RequestEventKind::Started), moment());
    assert_eq!(d.snapshot().active[0].attempt, 1);
    assert!(!d.snapshot().active[0].auth_retried);
    let mut retry = base_event(RequestEventKind::Started);
    retry.auth_retried = true;
    retry.attempt = 2;
    d.apply(&retry, moment());
    let s = d.snapshot();
    assert_eq!(s.active.len(), 1);
    assert_eq!(s.active[0].attempt, 2);
    assert!(s.active[0].auth_retried);
    assert_eq!(s.sessions[0].requests, 1); // not double-counted
    assert_eq!(s.sessions[0].active, 1);
}

#[test]
fn started_reobserve_does_not_regress_phase_from_upstream() {
    // Auth-retry re-emits Started with phase=Preparing; hang diagnosis must keep Upstream.
    let mut d = Dashboard::new();
    d.apply(&base_event(RequestEventKind::Started), moment());
    let mut upstream = base_event(RequestEventKind::Updated);
    upstream.phase = RequestPhase::Upstream;
    d.apply(&upstream, moment());
    assert_eq!(d.snapshot().active[0].phase, RequestPhase::Upstream);

    let mut retry = base_event(RequestEventKind::Started);
    retry.auth_retried = true;
    retry.attempt = 2;
    retry.phase = RequestPhase::Preparing; // base_event default — must not overwrite
    d.apply(&retry, moment());

    let active = &d.snapshot().active[0];
    assert_eq!(active.phase, RequestPhase::Upstream);
    assert_eq!(active.attempt, 2);
    assert!(active.auth_retried);
}


#[test]
fn completion_metrics_roll_forward_at_capacity() {
    let mut d = Dashboard::new();
    for i in 0..=METRICS_CAP {
        let mut start = base_event(RequestEventKind::Started);
        start.request_id = format!("metric-{i}");
        d.apply(&start, moment());
        let mut done = base_event(if i == METRICS_CAP {
            RequestEventKind::Failed
        } else {
            RequestEventKind::Completed
        });
        done.request_id = format!("metric-{i}");
        d.apply(&done, moment());
    }
    let samples = d.snapshot().metrics_completed;
    assert_eq!(samples.len(), METRICS_CAP);
    assert_eq!(samples.first(), Some(&true));
    assert_eq!(samples.last(), Some(&false));
}

#[test]
fn full_session_keys_do_not_collide_after_display_truncation() {
    let mut d = Dashboard::new();
    let prefix = "x".repeat(256);
    for suffix in ["a", "b"] {
        let mut start = base_event(RequestEventKind::Started);
        start.request_id = format!("req-{suffix}");
        start.session_id = format!("{prefix}{suffix}");
        d.apply(&start, moment());
    }
    let snapshot = d.snapshot();
    assert_eq!(snapshot.sessions.len(), 2);
    assert_eq!(snapshot.active.len(), 2);
    assert_ne!(snapshot.sessions[0].id, snapshot.sessions[1].id);
    assert_ne!(snapshot.active[0].session_id, snapshot.active[1].session_id);
}

#[test]
fn completion_does_not_push_tok_s_ring() {
    let mut d = Dashboard::new();
    d.apply(&base_event(RequestEventKind::Started), moment());
    d.apply(&base_event(RequestEventKind::Completed), moment());
    assert_eq!(d.snapshot().metrics_completed, vec![true]);
}

#[test]
fn session_context_keeps_latest_non_empty_values() {
    let mut d = Dashboard::new();
    d.apply(&base_event(RequestEventKind::Started), moment());
    d.apply_session_context("session", "first prompt", "/tmp/first", moment());
    d.apply_session_context("session", "", "/tmp/second", moment());
    let snapshot = d.snapshot();
    assert_eq!(snapshot.sessions[0].last_prompt, "first prompt");
    assert_eq!(snapshot.sessions[0].cwd, "/tmp/second");
}

#[test]
fn failures_for_report_filters_kind() {
    let mut d = Dashboard::new();
    for (i, kind) in [
        FailureKind::ProxyAssemble,
        FailureKind::UpstreamHttp,
        FailureKind::ProxyAssemble,
    ]
    .into_iter()
    .enumerate()
    {
        let mut start = base_event(RequestEventKind::Started);
        start.request_id = format!("r{i}");
        d.apply(&start, moment());
        let mut fail = base_event(RequestEventKind::Failed);
        fail.request_id = format!("r{i}");
        fail.failure_kind = Some(kind);
        d.apply(&fail, moment());
    }
    assert_eq!(
        d.failures_for_report(Some(FailureKind::ProxyAssemble))
            .len(),
        2
    );
    assert_eq!(d.failures_for_report(None).len(), 3);
}
#[test]
fn caps_come_from_settings() {
    assert_eq!(DEFAULT_CAP, 200);
    assert_eq!(cap_from_setting(None), 200);
    assert_eq!(cap_from_setting(Some("7")), 7);
    assert_eq!(cap_from_setting(Some("0")), 200);
    assert_eq!(cap_from_setting(Some("many")), 200);
    let d = Dashboard::new();
    assert_eq!(d.failure_cap, 200);
    assert_eq!(d.recent_cap, 200);
    assert_eq!(Dashboard::with_failure_cap(0).failure_cap, 1);
}

#[test]
fn ended_turns_do_not_end_again() {
    let mut d = Dashboard::new();
    d.apply(&base_event(RequestEventKind::Started), moment());
    d.apply(&base_event(RequestEventKind::Completed), moment());
    d.apply(&base_event(RequestEventKind::Completed), moment());
    d.apply(&base_event(RequestEventKind::Failed), moment());
    let s = d.snapshot();
    assert_eq!(s.recent.len(), 1);
    assert_eq!(s.sessions[0].output_tokens, 20);
    assert!(s.failures.is_empty());
}

#[test]
fn demo_sessions_are_shown() {
    let mut d = Dashboard::new();
    d.seed_demo_fixture(moment());
    let s = d.snapshot();
    assert!(!s.sessions.is_empty());
    assert!(!s.failures.is_empty());
}

#[test]
fn ended_turns_hear_nothing_more() {
    let mut d = Dashboard::new();
    d.apply(&base_event(RequestEventKind::Started), moment());
    d.apply(&base_event(RequestEventKind::Completed), moment());
    for kind in [RequestEventKind::Started, RequestEventKind::Updated, RequestEventKind::Failed] {
        d.apply(&base_event(kind), moment());
        let snapshot = d.snapshot();
        assert_eq!(snapshot.active.len(), 0);
        assert_eq!(snapshot.recent.len(), 1);
        assert_eq!(snapshot.failures.len(), 0);
    }
}
