//! The rows of the monitor's panels and its windows of detail.

use grok_build_proxy::events::{
    FailureKind, RequestDiagnostics, RequestEvent, RequestEventKind, RequestPhase,
};
use grok_build_proxy::monitor::app::{App, FailureFilter, Focus, Key, Mode};
use grok_build_proxy::monitor::detail::{
    failure_detail_text, session_detail_text, shown_turn, turn_detail_text,
};
use grok_build_proxy::monitor::failures::{
    day_time, failure_label, filtered, group_failures, groups, ordered, row_count, title,
    RETRY_GROUP_WINDOW_SECS,
};
use grok_build_proxy::monitor::sessions::{
    active_sessions, failed, session_label, session_rows, turn_label, TurnKind,
};
use grok_build_proxy::store::{
    Dashboard, FailureRecord, Moment, Request, Session, Snapshot, Totals,
};

const SECOND: u64 = 1_000_000_000;
const NOW: u64 = 1_000 * SECOND;
/// Noon on 18 July 2026.
const T0: i64 = 1_784_376_000_000_000_000;

fn at(seconds: i64) -> i64 {
    T0 + seconds * 1_000_000_000
}

fn rec_at(kind: FailureKind, session: &str, req: &str, ts: i64) -> FailureRecord {
    FailureRecord {
        ts,
        request_id: req.into(),
        session_id: session.into(),
        requested_model: "a".into(),
        model: "m".into(),
        provider: String::new(),
        status_code: 502,
        duration_ms: 10,
        kind,
        error_type: "t".into(),
        error_message: "e".into(),
        response_id: String::new(),
        mapped: true,
        lite: false,
        fast: false,
        auth_retried: false,
        attempt: 1,
        output_count: 0,
        capture_bytes: 0,
        session_failure_index: 1,
        diagnostics: RequestDiagnostics::none(),
        retry_candidate: false,
    }
}

fn rec(kind: FailureKind) -> FailureRecord {
    rec_at(kind, "s", "r", T0)
}

fn snapshot(
    sessions: Vec<Session>,
    active: Vec<Request>,
    recent: Vec<Request>,
    failures: Vec<FailureRecord>,
) -> Snapshot {
    Snapshot {
        sessions,
        active,
        recent,
        errors: vec![],
        failures,
        metrics_completed: vec![],
        totals: Totals {
            input_tokens: 0,
            cached_input_tokens: 0,
            cache_write_tokens: 0,
            fresh_input_tokens: 0,
            usage_requests: 0,
        },
    }
}

fn req(id: &str, session: &str) -> Request {
    Request {
        id: id.into(),
        session_id: session.into(),
        requested_model: "m".into(),
        model: "m".into(),
        provider: String::new(),
        status: 200,
        error: String::new(),
        error_type: String::new(),
        failure_kind: None,
        usage: None,
        output_tokens: 0,
        started_at: NOW,
        ended_at: None,
        duration_ms: 0,
        response_id: String::new(),
        mapped: false,
        lite: false,
        fast: false,
        auth_retried: false,
        attempt: 1,
        output_count: 0,
        capture_bytes: 0,
        diagnostics: RequestDiagnostics::none(),
        retry_candidate: false,
        phase: RequestPhase::Preparing,
        streamed_bytes: 0,
        stream_chunks: 0,
        generation_started_at: None,
        generation_initial_output_tokens: 0,
    }
}

fn live(id: &str, active: u64, requests: u64) -> Session {
    let mut session = Session::named(id);
    session.active = active;
    session.requests = requests;
    session
}

#[test]
fn filter_selects_kinds() {
    let failures = vec![
        rec(FailureKind::ProxyAssemble),
        rec(FailureKind::UpstreamHttp),
        rec(FailureKind::UpstreamConnect),
        rec(FailureKind::StreamIo),
        rec(FailureKind::StreamTerminalFailed),
        rec(FailureKind::AuthRetryFailed),
        rec(FailureKind::ClientRejected),
        rec(FailureKind::Unknown),
    ];
    assert_eq!(row_count(&failures, FailureFilter::All), 8);
    assert_eq!(row_count(&failures, FailureFilter::ProxyAssemble), 1);
    assert_eq!(row_count(&failures, FailureFilter::Upstream), 2);
    assert_eq!(row_count(&failures, FailureFilter::Auth), 1);
    assert_eq!(row_count(&failures, FailureFilter::Stream), 2);
    for filter in [
        FailureFilter::ProxyAssemble,
        FailureFilter::Upstream,
        FailureFilter::Auth,
        FailureFilter::Stream,
    ] {
        let kinds: Vec<FailureKind> =
            filtered(&failures, filter).iter().map(|f| f.kind).collect();
        assert!(!kinds.contains(&FailureKind::ClientRejected));
        assert!(!kinds.contains(&FailureKind::Unknown));
    }
}

#[test]
fn groups_same_session_within_30s() {
    let failures = [
        rec_at(FailureKind::ProxyAssemble, "abc", "r1", T0),
        rec_at(FailureKind::ProxyAssemble, "abc", "r2", at(8)),
        rec_at(FailureKind::UpstreamHttp, "abc", "r3", at(15)),
        rec_at(FailureKind::StreamIo, "abc", "r4", at(50)),
        rec_at(FailureKind::UpstreamHttp, "other", "r5", at(1)),
    ];
    let groups = group_failures(&failures);
    assert_eq!(groups.len(), 3);
    let multi = groups
        .iter()
        .find(|g| g.session_id == "abc" && g.members.len() == 3)
        .expect("3-member abc group");
    assert!(multi.estimated());
    assert_eq!(multi.span_secs(), 15);
    assert!(multi.kind_summary().contains("ProxyAssemble×2"));
    assert!(multi.kind_summary().contains("UpstreamHttp×1"));
    assert_eq!(multi.kind_summary(), "ProxyAssemble×2, UpstreamHttp×1");

    let late = groups
        .iter()
        .find(|g| g.session_id == "abc" && g.members.len() == 1)
        .expect("solo late abc");
    assert!(!late.estimated());
    assert_eq!(late.members[0].request_id, "r4");
}

#[test]
fn gap_over_30s_splits_group() {
    let failures = [
        rec_at(FailureKind::ProxyAssemble, "s", "a", T0),
        rec_at(FailureKind::ProxyAssemble, "s", "b", at(31)),
    ];
    let groups = group_failures(&failures);
    assert_eq!(groups.len(), 2);
    assert!(groups.iter().all(|g| !g.estimated()));
}

#[test]
fn gap_exactly_30s_forms_estimated_group() {
    let failures = [
        rec_at(FailureKind::ProxyAssemble, "s", "a", T0),
        rec_at(FailureKind::UpstreamHttp, "s", "b", at(RETRY_GROUP_WINDOW_SECS)),
    ];
    let groups = group_failures(&failures);
    assert_eq!(groups.len(), 1, "gap == 30s is inclusive");
    assert!(groups[0].estimated());
    assert_eq!(groups[0].span_secs(), RETRY_GROUP_WINDOW_SECS);
}

#[test]
fn chained_gaps_extend_group_beyond_30s_span() {
    let failures = [
        rec_at(FailureKind::ProxyAssemble, "s", "a", T0),
        rec_at(FailureKind::ProxyAssemble, "s", "b", at(25)),
        rec_at(FailureKind::UpstreamHttp, "s", "c", at(50)),
    ];
    let groups = group_failures(&failures);
    assert_eq!(groups.len(), 1);
    assert_eq!(groups[0].members.len(), 3);
    assert_eq!(groups[0].span_secs(), 50);
}

#[test]
fn ordered_newest_group_first() {
    let failures = vec![
        rec_at(FailureKind::UpstreamHttp, "s2", "new", at(100)),
        rec_at(FailureKind::ProxyAssemble, "s1", "mid", at(5)),
        rec_at(FailureKind::ProxyAssemble, "s1", "old", T0),
    ];
    let ordered = ordered(&failures, FailureFilter::All);
    assert_eq!(ordered[0].request_id, "new");
    assert_eq!(ordered[1].request_id, "mid");
    assert_eq!(ordered[2].request_id, "old");
}

#[test]
fn estimated_retry_group_label_in_panel() {
    let failures = vec![
        rec_at(FailureKind::ProxyAssemble, "sess-g", "g1", T0),
        rec_at(FailureKind::UpstreamHttp, "sess-g", "g2", at(12)),
    ];
    let shown = groups(&failures, FailureFilter::All);
    assert_eq!(
        failure_label(&shown[0], 0),
        "12:00:12  UpstreamHttp       sess-g       t                      502 a1  \
         [×2 estimated 12s · ProxyAssemble×1, UpstreamHttp×1]"
    );
    assert_eq!(
        failure_label(&shown[0], 1),
        "  ↳ 12:00:00  ProxyAssemble      sess-g       t                      502 a1"
    );
    assert_eq!(title(FailureFilter::All, 2, 2), " failures [All] 2/2 ");
}

#[test]
fn no_failure_is_lost_in_groups() {
    let mut failures = vec![];
    for i in 0..20 {
        let session = format!("s{}", i % 3);
        let kind = if i % 2 == 0 { FailureKind::StreamIo } else { FailureKind::Unknown };
        failures.push(rec_at(kind, &session, &format!("r{i}"), at((i * 7) % 64)));
    }
    let mut seen: Vec<String> =
        ordered(&failures, FailureFilter::All).into_iter().map(|f| f.request_id).collect();
    seen.sort();
    let mut all: Vec<String> = failures.iter().map(|f| f.request_id.clone()).collect();
    all.sort();
    assert_eq!(seen, all);
    for group in group_failures(&failures) {
        for pair in group.members.windows(2) {
            assert!(pair[0].ts - pair[1].ts <= 30_000_000_000);
            assert_eq!(pair[0].session_id, group.session_id);
        }
    }
}

#[test]
fn times_of_day_are_in_utc() {
    assert_eq!(day_time(0), "00:00:00");
    assert_eq!(day_time(T0 + 3_661_000_000_000), "13:01:01");
    assert_eq!(day_time(-1), "23:59:59");
    assert_eq!(day_time(i64::MIN), "00:12:43");
}

#[test]
fn rows_scoped_to_session() {
    let snap = snapshot(
        vec![],
        vec![req("a1", "s1"), req("a2", "s2")],
        vec![req("r1", "s1"), req("r2", "s2"), req("r3", "s1")],
        vec![],
    );
    let rows = session_rows(&snap, Some("s1"));
    assert_eq!(rows.len(), 3);
    assert_eq!(rows[0].1.id, "a1");
    assert_eq!(rows[1].1.id, "r1");
    assert_eq!(rows[2].1.id, "r3");
    assert!(session_rows(&snap, None).is_empty());
    assert!(session_rows(&snap, Some("missing")).is_empty());
}

#[test]
fn rows_join_on_full_session_key() {
    let prefix = "x".repeat(256);
    let first = format!("{prefix}a");
    let second = format!("{prefix}b");
    let snap = snapshot(vec![], vec![req("a1", &first), req("a2", &second)], vec![], vec![]);
    let rows = session_rows(&snap, Some(&first));
    assert_eq!(rows.len(), 1);
    assert_eq!(rows[0].1.id, "a1");
}

#[test]
fn active_sessions_filters_idle() {
    let snap = snapshot(vec![live("idle", 0, 3), live("live", 2, 5)], vec![], vec![], vec![]);
    let list = active_sessions(&snap);
    assert_eq!(list.len(), 1);
    assert_eq!(list[0].id, "live");
}

#[test]
fn turns_and_sessions_fill_a_row() {
    let mut turn = req("a-very-long-request-name", "s");
    assert_eq!(
        turn_label(TurnKind::Active, &turn, "2.0"),
        "▶ a-very-long-r… m                2.0s a1"
    );
    turn.status = 502;
    assert!(failed(&turn));
    assert_eq!(
        turn_label(TurnKind::Recent, &turn, "2.0"),
        "  a-very-long-r… m              HTTP 502"
    );
    turn.failure_kind = Some(FailureKind::StreamIo);
    assert!(turn_label(TurnKind::Recent, &turn, "2.0").ends_with(" StreamIo"));
    turn.error_type = "boom".into();
    assert!(turn_label(TurnKind::Recent, &turn, "2.0").ends_with(" boom"));
    let mut session = live("sess", 1, 4);
    session.last_model = "gpt".into();
    session.last_failure_kind = Some(FailureKind::ProxyAssemble);
    assert_eq!(
        session_label(&session, "12.5"),
        "sess             gpt            r  4 e  0  12.5t/s last=ProxyAssemble"
    );
}

#[test]
fn detail_text_failure_fields_and_stable_id() {
    let snap = snapshot(
        vec![],
        vec![],
        vec![],
        vec![
            rec_at(FailureKind::UpstreamHttp, "s2", "newer", at(90)),
            rec_at(FailureKind::ProxyAssemble, "s1", "older", T0),
        ],
    );
    let mut app = App::new(NOW);
    app.focus = Focus::Failures;
    app.selected = 1;
    let text = failure_detail_text(&snap, &app);
    assert_eq!(
        text,
        "Failure older\n  ts: 2026-07-18T12:00:00+00:00\n  kind: ProxyAssemble\n  session: s1\n  \
         model: m (requested a)\n  status: 502  attempt: 1\n  duration_ms: 10  session_fail#: 1\n  \
         error_type: t\n  message: e\n  response_id: -\n  mapped: true  lite: false  fast: false\n  \
         auth_retried: false  outputs: 0  capture_bytes: 0"
    );
    app.pin_failure_detail("newer");
    assert!(failure_detail_text(&snap, &app).starts_with("Failure newer\n"));
    app.pin_failure_detail("gone");
    assert_eq!(
        failure_detail_text(&snap, &app),
        "Failure gone\n  (failure no longer in ring)"
    );
    app.detail_request_id = None;
    app.selected = 7;
    assert_eq!(failure_detail_text(&snap, &app), "No failure selected");
}

#[test]
fn details_of_sessions_and_turns() {
    let mut session = live("sess", 1, 4);
    session.last_model = "gpt".into();
    session.output_tokens = 9;
    assert_eq!(
        session_detail_text(Some(&session), "1.5"),
        "Session sess\n  model: gpt\n  requests: 4  active: 1  errors: 0\n  tokens: 9  tok/s: 1.5\n  \
         last_failure: -"
    );
    assert_eq!(session_detail_text(None, ""), "No session selected");
    let mut turn = req("t", "sess");
    turn.error_type = "stream_io".into();
    turn.failure_kind = Some(FailureKind::StreamIo);
    assert_eq!(
        turn_detail_text(Some((TurnKind::Recent, &turn)), "2.0"),
        "Turn t (recent)\n  session: sess\n  model: m (requested m)\n  status: 200  attempt: 1\n  \
         duration: 2.0s  tokens: 0\n  failure: StreamIo\n  error: stream_io"
    );
    assert_eq!(turn_detail_text(None, ""), "No turn selected");
}

#[test]
fn windows_keep_what_they_opened() {
    let mut snap = snapshot(
        vec![live("a", 1, 1)],
        vec![req("t1", "a"), req("t2", "a")],
        vec![],
        vec![rec_at(FailureKind::UpstreamHttp, "a", "f1", T0)],
    );
    let mut app = App::new(NOW);
    app.before_drawing(&snap, NOW);
    assert_eq!(app.selected_session_key.as_deref(), Some("a"));
    assert!(!app.take_key(Key::Tab, &snap));
    assert!(!app.take_key(Key::Down, &snap));
    assert!(!app.take_key(Key::Enter, &snap));
    assert_eq!(app.mode, Mode::Detail);
    assert_eq!(app.detail_turn_key.as_deref(), Some("t2"));
    snap.active.insert(0, req("t0", "a"));
    let rows = session_rows(&snap, Some("a"));
    assert_eq!(shown_turn(&rows, &app), Some(2));
    assert!(!app.take_key(Key::Esc, &snap));
    assert_eq!(app.detail_turn_key, None);

    assert!(!app.take_key(Key::Tab, &snap));
    assert!(!app.take_key(Key::Enter, &snap));
    assert_eq!(app.detail_request_id.as_deref(), Some("f1"));
    let before = failure_detail_text(&snap, &app);
    snap.failures.insert(0, rec_at(FailureKind::StreamIo, "a", "f2", at(1)));
    assert_eq!(failure_detail_text(&snap, &app), before);
    assert!(!app.take_key(Key::Esc, &snap));
    assert!(!app.take_key(Key::Tab, &snap));
    assert_eq!(app.focus, Focus::Sessions);
    assert_eq!(app.selected_session_key.as_deref(), Some("a"));
    assert!(app.take_key(Key::Char('q'), &snap));
}

#[test]
fn the_store_feeds_the_panels() {
    let mut d = Dashboard::new();
    let now = Moment { tick: NOW, wall: T0 };
    let event =
        RequestEvent::started("req-1", "sess", "alias", "gpt", true, true, false, NOW - SECOND);
    d.apply(&event, now);
    let mut failed_event = event.copy();
    failed_event.kind = RequestEventKind::Failed;
    failed_event.failure_kind = Some(FailureKind::UpstreamHttp);
    failed_event.status_code = 502;
    d.apply(&failed_event, now);
    let snap = d.snapshot();
    assert_eq!(row_count(&snap.failures, FailureFilter::Upstream), 1);
    assert_eq!(row_count(&snap.failures, FailureFilter::Auth), 0);
    assert!(active_sessions(&snap).is_empty());
}

#[test]
fn parts_of_a_second_count_towards_the_window() {
    let pair = |gap: i64| {
        [
            rec_at(FailureKind::ProxyAssemble, "s", "a", T0),
            rec_at(FailureKind::ProxyAssemble, "s", "b", T0 + gap),
        ]
    };
    assert_eq!(group_failures(&pair(30_900_000_000)).len(), 2);
    assert_eq!(group_failures(&pair(30_000_000_001)).len(), 2);
    assert_eq!(group_failures(&pair(30_000_000_000)).len(), 1);
    assert_eq!(group_failures(&pair(29_999_999_999)).len(), 1);
}
