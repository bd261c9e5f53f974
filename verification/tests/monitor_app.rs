//! What keys do to the monitor, and how it follows the sessions.

use grok_build_proxy::events::FailureKind;
use grok_build_proxy::monitor::app::{
    export_key, App, ExportKey, FailureFilter, Focus, Key, Mode,
};
use grok_build_proxy::monitor::layout::{token_bucket_sparkline, LayoutTier};
use grok_build_proxy::monitor::metrics::{
    alarm, completed_counts, should_show_metrics, spark_width, Alarm,
};
use grok_build_proxy::monitor::{
    detail_area, format_uptime, help_area, left, right, truncate, two_digits, Area,
};
use grok_build_proxy::store::Session;

const NOW: u64 = 1_000_000_000_000;

fn key(c: char) -> Key {
    Key::Char(c)
}

fn sess(id: &str, active: u64) -> Session {
    let mut session = Session::named(id);
    session.active = active;
    session
}

#[test]
fn j_k_navigate_within_focus() {
    let mut app = App::new(NOW);
    assert_eq!(app.focus, Focus::Sessions);
    app.handle(key('j'), 3, 2, 0);
    assert_eq!(app.selected, 1);
    app.handle(key('j'), 3, 2, 0);
    assert_eq!(app.selected, 2);
    app.handle(key('j'), 3, 2, 0);
    assert_eq!(app.selected, 2);
    app.handle(key('k'), 3, 2, 0);
    assert_eq!(app.selected, 1);
}

#[test]
fn tab_cycles_three_panels() {
    let mut app = App::new(NOW);
    app.selected = 2;
    app.handle(Key::Tab, 3, 5, 4);
    assert_eq!(app.focus, Focus::SessionDetail);
    assert_eq!(app.selected, 0);
    app.handle(Key::Tab, 3, 5, 4);
    assert_eq!(app.focus, Focus::Failures);
    assert_eq!(app.selected, 0);
    app.handle(Key::Tab, 3, 5, 4);
    assert_eq!(app.focus, Focus::Sessions);
}

#[test]
fn backtab_cycles_reverse() {
    let mut app = App::new(NOW);
    app.handle(Key::BackTab, 3, 5, 4);
    assert_eq!(app.focus, Focus::Failures);
    app.handle(Key::BackTab, 3, 5, 4);
    assert_eq!(app.focus, Focus::SessionDetail);
    app.handle(Key::BackTab, 3, 5, 4);
    assert_eq!(app.focus, Focus::Sessions);
}

#[test]
fn sync_pin_follows_sessions_selection() {
    let a = sess("a", 1);
    let b = sess("b", 1);
    let list = vec![&a, &b];
    let mut app = App::new(NOW);
    app.focus = Focus::Sessions;
    app.selected = 1;
    app.sync_selected_session(&list);
    assert_eq!(app.selected_session_key.as_deref(), Some("b"));
}

#[test]
fn sync_keeps_session_identity_when_list_reorders() {
    let a = sess("a", 1);
    let b = sess("b", 1);
    let mut app = App::new(NOW);
    app.focus = Focus::Sessions;
    app.selected = 1;
    app.sync_selected_session(&[&a, &b]);
    app.sync_selected_session(&[&b, &a]);
    assert_eq!(app.selected_session_key.as_deref(), Some("b"));
    assert_eq!(app.selected, 0);
}

#[test]
fn sync_preserves_idle_full_store_pin_for_session_detail() {
    let idle = sess("idle", 0);
    let mut app = App::new(NOW);
    app.focus = Focus::SessionDetail;
    app.selected_session_key = Some("idle".into());
    app.refresh_selected_session_availability(std::slice::from_ref(&idle));
    app.sync_selected_session(&[]);
    assert_eq!(app.selected_session_key.as_deref(), Some("idle"));
    assert!(app.selected_session_available);
}

#[test]
fn sync_clears_when_no_active_sessions() {
    let mut app = App::new(NOW);
    app.selected_session_key = Some("gone".into());
    app.sync_selected_session(&[]);
    assert!(app.selected_session_key.is_none());
}

#[test]
fn sync_repins_when_pin_leaves_active_set() {
    let a = sess("a", 1);
    let list = vec![&a];
    let mut app = App::new(NOW);
    app.focus = Focus::SessionDetail;
    app.selected = 4;
    app.selected_session_key = Some("gone".into());
    app.sync_selected_session(&list);
    assert_eq!(app.selected_session_key.as_deref(), Some("a"));
    assert_eq!(app.selected, 0);
}

#[test]
fn session_repin_does_not_change_failure_selection() {
    let a = sess("a", 1);
    let mut app = App::new(NOW);
    app.focus = Focus::Failures;
    app.selected = 3;
    app.selected_session_key = Some("gone".into());
    app.sync_selected_session(&[&a]);
    assert_eq!(app.selected_session_key.as_deref(), Some("a"));
    assert_eq!(app.selected, 3);
}

#[test]
fn filter_cycles_and_matches() {
    let mut app = App::new(NOW);
    assert_eq!(app.failure_filter, FailureFilter::All);
    app.handle(key('f'), 0, 0, 0);
    assert_eq!(app.failure_filter, FailureFilter::ProxyAssemble);
    app.handle(key('f'), 0, 0, 0);
    assert_eq!(app.failure_filter, FailureFilter::Upstream);
    app.handle(key('f'), 0, 0, 0);
    assert_eq!(app.failure_filter, FailureFilter::Auth);
    app.handle(key('f'), 0, 0, 0);
    assert_eq!(app.failure_filter, FailureFilter::Stream);
    app.handle(key('f'), 0, 0, 0);
    assert_eq!(app.failure_filter, FailureFilter::All);

    assert!(FailureFilter::Upstream.matches(FailureKind::UpstreamHttp));
    assert!(FailureFilter::Upstream.matches(FailureKind::UpstreamConnect));
    assert!(!FailureFilter::Upstream.matches(FailureKind::ProxyAssemble));
    assert!(FailureFilter::Stream.matches(FailureKind::StreamIo));
    assert!(FailureFilter::Stream.matches(FailureKind::StreamTerminalFailed));
    assert!(FailureFilter::Auth.matches(FailureKind::AuthRetryFailed));
    assert!(!FailureFilter::Auth.matches(FailureKind::UpstreamHttp));
    assert!(FailureFilter::All.matches(FailureKind::ClientRejected));
    assert!(FailureFilter::All.matches(FailureKind::Unknown));
    assert!(!FailureFilter::ProxyAssemble.matches(FailureKind::ClientRejected));
    assert!(!FailureFilter::Upstream.matches(FailureKind::Unknown));
    assert!(!FailureFilter::Auth.matches(FailureKind::ClientRejected));
    assert!(!FailureFilter::Stream.matches(FailureKind::Unknown));
}

#[test]
fn filter_resets_selection_when_failures_focused() {
    let mut app = App::new(NOW);
    app.focus = Focus::Failures;
    app.selected = 3;
    app.handle(key('f'), 0, 0, 5);
    assert_eq!(app.selected, 0);
    assert_eq!(app.failure_filter, FailureFilter::ProxyAssemble);
}

#[test]
fn empty_failures_clamps_and_blocks_detail() {
    let mut app = App::new(NOW);
    app.focus = Focus::Failures;
    app.selected = 2;
    app.clamp_selection(0, 0, 0);
    assert_eq!(app.selected, 0);
    app.handle(Key::Enter, 0, 0, 0);
    assert_eq!(app.mode, Mode::Dashboard);
    assert!(app.detail_request_id.is_none());
}

#[test]
fn quit_keys() {
    let mut app = App::new(NOW);
    assert!(app.handle(key('q'), 0, 0, 0));
    let mut app = App::new(NOW);
    assert!(app.handle(key('Q'), 0, 0, 0));
    let mut app = App::new(NOW);
    assert!(app.handle(Key::Control('c'), 0, 0, 0));
}

#[test]
fn help_and_detail_toggle() {
    let mut app = App::new(NOW);
    app.handle(key('?'), 1, 0, 0);
    assert_eq!(app.mode, Mode::Help);
    app.handle(key('?'), 1, 0, 0);
    assert_eq!(app.mode, Mode::Dashboard);
    app.handle(Key::Enter, 1, 0, 0);
    assert_eq!(app.mode, Mode::Detail);
    app.handle(Key::Esc, 1, 0, 0);
    assert_eq!(app.mode, Mode::Dashboard);
    assert!(app.detail_request_id.is_none());
}

#[test]
fn enter_opens_session_detail_without_turns() {
    let mut app = App::new(NOW);
    app.focus = Focus::SessionDetail;
    let session = sess("sess-x", 0);
    app.selected_session_key = Some("sess-x".into());
    app.refresh_selected_session_availability(std::slice::from_ref(&session));
    app.handle(Key::Enter, 0, 0, 0);
    assert_eq!(app.mode, Mode::Detail);

    let mut app = App::new(NOW);
    app.focus = Focus::SessionDetail;
    app.selected_session_key = None;
    app.handle(Key::Enter, 0, 0, 0);
    assert_eq!(app.mode, Mode::Dashboard);
}

#[test]
fn enter_opens_detail_on_failures() {
    let mut app = App::new(NOW);
    app.focus = Focus::Failures;
    app.handle(Key::Enter, 0, 0, 2);
    assert_eq!(app.mode, Mode::Detail);
    app.pin_failure_detail("req-x");
    assert_eq!(app.detail_request_id.as_deref(), Some("req-x"));
    app.handle(Key::Esc, 0, 0, 2);
    assert!(app.detail_request_id.is_none());

    let mut app = App::new(NOW);
    app.focus = Focus::Failures;
    app.handle(Key::Enter, 0, 0, 0);
    assert_eq!(app.mode, Mode::Dashboard);
}

#[test]
fn toast_set_and_read() {
    let mut app = App::new(NOW);
    assert!(app.toast_message(NOW).is_none());
    app.set_toast("copied 1 failure", NOW);
    assert_eq!(app.toast_message(NOW), Some("copied 1 failure"));
    app.tick_toast(NOW);
    assert_eq!(app.toast_message(NOW), Some("copied 1 failure"));
}

#[test]
fn toasts_go_away() {
    let mut app = App::new(NOW);
    app.set_toast("copied 1 failure", NOW);
    assert_eq!(app.toast_message(NOW + 4_999_999_999), Some("copied 1 failure"));
    assert_eq!(app.toast_message(NOW + 5_000_000_000), None);
    app.tick_toast(NOW + 5_000_000_000);
    assert!(app.toast.is_none());
    assert_eq!(app.uptime_secs(NOW + 61_500_000_000), 61);
}

#[test]
fn should_sample_tok_s_initially() {
    let app = App::new(NOW);
    assert!(app.should_sample_tok_s(NOW));
}

#[test]
fn token_rates_are_sampled_every_second() {
    let mut app = App::new(NOW);
    app.mark_tok_sampled(NOW);
    assert!(!app.should_sample_tok_s(NOW + 999_999_999));
    assert!(app.should_sample_tok_s(NOW + 1_000_000_000));
}

#[test]
fn chosen_sessions_are_kept_and_selections_clamped() {
    let a = sess("a", 1);
    let b = sess("b", 1);
    let mut app = App::new(NOW);
    app.pin_session_from_selection(&[&a, &b]);
    assert_eq!(app.selected_session_key.as_deref(), Some("a"));
    app.selected_session_key = Some("b".into());
    app.restore_session_selection(&[&a, &b]);
    assert_eq!(app.selected, 1);
    app.restore_session_selection(&[&a]);
    assert_eq!(app.selected, 0);
    assert_eq!(app.selected_session_key.as_deref(), Some("a"));
    app.selected = 9;
    app.clamp_selection(2, 0, 0);
    assert_eq!(app.selected, 1);
    app.pin_turn_detail("t");
    assert_eq!(app.detail_turn_key.as_deref(), Some("t"));
}

#[test]
fn open_windows_take_the_keys() {
    let mut app = App::new(NOW);
    app.handle(Key::Enter, 3, 0, 0);
    assert_eq!(app.mode, Mode::Detail);
    app.handle(Key::Tab, 3, 0, 0);
    app.handle(key('j'), 3, 0, 0);
    app.handle(key('f'), 3, 0, 0);
    assert_eq!(app.focus, Focus::Sessions);
    assert_eq!(app.selected, 0);
    assert_eq!(app.failure_filter, FailureFilter::All);
}

#[test]
fn exports_are_asked_for_by_key() {
    let md = Some(ExportKey { copy: true, json: false });
    assert_eq!(export_key(key('y'), Mode::Dashboard), md);
    let json = Some(ExportKey { copy: true, json: true });
    assert_eq!(export_key(key('Y'), Mode::Dashboard), json);
    let file = Some(ExportKey { copy: false, json: false });
    assert_eq!(export_key(key('w'), Mode::Dashboard), file);
    let json_file = Some(ExportKey { copy: false, json: true });
    assert_eq!(export_key(key('W'), Mode::Dashboard), json_file);
    assert_eq!(export_key(key('x'), Mode::Dashboard), None);
    assert_eq!(export_key(key('y'), Mode::Help), None);
    assert_eq!(export_key(key('w'), Mode::Detail), None);
}

#[test]
fn filters_share_no_kind() {
    let kinds = [
        FailureKind::UpstreamHttp,
        FailureKind::UpstreamConnect,
        FailureKind::AuthRetryFailed,
        FailureKind::StreamIo,
        FailureKind::StreamTerminalFailed,
        FailureKind::ProxyAssemble,
        FailureKind::ClientRejected,
        FailureKind::Unknown,
    ];
    for kind in kinds {
        let mut shown = 0;
        let mut filter = FailureFilter::All.next();
        while filter != FailureFilter::All {
            if filter.matches(kind) {
                shown += 1;
            }
            filter = filter.next();
        }
        assert!(shown <= 1);
    }
    assert_eq!(FailureFilter::Upstream.as_str(), "Upstream");
}

#[test]
fn uptime_formats() {
    assert_eq!(format_uptime(5), "5s");
    assert_eq!(format_uptime(65), "1m05s");
    assert_eq!(format_uptime(3661), "1h01m");
}

#[test]
fn tiers_cover_common_widths() {
    assert_eq!(LayoutTier::for_width(60), LayoutTier::Emergency);
    assert_eq!(LayoutTier::for_width(90), LayoutTier::Narrow);
    assert_eq!(LayoutTier::for_width(110), LayoutTier::Medium);
    assert_eq!(LayoutTier::for_width(140), LayoutTier::Wide);
}

#[test]
fn sparkline_renders_blocks() {
    let s = token_bucket_sparkline(&[0, 10, 50, 100], 4);
    assert_eq!(s.chars().count(), 4);
    assert!(s.contains('█') || s.contains('▇'));
}

#[test]
fn sparklines_scale_to_the_largest() {
    assert_eq!(token_bucket_sparkline(&[0, 10, 50, 100], 4), "▁▂▅█");
    assert_eq!(token_bucket_sparkline(&[7], 1), "█");
    assert_eq!(token_bucket_sparkline(&[], 3), "");
}

#[test]
fn should_show_metrics_thresholds() {
    assert!(!should_show_metrics(39, 40));
    assert!(!should_show_metrics(80, 17));
    assert!(should_show_metrics(80, 18));
    assert!(should_show_metrics(40, 24));
}

#[test]
fn completions_are_counted() {
    assert_eq!(completed_counts(&vec![true, true, false, true]), (3, 1));
    assert_eq!(completed_counts(&vec![]), (0, 0));
    assert_eq!(alarm(3, 0), Alarm::Fine);
    assert!(spark_width(80) > 0);
}

#[test]
fn truncate_short_and_long() {
    assert_eq!(truncate("hi", 4), "hi");
    assert_eq!(truncate("hello", 4), "hel…");
    assert_eq!(truncate("x", 1), "x");
    assert_eq!(truncate("xy", 1), "…");
}

#[test]
fn columns_are_filled() {
    assert_eq!(left("ab", 4), "ab  ");
    assert_eq!(right("ab", 4), "  ab");
    assert_eq!(right("abcd", 2), "abcd");
    assert_eq!(two_digits(7), "07");
    assert_eq!(two_digits(12), "12");
}

#[test]
fn windows_are_centered() {
    let screen = Area { x: 0, y: 0, width: 100, height: 40 };
    assert_eq!(help_area(screen), Area { x: 14, y: 10, width: 72, height: 20 });
    assert_eq!(detail_area(screen, 10), Area { x: 12, y: 14, width: 76, height: 12 });
    assert_eq!(detail_area(screen, 100), Area { x: 12, y: 1, width: 76, height: 38 });
    let small = Area { x: 2, y: 3, width: 20, height: 4 };
    assert_eq!(detail_area(small, 1), Area { x: 2, y: 3, width: 20, height: 4 });
}

#[test]
fn no_text_fits_in_no_space() {
    assert_eq!(truncate("hello", 0), "");
    assert_eq!(truncate("", 0), "");
    assert_eq!(truncate("hello", 2), "h…");
}
