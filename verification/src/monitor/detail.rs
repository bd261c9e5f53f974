//! The window of detail, and how the monitor's state follows what it shows.

use vstd::prelude::*;

use crate::clock;
use crate::events::FailureKind;
use crate::monitor;
use crate::monitor::app;
use crate::monitor::app::{App, AppV, Focus, Key, Mode};
use crate::monitor::failures;
use crate::monitor::failures::{ordered, row_count};
use crate::monitor::sessions;
use crate::monitor::sessions::{active_sessions, session_rows, TurnKind, TurnV};
use crate::monitor::truncate;
use crate::report;
use crate::report::{or_dash, truth};
use crate::store;
use crate::store::model::{FailureV, SessionV, SnapshotV};
use crate::store::{FailureRecord, Request, Session, Snapshot};
use crate::text;
use crate::text::same;

verus! {

/// How much of a failure's message is shown.
pub const DETAIL_MESSAGE_MAX: usize = 120;

pub open spec fn line_v(label: Seq<char>, value: Seq<char>) -> Seq<char> {
    label + value
}

/// A failure in full.
pub open spec fn failure_text_v(f: FailureV) -> Seq<char> {
    line_v("Failure "@, f.request_id) + line_v("\n  ts: "@, clock::rfc3339_text(f.ts)) + line_v(
        "\n  kind: "@,
        f.kind.name_v(),
    ) + line_v("\n  session: "@, f.session_id) + line_v("\n  model: "@, f.model) + line_v(
        " (requested "@,
        f.requested_model,
    ) + line_v(")\n  status: "@, text::decimal_v(f.status_code as nat)) + line_v(
        "  attempt: "@,
        text::decimal_v(f.attempt as nat),
    ) + line_v("\n  duration_ms: "@, text::decimal_v(f.duration_ms as nat)) + line_v(
        "  session_fail#: "@,
        text::decimal_v(f.session_failure_index as nat),
    ) + line_v("\n  error_type: "@, report::or_dash_v(f.error_type)) + line_v(
        "\n  message: "@,
        report::or_dash_v(monitor::truncated_v(f.error_message, DETAIL_MESSAGE_MAX as int)),
    ) + line_v("\n  response_id: "@, report::or_dash_v(f.response_id)) + line_v(
        "\n  mapped: "@,
        report::truth_v(f.mapped),
    ) + line_v("  lite: "@, report::truth_v(f.lite)) + line_v(
        "  fast: "@,
        report::truth_v(f.fast),
    ) + line_v("\n  auth_retried: "@, report::truth_v(f.auth_retried)) + line_v(
        "  outputs: "@,
        text::decimal_v(f.output_count as nat),
    ) + line_v("  capture_bytes: "@, text::decimal_v(f.capture_bytes as nat))
}

fn line(out: &mut String, label: &str, value: &str)
    ensures
        final(out)@ == old(out)@ + line_v(label@, value@),
{
    let ghost before = out@;
    out.push_str(label);
    out.push_str(value);
    assert(out@ =~= before + line_v(label@, value@));
}

fn failure_text(f: &FailureRecord) -> (r: String)
    ensures
        r@ == failure_text_v(f@),
{
    let mut out = String::new();
    line(&mut out, "Failure ", &f.request_id);
    assert(out@ =~= line_v("Failure "@, f.request_id@));
    line(&mut out, "\n  ts: ", &clock::rfc3339(f.ts));
    line(&mut out, "\n  kind: ", f.kind.as_str());
    line(&mut out, "\n  session: ", &f.session_id);
    line(&mut out, "\n  model: ", &f.model);
    line(&mut out, " (requested ", &f.requested_model);
    line(&mut out, ")\n  status: ", &text::decimal(f.status_code as u64));
    line(&mut out, "  attempt: ", &text::decimal(f.attempt as u64));
    line(&mut out, "\n  duration_ms: ", &text::decimal(f.duration_ms));
    line(&mut out, "  session_fail#: ", &text::decimal(f.session_failure_index as u64));
    line(&mut out, "\n  error_type: ", &or_dash(&f.error_type));
    line(&mut out, "\n  message: ", &or_dash(&truncate(&f.error_message, DETAIL_MESSAGE_MAX)));
    line(&mut out, "\n  response_id: ", &or_dash(&f.response_id));
    line(&mut out, "\n  mapped: ", truth(f.mapped));
    line(&mut out, "  lite: ", truth(f.lite));
    line(&mut out, "  fast: ", truth(f.fast));
    line(&mut out, "\n  auth_retried: ", truth(f.auth_retried));
    line(&mut out, "  outputs: ", &text::decimal(f.output_count as u64));
    line(&mut out, "  capture_bytes: ", &text::decimal(f.capture_bytes as u64));
    out
}

/// The first failure of a request, from `i` on.
pub open spec fn failure_of_v(s: Seq<FailureV>, id: Seq<char>, i: int) -> Option<FailureV>
    decreases s.len() - i,
{
    if i >= s.len() {
        None
    } else if s[i].request_id == id {
        Some(s[i])
    } else {
        failure_of_v(s, id, i + 1)
    }
}

/// The detail of a failure: of the one that was opened, as long as it is kept;
/// or of the one at the selection.
pub open spec fn failure_detail_v(s: Seq<FailureV>, a: AppV) -> Seq<char> {
    match a.detail_request_id {
        Some(id) => match failure_of_v(s, id, 0) {
            Some(f) => failure_text_v(f),
            None => "Failure "@ + id + "\n  (failure no longer in ring)"@,
        },
        None => {
            let rows = failures::ordered_v(s, a.failure_filter);
            if a.selected < rows.len() {
                failure_text_v(rows[a.selected as int])
            } else {
                "No failure selected"@
            }
        },
    }
}

pub fn failure_detail_text(snapshot: &Snapshot, state: &App) -> (r: String)
    ensures
        r@ == failure_detail_v(snapshot@.failures, state@),
{
    let all = &snapshot.failures;
    let ghost s = store::failures_v(all@);
    match &state.detail_request_id {
        Some(id) => {
            let mut i: usize = 0;
            while i < all.len()
                invariant
                    i <= all@.len(),
                    s == store::failures_v(all@),
                    s == snapshot@.failures,
                    state@.detail_request_id == Some(id@),
                    failure_of_v(s, id@, 0) == failure_of_v(s, id@, i as int),
                decreases all@.len() - i,
            {
                assert(s[i as int] == all@[i as int]@);
                if same(&all[i].request_id, id) {
                    return failure_text(&all[i]);
                }
                i += 1;
            }
            text::cat3("Failure ", id, "\n  (failure no longer in ring)")
        },
        None => {
            let rows = ordered(all.as_slice(), state.failure_filter);
            let ghost rv = store::failures_v(rows@);
            assert(rv.len() == rows@.len());
            if state.selected < rows.len() {
                assert(rv[state.selected as int] == rows@[state.selected as int]@);
                failure_text(&rows[state.selected])
            } else {
                text::owned("No failure selected")
            }
        },
    }
}

pub open spec fn kind_or_dash_v(kind: Option<FailureKind>) -> Seq<char> {
    match kind {
        Some(k) => k.name_v(),
        None => "-"@,
    }
}

fn kind_or_dash(kind: Option<FailureKind>) -> (r: &'static str)
    ensures
        r@ == kind_or_dash_v(kind),
{
    match kind {
        Some(k) => k.as_str(),
        None => "-",
    }
}

/// A session in full; `rate` is its tokens per second.
pub open spec fn session_text_v(s: SessionV, rate: Seq<char>) -> Seq<char> {
    line_v("Session "@, s.id) + line_v("\n  model: "@, s.last_model) + line_v(
        "\n  requests: "@,
        text::decimal_v(s.requests as nat),
    ) + line_v("  active: "@, text::decimal_v(s.active as nat)) + line_v(
        "  errors: "@,
        text::decimal_v(s.errors as nat),
    ) + line_v("\n  tokens: "@, text::decimal_v(s.output_tokens as nat)) + line_v("  tok/s: "@, rate)
        + line_v("\n  last_failure: "@, kind_or_dash_v(s.last_failure_kind))
}

pub open spec fn session_detail_v(s: Option<SessionV>, rate: Seq<char>) -> Seq<char> {
    match s {
        Some(s) => session_text_v(s, rate),
        None => "No session selected"@,
    }
}

pub open spec fn session_ref_v(s: Option<&Session>) -> Option<SessionV> {
    match s {
        Some(s) => Some(s@),
        None => None,
    }
}

/// The detail of a session.
pub fn session_detail_text(session: Option<&Session>, rate: &str) -> (r: String)
    ensures
        r@ == session_detail_v(session_ref_v(session), rate@),
{
    match session {
        None => text::owned("No session selected"),
        Some(s) => {
            let mut out = String::new();
            line(&mut out, "Session ", &s.id);
            assert(out@ =~= line_v("Session "@, s.id@));
            line(&mut out, "\n  model: ", &s.last_model);
            line(&mut out, "\n  requests: ", &text::decimal(s.requests));
            line(&mut out, "  active: ", &text::decimal(s.active));
            line(&mut out, "  errors: ", &text::decimal(s.errors));
            line(&mut out, "\n  tokens: ", &text::decimal(s.output_tokens));
            line(&mut out, "  tok/s: ", rate);
            line(&mut out, "\n  last_failure: ", kind_or_dash(s.last_failure_kind));
            out
        },
    }
}

/// The first turn of a name, from `i` on.
pub open spec fn turn_of_v(rows: Seq<TurnV>, id: Seq<char>, i: int) -> Option<int>
    decreases rows.len() - i,
{
    if i >= rows.len() {
        None
    } else if rows[i].1.id == id {
        Some(i)
    } else {
        turn_of_v(rows, id, i + 1)
    }
}

/// Which turn is shown: the one that was opened, or the one at the selection.
pub open spec fn shown_turn_v(rows: Seq<TurnV>, a: AppV) -> Option<int> {
    match a.detail_turn_key {
        Some(id) => turn_of_v(rows, id, 0),
        None => if a.selected < rows.len() {
            Some(a.selected as int)
        } else {
            None
        },
    }
}

pub fn shown_turn(rows: &Vec<(TurnKind, &Request)>, state: &App) -> (r: Option<usize>)
    ensures
        text::opt_int(r) == shown_turn_v(sessions::turns_v(rows@), state@),
        r is Some ==> r->0 < rows@.len(),
{
    let ghost all = sessions::turns_v(rows@);
    match &state.detail_turn_key {
        None => if state.selected < rows.len() {
            Some(state.selected)
        } else {
            None
        },
        Some(id) => {
            let mut i: usize = 0;
            while i < rows.len()
                invariant
                    i <= rows@.len(),
                    all == sessions::turns_v(rows@),
                    state@.detail_turn_key == Some(id@),
                    turn_of_v(all, id@, 0) == turn_of_v(all, id@, i as int),
                decreases rows@.len() - i,
            {
                assert(all[i as int].1 == rows@[i as int].1@);
                if same(&rows[i].1.id, id) {
                    return Some(i);
                }
                i += 1;
            }
            None
        },
    }
}

pub open spec fn turn_word_v(kind: TurnKind) -> Seq<char> {
    match kind {
        TurnKind::Active => "active"@,
        TurnKind::Recent => "recent"@,
    }
}

/// A turn in full; `seconds` is how long it has taken.
pub open spec fn turn_text_v(t: TurnV, seconds: Seq<char>) -> Seq<char> {
    line_v("Turn "@, t.1.id) + line_v(" ("@, turn_word_v(t.0)) + line_v(
        ")\n  session: "@,
        t.1.session_id,
    ) + line_v("\n  model: "@, t.1.model) + line_v(" (requested "@, t.1.requested_model) + line_v(
        ")\n  status: "@,
        text::decimal_v(t.1.status as nat),
    ) + line_v("  attempt: "@, text::decimal_v(t.1.attempt as nat)) + line_v("\n  duration: "@, seconds)
        + line_v("s  tokens: "@, text::decimal_v(t.1.output_tokens as nat)) + line_v(
        "\n  failure: "@,
        kind_or_dash_v(t.1.failure_kind),
    ) + line_v(
        "\n  error: "@,
        if t.1.error.len() == 0 {
            t.1.error_type
        } else {
            t.1.error
        },
    )
}

pub open spec fn turn_detail_v(t: Option<TurnV>, seconds: Seq<char>) -> Seq<char> {
    match t {
        Some(t) => turn_text_v(t, seconds),
        None => "No turn selected"@,
    }
}

pub open spec fn turn_ref_v(t: Option<(TurnKind, &Request)>) -> Option<TurnV> {
    match t {
        Some(t) => Some((t.0, t.1@)),
        None => None,
    }
}

/// The detail of a turn.
pub fn turn_detail_text(turn: Option<(TurnKind, &Request)>, seconds: &str) -> (s: String)
    ensures
        s@ == turn_detail_v(turn_ref_v(turn), seconds@),
{
    match turn {
        None => text::owned("No turn selected"),
        Some((kind, r)) => {
            let word = match kind {
                TurnKind::Active => "active",
                TurnKind::Recent => "recent",
            };
            let mut out = String::new();
            line(&mut out, "Turn ", &r.id);
            assert(out@ =~= line_v("Turn "@, r.id@));
            line(&mut out, " (", word);
            line(&mut out, ")\n  session: ", &r.session_id);
            line(&mut out, "\n  model: ", &r.model);
            line(&mut out, " (requested ", &r.requested_model);
            line(&mut out, ")\n  status: ", &text::decimal(r.status as u64));
            line(&mut out, "  attempt: ", &text::decimal(r.attempt as u64));
            line(&mut out, "\n  duration: ", seconds);
            line(&mut out, "s  tokens: ", &text::decimal(r.output_tokens));
            line(&mut out, "\n  failure: ", kind_or_dash(r.failure_kind));
            if r.error.as_str().is_empty() {
                line(&mut out, "\n  error: ", &r.error_type);
            } else {
                line(&mut out, "\n  error: ", &r.error);
            }
            out
        },
    }
}

/// The names of the sessions with a turn under way.
pub open spec fn active_ids_v(snap: SnapshotV) -> Seq<Seq<char>> {
    app::ids_v(sessions::active_v(snap.sessions))
}

/// The turns of the chosen session.
pub open spec fn chosen_rows_v(a: AppV, snap: SnapshotV) -> Seq<TurnV> {
    sessions::rows_v(snap.active, snap.recent, a.selected_session_key)
}

/// The selection within what the panel in focus shows.
pub open spec fn within_v(a: AppV, snap: SnapshotV) -> AppV {
    app::clamped_v(
        a,
        app::rows_v(
            a.focus,
            active_ids_v(snap).len() as usize,
            chosen_rows_v(a, snap).len() as usize,
            failures::filtered_v(snap.failures, a.failure_filter).len() as usize,
        ),
    )
}

/// What a window of detail shows is fixed when it is opened, so that it does
/// not change as newer turns and failures come.
pub open spec fn opened_v(a: AppV, snap: SnapshotV) -> AppV {
    if a.mode != Mode::Detail {
        a
    } else {
        match a.focus {
            Focus::Sessions => a,
            Focus::SessionDetail => {
                let rows = chosen_rows_v(a, snap);
                if a.detail_turn_key is None && a.selected < rows.len() {
                    AppV { detail_turn_key: Some(rows[a.selected as int].1.id), ..a }
                } else {
                    a
                }
            },
            Focus::Failures => {
                let rows = failures::ordered_v(snap.failures, a.failure_filter);
                if a.detail_request_id is None && a.selected < rows.len() {
                    AppV { detail_request_id: Some(rows[a.selected as int].request_id), ..a }
                } else {
                    a
                }
            },
        }
    }
}

/// The chosen session follows the selection on the list of sessions, and the
/// selection goes to it when the list comes into focus.
pub open spec fn followed_v(from: Focus, a: AppV, ids: Seq<Seq<char>>) -> AppV {
    if a.focus != Focus::Sessions {
        a
    } else if from != Focus::Sessions {
        app::pinned_v(app::restored_v(a, ids), ids)
    } else {
        app::pinned_v(a, ids)
    }
}

/// The state after a key, and whether the monitor is left.
pub open spec fn keyed_v(a: AppV, key: Key, snap: SnapshotV) -> (AppV, bool) {
    let (b, quit) = app::handled_v(
        a,
        key,
        active_ids_v(snap).len() as usize,
        chosen_rows_v(a, snap).len() as usize,
        failures::filtered_v(snap.failures, a.failure_filter).len() as usize,
    );
    if quit {
        (b, true)
    } else {
        (within_v(opened_v(followed_v(a.focus, b, active_ids_v(snap)), snap), snap), false)
    }
}

/// The state before a picture of the store is shown.
pub open spec fn shown_v(a: AppV, snap: SnapshotV, now: u64) -> AppV {
    within_v(
        app::synced_v(
            app::refreshed_v(app::ticked_v(a, now), app::ids_v(snap.sessions)),
            active_ids_v(snap),
        ),
        snap,
    )
}

fn chosen<'a>(state: &App, snapshot: &'a Snapshot) -> (r: Vec<(TurnKind, &'a Request)>)
    ensures
        sessions::turns_v(r@) == chosen_rows_v(state@, snapshot@),
{
    match &state.selected_session_key {
        Some(key) => session_rows(snapshot, Some(key.as_str())),
        None => session_rows(snapshot, None),
    }
}

fn keep_within(state: &mut App, snapshot: &Snapshot)
    ensures
        final(state)@ == within_v(old(state)@, snapshot@),
{
    let active = active_sessions(snapshot);
    let rows = chosen(state, snapshot);
    let shown: usize = row_count(snapshot.failures.as_slice(), state.failure_filter);
    proof {
        assert(sessions::refs_v(active@).len() == active@.len());
        assert(active_ids_v(snapshot@).len() == active@.len());
        assert(sessions::turns_v(rows@).len() == rows@.len());
    }
    state.clamp_selection(active.len(), rows.len(), shown);
}

fn open_detail(state: &mut App, snapshot: &Snapshot)
    ensures
        final(state)@ == opened_v(old(state)@, snapshot@),
{
    match state.mode {
        Mode::Detail => {},
        _ => {
            return;
        },
    }
    match state.focus {
        Focus::Sessions => {},
        Focus::SessionDetail => {
            let rows = chosen(state, snapshot);
            let ghost all = sessions::turns_v(rows@);
            assert(all.len() == rows@.len());
            if state.detail_turn_key.is_none() && state.selected < rows.len() {
                let (kind, turn) = rows[state.selected];
                assert(all[state.selected as int] == (kind, turn@));
                state.pin_turn_detail(&turn.id);
            }
        },
        Focus::Failures => {
            let rows = ordered(snapshot.failures.as_slice(), state.failure_filter);
            let ghost all = store::failures_v(rows@);
            assert(all.len() == rows@.len());
            if state.detail_request_id.is_none() && state.selected < rows.len() {
                assert(all[state.selected as int] == rows@[state.selected as int]@);
                state.pin_failure_detail(&rows[state.selected].request_id);
            }
        },
    }
}

impl App {
    /// Takes a key, given what is shown, and says whether the monitor is left.
    pub fn take_key(&mut self, key: Key, snapshot: &Snapshot) -> (r: bool)
        ensures
            (final(self)@, r) == keyed_v(old(self)@, key, snapshot@),
    {
        let active = active_sessions(snapshot);
        let turns: usize = chosen(self, snapshot).len();
        let shown: usize = row_count(snapshot.failures.as_slice(), self.failure_filter);
        proof {
            assert(sessions::refs_v(active@).len() == active@.len());
            assert(active_ids_v(snapshot@).len() == active@.len());
        }
        let elsewhere = match self.focus {
            Focus::Sessions => false,
            _ => true,
        };
        if self.handle(key, active.len(), turns, shown) {
            return true;
        }
        match self.focus {
            Focus::Sessions => {
                if elsewhere {
                    self.restore_session_selection(active.as_slice());
                }
                self.pin_session_from_selection(active.as_slice());
            },
            _ => {},
        }
        open_detail(self, snapshot);
        keep_within(self, snapshot);
        false
    }

    /// Takes note of what is about to be shown.
    pub fn before_drawing(&mut self, snapshot: &Snapshot, now: u64)
        ensures
            final(self)@ == shown_v(old(self)@, snapshot@, now),
    {
        let active = active_sessions(snapshot);
        self.tick_toast(now);
        self.refresh_selected_session_availability(snapshot.sessions.as_slice());
        self.sync_selected_session(active.as_slice());
        keep_within(self, snapshot);
    }
}

/// What a window of detail shows stays the same, whatever comes into the store,
/// and whatever the filter and the selection are.
pub proof fn opened_failures_stay_open(
    s: Seq<FailureV>,
    more: Seq<FailureV>,
    a: AppV,
    b: AppV,
    id: Seq<char>,
)
    requires
        a.detail_request_id == Some(id),
        b.detail_request_id == Some(id),
        forall|i: int| 0 <= i < more.len() ==> (#[trigger] more[i]).request_id != id,
    ensures
        failure_detail_v(more + s, a) == failure_detail_v(s, b),
{
    newer_failures_are_passed(s, more, id, 0);
}

proof fn newer_failures_are_passed(s: Seq<FailureV>, more: Seq<FailureV>, id: Seq<char>, i: int)
    requires
        0 <= i,
        forall|k: int| 0 <= k < more.len() ==> (#[trigger] more[k]).request_id != id,
    ensures
        i < more.len() ==> failure_of_v(more + s, id, i) == failure_of_v(s, id, 0),
        i >= more.len() ==> failure_of_v(more + s, id, i) == failure_of_v(s, id, i - more.len()),
    decreases more.len() + s.len() - i,
{
    let all = more + s;
    if i < all.len() {
        newer_failures_are_passed(s, more, id, i + 1);
        if i < more.len() {
            assert(all[i] == more[i]);
        } else {
            assert(all[i] == s[i - more.len()]);
        }
    }
}

/// After a key the selection lies within what the panel in focus shows.
pub proof fn keys_keep_the_selection(a: AppV, key: Key, snap: SnapshotV)
    requires
        !app::quits_v(key),
    ensures
        ({
            let b = keyed_v(a, key, snap).0;
            let count = app::rows_v(
                b.focus,
                active_ids_v(snap).len() as usize,
                chosen_rows_v(b, snap).len() as usize,
                failures::filtered_v(snap.failures, b.failure_filter).len() as usize,
            );
            b.selected < count || (count == 0 && b.selected == 0)
        }),
{
}

/// The failure that was opened is the one shown: the first that is kept of that
/// request, and no other.
pub proof fn opened_failures_are_shown(s: Seq<FailureV>, id: Seq<char>, i: int)
    requires
        0 <= i <= s.len(),
    ensures
        failure_of_v(s, id, i) matches Some(f) ==> f.request_id == id && s.contains(f),
        failure_of_v(s, id, i) is None <==> forall|k: int|
            i <= k < s.len() ==> (#[trigger] s[k]).request_id != id,
    decreases s.len() - i,
{
    if i < s.len() {
        opened_failures_are_shown(s, id, i + 1);
    }
}

/// The turn that was opened is the one shown.
pub proof fn opened_turns_are_shown(rows: Seq<TurnV>, id: Seq<char>, i: int)
    requires
        0 <= i <= rows.len(),
    ensures
        turn_of_v(rows, id, i) matches Some(k) ==> i <= k < rows.len() && rows[k].1.id == id,
        turn_of_v(rows, id, i) is None <==> forall|k: int|
            i <= k < rows.len() ==> (#[trigger] rows[k]).1.id != id,
    decreases rows.len() - i,
{
    if i < rows.len() {
        opened_turns_are_shown(rows, id, i + 1);
    }
}

} // verus!
