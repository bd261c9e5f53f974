//! The state of the monitor: what is shown, what is selected, and what keys do.
//!
//! Points in time are nanoseconds of one monotonic clock.

use vstd::prelude::*;

use crate::events::FailureKind;
use crate::monitor::sessions;
use crate::store;
use crate::store::model::SessionV;
use crate::store::Session;
use crate::text;
use crate::text::same;

verus! {

#[derive(Clone, Copy, Debug, PartialEq, Eq, Structural)]
pub enum Mode {
    Dashboard,
    Help,
    Detail,
}

#[derive(Clone, Copy, Debug, PartialEq, Eq, Structural)]
pub enum Focus {
    Sessions,
    SessionDetail,
    Failures,
}

/// Which failures are shown.
#[derive(Clone, Copy, Debug, PartialEq, Eq, Structural)]
pub enum FailureFilter {
    All,
    ProxyAssemble,
    /// No reply, or one that is an error.
    Upstream,
    /// Still unauthorized after fresh credentials.
    Auth,
    /// A stream that broke off or ended in a failure.
    Stream,
}

impl FailureFilter {
    pub open spec fn next_v(self) -> FailureFilter {
        match self {
            FailureFilter::All => FailureFilter::ProxyAssemble,
            FailureFilter::ProxyAssemble => FailureFilter::Upstream,
            FailureFilter::Upstream => FailureFilter::Auth,
            FailureFilter::Auth => FailureFilter::Stream,
            FailureFilter::Stream => FailureFilter::All,
        }
    }

    pub fn next(self) -> (r: FailureFilter)
        ensures
            r == self.next_v(),
    {
        match self {
            FailureFilter::All => FailureFilter::ProxyAssemble,
            FailureFilter::ProxyAssemble => FailureFilter::Upstream,
            FailureFilter::Upstream => FailureFilter::Auth,
            FailureFilter::Auth => FailureFilter::Stream,
            FailureFilter::Stream => FailureFilter::All,
        }
    }

    pub open spec fn name_v(self) -> Seq<char> {
        match self {
            FailureFilter::All => "All"@,
            FailureFilter::ProxyAssemble => "ProxyAssemble"@,
            FailureFilter::Upstream => "Upstream"@,
            FailureFilter::Auth => "Auth"@,
            FailureFilter::Stream => "Stream"@,
        }
    }

    pub fn as_str(self) -> (r: &'static str)
        ensures
            r@ == self.name_v(),
    {
        match self {
            FailureFilter::All => "All",
            FailureFilter::ProxyAssemble => "ProxyAssemble",
            FailureFilter::Upstream => "Upstream",
            FailureFilter::Auth => "Auth",
            FailureFilter::Stream => "Stream",
        }
    }

    pub open spec fn matches_v(self, kind: FailureKind) -> bool {
        match self {
            FailureFilter::All => true,
            FailureFilter::ProxyAssemble => kind == FailureKind::ProxyAssemble,
            FailureFilter::Upstream => kind == FailureKind::UpstreamHttp || kind
                == FailureKind::UpstreamConnect,
            FailureFilter::Auth => kind == FailureKind::AuthRetryFailed,
            FailureFilter::Stream => kind == FailureKind::StreamIo || kind
                == FailureKind::StreamTerminalFailed,
        }
    }

    pub fn matches(self, kind: FailureKind) -> (r: bool)
        ensures
            r == self.matches_v(kind),
    {
        match self {
            FailureFilter::All => true,
            FailureFilter::ProxyAssemble => kind == FailureKind::ProxyAssemble,
            FailureFilter::Upstream => kind == FailureKind::UpstreamHttp || kind
                == FailureKind::UpstreamConnect,
            FailureFilter::Auth => kind == FailureKind::AuthRetryFailed,
            FailureFilter::Stream => kind == FailureKind::StreamIo || kind
                == FailureKind::StreamTerminalFailed,
        }
    }
}

/// No failure is shown by two filters, apart from the one that shows all; and
/// going on from filter to filter leads through all of them.
pub proof fn filters_do_not_overlap(a: FailureFilter, b: FailureFilter, kind: FailureKind)
    ensures
        a.matches_v(kind) && b.matches_v(kind) && a != FailureFilter::All && b
            != FailureFilter::All ==> a == b,
        FailureFilter::All.matches_v(kind),
        a.next_v().next_v().next_v().next_v().next_v() == a,
{
}

/// How many seconds the user is told of an export.
pub const TOAST_SECS: u64 = 5;

/// A key, as far as the monitor knows it.
#[derive(Clone, Copy, Debug, PartialEq, Eq, Structural)]
pub enum Key {
    Char(char),
    /// With the control key.
    Control(char),
    Esc,
    Backspace,
    Enter,
    Tab,
    BackTab,
    Up,
    Down,
    Other,
}

/// The state of the monitor.
#[derive(Debug)]
pub struct App {
    pub mode: Mode,
    pub focus: Focus,
    pub selected: usize,
    pub failure_filter: FailureFilter,
    /// The session whose turns are shown.
    pub selected_session_key: Option<String>,
    /// Whether that session is still known.
    pub selected_session_available: bool,
    /// The turn whose detail is shown.
    pub detail_turn_key: Option<String>,
    /// The failure whose detail is shown.
    pub detail_request_id: Option<String>,
    pub started_at: Option<u64>,
    /// When the token rate was last sampled.
    pub last_tok_sample_at: Option<u64>,
    /// What the user is told for a while.
    pub toast: Option<String>,
    pub toast_set_at: Option<u64>,
}

#[verifier::ext_equal]
pub struct AppV {
    pub mode: Mode,
    pub focus: Focus,
    pub selected: usize,
    pub failure_filter: FailureFilter,
    pub selected_session_key: Option<Seq<char>>,
    pub selected_session_available: bool,
    pub detail_turn_key: Option<Seq<char>>,
    pub detail_request_id: Option<Seq<char>>,
    pub started_at: Option<u64>,
    pub last_tok_sample_at: Option<u64>,
    pub toast: Option<Seq<char>>,
    pub toast_set_at: Option<u64>,
}

pub open spec fn fresh_v(now: u64) -> AppV {
    AppV {
        mode: Mode::Dashboard,
        focus: Focus::Sessions,
        selected: 0,
        failure_filter: FailureFilter::All,
        selected_session_key: None,
        selected_session_available: false,
        detail_turn_key: None,
        detail_request_id: None,
        started_at: Some(now),
        last_tok_sample_at: None,
        toast: None,
        toast_set_at: None,
    }
}

/// The whole seconds between two points in time.
pub open spec fn seconds_v(from: u64, now: u64) -> u64 {
    (if now < from {
        0
    } else {
        (now - from) / 1_000_000_000
    }) as u64
}

fn seconds(from: u64, now: u64) -> (r: u64)
    ensures
        r == seconds_v(from, now),
{
    now.saturating_sub(from) / 1_000_000_000
}

pub open spec fn expired_v(a: AppV, now: u64) -> bool {
    match a.toast_set_at {
        Some(t) => seconds_v(t, now) >= TOAST_SECS,
        None => false,
    }
}

/// What the user is told at a time.
pub open spec fn message_v(a: AppV, now: u64) -> Option<Seq<char>> {
    if a.toast_set_at is None || expired_v(a, now) {
        None
    } else {
        a.toast
    }
}

pub open spec fn ticked_v(a: AppV, now: u64) -> AppV {
    if a.toast is Some && expired_v(a, now) {
        AppV { toast: None, toast_set_at: None, ..a }
    } else {
        a
    }
}

/// How many rows the panel in focus has.
pub open spec fn rows_v(focus: Focus, sessions: usize, detail: usize, failures: usize) -> usize {
    match focus {
        Focus::Sessions => sessions,
        Focus::SessionDetail => detail,
        Focus::Failures => failures,
    }
}

/// The selection within so many rows.
pub open spec fn clamped_v(a: AppV, count: usize) -> AppV {
    if count == 0 {
        AppV { selected: 0, ..a }
    } else if a.selected >= count {
        AppV { selected: (count - 1) as usize, ..a }
    } else {
        a
    }
}

pub open spec fn ids_v(sessions: Seq<SessionV>) -> Seq<Seq<char>> {
    sessions.map_values(|s: SessionV| s.id)
}

/// The place of a name in a list, from `i` on.
pub open spec fn place_v(ids: Seq<Seq<char>>, key: Seq<char>, i: int) -> Option<int>
    decreases ids.len() - i,
{
    if i >= ids.len() {
        None
    } else if ids[i] == key {
        Some(i)
    } else {
        place_v(ids, key, i + 1)
    }
}

pub open spec fn place_of_key_v(ids: Seq<Seq<char>>, key: Option<Seq<char>>) -> Option<int> {
    match key {
        Some(k) => place_v(ids, k, 0),
        None => None,
    }
}

/// Whether the chosen session is known.
pub open spec fn refreshed_v(a: AppV, ids: Seq<Seq<char>>) -> AppV {
    AppV {
        selected_session_available: place_of_key_v(ids, a.selected_session_key) is Some,
        ..a
    }
}

pub open spec fn least_v(a: usize, n: int) -> int {
    if a < n {
        a as int
    } else {
        n
    }
}

/// The session that stands at the selection is chosen.
pub open spec fn pinned_v(a: AppV, ids: Seq<Seq<char>>) -> AppV {
    if ids.len() == 0 {
        AppV { selected_session_key: None, selected_session_available: false, ..a }
    } else {
        AppV {
            selected_session_key: Some(ids[least_v(a.selected, ids.len() - 1)]),
            selected_session_available: true,
            ..a
        }
    }
}

/// The selection goes to the chosen session, or to the first.
pub open spec fn restored_v(a: AppV, ids: Seq<Seq<char>>) -> AppV {
    match place_of_key_v(ids, a.selected_session_key) {
        Some(i) => AppV { selected: i as usize, selected_session_available: true, ..a },
        None => pinned_v(AppV { selected: 0, ..a }, ids),
    }
}

/// Whether the chosen session stays chosen whatever the list holds: its turns
/// are looked at.
pub open spec fn held_v(a: AppV) -> bool {
    (a.focus == Focus::SessionDetail || a.mode == Mode::Detail) && a.selected_session_available
}

/// The state for a new list of sessions: the chosen session stays chosen, and
/// the selection stays with it.
pub open spec fn synced_v(a: AppV, ids: Seq<Seq<char>>) -> AppV {
    if held_v(a) {
        a
    } else if ids.len() == 0 {
        AppV {
            selected_session_key: None,
            selected_session_available: false,
            selected: if a.focus == Focus::Sessions {
                0
            } else {
                a.selected
            },
            ..a
        }
    } else {
        match place_of_key_v(ids, a.selected_session_key) {
            Some(i) => AppV {
                selected: if a.focus == Focus::Sessions {
                    i as usize
                } else {
                    a.selected
                },
                selected_session_available: true,
                ..a
            },
            None => {
                let i = if a.focus == Focus::Sessions {
                    least_v(a.selected, ids.len() - 1)
                } else {
                    0
                };
                AppV {
                    selected: if a.focus == Focus::Failures {
                        a.selected
                    } else {
                        i as usize
                    },
                    selected_session_key: Some(ids[i]),
                    selected_session_available: true,
                    ..a
                }
            },
        }
    }
}

pub open spec fn next_focus_v(focus: Focus) -> Focus {
    match focus {
        Focus::Sessions => Focus::SessionDetail,
        Focus::SessionDetail => Focus::Failures,
        Focus::Failures => Focus::Sessions,
    }
}

pub open spec fn previous_focus_v(focus: Focus) -> Focus {
    match focus {
        Focus::Sessions => Focus::Failures,
        Focus::SessionDetail => Focus::Sessions,
        Focus::Failures => Focus::SessionDetail,
    }
}

pub open spec fn quits_v(key: Key) -> bool {
    key == Key::Char('q') || key == Key::Char('Q') || key == Key::Control('c') || key
        == Key::Control('q') || key == Key::Control('Q')
}

/// A letter, with the control key or without.
pub open spec fn letter_v(key: Key, c: char) -> bool {
    key == Key::Char(c) || key == Key::Control(c)
}

/// What a key does, apart from keeping the selection within the rows.
pub open spec fn pressed_v(a: AppV, key: Key, count: usize) -> AppV {
    let dash = a.mode == Mode::Dashboard;
    if letter_v(key, '?') {
        AppV {
            mode: if a.mode == Mode::Help {
                Mode::Dashboard
            } else {
                Mode::Help
            },
            ..a
        }
    } else if key == Key::Esc || key == Key::Backspace {
        if dash {
            a
        } else {
            AppV {
                mode: Mode::Dashboard,
                detail_turn_key: None,
                detail_request_id: None,
                ..a
            }
        }
    } else if key == Key::Enter {
        if dash && (count > 0 || (a.focus == Focus::SessionDetail
            && a.selected_session_available)) {
            AppV { mode: Mode::Detail, detail_turn_key: None, detail_request_id: None, ..a }
        } else {
            a
        }
    } else if key == Key::Tab && dash {
        AppV { focus: next_focus_v(a.focus), selected: 0, ..a }
    } else if key == Key::BackTab && dash {
        AppV { focus: previous_focus_v(a.focus), selected: 0, ..a }
    } else if (letter_v(key, 'f') || letter_v(key, 'F')) && dash {
        AppV {
            failure_filter: a.failure_filter.next_v(),
            selected: if a.focus == Focus::Failures {
                0
            } else {
                a.selected
            },
            ..a
        }
    } else if (key == Key::Up || letter_v(key, 'k')) && dash {
        AppV {
            selected: (if a.selected > 0 {
                a.selected - 1
            } else {
                0
            }) as usize,
            ..a
        }
    } else if (key == Key::Down || letter_v(key, 'j')) && dash {
        AppV {
            selected: (if a.selected + 1 < count {
                a.selected + 1
            } else {
                a.selected as int
            }) as usize,
            ..a
        }
    } else {
        a
    }
}

/// Whether a key changes the list that the selection is in. Then its new length
/// is the caller's to know.
pub open spec fn refilters_v(a: AppV, key: Key) -> bool {
    (letter_v(key, 'f') || letter_v(key, 'F')) && a.mode == Mode::Dashboard && a.focus
        == Focus::Failures
}

/// The state after a key, and whether the monitor is left.
pub open spec fn handled_v(
    a: AppV,
    key: Key,
    sessions: usize,
    detail: usize,
    failures: usize,
) -> (AppV, bool) {
    if quits_v(key) {
        (a, true)
    } else {
        let p = pressed_v(a, key, rows_v(a.focus, sessions, detail, failures));
        if refilters_v(a, key) {
            (p, false)
        } else {
            (clamped_v(p, rows_v(p.focus, sessions, detail, failures)), false)
        }
    }
}

fn rows(focus: Focus, sessions: usize, detail: usize, failures: usize) -> (r: usize)
    ensures
        r == rows_v(focus, sessions, detail, failures),
{
    match focus {
        Focus::Sessions => sessions,
        Focus::SessionDetail => detail,
        Focus::Failures => failures,
    }
}

fn place_of(active: &[&Session], key: &Option<String>) -> (r: Option<usize>)
    ensures
        text::opt_int(r) == place_of_key_v(
            ids_v(sessions::refs_v(active@)),
            text::opt_view(*key),
        ),
        r is Some ==> r->0 < active@.len(),
{
    let ghost ids = ids_v(sessions::refs_v(active@));
    assert(ids.len() == active@.len());
    let k = match key {
        None => {
            return None;
        },
        Some(k) => k,
    };
    let mut i: usize = 0;
    while i < active.len()
        invariant
            i <= active@.len(),
            ids == ids_v(sessions::refs_v(active@)),
            ids.len() == active@.len(),
            place_v(ids, k@, 0) == place_v(ids, k@, i as int),
            text::opt_view(*key) == Some(k@),
        decreases active@.len() - i,
    {
        assert(ids[i as int] == active@[i as int].id@);
        if same(&active[i].id, k) {
            return Some(i);
        }
        i += 1;
    }
    None
}

impl App {
    pub open spec fn view(&self) -> AppV {
        AppV {
            mode: self.mode,
            focus: self.focus,
            selected: self.selected,
            failure_filter: self.failure_filter,
            selected_session_key: text::opt_view(self.selected_session_key),
            selected_session_available: self.selected_session_available,
            detail_turn_key: text::opt_view(self.detail_turn_key),
            detail_request_id: text::opt_view(self.detail_request_id),
            started_at: self.started_at,
            last_tok_sample_at: self.last_tok_sample_at,
            toast: text::opt_view(self.toast),
            toast_set_at: self.toast_set_at,
        }
    }

    pub fn new(now: u64) -> (r: App)
        ensures
            r@ == fresh_v(now),
    {
        App {
            mode: Mode::Dashboard,
            focus: Focus::Sessions,
            selected: 0,
            failure_filter: FailureFilter::All,
            selected_session_key: None,
            selected_session_available: false,
            detail_turn_key: None,
            detail_request_id: None,
            started_at: Some(now),
            last_tok_sample_at: None,
            toast: None,
            toast_set_at: None,
        }
    }

    pub fn uptime_secs(&self, now: u64) -> (r: u64)
        ensures
            r == match self.started_at {
                Some(t) => seconds_v(t, now),
                None => 0,
            },
    {
        match self.started_at {
            Some(t) => seconds(t, now),
            None => 0,
        }
    }

    /// Tells the user something for a while.
    pub fn set_toast(&mut self, msg: &str, now: u64)
        ensures
            final(self)@ == (AppV { toast: Some(msg@), toast_set_at: Some(now), ..old(self)@ }),
    {
        self.toast = Some(text::owned(msg));
        self.toast_set_at = Some(now);
    }

    /// What the user is told now.
    pub fn toast_message(&self, now: u64) -> (r: Option<&str>)
        ensures
            crate::json::opt_str(r) == message_v(self@, now),
    {
        match self.toast_set_at {
            None => None,
            Some(t) => if seconds(t, now) >= TOAST_SECS {
                None
            } else {
                match &self.toast {
                    Some(s) => Some(s.as_str()),
                    None => None,
                }
            },
        }
    }

    /// Forgets what the user has been told for long enough.
    pub fn tick_toast(&mut self, now: u64)
        ensures
            final(self)@ == ticked_v(old(self)@, now),
    {
        let expired = match self.toast_set_at {
            Some(t) => seconds(t, now) >= TOAST_SECS,
            None => false,
        };
        if self.toast.is_some() && expired {
            self.toast = None;
            self.toast_set_at = None;
        }
    }

    /// Looks whether the chosen session is still known.
    pub fn refresh_selected_session_availability(&mut self, known: &[Session])
        ensures
            final(self)@ == refreshed_v(old(self)@, ids_v(store::sessions_v(known@))),
    {
        let ghost ids = ids_v(store::sessions_v(known@));
        assert(ids.len() == known@.len());
        let mut found = false;
        if let Some(key) = &self.selected_session_key {
            let mut i: usize = 0;
            while i < known.len() && !found
                invariant
                    i <= known@.len(),
                    ids == ids_v(store::sessions_v(known@)),
                    ids.len() == known@.len(),
                    !found ==> place_v(ids, key@, 0) == place_v(ids, key@, i as int),
                    found ==> place_v(ids, key@, 0) is Some,
                decreases known@.len() - i,
            {
                assert(ids[i as int] == known@[i as int].id@);
                if same(&known[i].id, key) {
                    found = true;
                }
                i += 1;
            }
        }
        self.selected_session_available = found;
    }

    /// Keeps the chosen session chosen when the list of sessions changes.
    pub fn sync_selected_session(&mut self, active: &[&Session])
        ensures
            final(self)@ == synced_v(old(self)@, ids_v(sessions::refs_v(active@))),
    {
        let ghost ids = ids_v(sessions::refs_v(active@));
        assert(ids.len() == active@.len());
        let looked_at = match self.focus {
            Focus::SessionDetail => true,
            _ => match self.mode {
                Mode::Detail => true,
                _ => false,
            },
        };
        if looked_at && self.selected_session_available {
            return;
        }
        let on_sessions = match self.focus {
            Focus::Sessions => true,
            _ => false,
        };
        let on_failures = match self.focus {
            Focus::Failures => true,
            _ => false,
        };
        if active.len() == 0 {
            self.selected_session_key = None;
            self.selected_session_available = false;
            if on_sessions {
                self.selected = 0;
            }
            return;
        }
        if let Some(i) = place_of(active, &self.selected_session_key) {
            if on_sessions {
                self.selected = i;
            }
            self.selected_session_available = true;
            return;
        }
        let i: usize = if on_sessions {
            if self.selected < active.len() - 1 {
                self.selected
            } else {
                active.len() - 1
            }
        } else {
            0
        };
        if !on_failures {
            self.selected = i;
        }
        assert(ids[i as int] == active@[i as int].id@);
        self.selected_session_key = Some(text::owned(&active[i].id));
        self.selected_session_available = true;
    }

    /// Chooses the session at the selection.
    pub fn pin_session_from_selection(&mut self, active: &[&Session])
        ensures
            final(self)@ == pinned_v(old(self)@, ids_v(sessions::refs_v(active@))),
    {
        let ghost ids = ids_v(sessions::refs_v(active@));
        assert(ids.len() == active@.len());
        if active.len() == 0 {
            self.selected_session_key = None;
            self.selected_session_available = false;
            return;
        }
        let i: usize = if self.selected < active.len() - 1 {
            self.selected
        } else {
            active.len() - 1
        };
        assert(ids[i as int] == active@[i as int].id@);
        self.selected_session_key = Some(text::owned(&active[i].id));
        self.selected_session_available = true;
    }

    /// Puts the selection back on the chosen session.
    pub fn restore_session_selection(&mut self, active: &[&Session])
        ensures
            final(self)@ == restored_v(old(self)@, ids_v(sessions::refs_v(active@))),
    {
        if let Some(i) = place_of(active, &self.selected_session_key) {
            self.selected = i;
            self.selected_session_available = true;
            return;
        }
        self.selected = 0;
        self.pin_session_from_selection(active);
    }

    pub fn pin_turn_detail(&mut self, request_key: &str)
        ensures
            final(self)@ == (AppV { detail_turn_key: Some(request_key@), ..old(self)@ }),
    {
        self.detail_turn_key = Some(text::owned(request_key));
    }

    /// Whether a second has passed since the token rate was last sampled.
    pub fn should_sample_tok_s(&self, now: u64) -> (r: bool)
        ensures
            r == match self.last_tok_sample_at {
                None => true,
                Some(t) => seconds_v(t, now) >= 1,
            },
    {
        match self.last_tok_sample_at {
            None => true,
            Some(t) => seconds(t, now) >= 1,
        }
    }

    pub fn mark_tok_sampled(&mut self, now: u64)
        ensures
            final(self)@ == (AppV { last_tok_sample_at: Some(now), ..old(self)@ }),
    {
        self.last_tok_sample_at = Some(now);
    }

    /// Keeps the selection within the rows of the panel in focus.
    pub fn clamp_selection(&mut self, sessions_len: usize, detail_len: usize, failures_len: usize)
        ensures
            final(self)@ == clamped_v(
                old(self)@,
                rows_v(old(self)@.focus, sessions_len, detail_len, failures_len),
            ),
    {
        let count: usize = rows(self.focus, sessions_len, detail_len, failures_len);
        if count == 0 {
            self.selected = 0;
        } else if self.selected >= count {
            self.selected = count - 1;
        }
    }

    pub fn pin_failure_detail(&mut self, request_id: &str)
        ensures
            final(self)@ == (AppV { detail_request_id: Some(request_id@), ..old(self)@ }),
    {
        self.detail_request_id = Some(text::owned(request_id));
    }

    fn back(&mut self)
        ensures
            final(self)@ == (AppV {
                mode: Mode::Dashboard,
                detail_turn_key: None,
                detail_request_id: None,
                ..old(self)@
            }),
    {
        self.mode = Mode::Dashboard;
        self.detail_turn_key = None;
        self.detail_request_id = None;
    }

    fn press_letter(&mut self, c: char, count: usize, key: Key)
        requires
            letter_v(key, c),
            !quits_v(key),
        ensures
            final(self)@ == pressed_v(old(self)@, key, count),
    {
        let dash = match self.mode {
            Mode::Dashboard => true,
            _ => false,
        };
        if c == '?' {
            self.mode = match self.mode {
                Mode::Help => Mode::Dashboard,
                _ => Mode::Help,
            };
        } else if (c == 'f' || c == 'F') && dash {
            self.failure_filter = self.failure_filter.next();
            match self.focus {
                Focus::Failures => {
                    self.selected = 0;
                },
                _ => {},
            }
        } else if c == 'k' && dash {
            if self.selected > 0 {
                self.selected = self.selected - 1;
            }
        } else if c == 'j' && dash {
            if self.selected < count && count - self.selected > 1 {
                self.selected = self.selected + 1;
            }
        }
    }

    fn press(&mut self, key: Key, count: usize)
        requires
            !quits_v(key),
        ensures
            final(self)@ == pressed_v(old(self)@, key, count),
    {
        let dash = match self.mode {
            Mode::Dashboard => true,
            _ => false,
        };
        match key {
            Key::Char(c) => self.press_letter(c, count, key),
            Key::Control(c) => self.press_letter(c, count, key),
            Key::Esc | Key::Backspace => {
                if !dash {
                    self.back();
                }
            },
            Key::Enter => {
                let summary = match self.focus {
                    Focus::SessionDetail => self.selected_session_available,
                    _ => false,
                };
                if dash && (count > 0 || summary) {
                    self.back();
                    self.mode = Mode::Detail;
                }
            },
            Key::Tab => {
                if dash {
                    self.focus = match self.focus {
                        Focus::Sessions => Focus::SessionDetail,
                        Focus::SessionDetail => Focus::Failures,
                        Focus::Failures => Focus::Sessions,
                    };
                    self.selected = 0;
                }
            },
            Key::BackTab => {
                if dash {
                    self.focus = match self.focus {
                        Focus::Sessions => Focus::Failures,
                        Focus::SessionDetail => Focus::Sessions,
                        Focus::Failures => Focus::SessionDetail,
                    };
                    self.selected = 0;
                }
            },
            Key::Up => {
                if dash && self.selected > 0 {
                    self.selected = self.selected - 1;
                }
            },
            Key::Down => {
                if dash && self.selected < count && count - self.selected > 1 {
                    self.selected = self.selected + 1;
                }
            },
            Key::Other => {},
        }
    }

    /// Takes a key, and says whether the monitor is left. After a change of the
    /// filter the selection is the first row, which the caller holds against the
    /// new list.
    pub fn handle(
        &mut self,
        key: Key,
        sessions_len: usize,
        detail_len: usize,
        failures_len: usize,
    ) -> (r: bool)
        ensures
            (final(self)@, r) == handled_v(
                old(self)@,
                key,
                sessions_len,
                detail_len,
                failures_len,
            ),
    {
        let quits = match key {
            Key::Char(c) => c == 'q' || c == 'Q',
            Key::Control(c) => c == 'q' || c == 'Q' || c == 'c',
            _ => false,
        };
        if quits {
            return true;
        }
        let letter = match key {
            Key::Char(c) => c == 'f' || c == 'F',
            Key::Control(c) => c == 'f' || c == 'F',
            _ => false,
        };
        let dash = match self.mode {
            Mode::Dashboard => true,
            _ => false,
        };
        let on_failures = match self.focus {
            Focus::Failures => true,
            _ => false,
        };
        let count: usize = rows(self.focus, sessions_len, detail_len, failures_len);
        self.press(key, count);
        if !(letter && dash && on_failures) {
            self.clamp_selection(sessions_len, detail_len, failures_len);
        }
        false
    }
}

/// After every key the selection lies within the rows of the panel in focus, or
/// is the first.
pub proof fn selections_stay_within(
    a: AppV,
    key: Key,
    sessions: usize,
    detail: usize,
    failures: usize,
)
    requires
        !quits_v(key),
    ensures
        ({
            let b = handled_v(a, key, sessions, detail, failures).0;
            b.selected == 0 || b.selected < rows_v(b.focus, sessions, detail, failures)
        }),
{
}

/// A key that opens or closes a window, or leaves the monitor, is the only one
/// that does anything while a window is open.
pub proof fn windows_take_the_keys(
    a: AppV,
    key: Key,
    sessions: usize,
    detail: usize,
    failures: usize,
)
    requires
        a.mode != Mode::Dashboard,
        !letter_v(key, '?'),
        key != Key::Esc,
        key != Key::Backspace,
        !quits_v(key),
    ensures
        handled_v(a, key, sessions, detail, failures).0 == clamped_v(
            a,
            rows_v(a.focus, sessions, detail, failures),
        ),
{
}

proof fn place_found(ids: Seq<Seq<char>>, key: Seq<char>, i: int, k: int)
    requires
        0 <= i <= k < ids.len(),
        ids[k] == key,
    ensures
        place_v(ids, key, i) is Some,
        i <= place_v(ids, key, i)->0 <= k,
        ids[place_v(ids, key, i)->0] == key,
    decreases ids.len() - i,
{
    if ids[i] != key {
        place_found(ids, key, i + 1, k);
    }
}

/// A chosen session that is still in the list stays chosen, wherever it now
/// stands, and on the list of sessions the selection follows it.
pub proof fn chosen_sessions_stay_chosen(a: AppV, ids: Seq<Seq<char>>, k: int)
    requires
        0 <= k < ids.len(),
        a.selected_session_key == Some(ids[k]),
        ids.len() <= usize::MAX,
    ensures
        ({
            let b = synced_v(a, ids);
            &&& b.selected_session_key == a.selected_session_key
            &&& a.focus == Focus::Sessions && !held_v(a) ==> b.selected < ids.len()
                && ids[b.selected as int] == ids[k]
            &&& a.focus == Focus::Failures ==> b.selected == a.selected
        }),
{
    place_found(ids, ids[k], 0, k);
}

/// What a key asks to be exported.
#[derive(Clone, Copy, Debug, PartialEq, Eq, Structural)]
pub struct ExportKey {
    /// To the clipboard; else to a file.
    pub copy: bool,
    pub json: bool,
}

/// What a key asks to be exported; nothing while a window is open.
pub open spec fn export_v(key: Key, mode: Mode) -> Option<ExportKey> {
    if mode != Mode::Dashboard {
        None
    } else if letter_v(key, 'y') {
        Some(ExportKey { copy: true, json: false })
    } else if letter_v(key, 'Y') {
        Some(ExportKey { copy: true, json: true })
    } else if letter_v(key, 'w') {
        Some(ExportKey { copy: false, json: false })
    } else if letter_v(key, 'W') {
        Some(ExportKey { copy: false, json: true })
    } else {
        None
    }
}

pub fn export_key(key: Key, mode: Mode) -> (r: Option<ExportKey>)
    ensures
        r == export_v(key, mode),
{
    match mode {
        Mode::Dashboard => {},
        _ => {
            return None;
        },
    }
    let c: char = match key {
        Key::Char(c) => c,
        Key::Control(c) => c,
        _ => {
            return None;
        },
    };
    if c == 'y' {
        Some(ExportKey { copy: true, json: false })
    } else if c == 'Y' {
        Some(ExportKey { copy: true, json: true })
    } else if c == 'w' {
        Some(ExportKey { copy: false, json: false })
    } else if c == 'W' {
        Some(ExportKey { copy: false, json: true })
    } else {
        None
    }
}

/// The keys for the rows go one row down or up, and stop at the ends.
pub proof fn rows_are_walked(a: AppV, sessions: usize, detail: usize, failures: usize)
    requires
        a.mode == Mode::Dashboard,
        a.selected < rows_v(a.focus, sessions, detail, failures),
    ensures
        ({
            let n = rows_v(a.focus, sessions, detail, failures);
            let down = handled_v(a, Key::Down, sessions, detail, failures).0;
            let up = handled_v(a, Key::Up, sessions, detail, failures).0;
            &&& a.selected + 1 < n ==> down.selected == a.selected + 1
            &&& a.selected + 1 == n ==> down.selected == a.selected
            &&& a.selected > 0 ==> up.selected == a.selected - 1
            &&& a.selected == 0 ==> up.selected == 0
            &&& down.focus == a.focus && up.focus == a.focus
            &&& handled_v(a, Key::Char('j'), sessions, detail, failures).0 == down
            &&& handled_v(a, Key::Char('k'), sessions, detail, failures).0 == up
        }),
{
}

/// Going on to the next panel and back leads to the same one, and each panel
/// follows another.
pub proof fn panels_are_walked(a: AppV, sessions: usize, detail: usize, failures: usize)
    requires
        a.mode == Mode::Dashboard,
    ensures
        ({
            let on = handled_v(a, Key::Tab, sessions, detail, failures).0;
            let back = handled_v(on, Key::BackTab, sessions, detail, failures).0;
            let third = handled_v(
                handled_v(on, Key::Tab, sessions, detail, failures).0,
                Key::Tab,
                sessions,
                detail,
                failures,
            ).0;
            &&& on.focus != a.focus
            &&& on.selected == 0
            &&& back.focus == a.focus
            &&& third.focus == a.focus
        }),
{
}

/// A window that is opened shows what is selected and is closed again; help comes
/// and goes with its key.
pub proof fn windows_open_and_close(a: AppV, sessions: usize, detail: usize, failures: usize)
    requires
        a.mode == Mode::Dashboard,
        a.selected < rows_v(a.focus, sessions, detail, failures),
    ensures
        ({
            let open = handled_v(a, Key::Enter, sessions, detail, failures).0;
            let closed = handled_v(open, Key::Esc, sessions, detail, failures).0;
            let help = handled_v(a, Key::Char('?'), sessions, detail, failures).0;
            &&& open.mode == Mode::Detail
            &&& open.selected == a.selected
            &&& closed.mode == Mode::Dashboard
            &&& closed.selected == a.selected
            &&& closed.focus == a.focus
            &&& help == (AppV { mode: Mode::Help, ..a })
            &&& handled_v(help, Key::Char('?'), sessions, detail, failures).0 == a
        }),
{
}

} // verus!
