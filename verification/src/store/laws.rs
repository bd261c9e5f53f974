//! What holds of the store whatever happens.

use vstd::prelude::*;

use crate::events::{EventV, RequestEventKind};
use crate::order;
use crate::store::model;
use crate::store::model::{Moment, RequestV, SessionV, StoreV};
use crate::table;
use crate::text;

verus! {

/// No list is longer than it may be, no name stands twice, and no finished
/// request is still running.
pub open spec fn bounded_v(s: StoreV) -> bool {
    &&& s.recent.len() <= s.recent_cap
    &&& s.errors.len() <= s.recent_cap
    &&& s.failures.len() <= s.failure_cap
    &&& s.metrics_completed.len() <= model::METRICS_CAP
    &&& s.completed.len() <= model::completed_cap_v(s.recent_cap)
    &&& table::distinct_v(s.sessions)
    &&& table::distinct_v(s.active)
    &&& table::distinct_v(s.failure_counts)
    &&& forall|i: int|
        0 <= i < s.active.len() ==> !s.completed.contains((#[trigger] s.active[i]).0)
}

/// The store starts within its bounds.
pub proof fn empty_is_bounded(failure_cap: usize, recent_cap: usize)
    ensures
        bounded_v(model::empty_v(failure_cap, recent_cap)),
{
}

proof fn put_names<T>(s: Seq<(Seq<char>, T)>, k: Seq<char>, v: T, i: int)
    requires
        0 <= i < table::put_v(s, k, v).len(),
    ensures
        table::put_v(s, k, v)[i].0 == k || (i < s.len() && table::put_v(s, k, v)[i].0 == s[i].0),
{
    table::find_within(s, k);
}

proof fn del_names<T>(s: Seq<(Seq<char>, T)>, k: Seq<char>, i: int)
    requires
        table::distinct_v(s),
        0 <= i < table::del_v(s, k).len(),
    ensures
        table::del_v(s, k)[i].0 != k,
        exists|j: int| 0 <= j < s.len() && #[trigger] s[j].0 == table::del_v(s, k)[i].0,
{
    table::find_within(s, k);
    let f = table::find_v(s, k);
    let t = table::del_v(s, k);
    if f >= 0 {
        let j = if i < f {
            i
        } else {
            i + 1
        };
        assert(t[i] == s[j]);
        assert(s[f].0 == k);
    } else {
        assert(t[i] == s[i]);
    }
}

proof fn touch_keeps(s: StoreV, e: EventV, wall: i64)
    requires
        bounded_v(s),
    ensures
        bounded_v(model::touch_v(s, e, wall)),
{
    if let Some(x) = table::get_v(s.sessions, e.session_id) {
        table::put_keeps(s.sessions, e.session_id, model::touched_v(x, e, wall));
    }
}

proof fn running_keeps(s: StoreV, id: Seq<char>, r: RequestV)
    requires
        bounded_v(s),
        !s.completed.contains(id),
    ensures
        bounded_v(StoreV { active: table::put_v(s.active, id, r), ..s }),
{
    let t = table::put_v(s.active, id, r);
    table::put_keeps(s.active, id, r);
    assert forall|i: int| 0 <= i < t.len() implies !s.completed.contains((#[trigger] t[i]).0) by {
        put_names(s.active, id, r, i);
        if t[i].0 != id {
            assert(!s.completed.contains(s.active[i].0));
        }
    }
}

/// Every event leaves the store within its bounds.
pub proof fn apply_keeps_bounds(s: StoreV, e: EventV, now: Moment)
    requires
        bounded_v(s),
        s.recent_cap > 0,
        s.failure_cap > 0,
    ensures
        bounded_v(model::apply_v(s, e, now)),
{
    if s.completed.contains(e.request_id) {
    } else {
        match e.kind {
            RequestEventKind::Started => {
                match table::get_v(s.active, e.request_id) {
                    Some(r) => {
                        running_keeps(s, e.request_id, model::restarted_v(r, e));
                        touch_keeps(
                            StoreV {
                                active: table::put_v(
                                    s.active,
                                    e.request_id,
                                    model::restarted_v(r, e),
                                ),
                                ..s
                            },
                            e,
                            now.wall,
                        );
                    },
                    None => {
                        running_keeps(s, e.request_id, model::request_v(e));
                        table::put_keeps(
                            s.sessions,
                            e.session_id,
                            model::opened_v(model::session_of_v(s, e.session_id), e, now.wall),
                        );
                    },
                }
            },
            RequestEventKind::Updated => {
                if let Some(r) = table::get_v(s.active, e.request_id) {
                    let p = model::progressed_v(r, e, now.tick);
                    running_keeps(s, e.request_id, p);
                    touch_keeps(
                        StoreV { active: table::put_v(s.active, e.request_id, p), ..s },
                        e,
                        now.wall,
                    );
                }
            },
            _ => ended_keeps(s, e, now),
        }
    }
}

proof fn marks_keep_length(f: Seq<model::FailureV>, id: Seq<char>, i: int)
    ensures
        model::failure_marked_v(f, id, i).len() == f.len(),
    decreases f.len() - i,
{
    if 0 <= i < f.len() && f[i].request_id != id {
        marks_keep_length(f, id, i + 1);
    }
}

proof fn prior_within(recent: Seq<RequestV>, r: RequestV, i: int)
    requires
        0 <= i,
    ensures
        model::prior_v(recent, r, i) matches Some(k) ==> i <= k < recent.len() && model::retries_v(
            recent[k],
            r,
        ),
    decreases recent.len() - i,
{
    if i < recent.len() && !model::retries_v(recent[i], r) {
        prior_within(recent, r, i + 1);
    }
}

proof fn ended_keeps(s: StoreV, e: EventV, now: Moment)
    requires
        bounded_v(s),
        s.recent_cap > 0,
        s.failure_cap > 0,
        !s.completed.contains(e.request_id),
        e.kind == RequestEventKind::Completed || e.kind == RequestEventKind::Failed,
    ensures
        bounded_v(model::ended_v(s, e, now)),
{
    let r = model::finished_v(
        match table::get_v(s.active, e.request_id) {
            Some(r) => r,
            None => model::request_v(e),
        },
        e,
        now.tick,
    );
    let q = RequestV {
        retry_candidate: r.retry_candidate || model::prior_v(s.recent, r, 0) is Some,
        ..r
    };
    let t = StoreV { active: table::del_v(s.active, e.request_id), ..s };
    prior_within(s.recent, r, 0);
    if let Some(i) = model::prior_v(s.recent, r, 0) {
        marks_keep_length(s.failures, s.recent[i].id, 0);
    }
    let p = model::paired_v(t, r);
    let u = model::recorded_v(p, q, e, now.wall);
    table::del_keeps(s.active, e.request_id);
    let index = model::next_count_v(table::get_v(s.failure_counts, e.session_id));
    table::put_keeps(s.failure_counts, e.session_id, index);
    table::put_keeps(
        u.sessions,
        e.session_id,
        model::closed_v(model::session_of_v(u, e.session_id), q, e, now),
    );
    let out = model::ended_v(s, e, now);
    assert forall|i: int| 0 <= i < out.active.len() implies !out.completed.contains(
        (#[trigger] out.active[i]).0,
    ) by {
        del_names(s.active, e.request_id, i);
        let j = choose|j: int| 0 <= j < s.active.len() && #[trigger] s.active[j].0
            == out.active[i].0;
        assert(!s.completed.contains(s.active[j].0));
        let pushed = s.completed.push(e.request_id);
        assert(!pushed.contains(out.active[i].0)) by {
            if pushed.contains(out.active[i].0) {
                let m = choose|m: int| 0 <= m < pushed.len() && pushed[m] == out.active[i].0;
                if m < s.completed.len() {
                    assert(s.completed[m] == out.active[i].0);
                }
            }
        }
    }
}

/// News of a running request leaves finished turns, failures, samples and totals
/// as they are.
pub proof fn updates_touch_only_what_runs(s: StoreV, e: EventV, now: Moment)
    requires
        e.kind == RequestEventKind::Updated,
    ensures
        ({
            let t = model::apply_v(s, e, now);
            &&& t.recent == s.recent
            &&& t.errors == s.errors
            &&& t.failures == s.failures
            &&& t.completed == s.completed
            &&& t.metrics_completed == s.metrics_completed
            &&& t.totals == s.totals
        }),
{
}

/// What has ended stays so: as long as the end of a request is remembered,
/// nothing that is told of it changes anything.
pub proof fn ended_requests_stay_ended(s: StoreV, e: EventV, now: Moment)
    requires
        s.completed.contains(e.request_id),
    ensures
        model::apply_v(s, e, now) == s,
{
}

/// A request ends once: as long as its end is remembered, no event of any kind
/// that comes after it changes anything.
pub proof fn requests_end_once(s: StoreV, e: EventV, again: EventV, now: Moment, later: Moment)
    requires
        e.kind == RequestEventKind::Completed || e.kind == RequestEventKind::Failed,
        again.request_id == e.request_id,
        s.completed.contains(e.request_id) || s.completed.len() < model::completed_cap_v(
            s.recent_cap,
        ),
    ensures
        model::apply_v(model::apply_v(s, e, now), again, later) == model::apply_v(s, e, now),
{
    if !s.completed.contains(e.request_id) {
        let completed = s.completed.push(e.request_id);
        assert(completed[s.completed.len() as int] == e.request_id);
        assert(completed.contains(e.request_id));
    }
    ended_requests_stay_ended(model::apply_v(s, e, now), again, later);
}

/// A phase never goes back, whatever an event says.
pub proof fn phases_only_advance(r: RequestV, e: EventV, tick: u64)
    ensures
        model::rank_v(model::restarted_v(r, e).phase) >= model::rank_v(r.phase),
        model::rank_v(model::progressed_v(r, e, tick).phase) >= model::rank_v(r.phase),
        model::rank_v(model::finished_v(r, e, tick).phase) >= model::rank_v(r.phase),
{
}

/// Counts are absolute: what a turn reports at its end is what is recorded,
/// whatever it reported before.
pub proof fn progress_is_not_counted_twice(r: RequestV, e: EventV, last: EventV, tick: u64)
    ensures
        model::finished_v(model::progressed_v(r, e, tick), last, tick).output_tokens
            == last.output_tokens,
{
}

proof fn less_transitive(a: Seq<char>, b: Seq<char>, c: Seq<char>)
    requires
        !text::less_v(a, b),
        !text::less_v(b, c),
    ensures
        !text::less_v(a, c),
    decreases a.len(),
{
    if a.len() > 0 && b.len() > 0 && c.len() > 0 && a[0] == b[0] && b[0] == c[0] {
        less_transitive(a.skip(1), b.skip(1), c.skip(1));
    }
}

/// The monitor is shown every session once, the latest first.
pub proof fn sessions_are_shown_in_order(s: StoreV)
    ensures
        order::ordered_v(
            model::snapshot_v(s).sessions,
            |a: SessionV, b: SessionV| model::shown_before_v(a, b),
        ),
        model::snapshot_v(s).sessions.to_multiset() == model::values_v(s.sessions).to_multiset(),
{
    let before = |a: SessionV, b: SessionV| model::shown_before_v(a, b);
    assert forall|a: SessionV, b: SessionV| #[trigger] before(a, b) implies !before(b, a) by {
        text::less_total(a.id, b.id);
    }
    assert forall|a: SessionV, b: SessionV, c: SessionV|
        !(#[trigger] before(a, b)) && !(#[trigger] before(b, c)) implies !before(a, c) by {
        if a.updated_at == b.updated_at && b.updated_at == c.updated_at {
            less_transitive(a.id, b.id, c.id);
        }
    }
    order::sorted_is_ordered(model::values_v(s.sessions), before);
    order::sorted_is_permutation(model::values_v(s.sessions), before);
}

/// The monitor is shown every running request once, the oldest first.
pub proof fn running_requests_are_shown_in_order(s: StoreV)
    ensures
        order::ordered_v(
            model::snapshot_v(s).active,
            |a: RequestV, b: RequestV| a.started_at < b.started_at,
        ),
        model::snapshot_v(s).active.to_multiset() == model::values_v(s.active).to_multiset(),
{
    let before = |a: RequestV, b: RequestV| a.started_at < b.started_at;
    order::sorted_is_ordered(model::values_v(s.active), before);
    order::sorted_is_permutation(model::values_v(s.active), before);
}

/// The monitor is shown the lists and the totals as they are kept.
pub proof fn kept_lists_are_shown(s: StoreV)
    ensures
        ({
            let shown = model::snapshot_v(s);
            &&& shown.recent == s.recent
            &&& shown.errors == s.errors
            &&& shown.failures == s.failures
            &&& shown.metrics_completed == s.metrics_completed
            &&& shown.totals == s.totals
        }),
{
}

} // verus!
