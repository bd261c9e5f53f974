//! What the store says of the requests that it was told of: counts and records.

use vstd::prelude::*;

use crate::events;
use crate::events::{EventV, FailureKind, RequestEventKind, RequestPhase};
use crate::store::model;
use crate::store::model::{FailureV, Moment, RequestV, SessionV, StoreV};
use crate::table;

verus! {

/// The counts of a session, or those of all requests.
#[verifier::ext_equal]
pub struct CountsV {
    pub requests: int,
    pub active: int,
    pub errors: int,
    pub usage_requests: int,
    pub input_tokens: int,
    pub cached_input_tokens: int,
    pub cache_write_tokens: int,
    pub fresh_input_tokens: int,
    pub output_tokens: int,
}

/// The counts of the session `key`, all zero where it is not known.
pub open spec fn counts_v(s: StoreV, key: Seq<char>) -> CountsV {
    match table::get_v(s.sessions, key) {
        Some(x) => CountsV {
            requests: x.requests as int,
            active: x.active as int,
            errors: x.errors as int,
            usage_requests: x.usage_requests as int,
            input_tokens: x.input_tokens as int,
            cached_input_tokens: x.cached_input_tokens as int,
            cache_write_tokens: x.cache_write_tokens as int,
            fresh_input_tokens: x.fresh_input_tokens as int,
            output_tokens: x.output_tokens as int,
        },
        None => CountsV {
            requests: 0,
            active: 0,
            errors: 0,
            usage_requests: 0,
            input_tokens: 0,
            cached_input_tokens: 0,
            cache_write_tokens: 0,
            fresh_input_tokens: 0,
            output_tokens: 0,
        },
    }
}

pub open spec fn is_end_v(e: EventV) -> bool {
    e.kind == RequestEventKind::Completed || e.kind == RequestEventKind::Failed
}

/// The input that was neither read from a cache nor written to one.
pub open spec fn fresh_v(e: EventV) -> int {
    match e.usage {
        Some(u) => if u.input_tokens > u.cached_input_tokens + u.cache_write_tokens {
            u.input_tokens - u.cached_input_tokens - u.cache_write_tokens
        } else {
            0
        },
        None => 0,
    }
}

/// A sum that stops at the largest count there is.
pub open spec fn sum_v(a: int, b: int) -> int {
    if a + b > u64::MAX {
        u64::MAX as int
    } else {
        a + b
    }
}

/// A request that ends is counted in its session: its tokens are added to those
/// of the requests before it, it runs no more, and it is an error if it failed.
pub proof fn ends_are_counted(s: StoreV, e: EventV, now: Moment)
    requires
        is_end_v(e),
        !s.completed.contains(e.request_id),
    ensures
        ({
            let before = counts_v(s, e.session_id);
            let after = counts_v(model::apply_v(s, e, now), e.session_id);
            let u = e.usage;
            &&& after.output_tokens == sum_v(before.output_tokens, e.output_tokens as int)
            &&& after.requests == before.requests
            &&& after.active == if before.active > 0 {
                before.active - 1
            } else {
                0
            }
            &&& after.errors == sum_v(
                before.errors,
                if e.kind == RequestEventKind::Failed {
                    1
                } else {
                    0
                },
            )
            &&& after.usage_requests == sum_v(
                before.usage_requests,
                if u is Some {
                    1
                } else {
                    0
                },
            )
            &&& after.input_tokens == sum_v(
                before.input_tokens,
                if u is Some {
                    u->0.input_tokens as int
                } else {
                    0
                },
            )
            &&& after.cached_input_tokens == sum_v(
                before.cached_input_tokens,
                if u is Some {
                    u->0.cached_input_tokens as int
                } else {
                    0
                },
            )
            &&& after.cache_write_tokens == sum_v(
                before.cache_write_tokens,
                if u is Some {
                    u->0.cache_write_tokens as int
                } else {
                    0
                },
            )
            &&& after.fresh_input_tokens == sum_v(before.fresh_input_tokens, fresh_v(e))
        }),
{
    let t = model::ended_v(s, e, now);
    let x = model::session_of_v(s, e.session_id);
    let r = ended_request_v(s, e, now);
    paired_keeps(s, e, r);
    table::put_is_found(
        s.sessions,
        e.session_id,
        model::closed_v(x, marked_request_v(s, e, now), e, now),
        e.session_id,
    );
}

/// The request as its end leaves it.
spec fn ended_request_v(s: StoreV, e: EventV, now: Moment) -> RequestV {
    model::finished_v(
        match table::get_v(s.active, e.request_id) {
            Some(r) => r,
            None => model::request_v(e),
        },
        e,
        now.tick,
    )
}

spec fn marked_request_v(s: StoreV, e: EventV, now: Moment) -> RequestV {
    let r = ended_request_v(s, e, now);
    RequestV {
        retry_candidate: r.retry_candidate || model::prior_v(s.recent, r, 0) is Some,
        ..r
    }
}

proof fn paired_keeps(s: StoreV, e: EventV, r: RequestV)
    ensures
        ({
            let t = StoreV { active: table::del_v(s.active, e.request_id), ..s };
            let p = model::paired_v(t, r);
            &&& p.sessions == s.sessions
            &&& p.active == t.active
            &&& p.errors == s.errors
            &&& p.failure_counts == s.failure_counts
            &&& p.metrics_completed == s.metrics_completed
            &&& p.totals == s.totals
            &&& p.recent_cap == s.recent_cap
            &&& p.failure_cap == s.failure_cap
        }),
{
}

/// Nothing that is told of one session changes another.
pub proof fn sessions_stay_apart(s: StoreV, e: EventV, now: Moment, key: Seq<char>)
    requires
        key != e.session_id,
    ensures
        table::get_v(model::apply_v(s, e, now).sessions, key) == table::get_v(s.sessions, key),
{
    match e.kind {
        RequestEventKind::Started => {
            table::put_is_found(
                s.sessions,
                e.session_id,
                model::opened_v(model::session_of_v(s, e.session_id), e, now.wall),
                key,
            );
            if let Some(x) = table::get_v(s.sessions, e.session_id) {
                table::put_is_found(
                    s.sessions,
                    e.session_id,
                    model::touched_v(x, e, now.wall),
                    key,
                );
            }
        },
        RequestEventKind::Updated => {
            if let Some(x) = table::get_v(s.sessions, e.session_id) {
                table::put_is_found(
                    s.sessions,
                    e.session_id,
                    model::touched_v(x, e, now.wall),
                    key,
                );
            }
        },
        _ => {
            let r = ended_request_v(s, e, now);
            paired_keeps(s, e, r);
            table::put_is_found(
                s.sessions,
                e.session_id,
                model::closed_v(
                    model::session_of_v(s, e.session_id),
                    marked_request_v(s, e, now),
                    e,
                    now,
                ),
                key,
            );
        },
    }
}

/// A request that starts is counted once in its session, and runs until it ends;
/// news of it, and a second start, count nothing.
pub proof fn starts_are_counted(s: StoreV, e: EventV, now: Moment)
    requires
        !is_end_v(e),
    ensures
        ({
            let before = counts_v(s, e.session_id);
            let after = counts_v(model::apply_v(s, e, now), e.session_id);
            let new = e.kind == RequestEventKind::Started && !s.completed.contains(e.request_id)
                && table::get_v(s.active, e.request_id) is None;
            &&& after == CountsV {
                requests: sum_v(
                    before.requests,
                    if new {
                        1
                    } else {
                        0
                    },
                ),
                active: sum_v(
                    before.active,
                    if new {
                        1
                    } else {
                        0
                    },
                ),
                ..before
            }
        }),
{
    table::put_is_found(
        s.sessions,
        e.session_id,
        model::opened_v(model::session_of_v(s, e.session_id), e, now.wall),
        e.session_id,
    );
    if let Some(x) = table::get_v(s.sessions, e.session_id) {
        table::put_is_found(
            s.sessions,
            e.session_id,
            model::touched_v(x, e, now.wall),
            e.session_id,
        );
    }
}

/// The counts over all requests: each end that reports its usage is added, and
/// nothing else changes them.
pub proof fn totals_are_counted(s: StoreV, e: EventV, now: Moment)
    ensures
        ({
            let (a, b) = (s.totals, model::apply_v(s, e, now).totals);
            if is_end_v(e) && !s.completed.contains(e.request_id) && e.usage is Some {
                let u = e.usage->0;
                &&& b.usage_requests == sum_v(a.usage_requests as int, 1)
                &&& b.input_tokens == sum_v(a.input_tokens as int, u.input_tokens as int)
                &&& b.cached_input_tokens == sum_v(
                    a.cached_input_tokens as int,
                    u.cached_input_tokens as int,
                )
                &&& b.cache_write_tokens == sum_v(
                    a.cache_write_tokens as int,
                    u.cache_write_tokens as int,
                )
                &&& b.fresh_input_tokens == sum_v(a.fresh_input_tokens as int, fresh_v(e))
            } else {
                b == a
            }
        }),
{
    if is_end_v(e) {
        paired_keeps(s, e, ended_request_v(s, e, now));
    }
}

/// The store after a run of events.
pub open spec fn run_v(s: StoreV, told: Seq<(EventV, Moment)>) -> StoreV
    decreases told.len(),
{
    if told.len() == 0 {
        s
    } else {
        model::apply_v(run_v(s, told.drop_last()), told.last().0, told.last().1)
    }
}

/// The output tokens of the requests of a session that end in a run, each once.
pub open spec fn ended_tokens_v(s: StoreV, told: Seq<(EventV, Moment)>, key: Seq<char>) -> int
    decreases told.len(),
{
    if told.len() == 0 {
        0
    } else {
        let (e, now) = told.last();
        ended_tokens_v(s, told.drop_last(), key) + if is_end_v(e) && e.session_id == key
            && !run_v(s, told.drop_last()).completed.contains(e.request_id) {
            e.output_tokens as int
        } else {
            0
        }
    }
}

/// The requests of a session that end in failure in a run, each once.
pub open spec fn failed_requests_v(s: StoreV, told: Seq<(EventV, Moment)>, key: Seq<char>) -> int
    decreases told.len(),
{
    if told.len() == 0 {
        0
    } else {
        let (e, now) = told.last();
        failed_requests_v(s, told.drop_last(), key) + if e.kind == RequestEventKind::Failed
            && e.session_id == key && !run_v(s, told.drop_last()).completed.contains(
            e.request_id,
        ) {
            1int
        } else {
            0
        }
    }
}

/// Over any run of events the output tokens of a session grow by the sum of those
/// of the requests that end in it, and its errors by the number of those that
/// fail, as long as the counts last.
pub proof fn sessions_add_up(s: StoreV, told: Seq<(EventV, Moment)>, key: Seq<char>)
    requires
        counts_v(s, key).output_tokens + ended_tokens_v(s, told, key) <= u64::MAX,
        counts_v(s, key).errors + failed_requests_v(s, told, key) <= u64::MAX,
    ensures
        counts_v(run_v(s, told), key).output_tokens == counts_v(s, key).output_tokens
            + ended_tokens_v(s, told, key),
        counts_v(run_v(s, told), key).errors == counts_v(s, key).errors + failed_requests_v(
            s,
            told,
            key,
        ),
    decreases told.len(),
{
    if told.len() > 0 {
        let d = told.drop_last();
        let (e, now) = told.last();
        sessions_add_up(s, d, key);
        let before = run_v(s, d);
        if e.session_id != key {
            sessions_stay_apart(before, e, now, key);
        } else if is_end_v(e) {
            if !before.completed.contains(e.request_id) {
                ends_are_counted(before, e, now);
            }
        } else {
            starts_are_counted(before, e, now);
        }
    }
}

/// What is recorded of a request that has ended is what its last event says, and
/// what was known of it from its start.
pub open spec fn recorded_v(r: RequestV, start: Option<RequestV>, e: EventV, now: Moment) -> bool {
    &&& r.status == e.status_code
    &&& r.output_tokens == e.output_tokens
    &&& r.usage == e.usage
    &&& r.failure_kind == e.failure_kind
    &&& r.error == events::sanitize_v(e.error)
    &&& r.error_type == events::sanitize_v(e.error_type)
    &&& r.response_id == events::sanitize_v(e.response_id)
    &&& r.mapped == e.mapped && r.lite == e.lite && r.fast == e.fast
    &&& r.auth_retried == e.auth_retried
    &&& r.attempt == if e.attempt == 0 {
        1
    } else {
        e.attempt
    }
    &&& r.output_count == e.output_count
    &&& r.capture_bytes == e.capture_bytes
    &&& r.diagnostics == e.diagnostics
    &&& r.ended_at == Some(now.tick)
    &&& match start {
        Some(q) => r.id == q.id && r.session_id == q.session_id && r.model == q.model
            && r.requested_model == q.requested_model && r.started_at == q.started_at,
        None => r.id == events::sanitize_id_v(e.request_id) && r.session_id
            == events::sanitize_id_v(e.session_id) && r.model == events::sanitize_v(e.model)
            && r.requested_model == events::sanitize_v(e.requested_model) && r.started_at
            == e.started_at,
    }
    &&& r.duration_ms == if e.duration_ms > 0 {
        e.duration_ms as int
    } else if now.tick > r.started_at {
        (now.tick - r.started_at) / 1_000_000
    } else {
        0
    }
}

/// A request that ends leads the list of finished ones, as it ended; those before
/// it follow in their order, and the running ones are without it.
pub proof fn ends_are_recorded(s: StoreV, e: EventV, now: Moment)
    requires
        is_end_v(e),
        !s.completed.contains(e.request_id),
        s.recent_cap > 0,
    ensures
        ({
            let t = model::apply_v(s, e, now);
            &&& t.recent.len() == if s.recent.len() < s.recent_cap {
                s.recent.len() + 1
            } else {
                s.recent_cap as nat
            }
            &&& recorded_v(t.recent[0], table::get_v(s.active, e.request_id), e, now)
            &&& forall|i: int|
                0 < i < t.recent.len() ==> (RequestV {
                    retry_candidate: s.recent[i - 1].retry_candidate,
                    ..(#[trigger] t.recent[i])
                }) == s.recent[i - 1]
            &&& e.kind == RequestEventKind::Completed ==> t.errors == s.errors && t.failures.len()
                == s.failures.len()
            &&& e.kind == RequestEventKind::Failed ==> t.errors.len() > 0 && t.errors[0]
                == t.recent[0] && (forall|i: int|
                0 < i < t.errors.len() ==> (#[trigger] t.errors[i]) == s.errors[i - 1])
        }),
{
    let r = ended_request_v(s, e, now);
    paired_keeps(s, e, r);
    prior_is_there(s.recent, r, 0);
    marks_keep_failures(s.failures, r, 0);
    let p = model::paired_v(StoreV { active: table::del_v(s.active, e.request_id), ..s }, r);
    if let Some(i) = model::prior_v(s.recent, r, 0) {
        marks_keep_failures(s.failures, s.recent[i], 0);
    }
    let q = marked_request_v(s, e, now);
    let t = model::apply_v(s, e, now);
    assert(t.recent[0] == q);
    assert forall|i: int| 0 < i < t.recent.len() implies (RequestV {
        retry_candidate: s.recent[i - 1].retry_candidate,
        ..(#[trigger] t.recent[i])
    }) == s.recent[i - 1] by {
        assert(t.recent[i] == p.recent[i - 1]);
    }
}

proof fn prior_is_there(recent: Seq<RequestV>, r: RequestV, i: int)
    requires
        0 <= i,
    ensures
        match model::prior_v(recent, r, i) {
            Some(k) => i <= k < recent.len() && model::retries_v(recent[k], r),
            None => forall|k: int| i <= k < recent.len() ==> !model::retries_v(#[trigger] recent[k], r),
        },
    decreases recent.len() - i,
{
    if i < recent.len() && !model::retries_v(recent[i], r) {
        prior_is_there(recent, r, i + 1);
    }
}

proof fn marks_keep_failures(failures: Seq<FailureV>, r: RequestV, i: int)
    requires
        0 <= i,
    ensures
        model::failure_marked_v(failures, r.id, i).len() == failures.len(),
        forall|k: int|
            0 <= k < failures.len() ==> (FailureV {
                retry_candidate: failures[k].retry_candidate,
                ..(#[trigger] model::failure_marked_v(failures, r.id, i)[k])
            }) == failures[k],
    decreases failures.len() - i,
{
    if i < failures.len() && failures[i].request_id != r.id {
        marks_keep_failures(failures, r, i + 1);
    }
}

/// Who ends runs no more, and who else runs goes on as before.
pub proof fn ends_stop_running(s: StoreV, e: EventV, now: Moment, id: Seq<char>)
    requires
        is_end_v(e),
        !s.completed.contains(e.request_id),
        table::distinct_v(s.active),
    ensures
        table::get_v(model::apply_v(s, e, now).active, e.request_id) is None,
        id != e.request_id ==> table::get_v(model::apply_v(s, e, now).active, id) == table::get_v(
            s.active,
            id,
        ),
{
    paired_keeps(s, e, ended_request_v(s, e, now));
    table::del_keeps(s.active, e.request_id);
    if id != e.request_id {
        table::del_spares_others(s.active, e.request_id, id);
    }
}

/// A request that failed leads the list of failures, with its kind, the time, its
/// number among the failures of its session and what is known of it; a kind that
/// is not told is unknown.
pub proof fn failures_are_recorded(s: StoreV, e: EventV, now: Moment)
    requires
        e.kind == RequestEventKind::Failed,
        !s.completed.contains(e.request_id),
        s.recent_cap > 0,
        s.failure_cap > 0,
    ensures
        ({
            let t = model::apply_v(s, e, now);
            let (f, r) = (t.failures[0], t.recent[0]);
            let n = table::get_v(s.failure_counts, e.session_id);
            &&& t.failures.len() == if s.failures.len() < s.failure_cap {
                s.failures.len() + 1
            } else {
                s.failure_cap as nat
            }
            &&& f.ts == now.wall
            &&& f.kind == match e.failure_kind {
                Some(k) => k,
                None => FailureKind::Unknown,
            }
            &&& f.request_id == r.id && f.session_id == r.session_id
            &&& f.requested_model == r.requested_model && f.model == r.model
            &&& f.provider == r.provider
            &&& f.status_code == e.status_code
            &&& f.duration_ms == r.duration_ms
            &&& f.error_message == r.error
            &&& r.error_type.len() > 0 ==> f.error_type == r.error_type
            &&& f.response_id == r.response_id
            &&& f.mapped == r.mapped && f.lite == r.lite && f.fast == r.fast
            &&& f.auth_retried == r.auth_retried && f.attempt == r.attempt
            &&& f.output_count == r.output_count && f.capture_bytes == r.capture_bytes
            &&& f.diagnostics == r.diagnostics
            &&& f.retry_candidate == r.retry_candidate
            &&& n is None ==> f.session_failure_index == 1
            &&& n matches Some(m) ==> m < u32::MAX ==> f.session_failure_index == m + 1
            &&& table::get_v(t.failure_counts, e.session_id) == Some(f.session_failure_index)
            &&& forall|i: int|
                0 < i < t.failures.len() ==> (FailureV {
                    retry_candidate: s.failures[i - 1].retry_candidate,
                    ..(#[trigger] t.failures[i])
                }) == s.failures[i - 1]
        }),
{
    let r = ended_request_v(s, e, now);
    paired_keeps(s, e, r);
    prior_is_there(s.recent, r, 0);
    if let Some(i) = model::prior_v(s.recent, r, 0) {
        marks_keep_failures(s.failures, s.recent[i], 0);
    }
    let index = model::next_count_v(table::get_v(s.failure_counts, e.session_id));
    table::put_is_found(s.failure_counts, e.session_id, index, e.session_id);
    let p = model::paired_v(StoreV { active: table::del_v(s.active, e.request_id), ..s }, r);
    let t = model::apply_v(s, e, now);
    assert(t.recent[0] == marked_request_v(s, e, now));
    assert forall|i: int| 0 < i < t.failures.len() implies (FailureV {
        retry_candidate: s.failures[i - 1].retry_candidate,
        ..(#[trigger] t.failures[i])
    }) == s.failures[i - 1] by {
        assert(t.failures[i] == p.failures[i - 1]);
    }
}

/// A finished request that a client may well repeat: it failed, or came to
/// nothing.
pub open spec fn in_doubt_v(r: RequestV) -> bool {
    r.failure_kind is Some || r.status < 200 || r.status >= 300 || r.error_type.len() > 0
        || r.output_count == 0
}

/// One of two finished requests looks like a repetition of the other: the same
/// session and the same body, started within half a minute, and one in doubt.
pub open spec fn repeats_v(a: RequestV, b: RequestV) -> bool {
    &&& a.session_id == b.session_id
    &&& a.id != b.id
    &&& b.diagnostics.request_fingerprint.len() > 0
    &&& a.diagnostics.request_fingerprint == b.diagnostics.request_fingerprint
    &&& a.started_at <= b.started_at + 30_000_000_000
    &&& b.started_at <= a.started_at + 30_000_000_000
    &&& in_doubt_v(a) || in_doubt_v(b)
}

/// A request that ends is marked as a repetition exactly where a finished one is
/// there that it looks like a repetition of.
pub proof fn repetitions_are_marked(s: StoreV, e: EventV, now: Moment)
    requires
        is_end_v(e),
        !s.completed.contains(e.request_id),
        s.recent_cap > 0,
        table::get_v(s.active, e.request_id) matches Some(r) ==> !r.retry_candidate,
    ensures
        ({
            let r = model::apply_v(s, e, now).recent[0];
            r.retry_candidate <==> exists|i: int|
                0 <= i < s.recent.len() && repeats_v(#[trigger] s.recent[i], r)
        }),
{
    let r = ended_request_v(s, e, now);
    let q = marked_request_v(s, e, now);
    paired_keeps(s, e, r);
    prior_is_there(s.recent, r, 0);
    assert(model::apply_v(s, e, now).recent[0] == q);
    assert forall|i: int| 0 <= i < s.recent.len() implies (repeats_v(#[trigger] s.recent[i], q)
        == model::retries_v(s.recent[i], r)) by {}
    if let Some(k) = model::prior_v(s.recent, r, 0) {
        assert(repeats_v(s.recent[k], q));
    }
}

/// A request that starts runs, as its first event tells of it.
pub proof fn starts_run(s: StoreV, e: EventV, now: Moment)
    requires
        e.kind == RequestEventKind::Started,
        !s.completed.contains(e.request_id),
        table::get_v(s.active, e.request_id) is None,
    ensures
        ({
            let t = model::apply_v(s, e, now);
            &&& table::get_v(t.active, e.request_id) matches Some(r)
            &&& r.id == events::sanitize_id_v(e.request_id)
            &&& r.session_id == events::sanitize_id_v(e.session_id)
            &&& r.requested_model == events::sanitize_v(e.requested_model)
            &&& r.model == events::sanitize_v(e.model)
            &&& r.provider == events::sanitize_v(e.provider)
            &&& r.started_at == e.started_at
            &&& r.ended_at is None
            &&& r.output_tokens == 0 && r.usage is None && r.failure_kind is None
            &&& r.mapped == e.mapped && r.lite == e.lite && r.fast == e.fast
            &&& r.phase == e.phase
            &&& r.diagnostics == e.diagnostics
            &&& !r.retry_candidate
            &&& table::get_v(t.sessions, e.session_id) matches Some(x)
            &&& x.last_model == events::sanitize_v(e.model)
            &&& x.updated_at == Some(now.wall)
            &&& e.provider.len() > 0 ==> x.last_provider == events::sanitize_v(e.provider)
            &&& t.recent == s.recent && t.failures == s.failures && t.errors == s.errors
        }),
{
    table::put_is_found(s.active, e.request_id, model::request_v(e), e.request_id);
    table::put_is_found(
        s.sessions,
        e.session_id,
        model::opened_v(model::session_of_v(s, e.session_id), e, now.wall),
        e.session_id,
    );
}

/// News of a running request: its counts never fall and reach what it reports,
/// its usage is the latest, and its phase does not go back.
pub proof fn news_are_kept(s: StoreV, e: EventV, now: Moment, r: RequestV)
    requires
        e.kind == RequestEventKind::Updated,
        !s.completed.contains(e.request_id),
        table::get_v(s.active, e.request_id) == Some(r),
    ensures
        ({
            &&& table::get_v(model::apply_v(s, e, now).active, e.request_id) matches Some(q)
            &&& q.id == r.id && q.session_id == r.session_id && q.model == r.model
            &&& q.started_at == r.started_at
            &&& q.output_tokens == if e.output_tokens > r.output_tokens {
                e.output_tokens
            } else {
                r.output_tokens
            }
            &&& q.streamed_bytes == if e.streamed_bytes > r.streamed_bytes {
                e.streamed_bytes
            } else {
                r.streamed_bytes
            }
            &&& q.stream_chunks == if e.stream_chunks > r.stream_chunks {
                e.stream_chunks
            } else {
                r.stream_chunks
            }
            &&& q.usage == if e.usage is Some {
                e.usage
            } else {
                r.usage
            }
            &&& r.phase == RequestPhase::Streaming ==> q.phase == RequestPhase::Streaming
            &&& e.phase == RequestPhase::Streaming ==> q.phase == RequestPhase::Streaming
            &&& r.generation_started_at is Some ==> q.generation_started_at
                == r.generation_started_at
        }),
{
    table::put_is_found(
        s.active,
        e.request_id,
        model::progressed_v(r, e, now.tick),
        e.request_id,
    );
}

/// What a session shows last: when it was told of, and the latest failure.
pub proof fn sessions_show_the_latest(s: StoreV, e: EventV, now: Moment)
    requires
        is_end_v(e),
        !s.completed.contains(e.request_id),
    ensures
        ({
            let before = table::get_v(s.sessions, e.session_id);
            &&& table::get_v(model::apply_v(s, e, now).sessions, e.session_id) matches Some(x)
            &&& x.updated_at == Some(now.wall)
            &&& e.kind == RequestEventKind::Failed ==> x.last_failure_kind == Some(
                match e.failure_kind {
                    Some(k) => k,
                    None => FailureKind::Unknown,
                },
            )
            &&& before matches Some(y) ==> {
                &&& x.id == y.id && x.last_model == y.last_model
                &&& x.last_prompt == y.last_prompt && x.cwd == y.cwd
                &&& e.kind == RequestEventKind::Completed ==> x.last_failure_kind
                    == y.last_failure_kind
            }
            &&& before is None ==> x.id == events::sanitize_id_v(e.session_id)
        }),
{
    let r = ended_request_v(s, e, now);
    paired_keeps(s, e, r);
    table::put_is_found(
        s.sessions,
        e.session_id,
        model::closed_v(
            model::session_of_v(s, e.session_id),
            marked_request_v(s, e, now),
            e,
            now,
        ),
        e.session_id,
    );
}

/// Outcomes are sampled one by one, the latest last: whether the request
/// completed.
pub proof fn outcomes_are_sampled(s: StoreV, e: EventV, now: Moment)
    requires
        s.metrics_completed.len() <= 120,
    ensures
        ({
            let (a, b) = (s.metrics_completed, model::apply_v(s, e, now).metrics_completed);
            if is_end_v(e) && !s.completed.contains(e.request_id) {
                &&& b.len() > 0
                &&& b.last() == (e.kind == RequestEventKind::Completed)
                &&& b.drop_last() == if a.len() < 120 {
                    a
                } else {
                    a.skip(1)
                }
            } else {
                b == a
            }
        }),
{
    if is_end_v(e) {
        paired_keeps(s, e, ended_request_v(s, e, now));
        let (a, b) = (s.metrics_completed, model::apply_v(s, e, now).metrics_completed);
        assert(a.push(true).drop_last() =~= a && a.push(false).drop_last() =~= a);
        assert(a.len() == 120 ==> a.skip(1).push(true).drop_last() =~= a.skip(1)
            && a.skip(1).push(false).drop_last() =~= a.skip(1));
    }
}

/// The time over which the tokens of a session came: that of the requests that
/// brought some.
pub proof fn session_times_add_up(s: StoreV, e: EventV, now: Moment)
    requires
        is_end_v(e),
        !s.completed.contains(e.request_id),
    ensures
        ({
            let t = model::apply_v(s, e, now);
            let before = match table::get_v(s.sessions, e.session_id) {
                Some(x) => x.sample_nanos as int,
                None => 0,
            };
            let began = match table::get_v(s.active, e.request_id) {
                Some(r) => r.started_at,
                None => e.started_at,
            };
            let took = if now.tick > began {
                now.tick - began
            } else {
                0
            };
            &&& table::get_v(t.sessions, e.session_id) matches Some(x)
            &&& x.sample_nanos == if e.output_tokens > 0 {
                sum_v(before, took)
            } else {
                before
            }
        }),
{
    let r = ended_request_v(s, e, now);
    paired_keeps(s, e, r);
    table::put_is_found(
        s.sessions,
        e.session_id,
        model::closed_v(
            model::session_of_v(s, e.session_id),
            marked_request_v(s, e, now),
            e,
            now,
        ),
        e.session_id,
    );
}

/// Tokens fall into buckets of ten seconds: those of one bucket add up, a later
/// bucket is new, and the time between is empty buckets.
pub proof fn buckets_add_up(x: SessionV, tokens: u64, bucket: u64)
    requires
        tokens > 0,
        x.last_output_bucket is Some ==> x.output_token_buckets.len() > 0,
        x.output_token_buckets.len() <= 24,
    ensures
        ({
            let y = model::bucketed_v(x, tokens, bucket);
            let (a, b) = (x.output_token_buckets, y.output_token_buckets);
            &&& b.len() > 0
            &&& b.len() <= 24
            &&& match x.last_output_bucket {
                Some(last) => if last == bucket {
                    &&& b.len() == a.len()
                    &&& b.last() == sum_v(a.last() as int, tokens as int)
                    &&& b.drop_last() == a.drop_last()
                    &&& y.last_output_bucket == Some(bucket)
                } else if bucket > last {
                    let gap = bucket - last;
                    &&& b.last() == tokens
                    &&& y.last_output_bucket == Some(bucket)
                    &&& gap < b.len() ==> b[b.len() - 1 - gap] == a.last()
                    &&& forall|i: int|
                        0 < i < gap && i < b.len() ==> #[trigger] b[b.len() - 1 - i] == 0
                } else {
                    b.last() == tokens
                },
                None => b.last() == tokens && y.last_output_bucket == Some(bucket),
            }
        }),
{
    let a = x.output_token_buckets;
    let b = model::bucketed_v(x, tokens, bucket).output_token_buckets;
    if let Some(last) = x.last_output_bucket {
        if last == bucket {
            assert(b.drop_last() =~= a.drop_last());
        } else if bucket > last {
            let gap = events::min_v(bucket - last, 24);
            let whole = (a + model::zeros_v(gap - 1)).push(tokens);
            assert(whole.len() == a.len() + gap);
            assert(b =~= whole.skip(whole.len() - b.len()));
        }
    }
}

/// A bucket is ten seconds of the wall clock.
pub proof fn buckets_are_ten_seconds(wall: i64)
    requires
        wall >= 0,
    ensures
        ({
            let b = model::bucket_v(wall);
            b * 10_000_000_000 <= wall < (b + 1) * 10_000_000_000
        }),
{
}

/// The latest prompt and directory of a session are shown, and blank ones change
/// nothing.
pub proof fn contexts_are_kept(s: StoreV, key: Seq<char>, prompt: Seq<char>, cwd: Seq<char>, wall: i64)
    ensures
        ({
            let t = model::context_v(s, key, prompt, cwd, wall);
            let p = crate::text::trim_v(prompt).len() > 0;
            let c = crate::text::trim_v(cwd).len() > 0;
            &&& !p && !c ==> t == s
            &&& p || c ==> {
                &&& table::get_v(t.sessions, key) matches Some(x)
                &&& p ==> x.last_prompt == events::sanitize_v(prompt)
                &&& c ==> x.cwd == events::sanitize_v(cwd)
                &&& table::get_v(s.sessions, key) matches Some(y) ==> (!p ==> x.last_prompt
                    == y.last_prompt) && (!c ==> x.cwd == y.cwd)
                &&& x.updated_at == Some(wall)
            }
            &&& counts_v(t, key) == counts_v(s, key)
        }),
{
    if crate::text::trim_v(prompt).len() > 0 || crate::text::trim_v(cwd).len() > 0 {
        let x = model::session_of_v(s, key);
        let y = SessionV {
            last_prompt: if model::has_text_v(prompt) {
                events::sanitize_v(prompt)
            } else {
                x.last_prompt
            },
            cwd: if model::has_text_v(cwd) {
                events::sanitize_v(cwd)
            } else {
                x.cwd
            },
            updated_at: Some(wall),
            ..x
        };
        table::put_is_found(s.sessions, key, y, key);
    }
}

} // verus!
