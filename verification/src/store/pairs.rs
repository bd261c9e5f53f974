//! What the store says of requests that repeat one another, and of when a request
//! began to be answered.

use vstd::prelude::*;

use crate::events::{EventV, RequestEventKind};
use crate::store::counts::{is_end_v, repeats_v};
use crate::store::model;
use crate::store::model::{FailureV, Moment, RequestV, StoreV};
use crate::table;

verus! {

/// The first finished request that `r` repeats stands at `k`.
pub open spec fn first_repeated_v(recent: Seq<RequestV>, r: RequestV, k: int) -> bool {
    &&& 0 <= k < recent.len()
    &&& repeats_v(recent[k], r)
    &&& forall|j: int| 0 <= j < k ==> !repeats_v(#[trigger] recent[j], r)
}

proof fn first_is_prior(recent: Seq<RequestV>, r: RequestV, k: int, i: int)
    requires
        first_repeated_v(recent, r, k),
        0 <= i <= k,
    ensures
        model::prior_v(recent, r, i) == Some(k),
    decreases k - i,
{
    assert(model::retries_v(recent[i], r) == repeats_v(recent[i], r));
    if i < k {
        first_is_prior(recent, r, k, i + 1);
    }
}

proof fn first_is_marked(failures: Seq<FailureV>, id: Seq<char>, k: int, i: int)
    requires
        0 <= i <= k < failures.len(),
        failures[k].request_id == id,
        forall|j: int| 0 <= j < k ==> (#[trigger] failures[j]).request_id != id,
    ensures
        model::failure_marked_v(failures, id, i) == failures.update(
            k,
            FailureV { retry_candidate: true, ..failures[k] },
        ),
    decreases k - i,
{
    if i < k {
        first_is_marked(failures, id, k, i + 1);
    }
}

/// The request as its end leaves it.
spec fn ended_request_v(s: StoreV, e: EventV, now: Moment) -> RequestV {
    model::finished_v(
        match table::get_v(s.active, e.request_id) {
            Some(r) => r,
            None => model::request_v(e),
        },
        e,
        now.tick,
    )
}

/// The lists after an end: what has ended comes first, before what was there with
/// its marks.
proof fn ends_lead_the_lists(s: StoreV, e: EventV, now: Moment) -> (lead: (RequestV, FailureV))
    requires
        is_end_v(e),
        !s.completed.contains(e.request_id),
    ensures
        ({
            let t = model::apply_v(s, e, now);
            let r = ended_request_v(s, e, now);
            let p = model::paired_v(StoreV { active: table::del_v(s.active, e.request_id), ..s }, r);
            &&& lead.0 == RequestV { retry_candidate: lead.0.retry_candidate, ..r }
            &&& t.recent == model::fronted_v(p.recent, lead.0, s.recent_cap)
            &&& t.failures == if e.kind == RequestEventKind::Failed {
                model::fronted_v(p.failures, lead.1, s.failure_cap)
            } else {
                p.failures
            }
        }),
{
    let r = ended_request_v(s, e, now);
    let q = RequestV {
        retry_candidate: r.retry_candidate || model::prior_v(s.recent, r, 0) is Some,
        ..r
    };
    let index = model::next_count_v(table::get_v(s.failure_counts, e.session_id));
    (q, model::failure_v(q, model::kind_of_v(e), index, now.wall))
}

proof fn fronts_are_followed<T>(s: Seq<T>, x: T, cap: usize)
    requires
        cap > 0,
    ensures
        ({
            let t = model::fronted_v(s, x, cap);
            &&& t.len() > 0 && t[0] == x
            &&& t.len() == if s.len() < cap {
                s.len() + 1
            } else {
                cap as nat
            }
            &&& forall|j: int| 0 < j < t.len() ==> (#[trigger] t[j]) == s[j - 1]
        }),
{
}

/// The latest finished request that a new one repeats is marked too, and so is its
/// failure; the others stay as they are.
pub proof fn repeated_requests_are_marked(s: StoreV, e: EventV, now: Moment, k: int, f: int)
    requires
        is_end_v(e),
        !s.completed.contains(e.request_id),
        s.recent_cap > 0,
        s.failure_cap > 0,
        first_repeated_v(s.recent, model::apply_v(s, e, now).recent[0], k),
        0 <= f < s.failures.len(),
        s.failures[f].request_id == s.recent[k].id,
        forall|j: int| 0 <= j < f ==> (#[trigger] s.failures[j]).request_id != s.recent[k].id,
    ensures
        ({
            let t = model::apply_v(s, e, now);
            let new: int = if e.kind == RequestEventKind::Failed {
                1
            } else {
                0
            };
            &&& k + 1 < t.recent.len() ==> t.recent[k + 1] == (RequestV {
                retry_candidate: true,
                ..s.recent[k]
            })
            &&& forall|j: int|
                0 < j < t.recent.len() && j != k + 1 ==> (#[trigger] t.recent[j]) == s.recent[j - 1]
            &&& f + new < t.failures.len() ==> t.failures[f + new] == (FailureV {
                retry_candidate: true,
                ..s.failures[f]
            })
            &&& forall|j: int|
                new <= j < t.failures.len() && j != f + new ==> (#[trigger] t.failures[j])
                    == s.failures[j - new]
            &&& new == 0 ==> t.failures.len() == s.failures.len()
        }),
{
    let (q, failure) = ends_lead_the_lists(s, e, now);
    let r = ended_request_v(s, e, now);
    let begun = StoreV { active: table::del_v(s.active, e.request_id), ..s };
    let recent = s.recent.update(k, RequestV { retry_candidate: true, ..s.recent[k] });
    let failures = s.failures.update(f, FailureV { retry_candidate: true, ..s.failures[f] });
    marks_are_made(begun, r, q, k, f, model::apply_v(s, e, now).recent, s.recent_cap);
    fronts_are_followed(recent, q, s.recent_cap);
    fronts_are_followed(failures, failure, s.failure_cap);
}

proof fn marks_are_made(
    s: StoreV,
    r: RequestV,
    q: RequestV,
    k: int,
    f: int,
    after: Seq<RequestV>,
    cap: usize,
)
    requires
        cap > 0,
        q == (RequestV { retry_candidate: q.retry_candidate, ..r }),
        after == model::fronted_v(model::paired_v(s, r).recent, q, cap),
        first_repeated_v(s.recent, after[0], k),
        0 <= f < s.failures.len(),
        s.failures[f].request_id == s.recent[k].id,
        forall|j: int| 0 <= j < f ==> (#[trigger] s.failures[j]).request_id != s.recent[k].id,
    ensures
        model::paired_v(s, r).recent == s.recent.update(
            k,
            RequestV { retry_candidate: true, ..s.recent[k] },
        ),
        model::paired_v(s, r).failures == s.failures.update(
            f,
            FailureV { retry_candidate: true, ..s.failures[f] },
        ),
{
    fronts_are_followed(model::paired_v(s, r).recent, q, cap);
    assert forall|j: int| 0 <= j < s.recent.len() implies (repeats_v(#[trigger] s.recent[j], q)
        == repeats_v(s.recent[j], r)) by {}
    first_is_prior(s.recent, r, k, 0);
    first_is_marked(s.failures, s.recent[k].id, f, 0);
}

/// A running request is first answered with the event that shows it: after the
/// time to its first chunk where that is known, else at the event's own time; and
/// what it had put out by then is remembered.
pub proof fn answers_begin_once(s: StoreV, e: EventV, now: Moment, r: RequestV)
    requires
        e.kind == RequestEventKind::Updated,
        !s.completed.contains(e.request_id),
        table::get_v(s.active, e.request_id) == Some(r),
        r.generation_started_at is None,
    ensures
        ({
            let first = if e.diagnostics.first_chunk_ms > 0 {
                e.diagnostics.first_chunk_ms
            } else {
                r.diagnostics.first_chunk_ms
            };
            let due = r.started_at + first * 1_000_000;
            &&& table::get_v(model::apply_v(s, e, now).active, e.request_id) matches Some(q)
            &&& e.output_tokens > 0 || e.usage is Some || e.mark_generation_start
                || e.diagnostics.first_chunk_ms > 0 ==> {
                &&& q.generation_initial_output_tokens == q.output_tokens
                &&& 0 < first && due <= u64::MAX ==> q.generation_started_at == Some(due as u64)
                &&& first == 0 || due > u64::MAX ==> q.generation_started_at == Some(now.tick)
            }
        }),
{
    table::put_is_found(
        s.active,
        e.request_id,
        model::progressed_v(r, e, now.tick),
        e.request_id,
    );
    let d = model::merged_v(r.diagnostics, e.diagnostics);
    assert(d.first_chunk_ms == if e.diagnostics.first_chunk_ms > 0 {
        e.diagnostics.first_chunk_ms
    } else {
        r.diagnostics.first_chunk_ms
    });
}

} // verus!
