//! What request events do to the monitor's store, stated over its model.

use vstd::prelude::*;

use crate::events;
use crate::events::{
    DiagnosticsV, EventV, FailureKind, RequestEventKind, RequestPhase, TokenUsage,
};
use crate::table;

verus! {

/// How many outcome samples are kept.
pub const METRICS_CAP: usize = 120;

/// Two starts of one request at most this many nanoseconds apart may be a retry.
pub const RETRY_WINDOW: u64 = 30_000_000_000;

/// The width in seconds of a session's token buckets.
pub const SESSION_TOKEN_BUCKET_SECS: u64 = 10;

/// How many token buckets a session keeps.
pub const SESSION_TOKEN_BUCKET_HISTORY: usize = 24;

/// A point in time: nanoseconds of the monotonic clock, and nanoseconds since
/// 1970 of the wall clock.
#[derive(Clone, Copy, Debug, PartialEq, Eq, Structural)]
pub struct Moment {
    pub tick: u64,
    pub wall: i64,
}

#[verifier::ext_equal]
pub struct RequestV {
    pub id: Seq<char>,
    pub session_id: Seq<char>,
    pub requested_model: Seq<char>,
    pub model: Seq<char>,
    pub provider: Seq<char>,
    pub status: u16,
    pub error: Seq<char>,
    pub error_type: Seq<char>,
    pub failure_kind: Option<FailureKind>,
    pub usage: Option<TokenUsage>,
    pub output_tokens: u64,
    pub started_at: u64,
    pub ended_at: Option<u64>,
    pub duration_ms: u64,
    pub response_id: Seq<char>,
    pub mapped: bool,
    pub lite: bool,
    pub fast: bool,
    pub auth_retried: bool,
    pub attempt: u32,
    pub output_count: u32,
    pub capture_bytes: u32,
    pub diagnostics: DiagnosticsV,
    pub retry_candidate: bool,
    pub phase: RequestPhase,
    pub streamed_bytes: u64,
    pub stream_chunks: u64,
    pub generation_started_at: Option<u64>,
    pub generation_initial_output_tokens: u64,
}

#[verifier::ext_equal]
pub struct SessionV {
    pub id: Seq<char>,
    pub requests: u64,
    pub active: u64,
    pub input_tokens: u64,
    pub cached_input_tokens: u64,
    pub cache_write_tokens: u64,
    pub fresh_input_tokens: u64,
    pub output_tokens: u64,
    pub usage_requests: u64,
    pub last_model: Seq<char>,
    pub last_provider: Seq<char>,
    pub last_prompt: Seq<char>,
    pub cwd: Seq<char>,
    pub errors: u64,
    pub last_failure_kind: Option<FailureKind>,
    pub updated_at: Option<i64>,
    pub sample_nanos: u64,
    pub generation_sample_nanos: u64,
    pub generation_output_tokens: u64,
    pub output_token_buckets: Seq<u64>,
    pub last_output_bucket: Option<u64>,
}

#[verifier::ext_equal]
pub struct FailureV {
    pub ts: i64,
    pub request_id: Seq<char>,
    pub session_id: Seq<char>,
    pub requested_model: Seq<char>,
    pub model: Seq<char>,
    pub provider: Seq<char>,
    pub status_code: u16,
    pub duration_ms: u64,
    pub kind: FailureKind,
    pub error_type: Seq<char>,
    pub error_message: Seq<char>,
    pub response_id: Seq<char>,
    pub mapped: bool,
    pub lite: bool,
    pub fast: bool,
    pub auth_retried: bool,
    pub attempt: u32,
    pub output_count: u32,
    pub capture_bytes: u32,
    pub session_failure_index: u32,
    pub diagnostics: DiagnosticsV,
    pub retry_candidate: bool,
}

/// The token counts over all requests.
#[derive(Clone, Copy, Debug, PartialEq, Eq, Structural)]
pub struct Totals {
    pub input_tokens: u64,
    pub cached_input_tokens: u64,
    pub cache_write_tokens: u64,
    pub fresh_input_tokens: u64,
    pub usage_requests: u64,
}

/// The store: sessions, running requests and failure counts by their full names,
/// finished requests and failures newest first, outcome samples newest last.
#[verifier::ext_equal]
pub struct StoreV {
    pub sessions: Seq<(Seq<char>, SessionV)>,
    pub active: Seq<(Seq<char>, RequestV)>,
    pub recent: Seq<RequestV>,
    pub errors: Seq<RequestV>,
    pub failures: Seq<FailureV>,
    pub completed: Seq<Seq<char>>,
    pub failure_counts: Seq<(Seq<char>, u32)>,
    pub failure_cap: usize,
    pub recent_cap: usize,
    pub metrics_completed: Seq<bool>,
    pub totals: Totals,
}

pub open spec fn add_v(a: u64, b: u64) -> u64 {
    if a + b > u64::MAX {
        u64::MAX
    } else {
        (a + b) as u64
    }
}

pub open spec fn larger_v(a: u64, b: u64) -> u64 {
    if a < b {
        b
    } else {
        a
    }
}

pub open spec fn attempt_v(n: u32) -> u32 {
    if n == 0 {
        1
    } else {
        n
    }
}

pub open spec fn rank_v(phase: RequestPhase) -> u8 {
    match phase {
        RequestPhase::Preparing => 0,
        RequestPhase::Auth => 1,
        RequestPhase::Upstream => 2,
        RequestPhase::Streaming => 3,
    }
}

/// A phase only advances.
pub open spec fn advanced_v(now: RequestPhase, next: RequestPhase) -> RequestPhase {
    if rank_v(next) >= rank_v(now) {
        next
    } else {
        now
    }
}

/// The text shown for a name, or the old one where the name is empty.
pub open spec fn renamed_v(before: Seq<char>, name: Seq<char>) -> Seq<char> {
    if name.len() == 0 {
        before
    } else {
        events::sanitize_v(name)
    }
}

/// A request as its first event tells of it.
pub open spec fn request_v(e: EventV) -> RequestV {
    RequestV {
        id: events::sanitize_id_v(e.request_id),
        session_id: events::sanitize_id_v(e.session_id),
        requested_model: events::sanitize_v(e.requested_model),
        model: events::sanitize_v(e.model),
        provider: events::sanitize_v(e.provider),
        status: 0,
        error: Seq::empty(),
        error_type: Seq::empty(),
        failure_kind: None,
        usage: None,
        output_tokens: 0,
        started_at: e.started_at,
        ended_at: None,
        duration_ms: 0,
        response_id: Seq::empty(),
        mapped: e.mapped,
        lite: e.lite,
        fast: e.fast,
        auth_retried: e.auth_retried,
        attempt: attempt_v(e.attempt),
        output_count: 0,
        capture_bytes: 0,
        diagnostics: e.diagnostics,
        retry_candidate: false,
        phase: e.phase,
        streamed_bytes: e.streamed_bytes,
        stream_chunks: e.stream_chunks,
        generation_started_at: None,
        generation_initial_output_tokens: 0,
    }
}

/// A session of which nothing is known but its name.
pub open spec fn session_v(key: Seq<char>) -> SessionV {
    SessionV {
        id: events::sanitize_id_v(key),
        requests: 0,
        active: 0,
        input_tokens: 0,
        cached_input_tokens: 0,
        cache_write_tokens: 0,
        fresh_input_tokens: 0,
        output_tokens: 0,
        usage_requests: 0,
        last_model: Seq::empty(),
        last_provider: Seq::empty(),
        last_prompt: Seq::empty(),
        cwd: Seq::empty(),
        errors: 0,
        last_failure_kind: None,
        updated_at: None,
        sample_nanos: 0,
        generation_sample_nanos: 0,
        generation_output_tokens: 0,
        output_token_buckets: Seq::empty(),
        last_output_bucket: None,
    }
}

/// The session named `key`, or a new one.
pub open spec fn session_of_v(s: StoreV, key: Seq<char>) -> SessionV {
    match table::get_v(s.sessions, key) {
        Some(x) => x,
        None => session_v(key),
    }
}

/// A running request that starts again.
pub open spec fn restarted_v(r: RequestV, e: EventV) -> RequestV {
    RequestV {
        auth_retried: e.auth_retried,
        attempt: attempt_v(e.attempt),
        mapped: e.mapped,
        lite: e.lite,
        fast: e.fast,
        provider: renamed_v(r.provider, e.provider),
        diagnostics: e.diagnostics,
        phase: advanced_v(r.phase, e.phase),
        ..r
    }
}

/// A session of which a running request has news.
pub open spec fn touched_v(x: SessionV, e: EventV, wall: i64) -> SessionV {
    SessionV {
        updated_at: Some(wall),
        last_provider: renamed_v(x.last_provider, e.provider),
        ..x
    }
}

/// A known session, touched.
pub open spec fn touch_v(s: StoreV, e: EventV, wall: i64) -> StoreV {
    match table::get_v(s.sessions, e.session_id) {
        Some(x) => StoreV {
            sessions: table::put_v(s.sessions, e.session_id, touched_v(x, e, wall)),
            ..s
        },
        None => s,
    }
}

/// A session in which a request starts.
pub open spec fn opened_v(x: SessionV, e: EventV, wall: i64) -> SessionV {
    SessionV {
        requests: add_v(x.requests, 1),
        active: add_v(x.active, 1),
        last_model: events::sanitize_v(e.model),
        last_provider: renamed_v(x.last_provider, e.provider),
        updated_at: Some(wall),
        ..x
    }
}

/// The store after a request has started.
pub open spec fn started_v(s: StoreV, e: EventV, now: Moment) -> StoreV {
    if s.completed.contains(e.request_id) {
        s
    } else {
        match table::get_v(s.active, e.request_id) {
            Some(r) => touch_v(
                StoreV { active: table::put_v(s.active, e.request_id, restarted_v(r, e)), ..s },
                e,
                now.wall,
            ),
            None => StoreV {
                active: table::put_v(s.active, e.request_id, request_v(e)),
                sessions: table::put_v(
                    s.sessions,
                    e.session_id,
                    opened_v(session_of_v(s, e.session_id), e, now.wall),
                ),
                ..s
            },
        }
    }
}

pub open spec fn if_some_v(n: u64, before: u64) -> u64 {
    if n > 0 {
        n
    } else {
        before
    }
}

/// Diagnostics with what is new in them.
pub open spec fn merged_v(d: DiagnosticsV, e: DiagnosticsV) -> DiagnosticsV {
    DiagnosticsV {
        request_body_bytes: if_some_v(e.request_body_bytes, d.request_body_bytes),
        input_item_count: if_some_v(e.input_item_count, d.input_item_count),
        proxy_prepare_ms: if_some_v(e.proxy_prepare_ms, d.proxy_prepare_ms),
        credential_ms: if_some_v(e.credential_ms, d.credential_ms),
        upstream_headers_ms: if_some_v(e.upstream_headers_ms, d.upstream_headers_ms),
        first_chunk_ms: if_some_v(e.first_chunk_ms, d.first_chunk_ms),
        request_fingerprint: if e.request_fingerprint.len() > 0 {
            e.request_fingerprint
        } else {
            d.request_fingerprint
        },
    }
}

/// An event that shows that generation has begun.
pub open spec fn generating_v(e: EventV) -> bool {
    ||| e.mark_generation_start
    ||| e.phase == RequestPhase::Streaming
    ||| e.diagnostics.first_chunk_ms > 0
    ||| e.output_tokens > 0
    ||| e.usage is Some
}

/// When generation began: after the time to the first chunk where that is known
/// and can be counted, else now.
pub open spec fn generation_start_v(r: RequestV, e: EventV, tick: u64) -> u64 {
    let first = larger_v(e.diagnostics.first_chunk_ms, r.diagnostics.first_chunk_ms);
    if first > 0 && r.started_at + first * 1_000_000 <= u64::MAX {
        (r.started_at + first * 1_000_000) as u64
    } else {
        tick
    }
}

/// A request with the start of its generation marked, once.
pub open spec fn marked_v(r: RequestV, e: EventV, tick: u64) -> RequestV {
    if r.generation_started_at is None && generating_v(e) {
        RequestV {
            generation_started_at: Some(generation_start_v(r, e, tick)),
            generation_initial_output_tokens: r.output_tokens,
            ..r
        }
    } else {
        r
    }
}

/// A running request with news of its progress. The counts are absolute.
pub open spec fn progressed_v(r: RequestV, e: EventV, tick: u64) -> RequestV {
    marked_v(
        RequestV {
            phase: advanced_v(r.phase, e.phase),
            provider: renamed_v(r.provider, e.provider),
            auth_retried: e.auth_retried,
            attempt: attempt_v(e.attempt),
            mapped: e.mapped,
            lite: e.lite,
            fast: e.fast,
            streamed_bytes: larger_v(r.streamed_bytes, e.streamed_bytes),
            stream_chunks: larger_v(r.stream_chunks, e.stream_chunks),
            output_tokens: larger_v(r.output_tokens, e.output_tokens),
            capture_bytes: if r.capture_bytes < e.capture_bytes {
                e.capture_bytes
            } else {
                r.capture_bytes
            },
            usage: if e.usage is Some {
                e.usage
            } else {
                r.usage
            },
            diagnostics: merged_v(r.diagnostics, e.diagnostics),
            ..r
        },
        e,
        tick,
    )
}

/// The store after news of a running request: finished ones and failures stay
/// as they are.
pub open spec fn updated_v(s: StoreV, e: EventV, now: Moment) -> StoreV {
    if s.completed.contains(e.request_id) {
        s
    } else {
        match table::get_v(s.active, e.request_id) {
            Some(r) => touch_v(
                StoreV {
                    active: table::put_v(s.active, e.request_id, progressed_v(r, e, now.tick)),
                    ..s
                },
                e,
                now.wall,
            ),
            None => s,
        }
    }
}

/// The time that a request took.
pub open spec fn nanos_v(r: RequestV, tick: u64) -> u64 {
    events::less_v(
        match r.ended_at {
            Some(t) => t,
            None => tick,
        },
        r.started_at,
    )
}

/// A request as its last event leaves it.
pub open spec fn finished_v(r: RequestV, e: EventV, tick: u64) -> RequestV {
    let told = RequestV {
        status: e.status_code,
        error: events::sanitize_v(e.error),
        error_type: events::sanitize_v(e.error_type),
        failure_kind: e.failure_kind,
        response_id: events::sanitize_v(e.response_id),
        mapped: e.mapped,
        lite: e.lite,
        fast: e.fast,
        auth_retried: e.auth_retried,
        attempt: attempt_v(e.attempt),
        output_count: e.output_count,
        capture_bytes: e.capture_bytes,
        diagnostics: e.diagnostics,
        provider: renamed_v(r.provider, e.provider),
        streamed_bytes: larger_v(r.streamed_bytes, e.streamed_bytes),
        stream_chunks: larger_v(r.stream_chunks, e.stream_chunks),
        phase: advanced_v(r.phase, e.phase),
        ..r
    };
    let ended = RequestV {
        usage: e.usage,
        output_tokens: e.output_tokens,
        ended_at: Some(tick),
        ..marked_v(told, e, tick)
    };
    RequestV {
        duration_ms: if e.duration_ms > 0 {
            e.duration_ms
        } else {
            (nanos_v(ended, tick) / 1_000_000) as u64
        },
        ..ended
    }
}

/// A finished request that a client may well repeat.
pub open spec fn suspicious_v(r: RequestV) -> bool {
    ||| r.failure_kind is Some
    ||| !(200 <= r.status < 300)
    ||| r.error_type.len() > 0
    ||| r.output_count == 0
}

pub open spec fn apart_v(a: u64, b: u64) -> u64 {
    if a < b {
        (b - a) as u64
    } else {
        (a - b) as u64
    }
}

/// One of two requests looks like a retry of the other.
pub open spec fn retries_v(prior: RequestV, r: RequestV) -> bool {
    &&& r.diagnostics.request_fingerprint.len() > 0
    &&& prior.session_id == r.session_id
    &&& prior.id != r.id
    &&& prior.diagnostics.request_fingerprint == r.diagnostics.request_fingerprint
    &&& apart_v(r.started_at, prior.started_at) <= RETRY_WINDOW
    &&& suspicious_v(prior) || suspicious_v(r)
}

/// The first of the finished requests from `i` on that `r` looks like a retry of.
pub open spec fn prior_v(recent: Seq<RequestV>, r: RequestV, i: int) -> Option<int>
    decreases recent.len() - i,
{
    if i < 0 || i >= recent.len() {
        None
    } else if retries_v(recent[i], r) {
        Some(i)
    } else {
        prior_v(recent, r, i + 1)
    }
}

/// The failures with the first one of a request from `i` on marked.
pub open spec fn failure_marked_v(failures: Seq<FailureV>, id: Seq<char>, i: int) -> Seq<FailureV>
    decreases failures.len() - i,
{
    if i < 0 || i >= failures.len() {
        failures
    } else if failures[i].request_id == id {
        failures.update(i, FailureV { retry_candidate: true, ..failures[i] })
    } else {
        failure_marked_v(failures, id, i + 1)
    }
}

/// The newest `cap` of a list.
pub open spec fn capped_v<T>(s: Seq<T>, cap: usize) -> Seq<T> {
    if s.len() > cap {
        s.take(cap as int)
    } else {
        s
    }
}

/// A list with a new head, capped.
pub open spec fn fronted_v<T>(s: Seq<T>, x: T, cap: usize) -> Seq<T> {
    capped_v(seq![x] + s, cap)
}

/// The record of a failure.
pub open spec fn failure_v(r: RequestV, kind: FailureKind, index: u32, wall: i64) -> FailureV {
    FailureV {
        ts: wall,
        request_id: r.id,
        session_id: r.session_id,
        requested_model: r.requested_model,
        model: r.model,
        provider: r.provider,
        status_code: r.status,
        duration_ms: r.duration_ms,
        kind,
        error_type: if r.error_type.len() == 0 {
            kind.name_v()
        } else {
            r.error_type
        },
        error_message: r.error,
        response_id: r.response_id,
        mapped: r.mapped,
        lite: r.lite,
        fast: r.fast,
        auth_retried: r.auth_retried,
        attempt: r.attempt,
        output_count: r.output_count,
        capture_bytes: r.capture_bytes,
        session_failure_index: index,
        diagnostics: r.diagnostics,
        retry_candidate: r.retry_candidate,
    }
}

pub open spec fn kind_of_v(e: EventV) -> FailureKind {
    match e.failure_kind {
        Some(k) => k,
        None => FailureKind::Unknown,
    }
}

pub open spec fn next_count_v(n: Option<u32>) -> u32 {
    match n {
        Some(n) => if n == u32::MAX {
            n
        } else {
            (n + 1) as u32
        },
        None => 1,
    }
}

/// The samples with a new one, the oldest dropped where there is no room.
pub open spec fn sampled_v(s: Seq<bool>, x: bool) -> Seq<bool> {
    if s.len() == METRICS_CAP {
        s.skip(1).push(x)
    } else {
        s.push(x)
    }
}

pub open spec fn counted_v(t: Totals, usage: Option<TokenUsage>) -> Totals {
    match usage {
        Some(u) => Totals {
            input_tokens: add_v(t.input_tokens, u.input_tokens),
            cached_input_tokens: add_v(t.cached_input_tokens, u.cached_input_tokens),
            cache_write_tokens: add_v(t.cache_write_tokens, u.cache_write_tokens),
            fresh_input_tokens: add_v(t.fresh_input_tokens, u.fresh_v()),
            usage_requests: add_v(t.usage_requests, 1),
        },
        None => t,
    }
}

/// The buckets without the oldest beyond what is kept.
pub open spec fn newest_v(s: Seq<u64>) -> Seq<u64> {
    if s.len() > SESSION_TOKEN_BUCKET_HISTORY {
        s.skip(s.len() - SESSION_TOKEN_BUCKET_HISTORY)
    } else {
        s
    }
}

pub open spec fn zeros_v(n: int) -> Seq<u64> {
    Seq::new(
        if n < 0 {
            0
        } else {
            n as nat
        },
        |i: int| 0u64,
    )
}

/// The token bucket of a point in time.
pub open spec fn bucket_v(wall: i64) -> u64 {
    if wall < 0 {
        0
    } else {
        (wall / 1_000_000_000 / (SESSION_TOKEN_BUCKET_SECS as int)) as u64
    }
}

/// A session with tokens put into the bucket of now: added to the last one, or
/// after empty ones for the time without any.
pub open spec fn bucketed_v(x: SessionV, tokens: u64, bucket: u64) -> SessionV {
    let b = x.output_token_buckets;
    if tokens == 0 {
        x
    } else {
        match x.last_output_bucket {
            Some(last) if last == bucket => SessionV {
                output_token_buckets: if b.len() > 0 {
                    b.update(b.len() - 1, add_v(b.last(), tokens))
                } else {
                    b
                },
                ..x
            },
            Some(last) if bucket > last => {
                let gap = events::min_v(bucket - last, SESSION_TOKEN_BUCKET_HISTORY as int);
                SessionV {
                    output_token_buckets: newest_v((b + zeros_v(gap - 1)).push(tokens)),
                    last_output_bucket: Some(bucket),
                    ..x
                }
            },
            _ => SessionV {
                output_token_buckets: newest_v(b.push(tokens)),
                last_output_bucket: Some(bucket),
                ..x
            },
        }
    }
}

/// The time that a request spent generating.
pub open spec fn generation_nanos_v(r: RequestV) -> u64 {
    match (r.ended_at, r.generation_started_at) {
        (Some(end), Some(start)) => events::less_v(end, start),
        _ => 0,
    }
}

pub open spec fn generation_tokens_v(r: RequestV) -> u64 {
    events::less_v(r.output_tokens, r.generation_initial_output_tokens)
}

/// A session in which a request ends.
pub open spec fn closed_v(x: SessionV, r: RequestV, e: EventV, now: Moment) -> SessionV {
    let failed = e.kind == RequestEventKind::Failed;
    let t = counted_v(
        Totals {
            input_tokens: x.input_tokens,
            cached_input_tokens: x.cached_input_tokens,
            cache_write_tokens: x.cache_write_tokens,
            fresh_input_tokens: x.fresh_input_tokens,
            usage_requests: x.usage_requests,
        },
        e.usage,
    );
    let generated = generation_tokens_v(r) > 0 && generation_nanos_v(r) > 0;
    let y = SessionV {
        active: events::less_v(x.active, 1),
        output_tokens: add_v(x.output_tokens, e.output_tokens),
        input_tokens: t.input_tokens,
        cached_input_tokens: t.cached_input_tokens,
        cache_write_tokens: t.cache_write_tokens,
        fresh_input_tokens: t.fresh_input_tokens,
        usage_requests: t.usage_requests,
        sample_nanos: if e.output_tokens > 0 {
            add_v(x.sample_nanos, nanos_v(r, now.tick))
        } else {
            x.sample_nanos
        },
        generation_output_tokens: if generated {
            add_v(x.generation_output_tokens, generation_tokens_v(r))
        } else {
            x.generation_output_tokens
        },
        generation_sample_nanos: if generated {
            add_v(x.generation_sample_nanos, generation_nanos_v(r))
        } else {
            x.generation_sample_nanos
        },
        ..x
    };
    let z = bucketed_v(y, e.output_tokens, bucket_v(now.wall));
    SessionV {
        last_provider: if r.provider.len() > 0 {
            r.provider
        } else {
            z.last_provider
        },
        errors: if failed {
            add_v(z.errors, 1)
        } else {
            z.errors
        },
        last_failure_kind: if failed {
            Some(kind_of_v(e))
        } else {
            z.last_failure_kind
        },
        updated_at: Some(now.wall),
        ..z
    }
}

/// How many names of finished requests are remembered.
pub open spec fn completed_cap_v(recent_cap: usize) -> int {
    if recent_cap * 4 < 200 {
        200
    } else if recent_cap * 4 > usize::MAX {
        usize::MAX as int
    } else {
        recent_cap * 4
    }
}

/// The marks that a finished request leaves on an earlier one that it looks
/// like a retry of.
pub open spec fn paired_v(s: StoreV, r: RequestV) -> StoreV {
    match prior_v(s.recent, r, 0) {
        Some(i) => StoreV {
            recent: s.recent.update(i, RequestV { retry_candidate: true, ..s.recent[i] }),
            failures: failure_marked_v(s.failures, s.recent[i].id, 0),
            ..s
        },
        None => s,
    }
}

/// The store with a finished request among the recent ones.
pub open spec fn recorded_v(s: StoreV, r: RequestV, e: EventV, wall: i64) -> StoreV {
    let failed = e.kind == RequestEventKind::Failed;
    let index = next_count_v(table::get_v(s.failure_counts, e.session_id));
    StoreV {
        recent: fronted_v(s.recent, r, s.recent_cap),
        errors: if failed {
            fronted_v(s.errors, r, s.recent_cap)
        } else {
            s.errors
        },
        failures: if failed {
            fronted_v(s.failures, failure_v(r, kind_of_v(e), index, wall), s.failure_cap)
        } else {
            s.failures
        },
        failure_counts: if failed {
            table::put_v(s.failure_counts, e.session_id, index)
        } else {
            s.failure_counts
        },
        metrics_completed: sampled_v(s.metrics_completed, !failed),
        totals: counted_v(s.totals, e.usage),
        ..s
    }
}

/// The store after a request has ended. A request ends once.
pub open spec fn ended_v(s: StoreV, e: EventV, now: Moment) -> StoreV {
    if s.completed.contains(e.request_id) {
        s
    } else {
        let completed = s.completed.push(e.request_id);
        let r = finished_v(
            match table::get_v(s.active, e.request_id) {
                Some(r) => r,
                None => request_v(e),
            },
            e,
            now.tick,
        );
        let q = RequestV {
            retry_candidate: r.retry_candidate || prior_v(s.recent, r, 0) is Some,
            ..r
        };
        let t = StoreV { active: table::del_v(s.active, e.request_id), ..s };
        let u = recorded_v(paired_v(t, r), q, e, now.wall);
        StoreV {
            sessions: table::put_v(
                u.sessions,
                e.session_id,
                closed_v(session_of_v(u, e.session_id), q, e, now),
            ),
            completed: if completed.len() > completed_cap_v(s.recent_cap) {
                Seq::empty()
            } else {
                completed
            },
            ..u
        }
    }
}

/// The store after an event.
pub open spec fn apply_v(s: StoreV, e: EventV, now: Moment) -> StoreV {
    match e.kind {
        RequestEventKind::Started => started_v(s, e, now),
        RequestEventKind::Updated => updated_v(s, e, now),
        RequestEventKind::Completed | RequestEventKind::Failed => ended_v(s, e, now),
    }
}

pub open spec fn has_text_v(s: Seq<char>) -> bool {
    crate::text::trim_v(s).len() > 0
}

/// The store after what was seen of a session's prompt and directory.
pub open spec fn context_v(
    s: StoreV,
    key: Seq<char>,
    prompt: Seq<char>,
    cwd: Seq<char>,
    wall: i64,
) -> StoreV {
    if !has_text_v(prompt) && !has_text_v(cwd) {
        s
    } else {
        let x = session_of_v(s, key);
        StoreV {
            sessions: table::put_v(
                s.sessions,
                key,
                SessionV {
                    last_prompt: if has_text_v(prompt) {
                        events::sanitize_v(prompt)
                    } else {
                        x.last_prompt
                    },
                    cwd: if has_text_v(cwd) {
                        events::sanitize_v(cwd)
                    } else {
                        x.cwd
                    },
                    updated_at: Some(wall),
                    ..x
                },
            ),
            ..s
        }
    }
}

/// The store before any event.
pub open spec fn empty_v(failure_cap: usize, recent_cap: usize) -> StoreV {
    StoreV {
        sessions: Seq::empty(),
        active: Seq::empty(),
        recent: Seq::empty(),
        errors: Seq::empty(),
        failures: Seq::empty(),
        completed: Seq::empty(),
        failure_counts: Seq::empty(),
        failure_cap,
        recent_cap,
        metrics_completed: Seq::empty(),
        totals: Totals {
            input_tokens: 0,
            cached_input_tokens: 0,
            cache_write_tokens: 0,
            fresh_input_tokens: 0,
            usage_requests: 0,
        },
    }
}

pub open spec fn newer_v(a: Option<i64>, b: Option<i64>) -> bool {
    match (a, b) {
        (Some(x), Some(y)) => x > y,
        (Some(_), None) => true,
        _ => false,
    }
}

/// Sessions in their order of showing: the latest first, then by name.
pub open spec fn shown_before_v(a: SessionV, b: SessionV) -> bool {
    newer_v(a.updated_at, b.updated_at) || (a.updated_at == b.updated_at && crate::text::less_v(
        a.id,
        b.id,
    ))
}

pub open spec fn values_v<T>(s: Seq<(Seq<char>, T)>) -> Seq<T> {
    s.map_values(|e: (Seq<char>, T)| e.1)
}

/// What the monitor is shown.
#[verifier::ext_equal]
pub struct SnapshotV {
    pub sessions: Seq<SessionV>,
    pub active: Seq<RequestV>,
    pub recent: Seq<RequestV>,
    pub errors: Seq<RequestV>,
    pub failures: Seq<FailureV>,
    pub metrics_completed: Seq<bool>,
    pub totals: Totals,
}

/// The store as shown: sessions the latest first, running requests the oldest
/// first.
pub open spec fn snapshot_v(s: StoreV) -> SnapshotV {
    SnapshotV {
        sessions: crate::order::sorted_v(
            values_v(s.sessions),
            |a: SessionV, b: SessionV| shown_before_v(a, b),
        ),
        active: crate::order::sorted_v(
            values_v(s.active),
            |a: RequestV, b: RequestV| a.started_at < b.started_at,
        ),
        recent: s.recent,
        errors: s.errors,
        failures: s.failures,
        metrics_completed: s.metrics_completed,
        totals: s.totals,
    }
}

/// The failures of one kind, or all.
pub open spec fn of_kind_v(s: Seq<FailureV>, kind: Option<FailureKind>) -> Seq<FailureV>
    decreases s.len(),
{
    if s.len() == 0 {
        s
    } else {
        let before = of_kind_v(s.drop_last(), kind);
        if kind is None || kind == Some(s.last().kind) {
            before.push(s.last())
        } else {
            before
        }
    }
}

/// How many of something are kept by default.
pub const DEFAULT_CAP: usize = 200;

/// How many are kept where a setting asks for a number.
pub open spec fn cap_v(setting: Option<Seq<char>>) -> usize {
    match setting {
        Some(t) => match crate::text::parse_uint_v(t, usize::MAX as nat) {
            Some(n) => if n > 0 {
                n as usize
            } else {
                DEFAULT_CAP
            },
            None => DEFAULT_CAP,
        },
        None => DEFAULT_CAP,
    }
}

} // verus!
