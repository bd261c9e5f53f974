//! The monitor's store: sessions, running and finished turns, failures, and
//! outcome samples.

use vstd::prelude::*;

use crate::events::{
    sanitize, sanitize_id, FailureKind, Observer, RequestDiagnostics, RequestEvent,
    RequestEventKind, RequestPhase, TokenUsage,
};
use crate::order;
use crate::store::model::{FailureV, RequestV, SessionV, SnapshotV, StoreV};
pub use crate::store::model::{Moment, Totals};
use crate::table;
use crate::table::Table;
use crate::text;

pub mod counts;
pub mod demo;
pub mod laws;
pub mod model;
pub mod pairs;
pub mod rates;

verus! {

/// A turn. Points in time are nanoseconds of the monotonic clock.
#[derive(Debug)]
pub struct Request {
    pub id: String,
    pub session_id: String,
    pub requested_model: String,
    pub model: String,
    pub provider: String,
    pub status: u16,
    pub error: String,
    pub error_type: String,
    pub failure_kind: Option<FailureKind>,
    pub usage: Option<TokenUsage>,
    pub output_tokens: u64,
    pub started_at: u64,
    pub ended_at: Option<u64>,
    pub duration_ms: u64,
    pub response_id: String,
    pub mapped: bool,
    pub lite: bool,
    pub fast: bool,
    pub auth_retried: bool,
    pub attempt: u32,
    pub output_count: u32,
    pub capture_bytes: u32,
    pub diagnostics: RequestDiagnostics,
    pub retry_candidate: bool,
    pub phase: RequestPhase,
    pub streamed_bytes: u64,
    pub stream_chunks: u64,
    /// When the first content came.
    pub generation_started_at: Option<u64>,
    pub generation_initial_output_tokens: u64,
}

/// The turns of one client session.
#[derive(Debug)]
pub struct Session {
    pub id: String,
    pub requests: u64,
    pub active: u64,
    pub input_tokens: u64,
    pub cached_input_tokens: u64,
    pub cache_write_tokens: u64,
    pub fresh_input_tokens: u64,
    pub output_tokens: u64,
    pub usage_requests: u64,
    pub last_model: String,
    pub last_provider: String,
    /// The latest prompt seen.
    pub last_prompt: String,
    /// The latest working directory seen.
    pub cwd: String,
    pub errors: u64,
    pub last_failure_kind: Option<FailureKind>,
    /// Nanoseconds since 1970.
    pub updated_at: Option<i64>,
    /// The time of all turns with output.
    pub sample_nanos: u64,
    /// The time of all turns spent generating.
    pub generation_sample_nanos: u64,
    /// The tokens made in that time.
    pub generation_output_tokens: u64,
    /// Output tokens per stretch of time, the oldest first.
    pub output_token_buckets: Vec<u64>,
    pub last_output_bucket: Option<u64>,
}

/// A failed turn.
#[derive(Debug)]
pub struct FailureRecord {
    /// Nanoseconds since 1970.
    pub ts: i64,
    pub request_id: String,
    pub session_id: String,
    pub requested_model: String,
    pub model: String,
    pub provider: String,
    pub status_code: u16,
    pub duration_ms: u64,
    pub kind: FailureKind,
    pub error_type: String,
    pub error_message: String,
    pub response_id: String,
    pub mapped: bool,
    pub lite: bool,
    pub fast: bool,
    pub auth_retried: bool,
    pub attempt: u32,
    pub output_count: u32,
    pub capture_bytes: u32,
    pub session_failure_index: u32,
    pub diagnostics: RequestDiagnostics,
    pub retry_candidate: bool,
}

impl Request {
    pub open spec fn view(&self) -> RequestV {
        RequestV {
            id: self.id@,
            session_id: self.session_id@,
            requested_model: self.requested_model@,
            model: self.model@,
            provider: self.provider@,
            status: self.status,
            error: self.error@,
            error_type: self.error_type@,
            failure_kind: self.failure_kind,
            usage: self.usage,
            output_tokens: self.output_tokens,
            started_at: self.started_at,
            ended_at: self.ended_at,
            duration_ms: self.duration_ms,
            response_id: self.response_id@,
            mapped: self.mapped,
            lite: self.lite,
            fast: self.fast,
            auth_retried: self.auth_retried,
            attempt: self.attempt,
            output_count: self.output_count,
            capture_bytes: self.capture_bytes,
            diagnostics: self.diagnostics@,
            retry_candidate: self.retry_candidate,
            phase: self.phase,
            streamed_bytes: self.streamed_bytes,
            stream_chunks: self.stream_chunks,
            generation_started_at: self.generation_started_at,
            generation_initial_output_tokens: self.generation_initial_output_tokens,
        }
    }

    pub fn copy(&self) -> (r: Request)
        ensures
            r@ == self@,
    {
        Request {
            id: self.id.clone(),
            session_id: self.session_id.clone(),
            requested_model: self.requested_model.clone(),
            model: self.model.clone(),
            provider: self.provider.clone(),
            status: self.status,
            error: self.error.clone(),
            error_type: self.error_type.clone(),
            failure_kind: self.failure_kind,
            usage: self.usage,
            output_tokens: self.output_tokens,
            started_at: self.started_at,
            ended_at: self.ended_at,
            duration_ms: self.duration_ms,
            response_id: self.response_id.clone(),
            mapped: self.mapped,
            lite: self.lite,
            fast: self.fast,
            auth_retried: self.auth_retried,
            attempt: self.attempt,
            output_count: self.output_count,
            capture_bytes: self.capture_bytes,
            diagnostics: self.diagnostics.copy(),
            retry_candidate: self.retry_candidate,
            phase: self.phase,
            streamed_bytes: self.streamed_bytes,
            stream_chunks: self.stream_chunks,
            generation_started_at: self.generation_started_at,
            generation_initial_output_tokens: self.generation_initial_output_tokens,
        }
    }

    /// The nanoseconds that the turn took, up to `now` where it is running.
    pub fn duration(&self, now: u64) -> (r: u64)
        ensures
            r == model::nanos_v(self@, now),
    {
        let end: u64 = match self.ended_at {
            Some(t) => t,
            None => now,
        };
        end.saturating_sub(self.started_at)
    }

    /// The nanoseconds that the turn has spent generating.
    pub fn generation(&self) -> (r: u64)
        ensures
            r == model::generation_nanos_v(self@),
    {
        match (self.ended_at, self.generation_started_at) {
            (Some(end), Some(start)) => end.saturating_sub(start),
            _ => 0,
        }
    }
}

impl Session {
    pub open spec fn view(&self) -> SessionV {
        SessionV {
            id: self.id@,
            requests: self.requests,
            active: self.active,
            input_tokens: self.input_tokens,
            cached_input_tokens: self.cached_input_tokens,
            cache_write_tokens: self.cache_write_tokens,
            fresh_input_tokens: self.fresh_input_tokens,
            output_tokens: self.output_tokens,
            usage_requests: self.usage_requests,
            last_model: self.last_model@,
            last_provider: self.last_provider@,
            last_prompt: self.last_prompt@,
            cwd: self.cwd@,
            errors: self.errors,
            last_failure_kind: self.last_failure_kind,
            updated_at: self.updated_at,
            sample_nanos: self.sample_nanos,
            generation_sample_nanos: self.generation_sample_nanos,
            generation_output_tokens: self.generation_output_tokens,
            output_token_buckets: self.output_token_buckets@,
            last_output_bucket: self.last_output_bucket,
        }
    }

    /// A session of which nothing is known but its name.
    pub fn named(key: &str) -> (r: Session)
        ensures
            r@ == model::session_v(key@),
    {
        Session {
            id: sanitize_id(key),
            requests: 0,
            active: 0,
            input_tokens: 0,
            cached_input_tokens: 0,
            cache_write_tokens: 0,
            fresh_input_tokens: 0,
            output_tokens: 0,
            usage_requests: 0,
            last_model: String::new(),
            last_provider: String::new(),
            last_prompt: String::new(),
            cwd: String::new(),
            errors: 0,
            last_failure_kind: None,
            updated_at: None,
            sample_nanos: 0,
            generation_sample_nanos: 0,
            generation_output_tokens: 0,
            output_token_buckets: Vec::new(),
            last_output_bucket: None,
        }
    }

    pub fn copy(&self) -> (r: Session)
        ensures
            r@ == self@,
    {
        let buckets = copy_buckets(&self.output_token_buckets);
        Session {
            id: self.id.clone(),
            requests: self.requests,
            active: self.active,
            input_tokens: self.input_tokens,
            cached_input_tokens: self.cached_input_tokens,
            cache_write_tokens: self.cache_write_tokens,
            fresh_input_tokens: self.fresh_input_tokens,
            output_tokens: self.output_tokens,
            usage_requests: self.usage_requests,
            last_model: self.last_model.clone(),
            last_provider: self.last_provider.clone(),
            last_prompt: self.last_prompt.clone(),
            cwd: self.cwd.clone(),
            errors: self.errors,
            last_failure_kind: self.last_failure_kind,
            updated_at: self.updated_at,
            sample_nanos: self.sample_nanos,
            generation_sample_nanos: self.generation_sample_nanos,
            generation_output_tokens: self.generation_output_tokens,
            output_token_buckets: buckets,
            last_output_bucket: self.last_output_bucket,
        }
    }
}

fn copy_buckets(v: &Vec<u64>) -> (r: Vec<u64>)
    ensures
        r@ == v@,
{
    let mut out: Vec<u64> = Vec::new();
    let mut i: usize = 0;
    while i < v.len()
        invariant
            i <= v@.len(),
            out@ == v@.take(i as int),
        decreases v@.len() - i,
    {
        out.push(v[i]);
        i += 1;
        assert(v@.take(i as int) =~= v@.take(i - 1).push(v@[i - 1]));
    }
    assert(v@.take(i as int) =~= v@);
    out
}

impl FailureRecord {
    pub open spec fn view(&self) -> FailureV {
        FailureV {
            ts: self.ts,
            request_id: self.request_id@,
            session_id: self.session_id@,
            requested_model: self.requested_model@,
            model: self.model@,
            provider: self.provider@,
            status_code: self.status_code,
            duration_ms: self.duration_ms,
            kind: self.kind,
            error_type: self.error_type@,
            error_message: self.error_message@,
            response_id: self.response_id@,
            mapped: self.mapped,
            lite: self.lite,
            fast: self.fast,
            auth_retried: self.auth_retried,
            attempt: self.attempt,
            output_count: self.output_count,
            capture_bytes: self.capture_bytes,
            session_failure_index: self.session_failure_index,
            diagnostics: self.diagnostics@,
            retry_candidate: self.retry_candidate,
        }
    }

    pub fn copy(&self) -> (r: FailureRecord)
        ensures
            r@ == self@,
    {
        FailureRecord {
            ts: self.ts,
            request_id: self.request_id.clone(),
            session_id: self.session_id.clone(),
            requested_model: self.requested_model.clone(),
            model: self.model.clone(),
            provider: self.provider.clone(),
            status_code: self.status_code,
            duration_ms: self.duration_ms,
            kind: self.kind,
            error_type: self.error_type.clone(),
            error_message: self.error_message.clone(),
            response_id: self.response_id.clone(),
            mapped: self.mapped,
            lite: self.lite,
            fast: self.fast,
            auth_retried: self.auth_retried,
            attempt: self.attempt,
            output_count: self.output_count,
            capture_bytes: self.capture_bytes,
            session_failure_index: self.session_failure_index,
            diagnostics: self.diagnostics.copy(),
            retry_candidate: self.retry_candidate,
        }
    }
}

pub open spec fn requests_v(s: Seq<Request>) -> Seq<RequestV> {
    s.map_values(|r: Request| r@)
}

pub open spec fn sessions_v(s: Seq<Session>) -> Seq<SessionV> {
    s.map_values(|x: Session| x@)
}

pub open spec fn failures_v(s: Seq<FailureRecord>) -> Seq<FailureV> {
    s.map_values(|f: FailureRecord| f@)
}

fn attempt(n: u32) -> (r: u32)
    ensures
        r == model::attempt_v(n),
{
    if n == 0 {
        1
    } else {
        n
    }
}

fn larger(a: u64, b: u64) -> (r: u64)
    ensures
        r == model::larger_v(a, b),
{
    if a < b {
        b
    } else {
        a
    }
}

fn phase_rank(phase: RequestPhase) -> (r: u8)
    ensures
        r == model::rank_v(phase),
{
    match phase {
        RequestPhase::Preparing => 0,
        RequestPhase::Auth => 1,
        RequestPhase::Upstream => 2,
        RequestPhase::Streaming => 3,
    }
}

fn advanced(now: RequestPhase, next: RequestPhase) -> (r: RequestPhase)
    ensures
        r == model::advanced_v(now, next),
{
    if phase_rank(next) >= phase_rank(now) {
        next
    } else {
        now
    }
}

fn rename(before: &mut String, name: &str)
    ensures
        final(before)@ == model::renamed_v(old(before)@, name@),
{
    if !name.is_empty() {
        *before = sanitize(name);
    }
}

fn request_from_event(e: &RequestEvent) -> (r: Request)
    ensures
        r@ == model::request_v(e@),
{
    Request {
        id: sanitize_id(&e.request_id),
        session_id: sanitize_id(&e.session_id),
        requested_model: sanitize(&e.requested_model),
        model: sanitize(&e.model),
        provider: sanitize(&e.provider),
        status: 0,
        error: String::new(),
        error_type: String::new(),
        failure_kind: None,
        usage: None,
        output_tokens: 0,
        started_at: e.started_at,
        ended_at: None,
        duration_ms: 0,
        response_id: String::new(),
        mapped: e.mapped,
        lite: e.lite,
        fast: e.fast,
        auth_retried: e.auth_retried,
        attempt: attempt(e.attempt),
        output_count: 0,
        capture_bytes: 0,
        diagnostics: e.diagnostics.copy(),
        retry_candidate: false,
        phase: e.phase,
        streamed_bytes: e.streamed_bytes,
        stream_chunks: e.stream_chunks,
        generation_started_at: None,
        generation_initial_output_tokens: 0,
    }
}

fn restart(r: &mut Request, e: &RequestEvent)
    ensures
        final(r)@ == model::restarted_v(old(r)@, e@),
{
    r.auth_retried = e.auth_retried;
    r.attempt = attempt(e.attempt);
    r.mapped = e.mapped;
    r.lite = e.lite;
    r.fast = e.fast;
    rename(&mut r.provider, &e.provider);
    r.diagnostics = e.diagnostics.copy();
    r.phase = advanced(r.phase, e.phase);
}

fn maybe_mark_generation(r: &mut Request, e: &RequestEvent, tick: u64)
    ensures
        final(r)@ == model::marked_v(old(r)@, e@, tick),
{
    if r.generation_started_at.is_some() {
        return;
    }
    if e.mark_generation_start || e.phase == RequestPhase::Streaming
        || e.diagnostics.first_chunk_ms > 0 || e.output_tokens > 0 || e.usage.is_some() {
        let first: u64 = larger(e.diagnostics.first_chunk_ms, r.diagnostics.first_chunk_ms);
        let mut start: u64 = tick;
        if first > 0 {
            if let Some(n) = first.checked_mul(1_000_000) {
                if let Some(t) = r.started_at.checked_add(n) {
                    start = t;
                }
            }
        }
        r.generation_started_at = Some(start);
        r.generation_initial_output_tokens = r.output_tokens;
    }
}

fn if_some(n: u64, before: u64) -> (r: u64)
    ensures
        r == model::if_some_v(n, before),
{
    if n > 0 {
        n
    } else {
        before
    }
}

fn merge_diagnostics(d: &mut RequestDiagnostics, e: &RequestDiagnostics)
    ensures
        final(d)@ == model::merged_v(old(d)@, e@),
{
    d.request_body_bytes = if_some(e.request_body_bytes, d.request_body_bytes);
    d.input_item_count = if_some(e.input_item_count, d.input_item_count);
    d.proxy_prepare_ms = if_some(e.proxy_prepare_ms, d.proxy_prepare_ms);
    d.credential_ms = if_some(e.credential_ms, d.credential_ms);
    d.upstream_headers_ms = if_some(e.upstream_headers_ms, d.upstream_headers_ms);
    d.first_chunk_ms = if_some(e.first_chunk_ms, d.first_chunk_ms);
    if !e.request_fingerprint.as_str().is_empty() {
        d.request_fingerprint = e.request_fingerprint.clone();
    }
}

fn progress(r: &mut Request, e: &RequestEvent, tick: u64)
    ensures
        final(r)@ == model::progressed_v(old(r)@, e@, tick),
{
    r.phase = advanced(r.phase, e.phase);
    rename(&mut r.provider, &e.provider);
    r.auth_retried = e.auth_retried;
    r.attempt = attempt(e.attempt);
    r.mapped = e.mapped;
    r.lite = e.lite;
    r.fast = e.fast;
    r.streamed_bytes = larger(r.streamed_bytes, e.streamed_bytes);
    r.stream_chunks = larger(r.stream_chunks, e.stream_chunks);
    r.output_tokens = larger(r.output_tokens, e.output_tokens);
    if r.capture_bytes < e.capture_bytes {
        r.capture_bytes = e.capture_bytes;
    }
    if e.usage.is_some() {
        r.usage = e.usage;
    }
    merge_diagnostics(&mut r.diagnostics, &e.diagnostics);
    maybe_mark_generation(r, e, tick);
}

fn finish(r: &mut Request, e: &RequestEvent, tick: u64)
    ensures
        final(r)@ == model::finished_v(old(r)@, e@, tick),
{
    r.status = e.status_code;
    r.error = sanitize(&e.error);
    r.error_type = sanitize(&e.error_type);
    r.failure_kind = e.failure_kind;
    r.response_id = sanitize(&e.response_id);
    r.mapped = e.mapped;
    r.lite = e.lite;
    r.fast = e.fast;
    r.auth_retried = e.auth_retried;
    r.attempt = attempt(e.attempt);
    r.output_count = e.output_count;
    r.capture_bytes = e.capture_bytes;
    r.diagnostics = e.diagnostics.copy();
    rename(&mut r.provider, &e.provider);
    r.streamed_bytes = larger(r.streamed_bytes, e.streamed_bytes);
    r.stream_chunks = larger(r.stream_chunks, e.stream_chunks);
    r.phase = advanced(r.phase, e.phase);
    maybe_mark_generation(r, e, tick);
    r.usage = e.usage;
    r.output_tokens = e.output_tokens;
    r.ended_at = Some(tick);
    r.duration_ms =
    if e.duration_ms > 0 {
        e.duration_ms
    } else {
        r.duration(tick) / 1_000_000
    };
}

fn terminal_is_suspicious(r: &Request) -> (b: bool)
    ensures
        b == model::suspicious_v(r@),
{
    r.failure_kind.is_some() || !(200 <= r.status && r.status < 300)
        || !r.error_type.as_str().is_empty() || r.output_count == 0
}

fn looks_retried(prior: &Request, r: &Request) -> (b: bool)
    ensures
        b == model::retries_v(prior@, r@),
{
    let gap: u64 = if r.started_at < prior.started_at {
        prior.started_at - r.started_at
    } else {
        r.started_at - prior.started_at
    };
    !r.diagnostics.request_fingerprint.as_str().is_empty() && text::same(
        &prior.session_id,
        &r.session_id,
    ) && !text::same(&prior.id, &r.id) && text::same(
        &prior.diagnostics.request_fingerprint,
        &r.diagnostics.request_fingerprint,
    ) && gap <= model::RETRY_WINDOW && (terminal_is_suspicious(prior) || terminal_is_suspicious(r))
}

fn find_prior(recent: &Vec<Request>, r: &Request) -> (i: Option<usize>)
    ensures
        text::opt_int(i) == model::prior_v(requests_v(recent@), r@, 0),
        i matches Some(k) ==> k < recent@.len(),
{
    let mut i: usize = 0;
    while i < recent.len()
        invariant
            i <= recent@.len(),
            model::prior_v(requests_v(recent@), r@, 0) == model::prior_v(
                requests_v(recent@),
                r@,
                i as int,
            ),
        decreases recent@.len() - i,
    {
        assert(requests_v(recent@)[i as int] == recent@[i as int]@);
        if looks_retried(&recent[i], r) {
            return Some(i);
        }
        i += 1;
    }
    None
}

fn mark_failure(failures: &mut Vec<FailureRecord>, id: &str)
    ensures
        failures_v(final(failures)@) == model::failure_marked_v(failures_v(old(failures)@), id@, 0),
{
    let mut i: usize = 0;
    let ghost before = failures@;
    let ghost all = failures_v(before);
    while i < failures.len()
        invariant
            i <= failures@.len(),
            failures@ == before,
            before == old(failures)@,
            all == failures_v(before),
            model::failure_marked_v(all, id@, 0) == model::failure_marked_v(all, id@, i as int),
        decreases failures@.len() - i,
    {
        assert(all[i as int] == failures@[i as int]@);
        if text::same(&failures[i].request_id, id) {
            let f = &mut failures[i];
            f.retry_candidate = true;
            assert(failures_v(failures@) =~= all.update(
                i as int,
                FailureV { retry_candidate: true, ..all[i as int] },
            ));
            return;
        }
        i += 1;
    }
}

fn push_request(list: &mut Vec<Request>, r: Request, cap: usize)
    ensures
        requests_v(final(list)@) == model::fronted_v(requests_v(old(list)@), r@, cap),
{
    let ghost before = requests_v(list@);
    list.insert(0, r);
    assert(requests_v(list@) =~= seq![r@] + before);
    let ghost mid = list@;
    if list.len() > cap {
        list.truncate(cap);
        assert(requests_v(list@) =~= requests_v(mid).take(cap as int));
    }
}

fn push_failure(list: &mut Vec<FailureRecord>, f: FailureRecord, cap: usize)
    ensures
        failures_v(final(list)@) == model::fronted_v(failures_v(old(list)@), f@, cap),
{
    let ghost before = failures_v(list@);
    list.insert(0, f);
    assert(failures_v(list@) =~= seq![f@] + before);
    let ghost mid = list@;
    if list.len() > cap {
        list.truncate(cap);
        assert(failures_v(list@) =~= failures_v(mid).take(cap as int));
    }
}

fn push_rolling(samples: &mut Vec<bool>, x: bool)
    ensures
        final(samples)@ == model::sampled_v(old(samples)@, x),
{
    let ghost before = samples@;
    if samples.len() == model::METRICS_CAP {
        samples.remove(0);
        assert(samples@ =~= before.skip(1));
    }
    samples.push(x);
}

fn count_usage(t: &mut Totals, usage: Option<TokenUsage>)
    ensures
        *final(t) == model::counted_v(*old(t), usage),
{
    if let Some(u) = usage {
        t.input_tokens = t.input_tokens.saturating_add(u.input_tokens);
        t.cached_input_tokens = t.cached_input_tokens.saturating_add(u.cached_input_tokens);
        t.cache_write_tokens = t.cache_write_tokens.saturating_add(u.cache_write_tokens);
        t.fresh_input_tokens = t.fresh_input_tokens.saturating_add(u.fresh_input_tokens());
        t.usage_requests = t.usage_requests.saturating_add(1);
    }
}

fn drop_oldest(buckets: &mut Vec<u64>)
    ensures
        final(buckets)@ == model::newest_v(old(buckets)@),
{
    let ghost all = buckets@;
    let ghost n = all.len();
    assert(all.skip(0) =~= all);
    while buckets.len() > model::SESSION_TOKEN_BUCKET_HISTORY
        invariant
            buckets@.len() <= n,
            n == all.len(),
            buckets@ == all.skip(n - buckets@.len()),
            n > buckets@.len() ==> buckets@.len() >= model::SESSION_TOKEN_BUCKET_HISTORY,
        decreases buckets@.len(),
    {
        let ghost before = buckets@;
        buckets.remove(0);
        assert(buckets@ =~= before.skip(1));
        assert(before.skip(1) =~= all.skip(n - buckets@.len()));
    }
}

fn bucket_of(wall: i64) -> (r: u64)
    ensures
        r == model::bucket_v(wall),
{
    if wall < 0 {
        0
    } else {
        (wall / 1_000_000_000 / 10) as u64
    }
}

fn record_session_output_bucket(x: &mut Session, tokens: u64, bucket: u64)
    ensures
        final(x)@ == model::bucketed_v(old(x)@, tokens, bucket),
{
    if tokens == 0 {
        return;
    }
    let ghost before = x.output_token_buckets@;
    match x.last_output_bucket {
        Some(last) => {
            if last == bucket {
                let n: usize = x.output_token_buckets.len();
                if n > 0 {
                    let sum: u64 = x.output_token_buckets[n - 1].saturating_add(tokens);
                    x.output_token_buckets.set(n - 1, sum);
                }
                return;
            }
            if bucket > last {
                let apart: u64 = bucket - last;
                let gap: u64 = if apart < 24 {
                    apart
                } else {
                    24
                };
                let mut i: u64 = 1;
                assert(before + model::zeros_v(0) =~= before);
                while i < gap
                    invariant
                        1 <= i <= gap,
                        x.output_token_buckets@ == before + model::zeros_v(i - 1),
                        x@ == (SessionV {
                            output_token_buckets: x.output_token_buckets@,
                            ..old(x)@
                        }),
                    decreases gap - i,
                {
                    x.output_token_buckets.push(0);
                    i += 1;
                    assert(x.output_token_buckets@ =~= before + model::zeros_v(i - 1));
                }
            }
        },
        None => {},
    }
    x.output_token_buckets.push(tokens);
    drop_oldest(&mut x.output_token_buckets);
    x.last_output_bucket = Some(bucket);
}

fn close_session(x: &mut Session, r: &Request, e: &RequestEvent, now: Moment)
    ensures
        final(x)@ == model::closed_v(old(x)@, r@, e@, now),
{
    x.active = x.active.saturating_sub(1);
    x.output_tokens = x.output_tokens.saturating_add(e.output_tokens);
    let mut t = Totals {
        input_tokens: x.input_tokens,
        cached_input_tokens: x.cached_input_tokens,
        cache_write_tokens: x.cache_write_tokens,
        fresh_input_tokens: x.fresh_input_tokens,
        usage_requests: x.usage_requests,
    };
    count_usage(&mut t, e.usage);
    x.input_tokens = t.input_tokens;
    x.cached_input_tokens = t.cached_input_tokens;
    x.cache_write_tokens = t.cache_write_tokens;
    x.fresh_input_tokens = t.fresh_input_tokens;
    x.usage_requests = t.usage_requests;
    if e.output_tokens > 0 {
        x.sample_nanos = x.sample_nanos.saturating_add(r.duration(now.tick));
    }
    let tokens: u64 = r.output_tokens.saturating_sub(r.generation_initial_output_tokens);
    let nanos: u64 = r.generation();
    if tokens > 0 && nanos > 0 {
        x.generation_output_tokens = x.generation_output_tokens.saturating_add(tokens);
        x.generation_sample_nanos = x.generation_sample_nanos.saturating_add(nanos);
    }
    record_session_output_bucket(x, e.output_tokens, bucket_of(now.wall));
    if !r.provider.as_str().is_empty() {
        x.last_provider = r.provider.clone();
    }
    if e.kind == RequestEventKind::Failed {
        x.errors = x.errors.saturating_add(1);
        x.last_failure_kind = Some(
            match e.failure_kind {
                Some(k) => k,
                None => FailureKind::Unknown,
            },
        );
    }
    x.updated_at = Some(now.wall);
}

fn failure_record(r: &Request, kind: FailureKind, index: u32, wall: i64) -> (f: FailureRecord)
    ensures
        f@ == model::failure_v(r@, kind, index, wall),
{
    FailureRecord {
        ts: wall,
        request_id: r.id.clone(),
        session_id: r.session_id.clone(),
        requested_model: r.requested_model.clone(),
        model: r.model.clone(),
        provider: r.provider.clone(),
        status_code: r.status,
        duration_ms: r.duration_ms,
        kind,
        error_type: if r.error_type.as_str().is_empty() {
            kind.as_str().to_owned()
        } else {
            r.error_type.clone()
        },
        error_message: r.error.clone(),
        response_id: r.response_id.clone(),
        mapped: r.mapped,
        lite: r.lite,
        fast: r.fast,
        auth_retried: r.auth_retried,
        attempt: r.attempt,
        output_count: r.output_count,
        capture_bytes: r.capture_bytes,
        session_failure_index: index,
        diagnostics: r.diagnostics.copy(),
        retry_candidate: r.retry_candidate,
    }
}

/// The monitor's store.
#[derive(Debug)]
pub struct Dashboard {
    pub sessions: Table<Session>,
    pub active: Table<Request>,
    pub recent: Vec<Request>,
    pub errors: Vec<Request>,
    pub failures: Vec<FailureRecord>,
    pub completed: Vec<String>,
    pub failure_counts: Table<u32>,
    pub failure_cap: usize,
    pub recent_cap: usize,
    pub metrics_completed: Vec<bool>,
    pub totals: Totals,
}

pub open spec fn session_views(s: Seq<(Seq<char>, Session)>) -> Seq<(Seq<char>, SessionV)> {
    table::map_v(s, |x: Session| x@)
}

pub open spec fn active_views(s: Seq<(Seq<char>, Request)>) -> Seq<(Seq<char>, RequestV)> {
    table::map_v(s, |x: Request| x@)
}

impl Dashboard {
    pub open spec fn view(&self) -> StoreV {
        StoreV {
            sessions: session_views(self.sessions@),
            active: active_views(self.active@),
            recent: requests_v(self.recent@),
            errors: requests_v(self.errors@),
            failures: failures_v(self.failures@),
            completed: text::views(self.completed@),
            failure_counts: self.failure_counts@,
            failure_cap: self.failure_cap,
            recent_cap: self.recent_cap,
            metrics_completed: self.metrics_completed@,
            totals: self.totals,
        }
    }

    /// A store that keeps so many failures and so many finished turns.
    pub fn with_caps(failure_cap: usize, recent_cap: usize) -> (r: Dashboard)
        ensures
            r@ == model::empty_v(failure_cap, recent_cap),
    {
        let r = Dashboard {
            sessions: Table::new(),
            active: Table::new(),
            recent: Vec::new(),
            errors: Vec::new(),
            failures: Vec::new(),
            completed: Vec::new(),
            failure_counts: Table::new(),
            failure_cap,
            recent_cap,
            metrics_completed: Vec::new(),
            totals: Totals {
                input_tokens: 0,
                cached_input_tokens: 0,
                cache_write_tokens: 0,
                fresh_input_tokens: 0,
                usage_requests: 0,
            },
        };
        assert(r@ =~= model::empty_v(failure_cap, recent_cap));
        r
    }

    fn is_completed(&self, id: &str) -> (r: bool)
        ensures
            r == self@.completed.contains(id@),
    {
        let mut i: usize = 0;
        let ghost all = self@.completed;
        while i < self.completed.len()
            invariant
                i <= self.completed@.len(),
                all == text::views(self.completed@),
                forall|j: int| 0 <= j < i ==> all[j] != id@,
            decreases self.completed@.len() - i,
        {
            assert(all[i as int] == self.completed@[i as int]@);
            if text::same(&self.completed[i], id) {
                return true;
            }
            i += 1;
        }
        false
    }

    /// Touches a known session.
    fn touch(&mut self, e: &RequestEvent, wall: i64)
        ensures
            final(self)@ == model::touch_v(old(self)@, e@, wall),
    {
        let ghost before = self.sessions@;
        let ghost f = |x: Session| x@;
        proof {
            table::get_map(before, e.session_id@, f);
        }
        if let Some(x) = self.sessions.get_mut(&e.session_id) {
            x.updated_at = Some(wall);
            rename(&mut x.last_provider, &e.provider);
            proof {
                table::put_map(before, e.session_id@, *x, f);
            }
        }
    }
}

impl Dashboard {
    fn apply_started(&mut self, e: &RequestEvent, now: Moment)
        ensures
            final(self)@ == model::started_v(old(self)@, e@, now),
    {
        if self.is_completed(&e.request_id) {
            return;
        }
        let ghost active = self.active@;
        let ghost f = |x: Request| x@;
        let ghost g = |x: Session| x@;
        proof {
            table::get_map(active, e.request_id@, f);
        }
        if let Some(r) = self.active.get_mut(&e.request_id) {
            restart(r, e);
            proof {
                table::put_map(active, e.request_id@, *r, f);
            }
            self.touch(e, now.wall);
            return;
        }
        let r = request_from_event(e);
        proof {
            table::put_map(active, e.request_id@, r, f);
        }
        self.active.put(&e.request_id, r);
        let ghost sessions = self.sessions@;
        proof {
            table::get_map(sessions, e.session_id@, g);
        }
        let mut x = match self.sessions.get(&e.session_id) {
            Some(x) => x.copy(),
            None => Session::named(&e.session_id),
        };
        x.requests = x.requests.saturating_add(1);
        x.active = x.active.saturating_add(1);
        x.last_model = sanitize(&e.model);
        rename(&mut x.last_provider, &e.provider);
        x.updated_at = Some(now.wall);
        proof {
            table::put_map(sessions, e.session_id@, x, g);
        }
        self.sessions.put(&e.session_id, x);
    }

    fn apply_updated(&mut self, e: &RequestEvent, now: Moment)
        ensures
            final(self)@ == model::updated_v(old(self)@, e@, now),
    {
        if self.is_completed(&e.request_id) {
            return;
        }
        let ghost active = self.active@;
        let ghost f = |x: Request| x@;
        proof {
            table::get_map(active, e.request_id@, f);
        }
        if let Some(r) = self.active.get_mut(&e.request_id) {
            progress(r, e, now.tick);
            proof {
                table::put_map(active, e.request_id@, *r, f);
            }
            self.touch(e, now.wall);
        }
    }

    /// Marks an earlier turn that a finished one looks like a retry of.
    fn pair(&mut self, r: &Request) -> (b: bool)
        ensures
            final(self)@ == model::paired_v(old(self)@, r@),
            b == (model::prior_v(old(self)@.recent, r@, 0) is Some),
    {
        match find_prior(&self.recent, r) {
            Some(i) => {
                let ghost before = requests_v(self.recent@);
                let id = self.recent[i].id.clone();
                let prior = &mut self.recent[i];
                prior.retry_candidate = true;
                assert(requests_v(self.recent@) =~= before.update(
                    i as int,
                    RequestV { retry_candidate: true, ..before[i as int] },
                ));
                mark_failure(&mut self.failures, &id);
                true
            },
            None => false,
        }
    }

    /// Puts a finished turn among the recent ones.
    fn record(&mut self, r: &Request, e: &RequestEvent, wall: i64)
        ensures
            final(self)@ == model::recorded_v(old(self)@, r@, e@, wall),
    {
        let failed = e.kind == RequestEventKind::Failed;
        push_request(&mut self.recent, r.copy(), self.recent_cap);
        if failed {
            push_request(&mut self.errors, r.copy(), self.recent_cap);
            let index: u32 = match self.failure_counts.get(&e.session_id) {
                Some(n) => n.saturating_add(1),
                None => 1,
            };
            self.failure_counts.put(&e.session_id, index);
            let kind = match e.failure_kind {
                Some(k) => k,
                None => FailureKind::Unknown,
            };
            push_failure(
                &mut self.failures,
                failure_record(r, kind, index, wall),
                self.failure_cap,
            );
        }
        push_rolling(&mut self.metrics_completed, !failed);
        count_usage(&mut self.totals, e.usage);
    }

    fn apply_ended(&mut self, e: &RequestEvent, now: Moment)
        ensures
            final(self)@ == model::ended_v(old(self)@, e@, now),
    {
        if self.is_completed(&e.request_id) {
            return;
        }
        let ghost active = self.active@;
        let ghost f = |x: Request| x@;
        let ghost g = |x: Session| x@;
        proof {
            table::get_map(active, e.request_id@, f);
        }
        let mut r = match self.active.take(&e.request_id) {
            Some(r) => r,
            None => request_from_event(e),
        };
        finish(&mut r, e, now.tick);
        let paired = self.pair(&r);
        if paired {
            r.retry_candidate = true;
        }
        self.record(&r, e, now.wall);
        let ghost sessions = self.sessions@;
        proof {
            table::get_map(sessions, e.session_id@, g);
        }
        let mut x = match self.sessions.get(&e.session_id) {
            Some(x) => x.copy(),
            None => Session::named(&e.session_id),
        };
        close_session(&mut x, &r, e, now);
        proof {
            table::put_map(sessions, e.session_id@, x, g);
        }
        self.sessions.put(&e.session_id, x);
        let ghost before = self.completed@;
        self.completed.push(e.request_id.clone());
        assert(text::views(self.completed@) =~= text::views(before).push(e.request_id@));
        let four: usize = match self.recent_cap.checked_mul(4) {
            Some(n) => n,
            None => usize::MAX,
        };
        let cap: usize = if four < 200 {
            200
        } else {
            four
        };
        if self.completed.len() > cap {
            self.completed = Vec::new();
            assert(text::views(self.completed@) =~= Seq::empty());
        }
    }

    /// Takes an event at time `now`.
    pub fn apply(&mut self, e: &RequestEvent, now: Moment)
        ensures
            final(self)@ == model::apply_v(old(self)@, e@, now),
    {
        match e.kind {
            RequestEventKind::Started => self.apply_started(e, now),
            RequestEventKind::Updated => self.apply_updated(e, now),
            RequestEventKind::Completed | RequestEventKind::Failed => self.apply_ended(e, now),
        }
    }

    /// Takes what was seen of a session's prompt and directory.
    pub fn apply_session_context(&mut self, key: &str, prompt: &str, cwd: &str, now: Moment)
        ensures
            final(self)@ == model::context_v(old(self)@, key@, prompt@, cwd@, now.wall),
    {
        let has_prompt = !text::trim(prompt).as_str().is_empty();
        let has_cwd = !text::trim(cwd).as_str().is_empty();
        if !has_prompt && !has_cwd {
            return;
        }
        let ghost sessions = self.sessions@;
        let ghost g = |x: Session| x@;
        proof {
            table::get_map(sessions, key@, g);
        }
        let mut x = match self.sessions.get(key) {
            Some(x) => x.copy(),
            None => Session::named(key),
        };
        if has_prompt {
            x.last_prompt = sanitize(prompt);
        }
        if has_cwd {
            x.cwd = sanitize(cwd);
        }
        x.updated_at = Some(now.wall);
        proof {
            table::put_map(sessions, key@, x, g);
        }
        self.sessions.put(key, x);
    }
}

/// What the monitor is shown.
#[derive(Debug)]
pub struct Snapshot {
    pub sessions: Vec<Session>,
    pub active: Vec<Request>,
    pub recent: Vec<Request>,
    pub errors: Vec<Request>,
    pub failures: Vec<FailureRecord>,
    /// Whether the latest turns succeeded, the oldest first.
    pub metrics_completed: Vec<bool>,
    pub totals: Totals,
}

impl Snapshot {
    pub open spec fn view(&self) -> SnapshotV {
        SnapshotV {
            sessions: sessions_v(self.sessions@),
            active: requests_v(self.active@),
            recent: requests_v(self.recent@),
            errors: requests_v(self.errors@),
            failures: failures_v(self.failures@),
            metrics_completed: self.metrics_completed@,
            totals: self.totals,
        }
    }
}

fn newer(a: Option<i64>, b: Option<i64>) -> (r: bool)
    ensures
        r == model::newer_v(a, b),
{
    match (a, b) {
        (Some(x), Some(y)) => x > y,
        (Some(_), None) => true,
        _ => false,
    }
}

fn shown_before(a: &Session, b: &Session) -> (r: bool)
    ensures
        r == model::shown_before_v(a@, b@),
{
    let same_time = match (a.updated_at, b.updated_at) {
        (Some(x), Some(y)) => x == y,
        (None, None) => true,
        _ => false,
    };
    newer(a.updated_at, b.updated_at) || (same_time && text::less(&a.id, &b.id))
}

fn sort_sessions(all: &Table<Session>) -> (r: Vec<Session>)
    ensures
        sessions_v(r@) == order::sorted_v(
            model::values_v(session_views(all@)),
            |a: SessionV, b: SessionV| model::shown_before_v(a, b),
        ),
{
    let ghost before = |a: SessionV, b: SessionV| model::shown_before_v(a, b);
    let ghost s = model::values_v(session_views(all@));
    let mut out: Vec<Session> = Vec::new();
    let mut i: usize = 0;
    assert(sessions_v(out@) =~= order::sorted_v(s.take(0), before));
    while i < all.entries.len()
        invariant
            i <= all.entries@.len(),
            s == model::values_v(session_views(all@)),
            before == (|a: SessionV, b: SessionV| model::shown_before_v(a, b)),
            sessions_v(out@) == order::sorted_v(s.take(i as int), before),
        decreases all.entries@.len() - i,
    {
        let x = all.entries[i].1.copy();
        let mut j: usize = out.len();
        while j > 0 && shown_before(&x, &out[j - 1])
            invariant
                j <= out@.len(),
                forall|k: int|
                    j <= k < out@.len() ==> model::shown_before_v(x@, #[trigger] out@[k]@),
            decreases j,
        {
            j -= 1;
        }
        proof {
            let t = sessions_v(out@);
            assert forall|k: int| j <= k < t.len() implies before(x@, #[trigger] t[k]) by {
                assert(t[k] == out@[k]@);
            }
            assert(j > 0 ==> t[j - 1] == out@[j - 1]@);
            order::insert_at(t, x@, before, j as int);
            assert(s.take(i + 1).drop_last() =~= s.take(i as int));
            assert(s.take(i + 1).last() == x@);
            assert(sessions_v(out@.insert(j as int, x)) =~= t.insert(j as int, x@));
        }
        out.insert(j, x);
        i += 1;
    }
    assert(s.take(i as int) =~= s);
    out
}

fn sort_active(all: &Table<Request>) -> (r: Vec<Request>)
    ensures
        requests_v(r@) == order::sorted_v(
            model::values_v(active_views(all@)),
            |a: RequestV, b: RequestV| a.started_at < b.started_at,
        ),
{
    let ghost before = |a: RequestV, b: RequestV| a.started_at < b.started_at;
    let ghost s = model::values_v(active_views(all@));
    let mut out: Vec<Request> = Vec::new();
    let mut i: usize = 0;
    assert(requests_v(out@) =~= order::sorted_v(s.take(0), before));
    while i < all.entries.len()
        invariant
            i <= all.entries@.len(),
            s == model::values_v(active_views(all@)),
            before == (|a: RequestV, b: RequestV| a.started_at < b.started_at),
            requests_v(out@) == order::sorted_v(s.take(i as int), before),
        decreases all.entries@.len() - i,
    {
        let x = all.entries[i].1.copy();
        let mut j: usize = out.len();
        while j > 0 && x.started_at < out[j - 1].started_at
            invariant
                j <= out@.len(),
                forall|k: int| j <= k < out@.len() ==> x.started_at < (#[trigger] out@[k]).started_at,
            decreases j,
        {
            j -= 1;
        }
        proof {
            let t = requests_v(out@);
            assert forall|k: int| j <= k < t.len() implies before(x@, #[trigger] t[k]) by {
                assert(t[k] == out@[k]@);
            }
            assert(j > 0 ==> t[j - 1] == out@[j - 1]@);
            order::insert_at(t, x@, before, j as int);
            assert(s.take(i + 1).drop_last() =~= s.take(i as int));
            assert(s.take(i + 1).last() == x@);
            assert(requests_v(out@.insert(j as int, x)) =~= t.insert(j as int, x@));
        }
        out.insert(j, x);
        i += 1;
    }
    assert(s.take(i as int) =~= s);
    out
}

fn copy_requests(v: &Vec<Request>) -> (r: Vec<Request>)
    ensures
        requests_v(r@) == requests_v(v@),
{
    let mut out: Vec<Request> = Vec::new();
    let mut i: usize = 0;
    while i < v.len()
        invariant
            i <= v@.len(),
            requests_v(out@) == requests_v(v@).take(i as int),
        decreases v@.len() - i,
    {
        let ghost before = out@;
        out.push(v[i].copy());
        assert(requests_v(out@) =~= requests_v(before).push(v@[i as int]@));
        i += 1;
        assert(requests_v(v@).take(i as int) =~= requests_v(v@).take(i - 1).push(v@[i - 1]@));
    }
    assert(requests_v(v@).take(i as int) =~= requests_v(v@));
    out
}

fn copy_samples(v: &Vec<bool>) -> (r: Vec<bool>)
    ensures
        r@ == v@,
{
    let mut out: Vec<bool> = Vec::new();
    let mut i: usize = 0;
    while i < v.len()
        invariant
            i <= v@.len(),
            out@ == v@.take(i as int),
        decreases v@.len() - i,
    {
        out.push(v[i]);
        i += 1;
        assert(v@.take(i as int) =~= v@.take(i - 1).push(v@[i - 1]));
    }
    assert(v@.take(i as int) =~= v@);
    out
}

fn is_kind(kind: Option<FailureKind>, k: FailureKind) -> (r: bool)
    ensures
        r == (kind is None || kind == Some(k)),
{
    match kind {
        Some(x) => x == k,
        None => true,
    }
}

/// How many are kept where a setting asks for a number: that number if it is
/// one above zero, else the default.
pub fn cap_from_setting(setting: Option<&str>) -> (r: usize)
    ensures
        r == model::cap_v(crate::json::opt_str(setting)),
{
    match setting {
        Some(t) => match text::parse_uint(t, usize::MAX as u64) {
            Some(n) => if n > 0 {
                n as usize
            } else {
                model::DEFAULT_CAP
            },
            None => model::DEFAULT_CAP,
        },
        None => model::DEFAULT_CAP,
    }
}

pub open spec fn at_least_one_v(n: usize) -> usize {
    if n == 0 {
        1
    } else {
        n
    }
}

fn at_least_one(n: usize) -> (r: usize)
    ensures
        r == at_least_one_v(n),
{
    if n == 0 {
        1
    } else {
        n
    }
}

impl Dashboard {
    pub fn new() -> (r: Dashboard)
        ensures
            r@ == model::empty_v(model::DEFAULT_CAP, model::DEFAULT_CAP),
    {
        Self::with_caps(model::DEFAULT_CAP, model::DEFAULT_CAP)
    }

    /// A store that keeps so many failures, at least one.
    pub fn with_failure_cap(cap: usize) -> (r: Dashboard)
        ensures
            r@ == model::empty_v(at_least_one_v(cap), model::DEFAULT_CAP),
    {
        Self::with_caps(at_least_one(cap), model::DEFAULT_CAP)
    }

    /// A store that keeps so many finished turns, at least one.
    pub fn with_recent_cap(cap: usize) -> (r: Dashboard)
        ensures
            r@ == model::empty_v(model::DEFAULT_CAP, at_least_one_v(cap)),
    {
        Self::with_caps(model::DEFAULT_CAP, at_least_one(cap))
    }

    /// What the monitor is shown.
    pub fn snapshot(&self) -> (r: Snapshot)
        ensures
            r@ == model::snapshot_v(self@),
    {
        Snapshot {
            sessions: sort_sessions(&self.sessions),
            active: sort_active(&self.active),
            recent: copy_requests(&self.recent),
            errors: copy_requests(&self.errors),
            failures: self.failures_for_report(None),
            metrics_completed: copy_samples(&self.metrics_completed),
            totals: self.totals,
        }
    }

    /// The failures of one kind, or all, newest first.
    pub fn failures_for_report(&self, kind: Option<FailureKind>) -> (r: Vec<FailureRecord>)
        ensures
            failures_v(r@) == model::of_kind_v(self@.failures, kind),
            kind is None ==> failures_v(r@) == self@.failures,
    {
        let mut out: Vec<FailureRecord> = Vec::new();
        let mut i: usize = 0;
        let ghost all = self@.failures;
        assert(failures_v(out@) =~= all.take(0));
        while i < self.failures.len()
            invariant
                i <= self.failures@.len(),
                all == failures_v(self.failures@),
                failures_v(out@) == model::of_kind_v(all.take(i as int), kind),
                kind is None ==> failures_v(out@) == all.take(i as int),
            decreases self.failures@.len() - i,
        {
            let ghost before = out@;
            assert(all.take(i + 1).drop_last() =~= all.take(i as int));
            assert(all.take(i + 1).last() == self.failures@[i as int]@);
            if is_kind(kind, self.failures[i].kind) {
                out.push(self.failures[i].copy());
                assert(failures_v(out@) =~= failures_v(before).push(self.failures@[i as int]@));
            }
            assert(all.take(i + 1) =~= all.take(i as int).push(all[i as int]));
            i += 1;
        }
        assert(all.take(i as int) =~= all);
        out
    }
}

impl Observer for Dashboard {
    fn observe(&mut self, event: RequestEvent, now: Moment)
        ensures
            final(self)@ == model::apply_v(old(self)@, event@, now),
    {
        self.apply(&event, now)
    }

    fn observe_session_context(&mut self, session_id: &str, last_prompt: &str, cwd: &str, now: Moment)
        ensures
            final(self)@ == model::context_v(
                old(self)@,
                session_id@,
                last_prompt@,
                cwd@,
                now.wall,
            ),
    {
        self.apply_session_context(session_id, last_prompt, cwd, now)
    }
}

} // verus!
