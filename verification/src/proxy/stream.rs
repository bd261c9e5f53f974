//! How a request's end is told.

use vstd::prelude::*;

use crate::events;
use crate::events::capture;
use crate::events::capture::{CaptureDiagnostics, CaptureV, VerdictV};
use crate::events::usage;
use crate::events::usage::UsageV;
use crate::events::{
    classify_stream_end, parse_capture_diagnostics, sanitize, EventV, FailureKind, RequestEvent,
    RequestEventKind, TokenUsage, UsageAccumulator,
};
use crate::json;
use crate::json::{Json, JsonV};
use crate::sse::{append_slice, sub_bytes};
use crate::text;

verus! {

/// How many bytes of a response are kept for its diagnosis.
pub const CAPTURE_BYTES: usize = 262_144;

/// The end of a byte string, `CAPTURE_BYTES` long at most.
pub open spec fn tail_v(b: Seq<u8>) -> Seq<u8> {
    if b.len() > CAPTURE_BYTES {
        b.skip(b.len() - CAPTURE_BYTES)
    } else {
        b
    }
}

/// Appends a chunk, and drops what then is too much from the front.
pub fn capture_tail(buffer: &mut Vec<u8>, chunk: &[u8])
    ensures
        final(buffer)@ == tail_v(old(buffer)@ + chunk@),
{
    let ghost before = buffer@;
    if chunk.len() >= CAPTURE_BYTES {
        let from: usize = chunk.len() - CAPTURE_BYTES;
        let tail = vstd::slice::slice_to_vec(
            vstd::slice::slice_subrange(chunk, from, chunk.len()),
        );
        *buffer = tail;
        assert(buffer@ =~= tail_v(before + chunk@));
    } else {
        let room: usize = CAPTURE_BYTES - chunk.len();
        if buffer.len() > room {
            let from: usize = buffer.len() - room;
            *buffer = sub_bytes(buffer, from, buffer.len());
        }
        append_slice(buffer, chunk);
        assert(buffer@ =~= tail_v(before + chunk@));
    }
}

/// A status of success.
pub open spec fn success_v(status: u16) -> bool {
    200 <= status < 300
}

pub fn is_success(status: u16) -> (r: bool)
    ensures
        r == success_v(status),
{
    200 <= status && status < 300
}

pub open spec fn http_text_v(status: u16) -> Seq<char> {
    "upstream HTTP "@ + text::decimal_v(status as nat)
}

fn http_text(status: u16) -> (r: String)
    ensures
        r@ == http_text_v(status),
{
    text::cat("upstream HTTP ", &text::decimal(status as u64))
}

pub open spec fn first_text_v(a: Seq<char>, b: Seq<char>) -> Seq<char> {
    capture::first_text_v(a, b)
}

/// The event with what is measured at a request's end; `d` is what its last
/// `size` bytes tell.
pub open spec fn measured_v(
    event: EventV,
    status: u16,
    d: CaptureV,
    size: nat,
    usage: Option<TokenUsage>,
    now: u64,
) -> EventV {
    EventV {
        status_code: status,
        duration_ms: events::millis_v(event.started_at, now),
        capture_bytes: size as u32,
        usage,
        output_tokens: match usage {
            Some(u) => u.output_tokens,
            None => event.output_tokens,
        },
        response_id: if d.response_id.len() > 0 {
            events::sanitize_v(d.response_id)
        } else {
            event.response_id
        },
        output_count: if d.output_count > 0 {
            d.output_count
        } else {
            event.output_count
        },
        ..event
    }
}

/// The event of a request that is still unauthorized with fresh credentials.
pub open spec fn unauthorized_v(measured: EventV, d: CaptureV) -> EventV {
    EventV {
        kind: RequestEventKind::Failed,
        failure_kind: Some(FailureKind::AuthRetryFailed),
        error_type: events::sanitize_v(
            first_text_v(d.error_type, first_text_v(measured.error_type, "auth_retry_failed"@)),
        ),
        error: events::sanitize_v(first_text_v(d.error_message, http_text_v(measured.status_code))),
        ..measured
    }
}

/// The event of a request whose end has been judged.
pub open spec fn judged_v(measured: EventV, verdict: VerdictV) -> EventV {
    let failure = if verdict.failure is Some {
        verdict.failure
    } else {
        measured.failure_kind
    };
    EventV {
        kind: verdict.kind,
        failure_kind: failure,
        error_type: events::sanitize_v(
            if verdict.error_type.len() > 0 {
                verdict.error_type
            } else if verdict.kind == RequestEventKind::Failed {
                match failure {
                    Some(f) => f.name_v(),
                    None => FailureKind::Unknown.name_v(),
                }
            } else {
                Seq::empty()
            },
        ),
        error: if verdict.message.len() > 0 {
            events::sanitize_v(verdict.message)
        } else if verdict.kind == RequestEventKind::Failed && !success_v(measured.status_code) {
            events::sanitize_v(http_text_v(measured.status_code))
        } else {
            Seq::empty()
        },
        ..measured
    }
}

/// The event with which a request ends, from its status, the bytes that were
/// kept, its usage, and a break of its stream.
pub open spec fn ended_v(
    event: EventV,
    status: u16,
    captured: Seq<u8>,
    usage: Option<TokenUsage>,
    broken: Option<Seq<char>>,
    now: u64,
) -> EventV {
    let d = capture::capture_v(text::utf8_lossy(captured));
    let measured = measured_v(event, status, d, captured.len(), usage, now);
    if event.auth_retried && broken is None && status == 401 {
        unauthorized_v(measured, d)
    } else {
        judged_v(measured, capture::verdict_v(success_v(status), broken, d))
    }
}

fn first_text(a: &str, b: &str) -> (r: String)
    ensures
        r@ == first_text_v(a@, b@),
{
    if a.is_empty() {
        text::owned(b)
    } else {
        text::owned(a)
    }
}

fn measure(
    event: RequestEvent,
    status: u16,
    diag: &CaptureDiagnostics,
    size: usize,
    usage: Option<TokenUsage>,
    now: u64,
) -> (r: RequestEvent)
    ensures
        r@ == measured_v(event@, status, diag@, size as nat, usage, now),
{
    let mut out = event.with_duration(now);
    out.status_code = status;
    out.capture_bytes = size as u32;
    out.usage = usage;
    if let Some(u) = usage {
        out.output_tokens = u.output_tokens;
    }
    if !diag.response_id.as_str().is_empty() {
        out.response_id = sanitize(&diag.response_id);
    }
    if diag.output_count > 0 {
        out.output_count = diag.output_count;
    }
    out
}

fn judge(
    measured: RequestEvent,
    kind: RequestEventKind,
    failure: Option<FailureKind>,
    error_type: String,
    message: String,
) -> (r: RequestEvent)
    ensures
        r@ == judged_v(
            measured@,
            VerdictV { kind, failure, error_type: error_type@, message: message@ },
        ),
{
    let mut out = measured;
    let failed = match kind {
        RequestEventKind::Failed => true,
        _ => false,
    };
    out.kind = kind;
    if failure.is_some() {
        out.failure_kind = failure;
    }
    let shown = if !error_type.as_str().is_empty() {
        error_type
    } else if failed {
        text::owned(
            match out.failure_kind {
                Some(f) => f.as_str(),
                None => FailureKind::Unknown.as_str(),
            },
        )
    } else {
        String::new()
    };
    out.error_type = sanitize(&shown);
    out.error = if !message.as_str().is_empty() {
        sanitize(&message)
    } else if failed && !is_success(out.status_code) {
        sanitize(&http_text(out.status_code))
    } else {
        String::new()
    };
    out
}

fn still_unauthorized(measured: RequestEvent, diag: &CaptureDiagnostics) -> (r: RequestEvent)
    ensures
        r@ == unauthorized_v(measured@, diag@),
{
    let mut out = measured;
    let own = first_text(&out.error_type, "auth_retry_failed");
    out.kind = RequestEventKind::Failed;
    out.failure_kind = Some(FailureKind::AuthRetryFailed);
    out.error_type = sanitize(&first_text(&diag.error_type, &own));
    out.error = sanitize(&first_text(&diag.error_message, &http_text(out.status_code)));
    out
}

/// The event with which a request ends.
pub fn stream_end_event(
    event: RequestEvent,
    status: u16,
    captured: &[u8],
    usage: Option<TokenUsage>,
    stream_io_error: Option<&str>,
    now: u64,
) -> (r: RequestEvent)
    ensures
        r@ == ended_v(event@, status, captured@, usage, json::opt_str(stream_io_error), now),
{
    let retried = event.auth_retried;
    let diag = parse_capture_diagnostics(captured);
    let measured = measure(event, status, &diag, captured.len(), usage, now);
    if retried && stream_io_error.is_none() && status == 401 {
        still_unauthorized(measured, &diag)
    } else {
        let (kind, failure, error_type, message) = classify_stream_end(
            is_success(status),
            stream_io_error,
            &diag,
        );
        judge(measured, kind, failure, error_type, message)
    }
}

/// The event with which a request ends that got no response.
pub open spec fn failed_v(
    base: EventV,
    kind: FailureKind,
    error_type: Seq<char>,
    message: Seq<char>,
    status: u16,
    now: u64,
) -> EventV {
    EventV {
        kind: RequestEventKind::Failed,
        status_code: status,
        duration_ms: events::millis_v(base.started_at, now),
        failure_kind: Some(kind),
        error_type: events::sanitize_v(error_type),
        error: events::sanitize_v(message),
        ..base
    }
}

/// The event with which a request ends that got no response.
pub fn failure_event(
    base: &RequestEvent,
    kind: FailureKind,
    error_type: &str,
    message: &str,
    status: u16,
    now: u64,
) -> (r: RequestEvent)
    ensures
        r@ == failed_v(base@, kind, error_type@, message@, status, now),
{
    let mut out = base.copy().with_duration(now);
    out.kind = RequestEventKind::Failed;
    out.status_code = status;
    out.failure_kind = Some(kind);
    out.error_type = sanitize(error_type);
    out.error = sanitize(message);
    out
}

/// Follows a response to the client, and tells its end once, even where the
/// client goes away before it.
#[derive(Debug)]
pub struct StreamObserveGuard {
    event: RequestEvent,
    status: u16,
    capture: Vec<u8>,
    usage: UsageAccumulator,
    finished: bool,
}

#[verifier::ext_equal]
pub struct GuardV {
    pub event: EventV,
    pub status: u16,
    pub capture: Seq<u8>,
    pub usage: UsageV,
    pub finished: bool,
}

/// A response from which nothing has come yet.
pub open spec fn guard_v(event: EventV, status: u16, is_sse: bool) -> GuardV {
    GuardV {
        event,
        status,
        capture: Seq::empty(),
        usage: usage::fresh_v(is_sse),
        finished: false,
    }
}

/// A chunk has gone to the client.
pub open spec fn passed_v(g: GuardV, chunk: Seq<u8>) -> GuardV {
    GuardV {
        capture: tail_v(g.capture + chunk),
        usage: usage::push_v(g.usage, chunk),
        ..g
    }
}

/// The event at the end of the response.
pub open spec fn end_v(g: GuardV, broken: Option<Seq<char>>, now: u64) -> EventV {
    ended_v(g.event, g.status, g.capture, usage::total_v(g.usage), broken, now)
}

/// The event where the client has gone away: a failure unless the response had
/// come to its end.
pub open spec fn dropped_v(g: GuardV, now: u64) -> EventV {
    let d = capture::capture_v(text::utf8_lossy(g.capture));
    end_v(
        g,
        if d.has_completed || d.has_stream_terminal_failure || d.has_proxy_error {
            None
        } else {
            Some("client disconnected"@)
        },
        now,
    )
}

pub open spec fn opt_event(e: Option<RequestEvent>) -> Option<EventV> {
    match e {
        Some(e) => Some(e@),
        None => None,
    }
}

impl StreamObserveGuard {
    pub closed spec fn view(&self) -> GuardV {
        GuardV {
            event: self.event@,
            status: self.status,
            capture: self.capture@,
            usage: self.usage@,
            finished: self.finished,
        }
    }

    pub fn new(event: RequestEvent, status: u16, is_sse: bool) -> (r: StreamObserveGuard)
        ensures
            r@ == guard_v(event@, status, is_sse),
    {
        StreamObserveGuard {
            event,
            status,
            capture: Vec::new(),
            usage: UsageAccumulator::new(is_sse),
            finished: false,
        }
    }

    /// Takes a chunk that goes to the client.
    pub fn capture_chunk(&mut self, chunk: &[u8])
        ensures
            final(self)@ == passed_v(old(self)@, chunk@),
    {
        self.usage.push(chunk);
        capture_tail(&mut self.capture, chunk);
    }

    /// The bytes that are kept.
    pub fn captured(&self) -> (r: &[u8])
        ensures
            r@ == self@.capture,
    {
        self.capture.as_slice()
    }

    /// The end of the response, or its break. It is told once.
    pub fn finish(&mut self, stream_io_error: Option<&str>, now: u64) -> (r: Option<RequestEvent>)
        ensures
            final(self)@ == (GuardV { finished: true, ..old(self)@ }),
            opt_event(r) == (if old(self)@.finished {
                None
            } else {
                Some(end_v(old(self)@, json::opt_str(stream_io_error), now))
            }),
    {
        if self.finished {
            return None;
        }
        self.finished = true;
        let usage = self.usage.finish();
        Some(
            stream_end_event(
                self.event.copy(),
                self.status,
                self.capture.as_slice(),
                usage,
                stream_io_error,
                now,
            ),
        )
    }

    /// The client has gone away. If the end has not been told, it is now.
    pub fn abandon(&mut self, now: u64) -> (r: Option<RequestEvent>)
        ensures
            final(self)@ == (GuardV { finished: true, ..old(self)@ }),
            opt_event(r) == (if old(self)@.finished {
                None
            } else {
                Some(dropped_v(old(self)@, now))
            }),
    {
        let diag = parse_capture_diagnostics(self.capture.as_slice());
        if diag.has_terminal_end() {
            self.finish(None, now)
        } else {
            self.finish(Some("client disconnected"), now)
        }
    }
}

pub open spec fn opt_filled_v(s: Option<Seq<char>>) -> Option<Seq<char>> {
    match s {
        Some(s) => if s.len() > 0 {
            Some(s)
        } else {
            None
        },
        None => None,
    }
}

pub open spec fn pick_text_v(v: Option<JsonV>, k: Seq<char>) -> Option<Seq<char>> {
    match v {
        Some(v) => opt_filled_v(v.get_text(k)),
        None => None,
    }
}

/// The type and the message of an error that Kimi reports.
pub open spec fn kimi_error_v(parsed: Option<JsonV>, status: u16) -> (Seq<char>, Seq<char>) {
    let error = match parsed {
        Some(v) => v.get("error"@),
        None => None,
    };
    let plain = match error {
        Some(e) => opt_filled_v(e.text()),
        None => None,
    };
    let error_type = match pick_text_v(error, "type"@) {
        Some(s) => s,
        None => "upstream_error"@,
    };
    let message = match pick_text_v(error, "message"@) {
        Some(s) => s,
        None => match plain {
            Some(s) => s,
            None => match pick_text_v(parsed, "message"@) {
                Some(s) => s,
                None => http_text_v(status),
            },
        },
    };
    (error_type, message)
}

fn filled(s: Option<&str>) -> (r: Option<String>)
    ensures
        text::opt_view(r) == opt_filled_v(json::opt_str(s)),
{
    match s {
        Some(s) => if !s.is_empty() {
            Some(text::owned(s))
        } else {
            None
        },
        None => None,
    }
}

fn pick_text(v: Option<&Json>, k: &str) -> (r: Option<String>)
    ensures
        text::opt_view(r) == pick_text_v(json::opt_json(v), k@),
{
    match v {
        Some(v) => filled(v.get_str(k)),
        None => None,
    }
}

/// The type and the message of an error body that has been read.
pub fn kimi_error_of(body: &Option<Json>, status: u16) -> (r: (String, String))
    ensures
        (r.0@, r.1@) == kimi_error_v(json::opt_owned(*body), status),
{
    let whole: Option<&Json> = match body {
        Some(v) => Some(v),
        None => None,
    };
    let error = match whole {
        Some(v) => v.get("error"),
        None => None,
    };
    let error_type = match pick_text(error, "type") {
        Some(s) => s,
        None => text::owned("upstream_error"),
    };
    let plain = match error {
        Some(e) => filled(e.as_str()),
        None => None,
    };
    let message = match pick_text(error, "message") {
        Some(s) => s,
        None => match plain {
            Some(s) => s,
            None => match pick_text(whole, "message") {
                Some(s) => s,
                None => http_text(status),
            },
        },
    };
    (error_type, message)
}

/// The type and the message of an error body of Kimi.
pub fn kimi_upstream_error(body: &[u8], status: u16) -> (r: (String, String))
    ensures
        (r.0@, r.1@) == kimi_error_v(json::parsed_bytes(body@), status),
{
    let body = json::parse_bytes(body);
    kimi_error_of(&body, status)
}

/// What is kept of a response is its end, and never too much.
pub proof fn captures_are_tails(g: GuardV, first: Seq<u8>, second: Seq<u8>)
    ensures
        passed_v(g, first).capture.len() <= CAPTURE_BYTES,
        passed_v(passed_v(g, first), second).capture == passed_v(g, first + second).capture,
{
    let a = g.capture + first;
    let b = g.capture + (first + second);
    assert(b =~= a + second);
    assert(tail_v(tail_v(a) + second) =~= tail_v(b));
}

/// A request that ended well is told as completed, one that did not as failed.
pub proof fn ends_are_final(
    event: EventV,
    status: u16,
    captured: Seq<u8>,
    usage: Option<TokenUsage>,
    broken: Option<Seq<char>>,
    now: u64,
)
    ensures
        ({
            let e = ended_v(event, status, captured, usage, broken, now);
            &&& e.kind == RequestEventKind::Completed || e.kind == RequestEventKind::Failed
            &&& broken is Some ==> e.failure_kind == Some(FailureKind::StreamIo)
            &&& !success_v(status) ==> e.kind == RequestEventKind::Failed
            &&& e.kind == RequestEventKind::Failed ==> e.failure_kind is Some
        }),
{
}

} // verus!
