//! Request lifecycle events for the monitor.
//!
//! Points in time are nanoseconds of one monotonic clock.

use vstd::prelude::*;

use crate::store::model::Moment;
use crate::text;

pub mod capture;
pub mod laws;
pub mod usage;

pub use crate::events::usage::UsageAccumulator;
pub use crate::events::capture::{classify_stream_end, parse_capture_diagnostics, CaptureDiagnostics};

verus! {

#[derive(Clone, Copy, Debug, PartialEq, Eq, Structural)]
pub enum RequestEventKind {
    Started,
    Updated,
    Completed,
    Failed,
}

/// Classification of a failed turn.
#[derive(Clone, Copy, Debug, PartialEq, Eq, Hash, Structural)]
pub enum FailureKind {
    /// A status other than success from upstream.
    UpstreamHttp,
    /// No response from upstream.
    UpstreamConnect,
    /// Still unauthorized after fresh credentials.
    AuthRetryFailed,
    /// The stream broke off.
    StreamIo,
    /// The stream ended with `response.failed`, `response.incomplete` or `error`.
    StreamTerminalFailed,
    /// The proxy could not assemble the response.
    ProxyAssemble,
    /// The proxy turned the client away.
    ClientRejected,
    Unknown,
}

impl FailureKind {
    pub open spec fn name_v(self) -> Seq<char> {
        match self {
            FailureKind::UpstreamHttp => "UpstreamHttp"@,
            FailureKind::UpstreamConnect => "UpstreamConnect"@,
            FailureKind::AuthRetryFailed => "AuthRetryFailed"@,
            FailureKind::StreamIo => "StreamIo"@,
            FailureKind::StreamTerminalFailed => "StreamTerminalFailed"@,
            FailureKind::ProxyAssemble => "ProxyAssemble"@,
            FailureKind::ClientRejected => "ClientRejected"@,
            FailureKind::Unknown => "Unknown"@,
        }
    }

    pub fn as_str(self) -> (r: &'static str)
        ensures
            r@ == self.name_v(),
    {
        match self {
            FailureKind::UpstreamHttp => "UpstreamHttp",
            FailureKind::UpstreamConnect => "UpstreamConnect",
            FailureKind::AuthRetryFailed => "AuthRetryFailed",
            FailureKind::StreamIo => "StreamIo",
            FailureKind::StreamTerminalFailed => "StreamTerminalFailed",
            FailureKind::ProxyAssemble => "ProxyAssemble",
            FailureKind::ClientRejected => "ClientRejected",
            FailureKind::Unknown => "Unknown",
        }
    }
}

/// How far a request has come.
#[derive(Clone, Copy, Debug, PartialEq, Eq, Structural)]
pub enum RequestPhase {
    Preparing,
    Auth,
    Upstream,
    Streaming,
}

/// The token counts of a response.
#[derive(Clone, Copy, Debug, PartialEq, Eq, Structural)]
pub struct TokenUsage {
    pub input_tokens: u64,
    pub cached_input_tokens: u64,
    pub cache_write_tokens: u64,
    pub output_tokens: u64,
}

pub open spec fn less_v(a: u64, b: u64) -> u64 {
    if a < b {
        0
    } else {
        (a - b) as u64
    }
}

impl TokenUsage {
    /// The input that was neither read from nor written to a cache.
    pub open spec fn fresh_v(self) -> u64 {
        less_v(less_v(self.input_tokens, self.cached_input_tokens), self.cache_write_tokens)
    }

    pub fn fresh_input_tokens(&self) -> (r: u64)
        ensures
            r == self.fresh_v(),
    {
        self.input_tokens.saturating_sub(self.cached_input_tokens).saturating_sub(
            self.cache_write_tokens,
        )
    }
}

/// Sizes and timings of a request, and a fingerprint by which its repetition is
/// known.
#[derive(Debug, PartialEq, Eq)]
pub struct RequestDiagnostics {
    pub request_body_bytes: u64,
    pub input_item_count: u64,
    pub proxy_prepare_ms: u64,
    pub credential_ms: u64,
    pub upstream_headers_ms: u64,
    pub first_chunk_ms: u64,
    pub request_fingerprint: String,
}

#[verifier::ext_equal]
pub struct DiagnosticsV {
    pub request_body_bytes: u64,
    pub input_item_count: u64,
    pub proxy_prepare_ms: u64,
    pub credential_ms: u64,
    pub upstream_headers_ms: u64,
    pub first_chunk_ms: u64,
    pub request_fingerprint: Seq<char>,
}

pub open spec fn no_diagnostics_v() -> DiagnosticsV {
    DiagnosticsV {
        request_body_bytes: 0,
        input_item_count: 0,
        proxy_prepare_ms: 0,
        credential_ms: 0,
        upstream_headers_ms: 0,
        first_chunk_ms: 0,
        request_fingerprint: Seq::empty(),
    }
}

impl RequestDiagnostics {
    pub open spec fn view(&self) -> DiagnosticsV {
        DiagnosticsV {
            request_body_bytes: self.request_body_bytes,
            input_item_count: self.input_item_count,
            proxy_prepare_ms: self.proxy_prepare_ms,
            credential_ms: self.credential_ms,
            upstream_headers_ms: self.upstream_headers_ms,
            first_chunk_ms: self.first_chunk_ms,
            request_fingerprint: self.request_fingerprint@,
        }
    }

    pub fn none() -> (r: RequestDiagnostics)
        ensures
            r@ == no_diagnostics_v(),
    {
        RequestDiagnostics {
            request_body_bytes: 0,
            input_item_count: 0,
            proxy_prepare_ms: 0,
            credential_ms: 0,
            upstream_headers_ms: 0,
            first_chunk_ms: 0,
            request_fingerprint: String::new(),
        }
    }

    pub fn copy(&self) -> (r: RequestDiagnostics)
        ensures
            r@ == self@,
    {
        RequestDiagnostics {
            request_body_bytes: self.request_body_bytes,
            input_item_count: self.input_item_count,
            proxy_prepare_ms: self.proxy_prepare_ms,
            credential_ms: self.credential_ms,
            upstream_headers_ms: self.upstream_headers_ms,
            first_chunk_ms: self.first_chunk_ms,
            request_fingerprint: self.request_fingerprint.clone(),
        }
    }
}

/// One step in the life of a request.
#[derive(Debug)]
pub struct RequestEvent {
    pub kind: RequestEventKind,
    pub request_id: String,
    pub session_id: String,
    pub requested_model: String,
    pub model: String,
    pub provider: String,
    pub status_code: u16,
    pub usage: Option<TokenUsage>,
    pub output_tokens: u64,
    pub error: String,
    pub started_at: u64,
    pub duration_ms: u64,
    pub failure_kind: Option<FailureKind>,
    pub error_type: String,
    pub response_id: String,
    pub mapped: bool,
    pub lite: bool,
    pub fast: bool,
    pub auth_retried: bool,
    /// The proxy's own attempt, from one; a retry with fresh credentials is two.
    pub attempt: u32,
    pub output_count: u32,
    pub capture_bytes: u32,
    pub warn_on_cache_miss: bool,
    pub diagnostics: RequestDiagnostics,
    pub phase: RequestPhase,
    pub streamed_bytes: u64,
    pub stream_chunks: u64,
    pub mark_generation_start: bool,
}

#[verifier::ext_equal]
pub struct EventV {
    pub kind: RequestEventKind,
    pub request_id: Seq<char>,
    pub session_id: Seq<char>,
    pub requested_model: Seq<char>,
    pub model: Seq<char>,
    pub provider: Seq<char>,
    pub status_code: u16,
    pub usage: Option<TokenUsage>,
    pub output_tokens: u64,
    pub error: Seq<char>,
    pub started_at: u64,
    pub duration_ms: u64,
    pub failure_kind: Option<FailureKind>,
    pub error_type: Seq<char>,
    pub response_id: Seq<char>,
    pub mapped: bool,
    pub lite: bool,
    pub fast: bool,
    pub auth_retried: bool,
    pub attempt: u32,
    pub output_count: u32,
    pub capture_bytes: u32,
    pub warn_on_cache_miss: bool,
    pub diagnostics: DiagnosticsV,
    pub phase: RequestPhase,
    pub streamed_bytes: u64,
    pub stream_chunks: u64,
    pub mark_generation_start: bool,
}

/// The whole milliseconds between two points in time, zero if they are out of
/// order.
pub open spec fn millis_v(from: u64, to: u64) -> u64 {
    (less_v(to, from) / 1_000_000) as u64
}

/// The event with which a request starts.
pub open spec fn started_v(
    request_id: Seq<char>,
    session_id: Seq<char>,
    requested_model: Seq<char>,
    model: Seq<char>,
    mapped: bool,
    lite: bool,
    fast: bool,
    now: u64,
) -> EventV {
    EventV {
        kind: RequestEventKind::Started,
        request_id,
        session_id,
        requested_model,
        model,
        provider: Seq::empty(),
        status_code: 0,
        usage: None,
        output_tokens: 0,
        error: Seq::empty(),
        started_at: now,
        duration_ms: 0,
        failure_kind: None,
        error_type: Seq::empty(),
        response_id: Seq::empty(),
        mapped,
        lite,
        fast,
        auth_retried: false,
        attempt: 1,
        output_count: 0,
        capture_bytes: 0,
        warn_on_cache_miss: false,
        diagnostics: no_diagnostics_v(),
        phase: RequestPhase::Preparing,
        streamed_bytes: 0,
        stream_chunks: 0,
        mark_generation_start: false,
    }
}

impl RequestEvent {
    pub open spec fn view(&self) -> EventV {
        EventV {
            kind: self.kind,
            request_id: self.request_id@,
            session_id: self.session_id@,
            requested_model: self.requested_model@,
            model: self.model@,
            provider: self.provider@,
            status_code: self.status_code,
            usage: self.usage,
            output_tokens: self.output_tokens,
            error: self.error@,
            started_at: self.started_at,
            duration_ms: self.duration_ms,
            failure_kind: self.failure_kind,
            error_type: self.error_type@,
            response_id: self.response_id@,
            mapped: self.mapped,
            lite: self.lite,
            fast: self.fast,
            auth_retried: self.auth_retried,
            attempt: self.attempt,
            output_count: self.output_count,
            capture_bytes: self.capture_bytes,
            warn_on_cache_miss: self.warn_on_cache_miss,
            diagnostics: self.diagnostics@,
            phase: self.phase,
            streamed_bytes: self.streamed_bytes,
            stream_chunks: self.stream_chunks,
            mark_generation_start: self.mark_generation_start,
        }
    }

    /// The event with which a request starts, at time `now`.
    pub fn started(
        request_id: &str,
        session_id: &str,
        requested_model: &str,
        model: &str,
        mapped: bool,
        lite: bool,
        fast: bool,
        now: u64,
    ) -> (r: RequestEvent)
        ensures
            r@ == started_v(
                request_id@,
                session_id@,
                requested_model@,
                model@,
                mapped,
                lite,
                fast,
                now,
            ),
    {
        RequestEvent {
            kind: RequestEventKind::Started,
            request_id: request_id.to_owned(),
            session_id: session_id.to_owned(),
            requested_model: requested_model.to_owned(),
            model: model.to_owned(),
            provider: String::new(),
            status_code: 0,
            usage: None,
            output_tokens: 0,
            error: String::new(),
            started_at: now,
            duration_ms: 0,
            failure_kind: None,
            error_type: String::new(),
            response_id: String::new(),
            mapped,
            lite,
            fast,
            auth_retried: false,
            attempt: 1,
            output_count: 0,
            capture_bytes: 0,
            warn_on_cache_miss: false,
            diagnostics: RequestDiagnostics::none(),
            phase: RequestPhase::Preparing,
            streamed_bytes: 0,
            stream_chunks: 0,
            mark_generation_start: false,
        }
    }

    pub fn copy(&self) -> (r: RequestEvent)
        ensures
            r@ == self@,
    {
        RequestEvent {
            kind: self.kind,
            request_id: self.request_id.clone(),
            session_id: self.session_id.clone(),
            requested_model: self.requested_model.clone(),
            model: self.model.clone(),
            provider: self.provider.clone(),
            status_code: self.status_code,
            usage: self.usage,
            output_tokens: self.output_tokens,
            error: self.error.clone(),
            started_at: self.started_at,
            duration_ms: self.duration_ms,
            failure_kind: self.failure_kind,
            error_type: self.error_type.clone(),
            response_id: self.response_id.clone(),
            mapped: self.mapped,
            lite: self.lite,
            fast: self.fast,
            auth_retried: self.auth_retried,
            attempt: self.attempt,
            output_count: self.output_count,
            capture_bytes: self.capture_bytes,
            warn_on_cache_miss: self.warn_on_cache_miss,
            diagnostics: self.diagnostics.copy(),
            phase: self.phase,
            streamed_bytes: self.streamed_bytes,
            stream_chunks: self.stream_chunks,
            mark_generation_start: self.mark_generation_start,
        }
    }

    /// The event with the time that the request has taken at `now`.
    pub fn with_duration(self, now: u64) -> (r: RequestEvent)
        ensures
            r@ == (EventV { duration_ms: millis_v(self.started_at, now), ..self@ }),
    {
        let mut out = self;
        out.duration_ms = now.saturating_sub(out.started_at) / 1_000_000;
        out
    }

    pub fn with_provider(self, provider: &str) -> (r: RequestEvent)
        ensures
            r@ == (EventV { provider: provider@, ..self@ }),
    {
        let mut out = self;
        out.provider = provider.to_owned();
        out
    }

    pub fn with_phase(self, phase: RequestPhase) -> (r: RequestEvent)
        ensures
            r@ == (EventV { phase, ..self@ }),
    {
        let mut out = self;
        out.phase = phase;
        out
    }

    /// The event as news of a request under way.
    pub fn as_updated(self) -> (r: RequestEvent)
        ensures
            r@ == (EventV { kind: RequestEventKind::Updated, ..self@ }),
    {
        let mut out = self;
        out.kind = RequestEventKind::Updated;
        out
    }
}

/// Who is told of request events.
pub trait Observer {
    fn observe(&mut self, event: RequestEvent, now: Moment);

    fn observe_session_context(
        &mut self,
        session_id: &str,
        last_prompt: &str,
        cwd: &str,
        now: Moment,
    );
}

pub open spec fn hex_v(d: u32) -> char {
    if d < 10 {
        text::digit_v(d as nat)
    } else if d == 10 {
        'a'
    } else if d == 11 {
        'b'
    } else if d == 12 {
        'c'
    } else if d == 13 {
        'd'
    } else if d == 14 {
        'e'
    } else {
        'f'
    }
}

/// The code point of a control character in hexadecimal.
pub open spec fn code_v(c: char) -> Seq<char> {
    let u = c as u32;
    if u < 16 {
        seq![hex_v(u)]
    } else {
        seq![hex_v(u / 16), hex_v(u % 16)]
    }
}

/// How a character of an identifier is shown.
pub open spec fn shown_v(c: char) -> Seq<char> {
    if c == '\\' {
        seq!['\\', '\\']
    } else if c == '\t' {
        seq!['\\', 't']
    } else if c == '\r' {
        seq!['\\', 'r']
    } else if c == '\n' {
        seq!['\\', 'n']
    } else if text::is_ctl(c) {
        seq!['\\', 'u', '{'] + code_v(c) + seq!['}']
    } else {
        seq![c]
    }
}

/// An identifier with its backslashes and control characters escaped.
pub open spec fn sanitize_id_v(s: Seq<char>) -> Seq<char>
    decreases s.len(),
{
    if s.len() == 0 {
        Seq::empty()
    } else {
        sanitize_id_v(s.drop_last()) + shown_v(s.last())
    }
}

fn hex(d: u32) -> (r: char)
    requires
        d < 16,
    ensures
        r == hex_v(d),
{
    match d {
        0 => '0',
        1 => '1',
        2 => '2',
        3 => '3',
        4 => '4',
        5 => '5',
        6 => '6',
        7 => '7',
        8 => '8',
        9 => '9',
        10 => 'a',
        11 => 'b',
        12 => 'c',
        13 => 'd',
        14 => 'e',
        _ => 'f',
    }
}

fn push_shown(out: &mut String, c: char)
    ensures
        final(out)@ == old(out)@ + shown_v(c),
{
    let ghost before = out@;
    if c == '\\' {
        out.push('\\');
        out.push('\\');
    } else if c == '\t' {
        out.push('\\');
        out.push('t');
    } else if c == '\r' {
        out.push('\\');
        out.push('r');
    } else if c == '\n' {
        out.push('\\');
        out.push('n');
    } else if text::control(c) {
        let u: u32 = c as u32;
        out.push('\\');
        out.push('u');
        out.push('{');
        if u < 16 {
            out.push(hex(u));
        } else {
            out.push(hex(u / 16));
            out.push(hex(u % 16));
        }
        out.push('}');
    } else {
        out.push(c);
    }
    assert(out@ =~= before + shown_v(c));
}

/// Shows an identifier without loss, its control characters escaped.
pub fn sanitize_id(value: &str) -> (r: String)
    ensures
        r@ == sanitize_id_v(value@),
{
    let v = text::chars_of(value);
    let mut out = String::new();
    let mut i: usize = 0;
    while i < v.len()
        invariant
            i <= v@.len(),
            out@ == sanitize_id_v(v@.take(i as int)),
        decreases v@.len() - i,
    {
        assert(v@.take(i + 1).drop_last() =~= v@.take(i as int));
        push_shown(&mut out, v[i]);
        i += 1;
    }
    assert(v@.take(i as int) =~= v@);
    out
}

/// How many characters a shown text has at most.
pub const SHOWN_CHARS: usize = 256;

pub open spec fn blanked_v(c: char) -> char {
    if text::is_ctl(c) {
        ' '
    } else {
        c
    }
}

pub open spec fn min_v(a: int, b: int) -> int {
    if a < b {
        a
    } else {
        b
    }
}

/// The first characters of a text, blanks for control characters, and no white
/// space at the ends.
pub open spec fn head_v(s: Seq<char>) -> Seq<char> {
    text::trim_v(
        s.take(min_v(s.len() as int, SHOWN_CHARS as int)).map_values(|c: char| blanked_v(c)),
    )
}

/// A text made fit to be shown: its head, with an ellipsis where it was cut.
pub open spec fn sanitize_v(s: Seq<char>) -> Seq<char> {
    let head = head_v(s);
    if s.len() <= SHOWN_CHARS || head.len() == 0 {
        head
    } else if head.len() >= SHOWN_CHARS {
        head.take(SHOWN_CHARS - 1).push('…')
    } else if head.last() == '…' {
        head
    } else if head.len() >= SHOWN_CHARS - 1 {
        head.drop_last().push('…')
    } else {
        head.push('…')
    }
}

/// Makes a text fit to be shown.
pub fn sanitize(value: &str) -> (r: String)
    ensures
        r@ == sanitize_v(value@),
{
    let v = text::chars_of(value);
    let n: usize = if v.len() < SHOWN_CHARS {
        v.len()
    } else {
        SHOWN_CHARS
    };
    let ghost wanted = v@.take(n as int).map_values(|c: char| blanked_v(c));
    let mut head: Vec<char> = Vec::new();
    let mut i: usize = 0;
    while i < n
        invariant
            i <= n <= v@.len(),
            wanted == v@.take(n as int).map_values(|c: char| blanked_v(c)),
            head@ == wanted.take(i as int),
        decreases n - i,
    {
        head.push(
            if text::control(v[i]) {
                ' '
            } else {
                v[i]
            },
        );
        assert(wanted.take(i + 1) =~= wanted.take(i as int).push(wanted[i as int]));
        i += 1;
    }
    assert(wanted.take(i as int) =~= wanted);
    let whole = text::string_all(&head);
    let out = text::trim(&whole);
    let mut t = text::chars_of(&out);
    if v.len() <= SHOWN_CHARS || t.len() == 0 {
        return out;
    }
    let k: usize = t.len();
    if k >= SHOWN_CHARS {
        t.truncate(SHOWN_CHARS - 1);
        assert(t@ =~= head_v(value@).take(SHOWN_CHARS - 1));
    } else if t[k - 1] == '…' {
        return out;
    } else if k >= SHOWN_CHARS - 1 {
        t.pop();
    }
    t.push('…');
    text::string_all(&t)
}

} // verus!
