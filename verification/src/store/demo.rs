//! Sample turns for a monitor without a proxy.

use vstd::prelude::*;

use crate::events;
use crate::events::{
    DiagnosticsV, EventV, FailureKind, RequestDiagnostics, RequestEvent, RequestEventKind,
    RequestPhase, TokenUsage,
};
use crate::store::model;
use crate::store::model::{Moment, StoreV};
use crate::store::Dashboard;

verus! {

/// The point in time some seconds before `now`.
pub open spec fn ago_v(now: Moment, seconds: u64) -> u64 {
    events::less_v(now.tick, (seconds * 1_000_000_000) as u64)
}

fn ago(now: Moment, seconds: u64) -> (r: u64)
    requires
        seconds <= 60,
    ensures
        r == ago_v(now, seconds),
{
    now.tick.saturating_sub(seconds * 1_000_000_000)
}

/// An event of the finished sample turn.
pub open spec fn codex_v(now: Moment, phase: RequestPhase) -> EventV {
    EventV {
        provider: "codex"@,
        phase,
        ..events::started_v(
            "demo-req-1"@,
            "demo-sess-a"@,
            "codex-sol"@,
            "gpt-5.6-sol"@,
            true,
            true,
            false,
            ago_v(now, 12),
        )
    }
}

/// An event of the sample turns of the second session.
pub open spec fn kimi_v(now: Moment, id: Seq<char>, seconds: u64) -> EventV {
    EventV {
        provider: "kimi"@,
        ..events::started_v(
            id,
            "demo-sess-b"@,
            "kimi-k3"@,
            "k3"@,
            true,
            false,
            false,
            ago_v(now, seconds),
        )
    }
}

pub open spec fn codex_start_v(now: Moment) -> EventV {
    EventV {
        diagnostics: DiagnosticsV {
            request_body_bytes: 4096,
            input_item_count: 12,
            request_fingerprint: "demo-fp-a"@,
            ..events::no_diagnostics_v()
        },
        ..codex_v(now, RequestPhase::Preparing)
    }
}

pub open spec fn codex_headers_v(now: Moment) -> EventV {
    EventV {
        kind: RequestEventKind::Updated,
        diagnostics: DiagnosticsV {
            credential_ms: 40,
            upstream_headers_ms: 120,
            ..events::no_diagnostics_v()
        },
        ..codex_v(now, RequestPhase::Upstream)
    }
}

pub open spec fn codex_progress_v(now: Moment) -> EventV {
    EventV {
        kind: RequestEventKind::Updated,
        output_tokens: 80,
        streamed_bytes: 2400,
        stream_chunks: 12,
        mark_generation_start: true,
        diagnostics: DiagnosticsV { first_chunk_ms: 350, ..events::no_diagnostics_v() },
        ..codex_v(now, RequestPhase::Streaming)
    }
}

pub open spec fn codex_done_v(now: Moment) -> EventV {
    EventV {
        kind: RequestEventKind::Completed,
        status_code: 200,
        duration_ms: 4000,
        output_tokens: 120,
        output_count: 2,
        streamed_bytes: 3600,
        stream_chunks: 18,
        usage: Some(
            TokenUsage {
                input_tokens: 2000,
                cached_input_tokens: 1500,
                cache_write_tokens: 100,
                output_tokens: 120,
            },
        ),
        diagnostics: DiagnosticsV {
            request_body_bytes: 4096,
            input_item_count: 12,
            proxy_prepare_ms: 5,
            credential_ms: 40,
            upstream_headers_ms: 120,
            first_chunk_ms: 350,
            request_fingerprint: "demo-fp-a"@,
        },
        ..codex_v(now, RequestPhase::Streaming)
    }
}

pub open spec fn kimi_live_v(now: Moment) -> EventV {
    EventV {
        phase: RequestPhase::Streaming,
        streamed_bytes: 900,
        stream_chunks: 4,
        output_tokens: 30,
        mark_generation_start: true,
        ..kimi_v(now, "demo-req-live"@, 3)
    }
}

pub open spec fn kimi_failed_v(now: Moment) -> EventV {
    EventV {
        kind: RequestEventKind::Failed,
        status_code: 502,
        duration_ms: 500,
        failure_kind: Some(FailureKind::UpstreamHttp),
        error_type: "upstream_http"@,
        error: "demo upstream failure"@,
        ..kimi_v(now, "demo-req-fail"@, 8)
    }
}

/// The store after the sample turns of the first session.
pub open spec fn first_v(s: StoreV, now: Moment) -> StoreV {
    let s = model::apply_v(s, codex_start_v(now), now);
    let s = model::context_v(
        s,
        "demo-sess-a"@,
        "demo: inspect this session"@,
        "/tmp/demo-project"@,
        now.wall,
    );
    let s = model::apply_v(s, codex_headers_v(now), now);
    let s = model::apply_v(s, codex_progress_v(now), now);
    model::apply_v(s, codex_done_v(now), now)
}

/// The store after all the sample turns.
pub open spec fn demo_v(s: StoreV, now: Moment) -> StoreV {
    let s = first_v(s, now);
    let s = model::apply_v(s, kimi_live_v(now), now);
    let s = model::context_v(
        s,
        "demo-sess-b"@,
        "demo: kimi live stream"@,
        "/tmp/kimi"@,
        now.wall,
    );
    let s = model::apply_v(s, kimi_v(now, "demo-req-fail"@, 8), now);
    model::apply_v(s, kimi_failed_v(now), now)
}

fn codex(now: Moment, phase: RequestPhase) -> (r: RequestEvent)
    ensures
        r@ == codex_v(now, phase),
{
    RequestEvent::started(
        "demo-req-1",
        "demo-sess-a",
        "codex-sol",
        "gpt-5.6-sol",
        true,
        true,
        false,
        ago(now, 12),
    ).with_provider("codex").with_phase(phase)
}

fn kimi(now: Moment, id: &str, seconds: u64) -> (r: RequestEvent)
    requires
        seconds <= 60,
    ensures
        r@ == kimi_v(now, id@, seconds),
{
    RequestEvent::started(
        id,
        "demo-sess-b",
        "kimi-k3",
        "k3",
        true,
        false,
        false,
        ago(now, seconds),
    ).with_provider("kimi")
}

impl Dashboard {
    fn seed_first(&mut self, now: Moment)
        ensures
            final(self)@ == first_v(old(self)@, now),
    {
        let mut start = codex(now, RequestPhase::Preparing);
        start.diagnostics.request_body_bytes = 4096;
        start.diagnostics.input_item_count = 12;
        start.diagnostics.request_fingerprint = "demo-fp-a".to_owned();
        assert(start@ =~= codex_start_v(now));
        self.apply(&start, now);
        self.apply_session_context(
            "demo-sess-a",
            "demo: inspect this session",
            "/tmp/demo-project",
            now,
        );
        let mut phase = codex(now, RequestPhase::Upstream).as_updated();
        phase.diagnostics.credential_ms = 40;
        phase.diagnostics.upstream_headers_ms = 120;
        assert(phase@ =~= codex_headers_v(now));
        self.apply(&phase, now);
        let mut progress = codex(now, RequestPhase::Streaming).as_updated();
        progress.output_tokens = 80;
        progress.streamed_bytes = 2400;
        progress.stream_chunks = 12;
        progress.mark_generation_start = true;
        progress.diagnostics.first_chunk_ms = 350;
        assert(progress@ =~= codex_progress_v(now));
        self.apply(&progress, now);
        let mut done = codex(now, RequestPhase::Streaming);
        done.kind = RequestEventKind::Completed;
        done.status_code = 200;
        done.duration_ms = 4000;
        done.output_tokens = 120;
        done.output_count = 2;
        done.streamed_bytes = 3600;
        done.stream_chunks = 18;
        done.usage =
        Some(
            TokenUsage {
                input_tokens: 2000,
                cached_input_tokens: 1500,
                cache_write_tokens: 100,
                output_tokens: 120,
            },
        );
        done.diagnostics =
        RequestDiagnostics {
            request_body_bytes: 4096,
            input_item_count: 12,
            proxy_prepare_ms: 5,
            credential_ms: 40,
            upstream_headers_ms: 120,
            first_chunk_ms: 350,
            request_fingerprint: "demo-fp-a".to_owned(),
        };
        assert(done@ =~= codex_done_v(now));
        self.apply(&done, now);
    }

    /// Fills the store with sample turns: a finished one in one session, a running
    /// and a failed one in another.
    pub fn seed_demo_fixture(&mut self, now: Moment)
        ensures
            final(self)@ == demo_v(old(self)@, now),
    {
        self.seed_first(now);
        let mut live = kimi(now, "demo-req-live", 3).with_phase(RequestPhase::Streaming);
        live.streamed_bytes = 900;
        live.stream_chunks = 4;
        live.output_tokens = 30;
        live.mark_generation_start = true;
        assert(live@ =~= kimi_live_v(now));
        self.apply(&live, now);
        self.apply_session_context("demo-sess-b", "demo: kimi live stream", "/tmp/kimi", now);
        let start = kimi(now, "demo-req-fail", 8);
        self.apply(&start, now);
        let mut fail = kimi(now, "demo-req-fail", 8);
        fail.kind = RequestEventKind::Failed;
        fail.status_code = 502;
        fail.duration_ms = 500;
        fail.failure_kind = Some(FailureKind::UpstreamHttp);
        fail.error_type = "upstream_http".to_owned();
        fail.error = "demo upstream failure".to_owned();
        assert(fail@ =~= kimi_failed_v(now));
        self.apply(&fail, now);
    }
}

} // verus!
