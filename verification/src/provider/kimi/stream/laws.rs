//! What holds of every translated stream.

use vstd::prelude::*;

use crate::json::JsonV;
use crate::provider::kimi::stream::model;
use crate::provider::kimi::stream::model::{
    CoreV, StepV, StreamV, MAX_FRAME_BYTES, MAX_STREAM_BYTES,
};
use crate::sse;

verus! {

/// What has ended brings nothing more.
proof fn ended_frames(c: CoreV, frame: Seq<u8>)
    requires
        c.terminal,
    ensures
        model::frame_v(c, frame) == (StepV { core: c, out: Seq::empty() }),
{
    reveal(model::frame_v);
}

/// Frames after the end are passed over.
proof fn ended_drain(c: CoreV, buffer: Seq<u8>)
    requires
        c.terminal,
    ensures
        model::drain_v(c, buffer).0 == c,
        model::drain_v(c, buffer).2 == Seq::<u8>::empty(),
    decreases buffer.len(),
{
    sse::boundary_within(buffer, 0);
    if let Some((p, n)) = sse::boundary_v(buffer, 0) {
        ended_frames(c, buffer.take(p));
        ended_drain(c, buffer.skip(p + n));
        assert(Seq::<u8>::empty() + Seq::<u8>::empty() =~= Seq::<u8>::empty());
    }
}

proof fn drain_append(c: CoreV, p: Seq<u8>, more: Seq<u8>)
    ensures
        ({
            let (d, rest, out) = model::drain_v(c, p);
            let (e, rest2, out2) = model::drain_v(d, rest + more);
            model::drain_v(c, p + more) == (e, rest2, out + out2)
        }),
    decreases p.len(),
{
    sse::boundary_within(p, 0);
    match sse::boundary_v(p, 0) {
        Some((q, n)) => {
            sse::laws::boundary_kept(p, more);
            assert((p + more).take(q) =~= p.take(q));
            assert((p + more).skip(q + n) =~= p.skip(q + n) + more);
            let first = model::frame_v(c, p.take(q));
            drain_append(first.core, p.skip(q + n), more);
            let (d, rest, out) = model::drain_v(first.core, p.skip(q + n));
            let (e, rest2, out2) = model::drain_v(d, rest + more);
            assert(first.out + (out + out2) =~= (first.out + out) + out2);
        },
        None => {
            let (e, rest2, out2) = model::drain_v(c, p + more);
            assert(Seq::<u8>::empty() + out2 =~= out2);
        },
    }
}

/// Where the network cuts a stream into chunks makes no difference, within the
/// limits of a stream and of a frame: one chunk puts out what its two parts put
/// out, and leaves the response where they leave it.
pub proof fn chunks_do_not_matter(s: StreamV, first: Seq<u8>, second: Seq<u8>)
    requires
        s.received + first.len() + second.len() <= MAX_STREAM_BYTES,
        model::drain_v(s.core, s.pending + first).1.len() <= MAX_FRAME_BYTES,
        model::drain_v(s.core, s.pending + first + second).1.len() <= MAX_FRAME_BYTES,
    ensures
        ({
            let (t, out) = model::push_v(s, first);
            let (u, more) = model::push_v(t, second);
            let (w, whole) = model::push_v(s, first + second);
            &&& whole == out + more
            &&& w.core == u.core
            &&& !w.core.terminal ==> w == u
            &&& model::finish_v(w).1 == model::finish_v(u).1
        }),
{
    let (t, out) = model::push_v(s, first);
    if s.core.terminal {
        assert(Seq::<u8>::empty() + Seq::<u8>::empty() =~= Seq::<u8>::empty());
    } else {
        drain_append(s.core, s.pending + first, second);
        assert(s.pending + (first + second) =~= (s.pending + first) + second);
        let (d, rest, out1) = model::drain_v(s.core, s.pending + first);
        if d.terminal {
            ended_drain(d, rest + second);
            assert(out1 + Seq::<u8>::empty() =~= out1);
        }
    }
}

/// A response is handed over as completed if and only if the stream said that
/// it was finished, was not cut short, and every call in it has arguments that
/// are JSON.
pub proof fn completed_means_whole(s: StepV)
    requires
        !s.core.terminal,
    ensures
        ({
            let t = model::terminal_v(s);
            &&& t.core.terminal
            &&& t.core.terminal_response matches Some(r) && (r.get_text("status"@) == Some(
                "completed"@,
            ) <==> s.core.finish_reason is Some && s.core.finish_reason != Some("length"@)
                && model::all_sound_v(s.core.outputs))
        }),
{
    reveal_strlit("id");
    reveal_strlit("object");
    reveal_strlit("status");
    reveal_strlit("model");
    reveal_strlit("output");
    reveal_strlit("usage");
    reveal_strlit("error");
    reveal_strlit("incomplete_details");
    reveal_strlit("completed");
    reveal_strlit("incomplete");
    reveal_strlit("failed");
    assert("status"@.len() == 6 && "output"@.len() == 6 && "error"@.len() == 5);
    assert("model"@.len() == 5 && "id"@.len() == 2 && "object"@.len() == 6);
    assert("usage"@.len() == 5 && "incomplete_details"@.len() == 18);
    assert("status"@[0] == 's' && "output"@[0] == 'o');
    assert("completed"@.len() == 9 && "incomplete"@.len() == 10 && "failed"@.len() == 6);
}

/// A response that failed has no output and holds the error.
pub proof fn failures_have_no_output(s: StepV, error: JsonV)
    ensures
        ({
            let f = model::fail_v(s, error);
            &&& f.core.terminal
            &&& f.core.terminal_response matches Some(r) && r.get("output"@) == Some(
                JsonV::Arr(Seq::empty()),
            ) && r.get("error"@) == Some(error) && r.get_text("status"@) == Some("failed"@)
        }),
{
    reveal_strlit("id");
    reveal_strlit("object");
    reveal_strlit("status");
    reveal_strlit("model");
    reveal_strlit("output");
    reveal_strlit("error");
    assert("status"@.len() == 6 && "output"@.len() == 6 && "error"@.len() == 5);
    assert("model"@.len() == 5 && "id"@.len() == 2 && "object"@.len() == 6);
    assert("status"@[0] == 's' && "output"@[0] == 'o' && "output"@[1] == 'u');
    assert("error"@[0] == 'e' && "model"@[0] == 'm');
}

/// Once a stream has ended, nothing more is put out.
pub proof fn ended_streams_are_silent(s: StreamV, chunk: Seq<u8>)
    requires
        s.core.terminal,
    ensures
        model::push_v(s, chunk) == (s, Seq::<u8>::empty()),
        model::finish_v(s) == (s, Seq::<u8>::empty()),
{
}

/// Every stream that is finished has ended, and with a response.
pub proof fn finished_streams_have_ended(s: StreamV)
    requires
        s.core.terminal ==> s.core.terminal_response is Some,
    ensures
        model::finish_v(s).0.core.terminal,
        model::finish_v(s).0.core.terminal_response is Some,
{
}

/// Each event has a number of its own: one more than that of the event before.
pub proof fn events_are_numbered(s: StepV, kind: Seq<char>, fields: JsonV)
    requires
        s.core.sequence < u64::MAX,
    ensures
        model::emit_v(s, kind, fields).core.sequence == s.core.sequence + 1,
{
}

/// The text of the answer is that of its pieces in a row.
pub proof fn pieces_add_up(s: StepV, delta: Seq<char>)
    requires
        model::core_ok(s.core),
    ensures
        ({
            let t = model::text_delta_v(s, delta).core;
            let before = match s.core.message_index {
                Some(i) => s.core.outputs[i]->Message_text,
                None => Seq::empty(),
            };
            &&& t.message_index is Some
            &&& t.outputs[t.message_index->0] is Message
            &&& t.outputs[t.message_index->0]->Message_text == before + delta
        }),
{
}

} // verus!
