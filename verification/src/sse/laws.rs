//! What holds of every repaired stream.

use vstd::prelude::*;

use crate::json::JsonV;
use crate::proxy::CompatMode;
use crate::sse;
use crate::sse::model;
use crate::sse::model::{AsmV, Kind, NormV, OutV};
use crate::sse::recovery;
use crate::sse::recovery::CallV;
use crate::sse::StreamV;

verus! {

/// More bytes do not move a boundary that is there.
pub proof fn boundary_kept(p: Seq<u8>, more: Seq<u8>)
    requires
        sse::boundary_v(p, 0) is Some,
    ensures
        sse::boundary_v(p + more, 0) == sse::boundary_v(p, 0),
{
    sse::boundary_within(p, 0);
    sse::boundary_within(p + more, 0);
    let (q, n) = sse::boundary_v(p, 0)->0;
    let b = p + more;
    assert(b.subrange(q, q + n) =~= p.subrange(q, q + n));
    assert(sse::separator_v(b, q) == n) by {
        assert(b.subrange(q, q + 2) =~= p.subrange(q, q + 2));
    }
    assert forall|k: int| 0 <= k < q implies sse::separator_v(b, k) == 0 by {
        assert(sse::separator_v(p, k) == 0);
        assert(b.subrange(k, k + 2) =~= p.subrange(k, k + 2));
        if k + 4 <= p.len() {
            assert(b.subrange(k, k + 4) =~= p.subrange(k, k + 4));
        } else {
            assert(n == 2 && q == p.len() - 2);
            assert(p.subrange(q, q + 2)[1] == p[p.len() - 1]);
            if k + 4 <= b.len() {
                assert(b.subrange(k, k + 4)[2] == p[p.len() - 1]);
            }
        }
    }
    let (q2, n2) = sse::boundary_v(b, 0)->0;
    assert(q2 == q);
}

proof fn drain_append(a: AsmV, p: Seq<u8>, more: Seq<u8>, now: u64)
    ensures
        ({
            let (b, rest, out) = sse::drain_v(a, p, now);
            let (c, rest2, out2) = sse::drain_v(b, rest + more, now);
            sse::drain_v(a, p + more, now) == (c, rest2, out + out2)
        }),
    decreases p.len(),
{
    sse::boundary_within(p, 0);
    match sse::boundary_v(p, 0) {
        Some((q, n)) => {
            boundary_kept(p, more);
            assert((p + more).take(q + n) =~= p.take(q + n));
            assert((p + more).skip(q + n) =~= p.skip(q + n) + more);
            let (b, first) = sse::process_v(a, p.take(q + n), now);
            drain_append(b, p.skip(q + n), more, now);
            let (c, rest, out) = sse::drain_v(b, p.skip(q + n), now);
            let (d, rest2, out2) = sse::drain_v(c, rest + more, now);
            assert(first + (out + out2) =~= (first + out) + out2);
        },
        None => {
            let (c, rest2, out2) = sse::drain_v(a, p + more, now);
            assert(Seq::<u8>::empty() + out2 =~= out2);
        },
    }
}

/// Where the network cuts a stream into chunks makes no difference: one chunk
/// has the effect of its two parts.
pub proof fn chunks_do_not_matter(s: StreamV, first: Seq<u8>, second: Seq<u8>, now: u64)
    ensures
        ({
            let (t, out) = sse::push_v(s, first, now);
            let (u, more) = sse::push_v(t, second, now);
            sse::push_v(s, first + second, now) == (u, out + more)
        }),
{
    drain_append(s.assembler, s.pending + first, second, now);
    assert(s.pending + (first + second) =~= (s.pending + first) + second);
}

/// The stream after a list of chunks, and all that was put out.
pub open spec fn push_all_v(s: StreamV, chunks: Seq<Seq<u8>>, now: u64) -> (StreamV, Seq<u8>)
    decreases chunks.len(),
{
    if chunks.len() == 0 {
        (s, Seq::empty())
    } else {
        let (t, out) = push_all_v(s, chunks.drop_last(), now);
        let (u, more) = sse::push_v(t, chunks.last(), now);
        (u, out + more)
    }
}

/// The chunks in a row.
pub open spec fn concat_v(chunks: Seq<Seq<u8>>) -> Seq<u8>
    decreases chunks.len(),
{
    if chunks.len() == 0 {
        Seq::empty()
    } else {
        concat_v(chunks.drop_last()) + chunks.last()
    }
}

/// However a stream is cut into chunks, its repair is that of the whole.
pub proof fn any_chunking_is_the_whole(
    chunks: Seq<Seq<u8>>,
    mode: CompatMode,
    name: Seq<char>,
    request_id: Seq<char>,
    now: u64,
)
    ensures
        ({
            let (s, out) = push_all_v(sse::fresh_v(mode, name, request_id), chunks, now);
            out + sse::finish_v(s, now).1 == sse::normalize_sse_v(
                concat_v(chunks),
                mode,
                name,
                request_id,
                now,
            )
        }),
{
    let fresh = sse::fresh_v(mode, name, request_id);
    push_all_is_push(fresh, chunks, now);
}

proof fn push_all_is_push(s: StreamV, chunks: Seq<Seq<u8>>, now: u64)
    requires
        s.pending.len() == 0,
    ensures
        push_all_v(s, chunks, now) == sse::push_v(s, concat_v(chunks), now),
    decreases chunks.len(),
{
    if chunks.len() == 0 {
        assert(s.pending + Seq::<u8>::empty() =~= Seq::<u8>::empty());
        assert(s.pending =~= Seq::<u8>::empty());
    } else {
        push_all_is_push(s, chunks.drop_last(), now);
        chunks_do_not_matter(s, concat_v(chunks.drop_last()), chunks.last(), now);
    }
}

/// The list of outputs of a response is whole: it is not empty, and a client can
/// act on each of its items.
pub open spec fn whole_v(response: Option<JsonV>) -> bool {
    match response {
        Some(r) => match r.get_list("output"@) {
            Some(items) => items.len() > 0 && model::all_valid_v(items),
            None => false,
        },
        None => false,
    }
}

proof fn filled_is_whole(a: AsmV, response: JsonV)
    requires
        response.is_obj(),
    ensures
        model::fill_v(a, response) matches Ok(r) ==> whole_v(Some(r)),
{
}

proof fn response_is_object(
    response: JsonV,
    id: Seq<char>,
    name: Seq<char>,
    status: Seq<char>,
    now: u64,
)
    ensures
        model::response_v(response, id, name, status, now).is_obj(),
{
}

proof fn steps_keep_objects(a: AsmV, ev: JsonV, typ: Seq<char>, now: u64)
    requires
        ev.is_obj(),
    ensures
        model::envelope_v(a, ev, typ).1.is_obj(),
        model::opening_v(a, ev, model::kind_v(typ), now).1.is_obj(),
        model::outputs_step_v(a, ev, typ).1.is_obj(),
{
}

/// The repair fails closed: an event that completes a response is let through
/// only with a whole list of outputs.
pub proof fn completed_is_whole(a: AsmV, ev: JsonV, name: Seq<char>, now: u64)
    requires
        model::type_v(ev, name) == "response.completed"@,
    ensures
        model::normalize_v(a, ev, name, now).1 matches NormV::Emit(out) ==> whole_v(
            out.get("response"@),
        ),
{
    let typ = "response.completed"@;
    response_completed_kind();
    if ev.is_obj() {
        let (b, ev1) = model::envelope_v(a, ev, typ);
        let (c, ev2) = model::opening_v(b, ev1, Kind::Completed, now);
        let (d, ev3) = model::outputs_step_v(c, ev2, typ);
        steps_keep_objects(a, ev, typ, now);
        steps_keep_objects(b, ev1, typ, now);
        steps_keep_objects(c, ev2, typ, now);
        if let Some(r) = ev3.get("response"@) {
            let full = model::response_v(r, d.response_id, d.model, "completed"@, now);
            response_is_object(r, d.response_id, d.model, "completed"@, now);
            filled_is_whole(AsmV { terminal: true, ..d }, full);
        }
    }
}

proof fn response_completed_kind()
    ensures
        model::kind_v("response.completed"@) == Kind::Completed,
        !model::is_aside_v("response.completed"@),
        crate::text::starts_v("response.completed"@, "response."@),
{
    reveal_strlit("response.completed");
    reveal_strlit("response.metadata");
    reveal_strlit("keepalive");
    reveal_strlit("response.");
    reveal_strlit("response.created");
    reveal_strlit("response.in_progress");
    reveal_strlit("response.queued");
    reveal_strlit("response.output_item.added");
    reveal_strlit("response.output_item.done");
    reveal_strlit("response.output_text.delta");
    reveal_strlit("response.output_text.done");
    reveal_strlit("response.refusal.delta");
    reveal_strlit("response.refusal.done");
    reveal_strlit("response.function_call_arguments.delta");
    reveal_strlit("response.function_call_arguments.done");
    reveal_strlit("response.custom_tool_call_input.delta");
    reveal_strlit("response.custom_tool_call_input.done");
    let s = "response.completed"@;
    assert(s[10] == 'o' && s[9] == 'c' && s.len() == 18);
    assert("response.created"@[10] == 'r');
    assert("response.in_progress"@[9] == 'i');
    assert("response.queued"@[9] == 'q');
    assert("response.metadata"@[9] == 'm');
    assert("keepalive"@.len() == 9);
    assert(s.take(9) =~= "response."@);
}

/// What is made up at the end of a stream fails closed too: it either completes
/// the response with a whole list of outputs, or reports an error.
pub proof fn synthetic_is_whole(a: AsmV, now: u64)
    ensures
        match model::synthetic_v(a, now).1 {
            Some(ev) => {
                ||| ev.get_text("type"@) == Some("response.completed"@) && whole_v(
                    ev.get("response"@),
                )
                ||| ev.get_text("type"@) == Some("error"@)
            },
            None => a.terminal,
        },
{
    reveal_strlit("type");
    reveal_strlit("sequence_number");
    reveal_strlit("response_id");
    reveal_strlit("response");
    reveal_strlit("error");
    let base = match a.snapshot {
        Some(r) => r,
        None => crate::json::empty_v(),
    };
    response_is_object(base, a.response_id, a.model, "completed"@, now);
    filled_is_whole(
        AsmV { terminal: true, ..a },
        model::response_v(base, a.response_id, a.model, "completed"@, now),
    );
    assert("type"@.len() == 4 && "error"@.len() == 5 && "response"@.len() == 8
        && "response_id"@.len() == 11 && "sequence_number"@.len() == 15);
}

/// A stream that has ended stays so, and nothing is made up for it: what failed
/// is not turned into a success.
pub proof fn ended_stays_ended(a: AsmV, ev: JsonV, name: Seq<char>, now: u64)
    requires
        a.terminal,
    ensures
        model::normalize_v(a, ev, name, now).0.terminal,
        model::synthetic_v(a, now) == (a, None::<JsonV>),
{
}

/// An incomplete, failed or error event ends the stream.
pub proof fn failure_ends_the_stream(a: AsmV, ev: JsonV, name: Seq<char>, now: u64)
    requires
        ({
            let kind = model::kind_v(model::type_v(ev, name));
            kind == Kind::Incomplete || kind == Kind::Failed || kind == Kind::Error
        }),
    ensures
        match model::normalize_v(a, ev, name, now) {
            (b, NormV::Fail(kind)) => model::error_v(b, kind).0.terminal,
            (b, NormV::Emit(_)) => b.terminal,
            (b, NormV::Drop) => false,
        },
{
    reveal_strlit("response.incomplete");
    reveal_strlit("response.failed");
    reveal_strlit("error");
    reveal_strlit("response.metadata");
    reveal_strlit("response.");
    assert("response.incomplete"@.take(9) =~= "response."@);
    assert("response.failed"@.take(9) =~= "response."@);
    assert("response.metadata"@[9] == 'm');
    assert("response.incomplete"@[9] == 'i');
    assert("response.failed"@[9] == 'f');
    reveal_strlit("keepalive");
    assert("error"@.len() == 5 && "response.metadata"@.len() == 17 && "keepalive"@.len() == 9);
    assert("response.incomplete"@.len() == 19 && "response.failed"@.len() == 15);
}

/// Text deltas add up: two of them leave their output with the text of both.
pub proof fn text_deltas_add_up(x: OutV, first: JsonV, second: JsonV, mode: CompatMode)
    requires
        first.get_text("delta"@) is Some,
        second.get_text("delta"@) is Some,
    ensures
        model::delta_state_v(
            model::delta_state_v(x, first, Kind::TextDelta, mode),
            second,
            Kind::TextDelta,
            mode,
        ).text == x.text + first.get_text("delta"@)->0 + second.get_text("delta"@)->0,
{
}

/// Over any run of events, errors and ends the numbers that are filled in
/// increase: an event of the response that comes without a number is put out
/// with one above every number that an event of the response came with, or that
/// was put out, before it, as long as the count lasts.
pub proof fn numbers_increase(
    a: AsmV,
    calls: Seq<CallV>,
    ev: JsonV,
    name: Seq<char>,
    now: u64,
)
    requires
        recovery::lasts_v(a, calls),
        recovery::belongs_v(ev, name),
        ev.get_uint("sequence_number"@) is None,
    ensures
        model::normalize_v(recovery::reached_v(a, calls), ev, name, now).1 matches NormV::Emit(out)
            ==> {
            &&& out.get_uint("sequence_number"@) matches Some(n)
            &&& forall|i: int|
                0 <= i < calls.len() && recovery::counted_v(#[trigger] calls[i]) ==> {
                    &&& recovery::received_v(calls[i]) matches Some(m) ==> m < n
                    &&& recovery::put_out_v(
                        recovery::reached_v(a, calls.take(i)),
                        calls[i],
                    ) matches Some(m) ==> m < n
                }
        },
{
    let b = recovery::reached_v(a, calls);
    assert(calls.take(calls.len() as int) =~= calls);
    recovery::filled_numbers_are_next(b, ev, name, now);
    assert forall|i: int| 0 <= i < calls.len() && recovery::counted_v(#[trigger] calls[i]) implies {
        &&& recovery::received_v(calls[i]) matches Some(m) ==> m <= b.seq
        &&& recovery::put_out_v(recovery::reached_v(a, calls.take(i)), calls[i]) matches Some(m)
            ==> m <= b.seq
    } by {
        recovery::counts_bound_numbers(a, calls, i);
    }
}

} // verus!
