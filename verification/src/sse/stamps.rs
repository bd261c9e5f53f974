//! What the clock changes of a repaired stream: `created_at` alone.

use vstd::prelude::*;

use crate::json;
use crate::json::JsonV;
use crate::proxy::CompatMode;
use crate::sse;
use crate::sse::laws;
use crate::sse::model;
use crate::sse::model::{AsmV, Kind, NormV};
use crate::sse::StreamV;
use crate::text;

verus! {

/// A piece of what is put out: bytes that pass as they are, or an event.
#[verifier::ext_equal]
pub enum PieceV {
    Bytes(Seq<u8>),
    Event(JsonV),
}

pub open spec fn piece_bytes_v(p: PieceV) -> Seq<u8> {
    match p {
        PieceV::Bytes(b) => b,
        PieceV::Event(ev) => sse::bytes_v(model::frame_v(ev)),
    }
}

/// The bytes of pieces in a row.
pub open spec fn flat_v(pieces: Seq<PieceV>) -> Seq<u8>
    decreases pieces.len(),
{
    if pieces.len() == 0 {
        Seq::empty()
    } else {
        flat_v(pieces.drop_last()) + piece_bytes_v(pieces.last())
    }
}

pub open spec fn terminal_pieces_v(ev: Option<JsonV>) -> Seq<PieceV> {
    match ev {
        Some(ev) => seq![PieceV::Event(ev)],
        None => Seq::empty(),
    }
}

/// The pieces that take the place of a frame, and the assembler after it.
#[verifier::opaque]
pub open spec fn process_pieces_v(a: AsmV, frame: Seq<u8>, now: u64) -> (AsmV, Seq<PieceV>) {
    let lines = text::lines_v(text::unix_v(text::utf8_lossy(frame)));
    let name = sse::frame_name_v(lines);
    let data = text::join_v(sse::frame_data_v(lines), "\n"@);
    if name is Some && model::is_aside_v(name->0) {
        (a, Seq::empty())
    } else if sse::frame_data_v(lines).len() == 0 {
        (a, seq![PieceV::Bytes(frame)])
    } else if data == "[DONE]"@ {
        let (b, ev) = model::synthetic_v(a, now);
        (b, terminal_pieces_v(ev).push(PieceV::Bytes(sse::bytes_v("data: [DONE]\n\n"@))))
    } else {
        match json::parsed(data) {
            None => (a, seq![PieceV::Bytes(frame)]),
            Some(ev) => match model::normalize_v(a, ev, model::text_or_v(name, ""@), now) {
                (b, NormV::Emit(ev)) => (b, seq![PieceV::Event(ev)]),
                (b, NormV::Drop) => (b, Seq::empty()),
                (b, NormV::Fail(kind)) => {
                    let (c, ev) = model::error_v(b, kind);
                    (c, seq![PieceV::Event(ev)])
                },
            },
        }
    }
}

/// The pieces that take the place of the whole frames of a buffer.
pub open spec fn drain_pieces_v(a: AsmV, buffer: Seq<u8>, now: u64) -> (
    AsmV,
    Seq<u8>,
    Seq<PieceV>,
)
    decreases buffer.len(),
{
    match sse::boundary_v(buffer, 0) {
        Some((p, n)) => {
            if 0 <= p && n > 0 && p + n <= buffer.len() {
                let (b, first) = process_pieces_v(a, buffer.take(p + n), now);
                let (c, rest, more) = drain_pieces_v(b, buffer.skip(p + n), now);
                (c, rest, first + more)
            } else {
                (a, buffer, Seq::empty())
            }
        },
        None => (a, buffer, Seq::empty()),
    }
}

pub open spec fn push_pieces_v(s: StreamV, chunk: Seq<u8>, now: u64) -> (StreamV, Seq<PieceV>) {
    let (assembler, pending, out) = drain_pieces_v(s.assembler, s.pending + chunk, now);
    (StreamV { assembler, pending }, out)
}

pub open spec fn finish_pieces_v(s: StreamV, now: u64) -> (StreamV, Seq<PieceV>) {
    let (a, first) = if s.pending.len() == 0 {
        (s.assembler, Seq::empty())
    } else {
        process_pieces_v(s.assembler, s.pending, now)
    };
    let (b, ev) = model::synthetic_v(a, now);
    (StreamV { assembler: b, pending: Seq::empty() }, first + terminal_pieces_v(ev))
}

/// The stream after chunks that came at the given times, and all the pieces.
pub open spec fn timed_pieces_v(s: StreamV, chunks: Seq<Seq<u8>>, times: Seq<u64>) -> (
    StreamV,
    Seq<PieceV>,
)
    decreases chunks.len(),
{
    if chunks.len() == 0 {
        (s, Seq::empty())
    } else {
        let (t, out) = timed_pieces_v(s, chunks.drop_last(), times);
        let (u, more) = push_pieces_v(t, chunks.last(), times[chunks.len() - 1]);
        (u, out + more)
    }
}

/// The stream after chunks that came at the given times, and all that was put
/// out.
pub open spec fn timed_v(s: StreamV, chunks: Seq<Seq<u8>>, times: Seq<u64>) -> (StreamV, Seq<u8>)
    decreases chunks.len(),
{
    if chunks.len() == 0 {
        (s, Seq::empty())
    } else {
        let (t, out) = timed_v(s, chunks.drop_last(), times);
        let (u, more) = sse::push_v(t, chunks.last(), times[chunks.len() - 1]);
        (u, out + more)
    }
}

proof fn flat_adds(a: Seq<PieceV>, b: Seq<PieceV>)
    ensures
        flat_v(a + b) == flat_v(a) + flat_v(b),
    decreases b.len(),
{
    if b.len() == 0 {
        assert(a + b =~= a);
        assert(flat_v(a) + flat_v(b) =~= flat_v(a));
    } else {
        flat_adds(a, b.drop_last());
        assert((a + b).drop_last() =~= a + b.drop_last());
        assert((flat_v(a) + flat_v(b.drop_last())) + piece_bytes_v(b.last()) =~= flat_v(a) + (
        flat_v(b.drop_last()) + piece_bytes_v(b.last())));
    }
}

proof fn flat_one(p: PieceV)
    ensures
        flat_v(seq![p]) == piece_bytes_v(p),
{
    let none = Seq::<PieceV>::empty();
    assert(seq![p].drop_last() =~= none);
    assert(flat_v(none) =~= Seq::<u8>::empty());
    assert(flat_v(none) + piece_bytes_v(p) =~= piece_bytes_v(p));
}

proof fn flat_terminal(ev: Option<JsonV>)
    ensures
        flat_v(terminal_pieces_v(ev)) == sse::terminal_bytes_v(ev),
{
    if let Some(ev) = ev {
        flat_one(PieceV::Event(ev));
    }
}

proof fn process_is_flat(a: AsmV, frame: Seq<u8>, now: u64)
    ensures
        sse::process_v(a, frame, now) == (
            process_pieces_v(a, frame, now).0,
            flat_v(process_pieces_v(a, frame, now).1),
        ),
{
    reveal(sse::process_v);
    reveal(process_pieces_v);
    let pieces = process_pieces_v(a, frame, now).1;
    let done = PieceV::Bytes(sse::bytes_v("data: [DONE]\n\n"@));
    let ev = model::synthetic_v(a, now).1;
    flat_terminal(ev);
    flat_one(PieceV::Bytes(frame));
    assert(terminal_pieces_v(ev).push(done).drop_last() =~= terminal_pieces_v(ev));
    if pieces.len() == 1 {
        assert(pieces =~= seq![pieces[0]]);
        flat_one(pieces[0]);
    }
}

proof fn drain_is_flat(a: AsmV, buffer: Seq<u8>, now: u64)
    ensures
        ({
            let (b, rest, pieces) = drain_pieces_v(a, buffer, now);
            sse::drain_v(a, buffer, now) == (b, rest, flat_v(pieces))
        }),
    decreases buffer.len(),
{
    if let Some((p, n)) = sse::boundary_v(buffer, 0) {
        if 0 <= p && n > 0 && p + n <= buffer.len() {
            process_is_flat(a, buffer.take(p + n), now);
            let (b, first) = process_pieces_v(a, buffer.take(p + n), now);
            drain_is_flat(b, buffer.skip(p + n), now);
            flat_adds(first, drain_pieces_v(b, buffer.skip(p + n), now).2);
        }
    }
}

proof fn timed_is_flat(s: StreamV, chunks: Seq<Seq<u8>>, times: Seq<u64>)
    ensures
        timed_v(s, chunks, times) == (
            timed_pieces_v(s, chunks, times).0,
            flat_v(timed_pieces_v(s, chunks, times).1),
        ),
    decreases chunks.len(),
{
    if chunks.len() > 0 {
        timed_is_flat(s, chunks.drop_last(), times);
        let (t, out) = timed_pieces_v(s, chunks.drop_last(), times);
        let now = times[chunks.len() - 1];
        drain_is_flat(t.assembler, t.pending + chunks.last(), now);
        flat_adds(out, push_pieces_v(t, chunks.last(), now).1);
    }
}

proof fn finish_is_flat(s: StreamV, now: u64)
    ensures
        sse::finish_v(s, now) == (finish_pieces_v(s, now).0, flat_v(finish_pieces_v(s, now).1)),
{
    let (a, first) = if s.pending.len() == 0 {
        (s.assembler, Seq::<PieceV>::empty())
    } else {
        process_pieces_v(s.assembler, s.pending, now)
    };
    process_is_flat(s.assembler, s.pending, now);
    let ev = model::synthetic_v(a, now).1;
    flat_terminal(ev);
    flat_adds(first, terminal_pieces_v(ev));
}

/// A response whose `created_at` is a reading of the clock.
pub open spec fn stamped_v(r: JsonV, clock: Set<u64>) -> bool {
    r.get_uint("created_at"@) matches Some(t) && clock.contains(t)
}

/// Two responses that are the same, but for a `created_at` that each has from
/// its clock.
pub open spec fn alike_v(r: JsonV, s: JsonV, c: Set<u64>, d: Set<u64>) -> bool {
    ||| r == s
    ||| stamped_v(r, c) && stamped_v(s, d) && s == r.with("created_at"@, s.get("created_at"@)->0)
}

/// Two events that are the same, but for such a `created_at` of their response.
pub open spec fn alike_events_v(r: JsonV, s: JsonV, c: Set<u64>, d: Set<u64>) -> bool {
    ||| r == s
    ||| {
        &&& r.get("response"@) is Some
        &&& s.get("response"@) is Some
        &&& alike_v(r.get("response"@)->0, s.get("response"@)->0, c, d)
        &&& s == r.with("response"@, s.get("response"@)->0)
    }
}

pub open spec fn alike_pieces_v(p: PieceV, q: PieceV, c: Set<u64>, d: Set<u64>) -> bool {
    match (p, q) {
        (PieceV::Bytes(a), PieceV::Bytes(b)) => a == b,
        (PieceV::Event(a), PieceV::Event(b)) => alike_events_v(a, b, c, d),
        _ => false,
    }
}

/// The same pieces one by one, but for such a `created_at` in them.
pub open spec fn all_alike_v(
    p: Seq<PieceV>,
    q: Seq<PieceV>,
    c: Set<u64>,
    d: Set<u64>,
) -> bool {
    &&& p.len() == q.len()
    &&& forall|i: int| 0 <= i < p.len() ==> alike_pieces_v(#[trigger] p[i], #[trigger] q[i], c, d)
}

/// Two assemblers in the same state, but for the `created_at` of the snapshot.
spec fn alike_states_v(a: AsmV, b: AsmV, c: Set<u64>, d: Set<u64>) -> bool {
    &&& b == AsmV { snapshot: b.snapshot, ..a }
    &&& match (a.snapshot, b.snapshot) {
        (Some(r), Some(s)) => alike_v(r, s, c, d),
        (None, None) => true,
        _ => false,
    }
}

proof fn response_keys_stand_apart()
    ensures
        "created_at"@ != "object"@,
        "created_at"@ != "status"@,
        "created_at"@ != "id"@,
        "created_at"@ != "model"@,
        "created_at"@ != "output"@,
        "created_at"@ != "usage"@,
{
    reveal_strlit("created_at");
    reveal_strlit("object");
    reveal_strlit("status");
    reveal_strlit("id");
    reveal_strlit("model");
    reveal_strlit("output");
    reveal_strlit("usage");
    assert("created_at"@.len() == 10 && "object"@.len() == 6 && "status"@.len() == 6 && "id"@.len()
        == 2 && "model"@.len() == 5 && "output"@.len() == 6 && "usage"@.len() == 5);
}

/// A member besides the time stays a member besides the time.
proof fn with_commutes(r: JsonV, k: Seq<char>, v: JsonV, t: JsonV)
    requires
        r.is_obj(),
        k != "created_at"@,
    ensures
        r.with("created_at"@, t).with(k, v) == r.with(k, v).with("created_at"@, t),
        r.with("created_at"@, t).get(k) == r.get(k),
        r.with(k, v).get("created_at"@) == r.get("created_at"@),
{
    if let JsonV::Obj(m) = r {
        assert(m.insert("created_at"@, t).insert(k, v) =~= m.insert(k, v).insert("created_at"@, t));
    }
}

/// Two alike responses stay so, when each gets the same member.
proof fn with_keeps_alike(r: JsonV, s: JsonV, k: Seq<char>, v: JsonV, c: Set<u64>, d: Set<u64>)
    requires
        r.is_obj(),
        alike_v(r, s, c, d),
        k != "created_at"@,
    ensures
        s.is_obj(),
        alike_v(r.with(k, v), s.with(k, v), c, d),
        r.get(k) == s.get(k),
{
    if r != s {
        let t = s.get("created_at"@)->0;
        with_commutes(r, k, v, t);
        with_commutes(s, k, v, t);
    }
}

/// What stands before the time in a response.
spec fn head_v(response: JsonV, id: Seq<char>, name: Seq<char>, status: Seq<char>) -> JsonV {
    let r = model::object_v(response).with("object"@, JsonV::Str("response"@)).with(
        "status"@,
        JsonV::Str(status),
    );
    let r = if model::blank_text_v(r.get_text("id"@)) {
        r.with("id"@, JsonV::Str(id))
    } else {
        r
    };
    if model::blank_text_v(r.get_text("model"@)) {
        r.with(
            "model"@,
            JsonV::Str(
                if name.len() == 0 {
                    "unknown"@
                } else {
                    name
                },
            ),
        )
    } else {
        r
    }
}

spec fn timed_head_v(r: JsonV, now: u64) -> JsonV {
    if r.get_uint("created_at"@) is Some {
        r
    } else {
        r.with("created_at"@, json::uint_v(now))
    }
}

/// What stands after the time in a response.
spec fn tail_v(r: JsonV) -> JsonV {
    let r = if r.get_list("output"@) is Some {
        r
    } else {
        r.with("output"@, JsonV::Arr(Seq::empty()))
    };
    match r.get("usage"@) {
        Some(u) => r.with("usage"@, model::usage_v(u)),
        None => r,
    }
}

proof fn heads_are_alike(
    r: JsonV,
    s: JsonV,
    id: Seq<char>,
    name: Seq<char>,
    status: Seq<char>,
    c: Set<u64>,
    d: Set<u64>,
)
    requires
        alike_v(r, s, c, d),
    ensures
        head_v(r, id, name, status).is_obj(),
        alike_v(head_v(r, id, name, status), head_v(s, id, name, status), c, d),
{
    if r != s {
        response_keys_stand_apart();
        let word = JsonV::Str("response"@);
        with_keeps_alike(r, s, "object"@, word, c, d);
        let (r1, s1) = (r.with("object"@, word), s.with("object"@, word));
        with_keeps_alike(r1, s1, "status"@, JsonV::Str(status), c, d);
        let (r2, s2) = (
            r1.with("status"@, JsonV::Str(status)),
            s1.with("status"@, JsonV::Str(status)),
        );
        with_keeps_alike(r2, s2, "id"@, JsonV::Str(id), c, d);
        let (r3, s3) = if model::blank_text_v(r2.get_text("id"@)) {
            (r2.with("id"@, JsonV::Str(id)), s2.with("id"@, JsonV::Str(id)))
        } else {
            (r2, s2)
        };
        let n = JsonV::Str(
            if name.len() == 0 {
                "unknown"@
            } else {
                name
            },
        );
        with_keeps_alike(r3, s3, "model"@, n, c, d);
    }
}

proof fn tails_are_alike(r: JsonV, s: JsonV, c: Set<u64>, d: Set<u64>)
    requires
        r.is_obj(),
        alike_v(r, s, c, d),
    ensures
        tail_v(r).is_obj(),
        alike_v(tail_v(r), tail_v(s), c, d),
{
    response_keys_stand_apart();
    let none = JsonV::Arr(Seq::empty());
    with_keeps_alike(r, s, "output"@, none, c, d);
    let (r1, s1) = if r.get_list("output"@) is Some {
        (r, s)
    } else {
        (r.with("output"@, none), s.with("output"@, none))
    };
    with_keeps_alike(r1, s1, "usage"@, JsonV::Null, c, d);
    if let Some(u) = r1.get("usage"@) {
        with_keeps_alike(r1, s1, "usage"@, model::usage_v(u), c, d);
    }
}

/// The response at one time and at another.
proof fn responses_are_alike(
    r: JsonV,
    s: JsonV,
    id: Seq<char>,
    name: Seq<char>,
    status: Seq<char>,
    m: u64,
    n: u64,
    c: Set<u64>,
    d: Set<u64>,
)
    requires
        alike_v(r, s, c, d),
        c.contains(m),
        d.contains(n),
    ensures
        model::response_v(r, id, name, status, m).is_obj(),
        alike_v(
            model::response_v(r, id, name, status, m),
            model::response_v(s, id, name, status, n),
            c,
            d,
        ),
{
    heads_are_alike(r, s, id, name, status, c, d);
    let (r1, s1) = (head_v(r, id, name, status), head_v(s, id, name, status));
    let (r2, s2) = (timed_head_v(r1, m), timed_head_v(s1, n));
    assert(alike_v(r2, s2, c, d)) by {
        if r1 == s1 && r1.get_uint("created_at"@) is None {
            assert(r1.with("created_at"@, json::uint_v(m)).with("created_at"@, json::uint_v(n))
                == r1.with("created_at"@, json::uint_v(n))) by {
                if let JsonV::Obj(o) = r1 {
                    assert(o.insert("created_at"@, json::uint_v(m)).insert(
                        "created_at"@,
                        json::uint_v(n),
                    ) =~= o.insert("created_at"@, json::uint_v(n)));
                }
            }
        }
    }
    tails_are_alike(r2, s2, c, d);
    assert(model::response_v(r, id, name, status, m) == tail_v(r2));
    assert(model::response_v(s, id, name, status, n) == tail_v(s2));
}

/// Alike responses in one event make alike events.
proof fn events_are_alike(ev: JsonV, r: JsonV, s: JsonV, c: Set<u64>, d: Set<u64>)
    requires
        ev.is_obj(),
        alike_v(r, s, c, d),
    ensures
        alike_events_v(ev.with("response"@, r), ev.with("response"@, s), c, d),
{
    if let JsonV::Obj(m) = ev {
        assert(m.insert("response"@, r).insert("response"@, s) =~= m.insert("response"@, s));
    }
}

proof fn fills_are_alike(a: AsmV, b: AsmV, r: JsonV, s: JsonV, c: Set<u64>, d: Set<u64>)
    requires
        r.is_obj(),
        alike_v(r, s, c, d),
        a.outputs == b.outputs,
        a.mode == b.mode,
    ensures
        match (model::fill_v(a, r), model::fill_v(b, s)) {
            (Ok(x), Ok(y)) => alike_v(x, y, c, d),
            (Err(e), Err(f)) => e == f,
            _ => false,
        },
{
    response_keys_stand_apart();
    let output = JsonV::Arr(model::terminal_output_v(a, r));
    with_keeps_alike(r, s, "output"@, output, c, d);
    assert(model::terminal_output_v(a, r) == model::terminal_output_v(b, s));
}

/// The types that open a response have no part in its outputs.
proof fn openings_pass(typ: Seq<char>)
    requires
        model::opening_status_v(model::kind_v(typ)) is Some,
    ensures
        !model::is_output_v(model::kind_v(typ)),
        !model::is_auxiliary_v(typ),
{
    reveal_strlit("response.created");
    reveal_strlit("response.in_progress");
    reveal_strlit("response.queued");
    reveal_strlit("response.content_part.added");
    reveal_strlit("response.content_part.done");
    reveal_strlit("response.reasoning_summary_part.added");
    reveal_strlit("response.reasoning_summary_part.done");
    reveal_strlit("response.reasoning_summary_text.delta");
    reveal_strlit("response.reasoning_summary_text.done");
    reveal_strlit("response.web_search_call.");
    reveal_strlit("response.file_search_call.");
    reveal_strlit("response.image_generation_call.");
    reveal_strlit("response.code_interpreter_call.");
    reveal_strlit("response.mcp_");
    assert(typ.len() <= 20);
    assert("response.created"@.len() == 16);
    assert("response.in_progress"@.len() == 20);
    assert("response.queued"@.len() == 15);
    assert("response.web_search_call."@.len() == 25);
    assert("response.file_search_call."@.len() == 26);
    assert("response.image_generation_call."@.len() == 31);
    assert("response.code_interpreter_call."@.len() == 31);
    assert("response.content_part.added"@.len() == 27);
    assert("response.content_part.done"@.len() == 26);
    assert("response.reasoning_summary_part.added"@.len() == 37);
    assert("response.reasoning_summary_part.done"@.len() == 36);
    assert("response.reasoning_summary_text.delta"@.len() == 37);
    assert("response.reasoning_summary_text.done"@.len() == 36);
    assert("response.mcp_"@[9] == 'm' && "response.mcp_"@.len() == 13);
    assert(typ[9] == 'c' || typ[9] == 'i' || typ[9] == 'q');
    if text::starts_v(typ, "response.mcp_"@) {
        assert(typ.take(13)[9] == typ[9]);
    }
}

/// The output of an event does not depend on the snapshot.
proof fn places_are_alike(
    a: AsmV,
    b: AsmV,
    ev: JsonV,
    of: Option<Seq<char>>,
    c: Set<u64>,
    d: Set<u64>,
)
    requires
        alike_states_v(a, b, c, d),
    ensures
        model::index_v(a, ev, of) == model::index_v(b, ev, of),
        model::next_v(a, ev, of) == model::next_v(b, ev, of),
{
    assert(model::named_v(a, ev) == model::named_v(b, ev));
    assert(model::only_v(a, of) == model::only_v(b, of));
}

proof fn bindings_are_alike(a: AsmV, b: AsmV, ev: JsonV, i: u64, c: Set<u64>, d: Set<u64>)
    requires
        alike_states_v(a, b, c, d),
    ensures
        alike_states_v(model::bind_v(a, ev, i), model::bind_v(b, ev, i), c, d),
        model::state_v(model::bind_v(a, ev, i), i) == model::state_v(model::bind_v(b, ev, i), i),
{
    assert(model::state_v(a, i) == model::state_v(b, i));
}

proof fn output_steps_are_alike(
    a: AsmV,
    b: AsmV,
    ev: JsonV,
    kind: Kind,
    c: Set<u64>,
    d: Set<u64>,
)
    requires
        alike_states_v(a, b, c, d),
    ensures
        alike_states_v(
            model::output_step_v(a, ev, kind).0,
            model::output_step_v(b, ev, kind).0,
            c,
            d,
        ),
        model::output_step_v(a, ev, kind).1 == model::output_step_v(b, ev, kind).1,
{
    let of = model::compatible_v(kind);
    let i = model::index_v(a, ev, of);
    let next_index = model::next_v(a, ev, of);
    places_are_alike(a, b, ev, of, c, d);
    bindings_are_alike(AsmV { next_index, ..a }, AsmV { next_index, ..b }, ev, i, c, d);
}

proof fn auxiliary_steps_are_alike(
    a: AsmV,
    b: AsmV,
    ev: JsonV,
    typ: Seq<char>,
    c: Set<u64>,
    d: Set<u64>,
)
    requires
        alike_states_v(a, b, c, d),
    ensures
        alike_states_v(
            model::auxiliary_step_v(a, ev, typ).0,
            model::auxiliary_step_v(b, ev, typ).0,
            c,
            d,
        ),
        model::auxiliary_step_v(a, ev, typ).1 == model::auxiliary_step_v(b, ev, typ).1,
{
    let of = Some(model::auxiliary_kind_v(typ));
    let i = model::index_v(a, ev, of);
    let next_index = model::next_v(a, ev, of);
    places_are_alike(a, b, ev, of, c, d);
    bindings_are_alike(AsmV { next_index, ..a }, AsmV { next_index, ..b }, ev, i, c, d);
}

proof fn envelopes_are_alike(
    a: AsmV,
    b: AsmV,
    ev: JsonV,
    typ: Seq<char>,
    c: Set<u64>,
    d: Set<u64>,
)
    requires
        alike_states_v(a, b, c, d),
    ensures
        alike_states_v(model::envelope_v(a, ev, typ).0, model::envelope_v(b, ev, typ).0, c, d),
        model::envelope_v(a, ev, typ).1 == model::envelope_v(b, ev, typ).1,
{
    assert(model::number_v(a, ev).1 == model::number_v(b, ev).1);
}

/// No step before the end reads the snapshot.
proof fn steps_are_alike(a: AsmV, b: AsmV, ev: JsonV, typ: Seq<char>, c: Set<u64>, d: Set<u64>)
    requires
        alike_states_v(a, b, c, d),
    ensures
        alike_states_v(
            model::outputs_step_v(a, ev, typ).0,
            model::outputs_step_v(b, ev, typ).0,
            c,
            d,
        ),
        model::outputs_step_v(a, ev, typ).1 == model::outputs_step_v(b, ev, typ).1,
{
    if model::is_output_v(model::kind_v(typ)) {
        output_steps_are_alike(a, b, ev, model::kind_v(typ), c, d);
    } else if model::is_auxiliary_v(typ) {
        auxiliary_steps_are_alike(a, b, ev, typ, c, d);
    }
}

proof fn endings_are_alike(
    a: AsmV,
    b: AsmV,
    ev: JsonV,
    kind: Kind,
    m: u64,
    n: u64,
    c: Set<u64>,
    d: Set<u64>,
)
    requires
        ev.is_obj(),
        alike_states_v(a, b, c, d),
        c.contains(m),
        d.contains(n),
    ensures
        alike_states_v(
            model::ending_v(a, ev, kind, m).0,
            model::ending_v(b, ev, kind, n).0,
            c,
            d,
        ),
        match (model::ending_v(a, ev, kind, m).1, model::ending_v(b, ev, kind, n).1) {
            (NormV::Emit(x), NormV::Emit(y)) => alike_events_v(x, y, c, d),
            (NormV::Fail(e), NormV::Fail(f)) => e == f,
            _ => false,
        },
{
    if let Some(r) = ev.get("response"@) {
        let status = if kind == Kind::Completed {
            "completed"@
        } else if kind == Kind::Failed {
            "failed"@
        } else {
            "incomplete"@
        };
        responses_are_alike(r, r, a.response_id, a.model, status, m, n, c, d);
        let x = model::response_v(r, a.response_id, a.model, status, m);
        let y = model::response_v(r, a.response_id, a.model, status, n);
        events_are_alike(ev, x, y, c, d);
        let (ae, be) = (AsmV { terminal: true, ..a }, AsmV { terminal: true, ..b });
        fills_are_alike(ae, be, x, y, c, d);
        if let (Ok(f), Ok(g)) = (model::fill_v(ae, x), model::fill_v(be, y)) {
            events_are_alike(ev, f, g, c, d);
        }
    }
}

proof fn norms_are_alike(
    a: AsmV,
    b: AsmV,
    ev: JsonV,
    name: Seq<char>,
    m: u64,
    n: u64,
    c: Set<u64>,
    d: Set<u64>,
)
    requires
        alike_states_v(a, b, c, d),
        c.contains(m),
        d.contains(n),
    ensures
        alike_states_v(
            model::normalize_v(a, ev, name, m).0,
            model::normalize_v(b, ev, name, n).0,
            c,
            d,
        ),
        match (model::normalize_v(a, ev, name, m).1, model::normalize_v(b, ev, name, n).1) {
            (NormV::Emit(x), NormV::Emit(y)) => alike_events_v(x, y, c, d),
            (NormV::Fail(e), NormV::Fail(f)) => e == f,
            (NormV::Drop, NormV::Drop) => true,
            _ => false,
        },
{
    let typ = model::type_v(ev, name);
    let kind = model::kind_v(typ);
    if !model::is_aside_v(typ) && (text::starts_v(typ, "response."@) || typ == "error"@)
        && ev.is_obj() {
        envelopes_are_alike(a, b, ev, typ, c, d);
        let (a1, ev1) = model::envelope_v(a, ev, typ);
        let b1 = model::envelope_v(b, ev, typ).0;
        let (a2, x2) = model::opening_v(a1, ev1, kind, m);
        let (b2, y2) = model::opening_v(b1, ev1, kind, n);
        if let (Some(status), Some(r)) = (model::opening_status_v(kind), ev1.get("response"@)) {
            responses_are_alike(r, r, a1.response_id, a1.model, status, m, n, c, d);
            events_are_alike(
                ev1,
                model::response_v(r, a1.response_id, a1.model, status, m),
                model::response_v(r, a1.response_id, a1.model, status, n),
                c,
                d,
            );
            openings_pass(typ);
        } else {
            steps_are_alike(a2, b2, ev1, typ, c, d);
            let (a3, ev3) = model::outputs_step_v(a2, ev1, typ);
            let b3 = model::outputs_step_v(b2, ev1, typ).0;
            objects_stay(a2, ev1, typ);
            endings_are_alike(a3, b3, ev3, kind, m, n, c, d);
        }
    }
}

proof fn objects_stay(a: AsmV, ev: JsonV, typ: Seq<char>)
    requires
        ev.is_obj(),
    ensures
        model::outputs_step_v(a, ev, typ).1.is_obj(),
{
}

proof fn terminals_are_alike(a: AsmV, b: AsmV, m: u64, n: u64, c: Set<u64>, d: Set<u64>)
    requires
        alike_states_v(a, b, c, d),
        c.contains(m),
        d.contains(n),
    ensures
        alike_states_v(model::synthetic_v(a, m).0, model::synthetic_v(b, n).0, c, d),
        all_alike_v(
            terminal_pieces_v(model::synthetic_v(a, m).1),
            terminal_pieces_v(model::synthetic_v(b, n).1),
            c,
            d,
        ),
{
    if !a.terminal {
        let r = match a.snapshot {
            Some(r) => r,
            None => json::empty_v(),
        };
        let s = match b.snapshot {
            Some(s) => s,
            None => json::empty_v(),
        };
        responses_are_alike(r, s, a.response_id, a.model, "completed"@, m, n, c, d);
        let x = model::response_v(r, a.response_id, a.model, "completed"@, m);
        let y = model::response_v(s, b.response_id, b.model, "completed"@, n);
        let (ae, be) = (AsmV { terminal: true, ..a }, AsmV { terminal: true, ..b });
        fills_are_alike(ae, be, x, y, c, d);
        if let (Ok(f), Ok(g)) = (model::fill_v(ae, x), model::fill_v(be, y)) {
            let head = json::empty_v().with("type"@, JsonV::Str("response.completed"@)).with(
                "sequence_number"@,
                json::uint_v(a.seq.wrapping_add(1)),
            ).with("response_id"@, JsonV::Str(a.response_id));
            events_are_alike(head, f, g, c, d);
        }
    }
}

proof fn frames_are_alike(
    a: AsmV,
    b: AsmV,
    frame: Seq<u8>,
    m: u64,
    n: u64,
    c: Set<u64>,
    d: Set<u64>,
)
    requires
        alike_states_v(a, b, c, d),
        c.contains(m),
        d.contains(n),
    ensures
        alike_states_v(process_pieces_v(a, frame, m).0, process_pieces_v(b, frame, n).0, c, d),
        all_alike_v(process_pieces_v(a, frame, m).1, process_pieces_v(b, frame, n).1, c, d),
{
    reveal(process_pieces_v);
    let lines = text::lines_v(text::unix_v(text::utf8_lossy(frame)));
    let name = sse::frame_name_v(lines);
    let data = text::join_v(sse::frame_data_v(lines), "\n"@);
    terminals_are_alike(a, b, m, n, c, d);
    if let Some(ev) = json::parsed(data) {
        norms_are_alike(a, b, ev, model::text_or_v(name, ""@), m, n, c, d);
    }
}

proof fn rows_are_alike(
    p: Seq<PieceV>,
    q: Seq<PieceV>,
    r: Seq<PieceV>,
    s: Seq<PieceV>,
    c: Set<u64>,
    d: Set<u64>,
)
    requires
        all_alike_v(p, q, c, d),
        all_alike_v(r, s, c, d),
    ensures
        all_alike_v(p + r, q + s, c, d),
{
    assert forall|i: int| 0 <= i < (p + r).len() implies alike_pieces_v(
        #[trigger] (p + r)[i],
        #[trigger] (q + s)[i],
        c,
        d,
    ) by {
        if i < p.len() {
            assert(alike_pieces_v(p[i], q[i], c, d));
        } else {
            assert(alike_pieces_v(r[i - p.len()], s[i - p.len()], c, d));
        }
    }
}

proof fn drains_are_alike(
    a: AsmV,
    b: AsmV,
    buffer: Seq<u8>,
    m: u64,
    n: u64,
    c: Set<u64>,
    d: Set<u64>,
)
    requires
        alike_states_v(a, b, c, d),
        c.contains(m),
        d.contains(n),
    ensures
        ({
            let (a1, rest, p) = drain_pieces_v(a, buffer, m);
            let (b1, left, q) = drain_pieces_v(b, buffer, n);
            alike_states_v(a1, b1, c, d) && rest == left && all_alike_v(p, q, c, d)
        }),
    decreases buffer.len(),
{
    if let Some((p, k)) = sse::boundary_v(buffer, 0) {
        if 0 <= p && k > 0 && p + k <= buffer.len() {
            let frame = buffer.take(p + k);
            let more = buffer.skip(p + k);
            frames_are_alike(a, b, frame, m, n, c, d);
            let (a1, x) = process_pieces_v(a, frame, m);
            let (b1, y) = process_pieces_v(b, frame, n);
            drains_are_alike(a1, b1, more, m, n, c, d);
            rows_are_alike(
                x,
                y,
                drain_pieces_v(a1, more, m).2,
                drain_pieces_v(b1, more, n).2,
                c,
                d,
            );
        }
    }
}

proof fn drain_appends(a: AsmV, p: Seq<u8>, more: Seq<u8>, now: u64)
    ensures
        ({
            let (b, rest, out) = drain_pieces_v(a, p, now);
            let (c, rest2, out2) = drain_pieces_v(b, rest + more, now);
            drain_pieces_v(a, p + more, now) == (c, rest2, out + out2)
        }),
    decreases p.len(),
{
    sse::boundary_within(p, 0);
    match sse::boundary_v(p, 0) {
        Some((q, n)) => {
            laws::boundary_kept(p, more);
            assert((p + more).take(q + n) =~= p.take(q + n));
            assert((p + more).skip(q + n) =~= p.skip(q + n) + more);
            let (b, first) = process_pieces_v(a, p.take(q + n), now);
            drain_appends(b, p.skip(q + n), more, now);
            let (c, rest, out) = drain_pieces_v(b, p.skip(q + n), now);
            let out2 = drain_pieces_v(c, rest + more, now).2;
            assert(first + (out + out2) =~= (first + out) + out2);
        },
        None => {
            let out2 = drain_pieces_v(a, p + more, now).2;
            assert(Seq::<PieceV>::empty() + out2 =~= out2);
        },
    }
}

/// Chunks at times of their own, and the whole at one time.
proof fn timed_is_alike(
    s: StreamV,
    chunks: Seq<Seq<u8>>,
    times: Seq<u64>,
    now: u64,
    c: Set<u64>,
    d: Set<u64>,
)
    requires
        s.pending.len() == 0,
        chunks.len() <= times.len(),
        forall|i: int| 0 <= i < times.len() ==> c.contains(#[trigger] times[i]),
        d.contains(now),
    ensures
        ({
            let (t, p) = timed_pieces_v(s, chunks, times);
            let (u, q) = push_pieces_v(s, laws::concat_v(chunks), now);
            &&& alike_states_v(t.assembler, u.assembler, c, d)
            &&& t.pending == u.pending
            &&& all_alike_v(p, q, c, d)
        }),
    decreases chunks.len(),
{
    let whole = laws::concat_v(chunks);
    if chunks.len() == 0 {
        assert(s.pending + whole =~= Seq::<u8>::empty());
        assert(s.pending =~= Seq::<u8>::empty());
    } else {
        timed_is_alike(s, chunks.drop_last(), times, now, c, d);
        let before = laws::concat_v(chunks.drop_last());
        let last = chunks.last();
        let time = times[chunks.len() - 1];
        let (t, p) = timed_pieces_v(s, chunks.drop_last(), times);
        let (u, q) = push_pieces_v(s, before, now);
        drains_are_alike(t.assembler, u.assembler, t.pending + last, time, now, c, d);
        drain_appends(s.assembler, s.pending + before, last, now);
        assert(s.pending + whole =~= (s.pending + before) + last);
        rows_are_alike(p, q, push_pieces_v(t, last, time).1, push_pieces_v(u, last, now).1, c, d);
    }
}

/// However a stream is cut into chunks, and whenever each of them and the end
/// come, its repair is that of the whole at any one time, piece by piece, but
/// for the `created_at` of a response, where both have it from their clock.
pub proof fn times_change_stamps_alone(
    chunks: Seq<Seq<u8>>,
    times: Seq<u64>,
    mode: CompatMode,
    name: Seq<char>,
    request_id: Seq<char>,
    now: u64,
)
    requires
        times.len() == chunks.len() + 1,
    ensures
        ({
            let fresh = sse::fresh_v(mode, name, request_id);
            let (s, out) = timed_v(fresh, chunks, times);
            let (t, p) = timed_pieces_v(fresh, chunks, times);
            let cut = p + finish_pieces_v(t, times.last()).1;
            let (u, q) = push_pieces_v(fresh, laws::concat_v(chunks), now);
            let whole = q + finish_pieces_v(u, now).1;
            &&& out + sse::finish_v(s, times.last()).1 == flat_v(cut)
            &&& sse::normalize_sse_v(laws::concat_v(chunks), mode, name, request_id, now)
                == flat_v(whole)
            &&& all_alike_v(cut, whole, times.to_set(), set![now])
        }),
{
    let fresh = sse::fresh_v(mode, name, request_id);
    let (c, d) = (times.to_set(), set![now]);
    let input = laws::concat_v(chunks);
    let (t, p) = timed_pieces_v(fresh, chunks, times);
    let (u, q) = push_pieces_v(fresh, input, now);
    assert forall|i: int| 0 <= i < times.len() implies c.contains(#[trigger] times[i]) by {}
    timed_is_alike(fresh, chunks, times, now, c, d);
    timed_is_flat(fresh, chunks, times);
    finish_is_flat(t, times.last());
    flat_adds(p, finish_pieces_v(t, times.last()).1);
    drain_is_flat(fresh.assembler, fresh.pending + input, now);
    finish_is_flat(u, now);
    flat_adds(q, finish_pieces_v(u, now).1);
    ends_are_alike(t, u, times.last(), now, c, d);
    rows_are_alike(
        p,
        q,
        finish_pieces_v(t, times.last()).1,
        finish_pieces_v(u, now).1,
        c,
        d,
    );
}

proof fn ends_are_alike(s: StreamV, t: StreamV, m: u64, n: u64, c: Set<u64>, d: Set<u64>)
    requires
        alike_states_v(s.assembler, t.assembler, c, d),
        s.pending == t.pending,
        c.contains(m),
        d.contains(n),
    ensures
        all_alike_v(finish_pieces_v(s, m).1, finish_pieces_v(t, n).1, c, d),
{
    let none = Seq::<PieceV>::empty();
    let (a, p) = if s.pending.len() == 0 {
        (s.assembler, none)
    } else {
        process_pieces_v(s.assembler, s.pending, m)
    };
    let (b, q) = if t.pending.len() == 0 {
        (t.assembler, none)
    } else {
        process_pieces_v(t.assembler, t.pending, n)
    };
    frames_are_alike(s.assembler, t.assembler, s.pending, m, n, c, d);
    terminals_are_alike(a, b, m, n, c, d);
    rows_are_alike(
        p,
        q,
        terminal_pieces_v(model::synthetic_v(a, m).1),
        terminal_pieces_v(model::synthetic_v(b, n).1),
        c,
        d,
    );
}

} // verus!
