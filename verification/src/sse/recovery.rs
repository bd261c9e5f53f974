//! What holds of the events that are put out, and of what is recovered for them.

use vstd::prelude::*;

use crate::json::JsonV;
use crate::proxy::CompatMode;
use crate::sse::model;
use crate::sse::model::{AsmV, Kind, NormV, OutV};
use crate::text;

verus! {

/// The members of an envelope: a number, the event's type and the response's ID.
pub open spec fn enveloped_v(ev: JsonV, typ: Seq<char>) -> bool {
    &&& ev.is_obj()
    &&& ev.get_uint("sequence_number"@) is Some
    &&& ev.get_text("type"@) == Some(typ)
    &&& ev.get("response_id"@) is Some
}

proof fn envelope_keys_stand_apart()
    ensures
        forall|k: Seq<char>| #[trigger]
            is_step_key(k) ==> k != "sequence_number"@ && k != "type"@ && k != "response_id"@,
        "sequence_number"@ != "type"@,
        "sequence_number"@ != "response_id"@,
        "type"@ != "response_id"@,
{
    reveal_strlit("sequence_number");
    reveal_strlit("type");
    reveal_strlit("response_id");
    reveal_strlit("response");
    reveal_strlit("output_index");
    reveal_strlit("text");
    reveal_strlit("refusal");
    reveal_strlit("arguments");
    reveal_strlit("input");
    reveal_strlit("item_id");
    reveal_strlit("content_index");
    reveal_strlit("part");
    reveal_strlit("summary_index");
    assert("sequence_number"@.len() == 15 && "type"@.len() == 4 && "response_id"@.len() == 11);
    assert("response"@.len() == 8 && "output_index"@.len() == 12 && "refusal"@.len() == 7);
    assert("arguments"@.len() == 9 && "input"@.len() == 5 && "item_id"@.len() == 7);
    assert("content_index"@.len() == 13 && "summary_index"@.len() == 13);
    assert("type"@[0] == 't' && "type"@[1] == 'y');
    assert("text"@[1] == 'e');
    assert("part"@[0] == 'p');
}

/// The members that a step after the envelope may write.
spec fn is_step_key(k: Seq<char>) -> bool {
    ||| k == "response"@
    ||| k == "output_index"@
    ||| k == "text"@
    ||| k == "refusal"@
    ||| k == "arguments"@
    ||| k == "input"@
    ||| k == "item_id"@
    ||| k == "content_index"@
    ||| k == "part"@
    ||| k == "summary_index"@
}

/// `b` has the members of an envelope that `a` has, with the same values.
spec fn same_envelope_v(a: JsonV, b: JsonV) -> bool {
    &&& b.is_obj()
    &&& b.get("sequence_number"@) == a.get("sequence_number"@)
    &&& b.get("type"@) == a.get("type"@)
    &&& b.get("response_id"@) == a.get("response_id"@)
}

/// A member that a step writes leaves the envelope alone.
proof fn member_keeps(from: JsonV, ev: JsonV, k: Seq<char>, v: JsonV)
    requires
        same_envelope_v(from, ev),
        is_step_key(k),
    ensures
        same_envelope_v(from, ev.with(k, v)),
        same_envelope_v(from, ev.or_with(k, v)),
{
    envelope_keys_stand_apart();
}

proof fn opening_keeps(a: AsmV, ev: JsonV, kind: Kind, now: u64)
    requires
        ev.is_obj(),
    ensures
        same_envelope_v(ev, model::opening_v(a, ev, kind, now).1),
{
    assert(is_step_key("response"@));
    if let (Some(status), Some(r)) = (model::opening_status_v(kind), ev.get("response"@)) {
        member_keeps(
            ev,
            ev,
            "response"@,
            model::response_v(r, a.response_id, a.model, status, now),
        );
    }
}

proof fn delta_keeps(from: JsonV, x: OutV, ev: JsonV, kind: Kind, mode: CompatMode)
    requires
        same_envelope_v(from, ev),
    ensures
        same_envelope_v(from, model::delta_event_v(x, ev, kind, mode)),
{
    assert(is_step_key("text"@));
    assert(is_step_key("refusal"@));
    assert(is_step_key("arguments"@));
    assert(is_step_key("input"@));
    member_keeps(from, ev, "text"@, JsonV::Str(x.text));
    member_keeps(from, ev, "refusal"@, JsonV::Str(x.refusal));
    member_keeps(from, ev, "arguments"@, JsonV::Str(x.arguments));
    member_keeps(from, ev, "input"@, JsonV::Str(x.input));
}

proof fn output_step_keeps(a: AsmV, ev: JsonV, kind: Kind)
    requires
        ev.is_obj(),
    ensures
        same_envelope_v(ev, model::output_step_v(a, ev, kind).1),
{
    assert(is_step_key("output_index"@));
    assert(is_step_key("item_id"@));
    assert(is_step_key("content_index"@));
    let i = model::index_v(a, ev, model::compatible_v(kind));
    let b = model::bind_v(
        AsmV { next_index: model::next_v(a, ev, model::compatible_v(kind)), ..a },
        ev,
        i,
    );
    let ev1 = ev.with("output_index"@, crate::json::uint_v(i));
    member_keeps(ev, ev, "output_index"@, crate::json::uint_v(i));
    let x = model::state_v(b, i);
    let y0 = model::delta_state_v(x, ev1, kind, a.mode);
    let y = model::with_id_v(y0, model::made_id_v(y0, i, a.response_id));
    let d = model::delta_event_v(x, ev1, kind, a.mode);
    delta_keeps(ev, x, ev1, kind, a.mode);
    member_keeps(ev, d, "item_id"@, JsonV::Str(y.id));
    member_keeps(
        ev,
        d.or_with("item_id"@, JsonV::Str(y.id)),
        "content_index"@,
        crate::json::uint_v(0),
    );
}

proof fn auxiliary_keeps(ev: JsonV, typ: Seq<char>, i: u64, x: OutV)
    requires
        ev.is_obj(),
    ensures
        same_envelope_v(ev, model::auxiliary_event_v(ev, typ, i, x)),
{
    assert(is_step_key("output_index"@));
    assert(is_step_key("item_id"@));
    assert(is_step_key("content_index"@));
    assert(is_step_key("part"@));
    assert(is_step_key("summary_index"@));
    let zero = crate::json::uint_v(0);
    let ev0 = ev.or_with("output_index"@, crate::json::uint_v(i));
    member_keeps(ev, ev, "output_index"@, crate::json::uint_v(i));
    let ev1 = ev0.or_with("item_id"@, JsonV::Str(x.id));
    member_keeps(ev, ev0, "item_id"@, JsonV::Str(x.id));
    let c = ev1.or_with("content_index"@, zero);
    member_keeps(ev, ev1, "content_index"@, zero);
    member_keeps(ev, c, "part"@, model::part_v(c, typ, x.text));
    let ev2 = if text::contains_v(typ, "content_part"@) {
        c.with("part"@, model::part_v(c, typ, x.text))
    } else {
        ev1
    };
    let ev3 = ev2.or_with("summary_index"@, zero);
    member_keeps(ev, ev2, "summary_index"@, zero);
    member_keeps(ev, ev3, "part"@, model::blank_part_v("summary_text"@));
}

proof fn ending_keeps(a: AsmV, ev: JsonV, kind: Kind, now: u64)
    requires
        ev.is_obj(),
    ensures
        model::ending_v(a, ev, kind, now).1 matches NormV::Emit(out) ==> same_envelope_v(ev, out),
{
    assert(is_step_key("response"@));
    if let NormV::Emit(out) = model::ending_v(a, ev, kind, now).1 {
        if out != ev {
            let r = choose|r: JsonV| out == #[trigger] ev.with("response"@, r);
            member_keeps(ev, ev, "response"@, r);
        }
    }
}

proof fn steps_keep_the_envelope(a: AsmV, ev: JsonV, typ: Seq<char>, now: u64)
    requires
        ev.is_obj(),
    ensures
        same_envelope_v(ev, model::opening_v(a, ev, model::kind_v(typ), now).1),
        same_envelope_v(ev, model::outputs_step_v(a, ev, typ).1),
        model::ending_v(a, ev, model::kind_v(typ), now).1 matches NormV::Emit(out)
            ==> same_envelope_v(ev, out),
{
    opening_keeps(a, ev, model::kind_v(typ), now);
    ending_keeps(a, ev, model::kind_v(typ), now);
    if model::is_output_v(model::kind_v(typ)) {
        output_step_keeps(a, ev, model::kind_v(typ));
    } else if model::is_auxiliary_v(typ) {
        let step = model::auxiliary_step_v(a, ev, typ);
        let (i, x) = choose|i: u64, x: OutV|
            step.1 == #[trigger] model::auxiliary_event_v(ev, typ, i, x);
        auxiliary_keeps(ev, typ, i, x);
    }
}

/// An event that belongs to the response: one of its own types or an error, and
/// none that is left out.
pub open spec fn belongs_v(ev: JsonV, name: Seq<char>) -> bool {
    let typ = model::type_v(ev, name);
    !model::is_aside_v(typ) && (text::starts_v(typ, "response."@) || typ == "error"@)
}

/// The envelope of an event that is put out is the one that it got first.
proof fn envelope_is_put_out(a: AsmV, ev: JsonV, name: Seq<char>, now: u64)
    requires
        belongs_v(ev, name),
    ensures
        model::normalize_v(a, ev, name, now).1 matches NormV::Emit(out) ==> ev.is_obj()
            && same_envelope_v(model::envelope_v(a, ev, model::type_v(ev, name)).1, out),
{
    let typ = model::type_v(ev, name);
    let kind = model::kind_v(typ);
    if ev.is_obj() {
        let (b, ev1) = model::envelope_v(a, ev, typ);
        let (c, ev2) = model::opening_v(b, ev1, kind, now);
        let (d, ev3) = model::outputs_step_v(c, ev2, typ);
        steps_keep_the_envelope(b, ev1, typ, now);
        steps_keep_the_envelope(c, ev2, typ, now);
        steps_keep_the_envelope(d, ev3, typ, now);
    }
}

/// Whatever of the envelope an event lacks is filled in: each event of a
/// response is put out with a sequence number, its own type and a response ID.
/// So an event that ends a response otherwise is not put out as a completed one.
pub proof fn envelopes_are_filled(a: AsmV, ev: JsonV, name: Seq<char>, now: u64)
    requires
        text::starts_v(model::type_v(ev, name), "response."@) || model::type_v(ev, name)
            == "error"@,
        ev.get("type"@) is None || !model::blank_text_v(ev.get_text("type"@)),
    ensures
        model::normalize_v(a, ev, name, now).1 matches NormV::Emit(out) ==> enveloped_v(
            out,
            model::type_v(ev, name),
        ),
{
    envelope_keys_stand_apart();
    if belongs_v(ev, name) {
        envelope_is_put_out(a, ev, name, now);
    }
}

/// Every event of the response that is put out has an envelope: a type, a number
/// and a response ID. What it came with of these stays as it is.
pub proof fn envelopes_are_whole(a: AsmV, ev: JsonV, name: Seq<char>, now: u64)
    requires
        belongs_v(ev, name),
    ensures
        model::normalize_v(a, ev, name, now).1 matches NormV::Emit(out) ==> {
            &&& out.get("type"@) is Some
            &&& out.get_uint("sequence_number"@) is Some
            &&& out.get("response_id"@) is Some
            &&& ev.get("type"@) is Some ==> out.get("type"@) == ev.get("type"@)
            &&& ev.get("response_id"@) is Some ==> out.get("response_id"@) == ev.get(
                "response_id"@,
            )
            &&& ev.get_uint("sequence_number"@) is Some ==> out.get("sequence_number"@) == ev.get(
                "sequence_number"@,
            )
        },
{
    envelope_keys_stand_apart();
    envelope_is_put_out(a, ev, name, now);
}

/// Something that an assembler is asked for.
#[verifier::ext_equal]
pub enum CallV {
    /// An event, with the name of its frame and the time.
    Event(JsonV, Seq<char>, u64),
    /// The report of a failure of the given kind.
    Error(Seq<char>),
    /// The end of the stream, with the time.
    End(u64),
}

/// What is put out, and the assembler after it.
pub open spec fn answer_v(a: AsmV, call: CallV) -> (AsmV, Option<JsonV>) {
    match call {
        CallV::Event(ev, name, now) => match model::normalize_v(a, ev, name, now) {
            (b, NormV::Emit(out)) => (b, Some(out)),
            (b, _) => (b, None),
        },
        CallV::Error(kind) => (model::error_v(a, kind).0, Some(model::error_v(a, kind).1)),
        CallV::End(now) => model::synthetic_v(a, now),
    }
}

/// The assembler after a run of calls.
pub open spec fn reached_v(a: AsmV, calls: Seq<CallV>) -> AsmV
    decreases calls.len(),
{
    if calls.len() == 0 {
        a
    } else {
        answer_v(reached_v(a, calls.drop_last()), calls.last()).0
    }
}

/// Whether a call is about the response, and not an event of another kind that
/// passes or is left out.
pub open spec fn counted_v(call: CallV) -> bool {
    match call {
        CallV::Event(ev, name, _) => belongs_v(ev, name),
        _ => true,
    }
}

/// The number that a call came with.
pub open spec fn received_v(call: CallV) -> Option<u64> {
    match call {
        CallV::Event(ev, _, _) => ev.get_uint("sequence_number"@),
        _ => None,
    }
}

/// The number of what is put out for a call.
pub open spec fn put_out_v(a: AsmV, call: CallV) -> Option<u64> {
    match answer_v(a, call).1 {
        Some(out) => out.get_uint("sequence_number"@),
        None => None,
    }
}

/// The count lasts: it has not come to the largest number at any point of a run.
pub open spec fn lasts_v(a: AsmV, calls: Seq<CallV>) -> bool {
    forall|k: int|
        0 <= k <= calls.len() ==> (#[trigger] reached_v(a, calls.take(k))).seq < u64::MAX
}

/// One call moves the count up to its numbers, and never down.
proof fn count_rises(a: AsmV, call: CallV)
    requires
        a.seq < u64::MAX,
    ensures
        a.seq <= answer_v(a, call).0.seq,
        counted_v(call) ==> {
            &&& received_v(call) matches Some(n) ==> n <= answer_v(a, call).0.seq
            &&& put_out_v(a, call) matches Some(n) ==> n <= answer_v(a, call).0.seq
        },
{
    match call {
        CallV::Event(ev, name, now) => {
            envelope_keys_stand_apart();
            let typ = model::type_v(ev, name);
            let (e, ev1) = model::envelope_v(a, ev, typ);
            let (c, ev2) = model::opening_v(e, ev1, model::kind_v(typ), now);
            let (d, ev3) = model::outputs_step_v(c, ev2, typ);
            assert(d.seq == e.seq);
            if belongs_v(ev, name) {
                envelope_is_put_out(a, ev, name, now);
            }
        },
        CallV::Error(kind) => {
            errors_are_numbered(a, kind);
        },
        CallV::End(now) => {
            made_up_ends_are_numbered(a, now);
        },
    }
}

proof fn errors_are_numbered(a: AsmV, kind: Seq<char>)
    requires
        a.seq < u64::MAX,
    ensures
        model::error_v(a, kind).1.get_uint("sequence_number"@) == Some((a.seq + 1) as u64),
        model::error_v(a, kind).0.seq == a.seq + 1,
{
    reveal_strlit("sequence_number");
    reveal_strlit("response_id");
    reveal_strlit("error");
    assert("sequence_number"@.len() == 15 && "response_id"@.len() == 11 && "error"@.len() == 5);
}

proof fn count_never_falls(a: AsmV, calls: Seq<CallV>, i: int)
    requires
        lasts_v(a, calls),
        0 <= i <= calls.len(),
    ensures
        reached_v(a, calls.take(i)).seq <= reached_v(a, calls).seq,
    decreases calls.len() - i,
{
    if i < calls.len() {
        count_never_falls(a, calls, i + 1);
        let t = calls.take(i + 1);
        assert(t.drop_last() =~= calls.take(i));
        assert(t.last() == calls[i]);
        count_rises(reached_v(a, calls.take(i)), calls[i]);
    } else {
        assert(calls.take(i) =~= calls);
    }
}

/// The numbers of a run of calls do not exceed the count at its end.
pub proof fn counts_bound_numbers(a: AsmV, calls: Seq<CallV>, i: int)
    requires
        lasts_v(a, calls),
        0 <= i < calls.len(),
        counted_v(calls[i]),
    ensures
        received_v(calls[i]) matches Some(m) ==> m <= reached_v(a, calls).seq,
        put_out_v(reached_v(a, calls.take(i)), calls[i]) matches Some(m) ==> m <= reached_v(
            a,
            calls,
        ).seq,
{
    let t = calls.take(i + 1);
    assert(t.drop_last() =~= calls.take(i));
    assert(t.last() == calls[i]);
    count_rises(reached_v(a, calls.take(i)), calls[i]);
    count_never_falls(a, calls, i + 1);
}

/// An event without a number is put out with the next one.
pub proof fn filled_numbers_are_next(a: AsmV, ev: JsonV, name: Seq<char>, now: u64)
    requires
        a.seq < u64::MAX,
        belongs_v(ev, name),
        ev.get_uint("sequence_number"@) is None,
    ensures
        model::normalize_v(a, ev, name, now).1 matches NormV::Emit(out) ==> out.get_uint(
            "sequence_number"@,
        ) == Some((a.seq + 1) as u64),
{
    envelope_keys_stand_apart();
    envelope_is_put_out(a, ev, name, now);
}

/// What is made up at the end of a stream is numbered above all before it.
pub proof fn made_up_ends_are_numbered(a: AsmV, now: u64)
    requires
        a.seq < u64::MAX,
    ensures
        model::synthetic_v(a, now).1 matches Some(ev) ==> ev.get_uint("sequence_number"@) == Some(
            (a.seq + 1) as u64,
        ) && model::synthetic_v(a, now).0.seq == a.seq + 1,
{
    reveal_strlit("sequence_number");
    reveal_strlit("response_id");
    reveal_strlit("response");
    reveal_strlit("error");
    assert("sequence_number"@.len() == 15 && "response_id"@.len() == 11);
    assert("response"@.len() == 8 && "error"@.len() == 5);
}

/// An event that adds to an output is put out with the index of that output and
/// an item ID, and one that adds to a content part with the index of that too.
pub proof fn outputs_are_located(a: AsmV, ev: JsonV, kind: Kind)
    requires
        ev.is_obj(),
    ensures
        ({
            let out = model::output_step_v(a, ev, kind).1;
            &&& out.get_uint("output_index"@) == Some(model::index_v(a, ev, model::compatible_v(kind)))
            &&& out.get("item_id"@) is Some
            &&& model::has_content_v(kind) ==> out.get("content_index"@) is Some
        }),
{
    reveal_strlit("output_index");
    reveal_strlit("text");
    reveal_strlit("refusal");
    reveal_strlit("arguments");
    reveal_strlit("input");
    reveal_strlit("item_id");
    reveal_strlit("content_index");
    assert("output_index"@.len() == 12 && "content_index"@.len() == 13 && "item_id"@.len() == 7);
    assert("text"@.len() == 4 && "arguments"@.len() == 9 && "input"@.len() == 5);
    assert("refusal"@.len() == 7 && "refusal"@[0] == 'r' && "item_id"@[0] == 'i');
}

/// A closing event with an empty text or refusal says what the deltas said, and
/// does not take it away.
pub proof fn said_texts_are_kept(x: OutV, ev: JsonV, mode: CompatMode)
    requires
        ev.is_obj(),
    ensures
        model::blank_text_v(ev.get_text("text"@)) ==> model::delta_event_v(
            x,
            ev,
            Kind::TextDone,
            mode,
        ).get_text("text"@) == Some(x.text),
        model::delta_state_v(x, ev, Kind::TextDone, mode).text == x.text,
        model::blank_text_v(ev.get_text("refusal"@)) ==> model::delta_event_v(
            x,
            ev,
            Kind::RefusalDone,
            mode,
        ).get_text("refusal"@) == Some(x.refusal),
        model::delta_state_v(x, ev, Kind::RefusalDone, mode).refusal == x.refusal,
{
}

/// Arguments that a closing event leaves out or breaks are recovered from the
/// deltas, where these add up to valid JSON: the event carries them, and so
/// does the call that is built.
pub proof fn arguments_are_recovered(x: OutV, ev: JsonV)
    requires
        ev.is_obj(),
        !model::valid_json_v(model::text_or_v(ev.get_text("arguments"@), Seq::empty())),
        model::valid_json_v(x.arguments),
    ensures
        model::delta_event_v(x, ev, Kind::ArgumentsDone, CompatMode::Full).get_text("arguments"@)
            == Some(x.arguments),
        ({
            let y = model::delta_state_v(x, ev, Kind::ArgumentsDone, CompatMode::Full);
            model::name_v(y).len() > 0 && model::call_v(y).len() > 0 ==> {
                &&& model::built_v(y, CompatMode::Full) matches Some(items)
                &&& items.len() == 1
                &&& items[0].get_text("type"@) == Some("function_call"@)
                &&& items[0].get_text("arguments"@) == Some(x.arguments)
            }
        }),
{
    call_keys_stand_apart();
}

proof fn call_keys_stand_apart()
    ensures
        "function_call"@ != "message"@,
        "custom_tool_call"@ != "message"@,
        "custom_tool_call"@ != "function_call"@,
        "type"@ != "status"@,
        "type"@ != "name"@,
        "type"@ != "call_id"@,
        "type"@ != "arguments"@,
        "type"@ != "input"@,
{
    reveal_strlit("function_call");
    reveal_strlit("custom_tool_call");
    reveal_strlit("message");
    reveal_strlit("type");
    reveal_strlit("status");
    reveal_strlit("name");
    reveal_strlit("call_id");
    reveal_strlit("arguments");
    reveal_strlit("input");
    assert("function_call"@.len() == 13 && "custom_tool_call"@.len() == 16 && "message"@.len()
        == 7);
    assert("type"@[0] == 't' && "name"@[0] == 'n');
}

/// A call whose arguments are not valid JSON, or that was never closed, is not
/// built.
pub proof fn broken_calls_are_not_built(x: OutV, mode: CompatMode)
    requires
        x.kind == "function_call"@,
        !model::valid_json_v(model::arguments_v(x)) || !(x.item_done || x.arguments_done),
    ensures
        model::built_v(x, mode) is None,
{
    call_keys_stand_apart();
}

/// The input of a custom tool call is recovered from its deltas where the
/// closing event leaves it out, and an empty input that was stated is an input.
pub proof fn inputs_are_recovered(x: OutV, ev: JsonV)
    requires
        ev.is_obj(),
        x.input_seen || ev.get_text("input"@) is Some,
    ensures
        ({
            let y = model::delta_state_v(x, ev, Kind::InputDone, CompatMode::Full);
            let stated = model::text_or_v(ev.get_text("input"@), Seq::empty());
            &&& y.input == if stated.len() > 0 {
                stated
            } else {
                x.input
            }
            &&& model::delta_event_v(x, ev, Kind::InputDone, CompatMode::Full).get_text("input"@)
                == Some(y.input)
            &&& model::name_v(y).len() > 0 && model::call_v(y).len() > 0 ==> {
                &&& model::built_v(y, CompatMode::Full) matches Some(items)
                &&& items.len() == 1
                &&& items[0].get_text("type"@) == Some("custom_tool_call"@)
                &&& items[0].get_text("input"@) == Some(y.input)
            }
        }),
{
    call_keys_stand_apart();
}

/// A custom tool call of which no input was ever seen is not built.
pub proof fn missing_inputs_are_rejected(x: OutV, mode: CompatMode)
    requires
        x.kind == "custom_tool_call"@,
        !x.input_seen,
    ensures
        model::built_v(x, mode) is None,
{
    call_keys_stand_apart();
}

/// One output that cannot be built leaves a response without a list of its own
/// uncompleted.
pub proof fn unbuilt_outputs_stop_the_response(a: AsmV, response: JsonV, k: int)
    requires
        0 <= k < a.outputs.len(),
        model::built_v(a.outputs[k].1, a.mode) is None,
        match response.get_list("output"@) {
            Some(items) => items.len() == 0 || !model::all_valid_v(items),
            None => true,
        },
    ensures
        model::fill_v(a, response) == Err::<JsonV, Seq<char>>("proxy_incomplete_output"@),
{
    unbuilt_is_none(a.outputs, a.mode, k);
}

proof fn unbuilt_is_none(s: Seq<(u64, OutV)>, mode: CompatMode, k: int)
    requires
        0 <= k < s.len(),
        model::built_v(s[k].1, mode) is None,
    ensures
        model::build_v(s, mode) is None,
    decreases s.len(),
{
    if k < s.len() - 1 {
        unbuilt_is_none(s.drop_last(), mode, k);
    }
}

/// The one item of an output that has one.
pub open spec fn item_of_v(x: OutV, mode: CompatMode) -> JsonV {
    model::built_v(x, mode)->0[0]
}

/// An output that stands in the terminal response.
pub open spec fn stands_v(x: OutV, mode: CompatMode) -> bool {
    model::built_v(x, mode) matches Some(items) && items.len() > 0
}

/// Texts and calls are merged without duplication: the items that are built are
/// those of the outputs that have one, one for each, in the order of their index.
pub proof fn outputs_stand_once(s: Seq<(u64, OutV)>, mode: CompatMode)
    ensures
        model::build_v(s, mode) matches Some(items) ==> items == s.filter(
            |o: (u64, OutV)| stands_v(o.1, mode),
        ).map_values(|o: (u64, OutV)| item_of_v(o.1, mode)),
    decreases s.len(),
{
    reveal(Seq::filter);
    if s.len() > 0 && model::build_v(s, mode) is Some {
        outputs_stand_once(s.drop_last(), mode);
        let stands = |o: (u64, OutV)| stands_v(o.1, mode);
        let item = |o: (u64, OutV)| item_of_v(o.1, mode);
        let before = s.drop_last().filter(stands);
        let own = model::built_v(s.last().1, mode)->0;
        assert(own.len() <= 1);
        if own.len() == 1 {
            assert(own =~= seq![item_of_v(s.last().1, mode)]);
            assert(s.filter(stands) =~= before.push(s.last()));
            assert(before.push(s.last()).map_values(item) =~= before.map_values(item) + own);
        } else {
            assert(own =~= Seq::empty());
            assert(s.filter(stands) =~= before);
            assert(before.map_values(item) + own =~= before.map_values(item));
        }
    }
}

/// With the repair of texts alone no call is built: a stream that does not
/// complete its calls itself fails.
pub proof fn text_repair_builds_no_calls(x: OutV, mode: CompatMode)
    requires
        mode != CompatMode::Full,
        x.kind == "function_call"@ || x.kind == "custom_tool_call"@,
    ensures
        model::built_v(x, mode) is None,
{
    call_keys_stand_apart();
}

/// The outputs stand in ascending order of their index.
pub open spec fn ascending_v(s: Seq<(u64, OutV)>) -> bool {
    forall|j: int, k: int| 0 <= j < k < s.len() ==> (#[trigger] s[j]).0 < (#[trigger] s[k]).0
}

pub proof fn put_stands_apart(s: Seq<(u64, OutV)>, i: u64, x: OutV, j: u64)
    requires
        ascending_v(s),
    ensures
        ascending_v(model::put_v(s, i, x)),
        model::slot_v(model::put_v(s, i, x), i) == Some(x),
        i != j ==> model::slot_v(model::put_v(s, i, x), j) == model::slot_v(s, j),
        model::put_v(s, i, x).len() > 0,
        model::put_v(s, i, x).last().0 == if s.len() == 0 || s.last().0 < i {
            i
        } else {
            s.last().0
        },
    decreases s.len(),
{
    let t = model::put_v(s, i, x);
    if s.len() == 0 || s.last().0 < i {
        assert(t.drop_last() =~= s);
    } else if s.last().0 == i {
        assert(t.drop_last() =~= s.drop_last());
    } else {
        put_stands_apart(s.drop_last(), i, x, j);
        let u = model::put_v(s.drop_last(), i, x);
        assert(t.drop_last() =~= u);
        assert forall|p: int, q: int| 0 <= p < q < t.len() implies (#[trigger] t[p]).0 < (
        #[trigger] t[q]).0 by {
            if q < t.len() - 1 {
                assert(t[p] == u[p] && t[q] == u[q]);
            } else {
                assert(t[p] == u[p]);
                assert(u[p].0 <= u.last().0);
            }
        }
    }
}

/// Outputs do not run into each other: an event changes the output that it
/// belongs to, and leaves every other as it was.
pub proof fn outputs_stay_apart(a: AsmV, ev: JsonV, kind: Kind, j: u64)
    requires
        ascending_v(a.outputs),
        j != model::index_v(a, ev, model::compatible_v(kind)),
    ensures
        ({
            let b = model::output_step_v(a, ev, kind).0;
            &&& ascending_v(b.outputs)
            &&& model::slot_v(b.outputs, j) == model::slot_v(a.outputs, j)
        }),
{
    let i = model::index_v(a, ev, model::compatible_v(kind));
    let n = AsmV { next_index: model::next_v(a, ev, model::compatible_v(kind)), ..a };
    let b = model::bind_v(n, ev, i);
    let x = model::state_v(n, i);
    put_stands_apart(
        a.outputs,
        i,
        OutV {
            id: model::text_or_v(model::item_id_v(ev), x.id),
            call_id: model::text_or_v(model::call_id_v(ev), x.call_id),
            ..x
        },
        j,
    );
    let c = model::output_step_v(a, ev, kind).0;
    assert(exists|y: OutV| c.outputs == model::put_v(b.outputs, i, y));
    let y = choose|y: OutV| c.outputs == model::put_v(b.outputs, i, y);
    put_stands_apart(b.outputs, i, y, j);
}

/// An item ID is bound to the output of the last event that carried it: a later
/// event with this ID and no index belongs to the same output.
pub proof fn item_ids_are_followed(a: AsmV, ev: JsonV, kind: Kind, later: JsonV, other: Kind)
    requires
        model::item_id_v(ev) is Some,
        later.get_text("item_id"@) == model::item_id_v(ev),
        later.get_uint("output_index"@) is None,
    ensures
        model::index_v(model::output_step_v(a, ev, kind).0, later, model::compatible_v(other))
            == model::index_v(a, ev, model::compatible_v(kind)),
{
}

} // verus!
