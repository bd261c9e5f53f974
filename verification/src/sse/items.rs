//! What the outputs of a repaired stream hold: the texts and calls that came.

use vstd::prelude::*;

use crate::json;
use crate::json::JsonV;
use crate::proxy::CompatMode;
use crate::sse;
use crate::sse::model;
use crate::sse::model::{AsmV, Kind, NormV, OutV};
use crate::sse::recovery;
use crate::text;
use crate::words;

verus! {

/// A call is handed over under the name of its tool, with its own call ID and its
/// own arguments or input, and as completed.
pub proof fn calls_name_their_tool(x: OutV, mode: CompatMode)
    requires
        x.kind == "function_call"@ || x.kind == "custom_tool_call"@,
    ensures
        model::built_v(x, mode) matches Some(items) ==> {
            &&& items.len() == 1
            &&& items[0].get_text("type"@) == Some(x.kind)
            &&& items[0].get_text("name"@) is Some
            &&& items[0].get("name"@) == x.item.get("name"@)
            &&& items[0].get_text("call_id"@) == if x.call_id.len() > 0 {
                Some(x.call_id)
            } else {
                x.item.get_text("call_id"@)
            }
            &&& items[0].get_text("id"@) == Some(x.id)
            &&& items[0].get_text("status"@) == Some("completed"@)
            &&& x.kind == "function_call"@ ==> items[0].get_text("arguments"@)
                == if model::valid_json_v(x.arguments) {
                Some(x.arguments)
            } else {
                x.item.get_text("arguments"@)
            }
            &&& x.kind == "custom_tool_call"@ ==> items[0].get_text("input"@) == Some(x.input)
        },
{
    words::responses();
}

/// A call is built where it has a name and a call ID, was closed, and has
/// arguments that are JSON, or an input.
pub proof fn whole_calls_are_built(x: OutV)
    requires
        x.item.get_text("name"@) matches Some(n) && n.len() > 0,
        x.call_id.len() > 0 || (x.item.get_text("call_id"@) matches Some(c) && c.len() > 0),
        (x.kind == "function_call"@ && json::parsed(x.arguments) is Some && x.arguments.len() > 0
            && (x.item_done || x.arguments_done)) || (x.kind == "custom_tool_call"@ && x.input_seen
            && (x.item_done || x.input_done)),
    ensures
        model::built_v(x, CompatMode::Full) is Some,
{
    words::responses();
}

/// A message is handed over with all its text, and with all of its refusal.
pub proof fn messages_say_what_was_said(x: OutV, mode: CompatMode)
    requires
        x.kind == "message"@,
    ensures
        ({
            let t = if x.text.len() > 0 {
                1int
            } else {
                0
            };
            let r = if x.refusal.len() > 0 {
                1int
            } else {
                0
            };
            &&& model::built_v(x, mode) matches Some(items)
            &&& t + r == 0 ==> items.len() == 0
            &&& t + r > 0 ==> {
                &&& items.len() == 1
                &&& items[0].get_text("type"@) == Some("message"@)
                &&& items[0].get_text("role"@) == Some("assistant"@)
                &&& items[0].get_text("id"@) == Some(x.id)
                &&& items[0].get_text("status"@) == Some("completed"@)
                &&& items[0].get_list("content"@) matches Some(parts)
                &&& parts.len() == t + r
                &&& t > 0 ==> parts[0].get_text("type"@) == Some("output_text"@)
                    && parts[0].get_text("text"@) == Some(x.text)
                &&& r > 0 ==> parts[t].get_text("type"@) == Some("refusal"@)
                    && parts[t].get_text("refusal"@) == Some(x.refusal)
            }
        }),
{
    words::responses();
}

/// What an item tells of its output when it is added or done: its kind, its IDs,
/// its arguments or input. What it does not tell stays.
pub proof fn items_are_taken_over(x: OutV, ev: JsonV, done: bool, mode: CompatMode, item: JsonV)
    requires
        ev.get("item"@) == Some(item),
    ensures
        ({
            let kind = if done {
                Kind::ItemDone
            } else {
                Kind::ItemAdded
            };
            let y = model::delta_state_v(x, ev, kind, mode);
            &&& y.item == item
            &&& y.item_done == done
            &&& item.get_text("type"@) matches Some(s) ==> y.kind == s
            &&& y.id == match item.get_text("id"@) {
                Some(s) => s,
                None => x.id,
            }
            &&& y.call_id == match item.get_text("call_id"@) {
                Some(s) => s,
                None => x.call_id,
            }
            &&& y.arguments == match item.get_text("arguments"@) {
                Some(s) => s,
                None => x.arguments,
            }
            &&& y.input == match item.get_text("input"@) {
                Some(s) => s,
                None => x.input,
            }
            &&& y.input_seen == (x.input_seen || item.get_text("input"@) is Some)
            &&& y.text == x.text && y.refusal == x.refusal
        }),
{
}

/// The deltas of a list of events in a row.
pub open spec fn row_v(events: Seq<JsonV>) -> Seq<char>
    decreases events.len(),
{
    if events.len() == 0 {
        Seq::empty()
    } else {
        row_v(events.drop_last()) + match events.last().get_text("delta"@) {
            Some(s) => s,
            None => Seq::empty(),
        }
    }
}

/// The assembler after a list of events of one kind.
pub open spec fn fed_v(a: AsmV, events: Seq<JsonV>, kind: Kind) -> AsmV
    decreases events.len(),
{
    if events.len() == 0 {
        a
    } else {
        model::output_step_v(fed_v(a, events.drop_last(), kind), events.last(), kind).0
    }
}

/// What the output at `i` has of a kind of delta.
pub open spec fn held_v(a: AsmV, i: u64, kind: Kind) -> Seq<char> {
    let x = model::state_v(a, i);
    match kind {
        Kind::TextDelta => x.text,
        Kind::RefusalDelta => x.refusal,
        Kind::ArgumentsDelta => x.arguments,
        _ => x.input,
    }
}

pub open spec fn is_delta_v(kind: Kind) -> bool {
    kind == Kind::TextDelta || kind == Kind::RefusalDelta || kind == Kind::ArgumentsDelta || kind
        == Kind::InputDelta
}

proof fn a_delta_is_added(a: AsmV, ev: JsonV, kind: Kind, i: u64)
    requires
        recovery::ascending_v(a.outputs),
        a.mode == CompatMode::Full,
        ev.is_obj(),
        ev.get_uint("output_index"@) == Some(i),
        is_delta_v(kind),
    ensures
        ({
            let b = model::output_step_v(a, ev, kind).0;
            &&& recovery::ascending_v(b.outputs)
            &&& b.mode == a.mode
            &&& held_v(b, i, kind) == held_v(a, i, kind) + row_v(seq![ev])
            &&& forall|k: Kind|
                is_delta_v(k) && k != kind ==> #[trigger] held_v(b, i, k) == held_v(a, i, k)
        }),
{
    words::responses();
    let n = AsmV { next_index: model::next_v(a, ev, model::compatible_v(kind)), ..a };
    let x = model::state_v(n, i);
    let bound = OutV {
        id: model::text_or_v(model::item_id_v(ev), x.id),
        call_id: model::text_or_v(model::call_id_v(ev), x.call_id),
        ..x
    };
    recovery::put_stands_apart(a.outputs, i, bound, i);
    let b = model::bind_v(n, ev, i);
    assert(model::state_v(b, i) == bound);
    let ev1 = ev.with("output_index"@, json::uint_v(i));
    let y0 = model::delta_state_v(bound, ev1, kind, a.mode);
    let y = model::with_id_v(y0, model::made_id_v(y0, i, a.response_id));
    recovery::put_stands_apart(b.outputs, i, y, i);
    assert(ev1.get_text("delta"@) == ev.get_text("delta"@));
    let none = Seq::<JsonV>::empty();
    assert(seq![ev].drop_last() =~= none);
    assert(row_v(none) =~= Seq::<char>::empty());
    let piece = match ev.get_text("delta"@) {
        Some(s) => s,
        None => Seq::empty(),
    };
    assert(row_v(seq![ev]) =~= piece);
    assert(held_v(a, i, kind) + Seq::<char>::empty() =~= held_v(a, i, kind));
    let c = model::output_step_v(a, ev, kind).0;
    assert(model::state_v(c, i) == y);
}

/// Deltas add up, in the order in which they came: the text, the refusal, the
/// arguments or the input of an output is that of its deltas in a row, after what
/// it had before.
pub proof fn deltas_add_up(a: AsmV, events: Seq<JsonV>, kind: Kind, i: u64)
    requires
        recovery::ascending_v(a.outputs),
        a.mode == CompatMode::Full,
        is_delta_v(kind),
        forall|k: int|
            0 <= k < events.len() ==> (#[trigger] events[k]).is_obj() && events[k].get_uint(
                "output_index"@,
            ) == Some(i),
    ensures
        recovery::ascending_v(fed_v(a, events, kind).outputs),
        fed_v(a, events, kind).mode == a.mode,
        held_v(fed_v(a, events, kind), i, kind) == held_v(a, i, kind) + row_v(events),
    decreases events.len(),
{
    if events.len() == 0 {
        assert(held_v(a, i, kind) + row_v(events) =~= held_v(a, i, kind));
    } else {
        let d = events.drop_last();
        assert forall|k: int| 0 <= k < d.len() implies (#[trigger] d[k]).is_obj() && d[k].get_uint(
            "output_index"@,
        ) == Some(i) by {
            assert(d[k] == events[k]);
        }
        deltas_add_up(a, d, kind, i);
        let last = events[events.len() - 1];
        a_delta_is_added(fed_v(a, d, kind), last, kind, i);
        let none = Seq::<JsonV>::empty();
        assert(seq![last].drop_last() =~= none);
        assert(row_v(none) =~= Seq::<char>::empty());
        assert((held_v(a, i, kind) + row_v(d)) + row_v(seq![last]) =~= held_v(a, i, kind) + row_v(
            events,
        ));
    }
}

/// A delta is passed on as it came.
pub proof fn deltas_are_passed_on(a: AsmV, ev: JsonV, kind: Kind)
    requires
        ev.is_obj(),
        is_delta_v(kind),
    ensures
        model::output_step_v(a, ev, kind).1.get("delta"@) == ev.get("delta"@),
{
    words::responses();
}

/// An event with a call ID and no index belongs to the output of the last event
/// that carried that call ID, unless an item ID says otherwise.
pub proof fn call_ids_are_followed(a: AsmV, ev: JsonV, kind: Kind, later: JsonV, other: Kind)
    requires
        model::call_id_v(ev) is Some,
        later.get_text("call_id"@) == model::call_id_v(ev),
        later.get_text("item_id"@) is None,
        later.get_uint("output_index"@) is None,
    ensures
        model::index_v(model::output_step_v(a, ev, kind).0, later, model::compatible_v(other))
            == model::index_v(a, ev, model::compatible_v(kind)),
{
}

/// An event that states its index belongs there. One that neither states it nor
/// names its output belongs to the one open output of its kind, where there is
/// just one, and else begins a new one.
pub proof fn events_find_their_output(a: AsmV, ev: JsonV, kind: Kind)
    ensures
        ({
            let i = model::index_v(a, ev, model::compatible_v(kind));
            let open = match model::compatible_v(kind) {
                Some(k) => a.outputs.filter(|o: (u64, OutV)| o.1.kind == k),
                None => Seq::empty(),
            };
            let named = ev.get_text("item_id"@) is Some || ev.get_text("call_id"@) is Some
                || ev.get("item"@) is Some;
            &&& ev.get_uint("output_index"@) matches Some(n) ==> i == n
            &&& ev.get_uint("output_index"@) is None && !named ==> if open.len() == 1 {
                i == open[0].0
            } else {
                i == a.next_index
            }
        }),
{
    if let Some(k) = model::compatible_v(kind) {
        kinds_are_filtered(a.outputs, k);
    }
}

proof fn kinds_are_filtered(s: Seq<(u64, OutV)>, kind: Seq<char>)
    ensures
        model::of_kind_v(s, kind) == s.filter(|o: (u64, OutV)| o.1.kind == kind).map_values(
            |o: (u64, OutV)| o.0,
        ),
    decreases s.len(),
{
    reveal(Seq::filter);
    let f = |o: (u64, OutV)| o.1.kind == kind;
    let g = |o: (u64, OutV)| o.0;
    if s.len() > 0 {
        kinds_are_filtered(s.drop_last(), kind);
        let before = s.drop_last().filter(f);
        assert(before.push(s.last()).map_values(g) =~= before.map_values(g).push(s.last().0));
    } else {
        assert(s.filter(f).map_values(g) =~= Seq::<u64>::empty());
    }
}

/// The kinds of output that events without a place of their own add to.
pub proof fn kinds_of_output(kind: Kind)
    ensures
        kind == Kind::TextDelta || kind == Kind::TextDone || kind == Kind::RefusalDelta || kind
            == Kind::RefusalDone ==> model::compatible_v(kind) == Some("message"@),
        kind == Kind::ArgumentsDelta || kind == Kind::ArgumentsDone ==> model::compatible_v(kind)
            == Some("function_call"@),
        kind == Kind::InputDelta || kind == Kind::InputDone ==> model::compatible_v(kind) == Some(
            "custom_tool_call"@,
        ),
        kind == Kind::ItemAdded || kind == Kind::ItemDone ==> model::compatible_v(kind) is None,
{
}

/// A new output has an index that none had: the next one.
pub proof fn new_outputs_are_new(a: AsmV, ev: JsonV, kind: Kind)
    requires
        a.next_index < u64::MAX,
        ev.get_uint("output_index"@) is None,
        model::named_v(a, ev) is None,
        model::only_v(a, model::compatible_v(kind)) is None,
    ensures
        model::output_step_v(a, ev, kind).0.next_index == a.next_index + 1,
{
}

/// Deltas also say of what kind their output is.
pub proof fn deltas_tell_the_kind(x: OutV, ev: JsonV)
    requires
        ev.get_text("delta"@) is Some,
    ensures
        model::delta_state_v(x, ev, Kind::TextDelta, CompatMode::Full).kind == "message"@,
        model::delta_state_v(x, ev, Kind::RefusalDelta, CompatMode::Full).kind == "message"@,
        model::delta_state_v(x, ev, Kind::ArgumentsDelta, CompatMode::Full).kind
            == "function_call"@,
        model::delta_state_v(x, ev, Kind::InputDelta, CompatMode::Full).kind
            == "custom_tool_call"@,
        model::delta_state_v(x, ev, Kind::ArgumentsDone, CompatMode::Full).arguments_done,
        model::delta_state_v(x, ev, Kind::InputDone, CompatMode::Full).input_done,
        model::delta_state_v(x, ev, Kind::InputDelta, CompatMode::Full).input_seen,
{
}

/// Arguments that a closing event states are taken over where they are JSON.
pub proof fn stated_arguments_are_taken(x: OutV, ev: JsonV, s: Seq<char>)
    requires
        ev.get_text("arguments"@) == Some(s),
        s.len() > 0,
        json::parsed(s) is Some,
    ensures
        model::delta_state_v(x, ev, Kind::ArgumentsDone, CompatMode::Full).arguments == s,
        model::delta_event_v(x, ev, Kind::ArgumentsDone, CompatMode::Full) == ev,
{
}

/// A response of a stream keeps what it has: the members that are not those of
/// an envelope, its own ID, model and time. What it lacks of these it gets from
/// the stream; its status is the one that the event gives it.
pub proof fn responses_keep_what_they_have(
    response: JsonV,
    id: Seq<char>,
    name: Seq<char>,
    status: Seq<char>,
    now: u64,
    k: Seq<char>,
)
    requires
        response.is_obj(),
    ensures
        ({
            let r = model::response_v(response, id, name, status, now);
            &&& r.get_text("object"@) == Some("response"@)
            &&& r.get_text("status"@) == Some(status)
            &&& r.get_text("id"@) == if response.get_text("id"@) is Some && response.get_text(
                "id"@,
            )->0.len() > 0 {
                response.get_text("id"@)
            } else {
                Some(id)
            }
            &&& r.get_text("model"@) == if response.get_text("model"@) is Some
                && response.get_text("model"@)->0.len() > 0 {
                response.get_text("model"@)
            } else if name.len() > 0 {
                Some(name)
            } else {
                Some("unknown"@)
            }
            &&& r.get_uint("created_at"@) == if response.get_uint("created_at"@) is Some {
                response.get_uint("created_at"@)
            } else {
                Some(now)
            }
            &&& r.get_list("output"@) == if response.get_list("output"@) is Some {
                response.get_list("output"@)
            } else {
                Some(Seq::<JsonV>::empty())
            }
            &&& k != "object"@ && k != "status"@ && k != "id"@ && k != "model"@ && k
                != "created_at"@ && k != "output"@ && k != "usage"@ ==> r.get(k) == response.get(k)
            &&& response.get("usage"@) is None ==> r.get("usage"@) is None
        }),
{
    words::responses();
}

/// The usage of a response keeps its counts; a total that is missing is the sum,
/// and other counts that are missing are zero.
pub proof fn usages_keep_their_counts(usage: JsonV)
    requires
        usage.is_obj(),
    ensures
        ({
            let u = model::usage_v(usage);
            let input = match usage.get_uint("input_tokens"@) {
                Some(n) => n,
                None => 0,
            };
            let output = match usage.get_uint("output_tokens"@) {
                Some(n) => n,
                None => 0,
            };
            &&& u.get_uint("input_tokens"@) == Some(input)
            &&& u.get_uint("output_tokens"@) == Some(output)
            &&& usage.get_uint("total_tokens"@) matches Some(n) ==> u.get_uint("total_tokens"@)
                == Some(n)
            &&& usage.get_uint("total_tokens"@) is None && input + output <= u64::MAX
                ==> u.get_uint("total_tokens"@) == Some((input + output) as u64)
            &&& u.get("input_tokens_details"@) matches Some(d) && d.get_uint("cached_tokens"@)
                == match usage.get("input_tokens_details"@) {
                Some(given) => if given.get_uint("cached_tokens"@) is Some {
                    given.get_uint("cached_tokens"@)
                } else {
                    Some(0u64)
                },
                None => Some(0u64),
            }
            &&& u.get("output_tokens_details"@) matches Some(d) && d.get_uint(
                "reasoning_tokens"@,
            ) == match usage.get("output_tokens_details"@) {
                Some(given) => if given.get_uint("reasoning_tokens"@) is Some {
                    given.get_uint("reasoning_tokens"@)
                } else {
                    Some(0u64)
                },
                None => Some(0u64),
            }
        }),
{
    words::responses();
}

/// A list of outputs that is whole is handed over as it came; else the list that
/// was put together from the stream takes its place. The rest of the response
/// stays.
pub proof fn outputs_are_handed_over(a: AsmV, response: JsonV, k: Seq<char>)
    requires
        response.is_obj(),
    ensures
        model::fill_v(a, response) matches Ok(r) ==> {
            &&& response.get_list("output"@) matches Some(items) ==> items.len() > 0 && (
            forall|i: int| 0 <= i < items.len() ==> model::valid_output_v(#[trigger] items[i]))
                ==> r.get_list("output"@) == Some(items)
            &&& response.get_list("output"@) is None || response.get_list("output"@)->0.len() == 0
                ==> (model::build_v(a.outputs, a.mode) matches Some(built) && r.get_list("output"@)
                == Some(built))
            &&& k != "output"@ ==> r.get(k) == response.get(k)
        },
{
    words::responses();
}

/// A member that is a text, and not an empty one.
pub open spec fn says_v(v: JsonV, k: Seq<char>) -> bool {
    v.get_text(k) matches Some(s) && s.len() > 0
}

/// A call that a client can run: an ID, a call ID, a name, and arguments that are
/// JSON.
pub proof fn valid_calls_can_be_run(item: JsonV)
    requires
        model::valid_output_v(item),
    ensures
        item.get_text("type"@) == Some("function_call"@) ==> {
            &&& item.get_text("name"@) matches Some(n) && n.len() > 0
            &&& item.get_text("call_id"@) matches Some(c) && c.len() > 0
            &&& item.get_text("id"@) matches Some(d) && d.len() > 0
            &&& item.get_text("arguments"@) matches Some(s) && json::parsed(s) is Some
        },
        item.get_text("type"@) == Some("custom_tool_call"@) ==> {
            &&& item.get_text("name"@) matches Some(n) && n.len() > 0
            &&& item.get_text("call_id"@) matches Some(c) && c.len() > 0
            &&& item.get_text("id"@) matches Some(d) && d.len() > 0
            &&& item.get_text("input"@) is Some
        },
        item.get_text("type"@) == Some("message"@) ==> (item.get_list("content"@) matches Some(
            parts,
        ) && exists|i: int|
            0 <= i < parts.len() && (says_v(#[trigger] parts[i], "text"@) || says_v(
                parts[i],
                "refusal"@,
            ))),
        item.get_text("type"@) == Some("message"@) || item.get_text("type"@) == Some(
            "function_call"@,
        ) || item.get_text("type"@) == Some("custom_tool_call"@),
{
    words::responses();
    if item.get_text("type"@) == Some("message"@) {
        let parts = item.get_list("content"@)->0;
        let i = choose|i: int| 0 <= i < parts.len() && model::speaks_v(#[trigger] parts[i]);
        assert(says_v(parts[i], "text"@) || says_v(parts[i], "refusal"@));
    }
}

/// A completed stream without an end of its own is given one: with the members of
/// the response that it opened with, and the outputs that came.
pub proof fn made_up_ends_hold_the_outputs(a: AsmV, now: u64, built: Seq<JsonV>)
    requires
        !a.terminal,
        a.snapshot is None || a.snapshot->0.is_obj(),
        a.snapshot is None || a.snapshot->0.get_list("output"@) is None || a.snapshot->0.get_list(
            "output"@,
        ) == Some(Seq::<JsonV>::empty()),
        model::build_v(a.outputs, a.mode) == Some(built),
        built.len() > 0,
        model::all_valid_v(built),
    ensures
        ({
            &&& model::synthetic_v(a, now).1 matches Some(ev)
            &&& ev.get_text("type"@) == Some("response.completed"@)
            &&& ev.get_text("response_id"@) == Some(a.response_id)
            &&& ev.get("response"@) matches Some(r)
            &&& r.get_text("status"@) == Some("completed"@)
            &&& r.get_list("output"@) == Some(built)
            &&& a.snapshot matches Some(opened) ==> (opened.get_text("id"@) matches Some(id)
                ==> id.len() > 0 ==> r.get_text("id"@) == Some(id))
            &&& a.snapshot is None ==> r.get_text("id"@) == Some(a.response_id)
        }),
{
    words::responses();
    let base = match a.snapshot {
        Some(r) => r,
        None => json::empty_v(),
    };
    responses_keep_what_they_have(base, a.response_id, a.model, "completed"@, now, "id"@);
}

/// A failure of the repair is told as an error of its kind, with the ID of the
/// response.
pub proof fn failures_are_told(a: AsmV, kind: Seq<char>)
    ensures
        ({
            let (b, ev) = model::error_v(a, kind);
            &&& b.terminal
            &&& ev.get_text("type"@) == Some("error"@)
            &&& ev.get_text("response_id"@) == Some(a.response_id)
            &&& ev.get("error"@) matches Some(e)
            &&& e.get_text("type"@) == Some(kind)
            &&& e.get_text("message"@) is Some
        }),
{
    words::responses();
}

/// The response ID that an event is given is that of its response, where it has
/// one, and else that of the stream, which follows the responses that it names.
pub proof fn response_ids_are_the_streams(a: AsmV, ev: JsonV, typ: Seq<char>)
    requires
        ev.is_obj(),
        ev.get("response_id"@) is None,
    ensures
        ({
            let (b, out) = model::envelope_v(a, ev, typ);
            let own = match ev.get("response"@) {
                Some(r) => r.get_text("id"@),
                None => None,
            };
            &&& out.get_text("response_id"@) == Some(b.response_id)
            &&& b.response_id == if own is Some && own->0.len() > 0 {
                own->0
            } else {
                a.response_id
            }
        }),
{
    words::responses();
}

/// The events that open a response are passed on with it in progress, or queued,
/// and it is remembered.
pub proof fn openings_are_remembered(a: AsmV, ev: JsonV, kind: Kind, now: u64, r: JsonV)
    requires
        ev.get("response"@) == Some(r),
        kind == Kind::Created || kind == Kind::InProgress || kind == Kind::Queued,
    ensures
        ({
            let (b, out) = model::opening_v(a, ev, kind, now);
            &&& b.snapshot is Some
            &&& out.get("response"@) == b.snapshot
            &&& b.snapshot->0.get_text("status"@) == Some(
                if kind == Kind::Queued {
                    "queued"@
                } else {
                    "in_progress"@
                },
            )
            &&& r.is_obj() ==> (r.get_text("id"@) matches Some(id) ==> id.len() > 0
                ==> b.snapshot->0.get_text("id"@) == Some(id))
        }),
{
    words::responses();
    if r.is_obj() {
        let status = if kind == Kind::Queued {
            "queued"@
        } else {
            "in_progress"@
        };
        responses_keep_what_they_have(r, a.response_id, a.model, status, now, "id"@);
    }
}

/// Events about parts of an output keep what they state of their place, and get
/// it where they do not; a part that closes without its text gets the text that
/// came.
pub proof fn parts_find_their_place(a: AsmV, ev: JsonV, typ: Seq<char>)
    requires
        ev.is_obj(),
    ensures
        ({
            let (b, out) = model::auxiliary_step_v(a, ev, typ);
            let i = model::index_v(a, ev, Some(model::auxiliary_kind_v(typ)));
            &&& out.get("output_index"@) == match ev.get("output_index"@) {
                Some(v) => Some(v),
                None => Some(json::uint_v(i)),
            }
            &&& ev.get("item_id"@) is Some ==> out.get("item_id"@) == ev.get("item_id"@)
            &&& out.get_text("item_id"@) is Some || ev.get("item_id"@) is Some
            &&& text::contains_v(typ, "content_part"@) ==> out.get("content_index"@) is Some
                && out.get("part"@) is Some
            &&& text::contains_v(typ, "reasoning_summary"@) ==> out.get("summary_index"@) is Some
            &&& ev.get("content_index"@) is Some ==> out.get("content_index"@) == ev.get(
                "content_index"@,
            )
            &&& ev.get("summary_index"@) is Some ==> out.get("summary_index"@) == ev.get(
                "summary_index"@,
            )
        }),
{
    words::responses();
}

/// The text of a part: its own, or where it closes without one that of its output.
pub proof fn closed_parts_have_their_text(ev: JsonV, typ: Seq<char>, said: Seq<char>, part: JsonV)
    requires
        ev.get("part"@) == Some(part),
        part.is_obj(),
    ensures
        ({
            let p = model::part_v(ev, typ, said);
            &&& part.get_text("text"@) matches Some(s) ==> s.len() > 0 ==> p == part
            &&& !text::ends_v(typ, ".done"@) ==> p == part
            &&& text::ends_v(typ, ".done"@) && (part.get_text("text"@) is None
                || part.get_text("text"@)->0.len() == 0) ==> p.get_text("text"@) == Some(said)
        }),
{
    words::responses();
}

/// A frame names the type of its event on a line, and holds the event on the next.
pub proof fn frames_hold_their_event(ev: JsonV, typ: Seq<char>)
    requires
        ev.get_text("type"@) == Some(typ),
    ensures
        model::frame_v(ev) == "event: "@ + typ + "\ndata: "@ + json::json_text(ev) + "\n\n"@,
{
}

/// What the type of an event says that it is.
pub proof fn types_have_their_kind()
    ensures
        model::kind_v("response.created"@) == Kind::Created,
        model::kind_v("response.in_progress"@) == Kind::InProgress,
        model::kind_v("response.queued"@) == Kind::Queued,
        model::kind_v("response.output_item.added"@) == Kind::ItemAdded,
        model::kind_v("response.output_item.done"@) == Kind::ItemDone,
        model::kind_v("response.output_text.delta"@) == Kind::TextDelta,
        model::kind_v("response.output_text.done"@) == Kind::TextDone,
        model::kind_v("response.refusal.delta"@) == Kind::RefusalDelta,
        model::kind_v("response.refusal.done"@) == Kind::RefusalDone,
        model::kind_v("response.function_call_arguments.delta"@) == Kind::ArgumentsDelta,
        model::kind_v("response.function_call_arguments.done"@) == Kind::ArgumentsDone,
        model::kind_v("response.custom_tool_call_input.delta"@) == Kind::InputDelta,
        model::kind_v("response.custom_tool_call_input.done"@) == Kind::InputDone,
        model::kind_v("response.completed"@) == Kind::Completed,
        model::kind_v("response.incomplete"@) == Kind::Incomplete,
        model::kind_v("response.failed"@) == Kind::Failed,
        model::kind_v("error"@) == Kind::Error,
{
    words::events();
}

/// Frames that hold no event of a response pass as they are, byte for byte.
pub proof fn other_frames_pass(a: AsmV, frame: Seq<u8>, now: u64)
    ensures
        ({
            let lines = text::lines_v(text::unix_v(text::utf8_lossy(frame)));
            let data = text::join_v(sse::frame_data_v(lines), "\n"@);
            let dropped = sse::frame_name_v(lines) == Some("response.metadata"@)
                || sse::frame_name_v(lines) == Some("keepalive"@);
            &&& dropped ==> sse::process_v(a, frame, now) == (a, Seq::<u8>::empty())
            &&& !dropped && (sse::frame_data_v(lines).len() == 0 || (data != "[DONE]"@
                && json::parsed(data) is None)) ==> sse::process_v(a, frame, now) == (a, frame)
        }),
{
    reveal(sse::process_v);
}

proof fn ends_add_to_no_output(typ: Seq<char>)
    requires
        typ == "response.completed"@ || typ == "response.incomplete"@ || typ == "response.failed"@,
    ensures
        !model::is_output_v(model::kind_v(typ)),
        !model::is_auxiliary_v(typ),
        !model::is_aside_v(typ),
        model::opening_status_v(model::kind_v(typ)) is None,
        text::starts_v(typ, "response."@),
{
    words::events();
    types_have_their_kind();
    reveal_strlit("response.completed");
    reveal_strlit("response.incomplete");
    reveal_strlit("response.failed");
    reveal_strlit("response.");
    reveal_strlit("response.web_search_call.");
    reveal_strlit("response.file_search_call.");
    reveal_strlit("response.image_generation_call.");
    reveal_strlit("response.code_interpreter_call.");
    reveal_strlit("response.mcp_");
    assert("response.web_search_call."@.len() == 25);
    assert("response.file_search_call."@.len() == 26);
    assert("response.image_generation_call."@.len() == 31);
    assert("response.code_interpreter_call."@.len() == 31);
    assert("response.mcp_"@.len() == 13 && "response.mcp_"@[9] == 'm');
    assert(typ[9] == 'c' || typ[9] == 'i' || typ[9] == 'f');
    if text::starts_v(typ, "response.mcp_"@) {
        assert(typ.take(13)[9] == typ[9]);
    }
    assert(typ.take(9) =~= "response."@);
}

/// An event that ends a response keeps the response that it came with, but for
/// its envelope and the outputs of a completed one: it is the same response, with
/// the status of the event.
pub proof fn ends_keep_their_response(
    a: AsmV,
    ev: JsonV,
    name: Seq<char>,
    now: u64,
    r: JsonV,
    k: Seq<char>,
)
    requires
        ev.get("response"@) == Some(r),
        r.is_obj(),
        ({
            let typ = model::type_v(ev, name);
            typ == "response.completed"@ || typ == "response.incomplete"@ || typ
                == "response.failed"@
        }),
    ensures
        model::normalize_v(a, ev, name, now).1 matches NormV::Emit(out) ==> {
            let typ = model::type_v(ev, name);
            &&& out.get("response"@) matches Some(q)
            &&& q.get_text("status"@) == Some(
                if typ == "response.completed"@ {
                    "completed"@
                } else if typ == "response.incomplete"@ {
                    "incomplete"@
                } else {
                    "failed"@
                },
            )
            &&& r.get_text("id"@) matches Some(id) ==> id.len() > 0 ==> q.get_text("id"@) == Some(id)
            &&& k != "object"@ && k != "status"@ && k != "id"@ && k != "model"@ && k
                != "created_at"@ && k != "output"@ && k != "usage"@ ==> q.get(k) == r.get(k)
            &&& typ == "response.completed"@ && (r.get_list("output"@) matches Some(items)
                && items.len() > 0 && model::all_valid_v(items)) ==> q.get("output"@) == r.get(
                "output"@,
            )
            &&& typ != "response.completed"@ && r.get_list("output"@) is Some ==> q.get("output"@)
                == r.get("output"@)
        },
{
    words::responses();
    words::events();
    types_have_their_kind();
    let typ = model::type_v(ev, name);
    ends_add_to_no_output(typ);
    let (b, ev1) = model::envelope_v(a, ev, typ);
    assert(ev1.get("response"@) == Some(r));
    let status = if typ == "response.completed"@ {
        "completed"@
    } else if typ == "response.incomplete"@ {
        "incomplete"@
    } else {
        "failed"@
    };
    responses_keep_what_they_have(r, b.response_id, b.model, status, now, k);
    responses_keep_what_they_have(r, b.response_id, b.model, status, now, "id"@);
    let full = model::response_v(r, b.response_id, b.model, status, now);
    outputs_are_handed_over(AsmV { terminal: true, ..b }, full, k);
    outputs_are_handed_over(AsmV { terminal: true, ..b }, full, "id"@);
    outputs_are_handed_over(AsmV { terminal: true, ..b }, full, "status"@);
}

} // verus!
