//! What the assembler of Responses events does, stated over its model.

use vstd::prelude::*;

use crate::json;
use crate::json::JsonV;
use crate::proxy::CompatMode;
use crate::text;

verus! {

/// How many bytes of deltas a stream may accumulate.
pub const MAX_STATE_BYTES: usize = 16777216;

/// The event types that the assembler acts on.
#[derive(Clone, Copy, PartialEq, Eq, Structural)]
pub enum Kind {
    Created,
    InProgress,
    Queued,
    ItemAdded,
    ItemDone,
    TextDelta,
    TextDone,
    RefusalDelta,
    RefusalDone,
    ArgumentsDelta,
    ArgumentsDone,
    InputDelta,
    InputDone,
    Completed,
    Incomplete,
    Failed,
    Error,
    Other,
}

pub open spec fn kind_v(typ: Seq<char>) -> Kind {
    if typ == "response.created"@ {
        Kind::Created
    } else if typ == "response.in_progress"@ {
        Kind::InProgress
    } else if typ == "response.queued"@ {
        Kind::Queued
    } else if typ == "response.output_item.added"@ {
        Kind::ItemAdded
    } else if typ == "response.output_item.done"@ {
        Kind::ItemDone
    } else if typ == "response.output_text.delta"@ {
        Kind::TextDelta
    } else if typ == "response.output_text.done"@ {
        Kind::TextDone
    } else if typ == "response.refusal.delta"@ {
        Kind::RefusalDelta
    } else if typ == "response.refusal.done"@ {
        Kind::RefusalDone
    } else if typ == "response.function_call_arguments.delta"@ {
        Kind::ArgumentsDelta
    } else if typ == "response.function_call_arguments.done"@ {
        Kind::ArgumentsDone
    } else if typ == "response.custom_tool_call_input.delta"@ {
        Kind::InputDelta
    } else if typ == "response.custom_tool_call_input.done"@ {
        Kind::InputDone
    } else if typ == "response.completed"@ {
        Kind::Completed
    } else if typ == "response.incomplete"@ {
        Kind::Incomplete
    } else if typ == "response.failed"@ {
        Kind::Failed
    } else if typ == "error"@ {
        Kind::Error
    } else {
        Kind::Other
    }
}

/// What is known of one output.
#[verifier::ext_equal]
pub struct OutV {
    pub item: JsonV,
    pub id: Seq<char>,
    pub call_id: Seq<char>,
    pub kind: Seq<char>,
    pub text: Seq<char>,
    pub refusal: Seq<char>,
    pub arguments: Seq<char>,
    pub input: Seq<char>,
    pub input_seen: bool,
    pub item_done: bool,
    pub arguments_done: bool,
    pub input_done: bool,
}

/// What the assembler knows of a stream: the outputs are in ascending order of
/// their index.
#[verifier::ext_equal]
pub struct AsmV {
    pub mode: CompatMode,
    pub model: Seq<char>,
    pub response_id: Seq<char>,
    pub snapshot: Option<JsonV>,
    pub seq: u64,
    pub next_index: u64,
    pub outputs: Seq<(u64, OutV)>,
    pub by_item: Map<Seq<char>, u64>,
    pub by_call: Map<Seq<char>, u64>,
    pub terminal: bool,
    pub state_bytes: usize,
}

/// What becomes of an event.
#[verifier::ext_equal]
pub enum NormV {
    Drop,
    Emit(JsonV),
    Fail(Seq<char>),
}

/// An output of which nothing is known.
pub open spec fn blank_v() -> OutV {
    OutV {
        item: JsonV::Null,
        id: Seq::empty(),
        call_id: Seq::empty(),
        kind: Seq::empty(),
        text: Seq::empty(),
        refusal: Seq::empty(),
        arguments: Seq::empty(),
        input: Seq::empty(),
        input_seen: false,
        item_done: false,
        arguments_done: false,
        input_done: false,
    }
}

/// The assembler at the start of a stream.
pub open spec fn start_v(mode: CompatMode, model: Seq<char>, request_id: Seq<char>) -> AsmV {
    AsmV {
        mode,
        model,
        response_id: "resp_"@ + request_id,
        snapshot: None,
        seq: 0,
        next_index: 0,
        outputs: Seq::empty(),
        by_item: Map::empty(),
        by_call: Map::empty(),
        terminal: false,
        state_bytes: 0,
    }
}

/// The output with index `i`, in a list in ascending order.
pub open spec fn slot_v(s: Seq<(u64, OutV)>, i: u64) -> Option<OutV>
    decreases s.len(),
{
    if s.len() == 0 || s.last().0 < i {
        None
    } else if s.last().0 == i {
        Some(s.last().1)
    } else {
        slot_v(s.drop_last(), i)
    }
}

/// The list in ascending order with `x` at index `i`.
pub open spec fn put_v(s: Seq<(u64, OutV)>, i: u64, x: OutV) -> Seq<(u64, OutV)>
    decreases s.len(),
{
    if s.len() == 0 || s.last().0 < i {
        s.push((i, x))
    } else if s.last().0 == i {
        s.drop_last().push((i, x))
    } else {
        put_v(s.drop_last(), i, x).push(s.last())
    }
}

/// The indices of the outputs of a kind.
pub open spec fn of_kind_v(s: Seq<(u64, OutV)>, kind: Seq<char>) -> Seq<u64>
    decreases s.len(),
{
    if s.len() == 0 {
        Seq::empty()
    } else if s.last().1.kind == kind {
        of_kind_v(s.drop_last(), kind).push(s.last().0)
    } else {
        of_kind_v(s.drop_last(), kind)
    }
}

pub open spec fn nonempty_v(s: Option<Seq<char>>) -> Option<Seq<char>> {
    match s {
        Some(t) if t.len() > 0 => Some(t),
        _ => None,
    }
}

pub open spec fn or_v(a: Option<Seq<char>>, b: Option<Seq<char>>) -> Option<Seq<char>> {
    if a is Some {
        a
    } else {
        b
    }
}

pub open spec fn text_or_v(a: Option<Seq<char>>, b: Seq<char>) -> Seq<char> {
    match a {
        Some(t) => t,
        None => b,
    }
}

/// The text of the member `k` of the member `outer`.
pub open spec fn inner_text_v(ev: JsonV, outer: Seq<char>, k: Seq<char>) -> Option<Seq<char>> {
    match ev.get(outer) {
        Some(v) => v.get_text(k),
        None => None,
    }
}

pub open spec fn bound_v(m: Map<Seq<char>, u64>, k: Option<Seq<char>>) -> Option<u64> {
    match k {
        Some(k) => if m.contains_key(k) {
            Some(m[k])
        } else {
            None
        },
        None => None,
    }
}

/// The output that an event names: by its index, by item or call ID, or by the
/// ID of its item.
pub open spec fn named_v(a: AsmV, ev: JsonV) -> Option<u64> {
    let by_item = bound_v(a.by_item, ev.get_text("item_id"@));
    let by_call = bound_v(a.by_call, ev.get_text("call_id"@));
    let by_inner_item = bound_v(a.by_item, inner_text_v(ev, "item"@, "id"@));
    let by_inner_call = bound_v(a.by_call, inner_text_v(ev, "item"@, "call_id"@));
    if by_item is Some {
        by_item
    } else if by_call is Some {
        by_call
    } else if by_inner_item is Some {
        by_inner_item
    } else {
        by_inner_call
    }
}

/// The one open output of a kind, where there is exactly one.
pub open spec fn only_v(a: AsmV, kind: Option<Seq<char>>) -> Option<u64> {
    match kind {
        Some(k) => {
            let candidates = of_kind_v(a.outputs, k);
            if candidates.len() == 1 {
                Some(candidates[0])
            } else {
                None
            }
        },
        None => None,
    }
}

/// The index of the output that an event belongs to: the one that it states,
/// the one that it names, the only open one of its kind, or a new one.
pub open spec fn index_v(a: AsmV, ev: JsonV, kind: Option<Seq<char>>) -> u64 {
    match ev.get_uint("output_index"@) {
        Some(i) => i,
        None => match named_v(a, ev) {
            Some(i) => i,
            None => match only_v(a, kind) {
                Some(i) => i,
                None => a.next_index,
            },
        },
    }
}

pub open spec fn max_v(a: u64, b: u64) -> u64 {
    if a < b {
        b
    } else {
        a
    }
}

/// The next free index, once an event has been given its output.
pub open spec fn next_v(a: AsmV, ev: JsonV, kind: Option<Seq<char>>) -> u64 {
    match ev.get_uint("output_index"@) {
        Some(i) => max_v(a.next_index, i.wrapping_add(1)),
        None => if named_v(a, ev) is None && only_v(a, kind) is None {
            a.next_index.wrapping_add(1)
        } else {
            a.next_index
        },
    }
}

pub open spec fn state_v(a: AsmV, i: u64) -> OutV {
    match slot_v(a.outputs, i) {
        Some(x) => x,
        None => blank_v(),
    }
}

/// The item ID that an event carries.
pub open spec fn item_id_v(ev: JsonV) -> Option<Seq<char>> {
    nonempty_v(or_v(ev.get_text("item_id"@), inner_text_v(ev, "item"@, "id"@)))
}

/// The call ID that an event carries.
pub open spec fn call_id_v(ev: JsonV) -> Option<Seq<char>> {
    nonempty_v(or_v(ev.get_text("call_id"@), inner_text_v(ev, "item"@, "call_id"@)))
}

pub open spec fn rebound_v(
    m: Map<Seq<char>, u64>,
    k: Option<Seq<char>>,
    i: u64,
) -> Map<Seq<char>, u64> {
    match k {
        Some(k) => m.insert(k, i),
        None => m,
    }
}

/// The IDs of an event, bound to its output.
pub open spec fn bind_v(a: AsmV, ev: JsonV, i: u64) -> AsmV {
    let x = state_v(a, i);
    AsmV {
        outputs: put_v(
            a.outputs,
            i,
            OutV {
                id: text_or_v(item_id_v(ev), x.id),
                call_id: text_or_v(call_id_v(ev), x.call_id),
                ..x
            },
        ),
        by_item: rebound_v(a.by_item, item_id_v(ev), i),
        by_call: rebound_v(a.by_call, call_id_v(ev), i),
        ..a
    }
}

/// The kind of output that an event adds to, where its type tells.
pub open spec fn compatible_v(kind: Kind) -> Option<Seq<char>> {
    match kind {
        Kind::TextDelta | Kind::TextDone | Kind::RefusalDelta | Kind::RefusalDone => Some(
            "message"@,
        ),
        Kind::ArgumentsDelta | Kind::ArgumentsDone => Some("function_call"@),
        Kind::InputDelta | Kind::InputDone => Some("custom_tool_call"@),
        _ => None,
    }
}

pub open spec fn is_output_v(kind: Kind) -> bool {
    compatible_v(kind) is Some || kind == Kind::ItemAdded || kind == Kind::ItemDone
}

pub open spec fn blank_text_v(t: Option<Seq<char>>) -> bool {
    nonempty_v(t) is None
}

pub open spec fn valid_json_v(s: Seq<char>) -> bool {
    s.len() > 0 && json::parsed(s) is Some
}

/// What an output's item tells of it.
pub open spec fn item_state_v(x: OutV, ev: JsonV, done: bool) -> OutV {
    match ev.get("item"@) {
        Some(item) => OutV {
            item,
            kind: text_or_v(item.get_text("type"@), Seq::empty()),
            id: text_or_v(item.get_text("id"@), x.id),
            call_id: text_or_v(item.get_text("call_id"@), x.call_id),
            arguments: text_or_v(item.get_text("arguments"@), x.arguments),
            input: text_or_v(item.get_text("input"@), x.input),
            input_seen: x.input_seen || item.get_text("input"@) is Some,
            item_done: done,
            ..x
        },
        None => OutV { item_done: done, ..x },
    }
}

/// An output after an event of its own.
pub open spec fn delta_state_v(x: OutV, ev: JsonV, kind: Kind, mode: CompatMode) -> OutV {
    let delta = ev.get_text("delta"@);
    match kind {
        Kind::ItemAdded => item_state_v(x, ev, false),
        Kind::ItemDone => item_state_v(x, ev, true),
        Kind::TextDelta => match delta {
            Some(d) => OutV { kind: "message"@, text: x.text + d, ..x },
            None => x,
        },
        Kind::TextDone | Kind::RefusalDone => OutV { kind: "message"@, ..x },
        Kind::RefusalDelta => match delta {
            Some(d) => OutV { kind: "message"@, refusal: x.refusal + d, ..x },
            None => x,
        },
        Kind::ArgumentsDelta if mode == CompatMode::Full => match delta {
            Some(d) => OutV { kind: "function_call"@, arguments: x.arguments + d, ..x },
            None => x,
        },
        Kind::ArgumentsDone if mode == CompatMode::Full => {
            let done = text_or_v(ev.get_text("arguments"@), Seq::empty());
            OutV {
                kind: "function_call"@,
                arguments_done: true,
                arguments: if valid_json_v(done) {
                    done
                } else {
                    x.arguments
                },
                ..x
            }
        },
        Kind::InputDelta if mode == CompatMode::Full => match delta {
            Some(d) => OutV {
                kind: "custom_tool_call"@,
                input: x.input + d,
                input_seen: true,
                ..x
            },
            None => x,
        },
        Kind::InputDone if mode == CompatMode::Full => {
            let done = ev.get_text("input"@);
            OutV {
                kind: "custom_tool_call"@,
                input_done: true,
                input_seen: x.input_seen || done is Some,
                input: match done {
                    Some(d) => if d.len() > 0 || x.input.len() == 0 {
                        d
                    } else {
                        x.input
                    },
                    None => x.input,
                },
                ..x
            }
        },
        _ => x,
    }
}

/// The event itself, completed from what its output had before it.
pub open spec fn delta_event_v(x: OutV, ev: JsonV, kind: Kind, mode: CompatMode) -> JsonV {
    match kind {
        Kind::TextDone => if blank_text_v(ev.get_text("text"@)) {
            ev.with("text"@, JsonV::Str(x.text))
        } else {
            ev
        },
        Kind::RefusalDone => if blank_text_v(ev.get_text("refusal"@)) {
            ev.with("refusal"@, JsonV::Str(x.refusal))
        } else {
            ev
        },
        Kind::ArgumentsDone if mode == CompatMode::Full => if !valid_json_v(
            text_or_v(ev.get_text("arguments"@), Seq::empty()),
        ) && valid_json_v(x.arguments) {
            ev.with("arguments"@, JsonV::Str(x.arguments))
        } else {
            ev
        },
        Kind::InputDone if mode == CompatMode::Full => match ev.get_text("input"@) {
            Some(d) => if d.len() > 0 || x.input.len() == 0 {
                ev
            } else {
                ev.with("input"@, JsonV::Str(x.input))
            },
            None => if x.input_seen {
                ev.with("input"@, JsonV::Str(x.input))
            } else {
                ev
            },
        },
        _ => ev,
    }
}

/// How many bytes an event adds to what the assembler holds.
pub open spec fn delta_bytes_v(ev: JsonV, kind: Kind, mode: CompatMode) -> usize {
    let delta = ev.get_text("delta"@);
    if kind == Kind::TextDelta || kind == Kind::RefusalDelta || (mode == CompatMode::Full && (kind
        == Kind::ArgumentsDelta || kind == Kind::InputDelta)) {
        match delta {
            Some(d) => vstd::utf8::encode_utf8(d).len() as usize,
            None => 0,
        }
    } else {
        0
    }
}

/// The ID made up for an output that came without one.
pub open spec fn made_id_v(x: OutV, i: u64, response_id: Seq<char>) -> Seq<char> {
    let tail = if x.call_id.len() == 0 {
        text::decimal_v(i as nat)
    } else {
        x.call_id
    };
    if x.kind == "function_call"@ {
        "fc_"@ + tail
    } else if x.kind == "custom_tool_call"@ {
        "ct_"@ + tail
    } else {
        "msg_"@ + text::strip_all_v(response_id, "resp_"@) + "_"@ + text::decimal_v(i as nat)
    }
}

pub open spec fn with_id_v(x: OutV, id: Seq<char>) -> OutV {
    if x.id.len() == 0 {
        OutV { id, ..x }
    } else {
        x
    }
}

pub open spec fn has_content_v(kind: Kind) -> bool {
    kind == Kind::TextDelta || kind == Kind::TextDone || kind == Kind::RefusalDelta || kind
        == Kind::RefusalDone
}

/// An event that adds to an output, and the assembler after it.
pub open spec fn output_step_v(a: AsmV, ev: JsonV, kind: Kind) -> (AsmV, JsonV) {
    let i = index_v(a, ev, compatible_v(kind));
    let b = bind_v(AsmV { next_index: next_v(a, ev, compatible_v(kind)), ..a }, ev, i);
    let ev1 = ev.with("output_index"@, json::uint_v(i));
    let x = state_v(b, i);
    let y0 = delta_state_v(x, ev1, kind, a.mode);
    let y = with_id_v(y0, made_id_v(y0, i, a.response_id));
    let ev2 = delta_event_v(x, ev1, kind, a.mode).or_with("item_id"@, JsonV::Str(y.id));
    (
        AsmV {
            outputs: put_v(b.outputs, i, y),
            state_bytes: sum_v(a.state_bytes, delta_bytes_v(ev1, kind, a.mode)),
            ..b
        },
        if has_content_v(kind) {
            ev2.or_with("content_index"@, json::uint_v(0))
        } else {
            ev2
        },
    )
}

pub open spec fn sum_v(a: usize, b: usize) -> usize {
    if a + b > usize::MAX {
        usize::MAX
    } else {
        (a + b) as usize
    }
}

/// The event types that belong to an output without adding to its text.
pub open spec fn is_auxiliary_v(typ: Seq<char>) -> bool {
    ||| typ == "response.content_part.added"@
    ||| typ == "response.content_part.done"@
    ||| typ == "response.reasoning_summary_part.added"@
    ||| typ == "response.reasoning_summary_part.done"@
    ||| typ == "response.reasoning_summary_text.delta"@
    ||| typ == "response.reasoning_summary_text.done"@
    ||| text::starts_v(typ, "response.web_search_call."@)
    ||| text::starts_v(typ, "response.file_search_call."@)
    ||| text::starts_v(typ, "response.image_generation_call."@)
    ||| text::starts_v(typ, "response.code_interpreter_call."@)
    ||| text::starts_v(typ, "response.mcp_"@)
}

pub open spec fn auxiliary_kind_v(typ: Seq<char>) -> Seq<char> {
    if text::contains_v(typ, "reasoning_summary"@) {
        "reasoning"@
    } else if text::contains_v(typ, "content_part"@) {
        "message"@
    } else {
        "auxiliary"@
    }
}

pub open spec fn blank_part_v(kind: Seq<char>) -> JsonV {
    json::empty_v().with("type"@, JsonV::Str(kind)).with("text"@, JsonV::Str(""@))
}

/// The content part of an event, completed from the text of its output.
pub open spec fn part_v(ev: JsonV, typ: Seq<char>, text: Seq<char>) -> JsonV {
    let part = match ev.get("part"@) {
        Some(p) => if p.is_obj() {
            p
        } else {
            blank_part_v("output_text"@)
        },
        None => blank_part_v("output_text"@),
    };
    if text::ends_v(typ, ".done"@) && blank_text_v(part.get_text("text"@)) {
        part.with("text"@, JsonV::Str(text))
    } else {
        part
    }
}

/// An auxiliary event completed for output `i`.
pub open spec fn auxiliary_event_v(ev: JsonV, typ: Seq<char>, i: u64, x: OutV) -> JsonV {
    let ev1 = ev.or_with("output_index"@, json::uint_v(i)).or_with("item_id"@, JsonV::Str(x.id));
    let ev2 = if text::contains_v(typ, "content_part"@) {
        let ev2 = ev1.or_with("content_index"@, json::uint_v(0));
        ev2.with("part"@, part_v(ev2, typ, x.text))
    } else {
        ev1
    };
    if text::contains_v(typ, "reasoning_summary"@) {
        let ev3 = ev2.or_with("summary_index"@, json::uint_v(0));
        if text::contains_v(typ, "_part."@) {
            ev3.or_with("part"@, blank_part_v("summary_text"@))
        } else {
            ev3
        }
    } else {
        ev2
    }
}

/// An auxiliary event, and the assembler after it.
pub open spec fn auxiliary_step_v(a: AsmV, ev: JsonV, typ: Seq<char>) -> (AsmV, JsonV) {
    let kind = auxiliary_kind_v(typ);
    let i = index_v(a, ev, Some(kind));
    let b = bind_v(AsmV { next_index: next_v(a, ev, Some(kind)), ..a }, ev, i);
    let x = state_v(b, i);
    let y0 = if x.kind.len() == 0 {
        OutV { kind, ..x }
    } else {
        x
    };
    let y = with_id_v(
        y0,
        "item_"@ + text::strip_all_v(a.response_id, "resp_"@) + "_"@ + text::decimal_v(i as nat),
    );
    (AsmV { outputs: put_v(b.outputs, i, y), ..b }, auxiliary_event_v(ev, typ, i, y))
}

/// An object in place of anything else.
pub open spec fn object_v(v: JsonV) -> JsonV {
    if v.is_obj() {
        v
    } else {
        json::empty_v()
    }
}

/// The details member `k` of a usage record, with its count `n` filled in.
pub open spec fn details_v(usage: JsonV, k: Seq<char>, n: Seq<char>) -> JsonV {
    let details = match usage.get(k) {
        Some(d) => object_v(d),
        None => json::empty_v(),
    };
    if details.get_uint(n) is Some {
        details
    } else {
        details.with(n, json::uint_v(0))
    }
}

pub open spec fn count_v(n: Option<u64>) -> u64 {
    match n {
        Some(n) => n,
        None => 0,
    }
}

/// A usage record with all its counts.
pub open spec fn usage_v(usage: JsonV) -> JsonV {
    if !usage.is_obj() {
        JsonV::Null
    } else {
        let input = count_v(usage.get_uint("input_tokens"@));
        let output = count_v(usage.get_uint("output_tokens"@));
        let total = match usage.get_uint("total_tokens"@) {
            Some(t) => t,
            None => input.wrapping_add(output),
        };
        let u = usage.with("input_tokens"@, json::uint_v(input)).with(
            "output_tokens"@,
            json::uint_v(output),
        ).with("total_tokens"@, json::uint_v(total));
        let u = u.with(
            "input_tokens_details"@,
            details_v(u, "input_tokens_details"@, "cached_tokens"@),
        );
        u.with(
            "output_tokens_details"@,
            details_v(u, "output_tokens_details"@, "reasoning_tokens"@),
        )
    }
}

/// A response object with all that an envelope needs.
pub open spec fn response_v(
    response: JsonV,
    id: Seq<char>,
    model: Seq<char>,
    status: Seq<char>,
    now: u64,
) -> JsonV {
    let r = object_v(response).with("object"@, JsonV::Str("response"@)).with(
        "status"@,
        JsonV::Str(status),
    );
    let r = if blank_text_v(r.get_text("id"@)) {
        r.with("id"@, JsonV::Str(id))
    } else {
        r
    };
    let r = if blank_text_v(r.get_text("model"@)) {
        r.with(
            "model"@,
            JsonV::Str(
                if model.len() == 0 {
                    "unknown"@
                } else {
                    model
                },
            ),
        )
    } else {
        r
    };
    let r = if r.get_uint("created_at"@) is Some {
        r
    } else {
        r.with("created_at"@, json::uint_v(now))
    };
    let r = if r.get_list("output"@) is Some {
        r
    } else {
        r.with("output"@, JsonV::Arr(Seq::empty()))
    };
    match r.get("usage"@) {
        Some(u) => r.with("usage"@, usage_v(u)),
        None => r,
    }
}

/// A content part that says something.
pub open spec fn speaks_v(part: JsonV) -> bool {
    nonempty_v(part.get_text("text"@)) is Some || nonempty_v(part.get_text("refusal"@)) is Some
}

pub open spec fn any_speaks_v(parts: Seq<JsonV>) -> bool {
    exists|i: int| 0 <= i < parts.len() && speaks_v(#[trigger] parts[i])
}

pub open spec fn has_text_v(item: JsonV, k: Seq<char>) -> bool {
    nonempty_v(item.get_text(k)) is Some
}

/// An output item that a client can act on.
pub open spec fn valid_output_v(item: JsonV) -> bool {
    let typ = item.get_text("type"@);
    if typ == Some("message"@) {
        match item.get_list("content"@) {
            Some(parts) => any_speaks_v(parts),
            None => false,
        }
    } else if typ == Some("function_call"@) {
        &&& has_text_v(item, "id"@)
        &&& has_text_v(item, "call_id"@)
        &&& has_text_v(item, "name"@)
        &&& match item.get_text("arguments"@) {
            Some(s) => valid_json_v(s),
            None => false,
        }
    } else if typ == Some("custom_tool_call"@) {
        &&& has_text_v(item, "id"@)
        &&& has_text_v(item, "call_id"@)
        &&& has_text_v(item, "name"@)
        &&& item.get_text("input"@) is Some
    } else {
        false
    }
}

pub open spec fn all_valid_v(items: Seq<JsonV>) -> bool {
    forall|i: int| 0 <= i < items.len() ==> valid_output_v(#[trigger] items[i])
}

pub open spec fn text_part_v(text: Seq<char>) -> JsonV {
    json::empty_v().with("type"@, JsonV::Str("output_text"@)).with("text"@, JsonV::Str(text)).with(
        "annotations"@,
        JsonV::Arr(Seq::empty()),
    ).with("logprobs"@, JsonV::Arr(Seq::empty()))
}

pub open spec fn refusal_part_v(refusal: Seq<char>) -> JsonV {
    json::empty_v().with("type"@, JsonV::Str("refusal"@)).with("refusal"@, JsonV::Str(refusal))
}

pub open spec fn content_v(x: OutV) -> Seq<JsonV> {
    let text = if x.text.len() > 0 {
        seq![text_part_v(x.text)]
    } else {
        Seq::empty()
    };
    if x.refusal.len() > 0 {
        text.push(refusal_part_v(x.refusal))
    } else {
        text
    }
}

pub open spec fn item_head_v(x: OutV, kind: Seq<char>) -> JsonV {
    json::empty_v().with("id"@, JsonV::Str(x.id)).with("type"@, JsonV::Str(kind)).with(
        "status"@,
        JsonV::Str("completed"@),
    )
}

pub open spec fn message_v(x: OutV) -> JsonV {
    item_head_v(x, "message"@).with("role"@, JsonV::Str("assistant"@)).with(
        "content"@,
        JsonV::Arr(content_v(x)),
    )
}

pub open spec fn name_v(x: OutV) -> Seq<char> {
    text_or_v(x.item.get_text("name"@), Seq::empty())
}

pub open spec fn call_v(x: OutV) -> Seq<char> {
    if x.call_id.len() == 0 {
        text_or_v(x.item.get_text("call_id"@), Seq::empty())
    } else {
        x.call_id
    }
}

pub open spec fn arguments_v(x: OutV) -> Seq<char> {
    if valid_json_v(x.arguments) {
        x.arguments
    } else {
        text_or_v(x.item.get_text("arguments"@), Seq::empty())
    }
}

pub open spec fn call_item_v(x: OutV, kind: Seq<char>) -> JsonV {
    item_head_v(x, kind).with("name"@, JsonV::Str(name_v(x))).with("call_id"@, JsonV::Str(call_v(x)))
}

/// What an output contributes to the terminal response: nothing, an item, or
/// the refusal to build any.
pub open spec fn built_v(x: OutV, mode: CompatMode) -> Option<Seq<JsonV>> {
    let full = mode == CompatMode::Full;
    let callable = name_v(x).len() > 0 && call_v(x).len() > 0;
    if x.kind == "message"@ {
        Some(
            if content_v(x).len() > 0 {
                seq![message_v(x)]
            } else {
                Seq::empty()
            },
        )
    } else if x.kind == "function_call"@ {
        if full && callable && valid_json_v(arguments_v(x)) && (x.item_done || x.arguments_done) {
            Some(
                seq![
                    call_item_v(x, "function_call"@).with(
                        "arguments"@,
                        JsonV::Str(arguments_v(x)),
                    ),
                ],
            )
        } else {
            None
        }
    } else if x.kind == "custom_tool_call"@ {
        if full && callable && x.input_seen && (x.item_done || x.input_done) {
            Some(seq![call_item_v(x, "custom_tool_call"@).with("input"@, JsonV::Str(x.input))])
        } else {
            None
        }
    } else {
        Some(Seq::empty())
    }
}

/// The items of all the outputs, in order; `None` where one cannot be built.
pub open spec fn build_v(s: Seq<(u64, OutV)>, mode: CompatMode) -> Option<Seq<JsonV>>
    decreases s.len(),
{
    if s.len() == 0 {
        Some(Seq::empty())
    } else {
        match (build_v(s.drop_last(), mode), built_v(s.last().1, mode)) {
            (Some(before), Some(items)) => Some(before + items),
            _ => None,
        }
    }
}

/// The output list of the terminal response: the one that it has where all its
/// items are valid, else the one built from the deltas.
pub open spec fn terminal_output_v(a: AsmV, response: JsonV) -> Seq<JsonV> {
    let built = match build_v(a.outputs, a.mode) {
        Some(items) => items,
        None => Seq::empty(),
    };
    match response.get_list("output"@) {
        Some(items) => if items.len() > 0 && all_valid_v(items) {
            items
        } else {
            built
        },
        None => built,
    }
}

/// The terminal response with its output list, or why there is none.
pub open spec fn fill_v(a: AsmV, response: JsonV) -> Result<JsonV, Seq<char>> {
    let output = terminal_output_v(a, response);
    if output.len() == 0 && a.outputs.len() == 0 {
        Err("proxy_missing_terminal_output"@)
    } else if output.len() == 0 || !all_valid_v(output) {
        Err("proxy_incomplete_output"@)
    } else {
        Ok(response.with("output"@, JsonV::Arr(output)))
    }
}

/// The type of an event: its own, or that of its frame.
pub open spec fn type_v(ev: JsonV, name: Seq<char>) -> Seq<char> {
    text_or_v(nonempty_v(ev.get_text("type"@)), name)
}

/// The event with its sequence number, and the assembler after it.
pub open spec fn number_v(a: AsmV, ev: JsonV) -> (AsmV, JsonV) {
    match ev.get_uint("sequence_number"@) {
        Some(n) => (AsmV { seq: max_v(a.seq, n), ..a }, ev),
        None => {
            let n = a.seq.wrapping_add(1);
            (AsmV { seq: n, ..a }, ev.with("sequence_number"@, json::uint_v(n)))
        },
    }
}

/// The response ID that an event carries.
pub open spec fn response_id_v(ev: JsonV) -> Option<Seq<char>> {
    nonempty_v(or_v(inner_text_v(ev, "response"@, "id"@), ev.get_text("response_id"@)))
}

/// The event with its envelope, and the assembler after it.
pub open spec fn envelope_v(a: AsmV, ev: JsonV, typ: Seq<char>) -> (AsmV, JsonV) {
    let (b, ev1) = number_v(a, ev);
    let ev2 = ev1.or_with("type"@, JsonV::Str(typ));
    let c = AsmV { response_id: text_or_v(response_id_v(ev2), b.response_id), ..b };
    (c, ev2.or_with("response_id"@, JsonV::Str(c.response_id)))
}

/// The status of the response in an event that opens one.
pub open spec fn opening_status_v(kind: Kind) -> Option<Seq<char>> {
    match kind {
        Kind::Created | Kind::InProgress => Some("in_progress"@),
        Kind::Queued => Some("queued"@),
        _ => None,
    }
}

/// An event that opens a response leaves a snapshot of it.
pub open spec fn opening_v(a: AsmV, ev: JsonV, kind: Kind, now: u64) -> (AsmV, JsonV) {
    match (opening_status_v(kind), ev.get("response"@)) {
        (Some(status), Some(r)) => {
            let r = response_v(r, a.response_id, a.model, status, now);
            (AsmV { snapshot: Some(r), ..a }, ev.with("response"@, r))
        },
        _ => (a, ev),
    }
}

/// An event that ends the stream.
pub open spec fn ending_v(a: AsmV, ev: JsonV, kind: Kind, now: u64) -> (AsmV, NormV) {
    let ended = AsmV { terminal: true, ..a };
    match kind {
        Kind::Completed => match ev.get("response"@) {
            Some(r) => match fill_v(
                ended,
                response_v(r, a.response_id, a.model, "completed"@, now),
            ) {
                Ok(r) => (ended, NormV::Emit(ev.with("response"@, r))),
                Err(e) => (ended, NormV::Fail(e)),
            },
            None => (ended, NormV::Fail("proxy_invalid_terminal_response"@)),
        },
        Kind::Incomplete | Kind::Failed => {
            let status = if kind == Kind::Failed {
                "failed"@
            } else {
                "incomplete"@
            };
            (
                ended,
                NormV::Emit(
                    match ev.get("response"@) {
                        Some(r) => ev.with(
                            "response"@,
                            response_v(r, a.response_id, a.model, status, now),
                        ),
                        None => ev,
                    },
                ),
            )
        },
        Kind::Error => (ended, NormV::Emit(ev)),
        _ => (a, NormV::Emit(ev)),
    }
}

/// The event's effect on the outputs.
pub open spec fn outputs_step_v(a: AsmV, ev: JsonV, typ: Seq<char>) -> (AsmV, JsonV) {
    if is_output_v(kind_v(typ)) {
        output_step_v(a, ev, kind_v(typ))
    } else if is_auxiliary_v(typ) {
        auxiliary_step_v(a, ev, typ)
    } else {
        (a, ev)
    }
}

/// An event that says nothing of the response: it is left out.
pub open spec fn is_aside_v(typ: Seq<char>) -> bool {
    typ == "response.metadata"@ || typ == "keepalive"@
}

/// What becomes of an event, and the assembler after it.
pub open spec fn normalize_v(a: AsmV, ev: JsonV, name: Seq<char>, now: u64) -> (AsmV, NormV) {
    let typ = type_v(ev, name);
    let kind = kind_v(typ);
    if is_aside_v(typ) {
        (a, NormV::Drop)
    } else if !text::starts_v(typ, "response."@) && typ != "error"@ {
        (a, NormV::Emit(ev))
    } else if !ev.is_obj() {
        (number_v(a, ev).0, NormV::Fail("proxy_stream_state_error"@))
    } else {
        let (b, ev1) = envelope_v(a, ev, typ);
        let (c, ev2) = opening_v(b, ev1, kind, now);
        let (d, ev3) = outputs_step_v(c, ev2, typ);
        if d.state_bytes > MAX_STATE_BYTES {
            (d, NormV::Fail("proxy_stream_state_error"@))
        } else {
            ending_v(d, ev3, kind, now)
        }
    }
}

pub open spec fn failure_v(kind: Seq<char>) -> JsonV {
    json::empty_v().with("type"@, JsonV::Str(kind)).with(
        "message"@,
        JsonV::Str("The proxy could not safely assemble a complete Responses stream."@),
    )
}

/// The event that reports a failure, and the assembler after it.
pub open spec fn error_v(a: AsmV, kind: Seq<char>) -> (AsmV, JsonV) {
    let n = a.seq.wrapping_add(1);
    (
        AsmV { terminal: true, seq: n, ..a },
        json::empty_v().with("type"@, JsonV::Str("error"@)).with("sequence_number"@, json::uint_v(n)).with(
            "response_id"@,
            JsonV::Str(a.response_id),
        ).with("error"@, failure_v(kind)),
    )
}

/// The terminal event of a stream that came without one.
pub open spec fn synthetic_v(a: AsmV, now: u64) -> (AsmV, Option<JsonV>) {
    if a.terminal {
        (a, None)
    } else {
        let b = AsmV { terminal: true, ..a };
        let base = match a.snapshot {
            Some(r) => r,
            None => json::empty_v(),
        };
        match fill_v(b, response_v(base, a.response_id, a.model, "completed"@, now)) {
            Ok(r) => {
                let n = a.seq.wrapping_add(1);
                (
                    AsmV { seq: n, ..b },
                    Some(
                        json::empty_v().with("type"@, JsonV::Str("response.completed"@)).with(
                            "sequence_number"@,
                            json::uint_v(n),
                        ).with("response_id"@, JsonV::Str(a.response_id)).with("response"@, r),
                    ),
                )
            },
            Err(e) => {
                let (c, ev) = error_v(b, e);
                (c, Some(ev))
            },
        }
    }
}

/// An event as a frame of the stream.
pub open spec fn frame_v(ev: JsonV) -> Seq<char> {
    "event: "@ + text_or_v(ev.get_text("type"@), Seq::empty()) + "\ndata: "@ + json::json_text(ev)
        + "\n\n"@
}

} // verus!
