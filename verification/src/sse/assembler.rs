//! The assembler of Responses events.

use vstd::prelude::*;

use crate::json;
use crate::json::{Json, JsonV};
use crate::names::NameMap;
use crate::proxy::CompatMode;
use crate::sse::model;
use crate::sse::model::{AsmV, Kind, NormV, OutV};
use crate::text;

verus! {

/// What is known of one output.
pub struct OutputState {
    pub item: Json,
    pub id: String,
    pub call_id: String,
    pub kind: String,
    pub text: String,
    pub refusal: String,
    pub arguments: String,
    pub input: String,
    pub input_seen: bool,
    pub item_done: bool,
    pub arguments_done: bool,
    pub input_done: bool,
}

impl OutputState {
    pub open spec fn view(&self) -> OutV {
        OutV {
            item: self.item@,
            id: self.id@,
            call_id: self.call_id@,
            kind: self.kind@,
            text: self.text@,
            refusal: self.refusal@,
            arguments: self.arguments@,
            input: self.input@,
            input_seen: self.input_seen,
            item_done: self.item_done,
            arguments_done: self.arguments_done,
            input_done: self.input_done,
        }
    }

    fn blank() -> (r: OutputState)
        ensures
            r@ == model::blank_v(),
    {
        OutputState {
            item: Json::Null,
            id: String::new(),
            call_id: String::new(),
            kind: String::new(),
            text: String::new(),
            refusal: String::new(),
            arguments: String::new(),
            input: String::new(),
            input_seen: false,
            item_done: false,
            arguments_done: false,
            input_done: false,
        }
    }
}

/// An output and its index.
pub struct Slot {
    pub index: u64,
    pub state: OutputState,
}

impl Slot {
    pub open spec fn view(&self) -> (u64, OutV) {
        (self.index, self.state@)
    }
}

pub open spec fn slots_v(s: Seq<Slot>) -> Seq<(u64, OutV)> {
    s.map_values(|x: Slot| x@)
}

/// What the assembler knows of a stream.
pub struct Assembler {
    pub mode: CompatMode,
    pub model: String,
    pub response_id: String,
    pub snapshot: Option<Json>,
    pub seq: u64,
    pub next_index: u64,
    pub outputs: Vec<Slot>,
    pub by_item: NameMap,
    pub by_call: NameMap,
    pub terminal: bool,
    pub state_bytes: usize,
}

impl Assembler {
    pub open spec fn view(&self) -> AsmV {
        AsmV {
            mode: self.mode,
            model: self.model@,
            response_id: self.response_id@,
            snapshot: match self.snapshot {
                Some(j) => Some(j@),
                None => None,
            },
            seq: self.seq,
            next_index: self.next_index,
            outputs: slots_v(self.outputs@),
            by_item: self.by_item@,
            by_call: self.by_call@,
            terminal: self.terminal,
            state_bytes: self.state_bytes,
        }
    }
}

proof fn put_at(s: Seq<(u64, OutV)>, i: u64, x: OutV, j: int)
    requires
        0 <= j <= s.len(),
        forall|k: int| j <= k < s.len() ==> (#[trigger] s[k]).0 > i,
        j > 0 ==> s[j - 1].0 <= i,
    ensures
        j > 0 && s[j - 1].0 == i ==> model::put_v(s, i, x) == s.update(j - 1, (i, x)),
        !(j > 0 && s[j - 1].0 == i) ==> model::put_v(s, i, x) == s.insert(j, (i, x)),
    decreases s.len(),
{
    if j == s.len() {
        if j > 0 && s[j - 1].0 == i {
            assert(s.drop_last().push((i, x)) =~= s.update(j - 1, (i, x)));
        } else {
            assert(s.push((i, x)) =~= s.insert(j, (i, x)));
        }
    } else {
        put_at(s.drop_last(), i, x, j);
        if j > 0 && s[j - 1].0 == i {
            assert(s.drop_last().update(j - 1, (i, x)).push(s.last()) =~= s.update(j - 1, (i, x)));
        } else {
            assert(s.drop_last().insert(j, (i, x)).push(s.last()) =~= s.insert(j, (i, x)));
        }
    }
}

proof fn slot_at(s: Seq<(u64, OutV)>, i: u64, j: int)
    requires
        0 <= j <= s.len(),
        forall|k: int| j <= k < s.len() ==> (#[trigger] s[k]).0 > i,
        j > 0 ==> s[j - 1].0 <= i,
    ensures
        model::slot_v(s, i) == (if j > 0 && s[j - 1].0 == i {
            Some(s[j - 1].1)
        } else {
            None
        }),
    decreases s.len(),
{
    if j < s.len() {
        slot_at(s.drop_last(), i, j);
    }
}

/// The output with index `i`, which is a blank one where there was none.
fn state_mut(outputs: &mut Vec<Slot>, i: u64) -> (r: &mut OutputState)
    ensures
        r@ == (match model::slot_v(slots_v(old(outputs)@), i) {
            Some(x) => x,
            None => model::blank_v(),
        }),
        slots_v(final(outputs)@) == model::put_v(slots_v(old(outputs)@), i, final(r)@),
{
    let ghost before = outputs@;
    let mut j: usize = outputs.len();
    while j > 0 && outputs[j - 1].index > i
        invariant
            j <= outputs@.len(),
            outputs@ == before,
            forall|k: int| j <= k < outputs@.len() ==> (#[trigger] outputs@[k]).index > i,
        decreases j,
    {
        j -= 1;
    }
    let ghost s = slots_v(before);
    proof {
        assert forall|k: int| j <= k < s.len() implies (#[trigger] s[k]).0 > i by {
            assert(before[k].index > i);
        }
        slot_at(s, i, j as int);
        assert forall|x: OutV|
            j > 0 && s[j - 1].0 == i implies #[trigger] model::put_v(s, i, x) == s.update(
            j - 1,
            (i, x),
        ) by {
            put_at(s, i, x, j as int);
        }
        assert forall|x: OutV|
            !(j > 0 && s[j - 1].0 == i) implies #[trigger] model::put_v(s, i, x) == s.insert(
            j as int,
            (i, x),
        ) by {
            put_at(s, i, x, j as int);
        }
    }
    let at: usize;
    if j > 0 && outputs[j - 1].index == i {
        at = j - 1;
    } else {
        outputs.insert(j, Slot { index: i, state: OutputState::blank() });
        at = j;
    }
    let ghost mid = outputs@;
    let slot = &mut outputs[at];
    let r = &mut slot.state;
    proof {
        let last = *final(r);
        assert(slots_v(mid.update(at as int, Slot { index: i, state: last })) =~= model::put_v(
            s,
            i,
            last@,
        ));
    }
    r
}

/// The kind of an event type.
pub fn kind_of(typ: &str) -> (r: Kind)
    ensures
        r == model::kind_v(typ@),
{
    if text::same(typ, "response.created") {
        Kind::Created
    } else if text::same(typ, "response.in_progress") {
        Kind::InProgress
    } else if text::same(typ, "response.queued") {
        Kind::Queued
    } else if text::same(typ, "response.output_item.added") {
        Kind::ItemAdded
    } else if text::same(typ, "response.output_item.done") {
        Kind::ItemDone
    } else if text::same(typ, "response.output_text.delta") {
        Kind::TextDelta
    } else if text::same(typ, "response.output_text.done") {
        Kind::TextDone
    } else if text::same(typ, "response.refusal.delta") {
        Kind::RefusalDelta
    } else if text::same(typ, "response.refusal.done") {
        Kind::RefusalDone
    } else if text::same(typ, "response.function_call_arguments.delta") {
        Kind::ArgumentsDelta
    } else if text::same(typ, "response.function_call_arguments.done") {
        Kind::ArgumentsDone
    } else if text::same(typ, "response.custom_tool_call_input.delta") {
        Kind::InputDelta
    } else if text::same(typ, "response.custom_tool_call_input.done") {
        Kind::InputDone
    } else if text::same(typ, "response.completed") {
        Kind::Completed
    } else if text::same(typ, "response.incomplete") {
        Kind::Incomplete
    } else if text::same(typ, "response.failed") {
        Kind::Failed
    } else if text::same(typ, "error") {
        Kind::Error
    } else {
        Kind::Other
    }
}

pub fn nonempty<'a>(s: Option<&'a str>) -> (r: Option<&'a str>)
    ensures
        json::opt_str(r) == model::nonempty_v(json::opt_str(s)),
{
    match s {
        Some(t) => if t.is_empty() {
            None
        } else {
            Some(t)
        },
        None => None,
    }
}

pub fn or_text<'a>(a: Option<&'a str>, b: Option<&'a str>) -> (r: Option<&'a str>)
    ensures
        json::opt_str(r) == model::or_v(json::opt_str(a), json::opt_str(b)),
{
    if a.is_some() {
        a
    } else {
        b
    }
}

pub fn text_or<'a>(a: Option<&'a str>, b: &'a str) -> (r: &'a str)
    ensures
        r@ == model::text_or_v(json::opt_str(a), b@),
{
    match a {
        Some(t) => t,
        None => b,
    }
}

pub fn blank_text(t: Option<&str>) -> (r: bool)
    ensures
        r == model::blank_text_v(json::opt_str(t)),
{
    nonempty(t).is_none()
}

/// The text of the member `k` of the member `outer`.
pub fn inner_str<'a>(ev: &'a Json, outer: &str, k: &str) -> (r: Option<&'a str>)
    ensures
        json::opt_str(r) == model::inner_text_v(ev@, outer@, k@),
{
    match ev.get(outer) {
        Some(v) => v.get_str(k),
        None => None,
    }
}

/// Whether `s` is JSON text.
pub fn valid_json(s: &str) -> (r: bool)
    ensures
        r == model::valid_json_v(s@),
{
    !s.is_empty() && json::parse(s).is_some()
}

fn bound(m: &NameMap, k: Option<&str>) -> (r: Option<u64>)
    ensures
        r == model::bound_v(m@, json::opt_str(k)),
{
    match k {
        Some(k) => m.get(k),
        None => None,
    }
}

fn item_id<'a>(ev: &'a Json) -> (r: Option<&'a str>)
    ensures
        json::opt_str(r) == model::item_id_v(ev@),
{
    nonempty(or_text(ev.get_str("item_id"), inner_str(ev, "item", "id")))
}

fn call_id<'a>(ev: &'a Json) -> (r: Option<&'a str>)
    ensures
        json::opt_str(r) == model::call_id_v(ev@),
{
    nonempty(or_text(ev.get_str("call_id"), inner_str(ev, "item", "call_id")))
}

fn compatible(kind: Kind) -> (r: Option<&'static str>)
    ensures
        json::opt_str(r) == model::compatible_v(kind),
{
    match kind {
        Kind::TextDelta | Kind::TextDone | Kind::RefusalDelta | Kind::RefusalDone => Some("message"),
        Kind::ArgumentsDelta | Kind::ArgumentsDone => Some("function_call"),
        Kind::InputDelta | Kind::InputDone => Some("custom_tool_call"),
        _ => None,
    }
}

/// What an output's item tells of it.
fn apply_item(x: &mut OutputState, ev: &Json, done: bool)
    ensures
        final(x)@ == model::item_state_v(old(x)@, ev@, done),
{
    if let Some(item) = ev.get("item") {
        x.item = item.copy();
        x.kind = text_or(item.get_str("type"), "").to_owned();
        if let Some(v) = item.get_str("id") {
            x.id = v.to_owned();
        }
        if let Some(v) = item.get_str("call_id") {
            x.call_id = v.to_owned();
        }
        if let Some(v) = item.get_str("arguments") {
            x.arguments = v.to_owned();
        }
        if let Some(v) = item.get_str("input") {
            x.input = v.to_owned();
            x.input_seen = true;
        }
        proof {
            reveal_strlit("");
            assert(""@ =~= Seq::<char>::empty());
        }
    }
    x.item_done = done;
}

/// What an event adds to its output and takes from it; the bytes added.
fn apply_delta(x: &mut OutputState, ev: &mut Json, kind: Kind, mode: CompatMode) -> (r: usize)
    ensures
        final(x)@ == model::delta_state_v(old(x)@, old(ev)@, kind, mode),
        final(ev)@ == model::delta_event_v(old(x)@, old(ev)@, kind, mode),
        r == model::delta_bytes_v(old(ev)@, kind, mode),
{
    proof {
        reveal_strlit("");
        assert(""@ =~= Seq::<char>::empty());
    }
    match kind {
        Kind::ItemAdded => apply_item(x, ev, false),
        Kind::ItemDone => apply_item(x, ev, true),
        Kind::TextDelta => {
            if let Some(d) = ev.get_str("delta") {
                x.kind = "message".to_owned();
                x.text.push_str(d);
                return d.len();
            }
        },
        Kind::TextDone => {
            x.kind = "message".to_owned();
            if blank_text(ev.get_str("text")) {
                ev.set("text", Json::str(&x.text));
            }
        },
        Kind::RefusalDelta => {
            if let Some(d) = ev.get_str("delta") {
                x.kind = "message".to_owned();
                x.refusal.push_str(d);
                return d.len();
            }
        },
        Kind::RefusalDone => {
            x.kind = "message".to_owned();
            if blank_text(ev.get_str("refusal")) {
                ev.set("refusal", Json::str(&x.refusal));
            }
        },
        Kind::ArgumentsDelta => {
            if mode == CompatMode::Full {
                if let Some(d) = ev.get_str("delta") {
                    x.kind = "function_call".to_owned();
                    x.arguments.push_str(d);
                    return d.len();
                }
            }
        },
        Kind::ArgumentsDone => {
            if mode == CompatMode::Full {
                x.kind = "function_call".to_owned();
                x.arguments_done = true;
                let done = text_or(ev.get_str("arguments"), "").to_owned();
                if valid_json(&done) {
                    x.arguments = done;
                } else if valid_json(&x.arguments) {
                    ev.set("arguments", Json::str(&x.arguments));
                }
            }
        },
        Kind::InputDelta => {
            if mode == CompatMode::Full {
                if let Some(d) = ev.get_str("delta") {
                    x.kind = "custom_tool_call".to_owned();
                    x.input.push_str(d);
                    x.input_seen = true;
                    return d.len();
                }
            }
        },
        Kind::InputDone => {
            if mode == CompatMode::Full {
                x.kind = "custom_tool_call".to_owned();
                x.input_done = true;
                let keep: bool;
                match ev.get_str("input") {
                    Some(d) => {
                        x.input_seen = true;
                        if !d.is_empty() || x.input.as_str().is_empty() {
                            x.input = d.to_owned();
                            keep = true;
                        } else {
                            keep = false;
                        }
                    },
                    None => keep = !x.input_seen,
                }
                if !keep {
                    ev.set("input", Json::str(&x.input));
                }
            }
        },
        _ => {},
    }
    0
}

/// The ID made up for an output that came without one.
fn made_id(x: &OutputState, i: u64, response_id: &str) -> (r: String)
    ensures
        r@ == model::made_id_v(x@, i, response_id@),
{
    if text::same(&x.kind, "function_call") {
        if x.call_id.as_str().is_empty() {
            text::cat("fc_", &text::decimal(i))
        } else {
            text::cat("fc_", &x.call_id)
        }
    } else if text::same(&x.kind, "custom_tool_call") {
        if x.call_id.as_str().is_empty() {
            text::cat("ct_", &text::decimal(i))
        } else {
            text::cat("ct_", &x.call_id)
        }
    } else {
        let mut out = text::cat3("msg_", &text::strip_all(response_id, "resp_"), "_");
        out.push_str(&text::decimal(i));
        out
    }
}

fn is_auxiliary(typ: &str) -> (r: bool)
    ensures
        r == model::is_auxiliary_v(typ@),
{
    text::same(typ, "response.content_part.added") || text::same(typ, "response.content_part.done")
        || text::same(typ, "response.reasoning_summary_part.added") || text::same(
        typ,
        "response.reasoning_summary_part.done",
    ) || text::same(typ, "response.reasoning_summary_text.delta") || text::same(
        typ,
        "response.reasoning_summary_text.done",
    ) || text::starts_with(typ, "response.web_search_call.") || text::starts_with(
        typ,
        "response.file_search_call.",
    ) || text::starts_with(typ, "response.image_generation_call.") || text::starts_with(
        typ,
        "response.code_interpreter_call.",
    ) || text::starts_with(typ, "response.mcp_")
}

fn auxiliary_kind(typ: &str) -> (r: &'static str)
    ensures
        r@ == model::auxiliary_kind_v(typ@),
{
    if text::contains(typ, "reasoning_summary") {
        "reasoning"
    } else if text::contains(typ, "content_part") {
        "message"
    } else {
        "auxiliary"
    }
}

fn blank_part(kind: &str) -> (r: Json)
    ensures
        r@ == model::blank_part_v(kind@),
{
    Json::object().with("type", Json::str(kind)).with("text", Json::str(""))
}

fn content_part(ev: &mut Json, typ: &str, body: &str) -> (r: Json)
    ensures
        r@ == model::part_v(old(ev)@, typ@, body@),
        final(ev)@ == old(ev)@.without("part"@),
{
    let mut part = match ev.take("part") {
        Some(p) => if p.is_object() {
            p
        } else {
            blank_part("output_text")
        },
        None => blank_part("output_text"),
    };
    if text::ends_with(typ, ".done") && blank_text(part.get_str("text")) {
        part.set("text", Json::str(body));
    }
    part
}

/// Completes an auxiliary event for output `i`.
fn fill_auxiliary(ev: &mut Json, typ: &str, i: u64, x: &OutputState)
    ensures
        final(ev)@ == model::auxiliary_event_v(old(ev)@, typ@, i, x@),
{
    ev.set_default("output_index", Json::uint(i));
    ev.set_default("item_id", Json::str(&x.id));
    if text::contains(typ, "content_part") {
        ev.set_default("content_index", Json::uint(0));
        let ghost mid = ev@;
        let part = content_part(ev, typ, &x.text);
        ev.set("part", part);
        proof {
            json::put_back(mid, "part"@, part@);
        }
    }
    if text::contains(typ, "reasoning_summary") {
        ev.set_default("summary_index", Json::uint(0));
        if text::contains(typ, "_part.") {
            ev.set_default("part", blank_part("summary_text"));
        }
    }
}

fn fill_details(usage: &mut Json, k: &str, n: &str)
    ensures
        final(usage)@ == old(usage)@.with(k@, model::details_v(old(usage)@, k@, n@)),
{
    let ghost before = usage@;
    let mut details = match usage.take(k) {
        Some(d) => if d.is_object() {
            d
        } else {
            Json::object()
        },
        None => Json::object(),
    };
    if details.get_u64(n).is_none() {
        details.set(n, Json::uint(0));
    }
    usage.set(k, details);
    proof {
        json::put_back(before, k@, details@);
    }
}

/// A usage record with all its counts.
pub fn normalize_usage(usage: Json) -> (r: Json)
    ensures
        r@ == model::usage_v(usage@),
{
    if !usage.is_object() {
        return Json::Null;
    }
    let mut u = usage;
    let input: u64 = match u.get_u64("input_tokens") {
        Some(n) => n,
        None => 0,
    };
    let output: u64 = match u.get_u64("output_tokens") {
        Some(n) => n,
        None => 0,
    };
    let total: u64 = match u.get_u64("total_tokens") {
        Some(n) => n,
        None => input.wrapping_add(output),
    };
    u.set("input_tokens", Json::uint(input));
    u.set("output_tokens", Json::uint(output));
    u.set("total_tokens", Json::uint(total));
    fill_details(&mut u, "input_tokens_details", "cached_tokens");
    fill_details(&mut u, "output_tokens_details", "reasoning_tokens");
    u
}

/// A response object with all that an envelope needs.
pub fn normalize_response(response: Json, id: &str, model: &str, status: &str, now: u64) -> (r: Json)
    ensures
        r@ == model::response_v(response@, id@, model@, status@, now),
{
    let mut r = if response.is_object() {
        response
    } else {
        Json::object()
    };
    r.set("object", Json::str("response"));
    r.set("status", Json::str(status));
    if blank_text(r.get_str("id")) {
        r.set("id", Json::str(id));
    }
    if blank_text(r.get_str("model")) {
        r.set(
            "model",
            Json::str(
                if model.is_empty() {
                    "unknown"
                } else {
                    model
                },
            ),
        );
    }
    if r.get_u64("created_at").is_none() {
        r.set("created_at", Json::uint(now));
    }
    if r.get_array("output").is_none() {
        let none: Vec<Json> = Vec::new();
        assert(json::items_v(none@) =~= Seq::empty());
        r.set("output", Json::array(none));
    }
    let ghost mid = r@;
    if let Some(u) = r.take("usage") {
        let u = normalize_usage(u);
        r.set("usage", u);
        proof {
            json::put_back(mid, "usage"@, u@);
        }
    } else {
        proof {
            json::put_back(mid, "usage"@, JsonV::Null);
        }
    }
    r
}

fn speaks(part: &Json) -> (r: bool)
    ensures
        r == model::speaks_v(part@),
{
    nonempty(part.get_str("text")).is_some() || nonempty(part.get_str("refusal")).is_some()
}

fn has_text(item: &Json, k: &str) -> (r: bool)
    ensures
        r == model::has_text_v(item@, k@),
{
    nonempty(item.get_str(k)).is_some()
}

fn is_text(t: Option<&str>, s: &str) -> (r: bool)
    ensures
        r == (json::opt_str(t) == Some(s@)),
{
    match t {
        Some(t) => text::same(t, s),
        None => false,
    }
}

fn any_speaks(parts: &Vec<Json>) -> (r: bool)
    ensures
        r == model::any_speaks_v(json::items_v(parts@)),
{
    broadcast use json::group_items;

    let mut i: usize = 0;
    while i < parts.len()
        invariant
            i <= parts@.len(),
            forall|j: int| 0 <= j < i ==> !model::speaks_v(#[trigger] json::items_v(parts@)[j]),
        decreases parts@.len() - i,
    {
        broadcast use json::group_items;

        assert(json::items_v(parts@)[i as int] == parts@[i as int]@);
        if speaks(&parts[i]) {
            return true;
        }
        i += 1;
    }
    false
}

/// Whether a client can act on an output item.
pub fn valid_output(item: &Json) -> (r: bool)
    ensures
        r == model::valid_output_v(item@),
{
    let typ = item.get_str("type");
    if is_text(typ, "message") {
        match item.get_array("content") {
            Some(parts) => any_speaks(parts),
            None => false,
        }
    } else if is_text(typ, "function_call") {
        has_text(item, "id") && has_text(item, "call_id") && has_text(item, "name") && match item.get_str(
            "arguments",
        ) {
            Some(s) => valid_json(s),
            None => false,
        }
    } else if is_text(typ, "custom_tool_call") {
        has_text(item, "id") && has_text(item, "call_id") && has_text(item, "name") && item.get_str(
            "input",
        ).is_some()
    } else {
        false
    }
}

fn all_valid(items: &Vec<Json>) -> (r: bool)
    ensures
        r == model::all_valid_v(json::items_v(items@)),
{
    broadcast use json::group_items;

    let mut i: usize = 0;
    while i < items.len()
        invariant
            i <= items@.len(),
            forall|j: int| 0 <= j < i ==> model::valid_output_v(#[trigger] json::items_v(items@)[j]),
        decreases items@.len() - i,
    {
        broadcast use json::group_items;

        assert(json::items_v(items@)[i as int] == items@[i as int]@);
        if !valid_output(&items[i]) {
            return false;
        }
        i += 1;
    }
    true
}

fn no_items() -> (r: Json)
    ensures
        r@ == JsonV::Arr(Seq::empty()),
{
    let none: Vec<Json> = Vec::new();
    assert(json::items_v(none@) =~= Seq::empty());
    Json::array(none)
}

fn message_item(x: &OutputState) -> (r: Option<Json>)
    ensures
        match r {
            Some(j) => model::content_v(x@).len() > 0 && j@ == model::message_v(x@),
            None => model::content_v(x@).len() == 0,
        },
{
    broadcast use json::group_items;

    let mut content: Vec<Json> = Vec::new();
    if !x.text.as_str().is_empty() {
        let part = Json::object().with("type", Json::str("output_text")).with(
            "text",
            Json::str(&x.text),
        ).with("annotations", no_items()).with("logprobs", no_items());
        json::push_item(&mut content, part);
        assert(json::items_v(content@) =~= seq![model::text_part_v(x.text@)]);
    } else {
        assert(json::items_v(content@) =~= Seq::empty());
    }
    if !x.refusal.as_str().is_empty() {
        json::push_item(
            &mut content,
            Json::object().with("type", Json::str("refusal")).with("refusal", Json::str(&x.refusal)),
        );
    }
    assert(json::items_v(content@) =~= model::content_v(x@));
    if content.len() == 0 {
        None
    } else {
        Some(
            item_head(x, "message").with("role", Json::str("assistant")).with(
                "content",
                Json::array(content),
            ),
        )
    }
}

fn item_head(x: &OutputState, kind: &str) -> (r: Json)
    ensures
        r@ == model::item_head_v(x@, kind@),
{
    Json::object().with("id", Json::str(&x.id)).with("type", Json::str(kind)).with(
        "status",
        Json::str("completed"),
    )
}

/// What an output contributes to the terminal response.
fn built(x: &OutputState, mode: CompatMode) -> (r: Option<Option<Json>>)
    ensures
        match r {
            Some(Some(j)) => model::built_v(x@, mode) == Some(seq![j@]),
            Some(None) => model::built_v(x@, mode) == Some(Seq::<JsonV>::empty()),
            None => model::built_v(x@, mode) is None,
        },
{
    proof {
        reveal_strlit("");
        assert(""@ =~= Seq::<char>::empty());
    }
    if text::same(&x.kind, "message") {
        return Some(message_item(x));
    }
    let function = text::same(&x.kind, "function_call");
    let custom = text::same(&x.kind, "custom_tool_call");
    if !function && !custom {
        return Some(None);
    }
    if mode != CompatMode::Full {
        return None;
    }
    let name = text_or(x.item.get_str("name"), "");
    let call = if x.call_id.as_str().is_empty() {
        text_or(x.item.get_str("call_id"), "")
    } else {
        x.call_id.as_str()
    };
    if name.is_empty() || call.is_empty() {
        return None;
    }
    if function {
        let arguments = if valid_json(&x.arguments) {
            x.arguments.as_str()
        } else {
            text_or(x.item.get_str("arguments"), "")
        };
        if !valid_json(arguments) || !(x.item_done || x.arguments_done) {
            return None;
        }
        let item = item_head(x, "function_call").with("name", Json::str(name)).with(
            "call_id",
            Json::str(call),
        ).with("arguments", Json::str(arguments));
        Some(Some(item))
    } else {
        if !x.input_seen || !(x.item_done || x.input_done) {
            return None;
        }
        let item = item_head(x, "custom_tool_call").with("name", Json::str(name)).with(
            "call_id",
            Json::str(call),
        ).with("input", Json::str(&x.input));
        Some(Some(item))
    }
}

/// What becomes of an event.
pub enum Normalized {
    Drop,
    Emit(Json),
    Fail(&'static str),
}

impl Normalized {
    pub open spec fn view(&self) -> NormV {
        match self {
            Normalized::Drop => NormV::Drop,
            Normalized::Emit(ev) => NormV::Emit(ev@),
            Normalized::Fail(kind) => NormV::Fail(kind@),
        }
    }
}

impl Assembler {
    pub fn new(mode: CompatMode, model: &str, request_id: &str) -> (r: Assembler)
        ensures
            r@ == model::start_v(mode, model@, request_id@),
    {
        let r = Assembler {
            mode,
            model: model.to_owned(),
            response_id: text::cat("resp_", request_id),
            snapshot: None,
            seq: 0,
            next_index: 0,
            outputs: Vec::new(),
            by_item: NameMap::new(),
            by_call: NameMap::new(),
            terminal: false,
            state_bytes: 0,
        };
        assert(slots_v(r.outputs@) =~= Seq::empty());
        r
    }

    /// The output that an event names.
    fn named(&self, ev: &Json) -> (r: Option<u64>)
        ensures
            r == model::named_v(self@, ev@),
    {
        let i: Option<u64> = bound(&self.by_item, ev.get_str("item_id"));
        if i.is_some() {
            return i;
        }
        let i: Option<u64> = bound(&self.by_call, ev.get_str("call_id"));
        if i.is_some() {
            return i;
        }
        let i: Option<u64> = bound(&self.by_item, inner_str(ev, "item", "id"));
        if i.is_some() {
            return i;
        }
        bound(&self.by_call, inner_str(ev, "item", "call_id"))
    }

    /// The one open output of a kind.
    fn only(&self, kind: Option<&str>) -> (r: Option<u64>)
        ensures
            r == model::only_v(self@, json::opt_str(kind)),
    {
        let kind = match kind {
            Some(k) => k,
            None => return None,
        };
        let mut found: Vec<u64> = Vec::new();
        let mut i: usize = 0;
        let ghost all = self@.outputs;
        assert(all.take(0) =~= Seq::empty());
        while i < self.outputs.len()
            invariant
                i <= self.outputs@.len(),
                all == slots_v(self.outputs@),
                found@ == model::of_kind_v(all.take(i as int), kind@),
            decreases self.outputs@.len() - i,
        {
            assert(all.take(i + 1).drop_last() =~= all.take(i as int));
            assert(all.take(i + 1).last() == self.outputs@[i as int]@);
            if text::same(&self.outputs[i].state.kind, kind) {
                found.push(self.outputs[i].index);
            }
            i += 1;
        }
        assert(all.take(i as int) =~= all);
        if found.len() == 1 {
            Some(found[0])
        } else {
            None
        }
    }

    /// Gives an event its output.
    fn allocate(&mut self, ev: &Json, kind: Option<&str>) -> (r: u64)
        ensures
            r == model::index_v(old(self)@, ev@, json::opt_str(kind)),
            final(self)@ == (AsmV {
                next_index: model::next_v(old(self)@, ev@, json::opt_str(kind)),
                ..old(self)@
            }),
    {
        if let Some(i) = ev.get_u64("output_index") {
            let next: u64 = i.wrapping_add(1);
            if self.next_index < next {
                self.next_index = next;
            }
            return i;
        }
        if let Some(i) = self.named(ev) {
            return i;
        }
        if let Some(i) = self.only(kind) {
            return i;
        }
        let i: u64 = self.next_index;
        self.next_index = i.wrapping_add(1);
        i
    }

    /// Binds the IDs of an event to its output.
    fn bind(&mut self, i: u64, ev: &Json)
        ensures
            final(self)@ == model::bind_v(old(self)@, ev@, i),
    {
        let state = state_mut(&mut self.outputs, i);
        if let Some(id) = item_id(ev) {
            state.id = id.to_owned();
            self.by_item.insert(id, i);
        }
        if let Some(call) = call_id(ev) {
            state.call_id = call.to_owned();
            self.by_call.insert(call, i);
        }
    }

    /// An event that adds to an output.
    fn output_step(&mut self, ev: &mut Json, kind: Kind)
        ensures
            (final(self)@, final(ev)@) == model::output_step_v(old(self)@, old(ev)@, kind),
    {
        let i: u64 = self.allocate(ev, compatible(kind));
        self.bind(i, ev);
        ev.set("output_index", Json::uint(i));
        let mode = self.mode;
        let state = state_mut(&mut self.outputs, i);
        let bytes: usize = apply_delta(state, ev, kind, mode);
        if state.id.as_str().is_empty() {
            state.id = made_id(state, i, &self.response_id);
        }
        ev.set_default("item_id", Json::str(&state.id));
        self.state_bytes = self.state_bytes.saturating_add(bytes);
        if kind == Kind::TextDelta || kind == Kind::TextDone || kind == Kind::RefusalDelta || kind
            == Kind::RefusalDone {
            ev.set_default("content_index", Json::uint(0));
        }
    }

    /// An event that belongs to an output without adding to its text.
    fn auxiliary_step(&mut self, ev: &mut Json, typ: &str)
        ensures
            (final(self)@, final(ev)@) == model::auxiliary_step_v(old(self)@, old(ev)@, typ@),
    {
        let kind = auxiliary_kind(typ);
        let i: u64 = self.allocate(ev, Some(kind));
        self.bind(i, ev);
        let state = state_mut(&mut self.outputs, i);
        if state.kind.as_str().is_empty() {
            state.kind = kind.to_owned();
        }
        if state.id.as_str().is_empty() {
            let mut id = text::cat3("item_", &text::strip_all(&self.response_id, "resp_"), "_");
            id.push_str(&text::decimal(i));
            state.id = id;
        }
        fill_auxiliary(ev, typ, i, state);
    }

    /// Numbers an event.
    fn number(&mut self, ev: &mut Json)
        ensures
            (final(self)@, final(ev)@) == model::number_v(old(self)@, old(ev)@),
    {
        match ev.get_u64("sequence_number") {
            Some(n) => {
                if self.seq < n {
                    self.seq = n;
                }
            },
            None => {
                self.seq = self.seq.wrapping_add(1);
                ev.set("sequence_number", Json::uint(self.seq));
            },
        }
    }

    /// Gives an event its envelope.
    fn envelope(&mut self, ev: &mut Json, typ: &str)
        ensures
            (final(self)@, final(ev)@) == model::envelope_v(old(self)@, old(ev)@, typ@),
    {
        self.number(ev);
        ev.set_default("type", Json::str(typ));
        if let Some(id) = nonempty(
            or_text(inner_str(ev, "response", "id"), ev.get_str("response_id")),
        ) {
            self.response_id = id.to_owned();
        }
        ev.set_default("response_id", Json::str(&self.response_id));
    }

    /// Completes the response in an event that opens one.
    fn opening(&mut self, ev: &mut Json, kind: Kind, now: u64)
        ensures
            (final(self)@, final(ev)@) == model::opening_v(old(self)@, old(ev)@, kind, now),
    {
        let status = match kind {
            Kind::Created | Kind::InProgress => "in_progress",
            Kind::Queued => "queued",
            _ => return,
        };
        let ghost before = ev@;
        match ev.take("response") {
            Some(r) => {
                let r = normalize_response(r, &self.response_id, &self.model, status, now);
                self.snapshot = Some(r.copy());
                ev.set("response", r);
                proof {
                    json::put_back(before, "response"@, r@);
                }
            },
            None => {
                proof {
                    json::put_back(before, "response"@, JsonV::Null);
                }
            },
        }
    }

    /// The items of all the outputs, in order; `None` where one cannot be built.
    fn build_outputs(&self) -> (r: Option<Vec<Json>>)
        ensures
            match r {
                Some(items) => model::build_v(self@.outputs, self.mode) == Some(
                    json::items_v(items@),
                ),
                None => model::build_v(self@.outputs, self.mode) is None,
            },
    {
        let mut out: Vec<Json> = Vec::new();
        let mut i: usize = 0;
        let ghost all = self@.outputs;
        assert(all.take(0) =~= Seq::empty());
        assert(json::items_v(out@) =~= Seq::empty());
        while i < self.outputs.len()
            invariant
                i <= self.outputs@.len(),
                all == slots_v(self.outputs@),
                model::build_v(all.take(i as int), self.mode) == Some(json::items_v(out@)),
            decreases self.outputs@.len() - i,
        {
            assert(all.take(i + 1).drop_last() =~= all.take(i as int));
            assert(all.take(i + 1).last() == self.outputs@[i as int]@);
            let ghost before = json::items_v(out@);
            match built(&self.outputs[i].state, self.mode) {
                Some(Some(item)) => {
                    json::push_item(&mut out, item);
                    assert(before + seq![item@] =~= before.push(item@));
                },
                Some(None) => {
                    assert(before + Seq::<JsonV>::empty() =~= before);
                },
                None => {
                    proof {
                        build_fails(all, self.mode, i + 1);
                    }
                    return None;
                },
            }
            i += 1;
        }
        assert(all.take(i as int) =~= all);
        Some(out)
    }

    /// The terminal response with its output list, or why there is none.
    fn fill_terminal(&self, response: Json) -> (r: Result<Json, &'static str>)
        ensures
            match r {
                Ok(j) => model::fill_v(self@, response@) == Ok::<JsonV, Seq<char>>(j@),
                Err(e) => model::fill_v(self@, response@) == Err::<JsonV, Seq<char>>(e@),
            },
    {
        broadcast use json::group_items;

        let mut output: Option<Vec<Json>> = None;
        if let Some(items) = response.get_array("output") {
            if items.len() > 0 && all_valid(items) {
                output = Some(json::copy_items(items));
            }
        }
        let output: Vec<Json> = match output {
            Some(items) => items,
            None => match self.build_outputs() {
                Some(items) => items,
                None => {
                    let none: Vec<Json> = Vec::new();
                    assert(json::items_v(none@) =~= Seq::empty());
                    none
                },
            },
        };
        assert(json::items_v(output@) =~= model::terminal_output_v(self@, response@));
        if output.len() == 0 {
            if self.outputs.len() == 0 {
                return Err("proxy_missing_terminal_output");
            }
            return Err("proxy_incomplete_output");
        }
        if !all_valid(&output) {
            return Err("proxy_incomplete_output");
        }
        Ok(response.with("output", Json::array(output)))
    }

    /// An event that may end the stream.
    fn ending(&mut self, ev: Json, kind: Kind, now: u64) -> (r: Normalized)
        ensures
            (final(self)@, r@) == model::ending_v(old(self)@, ev@, kind, now),
    {
        let ghost before = ev@;
        let mut ev = ev;
        match kind {
            Kind::Completed => {
                self.terminal = true;
                let r = match ev.take("response") {
                    Some(r) => r,
                    None => return Normalized::Fail("proxy_invalid_terminal_response"),
                };
                let r = normalize_response(r, &self.response_id, &self.model, "completed", now);
                match self.fill_terminal(r) {
                    Ok(r) => {
                        ev.set("response", r);
                        proof {
                            json::put_back(before, "response"@, r@);
                        }
                        Normalized::Emit(ev)
                    },
                    Err(e) => Normalized::Fail(e),
                }
            },
            Kind::Incomplete | Kind::Failed => {
                self.terminal = true;
                let status = if kind == Kind::Failed {
                    "failed"
                } else {
                    "incomplete"
                };
                match ev.take("response") {
                    Some(r) => {
                        let r = normalize_response(r, &self.response_id, &self.model, status, now);
                        ev.set("response", r);
                        proof {
                            json::put_back(before, "response"@, r@);
                        }
                    },
                    None => {
                        proof {
                            json::put_back(before, "response"@, JsonV::Null);
                        }
                    },
                }
                Normalized::Emit(ev)
            },
            Kind::Error => {
                self.terminal = true;
                Normalized::Emit(ev)
            },
            _ => Normalized::Emit(ev),
        }
    }

    /// What becomes of an event that arrived in a frame called `name`.
    pub fn normalize(&mut self, ev: Json, name: &str, now: u64) -> (r: Normalized)
        ensures
            (final(self)@, r@) == model::normalize_v(old(self)@, ev@, name@, now),
    {
        let typ = text_or(nonempty(ev.get_str("type")), name).to_owned();
        let kind = kind_of(&typ);
        if text::same(&typ, "response.metadata") || text::same(&typ, "keepalive") {
            return Normalized::Drop;
        }
        if !text::starts_with(&typ, "response.") && !text::same(&typ, "error") {
            return Normalized::Emit(ev);
        }
        let mut ev = ev;
        if !ev.is_object() {
            self.number(&mut ev);
            return Normalized::Fail("proxy_stream_state_error");
        }
        self.envelope(&mut ev, &typ);
        self.opening(&mut ev, kind, now);
        if compatible(kind).is_some() || kind == Kind::ItemAdded || kind == Kind::ItemDone {
            self.output_step(&mut ev, kind);
        } else if is_auxiliary(&typ) {
            self.auxiliary_step(&mut ev, &typ);
        }
        if self.state_bytes > model::MAX_STATE_BYTES {
            return Normalized::Fail("proxy_stream_state_error");
        }
        self.ending(ev, kind, now)
    }

    /// The event that reports a failure.
    pub fn error(&mut self, kind: &str) -> (r: Json)
        ensures
            (final(self)@, r@) == model::error_v(old(self)@, kind@),
    {
        self.terminal = true;
        self.seq = self.seq.wrapping_add(1);
        Json::object().with("type", Json::str("error")).with("sequence_number", Json::uint(self.seq)).with(
            "response_id",
            Json::str(&self.response_id),
        ).with(
            "error",
            Json::object().with("type", Json::str(kind)).with(
                "message",
                Json::str("The proxy could not safely assemble a complete Responses stream."),
            ),
        )
    }

    /// The terminal event of a stream that came without one.
    pub fn synthetic_terminal(&mut self, now: u64) -> (r: Option<Json>)
        ensures
            (final(self)@, json::opt_owned(r)) == model::synthetic_v(old(self)@, now),
    {
        if self.terminal {
            return None;
        }
        self.terminal = true;
        let base = match &self.snapshot {
            Some(r) => r.copy(),
            None => Json::object(),
        };
        let response = normalize_response(
            base,
            &self.response_id,
            &self.model,
            "completed",
            now,
        );
        match self.fill_terminal(response) {
            Ok(r) => {
                self.seq = self.seq.wrapping_add(1);
                Some(
                    Json::object().with("type", Json::str("response.completed")).with(
                        "sequence_number",
                        Json::uint(self.seq),
                    ).with("response_id", Json::str(&self.response_id)).with("response", r),
                )
            },
            Err(e) => Some(self.error(e)),
        }
    }
}

proof fn build_fails(s: Seq<(u64, OutV)>, mode: CompatMode, n: int)
    requires
        0 <= n <= s.len(),
        model::build_v(s.take(n), mode) is None,
    ensures
        model::build_v(s, mode) is None,
    decreases s.len() - n,
{
    if n == s.len() {
        assert(s.take(n) =~= s);
    } else {
        assert(s.take(n + 1).drop_last() =~= s.take(n));
        build_fails(s, mode, n + 1);
    }
}

/// An event as a frame of the stream.
pub fn encode(ev: &Json) -> (r: String)
    ensures
        r@ == model::frame_v(ev@),
{
    proof {
        reveal_strlit("");
        assert(""@ =~= Seq::<char>::empty());
    }
    let mut out = text::cat3("event: ", text_or(ev.get_str("type"), ""), "\ndata: ");
    out.push_str(&ev.encode());
    out.push_str("\n\n");
    out
}

} // verus!
