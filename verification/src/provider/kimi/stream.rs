//! A Chat Completions stream as a Responses stream.

use vstd::prelude::*;

use crate::json;
use crate::json::{Json, JsonV};
use crate::proxy::request::is_blank;
use crate::sse;
use crate::sse::{append, append_slice, bytes_of, frame_boundary, sub_bytes};
use crate::text;
use crate::text::same;

pub mod laws;
pub mod told;
pub mod trace;
pub mod whole;
pub mod model;

use crate::provider::kimi::stream::model::{
    CoreV, OutputV, StepV, StreamV, MAX_FRAME_BYTES, MAX_STREAM_BYTES,
};

verus! {

/// An output item as far as it has come.
#[derive(Debug)]
enum Output {
    Reasoning { id: String, text: String },
    Message { id: String, text: String },
    Tool { id: String, call_id: String, name: String, arguments: String, started: bool },
}

impl Output {
    spec fn view(&self) -> OutputV {
        match self {
            Output::Reasoning { id, text } => OutputV::Reasoning { id: id@, text: text@ },
            Output::Message { id, text } => OutputV::Message { id: id@, text: text@ },
            Output::Tool { id, call_id, name, arguments, started } => OutputV::Tool {
                id: id@,
                call_id: call_id@,
                name: name@,
                arguments: arguments@,
                started: *started,
            },
        }
    }
}

spec fn outputs_v(s: Seq<Output>) -> Seq<OutputV> {
    s.map_values(|o: Output| o@)
}

spec fn tools_v(s: Seq<(u64, usize)>) -> Seq<(u64, int)> {
    s.map_values(|t: (u64, usize)| (t.0, t.1 as int))
}

/// A response as far as it has come.
#[derive(Debug)]
struct Core {
    response_id: String,
    model: String,
    outputs: Vec<Output>,
    reasoning_index: Option<usize>,
    message_index: Option<usize>,
    tools: Vec<(u64, usize)>,
    sequence: u64,
    usage: Json,
    finish_reason: Option<String>,
    started: bool,
    terminal: bool,
    terminal_response: Option<Json>,
}

spec fn step_v(core: Core, out: Vec<u8>) -> StepV {
    StepV { core: core@, out: out@ }
}

fn str(s: &str) -> (r: Json)
    ensures
        r@ == model::str_v(s@),
{
    Json::str(s)
}

fn none() -> (r: Json)
    ensures
        r@ == JsonV::Arr(Seq::empty()),
{
    let v: Vec<Json> = Vec::new();
    assert(json::items_v(v@) =~= Seq::<JsonV>::empty());
    Json::array(v)
}

fn one(item: Json) -> (r: Json)
    ensures
        r@ == JsonV::Arr(seq![item@]),
{
    let mut v: Vec<Json> = Vec::new();
    assert(json::items_v(v@) =~= Seq::<JsonV>::empty());
    json::push_item(&mut v, item);
    assert(json::items_v(v@) =~= seq![item@]);
    Json::array(v)
}

fn counts(input: u64, cached: u64, output: u64, thought: u64, total: u64) -> (r: Json)
    ensures
        r@ == model::counts_v(input, cached, output, thought, total),
{
    Json::object().with("input_tokens", Json::uint(input)).with(
        "input_tokens_details",
        Json::object().with("cached_tokens", Json::uint(cached)),
    ).with("output_tokens", Json::uint(output)).with(
        "output_tokens_details",
        Json::object().with("reasoning_tokens", Json::uint(thought)),
    ).with("total_tokens", Json::uint(total))
}

fn error(kind: &str, message: &str) -> (r: Json)
    ensures
        r@ == model::error_v(kind@, message@),
{
    Json::object().with("type", str(kind)).with("message", str(message))
}

fn holding(response: Json) -> (r: Json)
    ensures
        r@ == model::holding_v(response@),
{
    Json::object().with("response", response)
}

fn summary_part(s: &str) -> (r: Json)
    ensures
        r@ == model::summary_part_v(s@),
{
    Json::object().with("type", str("summary_text")).with("text", str(s))
}

fn text_part(s: &str) -> (r: Json)
    ensures
        r@ == model::text_part_v(s@),
{
    Json::object().with("type", str("output_text")).with("text", str(s)).with("annotations", none())
}

fn place(id: &str, index: usize, counter: &str) -> (r: Json)
    ensures
        r@ == model::place_v(id@, index as int, counter@),
{
    Json::object().with("item_id", str(id)).with("output_index", Json::uint(index as u64)).with(
        counter,
        Json::uint(0),
    )
}

fn added(index: usize, item: Json) -> (r: Json)
    ensures
        r@ == model::added_v(index as int, item@),
{
    Json::object().with("output_index", Json::uint(index as u64)).with("item", item)
}

fn tool_item(id: &str, status: &str, call_id: &str, name: &str, arguments: &str) -> (r: Json)
    ensures
        r@ == model::tool_item_v(id@, status@, call_id@, name@, arguments@),
{
    Json::object().with("id", str(id)).with("type", str("function_call")).with(
        "status",
        str(status),
    ).with("call_id", str(call_id)).with("name", str(name)).with("arguments", str(arguments))
}

fn reasoning_item(id: &str, status: &str, s: &str) -> (r: Json)
    ensures
        r@ == model::reasoning_item_v(id@, status@, s@),
{
    Json::object().with("id", str(id)).with("type", str("reasoning")).with(
        "status",
        str(status),
    ).with("summary", one(summary_part(s)))
}

fn message_item(id: &str, status: &str, s: &str) -> (r: Json)
    ensures
        r@ == model::message_item_v(id@, status@, s@),
{
    Json::object().with("id", str(id)).with("type", str("message")).with("status", str(status)).with(
        "role",
        str("assistant"),
    ).with("content", one(text_part(s)))
}

fn item(o: &Output, status: &str) -> (r: Json)
    ensures
        r@ == model::item_v(o@, status@),
{
    match o {
        Output::Reasoning { id, text } => reasoning_item(id, status, text),
        Output::Message { id, text } => message_item(id, status, text),
        Output::Tool { id, call_id, name, arguments, .. } => tool_item(
            id,
            status,
            call_id,
            name,
            arguments,
        ),
    }
}

fn number(v: &Json, k: &str) -> (r: u64)
    ensures
        r == model::number_v(v@, k@),
{
    match v.get_u64(k) {
        Some(n) => n,
        None => 0,
    }
}

fn inner_number(v: &Json, k: &str, inner: &str) -> (r: u64)
    ensures
        r == model::inner_number_v(v@, k@, inner@),
{
    match v.get(k) {
        Some(d) => number(d, inner),
        None => 0,
    }
}

fn usage_of(usage: &Json) -> (r: Json)
    ensures
        r@ == model::usage_v(usage@),
{
    let input: u64 = number(usage, "prompt_tokens");
    let output: u64 = number(usage, "completion_tokens");
    let total: u64 = match usage.get_u64("total_tokens") {
        Some(n) => n,
        None => input.wrapping_add(output),
    };
    counts(
        input,
        inner_number(usage, "prompt_tokens_details", "cached_tokens"),
        output,
        inner_number(usage, "completion_tokens_details", "reasoning_tokens"),
        total,
    )
}

fn filled(s: Option<&str>) -> (r: Option<String>)
    ensures
        text::opt_view(r) == model::filled_v(json::opt_str(s)),
{
    match s {
        Some(s) => if !s.is_empty() {
            Some(text::owned(s))
        } else {
            None
        },
        None => None,
    }
}

fn function_text<'a>(tool: &'a Json, k: &str) -> (r: Option<&'a str>)
    ensures
        json::opt_str(r) == model::function_text_v(tool@, k@),
{
    match tool.get("function") {
        Some(f) => f.get_str(k),
        None => None,
    }
}

impl Core {
    spec fn view(&self) -> CoreV {
        CoreV {
            response_id: self.response_id@,
            model: self.model@,
            outputs: outputs_v(self.outputs@),
            reasoning_index: text::opt_int(self.reasoning_index),
            message_index: text::opt_int(self.message_index),
            tools: tools_v(self.tools@),
            sequence: self.sequence,
            usage: self.usage@,
            finish_reason: text::opt_view(self.finish_reason),
            started: self.started,
            terminal: self.terminal,
            terminal_response: json::opt_owned(self.terminal_response),
        }
    }

    fn new(response_id: &str, model: &str) -> (r: Core)
        ensures
            r@ == model::fresh_v(response_id@, model@),
            model::core_ok(r@),
    {
        let outputs: Vec<Output> = Vec::new();
        let tools: Vec<(u64, usize)> = Vec::new();
        assert(outputs_v(outputs@) =~= Seq::<OutputV>::empty());
        assert(tools_v(tools@) =~= Seq::<(u64, int)>::empty());
        Core {
            response_id: text::owned(response_id),
            model: text::owned(model),
            outputs,
            reasoning_index: None,
            message_index: None,
            tools,
            sequence: 0,
            usage: counts(0, 0, 0, 0, 0),
            finish_reason: None,
            started: false,
            terminal: false,
            terminal_response: None,
        }
    }

    fn emit(&mut self, out: &mut Vec<u8>, kind: &str, fields: Json)
        ensures
            step_v(*final(self), *final(out)) == model::emit_v(
                step_v(*old(self), *old(out)),
                kind@,
                fields@,
            ),
            *final(self) == (Core { sequence: final(self).sequence, ..*old(self) }),
    {
        let event = fields.with("type", str(kind)).with(
            "sequence_number",
            Json::uint(self.sequence),
        ).with("response_id", str(&self.response_id));
        let mut frame = text::cat3("event: ", kind, "\ndata: ");
        frame.push_str(&event.encode());
        frame.push_str("\n\n");
        append(out, &bytes_of(&frame));
        self.sequence = self.sequence.wrapping_add(1);
    }

    fn response(&self, status: &str, output: Vec<Json>) -> (r: Json)
        ensures
            r@ == model::response_v(self@, status@, json::items_v(output@)),
    {
        Json::object().with("id", str(&self.response_id)).with("object", str("response")).with(
            "status",
            str(status),
        ).with("model", str(&self.model)).with("output", Json::array(output)).with(
            "usage",
            self.usage.copy(),
        )
    }

    fn start(&mut self, out: &mut Vec<u8>)
        ensures
            step_v(*final(self), *final(out)) == model::start_v(step_v(*old(self), *old(out))),
            final(self).outputs == old(self).outputs,
            model::core_ok(old(self)@) ==> model::core_ok(final(self)@),
    {
        if self.started {
            return;
        }
        let none: Vec<Json> = Vec::new();
        assert(json::items_v(none@) =~= Seq::<JsonV>::empty());
        let response = self.response("in_progress", none);
        self.started = true;
        self.emit(out, "response.created", holding(response));
    }

    fn close(&mut self, out: &mut Vec<u8>, kind: &str, response: Json)
        ensures
            step_v(*final(self), *final(out)) == model::close_v(
                step_v(*old(self), *old(out)),
                kind@,
                response@,
            ),
            model::core_ok(old(self)@) ==> model::core_ok(final(self)@),
    {
        self.terminal = true;
        self.terminal_response = Some(response.copy());
        self.emit(out, kind, holding(response));
        append(out, &bytes_of("data: [DONE]\n\n"));
    }

    fn fail(&mut self, out: &mut Vec<u8>, error: Json)
        ensures
            step_v(*final(self), *final(out)) == model::fail_v(
                step_v(*old(self), *old(out)),
                error@,
            ),
            model::core_ok(old(self)@) ==> model::core_ok(final(self)@),
    {
        self.start(out);
        let response = Json::object().with("id", str(&self.response_id)).with(
            "object",
            str("response"),
        ).with("status", str("failed")).with("model", str(&self.model)).with("output", none()).with(
            "error",
            error,
        );
        self.close(out, "response.failed", response);
    }

    fn reasoning_delta(&mut self, out: &mut Vec<u8>, delta: &str)
        requires
            model::core_ok(old(self)@),
        ensures
            step_v(*final(self), *final(out)) == model::reasoning_delta_v(
                step_v(*old(self), *old(out)),
                delta@,
            ),
            model::core_ok(final(self)@),
    {
        let ghost start = self@;
        let index: usize = match self.reasoning_index {
            Some(i) => i,
            None => {
                let i: usize = self.outputs.len();
                let ghost before = self.outputs@;
                let output = Output::Reasoning {
                    id: text::cat("rs_", &self.response_id),
                    text: String::new(),
                };
                proof {
                    assert(outputs_v(before.push(output)) =~= outputs_v(before).push(output@));
                }
                self.outputs.push(output);
                self.reasoning_index = Some(i);
                i
            },
        };
        let ghost core = self@;
        assert((core, index as int) == model::reasoning_slot_v(start));
        assert(model::core_ok(core)) by {
            assert forall|k: int| 0 <= k < core.tools.len() implies 0 <= (
            #[trigger] core.tools[k]).1 < core.outputs.len()
                && core.outputs[core.tools[k].1] is Tool by {
                assert(start.tools[k] == core.tools[k]);
            }
        }
        assert(core.outputs[index as int] == self.outputs@[index as int]@);
        let (id, whole, fresh) = match &self.outputs[index] {
            Output::Reasoning { id, text } => (
                text::owned(id),
                text::cat(text, delta),
                text.as_str().is_empty(),
            ),
            _ => {
                return;
            },
        };
        if fresh {
            self.emit(
                out,
                "response.output_item.added",
                added(
                    index,
                    Json::object().with("id", str(&id)).with("type", str("reasoning")).with(
                        "status",
                        str("in_progress"),
                    ).with("summary", none()),
                ),
            );
            proof {
                reveal_strlit("");
                assert(""@ =~= Seq::<char>::empty());
            }
            self.emit(
                out,
                "response.reasoning_summary_part.added",
                place(&id, index, "summary_index").with("part", summary_part("")),
            );
        }
        let ghost before = self.outputs@;
        let grown = Output::Reasoning { id: text::owned(&id), text: whole };
        proof {
            assert(outputs_v(before.update(index as int, grown)) =~= outputs_v(before).update(
                index as int,
                grown@,
            ));
        }
        self.outputs.set(index, grown);
        proof {
            grown_ok(core, self@, index as int);
        }
        self.emit(
            out,
            "response.reasoning_summary_text.delta",
            place(&id, index, "summary_index").with("delta", str(delta)),
        );
    }

    fn text_delta(&mut self, out: &mut Vec<u8>, delta: &str)
        requires
            model::core_ok(old(self)@),
        ensures
            step_v(*final(self), *final(out)) == model::text_delta_v(
                step_v(*old(self), *old(out)),
                delta@,
            ),
            model::core_ok(final(self)@),
    {
        let ghost start = self@;
        let index: usize = match self.message_index {
            Some(i) => i,
            None => {
                let i: usize = self.outputs.len();
                let ghost before = self.outputs@;
                let output = Output::Message {
                    id: text::cat("msg_", &self.response_id),
                    text: String::new(),
                };
                proof {
                    assert(outputs_v(before.push(output)) =~= outputs_v(before).push(output@));
                }
                self.outputs.push(output);
                self.message_index = Some(i);
                i
            },
        };
        let ghost core = self@;
        assert((core, index as int) == model::message_slot_v(start));
        assert(model::core_ok(core)) by {
            assert forall|k: int| 0 <= k < core.tools.len() implies 0 <= (
            #[trigger] core.tools[k]).1 < core.outputs.len()
                && core.outputs[core.tools[k].1] is Tool by {
                assert(start.tools[k] == core.tools[k]);
            }
        }
        assert(core.outputs[index as int] == self.outputs@[index as int]@);
        let (id, whole, fresh) = match &self.outputs[index] {
            Output::Message { id, text } => (
                text::owned(id),
                text::cat(text, delta),
                text.as_str().is_empty(),
            ),
            _ => {
                return;
            },
        };
        if fresh {
            self.emit(
                out,
                "response.output_item.added",
                added(
                    index,
                    Json::object().with("id", str(&id)).with("type", str("message")).with(
                        "status",
                        str("in_progress"),
                    ).with("role", str("assistant")).with("content", none()),
                ),
            );
            proof {
                reveal_strlit("");
                assert(""@ =~= Seq::<char>::empty());
            }
            self.emit(
                out,
                "response.content_part.added",
                place(&id, index, "content_index").with("part", text_part("")),
            );
        }
        let ghost before = self.outputs@;
        let grown = Output::Message { id: text::owned(&id), text: whole };
        proof {
            assert(outputs_v(before.update(index as int, grown)) =~= outputs_v(before).update(
                index as int,
                grown@,
            ));
        }
        self.outputs.set(index, grown);
        proof {
            grown_ok(core, self@, index as int);
        }
        self.emit(
            out,
            "response.output_text.delta",
            place(&id, index, "content_index").with("delta", str(delta)),
        );
    }

    fn arguments_delta(&mut self, out: &mut Vec<u8>, index: usize, delta: &str)
        requires
            model::core_ok(old(self)@),
            index < old(self)@.outputs.len(),
        ensures
            step_v(*final(self), *final(out)) == model::arguments_delta_v(
                step_v(*old(self), *old(out)),
                index as int,
                delta@,
            ),
            model::core_ok(final(self)@),
    {
        let ghost core = self@;
        assert(core.outputs[index as int] == self.outputs@[index as int]@);
        let (id, call_id, name, whole, begun) = match &self.outputs[index] {
            Output::Tool { id, call_id, name, arguments, started } => (
                text::owned(id),
                text::owned(call_id),
                text::owned(name),
                text::cat(arguments, delta),
                *started,
            ),
            _ => {
                return;
            },
        };
        if !begun {
            proof {
                reveal_strlit("");
                assert(""@ =~= Seq::<char>::empty());
            }
            self.emit(
                out,
                "response.output_item.added",
                added(index, tool_item(&id, "in_progress", &call_id, &name, "")),
            );
        }
        let ghost before = self.outputs@;
        let grown = Output::Tool {
            id: text::owned(&id),
            call_id,
            name,
            arguments: whole,
            started: true,
        };
        proof {
            assert(outputs_v(before.update(index as int, grown)) =~= outputs_v(before).update(
                index as int,
                grown@,
            ));
        }
        self.outputs.set(index, grown);
        proof {
            grown_ok(core, self@, index as int);
        }
        if !delta.is_empty() {
            self.emit(
                out,
                "response.function_call_arguments.delta",
                Json::object().with("item_id", str(&id)).with(
                    "output_index",
                    Json::uint(index as u64),
                ).with("delta", str(delta)),
            );
        }
    }

    fn slot(&self, slot: u64) -> (r: Option<usize>)
        requires
            model::core_ok(self@),
        ensures
            text::opt_int(r) == model::slot_v(self@.tools, slot),
            r matches Some(i) ==> i < self@.outputs.len(),
    {
        let ghost all = tools_v(self.tools@);
        let mut i: usize = self.tools.len();
        assert(all.take(i as int) =~= all);
        while i > 0
            invariant
                i <= self.tools@.len(),
                all == tools_v(self.tools@),
                all == self@.tools,
                model::core_ok(self@),
                model::slot_v(all, slot) == model::slot_v(all.take(i as int), slot),
            decreases i,
        {
            proof {
                assert(all.take(i as int).drop_last() =~= all.take(i - 1));
                assert(all.take(i as int).last() == all[i - 1]);
                assert(all[i - 1].1 < self@.outputs.len());
            }
            if self.tools[i - 1].0 == slot {
                return Some(self.tools[i - 1].1);
            }
            i -= 1;
        }
        None
    }

    fn tool_delta(&mut self, out: &mut Vec<u8>, tool: &Json)
        requires
            model::core_ok(old(self)@),
        ensures
            step_v(*final(self), *final(out)) == model::tool_delta_v(
                step_v(*old(self), *old(out)),
                tool@,
            ),
            model::core_ok(final(self)@),
    {
        if self.terminal {
            return;
        }
        let slot: u64 = match tool.get_u64("index") {
            Some(n) => n,
            None => 0,
        };
        let delta = match function_text(tool, "arguments") {
            Some(a) => text::owned(a),
            None => String::new(),
        };
        match self.slot(slot) {
            Some(index) => {
                self.arguments_delta(out, index, &delta);
            },
            None => {
                let call_id = match filled(tool.get_str("id")) {
                    Some(s) => s,
                    None => {
                        self.fail(
                            out,
                            error(
                                "invalid_tool_call",
                                "Kimi returned a function call without an id",
                            ),
                        );
                        return;
                    },
                };
                let name = match filled(function_text(tool, "name")) {
                    Some(s) => s,
                    None => {
                        self.fail(
                            out,
                            error(
                                "invalid_tool_call",
                                "Kimi returned a function call without a name",
                            ),
                        );
                        return;
                    },
                };
                let ghost start = self@;
                let ghost before = self.outputs@;
                let ghost slots = self.tools@;
                let index: usize = self.outputs.len();
                let output = Output::Tool {
                    id: text::cat("fc_", &call_id),
                    call_id,
                    name,
                    arguments: String::new(),
                    started: false,
                };
                proof {
                    assert(outputs_v(before.push(output)) =~= outputs_v(before).push(output@));
                    assert(tools_v(slots.push((slot, index))) =~= tools_v(slots).push(
                        (slot, index as int),
                    ));
                }
                self.outputs.push(output);
                self.tools.push((slot, index));
                proof {
                    let core = self@;
                    assert forall|k: int| 0 <= k < core.tools.len() implies 0 <= (
                    #[trigger] core.tools[k]).1 < core.outputs.len()
                        && core.outputs[core.tools[k].1] is Tool by {
                        if k < start.tools.len() {
                            assert(start.tools[k] == core.tools[k]);
                        }
                    }
                }
                self.arguments_delta(out, index, &delta);
            },
        }
    }

    fn output_done(&mut self, out: &mut Vec<u8>, index: usize, status: &str)
        requires
            index < old(self).outputs@.len(),
        ensures
            step_v(*final(self), *final(out)) == model::output_done_v(
                step_v(*old(self), *old(out)),
                index as int,
                old(self).outputs@[index as int]@,
                status@,
            ),
            *final(self) == (Core { sequence: final(self).sequence, ..*old(self) }),
    {
        let done = item(&self.outputs[index], status);
        let (first, a, second, b) = match &self.outputs[index] {
            Output::Reasoning { id, text } => (
                "response.reasoning_summary_text.done",
                place(id, index, "summary_index").with("text", str(text)),
                "response.reasoning_summary_part.done",
                Some(place(id, index, "summary_index").with("part", summary_part(text))),
            ),
            Output::Message { id, text } => (
                "response.output_text.done",
                place(id, index, "content_index").with("text", str(text)),
                "response.content_part.done",
                Some(place(id, index, "content_index").with("part", text_part(text))),
            ),
            Output::Tool { id, arguments, .. } => (
                "response.function_call_arguments.done",
                Json::object().with("item_id", str(id)).with(
                    "output_index",
                    Json::uint(index as u64),
                ).with("arguments", str(arguments)),
                "",
                None,
            ),
        };
        self.emit(out, first, a);
        if let Some(b) = b {
            self.emit(out, second, b);
        }
        self.emit(out, "response.output_item.done", added(index, done));
    }

    fn outputs_done(&mut self, out: &mut Vec<u8>, status: &str, whole: bool) -> (r: Vec<Json>)
        ensures
            step_v(*final(self), *final(out)) == model::outputs_done_v(
                step_v(*old(self), *old(out)),
                old(self)@.outputs,
                status@,
                whole,
                old(self)@.outputs.len() as int,
            ),
            json::items_v(r@) == model::items_v(
                old(self)@.outputs,
                status@,
                whole,
                old(self)@.outputs.len() as int,
            ),
            *final(self) == (Core { sequence: final(self).sequence, ..*old(self) }),
    {
        let ghost start = step_v(*self, *out);
        let ghost all = self@.outputs;
        let mut items: Vec<Json> = Vec::new();
        let mut i: usize = 0;
        assert(json::items_v(items@) =~= Seq::<JsonV>::empty());
        while i < self.outputs.len()
            invariant
                i <= self.outputs@.len(),
                all == outputs_v(self.outputs@),
                all == old(self)@.outputs,
                start == step_v(*old(self), *old(out)),
                *self == (Core { sequence: self.sequence, ..*old(self) }),
                step_v(*self, *out) == model::outputs_done_v(start, all, status@, whole, i as int),
                json::items_v(items@) == model::items_v(all, status@, whole, i as int),
            decreases self.outputs@.len() - i,
        {
            assert(all[i as int] == self.outputs@[i as int]@);
            let tool = match &self.outputs[i] {
                Output::Tool { .. } => true,
                _ => false,
            };
            if whole || !tool {
                let done = item(&self.outputs[i], status);
                self.output_done(out, i, status);
                json::push_item(&mut items, done);
            }
            i += 1;
        }
        items
    }

    fn all_sound(&self) -> (r: bool)
        ensures
            r == model::all_sound_v(self@.outputs),
    {
        let ghost all = self@.outputs;
        let mut i: usize = 0;
        while i < self.outputs.len()
            invariant
                i <= self.outputs@.len(),
                all == outputs_v(self.outputs@),
                all == self@.outputs,
                forall|k: int| 0 <= k < i ==> model::sound_v(#[trigger] all[k]),
            decreases self.outputs@.len() - i,
        {
            assert(all[i as int] == self.outputs@[i as int]@);
            if let Output::Tool { arguments, .. } = &self.outputs[i] {
                if json::parse(arguments).is_none() {
                    assert(!model::sound_v(all[i as int]));
                    return false;
                }
            }
            i += 1;
        }
        true
    }

    fn complete(&mut self, out: &mut Vec<u8>)
        requires
            model::core_ok(old(self)@),
        ensures
            step_v(*final(self), *final(out)) == model::complete_v(step_v(*old(self), *old(out))),
            model::core_ok(final(self)@),
    {
        self.start(out);
        let items = self.outputs_done(out, "completed", true);
        let response = self.response("completed", items);
        self.close(out, "response.completed", response);
    }

    fn incomplete(&mut self, out: &mut Vec<u8>)
        requires
            model::core_ok(old(self)@),
        ensures
            step_v(*final(self), *final(out)) == model::incomplete_v(
                step_v(*old(self), *old(out)),
            ),
            model::core_ok(final(self)@),
    {
        self.start(out);
        let items = self.outputs_done(out, "incomplete", false);
        let response = self.response("incomplete", items).with(
            "incomplete_details",
            Json::object().with("reason", str("max_output_tokens")),
        );
        self.close(out, "response.incomplete", response);
    }

    fn end(&mut self, out: &mut Vec<u8>)
        requires
            model::core_ok(old(self)@),
        ensures
            step_v(*final(self), *final(out)) == model::terminal_v(step_v(*old(self), *old(out))),
            model::core_ok(final(self)@),
    {
        if self.terminal {
            return;
        }
        let length = match &self.finish_reason {
            None => {
                self.fail(
                    out,
                    error("upstream_error", "Kimi stream ended without a finish reason"),
                );
                return;
            },
            Some(reason) => same(reason, "length"),
        };
        if length {
            self.incomplete(out);
        } else if !self.all_sound() {
            self.fail(
                out,
                error("invalid_tool_call", "Kimi returned invalid function call arguments"),
            );
        } else {
            self.complete(out);
        }
    }

    fn choice(&mut self, out: &mut Vec<u8>, choice: &Json)
        requires
            model::core_ok(old(self)@),
        ensures
            step_v(*final(self), *final(out)) == model::choice_v(
                step_v(*old(self), *old(out)),
                choice@,
            ),
            model::core_ok(final(self)@),
    {
        if let Some(reason) = choice.get_str("finish_reason") {
            self.finish_reason = Some(text::owned(reason));
        }
        let delta = match choice.get("delta") {
            Some(d) => d,
            None => {
                return;
            },
        };
        if let Some(s) = filled(delta.get_str("reasoning_content")) {
            self.reasoning_delta(out, &s);
        }
        if let Some(s) = filled(delta.get_str("content")) {
            self.text_delta(out, &s);
        }
        if let Some(tools) = delta.get_array("tool_calls") {
            let ghost all = json::items_v(tools@);
            let ghost said = step_v(*self, *out);
            let mut i: usize = 0;
            while i < tools.len()
                invariant
                    i <= tools@.len(),
                    all == json::items_v(tools@),
                    model::core_ok(self@),
                    step_v(*self, *out) == model::tool_deltas_v(said, all.take(i as int)),
                decreases tools@.len() - i,
            {
                proof {
                    json::items_len(tools@);
                    json::items_at(tools@, i as int);
                    assert(all.take(i + 1).drop_last() =~= all.take(i as int));
                    assert(all.take(i + 1).last() == tools@[i as int]@);
                }
                self.tool_delta(out, &tools[i]);
                i += 1;
            }
            proof {
                json::items_len(tools@);
                assert(all.take(i as int) =~= all);
            }
        }
    }

    fn chunk(&mut self, out: &mut Vec<u8>, chunk: &Json)
        requires
            model::core_ok(old(self)@),
        ensures
            step_v(*final(self), *final(out)) == model::chunk_v(
                step_v(*old(self), *old(out)),
                chunk@,
            ),
            model::core_ok(final(self)@),
    {
        if let Some(error) = chunk.get("error") {
            self.fail(out, error.copy());
            return;
        }
        self.start(out);
        if let Some(usage) = chunk.get("usage") {
            self.usage = usage_of(usage);
        }
        if let Some(choices) = chunk.get_array("choices") {
            proof {
                json::items_len(choices@);
            }
            if choices.len() > 0 {
                proof {
                    json::items_at(choices@, 0);
                }
                self.choice(out, &choices[0]);
            }
        }
    }

    fn consume(&mut self, out: &mut Vec<u8>, data: &str)
        requires
            model::core_ok(old(self)@),
        ensures
            step_v(*final(self), *final(out)) == model::consume_v(
                step_v(*old(self), *old(out)),
                data@,
            ),
            model::core_ok(final(self)@),
    {
        if self.terminal || data.is_empty() {
            return;
        }
        if same(data, "[DONE]") {
            self.end(out);
            return;
        }
        match json::parse(data) {
            None => {
                self.fail(out, error("upstream_error", "Kimi returned malformed SSE JSON"));
            },
            Some(chunk) => {
                self.chunk(out, &chunk);
            },
        }
    }
}

/// Growing an output leaves the numbers of outputs in order.
proof fn grown_ok(before: CoreV, after: CoreV, index: int)
    requires
        model::core_ok(before),
        0 <= index < before.outputs.len(),
        after.reasoning_index == before.reasoning_index,
        after.message_index == before.message_index,
        after.tools == before.tools,
        after.outputs.len() == before.outputs.len(),
        forall|k: int|
            0 <= k < before.outputs.len() && k != index ==> after.outputs[k]
                == #[trigger] before.outputs[k],
        before.outputs[index] is Reasoning ==> after.outputs[index] is Reasoning,
        before.outputs[index] is Message ==> after.outputs[index] is Message,
        before.outputs[index] is Tool ==> after.outputs[index] is Tool,
    ensures
        model::core_ok(after),
{
    assert forall|k: int| 0 <= k < after.tools.len() implies 0 <= (#[trigger] after.tools[k]).1
        < after.outputs.len() && after.outputs[after.tools[k].1] is Tool by {
        assert(before.tools[k] == after.tools[k]);
        assert(before.outputs[before.tools[k].1] is Tool);
    }
}

fn payloads(lines: &Vec<String>) -> (r: Vec<String>)
    ensures
        text::views(r@) == model::payloads_v(text::views(lines@)),
{
    let ghost all = text::views(lines@);
    let mut out: Vec<String> = Vec::new();
    let mut i: usize = 0;
    assert(text::views(out@) =~= Seq::<Seq<char>>::empty());
    while i < lines.len()
        invariant
            i <= lines@.len(),
            all == text::views(lines@),
            text::views(out@) == model::payloads_v(all.take(i as int)),
        decreases lines@.len() - i,
    {
        proof {
            assert(all.take(i + 1).drop_last() =~= all.take(i as int));
            assert(all.take(i + 1).last() == lines@[i as int]@);
        }
        if let Some(rest) = text::strip_prefix(&lines[i], "data:") {
            let data = text::trim_start(&rest);
            proof {
                assert(text::views(out@.push(data)) =~= text::views(out@).push(data@));
            }
            out.push(data);
        }
        i += 1;
    }
    assert(all.take(i as int) =~= all);
    out
}

fn data_of(frame: &Vec<u8>) -> (r: String)
    ensures
        r@ == model::data_v(frame@),
{
    let lines = text::lines(&text::decode_lossy(frame.as_slice()));
    text::join(&payloads(&lines), "\n")
}

/// A stream under translation.
#[derive(Debug)]
pub struct Translator {
    core: Core,
    buffer: Vec<u8>,
    received_bytes: usize,
}

impl Translator {
    pub closed spec fn view(&self) -> StreamV {
        StreamV {
            core: self.core@,
            pending: self.buffer@,
            received: self.received_bytes as nat,
        }
    }

    /// The numbers of outputs are those of outputs of their kind.
    pub closed spec fn ok(&self) -> bool {
        model::core_ok(self.core@)
    }

    pub fn new(response_id: &str, model: &str) -> (r: Translator)
        ensures
            r@ == model::stream_v(response_id@, model@),
            r.ok(),
    {
        Translator { core: Core::new(response_id, model), buffer: Vec::new(), received_bytes: 0 }
    }

    /// Takes a chunk of the stream, and gives what is put out.
    pub fn push(&mut self, chunk: &[u8]) -> (r: Vec<u8>)
        requires
            old(self).ok(),
        ensures
            (final(self)@, r@) == model::push_v(old(self)@, chunk@),
            final(self).ok(),
    {
        let mut out: Vec<u8> = Vec::new();
        if self.core.terminal {
            return out;
        }
        self.received_bytes = self.received_bytes.saturating_add(chunk.len());
        if self.received_bytes > MAX_STREAM_BYTES {
            assert(out@ =~= Seq::<u8>::empty());
            self.core.fail(
                &mut out,
                error("upstream_error", "Kimi stream exceeded the 64 MiB safety limit"),
            );
            return out;
        }
        append_slice(&mut self.buffer, chunk);
        let ghost first = self.core@;
        let ghost whole = self.buffer@;
        let mut from: usize = 0;
        assert(whole.skip(0) =~= whole);
        let mut next: Option<(usize, usize)> = frame_boundary(&self.buffer, 0);
        proof {
            let d = model::drain_v(first, whole);
            assert(Seq::<u8>::empty() + d.2 =~= d.2);
        }
        while next.is_some()
            invariant
                from <= self.buffer@.len(),
                self.buffer@.len() == self.buffer.len(),
                self.buffer@ == whole,
                self.received_bytes as nat == model::count_v(
                    old(self).received_bytes as nat,
                    chunk@.len(),
                ),
                model::core_ok(self.core@),
                match next {
                    Some((p, n)) => sse::boundary_v(whole, from as int) == Some(
                        (p as int, n as int),
                    ),
                    None => sse::boundary_v(whole, from as int) is None,
                },
                ({
                    let d = model::drain_v(self.core@, whole.skip(from as int));
                    model::drain_v(first, whole) == (d.0, d.1, out@ + d.2)
                }),
            decreases self.buffer@.len() - from,
        {
            if let Some((p, n)) = next {
                proof {
                    sse::boundary_within(whole, from as int);
                    sse::boundary_shift(whole, from as int);
                    assert(whole.skip(from as int).take(p - from) =~= whole.subrange(
                        from as int,
                        p as int,
                    ));
                    assert(whole.skip(from as int).skip(p + n - from) =~= whole.skip(p + n));
                }
                let ghost before = out@;
                let ghost c = self.core@;
                let frame = sub_bytes(&self.buffer, from, p);
                let mut more: Vec<u8> = Vec::new();
                let data = data_of(&frame);
                proof {
                    assert(more@ =~= Seq::<u8>::empty());
                    reveal(model::frame_v);
                }
                self.core.consume(&mut more, &data);
                assert(step_v(self.core, more) == model::frame_v(c, frame@));
                append(&mut out, &more);
                from = p + n;
                proof {
                    let d = model::drain_v(self.core@, whole.skip(from as int));
                    assert(before + (more@ + d.2) =~= before + more@ + d.2);
                }
                next = frame_boundary(&self.buffer, from);
            }
        }
        proof {
            sse::boundary_shift(whole, from as int);
            assert(out@ + Seq::<u8>::empty() =~= out@);
            assert(whole.skip(from as int) =~= whole.subrange(from as int, whole.len() as int));
        }
        self.buffer = sub_bytes(&self.buffer, from, self.buffer.len());
        if self.buffer.len() > MAX_FRAME_BYTES {
            let mut more: Vec<u8> = Vec::new();
            assert(more@ =~= Seq::<u8>::empty());
            self.core.fail(
                &mut more,
                error("upstream_error", "Kimi SSE frame exceeded the 8 MiB safety limit"),
            );
            append(&mut out, &more);
            self.buffer = Vec::new();
        }
        out
    }

    /// Takes the end of the stream, and gives what is put out.
    pub fn finish(&mut self) -> (r: Vec<u8>)
        requires
            old(self).ok(),
        ensures
            (final(self)@, r@) == model::finish_v(old(self)@),
            final(self).ok(),
    {
        let mut out: Vec<u8> = Vec::new();
        assert(out@ =~= Seq::<u8>::empty());
        if self.core.terminal {
            return out;
        }
        if !is_blank(self.buffer.as_slice()) {
            self.buffer = Vec::new();
            self.core.fail(
                &mut out,
                error("upstream_error", "Kimi stream ended with an incomplete SSE frame"),
            );
        } else {
            self.core.end(&mut out);
        }
        out
    }

    /// Ends the stream in failure.
    pub fn fail(&mut self, error: &Json) -> (r: Vec<u8>)
        requires
            old(self).ok(),
        ensures
            ({
                let f = model::fail_v(model::from_v(old(self)@.core), error@);
                final(self)@ == (StreamV { core: f.core, ..old(self)@ }) && r@ == f.out
            }),
            final(self).ok(),
    {
        let mut out: Vec<u8> = Vec::new();
        assert(out@ =~= Seq::<u8>::empty());
        self.core.fail(&mut out, error.copy());
        out
    }

    /// Whether the stream has ended.
    pub fn is_terminal(&self) -> (r: bool)
        ensures
            r == self@.core.terminal,
    {
        self.core.terminal
    }

    /// The response with which the stream ended.
    pub fn terminal_response(&self) -> (r: Option<&Json>)
        ensures
            json::opt_json(r) == self@.core.terminal_response,
    {
        match &self.core.terminal_response {
            Some(v) => Some(v),
            None => None,
        }
    }
}

} // verus!
