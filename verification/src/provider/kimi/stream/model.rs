//! What a Chat Completions stream becomes as a Responses stream.

use vstd::prelude::*;

use crate::json;
use crate::json::JsonV;
use crate::sse;
use crate::text;

verus! {

/// The longest frame that is taken.
pub const MAX_FRAME_BYTES: usize = 8_388_608;

/// The longest stream that is taken.
pub const MAX_STREAM_BYTES: usize = 67_108_864;

/// An output item as far as it has come.
#[verifier::ext_equal]
pub enum OutputV {
    Reasoning { id: Seq<char>, text: Seq<char> },
    Message { id: Seq<char>, text: Seq<char> },
    Tool {
        id: Seq<char>,
        call_id: Seq<char>,
        name: Seq<char>,
        arguments: Seq<char>,
        started: bool,
    },
}

/// A response as far as it has come. Output items are numbered in the order in
/// which they began; `tools` gives the number of the item for each call.
#[verifier::ext_equal]
pub struct CoreV {
    pub response_id: Seq<char>,
    pub model: Seq<char>,
    pub outputs: Seq<OutputV>,
    pub reasoning_index: Option<int>,
    pub message_index: Option<int>,
    pub tools: Seq<(u64, int)>,
    pub sequence: u64,
    pub usage: JsonV,
    pub finish_reason: Option<Seq<char>>,
    pub started: bool,
    pub terminal: bool,
    pub terminal_response: Option<JsonV>,
}

/// A response, and what has been put out on the way to it.
#[verifier::ext_equal]
pub struct StepV {
    pub core: CoreV,
    pub out: Seq<u8>,
}

pub open spec fn str_v(s: Seq<char>) -> JsonV {
    JsonV::Str(s)
}

pub open spec fn counts_v(input: u64, cached: u64, output: u64, thought: u64, total: u64) -> JsonV {
    json::empty_v().with("input_tokens"@, json::uint_v(input)).with(
        "input_tokens_details"@,
        json::empty_v().with("cached_tokens"@, json::uint_v(cached)),
    ).with("output_tokens"@, json::uint_v(output)).with(
        "output_tokens_details"@,
        json::empty_v().with("reasoning_tokens"@, json::uint_v(thought)),
    ).with("total_tokens"@, json::uint_v(total))
}

pub open spec fn fresh_v(response_id: Seq<char>, model: Seq<char>) -> CoreV {
    CoreV {
        response_id,
        model,
        outputs: Seq::empty(),
        reasoning_index: None,
        message_index: None,
        tools: Seq::empty(),
        sequence: 0,
        usage: counts_v(0, 0, 0, 0, 0),
        finish_reason: None,
        started: false,
        terminal: false,
        terminal_response: None,
    }
}

/// The frame of an event.
pub open spec fn event_v(
    sequence: u64,
    response_id: Seq<char>,
    kind: Seq<char>,
    fields: JsonV,
) -> Seq<u8> {
    sse::bytes_v(
        "event: "@ + kind + "\ndata: "@ + json::json_text(
            fields.with("type"@, str_v(kind)).with(
                "sequence_number"@,
                json::uint_v(sequence),
            ).with("response_id"@, str_v(response_id)),
        ) + "\n\n"@,
    )
}

/// One more event.
pub open spec fn emit_v(s: StepV, kind: Seq<char>, fields: JsonV) -> StepV {
    StepV {
        core: CoreV { sequence: s.core.sequence.wrapping_add(1), ..s.core },
        out: s.out + event_v(s.core.sequence, s.core.response_id, kind, fields),
    }
}

pub open spec fn response_v(c: CoreV, status: Seq<char>, output: Seq<JsonV>) -> JsonV {
    json::empty_v().with("id"@, str_v(c.response_id)).with("object"@, str_v("response"@)).with(
        "status"@,
        str_v(status),
    ).with("model"@, str_v(c.model)).with("output"@, JsonV::Arr(output)).with("usage"@, c.usage)
}

pub open spec fn holding_v(response: JsonV) -> JsonV {
    json::empty_v().with("response"@, response)
}

/// The first event of a stream.
pub open spec fn start_v(s: StepV) -> StepV {
    if s.core.started {
        s
    } else {
        emit_v(
            StepV { core: CoreV { started: true, ..s.core }, ..s },
            "response.created"@,
            holding_v(response_v(s.core, "in_progress"@, Seq::empty())),
        )
    }
}

pub open spec fn done_v(s: StepV) -> StepV {
    StepV { out: s.out + sse::bytes_v("data: [DONE]\n\n"@), ..s }
}

pub open spec fn close_v(s: StepV, kind: Seq<char>, response: JsonV) -> StepV {
    done_v(
        emit_v(
            StepV {
                core: CoreV {
                    terminal: true,
                    terminal_response: Some(response),
                    ..s.core
                },
                ..s
            },
            kind,
            holding_v(response),
        ),
    )
}

/// The stream ends in failure.
pub open spec fn fail_v(s: StepV, error: JsonV) -> StepV {
    let begun = start_v(s);
    close_v(
        begun,
        "response.failed"@,
        json::empty_v().with("id"@, str_v(begun.core.response_id)).with(
            "object"@,
            str_v("response"@),
        ).with("status"@, str_v("failed"@)).with("model"@, str_v(begun.core.model)).with(
            "output"@,
            JsonV::Arr(Seq::empty()),
        ).with("error"@, error),
    )
}

pub open spec fn error_v(kind: Seq<char>, message: Seq<char>) -> JsonV {
    json::empty_v().with("type"@, str_v(kind)).with("message"@, str_v(message))
}

pub open spec fn upstream_error_v(message: Seq<char>) -> JsonV {
    error_v("upstream_error"@, message)
}

/// The number of the reasoning item, which begins here if there is none.
pub open spec fn reasoning_slot_v(c: CoreV) -> (CoreV, int) {
    match c.reasoning_index {
        Some(i) => (c, i),
        None => (
            CoreV {
                outputs: c.outputs.push(
                    OutputV::Reasoning { id: "rs_"@ + c.response_id, text: Seq::empty() },
                ),
                reasoning_index: Some(c.outputs.len() as int),
                ..c
            },
            c.outputs.len() as int,
        ),
    }
}

pub open spec fn summary_part_v(text: Seq<char>) -> JsonV {
    json::empty_v().with("type"@, str_v("summary_text"@)).with("text"@, str_v(text))
}

/// `{"item_id":..,"output_index":..,"summary_index":0}`, or with another name
/// for the last.
pub open spec fn place_v(id: Seq<char>, index: int, counter: Seq<char>) -> JsonV {
    json::empty_v().with("item_id"@, str_v(id)).with(
        "output_index"@,
        json::uint_v(index as u64),
    ).with(counter, json::uint_v(0))
}

pub open spec fn added_v(index: int, item: JsonV) -> JsonV {
    json::empty_v().with("output_index"@, json::uint_v(index as u64)).with("item"@, item)
}

pub open spec fn reasoning_begun_v(s: StepV, index: int, id: Seq<char>) -> StepV {
    emit_v(
        emit_v(
            s,
            "response.output_item.added"@,
            added_v(
                index,
                json::empty_v().with("id"@, str_v(id)).with("type"@, str_v("reasoning"@)).with(
                    "status"@,
                    str_v("in_progress"@),
                ).with("summary"@, JsonV::Arr(Seq::empty())),
            ),
        ),
        "response.reasoning_summary_part.added"@,
        place_v(id, index, "summary_index"@).with("part"@, summary_part_v(Seq::empty())),
    )
}

/// A piece of reasoning.
pub open spec fn reasoning_delta_v(s: StepV, delta: Seq<char>) -> StepV {
    let (core, index) = reasoning_slot_v(s.core);
    match core.outputs[index] {
        OutputV::Reasoning { id, text } => {
            let placed = StepV { core, ..s };
            let begun = if text.len() == 0 {
                reasoning_begun_v(placed, index, id)
            } else {
                placed
            };
            let grown = StepV {
                core: CoreV {
                    outputs: begun.core.outputs.update(
                        index,
                        OutputV::Reasoning { id, text: text + delta },
                    ),
                    ..begun.core
                },
                ..begun
            };
            emit_v(
                grown,
                "response.reasoning_summary_text.delta"@,
                place_v(id, index, "summary_index"@).with("delta"@, str_v(delta)),
            )
        },
        _ => StepV { core, ..s },
    }
}

/// The number of the message item, which begins here if there is none.
pub open spec fn message_slot_v(c: CoreV) -> (CoreV, int) {
    match c.message_index {
        Some(i) => (c, i),
        None => (
            CoreV {
                outputs: c.outputs.push(
                    OutputV::Message { id: "msg_"@ + c.response_id, text: Seq::empty() },
                ),
                message_index: Some(c.outputs.len() as int),
                ..c
            },
            c.outputs.len() as int,
        ),
    }
}

pub open spec fn text_part_v(text: Seq<char>) -> JsonV {
    json::empty_v().with("type"@, str_v("output_text"@)).with("text"@, str_v(text)).with(
        "annotations"@,
        JsonV::Arr(Seq::empty()),
    )
}

pub open spec fn message_begun_v(s: StepV, index: int, id: Seq<char>) -> StepV {
    emit_v(
        emit_v(
            s,
            "response.output_item.added"@,
            added_v(
                index,
                json::empty_v().with("id"@, str_v(id)).with("type"@, str_v("message"@)).with(
                    "status"@,
                    str_v("in_progress"@),
                ).with("role"@, str_v("assistant"@)).with("content"@, JsonV::Arr(Seq::empty())),
            ),
        ),
        "response.content_part.added"@,
        place_v(id, index, "content_index"@).with("part"@, text_part_v(Seq::empty())),
    )
}

/// A piece of the answer.
pub open spec fn text_delta_v(s: StepV, delta: Seq<char>) -> StepV {
    let (core, index) = message_slot_v(s.core);
    match core.outputs[index] {
        OutputV::Message { id, text } => {
            let placed = StepV { core, ..s };
            let begun = if text.len() == 0 {
                message_begun_v(placed, index, id)
            } else {
                placed
            };
            let grown = StepV {
                core: CoreV {
                    outputs: begun.core.outputs.update(
                        index,
                        OutputV::Message { id, text: text + delta },
                    ),
                    ..begun.core
                },
                ..begun
            };
            emit_v(
                grown,
                "response.output_text.delta"@,
                place_v(id, index, "content_index"@).with("delta"@, str_v(delta)),
            )
        },
        _ => StepV { core, ..s },
    }
}

/// The number of the item for a call.
pub open spec fn slot_v(tools: Seq<(u64, int)>, slot: u64) -> Option<int>
    decreases tools.len(),
{
    if tools.len() == 0 {
        None
    } else if tools.last().0 == slot {
        Some(tools.last().1)
    } else {
        slot_v(tools.drop_last(), slot)
    }
}

pub open spec fn filled_v(s: Option<Seq<char>>) -> Option<Seq<char>> {
    match s {
        Some(s) => if s.len() > 0 {
            Some(s)
        } else {
            None
        },
        None => None,
    }
}

pub open spec fn function_text_v(tool: JsonV, k: Seq<char>) -> Option<Seq<char>> {
    match tool.get("function"@) {
        Some(f) => f.get_text(k),
        None => None,
    }
}

pub open spec fn tool_item_v(
    id: Seq<char>,
    status: Seq<char>,
    call_id: Seq<char>,
    name: Seq<char>,
    arguments: Seq<char>,
) -> JsonV {
    json::empty_v().with("id"@, str_v(id)).with("type"@, str_v("function_call"@)).with(
        "status"@,
        str_v(status),
    ).with("call_id"@, str_v(call_id)).with("name"@, str_v(name)).with(
        "arguments"@,
        str_v(arguments),
    )
}

/// A piece of the arguments of the call at `index`.
pub open spec fn arguments_delta_v(s: StepV, index: int, delta: Seq<char>) -> StepV {
    match s.core.outputs[index] {
        OutputV::Tool { id, call_id, name, arguments, started } => {
            let begun = if started {
                s
            } else {
                emit_v(
                    s,
                    "response.output_item.added"@,
                    added_v(
                        index,
                        tool_item_v(id, "in_progress"@, call_id, name, Seq::empty()),
                    ),
                )
            };
            let grown = StepV {
                core: CoreV {
                    outputs: begun.core.outputs.update(
                        index,
                        OutputV::Tool {
                            id,
                            call_id,
                            name,
                            arguments: arguments + delta,
                            started: true,
                        },
                    ),
                    ..begun.core
                },
                ..begun
            };
            if delta.len() > 0 {
                emit_v(
                    grown,
                    "response.function_call_arguments.delta"@,
                    json::empty_v().with("item_id"@, str_v(id)).with(
                        "output_index"@,
                        json::uint_v(index as u64),
                    ).with("delta"@, str_v(delta)),
                )
            } else {
                grown
            }
        },
        _ => s,
    }
}

/// A piece of a call. A call that does not say which function it is for, or
/// under which name it goes, ends the stream in failure.
pub open spec fn tool_delta_v(s: StepV, tool: JsonV) -> StepV {
    let slot = match tool.get_uint("index"@) {
        Some(n) => n,
        None => 0,
    };
    let delta = match function_text_v(tool, "arguments"@) {
        Some(a) => a,
        None => Seq::empty(),
    };
    if s.core.terminal {
        s
    } else {
        match slot_v(s.core.tools, slot) {
            Some(index) => arguments_delta_v(s, index, delta),
            None => match filled_v(tool.get_text("id"@)) {
                None => fail_v(
                    s,
                    error_v(
                        "invalid_tool_call"@,
                        "Kimi returned a function call without an id"@,
                    ),
                ),
                Some(call_id) => match filled_v(function_text_v(tool, "name"@)) {
                    None => fail_v(
                        s,
                        error_v(
                            "invalid_tool_call"@,
                            "Kimi returned a function call without a name"@,
                        ),
                    ),
                    Some(name) => {
                        let index = s.core.outputs.len() as int;
                        arguments_delta_v(
                            StepV {
                                core: CoreV {
                                    outputs: s.core.outputs.push(
                                        OutputV::Tool {
                                            id: "fc_"@ + call_id,
                                            call_id,
                                            name,
                                            arguments: Seq::empty(),
                                            started: false,
                                        },
                                    ),
                                    tools: s.core.tools.push((slot, index)),
                                    ..s.core
                                },
                                ..s
                            },
                            index,
                            delta,
                        )
                    },
                },
            },
        }
    }
}

pub open spec fn tool_deltas_v(s: StepV, tools: Seq<JsonV>) -> StepV
    decreases tools.len(),
{
    if tools.len() == 0 {
        s
    } else {
        tool_delta_v(tool_deltas_v(s, tools.drop_last()), tools.last())
    }
}

pub open spec fn reasoning_item_v(id: Seq<char>, status: Seq<char>, text: Seq<char>) -> JsonV {
    json::empty_v().with("id"@, str_v(id)).with("type"@, str_v("reasoning"@)).with(
        "status"@,
        str_v(status),
    ).with("summary"@, JsonV::Arr(seq![summary_part_v(text)]))
}

pub open spec fn message_item_v(id: Seq<char>, status: Seq<char>, text: Seq<char>) -> JsonV {
    json::empty_v().with("id"@, str_v(id)).with("type"@, str_v("message"@)).with(
        "status"@,
        str_v(status),
    ).with("role"@, str_v("assistant"@)).with("content"@, JsonV::Arr(seq![text_part_v(text)]))
}

/// The item of an output.
pub open spec fn item_v(o: OutputV, status: Seq<char>) -> JsonV {
    match o {
        OutputV::Reasoning { id, text } => reasoning_item_v(id, status, text),
        OutputV::Message { id, text } => message_item_v(id, status, text),
        OutputV::Tool { id, call_id, name, arguments, started } => tool_item_v(
            id,
            status,
            call_id,
            name,
            arguments,
        ),
    }
}

/// The events with which an output ends.
pub open spec fn output_done_v(s: StepV, index: int, o: OutputV, status: Seq<char>) -> StepV {
    let last = match o {
        OutputV::Reasoning { id, text } => emit_v(
            emit_v(
                s,
                "response.reasoning_summary_text.done"@,
                place_v(id, index, "summary_index"@).with("text"@, str_v(text)),
            ),
            "response.reasoning_summary_part.done"@,
            place_v(id, index, "summary_index"@).with("part"@, summary_part_v(text)),
        ),
        OutputV::Message { id, text } => emit_v(
            emit_v(
                s,
                "response.output_text.done"@,
                place_v(id, index, "content_index"@).with("text"@, str_v(text)),
            ),
            "response.content_part.done"@,
            place_v(id, index, "content_index"@).with("part"@, text_part_v(text)),
        ),
        OutputV::Tool { id, call_id, name, arguments, started } => emit_v(
            s,
            "response.function_call_arguments.done"@,
            json::empty_v().with("item_id"@, str_v(id)).with(
                "output_index"@,
                json::uint_v(index as u64),
            ).with("arguments"@, str_v(arguments)),
        ),
    };
    emit_v(last, "response.output_item.done"@, added_v(index, item_v(o, status)))
}

/// Whether an output is part of a response that was cut short: calls are not,
/// for they could be executed.
pub open spec fn kept_v(o: OutputV, whole: bool) -> bool {
    whole || !(o is Tool)
}

/// The events with which the first `n` outputs end.
pub open spec fn outputs_done_v(
    s: StepV,
    outputs: Seq<OutputV>,
    status: Seq<char>,
    whole: bool,
    n: int,
) -> StepV
    decreases n,
{
    if n <= 0 {
        s
    } else {
        let before = outputs_done_v(s, outputs, status, whole, n - 1);
        if kept_v(outputs[n - 1], whole) {
            output_done_v(before, n - 1, outputs[n - 1], status)
        } else {
            before
        }
    }
}

pub open spec fn items_v(
    outputs: Seq<OutputV>,
    status: Seq<char>,
    whole: bool,
    n: int,
) -> Seq<JsonV>
    decreases n,
{
    if n <= 0 {
        Seq::empty()
    } else {
        let before = items_v(outputs, status, whole, n - 1);
        if kept_v(outputs[n - 1], whole) {
            before.push(item_v(outputs[n - 1], status))
        } else {
            before
        }
    }
}

/// Whether an output can be handed over: the arguments of a call are JSON.
pub open spec fn sound_v(o: OutputV) -> bool {
    o matches OutputV::Tool { arguments, .. } ==> json::parsed(arguments) is Some
}

pub open spec fn all_sound_v(outputs: Seq<OutputV>) -> bool {
    forall|i: int| 0 <= i < outputs.len() ==> sound_v(#[trigger] outputs[i])
}

/// The stream ends with all its outputs.
pub open spec fn complete_v(s: StepV) -> StepV {
    let begun = start_v(s);
    let outputs = begun.core.outputs;
    let n = outputs.len() as int;
    let closed = outputs_done_v(begun, outputs, "completed"@, true, n);
    close_v(
        closed,
        "response.completed"@,
        response_v(closed.core, "completed"@, items_v(outputs, "completed"@, true, n)),
    )
}

/// The stream ends where the limit of its length cut it short.
pub open spec fn incomplete_v(s: StepV) -> StepV {
    let begun = start_v(s);
    let outputs = begun.core.outputs;
    let n = outputs.len() as int;
    let closed = outputs_done_v(begun, outputs, "incomplete"@, false, n);
    close_v(
        closed,
        "response.incomplete"@,
        response_v(closed.core, "incomplete"@, items_v(outputs, "incomplete"@, false, n)).with(
            "incomplete_details"@,
            json::empty_v().with("reason"@, str_v("max_output_tokens"@)),
        ),
    )
}

/// The stream ends, as its finish reason says.
pub open spec fn terminal_v(s: StepV) -> StepV {
    if s.core.terminal {
        s
    } else {
        match s.core.finish_reason {
            None => fail_v(
                s,
                upstream_error_v("Kimi stream ended without a finish reason"@),
            ),
            Some(reason) => if reason == "length"@ {
                incomplete_v(s)
            } else if !all_sound_v(s.core.outputs) {
                fail_v(
                    s,
                    error_v(
                        "invalid_tool_call"@,
                        "Kimi returned invalid function call arguments"@,
                    ),
                )
            } else {
                complete_v(s)
            },
        }
    }
}

pub open spec fn number_v(v: JsonV, k: Seq<char>) -> u64 {
    match v.get_uint(k) {
        Some(n) => n,
        None => 0,
    }
}

pub open spec fn inner_number_v(v: JsonV, k: Seq<char>, inner: Seq<char>) -> u64 {
    match v.get(k) {
        Some(d) => number_v(d, inner),
        None => 0,
    }
}

/// The usage as the Responses API counts it.
pub open spec fn usage_v(usage: JsonV) -> JsonV {
    let input = number_v(usage, "prompt_tokens"@);
    let output = number_v(usage, "completion_tokens"@);
    counts_v(
        input,
        inner_number_v(usage, "prompt_tokens_details"@, "cached_tokens"@),
        output,
        inner_number_v(usage, "completion_tokens_details"@, "reasoning_tokens"@),
        match usage.get_uint("total_tokens"@) {
            Some(n) => n,
            None => input.wrapping_add(output),
        },
    )
}

pub open spec fn with_usage_v(s: StepV, chunk: JsonV) -> StepV {
    match chunk.get("usage"@) {
        Some(u) => StepV { core: CoreV { usage: usage_v(u), ..s.core }, ..s },
        None => s,
    }
}

/// What a choice brings.
pub open spec fn choice_v(s: StepV, choice: JsonV) -> StepV {
    let ended = match choice.get_text("finish_reason"@) {
        Some(r) => StepV { core: CoreV { finish_reason: Some(r), ..s.core }, ..s },
        None => s,
    };
    match choice.get("delta"@) {
        None => ended,
        Some(delta) => {
            let thought = match filled_v(delta.get_text("reasoning_content"@)) {
                Some(t) => reasoning_delta_v(ended, t),
                None => ended,
            };
            let said = match filled_v(delta.get_text("content"@)) {
                Some(t) => text_delta_v(thought, t),
                None => thought,
            };
            match delta.get_list("tool_calls"@) {
                Some(tools) => tool_deltas_v(said, tools),
                None => said,
            }
        },
    }
}

/// What a chunk of the completion brings.
pub open spec fn chunk_v(s: StepV, chunk: JsonV) -> StepV {
    match chunk.get("error"@) {
        Some(error) => fail_v(s, error),
        None => {
            let counted = with_usage_v(start_v(s), chunk);
            match chunk.get_list("choices"@) {
                None => counted,
                Some(choices) => if choices.len() == 0 {
                    counted
                } else {
                    choice_v(counted, choices[0])
                },
            }
        },
    }
}

/// What the data of a frame brings.
pub open spec fn consume_v(s: StepV, data: Seq<char>) -> StepV {
    if s.core.terminal || data.len() == 0 {
        s
    } else if data == "[DONE]"@ {
        terminal_v(s)
    } else {
        match json::parsed(data) {
            None => fail_v(s, upstream_error_v("Kimi returned malformed SSE JSON"@)),
            Some(chunk) => chunk_v(s, chunk),
        }
    }
}

/// What the `data:` lines carry.
pub open spec fn payloads_v(lines: Seq<Seq<char>>) -> Seq<Seq<char>>
    decreases lines.len(),
{
    if lines.len() == 0 {
        Seq::empty()
    } else {
        let before = payloads_v(lines.drop_last());
        match text::strip_v(lines.last(), "data:"@) {
            Some(rest) => before.push(text::trim_start_v(rest)),
            None => before,
        }
    }
}

pub open spec fn data_v(frame: Seq<u8>) -> Seq<char> {
    text::join_v(payloads_v(text::lines_v(text::utf8_lossy(frame))), "\n"@)
}

/// What a frame brings.
#[verifier::opaque]
pub open spec fn frame_v(c: CoreV, frame: Seq<u8>) -> StepV {
    consume_v(StepV { core: c, out: Seq::empty() }, data_v(frame))
}

/// What the whole frames of a buffer bring: the response after them, what is
/// left of the buffer, and what is put out.
pub open spec fn drain_v(c: CoreV, buffer: Seq<u8>) -> (CoreV, Seq<u8>, Seq<u8>)
    decreases buffer.len(),
{
    match sse::boundary_v(buffer, 0) {
        Some((p, n)) => {
            if 0 <= p && n > 0 && p + n <= buffer.len() {
                let first = frame_v(c, buffer.take(p));
                let (d, rest, more) = drain_v(first.core, buffer.skip(p + n));
                (d, rest, first.out + more)
            } else {
                (c, buffer, Seq::empty())
            }
        },
        None => (c, buffer, Seq::empty()),
    }
}

/// A stream under translation: the response, the bytes of an unfinished frame,
/// and how many bytes have come.
#[verifier::ext_equal]
pub struct StreamV {
    pub core: CoreV,
    pub pending: Seq<u8>,
    pub received: nat,
}

pub open spec fn stream_v(response_id: Seq<char>, model: Seq<char>) -> StreamV {
    StreamV { core: fresh_v(response_id, model), pending: Seq::empty(), received: 0 }
}

pub open spec fn from_v(c: CoreV) -> StepV {
    StepV { core: c, out: Seq::empty() }
}

/// The count of bytes after `n` more; it stops at the largest count there is.
pub open spec fn count_v(received: nat, n: nat) -> nat {
    if received + n > usize::MAX {
        usize::MAX as nat
    } else {
        received + n
    }
}

/// A chunk of the stream.
pub open spec fn push_v(s: StreamV, chunk: Seq<u8>) -> (StreamV, Seq<u8>) {
    let received = count_v(s.received, chunk.len());
    if s.core.terminal {
        (s, Seq::empty())
    } else if received > MAX_STREAM_BYTES {
        let f = fail_v(
            from_v(s.core),
            upstream_error_v("Kimi stream exceeded the 64 MiB safety limit"@),
        );
        (StreamV { core: f.core, received, ..s }, f.out)
    } else {
        let (core, pending, out) = drain_v(s.core, s.pending + chunk);
        if pending.len() > MAX_FRAME_BYTES {
            let f = fail_v(
                from_v(core),
                upstream_error_v("Kimi SSE frame exceeded the 8 MiB safety limit"@),
            );
            (StreamV { core: f.core, pending: Seq::empty(), received }, out + f.out)
        } else {
            (StreamV { core, pending, received }, out)
        }
    }
}

/// The end of the stream.
pub open spec fn finish_v(s: StreamV) -> (StreamV, Seq<u8>) {
    if s.core.terminal {
        (s, Seq::empty())
    } else if !crate::proxy::request::blank_v(s.pending) {
        let f = fail_v(
            from_v(s.core),
            upstream_error_v("Kimi stream ended with an incomplete SSE frame"@),
        );
        (StreamV { core: f.core, pending: Seq::empty(), ..s }, f.out)
    } else {
        let t = terminal_v(from_v(s.core));
        (StreamV { core: t.core, ..s }, t.out)
    }
}

/// The numbers of outputs are those of outputs of their kind.
pub open spec fn core_ok(c: CoreV) -> bool {
    &&& c.reasoning_index matches Some(i) ==> 0 <= i < c.outputs.len() && c.outputs[i] is Reasoning
    &&& c.message_index matches Some(i) ==> 0 <= i < c.outputs.len() && c.outputs[i] is Message
    &&& forall|k: int|
        0 <= k < c.tools.len() ==> 0 <= (#[trigger] c.tools[k]).1 < c.outputs.len()
            && c.outputs[c.tools[k].1] is Tool
}

} // verus!
