//! A translated stream as a whole: what came in, what the client hears, and the
//! response at the end.

use vstd::prelude::*;

use crate::json;
use crate::json::JsonV;
use crate::provider::kimi::stream::model;
use crate::provider::kimi::stream::model::{CoreV, OutputV, StepV, StreamV};
use crate::provider::kimi::stream::told;
use crate::provider::kimi::stream::trace;
use crate::provider::kimi::stream::trace::HeardV;
use crate::sse;
use crate::words;

verus! {

/// The answer as far as it has come.
pub open spec fn answer_v(c: CoreV) -> Seq<char> {
    match c.message_index {
        Some(i) => c.outputs[i]->Message_text,
        None => Seq::empty(),
    }
}

/// The reasoning as far as it has come.
pub open spec fn thought_v(c: CoreV) -> Seq<char> {
    match c.reasoning_index {
        Some(i) => c.outputs[i]->Reasoning_text,
        None => Seq::empty(),
    }
}

/// A text in the delta of the first choice of a chunk.
pub open spec fn brought_v(chunk: JsonV, k: Seq<char>) -> Seq<char> {
    match chunk.get_list("choices"@) {
        Some(choices) => if choices.len() > 0 {
            match choices[0].get("delta"@) {
                Some(delta) => match delta.get_text(k) {
                    Some(s) => s,
                    None => Seq::empty(),
                },
                None => Seq::empty(),
            }
        } else {
            Seq::empty()
        },
        None => Seq::empty(),
    }
}

proof fn calls_keep_the_texts(s: StepV, tool: JsonV)
    requires
        model::core_ok(s.core),
    ensures
        answer_v(model::tool_delta_v(s, tool).core) == answer_v(s.core),
        thought_v(model::tool_delta_v(s, tool).core) == thought_v(s.core),
        model::tool_delta_v(s, tool).core.finish_reason == s.core.finish_reason,
        model::tool_delta_v(s, tool).core.usage == s.core.usage,
{
    let slot = match tool.get_uint("index"@) {
        Some(n) => n,
        None => 0,
    };
    told::slots_are_calls(s.core, s.core.tools, slot);
}

proof fn all_calls_keep_the_texts(s: StepV, tools: Seq<JsonV>)
    requires
        model::core_ok(s.core),
    ensures
        answer_v(model::tool_deltas_v(s, tools).core) == answer_v(s.core),
        thought_v(model::tool_deltas_v(s, tools).core) == thought_v(s.core),
        model::tool_deltas_v(s, tools).core.finish_reason == s.core.finish_reason,
        model::tool_deltas_v(s, tools).core.usage == s.core.usage,
    decreases tools.len(),
{
    if tools.len() > 0 {
        all_calls_keep_the_texts(s, tools.drop_last());
        told::calls_never_vanish(s, tools.drop_last());
        calls_keep_the_texts(model::tool_deltas_v(s, tools.drop_last()), tools.last());
    }
}

/// What a chunk brings is added to what came before: its content to the answer,
/// its reasoning to the reasoning. A finish reason in it is kept.
pub proof fn chunks_add_up(s: StepV, chunk: JsonV)
    requires
        model::core_ok(s.core),
        chunk.get("error"@) is None,
    ensures
        ({
            let t = model::chunk_v(s, chunk).core;
            &&& answer_v(t) == answer_v(s.core) + brought_v(chunk, "content"@)
            &&& thought_v(t) == thought_v(s.core) + brought_v(chunk, "reasoning_content"@)
            &&& t.finish_reason == match chunk.get_list("choices"@) {
                Some(choices) => if choices.len() > 0 && choices[0].get_text("finish_reason"@)
                    is Some {
                    choices[0].get_text("finish_reason"@)
                } else {
                    s.core.finish_reason
                },
                None => s.core.finish_reason,
            }
        }),
{
    let counted = model::with_usage_v(model::start_v(s), chunk);
    assert(answer_v(s.core) + Seq::<char>::empty() =~= answer_v(s.core));
    assert(thought_v(s.core) + Seq::<char>::empty() =~= thought_v(s.core));
    if let Some(choices) = chunk.get_list("choices"@) {
        if choices.len() > 0 {
            let choice = choices[0];
            let ended = match choice.get_text("finish_reason"@) {
                Some(r) => StepV { core: CoreV { finish_reason: Some(r), ..counted.core }, ..counted },
                None => counted,
            };
            if let Some(delta) = choice.get("delta"@) {
                let thought = match model::filled_v(delta.get_text("reasoning_content"@)) {
                    Some(t) => model::reasoning_delta_v(ended, t),
                    None => ended,
                };
                let said = match model::filled_v(delta.get_text("content"@)) {
                    Some(t) => model::text_delta_v(thought, t),
                    None => thought,
                };
                told::pieces_never_vanish(ended, thought, said, delta);
                assert(brought_v(chunk, "content"@).len() == 0 ==> brought_v(chunk, "content"@)
                    =~= Seq::<char>::empty());
                assert(brought_v(chunk, "reasoning_content"@).len() == 0 ==> brought_v(
                    chunk,
                    "reasoning_content"@,
                ) =~= Seq::<char>::empty());
                texts_grow(ended, brought_v(chunk, "reasoning_content"@), true);
                texts_grow(thought, brought_v(chunk, "content"@), false);
                if let Some(tools) = delta.get_list("tool_calls"@) {
                    all_calls_keep_the_texts(said, tools);
                }
            }
        }
    }
}

proof fn texts_grow(s: StepV, delta: Seq<char>, thinks: bool)
    requires
        model::core_ok(s.core),
    ensures
        ({
            let t = if thinks {
                model::reasoning_delta_v(s, delta).core
            } else {
                model::text_delta_v(s, delta).core
            };
            &&& answer_v(t) == if thinks {
                answer_v(s.core)
            } else {
                answer_v(s.core) + delta
            }
            &&& thought_v(t) == if thinks {
                thought_v(s.core) + delta
            } else {
                thought_v(s.core)
            }
            &&& t.finish_reason == s.core.finish_reason
        }),
{
}

/// The usage that a chunk reports is the usage of the response, count by count.
pub proof fn usage_is_kept(s: StepV, chunk: JsonV, usage: JsonV)
    requires
        model::core_ok(s.core),
        chunk.get("error"@) is None,
        chunk.get("usage"@) == Some(usage),
    ensures
        ({
            let u = model::chunk_v(s, chunk).core.usage;
            &&& usage.get_uint("prompt_tokens"@) matches Some(n) ==> u.get_uint("input_tokens"@)
                == Some(n)
            &&& usage.get_uint("completion_tokens"@) matches Some(n) ==> u.get_uint(
                "output_tokens"@,
            ) == Some(n)
            &&& usage.get_uint("total_tokens"@) matches Some(n) ==> u.get_uint("total_tokens"@)
                == Some(n)
            &&& (usage.get_uint("total_tokens"@), usage.get_uint("prompt_tokens"@), usage.get_uint(
                "completion_tokens"@,
            )) matches (None, Some(m), Some(n)) ==> m + n <= u64::MAX ==> u.get_uint(
                "total_tokens"@,
            ) == Some((m + n) as u64)
            &&& usage.get("prompt_tokens_details"@) matches Some(d) ==> (d.get_uint(
                "cached_tokens"@,
            ) matches Some(n) ==> (u.get("input_tokens_details"@) matches Some(e) && e.get_uint(
                "cached_tokens"@,
            ) == Some(n)))
            &&& usage.get("completion_tokens_details"@) matches Some(d) ==> (d.get_uint(
                "reasoning_tokens"@,
            ) matches Some(n) ==> (u.get("output_tokens_details"@) matches Some(e) && e.get_uint(
                "reasoning_tokens"@,
            ) == Some(n)))
        }),
{
    words::responses();
    let counted = model::with_usage_v(model::start_v(s), chunk);
    if let Some(choices) = chunk.get_list("choices"@) {
        if choices.len() > 0 {
            usage_stays(counted, choices[0]);
        }
    }
}

proof fn usage_stays(s: StepV, choice: JsonV)
    requires
        model::core_ok(s.core),
    ensures
        model::choice_v(s, choice).core.usage == s.core.usage,
{
    let ended = match choice.get_text("finish_reason"@) {
        Some(r) => StepV { core: CoreV { finish_reason: Some(r), ..s.core }, ..s },
        None => s,
    };
    if let Some(delta) = choice.get("delta"@) {
        let thought = match model::filled_v(delta.get_text("reasoning_content"@)) {
            Some(t) => model::reasoning_delta_v(ended, t),
            None => ended,
        };
        let said = match model::filled_v(delta.get_text("content"@)) {
            Some(t) => model::text_delta_v(thought, t),
            None => thought,
        };
        told::pieces_never_vanish(ended, thought, said, delta);
        if let Some(tools) = delta.get_list("tool_calls"@) {
            all_calls_keep_the_texts(said, tools);
        }
    }
}

/// The text in the function of a piece of a call.
pub open spec fn of_function_v(tool: JsonV, k: Seq<char>) -> Seq<char> {
    match tool.get("function"@) {
        Some(f) => match f.get_text(k) {
            Some(s) => s,
            None => Seq::empty(),
        },
        None => Seq::empty(),
    }
}

pub open spec fn number_of_v(tool: JsonV) -> u64 {
    match tool.get_uint("index"@) {
        Some(n) => n,
        None => 0,
    }
}

/// A piece of a call that has begun is added to its arguments, and all else
/// stays. The first piece of a call begins it with the ID, the name and the
/// arguments that it brings; without an ID or a name the stream fails.
pub proof fn calls_add_up(s: StepV, tool: JsonV)
    requires
        model::core_ok(s.core),
        !s.core.terminal,
    ensures
        ({
            let t = model::tool_delta_v(s, tool).core;
            let slot = number_of_v(tool);
            let n = s.core.outputs.len() as int;
            match model::slot_v(s.core.tools, slot) {
                Some(i) => {
                    &&& 0 <= i < n && t.outputs.len() == n
                    &&& t.outputs[i] is Tool
                    &&& t.outputs[i]->call_id == s.core.outputs[i]->call_id
                    &&& t.outputs[i]->name == s.core.outputs[i]->name
                    &&& t.outputs[i]->arguments == s.core.outputs[i]->arguments + of_function_v(
                        tool,
                        "arguments"@,
                    )
                    &&& forall|k: int|
                        0 <= k < n && k != i ==> #[trigger] t.outputs[k] == s.core.outputs[k]
                    &&& t.tools == s.core.tools && !t.terminal
                },
                None => if tool.get_text("id"@) is Some && tool.get_text("id"@)->0.len() > 0
                    && of_function_v(tool, "name"@).len() > 0 {
                    &&& t.outputs.len() == n + 1
                    &&& t.outputs.drop_last() == s.core.outputs
                    &&& t.outputs.last() is Tool
                    &&& Some(t.outputs.last()->call_id) == tool.get_text("id"@)
                    &&& t.outputs.last()->name == of_function_v(tool, "name"@)
                    &&& t.outputs.last()->arguments == of_function_v(tool, "arguments"@)
                    &&& model::slot_v(t.tools, slot) == Some(n)
                    &&& !t.terminal
                } else {
                    &&& t.terminal
                    &&& t.outputs == s.core.outputs
                    &&& t.terminal_response matches Some(r) && (r.get("error"@) matches Some(e)
                        && e.get_text("type"@) == Some("invalid_tool_call"@))
                },
            }
        }),
{
    words::responses();
    let slot = number_of_v(tool);
    told::slots_are_calls(s.core, s.core.tools, slot);
    let t = model::tool_delta_v(s, tool).core;
    let delta = of_function_v(tool, "arguments"@);
    assert(Seq::<char>::empty() + delta =~= delta);
    if t.outputs.len() > s.core.outputs.len() {
        assert(t.outputs.drop_last() =~= s.core.outputs);
        assert(t.tools.drop_last() =~= s.core.tools);
    }
}

/// A call keeps its number.
pub proof fn calls_keep_their_numbers(s: StepV, tool: JsonV, slot: u64)
    requires
        model::slot_v(s.core.tools, slot) is Some,
    ensures
        model::slot_v(model::tool_delta_v(s, tool).core.tools, slot) == model::slot_v(
            s.core.tools,
            slot,
        ),
{
    let t = model::tool_delta_v(s, tool).core;
    if t.tools != s.core.tools {
        assert(t.tools.drop_last() =~= s.core.tools);
    }
}

/// What an item in a response says of an output.
pub open spec fn shown_v(o: OutputV, item: JsonV, status: Seq<char>) -> bool {
    &&& item.get_text("status"@) == Some(status)
    &&& match o {
        OutputV::Message { id, text } => {
            &&& item.get_text("type"@) == Some("message"@)
            &&& item.get_text("role"@) == Some("assistant"@)
            &&& item.get_text("id"@) == Some(id)
            &&& item.get_list("content"@) matches Some(parts)
            &&& parts.len() == 1
            &&& parts[0].get_text("type"@) == Some("output_text"@)
            &&& parts[0].get_text("text"@) == Some(text)
        },
        OutputV::Reasoning { id, text } => {
            &&& item.get_text("type"@) == Some("reasoning"@)
            &&& item.get_text("id"@) == Some(id)
            &&& item.get_list("summary"@) matches Some(parts)
            &&& parts.len() == 1
            &&& parts[0].get_text("type"@) == Some("summary_text"@)
            &&& parts[0].get_text("text"@) == Some(text)
        },
        OutputV::Tool { id, call_id, name, arguments, started } => {
            &&& item.get_text("type"@) == Some("function_call"@)
            &&& item.get_text("id"@) == Some(id)
            &&& item.get_text("call_id"@) == Some(call_id)
            &&& item.get_text("name"@) == Some(name)
            &&& item.get_text("arguments"@) == Some(arguments)
        },
    }
}

proof fn items_show_outputs(outputs: Seq<OutputV>, status: Seq<char>, n: int)
    requires
        0 <= n <= outputs.len(),
    ensures
        model::items_v(outputs, status, true, n).len() == n,
        forall|i: int|
            0 <= i < n ==> shown_v(
                outputs[i],
                #[trigger] model::items_v(outputs, status, true, n)[i],
                status,
            ),
    decreases n,
{
    words::responses();
    if n > 0 {
        items_show_outputs(outputs, status, n - 1);
        let before = model::items_v(outputs, status, true, n - 1);
        let items = model::items_v(outputs, status, true, n);
        assert forall|i: int| 0 <= i < n implies shown_v(
            outputs[i],
            #[trigger] items[i],
            status,
        ) by {
            if i < n - 1 {
                assert(items[i] == before[i]);
            }
        }
    }
}

/// The texts and the thoughts of a list, without the calls in it.
pub open spec fn no_calls_v(outputs: Seq<OutputV>) -> Seq<OutputV> {
    outputs.filter(|o: OutputV| !(o is Tool))
}

proof fn items_show_texts(outputs: Seq<OutputV>, status: Seq<char>, n: int)
    requires
        0 <= n <= outputs.len(),
    ensures
        ({
            let kept = no_calls_v(outputs.take(n));
            let items = model::items_v(outputs, status, false, n);
            items.len() == kept.len() && forall|i: int|
                0 <= i < kept.len() ==> shown_v(kept[i], #[trigger] items[i], status)
        }),
    decreases n,
{
    words::responses();
    reveal(Seq::filter);
    if n > 0 {
        items_show_texts(outputs, status, n - 1);
        assert(outputs.take(n).drop_last() =~= outputs.take(n - 1));
        let before = model::items_v(outputs, status, false, n - 1);
        let items = model::items_v(outputs, status, false, n);
        let kept = no_calls_v(outputs.take(n));
        assert forall|i: int| 0 <= i < kept.len() implies shown_v(
            kept[i],
            #[trigger] items[i],
            status,
        ) by {
            if i < before.len() {
                assert(items[i] == before[i]);
            }
        }
    }
}

/// A response that is completed holds every output, each with all its text, with
/// the usage, the ID and the model of the stream.
pub proof fn completed_responses_hold_all(s: StepV)
    requires
        !s.core.terminal,
        s.core.finish_reason is Some,
        s.core.finish_reason != Some("length"@),
        model::all_sound_v(s.core.outputs),
    ensures
        ({
            &&& model::terminal_v(s).core.terminal_response matches Some(r)
            &&& r.get_text("id"@) == Some(s.core.response_id)
            &&& r.get_text("object"@) == Some("response"@)
            &&& r.get_text("model"@) == Some(s.core.model)
            &&& r.get_text("status"@) == Some("completed"@)
            &&& r.get("usage"@) == Some(s.core.usage)
            &&& r.get_list("output"@) matches Some(items)
            &&& items.len() == s.core.outputs.len()
            &&& forall|i: int|
                0 <= i < items.len() ==> shown_v(
                    s.core.outputs[i],
                    #[trigger] items[i],
                    "completed"@,
                )
        }),
{
    words::responses();
    let begun = model::start_v(s);
    let n = begun.core.outputs.len() as int;
    items_show_outputs(begun.core.outputs, "completed"@, n);
    cores_stay(begun, begun.core.outputs, "completed"@, true, n);
}

/// A response that was cut short holds its texts and thoughts, no calls, and
/// says why it is incomplete.
pub proof fn cut_responses_hold_their_texts(s: StepV)
    requires
        !s.core.terminal,
        s.core.finish_reason == Some("length"@),
    ensures
        ({
            let kept = no_calls_v(s.core.outputs);
            &&& model::terminal_v(s).core.terminal_response matches Some(r)
            &&& r.get_text("id"@) == Some(s.core.response_id)
            &&& r.get_text("model"@) == Some(s.core.model)
            &&& r.get_text("status"@) == Some("incomplete"@)
            &&& r.get("usage"@) == Some(s.core.usage)
            &&& r.get("incomplete_details"@) matches Some(d)
            &&& d.get_text("reason"@) == Some("max_output_tokens"@)
            &&& r.get_list("output"@) matches Some(items)
            &&& items.len() == kept.len()
            &&& forall|i: int|
                0 <= i < items.len() ==> shown_v(kept[i], #[trigger] items[i], "incomplete"@)
        }),
{
    words::responses();
    let begun = model::start_v(s);
    let n = begun.core.outputs.len() as int;
    items_show_texts(begun.core.outputs, "incomplete"@, n);
    assert(begun.core.outputs.take(n) =~= s.core.outputs);
    cores_stay(begun, begun.core.outputs, "incomplete"@, false, n);
}

proof fn cores_stay(s: StepV, outputs: Seq<OutputV>, status: Seq<char>, whole: bool, n: int)
    ensures
        model::outputs_done_v(s, outputs, status, whole, n).core == (CoreV {
            sequence: model::outputs_done_v(s, outputs, status, whole, n).core.sequence,
            ..s.core
        }),
    decreases n,
{
    if n > 0 {
        cores_stay(s, outputs, status, whole, n - 1);
    }
}

proof fn data_never_vanish(s: StepV, data: Seq<char>)
    requires
        model::core_ok(s.core),
    ensures
        model::core_ok(model::consume_v(s, data).core),
        s.core.outputs.len() <= model::consume_v(s, data).core.outputs.len(),
{
    told::outputs_stay_at_the_end(s);
    if !s.core.terminal && data.len() > 0 && data == "[DONE]"@ {
        let begun = model::start_v(s);
        let n = begun.core.outputs.len() as int;
        cores_stay(begun, begun.core.outputs, "completed"@, true, n);
        cores_stay(begun, begun.core.outputs, "incomplete"@, false, n);
    } else if let Some(chunk) = json::parsed(data) {
        let counted = model::with_usage_v(model::start_v(s), chunk);
        if let Some(choices) = chunk.get_list("choices"@) {
            if choices.len() > 0 {
                choices_never_vanish(counted, choices[0]);
            }
        }
    }
}

proof fn choices_never_vanish(s: StepV, choice: JsonV)
    requires
        model::core_ok(s.core),
    ensures
        model::core_ok(model::choice_v(s, choice).core),
        s.core.outputs.len() <= model::choice_v(s, choice).core.outputs.len(),
{
    let ended = match choice.get_text("finish_reason"@) {
        Some(r) => StepV { core: CoreV { finish_reason: Some(r), ..s.core }, ..s },
        None => s,
    };
    if let Some(delta) = choice.get("delta"@) {
        let thought = match model::filled_v(delta.get_text("reasoning_content"@)) {
            Some(t) => model::reasoning_delta_v(ended, t),
            None => ended,
        };
        let said = match model::filled_v(delta.get_text("content"@)) {
            Some(t) => model::text_delta_v(thought, t),
            None => thought,
        };
        told::pieces_never_vanish(ended, thought, said, delta);
        if let Some(tools) = delta.get_list("tool_calls"@) {
            told::calls_never_vanish(said, tools);
        }
    }
}

/// What one frame brings is told.
proof fn a_frame_is_told(c: CoreV, frame: Seq<u8>, past: Seq<HeardV>) -> (more: Seq<HeardV>)
    requires
        trace::all_known_v(c, past),
        model::frame_v(c, frame).core.outputs.len() <= u64::MAX,
    ensures
        model::frame_v(c, frame).out == trace::all_written_v(more),
        trace::all_known_v(model::frame_v(c, frame).core, past + more),
{
    reveal(model::frame_v);
    let s = model::from_v(c);
    let more = told::data_are_told(s, model::data_v(frame), past);
    assert(s.out + trace::all_written_v(more) =~= trace::all_written_v(more));
    more
}

proof fn a_frame_never_vanishes(c: CoreV, frame: Seq<u8>)
    requires
        model::core_ok(c),
    ensures
        model::core_ok(model::frame_v(c, frame).core),
        c.outputs.len() <= model::frame_v(c, frame).core.outputs.len(),
{
    reveal(model::frame_v);
    data_never_vanish(model::from_v(c), model::data_v(frame));
}

proof fn frames_never_vanish(c: CoreV, buffer: Seq<u8>)
    requires
        model::core_ok(c),
    ensures
        model::core_ok(model::drain_v(c, buffer).0),
        c.outputs.len() <= model::drain_v(c, buffer).0.outputs.len(),
    decreases buffer.len(),
{
    if let Some((p, n)) = sse::boundary_v(buffer, 0) {
        if 0 <= p && n > 0 && p + n <= buffer.len() {
            let frame = buffer.take(p);
            a_frame_never_vanishes(c, frame);
            frames_never_vanish(model::frame_v(c, frame).core, buffer.skip(p + n));
        }
    }
}

proof fn frames_are_told(c: CoreV, buffer: Seq<u8>, past: Seq<HeardV>) -> (more: Seq<HeardV>)
    requires
        trace::all_known_v(c, past),
        model::drain_v(c, buffer).0.outputs.len() <= u64::MAX,
    ensures
        model::drain_v(c, buffer).2 == trace::all_written_v(more),
        trace::all_known_v(model::drain_v(c, buffer).0, past + more),
    decreases buffer.len(),
{
    let none = Seq::<HeardV>::empty();
    let whole = match sse::boundary_v(buffer, 0) {
        Some((p, n)) => 0 <= p && n > 0 && p + n <= buffer.len(),
        None => false,
    };
    if whole {
        let (p, n) = sse::boundary_v(buffer, 0)->0;
        let frame = buffer.take(p);
        let t = model::frame_v(c, frame);
        a_frame_never_vanishes(c, frame);
        frames_never_vanish(t.core, buffer.skip(p + n));
        let first = a_frame_is_told(c, frame, past);
        let second = frames_are_told(t.core, buffer.skip(p + n), past + first);
        trace::written_adds(first, second);
        assert(past + (first + second) =~= (past + first) + second);
        first + second
    } else {
        assert(past + none =~= past);
        none
    }
}

/// Whatever the network brings, what is put out is events, and they leave the
/// client with all that there is of every output.
pub proof fn streams_are_told(s: StreamV, chunk: Seq<u8>, past: Seq<HeardV>) -> (more: Seq<HeardV>)
    requires
        trace::all_known_v(s.core, past),
        model::push_v(s, chunk).0.core.outputs.len() <= u64::MAX,
    ensures
        model::push_v(s, chunk).1 == trace::all_written_v(more),
        trace::all_known_v(model::push_v(s, chunk).0.core, past + more),
{
    let none = Seq::<HeardV>::empty();
    let received = model::count_v(s.received, chunk.len());
    let empty = Seq::<u8>::empty();
    if s.core.terminal {
        assert(past + none =~= past);
        none
    } else if received > model::MAX_STREAM_BYTES {
        let more = told::failures_are_told(
            model::from_v(s.core),
            model::upstream_error_v("Kimi stream exceeded the 64 MiB safety limit"@),
            past,
        );
        assert(empty + trace::all_written_v(more) =~= trace::all_written_v(more));
        more
    } else {
        let (core, pending, out) = model::drain_v(s.core, s.pending + chunk);
        frames_never_vanish(s.core, s.pending + chunk);
        if pending.len() > model::MAX_FRAME_BYTES {
            let first = frames_are_told(s.core, s.pending + chunk, past);
            let second = told::failures_are_told(
                model::from_v(core),
                model::upstream_error_v("Kimi SSE frame exceeded the 8 MiB safety limit"@),
                past + first,
            );
            trace::written_adds(first, second);
            assert(empty + trace::all_written_v(second) =~= trace::all_written_v(second));
            assert(past + (first + second) =~= (past + first) + second);
            first + second
        } else {
            frames_are_told(s.core, s.pending + chunk, past)
        }
    }
}

/// The same holds of the end of a stream.
pub proof fn ends_of_streams_are_told(s: StreamV, past: Seq<HeardV>) -> (more: Seq<HeardV>)
    requires
        trace::all_known_v(s.core, past),
        s.core.outputs.len() <= u64::MAX,
    ensures
        model::finish_v(s).1 == trace::all_written_v(more),
        trace::all_known_v(model::finish_v(s).0.core, past + more),
{
    let none = Seq::<HeardV>::empty();
    let empty = Seq::<u8>::empty();
    if s.core.terminal {
        assert(past + none =~= past);
        none
    } else if !crate::proxy::request::blank_v(s.pending) {
        let more = told::failures_are_told(
            model::from_v(s.core),
            model::upstream_error_v("Kimi stream ended with an incomplete SSE frame"@),
            past,
        );
        assert(empty + trace::all_written_v(more) =~= trace::all_written_v(more));
        more
    } else {
        let more = told::terminals_are_told(model::from_v(s.core), past);
        assert(empty + trace::all_written_v(more) =~= trace::all_written_v(more));
        more
    }
}

/// A client that has heard nothing has all of a stream that has not begun.
pub proof fn streams_begin_untold(response_id: Seq<char>, name: Seq<char>)
    ensures
        ({
            let s = model::stream_v(response_id, name);
            &&& trace::all_known_v(s.core, Seq::empty())
            &&& s.core.response_id == response_id
            &&& s.core.model == name
            &&& s.core.sequence == 0
            &&& !s.core.started && !s.core.terminal
        }),
{
}

} // verus!
