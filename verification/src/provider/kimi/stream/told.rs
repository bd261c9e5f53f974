//! Whatever comes, a client hears all of it: the events of a translated stream
//! add up to its outputs.

use vstd::prelude::*;

use crate::json;
use crate::json::JsonV;
use crate::provider::kimi::stream::model;
use crate::provider::kimi::stream::model::{CoreV, OutputV, StepV};
use crate::provider::kimi::stream::trace;
use crate::provider::kimi::stream::trace::HeardV;
use crate::words;

verus! {

/// `more` was put out between the two steps, and leaves all outputs known.
pub open spec fn follows_v(s: StepV, t: StepV, past: Seq<HeardV>, more: Seq<HeardV>) -> bool {
    trace::told_v(s, t, more) && trace::all_known_v(t.core, past + more)
}

pub proof fn nothing_follows(s: StepV, t: StepV, past: Seq<HeardV>)
    requires
        trace::all_known_v(s.core, past),
        t.out == s.out,
        model::core_ok(t.core),
        t.core.outputs == s.core.outputs,
    ensures
        follows_v(s, t, past, Seq::empty()),
{
    trace::told_nothing(s, t);
    assert(past + Seq::<HeardV>::empty() =~= past);
}

pub proof fn both_follow(
    a: StepV,
    b: StepV,
    c: StepV,
    past: Seq<HeardV>,
    first: Seq<HeardV>,
    second: Seq<HeardV>,
)
    requires
        follows_v(a, b, past, first),
        follows_v(b, c, past + first, second),
    ensures
        follows_v(a, c, past, first + second),
{
    trace::told_both(a, b, c, first, second);
    assert(past + (first + second) =~= (past + first) + second);
}

/// Events that add to no output follow wherever the outputs stay as they are.
proof fn quiet_follows(s: StepV, t: StepV, past: Seq<HeardV>, more: Seq<HeardV>)
    requires
        trace::all_known_v(s.core, past),
        trace::told_v(s, t, more),
        trace::all_quiet_v(more),
        t.core.outputs == s.core.outputs,
        model::core_ok(t.core),
    ensures
        follows_v(s, t, past, more),
{
    trace::quiet_keeps_known(t.core, past, more);
}

/// The number of the item of a call is that of a call.
pub proof fn slots_are_calls(c: CoreV, tools: Seq<(u64, int)>, slot: u64)
    requires
        model::core_ok(c),
        tools.is_prefix_of(c.tools),
    ensures
        model::slot_v(tools, slot) matches Some(i) ==> 0 <= i < c.outputs.len()
            && c.outputs[i] is Tool,
    decreases tools.len(),
{
    if tools.len() > 0 {
        assert(c.tools[tools.len() - 1] == tools.last());
        assert(tools.drop_last().is_prefix_of(c.tools)) by {
            assert forall|k: int| 0 <= k < tools.len() - 1 implies tools.drop_last()[k]
                == c.tools[k] by {
                assert(tools[k] == c.tools[k]);
            }
        }
        slots_are_calls(c, tools.drop_last(), slot);
    }
}

/// A piece of the arguments of a call is told as it came, after the call has been
/// announced; the call has that piece more.
pub proof fn arguments_are_told(s: StepV, index: int, delta: Seq<char>, past: Seq<HeardV>) -> (more:
    Seq<HeardV>)
    requires
        trace::all_known_v(s.core, past),
        0 <= index < s.core.outputs.len() <= u64::MAX,
        s.core.outputs[index] is Tool,
    ensures
        ({
            let t = model::arguments_delta_v(s, index, delta);
            let before = s.core.outputs[index];
            let after = t.core.outputs[index];
            &&& follows_v(s, t, past, more)
            &&& t.core.outputs.len() == s.core.outputs.len()
            &&& after is Tool
            &&& after->arguments == before->arguments + delta
            &&& after->Tool_id == before->Tool_id
            &&& after->call_id == before->call_id
            &&& after->name == before->name
            &&& delta.len() > 0 ==> {
                &&& more.len() > 0
                &&& trace::about_v(
                    more.last(),
                    "response.function_call_arguments.delta"@,
                    index,
                )
                &&& trace::data_of_v(more.last()).get_text("delta"@) == Some(delta)
                &&& trace::data_of_v(more.last()).get_text("item_id"@) == Some(after->Tool_id)
            }
            &&& !before->started ==> {
                &&& more.len() > 0
                &&& trace::about_v(more[0], "response.output_item.added"@, index)
                &&& trace::item_text_v(more[0], "type"@) == Some("function_call"@)
                &&& trace::item_text_v(more[0], "id"@) == Some(after->Tool_id)
                &&& trace::item_text_v(more[0], "call_id"@) == Some(after->call_id)
                &&& trace::item_text_v(more[0], "name"@) == Some(after->name)
            }
        }),
{
    words::events();
    words::responses();
    let o = s.core.outputs[index];
    let (id, call_id, name, arguments) = (o->Tool_id, o->call_id, o->name, o->arguments);
    let none = Seq::<HeardV>::empty();
    trace::told_nothing(s, s);
    let mut quiet = none;
    let mut begun = s;
    if !o->started {
        let fields = model::added_v(
            index,
            model::tool_item_v(id, "in_progress"@, call_id, name, Seq::empty()),
        );
        let e = trace::told_one(s, s, none, "response.output_item.added"@, fields);
        begun = model::emit_v(s, "response.output_item.added"@, fields);
        quiet = none.push(e);
    }
    let new = OutputV::Tool { id, call_id, name, arguments: arguments + delta, started: true };
    let grown = StepV {
        core: CoreV { outputs: begun.core.outputs.update(index, new), ..begun.core },
        ..begun
    };
    assert(trace::told_v(s, grown, quiet));
    let t = model::arguments_delta_v(s, index, delta);
    if delta.len() > 0 {
        let fields = json::empty_v().with("item_id"@, JsonV::Str(id)).with(
            "output_index"@,
            json::uint_v(index as u64),
        ).with("delta"@, JsonV::Str(delta));
        let e = trace::told_one(
            s,
            grown,
            quiet,
            "response.function_call_arguments.delta"@,
            fields,
        );
        assert(t == model::emit_v(grown, "response.function_call_arguments.delta"@, fields));
        trace::grown_is_known(
            s.core,
            s.core,
            t.core,
            past,
            quiet,
            e,
            trace::arguments_kind_v(),
            index,
        );
        quiet.push(e)
    } else {
        assert(t == grown);
        assert(arguments + delta =~= arguments);
        trace::quiet_keeps_known(s.core, past, quiet);
        assert forall|i: int| 0 <= i < t.core.outputs.len() implies trace::known_v(
            #[trigger] t.core.outputs[i],
            past + quiet,
            i,
        ) by {
            assert(trace::known_v(s.core.outputs[i], past + quiet, i));
        }
        quiet
    }
}

pub proof fn starts_are_told(s: StepV, past: Seq<HeardV>) -> (more: Seq<HeardV>)
    requires
        trace::all_known_v(s.core, past),
    ensures
        follows_v(s, model::start_v(s), past, more),
        model::start_v(s).core.outputs == s.core.outputs,
        !s.core.started ==> more.len() == 1 && (more[0] matches HeardV::Event { kind, data } && kind
            == "response.created"@ && (data.get("response"@) matches Some(r) && r.get_text("id"@)
            == Some(s.core.response_id) && r.get_text("status"@) == Some("in_progress"@)
            && r.get_text("model"@) == Some(s.core.model))),
        s.core.started ==> more.len() == 0,
{
    words::events();
    words::responses();
    if s.core.started {
        nothing_follows(s, s, past);
        Seq::empty()
    } else {
        let b = StepV { core: CoreV { started: true, ..s.core }, ..s };
        let fields = model::holding_v(model::response_v(s.core, "in_progress"@, Seq::empty()));
        trace::told_nothing(s, b);
        let e = trace::told_one(s, b, Seq::empty(), "response.created"@, fields);
        let more = Seq::empty().push(e);
        quiet_follows(s, model::start_v(s), past, more);
        more
    }
}

/// A stream is closed with an event that holds the response, and nothing after it
/// but the mark of the end.
pub proof fn closes_are_told(s: StepV, kind: Seq<char>, response: JsonV, past: Seq<HeardV>) -> (more:
    Seq<HeardV>)
    requires
        trace::all_known_v(s.core, past),
        kind == "response.completed"@ || kind == "response.incomplete"@ || kind
            == "response.failed"@,
    ensures
        follows_v(s, model::close_v(s, kind, response), past, more),
        model::close_v(s, kind, response).core.outputs == s.core.outputs,
        more.len() == 2,
        more[0] matches HeardV::Event { kind: k, data } && k == kind && data.get("response"@)
            == Some(response),
        more[1] == HeardV::Done,
{
    words::events();
    words::responses();
    let b = StepV {
        core: CoreV { terminal: true, terminal_response: Some(response), ..s.core },
        ..s
    };
    trace::told_nothing(s, b);
    let e = trace::told_one(s, b, Seq::empty(), kind, model::holding_v(response));
    let c = model::emit_v(b, kind, model::holding_v(response));
    let first = Seq::empty().push(e);
    let more = first.push(HeardV::Done);
    assert(more.drop_last() =~= first);
    assert((s.out + trace::all_written_v(first)) + trace::written_v(HeardV::Done) =~= s.out + (
    trace::all_written_v(first) + trace::written_v(HeardV::Done)));
    quiet_follows(s, model::close_v(s, kind, response), past, more);
    more
}

/// The client hears of a failure, and of its error.
pub proof fn failures_are_told(s: StepV, error: JsonV, past: Seq<HeardV>) -> (more: Seq<HeardV>)
    requires
        trace::all_known_v(s.core, past),
    ensures
        follows_v(s, model::fail_v(s, error), past, more),
        model::fail_v(s, error).core.outputs == s.core.outputs,
        more.len() >= 2,
        more[more.len() - 2] matches HeardV::Event { kind, data } && kind == "response.failed"@ && (
        data.get("response"@) matches Some(r) && r.get("error"@) == Some(error) && r.get_text("id"@)
            == Some(s.core.response_id)),
        more.last() == HeardV::Done,
{
    words::responses();
    let begun = model::start_v(s);
    let first = starts_are_told(s, past);
    let response = json::empty_v().with("id"@, JsonV::Str(begun.core.response_id)).with(
        "object"@,
        JsonV::Str("response"@),
    ).with("status"@, JsonV::Str("failed"@)).with("model"@, JsonV::Str(begun.core.model)).with(
        "output"@,
        JsonV::Arr(Seq::empty()),
    ).with("error"@, error);
    let second = closes_are_told(begun, "response.failed"@, response, past + first);
    both_follow(s, begun, model::fail_v(s, error), past, first, second);
    first + second
}

/// A piece of a call is told: it belongs to the call of its number, or begins
/// one, with the name and the ID that it brings.
pub proof fn calls_are_told(s: StepV, tool: JsonV, past: Seq<HeardV>) -> (more: Seq<HeardV>)
    requires
        trace::all_known_v(s.core, past),
        model::tool_delta_v(s, tool).core.outputs.len() <= u64::MAX,
    ensures
        follows_v(s, model::tool_delta_v(s, tool), past, more),
{
    let slot = match tool.get_uint("index"@) {
        Some(n) => n,
        None => 0,
    };
    let delta = match model::function_text_v(tool, "arguments"@) {
        Some(a) => a,
        None => Seq::empty(),
    };
    if s.core.terminal {
        nothing_follows(s, s, past);
        Seq::empty()
    } else if model::slot_v(s.core.tools, slot) is Some {
        slots_are_calls(s.core, s.core.tools, slot);
        arguments_are_told(s, model::slot_v(s.core.tools, slot)->0, delta, past)
    } else if model::filled_v(tool.get_text("id"@)) is None {
        failures_are_told(
            s,
            model::error_v(
                "invalid_tool_call"@,
                "Kimi returned a function call without an id"@,
            ),
            past,
        )
    } else if model::filled_v(model::function_text_v(tool, "name"@)) is None {
        failures_are_told(
            s,
            model::error_v(
                "invalid_tool_call"@,
                "Kimi returned a function call without a name"@,
            ),
            past,
        )
    } else {
        let call_id = model::filled_v(tool.get_text("id"@))->0;
        let name = model::filled_v(model::function_text_v(tool, "name"@))->0;
        let index = s.core.outputs.len() as int;
        let new = OutputV::Tool {
            id: "fc_"@ + call_id,
            call_id,
            name,
            arguments: Seq::empty(),
            started: false,
        };
        let b = StepV {
            core: CoreV {
                outputs: s.core.outputs.push(new),
                tools: s.core.tools.push((slot, index)),
                ..s.core
            },
            ..s
        };
        assert(model::tool_delta_v(s, tool) == model::arguments_delta_v(b, index, delta));
        assert(model::core_ok(b.core)) by {
            assert forall|k: int| 0 <= k < b.core.tools.len() implies 0 <= (
            #[trigger] b.core.tools[k]).1 < b.core.outputs.len()
                && b.core.outputs[b.core.tools[k].1] is Tool by {
                if k < s.core.tools.len() {
                    assert(b.core.tools[k] == s.core.tools[k]);
                }
            }
        }
        assert(trace::unknown_v(past, index));
        assert(trace::all_known_v(b.core, past)) by {
            assert(trace::heard_v(past, trace::text_kind_v(), index) =~= Seq::<char>::empty());
            assert(trace::heard_v(past, trace::thought_kind_v(), index) =~= Seq::<char>::empty());
            assert(trace::heard_v(past, trace::arguments_kind_v(), index) =~= Seq::<char>::empty());
            assert forall|i: int| 0 <= i < b.core.outputs.len() implies trace::known_v(
                #[trigger] b.core.outputs[i],
                past,
                i,
            ) by {
                if i < index {
                    assert(trace::known_v(s.core.outputs[i], past, i));
                }
            }
        }
        let more = arguments_are_told(b, index, delta, past);
        assert(b.out == s.out);
        more
    }
}

pub proof fn a_call_stays_a_call(s: StepV, index: int, delta: Seq<char>)
    requires
        model::core_ok(s.core),
        0 <= index < s.core.outputs.len(),
        s.core.outputs[index] is Tool,
    ensures
        model::core_ok(model::arguments_delta_v(s, index, delta).core),
        model::arguments_delta_v(s, index, delta).core.outputs.len() == s.core.outputs.len(),
{
}

pub proof fn no_call_vanishes(s: StepV, tool: JsonV)
    requires
        model::core_ok(s.core),
    ensures
        model::core_ok(model::tool_delta_v(s, tool).core),
        s.core.outputs.len() <= model::tool_delta_v(s, tool).core.outputs.len(),
{
    let slot = match tool.get_uint("index"@) {
        Some(n) => n,
        None => 0,
    };
    let delta = match model::function_text_v(tool, "arguments"@) {
        Some(a) => a,
        None => Seq::empty(),
    };
    slots_are_calls(s.core, s.core.tools, slot);
    if let Some(i) = model::slot_v(s.core.tools, slot) {
        a_call_stays_a_call(s, i, delta);
    } else if model::filled_v(tool.get_text("id"@)) is Some && model::filled_v(
        model::function_text_v(tool, "name"@),
    ) is Some {
        let call_id = model::filled_v(tool.get_text("id"@))->0;
        let name = model::filled_v(model::function_text_v(tool, "name"@))->0;
        let index = s.core.outputs.len() as int;
        let new = OutputV::Tool {
            id: "fc_"@ + call_id,
            call_id,
            name,
            arguments: Seq::empty(),
            started: false,
        };
        let b = StepV {
            core: CoreV {
                outputs: s.core.outputs.push(new),
                tools: s.core.tools.push((slot, index)),
                ..s.core
            },
            ..s
        };
        assert forall|k: int| 0 <= k < b.core.tools.len() implies 0 <= (
        #[trigger] b.core.tools[k]).1 < b.core.outputs.len()
            && b.core.outputs[b.core.tools[k].1] is Tool by {
            if k < s.core.tools.len() {
                assert(b.core.tools[k] == s.core.tools[k]);
            }
        }
        a_call_stays_a_call(b, index, delta);
    }
}

pub proof fn calls_never_vanish(s: StepV, tools: Seq<JsonV>)
    requires
        model::core_ok(s.core),
    ensures
        model::core_ok(model::tool_deltas_v(s, tools).core),
        s.core.outputs.len() <= model::tool_deltas_v(s, tools).core.outputs.len(),
    decreases tools.len(),
{
    if tools.len() > 0 {
        calls_never_vanish(s, tools.drop_last());
        no_call_vanishes(model::tool_deltas_v(s, tools.drop_last()), tools.last());
    }
}

pub proof fn all_calls_are_told(s: StepV, tools: Seq<JsonV>, past: Seq<HeardV>) -> (more: Seq<
    HeardV,
>)
    requires
        trace::all_known_v(s.core, past),
        model::tool_deltas_v(s, tools).core.outputs.len() <= u64::MAX,
    ensures
        follows_v(s, model::tool_deltas_v(s, tools), past, more),
    decreases tools.len(),
{
    if tools.len() == 0 {
        nothing_follows(s, s, past);
        Seq::empty()
    } else {
        let b = model::tool_deltas_v(s, tools.drop_last());
        let t = model::tool_deltas_v(s, tools);
        calls_never_vanish(s, tools.drop_last());
        no_call_vanishes(b, tools.last());
        let first = all_calls_are_told(s, tools.drop_last(), past);
        let second = calls_are_told(b, tools.last(), past + first);
        both_follow(s, b, t, past, first, second);
        first + second
    }
}

/// The events with which an output ends: its whole text or arguments once more,
/// and its item.
pub proof fn output_ends_are_told(s: StepV, index: int, o: OutputV, status: Seq<char>) -> (more: Seq<
    HeardV,
>)
    requires
        0 <= index <= u64::MAX,
    ensures
        trace::told_v(s, model::output_done_v(s, index, o, status), more),
        trace::all_quiet_v(more),
        model::output_done_v(s, index, o, status).core == (CoreV {
            sequence: model::output_done_v(s, index, o, status).core.sequence,
            ..s.core
        }),
        more.len() >= 2,
        trace::about_v(more.last(), "response.output_item.done"@, index),
        trace::item_text_v(more.last(), "status"@) == Some(status),
        match o {
            OutputV::Message { id, text } => {
                &&& trace::about_v(more[0], "response.output_text.done"@, index)
                &&& trace::data_of_v(more[0]).get_text("text"@) == Some(text)
                &&& trace::data_of_v(more[0]).get_text("item_id"@) == Some(id)
                &&& trace::item_text_v(more.last(), "type"@) == Some("message"@)
                &&& trace::item_text_v(more.last(), "id"@) == Some(id)
            },
            OutputV::Reasoning { id, text } => {
                &&& trace::about_v(more[0], "response.reasoning_summary_text.done"@, index)
                &&& trace::data_of_v(more[0]).get_text("text"@) == Some(text)
                &&& trace::data_of_v(more[0]).get_text("item_id"@) == Some(id)
                &&& trace::item_text_v(more.last(), "type"@) == Some("reasoning"@)
                &&& trace::item_text_v(more.last(), "id"@) == Some(id)
            },
            OutputV::Tool { id, call_id, name, arguments, started } => {
                &&& trace::about_v(more[0], "response.function_call_arguments.done"@, index)
                &&& trace::data_of_v(more[0]).get_text("arguments"@) == Some(arguments)
                &&& trace::data_of_v(more[0]).get_text("item_id"@) == Some(id)
                &&& trace::item_text_v(more.last(), "type"@) == Some("function_call"@)
                &&& trace::item_text_v(more.last(), "id"@) == Some(id)
                &&& trace::item_text_v(more.last(), "call_id"@) == Some(call_id)
                &&& trace::item_text_v(more.last(), "name"@) == Some(name)
                &&& trace::item_text_v(more.last(), "arguments"@) == Some(arguments)
            },
        },
{
    words::events();
    words::responses();
    let none = Seq::<HeardV>::empty();
    trace::told_nothing(s, s);
    let (kind, fields) = match o {
        OutputV::Reasoning { id, text } => (
            "response.reasoning_summary_text.done"@,
            model::place_v(id, index, "summary_index"@).with("text"@, JsonV::Str(text)),
        ),
        OutputV::Message { id, text } => (
            "response.output_text.done"@,
            model::place_v(id, index, "content_index"@).with("text"@, JsonV::Str(text)),
        ),
        OutputV::Tool { id, call_id, name, arguments, started } => (
            "response.function_call_arguments.done"@,
            json::empty_v().with("item_id"@, JsonV::Str(id)).with(
                "output_index"@,
                json::uint_v(index as u64),
            ).with("arguments"@, JsonV::Str(arguments)),
        ),
    };
    let e0 = trace::told_one(s, s, none, kind, fields);
    let b = model::emit_v(s, kind, fields);
    let first = none.push(e0);
    let mut c = b;
    let mut mid = first;
    if !(o is Tool) {
        let (kind2, fields2) = match o {
            OutputV::Reasoning { id, text } => (
                "response.reasoning_summary_part.done"@,
                model::place_v(id, index, "summary_index"@).with(
                    "part"@,
                    model::summary_part_v(text),
                ),
            ),
            OutputV::Message { id, text } => (
                "response.content_part.done"@,
                model::place_v(id, index, "content_index"@).with("part"@, model::text_part_v(text)),
            ),
            _ => (kind, fields),
        };
        let e1 = trace::told_one(s, b, first, kind2, fields2);
        c = model::emit_v(b, kind2, fields2);
        mid = first.push(e1);
    }
    let item = model::added_v(index, model::item_v(o, status));
    let e2 = trace::told_one(s, c, mid, "response.output_item.done"@, item);
    let more = mid.push(e2);
    assert(model::output_done_v(s, index, o, status) == model::emit_v(
        c,
        "response.output_item.done"@,
        item,
    ));
    assert(more[0] == e0);
    more
}

proof fn ends_are_told(
    s: StepV,
    outputs: Seq<OutputV>,
    status: Seq<char>,
    whole: bool,
    n: int,
) -> (more: Seq<HeardV>)
    requires
        n <= outputs.len() <= u64::MAX,
    ensures
        trace::told_v(s, model::outputs_done_v(s, outputs, status, whole, n), more),
        trace::all_quiet_v(more),
        model::outputs_done_v(s, outputs, status, whole, n).core == (CoreV {
            sequence: model::outputs_done_v(s, outputs, status, whole, n).core.sequence,
            ..s.core
        }),
    decreases n,
{
    if n <= 0 {
        trace::told_nothing(s, s);
        Seq::empty()
    } else {
        let b = model::outputs_done_v(s, outputs, status, whole, n - 1);
        let first = ends_are_told(s, outputs, status, whole, n - 1);
        if model::kept_v(outputs[n - 1], whole) {
            let second = output_ends_are_told(b, n - 1, outputs[n - 1], status);
            let c = model::output_done_v(b, n - 1, outputs[n - 1], status);
            trace::told_both(s, b, c, first, second);
            let more = first + second;
            assert forall|i: int| 0 <= i < more.len() implies trace::quiet_v(#[trigger] more[i]) by {
                if i < first.len() {
                    assert(trace::quiet_v(first[i]));
                } else {
                    assert(trace::quiet_v(second[i - first.len()]));
                }
            }
            more
        } else {
            first
        }
    }
}

/// Whatever ends the stream, the client keeps all that it has heard.
pub proof fn terminals_are_told(s: StepV, past: Seq<HeardV>) -> (more: Seq<HeardV>)
    requires
        trace::all_known_v(s.core, past),
        s.core.outputs.len() <= u64::MAX,
    ensures
        follows_v(s, model::terminal_v(s), past, more),
        model::terminal_v(s).core.outputs == s.core.outputs,
{
    if s.core.terminal {
        nothing_follows(s, s, past);
        Seq::empty()
    } else if s.core.finish_reason is None {
        failures_are_told(
            s,
            model::upstream_error_v("Kimi stream ended without a finish reason"@),
            past,
        )
    } else if s.core.finish_reason == Some("length"@) || model::all_sound_v(s.core.outputs) {
        let cut = s.core.finish_reason == Some("length"@);
        let begun = model::start_v(s);
        let first = starts_are_told(s, past);
        let outputs = begun.core.outputs;
        let n = outputs.len() as int;
        let (status, kind) = if cut {
            ("incomplete"@, "response.incomplete"@)
        } else {
            ("completed"@, "response.completed"@)
        };
        let closed = model::outputs_done_v(begun, outputs, status, !cut, n);
        let second = ends_are_told(begun, outputs, status, !cut, n);
        quiet_follows(begun, closed, past + first, second);
        both_follow(s, begun, closed, past, first, second);
        let plain = model::response_v(
            closed.core,
            status,
            model::items_v(outputs, status, !cut, n),
        );
        let response = if cut {
            plain.with(
                "incomplete_details"@,
                json::empty_v().with("reason"@, JsonV::Str("max_output_tokens"@)),
            )
        } else {
            plain
        };
        let third = closes_are_told(closed, kind, response, past + (first + second));
        let t = model::close_v(closed, kind, response);
        assert(t == model::terminal_v(s));
        both_follow(s, closed, t, past, first + second, third);
        first + second + third
    } else {
        failures_are_told(
            s,
            model::error_v(
                "invalid_tool_call"@,
                "Kimi returned invalid function call arguments"@,
            ),
            past,
        )
    }
}

/// What a choice brings is told.
proof fn choices_are_told(s: StepV, choice: JsonV, past: Seq<HeardV>) -> (more: Seq<HeardV>)
    requires
        trace::all_known_v(s.core, past),
        model::choice_v(s, choice).core.outputs.len() <= u64::MAX,
    ensures
        follows_v(s, model::choice_v(s, choice), past, more),
{
    let ended = match choice.get_text("finish_reason"@) {
        Some(r) => StepV { core: CoreV { finish_reason: Some(r), ..s.core }, ..s },
        None => s,
    };
    let none = Seq::<HeardV>::empty();
    nothing_follows(s, ended, past);
    match choice.get("delta"@) {
        None => none,
        Some(delta) => {
            let thought = match model::filled_v(delta.get_text("reasoning_content"@)) {
                Some(t) => model::reasoning_delta_v(ended, t),
                None => ended,
            };
            let said = match model::filled_v(delta.get_text("content"@)) {
                Some(t) => model::text_delta_v(thought, t),
                None => thought,
            };
            pieces_never_vanish(ended, thought, said, delta);
            let last = model::choice_v(s, choice);
            if let Some(tools) = delta.get_list("tool_calls"@) {
                calls_never_vanish(said, tools);
            }
            let mut more = none;
            if let Some(t) = model::filled_v(delta.get_text("reasoning_content"@)) {
                let next = trace::thoughts_are_told(ended, t, past + more);
                both_follow(s, ended, thought, past, more, next);
                more = more + next;
            }
            if let Some(t) = model::filled_v(delta.get_text("content"@)) {
                let next = trace::answers_are_told(thought, t, past + more);
                both_follow(s, thought, said, past, more, next);
                more = more + next;
            }
            if let Some(tools) = delta.get_list("tool_calls"@) {
                let next = all_calls_are_told(said, tools, past + more);
                both_follow(s, said, last, past, more, next);
                more = more + next;
            }
            more
        },
    }
}

pub proof fn pieces_never_vanish(ended: StepV, thought: StepV, said: StepV, delta: JsonV)
    requires
        model::core_ok(ended.core),
        thought == (match model::filled_v(delta.get_text("reasoning_content"@)) {
            Some(t) => model::reasoning_delta_v(ended, t),
            None => ended,
        }),
        said == (match model::filled_v(delta.get_text("content"@)) {
            Some(t) => model::text_delta_v(thought, t),
            None => thought,
        }),
    ensures
        ended.core.outputs.len() <= thought.core.outputs.len() <= said.core.outputs.len(),
        model::core_ok(thought.core),
        model::core_ok(said.core),
{
}

/// What a frame brings is told.
proof fn chunks_are_told(s: StepV, chunk: JsonV, past: Seq<HeardV>) -> (more: Seq<HeardV>)
    requires
        trace::all_known_v(s.core, past),
        model::chunk_v(s, chunk).core.outputs.len() <= u64::MAX,
    ensures
        follows_v(s, model::chunk_v(s, chunk), past, more),
{
    if let Some(error) = chunk.get("error"@) {
        failures_are_told(s, error, past)
    } else {
        let begun = model::start_v(s);
        let first = starts_are_told(s, past);
        let counted = model::with_usage_v(begun, chunk);
        nothing_follows(begun, counted, past + first);
        let none = Seq::<HeardV>::empty();
        both_follow(s, begun, counted, past, first, none);
        let start = first + none;
        let choices = chunk.get_list("choices"@);
        if choices is Some && choices->0.len() > 0 {
            let second = choices_are_told(counted, choices->0[0], past + start);
            both_follow(s, counted, model::chunk_v(s, chunk), past, start, second);
            start + second
        } else {
            start
        }
    }
}

/// Whatever data comes, what it brings is told.
pub proof fn data_are_told(s: StepV, data: Seq<char>, past: Seq<HeardV>) -> (more: Seq<HeardV>)
    requires
        trace::all_known_v(s.core, past),
        model::consume_v(s, data).core.outputs.len() <= u64::MAX,
    ensures
        follows_v(s, model::consume_v(s, data), past, more),
{
    if s.core.terminal || data.len() == 0 {
        nothing_follows(s, s, past);
        Seq::empty()
    } else if data == "[DONE]"@ {
        outputs_stay_at_the_end(s);
        terminals_are_told(s, past)
    } else if json::parsed(data) is None {
        failures_are_told(
            s,
            model::upstream_error_v("Kimi returned malformed SSE JSON"@),
            past,
        )
    } else {
        chunks_are_told(s, json::parsed(data)->0, past)
    }
}

proof fn ends_keep_the_core(
    s: StepV,
    outputs: Seq<OutputV>,
    status: Seq<char>,
    whole: bool,
    n: int,
)
    ensures
        model::outputs_done_v(s, outputs, status, whole, n).core.outputs == s.core.outputs,
    decreases n,
{
    if n > 0 {
        ends_keep_the_core(s, outputs, status, whole, n - 1);
    }
}

pub proof fn outputs_stay_at_the_end(s: StepV)
    ensures
        model::terminal_v(s).core.outputs == s.core.outputs,
{
    let begun = model::start_v(s);
    let n = begun.core.outputs.len() as int;
    ends_keep_the_core(begun, begun.core.outputs, "completed"@, true, n);
    ends_keep_the_core(begun, begun.core.outputs, "incomplete"@, false, n);
}

} // verus!
