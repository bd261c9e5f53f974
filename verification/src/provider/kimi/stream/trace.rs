//! What a client hears of a translated stream: its events, one by one, and what
//! they add up to.

use vstd::prelude::*;

use crate::json;
use crate::json::JsonV;
use crate::provider::kimi::stream::model;
use crate::provider::kimi::stream::model::{CoreV, OutputV, StepV};
use crate::sse;
use crate::words;

verus! {

/// Something that a client is told: an event, or that there will be no more.
#[verifier::ext_equal]
pub enum HeardV {
    Event { kind: Seq<char>, data: JsonV },
    Done,
}

/// How it is written in the stream.
pub open spec fn written_v(e: HeardV) -> Seq<u8> {
    match e {
        HeardV::Event { kind, data } => sse::bytes_v(
            "event: "@ + kind + "\ndata: "@ + json::json_text(data) + "\n\n"@,
        ),
        HeardV::Done => sse::bytes_v("data: [DONE]\n\n"@),
    }
}

pub open spec fn all_written_v(s: Seq<HeardV>) -> Seq<u8>
    decreases s.len(),
{
    if s.len() == 0 {
        Seq::empty()
    } else {
        all_written_v(s.drop_last()) + written_v(s.last())
    }
}

/// What an event adds to the output with the number `i`, where it is of the
/// given kind.
pub open spec fn piece_v(e: HeardV, kind: Seq<char>, i: int) -> Seq<char> {
    match e {
        HeardV::Event { kind: k, data } => if k == kind && data.get_uint("output_index"@) == Some(
            i as u64,
        ) && data.get_text("delta"@) is Some {
            data.get_text("delta"@)->0
        } else {
            Seq::empty()
        },
        HeardV::Done => Seq::empty(),
    }
}

/// The pieces of an output in a row, as a client puts them together.
pub open spec fn heard_v(s: Seq<HeardV>, kind: Seq<char>, i: int) -> Seq<char>
    decreases s.len(),
{
    if s.len() == 0 {
        Seq::empty()
    } else {
        heard_v(s.drop_last(), kind, i) + piece_v(s.last(), kind, i)
    }
}

pub open spec fn text_kind_v() -> Seq<char> {
    "response.output_text.delta"@
}

pub open spec fn thought_kind_v() -> Seq<char> {
    "response.reasoning_summary_text.delta"@
}

pub open spec fn arguments_kind_v() -> Seq<char> {
    "response.function_call_arguments.delta"@
}

/// What a client has of an output is all there is of it.
pub open spec fn known_v(o: OutputV, s: Seq<HeardV>, i: int) -> bool {
    &&& heard_v(s, text_kind_v(), i) == match o {
        OutputV::Message { id, text } => text,
        _ => Seq::empty(),
    }
    &&& heard_v(s, thought_kind_v(), i) == match o {
        OutputV::Reasoning { id, text } => text,
        _ => Seq::empty(),
    }
    &&& heard_v(s, arguments_kind_v(), i) == match o {
        OutputV::Tool { id, call_id, name, arguments, started } => arguments,
        _ => Seq::empty(),
    }
}

/// Nothing has been told of an output with this number.
pub open spec fn unknown_v(s: Seq<HeardV>, i: int) -> bool {
    &&& heard_v(s, text_kind_v(), i).len() == 0
    &&& heard_v(s, thought_kind_v(), i).len() == 0
    &&& heard_v(s, arguments_kind_v(), i).len() == 0
}

/// A client that has heard `s` has all the outputs of the response, as far as
/// they have come, and no others.
pub open spec fn all_known_v(c: CoreV, s: Seq<HeardV>) -> bool {
    &&& model::core_ok(c)
    &&& forall|i: int| 0 <= i < c.outputs.len() ==> known_v(#[trigger] c.outputs[i], s, i)
    &&& forall|i: int| c.outputs.len() <= i <= u64::MAX ==> #[trigger] unknown_v(s, i)
}

/// An event that adds to no output.
pub open spec fn quiet_v(e: HeardV) -> bool {
    e matches HeardV::Event { kind, data } ==> kind != text_kind_v() && kind != thought_kind_v()
        && kind != arguments_kind_v()
}

pub open spec fn all_quiet_v(s: Seq<HeardV>) -> bool {
    forall|i: int| 0 <= i < s.len() ==> quiet_v(#[trigger] s[i])
}

proof fn heard_one(s: Seq<HeardV>, e: HeardV, kind: Seq<char>, i: int)
    ensures
        heard_v(s.push(e), kind, i) == heard_v(s, kind, i) + piece_v(e, kind, i),
        all_written_v(s.push(e)) == all_written_v(s) + written_v(e),
{
    assert(s.push(e).drop_last() =~= s);
}

proof fn quiet_adds_nothing(s: Seq<HeardV>, more: Seq<HeardV>, i: int)
    requires
        all_quiet_v(more),
    ensures
        heard_v(s + more, text_kind_v(), i) == heard_v(s, text_kind_v(), i),
        heard_v(s + more, thought_kind_v(), i) == heard_v(s, thought_kind_v(), i),
        heard_v(s + more, arguments_kind_v(), i) == heard_v(s, arguments_kind_v(), i),
    decreases more.len(),
{
    if more.len() == 0 {
        assert(s + more =~= s);
    } else {
        let d = more.drop_last();
        assert forall|k: int| 0 <= k < d.len() implies quiet_v(#[trigger] d[k]) by {
            assert(d[k] == more[k]);
        }
        quiet_adds_nothing(s, d, i);
        assert(s + more =~= (s + d).push(more.last()));
        assert(quiet_v(more[more.len() - 1]));
        heard_one(s + d, more.last(), text_kind_v(), i);
        heard_one(s + d, more.last(), thought_kind_v(), i);
        heard_one(s + d, more.last(), arguments_kind_v(), i);
    }
}

pub proof fn quiet_keeps_known(c: CoreV, s: Seq<HeardV>, more: Seq<HeardV>)
    requires
        all_known_v(c, s),
        all_quiet_v(more),
    ensures
        all_known_v(c, s + more),
{
    assert forall|i: int| 0 <= i < c.outputs.len() implies known_v(
        #[trigger] c.outputs[i],
        s + more,
        i,
    ) by {
        quiet_adds_nothing(s, more, i);
    }
    assert forall|i: int| c.outputs.len() <= i <= u64::MAX implies #[trigger] unknown_v(
        s + more,
        i,
    ) by {
        quiet_adds_nothing(s, more, i);
        assert(unknown_v(s, i));
    }
}

/// `more` is what was put out between the two steps.
pub open spec fn told_v(before: StepV, after: StepV, more: Seq<HeardV>) -> bool {
    after.out == before.out + all_written_v(more)
}

pub proof fn told_nothing(s: StepV, t: StepV)
    requires
        t.out == s.out,
    ensures
        told_v(s, t, Seq::empty()),
{
    assert(s.out + all_written_v(Seq::empty()) =~= s.out);
}

pub proof fn written_adds(a: Seq<HeardV>, b: Seq<HeardV>)
    ensures
        all_written_v(a + b) == all_written_v(a) + all_written_v(b),
    decreases b.len(),
{
    if b.len() == 0 {
        assert(a + b =~= a);
        assert(all_written_v(a) + all_written_v(b) =~= all_written_v(a));
    } else {
        written_adds(a, b.drop_last());
        assert((a + b).drop_last() =~= a + b.drop_last());
        assert((all_written_v(a) + all_written_v(b.drop_last())) + written_v(b.last())
            =~= all_written_v(a) + (all_written_v(b.drop_last()) + written_v(b.last())));
    }
}

/// Each event that is put out has its type, the number that is next and the ID
/// of the response, beside what it carries.
pub proof fn events_are_whole(s: StepV, kind: Seq<char>, fields: JsonV) -> (e: HeardV)
    requires
        fields.is_obj(),
    ensures
        told_v(s, model::emit_v(s, kind, fields), seq![e]),
        e matches HeardV::Event { kind: k, data } && k == kind && data.get_text("type"@) == Some(
            kind,
        ) && data.get_uint("sequence_number"@) == Some(s.core.sequence) && data.get_text(
            "response_id"@,
        ) == Some(s.core.response_id) && forall|k: Seq<char>|
            k != "type"@ && k != "sequence_number"@ && k != "response_id"@ ==> (#[trigger] data.get(
                k,
            )) == fields.get(k),
        model::emit_v(s, kind, fields).core == (CoreV {
            sequence: s.core.sequence.wrapping_add(1),
            ..s.core
        }),
{
    words::responses();
    let data = fields.with("type"@, JsonV::Str(kind)).with(
        "sequence_number"@,
        json::uint_v(s.core.sequence),
    ).with("response_id"@, JsonV::Str(s.core.response_id));
    let e = HeardV::Event { kind, data };
    let none = Seq::<HeardV>::empty();
    assert(seq![e] =~= none.push(e));
    heard_one(none, e, kind, 0);
    assert(all_written_v(none) + written_v(e) =~= written_v(e));
    e
}

/// Continues a trace by one event.
pub proof fn told_one(a: StepV, b: StepV, more: Seq<HeardV>, kind: Seq<char>, fields: JsonV) -> (
    e: HeardV)
    requires
        fields.is_obj(),
        told_v(a, b, more),
    ensures
        told_v(a, model::emit_v(b, kind, fields), more.push(e)),
        e matches HeardV::Event { kind: k, data } && k == kind && data.get_text("type"@) == Some(
            kind,
        ) && data.get_uint("sequence_number"@) == Some(b.core.sequence) && data.get_text(
            "response_id"@,
        ) == Some(b.core.response_id) && forall|k: Seq<char>|
            k != "type"@ && k != "sequence_number"@ && k != "response_id"@ ==> (#[trigger] data.get(
                k,
            )) == fields.get(k),
{
    let e = events_are_whole(b, kind, fields);
    written_adds(more, seq![e]);
    assert(more + seq![e] =~= more.push(e));
    assert((a.out + all_written_v(more)) + all_written_v(seq![e]) =~= a.out + (all_written_v(more)
        + all_written_v(seq![e])));
    e
}

pub proof fn told_both(a: StepV, b: StepV, c: StepV, first: Seq<HeardV>, second: Seq<HeardV>)
    requires
        told_v(a, b, first),
        told_v(b, c, second),
    ensures
        told_v(a, c, first + second),
{
    written_adds(first, second);
    assert((a.out + all_written_v(first)) + all_written_v(second) =~= a.out + (all_written_v(first)
        + all_written_v(second)));
}

/// An event about an output, with its place.
pub open spec fn about_v(e: HeardV, kind: Seq<char>, i: int) -> bool {
    e matches HeardV::Event { kind: k, data } && k == kind && data.get_text("type"@) == Some(kind)
        && data.get_uint("output_index"@) == Some(i as u64)
}

pub open spec fn data_of_v(e: HeardV) -> JsonV {
    e->Event_data
}

/// A member of the item that an event carries.
pub open spec fn item_text_v(e: HeardV, k: Seq<char>) -> Option<Seq<char>> {
    match data_of_v(e).get("item"@) {
        Some(item) => item.get_text(k),
        None => None,
    }
}

/// The deltas of one kind for one output: exactly one piece more.
proof fn one_piece_more(s: Seq<HeardV>, quiet: Seq<HeardV>, e: HeardV, kind: Seq<char>, at: int, i: int)
    requires
        all_quiet_v(quiet),
        about_v(e, kind, at),
        kind == text_kind_v() || kind == thought_kind_v() || kind == arguments_kind_v(),
        data_of_v(e).get_text("delta"@) is Some,
        0 <= at <= u64::MAX,
        0 <= i <= u64::MAX,
    ensures
        ({
            let t = s + quiet.push(e);
            let d = data_of_v(e).get_text("delta"@)->0;
            &&& heard_v(t, text_kind_v(), i) == if i == at && kind == text_kind_v() {
                heard_v(s, text_kind_v(), i) + d
            } else {
                heard_v(s, text_kind_v(), i)
            }
            &&& heard_v(t, thought_kind_v(), i) == if i == at && kind == thought_kind_v() {
                heard_v(s, thought_kind_v(), i) + d
            } else {
                heard_v(s, thought_kind_v(), i)
            }
            &&& heard_v(t, arguments_kind_v(), i) == if i == at && kind == arguments_kind_v() {
                heard_v(s, arguments_kind_v(), i) + d
            } else {
                heard_v(s, arguments_kind_v(), i)
            }
        }),
{
    words::events();
    quiet_adds_nothing(s, quiet, i);
    assert(s + quiet.push(e) =~= (s + quiet).push(e));
    heard_one(s + quiet, e, text_kind_v(), i);
    heard_one(s + quiet, e, thought_kind_v(), i);
    heard_one(s + quiet, e, arguments_kind_v(), i);
    assert(heard_v(s, text_kind_v(), i) + Seq::<char>::empty() =~= heard_v(s, text_kind_v(), i));
    assert(heard_v(s, thought_kind_v(), i) + Seq::<char>::empty() =~= heard_v(
        s,
        thought_kind_v(),
        i,
    ));
    assert(heard_v(s, arguments_kind_v(), i) + Seq::<char>::empty() =~= heard_v(
        s,
        arguments_kind_v(),
        i,
    ));
}

/// A piece of the answer is told as it came: the last event is a delta with this
/// piece and no more, for the message. Before the first piece the message and
/// its part are announced. What was told of other outputs stays.
pub proof fn answers_are_told(s: StepV, delta: Seq<char>, past: Seq<HeardV>) -> (more: Seq<HeardV>)
    requires
        all_known_v(s.core, past),
        model::text_delta_v(s, delta).core.outputs.len() <= u64::MAX,
    ensures
        ({
            let t = model::text_delta_v(s, delta);
            let i = t.core.message_index->0;
            &&& told_v(s, t, more)
            &&& all_known_v(t.core, past + more)
            &&& more.len() > 0
            &&& about_v(more.last(), "response.output_text.delta"@, i)
            &&& data_of_v(more.last()).get_text("delta"@) == Some(delta)
            &&& data_of_v(more.last()).get_text("item_id"@) == Some(t.core.outputs[i]->Message_id)
            &&& data_of_v(more.last()).get_uint("content_index"@) == Some(0u64)
            &&& s.core.message_index is None ==> {
                &&& more.len() == 3
                &&& about_v(more[0], "response.output_item.added"@, i)
                &&& item_text_v(more[0], "type"@) == Some("message"@)
                &&& item_text_v(more[0], "role"@) == Some("assistant"@)
                &&& item_text_v(more[0], "id"@) == Some(t.core.outputs[i]->Message_id)
                &&& about_v(more[1], "response.content_part.added"@, i)
            }
        }),
{
    words::events();
    words::responses();
    let (core, index) = model::message_slot_v(s.core);
    let placed = StepV { core, ..s };
    let id = core.outputs[index]->Message_id;
    let text = core.outputs[index]->Message_text;
    let none = Seq::<HeardV>::empty();
    told_nothing(s, placed);
    let mut quiet = none;
    let mut begun = placed;
    if text.len() == 0 {
        let item = json::empty_v().with("id"@, JsonV::Str(id)).with(
            "type"@,
            JsonV::Str("message"@),
        ).with("status"@, JsonV::Str("in_progress"@)).with("role"@, JsonV::Str("assistant"@)).with(
            "content"@,
            JsonV::Arr(Seq::empty()),
        );
        let e0 = told_one(
            s,
            placed,
            none,
            "response.output_item.added"@,
            model::added_v(index, item),
        );
        let mid = model::emit_v(
            placed,
            "response.output_item.added"@,
            model::added_v(index, item),
        );
        let part = model::place_v(id, index, "content_index"@).with(
            "part"@,
            model::text_part_v(Seq::empty()),
        );
        let e1 = told_one(s, mid, none.push(e0), "response.content_part.added"@, part);
        begun = model::emit_v(mid, "response.content_part.added"@, part);
        assert(begun == model::message_begun_v(placed, index, id));
        quiet = none.push(e0).push(e1);
    }
    assert(all_quiet_v(quiet));
    let grown = StepV {
        core: CoreV {
            outputs: begun.core.outputs.update(index, OutputV::Message { id, text: text + delta }),
            ..begun.core
        },
        ..begun
    };
    assert(told_v(s, grown, quiet));
    let fields = model::place_v(id, index, "content_index"@).with("delta"@, JsonV::Str(delta));
    let e = told_one(s, grown, quiet, "response.output_text.delta"@, fields);
    let t = model::text_delta_v(s, delta);
    assert(t == model::emit_v(grown, "response.output_text.delta"@, fields));
    let more = quiet.push(e);
    grown_is_known(s.core, core, t.core, past, quiet, e, text_kind_v(), index);
    more
}

/// One more piece of an output leaves all outputs known.
pub proof fn grown_is_known(
    before: CoreV,
    placed: CoreV,
    after: CoreV,
    past: Seq<HeardV>,
    quiet: Seq<HeardV>,
    e: HeardV,
    kind: Seq<char>,
    at: int,
)
    requires
        all_known_v(before, past),
        all_quiet_v(quiet),
        kind == text_kind_v() || kind == thought_kind_v() || kind == arguments_kind_v(),
        about_v(e, kind, at),
        data_of_v(e).get_text("delta"@) is Some,
        0 <= at < placed.outputs.len() <= u64::MAX,
        before.outputs.is_prefix_of(placed.outputs),
        placed.outputs.len() <= before.outputs.len() + 1,
        placed.outputs.len() > before.outputs.len() ==> (match placed.outputs.last() {
            OutputV::Message { id, text } => text.len() == 0,
            OutputV::Reasoning { id, text } => text.len() == 0,
            OutputV::Tool { id, call_id, name, arguments, started } => arguments.len() == 0,
        }),
        after.outputs == placed.outputs.update(at, after.outputs[at]),
        model::core_ok(after),
        ({
            let d = data_of_v(e).get_text("delta"@)->0;
            match (placed.outputs[at], after.outputs[at]) {
                (OutputV::Message { id, text }, OutputV::Message { id: j, text: new }) => kind
                    == text_kind_v() && new == text + d,
                (OutputV::Reasoning { id, text }, OutputV::Reasoning { id: j, text: new }) => kind
                    == thought_kind_v() && new == text + d,
                (
                    OutputV::Tool { id, call_id, name, arguments, started },
                    OutputV::Tool { id: j, call_id: c, name: n, arguments: new, started: b },
                ) => kind == arguments_kind_v() && new == arguments + d,
                _ => false,
            }
        }),
    ensures
        all_known_v(after, past + quiet.push(e)),
{
    words::events();
    let t = past + quiet.push(e);
    assert forall|i: int| 0 <= i < after.outputs.len() implies known_v(
        #[trigger] after.outputs[i],
        t,
        i,
    ) by {
        one_piece_more(past, quiet, e, kind, at, i);
        if i < before.outputs.len() {
            assert(before.outputs[i] == placed.outputs[i]);
            assert(known_v(before.outputs[i], past, i));
        } else {
            assert(unknown_v(past, i));
            assert(heard_v(past, text_kind_v(), i) =~= Seq::<char>::empty());
            assert(heard_v(past, thought_kind_v(), i) =~= Seq::<char>::empty());
            assert(heard_v(past, arguments_kind_v(), i) =~= Seq::<char>::empty());
            match placed.outputs[i] {
                OutputV::Message { id, text } => {
                    assert(text =~= Seq::<char>::empty());
                },
                OutputV::Reasoning { id, text } => {
                    assert(text =~= Seq::<char>::empty());
                },
                OutputV::Tool { id, call_id, name, arguments, started } => {
                    assert(arguments =~= Seq::<char>::empty());
                },
            }
        }
        if i != at {
            assert(after.outputs[i] == placed.outputs[i]);
        }
    }
    assert forall|i: int| after.outputs.len() <= i <= u64::MAX implies #[trigger] unknown_v(
        t,
        i,
    ) by {
        one_piece_more(past, quiet, e, kind, at, i);
        assert(unknown_v(past, i));
    }
}

/// A piece of reasoning is told as it came.
pub proof fn thoughts_are_told(s: StepV, delta: Seq<char>, past: Seq<HeardV>) -> (more: Seq<HeardV>)
    requires
        all_known_v(s.core, past),
        model::reasoning_delta_v(s, delta).core.outputs.len() <= u64::MAX,
    ensures
        ({
            let t = model::reasoning_delta_v(s, delta);
            let i = t.core.reasoning_index->0;
            &&& told_v(s, t, more)
            &&& all_known_v(t.core, past + more)
            &&& more.len() > 0
            &&& about_v(more.last(), "response.reasoning_summary_text.delta"@, i)
            &&& data_of_v(more.last()).get_text("delta"@) == Some(delta)
            &&& data_of_v(more.last()).get_text("item_id"@) == Some(t.core.outputs[i]->Reasoning_id)
            &&& data_of_v(more.last()).get_uint("summary_index"@) == Some(0u64)
            &&& s.core.reasoning_index is None ==> {
                &&& more.len() == 3
                &&& about_v(more[0], "response.output_item.added"@, i)
                &&& item_text_v(more[0], "type"@) == Some("reasoning"@)
                &&& item_text_v(more[0], "id"@) == Some(t.core.outputs[i]->Reasoning_id)
                &&& about_v(more[1], "response.reasoning_summary_part.added"@, i)
            }
        }),
{
    words::events();
    words::responses();
    let (core, index) = model::reasoning_slot_v(s.core);
    let placed = StepV { core, ..s };
    let id = core.outputs[index]->Reasoning_id;
    let text = core.outputs[index]->Reasoning_text;
    let none = Seq::<HeardV>::empty();
    told_nothing(s, placed);
    let mut quiet = none;
    let mut begun = placed;
    if text.len() == 0 {
        let item = json::empty_v().with("id"@, JsonV::Str(id)).with(
            "type"@,
            JsonV::Str("reasoning"@),
        ).with("status"@, JsonV::Str("in_progress"@)).with("summary"@, JsonV::Arr(Seq::empty()));
        let e0 = told_one(
            s,
            placed,
            none,
            "response.output_item.added"@,
            model::added_v(index, item),
        );
        let mid = model::emit_v(
            placed,
            "response.output_item.added"@,
            model::added_v(index, item),
        );
        let part = model::place_v(id, index, "summary_index"@).with(
            "part"@,
            model::summary_part_v(Seq::empty()),
        );
        let e1 = told_one(s, mid, none.push(e0), "response.reasoning_summary_part.added"@, part);
        begun = model::emit_v(mid, "response.reasoning_summary_part.added"@, part);
        assert(begun == model::reasoning_begun_v(placed, index, id));
        quiet = none.push(e0).push(e1);
    }
    assert(all_quiet_v(quiet));
    let grown = StepV {
        core: CoreV {
            outputs: begun.core.outputs.update(
                index,
                OutputV::Reasoning { id, text: text + delta },
            ),
            ..begun.core
        },
        ..begun
    };
    let fields = model::place_v(id, index, "summary_index"@).with("delta"@, JsonV::Str(delta));
    let e = told_one(s, grown, quiet, "response.reasoning_summary_text.delta"@, fields);
    let t = model::reasoning_delta_v(s, delta);
    assert(t == model::emit_v(grown, "response.reasoning_summary_text.delta"@, fields));
    let more = quiet.push(e);
    grown_is_known(s.core, core, t.core, past, quiet, e, thought_kind_v(), index);
    more
}

} // verus!
