//! What a Chat Completions request keeps of the Responses request.

use vstd::prelude::*;

use crate::json;
use crate::json::JsonV;
use crate::provider::kimi::request;
use crate::provider::kimi::request::history;
use crate::provider::kimi::request::history::HistoryV;
use crate::text;
use crate::words;

verus! {

/// `t` offers to Kimi the function that `tool` offers to Codex: the same name,
/// description and parameters.
pub open spec fn same_tool_v(tool: JsonV, t: JsonV) -> bool {
    &&& t.get_text("type"@) == Some("function"@)
    &&& t.get("function"@) matches Some(f)
    &&& f.get("name"@) == tool.get("name"@)
    &&& match tool.get_text("description"@) {
        Some(s) => f.get_text("description"@) == Some(s),
        None => f.get_text("description"@) == Some(Seq::<char>::empty()),
    }
    &&& match tool.get("parameters"@) {
        Some(p) => f.get("parameters"@) == Some(p),
        None => f.get("parameters"@) == Some(json::empty_v().with("type"@, JsonV::Str("object"@))),
    }
}

/// A tool that can be offered: a function with a name.
pub open spec fn offered_v(tool: JsonV) -> bool {
    tool.get_text("type"@) == Some("function"@) && (tool.get_text("name"@) matches Some(n)
        && n.len() > 0)
}

/// A function tool with a name is translated, and no other; what it says of
/// itself is kept.
pub proof fn tools_are_kept(tool: JsonV)
    ensures
        request::tool_v(tool) is Ok <==> offered_v(tool),
        request::tool_v(tool) matches Ok(t) ==> same_tool_v(tool, t),
{
    words::chat();
}

proof fn tool_lists(tools: Seq<JsonV>)
    ensures
        request::tools_v(tools) is Ok <==> forall|i: int|
            0 <= i < tools.len() ==> offered_v(#[trigger] tools[i]),
        request::tools_v(tools) matches Ok(ts) ==> ts.len() == tools.len() && forall|i: int|
            0 <= i < tools.len() ==> same_tool_v(#[trigger] tools[i], ts[i]),
    decreases tools.len(),
{
    if tools.len() > 0 {
        let d = tools.drop_last();
        tool_lists(d);
        tools_are_kept(tools.last());
        if request::tools_v(d) is Ok {
            assert forall|i: int| 0 <= i < d.len() implies offered_v(#[trigger] tools[i]) by {
                assert(d[i] == tools[i]);
            }
            if let Ok(ts) = request::tools_v(tools) {
                let before = request::tools_v(d)->Ok_0;
                assert forall|i: int| 0 <= i < tools.len() implies same_tool_v(
                    #[trigger] tools[i],
                    ts[i],
                ) by {
                    if i < d.len() {
                        assert(same_tool_v(d[i], before[i]));
                    }
                }
            }
        } else {
            let i = choose|i: int| 0 <= i < d.len() && !offered_v(#[trigger] d[i]);
            assert(!offered_v(tools[i]));
        }
    }
}

/// Every tool of a request is offered to Kimi, in its place, and a request with
/// one that cannot be offered is refused.
pub proof fn all_tools_are_kept(request: JsonV, key: Option<Seq<char>>, tools: Seq<JsonV>)
    requires
        request.get("tools"@) == Some(JsonV::Arr(tools)),
    ensures
        (exists|i: int| 0 <= i < tools.len() && !offered_v(#[trigger] tools[i]))
            ==> request::request_v(request, key) is Err,
        request::request_v(request, key) matches Ok(out) ==> if tools.len() == 0 {
            out.get("tools"@) is None
        } else {
            &&& out.get_list("tools"@) matches Some(ts)
            &&& ts.len() == tools.len()
            &&& forall|i: int| 0 <= i < tools.len() ==> same_tool_v(#[trigger] tools[i], ts[i])
        },
{
    words::chat();
    tool_lists(tools);
}

/// A request without tools gets none, and one whose tools are no list is refused.
pub proof fn no_tools_are_made_up(request: JsonV, key: Option<Seq<char>>)
    requires
        request.get_list("tools"@) is None,
    ensures
        request.get("tools"@) is Some ==> request::request_v(request, key) is Err,
        request::request_v(request, key) matches Ok(out) ==> out.get("tools"@) is None,
{
    words::chat();
}

/// The choice of a tool is kept: a word other than `auto`, which is left out, or
/// the name of a function. Whatever else it may be is refused.
pub proof fn tool_choices_are_kept(request: JsonV, key: Option<Seq<char>>)
    ensures
        request::request_v(request, key) matches Ok(out) ==> match request.get("tool_choice"@) {
            None => out.get("tool_choice"@) is None,
            Some(JsonV::Null) => out.get("tool_choice"@) is None,
            Some(JsonV::Str(s)) => {
                ||| s == "auto"@ && out.get("tool_choice"@) is None
                ||| (s == "none"@ || s == "required"@) && out.get_text("tool_choice"@) == Some(s)
            },
            Some(choice) => {
                &&& choice.get_text("type"@) == Some("function"@)
                &&& choice.get_text("name"@) matches Some(name) && name.len() > 0
                &&& out.get("tool_choice"@) matches Some(c)
                &&& c.get_text("type"@) == Some("function"@)
                &&& c.get("function"@) matches Some(f)
                &&& f.get("name"@) == choice.get("name"@)
            },
        },
{
    words::chat();
}

/// A request goes to the model that it names, is answered as a stream that ends
/// with its usage, and asks for thinking.
pub proof fn requests_are_addressed(request: JsonV, key: Option<Seq<char>>)
    ensures
        request::request_v(request, key) matches Ok(out) ==> {
            &&& request.get_text("model"@) matches Some(id)
            &&& {
                ||| (id == "k3"@ || id == "kimi-k3"@) && out.get_text("model"@) == Some("k3"@)
                ||| (id == "k2.6"@ || id == "kimi-k2.6"@ || id == "kimi-for-coding"@)
                    && out.get_text("model"@) == Some("kimi-for-coding"@)
            }
            &&& out.get("stream"@) == Some(JsonV::Bool(true))
            &&& out.get("stream_options"@) matches Some(o) && o.get("include_usage"@) == Some(
                JsonV::Bool(true),
            )
            &&& out.get("thinking"@) matches Some(t) && t.get_text("type"@) == Some("enabled"@)
        },
{
    words::chat();
}

/// A client that asks for fewer tokens than the most there may be gets what it
/// asked for, any other the most there may be.
pub proof fn token_limits_are_kept(request: JsonV, key: Option<Seq<char>>)
    ensures
        request::request_v(request, key) matches Ok(out) ==> {
            &&& out.get_uint("max_tokens"@) matches Some(n)
            &&& 0 < n <= 32_000
            &&& match request.get_uint("max_output_tokens"@) {
                Some(wanted) => 0 < wanted <= 32_000 ==> n == wanted,
                None => n == 32_000,
            }
            &&& request.get_uint("max_output_tokens"@) matches Some(wanted) ==> (wanted > 32_000
                || wanted == 0) ==> n == 32_000
        },
{
    words::chat();
}

/// The key of the prompt cache is the one that is given, and none where none is.
pub proof fn cache_keys_are_kept(request: JsonV, key: Option<Seq<char>>)
    ensures
        request::request_v(request, key) matches Ok(out) ==> match key {
            Some(k) => if k.len() > 0 {
                out.get_text("prompt_cache_key"@) == Some(k)
            } else {
                out.get("prompt_cache_key"@) is None
            },
            None => out.get("prompt_cache_key"@) is None,
        },
{
    words::chat();
}

/// How hard a model thinks by the word that it is asked with: three steps, for
/// either model.
pub open spec fn step_v(effort: Seq<char>) -> Option<int> {
    if effort == "low"@ {
        Some(0)
    } else if effort == "medium"@ {
        Some(1)
    } else if effort == "high"@ {
        Some(2)
    } else if effort == "max"@ {
        Some(3)
    } else {
        None
    }
}

/// Who asks for little effort gets little, and who asks for high effort gets it.
/// K3 knows no medium effort: it then thinks hard, and without a wish harder.
pub proof fn efforts_are_kept(request: JsonV, key: Option<Seq<char>>)
    ensures
        request::request_v(request, key) matches Ok(out) ==> {
            let wanted = match request.get("reasoning"@) {
                Some(r) => r.get_text("effort"@),
                None => None,
            };
            let got = out.get_text("reasoning_effort"@);
            let k3 = out.get_text("model"@) == Some("k3"@);
            &&& got matches Some(g) && step_v(g) is Some
            &&& wanted == Some("low"@) ==> got == Some("low"@)
            &&& wanted == Some("high"@) ==> got == Some("high"@)
            &&& wanted == Some("medium"@) ==> got == Some(
                if k3 {
                    "high"@
                } else {
                    "medium"@
                },
            )
            &&& wanted == Some("max"@) || wanted == Some("xhigh"@) ==> got == Some(
                if k3 {
                    "max"@
                } else {
                    "high"@
                },
            )
            &&& wanted is None ==> got == Some(
                if k3 {
                    "max"@
                } else {
                    "medium"@
                },
            )
        },
{
    words::chat();
    reveal_strlit("low");
    reveal_strlit("medium");
    reveal_strlit("high");
    reveal_strlit("max");
    reveal_strlit("xhigh");
    reveal_strlit("ultra");
    reveal_strlit("minimum");
    reveal_strlit("light");
    reveal_strlit("k3");
    reveal_strlit("kimi-for-coding");
    assert("low"@.len() == 3 && "low"@[0] == 'l');
    assert("max"@.len() == 3 && "max"@[0] == 'm');
    assert("medium"@.len() == 6 && "high"@.len() == 4);
    assert("xhigh"@.len() == 5 && "xhigh"@[0] == 'x' && "ultra"@.len() == 5 && "ultra"@[0] == 'u');
    assert("light"@.len() == 5 && "light"@[0] == 'l' && "minimum"@.len() == 7);
    assert("k3"@.len() == 2 && "kimi-for-coding"@.len() == 15);
}

/// The messages of a request, where it is translated.
pub open spec fn messages_of_v(request: JsonV, key: Option<Seq<char>>) -> Option<Seq<JsonV>> {
    match request::request_v(request, key) {
        Ok(out) => out.get_list("messages"@),
        Err(_) => None,
    }
}

proof fn messages_are_sent(request: JsonV, key: Option<Seq<char>>)
    ensures
        request::request_v(request, key) is Ok ==> (request::messages_v(request) matches Ok(m)
            && messages_of_v(request, key) == Some(m)),
        messages_of_v(request, key) is Some <==> request::request_v(request, key) is Ok,
{
    words::chat();
}

/// A message with a text.
pub open spec fn says_v(message: JsonV, role: Seq<char>, s: Seq<char>) -> bool {
    message.get_text("role"@) == Some(role) && message.get_text("content"@) == Some(s)
}

/// Instructions are the first message, in the role of the system, and a text as
/// input is a message of the user after them.
pub proof fn conversations_begin(request: JsonV, key: Option<Seq<char>>)
    ensures
        messages_of_v(request, key) matches Some(m) ==> {
            let led = request.get_text("instructions"@) is Some && text::trim_v(
                request.get_text("instructions"@)->0,
            ).len() > 0;
            &&& led ==> m.len() > 0 && says_v(
                m[0],
                "system"@,
                request.get_text("instructions"@)->0,
            )
            &&& request.get("input"@) is None ==> m.len() == if led {
                1int
            } else {
                0
            }
            &&& request.get_text("input"@) matches Some(s) ==> m.len() == (if led {
                2int
            } else {
                1
            }) && says_v(m.last(), "user"@, s)
        },
{
    words::chat();
    messages_are_sent(request, key);
    if let Ok(m) = request::messages_v(request) {
        if let Some(JsonV::Arr(items)) = request.get("input"@) {
            let head = request::head_v(request);
            heads_stay(items, head);
            assert(head.len() > 0 ==> head[0] == m[0]);
        }
    }
}

/// What was said before stays where it is.
proof fn heads_stay(items: Seq<JsonV>, head: Seq<JsonV>)
    ensures
        history::history_v(items, head) matches Ok(h) ==> head.is_prefix_of(h.messages)
            && head.is_prefix_of(history::flush_v(h).messages),
    decreases items.len(),
{
    if items.len() > 0 {
        heads_stay(items.drop_last(), head);
        if let Ok(h) = history::history_v(items.drop_last(), head) {
            let f = history::flush_v(h);
            if let Ok(g) = history::history_v(items, head) {
                assert(head.is_prefix_of(g.messages)) by {
                    assert forall|i: int| 0 <= i < head.len() implies head[i] == g.messages[i] by {
                        assert(head[i] == h.messages[i]);
                        assert(head[i] == f.messages[i]);
                    }
                }
                let last = history::flush_v(g).messages;
                assert forall|i: int| 0 <= i < head.len() implies head[i] == last[i] by {
                    assert(head[i] == g.messages[i]);
                }
            }
        }
    }
}

/// The request with one more item at the end of its input.
pub open spec fn longer_v(request: JsonV, items: Seq<JsonV>, item: JsonV) -> JsonV {
    request.with("input"@, JsonV::Arr(items.push(item)))
}

proof fn longer_histories(request: JsonV, items: Seq<JsonV>, item: JsonV, key: Option<Seq<char>>)
    requires
        request.get("input"@) == Some(JsonV::Arr(items)),
    ensures
        ({
            let head = request::head_v(request);
            let before = history::history_v(items, head);
            let after = match before {
                Ok(h) => history::step_v(h, item),
                Err(e) => Err(e),
            };
            &&& messages_of_v(request, key) matches Some(m) ==> before is Ok && m
                == history::flush_v(before->Ok_0).messages
            &&& messages_of_v(longer_v(request, items, item), key) matches Some(m)
                ==> after is Ok && m == history::flush_v(after->Ok_0).messages
        }),
{
    words::chat();
    let longer = longer_v(request, items, item);
    messages_are_sent(request, key);
    messages_are_sent(longer, key);
    assert(items.push(item).drop_last() =~= items);
    assert(longer.get("instructions"@) == request.get("instructions"@));
    assert(request::head_v(longer) == request::head_v(request));
    assert(longer.get("input"@) == Some(JsonV::Arr(items.push(item))));
}

/// The type of an item of the input; without one it is a message.
pub open spec fn kind_v(item: JsonV) -> Seq<char> {
    match item.get_text("type"@) {
        Some(s) => s,
        None => "message"@,
    }
}

/// `p` is a part of a message as Kimi takes it: the same text, or the same image.
pub open spec fn same_part_v(part: JsonV, p: JsonV) -> bool {
    let kind = part.get_text("type"@);
    ||| {
        &&& kind == Some("input_text"@) || kind == Some("output_text"@) || kind == Some("text"@)
        &&& p.get_text("type"@) == Some("text"@)
        &&& p.get_text("text"@) == match part.get_text("text"@) {
            Some(s) => Some(s),
            None => Some(Seq::<char>::empty()),
        }
    }
    ||| {
        &&& kind == Some("input_image"@)
        &&& p.get_text("type"@) == Some("image_url"@)
        &&& p.get("image_url"@) matches Some(at)
        &&& at.get_text("url"@) matches Some(url)
        &&& url.len() > 0
        &&& part.get_text("image_url"@) == Some(url) || (part.get("image_url"@) matches Some(given)
            && given.get_text("url"@) == Some(url))
    }
}

/// `c` is the content of a message as Kimi takes it.
pub open spec fn same_content_v(content: Option<JsonV>, c: Option<JsonV>) -> bool {
    match content {
        None => c == Some(JsonV::Str(Seq::empty())),
        Some(JsonV::Null) => c == Some(JsonV::Str(Seq::empty())),
        Some(JsonV::Str(s)) => c == Some(JsonV::Str(s)),
        Some(JsonV::Arr(parts)) => {
            &&& c matches Some(JsonV::Arr(ps))
            &&& ps.len() == parts.len()
            &&& forall|i: int| 0 <= i < parts.len() ==> same_part_v(#[trigger] parts[i], ps[i])
        },
        _ => false,
    }
}

proof fn parts_are_kept(parts: Seq<JsonV>)
    ensures
        history::parts_v(parts) matches Ok(ps) ==> ps.len() == parts.len() && forall|i: int|
            0 <= i < parts.len() ==> same_part_v(#[trigger] parts[i], ps[i]),
    decreases parts.len(),
{
    words::chat();
    if parts.len() > 0 {
        let d = parts.drop_last();
        parts_are_kept(d);
        if let Ok(ps) = history::parts_v(parts) {
            let before = history::parts_v(d)->Ok_0;
            assert forall|i: int| 0 <= i < parts.len() implies same_part_v(
                #[trigger] parts[i],
                ps[i],
            ) by {
                if i < d.len() {
                    assert(same_part_v(d[i], before[i]));
                }
            }
        }
    }
}

/// A message of the user, or of the system, which a developer is too, is one
/// more message at the end of the conversation, with the same content.
pub proof fn messages_are_kept(
    request: JsonV,
    items: Seq<JsonV>,
    item: JsonV,
    key: Option<Seq<char>>,
)
    requires
        request.get("input"@) == Some(JsonV::Arr(items)),
        kind_v(item) == "message"@,
        item.get_text("role"@) != Some("assistant"@),
    ensures
        (messages_of_v(request, key), messages_of_v(longer_v(request, items, item), key)) matches (
            Some(before),
            Some(after),
        ) ==> {
            let role = item.get_text("role"@);
            &&& after.len() == before.len() + 1
            &&& after.drop_last() == before
            &&& role == Some("user"@) || role == Some("system"@) || role == Some("developer"@)
            &&& after.last().get_text("role"@) == if role == Some("user"@) {
                Some("user"@)
            } else {
                Some("system"@)
            }
            &&& same_content_v(item.get("content"@), after.last().get("content"@))
        },
{
    words::chat();
    longer_histories(request, items, item, key);
    if let (Some(before), Some(after)) = (
        messages_of_v(request, key),
        messages_of_v(longer_v(request, items, item), key),
    ) {
        let h = history::history_v(items, request::head_v(request))->Ok_0;
        let f = history::flush_v(h);
        if let Some(JsonV::Arr(parts)) = item.get("content"@) {
            parts_are_kept(parts);
        }
        let g = history::step_v(h, item)->Ok_0;
        assert(after == g.messages);
        assert(after.drop_last() =~= before);
    }
}

/// What a tool gave back is one more message at the end of the conversation,
/// for the call that it answers: the text, or the JSON of anything else.
pub proof fn tool_outputs_are_kept(
    request: JsonV,
    items: Seq<JsonV>,
    item: JsonV,
    key: Option<Seq<char>>,
)
    requires
        request.get("input"@) == Some(JsonV::Arr(items)),
        kind_v(item) == "function_call_output"@,
    ensures
        (messages_of_v(request, key), messages_of_v(longer_v(request, items, item), key)) matches (
            Some(before),
            Some(after),
        ) ==> {
            &&& after.len() == before.len() + 1
            &&& after.drop_last() == before
            &&& after.last().get_text("role"@) == Some("tool"@)
            &&& after.last().get_text("tool_call_id"@) is Some
            &&& after.last().get("tool_call_id"@) == item.get("call_id"@)
            &&& after.last().get_text("content"@) == match item.get("output"@) {
                Some(JsonV::Str(s)) => Some(s),
                Some(v) => Some(json::json_text(v)),
                None => Some(Seq::<char>::empty()),
            }
        },
{
    words::chat();
    longer_histories(request, items, item, key);
    if let (Some(before), Some(after)) = (
        messages_of_v(request, key),
        messages_of_v(longer_v(request, items, item), key),
    ) {
        let h = history::history_v(items, request::head_v(request))->Ok_0;
        let g = history::step_v(h, item)->Ok_0;
        assert(after == g.messages);
        assert(after.drop_last() =~= before);
    }
}

/// An item that is neither a message, nor reasoning, nor a call, nor the output
/// of one makes a request that is refused.
pub proof fn other_items_are_refused(
    request: JsonV,
    items: Seq<JsonV>,
    item: JsonV,
    key: Option<Seq<char>>,
)
    requires
        request.get("input"@) == Some(JsonV::Arr(items)),
        kind_v(item) != "message"@,
        kind_v(item) != "reasoning"@,
        kind_v(item) != "function_call"@,
        kind_v(item) != "function_call_output"@,
    ensures
        messages_of_v(longer_v(request, items, item), key) is None,
{
    longer_histories(request, items, item, key);
}

/// An item of the assistant's turn.
pub open spec fn of_assistant_v(item: JsonV) -> bool {
    ||| kind_v(item) == "reasoning"@
    ||| kind_v(item) == "function_call"@
    ||| kind_v(item) == "message"@ && item.get_text("role"@) == Some("assistant"@)
}

/// `c` is the call that `item` records.
pub open spec fn same_call_v(item: JsonV, c: JsonV) -> bool {
    &&& c.get_text("type"@) == Some("function"@)
    &&& c.get_text("id"@) is Some
    &&& c.get("id"@) == item.get("call_id"@)
    &&& c.get("function"@) matches Some(f)
    &&& f.get_text("name"@) is Some
    &&& f.get("name"@) == item.get("name"@)
    &&& f.get_text("arguments"@) == match item.get_text("arguments"@) {
        Some(s) => Some(s),
        None => Some("{}"@),
    }
}

pub open spec fn text_of_v(message: JsonV, k: Seq<char>) -> Seq<char> {
    match message.get_text(k) {
        Some(s) => s,
        None => Seq::empty(),
    }
}

pub open spec fn calls_of_v(message: JsonV) -> Seq<JsonV> {
    match message.get_list("tool_calls"@) {
        Some(calls) => calls,
        None => Seq::empty(),
    }
}

/// The turn of the assistant that is open after the items: what its message
/// would say.
spec fn turn_of_v(request: JsonV, items: Seq<JsonV>) -> HistoryV {
    history::history_v(items, request::head_v(request))->Ok_0
}

proof fn turn_messages(t: history::TurnV)
    ensures
        ({
            let m = history::turn_message_v(t);
            &&& m.get_text("role"@) == Some("assistant"@)
            &&& m.get_text("content"@) == Some(t.content)
            &&& text_of_v(m, "reasoning_content"@) == t.reasoning
            &&& calls_of_v(m) == t.tool_calls
            &&& m.get("reasoning_content"@) is Some <==> t.reasoning.len() > 0
            &&& m.get("tool_calls"@) is Some <==> t.tool_calls.len() > 0
        }),
{
    words::chat();
}

/// The turn is closed after an item that is not the assistant's.
proof fn others_close_the_turn(items: Seq<JsonV>, head: Seq<JsonV>)
    requires
        items.len() == 0 || !of_assistant_v(items.last()),
    ensures
        history::history_v(items, head) matches Ok(h) ==> h.turn == history::no_turn_v(),
{
}

/// What the assistant did first after others had their say is a message of its
/// own: a call as its only call, a text as its content, thoughts as its reasoning.
pub proof fn turns_begin(
    request: JsonV,
    items: Seq<JsonV>,
    item: JsonV,
    key: Option<Seq<char>>,
)
    requires
        request.get("input"@) == Some(JsonV::Arr(items)),
        items.len() == 0 || !of_assistant_v(items.last()),
        of_assistant_v(item),
    ensures
        (messages_of_v(request, key), messages_of_v(longer_v(request, items, item), key)) matches (
            Some(before),
            Some(after),
        ) ==> {
            &&& kind_v(item) == "function_call"@ ==> {
                &&& after.len() == before.len() + 1
                &&& after.drop_last() == before
                &&& says_v(after.last(), "assistant"@, Seq::empty())
                &&& after.last().get("reasoning_content"@) is None
                &&& calls_of_v(after.last()).len() == 1
                &&& same_call_v(item, calls_of_v(after.last())[0])
            }
            &&& kind_v(item) == "message"@ ==> (item.get_text("content"@) matches Some(s) ==> if s.len()
                == 0 {
                after == before
            } else {
                &&& after.len() == before.len() + 1
                &&& after.drop_last() == before
                &&& says_v(after.last(), "assistant"@, s)
                &&& after.last().get("reasoning_content"@) is None
                &&& after.last().get("tool_calls"@) is None
            })
            &&& kind_v(item) == "reasoning"@ ==> if thoughts_v(item).len() == 0 {
                after == before
            } else {
                &&& after.len() == before.len() + 1
                &&& after.drop_last() == before
                &&& says_v(after.last(), "assistant"@, Seq::empty())
                &&& after.last().get_text("reasoning_content"@) == Some(thoughts_v(item))
                &&& after.last().get("tool_calls"@) is None
            }
        },
{
    words::chat();
    longer_histories(request, items, item, key);
    others_close_the_turn(items, request::head_v(request));
    if let (Some(before), Some(after)) = (
        messages_of_v(request, key),
        messages_of_v(longer_v(request, items, item), key),
    ) {
        let h = turn_of_v(request, items);
        let g = history::step_v(h, item)->Ok_0;
        thoughts_are_summaries(item);
        turn_messages(g.turn);
        assert(h.turn.content + text_of_v(item, "content"@) =~= text_of_v(item, "content"@));
        assert(h.turn.reasoning + thoughts_v(item) =~= thoughts_v(item));
        assert(before.push(history::turn_message_v(g.turn)).drop_last() =~= before);
        if kind_v(item) == "function_call"@ {
            assert(g.turn.tool_calls.len() == 1);
            assert(same_call_v(item, g.turn.tool_calls[0]));
        }
    }
}

/// The texts in the summary of an item of reasoning, a line each.
pub open spec fn thoughts_v(item: JsonV) -> Seq<char> {
    match item.get_list("summary"@) {
        Some(parts) => text::join_v(texts_v(parts), "\n"@),
        None => Seq::empty(),
    }
}

/// The texts of a list of parts, in order.
pub open spec fn texts_v(parts: Seq<JsonV>) -> Seq<Seq<char>> {
    parts.filter(|p: JsonV| p.get_text("text"@) is Some).map_values(
        |p: JsonV| p.get_text("text"@)->0,
    )
}

proof fn texts_are_parts(parts: Seq<JsonV>)
    ensures
        history::part_texts_v(parts) == texts_v(parts),
    decreases parts.len(),
{
    reveal(Seq::filter);
    let has = |p: JsonV| p.get_text("text"@) is Some;
    let text = |p: JsonV| p.get_text("text"@)->0;
    if parts.len() > 0 {
        texts_are_parts(parts.drop_last());
        let before = parts.drop_last().filter(has);
        assert(before.push(parts.last()).map_values(text) =~= before.map_values(text).push(
            text(parts.last()),
        ));
    } else {
        assert(texts_v(parts) =~= Seq::<Seq<char>>::empty());
    }
}

proof fn thoughts_are_summaries(item: JsonV)
    ensures
        history::summary_v(item) == thoughts_v(item),
{
    if let Some(parts) = item.get_list("summary"@) {
        texts_are_parts(parts);
    }
}

/// What the assistant does in a turn that has begun joins the message of that
/// turn: calls after its calls, texts after its content, thoughts on a line of
/// their own after its reasoning. The rest of the message stays as it is.
pub proof fn turns_go_on(
    request: JsonV,
    items: Seq<JsonV>,
    first: JsonV,
    item: JsonV,
    key: Option<Seq<char>>,
)
    requires
        request.get("input"@) == Some(JsonV::Arr(items.push(first))),
        kind_v(first) == "function_call"@,
        of_assistant_v(item),
    ensures
        (
            messages_of_v(request, key),
            messages_of_v(longer_v(request, items.push(first), item), key),
        ) matches (Some(before), Some(after)) ==> {
            let (b, a) = (before.last(), after.last());
            &&& before.len() > 0
            &&& after.len() == before.len()
            &&& after.drop_last() == before.drop_last()
            &&& a.get_text("role"@) == Some("assistant"@)
            &&& kind_v(item) == "function_call"@ ==> {
                &&& calls_of_v(a).len() == calls_of_v(b).len() + 1
                &&& calls_of_v(a).drop_last() == calls_of_v(b)
                &&& same_call_v(item, calls_of_v(a).last())
                &&& a.get("content"@) == b.get("content"@)
                &&& a.get("reasoning_content"@) == b.get("reasoning_content"@)
            }
            &&& kind_v(item) == "message"@ ==> {
                &&& item.get_text("content"@) matches Some(s) ==> a.get_text("content"@) == Some(
                    text_of_v(b, "content"@) + s,
                )
                &&& calls_of_v(a) == calls_of_v(b)
                &&& a.get("reasoning_content"@) == b.get("reasoning_content"@)
            }
            &&& kind_v(item) == "reasoning"@ ==> {
                let (old_thoughts, new) = (text_of_v(b, "reasoning_content"@), thoughts_v(item));
                &&& text_of_v(a, "reasoning_content"@) == if new.len() == 0 {
                    old_thoughts
                } else if old_thoughts.len() == 0 {
                    new
                } else {
                    old_thoughts + seq!['\n'] + new
                }
                &&& calls_of_v(a) == calls_of_v(b)
                &&& a.get("content"@) == b.get("content"@)
            }
        },
{
    words::chat();
    let all = items.push(first);
    longer_histories(request, all, item, key);
    assert(all.drop_last() =~= items);
    if let (Some(before), Some(after)) = (
        messages_of_v(request, key),
        messages_of_v(longer_v(request, all, item), key),
    ) {
        let h = turn_of_v(request, all);
        assert(h.turn.tool_calls.len() > 0);
        let g = history::step_v(h, item)->Ok_0;
        thoughts_are_summaries(item);
        turn_messages(h.turn);
        turn_messages(g.turn);
        assert(before == h.messages.push(history::turn_message_v(h.turn)));
        assert(after == h.messages.push(history::turn_message_v(g.turn)));
        assert(before.drop_last() =~= after.drop_last());
        let s = thoughts_v(item);
        assert(h.turn.reasoning.push('\n') + s =~= h.turn.reasoning + seq!['\n'] + s);
        assert(h.turn.reasoning.len() == 0 ==> h.turn.reasoning + s =~= s);
        if kind_v(item) == "function_call"@ {
            assert(calls_of_v(after.last()).drop_last() =~= calls_of_v(before.last()));
        }
        assert(h.turn.reasoning == g.turn.reasoning ==> before.last().get("reasoning_content"@)
            == after.last().get("reasoning_content"@));
    }
}

/// What the assistant said in parts is their texts in a row.
pub proof fn said_parts_add_up(parts: Seq<JsonV>, part: JsonV, s: Seq<char>)
    requires
        part.get_text("type"@) == Some("output_text"@) || part.get_text("type"@) == Some(
            "text"@,
        ) || part.get_text("type"@) == Some("input_text"@),
        part.get_text("text"@) == Some(s),
    ensures
        history::said_v(Some(JsonV::Arr(parts))) matches Ok(before) ==> history::said_v(
            Some(JsonV::Arr(parts.push(part))),
        ) == Ok::<Seq<char>, Seq<char>>(before + s),
        history::said_v(Some(JsonV::Arr(Seq::empty()))) == Ok::<Seq<char>, Seq<char>>(Seq::empty()),
        history::said_v(Some(JsonV::Str(s))) == Ok::<Seq<char>, Seq<char>>(s),
{
    assert(parts.push(part).drop_last() =~= parts);
}

/// An item that any conversation may go on with: reasoning, a call with an ID and
/// a name, the output of a call with an ID, or a message with a text from one who
/// may speak.
pub open spec fn welcome_v(item: JsonV) -> bool {
    let filled = |k: Seq<char>| item.get_text(k) matches Some(s) && s.len() > 0;
    let role = item.get_text("role"@);
    ||| kind_v(item) == "reasoning"@
    ||| kind_v(item) == "function_call"@ && filled("call_id"@) && filled("name"@)
    ||| kind_v(item) == "function_call_output"@ && filled("call_id"@)
    ||| {
        &&& kind_v(item) == "message"@
        &&& role == Some("user"@) || role == Some("assistant"@) || role == Some("system"@) || role
            == Some("developer"@)
        &&& item.get("content"@) is None || item.get_text("content"@) is Some
    }
}

/// A request that is taken is taken with a welcome item more, too.
pub proof fn welcome_items_are_taken(
    request: JsonV,
    items: Seq<JsonV>,
    item: JsonV,
    key: Option<Seq<char>>,
)
    requires
        request.get("input"@) == Some(JsonV::Arr(items)),
        request::request_v(request, key) is Ok,
        welcome_v(item),
    ensures
        request::request_v(longer_v(request, items, item), key) is Ok,
{
    words::chat();
    let longer = longer_v(request, items, item);
    assert(items.push(item).drop_last() =~= items);
    assert(longer.get("instructions"@) == request.get("instructions"@));
    assert(request::head_v(longer) == request::head_v(request));
    let h = history::history_v(items, request::head_v(request))->Ok_0;
    assert(history::step_v(h, item) is Ok);
    assert(longer.get("model"@) == request.get("model"@));
    assert(longer.get("reasoning"@) == request.get("reasoning"@));
    assert(longer.get("tools"@) == request.get("tools"@));
    assert(longer.get("tool_choice"@) == request.get("tool_choice"@));
}

/// A request for a known model, with a text or with no items yet, is taken, unless
/// its effort, its tools or its choice of one cannot be.
pub proof fn plain_requests_are_taken(request: JsonV, key: Option<Seq<char>>)
    requires
        request.is_obj(),
        request.get_text("model"@) matches Some(m) && (m == "k3"@ || m == "kimi-k3"@ || m == "k2.6"@
            || m == "kimi-k2.6"@ || m == "kimi-for-coding"@),
        request.get("input"@) is None || request.get_text("input"@) is Some || request.get_list(
            "input"@,
        ) == Some(Seq::<JsonV>::empty()),
        request.get("reasoning"@) is None,
        request.get("tool_choice"@) is None,
        match request.get("tools"@) {
            Some(JsonV::Arr(tools)) => forall|i: int|
                0 <= i < tools.len() ==> offered_v(#[trigger] tools[i]),
            Some(_) => false,
            None => true,
        },
    ensures
        request::request_v(request, key) is Ok,
{
    words::chat();
    if let Some(JsonV::Arr(tools)) = request.get("tools"@) {
        tool_lists(tools);
    }
}

} // verus!
