//! The items of a Responses input as chat messages.

use vstd::prelude::*;

use crate::json;
use crate::json::{Json, JsonV};
use crate::provider::kimi::request;
use crate::provider::kimi::request::{json_result, required_string, role_message};
use crate::text;
use crate::text::same;

verus! {

/// A turn of the assistant that is being put together.
struct AssistantTurn {
    content: String,
    reasoning: String,
    tool_calls: Vec<Json>,
}

#[verifier::ext_equal]
pub struct TurnV {
    pub content: Seq<char>,
    pub reasoning: Seq<char>,
    pub tool_calls: Seq<JsonV>,
}

pub open spec fn no_turn_v() -> TurnV {
    TurnV { content: Seq::empty(), reasoning: Seq::empty(), tool_calls: Seq::empty() }
}

/// The messages so far, and the turn of the assistant after them.
#[verifier::ext_equal]
pub struct HistoryV {
    pub messages: Seq<JsonV>,
    pub turn: TurnV,
}

impl AssistantTurn {
    spec fn view(&self) -> TurnV {
        TurnV {
            content: self.content@,
            reasoning: self.reasoning@,
            tool_calls: json::items_v(self.tool_calls@),
        }
    }

    fn new() -> (r: AssistantTurn)
        ensures
            r@ == no_turn_v(),
    {
        let tool_calls: Vec<Json> = Vec::new();
        assert(json::items_v(tool_calls@) =~= Seq::<JsonV>::empty());
        AssistantTurn { content: String::new(), reasoning: String::new(), tool_calls }
    }
}

/// The message of a turn.
pub open spec fn turn_message_v(t: TurnV) -> JsonV {
    let plain = request::role_v("assistant"@, JsonV::Str(t.content));
    let thought = if t.reasoning.len() > 0 {
        plain.with("reasoning_content"@, JsonV::Str(t.reasoning))
    } else {
        plain
    };
    if t.tool_calls.len() > 0 {
        thought.with("tool_calls"@, JsonV::Arr(t.tool_calls))
    } else {
        thought
    }
}

/// The turn of the assistant ends; if there was any, it becomes a message.
pub open spec fn flush_v(h: HistoryV) -> HistoryV {
    if h.turn.content.len() == 0 && h.turn.reasoning.len() == 0 && h.turn.tool_calls.len() == 0 {
        h
    } else {
        HistoryV { messages: h.messages.push(turn_message_v(h.turn)), turn: no_turn_v() }
    }
}

fn flush_assistant(turn: &mut AssistantTurn, messages: &mut Vec<Json>)
    ensures
        (HistoryV { messages: json::items_v(final(messages)@), turn: final(turn)@ }) == flush_v(
            HistoryV { messages: json::items_v(old(messages)@), turn: old(turn)@ },
        ),
{
    proof {
        json::items_len(turn.tool_calls@);
    }
    if turn.content.as_str().is_empty() && turn.reasoning.as_str().is_empty()
        && turn.tool_calls.len() == 0 {
        return;
    }
    let mut message = role_message("assistant", Json::str(&turn.content));
    if !turn.reasoning.as_str().is_empty() {
        message.set("reasoning_content", Json::str(&turn.reasoning));
    }
    if turn.tool_calls.len() > 0 {
        message.set("tool_calls", Json::array(json::copy_items(&turn.tool_calls)));
    }
    json::push_item(messages, message);
    *turn = AssistantTurn::new();
}

/// The texts of the parts that have one.
pub open spec fn part_texts_v(parts: Seq<JsonV>) -> Seq<Seq<char>>
    decreases parts.len(),
{
    if parts.len() == 0 {
        Seq::empty()
    } else {
        let before = part_texts_v(parts.drop_last());
        match parts.last().get_text("text"@) {
            Some(s) => before.push(s),
            None => before,
        }
    }
}

/// What a reasoning item says.
pub open spec fn summary_v(item: JsonV) -> Seq<char> {
    match item.get_list("summary"@) {
        Some(parts) => text::join_v(part_texts_v(parts), "\n"@),
        None => Seq::empty(),
    }
}

fn summary(item: &Json) -> (r: String)
    ensures
        r@ == summary_v(item@),
{
    match item.get_array("summary") {
        None => String::new(),
        Some(parts) => {
            let ghost all = json::items_v(parts@);
            let mut texts: Vec<String> = Vec::new();
            let mut i: usize = 0;
            assert(text::views(texts@) =~= Seq::<Seq<char>>::empty());
            while i < parts.len()
                invariant
                    i <= parts@.len(),
                    all == json::items_v(parts@),
                    text::views(texts@) == part_texts_v(all.take(i as int)),
                decreases parts@.len() - i,
            {
                proof {
                    json::items_len(parts@);
                    json::items_at(parts@, i as int);
                    assert(all.take(i + 1).drop_last() =~= all.take(i as int));
                    assert(all.take(i + 1).last() == parts@[i as int]@);
                }
                if let Some(s) = parts[i].get_str("text") {
                    let s = text::owned(s);
                    proof {
                        assert(text::views(texts@.push(s)) =~= text::views(texts@).push(s@));
                    }
                    texts.push(s);
                }
                i += 1;
            }
            proof {
                json::items_len(parts@);
                assert(all.take(i as int) =~= all);
            }
            text::join(&texts, "\n")
        },
    }
}

pub open spec fn reasoning_v(h: HistoryV, item: JsonV) -> HistoryV {
    let s = summary_v(item);
    if s.len() == 0 {
        h
    } else {
        HistoryV {
            turn: TurnV {
                reasoning: if h.turn.reasoning.len() > 0 {
                    h.turn.reasoning.push('\n') + s
                } else {
                    h.turn.reasoning + s
                },
                ..h.turn
            },
            ..h
        }
    }
}

pub open spec fn call_v(h: HistoryV, item: JsonV) -> Result<HistoryV, Seq<char>> {
    match request::required_v(item, "call_id"@) {
        Err(e) => Err(e),
        Ok(id) => match request::required_v(item, "name"@) {
            Err(e) => Err(e),
            Ok(name) => Ok(
                HistoryV {
                    turn: TurnV {
                        tool_calls: h.turn.tool_calls.push(
                            json::empty_v().with("id"@, JsonV::Str(id)).with(
                                "type"@,
                                JsonV::Str("function"@),
                            ).with(
                                "function"@,
                                json::empty_v().with("name"@, JsonV::Str(name)).with(
                                    "arguments"@,
                                    JsonV::Str(
                                        request::or_text_v(item.get_text("arguments"@), "{}"@),
                                    ),
                                ),
                            ),
                        ),
                        ..h.turn
                    },
                    ..h
                },
            ),
        },
    }
}

/// What a tool gave back, as a text.
pub open spec fn output_v(output: Option<JsonV>) -> JsonV {
    match output {
        None => JsonV::Str(Seq::empty()),
        Some(JsonV::Str(s)) => JsonV::Str(s),
        Some(v) => JsonV::Str(json::json_text(v)),
    }
}

fn tool_output(output: Option<&Json>) -> (r: Json)
    ensures
        r@ == output_v(json::opt_json(output)),
{
    match output {
        None => Json::string(String::new()),
        Some(v) => match v {
            Json::Str(s) => Json::str(s),
            _ => Json::string(v.encode()),
        },
    }
}

pub open spec fn returned_v(h: HistoryV, item: JsonV) -> Result<HistoryV, Seq<char>> {
    let f = flush_v(h);
    match request::required_v(item, "call_id"@) {
        Err(e) => Err(e),
        Ok(id) => Ok(
            HistoryV {
                messages: f.messages.push(
                    json::empty_v().with("role"@, JsonV::Str("tool"@)).with(
                        "tool_call_id"@,
                        JsonV::Str(id),
                    ).with("content"@, output_v(item.get("output"@))),
                ),
                ..f
            },
        ),
    }
}

pub open spec fn is_text_v(kind: Seq<char>) -> bool {
    kind == "input_text"@ || kind == "output_text"@ || kind == "text"@
}

fn is_text(kind: &str) -> (r: bool)
    ensures
        r == is_text_v(kind@),
{
    same(kind, "input_text") || same(kind, "output_text") || same(kind, "text")
}

/// The address of an image: a text, or a text in an object.
pub open spec fn image_v(part: JsonV) -> Option<Seq<char>> {
    match part.get("image_url"@) {
        None => None,
        Some(v) => match v.text() {
            Some(s) => Some(s),
            None => v.get_text("url"@),
        },
    }
}

/// A part of a message.
pub open spec fn part_v(part: JsonV) -> Result<JsonV, Seq<char>> {
    match part.get_text("type"@) {
        None => Err("message content part type is required"@),
        Some(kind) => if is_text_v(kind) {
            Ok(
                json::empty_v().with("type"@, JsonV::Str("text"@)).with(
                    "text"@,
                    JsonV::Str(request::or_text_v(part.get_text("text"@), Seq::empty())),
                ),
            )
        } else if kind == "input_image"@ {
            match image_v(part) {
                Some(url) => if url.len() > 0 {
                    Ok(
                        json::empty_v().with("type"@, JsonV::Str("image_url"@)).with(
                            "image_url"@,
                            json::empty_v().with("url"@, JsonV::Str(url)),
                        ),
                    )
                } else {
                    Err("input_image image_url is required"@)
                },
                None => Err("input_image image_url is required"@),
            }
        } else {
            Err("unsupported message content part "@ + text::debug_form(kind))
        },
    }
}

fn chat_part(part: &Json) -> (r: Result<Json, String>)
    ensures
        json_result(r) == part_v(part@),
{
    match part.get_str("type") {
        None => Err(text::owned("message content part type is required")),
        Some(kind) => if is_text(kind) {
            let s = match part.get_str("text") {
                Some(s) => text::owned(s),
                None => String::new(),
            };
            Ok(Json::object().with("type", Json::str("text")).with("text", Json::string(s)))
        } else if same(kind, "input_image") {
            let url = match part.get("image_url") {
                None => None,
                Some(v) => match v.as_str() {
                    Some(s) => Some(s),
                    None => v.get_str("url"),
                },
            };
            if let Some(url) = url {
                if !url.is_empty() {
                    return Ok(
                        Json::object().with("type", Json::str("image_url")).with(
                            "image_url",
                            Json::object().with("url", Json::str(url)),
                        ),
                    );
                }
            }
            Err(text::owned("input_image image_url is required"))
        } else {
            Err(text::cat("unsupported message content part ", &text::debug_text(kind)))
        },
    }
}

pub open spec fn parts_v(parts: Seq<JsonV>) -> Result<Seq<JsonV>, Seq<char>>
    decreases parts.len(),
{
    if parts.len() == 0 {
        Ok(Seq::empty())
    } else {
        match parts_v(parts.drop_last()) {
            Err(e) => Err(e),
            Ok(before) => match part_v(parts.last()) {
                Err(e) => Err(e),
                Ok(part) => Ok(before.push(part)),
            },
        }
    }
}

proof fn part_errors_stay(parts: Seq<JsonV>, n: int)
    requires
        0 <= n <= parts.len(),
    ensures
        parts_v(parts.take(n)) is Err ==> parts_v(parts) == parts_v(parts.take(n)),
    decreases parts.len() - n,
{
    if n < parts.len() {
        part_errors_stay(parts, n + 1);
        assert(parts.take(n + 1).drop_last() =~= parts.take(n));
    } else {
        assert(parts.take(n) =~= parts);
    }
}

/// The content of a message.
pub open spec fn content_v(content: Option<JsonV>) -> Result<JsonV, Seq<char>> {
    match content {
        None => Ok(JsonV::Str(Seq::empty())),
        Some(JsonV::Null) => Ok(JsonV::Str(Seq::empty())),
        Some(JsonV::Str(s)) => Ok(JsonV::Str(s)),
        Some(JsonV::Arr(parts)) => match parts_v(parts) {
            Err(e) => Err(e),
            Ok(parts) => Ok(JsonV::Arr(parts)),
        },
        Some(_) => Err("message content must be a string or array"@),
    }
}

fn chat_parts(parts: &Vec<Json>) -> (r: Result<Vec<Json>, String>)
    ensures
        match r {
            Ok(v) => parts_v(json::items_v(parts@)) == Ok::<Seq<JsonV>, Seq<char>>(
                json::items_v(v@),
            ),
            Err(e) => parts_v(json::items_v(parts@)) == Err::<Seq<JsonV>, Seq<char>>(e@),
        },
{
    let ghost all = json::items_v(parts@);
    let mut out: Vec<Json> = Vec::new();
    let mut i: usize = 0;
    proof {
        json::items_len(parts@);
        assert(json::items_v(out@) =~= Seq::<JsonV>::empty());
    }
    while i < parts.len()
        invariant
            i <= parts@.len(),
            all == json::items_v(parts@),
            all.len() == parts@.len(),
            parts_v(all.take(i as int)) == Ok::<Seq<JsonV>, Seq<char>>(json::items_v(out@)),
        decreases parts@.len() - i,
    {
        proof {
            json::items_at(parts@, i as int);
            assert(all.take(i + 1).drop_last() =~= all.take(i as int));
            assert(all.take(i + 1).last() == parts@[i as int]@);
            part_errors_stay(all, i + 1);
        }
        match chat_part(&parts[i]) {
            Err(e) => {
                return Err(e);
            },
            Ok(part) => {
                json::push_item(&mut out, part);
            },
        }
        i += 1;
    }
    assert(all.take(i as int) =~= all);
    Ok(out)
}

fn chat_content(content: Option<&Json>) -> (r: Result<Json, String>)
    ensures
        json_result(r) == content_v(json::opt_json(content)),
{
    match content {
        None => Ok(Json::string(String::new())),
        Some(v) => match v {
            Json::Null => Ok(Json::string(String::new())),
            Json::Str(s) => Ok(Json::str(s)),
            Json::Arr(parts) => match chat_parts(parts) {
                Ok(parts) => Ok(Json::array(parts)),
                Err(e) => Err(e),
            },
            _ => Err(text::owned("message content must be a string or array")),
        },
    }
}

pub open spec fn said_part_v(part: JsonV) -> Result<Seq<char>, Seq<char>> {
    match part.get_text("type"@) {
        None => Err("assistant content part type is required"@),
        Some(kind) => if is_text_v(kind) {
            Ok(request::or_text_v(part.get_text("text"@), Seq::empty()))
        } else {
            Err("unsupported assistant content part "@ + text::debug_form(kind))
        },
    }
}

pub open spec fn said_parts_v(parts: Seq<JsonV>) -> Result<Seq<char>, Seq<char>>
    decreases parts.len(),
{
    if parts.len() == 0 {
        Ok(Seq::empty())
    } else {
        match said_parts_v(parts.drop_last()) {
            Err(e) => Err(e),
            Ok(before) => match said_part_v(parts.last()) {
                Err(e) => Err(e),
                Ok(s) => Ok(before + s),
            },
        }
    }
}

proof fn said_errors_stay(parts: Seq<JsonV>, n: int)
    requires
        0 <= n <= parts.len(),
    ensures
        said_parts_v(parts.take(n)) is Err ==> said_parts_v(parts) == said_parts_v(parts.take(n)),
    decreases parts.len() - n,
{
    if n < parts.len() {
        said_errors_stay(parts, n + 1);
        assert(parts.take(n + 1).drop_last() =~= parts.take(n));
    } else {
        assert(parts.take(n) =~= parts);
    }
}

/// What the assistant said.
pub open spec fn said_v(content: Option<JsonV>) -> Result<Seq<char>, Seq<char>> {
    match content {
        None => Ok(Seq::empty()),
        Some(JsonV::Null) => Ok(Seq::empty()),
        Some(JsonV::Str(s)) => Ok(s),
        Some(JsonV::Arr(parts)) => said_parts_v(parts),
        Some(_) => Err("assistant content must be a string or array"@),
    }
}

fn said_parts(parts: &Vec<Json>) -> (r: Result<String, String>)
    ensures
        match r {
            Ok(s) => said_parts_v(json::items_v(parts@)) == Ok::<Seq<char>, Seq<char>>(s@),
            Err(e) => said_parts_v(json::items_v(parts@)) == Err::<Seq<char>, Seq<char>>(e@),
        },
{
    let ghost all = json::items_v(parts@);
    let mut out = String::new();
    let mut i: usize = 0;
    proof {
        json::items_len(parts@);
    }
    while i < parts.len()
        invariant
            i <= parts@.len(),
            all == json::items_v(parts@),
            all.len() == parts@.len(),
            said_parts_v(all.take(i as int)) == Ok::<Seq<char>, Seq<char>>(out@),
        decreases parts@.len() - i,
    {
        proof {
            json::items_at(parts@, i as int);
            assert(all.take(i + 1).drop_last() =~= all.take(i as int));
            assert(all.take(i + 1).last() == parts@[i as int]@);
            said_errors_stay(all, i + 1);
        }
        match parts[i].get_str("type") {
            None => {
                return Err(text::owned("assistant content part type is required"));
            },
            Some(kind) => {
                if !is_text(kind) {
                    return Err(
                        text::cat("unsupported assistant content part ", &text::debug_text(kind)),
                    );
                }
                let ghost before = out@;
                if let Some(s) = parts[i].get_str("text") {
                    out.push_str(s);
                } else {
                    assert(before + Seq::<char>::empty() =~= before);
                }
            },
        }
        i += 1;
    }
    assert(all.take(i as int) =~= all);
    Ok(out)
}

fn plain_text(content: Option<&Json>) -> (r: Result<String, String>)
    ensures
        match r {
            Ok(s) => said_v(json::opt_json(content)) == Ok::<Seq<char>, Seq<char>>(s@),
            Err(e) => said_v(json::opt_json(content)) == Err::<Seq<char>, Seq<char>>(e@),
        },
{
    match content {
        None => Ok(String::new()),
        Some(v) => match v {
            Json::Null => Ok(String::new()),
            Json::Str(s) => Ok(text::owned(s)),
            Json::Arr(parts) => said_parts(parts),
            _ => Err(text::owned("assistant content must be a string or array")),
        },
    }
}

pub open spec fn message_v(h: HistoryV, item: JsonV) -> Result<HistoryV, Seq<char>> {
    match request::required_v(item, "role"@) {
        Err(e) => Err(e),
        Ok(role) => if role == "assistant"@ {
            match said_v(item.get("content"@)) {
                Err(e) => Err(e),
                Ok(s) => Ok(
                    HistoryV { turn: TurnV { content: h.turn.content + s, ..h.turn }, ..h },
                ),
            }
        } else {
            let f = flush_v(h);
            if role != "developer"@ && role != "system"@ && role != "user"@ {
                Err("unsupported message role "@ + text::debug_form(role))
            } else {
                match content_v(item.get("content"@)) {
                    Err(e) => Err(e),
                    Ok(content) => Ok(
                        HistoryV {
                            messages: f.messages.push(
                                request::role_v(
                                    if role == "user"@ {
                                        "user"@
                                    } else {
                                        "system"@
                                    },
                                    content,
                                ),
                            ),
                            ..f
                        },
                    ),
                }
            }
        },
    }
}

/// The history after one more item.
pub open spec fn step_v(h: HistoryV, item: JsonV) -> Result<HistoryV, Seq<char>> {
    let kind = request::or_text_v(item.get_text("type"@), "message"@);
    if kind == "reasoning"@ {
        Ok(reasoning_v(h, item))
    } else if kind == "function_call"@ {
        call_v(h, item)
    } else if kind == "function_call_output"@ {
        returned_v(h, item)
    } else if kind == "message"@ {
        message_v(h, item)
    } else {
        Err("unsupported Responses input item "@ + text::debug_form(kind))
    }
}

pub open spec fn history_v(items: Seq<JsonV>, head: Seq<JsonV>) -> Result<HistoryV, Seq<char>>
    decreases items.len(),
{
    if items.len() == 0 {
        Ok(HistoryV { messages: head, turn: no_turn_v() })
    } else {
        match history_v(items.drop_last(), head) {
            Err(e) => Err(e),
            Ok(h) => step_v(h, items.last()),
        }
    }
}

/// The messages for the items of an input, after the messages `head`.
pub open spec fn translate_v(items: Seq<JsonV>, head: Seq<JsonV>) -> Result<Seq<JsonV>, Seq<char>> {
    match history_v(items, head) {
        Err(e) => Err(e),
        Ok(h) => Ok(flush_v(h).messages),
    }
}

proof fn history_errors_stay(items: Seq<JsonV>, head: Seq<JsonV>, n: int)
    requires
        0 <= n <= items.len(),
    ensures
        history_v(items.take(n), head) is Err ==> history_v(items, head) == history_v(
            items.take(n),
            head,
        ),
    decreases items.len() - n,
{
    if n < items.len() {
        history_errors_stay(items, head, n + 1);
        assert(items.take(n + 1).drop_last() =~= items.take(n));
    } else {
        assert(items.take(n) =~= items);
    }
}

/// A history as it is kept while it is put together.
struct History {
    messages: Vec<Json>,
    turn: AssistantTurn,
}

impl History {
    spec fn view(&self) -> HistoryV {
        HistoryV { messages: json::items_v(self.messages@), turn: self.turn@ }
    }

    fn append_reasoning(&mut self, item: &Json)
        ensures
            final(self)@ == reasoning_v(old(self)@, item@),
    {
        let s = summary(item);
        if !s.as_str().is_empty() {
            if !self.turn.reasoning.as_str().is_empty() {
                self.turn.reasoning.push('\n');
            }
            self.turn.reasoning.push_str(&s);
        }
    }

    fn append_function_call(&mut self, item: &Json) -> (r: Result<(), String>)
        ensures
            match r {
                Ok(_) => call_v(old(self)@, item@) == Ok::<HistoryV, Seq<char>>(final(self)@),
                Err(e) => call_v(old(self)@, item@) == Err::<HistoryV, Seq<char>>(e@),
            },
    {
        let id = match required_string(item, "call_id") {
            Ok(s) => s,
            Err(e) => {
                return Err(e);
            },
        };
        let name = match required_string(item, "name") {
            Ok(s) => s,
            Err(e) => {
                return Err(e);
            },
        };
        let arguments = match item.get_str("arguments") {
            Some(s) => s,
            None => "{}",
        };
        let call = Json::object().with("id", Json::string(id)).with(
            "type",
            Json::str("function"),
        ).with(
            "function",
            Json::object().with("name", Json::string(name)).with("arguments", Json::str(arguments)),
        );
        json::push_item(&mut self.turn.tool_calls, call);
        Ok(())
    }

    fn append_output(&mut self, item: &Json) -> (r: Result<(), String>)
        ensures
            match r {
                Ok(_) => returned_v(old(self)@, item@) == Ok::<HistoryV, Seq<char>>(final(self)@),
                Err(e) => returned_v(old(self)@, item@) == Err::<HistoryV, Seq<char>>(e@),
            },
    {
        flush_assistant(&mut self.turn, &mut self.messages);
        let id = match required_string(item, "call_id") {
            Ok(s) => s,
            Err(e) => {
                return Err(e);
            },
        };
        let message = Json::object().with("role", Json::str("tool")).with(
            "tool_call_id",
            Json::string(id),
        ).with("content", tool_output(item.get("output")));
        json::push_item(&mut self.messages, message);
        Ok(())
    }

    fn append_message(&mut self, item: &Json) -> (r: Result<(), String>)
        ensures
            match r {
                Ok(_) => message_v(old(self)@, item@) == Ok::<HistoryV, Seq<char>>(final(self)@),
                Err(e) => message_v(old(self)@, item@) == Err::<HistoryV, Seq<char>>(e@),
            },
    {
        let role = match required_string(item, "role") {
            Ok(s) => s,
            Err(e) => {
                return Err(e);
            },
        };
        if same(&role, "assistant") {
            return match plain_text(item.get("content")) {
                Err(e) => Err(e),
                Ok(s) => {
                    self.turn.content.push_str(&s);
                    Ok(())
                },
            };
        }
        flush_assistant(&mut self.turn, &mut self.messages);
        let user = same(&role, "user");
        if !user && !same(&role, "developer") && !same(&role, "system") {
            return Err(text::cat("unsupported message role ", &text::debug_text(&role)));
        }
        match chat_content(item.get("content")) {
            Err(e) => Err(e),
            Ok(content) => {
                let message = role_message(
                    if user {
                        "user"
                    } else {
                        "system"
                    },
                    content,
                );
                json::push_item(&mut self.messages, message);
                Ok(())
            },
        }
    }

    fn append_item(&mut self, item: &Json) -> (r: Result<(), String>)
        ensures
            match r {
                Ok(_) => step_v(old(self)@, item@) == Ok::<HistoryV, Seq<char>>(final(self)@),
                Err(e) => step_v(old(self)@, item@) == Err::<HistoryV, Seq<char>>(e@),
            },
    {
        let kind = match item.get_str("type") {
            Some(s) => s,
            None => "message",
        };
        if same(kind, "reasoning") {
            self.append_reasoning(item);
            Ok(())
        } else if same(kind, "function_call") {
            self.append_function_call(item)
        } else if same(kind, "function_call_output") {
            self.append_output(item)
        } else if same(kind, "message") {
            self.append_message(item)
        } else {
            Err(text::cat("unsupported Responses input item ", &text::debug_text(kind)))
        }
    }
}

/// The messages for the items of an input, after the messages `head`.
pub fn translate_input(items: &Vec<Json>, head: Vec<Json>) -> (r: Result<Vec<Json>, String>)
    ensures
        match r {
            Ok(v) => translate_v(json::items_v(items@), json::items_v(head@)) == Ok::<
                Seq<JsonV>,
                Seq<char>,
            >(json::items_v(v@)),
            Err(e) => translate_v(json::items_v(items@), json::items_v(head@)) == Err::<
                Seq<JsonV>,
                Seq<char>,
            >(e@),
        },
{
    let ghost all = json::items_v(items@);
    let ghost first = json::items_v(head@);
    let mut h = History { messages: head, turn: AssistantTurn::new() };
    let mut i: usize = 0;
    proof {
        json::items_len(items@);
    }
    while i < items.len()
        invariant
            i <= items@.len(),
            all == json::items_v(items@),
            all.len() == items@.len(),
            first == json::items_v(head@),
            history_v(all.take(i as int), first) == Ok::<HistoryV, Seq<char>>(h@),
        decreases items@.len() - i,
    {
        proof {
            json::items_at(items@, i as int);
            assert(all.take(i + 1).drop_last() =~= all.take(i as int));
            assert(all.take(i + 1).last() == items@[i as int]@);
            history_errors_stay(all, first, i + 1);
        }
        match h.append_item(&items[i]) {
            Err(e) => {
                return Err(e);
            },
            Ok(_) => {},
        }
        i += 1;
    }
    assert(all.take(i as int) =~= all);
    flush_assistant(&mut h.turn, &mut h.messages);
    Ok(h.messages)
}

} // verus!
