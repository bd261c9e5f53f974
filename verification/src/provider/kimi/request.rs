//! A Responses request as a Chat Completions request.

use vstd::prelude::*;

use crate::json;
use crate::json::{Json, JsonV};
use crate::provider::kimi;
use crate::provider::kimi::canonical_model;
use crate::text;
use crate::text::same;

pub mod history;
pub mod laws;

use crate::provider::kimi::request::history::translate_input;

verus! {

/// The most tokens that a response may have, and how many are asked for where
/// the client says nothing.
pub const DEFAULT_MAX_TOKENS: u64 = 32_000;

/// The text in a member, which must not be empty.
pub open spec fn required_v(item: JsonV, k: Seq<char>) -> Result<Seq<char>, Seq<char>> {
    match item.get_text(k) {
        Some(s) => if s.len() > 0 {
            Ok(s)
        } else {
            Err(k + " is required"@)
        },
        None => Err(k + " is required"@),
    }
}

pub fn required_string(item: &Json, k: &str) -> (r: Result<String, String>)
    ensures
        match r {
            Ok(s) => required_v(item@, k@) == Ok::<Seq<char>, Seq<char>>(s@),
            Err(e) => required_v(item@, k@) == Err::<Seq<char>, Seq<char>>(e@),
        },
{
    if let Some(s) = item.get_str(k) {
        if !s.is_empty() {
            return Ok(text::owned(s));
        }
    }
    Err(text::cat(k, " is required"))
}

pub open spec fn or_text_v(s: Option<Seq<char>>, other: Seq<char>) -> Seq<char> {
    match s {
        Some(s) => s,
        None => other,
    }
}

/// A function tool.
pub open spec fn tool_v(tool: JsonV) -> Result<JsonV, Seq<char>> {
    if tool.get_text("type"@) != Some("function"@) {
        Err("Kimi currently supports function tools only"@)
    } else {
        match required_v(tool, "name"@) {
            Err(e) => Err(e),
            Ok(name) => Ok(
                json::empty_v().with("type"@, JsonV::Str("function"@)).with(
                    "function"@,
                    json::empty_v().with("name"@, JsonV::Str(name)).with(
                        "description"@,
                        JsonV::Str(or_text_v(tool.get_text("description"@), Seq::empty())),
                    ).with(
                        "parameters"@,
                        match tool.get("parameters"@) {
                            Some(p) => p,
                            None => json::empty_v().with("type"@, JsonV::Str("object"@)),
                        },
                    ),
                ),
            ),
        }
    }
}

pub open spec fn tools_v(tools: Seq<JsonV>) -> Result<Seq<JsonV>, Seq<char>>
    decreases tools.len(),
{
    if tools.len() == 0 {
        Ok(Seq::empty())
    } else {
        match tools_v(tools.drop_last()) {
            Err(e) => Err(e),
            Ok(before) => match tool_v(tools.last()) {
                Err(e) => Err(e),
                Ok(tool) => Ok(before.push(tool)),
            },
        }
    }
}

proof fn tools_errors_stay(tools: Seq<JsonV>, n: int)
    requires
        0 <= n <= tools.len(),
    ensures
        tools_v(tools.take(n)) is Err ==> tools_v(tools) == tools_v(tools.take(n)),
    decreases tools.len() - n,
{
    if n < tools.len() {
        tools_errors_stay(tools, n + 1);
        assert(tools.take(n + 1).drop_last() =~= tools.take(n));
    } else {
        assert(tools.take(n) =~= tools);
    }
}

pub open spec fn all_tools_v(tools: Option<JsonV>) -> Result<Option<JsonV>, Seq<char>> {
    match tools {
        None => Ok(None),
        Some(JsonV::Arr(list)) => if list.len() == 0 {
            Ok(None)
        } else {
            match tools_v(list) {
                Err(e) => Err(e),
                Ok(list) => Ok(Some(JsonV::Arr(list))),
            }
        },
        Some(_) => Err("tools must be an array"@),
    }
}

pub open spec fn json_result(r: Result<Json, String>) -> Result<JsonV, Seq<char>> {
    match r {
        Ok(v) => Ok(v@),
        Err(e) => Err(e@),
    }
}

pub open spec fn opt_result(r: Result<Option<Json>, String>) -> Result<Option<JsonV>, Seq<char>> {
    match r {
        Ok(v) => Ok(json::opt_owned(v)),
        Err(e) => Err(e@),
    }
}

fn translate_tool(tool: &Json) -> (r: Result<Json, String>)
    ensures
        json_result(r) == tool_v(tool@),
{
    let function = match tool.get_str("type") {
        Some(kind) => same(kind, "function"),
        None => false,
    };
    if !function {
        return Err(text::owned("Kimi currently supports function tools only"));
    }
    match required_string(tool, "name") {
        Err(e) => Err(e),
        Ok(name) => {
            proof {
                reveal_strlit("");
                assert(""@ =~= Seq::<char>::empty());
            }
            let description = match tool.get_str("description") {
                Some(s) => s,
                None => "",
            };
            let parameters = match tool.get("parameters") {
                Some(p) => p.copy(),
                None => Json::object().with("type", Json::str("object")),
            };
            Ok(
                Json::object().with("type", Json::str("function")).with(
                    "function",
                    Json::object().with("name", Json::string(name)).with(
                        "description",
                        Json::str(description),
                    ).with("parameters", parameters),
                ),
            )
        },
    }
}

fn translate_tools(tools: Option<&Json>) -> (r: Result<Option<Json>, String>)
    ensures
        opt_result(r) == all_tools_v(json::opt_json(tools)),
{
    match tools {
        None => Ok(None),
        Some(v) => match v.as_array() {
            None => Err(text::owned("tools must be an array")),
            Some(list) => {
                let ghost all = json::items_v(list@);
                proof {
                    json::items_len(list@);
                }
                if list.len() == 0 {
                    return Ok(None);
                }
                let mut out: Vec<Json> = Vec::new();
                let mut i: usize = 0;
                assert(json::items_v(out@) =~= Seq::<JsonV>::empty());
                while i < list.len()
                    invariant
                        i <= list@.len(),
                        all == json::items_v(list@),
                        v@ == JsonV::Arr(all),
                        tools matches Some(t) && t@ == v@,
                        list@.len() > 0,
                        all.len() == list@.len(),
                        tools_v(all.take(i as int)) == Ok::<Seq<JsonV>, Seq<char>>(
                            json::items_v(out@),
                        ),
                    decreases list@.len() - i,
                {
                    proof {
                        json::items_at(list@, i as int);
                        assert(all.take(i + 1).drop_last() =~= all.take(i as int));
                        assert(all.take(i + 1).last() == list@[i as int]@);
                        tools_errors_stay(all, i + 1);
                    }
                    match translate_tool(&list[i]) {
                        Err(e) => {
                            return Err(e);
                        },
                        Ok(tool) => {
                            json::push_item(&mut out, tool);
                        },
                    }
                    i += 1;
                }
                assert(all.take(i as int) =~= all);
                Ok(Some(Json::array(out)))
            },
        },
    }
}

/// A choice of tools; the automatic one goes without saying.
pub open spec fn choice_v(choice: Option<JsonV>) -> Result<Option<JsonV>, Seq<char>> {
    match choice {
        None => Ok(None),
        Some(JsonV::Null) => Ok(None),
        Some(JsonV::Str(s)) => if s == "auto"@ {
            Ok(None)
        } else if s == "none"@ || s == "required"@ {
            Ok(Some(JsonV::Str(s)))
        } else {
            Err("invalid tool_choice"@)
        },
        Some(JsonV::Obj(m)) => {
            let v = JsonV::Obj(m);
            if v.get_text("type"@) != Some("function"@) {
                Err("invalid tool_choice type"@)
            } else {
                match v.get_text("name"@) {
                    Some(name) => if name.len() > 0 {
                        Ok(
                            Some(
                                json::empty_v().with("type"@, JsonV::Str("function"@)).with(
                                    "function"@,
                                    json::empty_v().with("name"@, JsonV::Str(name)),
                                ),
                            ),
                        )
                    } else {
                        Err("tool_choice name is required"@)
                    },
                    None => Err("tool_choice name is required"@),
                }
            }
        },
        Some(_) => Err("invalid tool_choice"@),
    }
}

fn translate_tool_choice(choice: Option<&Json>) -> (r: Result<Option<Json>, String>)
    ensures
        opt_result(r) == choice_v(json::opt_json(choice)),
{
    match choice {
        None => Ok(None),
        Some(v) => match v {
            Json::Null => Ok(None),
            Json::Str(s) => if same(s, "auto") {
                Ok(None)
            } else if same(s, "none") || same(s, "required") {
                Ok(Some(Json::str(s)))
            } else {
                Err(text::owned("invalid tool_choice"))
            },
            Json::Obj(_) => {
                let function = match v.get_str("type") {
                    Some(kind) => same(kind, "function"),
                    None => false,
                };
                if !function {
                    return Err(text::owned("invalid tool_choice type"));
                }
                if let Some(name) = v.get_str("name") {
                    if !name.is_empty() {
                        return Ok(
                            Some(
                                Json::object().with("type", Json::str("function")).with(
                                    "function",
                                    Json::object().with("name", Json::str(name)),
                                ),
                            ),
                        );
                    }
                }
                Err(text::owned("tool_choice name is required"))
            },
            _ => Err(text::owned("invalid tool_choice")),
        },
    }
}

/// The reasoning effort that a model is asked for.
pub open spec fn effort_v(wire: Seq<char>, wanted: Option<Seq<char>>) -> Result<
    Seq<char>,
    Seq<char>,
> {
    if wire == "k3"@ {
        match wanted {
            None => Ok("max"@),
            Some(w) => if w == "xhigh"@ || w == "max"@ || w == "ultra"@ {
                Ok("max"@)
            } else if w == "medium"@ || w == "high"@ {
                Ok("high"@)
            } else if w == "low"@ || w == "minimum"@ || w == "light"@ {
                Ok("low"@)
            } else {
                Err("unsupported K3 reasoning effort "@ + text::debug_form(w))
            },
        }
    } else {
        match wanted {
            None => Ok("medium"@),
            Some(w) => if w == "low"@ {
                Ok("low"@)
            } else if w == "high"@ || w == "xhigh"@ || w == "max"@ {
                Ok("high"@)
            } else {
                Ok("medium"@)
            },
        }
    }
}

fn effort(wire: &str, wanted: Option<&str>) -> (r: Result<&'static str, String>)
    ensures
        match r {
            Ok(s) => effort_v(wire@, json::opt_str(wanted)) == Ok::<Seq<char>, Seq<char>>(s@),
            Err(e) => effort_v(wire@, json::opt_str(wanted)) == Err::<Seq<char>, Seq<char>>(e@),
        },
{
    if same(wire, "k3") {
        match wanted {
            None => Ok("max"),
            Some(w) => if same(w, "xhigh") || same(w, "max") || same(w, "ultra") {
                Ok("max")
            } else if same(w, "medium") || same(w, "high") {
                Ok("high")
            } else if same(w, "low") || same(w, "minimum") || same(w, "light") {
                Ok("low")
            } else {
                Err(text::cat("unsupported K3 reasoning effort ", &text::debug_text(w)))
            },
        }
    } else {
        match wanted {
            None => Ok("medium"),
            Some(w) => if same(w, "low") {
                Ok("low")
            } else if same(w, "high") || same(w, "xhigh") || same(w, "max") {
                Ok("high")
            } else {
                Ok("medium")
            },
        }
    }
}

pub open spec fn max_tokens_v(wanted: Option<u64>) -> u64 {
    match wanted {
        Some(n) => if 0 < n < DEFAULT_MAX_TOKENS {
            n
        } else {
            DEFAULT_MAX_TOKENS
        },
        None => DEFAULT_MAX_TOKENS,
    }
}

pub open spec fn role_v(role: Seq<char>, content: JsonV) -> JsonV {
    json::empty_v().with("role"@, JsonV::Str(role)).with("content"@, content)
}

pub fn role_message(role: &str, content: Json) -> (r: Json)
    ensures
        r@ == role_v(role@, content@),
{
    Json::object().with("role", Json::str(role)).with("content", content)
}

/// The instructions, as the first message.
pub open spec fn head_v(request: JsonV) -> Seq<JsonV> {
    match request.get_text("instructions"@) {
        Some(s) => if text::trim_v(s).len() > 0 {
            seq![role_v("system"@, JsonV::Str(s))]
        } else {
            Seq::empty()
        },
        None => Seq::empty(),
    }
}

/// The messages of a conversation.
pub open spec fn messages_v(request: JsonV) -> Result<Seq<JsonV>, Seq<char>> {
    let head = head_v(request);
    match request.get("input"@) {
        None => Ok(head),
        Some(JsonV::Null) => Ok(head),
        Some(JsonV::Str(s)) => Ok(head.push(role_v("user"@, JsonV::Str(s)))),
        Some(JsonV::Arr(items)) => history::translate_v(items, head),
        Some(_) => Err("input must be a string or array"@),
    }
}

fn messages(request: &Json) -> (r: Result<Vec<Json>, String>)
    ensures
        match r {
            Ok(v) => messages_v(request@) == Ok::<Seq<JsonV>, Seq<char>>(json::items_v(v@)),
            Err(e) => messages_v(request@) == Err::<Seq<JsonV>, Seq<char>>(e@),
        },
{
    let mut out: Vec<Json> = Vec::new();
    assert(json::items_v(out@) =~= Seq::<JsonV>::empty());
    if let Some(s) = request.get_str("instructions") {
        if !text::trim(s).as_str().is_empty() {
            json::push_item(&mut out, role_message("system", Json::str(s)));
            assert(json::items_v(out@) =~= seq![role_v("system"@, JsonV::Str(s@))]);
        }
    }
    assert(json::items_v(out@) == head_v(request@));
    match request.get("input") {
        None => Ok(out),
        Some(v) => match v {
            Json::Null => Ok(out),
            Json::Str(s) => {
                json::push_item(&mut out, role_message("user", Json::str(s)));
                Ok(out)
            },
            Json::Arr(items) => translate_input(items, out),
            _ => Err(text::owned("input must be a string or array")),
        },
    }
}

pub open spec fn wanted_effort_v(request: JsonV) -> Option<Seq<char>> {
    match request.get("reasoning"@) {
        Some(r) => r.get_text("effort"@),
        None => None,
    }
}

/// The request without its tools.
pub open spec fn plain_v(
    wire: Seq<char>,
    messages: Seq<JsonV>,
    max_tokens: u64,
    effort: Seq<char>,
    key: Option<Seq<char>>,
) -> JsonV {
    let plain = json::empty_v().with("model"@, JsonV::Str(wire)).with(
        "messages"@,
        JsonV::Arr(messages),
    ).with("stream"@, JsonV::Bool(true)).with(
        "stream_options"@,
        json::empty_v().with("include_usage"@, JsonV::Bool(true)),
    ).with("max_tokens"@, json::uint_v(max_tokens)).with(
        "reasoning_effort"@,
        JsonV::Str(effort),
    ).with("thinking"@, json::empty_v().with("type"@, JsonV::Str("enabled"@)));
    match key {
        Some(k) => if k.len() > 0 {
            plain.with("prompt_cache_key"@, JsonV::Str(k))
        } else {
            plain
        },
        None => plain,
    }
}

fn plain(
    wire: &str,
    messages: Vec<Json>,
    max_tokens: u64,
    effort: &str,
    key: Option<&str>,
) -> (r: Json)
    ensures
        r@ == plain_v(wire@, json::items_v(messages@), max_tokens, effort@, json::opt_str(key)),
{
    let mut out = Json::object().with("model", Json::str(wire)).with(
        "messages",
        Json::array(messages),
    ).with("stream", Json::bool(true)).with(
        "stream_options",
        Json::object().with("include_usage", Json::bool(true)),
    ).with("max_tokens", Json::uint(max_tokens)).with("reasoning_effort", Json::str(effort)).with(
        "thinking",
        Json::object().with("type", Json::str("enabled")),
    );
    if let Some(k) = key {
        if !k.is_empty() {
            out.set("prompt_cache_key", Json::str(k));
        }
    }
    out
}

pub open spec fn put_v(v: JsonV, k: Seq<char>, x: Option<JsonV>) -> JsonV {
    match x {
        Some(x) => v.with(k, x),
        None => v,
    }
}

/// The Chat Completions request for a Responses request.
pub open spec fn request_v(request: JsonV, key: Option<Seq<char>>) -> Result<JsonV, Seq<char>> {
    if !request.is_obj() {
        Err("request body must be a JSON object"@)
    } else {
        match request.get_text("model"@) {
            None => Err("model is required"@),
            Some(model) => match kimi::canonical_v(model) {
                None => Err("unsupported Kimi model "@ + text::debug_form(model)),
                Some(wire) => match messages_v(request) {
                    Err(e) => Err(e),
                    Ok(messages) => match effort_v(wire, wanted_effort_v(request)) {
                        Err(e) => Err(e),
                        Ok(effort) => match all_tools_v(request.get("tools"@)) {
                            Err(e) => Err(e),
                            Ok(tools) => match choice_v(request.get("tool_choice"@)) {
                                Err(e) => Err(e),
                                Ok(choice) => Ok(
                                    put_v(
                                        put_v(
                                            plain_v(
                                                wire,
                                                messages,
                                                max_tokens_v(
                                                    request.get_uint("max_output_tokens"@),
                                                ),
                                                effort,
                                                key,
                                            ),
                                            "tools"@,
                                            tools,
                                        ),
                                        "tool_choice"@,
                                        choice,
                                    ),
                                ),
                            },
                        },
                    },
                },
            },
        }
    }
}

/// The Chat Completions request for a Responses request that has been read.
pub fn translate_value(request: &Json, prompt_cache_key: Option<&str>) -> (r: Result<Json, String>)
    ensures
        json_result(r) == request_v(request@, json::opt_str(prompt_cache_key)),
{
    if !request.is_object() {
        return Err(text::owned("request body must be a JSON object"));
    }
    let model = match request.get_str("model") {
        Some(s) => s,
        None => {
            return Err(text::owned("model is required"));
        },
    };
    let wire = match canonical_model(model) {
        Some(wire) => wire,
        None => {
            return Err(text::cat("unsupported Kimi model ", &text::debug_text(model)));
        },
    };
    let messages = match messages(request) {
        Ok(v) => v,
        Err(e) => {
            return Err(e);
        },
    };
    let max_tokens: u64 = match request.get_u64("max_output_tokens") {
        Some(n) => if 0 < n && n < DEFAULT_MAX_TOKENS {
            n
        } else {
            DEFAULT_MAX_TOKENS
        },
        None => DEFAULT_MAX_TOKENS,
    };
    let wanted = match request.get("reasoning") {
        Some(v) => v.get_str("effort"),
        None => None,
    };
    let effort = match effort(wire, wanted) {
        Ok(s) => s,
        Err(e) => {
            return Err(e);
        },
    };
    let tools = match translate_tools(request.get("tools")) {
        Ok(v) => v,
        Err(e) => {
            return Err(e);
        },
    };
    let choice = match translate_tool_choice(request.get("tool_choice")) {
        Ok(v) => v,
        Err(e) => {
            return Err(e);
        },
    };
    let mut out = plain(wire, messages, max_tokens, effort, prompt_cache_key);
    if let Some(tools) = tools {
        out.set("tools", tools);
    }
    if let Some(choice) = choice {
        out.set("tool_choice", choice);
    }
    Ok(out)
}

/// The Chat Completions request for the Responses request `raw`, read as
/// `parsed`.
pub open spec fn translated_v(parsed: Option<JsonV>, key: Option<Seq<char>>) -> Result<
    JsonV,
    Seq<char>,
> {
    match parsed {
        None => Err("invalid JSON request"@),
        Some(v) => request_v(v, key),
    }
}

/// The Chat Completions request for the Responses request `raw`.
pub fn translate_request(raw: &[u8], prompt_cache_key: Option<&str>) -> (r: Result<Json, String>)
    ensures
        json_result(r) == translated_v(
            json::parsed_bytes(raw@),
            json::opt_str(prompt_cache_key),
        ),
{
    match json::parse_bytes(raw) {
        None => Err(text::owned("invalid JSON request")),
        Some(v) => translate_value(&v, prompt_cache_key),
    }
}

} // verus!
