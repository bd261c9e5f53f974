//! The request body that Codex takes.

use vstd::prelude::*;

use crate::json;
use crate::json::{Json, JsonV};
use crate::proxy::cache;
use crate::proxy::cache::validate_prompt_cache_fields;
use crate::proxy::headers;
use crate::proxy::identity::{valid_cache_key, IdentityV, UpstreamIdentity};
use crate::sse;
use crate::text;
use crate::text::same;

verus! {

/// A member that an input item loses: its `id`, and the `detail` of an image.
pub open spec fn dropped_v(v: JsonV, k: Seq<char>) -> bool {
    k == "id"@ || (k == "detail"@ && v.get_text("type"@) == Some("input_image"@))
}

pub open spec fn is_system_v(v: JsonV) -> bool {
    v.get_text("role"@) == Some("system"@)
}

/// An input item as Codex takes it: without an `id`, with the role `developer`
/// for `system`, without the `detail` of an image, and the same in the lists
/// among its members.
pub open spec fn item_v(v: JsonV) -> JsonV
    decreases v,
{
    match v {
        JsonV::Obj(m) => JsonV::Obj(
            Map::new(
                |k: Seq<char>| m.contains_key(k) && !dropped_v(v, k),
                |k: Seq<char>|
                    if k == "role"@ && is_system_v(v) {
                        JsonV::Str("developer"@)
                    } else if m.dom().finite() && m.contains_key(k) && m[k] is Arr {
                        JsonV::Arr(
                            Seq::new(
                                m[k]->Arr_0.len(),
                                |i: int|
                                    if 0 <= i < m[k]->Arr_0.len() {
                                        item_v(m[k]->Arr_0[i])
                                    } else {
                                        JsonV::Null
                                    },
                            ),
                        )
                    } else {
                        m[k]
                    },
            ),
        ),
        _ => v,
    }
}

pub open spec fn all_items_v(s: Seq<JsonV>) -> Seq<JsonV> {
    s.map_values(|v: JsonV| item_v(v))
}

/// A member `k` with the value `x`, as it stands in the item `v`.
spec fn child_v(v: JsonV, k: Seq<char>, x: JsonV) -> JsonV {
    if k == "role"@ && is_system_v(v) {
        JsonV::Str("developer"@)
    } else if x is Arr {
        JsonV::Arr(all_items_v(x->Arr_0))
    } else {
        x
    }
}

/// What becomes of the members `m` of the item `v`.
spec fn children_v(v: JsonV, m: Map<Seq<char>, JsonV>) -> Map<Seq<char>, JsonV> {
    Map::new(
        |k: Seq<char>| m.contains_key(k) && !dropped_v(v, k),
        |k: Seq<char>| child_v(v, k, m[k]),
    )
}

proof fn item_is_children(v: JsonV, m: Map<Seq<char>, JsonV>)
    requires
        v == JsonV::Obj(m),
        m.dom().finite(),
    ensures
        item_v(v) == JsonV::Obj(children_v(v, m)),
{
    let a = item_v(v)->Obj_0;
    let b = children_v(v, m);
    assert forall|k: Seq<char>| a.contains_key(k) implies a[k] == b[k] by {
        if m[k] is Arr && !(k == "role"@ && is_system_v(v)) {
            assert(a[k]->Arr_0 =~= all_items_v(m[k]->Arr_0));
        }
    }
    assert(a =~= b);
}

proof fn children_insert(v: JsonV, m: Map<Seq<char>, JsonV>, k: Seq<char>, x: JsonV)
    ensures
        children_v(v, m.insert(k, x)) == if dropped_v(v, k) {
            children_v(v, m)
        } else {
            children_v(v, m).insert(k, child_v(v, k, x))
        },
{
    if dropped_v(v, k) {
        assert(children_v(v, m.insert(k, x)) =~= children_v(v, m));
    } else {
        assert(children_v(v, m.insert(k, x)) =~= children_v(v, m).insert(k, child_v(v, k, x)));
    }
}

/// An input item as Codex takes it.
pub fn normalize_input_item(value: &Json) -> (r: Json)
    ensures
        r@ == item_v(value@),
    decreases value,
{
    match value {
        Json::Obj(fields) => {
            let ghost v = value@;
            let system = match value.get_str("role") {
                Some(role) => same(role, "system"),
                None => false,
            };
            let image = match value.get_str("type") {
                Some(kind) => same(kind, "input_image"),
                None => false,
            };
            let mut out: Vec<(String, Json)> = Vec::new();
            let mut i: usize = 0;
            assert(children_v(v, json::fields_v(fields@.take(0))) =~= json::fields_v(out@));
            while i < fields.len()
                invariant
                    i <= fields@.len(),
                    *value == Json::Obj(*fields),
                    v == value@,
                    system == is_system_v(v),
                    image == (v.get_text("type"@) == Some("input_image"@)),
                    json::fields_v(out@) == children_v(v, json::fields_v(fields@.take(i as int))),
                decreases fields@.len() - i,
            {
                let name = &fields[i].0;
                let child = &fields[i].1;
                proof {
                    assert(fields@.take(i + 1).drop_last() =~= fields@.take(i as int));
                    assert(fields@.take(i + 1).last() == fields@[i as int]);
                    children_insert(
                        v,
                        json::fields_v(fields@.take(i as int)),
                        name@,
                        child@,
                    );
                    json::member_smaller(*value, *fields, i as int);
                }
                if !same(name, "id") && !(image && same(name, "detail")) {
                    let new = if system && same(name, "role") {
                        Json::str("developer")
                    } else {
                        match child {
                            Json::Arr(items) => {
                                proof {
                                    assert(decreases_to!(*child => child->Arr_0));
                                }
                                Json::array(normalize_items(items))
                            },
                            _ => child.copy(),
                        }
                    };
                    let entry = (text::owned(name), new);
                    proof {
                        assert(out@.push(entry).drop_last() =~= out@);
                    }
                    out.push(entry);
                }
                i += 1;
            }
            proof {
                assert(fields@.take(i as int) =~= fields@);
                json::names_are_members(fields@, "id"@);
                item_is_children(v, json::fields_v(fields@));
            }
            Json::Obj(out)
        },
        _ => value.copy(),
    }
}

/// The input items as Codex takes them.
pub fn normalize_items(items: &Vec<Json>) -> (r: Vec<Json>)
    ensures
        json::items_v(r@) == all_items_v(json::items_v(items@)),
    decreases items,
{
    let mut out: Vec<Json> = Vec::new();
    let mut i: usize = 0;
    let ghost all = all_items_v(json::items_v(items@));
    while i < items.len()
        invariant
            i <= items@.len(),
            all == all_items_v(json::items_v(items@)),
            json::items_v(out@) == all.take(i as int),
        decreases items@.len() - i,
    {
        proof {
            assert(decreases_to!(items => items@));
            assert(decreases_to!(items@ => items@[i as int]));
        }
        let item = normalize_input_item(&items[i]);
        json::push_item(&mut out, item);
        proof {
            json::items_len(items@);
            json::items_at(items@, i as int);
            assert(all[i as int] == item@);
            assert(all.take(i + 1) =~= all.take(i as int).push(all[i as int]));
        }
        i += 1;
    }
    proof {
        json::items_len(items@);
        assert(all.take(i as int) =~= all);
    }
    out
}

/// A message with one text.
pub open spec fn message_v(role: Seq<char>, s: Seq<char>) -> JsonV {
    json::empty_v().with("type"@, JsonV::Str("message"@)).with("role"@, JsonV::Str(role)).with(
        "content"@,
        JsonV::Arr(
            seq![
                json::empty_v().with("type"@, JsonV::Str("input_text"@)).with(
                    "text"@,
                    JsonV::Str(s),
                ),
            ],
        ),
    )
}

pub fn message(role: &str, s: &str) -> (r: Json)
    ensures
        r@ == message_v(role@, s@),
{
    let part = Json::object().with("type", Json::str("input_text")).with("text", Json::str(s));
    let mut content: Vec<Json> = Vec::new();
    assert(json::items_v(content@) =~= Seq::<JsonV>::empty());
    json::push_item(&mut content, part);
    assert(json::items_v(content@) =~= seq![part@]);
    Json::object().with("type", Json::str("message")).with("role", Json::str(role)).with(
        "content",
        Json::array(content),
    )
}

/// The items of an input: those of a list, a text as a message of the user,
/// anything else as it is.
pub open spec fn input_v(input: Option<JsonV>) -> Seq<JsonV> {
    match input {
        Some(JsonV::Arr(items)) => items,
        Some(JsonV::Str(s)) => if s.len() > 0 {
            seq![message_v("user"@, s)]
        } else {
            seq![JsonV::Str(s)]
        },
        Some(JsonV::Null) => Seq::empty(),
        None => Seq::empty(),
        Some(v) => seq![v],
    }
}

pub fn input_items(input: Option<Json>) -> (r: Vec<Json>)
    ensures
        json::items_v(r@) == input_v(json::opt_owned(input)),
{
    let mut out: Vec<Json> = Vec::new();
    assert(json::items_v(out@) =~= Seq::<JsonV>::empty());
    match input {
        None => {},
        Some(value) => {
            let one = match value {
                Json::Arr(items) => {
                    return items;
                },
                Json::Null => {
                    return out;
                },
                Json::Str(s) => if !s.as_str().is_empty() {
                    message("user", &s)
                } else {
                    Json::Str(s)
                },
                other => other,
            };
            json::push_item(&mut out, one);
            assert(json::items_v(out@) =~= seq![one@]);
        },
    }
    out
}

/// The members that a request may have.
pub open spec fn allowed_v() -> Seq<Seq<char>> {
    seq![
        "client_metadata"@,
        "include"@,
        "input"@,
        "instructions"@,
        "model"@,
        "parallel_tool_calls"@,
        "prompt_cache_key"@,
        "prompt_cache_options"@,
        "prompt_cache_retention"@,
        "reasoning"@,
        "service_tier"@,
        "store"@,
        "stream"@,
        "stream_options"@,
        "text"@,
        "tool_choice"@,
        "tools"@,
    ]
}

/// The named members of an object that are not null.
pub open spec fn pick_v(body: JsonV, names: Seq<Seq<char>>) -> JsonV
    decreases names.len(),
{
    if names.len() == 0 {
        json::empty_v()
    } else {
        let rest = pick_v(body, names.drop_last());
        match body.get(names.last()) {
            Some(v) => if v is Null {
                rest
            } else {
                rest.with(names.last(), v)
            },
            None => rest,
        }
    }
}

fn pick(body: &Json, names: &[&str]) -> (r: Json)
    ensures
        r@ == pick_v(body@, headers::names_v(names@)),
{
    let ghost all = headers::names_v(names@);
    let mut out = Json::object();
    let mut i: usize = 0;
    while i < names.len()
        invariant
            i <= names@.len(),
            all == headers::names_v(names@),
            out@ == pick_v(body@, all.take(i as int)),
        decreases names@.len() - i,
    {
        proof {
            assert(all.take(i + 1).drop_last() =~= all.take(i as int));
            assert(all.take(i + 1).last() == names@[i as int]@);
        }
        if let Some(v) = body.get(names[i]) {
            if !v.is_null() {
                out.set(names[i], v.copy());
            }
        }
        i += 1;
    }
    assert(all.take(i as int) =~= all);
    out
}

fn allowed(body: &Json) -> (r: Json)
    ensures
        r@ == pick_v(body@, allowed_v()),
{
    let names = [
        "client_metadata",
        "include",
        "input",
        "instructions",
        "model",
        "parallel_tool_calls",
        "prompt_cache_key",
        "prompt_cache_options",
        "prompt_cache_retention",
        "reasoning",
        "service_tier",
        "store",
        "stream",
        "stream_options",
        "text",
        "tool_choice",
        "tools",
    ];
    assert(headers::names_v(names@) =~= allowed_v());
    pick(body, &names)
}

pub open spec fn tail_v(s: Seq<char>) -> Seq<char> {
    s + ":0"@
}

/// The client's metadata as Codex takes it: only texts, with the thread named.
pub open spec fn metadata_v(m: Map<Seq<char>, JsonV>, thread: Seq<char>) -> JsonV {
    JsonV::Obj(strings_v(m)).without(
        "ws_request_header_x_openai_internal_codex_responses_lite"@,
    ).with("session_id"@, JsonV::Str(thread)).with("thread_id"@, JsonV::Str(thread)).with(
        "window_id"@,
        JsonV::Str(tail_v(thread)),
    )
}

/// The members that are texts.
pub open spec fn strings_v(m: Map<Seq<char>, JsonV>) -> Map<Seq<char>, JsonV> {
    Map::new(|k: Seq<char>| m.contains_key(k) && m[k] is Str, |k: Seq<char>| m[k])
}

fn strings(value: &Json, fields: &Vec<(String, Json)>) -> (r: Json)
    requires
        *value == Json::Obj(*fields),
    ensures
        r@ == JsonV::Obj(strings_v(json::fields_v(fields@))),
{
    let ghost m = json::fields_v(fields@);
    let mut out = Json::object();
    let mut i: usize = 0;
    let ghost mut done = Map::<Seq<char>, JsonV>::empty();
    while i < fields.len()
        invariant
            i <= fields@.len(),
            *value == Json::Obj(*fields),
            m == json::fields_v(fields@),
            out@ == JsonV::Obj(done),
            forall|k: Seq<char>| #[trigger]
                done.contains_key(k) ==> m.contains_key(k) && m[k] is Str && done[k] == m[k],
            forall|j: int|
                0 <= j < i && m[(#[trigger] fields@[j]).0@] is Str ==> done.contains_key(
                    fields@[j].0@,
                ),
        decreases fields@.len() - i,
    {
        let name = &fields[i].0;
        proof {
            json::names_are_members(fields@, name@);
            assert(value@ == JsonV::Obj(m));
        }
        if let Some(Json::Str(s)) = value.get(name) {
            out.set(name, Json::str(s));
            proof {
                done = done.insert(name@, m[name@]);
            }
        }
        i += 1;
    }
    proof {
        assert forall|k: Seq<char>| strings_v(m).contains_key(k) implies done.contains_key(k) by {
            json::names_are_members(fields@, k);
            let j = choose|j: int| 0 <= j < fields@.len() && (#[trigger] fields@[j]).0@ == k;
            assert(m[fields@[j].0@] is Str);
        }
        assert(done =~= strings_v(m));
    }
    out
}

fn metadata(value: &Json, thread: &str) -> (r: Option<Json>)
    ensures
        match r {
            Some(x) => value@ is Obj && x@ == metadata_v(value@->Obj_0, thread@),
            None => !(value@ is Obj),
        },
{
    match value {
        Json::Obj(fields) => {
            let mut out = strings(value, fields);
            out.take("ws_request_header_x_openai_internal_codex_responses_lite");
            out.set("session_id", Json::str(thread));
            out.set("thread_id", Json::str(thread));
            out.set("window_id", Json::string(text::cat(thread, ":0")));
            Some(out)
        },
        _ => None,
    }
}

/// Whether a tool choice can be passed on as it is.
pub open spec fn choice_v(v: JsonV) -> bool {
    match v {
        JsonV::Str(s) => {
            let word = text::lower_v(text::trim_v(s));
            word == "auto"@ || word == "none"@ || word == "required"@
        },
        JsonV::Obj(_) => match v.get_text("type"@) {
            Some(kind) => text::trim_v(kind).len() > 0,
            None => false,
        },
        _ => false,
    }
}

fn choice(v: &Json) -> (r: bool)
    ensures
        r == choice_v(v@),
{
    match v {
        Json::Str(s) => {
            let word = text::lower(&text::trim(s));
            same(&word, "auto") || same(&word, "none") || same(&word, "required")
        },
        Json::Obj(_) => match v.get_str("type") {
            Some(kind) => !text::trim(kind).as_str().is_empty(),
            None => false,
        },
        _ => false,
    }
}

pub open spec fn encrypted_v() -> JsonV {
    JsonV::Str("reasoning.encrypted_content"@)
}

/// A list that asks for the encrypted reasoning too.
pub open spec fn include_v(list: Seq<JsonV>) -> Seq<JsonV> {
    if list.contains(encrypted_v()) {
        list
    } else {
        list.push(encrypted_v())
    }
}

fn include_reasoning(list: &Vec<Json>) -> (r: Vec<Json>)
    ensures
        json::items_v(r@) == include_v(json::items_v(list@)),
{
    let ghost all = json::items_v(list@);
    let mut i: usize = 0;
    while i < list.len()
        invariant
            i <= list@.len(),
            all == json::items_v(list@),
            forall|k: int| 0 <= k < i ==> all[k] != encrypted_v(),
        decreases list@.len() - i,
    {
        proof {
            json::items_len(list@);
            json::items_at(list@, i as int);
        }
        if let Some(s) = list[i].as_str() {
            if same(s, "reasoning.encrypted_content") {
                assert(all[i as int] == encrypted_v());
                return json::copy_items(list);
            }
        }
        i += 1;
    }
    proof {
        json::items_len(list@);
    }
    let mut out = json::copy_items(list);
    json::push_item(&mut out, Json::str("reasoning.encrypted_content"));
    out
}

/// The list in a member, empty where there is none; `None` where it is no list.
pub open spec fn list_or_empty_v(v: Option<JsonV>) -> Option<Seq<JsonV>> {
    match v {
        None => Some(Seq::empty()),
        Some(JsonV::Arr(items)) => Some(items),
        Some(_) => None,
    }
}

pub open spec fn cached_v(body: JsonV, key: Option<Seq<char>>) -> JsonV {
    match key {
        Some(k) => body.or_with("prompt_cache_key"@, JsonV::Str(k)),
        None => body,
    }
}

pub open spec fn model_text_v(body: JsonV) -> Seq<char> {
    match body.get_text("model"@) {
        Some(s) => s,
        None => Seq::empty(),
    }
}

/// The body that Codex takes for any model.
pub open spec fn base_v(value: JsonV, identity: IdentityV) -> Result<JsonV, Seq<char>> {
    if !value.is_obj() {
        Err("request body must be a JSON object"@)
    } else {
        let picked = pick_v(value, allowed_v());
        let bad = cache::cache_error_v(picked, model_text_v(picked));
        let keyed = cached_v(picked.with("store"@, JsonV::Bool(false)), identity.cache_key);
        let chosen = keyed.or_with("tool_choice"@, JsonV::Str("auto"@));
        let list = list_or_empty_v(chosen.get("include"@));
        if bad is Some {
            Err(bad->0)
        } else if keyed.get("tool_choice"@) is Some && !choice_v(keyed.get("tool_choice"@)->0) {
            Err("invalid tool_choice"@)
        } else if list is None {
            Err("include must be an array"@)
        } else {
            let full = chosen.with("include"@, JsonV::Arr(include_v(list->0)));
            let put = full.with("input"@, JsonV::Arr(all_items_v(input_v(full.get("input"@)))));
            match put.get("client_metadata"@) {
                None => Ok(put),
                Some(JsonV::Obj(m)) => Ok(
                    put.with("client_metadata"@, metadata_v(m, identity.thread_id)),
                ),
                Some(_) => Err("client_metadata must be an object"@),
            }
        }
    }
}

pub open spec fn is_tools_v(item: JsonV) -> bool {
    item.get_text("type"@) == Some("additional_tools"@)
}

pub open spec fn tools_of_v(item: JsonV) -> Seq<JsonV> {
    match item.get_list("tools"@) {
        Some(tools) => tools,
        None => Seq::empty(),
    }
}

/// The tools of a request: `top`, or else those of the first item that brings
/// some.
pub open spec fn adopted_v(top: Seq<JsonV>, items: Seq<JsonV>) -> Seq<JsonV>
    decreases items.len(),
{
    if items.len() == 0 {
        top
    } else {
        let before = adopted_v(top, items.drop_last());
        if before.len() == 0 && is_tools_v(items.last()) {
            tools_of_v(items.last())
        } else {
            before
        }
    }
}

/// The items that bring no tools.
pub open spec fn other_items_v(items: Seq<JsonV>) -> Seq<JsonV>
    decreases items.len(),
{
    if items.len() == 0 {
        Seq::empty()
    } else if is_tools_v(items.last()) {
        other_items_v(items.drop_last())
    } else {
        other_items_v(items.drop_last()).push(items.last())
    }
}

pub open spec fn tools_item_v(tools: Seq<JsonV>) -> JsonV {
    json::empty_v().with("type"@, JsonV::Str("additional_tools"@)).with(
        "role"@,
        JsonV::Str("developer"@),
    ).with("tools"@, JsonV::Arr(tools))
}

pub fn tools_item(tools: Vec<Json>) -> (r: Json)
    ensures
        r@ == tools_item_v(json::items_v(tools@)),
{
    Json::object().with("type", Json::str("additional_tools")).with(
        "role",
        Json::str("developer"),
    ).with("tools", Json::array(tools))
}

pub open spec fn object_or_empty_v(v: Option<JsonV>) -> JsonV {
    match v {
        Some(v) => v,
        None => json::empty_v(),
    }
}

/// The body that Codex takes for a model of the Responses Lite kind: the tools
/// stand at the head of the input.
pub open spec fn lite_v(body: JsonV) -> Result<JsonV, Seq<char>> {
    let reasoning = object_or_empty_v(body.get("reasoning"@));
    let text = object_or_empty_v(body.get("text"@));
    let top = list_or_empty_v(body.get("tools"@));
    let items = match body.get_list("input"@) {
        Some(items) => items,
        None => Seq::empty(),
    };
    if !reasoning.is_obj() {
        Err("reasoning must be an object"@)
    } else if !text.is_obj() {
        Err("text must be an object"@)
    } else if top is None {
        Err("tools must be an array"@)
    } else {
        Ok(
            body.without("tools"@).with("parallel_tool_calls"@, JsonV::Bool(false)).with(
                "reasoning"@,
                reasoning.with("context"@, JsonV::Str("all_turns"@)),
            ).with("text"@, text.or_with("verbosity"@, JsonV::Str("low"@))).with(
                "input"@,
                JsonV::Arr(
                    seq![tools_item_v(adopted_v(top->0, items))] + other_items_v(items),
                ),
            ).or_with("instructions"@, JsonV::Str(Seq::empty())),
        )
    }
}

/// The body that Codex takes.
pub open spec fn compat_v(value: JsonV, identity: IdentityV, lite: bool) -> Result<
    JsonV,
    Seq<char>,
> {
    match base_v(value, identity) {
        Err(e) => Err(e),
        Ok(body) => if lite {
            lite_v(body)
        } else {
            Ok(body)
        },
    }
}

pub open spec fn result_v(r: Result<Json, String>) -> Result<JsonV, Seq<char>> {
    match r {
        Ok(v) => Ok(v@),
        Err(e) => Err(e@),
    }
}

fn base_body(value: &Json, identity: &UpstreamIdentity) -> (r: Result<Json, String>)
    ensures
        result_v(r) == base_v(value@, identity@),
{
    if !value.is_object() {
        return Err(text::owned("request body must be a JSON object"));
    }
    let mut body = allowed(value);
    let model = match body.get_str("model") {
        Some(s) => text::owned(s),
        None => String::new(),
    };
    match validate_prompt_cache_fields(&body, &model) {
        Ok(_) => {},
        Err(e) => {
            return Err(e);
        },
    }
    body.set("store", Json::bool(false));
    if let Some(key) = &identity.cache_key {
        body.set_default("prompt_cache_key", Json::str(key));
    }
    if let Some(v) = body.get("tool_choice") {
        if !choice(v) {
            return Err(text::owned("invalid tool_choice"));
        }
    }
    body.set_default("tool_choice", Json::str("auto"));
    let list = match body.get("include") {
        None => {
            let none: Vec<Json> = Vec::new();
            assert(json::items_v(none@) =~= Seq::<JsonV>::empty());
            none
        },
        Some(v) => match v.as_array() {
            Some(list) => json::copy_items(list),
            None => {
                return Err(text::owned("include must be an array"));
            },
        },
    };
    body.set("include", Json::array(include_reasoning(&list)));
    let ghost full = body@;
    let input = body.take("input");
    let items = input_items(input);
    body.set("input", Json::array(normalize_items(&items)));
    proof {
        json::put_back(
            full,
            "input"@,
            JsonV::Arr(all_items_v(input_v(full.get("input"@)))),
        );
    }
    let new = match body.get("client_metadata") {
        None => None,
        Some(v) => match metadata(v, &identity.thread_id) {
            Some(m) => Some(m),
            None => {
                return Err(text::owned("client_metadata must be an object"));
            },
        },
    };
    if let Some(m) = new {
        body.set("client_metadata", m);
    }
    Ok(body)
}

fn is_tools(item: &Json) -> (r: bool)
    ensures
        r == is_tools_v(item@),
{
    match item.get_str("type") {
        Some(kind) => same(kind, "additional_tools"),
        None => false,
    }
}

/// Takes the tools out of the input items, and puts them at its head.
fn adopt(top: Vec<Json>, items: Vec<Json>) -> (r: Vec<Json>)
    ensures
        json::items_v(r@) == seq![
            tools_item_v(adopted_v(json::items_v(top@), json::items_v(items@))),
        ] + other_items_v(json::items_v(items@)),
{
    let ghost first = json::items_v(top@);
    let ghost all = json::items_v(items@);
    let mut tools = top;
    let mut rest: Vec<Json> = Vec::new();
    let mut i: usize = 0;
    assert(json::items_v(rest@) =~= Seq::<JsonV>::empty());
    while i < items.len()
        invariant
            i <= items@.len(),
            all == json::items_v(items@),
            json::items_v(tools@) == adopted_v(first, all.take(i as int)),
            json::items_v(rest@) == other_items_v(all.take(i as int)),
        decreases items@.len() - i,
    {
        proof {
            json::items_len(items@);
            json::items_at(items@, i as int);
            json::items_len(tools@);
            assert(all.take(i + 1).drop_last() =~= all.take(i as int));
            assert(all.take(i + 1).last() == items@[i as int]@);
        }
        if is_tools(&items[i]) {
            if tools.len() == 0 {
                tools = match items[i].get_array("tools") {
                    Some(v) => json::copy_items(v),
                    None => {
                        let none: Vec<Json> = Vec::new();
                        assert(json::items_v(none@) =~= Seq::<JsonV>::empty());
                        none
                    },
                };
            }
        } else {
            json::push_item(&mut rest, items[i].copy());
        }
        i += 1;
    }
    proof {
        json::items_len(items@);
        assert(all.take(i as int) =~= all);
    }
    let mut out: Vec<Json> = Vec::new();
    assert(json::items_v(out@) =~= Seq::<JsonV>::empty());
    json::push_item(&mut out, tools_item(tools));
    assert(json::items_v(out@) =~= seq![tools_item_v(adopted_v(first, all))]);
    json::append_items(&mut out, rest);
    out
}

fn lite_body(value: Json) -> (r: Result<Json, String>)
    ensures
        result_v(r) == lite_v(value@),
{
    let mut body = value;
    let ghost before = body@;
    let mut reasoning = match body.get("reasoning") {
        Some(v) => v.copy(),
        None => Json::object(),
    };
    if !reasoning.is_object() {
        return Err(text::owned("reasoning must be an object"));
    }
    let mut style = match body.get("text") {
        Some(v) => v.copy(),
        None => Json::object(),
    };
    if !style.is_object() {
        return Err(text::owned("text must be an object"));
    }
    let items = match body.get_array("input") {
        Some(v) => json::copy_items(v),
        None => {
            let none: Vec<Json> = Vec::new();
            assert(json::items_v(none@) =~= Seq::<JsonV>::empty());
            none
        },
    };
    let top = match body.take("tools") {
        None => {
            let none: Vec<Json> = Vec::new();
            assert(json::items_v(none@) =~= Seq::<JsonV>::empty());
            none
        },
        Some(Json::Arr(v)) => v,
        Some(_) => {
            return Err(text::owned("tools must be an array"));
        },
    };
    body.set("parallel_tool_calls", Json::bool(false));
    reasoning.set("context", Json::str("all_turns"));
    body.set("reasoning", reasoning);
    style.set_default("verbosity", Json::str("low"));
    body.set("text", style);
    body.set("input", Json::array(adopt(top, items)));
    proof {
        reveal_strlit("");
        assert(""@ =~= Seq::<char>::empty());
    }
    body.set_default("instructions", Json::str(""));
    Ok(body)
}

/// The body that Codex takes for a request that has been read.
pub fn compat_body(value: &Json, identity: &UpstreamIdentity, lite: bool) -> (r: Result<
    Json,
    String,
>)
    ensures
        result_v(r) == compat_v(value@, identity@, lite),
{
    match base_body(value, identity) {
        Err(e) => Err(e),
        Ok(body) => if lite {
            lite_body(body)
        } else {
            Ok(body)
        },
    }
}

/// The body that Codex takes, as bytes.
pub open spec fn compat_bytes_v(parsed: Option<JsonV>, identity: IdentityV, lite: bool) -> Result<
    Seq<u8>,
    Seq<char>,
> {
    match parsed {
        None => Err("decode Codex request body"@),
        Some(value) => match compat_v(value, identity, lite) {
            Err(e) => Err(e),
            Ok(body) => Ok(sse::bytes_v(json::json_text(body))),
        },
    }
}

pub open spec fn bytes_result_v(r: Result<Vec<u8>, String>) -> Result<Seq<u8>, Seq<char>> {
    match r {
        Ok(v) => Ok(v@),
        Err(e) => Err(e@),
    }
}

/// The body that Codex takes for the request body `raw`.
pub fn codex_compat_body_for_identity(
    raw: &[u8],
    identity: &UpstreamIdentity,
    lite: bool,
) -> (r: Result<Vec<u8>, String>)
    ensures
        bytes_result_v(r) == compat_bytes_v(json::parsed_bytes(raw@), identity@, lite),
{
    match json::parse_bytes(raw) {
        None => Err(text::owned("decode Codex request body")),
        Some(value) => match compat_body(&value, identity, lite) {
            Err(e) => Err(e),
            Ok(body) => Ok(sse::bytes_of(&body.encode())),
        },
    }
}

/// The identities of a session that is all that is known of a request.
pub open spec fn session_identity_v(session: Seq<char>) -> IdentityV {
    IdentityV {
        thread_id: session,
        request_id: session,
        cache_key: if 0 < session.len() <= 64 {
            Some(session)
        } else {
            None
        },
    }
}

/// The body that Codex takes for the request body `raw` in a session.
pub fn codex_compat_body(raw: &[u8], session: &str, lite: bool) -> (r: Result<Vec<u8>, String>)
    ensures
        bytes_result_v(r) == compat_bytes_v(
            json::parsed_bytes(raw@),
            session_identity_v(session@),
            lite,
        ),
{
    let key = if !session.is_empty() && valid_cache_key(session) {
        Some(text::owned(session))
    } else {
        None
    };
    let identity = UpstreamIdentity {
        thread_id: text::owned(session),
        request_id: text::owned(session),
        cache_key: key,
    };
    codex_compat_body_for_identity(raw, &identity, lite)
}

} // verus!
