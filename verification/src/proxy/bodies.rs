//! What reaches Codex of a request: its members one by one, its tools and its
//! input.

use vstd::prelude::*;

use crate::json;
use crate::json::JsonV;
use crate::modelmap::EntryV;
use crate::provider::Provider;
use crate::proxy::codex;
use crate::proxy::identity::IdentityV;
use crate::proxy::laws;
use crate::proxy::request;
use crate::text;
use crate::words;

verus! {

/// The members that Codex takes as the client sent them.
pub open spec fn passed_v(k: Seq<char>) -> bool {
    ||| k == "model"@
    ||| k == "service_tier"@
    ||| k == "stream"@
    ||| k == "stream_options"@
    ||| k == "prompt_cache_options"@
    ||| k == "prompt_cache_retention"@
}

/// The members that Codex takes as the client sent them, where the model is not
/// of the Responses Lite kind.
pub open spec fn passed_plainly_v(k: Seq<char>) -> bool {
    ||| k == "instructions"@
    ||| k == "parallel_tool_calls"@
    ||| k == "reasoning"@
    ||| k == "text"@
    ||| k == "tools"@
}

proof fn passed_names_are_allowed(k: Seq<char>)
    requires
        passed_v(k) || passed_plainly_v(k) || k == "include"@ || k == "input"@ || k
            == "client_metadata"@ || k == "prompt_cache_key"@ || k == "tool_choice"@,
    ensures
        codex::allowed_v().contains(k),
{
    let a = codex::allowed_v();
    assert(a[0] == "client_metadata"@);
    assert(a[1] == "include"@);
    assert(a[2] == "input"@);
    assert(a[3] == "instructions"@);
    assert(a[4] == "model"@);
    assert(a[5] == "parallel_tool_calls"@);
    assert(a[6] == "prompt_cache_key"@);
    assert(a[7] == "prompt_cache_options"@);
    assert(a[8] == "prompt_cache_retention"@);
    assert(a[9] == "reasoning"@);
    assert(a[10] == "service_tier"@);
    assert(a[12] == "stream"@);
    assert(a[13] == "stream_options"@);
    assert(a[14] == "text"@);
    assert(a[15] == "tool_choice"@);
    assert(a[16] == "tools"@);
}

/// A member that is there and not null.
pub open spec fn given_v(value: JsonV, k: Seq<char>) -> Option<JsonV> {
    match value.get(k) {
        Some(v) => if v is Null {
            None
        } else {
            Some(v)
        },
        None => None,
    }
}

/// The body before the Responses Lite changes, member by member.
proof fn base_members(value: JsonV, identity: IdentityV, k: Seq<char>)
    ensures
        codex::base_v(value, identity) matches Ok(b) ==> {
            &&& b.is_obj()
            &&& passed_v(k) || passed_plainly_v(k) ==> b.get(k) == given_v(value, k)
            &&& b.get("input"@) == Some(
                JsonV::Arr(codex::all_items_v(codex::input_v(given_v(value, "input"@)))),
            )
        },
{
    words::requests();
    laws::picked_members(value, codex::allowed_v(), k);
    laws::picked_members(value, codex::allowed_v(), "input"@);
    passed_names_are_allowed("input"@);
    if passed_v(k) || passed_plainly_v(k) {
        passed_names_are_allowed(k);
    }
}

/// The model, the tier, the stream settings and the prompt-cache settings of a
/// request reach Codex unchanged, and so do the instructions, the tools, the
/// reasoning and text settings, unless the model is of the Responses Lite kind.
pub proof fn members_are_kept(value: JsonV, identity: IdentityV, lite: bool, k: Seq<char>)
    requires
        passed_v(k) || (!lite && passed_plainly_v(k)),
    ensures
        codex::compat_v(value, identity, lite) matches Ok(body) ==> body.get(k) == given_v(value, k),
{
    words::requests();
    base_members(value, identity, k);
}

/// Where no tool is chosen, Codex chooses; where there is no key for the prompt
/// cache, that of the identities is used.
pub proof fn defaults_are_filled(value: JsonV, identity: IdentityV, lite: bool)
    ensures
        codex::compat_v(value, identity, lite) matches Ok(body) ==> {
            &&& given_v(value, "tool_choice"@) is None ==> body.get_text("tool_choice"@) == Some(
                "auto"@,
            )
            &&& given_v(value, "prompt_cache_key"@) is None ==> match identity.cache_key {
                Some(key) => body.get_text("prompt_cache_key"@) == Some(key),
                None => body.get("prompt_cache_key"@) is None,
            }
        },
{
    words::requests();
    laws::picked_members(value, codex::allowed_v(), "tool_choice"@);
    laws::picked_members(value, codex::allowed_v(), "prompt_cache_key"@);
}

/// All that a client asked for in addition is asked for, in order, and the
/// encrypted reasoning is asked for in any case, once.
pub proof fn additions_are_kept(value: JsonV, identity: IdentityV, lite: bool)
    ensures
        codex::compat_v(value, identity, lite) matches Ok(body) ==> {
            let wanted = match given_v(value, "include"@) {
                Some(v) => v.list()->0,
                None => Seq::empty(),
            };
            let encrypted = JsonV::Str("reasoning.encrypted_content"@);
            &&& body.get_list("include"@) matches Some(list)
            &&& list.contains(encrypted)
            &&& wanted.is_prefix_of(list)
            &&& list.len() <= wanted.len() + 1
            &&& wanted.contains(encrypted) ==> list == wanted
        },
{
    words::requests();
    laws::picked_members(value, codex::allowed_v(), "include"@);
    passed_names_are_allowed("include"@);
    if let Ok(body) = codex::compat_v(value, identity, lite) {
        let list = body.get_list("include"@)->0;
        let encrypted = JsonV::Str("reasoning.encrypted_content"@);
        if !list.drop_last().contains(encrypted) || list.len() > 0 {
            assert(list.len() > 0 ==> list[list.len() - 1] == list.last());
        }
    }
}

/// Of the client's metadata the texts are kept, and the session is named in it.
pub proof fn metadata_is_kept(
    value: JsonV,
    identity: IdentityV,
    lite: bool,
    m: Map<Seq<char>, JsonV>,
    k: Seq<char>,
)
    requires
        value.get("client_metadata"@) == Some(JsonV::Obj(m)),
    ensures
        codex::compat_v(value, identity, lite) matches Ok(body) ==> {
            &&& body.get("client_metadata"@) matches Some(data)
            &&& data.get_text("session_id"@) == Some(identity.thread_id)
            &&& data.get_text("thread_id"@) == Some(identity.thread_id)
            &&& data.get_text("window_id"@) == Some(identity.thread_id + ":0"@)
            &&& k != "session_id"@ && k != "thread_id"@ && k != "window_id"@ && k
                != "ws_request_header_x_openai_internal_codex_responses_lite"@ ==> data.get(k)
                == if m.contains_key(k) && m[k] is Str {
                Some(m[k])
            } else {
                None
            }
        },
{
    words::requests();
    laws::picked_members(value, codex::allowed_v(), "client_metadata"@);
    passed_names_are_allowed("client_metadata"@);
}

/// What becomes of an item of the input, or of an object in a list within one:
/// its members stay, but for its `id`, the `detail` of an image and the role of
/// the system, which is the developer's.
pub proof fn items_keep_their_members(m: Map<Seq<char>, JsonV>, k: Seq<char>)
    requires
        m.dom().finite(),
    ensures
        ({
            let item = JsonV::Obj(m);
            let sent = codex::item_v(item);
            let image = item.get_text("type"@) == Some("input_image"@);
            &&& sent.is_obj()
            &&& k == "id"@ || (k == "detail"@ && image) ==> sent.get(k) is None
            &&& k == "role"@ && item.get_text(k) == Some("system"@) ==> sent.get_text(k) == Some(
                "developer"@,
            )
            &&& k != "id"@ && !(k == "detail"@ && image) && !(k == "role"@ && item.get_text(k)
                == Some("system"@)) ==> match item.get(k) {
                Some(JsonV::Arr(list)) => {
                    &&& sent.get_list(k) matches Some(l)
                    &&& l.len() == list.len()
                    &&& forall|i: int|
                        0 <= i < list.len() ==> #[trigger] l[i] == codex::item_v(list[i])
                },
                Some(v) => sent.get(k) == Some(v),
                None => sent.get(k) is None,
            }
        }),
{
    words::requests();
}

/// What is no object is sent as it is.
pub proof fn plain_items_are_kept(item: JsonV)
    requires
        !item.is_obj(),
    ensures
        codex::item_v(item) == item,
{
}

/// The items of a list reach Codex in their order, each in its place; a text is
/// the message of a user.
pub proof fn inputs_are_kept(value: JsonV, identity: IdentityV)
    ensures
        codex::compat_v(value, identity, false) matches Ok(body) ==> {
            &&& body.get_list("input"@) matches Some(sent)
            &&& value.get_list("input"@) matches Some(items) ==> sent.len() == items.len()
                && forall|i: int|
                0 <= i < items.len() ==> #[trigger] sent[i] == codex::item_v(items[i])
            &&& value.get_text("input"@) matches Some(s) ==> s.len() > 0 ==> sent.len() == 1
                && tells_v(sent[0], "user"@, s)
            &&& given_v(value, "input"@) is None ==> sent.len() == 0
        },
{
    words::requests();
    base_members(value, identity, "input"@);
    if let Some(s) = value.get_text("input"@) {
        messages_are_kept("user"@, s);
    }
}

/// A message with one text.
pub open spec fn tells_v(item: JsonV, role: Seq<char>, s: Seq<char>) -> bool {
    &&& item.get_text("type"@) == Some("message"@)
    &&& item.get_text("role"@) == Some(role)
    &&& item.get_list("content"@) matches Some(parts)
    &&& parts.len() == 1
    &&& parts[0].get_text("type"@) == Some("input_text"@)
    &&& parts[0].get_text("text"@) == Some(s)
}

proof fn messages_are_kept(role: Seq<char>, s: Seq<char>)
    requires
        role != "system"@,
    ensures
        tells_v(codex::message_v(role, s), role, s),
        tells_v(codex::item_v(codex::message_v(role, s)), role, s),
        !codex::is_tools_v(codex::item_v(codex::message_v(role, s))),
{
    words::requests();
    let part = json::empty_v().with("type"@, JsonV::Str("input_text"@)).with(
        "text"@,
        JsonV::Str(s),
    );
    let item = codex::message_v(role, s);
    let p = part->Obj_0;
    let m = item->Obj_0;
    assert(p.dom().finite() && m.dom().finite());
    items_keep_their_members(p, "type"@);
    items_keep_their_members(p, "text"@);
    items_keep_their_members(m, "type"@);
    items_keep_their_members(m, "role"@);
    items_keep_their_members(m, "content"@);
}

/// An item that brings tools, or one that does not.
pub open spec fn brings_tools_v(item: JsonV) -> bool {
    item.get_text("type"@) == Some("additional_tools"@)
}

/// The item at the head of a Responses Lite input: the tools, from the developer.
pub open spec fn leads_with_v(item: JsonV, tools: Seq<JsonV>) -> bool {
    &&& item.get_text("type"@) == Some("additional_tools"@)
    &&& item.get_text("role"@) == Some("developer"@)
    &&& item.get_list("tools"@) == Some(tools)
}

proof fn adopted_keeps(top: Seq<JsonV>, items: Seq<JsonV>)
    requires
        top.len() > 0 || (forall|i: int|
            0 <= i < items.len() ==> !brings_tools_v(#[trigger] items[i])),
    ensures
        codex::adopted_v(top, items) == top,
    decreases items.len(),
{
    if items.len() > 0 {
        let d = items.drop_last();
        assert forall|i: int| top.len() == 0 && 0 <= i < d.len() implies !brings_tools_v(
            #[trigger] d[i],
        ) by {
            assert(d[i] == items[i]);
        }
        adopted_keeps(top, d);
        assert(items[items.len() - 1] == items.last());
    }
}

proof fn adopted_is_first(items: Seq<JsonV>, at: int, tools: Seq<JsonV>)
    requires
        0 <= at < items.len(),
        forall|i: int| 0 <= i < at ==> !brings_tools_v(#[trigger] items[i]),
        brings_tools_v(items[at]),
        items[at].get_list("tools"@) == Some(tools),
        tools.len() > 0,
    ensures
        codex::adopted_v(Seq::empty(), items) == tools,
    decreases items.len(),
{
    let none = Seq::<JsonV>::empty();
    let d = items.drop_last();
    assert forall|i: int| 0 <= i < d.len() && i < at implies !brings_tools_v(#[trigger] d[i]) by {
        assert(d[i] == items[i]);
    }
    if at == items.len() - 1 {
        adopted_keeps(none, d);
    } else {
        assert(d[at] == items[at]);
        adopted_is_first(d, at, tools);
    }
}

proof fn others_are_kept(items: Seq<JsonV>)
    ensures
        codex::other_items_v(items) == items.filter(|v: JsonV| !brings_tools_v(v)),
    decreases items.len(),
{
    reveal(Seq::filter);
    if items.len() > 0 {
        others_are_kept(items.drop_last());
    } else {
        assert(items.filter(|v: JsonV| !brings_tools_v(v)) =~= Seq::<JsonV>::empty());
    }
}

/// The input of a Responses Lite body: the tools at its head, and after them the
/// items that bring none, in their order.
pub proof fn tools_lead_the_input(value: JsonV, identity: IdentityV, items: Seq<JsonV>)
    requires
        value.get("input"@) == Some(JsonV::Arr(items)),
    ensures
        codex::compat_v(value, identity, true) matches Ok(body) ==> {
            let sent = codex::all_items_v(items);
            &&& body.get("tools"@) is None
            &&& body.get_list("input"@) matches Some(input)
            &&& input.len() > 0
            &&& input.skip(1) == sent.filter(|v: JsonV| !brings_tools_v(v))
            &&& value.get_list("tools"@) matches Some(tools) ==> tools.len() > 0 ==> leads_with_v(
                input[0],
                tools,
            )
            &&& (given_v(value, "tools"@) is None || value.get_list("tools"@) == Some(
                Seq::<JsonV>::empty(),
            )) && (forall|i: int| 0 <= i < sent.len() ==> !brings_tools_v(#[trigger] sent[i]))
                ==> leads_with_v(input[0], Seq::empty())
        },
{
    words::requests();
    base_members(value, identity, "tools"@);
    if let Ok(body) = codex::compat_v(value, identity, true) {
        let sent = codex::all_items_v(items);
        let top = codex::list_or_empty_v(given_v(value, "tools"@))->0;
        others_are_kept(sent);
        let input = body.get_list("input"@)->0;
        assert(input.skip(1) =~= codex::other_items_v(sent));
        if top.len() > 0 || (forall|i: int|
            0 <= i < sent.len() ==> !brings_tools_v(#[trigger] sent[i])) {
            adopted_keeps(top, sent);
        }
        assert(top.len() == 0 ==> top =~= Seq::<JsonV>::empty());
    }
}

/// Tools that a client brings in its input lead the input that is sent: those of
/// the first item that brings some, each as an item of the input is sent.
pub proof fn brought_tools_lead_the_input(
    value: JsonV,
    identity: IdentityV,
    items: Seq<JsonV>,
    at: int,
    m: Map<Seq<char>, JsonV>,
    tools: Seq<JsonV>,
)
    requires
        value.get("input"@) == Some(JsonV::Arr(items)),
        given_v(value, "tools"@) is None,
        0 <= at < items.len(),
        forall|i: int| 0 <= i < at ==> !brings_tools_v(codex::item_v(#[trigger] items[i])),
        items[at] == JsonV::Obj(m),
        m.dom().finite(),
        brings_tools_v(items[at]),
        items[at].get_list("tools"@) == Some(tools),
        tools.len() > 0,
    ensures
        codex::compat_v(value, identity, true) matches Ok(body) ==> {
            &&& body.get_list("input"@) matches Some(input)
            &&& input.len() > 0
            &&& input[0].get_text("type"@) == Some("additional_tools"@)
            &&& input[0].get_text("role"@) == Some("developer"@)
            &&& input[0].get_list("tools"@) matches Some(ts)
            &&& ts.len() == tools.len()
            &&& forall|i: int| 0 <= i < ts.len() ==> #[trigger] ts[i] == codex::item_v(tools[i])
        },
{
    words::requests();
    base_members(value, identity, "tools"@);
    let sent = codex::all_items_v(items);
    items_keep_their_members(m, "type"@);
    items_keep_their_members(m, "tools"@);
    assert(sent[at] == codex::item_v(items[at]));
    let ts = codex::item_v(items[at]).get_list("tools"@)->0;
    assert forall|i: int| 0 <= i < at implies !brings_tools_v(#[trigger] sent[i]) by {
        assert(sent[i] == codex::item_v(items[i]));
    }
    adopted_is_first(sent, at, ts);
}

/// The rest of a Responses Lite body: no calls in parallel, all turns as context,
/// texts of low verbosity unless the client wants others, and no instructions
/// beside those of the client.
pub proof fn lite_bodies_are_marked(value: JsonV, identity: IdentityV)
    ensures
        codex::compat_v(value, identity, true) matches Ok(body) ==> {
            &&& body.get("parallel_tool_calls"@) == Some(JsonV::Bool(false))
            &&& body.get("reasoning"@) matches Some(r) && r.get_text("context"@) == Some(
                "all_turns"@,
            )
            &&& body.get("text"@) matches Some(t) && t.get("verbosity"@) == match given_v(
                value,
                "text"@,
            ) {
                Some(given) => if given.get("verbosity"@) is Some {
                    given.get("verbosity"@)
                } else {
                    Some(JsonV::Str("low"@))
                },
                None => Some(JsonV::Str("low"@)),
            }
            &&& body.get("instructions"@) == match given_v(value, "instructions"@) {
                Some(v) => Some(v),
                None => Some(JsonV::Str(Seq::empty())),
            }
        },
{
    words::requests();
    base_members(value, identity, "reasoning"@);
    base_members(value, identity, "text"@);
    base_members(value, identity, "instructions"@);
}

/// What making a request ready leaves alone: all members but the model and how
/// the answer comes, and for a model of the Responses Lite kind those that it
/// takes another way.
pub proof fn plans_keep_members(body: JsonV, map: Seq<EntryV>, k: Seq<char>)
    requires
        k != "model"@,
        k != "stream"@,
        k != "store"@,
        k != "service_tier"@,
        k != "parallel_tool_calls"@,
    ensures
        request::plan_v(body, map) matches Ok(plan) ==> plan.provider == Provider::Kimi || (
        !plan.lite || (k != "client_metadata"@ && k != "reasoning"@ && k != "text"@ && k
            != "tools"@ && k != "instructions"@ && k != "input"@)) ==> plan.body.get(k)
            == body.get(k),
{
    words::requests();
}

/// A request that is ready names the model that serves it, is answered as the
/// client wants it, as a stream unless it says otherwise, and is not stored.
pub proof fn plans_are_addressed(body: JsonV, map: Seq<EntryV>)
    ensures
        request::plan_v(body, map) matches Ok(plan) ==> {
            let model = crate::catalog::model_v(crate::catalog::norm_v(plan.model).0);
            &&& body.get_text("model"@) matches Some(name)
            &&& plan.requested_model == text::trim_v(name)
            &&& plan.model == crate::modelmap::resolve_v(map, text::trim_v(name)).model
            &&& plan.mapped == crate::modelmap::resolve_v(map, text::trim_v(name)).mapped
            &&& plan.body.get_text("model"@) == Some(model.upstream_id)
            &&& plan.provider == model.provider
            &&& plan.lite == model.responses_lite
            &&& plan.body.get("stream"@) == Some(JsonV::Bool(plan.stream))
            &&& body.get("stream"@) == Some(JsonV::Bool(false)) <==> !plan.stream
            &&& plan.provider == Provider::Codex ==> plan.body.get("store"@) == Some(
                JsonV::Bool(false),
            )
            &&& plan.provider == Provider::Codex && !plan.lite ==> plan.body.get(
                "parallel_tool_calls"@,
            ) == match body.get("parallel_tool_calls"@) {
                Some(v) => Some(v),
                None => Some(JsonV::Bool(true)),
            }
            &&& plan.provider == Provider::Codex && body.get("service_tier"@) is Some
                ==> plan.body.get("service_tier"@) == body.get("service_tier"@)
            &&& !plan.fast && body.get("service_tier"@) is None ==> plan.body.get("service_tier"@)
                is None
        },
{
    words::requests();
}

/// The input of a request that is ready for a model of the Responses Lite kind:
/// its tools in one item, its instructions in a message of the developer, and
/// then its own input.
pub proof fn lite_plans_lead_with_tools(body: JsonV, map: Seq<EntryV>)
    ensures
        request::plan_v(body, map) matches Ok(plan) ==> plan.provider == Provider::Codex
            && plan.lite ==> {
            let tools = match body.get_list("tools"@) {
                Some(ts) => ts,
                None => Seq::empty(),
            };
            let told = match body.get_text("instructions"@) {
                Some(s) => s,
                None => Seq::empty(),
            };
            let t = if tools.len() > 0 {
                1int
            } else {
                0
            };
            let n = if text::trim_v(told).len() > 0 {
                t + 1
            } else {
                t
            };
            &&& plan.body.get("tools"@) is None
            &&& plan.body.get("instructions"@) is None
            &&& plan.body.get_list("input"@) matches Some(input)
            &&& input.len() >= n
            &&& tools.len() > 0 ==> leads_with_v(input[0], tools)
            &&& text::trim_v(told).len() > 0 ==> tells_v(input[t], "developer"@, told)
            &&& body.get_list("input"@) matches Some(items) ==> input.skip(n) == items
            &&& body.get_text("input"@) matches Some(s) ==> s.len() > 0 ==> input.len() == n + 1
                && tells_v(input[n], "user"@, s)
            &&& given_v(body, "input"@) is None ==> input.len() == n
        },
{
    words::requests();
    if let Ok(plan) = request::plan_v(body, map) {
        if plan.provider == Provider::Codex && plan.lite {
            assert(plan.body.get("input"@) == Some(
                JsonV::Arr(request::prefix_v(body) + codex::input_v(body.get("input"@))),
            ));
            let given = codex::input_v(body.get("input"@));
            let prefix = request::prefix_v(body);
            assert((prefix + given).skip(prefix.len() as int) =~= given);
        }
    }
}

/// The tools of a client reach Codex: for a model of the Responses Lite kind they
/// stand, one for one, in the first item of the input that is sent.
pub proof fn tools_reach_codex(
    body: JsonV,
    map: Seq<EntryV>,
    identity: IdentityV,
    tools: Seq<JsonV>,
)
    requires
        body.get("tools"@) == Some(JsonV::Arr(tools)),
        tools.len() > 0,
    ensures
        request::plan_v(body, map) matches Ok(plan) ==> plan.provider == Provider::Codex ==> (
        codex::compat_v(plan.body, identity, plan.lite) matches Ok(sent) ==> if plan.lite {
            &&& sent.get_list("input"@) matches Some(input)
            &&& input.len() > 0
            &&& input[0].get_text("type"@) == Some("additional_tools"@)
            &&& input[0].get_text("role"@) == Some("developer"@)
            &&& input[0].get_list("tools"@) matches Some(ts)
            &&& ts.len() == tools.len()
            &&& forall|i: int| 0 <= i < ts.len() ==> #[trigger] ts[i] == codex::item_v(tools[i])
        } else {
            sent.get("tools"@) == Some(JsonV::Arr(tools))
        }),
{
    words::requests();
    lite_plans_lead_with_tools(body, map);
    if let Ok(plan) = request::plan_v(body, map) {
        if plan.provider == Provider::Codex {
            if plan.lite {
                let input = plan.body.get_list("input"@)->0;
                let item = codex::tools_item_v(tools);
                assert(input[0] == item);
                let m = item->Obj_0;
                assert(m.dom().finite());
                brought_tools_lead_the_input(plan.body, identity, input, 0, m, tools);
            } else {
                plans_keep_members(body, map, "tools"@);
                members_are_kept(plan.body, identity, false, "tools"@);
            }
        }
    }
}

/// The instructions of a client reach Codex: for a model of the Responses Lite
/// kind as a message of the developer, right after the tools.
pub proof fn instructions_reach_codex(
    body: JsonV,
    map: Seq<EntryV>,
    identity: IdentityV,
    told: Seq<char>,
)
    requires
        body.get_text("instructions"@) == Some(told),
        text::trim_v(told).len() > 0,
    ensures
        request::plan_v(body, map) matches Ok(plan) ==> plan.provider == Provider::Codex ==> (
        codex::compat_v(plan.body, identity, plan.lite) matches Ok(sent) ==> if plan.lite {
            &&& sent.get_list("input"@) matches Some(input)
            &&& input.len() > 1
            &&& tells_v(input[1], "developer"@, told)
        } else {
            sent.get_text("instructions"@) == Some(told)
        }),
{
    words::requests();
    lite_plans_lead_with_tools(body, map);
    messages_are_kept("developer"@, told);
    if let Ok(plan) = request::plan_v(body, map) {
        if plan.provider == Provider::Codex {
            if plan.lite {
                let input = plan.body.get_list("input"@)->0;
                let sent = codex::all_items_v(input);
                let t = if body.get_list("tools"@) is Some && body.get_list("tools"@)->0.len() > 0 {
                    1int
                } else {
                    0
                };
                tools_lead_the_input(plan.body, identity, input);
                let f = |v: JsonV| !brings_tools_v(v);
                assert(input[t] == codex::message_v("developer"@, told));
                assert(sent[t] == codex::item_v(input[t]));
                assert(f(sent[t]));
                if t == 1 {
                    let item = codex::tools_item_v(body.get_list("tools"@)->0);
                    assert(input[0] == item);
                    assert(item->Obj_0.dom().finite());
                    items_keep_their_members(item->Obj_0, "type"@);
                    assert(!f(sent[0]));
                }
                filter_leads(sent, f, t);
                if let Ok(out) = codex::compat_v(plan.body, identity, true) {
                    let all = out.get_list("input"@)->0;
                    assert(all.skip(1)[0] == all[1]);
                }
            } else {
                plans_keep_members(body, map, "instructions"@);
                members_are_kept(plan.body, identity, false, "instructions"@);
            }
        }
    }
}

/// The first element that stays is the first of what stays.
proof fn filter_leads(s: Seq<JsonV>, f: spec_fn(JsonV) -> bool, t: int)
    requires
        0 <= t < s.len(),
        f(s[t]),
        forall|i: int| 0 <= i < t ==> !f(#[trigger] s[i]),
    ensures
        s.filter(f).len() > 0,
        s.filter(f)[0] == s[t],
    decreases s.len(),
{
    reveal(Seq::filter);
    let d = s.drop_last();
    if t == s.len() - 1 {
        assert forall|i: int| 0 <= i < d.len() implies !f(#[trigger] d[i]) by {
            assert(d[i] == s[i]);
        }
        filter_is_empty(d, f);
    } else {
        assert(d[t] == s[t]);
        assert forall|i: int| 0 <= i < t implies !f(#[trigger] d[i]) by {
            assert(d[i] == s[i]);
        }
        filter_leads(d, f, t);
    }
}

proof fn filter_is_empty(s: Seq<JsonV>, f: spec_fn(JsonV) -> bool)
    requires
        forall|i: int| 0 <= i < s.len() ==> !f(#[trigger] s[i]),
    ensures
        s.filter(f).len() == 0,
    decreases s.len(),
{
    reveal(Seq::filter);
    if s.len() > 0 {
        let d = s.drop_last();
        assert forall|i: int| 0 <= i < d.len() implies !f(#[trigger] d[i]) by {
            assert(d[i] == s[i]);
        }
        filter_is_empty(d, f);
        assert(!f(s[s.len() - 1]));
    }
}

} // verus!
