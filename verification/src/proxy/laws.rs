//! What holds of the requests that are sent.

use vstd::prelude::*;

use crate::json::JsonV;
use crate::modelmap;
use crate::modelmap::EntryV;
use crate::provider::Provider;
use crate::proxy::codex;
use crate::proxy::identity::IdentityV;
use crate::proxy::request;

verus! {

/// The names of members that are told apart below.
proof fn names_differ()
    ensures
        "tool_choice"@ != "store"@,
        "tool_choice"@ != "prompt_cache_key"@,
        "tool_choice"@ != "include"@,
        "tool_choice"@ != "input"@,
        "tool_choice"@ != "client_metadata"@,
        "tool_choice"@ != "tools"@,
        "tool_choice"@ != "parallel_tool_calls"@,
        "tool_choice"@ != "reasoning"@,
        "tool_choice"@ != "text"@,
        "tool_choice"@ != "instructions"@,
        "reasoning"@ != "store"@,
        "reasoning"@ != "prompt_cache_key"@,
        "reasoning"@ != "include"@,
        "reasoning"@ != "input"@,
        "reasoning"@ != "client_metadata"@,
        "reasoning"@ != "tools"@,
        "reasoning"@ != "parallel_tool_calls"@,
        "reasoning"@ != "text"@,
        "reasoning"@ != "instructions"@,
        "reasoning"@ != "model"@,
        "reasoning"@ != "stream"@,
        "reasoning"@ != "service_tier"@,
        "store"@ != "prompt_cache_key"@,
        "store"@ != "include"@,
        "store"@ != "input"@,
        "store"@ != "client_metadata"@,
        "store"@ != "tools"@,
        "store"@ != "parallel_tool_calls"@,
        "store"@ != "text"@,
        "store"@ != "instructions"@,
        "prompt_cache_key"@ != "include"@,
        "prompt_cache_key"@ != "input"@,
        "prompt_cache_key"@ != "client_metadata"@,
        "prompt_cache_key"@ != "tools"@,
        "prompt_cache_key"@ != "parallel_tool_calls"@,
        "prompt_cache_key"@ != "text"@,
        "prompt_cache_key"@ != "instructions"@,
        "effort"@ != "context"@,
{
    reveal_strlit("tool_choice");
    reveal_strlit("store");
    reveal_strlit("prompt_cache_key");
    reveal_strlit("include");
    reveal_strlit("input");
    reveal_strlit("client_metadata");
    reveal_strlit("tools");
    reveal_strlit("parallel_tool_calls");
    reveal_strlit("reasoning");
    reveal_strlit("text");
    reveal_strlit("instructions");
    reveal_strlit("model");
    reveal_strlit("stream");
    reveal_strlit("service_tier");
    reveal_strlit("effort");
    reveal_strlit("context");
    assert("tool_choice"@.len() == 11);
    assert("store"@.len() == 5);
    assert("prompt_cache_key"@.len() == 16);
    assert("include"@.len() == 7);
    assert("input"@.len() == 5);
    assert("client_metadata"@.len() == 15);
    assert("tools"@.len() == 5);
    assert("parallel_tool_calls"@.len() == 19);
    assert("reasoning"@.len() == 9);
    assert("text"@.len() == 4);
    assert("instructions"@.len() == 12);
    assert("model"@.len() == 5);
    assert("stream"@.len() == 6);
    assert("service_tier"@.len() == 12);
    assert("store"@[0] == 's');
    assert("input"@[0] == 'i');
    assert("tools"@[0] == 't');
    assert("effort"@.len() != "context"@.len());
}

/// The members that were picked are those of the given names that are not null.
pub proof fn picked_members(body: JsonV, names: Seq<Seq<char>>, k: Seq<char>)
    ensures
        codex::pick_v(body, names).is_obj(),
        codex::pick_v(body, names).get(k) == (if names.contains(k) && body.get(k) is Some && !(
        body.get(k)->0 is Null) {
            body.get(k)
        } else {
            None
        }),
    decreases names.len(),
{
    if names.len() > 0 {
        let d = names.drop_last();
        picked_members(body, d, k);
        picked_members(body, d, names.last());
        if d.contains(k) {
            let i = choose|i: int| 0 <= i < d.len() && d[i] == k;
            assert(names[i] == k);
        }
        if names.contains(k) && names.last() != k {
            let i = choose|i: int| 0 <= i < names.len() && names[i] == k;
            assert(d[i] == k);
        }
        if names.last() == k {
            assert(names[names.len() - 1] == k);
        }
    }
}

proof fn allowed_names()
    ensures
        codex::allowed_v().contains("client_metadata"@),
        codex::allowed_v().contains("include"@),
        codex::allowed_v().contains("input"@),
        codex::allowed_v().contains("instructions"@),
        codex::allowed_v().contains("parallel_tool_calls"@),
        codex::allowed_v().contains("prompt_cache_key"@),
        codex::allowed_v().contains("reasoning"@),
        codex::allowed_v().contains("store"@),
        codex::allowed_v().contains("text"@),
        codex::allowed_v().contains("tool_choice"@),
{
    let a = codex::allowed_v();
    assert(a[0] == "client_metadata"@);
    assert(a[1] == "include"@);
    assert(a[2] == "input"@);
    assert(a[3] == "instructions"@);
    assert(a[5] == "parallel_tool_calls"@);
    assert(a[6] == "prompt_cache_key"@);
    assert(a[9] == "reasoning"@);
    assert(a[11] == "store"@);
    assert(a[14] == "text"@);
    assert(a[15] == "tool_choice"@);
}

/// No member goes to Codex that is not in the list of those it takes.
pub proof fn only_allowed_members_are_sent(
    value: JsonV,
    identity: IdentityV,
    lite: bool,
    k: Seq<char>,
)
    ensures
        codex::compat_v(value, identity, lite) matches Ok(body) ==> body.get(k) is Some
            ==> codex::allowed_v().contains(k),
{
    picked_members(value, codex::allowed_v(), k);
    allowed_names();
}

/// Codex is told not to store anything.
pub proof fn nothing_is_stored(value: JsonV, identity: IdentityV, lite: bool)
    ensures
        codex::compat_v(value, identity, lite) matches Ok(body) ==> body.get("store"@) == Some(
            JsonV::Bool(false),
        ),
{
    names_differ();
    picked_members(value, codex::allowed_v(), "store"@);
}

/// A tool choice that the client made reaches Codex unchanged.
pub proof fn tool_choices_are_kept(
    value: JsonV,
    identity: IdentityV,
    lite: bool,
    choice: JsonV,
)
    requires
        value.get("tool_choice"@) == Some(choice),
        !(choice is Null),
    ensures
        codex::compat_v(value, identity, lite) matches Ok(body) ==> body.get("tool_choice"@)
            == Some(choice),
{
    names_differ();
    allowed_names();
    picked_members(value, codex::allowed_v(), "tool_choice"@);
}

/// A prompt-cache key that the client set reaches Codex unchanged, whatever
/// key its identities give.
pub proof fn cache_keys_are_kept(
    value: JsonV,
    identity: IdentityV,
    lite: bool,
    key: JsonV,
)
    requires
        value.get("prompt_cache_key"@) == Some(key),
        !(key is Null),
    ensures
        codex::compat_v(value, identity, lite) matches Ok(body) ==> body.get(
            "prompt_cache_key"@,
        ) == Some(key),
{
    names_differ();
    allowed_names();
    picked_members(value, codex::allowed_v(), "prompt_cache_key"@);
}

pub open spec fn effort_v(body: JsonV) -> Option<JsonV> {
    match body.get("reasoning"@) {
        Some(r) => r.get("effort"@),
        None => None,
    }
}

/// The reasoning effort of a request reaches Codex unchanged; no effort is
/// forced on a request without one.
pub proof fn efforts_are_kept(value: JsonV, identity: IdentityV, lite: bool)
    ensures
        codex::compat_v(value, identity, lite) matches Ok(body) ==> effort_v(body) == effort_v(
            value,
        ),
{
    names_differ();
    allowed_names();
    picked_members(value, codex::allowed_v(), "reasoning"@);
}

/// Making a request ready leaves its reasoning effort alone.
pub proof fn efforts_are_kept_by_requests(body: JsonV, map: Seq<EntryV>)
    ensures
        request::plan_v(body, map) matches Ok(plan) ==> effort_v(plan.body) == effort_v(body),
{
    names_differ();
}

/// The call that a tool's output answers is named in the item that is sent.
pub proof fn call_ids_are_kept(item: JsonV, id: Seq<char>)
    requires
        item.get_text("call_id"@) == Some(id),
    ensures
        codex::item_v(item).get_text("call_id"@) == Some(id),
{
    reveal_strlit("call_id");
    reveal_strlit("id");
    reveal_strlit("detail");
    reveal_strlit("role");
    assert("call_id"@.len() != "id"@.len());
    assert("call_id"@.len() != "detail"@.len());
    assert("call_id"@.len() != "role"@.len());
}

/// An item that is sent has no `id` and not the role `system`.
pub proof fn items_are_anonymous(item: JsonV)
    ensures
        codex::item_v(item).get("id"@) is None,
        codex::item_v(item).get_text("role"@) != Some("system"@),
{
    reveal_strlit("id");
    reveal_strlit("role");
    reveal_strlit("detail");
    reveal_strlit("system");
    reveal_strlit("developer");
    assert("system"@.len() != "developer"@.len());
    assert("role"@.len() != "id"@.len());
    assert("role"@.len() != "detail"@.len());
}

/// The fast tier is for Codex alone, and a fast request asks for it unless the
/// client asked for another.
pub proof fn fast_requests_are_priority(body: JsonV, map: Seq<EntryV>)
    ensures
        request::plan_v(body, map) matches Ok(plan) ==> {
            &&& plan.fast ==> plan.provider == Provider::Codex
            &&& plan.fast == (modelmap::resolve_v(map, request::requested_v(body)).fast
                && plan.provider == Provider::Codex)
            &&& plan.fast && body.get("service_tier"@) is None ==> plan.body.get(
                "service_tier"@,
            ) == Some(JsonV::Str("priority"@))
            &&& plan.provider == Provider::Kimi ==> plan.body.get("service_tier"@) is None
        },
{
    reveal_strlit("service_tier");
    reveal_strlit("model");
    reveal_strlit("stream");
    reveal_strlit("store");
    reveal_strlit("parallel_tool_calls");
    reveal_strlit("client_metadata");
    reveal_strlit("reasoning");
    reveal_strlit("text");
    reveal_strlit("tools");
    reveal_strlit("instructions");
    reveal_strlit("input");
    assert("service_tier"@.len() == 12);
    assert("model"@.len() == 5);
    assert("stream"@.len() == 6);
    assert("store"@.len() == 5);
    assert("parallel_tool_calls"@.len() == 19);
    assert("client_metadata"@.len() == 15);
    assert("reasoning"@.len() == 9);
    assert("text"@.len() == 4);
    assert("tools"@.len() == 5);
    assert("instructions"@.len() == 12);
    assert("input"@.len() == 5);
    assert("service_tier"@[0] == 's');
    assert("instructions"@[0] == 'i');
    let t = "service_tier"@;
    assert(t != "model"@ && t != "stream"@ && t != "store"@ && t != "parallel_tool_calls"@ && t
        != "client_metadata"@ && t != "reasoning"@ && t != "text"@ && t != "tools"@ && t
        != "instructions"@ && t != "input"@);
}

} // verus!
