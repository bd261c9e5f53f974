//! What a client's request becomes before it is sent.

use vstd::prelude::*;

use crate::catalog;
use crate::catalog::{Catalog, ModelV};
use crate::json;
use crate::json::{Json, JsonV};
use crate::modelmap;
use crate::modelmap::{EntryV, ModelMap};
use crate::provider::Provider;
use crate::proxy::cache;
use crate::proxy::cache::validate_prompt_cache_fields;
use crate::proxy::codex;
use crate::proxy::codex::{input_items, message, tools_item};
use crate::sse;
use crate::text;

verus! {

/// A request that is ready to be sent.
#[derive(Debug)]
pub struct TransformedRequest {
    pub body: Vec<u8>,
    pub requested_model: String,
    pub model: String,
    pub mapped: bool,
    pub lite: bool,
    pub fast: bool,
    pub stream: bool,
    pub provider: Provider,
}

/// A request that is ready to be written out.
#[derive(Debug)]
pub struct Plan {
    pub body: Json,
    pub requested_model: String,
    pub model: String,
    pub mapped: bool,
    pub lite: bool,
    pub fast: bool,
    pub stream: bool,
    pub provider: Provider,
}

#[verifier::ext_equal]
pub struct PlanV {
    pub body: JsonV,
    pub requested_model: Seq<char>,
    pub model: Seq<char>,
    pub mapped: bool,
    pub lite: bool,
    pub fast: bool,
    pub stream: bool,
    pub provider: Provider,
}

#[verifier::ext_equal]
pub struct TransformedV {
    pub body: Seq<u8>,
    pub requested_model: Seq<char>,
    pub model: Seq<char>,
    pub mapped: bool,
    pub lite: bool,
    pub fast: bool,
    pub stream: bool,
    pub provider: Provider,
}

impl Plan {
    pub open spec fn view(&self) -> PlanV {
        PlanV {
            body: self.body@,
            requested_model: self.requested_model@,
            model: self.model@,
            mapped: self.mapped,
            lite: self.lite,
            fast: self.fast,
            stream: self.stream,
            provider: self.provider,
        }
    }
}

impl TransformedRequest {
    pub open spec fn view(&self) -> TransformedV {
        TransformedV {
            body: self.body@,
            requested_model: self.requested_model@,
            model: self.model@,
            mapped: self.mapped,
            lite: self.lite,
            fast: self.fast,
            stream: self.stream,
            provider: self.provider,
        }
    }
}

/// The object, or an empty one in place of anything else.
pub open spec fn object_v(v: Option<JsonV>) -> JsonV {
    match v {
        Some(JsonV::Obj(m)) => JsonV::Obj(m),
        _ => json::empty_v(),
    }
}

/// What stands at the head of a Lite request's input: its tools and its
/// instructions.
pub open spec fn prefix_v(body: JsonV) -> Seq<JsonV> {
    let tools = match body.get("tools"@) {
        Some(JsonV::Arr(tools)) => if tools.len() > 0 {
            seq![codex::tools_item_v(tools)]
        } else {
            Seq::empty()
        },
        _ => Seq::empty(),
    };
    match body.get("instructions"@) {
        Some(JsonV::Str(s)) => if text::trim_v(s).len() > 0 {
            tools.push(codex::message_v("developer"@, s))
        } else {
            tools
        },
        _ => tools,
    }
}

/// A request for a model of the Responses Lite kind.
pub open spec fn lite_request_v(body: JsonV) -> JsonV {
    body.with("parallel_tool_calls"@, JsonV::Bool(false)).with(
        "client_metadata"@,
        object_v(body.get("client_metadata"@)).with(
            "ws_request_header_x_openai_internal_codex_responses_lite"@,
            JsonV::Str("true"@),
        ),
    ).with(
        "reasoning"@,
        object_v(body.get("reasoning"@)).with("context"@, JsonV::Str("all_turns"@)),
    ).with(
        "text"@,
        object_v(body.get("text"@)).or_with("verbosity"@, JsonV::Str("low"@)),
    ).without("tools"@).without("instructions"@).with(
        "input"@,
        JsonV::Arr(prefix_v(body) + codex::input_v(body.get("input"@))),
    )
}

fn object_in(body: &Json, k: &str) -> (r: Json)
    ensures
        r@ == object_v(body@.get(k@)),
{
    match body.get(k) {
        Some(v) => if v.is_object() {
            v.copy()
        } else {
            Json::object()
        },
        None => Json::object(),
    }
}

/// Makes a request one for a model of the Responses Lite kind.
pub fn apply_responses_lite(body: &mut Json)
    ensures
        final(body)@ == (if old(body)@.is_obj() {
            lite_request_v(old(body)@)
        } else {
            old(body)@
        }),
{
    if !body.is_object() {
        return;
    }
    let mut metadata = object_in(body, "client_metadata");
    let mut reasoning = object_in(body, "reasoning");
    let mut style = object_in(body, "text");
    let mut input: Vec<Json> = Vec::new();
    assert(json::items_v(input@) =~= Seq::<JsonV>::empty());
    if let Some(tools) = body.get_array("tools") {
        proof {
            json::items_len(tools@);
        }
        if tools.len() > 0 {
            json::push_item(&mut input, tools_item(json::copy_items(tools)));
            assert(json::items_v(input@) =~= seq![codex::tools_item_v(json::items_v(tools@))]);
        }
    }
    if let Some(s) = body.get_str("instructions") {
        if !text::trim(s).as_str().is_empty() {
            json::push_item(&mut input, message("developer", s));
        }
    }
    assert(json::items_v(input@) == prefix_v(body@));
    let given = match body.get("input") {
        Some(v) => Some(v.copy()),
        None => None,
    };
    json::append_items(&mut input, input_items(given));
    metadata.set(
        "ws_request_header_x_openai_internal_codex_responses_lite",
        Json::str("true"),
    );
    reasoning.set("context", Json::str("all_turns"));
    style.set_default("verbosity", Json::str("low"));
    body.set("parallel_tool_calls", Json::bool(false));
    body.set("client_metadata", metadata);
    body.set("reasoning", reasoning);
    body.set("text", style);
    body.take("tools");
    body.take("instructions");
    body.set("input", Json::array(input));
}

pub open spec fn requested_v(body: JsonV) -> Seq<char> {
    match body.get_text("model"@) {
        Some(s) => text::trim_v(s),
        None => Seq::empty(),
    }
}

pub open spec fn stream_v(body: JsonV) -> bool {
    match body.get("stream"@) {
        Some(JsonV::Bool(b)) => b,
        _ => true,
    }
}

/// The body to send for a request that resolves to `model`.
pub open spec fn sent_v(body: JsonV, model: ModelV, fast: bool) -> JsonV {
    let named = body.with("model"@, JsonV::Str(model.upstream_id)).with(
        "stream"@,
        JsonV::Bool(stream_v(body)),
    );
    if model.provider == Provider::Kimi {
        named.without("service_tier"@)
    } else {
        let kept = named.with("store"@, JsonV::Bool(false));
        let tiered = if fast {
            kept.or_with("service_tier"@, JsonV::Str("priority"@))
        } else {
            kept
        };
        if model.responses_lite {
            lite_request_v(tiered)
        } else {
            tiered.or_with("parallel_tool_calls"@, JsonV::Bool(true))
        }
    }
}

/// What a request becomes, or why it is refused.
pub open spec fn plan_v(body: JsonV, map: Seq<EntryV>) -> Result<PlanV, Seq<char>> {
    if !body.is_obj() {
        Err("request body must be a JSON object"@)
    } else if requested_v(body).len() == 0 {
        Err("model is required"@)
    } else {
        let resolution = modelmap::resolve_v(map, requested_v(body));
        let model = catalog::model_v(catalog::norm_v(resolution.model).0);
        let codex = model.provider == Provider::Codex;
        let named = body.with("model"@, JsonV::Str(model.upstream_id));
        let bad = cache::cache_error_v(named, resolution.model);
        let fast = resolution.fast && codex;
        if codex && bad is Some {
            Err(bad->0)
        } else {
            Ok(
                PlanV {
                    body: sent_v(body, model, fast),
                    requested_model: requested_v(body),
                    model: resolution.model,
                    mapped: resolution.mapped,
                    lite: model.responses_lite,
                    fast,
                    stream: stream_v(body),
                    provider: model.provider,
                },
            )
        }
    }
}

pub open spec fn plan_result_v(r: Result<Plan, String>) -> Result<PlanV, Seq<char>> {
    match r {
        Ok(p) => Ok(p@),
        Err(e) => Err(e@),
    }
}

/// What a request that has been read becomes.
pub fn plan_request(value: Json, catalog: &Catalog, mappings: &ModelMap) -> (r: Result<
    Plan,
    String,
>)
    ensures
        plan_result_v(r) == plan_v(value@, mappings@),
{
    let mut body = value;
    if !body.is_object() {
        return Err(text::owned("request body must be a JSON object"));
    }
    let requested = match body.get_str("model") {
        Some(s) => text::trim(s),
        None => String::new(),
    };
    if requested.as_str().is_empty() {
        return Err(text::owned("model is required"));
    }
    let ghost before = body@;
    let resolution = mappings.resolve(&requested);
    let (model, known) = catalog.lookup(&resolution.model);
    let codex = match model.provider {
        Provider::Codex => true,
        Provider::Kimi => false,
    };
    body.set("model", Json::str(&model.upstream_id));
    if codex {
        match validate_prompt_cache_fields(&body, &resolution.model) {
            Ok(_) => {},
            Err(e) => {
                return Err(e);
            },
        }
    }
    let stream = match body.get("stream") {
        Some(v) => match v.as_bool() {
            Some(b) => b,
            None => true,
        },
        None => true,
    };
    assert(stream == stream_v(before));
    body.set("stream", Json::bool(stream));
    let fast = resolution.fast && codex;
    if codex {
        body.set("store", Json::bool(false));
        if fast {
            body.set_default("service_tier", Json::str("priority"));
        }
        if model.responses_lite {
            apply_responses_lite(&mut body);
        } else {
            body.set_default("parallel_tool_calls", Json::bool(true));
        }
    } else {
        body.take("service_tier");
    }
    assert(body@ == sent_v(before, model@, fast));
    Ok(
        Plan {
            body,
            requested_model: requested,
            model: resolution.model,
            mapped: resolution.mapped,
            lite: model.responses_lite,
            fast,
            stream,
            provider: model.provider,
        },
    )
}

/// Nothing but the white space of ASCII.
pub open spec fn blank_v(raw: Seq<u8>) -> bool {
    forall|i: int| 0 <= i < raw.len() ==> white_v(#[trigger] raw[i])
}

pub open spec fn white_v(b: u8) -> bool {
    b == 9 || b == 10 || b == 12 || b == 13 || b == 32
}

pub fn is_blank(raw: &[u8]) -> (r: bool)
    ensures
        r == blank_v(raw@),
{
    let mut i: usize = 0;
    while i < raw.len()
        invariant
            i <= raw@.len(),
            forall|k: int| 0 <= k < i ==> white_v(#[trigger] raw@[k]),
        decreases raw@.len() - i,
    {
        let b: u8 = raw[i];
        if !(b == 9 || b == 10 || b == 12 || b == 13 || b == 32) {
            assert(!white_v(raw@[i as int]));
            return false;
        }
        i += 1;
    }
    true
}

/// What the request body `raw`, read as `parsed`, becomes.
pub open spec fn transform_v(raw: Seq<u8>, parsed: Option<JsonV>, map: Seq<EntryV>) -> Result<
    TransformedV,
    Seq<char>,
> {
    if blank_v(raw) {
        Err("request body is empty"@)
    } else {
        match parsed {
            None => Err("invalid JSON request"@),
            Some(body) => match plan_v(body, map) {
                Err(e) => Err(e),
                Ok(p) => Ok(
                    TransformedV {
                        body: sse::bytes_v(json::json_text(p.body)),
                        requested_model: p.requested_model,
                        model: p.model,
                        mapped: p.mapped,
                        lite: p.lite,
                        fast: p.fast,
                        stream: p.stream,
                        provider: p.provider,
                    },
                ),
            },
        }
    }
}

pub open spec fn transformed_result_v(r: Result<TransformedRequest, String>) -> Result<
    TransformedV,
    Seq<char>,
> {
    match r {
        Ok(p) => Ok(p@),
        Err(e) => Err(e@),
    }
}

/// Resolves the model of a request and makes its body ready to be sent.
pub fn transform_request(raw: &[u8], catalog: &Catalog, mappings: &ModelMap) -> (r: Result<
    TransformedRequest,
    String,
>)
    ensures
        transformed_result_v(r) == transform_v(raw@, json::parsed_bytes(raw@), mappings@),
{
    if is_blank(raw) {
        return Err(text::owned("request body is empty"));
    }
    match json::parse_bytes(raw) {
        None => Err(text::owned("invalid JSON request")),
        Some(value) => match plan_request(value, catalog, mappings) {
            Err(e) => Err(e),
            Ok(p) => Ok(
                TransformedRequest {
                    body: sse::bytes_of(&p.body.encode()),
                    requested_model: p.requested_model,
                    model: p.model,
                    mapped: p.mapped,
                    lite: p.lite,
                    fast: p.fast,
                    stream: p.stream,
                    provider: p.provider,
                },
            ),
        },
    }
}

} // verus!
