//! What the proxy answers by itself: errors, health, readiness and the list of
//! models.

use vstd::prelude::*;

use crate::catalog;
use crate::catalog::{
    copy_reasoning, supports_fast, CapabilityV, Catalog, EffortV, ModelV, ReasoningCapability,
    ReasoningEffort,
};
use crate::json;
use crate::json::{Json, JsonV};
use crate::modelmap;
use crate::modelmap::{EntryV, ModelMap};
use crate::provider::Provider;
use crate::proxy::headers;
use crate::proxy::headers::{authorized, Headers};
use crate::text;
use crate::text::same;

verus! {

/// A reply of the proxy itself. Where it turns a client away, it says how to
/// authenticate.
#[derive(Debug)]
pub struct Reply {
    pub status: u16,
    pub body: Json,
    pub authenticate: Option<&'static str>,
}

#[verifier::ext_equal]
pub struct ReplyV {
    pub status: u16,
    pub body: JsonV,
    pub authenticate: Option<Seq<char>>,
}

impl Reply {
    pub open spec fn view(&self) -> ReplyV {
        ReplyV {
            status: self.status,
            body: self.body@,
            authenticate: json::opt_str(self.authenticate),
        }
    }
}

pub open spec fn error_v(status: u16, kind: Seq<char>, message: Seq<char>) -> ReplyV {
    ReplyV {
        status,
        body: json::empty_v().with(
            "error"@,
            json::empty_v().with("message"@, JsonV::Str(message)).with("type"@, JsonV::Str(kind)),
        ),
        authenticate: None,
    }
}

pub open spec fn ok_v(body: JsonV) -> ReplyV {
    ReplyV { status: 200, body, authenticate: None }
}

/// An error in the form that clients of the Responses API expect.
pub fn error_reply(status: u16, kind: &str, message: &str) -> (r: Reply)
    ensures
        r@ == error_v(status, kind@, message@),
{
    Reply {
        status,
        body: Json::object().with(
            "error",
            Json::object().with("message", Json::str(message)).with("type", Json::str(kind)),
        ),
        authenticate: None,
    }
}

fn ok_reply(body: Json) -> (r: Reply)
    ensures
        r@ == ok_v(body@),
{
    Reply { status: 200, body, authenticate: None }
}

pub open spec fn unauthorized_v() -> ReplyV {
    ReplyV {
        authenticate: Some("Bearer realm=\"grok-build-proxy\""@),
        ..error_v(401, "authentication_error"@, "invalid proxy bearer token"@)
    }
}

pub fn unauthorized() -> (r: Reply)
    ensures
        r@ == unauthorized_v(),
{
    let mut out = error_reply(401, "authentication_error", "invalid proxy bearer token");
    out.authenticate = Some("Bearer realm=\"grok-build-proxy\"");
    out
}

pub open spec fn not_found_v() -> ReplyV {
    error_v(404, "not_found_error"@, "endpoint not found"@)
}

pub fn not_found() -> (r: Reply)
    ensures
        r@ == not_found_v(),
{
    error_reply(404, "not_found_error", "endpoint not found")
}

pub open spec fn method_not_allowed_v() -> ReplyV {
    error_v(405, "invalid_request_error"@, "method not allowed"@)
}

pub fn method_not_allowed() -> (r: Reply)
    ensures
        r@ == method_not_allowed_v(),
{
    error_reply(405, "invalid_request_error", "method not allowed")
}

pub open spec fn health_v(get: bool, version: Seq<char>, substitutions: nat) -> ReplyV {
    if get {
        ok_v(
            json::empty_v().with("ok"@, JsonV::Bool(true)).with(
                "service"@,
                JsonV::Str("grok-build-proxy"@),
            ).with("version"@, JsonV::Str(version)).with(
                "model_substitutions"@,
                json::uint_v(substitutions as u64),
            ),
        )
    } else {
        method_not_allowed_v()
    }
}

/// Whether the proxy is up. Anyone may ask.
pub fn health(get: bool, version: &str, map: &ModelMap) -> (r: Reply)
    ensures
        r@ == health_v(get, version@, map@.len()),
{
    if !get {
        return method_not_allowed();
    }
    ok_reply(
        Json::object().with("ok", Json::bool(true)).with(
            "service",
            Json::str("grok-build-proxy"),
        ).with("version", Json::str(version)).with(
            "model_substitutions",
            Json::uint(map.len() as u64),
        ),
    )
}

/// What has to be found out before readiness can be told.
#[derive(Debug)]
pub enum ReadyStep {
    /// Nothing: this is the answer.
    Answer(Reply),
    /// Whether there are credentials for Codex.
    Codex,
    /// Whether there are credentials for Kimi.
    Kimi,
    /// Whether there are credentials for either.
    Either,
}

#[verifier::ext_equal]
pub enum ReadyStepV {
    Answer(ReplyV),
    Codex,
    Kimi,
    Either,
}

impl ReadyStep {
    pub open spec fn view(&self) -> ReadyStepV {
        match self {
            ReadyStep::Answer(r) => ReadyStepV::Answer(r@),
            ReadyStep::Codex => ReadyStepV::Codex,
            ReadyStep::Kimi => ReadyStepV::Kimi,
            ReadyStep::Either => ReadyStepV::Either,
        }
    }
}

pub open spec fn unavailable_v(message: Seq<char>) -> ReplyV {
    error_v(503, "authentication_error"@, message)
}

pub open spec fn ready_step_v(
    token: Seq<char>,
    authorization: Option<Seq<char>>,
    get: bool,
    provider: Option<Seq<char>>,
    kimi: bool,
) -> ReadyStepV {
    if !headers::authorized_v(token, authorization) {
        ReadyStepV::Answer(unauthorized_v())
    } else if !get {
        ReadyStepV::Answer(method_not_allowed_v())
    } else {
        match provider {
            Some(p) => if p == "codex"@ {
                ReadyStepV::Codex
            } else if p == "kimi"@ {
                if kimi {
                    ReadyStepV::Kimi
                } else {
                    ReadyStepV::Answer(unavailable_v("Kimi provider is not configured"@))
                }
            } else {
                ReadyStepV::Answer(
                    error_v(400, "invalid_request_error"@, "provider must be codex or kimi"@),
                )
            },
            None => if kimi {
                ReadyStepV::Either
            } else {
                ReadyStepV::Codex
            },
        }
    }
}

/// What a question for readiness, of one provider or of any, depends on.
pub fn ready_step(
    token: &str,
    headers: &Headers,
    get: bool,
    provider: Option<&str>,
    kimi: bool,
) -> (r: ReadyStep)
    ensures
        r@ == ready_step_v(
            token@,
            headers::get_v(headers@, "authorization"@),
            get,
            json::opt_str(provider),
            kimi,
        ),
{
    if !authorized(token, headers) {
        return ReadyStep::Answer(unauthorized());
    }
    if !get {
        return ReadyStep::Answer(method_not_allowed());
    }
    match provider {
        Some(p) => if same(p, "codex") {
            ReadyStep::Codex
        } else if same(p, "kimi") {
            if kimi {
                ReadyStep::Kimi
            } else {
                ReadyStep::Answer(
                    error_reply(503, "authentication_error", "Kimi provider is not configured"),
                )
            }
        } else {
            ReadyStep::Answer(
                error_reply(400, "invalid_request_error", "provider must be codex or kimi"),
            )
        },
        None => if kimi {
            ReadyStep::Either
        } else {
            ReadyStep::Codex
        },
    }
}

pub open spec fn ready_body_v(provider: Option<Seq<char>>) -> JsonV {
    let body = json::empty_v().with("ok"@, JsonV::Bool(true)).with("auth"@, JsonV::Str("ready"@));
    match provider {
        Some(p) => body.with("provider"@, JsonV::Str(p)),
        None => body,
    }
}

pub open spec fn ready_answer_v(provider: Option<Seq<char>>, error: Option<Seq<char>>) -> ReplyV {
    match error {
        None => ok_v(ready_body_v(provider)),
        Some(e) => unavailable_v(e),
    }
}

/// The answer once a provider's credentials were looked for: `error` is why
/// there are none.
pub fn ready_answer(provider: Option<&str>, error: Option<&str>) -> (r: Reply)
    ensures
        r@ == ready_answer_v(json::opt_str(provider), json::opt_str(error)),
{
    match error {
        Some(e) => error_reply(503, "authentication_error", e),
        None => {
            let mut body = Json::object().with("ok", Json::bool(true)).with(
                "auth",
                Json::str("ready"),
            );
            if let Some(p) = provider {
                body.set("provider", Json::str(p));
            }
            ok_reply(body)
        },
    }
}

/// How far the search for a provider's credentials has come.
#[derive(Debug)]
pub enum Outcome {
    Pending,
    Ready,
    Failed(String),
}

#[verifier::ext_equal]
pub enum OutcomeV {
    Pending,
    Ready,
    Failed(Seq<char>),
}

impl Outcome {
    pub open spec fn view(&self) -> OutcomeV {
        match self {
            Outcome::Pending => OutcomeV::Pending,
            Outcome::Ready => OutcomeV::Ready,
            Outcome::Failed(e) => OutcomeV::Failed(e@),
        }
    }
}

/// The answer where either provider will do: at once when one is ready, and not
/// before both have failed when none is.
pub open spec fn either_v(codex: OutcomeV, kimi: OutcomeV) -> Option<ReplyV> {
    if codex is Ready || kimi is Ready {
        Some(ready_answer_v(None, None))
    } else {
        match (codex, kimi) {
            (OutcomeV::Failed(c), OutcomeV::Failed(k)) => Some(
                unavailable_v("Codex: "@ + c + "; Kimi: "@ + k),
            ),
            _ => None,
        }
    }
}

pub open spec fn opt_reply(r: Option<Reply>) -> Option<ReplyV> {
    match r {
        Some(r) => Some(r@),
        None => None,
    }
}

/// The answer where either provider will do, if it is known yet.
pub fn ready_either(codex: &Outcome, kimi: &Outcome) -> (r: Option<Reply>)
    ensures
        opt_reply(r) == either_v(codex@, kimi@),
{
    match (codex, kimi) {
        (Outcome::Ready, _) => Some(ready_answer(None, None)),
        (_, Outcome::Ready) => Some(ready_answer(None, None)),
        (Outcome::Failed(c), Outcome::Failed(k)) => {
            let mut message = text::cat3("Codex: ", c, "; Kimi: ");
            message.push_str(k);
            Some(error_reply(503, "authentication_error", &message))
        },
        _ => None,
    }
}

/// A model that clients may ask for.
#[derive(Debug)]
pub struct Route {
    pub id: String,
    pub target: String,
    pub name: String,
    pub description: String,
    pub context: u64,
    pub fast: bool,
    pub reasoning: Option<ReasoningCapability>,
    pub provider: Provider,
}

#[verifier::ext_equal]
pub struct RouteV {
    pub id: Seq<char>,
    pub target: Seq<char>,
    pub name: Seq<char>,
    pub description: Seq<char>,
    pub context: u64,
    pub fast: bool,
    pub reasoning: Option<CapabilityV>,
    pub provider: Provider,
}

impl Route {
    pub open spec fn view(&self) -> RouteV {
        RouteV {
            id: self.id@,
            target: self.target@,
            name: self.name@,
            description: self.description@,
            context: self.context,
            fast: self.fast,
            reasoning: catalog::reasoning_view(self.reasoning),
            provider: self.provider,
        }
    }
}

pub open spec fn routes_v(s: Seq<Route>) -> Seq<RouteV> {
    s.map_values(|r: Route| r@)
}

pub open spec fn listed_v(routes: Seq<RouteV>, id: Seq<char>) -> bool {
    exists|i: int| 0 <= i < routes.len() && (#[trigger] routes[i]).id == id
}

/// The routes with one more, unless it has no name or one that is listed.
pub open spec fn add_v(routes: Seq<RouteV>, r: RouteV) -> Seq<RouteV> {
    if r.id.len() == 0 || listed_v(routes, r.id) {
        routes
    } else {
        routes.push(r)
    }
}

fn listed(routes: &Vec<Route>, id: &str) -> (r: bool)
    ensures
        r == listed_v(routes_v(routes@), id@),
{
    let ghost all = routes_v(routes@);
    let mut i: usize = 0;
    while i < routes.len()
        invariant
            i <= routes@.len(),
            all == routes_v(routes@),
            forall|k: int| 0 <= k < i ==> (#[trigger] all[k]).id != id@,
        decreases routes@.len() - i,
    {
        assert(all[i as int] == routes@[i as int]@);
        if same(&routes[i].id, id) {
            return true;
        }
        i += 1;
    }
    false
}

fn add_route(routes: &mut Vec<Route>, r: Route)
    ensures
        routes_v(final(routes)@) == add_v(routes_v(old(routes)@), r@),
{
    let ghost before = routes@;
    proof {
        assert(routes_v(before.push(r)) =~= routes_v(before).push(r@));
    }
    if !r.id.as_str().is_empty() && !listed(routes, &r.id) {
        routes.push(r);
    }
}

pub open spec fn suffix_v(fast: bool, word: Seq<char>) -> Seq<char> {
    if fast {
        word
    } else {
        Seq::empty()
    }
}

fn suffix(fast: bool, word: &str) -> (r: String)
    ensures
        r@ == suffix_v(fast, word@),
{
    if fast {
        text::owned(word)
    } else {
        String::new()
    }
}

/// The route of a substitution.
pub open spec fn mapped_route_v(map: Seq<EntryV>, source: Seq<char>) -> RouteV {
    let resolved = modelmap::resolve_v(map, source);
    let m = catalog::model_v(catalog::norm_v(resolved.model).0);
    let fast = resolved.fast && m.provider == Provider::Codex;
    RouteV {
        id: source,
        target: resolved.model,
        name: source + " via "@ + m.display_name + suffix_v(fast, " (Fast)"@),
        description: "Maps "@ + source + " to "@ + (resolved.model + suffix_v(fast, "-fast"@))
            + " through "@ + m.provider.owner_v() + "."@,
        context: m.context_window,
        fast,
        reasoning: m.reasoning,
        provider: m.provider,
    }
}

fn mapped_route(map: &ModelMap, catalog: &Catalog, source: &str) -> (r: Route)
    ensures
        r@ == mapped_route_v(map@, source@),
{
    let resolved = map.resolve(source);
    let (m, known) = catalog.lookup(&resolved.model);
    let codex = match m.provider {
        Provider::Codex => true,
        Provider::Kimi => false,
    };
    let fast = resolved.fast && codex;
    let effective = text::cat(&resolved.model, &suffix(fast, "-fast"));
    let mut name = text::cat3(source, " via ", &m.display_name);
    name.push_str(&suffix(fast, " (Fast)"));
    let mut description = text::cat3("Maps ", source, " to ");
    description.push_str(&effective);
    description.push_str(" through ");
    description.push_str(m.provider.owned_by());
    description.push_str(".");
    Route {
        id: text::owned(source),
        target: resolved.model,
        name,
        description,
        context: m.context_window,
        fast,
        reasoning: m.reasoning,
        provider: m.provider,
    }
}

pub open spec fn mapped_routes_v(map: Seq<EntryV>, n: int) -> Seq<RouteV>
    decreases n,
{
    if n <= 0 {
        Seq::empty()
    } else {
        add_v(mapped_routes_v(map, n - 1), mapped_route_v(map, map[n - 1].source))
    }
}

pub open spec fn model_route_v(m: ModelV) -> RouteV {
    RouteV {
        id: m.id,
        target: m.upstream_id,
        name: m.display_name,
        description: m.description,
        context: m.context_window,
        fast: false,
        reasoning: m.reasoning,
        provider: m.provider,
    }
}

pub open spec fn model_routes_v(routes: Seq<RouteV>, models: Seq<ModelV>) -> Seq<RouteV>
    decreases models.len(),
{
    if models.len() == 0 {
        routes
    } else {
        add_v(model_routes_v(routes, models.drop_last()), model_route_v(models.last()))
    }
}

/// Whether a route gets a fast variant.
pub open spec fn quickens_v(r: RouteV) -> bool {
    r.provider == Provider::Codex && !r.fast && !text::ends_v(r.id, "-fast"@) && catalog::fast_v(
        r.target,
    )
}

pub open spec fn fast_route_v(r: RouteV) -> RouteV {
    RouteV { id: r.id + "-fast"@, name: r.name + " (Fast)"@, fast: true, ..r }
}

pub open spec fn fast_routes_v(routes: Seq<RouteV>, base: Seq<RouteV>) -> Seq<RouteV>
    decreases base.len(),
{
    if base.len() == 0 {
        routes
    } else {
        let before = fast_routes_v(routes, base.drop_last());
        if quickens_v(base.last()) {
            add_v(before, fast_route_v(base.last()))
        } else {
            before
        }
    }
}

/// The substitutions, the models on offer, and the fast variants of both.
pub open spec fn all_routes_v(map: Seq<EntryV>, models: Seq<ModelV>) -> Seq<RouteV> {
    let base = model_routes_v(mapped_routes_v(map, map.len() as int), models);
    fast_routes_v(base, base)
}

fn base_routes(map: &ModelMap, catalog: &Catalog) -> (r: Vec<Route>)
    ensures
        routes_v(r@) == model_routes_v(mapped_routes_v(map@, map@.len() as int), catalog@),
{
    let mut routes: Vec<Route> = Vec::new();
    let entries = map.entries();
    let mut i: usize = 0;
    assert(routes_v(routes@) =~= Seq::<RouteV>::empty());
    while i < entries.len()
        invariant
            i <= entries@.len(),
            modelmap::entries_v(entries@) == map@,
            routes_v(routes@) == mapped_routes_v(map@, i as int),
        decreases entries@.len() - i,
    {
        assert(map@[i as int] == entries@[i as int]@);
        let route = mapped_route(map, catalog, &entries[i].source);
        add_route(&mut routes, route);
        i += 1;
    }
    let ghost mapped = mapped_routes_v(map@, map@.len() as int);
    let models = catalog.models();
    let ghost all = catalog::models_v(models@);
    let mut j: usize = 0;
    assert(model_routes_v(mapped, all.take(0)) == mapped);
    while j < models.len()
        invariant
            j <= models@.len(),
            all == catalog::models_v(models@),
            routes_v(routes@) == model_routes_v(mapped, all.take(j as int)),
        decreases models@.len() - j,
    {
        let m = models[j].copy();
        proof {
            assert(all.take(j + 1).drop_last() =~= all.take(j as int));
            assert(all.take(j + 1).last() == m@);
        }
        add_route(
            &mut routes,
            Route {
                id: m.id,
                target: m.upstream_id,
                name: m.display_name,
                description: m.description,
                context: m.context_window,
                fast: false,
                reasoning: m.reasoning,
                provider: m.provider,
            },
        );
        j += 1;
    }
    assert(all.take(j as int) =~= all);
    routes
}

/// The models that clients may ask for.
pub fn list_routes(map: &ModelMap, catalog: &Catalog) -> (r: Vec<Route>)
    ensures
        routes_v(r@) == all_routes_v(map@, catalog@),
{
    let mut routes = base_routes(map, catalog);
    let ghost base = routes_v(routes@);
    let n: usize = routes.len();
    let mut i: usize = 0;
    assert(fast_routes_v(base, base.take(0)) == base);
    while i < n
        invariant
            i <= n,
            n == base.len(),
            n <= routes@.len(),
            routes_v(routes@).take(n as int) == base,
            routes_v(routes@) == fast_routes_v(base, base.take(i as int)),
        decreases n - i,
    {
        let ghost before = routes_v(routes@);
        proof {
            assert(base.take(i + 1).drop_last() =~= base.take(i as int));
            assert(base.take(i + 1).last() == base[i as int]);
            assert(before.take(n as int)[i as int] == before[i as int]);
            assert(before[i as int] == routes@[i as int]@);
        }
        let codex = match routes[i].provider {
            Provider::Codex => true,
            Provider::Kimi => false,
        };
        if codex && !routes[i].fast && !text::ends_with(&routes[i].id, "-fast") && supports_fast(
            &routes[i].target,
        ) {
            let route = Route {
                id: text::cat(&routes[i].id, "-fast"),
                target: text::owned(&routes[i].target),
                name: text::cat(&routes[i].name, " (Fast)"),
                description: text::owned(&routes[i].description),
                context: routes[i].context,
                fast: true,
                reasoning: copy_reasoning(&routes[i].reasoning),
                provider: routes[i].provider,
            };
            assert(route@ == fast_route_v(base[i as int]));
            add_route(&mut routes, route);
            assert(routes_v(routes@).len() == routes@.len());
            assert(routes_v(routes@).take(n as int) =~= base);
        }
        i += 1;
    }
    assert(base.take(i as int) =~= base);
    routes
}

pub open spec fn effort_json_v(e: EffortV) -> JsonV {
    json::empty_v().with("value"@, JsonV::Str(e.value)).with("label"@, JsonV::Str(e.label)).with(
        "description"@,
        JsonV::Str(e.description),
    ).with("default"@, JsonV::Bool(e.default))
}

pub open spec fn efforts_json_v(s: Seq<EffortV>) -> Seq<JsonV> {
    s.map_values(|e: EffortV| effort_json_v(e))
}

fn efforts_json(efforts: &Vec<ReasoningEffort>) -> (r: Vec<Json>)
    ensures
        json::items_v(r@) == efforts_json_v(catalog::efforts_v(efforts@)),
{
    let ghost all = efforts_json_v(catalog::efforts_v(efforts@));
    let mut out: Vec<Json> = Vec::new();
    let mut i: usize = 0;
    while i < efforts.len()
        invariant
            i <= efforts@.len(),
            all == efforts_json_v(catalog::efforts_v(efforts@)),
            json::items_v(out@) == all.take(i as int),
        decreases efforts@.len() - i,
    {
        let e = &efforts[i];
        let item = Json::object().with("value", Json::str(&e.value)).with(
            "label",
            Json::str(&e.label),
        ).with("description", Json::str(&e.description)).with("default", Json::bool(e.default));
        json::push_item(&mut out, item);
        proof {
            assert(all[i as int] == item@);
            assert(all.take(i + 1) =~= all.take(i as int).push(all[i as int]));
        }
        i += 1;
    }
    assert(all.take(i as int) =~= all);
    out
}

/// A route as it is listed.
pub open spec fn route_json_v(r: RouteV) -> JsonV {
    let plain = json::empty_v().with("id"@, JsonV::Str(r.id)).with(
        "object"@,
        JsonV::Str("model"@),
    ).with("owned_by"@, JsonV::Str(r.provider.owner_v())).with("name"@, JsonV::Str(r.name)).with(
        "description"@,
        JsonV::Str(r.description),
    ).with("context_window"@, json::uint_v(r.context)).with(
        "api_backend"@,
        JsonV::Str("responses"@),
    );
    let aimed = if r.id != r.target || r.fast {
        plain.with("target_model"@, JsonV::Str(r.target + suffix_v(r.fast, "-fast"@)))
    } else {
        plain
    };
    let tiered = if r.fast {
        aimed.with("service_tier"@, JsonV::Str("priority"@))
    } else {
        aimed
    };
    match r.reasoning {
        Some(c) => tiered.with("supports_reasoning_effort"@, JsonV::Bool(true)).with(
            "reasoning_effort"@,
            JsonV::Str(c.default_effort),
        ).with("reasoning_efforts"@, JsonV::Arr(efforts_json_v(c.efforts))),
        None => tiered,
    }
}

fn route_json(r: &Route) -> (out: Json)
    ensures
        out@ == route_json_v(r@),
{
    let mut v = Json::object().with("id", Json::str(&r.id)).with("object", Json::str("model")).with(
        "owned_by",
        Json::str(r.provider.owned_by()),
    ).with("name", Json::str(&r.name)).with("description", Json::str(&r.description)).with(
        "context_window",
        Json::uint(r.context),
    ).with("api_backend", Json::str("responses"));
    if !same(&r.id, &r.target) || r.fast {
        v.set("target_model", Json::string(text::cat(&r.target, &suffix(r.fast, "-fast"))));
    }
    if r.fast {
        v.set("service_tier", Json::str("priority"));
    }
    if let Some(c) = &r.reasoning {
        v.set("supports_reasoning_effort", Json::bool(true));
        v.set("reasoning_effort", Json::str(&c.default_effort));
        v.set("reasoning_efforts", Json::array(efforts_json(&c.efforts)));
    }
    v
}

pub open spec fn list_json_v(routes: Seq<RouteV>) -> JsonV {
    json::empty_v().with("object"@, JsonV::Str("list"@)).with(
        "data"@,
        JsonV::Arr(routes.map_values(|r: RouteV| route_json_v(r))),
    )
}

pub open spec fn models_v(
    token: Seq<char>,
    authorization: Option<Seq<char>>,
    get: bool,
    map: Seq<EntryV>,
    models: Seq<ModelV>,
) -> ReplyV {
    if !headers::authorized_v(token, authorization) {
        unauthorized_v()
    } else if !get {
        method_not_allowed_v()
    } else {
        ok_v(list_json_v(all_routes_v(map, models)))
    }
}

/// The list of the models that clients may ask for.
pub fn models(
    token: &str,
    headers: &Headers,
    get: bool,
    map: &ModelMap,
    catalog: &Catalog,
) -> (r: Reply)
    ensures
        r@ == models_v(
            token@,
            headers::get_v(headers@, "authorization"@),
            get,
            map@,
            catalog@,
        ),
{
    if !authorized(token, headers) {
        return unauthorized();
    }
    if !get {
        return method_not_allowed();
    }
    let routes = list_routes(map, catalog);
    let ghost all = routes_v(routes@).map_values(|r: RouteV| route_json_v(r));
    let mut data: Vec<Json> = Vec::new();
    let mut i: usize = 0;
    while i < routes.len()
        invariant
            i <= routes@.len(),
            all == routes_v(routes@).map_values(|r: RouteV| route_json_v(r)),
            json::items_v(data@) == all.take(i as int),
        decreases routes@.len() - i,
    {
        let item = route_json(&routes[i]);
        json::push_item(&mut data, item);
        proof {
            assert(all[i as int] == item@);
            assert(all.take(i + 1) =~= all.take(i as int).push(all[i as int]));
        }
        i += 1;
    }
    assert(all.take(i as int) =~= all);
    ok_reply(
        Json::object().with("object", Json::str("list")).with("data", Json::array(data)),
    )
}

/// No two routes have the same name.
pub open spec fn distinct_v(routes: Seq<RouteV>) -> bool {
    forall|i: int, j: int|
        0 <= i < j < routes.len() ==> (#[trigger] routes[i]).id != (#[trigger] routes[j]).id
}

pub proof fn add_keeps(routes: Seq<RouteV>, r: RouteV)
    requires
        distinct_v(routes),
    ensures
        distinct_v(add_v(routes, r)),
        r.id.len() > 0 ==> listed_v(add_v(routes, r), r.id),
        forall|id: Seq<char>| #[trigger] listed_v(routes, id) ==> listed_v(add_v(routes, r), id),
{
    let after = add_v(routes, r);
    if r.id.len() > 0 && !listed_v(routes, r.id) {
        assert(after[routes.len() as int].id == r.id);
        assert forall|id: Seq<char>| #[trigger] listed_v(routes, id) implies listed_v(
            after,
            id,
        ) by {
            let i = choose|i: int| 0 <= i < routes.len() && (#[trigger] routes[i]).id == id;
            assert(after[i].id == id);
        }
    }
}

pub proof fn mapped_keeps(map: Seq<EntryV>, n: int)
    ensures
        distinct_v(mapped_routes_v(map, n)),
    decreases n,
{
    if n > 0 {
        mapped_keeps(map, n - 1);
        add_keeps(mapped_routes_v(map, n - 1), mapped_route_v(map, map[n - 1].source));
    }
}

pub proof fn models_keep(routes: Seq<RouteV>, models: Seq<ModelV>)
    requires
        distinct_v(routes),
    ensures
        distinct_v(model_routes_v(routes, models)),
        forall|i: int|
            0 <= i < models.len() && (#[trigger] models[i]).id.len() > 0 ==> listed_v(
                model_routes_v(routes, models),
                models[i].id,
            ),
    decreases models.len(),
{
    if models.len() > 0 {
        models_keep(routes, models.drop_last());
        add_keeps(model_routes_v(routes, models.drop_last()), model_route_v(models.last()));
        assert forall|i: int| 0 <= i < models.len() && (#[trigger] models[i]).id.len() > 0 implies listed_v(
            model_routes_v(routes, models),
            models[i].id,
        ) by {
            if i < models.len() - 1 {
                assert(models.drop_last()[i] == models[i]);
            }
        }
    }
}

pub proof fn fast_keep(routes: Seq<RouteV>, base: Seq<RouteV>)
    requires
        distinct_v(routes),
    ensures
        distinct_v(fast_routes_v(routes, base)),
        forall|id: Seq<char>| #[trigger]
            listed_v(routes, id) ==> listed_v(fast_routes_v(routes, base), id),
    decreases base.len(),
{
    if base.len() > 0 {
        fast_keep(routes, base.drop_last());
        add_keeps(fast_routes_v(routes, base.drop_last()), fast_route_v(base.last()));
    }
}

/// Every model on offer is listed, and no name is listed twice.
pub proof fn models_are_listed_once(map: Seq<EntryV>, models: Seq<ModelV>)
    ensures
        distinct_v(all_routes_v(map, models)),
        forall|i: int|
            0 <= i < models.len() && (#[trigger] models[i]).id.len() > 0 ==> listed_v(
                all_routes_v(map, models),
                models[i].id,
            ),
{
    let mapped = mapped_routes_v(map, map.len() as int);
    let base = model_routes_v(mapped, models);
    mapped_keeps(map, map.len() as int);
    models_keep(mapped, models);
    fast_keep(base, base);
}

/// A fast variant can what its route can: it has the same target, window and
/// reasoning efforts.
pub proof fn fast_variants_inherit(r: RouteV)
    ensures
        fast_route_v(r).target == r.target,
        fast_route_v(r).reasoning == r.reasoning,
        fast_route_v(r).context == r.context,
        fast_route_v(r).provider == r.provider,
{
}

/// The route of a substitution can what its target can.
pub proof fn substitutions_inherit(map: Seq<EntryV>, source: Seq<char>)
    ensures
        mapped_route_v(map, source).reasoning == catalog::model_v(
            catalog::norm_v(mapped_route_v(map, source).target).0,
        ).reasoning,
{
}

/// A model without reasoning efforts is listed without a word of them.
pub proof fn no_capability_no_fields(r: RouteV)
    requires
        r.reasoning is None,
    ensures
        route_json_v(r).get("supports_reasoning_effort"@) is None,
        route_json_v(r).get("reasoning_effort"@) is None,
        route_json_v(r).get("reasoning_efforts"@) is None,
{
    reveal_strlit("supports_reasoning_effort");
    reveal_strlit("reasoning_effort");
    reveal_strlit("reasoning_efforts");
    reveal_strlit("id");
    reveal_strlit("object");
    reveal_strlit("owned_by");
    reveal_strlit("name");
    reveal_strlit("description");
    reveal_strlit("context_window");
    reveal_strlit("api_backend");
    reveal_strlit("target_model");
    reveal_strlit("service_tier");
    assert("supports_reasoning_effort"@.len() == 25);
    assert("reasoning_effort"@.len() == 16);
    assert("reasoning_efforts"@.len() == 17);
    assert("id"@.len() == 2);
    assert("object"@.len() == 6);
    assert("owned_by"@.len() == 8);
    assert("name"@.len() == 4);
    assert("description"@.len() == 11);
    assert("context_window"@.len() == 14);
    assert("api_backend"@.len() == 11);
    assert("target_model"@.len() == 12);
    assert("service_tier"@.len() == 12);
}

} // verus!
