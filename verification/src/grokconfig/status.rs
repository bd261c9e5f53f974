//! How the configured models stand with the proxy that runs.

use vstd::prelude::*;

use crate::catalog;
use crate::catalog::{normalize_id, supports_fast, Catalog};
use crate::grokconfig;
use crate::grokconfig::config;
use crate::grokconfig::{base_url, GrokConfig, ModelRecord, ModelStatus, RecordV};
use crate::json;
use crate::json::{Json, JsonV};
use crate::numbers;
use crate::numbers::signed;
use crate::text;
use crate::text::same;
use crate::toml;
use crate::toml::TableV;

verus! {

/// The token that a model's endpoint is asked with.
pub open spec fn token_v(configured: Seq<char>, client: Seq<char>) -> Seq<char> {
    if text::trim_v(client).len() == 0 && configured != "unused"@ {
        configured
    } else {
        client
    }
}

pub fn token_for(configured: &str, client: &str) -> (r: String)
    ensures
        r@ == token_v(configured@, client@),
{
    if text::trim(client).as_str().is_empty() && !same(configured, "unused") {
        text::owned(configured)
    } else {
        text::owned(client)
    }
}

/// The address of a proxy, from the base URL of its models.
pub open spec fn root_v(base_url: Seq<char>) -> Seq<char> {
    let t = text::trim_end_of_v(base_url, '/');
    match text::strip_end_v(t, "/v1"@) {
        Some(s) => s,
        None => t,
    }
}

pub fn root_of(base_url: &str) -> (r: String)
    ensures
        r@ == root_v(base_url@),
{
    let t = text::trim_end_of(base_url, '/');
    match text::strip_suffix(&t, "/v1") {
        Some(s) => s,
        None => t,
    }
}

/// What a proxy says of itself and its models.
#[derive(Debug)]
pub struct EndpointStatus {
    pub proxy: bool,
    pub ready: bool,
    /// The models on offer, by their names.
    pub models: Json,
    pub detail: String,
}

#[verifier::ext_equal]
pub struct EndpointV {
    pub proxy: bool,
    pub ready: bool,
    pub models: JsonV,
    pub detail: Seq<char>,
}

impl EndpointStatus {
    pub open spec fn view(&self) -> EndpointV {
        EndpointV {
            proxy: self.proxy,
            ready: self.ready,
            models: self.models@,
            detail: self.detail@,
        }
    }
}

/// Whether an answer about its health comes from this proxy.
pub open spec fn proxy_v(health: Option<JsonV>) -> bool {
    match health {
        Some(h) => h.get_text("service"@) == Some("grok-build-proxy"@),
        None => false,
    }
}

pub fn is_proxy(health: &Option<Json>) -> (r: bool)
    ensures
        r == proxy_v(json::opt_owned(*health)),
{
    match health {
        Some(h) => match h.get_str("service") {
            Some(s) => same(s, "grok-build-proxy"),
            None => false,
        },
        None => false,
    }
}

/// A model in a list, by its name.
pub open spec fn with_model_v(models: JsonV, value: JsonV) -> JsonV {
    match value.get_text("id"@) {
        Some(id) => models.with(id, value),
        None => models,
    }
}

pub open spec fn by_name_v(items: Seq<JsonV>) -> JsonV
    decreases items.len(),
{
    if items.len() == 0 {
        json::empty_v()
    } else {
        with_model_v(by_name_v(items.drop_last()), items.last())
    }
}

/// The models in an answer.
pub open spec fn offered_v(body: Option<JsonV>) -> JsonV {
    match body {
        Some(b) => match b.get_list("data"@) {
            Some(items) => by_name_v(items),
            None => json::empty_v(),
        },
        None => json::empty_v(),
    }
}

fn by_name(items: &Vec<Json>) -> (r: Json)
    ensures
        r@ == by_name_v(json::items_v(items@)),
        r@.is_obj(),
{
    let ghost all = json::items_v(items@);
    let mut out = Json::object();
    let mut i: usize = 0;
    proof {
        json::items_len(items@);
        assert(all.take(0) =~= Seq::<JsonV>::empty());
    }
    while i < items.len()
        invariant
            i <= items@.len(),
            all == json::items_v(items@),
            all.len() == items@.len(),
            out@ == by_name_v(all.take(i as int)),
            out@.is_obj(),
        decreases items@.len() - i,
    {
        proof {
            json::items_at(items@, i as int);
            assert(all.take(i + 1).drop_last() =~= all.take(i as int));
        }
        if let Some(id) = items[i].get_str("id") {
            out.set(id, items[i].copy());
        }
        i += 1;
    }
    assert(all.take(i as int) =~= all);
    out
}

pub fn offered_models(body: &Option<Json>) -> (r: Json)
    ensures
        r@ == offered_v(json::opt_owned(*body)),
{
    match body {
        Some(b) => match b.get_array("data") {
            Some(items) => by_name(items),
            None => Json::object(),
        },
        None => Json::object(),
    }
}

pub open spec fn unknown_v(detail: Seq<char>) -> EndpointV {
    EndpointV { proxy: false, ready: false, models: json::empty_v(), detail }
}

/// What is known of an endpoint that could not be reached.
pub fn unreachable_endpoint(error: &str) -> (r: EndpointStatus)
    ensures
        r@ == unknown_v("proxy unreachable: "@ + error@),
{
    EndpointStatus {
        proxy: false,
        ready: false,
        models: Json::object(),
        detail: text::cat("proxy unreachable: ", error),
    }
}

/// What is known of an endpoint from its answers about its health, its
/// readiness and its models.
pub open spec fn endpoint_v(health: Option<JsonV>, ready: bool, models: Option<JsonV>) -> EndpointV {
    if !proxy_v(health) {
        unknown_v("health endpoint is not grok-build-proxy"@)
    } else {
        EndpointV {
            proxy: true,
            ready,
            models: offered_v(models),
            detail: if ready {
                ""@
            } else {
                "proxy is not ready"@
            },
        }
    }
}

pub fn endpoint_status(health: &Option<Json>, ready: bool, models: &Option<Json>) -> (r:
    EndpointStatus)
    ensures
        r@ == endpoint_v(json::opt_owned(*health), ready, json::opt_owned(*models)),
{
    if !is_proxy(health) {
        return EndpointStatus {
            proxy: false,
            ready: false,
            models: Json::object(),
            detail: text::owned("health endpoint is not grok-build-proxy"),
        };
    }
    EndpointStatus {
        proxy: true,
        ready,
        models: offered_models(models),
        detail: text::owned(
            if ready {
                ""
            } else {
                "proxy is not ready"
            },
        ),
    }
}

#[verifier::ext_equal]
pub struct StatusV {
    pub alias: Seq<char>,
    pub model: Seq<char>,
    pub service_tier: Seq<char>,
    pub configured: bool,
    pub proxy: bool,
    pub ready: bool,
    pub advertised: bool,
    pub metadata: bool,
    pub detail: Seq<char>,
}

impl ModelStatus {
    pub open spec fn view(&self) -> StatusV {
        StatusV {
            alias: self.alias@,
            model: self.model@,
            service_tier: self.service_tier@,
            configured: self.configured,
            proxy: self.proxy,
            ready: self.ready,
            advertised: self.advertised,
            metadata: self.metadata,
            detail: self.detail@,
        }
    }
}

/// The key of a model, or nothing.
pub open spec fn key_of_v(c: TableV, alias: Seq<char>) -> Seq<char> {
    match config::raw_key_v(c, alias) {
        Ok(k) => k,
        Err(_) => Seq::empty(),
    }
}

pub fn key_of(config: &GrokConfig, alias: &str) -> (r: String)
    ensures
        r@ == key_of_v(config@.contents(), alias@),
{
    match config.raw_api_key(alias) {
        Ok(k) => k,
        Err(_) => String::new(),
    }
}

/// Whether a model's entry says of it what the catalog does.
pub open spec fn window_matches_v(c: TableV, alias: Seq<char>, model: Seq<char>) -> bool {
    toml::int_of_v(toml::field_v(c, "model"@, alias, "context_window"@)) == Some(
        numbers::signed_v(catalog::model_v(catalog::norm_v(model).0).context_window),
    )
}

/// Whether a fast model is advertised as one.
pub open spec fn fast_matches_v(advertised: Option<JsonV>, model: Seq<char>) -> bool {
    match advertised {
        Some(v) => v.get_text("service_tier"@) == Some("priority"@) && v.get_text(
            "target_model"@,
        ) == Some(model),
        None => false,
    }
}

pub open spec fn metadata_v(
    c: TableV,
    alias: Seq<char>,
    model: Seq<char>,
    advertised: Option<JsonV>,
) -> bool {
    let (base, fast) = catalog::norm_v(model);
    window_matches_v(c, alias, base) && (!fast || (catalog::fast_v(base) && fast_matches_v(
        advertised,
        model,
    )))
}

pub open spec fn key_matches_v(key: Seq<char>, client: Seq<char>) -> bool {
    text::trim_v(client).len() == 0 || key == text::trim_v(client)
}

pub open spec fn line_v(when: bool, line: Seq<char>) -> Seq<Seq<char>> {
    if when {
        seq![line]
    } else {
        Seq::empty()
    }
}

pub open spec fn details_v(
    record: RecordV,
    listen: Seq<char>,
    key_matches: bool,
    endpoint: EndpointV,
) -> Seq<Seq<char>> {
    record.errors + line_v(
        record.base_url != grokconfig::base_url_v(listen),
        "endpoint differs from http://"@ + listen + "/v1"@,
    ) + line_v(!key_matches, "configured API key does not match the proxy client token"@) + line_v(
        endpoint.detail.len() > 0,
        endpoint.detail,
    )
}

/// How a configured model stands with the proxy that should serve it.
pub open spec fn status_v(
    c: TableV,
    record: RecordV,
    listen: Seq<char>,
    client: Seq<char>,
    endpoint: EndpointV,
) -> StatusV {
    let advertised = endpoint.models.get(record.model);
    let matches = key_matches_v(key_of_v(c, record.alias), client);
    StatusV {
        alias: record.alias,
        model: record.model,
        service_tier: record.service_tier,
        configured: record.valid && record.base_url == grokconfig::base_url_v(listen) && matches,
        proxy: endpoint.proxy,
        ready: endpoint.ready,
        advertised: advertised is Some,
        metadata: metadata_v(c, record.alias, record.model, advertised),
        detail: text::join_v(details_v(record, listen, matches, endpoint), "; "@),
    }
}

fn is_fast_offer(advertised: Option<&Json>, model: &str) -> (r: bool)
    ensures
        r == fast_matches_v(json::opt_json(advertised), model@),
{
    match advertised {
        Some(v) => {
            let tier = match v.get_str("service_tier") {
                Some(s) => same(s, "priority"),
                None => false,
            };
            tier && match v.get_str("target_model") {
                Some(s) => same(s, model),
                None => false,
            }
        },
        None => false,
    }
}

fn has_metadata(config: &GrokConfig, alias: &str, model: &str, advertised: Option<&Json>) -> (r:
    bool)
    ensures
        r == metadata_v(config@.contents(), alias@, model@, json::opt_json(advertised)),
{
    let (base, fast) = normalize_id(model);
    let catalog = Catalog::new("");
    let (known, _) = catalog.lookup(&base);
    let window = match config.field_number(alias, "context_window") {
        Some(n) => n == signed(known.context_window),
        None => false,
    };
    window && (!fast || (supports_fast(&base) && is_fast_offer(advertised, model)))
}

fn add_when(lines: &mut Vec<String>, when: bool, line: String)
    ensures
        text::views(final(lines)@) == text::views(old(lines)@) + line_v(when, line@),
{
    let ghost before = text::views(lines@);
    if when {
        assert(text::views(lines@.push(line)) =~= before + seq![line@]);
        lines.push(line);
    } else {
        assert(before + Seq::<Seq<char>>::empty() =~= before);
    }
}

/// How a configured model stands with the proxy that should serve it.
pub fn model_status(
    config: &GrokConfig,
    record: ModelRecord,
    listen: &str,
    client: &str,
    endpoint: &EndpointStatus,
) -> (r: ModelStatus)
    ensures
        r@ == status_v(config@.contents(), record@, listen@, client@, endpoint@),
{
    let key = key_of(config, &record.alias);
    let token = text::trim(client);
    let matches = token.as_str().is_empty() || same(&key, &token);
    let expected = base_url(listen);
    let here = same(&record.base_url, &expected);
    let advertised = endpoint.models.get(&record.model);
    let metadata = has_metadata(config, &record.alias, &record.model, advertised);
    let offered = advertised.is_some();
    let valid = record.valid;
    let mut details = record.errors;
    add_when(&mut details, !here, text::cat3("endpoint differs from http://", listen, "/v1"));
    add_when(
        &mut details,
        !matches,
        text::owned("configured API key does not match the proxy client token"),
    );
    add_when(&mut details, !endpoint.detail.as_str().is_empty(), text::owned(&endpoint.detail));
    ModelStatus {
        alias: record.alias,
        model: record.model,
        service_tier: record.service_tier,
        configured: valid && here && matches,
        proxy: endpoint.proxy,
        ready: endpoint.ready,
        advertised: offered,
        metadata,
        detail: text::join(&details, "; "),
    }
}

/// The models whose status is asked for: one, or all of this proxy.
pub fn select_records(config: &GrokConfig, alias: Option<&str>) -> (r: Result<
    Vec<ModelRecord>,
    String,
>)
    ensures
        match alias {
            Some(a) => match config::find_v(config@.contents(), a@) {
                Ok(one) => r is Ok && config::views(r->Ok_0@) == seq![one],
                Err(e) => r is Err && r->Err_0@ == e,
            },
            None => r is Ok && config::records_v(config@.contents(), config::views(r->Ok_0@)),
        },
{
    match alias {
        Some(a) => match config.record(a) {
            Ok(one) => {
                let mut out: Vec<ModelRecord> = Vec::new();
                out.push(one);
                assert(config::views(out@) =~= seq![one@]);
                Ok(out)
            },
            Err(e) => Err(e),
        },
        None => Ok(config.records()),
    }
}

/// A model that a proxy lists is found under its name, as the proxy describes it;
/// the other names stay as they were.
pub proof fn listed_models_are_found(items: Seq<JsonV>, item: JsonV, id: Seq<char>, other: Seq<char>)
    requires
        item.get_text("id"@) == Some(id),
    ensures
        by_name_v(items.push(item)).get(id) == Some(item),
        other != id ==> by_name_v(items.push(item)).get(other) == by_name_v(items).get(other),
{
    assert(items.push(item).drop_last() =~= items);
    lists_are_objects(items);
}

proof fn lists_are_objects(items: Seq<JsonV>)
    ensures
        by_name_v(items).is_obj(),
    decreases items.len(),
{
    if items.len() > 0 {
        lists_are_objects(items.drop_last());
    }
}

/// An endpoint that does not name this proxy offers nothing, whatever it says of
/// its models; one that does offers what it lists.
pub proof fn strangers_offer_nothing(health: JsonV, ready: bool, models: JsonV, k: Seq<char>)
    ensures
        ({
            let e = endpoint_v(Some(health), ready, Some(models));
            &&& e.proxy <==> health.get_text("service"@) == Some("grok-build-proxy"@)
            &&& !e.proxy ==> !e.ready && e.models.get(k) is None
            &&& e.proxy ==> e.ready == ready
            &&& e.proxy && models.get_list("data"@) is None ==> e.models.get(k) is None
        }),
{
}

/// A model stands well with its proxy only where its entry is whole, points to
/// that proxy with the token it asks for, and is on offer there.
pub proof fn statuses_are_of_the_model(
    c: TableV,
    record: RecordV,
    listen: Seq<char>,
    client: Seq<char>,
    e: EndpointV,
)
    ensures
        ({
            let s = status_v(c, record, listen, client, e);
            &&& s.alias == record.alias
            &&& s.model == record.model
            &&& s.service_tier == record.service_tier
            &&& s.proxy == e.proxy
            &&& s.ready == e.ready
            &&& s.configured ==> record.valid && record.base_url == "http://"@
                + text::trim_end_of_v(listen, '/') + "/v1"@
            &&& s.configured && text::trim_v(client).len() > 0 ==> config::raw_key_v(
                c,
                record.alias,
            ) == Ok::<Seq<char>, Seq<char>>(text::trim_v(client))
            &&& s.advertised <==> e.models.get(record.model) is Some
        }),
{
}

/// The root of a proxy is what its base URL says before the version.
pub proof fn roots_lead_back(root: Seq<char>)
    requires
        root.len() == 0 || root.last() != '/',
    ensures
        root_v(root + "/v1"@) == root,
        root_v(root + "/v1"@ + "/"@) == root,
{
    reveal_strlit("/v1");
    reveal_strlit("/");
    let s = root + "/v1"@;
    assert(s.last() == '1');
    assert(text::trim_end_of_v(s, '/') == s);
    assert(s.skip(s.len() - 3) =~= "/v1"@);
    assert(s.take(s.len() - 3) =~= root);
    let t = s + "/"@;
    assert(t.drop_last() =~= s);
    assert(t.last() == '/');
}

} // verus!
