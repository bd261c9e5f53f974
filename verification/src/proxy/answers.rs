//! What clients are answered, and what is told of a request when it has ended.

use vstd::prelude::*;

use crate::catalog;
use crate::catalog::ModelV;
use crate::events;
use crate::events::capture;
use crate::events::capture::CaptureV;
use crate::events::usage;
use crate::events::usage::UsageV;
use crate::events::{EventV, FailureKind, RequestEventKind, TokenUsage};
use crate::json;
use crate::json::JsonV;
use crate::modelmap;
use crate::modelmap::EntryV;
use crate::provider::kimi::auth::HeaderV;
use crate::provider::Provider;
use crate::proxy::headers;
use crate::proxy::headers::FieldV;
use crate::proxy::identity;
use crate::proxy::identity::IdentityV;
use crate::proxy::request::TransformedV;
use crate::proxy::respond;
use crate::proxy::respond::{Handling, Stage};
use crate::proxy::routes;
use crate::proxy::routes::{OutcomeV, ReadyStepV, ReplyV, RouteV};
use crate::proxy::stream;
use crate::proxy::CompatMode;
use crate::sse;
use crate::text;
use crate::words;

verus! {

/// An error reply: its status, and the kind and the message in its body.
pub open spec fn refuses_v(r: ReplyV, status: u16, kind: Seq<char>, message: Seq<char>) -> bool {
    &&& r.status == status
    &&& r.body.get("error"@) matches Some(e)
    &&& e.get_text("type"@) == Some(kind)
    &&& e.get_text("message"@) == Some(message)
}

/// An error is answered with its status, its kind and its message.
pub proof fn errors_say_what_is_wrong(status: u16, kind: Seq<char>, message: Seq<char>)
    ensures
        refuses_v(routes::error_v(status, kind, message), status, kind, message),
        routes::error_v(status, kind, message).authenticate is None,
        routes::unauthorized_v().status == 401,
        routes::unauthorized_v().authenticate is Some,
        routes::not_found_v().status == 404,
        routes::method_not_allowed_v().status == 405,
{
    words::replies();
}

/// Who does not know the token is turned away from all but the question for
/// health, and who knows it is not turned away for want of it.
pub proof fn strangers_are_turned_away(
    token: Seq<char>,
    fields: Seq<FieldV>,
    flag: bool,
    provider: Option<Seq<char>>,
    kimi: bool,
    map: Seq<EntryV>,
    models: Seq<ModelV>,
)
    ensures
        ({
            let known = headers::authorized_v(token, headers::get_v(fields, "authorization"@));
            let entry = respond::entry_v(token, fields, flag);
            let ready = routes::ready_step_v(
                token,
                headers::get_v(fields, "authorization"@),
                flag,
                provider,
                kimi,
            );
            let list = routes::models_v(
                token,
                headers::get_v(fields, "authorization"@),
                flag,
                map,
                models,
            );
            &&& !known ==> (entry matches Some(r) && r.status == 401) && (ready
                matches ReadyStepV::Answer(r) && r.status == 401) && list.status == 401
            &&& known && !flag ==> (entry matches Some(r) && r.status == 405) && (ready
                matches ReadyStepV::Answer(r) && r.status == 405) && list.status == 405
            &&& known && flag ==> entry is None && list.status == 200
        }),
{
}

/// Health is told to anyone who asks for it: the service, its version and how many
/// substitutions there are.
pub proof fn health_is_told(version: Seq<char>, n: nat)
    requires
        n <= u64::MAX,
    ensures
        ({
            let r = routes::health_v(true, version, n);
            &&& r.status == 200
            &&& r.body.get("ok"@) == Some(JsonV::Bool(true))
            &&& r.body.get_text("service"@) == Some("grok-build-proxy"@)
            &&& r.body.get_text("version"@) == Some(version)
            &&& r.body.get_uint("model_substitutions"@) == Some(n as u64)
            &&& routes::health_v(false, version, n).status == 405
        }),
{
    words::replies();
}

/// Readiness is that of the provider that was asked for, and of either where none
/// was; one that is not there is answered so.
pub proof fn readiness_is_of_the_provider(
    token: Seq<char>,
    authorization: Option<Seq<char>>,
    provider: Option<Seq<char>>,
    kimi: bool,
    error: Seq<char>,
)
    requires
        headers::authorized_v(token, authorization),
    ensures
        ({
            let step = routes::ready_step_v(token, authorization, true, provider, kimi);
            &&& provider == Some("codex"@) ==> step == ReadyStepV::Codex
            &&& provider == Some("kimi"@) && kimi ==> step == ReadyStepV::Kimi
            &&& provider == Some("kimi"@) && !kimi ==> (step matches ReadyStepV::Answer(r)
                && r.status == 503)
            &&& provider matches Some(p) ==> p != "codex"@ && p != "kimi"@ ==> (step
                matches ReadyStepV::Answer(r) && r.status == 400)
            &&& provider is None ==> step == if kimi {
                ReadyStepV::Either
            } else {
                ReadyStepV::Codex
            }
            &&& routes::ready_answer_v(provider, None).status == 200
            &&& routes::ready_answer_v(provider, None).body.get("ok"@) == Some(JsonV::Bool(true))
            &&& provider matches Some(p) ==> routes::ready_answer_v(provider, None).body.get_text(
                "provider"@,
            ) == Some(p)
            &&& refuses_v(
                routes::ready_answer_v(provider, Some(error)),
                503,
                "authentication_error"@,
                error,
            )
        }),
{
    words::replies();
}

/// A route as a client sees it: its own name, what it is called, its window, who
/// serves it, and, where it is another model under this name or a fast one, which
/// model it is.
pub proof fn routes_are_shown(r: RouteV)
    ensures
        ({
            let v = routes::route_json_v(r);
            &&& v.get_text("id"@) == Some(r.id)
            &&& v.get_text("object"@) == Some("model"@)
            &&& v.get_text("name"@) == Some(r.name)
            &&& v.get_text("description"@) == Some(r.description)
            &&& v.get_text("owned_by"@) == Some(r.provider.owner_v())
            &&& v.get_uint("context_window"@) == Some(r.context)
            &&& v.get_text("api_backend"@) == Some("responses"@)
            &&& !r.fast && r.id == r.target ==> v.get("target_model"@) is None
            &&& !r.fast && r.id != r.target ==> v.get_text("target_model"@) == Some(r.target)
            &&& r.fast ==> v.get_text("target_model"@) == Some(r.target + "-fast"@)
            &&& r.fast <==> v.get("service_tier"@) is Some
            &&& r.fast ==> v.get_text("service_tier"@) == Some("priority"@)
            &&& r.reasoning matches Some(c) ==> {
                &&& v.get("supports_reasoning_effort"@) == Some(JsonV::Bool(true))
                &&& v.get_text("reasoning_effort"@) == Some(c.default_effort)
                &&& v.get_list("reasoning_efforts"@) matches Some(list)
                &&& list.len() == c.efforts.len()
                &&& forall|i: int|
                    0 <= i < list.len() ==> (#[trigger] list[i]).get_text("value"@) == Some(
                        c.efforts[i].value,
                    ) && list[i].get_text("label"@) == Some(c.efforts[i].label)
                        && list[i].get_text("description"@) == Some(c.efforts[i].description)
                        && list[i].get("default"@) == Some(JsonV::Bool(c.efforts[i].default))
            }
        }),
{
    words::replies();
    assert(r.target + Seq::<char>::empty() =~= r.target);
}

/// The list of models holds every route, in order.
pub proof fn lists_show_every_route(
    token: Seq<char>,
    authorization: Option<Seq<char>>,
    map: Seq<EntryV>,
    models: Seq<ModelV>,
)
    requires
        headers::authorized_v(token, authorization),
    ensures
        ({
            let r = routes::models_v(token, authorization, true, map, models);
            let all = routes::all_routes_v(map, models);
            &&& r.status == 200
            &&& r.body.get_text("object"@) == Some("list"@)
            &&& r.body.get_list("data"@) matches Some(data)
            &&& data.len() == all.len()
            &&& forall|i: int|
                0 <= i < data.len() ==> #[trigger] data[i] == routes::route_json_v(all[i])
        }),
{
    words::replies();
}

proof fn added_is_there(routes: Seq<RouteV>, r: RouteV)
    ensures
        r.id.len() > 0 && !routes::listed_v(routes, r.id) ==> routes::add_v(routes, r).contains(r),
        forall|x: RouteV| #[trigger]
            routes.contains(x) ==> routes::add_v(routes, r).contains(x),
        forall|x: RouteV| #[trigger]
            routes::add_v(routes, r).contains(x) ==> x == r || routes.contains(x),
{
    let all = routes::add_v(routes, r);
    if r.id.len() > 0 && !routes::listed_v(routes, r.id) {
        assert(all[routes.len() as int] == r);
        assert forall|x: RouteV| #[trigger] routes.contains(x) implies all.contains(x) by {
            let i = choose|i: int| 0 <= i < routes.len() && routes[i] == x;
            assert(all[i] == x);
        }
        assert forall|x: RouteV| #[trigger] all.contains(x) implies x == r || routes.contains(
            x,
        ) by {
            let i = choose|i: int| 0 <= i < all.len() && all[i] == x;
            if i < routes.len() {
                assert(routes[i] == x);
            }
        }
    }
}

proof fn fast_routes_keep(routes: Seq<RouteV>, base: Seq<RouteV>)
    ensures
        forall|x: RouteV| #[trigger]
            routes.contains(x) ==> routes::fast_routes_v(routes, base).contains(x),
    decreases base.len(),
{
    if base.len() > 0 {
        fast_routes_keep(routes, base.drop_last());
        added_is_there(
            routes::fast_routes_v(routes, base.drop_last()),
            routes::fast_route_v(base.last()),
        );
    }
}

/// A model on offer is listed under its name as it is, unless a substitution or
/// another model has that name.
pub proof fn models_are_shown_as_they_are(map: Seq<EntryV>, models: Seq<ModelV>, i: int)
    requires
        0 <= i < models.len(),
        models[i].id.len() > 0,
        forall|j: int| 0 <= j < map.len() ==> (#[trigger] map[j]).source != models[i].id,
        forall|j: int| 0 <= j < i ==> (#[trigger] models[j]).id != models[i].id,
    ensures
        exists|r: RouteV| #[trigger]
            routes::all_routes_v(map, models).contains(r) && r.id == models[i].id && r.target
                == models[i].upstream_id && r.name == models[i].display_name && r.description
                == models[i].description && r.context == models[i].context_window && !r.fast
                && r.reasoning == models[i].reasoning && r.provider == models[i].provider,
{
    let mapped = routes::mapped_routes_v(map, map.len() as int);
    let base = routes::model_routes_v(mapped, models);
    let m = models[i];
    let r = routes::model_route_v(m);
    mapped_names(map, map.len() as int, m.id);
    let before = models.take(i);
    assert forall|j: int| 0 <= j < before.len() implies (#[trigger] before[j]).id != m.id by {
        assert(before[j] == models[j]);
    }
    model_names(mapped, before, m.id);
    assert(models.take(i + 1).drop_last() =~= before);
    assert(models.take(i + 1).last() == m);
    added_is_there(routes::model_routes_v(mapped, before), r);
    model_tail_keeps(mapped, models, i + 1);
    fast_routes_keep(base, base);
    assert(routes::model_routes_v(mapped, models.take(i + 1)).contains(r));
    assert(base.contains(r));
    assert(routes::all_routes_v(map, models).contains(r));
}

proof fn model_tail_keeps(routes: Seq<RouteV>, models: Seq<ModelV>, n: int)
    requires
        0 <= n <= models.len(),
    ensures
        forall|x: RouteV| #[trigger]
            routes::model_routes_v(routes, models.take(n)).contains(x) ==> routes::model_routes_v(
                routes,
                models,
            ).contains(x),
    decreases models.len() - n,
{
    if n < models.len() {
        model_tail_keeps(routes, models, n + 1);
        assert(models.take(n + 1).drop_last() =~= models.take(n));
        added_is_there(
            routes::model_routes_v(routes, models.take(n)),
            routes::model_route_v(models[n]),
        );
        assert(models.take(n + 1).last() == models[n]);
        let (before, after) = (
            routes::model_routes_v(routes, models.take(n)),
            routes::model_routes_v(routes, models.take(n + 1)),
        );
        assert(after == routes::add_v(before, routes::model_route_v(models[n])));
        assert forall|x: RouteV| #[trigger] before.contains(x) implies routes::model_routes_v(
            routes,
            models,
        ).contains(x) by {
            assert(after.contains(x));
        }
    } else {
        assert(models.take(n) =~= models);
    }
}

proof fn mapped_names(map: Seq<EntryV>, n: int, id: Seq<char>)
    requires
        0 <= n <= map.len(),
        forall|j: int| 0 <= j < map.len() ==> (#[trigger] map[j]).source != id,
    ensures
        !routes::listed_v(routes::mapped_routes_v(map, n), id),
    decreases n,
{
    if n > 0 {
        mapped_names(map, n - 1, id);
        let before = routes::mapped_routes_v(map, n - 1);
        let r = routes::mapped_route_v(map, map[n - 1].source);
        not_listed(before, r, id);
    }
}

proof fn not_listed(routes: Seq<RouteV>, r: RouteV, id: Seq<char>)
    requires
        !routes::listed_v(routes, id),
        r.id != id,
    ensures
        !routes::listed_v(routes::add_v(routes, r), id),
{
    let all = routes::add_v(routes, r);
    assert forall|i: int| 0 <= i < all.len() implies (#[trigger] all[i]).id != id by {
        if i < routes.len() {
            assert(routes[i].id != id);
        }
    }
}

proof fn model_names(routes: Seq<RouteV>, models: Seq<ModelV>, id: Seq<char>)
    requires
        !routes::listed_v(routes, id),
        forall|j: int| 0 <= j < models.len() ==> (#[trigger] models[j]).id != id,
    ensures
        !routes::listed_v(routes::model_routes_v(routes, models), id),
    decreases models.len(),
{
    if models.len() > 0 {
        let d = models.drop_last();
        assert forall|j: int| 0 <= j < d.len() implies (#[trigger] d[j]).id != id by {
            assert(d[j] == models[j]);
        }
        model_names(routes, d, id);
        assert(models[models.len() - 1].id != id);
        not_listed(
            routes::model_routes_v(routes, d),
            routes::model_route_v(models.last()),
            id,
        );
    }
}

/// A substitution is shown under its source, and can what the model can that it
/// leads to.
pub proof fn substitutions_are_shown(map: Seq<EntryV>, source: Seq<char>)
    ensures
        ({
            let r = routes::mapped_route_v(map, source);
            let resolved = modelmap::resolve_v(map, source);
            let m = catalog::model_v(catalog::norm_v(resolved.model).0);
            &&& r.id == source
            &&& r.target == resolved.model
            &&& r.context == m.context_window
            &&& r.reasoning == m.reasoning
            &&& r.provider == m.provider
            &&& r.fast ==> resolved.fast && m.provider == Provider::Codex
            &&& resolved.fast && m.provider == Provider::Codex ==> r.fast
        }),
{
}

/// A header field is there.
pub open spec fn carries_v(s: Seq<HeaderV>, name: Seq<char>, value: Seq<char>) -> bool {
    s.contains((name, value))
}

proof fn part_carries(a: Seq<HeaderV>, b: Seq<HeaderV>, f: HeaderV)
    requires
        a.contains(f) || b.contains(f),
    ensures
        (a + b).contains(f),
{
    if a.contains(f) {
        let i = choose|i: int| 0 <= i < a.len() && a[i] == f;
        assert((a + b)[i] == f);
    } else {
        let i = choose|i: int| 0 <= i < b.len() && b[i] == f;
        assert((a + b)[a.len() + i] == f);
    }
}

/// A request to Codex carries the identities of the request, the kind of answer
/// that is wanted, the account, and for a Responses Lite model its mark.
pub proof fn codex_is_told_who_asks(
    t: TransformedV,
    id: IdentityV,
    version: Seq<char>,
    compatibility: Seq<char>,
    account: Seq<char>,
    fields: Seq<FieldV>,
)
    ensures
        ({
            let h = respond::codex_headers_v(t, id, version, compatibility, account, fields);
            &&& carries_v(h, "content-type"@, "application/json"@)
            &&& carries_v(
                h,
                "accept"@,
                if t.stream {
                    "text/event-stream"@
                } else {
                    "application/json"@
                },
            )
            &&& carries_v(h, "session-id"@, id.thread_id)
            &&& carries_v(h, "thread-id"@, id.thread_id)
            &&& carries_v(h, "x-client-request-id"@, id.request_id)
            &&& carries_v(h, "x-codex-window-id"@, id.thread_id + ":0"@)
            &&& carries_v(h, "version"@, compatibility)
            &&& carries_v(h, "user-agent"@, "grok-build-proxy/"@ + version)
            &&& account.len() > 0 ==> carries_v(h, "chatgpt-account-id"@, account)
            &&& t.lite ==> carries_v(h, "x-openai-internal-codex-responses-lite"@, "true"@)
            &&& t.lite ==> carries_v(h, "originator"@, "codex_cli_rs"@)
        }),
{
    let base = respond::codex_base_v(t, id, version, compatibility);
    let (a, b, c, d, e) = (
        respond::affinity_v(id.cache_key),
        respond::lite_headers_v(t.lite),
        respond::account_header_v(account),
        respond::trace_v(fields, "traceparent"@),
        respond::trace_v(fields, "tracestate"@),
    );
    assert forall|i: int| 0 <= i < base.len() implies respond::codex_headers_v(
        t,
        id,
        version,
        compatibility,
        account,
        fields,
    ).contains(#[trigger] base[i]) by {
        part_carries(base, a, base[i]);
        part_carries(base + a, b, base[i]);
        part_carries(base + a + b, c, base[i]);
        part_carries(base + a + b + c, d, base[i]);
        part_carries(base + a + b + c + d, e, base[i]);
    }
    assert(base[0].0 == "content-type"@ && base[1].0 == "accept"@ && base[2].0 == "user-agent"@
        && base[3].0 == "originator"@ && base[4].0 == "session-id"@ && base[5].0 == "thread-id"@
        && base[6].0 == "x-client-request-id"@ && base[7].0 == "x-codex-window-id"@ && base[8].0
        == "version"@);
    if t.lite {
        assert(b[0].0 == "x-openai-internal-codex-responses-lite"@);
        part_carries(base + a, b, b[0]);
        part_carries(base + a + b, c, b[0]);
        part_carries(base + a + b + c, d, b[0]);
        part_carries(base + a + b + c + d, e, b[0]);
    }
    if account.len() > 0 {
        assert(c[0].0 == "chatgpt-account-id"@);
        part_carries(base + a + b, c, c[0]);
        part_carries(base + a + b + c, d, c[0]);
        part_carries(base + a + b + c + d, e, c[0]);
    }
}

/// Whose thread a request belongs to: the session that its headers name, else the
/// conversation, else the request itself; and which request it is.
pub proof fn identities_come_from_headers(
    fields: Seq<FieldV>,
    body: Option<JsonV>,
    fallback: Seq<char>,
)
    ensures
        ({
            let id = identity::identity_v(fields, body, fallback);
            let given = |name: Seq<char>| match headers::get_v(fields, name) {
                Some(v) => if headers::valid_v(v) {
                    Some(v)
                } else {
                    None
                },
                None => None,
            };
            &&& given("x-grok-session-id"@) matches Some(s) ==> id.thread_id == s
            &&& given("x-grok-session-id"@) is None ==> (given("x-grok-conv-id"@) matches Some(s)
                ==> id.thread_id == s)
            &&& given("x-grok-req-id"@) matches Some(s) ==> id.request_id == s
            &&& given("x-grok-req-id"@) is None ==> (given("x-request-id"@) matches Some(s)
                ==> id.request_id == s)
            &&& given("x-grok-req-id"@) is None && given("x-request-id"@) is None ==> id.request_id
                == fallback
            &&& given("x-grok-session-id"@) is None && given("x-grok-conv-id"@) is None
                ==> id.thread_id == id.request_id
        }),
{
    let none = Seq::<Seq<char>>::empty();
    assert(seq!["x-grok-session-id"@].drop_last() =~= none);
    assert(seq!["x-grok-conv-id"@].drop_last() =~= none);
    assert(seq!["x-grok-req-id"@, "x-request-id"@].drop_last() =~= seq!["x-grok-req-id"@]);
    assert(seq!["x-grok-req-id"@].drop_last() =~= none);
    assert(headers::first_valid_v(fields, none) is None);
    assert(headers::first_valid_v(fields, seq!["x-grok-req-id"@]) == (match headers::get_v(
        fields,
        "x-grok-req-id"@,
    ) {
        Some(v) => if headers::valid_v(v) {
            Some(v)
        } else {
            None
        },
        None => None,
    }));
}

/// A request that is taken is told of under its own names: the model that was
/// asked for and the one that serves it, its thread and its ID.
pub proof fn starts_are_told(t: TransformedV, id: IdentityV, request_id: Seq<char>, now: u64)
    ensures
        ({
            let e = respond::event_of_v(t, id, request_id, now);
            &&& e.kind == RequestEventKind::Started
            &&& e.request_id == request_id
            &&& e.session_id == id.thread_id
            &&& e.requested_model == t.requested_model
            &&& e.model == t.model
            &&& e.mapped == t.mapped && e.lite == t.lite && e.fast == t.fast
            &&& e.started_at == now
            &&& e.attempt == 1 && !e.auth_retried
            &&& e.failure_kind is None && e.usage is None && e.output_tokens == 0
        }),
{
}

/// A failure to reach upstream is answered as such, with its message, and told of
/// with the kind that it is.
pub proof fn unreachable_upstreams_are_told(event: EventV, message: Seq<char>, now: u64)
    ensures
        ({
            let (sent, reply) = respond::failure_v(event, Stage::Send, message, now);
            let (broken, other) = respond::failure_v(event, Stage::Body, message, now);
            &&& refuses_v(reply, 502, "upstream_error"@, message)
            &&& refuses_v(other, 502, "upstream_error"@, message)
            &&& sent.kind == RequestEventKind::Failed && broken.kind == RequestEventKind::Failed
            &&& sent.failure_kind == Some(
                if event.auth_retried {
                    FailureKind::AuthRetryFailed
                } else {
                    FailureKind::UpstreamConnect
                },
            )
            &&& broken.failure_kind == Some(FailureKind::StreamIo)
            &&& sent.status_code == 502 && broken.status_code == 502
            &&& sent.error == events::sanitize_v(message)
            &&& sent.request_id == event.request_id && sent.session_id == event.session_id
            &&& sent.model == event.model
        }),
{
    words::replies();
}

/// An error of Kimi is answered with its status, its type and its message.
pub proof fn kimi_errors_are_passed_on(body: JsonV, status: u16, error: JsonV)
    requires
        body.get("error"@) == Some(error),
    ensures
        ({
            let (kind, message) = stream::kimi_error_v(Some(body), status);
            &&& error.get_text("type"@) matches Some(s) ==> s.len() > 0 ==> kind == s
            &&& error.get_text("message"@) matches Some(s) ==> s.len() > 0 ==> message == s
            &&& error.text() matches Some(s) ==> s.len() > 0 ==> message == s
            &&& error.get_text("type"@) is None ==> kind == "upstream_error"@
        }),
{
}

/// The answers that are repaired are the streams of Responses Lite models, unless
/// the repair is off; those of Kimi are translated, and all others pass.
pub proof fn answers_are_handled(
    t: TransformedV,
    compat: CompatMode,
    status: u16,
    content_type: Option<Seq<char>>,
)
    ensures
        ({
            let plan = respond::plan_v(t, compat, status, content_type);
            let good = 200 <= status < 300;
            &&& t.provider == Provider::Kimi && !good <==> plan.handling == Handling::KimiError
            &&& t.provider == Provider::Kimi && good && t.stream <==> plan.handling
                == Handling::KimiStream
            &&& t.provider == Provider::Kimi && good && !t.stream <==> plan.handling
                == Handling::KimiWhole
            &&& plan.handling == Handling::Normalize ==> t.provider == Provider::Codex && t.lite
                && good && compat != CompatMode::Off && plan.is_sse
            &&& t.provider == Provider::Codex && t.lite && good && t.stream && compat
                != CompatMode::Off ==> plan.handling == Handling::Normalize
        }),
{
}

/// What is told of a request that has ended: it is the same request, with its
/// status, its usage and the time it took.
pub proof fn ends_tell_of_their_request(
    event: EventV,
    status: u16,
    captured: Seq<u8>,
    usage: Option<TokenUsage>,
    broken: Option<Seq<char>>,
    now: u64,
)
    ensures
        ({
            let e = stream::ended_v(event, status, captured, usage, broken, now);
            &&& e.request_id == event.request_id && e.session_id == event.session_id
            &&& e.model == event.model && e.requested_model == event.requested_model
            &&& e.provider == event.provider && e.started_at == event.started_at
            &&& e.mapped == event.mapped && e.lite == event.lite && e.fast == event.fast
            &&& e.attempt == event.attempt && e.auth_retried == event.auth_retried
            &&& e.diagnostics == event.diagnostics
            &&& e.status_code == status
            &&& e.usage == usage
            &&& usage matches Some(u) ==> e.output_tokens == u.output_tokens
            &&& usage is None ==> e.output_tokens == event.output_tokens
            &&& e.duration_ms == if now > event.started_at {
                (now - event.started_at) / 1_000_000
            } else {
                0
            }
            &&& e.kind == RequestEventKind::Completed || e.kind == RequestEventKind::Failed
        }),
{
}

/// How a request is judged at its end: a broken stream, credentials that were
/// refused twice, a bad status, an error of the proxy or of the stream make it a
/// failure of that kind; without any of these it is completed.
pub proof fn ends_are_judged(
    event: EventV,
    status: u16,
    captured: Seq<u8>,
    usage: Option<TokenUsage>,
    broken: Option<Seq<char>>,
    now: u64,
)
    ensures
        ({
            let e = stream::ended_v(event, status, captured, usage, broken, now);
            let d = capture::capture_v(text::utf8_lossy(captured));
            let good = 200 <= status < 300;
            if broken is Some {
                e.kind == RequestEventKind::Failed && e.failure_kind == Some(FailureKind::StreamIo)
            } else if event.auth_retried && status == 401 {
                e.kind == RequestEventKind::Failed && e.failure_kind == Some(
                    FailureKind::AuthRetryFailed,
                )
            } else if !good {
                e.kind == RequestEventKind::Failed && e.failure_kind == Some(
                    FailureKind::UpstreamHttp,
                )
            } else if d.has_proxy_error || (d.has_stream_terminal_failure
                && capture::is_proxy_error_v(d.error_type)) {
                e.kind == RequestEventKind::Failed && e.failure_kind == Some(
                    FailureKind::ProxyAssemble,
                )
            } else if d.has_stream_terminal_failure {
                e.kind == RequestEventKind::Failed && e.failure_kind == Some(
                    FailureKind::StreamTerminalFailed,
                )
            } else {
                e.kind == RequestEventKind::Completed && e.failure_kind == event.failure_kind
                    && e.error_type.len() == 0 && e.error.len() == 0
            }
        }),
{
    if broken is None {
        let empty = Seq::<char>::empty();
        assert(empty.take(0).map_values(|c: char| events::blanked_v(c)) =~= empty);
        assert(events::head_v(empty).len() == 0) by {
            assert(empty.take(events::min_v(0, events::SHOWN_CHARS as int)) =~= empty);
            assert(empty.map_values(|c: char| events::blanked_v(c)) =~= empty);
        }
    }
}

/// Where the client goes away before the end, that is a break of the stream; after
/// the end it is none.
pub proof fn leaving_early_is_a_failure(g: stream::GuardV, now: u64)
    ensures
        ({
            let d = capture::capture_v(text::utf8_lossy(g.capture));
            let ended = d.has_completed || d.has_stream_terminal_failure || d.has_proxy_error;
            let e = stream::dropped_v(g, now);
            &&& !ended ==> e.kind == RequestEventKind::Failed && e.failure_kind == Some(
                FailureKind::StreamIo,
            )
            &&& ended ==> e == stream::end_v(g, None, now)
        }),
{
}

/// The usage that is reported is counted as it is, in a response or in an event
/// that carries one.
pub proof fn usage_is_read(v: JsonV, u: JsonV)
    requires
        u.is_obj(),
        v.get("usage"@) == Some(u) && v.get("response"@) is None || (v.get("response"@) matches Some(
            r,
        ) && r.get("usage"@) == Some(u)),
    ensures
        ({
            let count = |x: Option<u64>| match x {
                Some(n) => n,
                None => 0u64,
            };
            &&& usage::reported_v(v) matches Some(t)
            &&& t.input_tokens == count(u.get_uint("input_tokens"@))
            &&& t.output_tokens == count(u.get_uint("output_tokens"@))
            &&& u.get("input_tokens_details"@) matches Some(d) ==> t.cached_input_tokens == count(
                d.get_uint("cached_tokens"@),
            ) && t.cache_write_tokens == count(d.get_uint("cache_write_tokens"@))
            &&& u.get("input_tokens_details"@) is None ==> t.cached_input_tokens == 0
                && t.cache_write_tokens == 0
        }),
{
}

/// The last usage in a stream counts, and frames without one change nothing.
pub proof fn the_last_usage_counts(s: UsageV, frame: Seq<u8>)
    requires
        s.sse,
        s.pending.len() == 0,
        sse::boundary_v(frame, 0) is Some,
        ({
            let (p, n) = sse::boundary_v(frame, 0)->0;
            p + n == frame.len()
        }),
    ensures
        ({
            let t = usage::push_v(s, frame);
            &&& t.pending.len() == 0
            &&& t.usage == if usage::frame_usage_v(frame) is Some {
                usage::frame_usage_v(frame)
            } else {
                s.usage
            }
        }),
{
    sse::boundary_within(frame, 0);
    let (p, n) = sse::boundary_v(frame, 0)->0;
    assert(s.pending + frame =~= frame);
    assert(frame.take(p + n) =~= frame);
    let left = frame.skip(p + n);
    assert(left.len() == 0);
    sse::boundary_within(left, 0);
    if let Some((q, m)) = sse::boundary_v(left, 0) {
        assert(q + m <= left.len());
    }
    let later = usage::later_v(s.usage, usage::frame_usage_v(frame));
    assert(usage::drain_v(later, left) == (later, left));
}

/// A text that can be shown as it is, is.
pub proof fn plain_texts_are_shown(s: Seq<char>)
    requires
        s.len() <= 256,
        forall|i: int| 0 <= i < s.len() ==> !text::is_ctl(#[trigger] s[i]),
        s.len() > 0 ==> !text::is_space(s[0]) && !text::is_space(s.last()),
    ensures
        events::sanitize_v(s) == s,
{
    assert(s.take(events::min_v(s.len() as int, events::SHOWN_CHARS as int)) =~= s);
    assert(s.map_values(|c: char| events::blanked_v(c)) =~= s);
}

/// A frame that reports a failure is what the capture finds; a completed one is a
/// good end.
pub proof fn terminal_frames_are_found(d: CaptureV, frame: Seq<char>)
    requires
        !capture::is_idle_v(frame),
    ensures
        ({
            let typ = capture::frame_type_v(frame);
            let e = capture::frame_v(d, frame);
            &&& typ == "response.completed"@ ==> e.has_completed && e.has_stream_terminal_failure
                == d.has_stream_terminal_failure
            &&& typ == "response.failed"@ || typ == "response.incomplete"@ || typ == "error"@
                ==> e.has_stream_terminal_failure && e.terminal_event == typ && e.has_completed
                == d.has_completed
            &&& typ == "error"@ || typ == "response.failed"@ ==> (capture::error_type_v(
                capture::frame_text_v(frame),
            ) matches Some(t) ==> e.error_type == events::sanitize_v(t))
            &&& d.has_proxy_error ==> e.has_proxy_error
        }),
{
    words::events();
}

/// Readiness of either provider: one that is ready is enough, and where both fail
/// both are told.
pub proof fn either_provider_is_enough(codex: OutcomeV, kimi: OutcomeV)
    ensures
        ({
            let r = routes::either_v(codex, kimi);
            &&& codex == OutcomeV::Ready || kimi == OutcomeV::Ready ==> (r matches Some(a)
                && a.status == 200)
            &&& codex is Failed && kimi is Failed ==> (r matches Some(a) && a.status == 503)
            &&& codex == OutcomeV::Pending && !(kimi == OutcomeV::Ready) ==> r is None
            &&& kimi == OutcomeV::Pending && !(codex == OutcomeV::Ready) ==> r is None
        }),
{
}

} // verus!
