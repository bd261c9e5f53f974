//! How a request for a response is answered: what is refused, what is sent
//! upstream, and what becomes of the reply.

use vstd::prelude::*;

use crate::catalog::Catalog;
use crate::events;
use crate::events::{EventV, FailureKind, RequestEvent, UsageAccumulator};
use crate::events::usage;
use crate::json;
use crate::json::{Json, JsonV};
use crate::modelmap::ModelMap;
use crate::provider::kimi;
use crate::provider::kimi::auth;
use crate::provider::kimi::auth::HeaderV;
use crate::provider::kimi::request::translate_request;
use crate::provider::kimi::stream::model;
use crate::provider::kimi::stream::Translator;
use crate::provider::Provider;
use crate::proxy::context;
use crate::proxy::context::{extract_session_context, ContextV, SessionContext};
use crate::proxy::headers;
use crate::proxy::headers::{authorized, FieldV, Headers};
use crate::proxy::identity;
use crate::proxy::identity::{IdentityV, UpstreamIdentity};
use crate::proxy::request;
use crate::proxy::request::{transform_request, TransformedRequest, TransformedV};
use crate::proxy::routes;
use crate::proxy::routes::{error_reply, method_not_allowed, unauthorized, Reply, ReplyV};
use crate::proxy::stream;
use crate::proxy::stream::{
    failure_event, is_success, kimi_upstream_error, stream_end_event, GuardV, StreamObserveGuard,
};
use crate::proxy::CompatMode;
use crate::sse;
use crate::sse::StreamNormalizer;
use crate::text;

verus! {

/// Why a request is turned away before its body is read.
pub open spec fn entry_v(token: Seq<char>, fields: Seq<FieldV>, post: bool) -> Option<ReplyV> {
    if !headers::authorized_v(token, headers::get_v(fields, "authorization"@)) {
        Some(routes::unauthorized_v())
    } else if !post {
        Some(routes::method_not_allowed_v())
    } else {
        None
    }
}

pub open spec fn opt_reply(r: Option<Reply>) -> Option<ReplyV> {
    match r {
        Some(r) => Some(r@),
        None => None,
    }
}

/// Turns away who does not know the token, and then what is no `POST`.
pub fn check_entry(token: &str, headers: &Headers, post: bool) -> (r: Option<Reply>)
    ensures
        opt_reply(r) == entry_v(token@, headers@, post),
{
    if !authorized(token, headers) {
        Some(unauthorized())
    } else if !post {
        Some(method_not_allowed())
    } else {
        None
    }
}

/// The answer to a body that is too long.
pub fn body_too_large() -> (r: Reply)
    ensures
        r@ == routes::error_v(
            413,
            "invalid_request_error"@,
            "request body exceeds proxy limit"@,
        ),
{
    error_reply(413, "invalid_request_error", "request body exceeds proxy limit")
}

/// A request that goes upstream, with the event that tells of its start.
#[derive(Debug)]
pub struct Prepared {
    pub transformed: TransformedRequest,
    pub identity: UpstreamIdentity,
    pub context: SessionContext,
    pub event: RequestEvent,
}

#[verifier::ext_equal]
pub struct PreparedV {
    pub transformed: TransformedV,
    pub identity: IdentityV,
    pub context: ContextV,
    pub event: EventV,
}

impl Prepared {
    pub open spec fn view(&self) -> PreparedV {
        PreparedV {
            transformed: self.transformed@,
            identity: self.identity@,
            context: self.context@,
            event: self.event@,
        }
    }
}

pub open spec fn rejected_v(message: Seq<char>) -> ReplyV {
    routes::error_v(400, "invalid_request_error"@, message)
}

/// Whether a request can be put to its provider; `body` is its body.
pub open spec fn provider_error_v(
    provider: Provider,
    body: Option<JsonV>,
    key: Option<Seq<char>>,
) -> Option<Seq<char>> {
    match provider {
        Provider::Codex => None,
        Provider::Kimi => match kimi::request::translated_v(body, key) {
            Err(e) => Some(e),
            Ok(_) => None,
        },
    }
}

pub open spec fn event_of_v(
    t: TransformedV,
    id: IdentityV,
    request_id: Seq<char>,
    now: u64,
) -> EventV {
    events::started_v(
        request_id,
        id.thread_id,
        t.requested_model,
        t.model,
        t.mapped,
        t.lite,
        t.fast,
        now,
    )
}

/// What becomes of a request, given what its body was transformed to.
pub open spec fn prepared_v(
    transformed: Result<TransformedV, Seq<char>>,
    context: ContextV,
    fields: Seq<FieldV>,
    request_id: Seq<char>,
    now: u64,
) -> Result<PreparedV, ReplyV> {
    match transformed {
        Err(e) => Err(rejected_v(e)),
        Ok(t) => {
            let body = json::parsed_bytes(t.body);
            let id = identity::identity_v(fields, body, request_id);
            match provider_error_v(t.provider, body, id.cache_key) {
                Some(e) => Err(rejected_v(e)),
                None => Ok(
                    PreparedV {
                        transformed: t,
                        identity: id,
                        context,
                        event: event_of_v(t, id, request_id, now),
                    },
                ),
            }
        },
    }
}

pub open spec fn prepared_result(r: Result<Prepared, Reply>) -> Result<PreparedV, ReplyV> {
    match r {
        Ok(p) => Ok(p@),
        Err(e) => Err(e@),
    }
}

/// Goes on with a request whose body has been transformed.
pub fn prepare_transformed(
    transformed: Result<TransformedRequest, String>,
    context: SessionContext,
    headers: &Headers,
    request_id: &str,
    now: u64,
) -> (r: Result<Prepared, Reply>)
    ensures
        prepared_result(r) == prepared_v(
            request::transformed_result_v(transformed),
            context@,
            headers@,
            request_id@,
            now,
        ),
{
    let t = match transformed {
        Err(e) => {
            return Err(error_reply(400, "invalid_request_error", &e));
        },
        Ok(t) => t,
    };
    let id = UpstreamIdentity::from_request(headers, t.body.as_slice(), request_id);
    match t.provider {
        Provider::Codex => {},
        Provider::Kimi => {
            let key = match &id.cache_key {
                Some(k) => Some(k.as_str()),
                None => None,
            };
            match translate_request(t.body.as_slice(), key) {
                Err(e) => {
                    return Err(error_reply(400, "invalid_request_error", &e));
                },
                Ok(_) => {},
            }
        },
    }
    let event = RequestEvent::started(
        request_id,
        &id.thread_id,
        &t.requested_model,
        &t.model,
        t.mapped,
        t.lite,
        t.fast,
        now,
    );
    Ok(Prepared { transformed: t, identity: id, context, event })
}

/// Makes a request ready to be sent upstream, or says why it is refused.
pub fn prepare(
    raw: &[u8],
    headers: &Headers,
    catalog: &Catalog,
    mappings: &ModelMap,
    request_id: &str,
    now: u64,
) -> (r: Result<Prepared, Reply>)
    ensures
        prepared_result(r) == prepared_v(
            request::transform_v(raw@, json::parsed_bytes(raw@), mappings@),
            context::context_v(json::parsed_bytes(raw@), headers@),
            headers@,
            request_id@,
            now,
        ),
{
    let context = extract_session_context(raw, headers);
    let transformed = transform_request(raw, catalog, mappings);
    prepare_transformed(transformed, context, headers, request_id, now)
}

/// The event that tells of a second attempt, with fresh credentials.
pub open spec fn retried_v(event: EventV) -> EventV {
    EventV { auth_retried: true, attempt: 2, ..event }
}

pub fn as_retried(event: RequestEvent) -> (r: RequestEvent)
    ensures
        r@ == retried_v(event@),
{
    let mut out = event;
    out.auth_retried = true;
    out.attempt = 2;
    out
}

/// Whether a request is sent once more, with fresh credentials: once, where it
/// was turned away for its credentials.
pub fn retries(event: &RequestEvent, status: u16) -> (r: bool)
    ensures
        r == (status == 401 && !event.auth_retried),
{
    status == 401 && !event.auth_retried
}

/// Where a request fails without a reply that could be passed on.
#[derive(Clone, Copy, Debug, PartialEq, Eq, Structural)]
pub enum Stage {
    /// It could not be sent, at the first attempt or the second.
    Send,
    /// The reply broke off.
    Body,
}

pub open spec fn stage_kind_v(stage: Stage, retried: bool) -> (FailureKind, Seq<char>) {
    match stage {
        Stage::Body => (FailureKind::StreamIo, "stream_io"@),
        Stage::Send => if retried {
            (FailureKind::AuthRetryFailed, "auth_retry_failed"@)
        } else {
            (FailureKind::UpstreamConnect, "upstream_connect"@)
        },
    }
}

pub open spec fn failure_v(event: EventV, stage: Stage, message: Seq<char>, now: u64) -> (
    EventV,
    ReplyV,
) {
    let (kind, name) = stage_kind_v(stage, event.auth_retried);
    (
        stream::failed_v(event, kind, name, message, 502, now),
        routes::error_v(502, "upstream_error"@, message),
    )
}

/// What is told and answered where upstream could not be reached.
pub fn upstream_failure(event: &RequestEvent, stage: Stage, message: &str, now: u64) -> (r: (
    RequestEvent,
    Reply,
))
    ensures
        (r.0@, r.1@) == failure_v(event@, stage, message@, now),
{
    let (kind, name) = match stage {
        Stage::Body => (FailureKind::StreamIo, "stream_io"),
        Stage::Send => if event.auth_retried {
            (FailureKind::AuthRetryFailed, "auth_retry_failed")
        } else {
            (FailureKind::UpstreamConnect, "upstream_connect")
        },
    };
    (
        failure_event(event, kind, name, message, 502, now),
        error_reply(502, "upstream_error", message),
    )
}

/// What is told and answered where Kimi answers with an error; `body` is its
/// answer. It is never passed on as it is.
pub open spec fn kimi_refusal_v(event: EventV, body: Option<JsonV>, status: u16, now: u64) -> (
    EventV,
    ReplyV,
) {
    let (kind, message) = stream::kimi_error_v(body, status);
    let reply = routes::error_v(status, kind, message);
    (
        stream::ended_v(
            event,
            status,
            sse::bytes_v(json::json_text(reply.body)),
            None,
            None,
            now,
        ),
        reply,
    )
}

pub fn kimi_refusal(event: RequestEvent, body: &[u8], status: u16, now: u64) -> (r: (
    RequestEvent,
    Reply,
))
    ensures
        (r.0@, r.1@) == kimi_refusal_v(event@, json::parsed_bytes(body@), status, now),
{
    let (kind, message) = kimi_upstream_error(body, status);
    let reply = error_reply(status, &kind, &message);
    let captured = sse::bytes_of(&reply.body.encode());
    let told = stream_end_event(event, status, captured.as_slice(), None, None, now);
    (told, reply)
}

/// What becomes of the body of a reply.
#[derive(Clone, Copy, Debug, PartialEq, Eq, Structural)]
pub enum Handling {
    /// An error of Kimi is put into other words.
    KimiError,
    /// A stream of Kimi is translated as it comes.
    KimiStream,
    /// A stream of Kimi is translated as a whole.
    KimiWhole,
    /// A stream is repaired as it comes.
    Normalize,
    /// The body is passed on as it is.
    Pass,
}

#[derive(Clone, Copy, Debug, PartialEq, Eq, Structural)]
pub struct ResponsePlan {
    pub handling: Handling,
    /// Whether the token usage is looked for in an event stream.
    pub is_sse: bool,
}

pub open spec fn event_stream_v(content_type: Option<Seq<char>>) -> bool {
    match content_type {
        Some(t) => text::contains_v(text::lower_v(t), "text/event-stream"@),
        None => false,
    }
}

pub open spec fn plan_v(
    t: TransformedV,
    compat: CompatMode,
    status: u16,
    content_type: Option<Seq<char>>,
) -> ResponsePlan {
    let is_sse = event_stream_v(content_type);
    let success = stream::success_v(status);
    match t.provider {
        Provider::Kimi => if !success {
            ResponsePlan { handling: Handling::KimiError, is_sse }
        } else if t.stream {
            ResponsePlan { handling: Handling::KimiStream, is_sse: true }
        } else {
            ResponsePlan { handling: Handling::KimiWhole, is_sse: true }
        },
        Provider::Codex => if t.lite && compat != CompatMode::Off && success && (is_sse
            || t.stream) {
            ResponsePlan { handling: Handling::Normalize, is_sse: true }
        } else {
            ResponsePlan { handling: Handling::Pass, is_sse }
        },
    }
}

/// What becomes of a reply with the given status and content type.
pub fn plan_response(
    t: &TransformedRequest,
    compat: CompatMode,
    status: u16,
    content_type: Option<&str>,
) -> (r: ResponsePlan)
    ensures
        r == plan_v(t@, compat, status, json::opt_str(content_type)),
{
    let is_sse = match content_type {
        Some(s) => text::contains(&text::lower(s), "text/event-stream"),
        None => false,
    };
    let success = is_success(status);
    match t.provider {
        Provider::Kimi => if !success {
            ResponsePlan { handling: Handling::KimiError, is_sse }
        } else if t.stream {
            ResponsePlan { handling: Handling::KimiStream, is_sse: true }
        } else {
            ResponsePlan { handling: Handling::KimiWhole, is_sse: true }
        },
        Provider::Codex => {
            let off = match compat {
                CompatMode::Off => true,
                _ => false,
            };
            if t.lite && !off && success && (is_sse || t.stream) {
                ResponsePlan { handling: Handling::Normalize, is_sse: true }
            } else {
                ResponsePlan { handling: Handling::Pass, is_sse }
            }
        },
    }
}

/// The content type of an answer whose body is not passed on as it is; then it
/// has no content encoding either.
pub open spec fn content_type_v(handling: Handling, streamed: bool) -> Option<Seq<char>> {
    match handling {
        Handling::Pass => None,
        Handling::KimiError => None,
        _ => Some(
            if streamed {
                "text/event-stream; charset=utf-8"@
            } else {
                "application/json"@
            },
        ),
    }
}

pub fn content_type(handling: Handling, streamed: bool) -> (r: Option<&'static str>)
    ensures
        json::opt_str(r) == content_type_v(handling, streamed),
{
    match handling {
        Handling::Pass => None,
        Handling::KimiError => None,
        _ => if streamed {
            Some("text/event-stream; charset=utf-8")
        } else {
            Some("application/json")
        },
    }
}

/// The name of the Kimi model that answers.
pub open spec fn kimi_model_v(model: Seq<char>) -> Seq<char> {
    match kimi::canonical_v(model) {
        Some(m) => m,
        None => "kimi-for-coding"@,
    }
}

pub fn kimi_model(model: &str) -> (r: &'static str)
    ensures
        r@ == kimi_model_v(model@),
{
    match kimi::canonical_model(model) {
        Some(m) => m,
        None => "kimi-for-coding",
    }
}

/// The response where a stream of Kimi had none.
pub open spec fn no_response_v(request_id: Seq<char>, model: Seq<char>) -> JsonV {
    json::empty_v().with("id"@, JsonV::Str(request_id)).with(
        "object"@,
        JsonV::Str("response"@),
    ).with("status"@, JsonV::Str("failed"@)).with("model"@, JsonV::Str(model)).with(
        "output"@,
        JsonV::Arr(Seq::empty()),
    ).with("error"@, model::upstream_error_v("Kimi stream ended without a response"@))
}

fn no_response(request_id: &str, name: &str) -> (r: Json)
    ensures
        r@ == no_response_v(request_id@, name@),
{
    let error = Json::object().with("type", Json::str("upstream_error")).with(
        "message",
        Json::str("Kimi stream ended without a response"),
    );
    let none: Vec<Json> = Vec::new();
    Json::object().with("id", Json::str(request_id)).with("object", Json::str("response")).with(
        "status",
        Json::str("failed"),
    ).with("model", Json::str(name)).with("output", Json::array(none)).with("error", error)
}

/// The response that a whole stream of Kimi makes, and the event at its end.
pub open spec fn kimi_whole_v(
    request_id: Seq<char>,
    name: Seq<char>,
    body: Seq<u8>,
    event: EventV,
    status: u16,
    now: u64,
) -> (JsonV, EventV) {
    let (pushed, first) = model::push_v(model::stream_v(request_id, name), body);
    let (done, second) = model::finish_v(pushed);
    let all = first + second;
    (
        match done.core.terminal_response {
            Some(r) => r,
            None => no_response_v(request_id, name),
        },
        stream::ended_v(
            event,
            status,
            all,
            usage::total_v(usage::push_v(usage::fresh_v(true), all)),
            None,
            now,
        ),
    )
}

/// Translates a whole stream of Kimi.
pub fn kimi_whole(
    request_id: &str,
    name: &str,
    body: &[u8],
    event: RequestEvent,
    status: u16,
    now: u64,
) -> (r: (Json, RequestEvent))
    ensures
        (r.0@, r.1@) == kimi_whole_v(request_id@, name@, body@, event@, status, now),
{
    let mut translator = Translator::new(request_id, name);
    let mut all = translator.push(body);
    let rest = translator.finish();
    sse::append(&mut all, &rest);
    let response = match translator.terminal_response() {
        Some(r) => r.copy(),
        None => no_response(request_id, name),
    };
    let mut count = UsageAccumulator::new(true);
    count.push(all.as_slice());
    let told = stream_end_event(event, status, all.as_slice(), count.finish(), None, now);
    (response, told)
}

/// The body of an answer that goes out as it comes in.
pub enum ResponseBody {
    Kimi(Translator),
    Normalize(StreamNormalizer),
    Pass,
}

#[verifier::ext_equal]
pub enum BodyV {
    Kimi(model::StreamV),
    Normalize(sse::StreamV),
    Pass,
}

impl ResponseBody {
    pub open spec fn view(&self) -> BodyV {
        match self {
            ResponseBody::Kimi(t) => BodyV::Kimi(t@),
            ResponseBody::Normalize(n) => BodyV::Normalize(n@),
            ResponseBody::Pass => BodyV::Pass,
        }
    }
}

/// An answer that goes out as it comes in, and what is told of it.
pub struct ResponseStream {
    pub body: ResponseBody,
    pub guard: StreamObserveGuard,
}

#[verifier::ext_equal]
pub struct ResponseV {
    pub body: BodyV,
    pub guard: GuardV,
}

pub open spec fn some_bytes_v(out: Seq<u8>) -> Option<Seq<u8>> {
    if out.len() > 0 {
        Some(out)
    } else {
        None
    }
}

pub open spec fn opt_bytes(out: Option<Vec<u8>>) -> Option<Seq<u8>> {
    match out {
        Some(b) => Some(b@),
        None => None,
    }
}

fn some_bytes(out: Vec<u8>) -> (r: Option<Vec<u8>>)
    ensures
        opt_bytes(r) == some_bytes_v(out@),
{
    if out.len() > 0 {
        Some(out)
    } else {
        None
    }
}

/// A chunk comes in: what goes out for it.
pub open spec fn chunk_v(s: ResponseV, chunk: Seq<u8>, stamp: u64) -> (ResponseV, Option<Seq<u8>>) {
    match s.body {
        BodyV::Kimi(t) => {
            let (t2, out) = model::push_v(t, chunk);
            (
                ResponseV { body: BodyV::Kimi(t2), guard: stream::passed_v(s.guard, out) },
                some_bytes_v(out),
            )
        },
        BodyV::Normalize(n) => {
            let (n2, out) = sse::push_v(n, chunk, stamp);
            (
                ResponseV {
                    body: BodyV::Normalize(n2),
                    guard: if out.len() > 0 {
                        stream::passed_v(s.guard, out)
                    } else {
                        s.guard
                    },
                },
                some_bytes_v(out),
            )
        },
        BodyV::Pass => (
            ResponseV { guard: stream::passed_v(s.guard, chunk), ..s },
            Some(chunk),
        ),
    }
}

/// What goes out at the end of an answer, what is told of it, and the error
/// with which it breaks off.
#[derive(Debug)]
pub struct Ending {
    pub output: Option<Vec<u8>>,
    pub event: Option<RequestEvent>,
    pub error: Option<String>,
}

#[verifier::ext_equal]
pub struct EndingV {
    pub output: Option<Seq<u8>>,
    pub event: Option<EventV>,
    pub error: Option<Seq<char>>,
}

impl Ending {
    pub open spec fn view(&self) -> EndingV {
        EndingV {
            output: opt_bytes(self.output),
            event: stream::opt_event(self.event),
            error: text::opt_view(self.error),
        }
    }
}

/// What is told of an answer at its end, unless it has been told.
pub open spec fn told_v(g: GuardV, broken: Option<Seq<char>>, now: u64) -> Option<EventV> {
    if g.finished {
        None
    } else {
        Some(stream::end_v(g, broken, now))
    }
}

pub open spec fn closed_v(g: GuardV) -> GuardV {
    GuardV { finished: true, ..g }
}

/// The reply breaks off. A client of Kimi gets an end that says so, and it is
/// told as a failure unless the response had ended; other clients see the
/// answer break off too.
pub open spec fn broken_v(s: ResponseV, message: Seq<char>, now: u64) -> (ResponseV, EndingV) {
    match s.body {
        BodyV::Kimi(t) => {
            let f = model::fail_v(model::from_v(t.core), model::upstream_error_v(message));
            let g = stream::passed_v(s.guard, f.out);
            (
                ResponseV {
                    body: BodyV::Kimi(model::StreamV { core: f.core, ..t }),
                    guard: closed_v(g),
                },
                EndingV {
                    output: some_bytes_v(f.out),
                    event: told_v(
                        g,
                        if t.core.terminal {
                            None
                        } else {
                            Some(message)
                        },
                        now,
                    ),
                    error: None,
                },
            )
        },
        _ => (
            ResponseV { guard: closed_v(s.guard), ..s },
            EndingV {
                output: None,
                event: told_v(s.guard, Some(message), now),
                error: Some(message),
            },
        ),
    }
}

/// The reply ends.
pub open spec fn ended_v(s: ResponseV, now: u64, stamp: u64) -> (ResponseV, EndingV) {
    match s.body {
        BodyV::Kimi(t) => {
            let (t2, out) = model::finish_v(t);
            let g = stream::passed_v(s.guard, out);
            (
                ResponseV { body: BodyV::Kimi(t2), guard: closed_v(g) },
                EndingV { output: some_bytes_v(out), event: told_v(g, None, now), error: None },
            )
        },
        BodyV::Normalize(n) => {
            let (n2, out) = sse::finish_v(n, stamp);
            let g = if out.len() > 0 {
                stream::passed_v(s.guard, out)
            } else {
                s.guard
            };
            (
                ResponseV { body: BodyV::Normalize(n2), guard: closed_v(g) },
                EndingV { output: some_bytes_v(out), event: told_v(g, None, now), error: None },
            )
        },
        BodyV::Pass => (
            ResponseV { guard: closed_v(s.guard), ..s },
            EndingV { output: None, event: told_v(s.guard, None, now), error: None },
        ),
    }
}

/// The answer at its beginning.
pub open spec fn response_v(
    handling: Handling,
    is_sse: bool,
    compat: CompatMode,
    name: Seq<char>,
    request_id: Seq<char>,
    event: EventV,
    status: u16,
) -> ResponseV {
    ResponseV {
        body: match handling {
            Handling::KimiStream => BodyV::Kimi(model::stream_v(request_id, kimi_model_v(name))),
            Handling::Normalize => BodyV::Normalize(sse::fresh_v(compat, name, request_id)),
            _ => BodyV::Pass,
        },
        guard: stream::guard_v(event, status, is_sse),
    }
}

impl ResponseStream {
    pub open spec fn view(&self) -> ResponseV {
        ResponseV { body: self.body@, guard: self.guard@ }
    }

    pub open spec fn ok(&self) -> bool {
        match self.body {
            ResponseBody::Kimi(t) => t.ok(),
            _ => true,
        }
    }

    /// The answer to a request for the model `name`, at its beginning.
    pub fn new(
        plan: ResponsePlan,
        compat: CompatMode,
        name: &str,
        request_id: &str,
        event: RequestEvent,
        status: u16,
    ) -> (r: ResponseStream)
        ensures
            r@ == response_v(
                plan.handling,
                plan.is_sse,
                compat,
                name@,
                request_id@,
                event@,
                status,
            ),
            r.ok(),
    {
        let body = match plan.handling {
            Handling::KimiStream => ResponseBody::Kimi(
                Translator::new(request_id, kimi_model(name)),
            ),
            Handling::Normalize => ResponseBody::Normalize(
                StreamNormalizer::new(compat, name, request_id),
            ),
            _ => ResponseBody::Pass,
        };
        ResponseStream { body, guard: StreamObserveGuard::new(event, status, plan.is_sse) }
    }

    /// Takes a chunk of the reply at time `stamp`, and gives what goes out.
    pub fn chunk(&mut self, chunk: &[u8], stamp: u64) -> (r: Option<Vec<u8>>)
        requires
            old(self).ok(),
        ensures
            (final(self)@, opt_bytes(r)) == chunk_v(old(self)@, chunk@, stamp),
            final(self).ok(),
    {
        match &mut self.body {
            ResponseBody::Kimi(t) => {
                let out = t.push(chunk);
                self.guard.capture_chunk(out.as_slice());
                some_bytes(out)
            },
            ResponseBody::Normalize(n) => {
                let out = n.push_at(chunk, stamp);
                if out.len() > 0 {
                    self.guard.capture_chunk(out.as_slice());
                }
                some_bytes(out)
            },
            ResponseBody::Pass => {
                self.guard.capture_chunk(chunk);
                Some(vstd::slice::slice_to_vec(chunk))
            },
        }
    }

    /// The reply breaks off.
    pub fn broken(&mut self, message: &str, now: u64) -> (r: Ending)
        requires
            old(self).ok(),
        ensures
            (final(self)@, r@) == broken_v(old(self)@, message@, now),
            final(self).ok(),
    {
        match &mut self.body {
            ResponseBody::Kimi(t) => {
                let was_terminal = t.is_terminal();
                let error = Json::object().with("type", Json::str("upstream_error")).with(
                    "message",
                    Json::str(message),
                );
                let out = t.fail(&error);
                self.guard.capture_chunk(out.as_slice());
                let event = self.guard.finish(
                    if was_terminal {
                        None
                    } else {
                        Some(message)
                    },
                    now,
                );
                Ending { output: some_bytes(out), event, error: None }
            },
            _ => {
                let event = self.guard.finish(Some(message), now);
                Ending { output: None, event, error: Some(text::owned(message)) }
            },
        }
    }

    /// The reply ends.
    pub fn ended(&mut self, now: u64, stamp: u64) -> (r: Ending)
        requires
            old(self).ok(),
        ensures
            (final(self)@, r@) == ended_v(old(self)@, now, stamp),
            final(self).ok(),
    {
        match &mut self.body {
            ResponseBody::Kimi(t) => {
                let out = t.finish();
                self.guard.capture_chunk(out.as_slice());
                let event = self.guard.finish(None, now);
                Ending { output: some_bytes(out), event, error: None }
            },
            ResponseBody::Normalize(n) => {
                let out = n.finish_at(stamp);
                if out.len() > 0 {
                    self.guard.capture_chunk(out.as_slice());
                }
                let event = self.guard.finish(None, now);
                Ending { output: some_bytes(out), event, error: None }
            },
            ResponseBody::Pass => {
                let event = self.guard.finish(None, now);
                Ending { output: None, event, error: None }
            },
        }
    }

    /// The client has gone away.
    pub fn dropped(&mut self, now: u64) -> (r: Option<RequestEvent>)
        ensures
            final(self)@ == (ResponseV { guard: closed_v(old(self)@.guard), ..old(self)@ }),
            stream::opt_event(r) == (if old(self)@.guard.finished {
                None
            } else {
                Some(stream::dropped_v(old(self)@.guard, now))
            }),
    {
        self.guard.abandon(now)
    }
}

/// A character that a header value can be made of: printable ASCII, or the tab.
pub open spec fn safe_char_v(c: char) -> bool {
    (32 <= c as u32 && (c as u32) < 127) || c == '\t'
}

pub open spec fn header_safe_v(s: Seq<char>) -> bool {
    forall|i: int| 0 <= i < s.len() ==> safe_char_v(#[trigger] s[i])
}

pub fn header_safe(s: &str) -> (r: bool)
    ensures
        r == header_safe_v(s@),
{
    let v = text::chars_of(s);
    let mut i: usize = 0;
    while i < v.len()
        invariant
            i <= v@.len(),
            v@ == s@,
            forall|k: int| 0 <= k < i ==> safe_char_v(#[trigger] v@[k]),
        decreases v@.len() - i,
    {
        let c: char = v[i];
        if !((32 <= c as u32 && (c as u32) < 127) || c == '\t') {
            assert(!safe_char_v(v@[i as int]));
            return false;
        }
        i += 1;
    }
    true
}

/// A hint for the cache, where there is a key that can stand in a header.
pub open spec fn affinity_v(key: Option<Seq<char>>) -> Seq<HeaderV> {
    match key {
        Some(k) => if k.len() > 0 && header_safe_v(k) {
            seq![("x-session-affinity"@, k)]
        } else {
            Seq::empty()
        },
        None => Seq::empty(),
    }
}

pub open spec fn lite_headers_v(lite: bool) -> Seq<HeaderV> {
    if lite {
        seq![
            ("x-openai-internal-codex-responses-lite"@, "true"@),
            ("accept-encoding"@, "identity"@),
        ]
    } else {
        Seq::empty()
    }
}

pub open spec fn account_header_v(account_id: Seq<char>) -> Seq<HeaderV> {
    if account_id.len() > 0 {
        seq![("chatgpt-account-id"@, account_id)]
    } else {
        Seq::empty()
    }
}

/// A header of the client that is passed on.
pub open spec fn trace_v(fields: Seq<FieldV>, name: Seq<char>) -> Seq<HeaderV> {
    match headers::get_v(fields, name) {
        Some(v) => if headers::valid_v(v) {
            seq![(name, v)]
        } else {
            Seq::empty()
        },
        None => Seq::empty(),
    }
}

/// The headers that every request to Codex has.
pub open spec fn codex_base_v(
    t: TransformedV,
    id: IdentityV,
    version: Seq<char>,
    compatibility_version: Seq<char>,
) -> Seq<HeaderV> {
    seq![
        ("content-type"@, "application/json"@),
        (
            "accept"@,
            if t.stream {
                "text/event-stream"@
            } else {
                "application/json"@
            },
        ),
        ("user-agent"@, "grok-build-proxy/"@ + version),
        (
            "originator"@,
            if t.lite {
                "codex_cli_rs"@
            } else {
                "grok-build-proxy"@
            },
        ),
        ("session-id"@, id.thread_id),
        ("thread-id"@, id.thread_id),
        ("x-client-request-id"@, id.request_id),
        ("x-codex-window-id"@, id.thread_id + ":0"@),
        ("version"@, compatibility_version),
    ]
}

pub open spec fn codex_headers_v(
    t: TransformedV,
    id: IdentityV,
    version: Seq<char>,
    compatibility_version: Seq<char>,
    account_id: Seq<char>,
    fields: Seq<FieldV>,
) -> Seq<HeaderV> {
    codex_base_v(t, id, version, compatibility_version) + affinity_v(id.cache_key)
        + lite_headers_v(t.lite) + account_header_v(account_id) + trace_v(
        fields,
        "traceparent"@,
    ) + trace_v(fields, "tracestate"@)
}

fn add_header(out: &mut Vec<(&'static str, String)>, name: &'static str, value: String)
    ensures
        auth::headers_v(final(out)@) == auth::headers_v(old(out)@).push((name@, value@)),
{
    proof {
        assert(auth::headers_v(out@.push((name, value))) =~= auth::headers_v(out@).push(
            (name@, value@),
        ));
    }
    out.push((name, value));
}

fn add_trace(out: &mut Vec<(&'static str, String)>, incoming: &Headers, name: &'static str)
    ensures
        auth::headers_v(final(out)@) == auth::headers_v(old(out)@) + trace_v(incoming@, name@),
{
    let ghost before = auth::headers_v(out@);
    if let Some(v) = incoming.get(name) {
        if headers::valid_header(v) {
            add_header(out, name, text::owned(v));
            assert(before.push((name@, v@)) =~= before + seq![(name@, v@)]);
            return;
        }
    }
    assert(before + Seq::<HeaderV>::empty() =~= before);
}

/// The headers of a request to Codex, besides its bearer token.
pub fn codex_headers(
    t: &TransformedRequest,
    id: &UpstreamIdentity,
    version: &str,
    compatibility_version: &str,
    account_id: &str,
    incoming: &Headers,
) -> (r: Vec<(&'static str, String)>)
    ensures
        auth::headers_v(r@) == codex_headers_v(
            t@,
            id@,
            version@,
            compatibility_version@,
            account_id@,
            incoming@,
        ),
{
    let accept = if t.stream {
        "text/event-stream"
    } else {
        "application/json"
    };
    let originator = if t.lite {
        "codex_cli_rs"
    } else {
        "grok-build-proxy"
    };
    let mut out: Vec<(&'static str, String)> = Vec::new();
    out.push(("content-type", text::owned("application/json")));
    out.push(("accept", text::owned(accept)));
    out.push(("user-agent", text::cat("grok-build-proxy/", version)));
    out.push(("originator", text::owned(originator)));
    out.push(("session-id", text::owned(&id.thread_id)));
    out.push(("thread-id", text::owned(&id.thread_id)));
    out.push(("x-client-request-id", text::owned(&id.request_id)));
    out.push(("x-codex-window-id", text::cat(&id.thread_id, ":0")));
    out.push(("version", text::owned(compatibility_version)));
    let ghost base = codex_base_v(t@, id@, version@, compatibility_version@);
    assert(auth::headers_v(out@) =~= base);
    if let Some(key) = &id.cache_key {
        if !key.as_str().is_empty() && header_safe(key) {
            add_header(&mut out, "x-session-affinity", text::owned(key));
        }
    }
    let ghost second = base + affinity_v(id@.cache_key);
    assert(auth::headers_v(out@) =~= second);
    if t.lite {
        add_header(&mut out, "x-openai-internal-codex-responses-lite", text::owned("true"));
        add_header(&mut out, "accept-encoding", text::owned("identity"));
    }
    let ghost third = second + lite_headers_v(t.lite);
    assert(auth::headers_v(out@) =~= third);
    if !account_id.is_empty() {
        add_header(&mut out, "chatgpt-account-id", text::owned(account_id));
    }
    let ghost fourth = third + account_header_v(account_id@);
    assert(auth::headers_v(out@) =~= fourth);
    add_trace(&mut out, incoming, "traceparent");
    add_trace(&mut out, incoming, "tracestate");
    out
}

/// The headers of a request to Kimi: with a key the proxy names itself, with
/// stored credentials it names the device.
pub open spec fn kimi_headers_v(device: Option<Seq<HeaderV>>, version: Seq<char>) -> Seq<HeaderV> {
    (match device {
        Some(d) => d,
        None => seq![("user-agent"@, "grok-build-proxy/"@ + version)],
    }) + seq![
        ("content-type"@, "application/json"@),
        ("accept"@, "text/event-stream"@),
    ]
}

pub open spec fn opt_headers(h: Option<Vec<(&'static str, String)>>) -> Option<Seq<HeaderV>> {
    match h {
        Some(h) => Some(auth::headers_v(h@)),
        None => None,
    }
}

/// The headers of a request to Kimi, besides its bearer token.
pub fn kimi_headers(device: Option<Vec<(&'static str, String)>>, version: &str) -> (r: Vec<
    (&'static str, String),
>)
    ensures
        auth::headers_v(r@) == kimi_headers_v(opt_headers(device), version@),
{
    let mut out: Vec<(&'static str, String)> = match device {
        Some(d) => d,
        None => {
            let mut own: Vec<(&'static str, String)> = Vec::new();
            own.push(("user-agent", text::cat("grok-build-proxy/", version)));
            assert(auth::headers_v(own@) =~= seq![
                ("user-agent"@, "grok-build-proxy/"@ + version@),
            ]);
            own
        },
    };
    let ghost before = auth::headers_v(out@);
    add_header(&mut out, "content-type", text::owned("application/json"));
    add_header(&mut out, "accept", text::owned("text/event-stream"));
    assert(auth::headers_v(out@) =~= before + seq![
        ("content-type"@, "application/json"@),
        ("accept"@, "text/event-stream"@),
    ]);
    out
}

/// Of every answer the end is told once, however it ends.
pub proof fn answers_are_told_once(
    s: ResponseV,
    message: Seq<char>,
    now: u64,
    stamp: u64,
    later: u64,
)
    ensures
        ended_v(s, now, stamp).1.event is Some <==> !s.guard.finished,
        broken_v(s, message, now).1.event is Some <==> !s.guard.finished,
        ended_v(ended_v(s, now, stamp).0, later, stamp).1.event is None,
        broken_v(ended_v(s, now, stamp).0, message, later).1.event is None,
        broken_v(broken_v(s, message, now).0, message, later).1.event is None,
        ended_v(broken_v(s, message, now).0, later, stamp).1.event is None,
{
}

/// A body that is passed on goes out byte for byte.
pub proof fn bodies_pass_unchanged(s: ResponseV, chunk: Seq<u8>, stamp: u64)
    requires
        s.body is Pass,
    ensures
        chunk_v(s, chunk, stamp).1 == Some(chunk),
        chunk_v(s, chunk, stamp).0.body is Pass,
        ended_v(s, 0, stamp).1.output is None,
{
}

/// A request is sent at most twice.
pub proof fn retries_end(event: EventV)
    ensures
        retried_v(event).auth_retried,
        retried_v(event).attempt == 2,
        retried_v(retried_v(event)) == retried_v(event),
{
}

/// Nothing that Kimi answers with an error, and nothing that it streams, reaches
/// a client as it came.
pub proof fn kimi_answers_are_translated(
    t: TransformedV,
    compat: CompatMode,
    status: u16,
    content_type: Option<Seq<char>>,
)
    requires
        t.provider == Provider::Kimi,
    ensures
        plan_v(t, compat, status, content_type).handling != Handling::Pass,
        stream::success_v(status) <==> plan_v(t, compat, status, content_type).handling
            != Handling::KimiError,
{
}

/// A Kimi model answers under the name that it was asked for on the wire.
pub proof fn kimi_answers_name_their_model(id: Seq<char>)
    requires
        kimi::canonical_v(id) is Some,
    ensures
        kimi_model_v(id) == kimi::canonical_v(id)->0,
        kimi_model_v(kimi_model_v(id)) == kimi_model_v(id),
{
    reveal_strlit("kimi-for-coding");
    reveal_strlit("kimi-k2.6");
    reveal_strlit("k2.6");
    reveal_strlit("kimi-k3");
    reveal_strlit("k3");
    assert("k3"@.len() == 2 && "kimi-for-coding"@.len() == 15 && "kimi-k2.6"@.len() == 9
        && "k2.6"@.len() == 4);
}

/// A client that asked for a stream gets one, and one that did not gets JSON,
/// wherever the answer is made here; an answer that is passed on keeps its type.
pub proof fn answers_are_of_the_kind_asked_for(handling: Handling, streamed: bool)
    ensures
        handling == Handling::Pass ==> content_type_v(handling, streamed) is None,
        content_type_v(handling, streamed) matches Some(t) ==> {
            &&& streamed <==> event_stream_v(Some(t))
            &&& !streamed ==> t == "application/json"@
        },
        handling == Handling::Normalize || handling == Handling::KimiStream || handling
            == Handling::KimiWhole ==> content_type_v(handling, streamed) is Some,
{
    reveal_strlit("text/event-stream; charset=utf-8");
    reveal_strlit("text/event-stream");
    reveal_strlit("application/json");
    let long = text::lower_v("text/event-stream; charset=utf-8"@);
    let kind = "text/event-stream"@;
    assert(long.subrange(0, 17) =~= kind);
    assert(text::at_v(long, kind, 0));
    let short = text::lower_v("application/json"@);
    assert(short.len() == 16 && kind.len() == 17);
}

/// A second attempt is told as one, of the same request.
pub proof fn second_attempts_are_told(event: EventV)
    ensures
        ({
            let again = retried_v(event);
            &&& again.auth_retried
            &&& again.attempt == 2
            &&& again.kind == event.kind
            &&& again.request_id == event.request_id
            &&& again.session_id == event.session_id
            &&& again.requested_model == event.requested_model
            &&& again.model == event.model
            &&& again.started_at == event.started_at
        }),
{
}

} // verus!
