//! Under which identities a request goes upstream.

use vstd::prelude::*;

use crate::json;
use crate::json::{Json, JsonV};
use crate::proxy::headers;
use crate::proxy::headers::{FieldV, Headers};
use crate::text;

verus! {

/// The identities of a request.
#[derive(Debug, PartialEq, Eq)]
pub struct UpstreamIdentity {
    /// The session or thread that the request belongs to.
    pub thread_id: String,
    /// The request itself; unlike the thread and the cache key this may differ
    /// from turn to turn.
    pub request_id: String,
    /// The name under which prompts are cached, where the client has a stable
    /// one.
    pub cache_key: Option<String>,
}

#[verifier::ext_equal]
pub struct IdentityV {
    pub thread_id: Seq<char>,
    pub request_id: Seq<char>,
    pub cache_key: Option<Seq<char>>,
}

/// At most 64 characters.
pub open spec fn key_fits_v(key: Seq<char>) -> bool {
    key.len() <= 64
}

pub fn valid_cache_key(key: &str) -> (r: bool)
    ensures
        r == key_fits_v(key@),
{
    text::chars_of(key).len() <= 64
}

pub open spec fn or_v(a: Option<Seq<char>>, b: Option<Seq<char>>) -> Option<Seq<char>> {
    if a is Some {
        a
    } else {
        b
    }
}

pub open spec fn or_else_v(a: Option<Seq<char>>, b: Seq<char>) -> Seq<char> {
    match a {
        Some(s) => s,
        None => b,
    }
}

pub open spec fn session_v(fields: Seq<FieldV>) -> Option<Seq<char>> {
    headers::first_valid_v(fields, seq!["x-grok-session-id"@])
}

pub open spec fn conversation_v(fields: Seq<FieldV>) -> Option<Seq<char>> {
    headers::first_valid_v(fields, seq!["x-grok-conv-id"@])
}

pub open spec fn incoming_v(fields: Seq<FieldV>) -> Option<Seq<char>> {
    headers::first_valid_v(fields, seq!["x-grok-req-id"@, "x-request-id"@])
}

pub open spec fn fitting_v(key: Option<Seq<char>>) -> Option<Seq<char>> {
    match key {
        Some(k) => if key_fits_v(k) {
            Some(k)
        } else {
            None
        },
        None => None,
    }
}

/// The key that the body names, or else that of the conversation or session.
pub open spec fn cache_key_v(fields: Seq<FieldV>, body: Option<JsonV>) -> Option<Seq<char>> {
    let explicit = match body {
        Some(b) => b.get_text("prompt_cache_key"@),
        None => None,
    };
    or_v(explicit, or_v(fitting_v(conversation_v(fields)), fitting_v(session_v(fields))))
}

pub open spec fn identity_v(
    fields: Seq<FieldV>,
    body: Option<JsonV>,
    fallback: Seq<char>,
) -> IdentityV {
    IdentityV {
        thread_id: or_else_v(
            or_v(or_v(session_v(fields), conversation_v(fields)), incoming_v(fields)),
            fallback,
        ),
        request_id: or_else_v(incoming_v(fields), fallback),
        cache_key: cache_key_v(fields, body),
    }
}

impl UpstreamIdentity {
    pub open spec fn view(&self) -> IdentityV {
        IdentityV {
            thread_id: self.thread_id@,
            request_id: self.request_id@,
            cache_key: text::opt_view(self.cache_key),
        }
    }

    /// The identities of a request with the given headers and body; `fallback`
    /// stands in where the client names none.
    pub fn from_request(headers: &Headers, body: &[u8], fallback: &str) -> (r: UpstreamIdentity)
        ensures
            r@ == identity_v(headers@, json::parsed_bytes(body@), fallback@),
    {
        let body = json::parse_bytes(body);
        UpstreamIdentity::of_body(headers, &body, fallback)
    }

    /// The identities of a request whose body has been read.
    pub fn of_body(headers: &Headers, body: &Option<Json>, fallback: &str) -> (r: UpstreamIdentity)
        ensures
            r@ == identity_v(headers@, json::opt_owned(*body), fallback@),
    {
        let session = headers.first_valid(&["x-grok-session-id"]);
        let conversation = headers.first_valid(&["x-grok-conv-id"]);
        let incoming = headers.first_valid(&["x-grok-req-id", "x-request-id"]);
        proof {
            assert(headers::names_v(["x-grok-session-id"]@) =~= seq!["x-grok-session-id"@]);
            assert(headers::names_v(["x-grok-conv-id"]@) =~= seq!["x-grok-conv-id"@]);
            assert(headers::names_v(["x-grok-req-id", "x-request-id"]@) =~= seq![
                "x-grok-req-id"@,
                "x-request-id"@,
            ]);
        }
        let thread = match session {
            Some(s) => s,
            None => match conversation {
                Some(s) => s,
                None => match incoming {
                    Some(s) => s,
                    None => fallback,
                },
            },
        };
        let request = match incoming {
            Some(s) => s,
            None => fallback,
        };
        let explicit = match body {
            Some(b) => b.get_str("prompt_cache_key"),
            None => None,
        };
        let key = match explicit {
            Some(k) => Some(text::owned(k)),
            None => match fitting(conversation) {
                Some(k) => Some(k),
                None => fitting(session),
            },
        };
        UpstreamIdentity {
            thread_id: text::owned(thread),
            request_id: text::owned(request),
            cache_key: key,
        }
    }
}

fn fitting(key: Option<&str>) -> (r: Option<String>)
    ensures
        text::opt_view(r) == fitting_v(json::opt_str(key)),
{
    match key {
        Some(k) => if valid_cache_key(k) {
            Some(text::owned(k))
        } else {
            None
        },
        None => None,
    }
}

/// The names of single requests, and the name that the proxy makes up, never
/// become cache keys: headers that agree on session and conversation give the
/// same key.
pub proof fn request_ids_are_no_cache_keys(
    a: Seq<FieldV>,
    b: Seq<FieldV>,
    body: Option<JsonV>,
    made_up: Seq<char>,
    other: Seq<char>,
)
    requires
        headers::get_v(a, "x-grok-session-id"@) == headers::get_v(b, "x-grok-session-id"@),
        headers::get_v(a, "x-grok-conv-id"@) == headers::get_v(b, "x-grok-conv-id"@),
    ensures
        identity_v(a, body, made_up).cache_key == identity_v(b, body, other).cache_key,
{
    reveal_with_fuel(headers::first_valid_v, 2);
    let s = seq!["x-grok-session-id"@];
    let c = seq!["x-grok-conv-id"@];
    assert(s.drop_last() =~= Seq::empty());
    assert(c.drop_last() =~= Seq::empty());
    assert(s.last() == "x-grok-session-id"@);
    assert(c.last() == "x-grok-conv-id"@);
}

/// A key that the client puts in the body is kept, whatever its headers say.
pub proof fn explicit_keys_are_kept(
    fields: Seq<FieldV>,
    body: JsonV,
    key: Seq<char>,
    fallback: Seq<char>,
)
    requires
        body.get_text("prompt_cache_key"@) == Some(key),
    ensures
        identity_v(fields, Some(body), fallback).cache_key == Some(key),
{
}

} // verus!
