//! Codex credentials: what a stored session holds, and when it is refreshed.

use vstd::prelude::*;

use base64::Engine;

use crate::json;
use crate::json::{Json, JsonV};
use crate::text;

pub mod laws;

verus! {

/// Where Codex sessions are refreshed.
pub const DEFAULT_REFRESH_URL: &'static str = "https://auth.openai.com/oauth/token";

/// The name under which the official client signs in.
pub const CODEX_OAUTH_CLIENT_ID: &'static str = "app_EMoamEEZ73f0CkXaXp7hrann";

/// How long before their end credentials are refreshed, in milliseconds.
pub const REFRESH_MARGIN_MS: u64 = 300_000;

/// What the URL-safe base64 decoder without padding makes of a text: the bytes,
/// or `None` where it reports an error.
pub uninterp spec fn base64_bytes(text: Seq<char>) -> Option<Seq<u8>>;

/// `decode` of `base64::engine::general_purpose::URL_SAFE_NO_PAD`. Its result is
/// a function of the text.
#[verifier::external_body]
pub(crate) fn decode_base64(text: &str) -> (r: Option<Vec<u8>>)
    ensures
        match r {
            Some(b) => base64_bytes(text@) == Some(b@),
            None => base64_bytes(text@) is None,
        },
{
    base64::engine::general_purpose::URL_SAFE_NO_PAD.decode(text).ok()
}

/// A second that a calendar date can be given for: years from -262143 to
/// 262142.
pub open spec fn dated_v(secs: i64) -> bool {
    -8_334_601_228_800 <= secs <= 8_210_266_876_799
}

/// `chrono::DateTime::from_timestamp` gives a date for the seconds within its
/// range of years, and none for others.
#[verifier::external_body]
fn has_date(secs: i64) -> (r: bool)
    ensures
        r == dated_v(secs),
{
    chrono::DateTime::from_timestamp(secs, 0).is_some()
}

/// Credentials for a provider. Times are milliseconds since 1970.
#[derive(Debug, PartialEq, Eq)]
pub struct Credentials {
    pub access_token: String,
    pub account_id: String,
    pub expires_at: Option<i64>,
}

#[verifier::ext_equal]
pub struct CredentialsV {
    pub access_token: Seq<char>,
    pub account_id: Seq<char>,
    pub expires_at: Option<i64>,
}

impl Credentials {
    pub open spec fn view(&self) -> CredentialsV {
        CredentialsV {
            access_token: self.access_token@,
            account_id: self.account_id@,
            expires_at: self.expires_at,
        }
    }
}

/// The second of the parts of a token that stand between points.
pub open spec fn payload_v(token: Seq<char>) -> Option<Seq<char>> {
    let parts = text::split_v(token, '.');
    if parts.len() > 1 {
        Some(parts[1])
    } else {
        None
    }
}

/// What a token claims.
pub open spec fn claims_v(token: Seq<char>) -> Option<JsonV> {
    match payload_v(token) {
        None => None,
        Some(p) => match base64_bytes(p) {
            None => None,
            Some(b) => json::parsed_bytes(b),
        },
    }
}

pub fn jwt_claims(token: &str) -> (r: Option<Json>)
    ensures
        json::opt_owned(r) == claims_v(token@),
{
    let parts = text::split(token, '.');
    let ghost all = text::views(parts@);
    assert(all.len() == parts@.len());
    if parts.len() < 2 {
        return None;
    }
    assert(all[1] == parts@[1]@);
    match decode_base64(&parts[1]) {
        None => None,
        Some(b) => json::parse_bytes(b.as_slice()),
    }
}

/// The account that claims name.
pub open spec fn account_v(claims: Option<JsonV>) -> Option<Seq<char>> {
    match claims {
        None => None,
        Some(c) => match c.get("https://api.openai.com/auth"@) {
            None => None,
            Some(a) => a.get_text("chatgpt_account_id"@),
        },
    }
}

pub fn account_of(claims: &Option<Json>) -> (r: Option<String>)
    ensures
        text::opt_view(r) == account_v(json::opt_owned(*claims)),
{
    match claims {
        None => None,
        Some(c) => match c.get("https://api.openai.com/auth") {
            None => None,
            Some(a) => match a.get_str("chatgpt_account_id") {
                Some(id) => Some(text::owned(id)),
                None => None,
            },
        },
    }
}

/// The second at which claims end: a number, or a text that reads as one.
pub open spec fn expiry_secs_v(claims: JsonV) -> Option<i64> {
    match claims.get("exp"@) {
        None => None,
        Some(v) => match v.sint() {
            Some(n) => Some(n),
            None => match v.text() {
                Some(s) => text::parse_int_v(s),
                None => None,
            },
        },
    }
}

/// The time at which claims end, in milliseconds.
pub open spec fn expiry_v(claims: Option<JsonV>) -> Option<i64> {
    match claims {
        None => None,
        Some(c) => match expiry_secs_v(c) {
            Some(n) => if dated_v(n) {
                Some((n * 1000) as i64)
            } else {
                None
            },
            None => None,
        },
    }
}

pub fn expiry_of(claims: &Option<Json>) -> (r: Option<i64>)
    ensures
        r == expiry_v(json::opt_owned(*claims)),
{
    let c = match claims {
        None => {
            return None;
        },
        Some(c) => c,
    };
    let secs: Option<i64> = match c.get("exp") {
        None => None,
        Some(v) => match v.as_i64() {
            Some(n) => Some(n),
            None => match v.as_str() {
                Some(s) => text::parse_int(s),
                None => None,
            },
        },
    };
    match secs {
        Some(n) => if has_date(n) {
            Some(n * 1000)
        } else {
            None
        },
        None => None,
    }
}

pub open spec fn text_in_v(v: JsonV, k: Seq<char>) -> Seq<char> {
    match v.get_text(k) {
        Some(s) => s,
        None => Seq::empty(),
    }
}

pub open spec fn or_v<T>(a: Option<T>, b: Option<T>) -> Option<T> {
    if a is Some {
        a
    } else {
        b
    }
}

pub open spec fn or_empty_v(s: Option<Seq<char>>) -> Seq<char> {
    match s {
        Some(s) => s,
        None => Seq::empty(),
    }
}

/// The credentials in stored tokens, and the refresh token; `id` and `access`
/// are what the two tokens claim.
pub open spec fn credentials_v(
    tokens: JsonV,
    id: Option<JsonV>,
    access: Option<JsonV>,
) -> Result<(CredentialsV, Seq<char>), Seq<char>> {
    let token = text::trim_v(text_in_v(tokens, "access_token"@));
    if token.len() == 0 {
        Err("Codex auth file is missing access_token; run `codex login` again"@)
    } else {
        Ok(
            (
                CredentialsV {
                    access_token: token,
                    account_id: or_empty_v(
                        or_v(
                            tokens.get_text("account_id"@),
                            or_v(account_v(id), account_v(access)),
                        ),
                    ),
                    expires_at: or_v(expiry_v(access), expiry_v(id)),
                },
                text::trim_v(text_in_v(tokens, "refresh_token"@)),
            ),
        )
    }
}

/// What the ID token in stored tokens claims.
pub open spec fn id_claims_v(tokens: JsonV) -> Option<JsonV> {
    claims_v(text_in_v(tokens, "id_token"@))
}

/// What the access token in stored tokens claims.
pub open spec fn access_claims_v(tokens: JsonV) -> Option<JsonV> {
    claims_v(text::trim_v(text_in_v(tokens, "access_token"@)))
}

fn text_in(v: &Json, k: &str) -> (r: String)
    ensures
        r@ == text_in_v(v@, k@),
{
    match v.get_str(k) {
        Some(s) => text::owned(s),
        None => String::new(),
    }
}

pub open spec fn credentials_result(r: Result<(Credentials, String), String>) -> Result<
    (CredentialsV, Seq<char>),
    Seq<char>,
> {
    match r {
        Ok((c, refresh)) => Ok((c@, refresh@)),
        Err(e) => Err(e@),
    }
}

/// The credentials in stored tokens whose claims have been read.
pub fn credentials_of(tokens: &Json, id: &Option<Json>, access: &Option<Json>) -> (r: Result<
    (Credentials, String),
    String,
>)
    ensures
        credentials_result(r) == credentials_v(
            tokens@,
            json::opt_owned(*id),
            json::opt_owned(*access),
        ),
{
    let token = text::trim(&text_in(tokens, "access_token"));
    if token.as_str().is_empty() {
        return Err(
            text::owned("Codex auth file is missing access_token; run `codex login` again"),
        );
    }
    let account = match tokens.get_str("account_id") {
        Some(s) => text::owned(s),
        None => match account_of(id) {
            Some(s) => s,
            None => match account_of(access) {
                Some(s) => s,
                None => String::new(),
            },
        },
    };
    let expires_at = match expiry_of(access) {
        Some(n) => Some(n),
        None => expiry_of(id),
    };
    Ok(
        (
            Credentials { access_token: token, account_id: account, expires_at },
            text::trim(&text_in(tokens, "refresh_token")),
        ),
    )
}

/// The credentials in stored tokens, and the refresh token.
pub fn credentials_from_tokens(tokens: &Json) -> (r: Result<(Credentials, String), String>)
    ensures
        credentials_result(r) == credentials_v(
            tokens@,
            id_claims_v(tokens@),
            access_claims_v(tokens@),
        ),
{
    let id = jwt_claims(&text_in(tokens, "id_token"));
    let access = jwt_claims(&text::trim(&text_in(tokens, "access_token")));
    credentials_of(tokens, &id, &access)
}

/// The tokens in a stored session.
pub open spec fn tokens_v(doc: Option<JsonV>) -> Result<JsonV, Seq<char>> {
    match doc {
        Some(JsonV::Obj(m)) => {
            let d = JsonV::Obj(m);
            match d.get("tokens"@) {
                Some(JsonV::Obj(t)) => Ok(JsonV::Obj(t)),
                _ => if d.get_text("OPENAI_API_KEY"@) is Some {
                    Err(
                        "Codex auth file contains an API key, not a ChatGPT session; run `codex login` and choose ChatGPT sign-in"@,
                    )
                } else {
                    Err(
                        "Codex auth file does not contain ChatGPT token data; run `codex login` again"@,
                    )
                },
            }
        },
        _ => Err("parse Codex auth file"@),
    }
}

pub open spec fn json_result(r: Result<Json, String>) -> Result<JsonV, Seq<char>> {
    match r {
        Ok(v) => Ok(v@),
        Err(e) => Err(e@),
    }
}

pub fn tokens_of(doc: &Option<Json>) -> (r: Result<Json, String>)
    ensures
        json_result(r) == tokens_v(json::opt_owned(*doc)),
{
    let d = match doc {
        Some(d) => d,
        None => {
            return Err(text::owned("parse Codex auth file"));
        },
    };
    if !d.is_object() {
        return Err(text::owned("parse Codex auth file"));
    }
    if let Some(t) = d.get("tokens") {
        if t.is_object() {
            return Ok(t.copy());
        }
    }
    if d.get_str("OPENAI_API_KEY").is_some() {
        Err(
            text::owned(
                "Codex auth file contains an API key, not a ChatGPT session; run `codex login` and choose ChatGPT sign-in",
            ),
        )
    } else {
        Err(
            text::owned(
                "Codex auth file does not contain ChatGPT token data; run `codex login` again",
            ),
        )
    }
}

/// What to do for credentials: use those that are stored, or get fresh ones
/// with a refresh token.
#[derive(Debug)]
pub enum Access {
    Use(Credentials),
    Refresh(String),
}

#[verifier::ext_equal]
pub enum AccessV {
    Use(CredentialsV),
    Refresh(Seq<char>),
}

impl Access {
    pub open spec fn view(&self) -> AccessV {
        match self {
            Access::Use(c) => AccessV::Use(c@),
            Access::Refresh(t) => AccessV::Refresh(t@),
        }
    }
}

/// Whether credentials end by `now` and a margin, in milliseconds since 1970.
pub open spec fn ending_v(expires_at: Option<i64>, now: u64) -> bool {
    match expires_at {
        Some(t) => t <= now + REFRESH_MARGIN_MS,
        None => false,
    }
}

pub open spec fn access_v(
    c: CredentialsV,
    refresh: Seq<char>,
    force: bool,
    now: u64,
) -> Result<AccessV, Seq<char>> {
    if !force && !ending_v(c.expires_at, now) {
        Ok(AccessV::Use(c))
    } else if refresh.len() == 0 {
        if force {
            Err(
                "Codex credentials cannot be refreshed: refresh_token is missing; run `codex login` again"@,
            )
        } else {
            Ok(AccessV::Use(c))
        }
    } else {
        Ok(AccessV::Refresh(refresh))
    }
}

pub open spec fn access_result(r: Result<Access, String>) -> Result<AccessV, Seq<char>> {
    match r {
        Ok(a) => Ok(a@),
        Err(e) => Err(e@),
    }
}

/// What to do for credentials at time `now`. Fresh ones may be forced.
pub fn plan_access(credentials: Credentials, refresh: String, force: bool, now: u64) -> (r: Result<
    Access,
    String,
>)
    ensures
        access_result(r) == access_v(credentials@, refresh@, force, now),
{
    let ending = match credentials.expires_at {
        Some(t) => t as i128 <= now as i128 + REFRESH_MARGIN_MS as i128,
        None => false,
    };
    if !force && !ending {
        Ok(Access::Use(credentials))
    } else if refresh.as_str().is_empty() {
        if force {
            Err(
                text::owned(
                    "Codex credentials cannot be refreshed: refresh_token is missing; run `codex login` again",
                ),
            )
        } else {
            Ok(Access::Use(credentials))
        }
    } else {
        Ok(Access::Refresh(refresh))
    }
}

pub open spec fn refused_v(status: u16) -> Seq<char> {
    "refresh Codex access token: HTTP "@ + text::decimal_v(status as nat)
        + "; run `codex login` again if the session was revoked"@
}

/// Why a refresh with the given status failed.
pub fn refresh_refused(status: u16) -> (r: String)
    ensures
        r@ == refused_v(status),
{
    text::cat3(
        "refresh Codex access token: HTTP ",
        &text::decimal(status as u64),
        "; run `codex login` again if the session was revoked",
    )
}

pub open spec fn put_filled_v(v: JsonV, k: Seq<char>, s: Seq<char>) -> JsonV {
    if s.len() > 0 {
        v.with(k, JsonV::Str(s))
    } else {
        v
    }
}

/// The tokens with those of a refresh; empty ones leave the old ones alone.
pub open spec fn merged_v(
    tokens: JsonV,
    access: Seq<char>,
    refresh: Seq<char>,
    id: Seq<char>,
) -> JsonV {
    put_filled_v(
        put_filled_v(
            tokens.with("access_token"@, JsonV::Str(access)),
            "refresh_token"@,
            refresh,
        ),
        "id_token"@,
        id,
    )
}

/// The tokens with the account that their ID token names, where they name none.
pub open spec fn with_account_v(tokens: JsonV, id: Option<JsonV>) -> JsonV {
    if text_in_v(tokens, "account_id"@).len() > 0 {
        tokens
    } else {
        match account_v(id) {
            Some(a) => tokens.with("account_id"@, JsonV::Str(a)),
            None => tokens,
        }
    }
}

pub open spec fn merged_id_claims_v(tokens: JsonV) -> Option<JsonV> {
    match tokens.get_text("id_token"@) {
        Some(s) => claims_v(s),
        None => None,
    }
}

/// The stored session with fresh tokens, and the time of their refresh.
pub open spec fn refreshed_v(doc: JsonV, tokens: JsonV, stamp: Seq<char>) -> JsonV {
    doc.with("tokens"@, tokens).with("last_refresh"@, JsonV::Str(stamp))
}

/// A stored session after a refresh: the whole of it, and its tokens.
#[derive(Debug)]
pub struct Refreshed {
    pub doc: Json,
    pub tokens: Json,
}

/// The stored session after a refresh that gave the tokens `access`, `refresh`
/// and `id` (the latter two may be empty); `stamp` is the time of it.
pub fn apply_refresh(
    doc: Json,
    tokens: Json,
    access: &str,
    refresh: &str,
    id: &str,
    stamp: &str,
) -> (r: Result<Refreshed, String>)
    ensures
        match r {
            Ok(x) => {
                let merged = merged_v(tokens@, access@, refresh@, id@);
                &&& text::trim_v(access@).len() > 0
                &&& x.tokens@ == with_account_v(merged, merged_id_claims_v(merged))
                &&& x.doc@ == refreshed_v(doc@, x.tokens@, stamp@)
            },
            Err(e) => text::trim_v(access@).len() == 0 && e@
                == "token refresh response did not include access_token"@,
        },
{
    if text::trim(access).as_str().is_empty() {
        return Err(text::owned("token refresh response did not include access_token"));
    }
    let mut tokens = tokens;
    tokens.set("access_token", Json::str(access));
    if !refresh.is_empty() {
        tokens.set("refresh_token", Json::str(refresh));
    }
    if !id.is_empty() {
        tokens.set("id_token", Json::str(id));
    }
    if text_in(&tokens, "account_id").as_str().is_empty() {
        let claims = match tokens.get_str("id_token") {
            Some(s) => jwt_claims(s),
            None => None,
        };
        if let Some(a) = account_of(&claims) {
            tokens.set("account_id", Json::string(a));
        }
    }
    let mut doc = doc;
    doc.set("tokens", tokens.copy());
    doc.set("last_refresh", Json::str(stamp));
    Ok(Refreshed { doc, tokens })
}

/// What chrono reads a text as: a point in time, in seconds since 1970 and
/// nanoseconds within the second.
pub uninterp spec fn time_read(text: Seq<char>) -> Option<(i64, u32)>;

/// `str::parse::<chrono::DateTime<chrono::Utc>>`, whose result depends on the
/// text alone.
#[verifier::external_body]
fn read_time(text: &str) -> (r: Option<(i64, u32)>)
    ensures
        r == time_read(text@),
{
    text.parse::<chrono::DateTime<chrono::Utc>>()
        .ok()
        .map(|t| (t.timestamp(), t.timestamp_subsec_nanos()))
}

/// What can be told of a stored session without giving its tokens away.
#[derive(Debug)]
pub struct Session {
    pub auth_mode: String,
    pub account_id: String,
    pub expires_at: Option<i64>,
    pub has_refresh_token: bool,
    /// In seconds since 1970 and nanoseconds within the second.
    pub last_refresh: Option<(i64, u32)>,
}

/// When a document says that it was last refreshed.
pub open spec fn last_refresh_v(doc: JsonV) -> Option<(i64, u32)> {
    match doc.get_text("last_refresh"@) {
        Some(s) => time_read(s),
        None => None,
    }
}

pub open spec fn mode_v(doc: JsonV) -> Seq<char> {
    match doc.get_text("auth_mode"@) {
        Some(s) => s,
        None => "chatgpt"@,
    }
}

/// What can be told of a stored session with the given credentials.
pub fn session_of(doc: &Json, credentials: Credentials, refresh: &str) -> (r: Session)
    ensures
        r.auth_mode@ == mode_v(doc@),
        r.account_id@ == credentials@.account_id,
        r.expires_at == credentials@.expires_at,
        r.has_refresh_token == (refresh@.len() > 0),
        r.last_refresh == last_refresh_v(doc@),
{
    let auth_mode = match doc.get_str("auth_mode") {
        Some(s) => text::owned(s),
        None => text::owned("chatgpt"),
    };
    let last_refresh = match doc.get_str("last_refresh") {
        Some(s) => read_time(s),
        None => None,
    };
    Session {
        auth_mode,
        account_id: credentials.account_id,
        expires_at: credentials.expires_at,
        has_refresh_token: !refresh.is_empty(),
        last_refresh,
    }
}

} // verus!
