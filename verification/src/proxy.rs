//! The proxy's request and response rules.

use vstd::prelude::*;

use crate::json;
use crate::provider::kimi;
use crate::sse;
use crate::text;
use crate::text::same;
use crate::urls;
use crate::urls::{parse_url, UrlV};

pub use crate::proxy::codex::codex_compat_body;
pub use crate::proxy::request::{transform_request, TransformedRequest};
pub use crate::urls::is_loopback_listen;

pub mod answers;
pub mod bodies;
pub mod cache;
pub mod codex;
pub mod context;
pub mod headers;
pub mod identity;
pub mod laws;
pub mod request;
pub mod respond;
pub mod routes;
pub mod stream;

verus! {

/// How much of a Responses stream is repaired.
#[derive(Clone, Copy, Debug, PartialEq, Eq, Structural)]
pub enum CompatMode {
    Full,
    Text,
    Off,
}

pub open spec fn compat_mode_v(setting: Option<Seq<char>>) -> CompatMode {
    match setting {
        None => CompatMode::Full,
        Some(s) => {
            let word = text::lower_v(s);
            if word == "text"@ || word == "legacy"@ {
                CompatMode::Text
            } else if word == "off"@ || word == "false"@ || word == "0"@ {
                CompatMode::Off
            } else {
                CompatMode::Full
            }
        },
    }
}

impl CompatMode {
    /// The mode that a setting asks for; an unknown one, as none, asks for the
    /// full repair.
    pub fn from_setting(setting: Option<&str>) -> (r: CompatMode)
        ensures
            r == compat_mode_v(json::opt_str(setting)),
    {
        match setting {
            None => CompatMode::Full,
            Some(s) => {
                let word = text::lower(s);
                if same(&word, "text") || same(&word, "legacy") {
                    CompatMode::Text
                } else if same(&word, "off") || same(&word, "false") || same(&word, "0") {
                    CompatMode::Off
                } else {
                    CompatMode::Full
                }
            },
        }
    }
}

/// The Codex version that the proxy gives itself out for.
pub const DEFAULT_CODEX_COMPATIBILITY_VERSION: &'static str = "0.144.0";

/// The longest request body that is taken.
pub const DEFAULT_MAX_BODY_BYTES: usize = 67_108_864;

/// Where Kimi is reached, and with which key; without one, stored credentials
/// are used.
#[derive(Debug)]
pub struct KimiConfig {
    pub upstream_url: String,
    pub api_key: String,
}

pub open spec fn key_v(api_key: Seq<char>) -> Option<Seq<char>> {
    let key = text::trim_v(api_key);
    if key.len() > 0 {
        Some(key)
    } else {
        None
    }
}

impl KimiConfig {
    /// The key, if there is one. Then Kimi is ready without credentials.
    pub fn key(&self) -> (r: Option<String>)
        ensures
            text::opt_view(r) == key_v(self.api_key@),
    {
        let key = text::trim(&self.api_key);
        if !key.as_str().is_empty() {
            Some(key)
        } else {
            None
        }
    }
}

/// A whole stream, repaired.
pub fn normalize_sse(input: &[u8], mode: CompatMode, model: &str, request_id: &str) -> (r: Vec<u8>)
    ensures
        exists|now: u64|
            r@ == #[trigger] sse::normalize_sse_v(input@, mode, model@, request_id@, now),
{
    sse::normalize_sse(input, mode, model, request_id)
}

/// Why a proxy cannot be set up with the given addresses.
pub open spec fn config_error_v(upstream: Option<UrlV>, kimi: Option<Option<UrlV>>) -> Option<
    Seq<char>,
> {
    if upstream is None {
        Some("invalid upstream URL"@)
    } else {
        match kimi {
            Some(url) => kimi::upstream_error_v(url),
            None => None,
        }
    }
}

pub open spec fn kimi_url_v(kimi: Option<&KimiConfig>) -> Option<Option<UrlV>> {
    match kimi {
        Some(k) => Some(urls::url_parts(k.upstream_url@)),
        None => None,
    }
}

/// Checks the addresses that a proxy is set up with.
pub fn check_config(upstream_url: &str, kimi: Option<&KimiConfig>) -> (r: Result<(), String>)
    ensures
        match r {
            Ok(_) => config_error_v(urls::url_parts(upstream_url@), kimi_url_v(kimi)) is None,
            Err(e) => config_error_v(urls::url_parts(upstream_url@), kimi_url_v(kimi)) == Some(e@),
        },
{
    if parse_url(upstream_url).is_none() {
        return Err(text::owned("invalid upstream URL"));
    }
    match kimi {
        Some(k) => kimi::validate_upstream_url(&k.upstream_url),
        None => Ok(()),
    }
}

/// Whether the proxy may listen: on an address of this machine, or with a token
/// that clients have to send.
pub open spec fn may_listen_v(address: Seq<char>, token: Seq<char>) -> bool {
    urls::loopback_listen_v(address) || text::trim_v(token).len() > 0
}

pub fn may_listen(address: &str, token: &str) -> (r: bool)
    ensures
        r == may_listen_v(address@, token@),
{
    is_loopback_listen(address) || !text::trim(token).as_str().is_empty()
}

} // verus!
