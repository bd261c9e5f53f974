//! Kimi: its models and its endpoints.

use vstd::prelude::*;

use crate::text;
use crate::text::same;
use crate::urls;
use crate::urls::{is_loopback_host, parse_url, UrlParts, UrlV};

pub mod auth;
pub mod request;
pub mod stream;

verus! {

/// The wire name of the coding model.
pub const WIRE_MODEL: &'static str = "kimi-for-coding";

/// The wire name of the K3 model.
pub const K3_MODEL: &'static str = "k3";

/// The wire name of the model that goes by `id`.
pub open spec fn canonical_v(id: Seq<char>) -> Option<Seq<char>> {
    if id == "kimi-for-coding"@ || id == "kimi-k2.6"@ || id == "k2.6"@ {
        Some("kimi-for-coding"@)
    } else if id == "kimi-k3"@ || id == "k3"@ {
        Some("k3"@)
    } else {
        None
    }
}

pub fn canonical_model(id: &str) -> (r: Option<&'static str>)
    ensures
        crate::json::opt_str(r) == canonical_v(id@),
{
    if same(id, "kimi-for-coding") || same(id, "kimi-k2.6") || same(id, "k2.6") {
        Some("kimi-for-coding")
    } else if same(id, "kimi-k3") || same(id, "k3") {
        Some("k3")
    } else {
        None
    }
}

/// Whether `id` names a Kimi model.
pub fn is_model(id: &str) -> (r: bool)
    ensures
        r == (canonical_v(id@) is Some),
{
    canonical_model(id).is_some()
}

/// Why an address is refused to which credentials would be sent: it has to be
/// the official one, or one on this machine.
pub open spec fn url_error_v(
    url: Option<UrlV>,
    official_host: Seq<char>,
    official_path: Seq<char>,
    label: Seq<char>,
) -> Option<Seq<char>> {
    match url {
        None => Some("invalid "@ + label),
        Some(u) => if u.username.len() > 0 || u.password is Some || u.query is Some
            || u.fragment is Some {
            Some(label + " must not contain credentials, a query, or a fragment"@)
        } else {
            match u.host {
                None => Some(label + " must include a host"@),
                Some(host) => if urls::loopback_v(host) && (u.scheme == "http"@ || u.scheme
                    == "https"@) {
                    None
                } else if u.scheme == "https"@ && text::lower_v(host) == official_host && (
                u.port is None || u.port == Some(443u16)) && u.path == official_path {
                    None
                } else {
                    Some(
                        label
                            + " must use the official HTTPS endpoint or a loopback test endpoint"@,
                    )
                },
            }
        },
    }
}

/// Checks an address that has been read. The official host is given in lower
/// case.
pub fn check_url(
    url: &Option<UrlParts>,
    official_host: &str,
    official_path: &str,
    label: &str,
) -> (r: Result<(), String>)
    ensures
        match r {
            Ok(_) => url_error_v(
                urls::opt_url(*url),
                official_host@,
                official_path@,
                label@,
            ) is None,
            Err(e) => url_error_v(urls::opt_url(*url), official_host@, official_path@, label@)
                == Some(e@),
        },
{
    let u = match url {
        None => {
            return Err(text::cat("invalid ", label));
        },
        Some(u) => u,
    };
    if !u.username.as_str().is_empty() || u.password.is_some() || u.query.is_some()
        || u.fragment.is_some() {
        return Err(
            text::cat(label, " must not contain credentials, a query, or a fragment"),
        );
    }
    let host = match &u.host {
        None => {
            return Err(text::cat(label, " must include a host"));
        },
        Some(host) => host,
    };
    if is_loopback_host(host) && (same(&u.scheme, "http") || same(&u.scheme, "https")) {
        return Ok(());
    }
    let port_ok = match u.port {
        None => true,
        Some(port) => port == 443,
    };
    if same(&u.scheme, "https") && same(&text::lower(host), official_host) && port_ok && same(
        &u.path,
        official_path,
    ) {
        Ok(())
    } else {
        Err(
            text::cat(
                label,
                " must use the official HTTPS endpoint or a loopback test endpoint",
            ),
        )
    }
}

pub open spec fn upstream_error_v(url: Option<UrlV>) -> Option<Seq<char>> {
    url_error_v(
        url,
        "api.kimi.com"@,
        "/coding/v1/chat/completions"@,
        "Kimi upstream URL"@,
    )
}

/// Checks the address to which requests are sent.
pub fn validate_upstream_url(value: &str) -> (r: Result<(), String>)
    ensures
        match r {
            Ok(_) => upstream_error_v(urls::url_parts(value@)) is None,
            Err(e) => upstream_error_v(urls::url_parts(value@)) == Some(e@),
        },
{
    check_url(
        &parse_url(value),
        "api.kimi.com",
        "/coding/v1/chat/completions",
        "Kimi upstream URL",
    )
}

pub open spec fn oauth_error_v(url: Option<UrlV>) -> Option<Seq<char>> {
    url_error_v(url, "auth.kimi.com"@, "/"@, "Kimi OAuth host"@)
}

/// Checks the address at which credentials are refreshed.
pub fn validate_oauth_host(value: &str) -> (r: Result<(), String>)
    ensures
        match r {
            Ok(_) => oauth_error_v(urls::url_parts(value@)) is None,
            Err(e) => oauth_error_v(urls::url_parts(value@)) == Some(e@),
        },
{
    check_url(&parse_url(value), "auth.kimi.com", "/", "Kimi OAuth host")
}

/// Credentials leave this machine only for the official host, over HTTPS.
pub proof fn credentials_stay_official(url: UrlV)
    requires
        upstream_error_v(Some(url)) is None,
        url.host is Some,
        !urls::loopback_v(url.host->0),
    ensures
        url.scheme == "https"@,
        text::lower_v(url.host->0) == "api.kimi.com"@,
        url.path == "/coding/v1/chat/completions"@,
        url.username.len() == 0,
        url.password is None,
{
}

/// The official addresses are accepted, whatever the case of the host's name, and
/// so is any of this machine; an address that carries credentials of its own is
/// never accepted.
pub proof fn official_addresses_are_accepted(url: UrlV, host: Seq<char>)
    requires
        url.host == Some(host),
    ensures
        ({
            let bare = url.username.len() == 0 && url.password is None && url.query is None
                && url.fragment is None;
            let secure = url.scheme == "https"@ && (url.port is None || url.port == Some(443u16));
            &&& !bare ==> upstream_error_v(Some(url)) is Some && oauth_error_v(Some(url)) is Some
            &&& bare && secure && text::lower_v(host) == "api.kimi.com"@ && url.path
                == "/coding/v1/chat/completions"@ ==> upstream_error_v(Some(url)) is None
            &&& bare && secure && text::lower_v(host) == "auth.kimi.com"@ && url.path == "/"@
                ==> oauth_error_v(Some(url)) is None
            &&& bare && urls::loopback_v(host) && (url.scheme == "http"@ || url.scheme == "https"@)
                ==> upstream_error_v(Some(url)) is None && oauth_error_v(Some(url)) is None
            &&& oauth_error_v(Some(url)) is None && !urls::loopback_v(host) ==> secure
                && text::lower_v(host) == "auth.kimi.com"@ && url.path == "/"@
        }),
{
}

} // verus!
