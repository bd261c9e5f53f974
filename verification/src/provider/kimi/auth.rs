//! Kimi credentials: what is stored, when it is refreshed, and how a device
//! signs in.

use vstd::prelude::*;

use crate::auth;
use crate::auth::{jwt_claims, Credentials, CredentialsV, REFRESH_MARGIN_MS};
use crate::json;
use crate::json::{Json, JsonV};
use crate::numbers;
use crate::numbers::signed;
use crate::provider::kimi;
use crate::provider::kimi::validate_oauth_host;
use crate::text;
use crate::text::same;
use crate::urls;
use crate::urls::UrlV;

verus! {

pub const DEFAULT_OAUTH_HOST: &'static str = "https://auth.kimi.com";

pub const DEFAULT_UPSTREAM: &'static str = "https://api.kimi.com/coding/v1/chat/completions";

pub const CLIENT_ID: &'static str = "17e5f671-d194-4dfb-9706-5516cb48c098";

/// The version of the official client that the proxy gives itself out for.
pub const KIMI_CLI_VERSION: &'static str = "1.37.0";

/// For how many seconds an access token lasts where the server does not say.
pub const DEFAULT_TOKEN_SECONDS: u64 = 900;

/// For how many seconds a device code lasts where the server does not say.
pub const DEFAULT_DEVICE_SECONDS: u64 = 900;

/// How many seconds lie between two questions where the server does not say.
pub const DEFAULT_POLL_SECONDS: u64 = 5;

/// Credentials as they are stored. `expires` is in milliseconds since 1970.
#[derive(Debug, PartialEq, Eq)]
pub struct StoredAuth {
    pub access: String,
    pub refresh: String,
    pub expires: u64,
    pub scope: Option<String>,
    pub user_id: Option<String>,
}

#[verifier::ext_equal]
pub struct StoredV {
    pub access: Seq<char>,
    pub refresh: Seq<char>,
    pub expires: u64,
    pub scope: Option<Seq<char>>,
    pub user_id: Option<Seq<char>>,
}

impl StoredAuth {
    pub open spec fn view(&self) -> StoredV {
        StoredV {
            access: self.access@,
            refresh: self.refresh@,
            expires: self.expires,
            scope: text::opt_view(self.scope),
            user_id: text::opt_view(self.user_id),
        }
    }
}

/// What a device needs to sign in.
#[derive(Debug)]
pub struct DeviceAuthorization {
    pub user_code: String,
    pub device_code: String,
    pub verification_uri: Option<String>,
    pub verification_uri_complete: String,
    pub expires_in: u64,
    pub interval: u64,
}

/// Fresh tokens. What the server leaves out is `None`.
#[derive(Debug)]
pub struct TokenResponse {
    pub access_token: String,
    pub refresh_token: Option<String>,
    pub expires_in: Option<u64>,
    pub scope: Option<String>,
}

#[verifier::ext_equal]
pub struct TokensV {
    pub access_token: Seq<char>,
    pub refresh_token: Option<Seq<char>>,
    pub expires_in: Option<u64>,
    pub scope: Option<Seq<char>>,
}

impl TokenResponse {
    pub open spec fn view(&self) -> TokensV {
        TokensV {
            access_token: self.access_token@,
            refresh_token: text::opt_view(self.refresh_token),
            expires_in: self.expires_in,
            scope: text::opt_view(self.scope),
        }
    }
}

/// Where credentials are stored, and where they are refreshed.
#[derive(Debug)]
pub struct Store {
    pub path: String,
    pub oauth_host: String,
}

/// The address at which credentials are refreshed, without slashes at its end.
pub open spec fn host_v(oauth_host: Seq<char>) -> Seq<char> {
    text::trim_end_of_v(oauth_host, '/')
}

/// Why a store cannot be set up; `url` is how its address reads.
pub open spec fn store_error_v(path: Seq<char>, oauth_host: Seq<char>, url: Option<UrlV>) -> Option<
    Seq<char>,
> {
    if path.len() == 0 {
        Some("Kimi auth file path is required"@)
    } else if host_v(oauth_host).len() == 0 {
        Some("Kimi OAuth host is required"@)
    } else {
        kimi::oauth_error_v(url)
    }
}

impl Store {
    pub fn new(path: &str, oauth_host: &str) -> (r: Result<Store, String>)
        ensures
            match r {
                Ok(s) => store_error_v(
                    path@,
                    oauth_host@,
                    urls::url_parts(host_v(oauth_host@)),
                ) is None && s.path@ == path@ && s.oauth_host@ == host_v(oauth_host@),
                Err(e) => store_error_v(
                    path@,
                    oauth_host@,
                    urls::url_parts(host_v(oauth_host@)),
                ) == Some(e@),
            },
    {
        if path.is_empty() {
            return Err(text::owned("Kimi auth file path is required"));
        }
        let host = text::trim_end_of(oauth_host, '/');
        if host.as_str().is_empty() {
            return Err(text::owned("Kimi OAuth host is required"));
        }
        match validate_oauth_host(&host) {
            Err(e) => Err(e),
            Ok(_) => Ok(Store { path: text::owned(path), oauth_host: host }),
        }
    }
}

/// What the name of a file stands for.
#[derive(Clone, Copy, Debug, PartialEq, Eq, Structural)]
pub enum FileKind {
    Missing,
    Regular,
    SymbolicLink,
    Other,
}

/// Why a file is not read as the private file that it should be. Of its mode
/// the last nine bits say who may read, write and execute it.
pub open spec fn file_error_v(
    kind: FileKind,
    mode: u32,
    require_private: bool,
    description: Seq<char>,
    path: Seq<char>,
) -> Option<Seq<char>> {
    match kind {
        FileKind::SymbolicLink => Some(
            "refusing to read "@ + description + " through a symbolic link"@,
        ),
        FileKind::Other => Some(description + " path is not a regular file"@),
        FileKind::Regular => if require_private && mode & 0o077 != 0 {
            Some(
                "refusing to read group/world-accessible "@ + description + "; run `chmod 600 "@
                    + path + "`"@,
            )
        } else {
            None
        },
        FileKind::Missing => None,
    }
}

/// Checks that a file is a private one.
pub fn check_private_file(
    kind: FileKind,
    mode: u32,
    require_private: bool,
    description: &str,
    path: &str,
) -> (r: Result<(), String>)
    ensures
        match r {
            Ok(_) => file_error_v(kind, mode, require_private, description@, path@) is None,
            Err(e) => file_error_v(kind, mode, require_private, description@, path@) == Some(e@),
        },
{
    match kind {
        FileKind::SymbolicLink => Err(
            text::cat3("refusing to read ", description, " through a symbolic link"),
        ),
        FileKind::Other => Err(text::cat(description, " path is not a regular file")),
        FileKind::Regular => if require_private && mode & 0o077 != 0 {
            let mut message = text::cat3(
                "refusing to read group/world-accessible ",
                description,
                "; run `chmod 600 ",
            );
            message.push_str(path);
            message.push_str("`");
            Err(message)
        } else {
            Ok(())
        },
        FileKind::Missing => Ok(()),
    }
}

pub open spec fn not_found_v(path: Seq<char>) -> Seq<char> {
    "Kimi credentials not found at "@ + path + "; run `grok-build-proxy kimi auth login`"@
}

/// Why there are no credentials where there is no file.
pub fn credentials_not_found(path: &str) -> (r: String)
    ensures
        r@ == not_found_v(path@),
{
    text::cat3(
        "Kimi credentials not found at ",
        path,
        "; run `grok-build-proxy kimi auth login`",
    )
}

pub open spec fn stored_error_v(auth: StoredV) -> Option<Seq<char>> {
    if text::trim_v(auth.access).len() == 0 {
        Some(
            "Kimi auth file is missing an access token; run `grok-build-proxy kimi auth login`"@,
        )
    } else {
        None
    }
}

/// Checks that stored credentials can be used.
pub fn check_stored(auth: &StoredAuth) -> (r: Result<(), String>)
    ensures
        match r {
            Ok(_) => stored_error_v(auth@) is None,
            Err(e) => stored_error_v(auth@) == Some(e@),
        },
{
    if text::trim(&auth.access).as_str().is_empty() {
        Err(
            text::owned(
                "Kimi auth file is missing an access token; run `grok-build-proxy kimi auth login`",
            ),
        )
    } else {
        Ok(())
    }
}

/// The name of this device, from the file that holds it.
pub open spec fn device_id_v(contents: Seq<char>) -> Option<Seq<char>> {
    let id = text::trim_v(contents);
    if id.len() > 0 {
        Some(id)
    } else {
        None
    }
}

pub fn device_id_of(contents: &str, path: &str) -> (r: Result<String, String>)
    ensures
        match r {
            Ok(id) => device_id_v(contents@) == Some(id@),
            Err(e) => device_id_v(contents@) is None && e@ == "Kimi device ID file is empty at "@
                + path@,
        },
{
    let id = text::trim(contents);
    if !id.as_str().is_empty() {
        Ok(id)
    } else {
        Err(text::cat("Kimi device ID file is empty at ", path))
    }
}

/// Whether credentials are refreshed before they are used at time `now`.
pub open spec fn stale_v(auth: StoredV, force: bool, now: u64) -> bool {
    force || auth.expires <= now + REFRESH_MARGIN_MS
}

pub fn needs_refresh(auth: &StoredAuth, force: bool, now: u64) -> (r: bool)
    ensures
        r == stale_v(auth@, force, now),
{
    force || auth.expires as u128 <= now as u128 + REFRESH_MARGIN_MS as u128
}

pub open spec fn refresh_token_v(auth: StoredV) -> Option<Seq<char>> {
    if text::trim_v(auth.refresh).len() > 0 {
        Some(auth.refresh)
    } else {
        None
    }
}

/// The refresh token, if there is one.
pub fn refresh_token(auth: &StoredAuth) -> (r: Result<String, String>)
    ensures
        match r {
            Ok(t) => refresh_token_v(auth@) == Some(t@),
            Err(e) => refresh_token_v(auth@) is None && e@
                == "Kimi credentials cannot be refreshed; run `grok-build-proxy kimi auth login`"@,
        },
{
    if text::trim(&auth.refresh).as_str().is_empty() {
        Err(
            text::owned(
                "Kimi credentials cannot be refreshed; run `grok-build-proxy kimi auth login`",
            ),
        )
    } else {
        Ok(text::owned(&auth.refresh))
    }
}

/// A millisecond that a calendar date can be given for: years from -262143 to
/// 262142.
pub open spec fn dated_v(millis: i64) -> bool {
    -8_334_601_228_800_000 <= millis <= 8_210_266_876_799_999
}

/// `chrono::DateTime::from_timestamp_millis` gives a date for the milliseconds
/// within its range of years, and none for others.
#[verifier::external_body]
fn has_date(millis: i64) -> (r: bool)
    ensures
        r == dated_v(millis),
{
    chrono::DateTime::from_timestamp_millis(millis).is_some()
}

/// The end of stored credentials, where it is a time that has a date.
pub open spec fn end_v(expires: u64) -> Option<i64> {
    if dated_v(numbers::signed_v(expires)) {
        Some(numbers::signed_v(expires))
    } else {
        None
    }
}

pub fn end_of(auth: &StoredAuth) -> (r: Option<i64>)
    ensures
        r == end_v(auth.expires),
{
    let millis: i64 = signed(auth.expires);
    if has_date(millis) {
        Some(millis)
    } else {
        None
    }
}

pub open spec fn credentials_v(auth: StoredV) -> CredentialsV {
    CredentialsV {
        access_token: auth.access,
        account_id: auth::or_empty_v(auth.user_id),
        expires_at: end_v(auth.expires),
    }
}

/// The credentials in what is stored.
pub fn credentials(auth: &StoredAuth) -> (r: Credentials)
    ensures
        r@ == credentials_v(auth@),
{
    let account_id = match &auth.user_id {
        Some(s) => text::owned(s),
        None => String::new(),
    };
    Credentials {
        access_token: text::owned(&auth.access),
        account_id,
        expires_at: end_of(auth),
    }
}

/// What there is to say of stored credentials without showing them. The time
/// is in milliseconds since 1970.
#[derive(Debug)]
pub struct AuthStatus {
    pub path: String,
    pub user_id: Option<String>,
    pub expires_at: i64,
    pub has_refresh_token: bool,
    pub file_mode: u32,
    pub file_size: u64,
}

#[verifier::ext_equal]
pub struct AuthStatusV {
    pub path: Seq<char>,
    pub user_id: Option<Seq<char>>,
    pub expires_at: i64,
    pub has_refresh_token: bool,
    pub file_mode: u32,
    pub file_size: u64,
}

impl AuthStatus {
    pub open spec fn view(&self) -> AuthStatusV {
        AuthStatusV {
            path: self.path@,
            user_id: text::opt_view(self.user_id),
            expires_at: self.expires_at,
            has_refresh_token: self.has_refresh_token,
            file_mode: self.file_mode,
            file_size: self.file_size,
        }
    }
}

/// What there is to say of credentials that are stored in a file.
pub fn inspect_stored(auth: &StoredAuth, path: &str, file_mode: u32, file_size: u64) -> (r: Result<
    AuthStatus,
    String,
>)
    ensures
        match r {
            Ok(s) => end_v(auth.expires) is Some && s@ == (AuthStatusV {
                path: path@,
                user_id: auth@.user_id,
                expires_at: end_v(auth.expires)->0,
                has_refresh_token: auth@.refresh.len() > 0,
                file_mode,
                file_size,
            }),
            Err(e) => end_v(auth.expires) is None && e@
                == "Kimi credential expiry is out of range"@,
        },
{
    match end_of(auth) {
        None => Err(text::owned("Kimi credential expiry is out of range")),
        Some(expires_at) => Ok(
            AuthStatus {
                path: text::owned(path),
                user_id: copy_text(&auth.user_id),
                expires_at,
                has_refresh_token: !auth.refresh.as_str().is_empty(),
                file_mode,
                file_size,
            },
        ),
    }
}

/// The user that claims name.
pub open spec fn subject_v(claims: Option<JsonV>) -> Option<Seq<char>> {
    match claims {
        Some(c) => c.get_text("sub"@),
        None => None,
    }
}

pub open spec fn opt_stored(auth: Option<&StoredAuth>) -> Option<StoredV> {
    match auth {
        Some(a) => Some(a@),
        None => None,
    }
}

pub open spec fn lifetime_v(tokens: TokensV) -> nat {
    match tokens.expires_in {
        Some(n) => n as nat,
        None => DEFAULT_TOKEN_SECONDS as nat,
    }
}

pub open spec fn filled_v(s: Option<Seq<char>>) -> Option<Seq<char>> {
    match s {
        Some(s) => if s.len() > 0 {
            Some(s)
        } else {
            None
        },
        None => None,
    }
}

/// What is stored of fresh tokens at time `now`; what they leave out stays as
/// it is in `current`. `claims` is what the access token claims.
pub open spec fn stored_v(
    tokens: TokensV,
    current: Option<StoredV>,
    claims: Option<JsonV>,
    now: u64,
) -> Result<StoredV, Seq<char>> {
    if text::trim_v(tokens.access_token).len() == 0 {
        Err("Kimi token response did not include an access token"@)
    } else {
        Ok(
            StoredV {
                access: tokens.access_token,
                refresh: match filled_v(tokens.refresh_token) {
                    Some(t) => t,
                    None => match current {
                        Some(c) => c.refresh,
                        None => Seq::empty(),
                    },
                },
                expires: (now + lifetime_v(tokens) * 1000) as u64,
                scope: match tokens.scope {
                    Some(s) => Some(s),
                    None => match current {
                        Some(c) => c.scope,
                        None => None,
                    },
                },
                user_id: match subject_v(claims) {
                    Some(s) => Some(s),
                    None => match current {
                        Some(c) => c.user_id,
                        None => None,
                    },
                },
            },
        )
    }
}

pub open spec fn stored_result(r: Result<StoredAuth, String>) -> Result<StoredV, Seq<char>> {
    match r {
        Ok(a) => Ok(a@),
        Err(e) => Err(e@),
    }
}

fn copy_text(s: &Option<String>) -> (r: Option<String>)
    ensures
        text::opt_view(r) == text::opt_view(*s),
{
    match s {
        Some(s) => Some(text::owned(s)),
        None => None,
    }
}

/// What is stored of fresh tokens whose claims have been read.
pub fn stored_with_claims(
    tokens: TokenResponse,
    current: Option<&StoredAuth>,
    claims: &Option<Json>,
    now: u64,
) -> (r: Result<StoredAuth, String>)
    requires
        now + lifetime_v(tokens@) * 1000 <= u64::MAX,
    ensures
        stored_result(r) == stored_v(tokens@, opt_stored(current), json::opt_owned(*claims), now),
{
    if text::trim(&tokens.access_token).as_str().is_empty() {
        return Err(text::owned("Kimi token response did not include an access token"));
    }
    let own = match &tokens.refresh_token {
        Some(t) => if !t.as_str().is_empty() {
            Some(text::owned(t))
        } else {
            None
        },
        None => None,
    };
    let refresh = match own {
        Some(t) => t,
        None => match current {
            Some(c) => text::owned(&c.refresh),
            None => String::new(),
        },
    };
    let seconds: u64 = match tokens.expires_in {
        Some(n) => n,
        None => DEFAULT_TOKEN_SECONDS,
    };
    let scope = match &tokens.scope {
        Some(s) => Some(text::owned(s)),
        None => match current {
            Some(c) => copy_text(&c.scope),
            None => None,
        },
    };
    let subject = match claims {
        Some(c) => match c.get_str("sub") {
            Some(s) => Some(text::owned(s)),
            None => None,
        },
        None => None,
    };
    let user_id = match subject {
        Some(s) => Some(s),
        None => match current {
            Some(c) => copy_text(&c.user_id),
            None => None,
        },
    };
    Ok(
        StoredAuth {
            access: tokens.access_token,
            refresh,
            expires: now + seconds * 1000,
            scope,
            user_id,
        },
    )
}

/// What is stored of fresh tokens at time `now`.
pub fn stored_auth(tokens: TokenResponse, current: Option<&StoredAuth>, now: u64) -> (r: Result<
    StoredAuth,
    String,
>)
    requires
        now + lifetime_v(tokens@) * 1000 <= u64::MAX,
    ensures
        stored_result(r) == stored_v(
            tokens@,
            opt_stored(current),
            auth::claims_v(tokens@.access_token),
            now,
        ),
{
    let claims = jwt_claims(&tokens.access_token);
    stored_with_claims(tokens, current, &claims, now)
}

/// An ASCII character that is no control character.
pub open spec fn printable_v(c: char) -> bool {
    c as u32 <= 0x7f && !text::is_ctl(c)
}

pub open spec fn printables_v(s: Seq<char>) -> Seq<char>
    decreases s.len(),
{
    if s.len() == 0 {
        s
    } else if printable_v(s.last()) {
        printables_v(s.drop_last()).push(s.last())
    } else {
        printables_v(s.drop_last())
    }
}

/// A text that can stand in a header: only printable ASCII.
pub open spec fn ascii_v(s: Seq<char>) -> Seq<char> {
    let t = text::trim_v(printables_v(s));
    if t.len() > 0 {
        t
    } else {
        "unknown"@
    }
}

pub fn ascii(value: &str) -> (r: String)
    ensures
        r@ == ascii_v(value@),
{
    let v = text::chars_of(value);
    let mut out = String::new();
    let mut i: usize = 0;
    assert(v@.take(0) =~= Seq::<char>::empty());
    while i < v.len()
        invariant
            i <= v@.len(),
            out@ == printables_v(v@.take(i as int)),
        decreases v@.len() - i,
    {
        assert(v@.take(i + 1).drop_last() =~= v@.take(i as int));
        let c: char = v[i];
        if c as u32 <= 0x7f && !text::control(c) {
            out.push(c);
        }
        i += 1;
    }
    assert(v@.take(i as int) =~= v@);
    let t = text::trim(&out);
    if !t.as_str().is_empty() {
        t
    } else {
        text::owned("unknown")
    }
}

pub type HeaderV = (Seq<char>, Seq<char>);

pub open spec fn headers_v(s: Seq<(&'static str, String)>) -> Seq<HeaderV> {
    s.map_values(|h: (&'static str, String)| (h.0@, h.1@))
}

/// The headers with which the official client names itself and its device.
pub open spec fn device_headers_v(
    hostname: Option<Seq<char>>,
    os: Seq<char>,
    arch: Seq<char>,
    device_id: Seq<char>,
) -> Seq<HeaderV> {
    seq![
        ("x-msh-platform"@, "kimi_cli"@),
        ("x-msh-version"@, "1.37.0"@),
        (
            "x-msh-device-name"@,
            ascii_v(
                match hostname {
                    Some(h) => h,
                    None => "unknown"@,
                },
            ),
        ),
        ("x-msh-device-model"@, ascii_v(os + " "@ + arch)),
        ("x-msh-os-version"@, ascii_v(arch)),
        ("x-msh-device-id"@, device_id),
        ("user-agent"@, "KimiCLI/1.37.0"@),
    ]
}

/// The headers with which the official client names itself and its device.
pub fn device_headers(hostname: Option<&str>, os: &str, arch: &str, device_id: &str) -> (r: Vec<
    (&'static str, String),
>)
    ensures
        headers_v(r@) == device_headers_v(json::opt_str(hostname), os@, arch@, device_id@),
{
    let name = match hostname {
        Some(h) => ascii(h),
        None => ascii("unknown"),
    };
    let mut out: Vec<(&'static str, String)> = Vec::new();
    out.push(("x-msh-platform", text::owned("kimi_cli")));
    out.push(("x-msh-version", text::owned("1.37.0")));
    out.push(("x-msh-device-name", name));
    out.push(("x-msh-device-model", ascii(&text::cat3(os, " ", arch))));
    out.push(("x-msh-os-version", ascii(arch)));
    out.push(("x-msh-device-id", text::owned(device_id)));
    out.push(("user-agent", text::owned("KimiCLI/1.37.0")));
    assert(headers_v(out@) =~= device_headers_v(
        json::opt_str(hostname),
        os@,
        arch@,
        device_id@,
    ));
    out
}

/// What to do after a question whether the user has let the device in.
#[derive(Debug)]
pub enum PollStep {
    /// Ask again after so many seconds.
    Wait(u64),
    Stop(String),
}

#[verifier::ext_equal]
pub enum PollStepV {
    Wait(int),
    Stop(Seq<char>),
}

impl PollStep {
    pub open spec fn view(&self) -> PollStepV {
        match self {
            PollStep::Wait(n) => PollStepV::Wait(*n as int),
            PollStep::Stop(e) => PollStepV::Stop(e@),
        }
    }
}

/// How many seconds lie between two questions at first.
pub fn first_interval(authorization: &DeviceAuthorization) -> (r: u64)
    ensures
        r == (if authorization.interval == 0 {
            1u64
        } else {
            authorization.interval
        }),
{
    if authorization.interval == 0 {
        1
    } else {
        authorization.interval
    }
}

/// Why no device was let in.
pub fn start_refused(status: &str, body: &str) -> (r: String)
    ensures
        r@ == "start Kimi device authorization: HTTP "@ + status@ + ": "@ + body@,
{
    let mut message = text::cat3("start Kimi device authorization: HTTP ", status, ": ");
    message.push_str(body);
    message
}

/// Why credentials were not refreshed.
pub fn refresh_refused(status: &str) -> (r: String)
    ensures
        r@ == "refresh Kimi access token: HTTP "@ + status@
            + "; run `grok-build-proxy kimi auth login` if access was revoked"@,
{
    text::cat3(
        "refresh Kimi access token: HTTP ",
        status,
        "; run `grok-build-proxy kimi auth login` if access was revoked",
    )
}

/// Whether a device may still ask, `elapsed_ms` after it was given its code.
pub fn check_deadline(elapsed_ms: u64, expires_in: u64) -> (r: Result<(), String>)
    ensures
        match r {
            Ok(_) => elapsed_ms < expires_in * 1000,
            Err(e) => elapsed_ms >= expires_in * 1000 && e@
                == "Kimi device code expired; run login again"@,
        },
{
    if elapsed_ms as u128 >= expires_in as u128 * 1000 {
        Err(text::owned("Kimi device code expired; run login again"))
    } else {
        Ok(())
    }
}

/// What to do after the answer `error` with the status `status`, where the last
/// wait was `interval` seconds.
pub open spec fn poll_v(error: Option<Seq<char>>, status: Seq<char>, interval: int) -> PollStepV {
    match error {
        None => PollStepV::Stop("Kimi device authorization failed: HTTP "@ + status),
        Some(code) => if code == "authorization_pending"@ {
            PollStepV::Wait(interval)
        } else if code == "slow_down"@ {
            PollStepV::Wait(interval + 5)
        } else if code == "expired_token"@ {
            PollStepV::Stop("Kimi device code expired; run login again"@)
        } else {
            PollStepV::Stop(
                "Kimi device authorization failed ("@ + status + "): "@ + code,
            )
        },
    }
}

/// What to do after a refusal.
pub fn poll_step(error: Option<&str>, status: &str, interval: u64) -> (r: PollStep)
    requires
        interval <= u64::MAX - 5,
    ensures
        r@ == poll_v(json::opt_str(error), status@, interval as int),
{
    match error {
        None => PollStep::Stop(text::cat("Kimi device authorization failed: HTTP ", status)),
        Some(code) => if same(code, "authorization_pending") {
            PollStep::Wait(interval)
        } else if same(code, "slow_down") {
            PollStep::Wait(interval + 5)
        } else if same(code, "expired_token") {
            PollStep::Stop(text::owned("Kimi device code expired; run login again"))
        } else {
            let mut message = text::cat3(
                "Kimi device authorization failed (",
                status,
                "): ",
            );
            message.push_str(code);
            PollStep::Stop(message)
        },
    }
}

/// Waits between two questions never become shorter.
pub proof fn waits_do_not_shrink(error: Option<Seq<char>>, status: Seq<char>, interval: int)
    ensures
        poll_v(error, status, interval) matches PollStepV::Wait(n) ==> n >= interval,
{
}

/// A refresh without a new refresh token, scope or user keeps the old ones.
pub proof fn refreshes_keep_what_is_left_out(
    tokens: TokensV,
    current: StoredV,
    claims: Option<JsonV>,
    now: u64,
)
    ensures
        stored_v(tokens, Some(current), claims, now) matches Ok(s) ==> {
            &&& filled_v(tokens.refresh_token) is None ==> s.refresh == current.refresh
            &&& tokens.scope is None ==> s.scope == current.scope
            &&& subject_v(claims) is None ==> s.user_id == current.user_id
        },
{
}

/// What is stored of fresh tokens: the new access token, an end after the time
/// that they last, and who they are for.
pub proof fn fresh_tokens_are_stored(
    tokens: TokensV,
    current: Option<StoredV>,
    claims: Option<JsonV>,
    now: u64,
)
    requires
        now + lifetime_v(tokens) * 1000 <= u64::MAX,
    ensures
        stored_v(tokens, current, claims, now) is Ok <==> text::trim_v(tokens.access_token).len()
            > 0,
        stored_v(tokens, current, claims, now) matches Ok(s) ==> {
            &&& s.access == tokens.access_token
            &&& tokens.refresh_token matches Some(t) ==> t.len() > 0 ==> s.refresh == t
            &&& tokens.expires_in matches Some(n) ==> s.expires == now + n * 1000
            &&& tokens.scope is Some ==> s.scope == tokens.scope
            &&& claims matches Some(c) ==> c.get_text("sub"@) is Some ==> s.user_id == c.get_text(
                "sub"@,
            )
        },
{
}

/// Stored credentials are refreshed five minutes before they end, and whenever
/// that is forced.
pub proof fn ending_credentials_are_refreshed(auth: StoredV, force: bool, now: u64)
    ensures
        stale_v(auth, force, now) <==> force || auth.expires <= now + 300_000,
{
}

/// The credentials that are used are those that are stored.
pub proof fn stored_credentials_are_used(auth: StoredV)
    ensures
        ({
            let c = credentials_v(auth);
            &&& c.access_token == auth.access
            &&& auth.user_id matches Some(u) ==> c.account_id == u
            &&& auth.expires <= 8_210_266_876_799_999 ==> c.expires_at == Some(auth.expires as i64)
        }),
{
}

/// A file that others can read is refused where it has to be private, and so is a
/// link or what is no file; a private file is read.
pub proof fn open_files_are_refused(
    kind: FileKind,
    mode: u32,
    private: bool,
    description: Seq<char>,
    path: Seq<char>,
)
    ensures
        file_error_v(kind, mode, private, description, path) is Some <==> kind
            == FileKind::SymbolicLink || kind == FileKind::Other || (kind == FileKind::Regular
            && private && mode & 0o077 != 0),
{
}

/// Who waits for a device to be let in asks again while that is pending, more
/// slowly where it is told to, and stops at any other answer.
pub proof fn polls_go_on_while_pending(error: Option<Seq<char>>, status: Seq<char>, interval: int)
    ensures
        error == Some("authorization_pending"@) ==> poll_v(error, status, interval)
            == PollStepV::Wait(interval),
        error == Some("slow_down"@) ==> poll_v(error, status, interval) == PollStepV::Wait(
            interval + 5,
        ),
        error != Some("authorization_pending"@) && error != Some("slow_down"@) ==> poll_v(
            error,
            status,
            interval,
        ) is Stop,
{
    reveal_strlit("authorization_pending");
    reveal_strlit("slow_down");
    assert("authorization_pending"@.len() == 21 && "slow_down"@.len() == 9);
}

} // verus!
