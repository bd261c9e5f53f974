//! The examination of a setup: what is found, and what it means.

use vstd::prelude::*;

use crate::catalog;
use crate::catalog::{normalize_id, Catalog};
use crate::grokconfig::config;
use crate::grokconfig::status;
use crate::grokconfig::status::is_proxy;
use crate::grokconfig::{ModelRecord, RecordV};
use crate::json;
use crate::json::{Json, JsonV};
use crate::modelmap;
use crate::modelmap::{EntryV, ModelMap};
use crate::provider::Provider;
use crate::text;
use crate::text::same;

verus! {

/// What an examination came to. A warning is no failure.
#[derive(Debug)]
pub struct Check {
    pub name: &'static str,
    pub ok: bool,
    pub warning: bool,
    pub detail: String,
}

#[verifier::ext_equal]
pub struct CheckV {
    pub name: Seq<char>,
    pub ok: bool,
    pub warning: bool,
    pub detail: Seq<char>,
}

pub open spec fn pass_v(name: Seq<char>, detail: Seq<char>) -> CheckV {
    CheckV { name, ok: true, warning: false, detail }
}

pub open spec fn warn_v(name: Seq<char>, detail: Seq<char>) -> CheckV {
    CheckV { name, ok: true, warning: true, detail }
}

pub open spec fn fail_v(name: Seq<char>, detail: Seq<char>) -> CheckV {
    CheckV { name, ok: false, warning: false, detail }
}

impl Check {
    pub open spec fn view(&self) -> CheckV {
        CheckV { name: self.name@, ok: self.ok, warning: self.warning, detail: self.detail@ }
    }

    pub fn pass(name: &'static str, detail: String) -> (r: Check)
        ensures
            r@ == pass_v(name@, detail@),
    {
        Check { name, ok: true, warning: false, detail }
    }

    pub fn warn(name: &'static str, detail: String) -> (r: Check)
        ensures
            r@ == warn_v(name@, detail@),
    {
        Check { name, ok: true, warning: true, detail }
    }

    pub fn fail(name: &'static str, detail: String) -> (r: Check)
        ensures
            r@ == fail_v(name@, detail@),
    {
        Check { name, ok: false, warning: false, detail }
    }
}

pub open spec fn checks_v(s: Seq<Check>) -> Seq<CheckV> {
    s.map_values(|c: Check| c@)
}

fn add_check(checks: &mut Vec<Check>, one: Check)
    ensures
        checks_v(final(checks)@) == checks_v(old(checks)@).push(one@),
{
    assert(checks_v(checks@.push(one)) =~= checks_v(checks@).push(one@));
    checks.push(one);
}

/// Whether no examination failed.
pub open spec fn all_ok_v(checks: Seq<CheckV>) -> bool {
    forall|i: int| 0 <= i < checks.len() ==> (#[trigger] checks[i]).ok
}

/// Fails where an examination failed.
pub fn ensure_ok(checks: &[Check]) -> (r: Result<(), String>)
    ensures
        match r {
            Ok(_) => all_ok_v(checks_v(checks@)),
            Err(e) => !all_ok_v(checks_v(checks@)) && e@ == "one or more doctor checks failed"@,
        },
{
    let ghost all = checks_v(checks@);
    let mut i: usize = 0;
    while i < checks.len()
        invariant
            i <= checks@.len(),
            all == checks_v(checks@),
            forall|k: int| 0 <= k < i ==> (#[trigger] all[k]).ok,
        decreases checks@.len() - i,
    {
        assert(all[i as int] == checks@[i as int]@);
        if !checks[i].ok {
            return Err(text::owned("one or more doctor checks failed"));
        }
        i += 1;
    }
    assert(all.len() == checks@.len());
    Ok(())
}

/// The processors that macOS is supported on.
pub open spec fn supported_v(os: Seq<char>, arch: Seq<char>) -> bool {
    os == "macos"@ && (arch == "aarch64"@ || arch == "x86_64"@)
}

pub open spec fn platform_v(os: Seq<char>, arch: Seq<char>) -> CheckV {
    if supported_v(os, arch) {
        pass_v("Platform"@, "macOS "@ + arch)
    } else {
        fail_v("Platform"@, "unsupported "@ + os + "/"@ + arch)
    }
}

pub fn platform_check(os: &str, arch: &str) -> (r: Check)
    ensures
        r@ == platform_v(os@, arch@),
{
    if same(os, "macos") && (same(arch, "aarch64") || same(arch, "x86_64")) {
        Check::pass("Platform", text::cat("macOS ", arch))
    } else {
        let mut detail = text::cat3("unsupported ", os, "/");
        detail.push_str(arch);
        Check::fail("Platform", detail)
    }
}

/// Why the program does not run here.
pub open spec fn platform_error_v(os: Seq<char>, arch: Seq<char>) -> Option<Seq<char>> {
    if os != "macos"@ {
        Some("grok-build-proxy supports macOS only (detected "@ + os + ")"@)
    } else if !supported_v(os, arch) {
        Some("grok-build-proxy does not support macOS/"@ + arch)
    } else {
        None
    }
}

pub fn require_macos(os: &str, arch: &str) -> (r: Result<(), String>)
    ensures
        match r {
            Ok(_) => platform_error_v(os@, arch@) is None,
            Err(e) => platform_error_v(os@, arch@) == Some(e@),
        },
{
    if !same(os, "macos") {
        Err(text::cat3("grok-build-proxy supports macOS only (detected ", os, ")"))
    } else if !same(arch, "aarch64") && !same(arch, "x86_64") {
        Err(text::cat("grok-build-proxy does not support macOS/", arch))
    } else {
        Ok(())
    }
}

pub open spec fn mappings_v(value: Seq<char>) -> CheckV {
    match modelmap::parse_v(value) {
        Ok(map) => pass_v(
            "Model substitutions"@,
            if map.len() == 0 {
                "none"@
            } else {
                modelmap::stable_v(map)
            },
        ),
        Err(e) => fail_v("Model substitutions"@, e.text()),
    }
}

/// The substitutions that can be read, if they can.
pub open spec fn map_of_v(value: Seq<char>) -> Option<Seq<EntryV>> {
    match modelmap::parse_v(value) {
        Ok(map) => Some(map),
        Err(_) => None,
    }
}

pub open spec fn opt_map(map: Option<ModelMap>) -> Option<Seq<EntryV>> {
    match map {
        Some(m) => Some(m@),
        None => None,
    }
}

pub fn mappings_check(value: &str) -> (r: (Check, Option<ModelMap>))
    ensures
        r.0@ == mappings_v(value@),
        opt_map(r.1) == map_of_v(value@),
{
    match ModelMap::parse(value) {
        Ok(map) => {
            let detail = if map.is_empty() {
                text::owned("none")
            } else {
                map.stable_string()
            };
            (Check::pass("Model substitutions", detail), Some(map))
        },
        Err(e) => (Check::fail("Model substitutions", e.message()), None),
    }
}

pub open spec fn binary_v(name: Seq<char>, binary: Seq<char>, found: Option<Seq<char>>) -> CheckV {
    match found {
        Some(path) => pass_v(name, path),
        None => fail_v(name, binary + " not found in PATH"@),
    }
}

/// Whether a program was found.
pub fn binary_check(name: &'static str, binary: &str, found: Option<String>) -> (r: Check)
    ensures
        r@ == binary_v(name@, binary@, text::opt_view(found)),
{
    match found {
        Some(path) => Check::pass(name, path),
        None => Check::fail(name, text::cat(binary, " not found in PATH")),
    }
}

pub open spec fn file_store_v(config: Seq<char>) -> bool {
    exists|i: int|
        0 <= i < text::lines_v(config).len() && text::trim_v(#[trigger] text::lines_v(config)[i])
            == "cli_auth_credentials_store = \"file\""@
}

/// Whether a configuration of Codex says that credentials are kept in a file.
pub fn keeps_file_store(config: &str) -> (r: bool)
    ensures
        r == file_store_v(config@),
{
    let lines = text::lines(config);
    let ghost all = text::lines_v(config@);
    let mut i: usize = 0;
    while i < lines.len()
        invariant
            i <= lines@.len(),
            all == text::views(lines@),
            all == text::lines_v(config@),
            forall|k: int|
                0 <= k < i ==> text::trim_v(#[trigger] all[k])
                    != "cli_auth_credentials_store = \"file\""@,
        decreases lines@.len() - i,
    {
        assert(all[i as int] == lines@[i as int]@);
        if same(&text::trim(&lines[i]), "cli_auth_credentials_store = \"file\"") {
            return true;
        }
        i += 1;
    }
    assert(all.len() == lines@.len());
    false
}

pub open spec fn codex_config_v(path: Seq<char>, config: Result<Seq<char>, Seq<char>>) -> CheckV {
    match config {
        Ok(text) => if file_store_v(text) {
            pass_v("Codex credential configuration"@, path)
        } else {
            fail_v(
                "Codex credential configuration"@,
                "cli_auth_credentials_store must be \"file\""@,
            )
        },
        Err(e) => fail_v("Codex credential configuration"@, path + ": "@ + e),
    }
}

/// What the configuration of Codex says, or why it could not be read.
pub fn codex_config_check(path: &str, read: &Result<String, String>) -> (r: Check)
    ensures
        r@ == codex_config_v(path@, config::text_result(*read)),
{
    match read {
        Ok(config) => if keeps_file_store(config) {
            Check::pass("Codex credential configuration", text::owned(path))
        } else {
            Check::fail(
                "Codex credential configuration",
                text::owned("cli_auth_credentials_store must be \"file\""),
            )
        },
        Err(e) => Check::fail("Codex credential configuration", text::cat3(path, ": ", e)),
    }
}

/// What was found of stored ChatGPT credentials.
#[derive(Debug)]
pub struct AuthFinding {
    pub path: String,
    pub auth_mode: String,
    pub file_mode: u32,
    pub has_refresh_token: bool,
}

/// A file that only its owner can reach.
pub open spec fn private_v(mode: u32) -> bool {
    mode & 0o077 == 0
}

pub open spec fn chatgpt_v(found: Result<AuthFinding, String>) -> Seq<CheckV> {
    match found {
        Err(e) => seq![fail_v("ChatGPT auth"@, e@)],
        Ok(f) => {
            let first = if private_v(f.file_mode) {
                pass_v("ChatGPT auth"@, f.path@ + " ("@ + f.auth_mode@ + ")"@)
            } else {
                fail_v("ChatGPT auth"@, "credential file is group/world accessible"@)
            };
            if f.has_refresh_token {
                seq![first]
            } else {
                seq![
                    first,
                    warn_v("Refresh token"@, "missing; login may need to be repeated"@),
                ]
            }
        },
    }
}

fn chatgpt_checks(found: &Result<AuthFinding, String>, checks: &mut Vec<Check>)
    ensures
        checks_v(final(checks)@) == checks_v(old(checks)@) + chatgpt_v(*found),
{
    let ghost before = checks_v(checks@);
    match found {
        Err(e) => {
            add_check(checks, Check::fail("ChatGPT auth", text::owned(e)));
        },
        Ok(f) => {
            if f.file_mode & 0o077 == 0 {
                let mut detail = text::cat3(&f.path, " (", &f.auth_mode);
                detail.push_str(")");
                add_check(checks, Check::pass("ChatGPT auth", detail));
            } else {
                add_check(
                    checks,
                    Check::fail(
                        "ChatGPT auth",
                        text::owned("credential file is group/world accessible"),
                    ),
                );
            }
            if !f.has_refresh_token {
                add_check(
                    checks,
                    Check::warn(
                        "Refresh token",
                        text::owned("missing; login may need to be repeated"),
                    ),
                );
            }
        },
    }
    assert(checks_v(checks@) =~= before + chatgpt_v(*found));
}

/// What was found of stored Kimi credentials: their file, and its mode.
#[derive(Debug)]
pub struct KimiFinding {
    pub path: String,
    pub file_mode: u32,
}

pub open spec fn kimi_v(found: Option<Result<KimiFinding, String>>) -> Seq<CheckV> {
    match found {
        None => Seq::empty(),
        Some(Err(e)) => seq![fail_v("Kimi auth"@, e@)],
        Some(Ok(f)) => if private_v(f.file_mode) {
            seq![pass_v("Kimi auth"@, f.path@)]
        } else {
            seq![fail_v("Kimi auth"@, "credential file is group/world accessible"@)]
        },
    }
}

fn kimi_checks(found: &Option<Result<KimiFinding, String>>, checks: &mut Vec<Check>)
    ensures
        checks_v(final(checks)@) == checks_v(old(checks)@) + kimi_v(*found),
{
    let ghost before = checks_v(checks@);
    match found {
        None => {},
        Some(Err(e)) => {
            add_check(checks, Check::fail("Kimi auth", text::owned(e)));
        },
        Some(Ok(f)) => {
            if f.file_mode & 0o077 == 0 {
                add_check(checks, Check::pass("Kimi auth", text::owned(&f.path)));
            } else {
                add_check(
                    checks,
                    Check::fail(
                        "Kimi auth",
                        text::owned("credential file is group/world accessible"),
                    ),
                );
            }
        },
    }
    assert(checks_v(checks@) =~= before + kimi_v(*found));
}

/// Which providers the configured models are served by.
#[derive(Clone, Copy, Debug, PartialEq, Eq, Structural)]
pub struct Needs {
    pub codex: bool,
    pub kimi: bool,
}

/// The provider of a configured model, after the substitutions.
pub open spec fn provider_of_v(model: Seq<char>, map: Option<Seq<EntryV>>) -> Provider {
    let resolved = match map {
        Some(m) => modelmap::resolve_v(m, model).model,
        None => model,
    };
    catalog::model_v(catalog::norm_v(catalog::norm_v(resolved).0).0).provider
}

pub open spec fn served_by_v(
    records: Seq<RecordV>,
    map: Option<Seq<EntryV>>,
    provider: Provider,
) -> bool {
    exists|i: int|
        0 <= i < records.len() && provider_of_v((#[trigger] records[i]).model, map) == provider
}

/// Without a configured model Codex is needed; without a configuration that
/// can be read nothing is.
pub open spec fn needs_v(
    records: Result<Seq<RecordV>, Seq<char>>,
    map: Option<Seq<EntryV>>,
) -> Needs {
    match records {
        Err(_) => Needs { codex: false, kimi: false },
        Ok(rs) => Needs {
            codex: rs.len() == 0 || served_by_v(rs, map, Provider::Codex),
            kimi: served_by_v(rs, map, Provider::Kimi),
        },
    }
}

pub open spec fn records_result(r: Result<Vec<ModelRecord>, String>) -> Result<
    Seq<RecordV>,
    Seq<char>,
> {
    match r {
        Ok(rs) => Ok(config::views(rs@)),
        Err(e) => Err(e@),
    }
}

/// Which providers the configured models are served by.
pub fn needs(records: &Result<Vec<ModelRecord>, String>, map: &Option<ModelMap>) -> (r: Needs)
    ensures
        r == needs_v(records_result(*records), opt_map(*map)),
{
    let rs = match records {
        Err(_) => {
            return Needs { codex: false, kimi: false };
        },
        Ok(rs) => rs,
    };
    let ghost all = config::views(rs@);
    let ghost m = opt_map(*map);
    let catalog = Catalog::new("");
    let mut out = Needs { codex: rs.len() == 0, kimi: false };
    let mut i: usize = 0;
    while i < rs.len()
        invariant
            i <= rs@.len(),
            all == config::views(rs@),
            m == opt_map(*map),
            out.codex == (rs@.len() == 0 || exists|k: int|
                0 <= k < i && provider_of_v((#[trigger] all[k]).model, m) == Provider::Codex),
            out.kimi == exists|k: int|
                0 <= k < i && provider_of_v((#[trigger] all[k]).model, m) == Provider::Kimi,
        decreases rs@.len() - i,
    {
        assert(all[i as int] == rs@[i as int]@);
        let resolved = match map {
            Some(map) => map.resolve(&rs[i].model).model,
            None => text::owned(&rs[i].model),
        };
        let (name, _) = normalize_id(&resolved);
        let (model, _) = catalog.lookup(&name);
        assert(provider_of_v(all[i as int].model, m) == model.provider);
        match model.provider {
            Provider::Codex => {
                out.codex = true;
            },
            Provider::Kimi => {
                out.kimi = true;
            },
        }
        i += 1;
    }
    assert(all.len() == rs@.len());
    out
}

/// A record's name and its errors.
pub open spec fn faulty_v(r: RecordV) -> Seq<char> {
    r.alias + ": "@ + text::join_v(r.errors, ", "@)
}

/// The records that are not valid, in words.
pub open spec fn faults_v(records: Seq<RecordV>) -> Seq<Seq<char>>
    decreases records.len(),
{
    if records.len() == 0 {
        Seq::empty()
    } else if records.last().valid {
        faults_v(records.drop_last())
    } else {
        faults_v(records.drop_last()).push(faulty_v(records.last()))
    }
}

pub open spec fn grok_config_v(path: Seq<char>, records: Result<Seq<RecordV>, Seq<char>>) -> CheckV {
    match records {
        Err(e) => fail_v("Grok config"@, e),
        Ok(rs) => if rs.len() == 0 {
            fail_v("Grok config"@, "no loopback Responses model found"@)
        } else if faults_v(rs).len() > 0 {
            fail_v("Grok config"@, text::join_v(faults_v(rs), "; "@))
        } else {
            pass_v(
                "Grok config"@,
                path + " ("@ + text::decimal_v(rs.len()) + " proxy models)"@,
            )
        },
    }
}

/// What the configuration of Grok holds of this proxy's models.
pub fn grok_config_check(path: &str, records: &Result<Vec<ModelRecord>, String>) -> (r: Check)
    ensures
        r@ == grok_config_v(path@, records_result(*records)),
{
    let rs = match records {
        Err(e) => {
            return Check::fail("Grok config", text::owned(e));
        },
        Ok(rs) => rs,
    };
    let ghost all = config::views(rs@);
    assert(all.len() == rs@.len());
    if rs.len() == 0 {
        return Check::fail("Grok config", text::owned("no loopback Responses model found"));
    }
    let mut faults: Vec<String> = Vec::new();
    let mut i: usize = 0;
    proof {
        assert(text::views(faults@) =~= Seq::<Seq<char>>::empty());
        assert(all.take(0) =~= Seq::<RecordV>::empty());
    }
    while i < rs.len()
        invariant
            i <= rs@.len(),
            all == config::views(rs@),
            text::views(faults@) == faults_v(all.take(i as int)),
        decreases rs@.len() - i,
    {
        proof {
            assert(all[i as int] == rs@[i as int]@);
            assert(all.take(i + 1).drop_last() =~= all.take(i as int));
        }
        if !rs[i].valid {
            let line = text::cat3(&rs[i].alias, ": ", &text::join(&rs[i].errors, ", "));
            assert(text::views(faults@.push(line)) =~= text::views(faults@).push(line@));
            faults.push(line);
        }
        i += 1;
    }
    assert(all.take(i as int) =~= all);
    assert(text::views(faults@).len() == faults@.len());
    if faults.len() > 0 {
        Check::fail("Grok config", text::join(&faults, "; "))
    } else {
        let mut detail = text::cat3(path, " (", &text::decimal(rs.len() as u64));
        detail.push_str(" proxy models)");
        Check::pass("Grok config", detail)
    }
}

/// A check of a provider that no configured model needs.
pub open spec fn unused_v(name: Seq<char>, needs: Needs) -> bool {
    (!needs.codex && (name == "Codex CLI"@ || name == "Codex credential configuration"@ || name
        == "ChatGPT auth"@)) || (!needs.kimi && name == "Kimi auth"@)
}

/// What a provider lacks that no configured model needs is no failure; that
/// others can read its credentials is.
pub open spec fn relaxed_v(check: CheckV, needs: Needs) -> CheckV {
    if unused_v(check.name, needs) && !check.ok && !text::contains_v(check.detail, "group/world"@) {
        CheckV { ok: true, warning: true, ..check }
    } else {
        check
    }
}

pub open spec fn relaxed_all_v(checks: Seq<CheckV>, needs: Needs) -> Seq<CheckV> {
    checks.map_values(|c: CheckV| relaxed_v(c, needs))
}

fn relax(check: Check, needs: Needs) -> (r: Check)
    ensures
        r@ == relaxed_v(check@, needs),
{
    let codex = same(check.name, "Codex CLI") || same(
        check.name,
        "Codex credential configuration",
    ) || same(check.name, "ChatGPT auth");
    let unused = (!needs.codex && codex) || (!needs.kimi && same(check.name, "Kimi auth"));
    if unused && !check.ok && !text::contains(&check.detail, "group/world") {
        Check { ok: true, warning: true, ..check }
    } else {
        check
    }
}

fn relax_all(checks: Vec<Check>, needs: Needs) -> (r: Vec<Check>)
    ensures
        checks_v(r@) == relaxed_all_v(checks_v(checks@), needs),
{
    let ghost all = relaxed_all_v(checks_v(checks@), needs);
    let ghost source = checks@;
    let n: usize = checks.len();
    let mut rest = checks;
    let mut out: Vec<Check> = Vec::new();
    assert(checks_v(out@) =~= all.take(0));
    assert(source.skip(0) =~= source);
    while rest.len() > 0
        invariant
            rest@ == source.skip(out@.len() as int),
            out@.len() + rest@.len() == source.len(),
            all == relaxed_all_v(checks_v(source), needs),
            checks_v(out@) == all.take(out@.len() as int),
        decreases rest@.len(),
    {
        let ghost i = out@.len() as int;
        assert(rest@[0] == source[i]);
        let one = rest.remove(0);
        let done = relax(one, needs);
        proof {
            assert(rest@ =~= source.skip(i + 1));
            assert(checks_v(source)[i] == source[i]@);
            assert(all.take(i + 1) =~= all.take(i).push(all[i]));
        }
        add_check(&mut out, done);
    }
    assert(all.take(all.len() as int) =~= all);
    out
}

/// How the proxy answered.
#[derive(Debug)]
pub enum Readiness {
    /// No request could be made.
    NoClient(String),
    /// Nobody answered; whether one could listen there.
    Silent { error: String, free: bool },
    /// Something answered about its health.
    Answered(Option<Json>),
    /// The proxy answered whether it is ready, with this status.
    Asked { status: String, success: bool },
    /// The proxy did not answer whether it is ready.
    Unanswered(String),
}

#[verifier::ext_equal]
pub enum ReadinessV {
    NoClient(Seq<char>),
    Silent { error: Seq<char>, free: bool },
    Answered(Option<JsonV>),
    Asked { status: Seq<char>, success: bool },
    Unanswered(Seq<char>),
}

impl Readiness {
    pub open spec fn view(&self) -> ReadinessV {
        match self {
            Readiness::NoClient(e) => ReadinessV::NoClient(e@),
            Readiness::Silent { error, free } => ReadinessV::Silent { error: error@, free: *free },
            Readiness::Answered(h) => ReadinessV::Answered(json::opt_owned(*h)),
            Readiness::Asked { status, success } => ReadinessV::Asked {
                status: status@,
                success: *success,
            },
            Readiness::Unanswered(e) => ReadinessV::Unanswered(e@),
        }
    }
}

/// What the answer means. `None` where it is from this proxy and the question
/// is still open.
pub open spec fn readiness_v(listen: Seq<char>, r: ReadinessV) -> Option<CheckV> {
    let base = "http://"@ + listen;
    match r {
        ReadinessV::NoClient(e) => Some(fail_v("Proxy readiness"@, e)),
        ReadinessV::Silent { error, free } => Some(
            if free {
                warn_v("Proxy readiness"@, "not running at "@ + base + ": "@ + error)
            } else {
                fail_v("Proxy readiness"@, "unreachable and address unavailable: "@ + error)
            },
        ),
        ReadinessV::Answered(h) => if status::proxy_v(h) {
            None
        } else {
            Some(fail_v("Proxy readiness"@, "health endpoint is not grok-build-proxy"@))
        },
        ReadinessV::Asked { status, success } => Some(
            if success {
                pass_v("Proxy readiness"@, "ready at "@ + base)
            } else {
                fail_v("Proxy readiness"@, "readiness returned HTTP "@ + status)
            },
        ),
        ReadinessV::Unanswered(e) => Some(fail_v("Proxy readiness"@, e)),
    }
}

pub open spec fn opt_check(c: Option<Check>) -> Option<CheckV> {
    match c {
        Some(c) => Some(c@),
        None => None,
    }
}

/// What an answer of the proxy means; `None` where it has to be asked whether it
/// is ready.
pub fn readiness_check(listen: &str, outcome: &Readiness) -> (r: Option<Check>)
    ensures
        opt_check(r) == readiness_v(listen@, outcome@),
{
    let base = text::cat("http://", listen);
    match outcome {
        Readiness::NoClient(e) => Some(Check::fail("Proxy readiness", text::owned(e))),
        Readiness::Silent { error, free } => if *free {
            let mut detail = text::cat3("not running at ", &base, ": ");
            detail.push_str(error);
            Some(Check::warn("Proxy readiness", detail))
        } else {
            Some(
                Check::fail(
                    "Proxy readiness",
                    text::cat("unreachable and address unavailable: ", error),
                ),
            )
        },
        Readiness::Answered(h) => if is_proxy(h) {
            None
        } else {
            Some(
                Check::fail(
                    "Proxy readiness",
                    text::owned("health endpoint is not grok-build-proxy"),
                ),
            )
        },
        Readiness::Asked { status, success } => if *success {
            Some(Check::pass("Proxy readiness", text::cat("ready at ", &base)))
        } else {
            Some(
                Check::fail("Proxy readiness", text::cat("readiness returned HTTP ", status)),
            )
        },
        Readiness::Unanswered(e) => Some(Check::fail("Proxy readiness", text::owned(e))),
    }
}

/// What was found of a setup.
#[derive(Debug)]
pub struct Findings {
    pub os: String,
    pub arch: String,
    pub model_map: String,
    pub codex_binary: String,
    pub codex_path: Option<String>,
    pub grok_binary: String,
    pub grok_path: Option<String>,
    pub codex_config_path: String,
    pub codex_config: Result<String, String>,
    pub chatgpt: Result<AuthFinding, String>,
    pub kimi: Option<Result<KimiFinding, String>>,
    pub grok_config_path: String,
    pub records: Result<Vec<ModelRecord>, String>,
}

/// The checks of a setup, before they are held against what is needed.
pub open spec fn found_v(f: Findings) -> Seq<CheckV> {
    seq![
        platform_v(f.os@, f.arch@),
        mappings_v(f.model_map@),
        binary_v("Codex CLI"@, f.codex_binary@, text::opt_view(f.codex_path)),
        binary_v("Grok Build CLI"@, f.grok_binary@, text::opt_view(f.grok_path)),
        codex_config_v(f.codex_config_path@, config::text_result(f.codex_config)),
    ] + chatgpt_v(f.chatgpt) + kimi_v(f.kimi) + seq![
        grok_config_v(f.grok_config_path@, records_result(f.records)),
    ]
}

/// The checks of a setup; a last one says how the proxy answered.
pub open spec fn examined_v(f: Findings, readiness: Option<CheckV>) -> Seq<CheckV> {
    let checks = relaxed_all_v(
        found_v(f),
        needs_v(records_result(f.records), map_of_v(f.model_map@)),
    );
    match readiness {
        Some(c) => checks.push(c),
        None => checks,
    }
}

/// Examines a setup.
pub fn examine(f: Findings, readiness: Option<Check>) -> (r: Vec<Check>)
    ensures
        checks_v(r@) == examined_v(f, opt_check(readiness)),
{
    let mut checks: Vec<Check> = Vec::new();
    checks.push(platform_check(&f.os, &f.arch));
    let (mapping, map) = mappings_check(&f.model_map);
    checks.push(mapping);
    let ghost codex = text::opt_view(f.codex_path);
    let ghost grok = text::opt_view(f.grok_path);
    checks.push(binary_check("Codex CLI", &f.codex_binary, f.codex_path));
    checks.push(binary_check("Grok Build CLI", &f.grok_binary, f.grok_path));
    checks.push(codex_config_check(&f.codex_config_path, &f.codex_config));
    let ghost first = seq![
        platform_v(f.os@, f.arch@),
        mappings_v(f.model_map@),
        binary_v("Codex CLI"@, f.codex_binary@, codex),
        binary_v("Grok Build CLI"@, f.grok_binary@, grok),
        codex_config_v(f.codex_config_path@, config::text_result(f.codex_config)),
    ];
    assert(checks_v(checks@) =~= first);
    chatgpt_checks(&f.chatgpt, &mut checks);
    kimi_checks(&f.kimi, &mut checks);
    let ghost second = first + chatgpt_v(f.chatgpt) + kimi_v(f.kimi);
    let last = grok_config_check(&f.grok_config_path, &f.records);
    assert(second.push(last@) =~= second + seq![last@]);
    add_check(&mut checks, last);
    let wanted = needs(&f.records, &map);
    let mut out = relax_all(checks, wanted);
    if let Some(c) = readiness {
        add_check(&mut out, c);
    }
    out
}

/// That others can read credentials is a failure whether the provider is
/// needed or not.
pub proof fn open_credentials_always_fail(check: CheckV, needs: Needs)
    requires
        !check.ok,
        text::contains_v(check.detail, "group/world"@),
    ensures
        !relaxed_v(check, needs).ok,
{
}

/// What is not about a provider keeps its verdict, and nothing that passed
/// becomes a failure.
pub proof fn only_unused_providers_are_excused(check: CheckV, needs: Needs)
    ensures
        check.ok ==> relaxed_v(check, needs) == check,
        !unused_v(check.name, needs) ==> relaxed_v(check, needs) == check,
        relaxed_v(check, needs).detail == check.detail,
        relaxed_v(check, needs).name == check.name,
{
}

pub open spec fn verdict_v(check: CheckV) -> Seq<char> {
    if !check.ok {
        "FAIL"@
    } else if check.warning {
        "WARN"@
    } else {
        "PASS"@
    }
}

/// A check in a line.
pub open spec fn check_line_v(check: CheckV) -> Seq<char> {
    "["@ + verdict_v(check) + "] "@ + check.name + ": "@ + check.detail
}

pub fn check_line(check: &Check) -> (r: String)
    ensures
        r@ == check_line_v(check@),
{
    let verdict = if !check.ok {
        "FAIL"
    } else if check.warning {
        "WARN"
    } else {
        "PASS"
    };
    let mut line = text::cat3("[", verdict, "] ");
    line.push_str(check.name);
    line.push_str(": ");
    line.push_str(&check.detail);
    line
}

pub open spec fn passed_v(checks: Seq<CheckV>) -> nat
    decreases checks.len(),
{
    if checks.len() == 0 {
        0
    } else {
        passed_v(checks.drop_last()) + (if checks.last().ok {
            1nat
        } else {
            0nat
        })
    }
}

/// How many checks passed and how many failed.
pub fn summary(checks: &Vec<Check>) -> (r: String)
    ensures
        r@ == text::decimal_v(passed_v(checks_v(checks@))) + " passed, "@ + text::decimal_v(
            (checks@.len() - passed_v(checks_v(checks@))) as nat,
        ) + " failed"@,
{
    let ghost all = checks_v(checks@);
    let mut n: usize = 0;
    let mut i: usize = 0;
    assert(all.take(0) =~= Seq::<CheckV>::empty());
    while i < checks.len()
        invariant
            i <= checks@.len(),
            n <= i,
            all == checks_v(checks@),
            n == passed_v(all.take(i as int)),
        decreases checks@.len() - i,
    {
        proof {
            assert(all[i as int] == checks@[i as int]@);
            assert(all.take(i + 1).drop_last() =~= all.take(i as int));
        }
        if checks[i].ok {
            n += 1;
        }
        i += 1;
    }
    assert(all.take(i as int) =~= all);
    let mut out = text::cat3(
        &text::decimal(n as u64),
        " passed, ",
        &text::decimal((checks.len() - n) as u64),
    );
    out.push_str(" failed");
    out
}

/// A setup passes exactly where each of its checks does, whichever they are.
pub proof fn setups_pass_when_nothing_is_wrong(f: Findings, readiness: CheckV)
    ensures
        ({
            let needs = needs_v(records_result(f.records), map_of_v(f.model_map@));
            let all = examined_v(f, Some(readiness));
            &&& all.len() == found_v(f).len() + 1
            &&& all.last() == readiness
            &&& all_ok_v(all) <==> readiness.ok && (forall|i: int|
                0 <= i < found_v(f).len() ==> relaxed_v(#[trigger] found_v(f)[i], needs).ok)
        }),
{
    let needs = needs_v(records_result(f.records), map_of_v(f.model_map@));
    let found = found_v(f);
    let all = examined_v(f, Some(readiness));
    assert forall|i: int| 0 <= i < found.len() implies all[i] == relaxed_v(
        #[trigger] found[i],
        needs,
    ) by {}
    if all_ok_v(all) {
        assert(all[found.len() as int].ok);
        assert forall|i: int| 0 <= i < found.len() implies relaxed_v(
            #[trigger] found[i],
            needs,
        ).ok by {
            assert(all[i].ok);
        }
    } else if readiness.ok {
        let k = choose|k: int| 0 <= k < all.len() && !(#[trigger] all[k]).ok;
        assert(!relaxed_v(found[k], needs).ok);
    }
}

/// What each check asks: a supported machine, substitutions that can be read, the
/// programs, credentials in a file that is private, and models that are whole.
pub proof fn checks_ask_what_they_say(f: Findings)
    ensures
        platform_v(f.os@, f.arch@).ok <==> f.os@ == "macos"@ && (f.arch@ == "aarch64"@ || f.arch@
            == "x86_64"@),
        mappings_v(f.model_map@).ok <==> modelmap::parse_v(f.model_map@) is Ok,
        binary_v("Codex CLI"@, f.codex_binary@, text::opt_view(f.codex_path)).ok
            <==> f.codex_path is Some,
        chatgpt_v(f.chatgpt)[0].ok <==> (f.chatgpt matches Ok(a) && a.file_mode & 0o077 == 0),
        f.kimi matches Some(k) ==> (kimi_v(f.kimi)[0].ok <==> (k matches Ok(a) && a.file_mode
            & 0o077 == 0)),
        grok_config_v(f.grok_config_path@, records_result(f.records)).ok <==> (records_result(
            f.records,
        ) matches Ok(rs) && rs.len() > 0 && forall|i: int|
            0 <= i < rs.len() ==> (#[trigger] rs[i]).valid),
        codex_config_v(f.codex_config_path@, config::text_result(f.codex_config)).ok <==> (
        config::text_result(f.codex_config) matches Ok(t) && file_store_v(t)),
{
    if let Ok(rs) = records_result(f.records) {
        faults_are_the_invalid(rs);
    }
}

proof fn faults_are_the_invalid(records: Seq<RecordV>)
    ensures
        faults_v(records).len() == 0 <==> forall|i: int|
            0 <= i < records.len() ==> (#[trigger] records[i]).valid,
    decreases records.len(),
{
    if records.len() > 0 {
        let d = records.drop_last();
        faults_are_the_invalid(d);
        if faults_v(records).len() == 0 {
            assert forall|i: int| 0 <= i < records.len() implies (#[trigger] records[i]).valid by {
                if i < d.len() {
                    assert(d[i].valid);
                }
            }
        } else if records.last().valid {
            let k = choose|k: int| 0 <= k < d.len() && !(#[trigger] d[k]).valid;
            assert(!records[k].valid);
        } else {
            assert(!records[records.len() - 1].valid);
        }
    }
}

/// The answer of the proxy that runs: ready is good, refused is not, and where none
/// runs but could, that is only worth a warning.
pub proof fn readiness_is_judged(listen: Seq<char>, error: Seq<char>, status: Seq<char>)
    ensures
        readiness_v(listen, ReadinessV::Asked { status, success: true }) matches Some(c) && c.ok
            && !c.warning,
        readiness_v(listen, ReadinessV::Asked { status, success: false }) matches Some(c) && !c.ok,
        readiness_v(listen, ReadinessV::Silent { error, free: true }) matches Some(c) && c.ok
            && c.warning,
        readiness_v(listen, ReadinessV::Silent { error, free: false }) matches Some(c) && !c.ok,
        readiness_v(listen, ReadinessV::Unanswered(error)) matches Some(c) && !c.ok,
        readiness_v(listen, ReadinessV::NoClient(error)) matches Some(c) && !c.ok,
{
}

} // verus!
