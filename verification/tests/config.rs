//! The configuration of Grok, the checks of a setup, and the command line.

use grok_build_proxy::catalog::Catalog;
use grok_build_proxy::cli::{
    account_shown, arg_change, available_line, consents, display_id, ensure_usable, record_line,
    render_config, status_line, status_listen, update_spec, wanted_specs, write_step, ArgChange,
    Update, WriteStep,
};
use grok_build_proxy::codexcli::{
    auth_args, auth_config, binary_missing, binary_places, run_failed, AuthAction,
};
use grok_build_proxy::doctor::{
    check_line, ensure_ok, examine, platform_check, readiness_check, require_macos, summary, Check,
    Findings, KimiFinding, Readiness,
};
use grok_build_proxy::grokconfig::status::{
    endpoint_status, model_status, select_records, unreachable_endpoint,
};
use grok_build_proxy::grokconfig::{
    available_models, canonical_alias, model_spec, sync_specs, validate_alias, ChangeSet,
    GrokConfig, ModelSpec,
};
use grok_build_proxy::json;
use grok_build_proxy::modelmap::ModelMap;

const LISTEN: &str = "127.0.0.1:18765";

fn load(text: &str) -> GrokConfig {
    GrokConfig::load("config.toml", text.into()).unwrap()
}

/// The text of a configuration after its changes are written.
fn written(config: &GrokConfig, current: &str) -> String {
    match config.commit(current).unwrap() {
        Some(commit) => commit.text,
        None => current.into(),
    }
}

fn spec(alias: &str, target: &str, fast: bool) -> Result<ModelSpec, String> {
    model_spec(&Catalog::default(), alias, target, fast, LISTEN, "", None)
}

#[test]
fn add_update_remove_preserve_unrelated_content() {
    let start = "# keep\n[models]\ndefault = \"grok-build\"\n\n[model.other]\nmodel = \"other\"\nbase_url = \"https://example.com/v1\"\n";
    let mut config = load(start);
    config.add(&spec("codex-sol", "gpt-5.6-sol", false).unwrap()).unwrap();
    let text = written(&config, start);
    assert!(text.contains("# keep"));
    assert!(text.contains("[model.other]"));
    assert!(text.contains("# Managed by grok-build-proxy"));

    let mut config = load(&text);
    config.update(&spec("codex-sol", "gpt-5.6-sol", true).unwrap()).unwrap();
    let text = written(&config, &text);
    assert_eq!(load(&text).record("codex-sol").unwrap().model, "gpt-5.6-sol-fast");

    let mut config = load(&text);
    config.remove("codex-sol").unwrap();
    let text = written(&config, &text);
    assert!(text.contains("[model.other]"));
    assert!(!text.contains("[model.codex-sol]"));
}

#[test]
fn sync_fast_is_idempotent_and_prunes_only_managed_models() {
    let start = "[model.manual]\nmodel = \"custom\"\nbase_url = \"http://127.0.0.1:18765/v1\"\napi_backend = \"responses\"\napi_key = \"unused\"\ncontext_window = 1\nname = \"Manual\"\n";
    let catalog = Catalog::new("gpt-5.6-sol,gpt-5.2");
    let (mut specs, unsupported) = sync_specs(&catalog, LISTEN, "", true).unwrap();
    assert_eq!(unsupported, vec!["gpt-5.2"]);
    let mut config = load(start);
    config.sync(&specs, false).unwrap();
    let text = written(&config, start);
    let mut config = load(&text);
    assert!(config.sync(&specs, false).unwrap().is_empty());
    specs.truncate(1);
    config.sync(&specs, true).unwrap();
    let text = written(&config, &text);
    let config = load(&text);
    assert!(config.record("manual").is_ok());
    assert!(config.record("codex-sol-fast").is_err());
}

#[test]
fn invalid_toml_and_unsupported_fast_fail_without_writes() {
    assert!(GrokConfig::load("config.toml", "[broken\n".into()).is_err());
    assert!(spec("codex-old-fast", "gpt-5.2", true).is_err());
    assert!(spec("codex-double-fast", "gpt-5.6-sol-fast-fast", false).is_err());
}

#[test]
fn live_status_accepts_fast_priority_metadata() {
    let mut config = load("");
    config.add(&spec("codex-sol-fast", "gpt-5.6-sol", true).unwrap()).unwrap();
    let records = select_records(&config, None).unwrap();
    assert_eq!(records.len(), 1);
    let endpoint = endpoint_status(
        &json::parse(r#"{"service": "grok-build-proxy"}"#),
        true,
        &json::parse(
            r#"{"data": [{"id": "gpt-5.6-sol-fast", "service_tier": "priority", "target_model": "gpt-5.6-sol-fast"}]}"#,
        ),
    );
    for record in records {
        let status = model_status(&config, record, LISTEN, "", &endpoint);
        assert!(status.configured);
        assert!(status.proxy);
        assert!(status.ready);
        assert!(status.advertised);
        assert!(status.metadata);
        assert!(status_line(&status).starts_with("codex-sol-fast\tpriority\tPASS\tPASS\tPASS\tPASS\tPASS\t"));
        assert!(ensure_usable(&vec![status]).is_ok());
    }
    for record in select_records(&config, Some("codex-sol-fast")).unwrap() {
        let status = model_status(&config, record, LISTEN, "", &unreachable_endpoint("refused"));
        assert!(!status.proxy);
        assert!(status.detail.contains("refused"));
        assert_eq!(
            ensure_usable(&vec![status]).unwrap_err(),
            "one or more model status checks failed"
        );
    }
    assert!(select_records(&config, Some("missing")).is_err());
}

#[test]
fn sync_rejects_manual_alias_collision_and_duplicate_generated_aliases() {
    let start = "[model.codex-sol]\nmodel = \"gpt-5.6-sol\"\nname = \"Manual\"\nbase_url = \"http://127.0.0.1:18765/v1\"\napi_backend = \"responses\"\napi_key = \"unused\"\ncontext_window = 372000\n";
    let (specs, _) = sync_specs(&Catalog::new("gpt-5.6-sol"), LISTEN, "", false).unwrap();
    let mut config = load(start);
    assert!(config.sync(&specs, false).is_err());
    assert!(sync_specs(&Catalog::new("foo.bar,foo-bar"), LISTEN, "", false).is_err());
}

#[test]
fn changes_are_not_written_over_those_of_others() {
    let mut config = load("[ui]\na = 1\n");
    assert!(config.commit("[ui]\na = 1\n").unwrap().is_none());
    config.add(&spec("codex-sol", "gpt-5.6-sol", false).unwrap()).unwrap();
    assert!(config.commit("[ui]\na = 2\n").is_err());
    let commit = config.commit("[ui]\na = 1\n").unwrap().unwrap();
    assert!(commit.backup);
    assert!(commit.text.contains("[ui]\na = 1"));
    assert!(config.add(&spec("codex-sol", "gpt-5.6-sol", false).unwrap()).is_err());
    assert!(config.remove("ui").is_err());
    let mut foreign = load("[model.x]\nmodel = \"y\"\n");
    assert!(foreign.remove("x").is_err());
    assert!(foreign.update(&spec("x", "gpt-5.6-sol", false).unwrap()).is_err());
}

#[test]
fn keys_are_kept_and_inherited() {
    let with_key = model_spec(
        &Catalog::default(),
        "codex-sol",
        "gpt-5.6-sol",
        false,
        LISTEN,
        "super-secret",
        Some("Mine"),
    )
    .unwrap();
    let mut config = load("");
    config.add(&with_key).unwrap();
    assert_eq!(config.raw_api_key("codex-sol").unwrap(), "super-secret");
    let record = config.record("codex-sol").unwrap();
    assert!(!record_line(&record).contains("super-secret"));
    assert!(record.managed && record.valid);
    assert_eq!(
        config.inherited_api_key("http://127.0.0.1:18765/v1").unwrap().as_deref(),
        Some("super-secret")
    );
    let u = Update {
        alias: "codex-sol".into(),
        model: Some("gpt-5.6-terra".into()),
        name: None,
        fast: true,
        no_fast: false,
    };
    let updated = update_spec(&config, &Catalog::default(), &u, "", None).unwrap();
    assert_eq!(updated.effective_model, "gpt-5.6-terra-fast");
    assert_eq!(updated.name, "Mine");
    assert_eq!(updated.api_key, "super-secret");
    assert_eq!(updated.base_url, "http://127.0.0.1:18765/v1");
    let (specs, _) =
        wanted_specs(&config, &Catalog::new("gpt-5.6-sol"), LISTEN, "", false).unwrap();
    assert!(specs.iter().all(|s| s.api_key == "super-secret"));
    assert_eq!(status_listen(None, &config.records()), LISTEN);
    assert_eq!(status_listen(Some("h:1"), &config.records()), "h:1");
}

#[test]
fn model_preview_never_prints_client_token() {
    let token = "super-secret-local-token";
    let secret = model_spec(
        &Catalog::default(),
        "codex-sol",
        "gpt-5.6-sol",
        false,
        LISTEN,
        token,
        None,
    )
    .unwrap();
    let mut config = load("");
    let changes = config.add(&secret).unwrap();
    assert!(!changes.is_empty());
    assert!(changes.changes.iter().all(|line| !line.contains(token)));
}

#[test]
fn model_sync_preview_and_fast_selection_are_safe() {
    let (specs, _) = wanted_specs(&load(""), &Catalog::default(), LISTEN, "", true).unwrap();
    let mut config = load("");
    let changes = config.sync(&specs, false).unwrap();
    assert_eq!(write_step(&changes, false, false, false), WriteStep::Refuse);
    assert_eq!(write_step(&changes, true, true, true), WriteStep::DryRun);
    assert_eq!(write_step(&changes, false, false, true), WriteStep::Ask);
    assert_eq!(write_step(&changes, false, true, false), WriteStep::Write);
    assert_eq!(write_step(&ChangeSet::default(), false, true, false), WriteStep::Nothing);
    assert!(changes.changes.iter().any(|line| line.contains("priority")));
    let text = written(&config, "");
    assert!(text.contains("[model.codex-sol-fast]"));
    assert!(text.contains("model = \"gpt-5.6-sol-fast\""));
    let available = available_models(&Catalog::default());
    assert!(available.iter().any(|m| m.fast));
    assert!(available_line(&available[0]).starts_with("gpt-5.6-sol\t"));
    assert!(consents(" Yes\n"));
    assert!(!consents(""));
}

#[test]
fn config_output_uses_real_catalog_and_requested_address() {
    let text = render_config("127.0.0.1:28765", &Catalog::default(), &ModelMap::default());
    assert!(text.contains("model = \"gpt-5.6-sol\""));
    assert!(text.contains("model = \"kimi-for-coding\""));
    assert!(text.contains("name = \"Kimi K2.6\""));
    assert!(text.contains("base_url = \"http://127.0.0.1:28765/v1\""));
    assert!(text.contains("reasoning_efforts = [\"low\", \"medium\", \"high\", \"xhigh\"]"));
}

#[test]
fn version_contract_is_plain_and_stable() {
    for argument in ["--version", "-V"] {
        assert!(matches!(arg_change(Some(argument)), ArgChange::Replace("version")));
    }
    assert!(matches!(arg_change(Some("version")), ArgChange::Keep));
    assert!(matches!(arg_change(None), ArgChange::Insert("serve")));
    assert!(matches!(arg_change(Some("--listen")), ArgChange::Insert("serve")));
    assert!(matches!(arg_change(Some("--help")), ArgChange::Keep));
    assert!(matches!(arg_change(Some("help")), ArgChange::Replace("--help")));
}

#[test]
fn names_are_shown_and_hidden() {
    assert_eq!(display_id("gpt-5.6_sol"), "GPT 5.6 Sol");
    assert_eq!(account_shown("12345678").as_deref(), Some("…12345678"));
    assert_eq!(account_shown("1234567890").as_deref(), Some("1234…7890"));
    assert_eq!(account_shown("ab\u{20ac}\u{20ac}\u{20ac}\u{20ac}"), None);
    assert!(validate_alias("codex-sol").is_ok());
    assert!(validate_alias("").is_err());
    assert!(validate_alias("a\nb").is_err());
    assert_eq!(canonical_alias("gpt-5.6-sol"), "codex-sol");
}

#[test]
fn edits_root_without_losing_tables() {
    let s = auth_config("model = \"x\"\n[project]\nkeep = true\n");
    assert!(s.contains("model = \"x\""));
    assert!(s.contains("cli_auth_credentials_store = \"file\""));
    assert!(s.contains("[project]\nkeep = true"));
    assert_eq!(auth_config(&s), s);
    let replaced = auth_config("cli_auth_credentials_store = \"keyring\"\n");
    assert!(!replaced.contains("keyring"));
}

#[test]
fn codex_is_found_and_run() {
    assert_eq!(binary_places("codex", Some("/a:/b")), vec!["/a/codex", "/b/codex"]);
    assert_eq!(binary_places("./codex", Some("/a")), vec!["./codex"]);
    assert!(binary_places("codex", None).is_empty());
    assert_eq!(auth_args(AuthAction::Device), vec!["login", "--device-auth"]);
    assert_eq!(auth_args(AuthAction::Logout), vec!["logout"]);
    assert_eq!(binary_missing("codex"), "official `codex` CLI not found in PATH");
    assert_eq!(run_failed(&auth_args(AuthAction::Status)), "codex login status failed");
}

fn findings(records: &str) -> Findings {
    Findings {
        os: "macos".into(),
        arch: "aarch64".into(),
        model_map: "mapped-kimi=kimi-for-coding".into(),
        codex_binary: "missing-codex".into(),
        codex_path: None,
        grok_binary: "missing-grok".into(),
        grok_path: None,
        codex_config_path: "config.toml".into(),
        codex_config: Err("missing".into()),
        chatgpt: Err("no credentials".into()),
        kimi: Some(Ok(KimiFinding { path: "kimi-auth.json".into(), file_mode: 0o100600 })),
        grok_config_path: "grok.toml".into(),
        records: Ok(load(records).records()),
    }
}

const KIMI_ONLY: &str = "[model.kimi]\nmodel = \"mapped-kimi\"\nname = \"Mapped Kimi\"\nbase_url = \"http://127.0.0.1:18765/v1\"\napi_backend = \"responses\"\napi_key = \"unused\"\ncontext_window = 256000\n";

#[test]
fn missing_credentials_are_reported_without_secrets() {
    let mut f = findings("");
    f.kimi = None;
    let checks = examine(f, None);
    assert!(checks.iter().any(|check| check.name == "ChatGPT auth" && !check.ok));
    assert_eq!(ensure_ok(&checks).unwrap_err(), "one or more doctor checks failed");
    assert!(!checks.iter().any(|check| check.detail.contains("access_token")));
}

#[test]
fn kimi_credentials_make_missing_codex_setup_optional() {
    let checks = examine(findings(KIMI_ONLY), None);
    assert!(checks.iter().any(|check| check.name == "Kimi auth" && check.ok));
    for name in ["Codex CLI", "Codex credential configuration", "ChatGPT auth"] {
        assert!(checks.iter().any(|check| check.name == name && check.ok && check.warning));
    }
    let mixed = format!(
        "{KIMI_ONLY}\n[model.codex]\nmodel = \"gpt-5.6-sol\"\nname = \"Codex Sol\"\nbase_url = \"http://127.0.0.1:18765/v1\"\napi_backend = \"responses\"\napi_key = \"unused\"\ncontext_window = 372000\n"
    );
    let mixed_checks = examine(findings(&mixed), None);
    assert!(mixed_checks.iter().any(|check| check.name == "ChatGPT auth" && !check.ok));
}

#[test]
fn open_credentials_are_never_excused() {
    let mut f = findings(KIMI_ONLY);
    f.kimi = Some(Ok(KimiFinding { path: "kimi-auth.json".into(), file_mode: 0o100644 }));
    let checks = examine(f, None);
    let kimi = checks.iter().find(|check| check.name == "Kimi auth").unwrap();
    assert!(!kimi.ok);
    assert_eq!(kimi.detail, "credential file is group/world accessible");
}

#[test]
fn checks_are_told() {
    assert!(platform_check("macos", "aarch64").ok);
    assert!(require_macos("macos", "aarch64").is_ok());
    assert!(require_macos("windows", "x86_64").is_err());
    let pass = Check::pass("a", "fine".into());
    let fail = Check::fail("b", "bad".into());
    assert!(check_line(&pass).contains("a"));
    assert_eq!(summary(&vec![pass, fail]), "1 passed, 1 failed");
    let silent =
        readiness_check(LISTEN, &Readiness::Silent { error: "refused".into(), free: true });
    assert!(silent.unwrap().warning);
    let foreign = readiness_check(LISTEN, &Readiness::Answered(json::parse("{}")));
    assert!(!foreign.unwrap().ok);
    let asked =
        readiness_check(LISTEN, &Readiness::Asked { status: "200 OK".into(), success: true });
    assert!(asked.unwrap().ok);
}

#[test]
fn broken_configurations_name_their_file() {
    let error = GrokConfig::load("/x/config.toml", "[broken\n".into()).err().unwrap();
    assert_eq!(error.message, "parse /x/config.toml as TOML");
    assert!(error.cause.contains("TOML parse error"));
}

#[test]
fn only_changes_are_written() {
    let mut config = load("");
    assert!(!config.is_changed());
    config.add(&spec("codex-sol", "gpt-5.6-sol", false).unwrap()).unwrap();
    assert!(config.is_changed());
}
