//! The models of this proxy in the configuration of Grok.

use vstd::prelude::*;

use crate::catalog;
use crate::catalog::{normalize_id, supports_fast, Catalog, ModelV, ReasoningCapability};
use crate::json;
use crate::text;
use crate::text::same;

pub mod config;
pub mod fields;
pub mod laws;
pub mod status;

pub use crate::grokconfig::config::GrokConfig;

verus! {

/// What is written of a model.
#[derive(Debug)]
pub struct ModelSpec {
    pub alias: String,
    pub base_model: String,
    pub effective_model: String,
    pub fast: bool,
    pub name: String,
    pub description: String,
    pub base_url: String,
    pub api_key: String,
    pub context_window: u64,
    pub reasoning_efforts: Vec<String>,
}

#[verifier::ext_equal]
pub struct SpecV {
    pub alias: Seq<char>,
    pub base_model: Seq<char>,
    pub effective_model: Seq<char>,
    pub fast: bool,
    pub name: Seq<char>,
    pub description: Seq<char>,
    pub base_url: Seq<char>,
    pub api_key: Seq<char>,
    pub context_window: u64,
    pub reasoning_efforts: Seq<Seq<char>>,
}

impl ModelSpec {
    pub open spec fn view(&self) -> SpecV {
        SpecV {
            alias: self.alias@,
            base_model: self.base_model@,
            effective_model: self.effective_model@,
            fast: self.fast,
            name: self.name@,
            description: self.description@,
            base_url: self.base_url@,
            api_key: self.api_key@,
            context_window: self.context_window,
            reasoning_efforts: text::views(self.reasoning_efforts@),
        }
    }
}

/// What is read of a model. Of its key only the kind is shown.
#[derive(Debug)]
pub struct ModelRecord {
    pub alias: String,
    pub model: String,
    pub name: String,
    pub base_url: String,
    pub service_tier: String,
    pub managed: bool,
    pub valid: bool,
    pub api_key: String,
    pub errors: Vec<String>,
}

#[verifier::ext_equal]
pub struct RecordV {
    pub alias: Seq<char>,
    pub model: Seq<char>,
    pub name: Seq<char>,
    pub base_url: Seq<char>,
    pub service_tier: Seq<char>,
    pub managed: bool,
    pub valid: bool,
    pub api_key: Seq<char>,
    pub errors: Seq<Seq<char>>,
}

impl ModelRecord {
    pub open spec fn view(&self) -> RecordV {
        RecordV {
            alias: self.alias@,
            model: self.model@,
            name: self.name@,
            base_url: self.base_url@,
            service_tier: self.service_tier@,
            managed: self.managed,
            valid: self.valid,
            api_key: self.api_key@,
            errors: text::views(self.errors@),
        }
    }
}

/// A model on offer.
#[derive(Debug, PartialEq, Eq)]
pub struct AvailableModel {
    pub model: String,
    pub name: String,
    pub fast: bool,
}

#[verifier::ext_equal]
pub struct AvailableV {
    pub model: Seq<char>,
    pub name: Seq<char>,
    pub fast: bool,
}

impl AvailableModel {
    pub open spec fn view(&self) -> AvailableV {
        AvailableV { model: self.model@, name: self.name@, fast: self.fast }
    }
}

/// How a configured model stands with the proxy that runs.
#[derive(Debug)]
pub struct ModelStatus {
    pub alias: String,
    pub model: String,
    pub service_tier: String,
    pub configured: bool,
    pub proxy: bool,
    pub ready: bool,
    pub advertised: bool,
    pub metadata: bool,
    pub detail: String,
}

/// What has been changed, a line each.
#[derive(Debug)]
pub struct ChangeSet {
    pub changes: Vec<String>,
}

impl Default for ChangeSet {
    fn default() -> (r: ChangeSet)
        ensures
            r.changes@.len() == 0,
    {
        ChangeSet { changes: Vec::new() }
    }
}

impl ChangeSet {
    pub open spec fn view(&self) -> Seq<Seq<char>> {
        text::views(self.changes@)
    }

    pub fn is_empty(&self) -> (r: bool)
        ensures
            r == (self@.len() == 0),
    {
        assert(text::views(self.changes@).len() == self.changes@.len());
        self.changes.len() == 0
    }
}

pub open spec fn tier_v(fast: bool) -> Seq<char> {
    if fast {
        "priority"@
    } else {
        "standard"@
    }
}

/// The service tier of a fast model, or of another.
pub fn tier(fast: bool) -> (r: &'static str)
    ensures
        r@ == tier_v(fast),
{
    if fast {
        "priority"
    } else {
        "standard"
    }
}

pub open spec fn has_control_v(s: Seq<char>) -> bool {
    exists|i: int| 0 <= i < s.len() && text::is_ctl(#[trigger] s[i])
}

pub open spec fn alias_error_v(alias: Seq<char>) -> Option<Seq<char>> {
    if text::trim_v(alias).len() == 0 {
        Some("model alias cannot be empty"@)
    } else if has_control_v(alias) {
        Some("model alias cannot contain control characters"@)
    } else {
        None
    }
}

/// Checks the name under which a model is configured.
pub fn validate_alias(alias: &str) -> (r: Result<(), String>)
    ensures
        match r {
            Ok(_) => alias_error_v(alias@) is None,
            Err(e) => alias_error_v(alias@) == Some(e@),
        },
{
    if text::trim(alias).as_str().is_empty() {
        return Err(text::owned("model alias cannot be empty"));
    }
    let v = text::chars_of(alias);
    let mut i: usize = 0;
    while i < v.len()
        invariant
            i <= v@.len(),
            v@ == alias@,
            text::trim_v(alias@).len() > 0,
            forall|k: int| 0 <= k < i ==> !text::is_ctl(#[trigger] v@[k]),
        decreases v@.len() - i,
    {
        if text::control(v[i]) {
            assert(text::is_ctl(alias@[i as int]));
            return Err(text::owned("model alias cannot contain control characters"));
        }
        i += 1;
    }
    Ok(())
}

pub open spec fn dashed_v(s: Seq<char>) -> Seq<char> {
    s.map_values(
        |c: char|
            if c == '.' || c == '_' || c == '/' {
                '-'
            } else {
                c
            },
    )
}

/// A name in which a dash stands for each point, underscore and slash.
pub fn dashed(s: &str) -> (r: String)
    ensures
        r@ == dashed_v(s@),
{
    let v = text::chars_of(s);
    let mut out = String::new();
    let mut i: usize = 0;
    let ghost all = dashed_v(s@);
    assert(out@ =~= all.take(0));
    while i < v.len()
        invariant
            i <= v@.len(),
            v@ == s@,
            all == dashed_v(s@),
            out@ == all.take(i as int),
        decreases v@.len() - i,
    {
        let c: char = v[i];
        assert(all.take(i + 1) =~= all.take(i as int).push(all[i as int]));
        if c == '.' || c == '_' || c == '/' {
            out.push('-');
        } else {
            out.push(c);
        }
        i += 1;
    }
    assert(all.take(i as int) =~= all);
    out
}

/// The name under which a model of the catalog is configured.
pub open spec fn canonical_alias_v(model: Seq<char>) -> Seq<char> {
    if model == "gpt-5.6-sol"@ {
        "codex-sol"@
    } else if model == "gpt-5.6-terra"@ {
        "codex-terra"@
    } else if model == "gpt-5.6-luna"@ {
        "codex-luna"@
    } else {
        "codex-"@ + dashed_v(model)
    }
}

pub fn canonical_alias(model: &str) -> (r: String)
    ensures
        r@ == canonical_alias_v(model@),
{
    if same(model, "gpt-5.6-sol") {
        text::owned("codex-sol")
    } else if same(model, "gpt-5.6-terra") {
        text::owned("codex-terra")
    } else if same(model, "gpt-5.6-luna") {
        text::owned("codex-luna")
    } else {
        text::cat("codex-", &dashed(model))
    }
}

/// The base URL of a proxy that listens on `listen`.
pub open spec fn base_url_v(listen: Seq<char>) -> Seq<char> {
    "http://"@ + text::trim_end_of_v(listen, '/') + "/v1"@
}

pub fn base_url(listen: &str) -> (r: String)
    ensures
        r@ == base_url_v(listen@),
{
    text::cat3("http://", &text::trim_end_of(listen, '/'), "/v1")
}

pub open spec fn efforts_of_v(capability: Option<catalog::CapabilityV>) -> Seq<Seq<char>> {
    match capability {
        Some(c) => c.efforts.map_values(|e: catalog::EffortV| e.value),
        None => Seq::empty(),
    }
}

fn efforts_of(capability: &Option<ReasoningCapability>) -> (r: Vec<String>)
    ensures
        text::views(r@) == efforts_of_v(catalog::reasoning_view(*capability)),
{
    let mut out: Vec<String> = Vec::new();
    let ghost all = efforts_of_v(catalog::reasoning_view(*capability));
    assert(text::views(out@) =~= all.take(0));
    if let Some(c) = capability {
        let mut i: usize = 0;
        while i < c.efforts.len()
            invariant
                i <= c.efforts@.len(),
                all == efforts_of_v(Some(c@)),
                text::views(out@) == all.take(i as int),
            decreases c.efforts@.len() - i,
        {
            let value = text::owned(&c.efforts[i].value);
            proof {
                assert(catalog::efforts_v(c.efforts@)[i as int] == c.efforts@[i as int]@);
                assert(all.take(i + 1) =~= all.take(i as int).push(all[i as int]));
                assert(text::views(out@.push(value)) =~= text::views(out@).push(value@));
            }
            out.push(value);
            i += 1;
        }
    }
    assert(all.take(all.len() as int) =~= all);
    assert(text::views(out@) =~= all);
    out
}

pub open spec fn spec_name_v(model: ModelV, fast: bool) -> Seq<char> {
    "Codex "@ + model.display_name + (if fast {
        " (Fast)"@
    } else {
        ""@
    })
}

pub open spec fn spec_description_v(model: ModelV, fast: bool) -> Seq<char> {
    text::trim_end_of_v(model.description, '.') + " via ChatGPT Codex"@ + (if fast {
        " priority tier"@
    } else {
        ""@
    })
}

/// Why nothing can be written for a model; `base` is its name without the
/// suffix for the fast tier.
pub open spec fn target_error_v(base: Seq<char>, fast: bool) -> Option<Seq<char>> {
    if base.len() == 0 {
        Some("model target cannot be empty"@)
    } else if text::ends_v(base, "-fast"@) {
        Some("model target cannot contain repeated `-fast` suffixes"@)
    } else if fast && !catalog::fast_v(base) {
        Some("model `"@ + base + "` does not support the fast priority tier"@)
    } else {
        None
    }
}

pub open spec fn model_spec_v(
    alias: Seq<char>,
    target: Seq<char>,
    fast_flag: bool,
    listen: Seq<char>,
    api_key: Seq<char>,
    custom_name: Option<Seq<char>>,
) -> Result<SpecV, Seq<char>> {
    let (base, suffix) = catalog::norm_v(target);
    let fast = fast_flag || suffix;
    let model = catalog::model_v(catalog::norm_v(base).0);
    match alias_error_v(alias) {
        Some(e) => Err(e),
        None => match target_error_v(base, fast) {
            Some(e) => Err(e),
            None => Ok(
                SpecV {
                    alias,
                    base_model: base,
                    effective_model: if fast {
                        base + "-fast"@
                    } else {
                        base
                    },
                    fast,
                    name: match custom_name {
                        Some(n) => n,
                        None => spec_name_v(model, fast),
                    },
                    description: spec_description_v(model, fast),
                    base_url: base_url_v(listen),
                    api_key: if api_key.len() == 0 {
                        "unused"@
                    } else {
                        api_key
                    },
                    context_window: model.context_window,
                    reasoning_efforts: efforts_of_v(model.reasoning),
                },
            ),
        },
    }
}

pub open spec fn spec_result(r: Result<ModelSpec, String>) -> Result<SpecV, Seq<char>> {
    match r {
        Ok(s) => Ok(s@),
        Err(e) => Err(e@),
    }
}

fn check_target(base: &str, fast: bool) -> (r: Result<(), String>)
    ensures
        match r {
            Ok(_) => target_error_v(base@, fast) is None,
            Err(e) => target_error_v(base@, fast) == Some(e@),
        },
{
    if base.is_empty() {
        Err(text::owned("model target cannot be empty"))
    } else if text::ends_with(base, "-fast") {
        Err(text::owned("model target cannot contain repeated `-fast` suffixes"))
    } else if fast && !supports_fast(base) {
        Err(text::cat3("model `", base, "` does not support the fast priority tier"))
    } else {
        Ok(())
    }
}

/// What is written for the model `target` under the name `alias`.
pub fn model_spec(
    catalog: &Catalog,
    alias: &str,
    target: &str,
    fast_flag: bool,
    listen: &str,
    api_key: &str,
    custom_name: Option<&str>,
) -> (r: Result<ModelSpec, String>)
    ensures
        spec_result(r) == model_spec_v(
            alias@,
            target@,
            fast_flag,
            listen@,
            api_key@,
            json::opt_str(custom_name),
        ),
{
    if let Err(e) = validate_alias(alias) {
        return Err(e);
    }
    let (base_model, suffix) = normalize_id(target);
    let fast = fast_flag || suffix;
    if let Err(e) = check_target(&base_model, fast) {
        return Err(e);
    }
    let (model, _) = catalog.lookup(&base_model);
    let name = match custom_name {
        Some(n) => text::owned(n),
        None => text::cat3(
            "Codex ",
            &model.display_name,
            if fast {
                " (Fast)"
            } else {
                ""
            },
        ),
    };
    let description = text::cat3(
        &text::trim_end_of(&model.description, '.'),
        " via ChatGPT Codex",
        if fast {
            " priority tier"
        } else {
            ""
        },
    );
    let effective_model = if fast {
        text::cat(&base_model, "-fast")
    } else {
        text::owned(&base_model)
    };
    let key = if api_key.is_empty() {
        text::owned("unused")
    } else {
        text::owned(api_key)
    };
    let reasoning_efforts = efforts_of(&model.reasoning);
    Ok(
        ModelSpec {
            alias: text::owned(alias),
            base_model,
            effective_model,
            fast,
            name,
            description,
            base_url: base_url(listen),
            api_key: key,
            context_window: model.context_window,
            reasoning_efforts,
        },
    )
}

pub open spec fn available_v(models: Seq<ModelV>) -> Seq<AvailableV> {
    models.map_values(
        |m: ModelV|
            AvailableV { model: m.id, name: m.display_name, fast: catalog::fast_v(m.id) },
    )
}

pub open spec fn availables(s: Seq<AvailableModel>) -> Seq<AvailableV> {
    s.map_values(|m: AvailableModel| m@)
}

/// The models on offer, and which of them are offered fast.
pub fn available_models(catalog: &Catalog) -> (r: Vec<AvailableModel>)
    ensures
        availables(r@) == available_v(catalog@),
{
    let models = catalog.models();
    let ghost all = available_v(catalog@);
    let mut out: Vec<AvailableModel> = Vec::new();
    let mut i: usize = 0;
    assert(availables(out@) =~= all.take(0));
    while i < models.len()
        invariant
            i <= models@.len(),
            catalog::models_v(models@) == catalog@,
            all == available_v(catalog@),
            availables(out@) == all.take(i as int),
        decreases models@.len() - i,
    {
        assert(catalog::models_v(models@)[i as int] == models@[i as int]@);
        let one = AvailableModel {
            fast: supports_fast(&models[i].id),
            model: text::owned(&models[i].id),
            name: text::owned(&models[i].display_name),
        };
        proof {
            assert(availables(out@.push(one)) =~= availables(out@).push(one@));
            assert(all.take(i + 1) =~= all.take(i as int).push(all[i as int]));
        }
        out.push(one);
        i += 1;
    }
    assert(catalog::models_v(models@).len() == models@.len());
    assert(all.take(i as int) =~= all);
    out
}

/// What is written for the models of a catalog, and which are left without a
/// fast variant.
#[verifier::ext_equal]
pub struct SyncV {
    pub specs: Seq<SpecV>,
    pub unsupported: Seq<Seq<char>>,
}

pub open spec fn taken_v(specs: Seq<SpecV>, alias: Seq<char>) -> bool {
    exists|i: int| 0 <= i < specs.len() && (#[trigger] specs[i]).alias == alias
}

pub open spec fn duplicate_v(id: Seq<char>, alias: Seq<char>) -> Seq<char> {
    "catalog model `"@ + id + "` produces duplicate alias `"@ + alias + "`"@
}

/// The specs with the one for a model under the name `alias`, which must be
/// free.
pub open spec fn with_spec_v(
    s: SyncV,
    id: Seq<char>,
    alias: Seq<char>,
    fast: bool,
    listen: Seq<char>,
    api_key: Seq<char>,
) -> Result<SyncV, Seq<char>> {
    if taken_v(s.specs, alias) {
        Err(duplicate_v(id, alias))
    } else {
        match model_spec_v(alias, id, fast, listen, api_key, None) {
            Err(e) => Err(e),
            Ok(spec) => Ok(SyncV { specs: s.specs.push(spec), ..s }),
        }
    }
}

pub open spec fn with_model_v(
    s: SyncV,
    id: Seq<char>,
    listen: Seq<char>,
    api_key: Seq<char>,
    include_fast: bool,
) -> Result<SyncV, Seq<char>> {
    let alias = canonical_alias_v(id);
    match with_spec_v(s, id, alias, false, listen, api_key) {
        Err(e) => Err(e),
        Ok(s) => if !include_fast {
            Ok(s)
        } else if catalog::fast_v(id) {
            with_spec_v(s, id, alias + "-fast"@, true, listen, api_key)
        } else {
            Ok(SyncV { unsupported: s.unsupported.push(id), ..s })
        },
    }
}

pub open spec fn sync_specs_v(
    models: Seq<ModelV>,
    listen: Seq<char>,
    api_key: Seq<char>,
    include_fast: bool,
) -> Result<SyncV, Seq<char>>
    decreases models.len(),
{
    if models.len() == 0 {
        Ok(SyncV { specs: Seq::empty(), unsupported: Seq::empty() })
    } else {
        match sync_specs_v(models.drop_last(), listen, api_key, include_fast) {
            Err(e) => Err(e),
            Ok(s) => with_model_v(s, models.last().id, listen, api_key, include_fast),
        }
    }
}

pub open spec fn specs_v(s: Seq<ModelSpec>) -> Seq<SpecV> {
    s.map_values(|m: ModelSpec| m@)
}

pub open spec fn sync_result(r: Result<(Vec<ModelSpec>, Vec<String>), String>) -> Result<
    SyncV,
    Seq<char>,
> {
    match r {
        Ok((specs, unsupported)) => Ok(
            SyncV { specs: specs_v(specs@), unsupported: text::views(unsupported@) },
        ),
        Err(e) => Err(e@),
    }
}

proof fn errors_stay(
    models: Seq<ModelV>,
    k: int,
    listen: Seq<char>,
    api_key: Seq<char>,
    include_fast: bool,
)
    requires
        0 <= k <= models.len(),
        sync_specs_v(models.take(k), listen, api_key, include_fast) is Err,
    ensures
        sync_specs_v(models, listen, api_key, include_fast) == sync_specs_v(
            models.take(k),
            listen,
            api_key,
            include_fast,
        ),
    decreases models.len(),
{
    if k == models.len() {
        assert(models.take(k) =~= models);
    } else {
        assert(models.drop_last().take(k) =~= models.take(k));
        errors_stay(models.drop_last(), k, listen, api_key, include_fast);
    }
}

pub fn is_taken(specs: &Vec<ModelSpec>, alias: &str) -> (r: bool)
    ensures
        r == taken_v(specs_v(specs@), alias@),
{
    let ghost all = specs_v(specs@);
    let mut i: usize = 0;
    while i < specs.len()
        invariant
            i <= specs@.len(),
            all == specs_v(specs@),
            forall|k: int| 0 <= k < i ==> (#[trigger] all[k]).alias != alias@,
        decreases specs@.len() - i,
    {
        assert(all[i as int] == specs@[i as int]@);
        if same(&specs[i].alias, alias) {
            return true;
        }
        i += 1;
    }
    assert(all.len() == specs@.len());
    false
}

fn add_spec(
    specs: &mut Vec<ModelSpec>,
    Ghost(s): Ghost<SyncV>,
    catalog: &Catalog,
    id: &str,
    alias: &str,
    fast: bool,
    listen: &str,
    api_key: &str,
) -> (r: Result<(), String>)
    requires
        specs_v(old(specs)@) == s.specs,
    ensures
        match r {
            Ok(_) => with_spec_v(s, id@, alias@, fast, listen@, api_key@) == Ok::<SyncV, Seq<char>>(
                SyncV { specs: specs_v(final(specs)@), ..s },
            ),
            Err(e) => with_spec_v(s, id@, alias@, fast, listen@, api_key@) == Err::<
                SyncV,
                Seq<char>,
            >(e@),
        },
{
    if is_taken(specs, alias) {
        let mut message = text::cat3("catalog model `", id, "` produces duplicate alias `");
        message.push_str(alias);
        message.push_str("`");
        return Err(message);
    }
    match model_spec(catalog, alias, id, fast, listen, api_key, None) {
        Err(e) => Err(e),
        Ok(spec) => {
            assert(specs_v(specs@.push(spec)) =~= specs_v(specs@).push(spec@));
            specs.push(spec);
            Ok(())
        },
    }
}

/// What is written for the models of a catalog, with their fast variants where
/// they are asked for, and the models that have none.
pub fn sync_specs(catalog: &Catalog, listen: &str, api_key: &str, include_fast: bool) -> (r: Result<
    (Vec<ModelSpec>, Vec<String>),
    String,
>)
    ensures
        sync_result(r) == sync_specs_v(catalog@, listen@, api_key@, include_fast),
{
    let models = catalog.models();
    let ghost all = catalog@;
    let mut specs: Vec<ModelSpec> = Vec::new();
    let mut unsupported: Vec<String> = Vec::new();
    let mut i: usize = 0;
    proof {
        assert(specs_v(specs@) =~= Seq::<SpecV>::empty());
        assert(text::views(unsupported@) =~= Seq::<Seq<char>>::empty());
        assert(catalog::models_v(models@).len() == models@.len());
    }
    while i < models.len()
        invariant
            i <= models@.len(),
            all == catalog@,
            all.len() == models@.len(),
            catalog::models_v(models@) == all,
            sync_specs_v(all.take(i as int), listen@, api_key@, include_fast) == Ok::<
                SyncV,
                Seq<char>,
            >(SyncV { specs: specs_v(specs@), unsupported: text::views(unsupported@) }),
        decreases models@.len() - i,
    {
        let ghost s = SyncV { specs: specs_v(specs@), unsupported: text::views(unsupported@) };
        let ghost head = all.take(i + 1);
        let id: &String = &models[i].id;
        proof {
            assert(catalog::models_v(models@)[i as int] == models@[i as int]@);
            assert(head.drop_last() =~= all.take(i as int));
            assert(head.last().id == id@);
        }
        let alias = canonical_alias(id);
        if let Err(e) = add_spec(&mut specs, Ghost(s), catalog, id, &alias, false, listen, api_key) {
            proof {
                errors_stay(all, i + 1, listen@, api_key@, include_fast);
            }
            return Err(e);
        }
        if include_fast {
            let ghost s2 = SyncV { specs: specs_v(specs@), ..s };
            if supports_fast(id) {
                let fast_alias = text::cat(&alias, "-fast");
                if let Err(e) = add_spec(
                    &mut specs,
                    Ghost(s2),
                    catalog,
                    id,
                    &fast_alias,
                    true,
                    listen,
                    api_key,
                ) {
                    proof {
                        errors_stay(all, i + 1, listen@, api_key@, include_fast);
                    }
                    return Err(e);
                }
            } else {
                let own = text::owned(id);
                proof {
                    assert(text::views(unsupported@.push(own)) =~= text::views(unsupported@).push(
                        own@,
                    ));
                }
                unsupported.push(own);
            }
        }
        i += 1;
    }
    assert(all.take(i as int) =~= all);
    Ok((specs, unsupported))
}

} // verus!
