//! What stands in the configuration once a model has been written, and what is
//! read of it.

use vstd::prelude::*;

use crate::catalog;
use crate::catalog::ModelV;
use crate::grokconfig;
use crate::grokconfig::config;
use crate::grokconfig::laws;
use crate::grokconfig::SpecV;
use crate::numbers;
use crate::text;
use crate::toml;
use crate::toml::{TableV, TomlV};
use crate::words;

verus! {

/// The field of a model.
pub open spec fn field_v(c: TableV, alias: Seq<char>, k: Seq<char>) -> Option<TomlV> {
    toml::field_v(c, "model"@, alias, k)
}

/// The fields that are written for a model.
pub open spec fn is_own_v(k: Seq<char>) -> bool {
    ||| k == "model"@
    ||| k == "name"@
    ||| k == "description"@
    ||| k == "base_url"@
    ||| k == "api_backend"@
    ||| k == "api_key"@
    ||| k == "context_window"@
    ||| k == "supports_reasoning_effort"@
    ||| k == "reasoning_efforts"@
}

/// What has been written of a model is there, field by field, and any other field
/// that it had is as it was.
pub proof fn written_fields_are_there(c: TableV, spec: SpecV, k: Seq<char>)
    requires
        config::set_v(c, spec).1 is None,
    ensures
        ({
            let d = config::set_v(c, spec).0;
            &&& field_v(d, spec.alias, "model"@) == Some(TomlV::Text(spec.effective_model))
            &&& field_v(d, spec.alias, "name"@) == Some(TomlV::Text(spec.name))
            &&& field_v(d, spec.alias, "description"@) == Some(TomlV::Text(spec.description))
            &&& field_v(d, spec.alias, "base_url"@) == Some(TomlV::Text(spec.base_url))
            &&& field_v(d, spec.alias, "api_backend"@) == Some(TomlV::Text("responses"@))
            &&& field_v(d, spec.alias, "api_key"@) == Some(TomlV::Text(spec.api_key))
            &&& field_v(d, spec.alias, "context_window"@) == Some(
                TomlV::Int(numbers::signed_v(spec.context_window)),
            )
            &&& spec.reasoning_efforts.len() > 0 ==> field_v(
                d,
                spec.alias,
                "supports_reasoning_effort"@,
            ) == Some(TomlV::Bool(true)) && field_v(d, spec.alias, "reasoning_efforts"@) == Some(
                TomlV::Texts(spec.reasoning_efforts),
            )
            &&& spec.reasoning_efforts.len() == 0 ==> field_v(
                d,
                spec.alias,
                "supports_reasoning_effort"@,
            ) is None && field_v(d, spec.alias, "reasoning_efforts"@) is None
            &&& !is_own_v(k) ==> field_v(d, spec.alias, k) == field_v(c, spec.alias, k)
        }),
{
    words::settings();
    laws::sections_keep_entries(c, spec.alias);
}

/// Windows of models are written as they are.
pub proof fn windows_are_kept(n: u64)
    requires
        n <= i64::MAX,
    ensures
        numbers::signed_v(n) == n,
{
}

/// A model that has been written is read back as it was asked for, and is valid.
pub proof fn written_models_read_back(c: TableV, spec: SpecV)
    requires
        config::set_v(c, spec).1 is None,
        text::trim_v(spec.effective_model).len() > 0,
        text::trim_v(spec.name).len() > 0,
        text::trim_v(spec.base_url).len() > 0,
        spec.api_key.len() > 0,
    ensures
        ({
            let d = config::set_v(c, spec).0;
            let r = config::record_v(d, spec.alias);
            &&& config::find_v(d, spec.alias) == Ok::<grokconfig::RecordV, Seq<char>>(r)
            &&& r.alias == spec.alias
            &&& r.model == spec.effective_model
            &&& r.name == spec.name
            &&& r.base_url == spec.base_url
            &&& r.managed
            &&& r.valid
            &&& r.errors.len() == 0
            &&& r.api_key == if spec.api_key == "unused"@ {
                "unused"@
            } else {
                "present"@
            }
            &&& catalog::norm_v(spec.effective_model).1 ==> r.service_tier == "priority"@
            &&& !catalog::norm_v(spec.effective_model).1 ==> r.service_tier == "standard"@
        }),
{
    words::settings();
    written_fields_are_there(c, spec, "model"@);
    laws::written_models_are_managed(c, spec);
    laws::sections_keep_entries(c, spec.alias);
    reveal_strlit("responses");
    let d = config::set_v(c, spec).0;
    assert(text::trim_v("responses"@).len() > 0) by {
        assert("responses"@[0] == 'r' && "responses"@[8] == 's');
        assert("responses"@.last() == 's');
    }
    let none = Seq::<Seq<char>>::empty();
    assert(config::errors_v(d, spec.alias) =~= none);
}

/// A record is valid exactly where it has all that it needs.
pub proof fn records_are_valid_when_whole(c: TableV, alias: Seq<char>)
    ensures
        ({
            let full = |k: Seq<char>|
                config::text_in(c, alias, k) is Some && text::trim_v(
                    config::text_in(c, alias, k)->0,
                ).len() > 0;
            config::record_v(c, alias).valid <==> full("model"@) && full("name"@) && full(
                "base_url"@,
            ) && config::text_in(c, alias, "api_backend"@) == Some("responses"@) && toml::int_of_v(field_v(c, alias, "context_window"@)) is Some && (
            config::text_in(c, alias, "api_key"@) matches Some(key) && key.len() > 0)
        }),
{
    reveal_strlit("responses");
    assert(text::trim_v("responses"@).len() > 0) by {
        assert("responses"@[0] == 'r' && "responses"@[8] == 's');
        assert("responses"@.last() == 's');
    }
}

/// What a model is written as: under the name that was asked for, served by the
/// proxy that listens there, with the window and the efforts of the model, and
/// with a key that is marked as unused where there is none.
pub proof fn specs_say_what_was_asked(
    alias: Seq<char>,
    target: Seq<char>,
    fast_flag: bool,
    listen: Seq<char>,
    api_key: Seq<char>,
    name: Option<Seq<char>>,
)
    ensures
        grokconfig::model_spec_v(alias, target, fast_flag, listen, api_key, name) matches Ok(s) ==> {
            let (base, suffix) = catalog::norm_v(target);
            let m = catalog::model_v(catalog::norm_v(base).0);
            &&& s.alias == alias
            &&& s.base_model == base
            &&& s.fast == (fast_flag || suffix)
            &&& s.fast ==> s.effective_model == base + "-fast"@ && catalog::fast_v(base)
            &&& !s.fast ==> s.effective_model == base
            &&& s.base_url == "http://"@ + text::trim_end_of_v(listen, '/') + "/v1"@
            &&& s.api_key == if api_key.len() > 0 {
                api_key
            } else {
                "unused"@
            }
            &&& s.context_window == m.context_window
            &&& name matches Some(n) ==> s.name == n
            &&& m.reasoning is None ==> s.reasoning_efforts.len() == 0
            &&& m.reasoning matches Some(c) ==> s.reasoning_efforts.len() == c.efforts.len()
                && forall|i: int|
                0 <= i < c.efforts.len() ==> #[trigger] s.reasoning_efforts[i] == c.efforts[i].value
        },
{
}

/// A model can be written under any name that says something, unless it is to be
/// fast and cannot be.
pub proof fn specs_are_refused_for_a_reason(
    alias: Seq<char>,
    target: Seq<char>,
    fast_flag: bool,
    listen: Seq<char>,
    api_key: Seq<char>,
    name: Option<Seq<char>>,
)
    ensures
        ({
            let (base, suffix) = catalog::norm_v(target);
            grokconfig::model_spec_v(alias, target, fast_flag, listen, api_key, name) is Err <==> {
                ||| text::trim_v(alias).len() == 0
                ||| exists|i: int| 0 <= i < alias.len() && text::is_ctl(#[trigger] alias[i])
                ||| base.len() == 0
                ||| text::ends_v(base, "-fast"@)
                ||| (fast_flag || suffix) && !catalog::fast_v(base)
            }
        }),
{
}

/// A model that is not there is added; one that is there is not. One that is
/// removed is gone; one of this proxy can be.
pub proof fn models_come_and_go(c: TableV, spec: SpecV)
    ensures
        config::add_v(c, spec).1 is None ==> config::entry_of(c, spec.alias) is None
            && toml::is_table_v(config::entry_of(config::add_v(c, spec).0, spec.alias)),
        config::remove_v(c, spec.alias).1 is None ==> config::entry_of(
            config::remove_v(c, spec.alias).0,
            spec.alias,
        ) is None,
        config::proxied_v(c, spec.alias) ==> config::remove_v(c, spec.alias).1 is None,
        config::update_v(c, spec).1 is None ==> config::update_v(c, spec).0 == config::set_v(
            c,
            spec,
        ).0,
        config::proxied_v(c, spec.alias) ==> config::update_v(c, spec) == config::set_v(c, spec),
        config::entry_of(c, spec.alias) is None ==> config::add_v(c, spec) == config::set_v(c, spec),
        config::entry_of(c, spec.alias) is None ==> config::sync_one_v(c, spec) == config::set_v(
            c,
            spec,
        ),
        config::proxied_v(c, spec.alias) && config::managed_v(c, spec.alias)
            ==> config::sync_one_v(c, spec) == config::set_v(c, spec),
        c.len() == 0 && c.dom().finite() ==> config::set_v(c, spec).1 is None,
{
    if config::sectioned_v(c) is Ok {
        laws::sections_keep_entries(c, spec.alias);
    }
    if c.len() == 0 && c.dom().finite() {
        assert(!c.dom().contains("model"@));
    }
}

/// Every model of a catalog is written, in order, each under its own name, and
/// beside it its fast variant where one is wanted and there is one.
pub proof fn catalogs_are_written(
    models: Seq<ModelV>,
    listen: Seq<char>,
    api_key: Seq<char>,
    i: int,
)
    requires
        0 <= i < models.len(),
    ensures
        grokconfig::sync_specs_v(models, listen, api_key, false) matches Ok(s) ==> {
            &&& s.specs.len() == models.len()
            &&& s.unsupported.len() == 0
            &&& s.specs[i].alias == grokconfig::canonical_alias_v(models[i].id)
            &&& s.specs[i].base_model == catalog::norm_v(models[i].id).0
        },
    decreases models.len(),
{
    let d = models.drop_last();
    if let Ok(s) = grokconfig::sync_specs_v(models, listen, api_key, false) {
        let before = grokconfig::sync_specs_v(d, listen, api_key, false)->Ok_0;
        if d.len() > 0 {
            let k = if i < d.len() {
                i
            } else {
                0
            };
            catalogs_are_written(d, listen, api_key, k);
            assert(d[k] == models[k]);
        }
        if i < d.len() {
            assert(s.specs[i] == before.specs[i]);
        }
    }
}

} // verus!
