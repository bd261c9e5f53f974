//! What holds of every edit of the configuration.

use vstd::prelude::*;

use crate::catalog;
use crate::catalog::ModelV;
use crate::grokconfig;
use crate::grokconfig::config;
use crate::grokconfig::SpecV;
use crate::text;
use crate::toml;
use crate::toml::TableV;

verus! {

/// Nothing but the entry `alias` differs between two documents.
pub open spec fn only_entry_v(before: TableV, after: TableV, alias: Seq<char>) -> bool {
    &&& forall|k: Seq<char>| k != "model"@ ==> #[trigger] toml::get_v(after, k) == toml::get_v(before, k)
    &&& forall|other: Seq<char>|
        other != alias ==> #[trigger] config::entry_of(after, other) == config::entry_of(
            before,
            other,
        )
}

pub proof fn sections_keep_entries(c: TableV, alias: Seq<char>)
    requires
        config::sectioned_v(c) is Ok,
    ensures
        ({
            let d = config::sectioned_v(c)->Ok_0;
            &&& toml::is_standard_v(toml::get_v(d, "model"@))
            &&& config::entry_of(d, alias) == config::entry_of(c, alias)
            &&& forall|k: Seq<char>|
                k != "model"@ ==> #[trigger] toml::get_v(d, k) == toml::get_v(c, k)
        }),
{
}

/// Writing a model leaves everything else in the configuration as it is: other
/// models, other sections.
pub proof fn unrelated_content_is_kept(c: TableV, spec: SpecV)
    ensures
        only_entry_v(c, config::set_v(c, spec).0, spec.alias),
        only_entry_v(c, config::add_v(c, spec).0, spec.alias),
        only_entry_v(c, config::update_v(c, spec).0, spec.alias),
        only_entry_v(c, config::sync_one_v(c, spec).0, spec.alias),
        only_entry_v(c, config::remove_v(c, spec.alias).0, spec.alias),
{
    if config::sectioned_v(c) is Ok {
        let c1 = config::sectioned_v(c)->Ok_0;
        let d = config::set_v(c, spec).0;
        assert forall|other: Seq<char>| other != spec.alias implies #[trigger] config::entry_of(
            d,
            other,
        ) == config::entry_of(c, other) by {
            sections_keep_entries(c, other);
        }
        sections_keep_entries(c, spec.alias);
    }
}

/// A model that is not of this proxy is never changed by an update, a removal
/// or the models being brought in step; nor does adding change a model that is
/// there.
pub proof fn foreign_models_are_safe(c: TableV, spec: SpecV)
    requires
        config::entry_of(c, spec.alias) is Some,
    ensures
        config::add_v(c, spec).0 == c,
        config::add_v(c, spec).1 is Some,
        !config::proxied_v(c, spec.alias) ==> {
            &&& config::update_v(c, spec).0 == c
            &&& config::update_v(c, spec).1 is Some
            &&& config::remove_v(c, spec.alias).0 == c
            &&& config::remove_v(c, spec.alias).1 is Some
        },
        !config::managed_v(c, spec.alias) ==> {
            &&& config::sync_one_v(c, spec).0 == c
            &&& config::sync_one_v(c, spec).1 is Some
        },
{
}

/// Pruning removes models that this proxy has written, and no others.
pub proof fn pruning_spares_others(
    c: TableV,
    specs: Seq<SpecV>,
    stale: Seq<Seq<char>>,
    alias: Seq<char>,
)
    requires
        config::stales_v(c, specs, stale),
        !config::managed_v(c, alias) || grokconfig::taken_v(specs, alias),
    ensures
        config::entry_of(config::drop_all_v(c, stale), alias) == config::entry_of(c, alias),
{
    assert forall|i: int| 0 <= i < stale.len() implies #[trigger] stale[i] != alias by {
        assert(config::stale_v(c, specs, stale[i]));
    }
    drops_spare(c, stale, alias);
}

proof fn drops_spare(c: TableV, stale: Seq<Seq<char>>, alias: Seq<char>)
    requires
        forall|i: int| 0 <= i < stale.len() ==> #[trigger] stale[i] != alias,
    ensures
        config::entry_of(config::drop_all_v(c, stale), alias) == config::entry_of(c, alias),
    decreases stale.len(),
{
    if stale.len() > 0 {
        let head = stale.drop_last();
        assert forall|i: int| 0 <= i < head.len() implies #[trigger] head[i] != alias by {
            assert(stale[i] != alias);
        }
        drops_spare(c, head, alias);
        assert(stale[stale.len() - 1] != alias);
    }
}

/// What this proxy marks, it knows again.
pub proof fn marks_are_known(prefix: Option<Seq<char>>)
    ensures
        config::marked_v(prefix) is Some,
        text::contains_v(config::marked_v(prefix)->0, "Managed by grok-build-proxy"@),
        config::marked_v(config::marked_v(prefix)) == config::marked_v(prefix),
{
    reveal_strlit("Managed by grok-build-proxy");
    reveal_strlit("\n# Managed by grok-build-proxy\n");
    let whole = "\n# Managed by grok-build-proxy\n"@;
    let part = "Managed by grok-build-proxy"@;
    assert(part.len() == 27 && whole.len() == 31);
    assert(whole.subrange(3, 30) =~= part);
    assert(text::at_v(whole, part, 3));
    assert(text::contains_v(whole, part));
}

/// A model that has been written is managed and of this proxy.
pub proof fn written_models_are_managed(c: TableV, spec: SpecV)
    requires
        config::set_v(c, spec).1 is None,
    ensures
        config::managed_v(config::set_v(c, spec).0, spec.alias),
        config::proxied_v(config::set_v(c, spec).0, spec.alias),
{
    sections_keep_entries(c, spec.alias);
    let c1 = config::sectioned_v(c)->Ok_0;
    marks_are_known(toml::prefix_of_v(config::entry_of(c1, spec.alias)));
}

/// A document that writing a model leaves as it is.
pub open spec fn settled_v(c: TableV, spec: SpecV) -> bool {
    &&& toml::is_standard_v(toml::get_v(c, "model"@))
    &&& config::managed_v(c, spec.alias)
    &&& config::entry_of(c, spec.alias) == Some(config::written_entry_v(c, spec))
}

proof fn writing_twice(fields: TableV, spec: SpecV)
    ensures
        config::written_v(config::written_v(fields, spec), spec) == config::written_v(fields, spec),
{
    assert(config::written_v(config::written_v(fields, spec), spec) =~= config::written_v(
        fields,
        spec,
    ));
}

proof fn writing_settles(c: TableV, spec: SpecV)
    requires
        config::set_v(c, spec).1 is None,
    ensures
        settled_v(config::set_v(c, spec).0, spec),
{
    sections_keep_entries(c, spec.alias);
    written_models_are_managed(c, spec);
    let c1 = config::sectioned_v(c)->Ok_0;
    let entry = config::entry_of(c1, spec.alias);
    let d = config::set_v(c, spec).0;
    marks_are_known(toml::prefix_of_v(entry));
    writing_twice(toml::entries_v(entry), spec);
    assert(config::entry_of(d, spec.alias) == Some(config::written_entry_v(c1, spec)));
}

proof fn settled_stays(c: TableV, spec: SpecV)
    requires
        settled_v(c, spec),
    ensures
        config::sync_one_v(c, spec) == (c, None::<Seq<char>>),
{
    let e = toml::entries_v(toml::get_v(c, "model"@));
    let item = config::written_entry_v(c, spec);
    assert(e.insert(spec.alias, item) =~= e);
    assert(toml::put_entry_v(c, "model"@, spec.alias, item) =~= c);
}

pub open spec fn distinct_v(specs: Seq<SpecV>) -> bool {
    forall|i: int, j: int|
        0 <= i < j < specs.len() ==> (#[trigger] specs[i]).alias != (#[trigger] specs[j]).alias
}

proof fn all_settle(c: TableV, specs: Seq<SpecV>)
    requires
        distinct_v(specs),
        config::sync_all_v(c, specs).1 is None,
    ensures
        forall|i: int|
            0 <= i < specs.len() ==> settled_v(
                config::sync_all_v(c, specs).0,
                #[trigger] specs[i],
            ),
    decreases specs.len(),
{
    if specs.len() > 0 {
        let head = specs.drop_last();
        let last = specs.last();
        let before = config::sync_all_v(c, head).0;
        let after = config::sync_all_v(c, specs).0;
        assert(config::sync_all_v(c, head).1 is None);
        assert(distinct_v(head)) by {
            assert forall|i: int, j: int| 0 <= i < j < head.len() implies (#[trigger] head[i]).alias
                != (#[trigger] head[j]).alias by {
                assert(specs[i].alias != specs[j].alias);
            }
        }
        all_settle(c, head);
        assert(config::set_v(before, last) == config::sync_one_v(before, last));
        writing_settles(before, last);
        unrelated_content_is_kept(before, last);
        assert forall|i: int| 0 <= i < specs.len() implies settled_v(after, #[trigger] specs[i]) by {
            if i < head.len() {
                assert(head[i] == specs[i]);
                assert(specs[i].alias != specs[specs.len() - 1].alias);
                assert(config::entry_of(after, specs[i].alias) == config::entry_of(
                    before,
                    specs[i].alias,
                ));
            }
        }
    }
}

proof fn settled_all_stay(c: TableV, specs: Seq<SpecV>)
    requires
        forall|i: int| 0 <= i < specs.len() ==> settled_v(c, #[trigger] specs[i]),
    ensures
        config::sync_all_v(c, specs) == (c, None::<Seq<char>>),
    decreases specs.len(),
{
    if specs.len() > 0 {
        let head = specs.drop_last();
        assert forall|i: int| 0 <= i < head.len() implies settled_v(c, #[trigger] head[i]) by {
            assert(settled_v(c, specs[i]));
        }
        settled_all_stay(c, head);
        assert(settled_v(c, specs[specs.len() - 1]));
        settled_stays(c, specs.last());
    }
}

/// Models that are in step stay as they are when they are brought in step once
/// more, and that succeeds.
pub proof fn syncing_twice_changes_nothing(c: TableV, specs: Seq<SpecV>)
    requires
        distinct_v(specs),
        config::sync_all_v(c, specs).1 is None,
    ensures
        ({
            let d = config::sync_all_v(c, specs).0;
            config::sync_all_v(d, specs) == (d, None::<Seq<char>>)
        }),
{
    all_settle(c, specs);
    settled_all_stay(config::sync_all_v(c, specs).0, specs);
}

proof fn push_distinct(specs: Seq<SpecV>, one: SpecV)
    requires
        distinct_v(specs),
        !grokconfig::taken_v(specs, one.alias),
    ensures
        distinct_v(specs.push(one)),
{
    assert forall|i: int, j: int| 0 <= i < j < specs.push(one).len() implies (
    #[trigger] specs.push(one)[i]).alias != (#[trigger] specs.push(one)[j]).alias by {
        if j == specs.len() {
            assert(specs.push(one)[i] == specs[i]);
        }
    }
}

/// No two models of a catalog are written under one name.
pub proof fn specs_have_their_own_names(
    models: Seq<ModelV>,
    listen: Seq<char>,
    api_key: Seq<char>,
    include_fast: bool,
)
    ensures
        grokconfig::sync_specs_v(models, listen, api_key, include_fast) matches Ok(s) ==> distinct_v(
            s.specs,
        ),
    decreases models.len(),
{
    if models.len() > 0 {
        specs_have_their_own_names(models.drop_last(), listen, api_key, include_fast);
        if let Ok(s) = grokconfig::sync_specs_v(
            models.drop_last(),
            listen,
            api_key,
            include_fast,
        ) {
            let id = models.last().id;
            let alias = grokconfig::canonical_alias_v(id);
            if let Ok(t) = grokconfig::with_spec_v(s, id, alias, false, listen, api_key) {
                push_distinct(s.specs, t.specs.last());
                assert(t.specs =~= s.specs.push(t.specs.last()));
                if let Ok(u) = grokconfig::with_spec_v(
                    t,
                    id,
                    alias + "-fast"@,
                    true,
                    listen,
                    api_key,
                ) {
                    push_distinct(t.specs, u.specs.last());
                    assert(u.specs =~= t.specs.push(u.specs.last()));
                }
            }
        }
    }
}

proof fn trimmed_twice(s: Seq<char>)
    ensures
        text::trim_v(text::trim_v(s)) == text::trim_v(s),
{
    ends_trimmed(text::trim_start_v(s));
    start_trimmed(s);
    let a = text::trim_start_v(s);
    let t = text::trim_end_v(a);
    if t.len() > 0 {
        prefix_kept(a);
    }
}

proof fn start_trimmed(s: Seq<char>)
    ensures
        text::trim_start_v(s).len() > 0 ==> !text::is_space(text::trim_start_v(s)[0]),
    decreases s.len(),
{
    if s.len() > 0 && text::is_space(s[0]) {
        start_trimmed(s.skip(1));
    }
}

proof fn ends_trimmed(s: Seq<char>)
    ensures
        text::trim_end_v(s).len() > 0 ==> !text::is_space(text::trim_end_v(s).last()),
    decreases s.len(),
{
    if s.len() > 0 && text::is_space(s.last()) {
        ends_trimmed(s.drop_last());
    }
}

proof fn prefix_kept(s: Seq<char>)
    ensures
        text::trim_end_v(s).len() <= s.len(),
        text::trim_end_v(s).len() > 0 ==> text::trim_end_v(s)[0] == s[0],
    decreases s.len(),
{
    if s.len() > 0 && text::is_space(s.last()) {
        prefix_kept(s.drop_last());
    }
}

/// The name of a model that is written reads back as the model and the tier
/// that were asked for.
pub proof fn written_names_read_back(
    alias: Seq<char>,
    target: Seq<char>,
    fast_flag: bool,
    listen: Seq<char>,
    api_key: Seq<char>,
    custom_name: Option<Seq<char>>,
)
    ensures
        grokconfig::model_spec_v(alias, target, fast_flag, listen, api_key, custom_name) matches Ok(
            s,
        ) ==> catalog::norm_v(s.effective_model) == (s.base_model, s.fast),
{
    let (base, suffix) = catalog::norm_v(target);
    let fast = fast_flag || suffix;
    if grokconfig::alias_error_v(alias) is None && grokconfig::target_error_v(base, fast) is None {
        if fast {
            reveal_strlit("gpt-5.6-sol");
            reveal_strlit("gpt-5.6-terra");
            reveal_strlit("gpt-5.6-luna");
            reveal_strlit("gpt-5.5");
            assert("gpt-5.6-sol"@[0] == 'g');
            assert("gpt-5.6-terra"@[0] == 'g');
            assert("gpt-5.6-luna"@[0] == 'g');
            assert("gpt-5.5"@[0] == 'g');
            assert(base[0] == 'g');
            catalog::fast_names_read_back(base);
        } else {
            trimmed_twice(target);
        }
    }
}

} // verus!
