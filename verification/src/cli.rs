//! What the commands decide and print.

use vstd::prelude::*;

use crate::catalog;
use crate::catalog::{normalize_id, Catalog, ModelV, ReasoningCapability};
use crate::grokconfig;
use crate::grokconfig::config;
use crate::grokconfig::{base_url, dashed, model_spec, sync_specs, AvailableModel, ChangeSet, GrokConfig, ModelRecord, ModelSpec, ModelStatus, RecordV, SpecV};
use crate::grokconfig::status::StatusV;
use crate::json;
use crate::modelmap;
use crate::modelmap::{EntryV, ModelMap};
use crate::provider::Provider;
use crate::text;
use crate::text::same;
use crate::toml::TableV;
use crate::urls;
use crate::urls::listen_from_base_url;

verus! {

/// Where the proxy listens by default.
pub const DEFAULT_LISTEN: &'static str = "127.0.0.1:18765";

/// How the arguments are changed before they are read.
#[derive(Debug)]
pub enum ArgChange {
    Keep,
    /// A word goes before the first argument.
    Insert(&'static str),
    /// A word takes the place of the first argument.
    Replace(&'static str),
}

#[verifier::ext_equal]
pub enum ArgChangeV {
    Keep,
    Insert(Seq<char>),
    Replace(Seq<char>),
}

impl ArgChange {
    pub open spec fn view(&self) -> ArgChangeV {
        match self {
            ArgChange::Keep => ArgChangeV::Keep,
            ArgChange::Insert(w) => ArgChangeV::Insert(w@),
            ArgChange::Replace(w) => ArgChangeV::Replace(w@),
        }
    }
}

/// Without a command the proxy is started; flags alone are flags of that.
pub open spec fn arg_change_v(first: Option<Seq<char>>) -> ArgChangeV {
    match first {
        None => ArgChangeV::Insert("serve"@),
        Some(word) => if word == "--version"@ || word == "-V"@ {
            ArgChangeV::Replace("version"@)
        } else if text::starts_v(word, "-"@) && word != "--help"@ && word != "-h"@ {
            ArgChangeV::Insert("serve"@)
        } else if word == "help"@ {
            ArgChangeV::Replace("--help"@)
        } else {
            ArgChangeV::Keep
        },
    }
}

pub fn arg_change(first: Option<&str>) -> (r: ArgChange)
    ensures
        r@ == arg_change_v(json::opt_str(first)),
{
    match first {
        None => ArgChange::Insert("serve"),
        Some(word) => if same(word, "--version") || same(word, "-V") {
            ArgChange::Replace("version")
        } else if text::starts_with(word, "-") && !same(word, "--help") && !same(word, "-h") {
            ArgChange::Insert("serve")
        } else if same(word, "help") {
            ArgChange::Replace("--help")
        } else {
            ArgChange::Keep
        },
    }
}

/// What `char::to_uppercase` gives for a character.
pub uninterp spec fn upper_form(c: char) -> Seq<char>;

/// `char::to_uppercase`: the upper case of a character, in one character or
/// more; a function of the character alone.
#[verifier::external_body]
fn upper(c: char) -> (r: String)
    ensures
        r@ == upper_form(c),
{
    c.to_uppercase().collect()
}

/// A part of a model's name as it is shown.
pub open spec fn word_v(s: Seq<char>) -> Seq<char> {
    let lower = text::lower_v(s);
    if lower == "grok"@ {
        "Grok"@
    } else if lower == "gpt"@ {
        "GPT"@
    } else if lower == "codex"@ {
        "Codex"@
    } else if s.len() == 0 {
        Seq::empty()
    } else {
        upper_form(s[0]) + s.skip(1)
    }
}

pub open spec fn words_v(parts: Seq<Seq<char>>) -> Seq<Seq<char>> {
    parts.map_values(|s: Seq<char>| word_v(s))
}

/// A model's name as it is shown, in words.
pub open spec fn display_id_v(id: Seq<char>) -> Seq<char> {
    text::join_v(words_v(text::split_any_v(id, "-_/"@)), " "@)
}

fn word(s: &str) -> (r: String)
    ensures
        r@ == word_v(s@),
{
    let lower = text::lower(s);
    if same(&lower, "grok") {
        text::owned("Grok")
    } else if same(&lower, "gpt") {
        text::owned("GPT")
    } else if same(&lower, "codex") {
        text::owned("Codex")
    } else {
        let v = text::chars_of(s);
        if v.len() == 0 {
            String::new()
        } else {
            text::cat(&upper(v[0]), &text::rest_of(&v, 1))
        }
    }
}

pub fn display_id(id: &str) -> (r: String)
    ensures
        r@ == display_id_v(id@),
{
    let parts = text::split_any(id, "-_/");
    let ghost all = text::views(parts@);
    let mut words: Vec<String> = Vec::new();
    let mut i: usize = 0;
    assert(text::views(words@) =~= words_v(all).take(0));
    while i < parts.len()
        invariant
            i <= parts@.len(),
            all == text::views(parts@),
            text::views(words@) == words_v(all).take(i as int),
        decreases parts@.len() - i,
    {
        assert(all[i as int] == parts@[i as int]@);
        let one = word(&parts[i]);
        proof {
            assert(words_v(all).take(i + 1) =~= words_v(all).take(i as int).push(one@));
            assert(text::views(words@.push(one)) =~= text::views(words@).push(one@));
        }
        words.push(one);
        i += 1;
    }
    assert(words_v(all).take(i as int) =~= words_v(all));
    text::join(&words, " ")
}

/// A character that a TOML key may hold without quotes.
pub open spec fn bare_v(c: char) -> bool {
    ('a' <= c && c <= 'z') || ('A' <= c && c <= 'Z') || ('0' <= c && c <= '9') || c == '_' || c
        == '-'
}

pub open spec fn key_v(key: Seq<char>) -> Seq<char> {
    if forall|i: int| 0 <= i < key.len() ==> bare_v(#[trigger] key[i]) {
        key
    } else {
        text::debug_form(key)
    }
}

fn toml_key(key: &str) -> (r: String)
    ensures
        r@ == key_v(key@),
{
    let v = text::chars_of(key);
    let mut i: usize = 0;
    while i < v.len()
        invariant
            i <= v@.len(),
            v@ == key@,
            forall|k: int| 0 <= k < i ==> bare_v(#[trigger] key@[k]),
        decreases v@.len() - i,
    {
        let c: char = v[i];
        if !(('a' <= c && c <= 'z') || ('A' <= c && c <= 'Z') || ('0' <= c && c <= '9') || c == '_'
            || c == '-') {
            assert(!bare_v(key@[i as int]));
            return text::debug_text(key);
        }
        i += 1;
    }
    text::owned(key)
}

pub open spec fn quoted_v(values: Seq<Seq<char>>) -> Seq<Seq<char>> {
    values.map_values(|s: Seq<char>| text::debug_form(s))
}

pub open spec fn effort_lines_v(reasoning: Option<catalog::CapabilityV>) -> Seq<char> {
    match reasoning {
        Some(_) => "supports_reasoning_effort = true\nreasoning_efforts = ["@ + text::join_v(
            quoted_v(grokconfig::efforts_of_v(reasoning)),
            ", "@,
        ) + "]\n"@,
        None => Seq::empty(),
    }
}

/// What is added to the configuration of Grok for a model.
pub open spec fn block_v(
    key: Seq<char>,
    model: Seq<char>,
    name: Seq<char>,
    listen: Seq<char>,
    context: u64,
    reasoning: Option<catalog::CapabilityV>,
) -> Seq<char> {
    "[model."@ + key_v(key) + "]\nmodel = "@ + text::debug_form(model) + "\nname = "@
        + text::debug_form(name) + "\nbase_url = \"http://"@ + listen
        + "/v1\"\napi_backend = \"responses\"\napi_key = \"unused\"\ncontext_window = "@
        + text::decimal_v(context as nat) + "\n"@ + effort_lines_v(reasoning) + "\n"@
}

fn effort_lines(reasoning: &Option<ReasoningCapability>) -> (r: String)
    ensures
        r@ == effort_lines_v(catalog::reasoning_view(*reasoning)),
{
    let c = match reasoning {
        None => {
            return String::new();
        },
        Some(c) => c,
    };
    let ghost all = quoted_v(grokconfig::efforts_of_v(Some(c@)));
    let mut quoted: Vec<String> = Vec::new();
    let mut i: usize = 0;
    assert(text::views(quoted@) =~= all.take(0));
    while i < c.efforts.len()
        invariant
            i <= c.efforts@.len(),
            all == quoted_v(grokconfig::efforts_of_v(Some(c@))),
            text::views(quoted@) == all.take(i as int),
        decreases c.efforts@.len() - i,
    {
        let one = text::debug_text(&c.efforts[i].value);
        proof {
            assert(catalog::efforts_v(c.efforts@)[i as int] == c.efforts@[i as int]@);
            assert(all.take(i + 1) =~= all.take(i as int).push(all[i as int]));
            assert(text::views(quoted@.push(one)) =~= text::views(quoted@).push(one@));
        }
        quoted.push(one);
        i += 1;
    }
    assert(all.take(i as int) =~= all);
    text::cat3(
        "supports_reasoning_effort = true\nreasoning_efforts = [",
        &text::join(&quoted, ", "),
        "]\n",
    )
}

/// What is added to the configuration of Grok for a model.
pub fn config_block(
    key: &str,
    model: &str,
    name: &str,
    listen: &str,
    context: u64,
    reasoning: &Option<ReasoningCapability>,
) -> (r: String)
    ensures
        r@ == block_v(
            key@,
            model@,
            name@,
            listen@,
            context,
            catalog::reasoning_view(*reasoning),
        ),
{
    let mut out = text::cat3("[model.", &toml_key(key), "]\nmodel = ");
    out.push_str(&text::debug_text(model));
    out.push_str("\nname = ");
    out.push_str(&text::debug_text(name));
    out.push_str("\nbase_url = \"http://");
    out.push_str(listen);
    out.push_str("/v1\"\napi_backend = \"responses\"\napi_key = \"unused\"\ncontext_window = ");
    out.push_str(&text::decimal(context));
    out.push_str("\n");
    out.push_str(&effort_lines(reasoning));
    out.push_str("\n");
    out
}

/// The block for a name that stands for another model.
pub open spec fn mapped_block_v(map: Seq<EntryV>, source: Seq<char>, listen: Seq<char>) -> Seq<char> {
    let m = catalog::model_v(catalog::norm_v(modelmap::resolve_v(map, source).model).0);
    block_v(
        source,
        source,
        display_id_v(source) + " via "@ + m.provider.owner_v() + " "@ + m.display_name,
        listen,
        m.context_window,
        m.reasoning,
    )
}

pub open spec fn mapped_blocks_v(map: Seq<EntryV>, n: int, listen: Seq<char>) -> Seq<char>
    decreases n,
{
    if n <= 0 {
        Seq::empty()
    } else {
        mapped_blocks_v(map, n - 1, listen) + mapped_block_v(map, map[n - 1].source, listen)
    }
}

/// The block for a model of the catalog.
pub open spec fn model_block_v(m: ModelV, listen: Seq<char>) -> Seq<char> {
    block_v(
        m.provider.name_v() + "-"@ + grokconfig::dashed_v(m.id),
        m.id,
        if m.provider == Provider::Kimi {
            m.display_name
        } else {
            "Codex "@ + m.display_name
        },
        listen,
        m.context_window,
        m.reasoning,
    )
}

pub open spec fn is_source_v(map: Seq<EntryV>, id: Seq<char>) -> bool {
    exists|i: int| 0 <= i < map.len() && (#[trigger] map[i]).source == id
}

pub open spec fn model_blocks_v(models: Seq<ModelV>, map: Seq<EntryV>, listen: Seq<char>) -> Seq<char>
    decreases models.len(),
{
    if models.len() == 0 {
        Seq::empty()
    } else {
        let m = models.last();
        model_blocks_v(models.drop_last(), map, listen) + (if is_source_v(map, m.id) {
            Seq::empty()
        } else {
            model_block_v(m, listen)
        })
    }
}

/// What can be added to the configuration of Grok: the names that stand for
/// other models, and the other models of the catalog.
pub open spec fn config_v(listen: Seq<char>, models: Seq<ModelV>, map: Seq<EntryV>) -> Seq<char> {
    "# Add selected blocks to ~/.grok/config.toml\n\n# Optional global default used by the Quick Start:\n# [models]\n# default_reasoning_effort = \"xhigh\"\n\n"@
        + mapped_blocks_v(map, map.len() as int, listen) + model_blocks_v(models, map, listen)
}

fn is_source(map: &ModelMap, id: &str) -> (r: bool)
    ensures
        r == is_source_v(map@, id@),
{
    let entries = map.entries();
    let ghost all = map@;
    let mut i: usize = 0;
    while i < entries.len()
        invariant
            i <= entries@.len(),
            all == map@,
            all == modelmap::entries_v(entries@),
            forall|k: int| 0 <= k < i ==> (#[trigger] all[k]).source != id@,
        decreases entries@.len() - i,
    {
        assert(all[i as int] == entries@[i as int]@);
        if same(&entries[i].source, id) {
            return true;
        }
        i += 1;
    }
    assert(all.len() == entries@.len());
    false
}

fn mapped_block(map: &ModelMap, catalog: &Catalog, source: &str, listen: &str) -> (r: String)
    ensures
        r@ == mapped_block_v(map@, source@, listen@),
{
    let resolved = map.resolve(source);
    let (m, _) = catalog.lookup(&resolved.model);
    let mut name = text::cat3(&display_id(source), " via ", m.provider.owned_by());
    name.push_str(" ");
    name.push_str(&m.display_name);
    config_block(source, source, &name, listen, m.context_window, &m.reasoning)
}

/// What can be added to the configuration of Grok.
pub fn render_config(listen: &str, catalog: &Catalog, mappings: &ModelMap) -> (r: String)
    ensures
        r@ == config_v(listen@, catalog@, mappings@),
{
    let ghost map = mappings@;
    let mut first = String::new();
    let entries = mappings.entries();
    let mut i: usize = 0;
    assert(modelmap::entries_v(entries@).len() == entries@.len());
    while i < entries.len()
        invariant
            i <= entries@.len(),
            map == mappings@,
            map == modelmap::entries_v(entries@),
            first@ == mapped_blocks_v(map, i as int, listen@),
        decreases entries@.len() - i,
    {
        assert(map[i as int] == entries@[i as int]@);
        first.push_str(&mapped_block(mappings, catalog, &entries[i].source, listen));
        i += 1;
    }
    let mut second = String::new();
    let models = catalog.models();
    let ghost all = catalog@;
    let mut k: usize = 0;
    assert(all.take(0) =~= Seq::<ModelV>::empty());
    while k < models.len()
        invariant
            k <= models@.len(),
            map == mappings@,
            all == catalog@,
            catalog::models_v(models@) == all,
            second@ == model_blocks_v(all.take(k as int), map, listen@),
        decreases models@.len() - k,
    {
        let ghost before = second@;
        proof {
            assert(catalog::models_v(models@)[k as int] == models@[k as int]@);
            assert(all.take(k + 1).drop_last() =~= all.take(k as int));
            assert(before + Seq::<char>::empty() =~= before);
        }
        if !is_source(mappings, &models[k].id) {
            let key = text::cat3(models[k].provider.as_str(), "-", &dashed(&models[k].id));
            let name = match models[k].provider {
                Provider::Kimi => text::owned(&models[k].display_name),
                Provider::Codex => text::cat("Codex ", &models[k].display_name),
            };
            second.push_str(
                &config_block(
                    &key,
                    &models[k].id,
                    &name,
                    listen,
                    models[k].context_window,
                    &models[k].reasoning,
                ),
            );
        }
        k += 1;
    }
    assert(catalog::models_v(models@).len() == models@.len());
    assert(all.take(k as int) =~= all);
    text::cat3(
        "# Add selected blocks to ~/.grok/config.toml\n\n# Optional global default used by the Quick Start:\n# [models]\n# default_reasoning_effort = \"xhigh\"\n\n",
        &first,
        &second,
    )
}

/// The number of bytes that a character takes in UTF-8.
pub open spec fn width_v(c: char) -> nat {
    if c as u32 <= 0x7f {
        1
    } else if c as u32 <= 0x7ff {
        2
    } else if c as u32 <= 0xffff {
        3
    } else {
        4
    }
}

pub open spec fn bytes_v(s: Seq<char>) -> nat
    decreases s.len(),
{
    if s.len() == 0 {
        0
    } else {
        bytes_v(s.drop_last()) + width_v(s.last())
    }
}

/// The number of characters that take the first `n` bytes, where no character
/// is cut.
pub open spec fn cut_v(s: Seq<char>, n: nat, k: int) -> bool {
    0 <= k <= s.len() && bytes_v(s.take(k)) == n
}

fn width(c: char) -> (r: u128)
    ensures
        r == width_v(c),
        1 <= r <= 4,
{
    if c as u32 <= 0x7f {
        1
    } else if c as u32 <= 0x7ff {
        2
    } else if c as u32 <= 0xffff {
        3
    } else {
        4
    }
}

/// An account's name as it is shown: whole behind an ellipsis where it takes at
/// most eight bytes, else its first four bytes and its last four. `None` where
/// that would cut a character.
pub open spec fn account_v(id: Seq<char>, r: Option<Seq<char>>) -> bool {
    let n = bytes_v(id);
    if n <= 8 {
        r == Some("…"@ + id)
    } else {
        match r {
            Some(shown) => exists|a: int, b: int|
                #![trigger cut_v(id, 4, a), cut_v(id, (n - 4) as nat, b)]
                cut_v(id, 4, a) && cut_v(id, (n - 4) as nat, b) && shown == id.take(a) + "…"@
                    + id.skip(b),
            None => (forall|a: int| !#[trigger] cut_v(id, 4, a)) || (forall|b: int|
                !#[trigger] cut_v(id, (n - 4) as nat, b)),
        }
    }
}

proof fn bytes_grow(s: Seq<char>, i: int, j: int)
    requires
        0 <= i <= j <= s.len(),
    ensures
        bytes_v(s.take(i)) + (j - i) <= bytes_v(s.take(j)),
        bytes_v(s.take(j)) <= bytes_v(s.take(i)) + 4 * (j - i),
    decreases j - i,
{
    if i < j {
        bytes_grow(s, i, j - 1);
        assert(s.take(j).drop_last() =~= s.take(j - 1));
    }
}

/// The place after the first `n` bytes.
fn cut(v: &Vec<char>, n: u128) -> (r: Option<usize>)
    requires
        n <= u128::MAX - 4,
    ensures
        match r {
            Some(k) => cut_v(v@, n as nat, k as int),
            None => forall|k: int| !#[trigger] cut_v(v@, n as nat, k),
        },
{
    let mut i: usize = 0;
    let mut sum: u128 = 0;
    assert(v@.take(0) =~= Seq::<char>::empty());
    while i < v.len() && sum < n
        invariant
            i <= v@.len(),
            sum == bytes_v(v@.take(i as int)),
            i > 0 ==> bytes_v(v@.take(i - 1)) < n,
            n <= u128::MAX - 4,
        decreases v@.len() - i,
    {
        assert(v@.take(i + 1).drop_last() =~= v@.take(i as int));
        sum = sum + width(v[i]);
        i += 1;
    }
    if sum == n {
        return Some(i);
    }
    proof {
        assert forall|k: int| !#[trigger] cut_v(v@, n as nat, k) by {
            if 0 <= k <= v@.len() {
                if k < i {
                    bytes_grow(v@, k, i - 1);
                } else {
                    bytes_grow(v@, i as int, k);
                }
            }
        }
    }
    None
}

/// An account's name as it is shown; `None` where a character would be cut.
pub fn account_shown(id: &str) -> (r: Option<String>)
    ensures
        account_v(id@, text::opt_view(r)),
{
    let v = text::chars_of(id);
    let mut total: u128 = 0;
    let mut i: usize = 0;
    assert(v@.take(0) =~= Seq::<char>::empty());
    while i < v.len()
        invariant
            i <= v@.len(),
            total == bytes_v(v@.take(i as int)),
            total <= 4 * i,
        decreases v@.len() - i,
    {
        assert(v@.take(i + 1).drop_last() =~= v@.take(i as int));
        total = total + width(v[i]);
        i += 1;
    }
    assert(v@.take(i as int) =~= v@);
    if total <= 8 {
        return Some(text::cat("…", id));
    }
    match (cut(&v, 4), cut(&v, total - 4)) {
        (Some(a), Some(b)) => {
            assert(cut_v(id@, 4, a as int));
            assert(cut_v(id@, (bytes_v(id@) - 4) as nat, b as int));
            assert(v@.subrange(0, a as int) =~= id@.take(a as int));
            Some(text::cat3(&text::string_of(&v, 0, a), "…", &text::rest_of(&v, b)))
        },
        _ => None,
    }
}

pub open spec fn yes_no_v(value: bool) -> Seq<char> {
    if value {
        "yes"@
    } else {
        "no"@
    }
}

pub fn yes_no(value: bool) -> (r: &'static str)
    ensures
        r@ == yes_no_v(value),
{
    if value {
        "yes"
    } else {
        "no"
    }
}

pub open spec fn pass_fail_v(value: bool) -> Seq<char> {
    if value {
        "PASS"@
    } else {
        "FAIL"@
    }
}

pub fn pass_fail(value: bool) -> (r: &'static str)
    ensures
        r@ == pass_fail_v(value),
{
    if value {
        "PASS"
    } else {
        "FAIL"
    }
}

/// A record in a line of a table.
pub fn record_line(record: &ModelRecord) -> (r: String)
    ensures
        r@ == record@.alias + "\t"@ + record@.model + "\t"@ + record@.service_tier + "\t"@
            + yes_no_v(record.managed) + "\t"@ + yes_no_v(record.valid) + "\t"@ + record@.api_key,
{
    let mut line = text::cat3(&record.alias, "\t", &record.model);
    line.push_str("\t");
    line.push_str(&record.service_tier);
    line.push_str("\t");
    line.push_str(yes_no(record.managed));
    line.push_str("\t");
    line.push_str(yes_no(record.valid));
    line.push_str("\t");
    line.push_str(&record.api_key);
    line
}

/// A model on offer in a line of a table.
pub fn available_line(model: &AvailableModel) -> (r: String)
    ensures
        r@ == model@.model + "\t"@ + model@.name + "\t"@ + yes_no_v(model.fast),
{
    let mut line = text::cat3(&model.model, "\t", &model.name);
    line.push_str("\t");
    line.push_str(yes_no(model.fast));
    line
}

/// The status of a model in a line of a table.
pub fn status_line(status: &ModelStatus) -> (r: String)
    ensures
        r@ == status@.alias + "\t"@ + status@.service_tier + "\t"@ + pass_fail_v(status.configured)
            + "\t"@ + pass_fail_v(status.proxy) + "\t"@ + pass_fail_v(status.ready) + "\t"@
            + pass_fail_v(status.advertised) + "\t"@ + pass_fail_v(status.metadata) + "\t"@
            + status@.detail,
{
    let mut line = text::cat3(&status.alias, "\t", &status.service_tier);
    line.push_str("\t");
    line.push_str(pass_fail(status.configured));
    line.push_str("\t");
    line.push_str(pass_fail(status.proxy));
    line.push_str("\t");
    line.push_str(pass_fail(status.ready));
    line.push_str("\t");
    line.push_str(pass_fail(status.advertised));
    line.push_str("\t");
    line.push_str(pass_fail(status.metadata));
    line.push_str("\t");
    line.push_str(&status.detail);
    line
}

/// Whether a model can be used as it is configured.
pub open spec fn usable_v(s: StatusV) -> bool {
    s.configured && s.proxy && s.ready && s.advertised && s.metadata
}

pub open spec fn statuses_v(s: Seq<ModelStatus>) -> Seq<StatusV> {
    s.map_values(|x: ModelStatus| x@)
}

/// Fails where a model cannot be used.
pub fn ensure_usable(statuses: &Vec<ModelStatus>) -> (r: Result<(), String>)
    ensures
        match r {
            Ok(_) => forall|i: int|
                0 <= i < statuses@.len() ==> usable_v(#[trigger] statuses_v(statuses@)[i]),
            Err(e) => e@ == "one or more model status checks failed"@ && exists|i: int|
                0 <= i < statuses@.len() && !usable_v(#[trigger] statuses_v(statuses@)[i]),
        },
{
    let ghost all = statuses_v(statuses@);
    let mut i: usize = 0;
    while i < statuses.len()
        invariant
            i <= statuses@.len(),
            all == statuses_v(statuses@),
            forall|k: int| 0 <= k < i ==> usable_v(#[trigger] all[k]),
        decreases statuses@.len() - i,
    {
        let s: &ModelStatus = &statuses[i];
        assert(all[i as int] == s@);
        if !s.configured || !s.proxy || !s.ready || !s.advertised || !s.metadata {
            assert(!usable_v(statuses_v(statuses@)[i as int]));
            return Err(text::owned("one or more model status checks failed"));
        }
        i += 1;
    }
    Ok(())
}

pub open spec fn or_v(s: Option<Seq<char>>, other: Seq<char>) -> Seq<char> {
    match s {
        Some(s) => s,
        None => other,
    }
}

/// Where the proxy of a base URL listens, or the default.
pub open spec fn listen_at_v(base_url: Seq<char>) -> Seq<char> {
    or_v(urls::listen_of_v(urls::url_parts(base_url)), "127.0.0.1:18765"@)
}

fn listen_at(base_url: &str) -> (r: String)
    ensures
        r@ == listen_at_v(base_url@),
{
    match listen_from_base_url(base_url) {
        Some(s) => s,
        None => text::owned("127.0.0.1:18765"),
    }
}

/// Whether an updated model is fast: as the flags say, else as its new name
/// says, else as it was.
pub open spec fn fast_choice_v(fast: bool, no_fast: bool, requested: bool, existing: bool) -> bool {
    if fast {
        true
    } else if no_fast {
        false
    } else {
        requested || existing
    }
}

/// What an update asks for.
#[derive(Debug)]
pub struct Update {
    pub alias: String,
    pub model: Option<String>,
    pub name: Option<String>,
    pub fast: bool,
    pub no_fast: bool,
}

pub open spec fn update_spec_v(
    c: TableV,
    u: Update,
    client_token: Seq<char>,
    listen: Option<Seq<char>>,
) -> Result<SpecV, Seq<char>> {
    match config::find_v(c, u.alias@) {
        Err(e) => Err(e),
        Ok(current) => {
            let (base, requested) = catalog::norm_v(or_v(text::opt_view(u.model), current.model));
            let fast = fast_choice_v(
                u.fast,
                u.no_fast,
                requested,
                catalog::norm_v(current.model).1,
            );
            let key = if client_token.len() > 0 {
                client_token
            } else {
                match config::raw_key_v(c, u.alias@) {
                    Ok(k) => k,
                    Err(_) => "unused"@,
                }
            };
            grokconfig::model_spec_v(
                u.alias@,
                base,
                fast,
                or_v(listen, listen_at_v(current.base_url)),
                key,
                Some(or_v(text::opt_view(u.name), current.name)),
            )
        },
    }
}

/// What is written for an update: what it leaves out stays as it is.
pub fn update_spec(
    config: &GrokConfig,
    catalog: &Catalog,
    u: &Update,
    client_token: &str,
    listen: Option<&str>,
) -> (r: Result<ModelSpec, String>)
    ensures
        grokconfig::spec_result(r) == update_spec_v(
            config@.contents(),
            *u,
            client_token@,
            json::opt_str(listen),
        ),
{
    let current = match config.record(&u.alias) {
        Err(e) => {
            return Err(e);
        },
        Ok(c) => c,
    };
    let (_, existing) = normalize_id(&current.model);
    let target = match &u.model {
        Some(m) => text::owned(m),
        None => text::owned(&current.model),
    };
    let (base, requested) = normalize_id(&target);
    let fast = if u.fast {
        true
    } else if u.no_fast {
        false
    } else {
        requested || existing
    };
    let key = if !client_token.is_empty() {
        text::owned(client_token)
    } else {
        match config.raw_api_key(&u.alias) {
            Ok(k) => k,
            Err(_) => text::owned("unused"),
        }
    };
    let at = match listen {
        Some(l) => text::owned(l),
        None => listen_at(&current.base_url),
    };
    let name = match &u.name {
        Some(n) => text::owned(n),
        None => text::owned(&current.name),
    };
    model_spec(catalog, &u.alias, &base, fast, &at, &key, Some(name.as_str()))
}

pub open spec fn status_listen_v(listen: Option<Seq<char>>, records: Seq<RecordV>) -> Seq<char> {
    or_v(
        listen,
        if records.len() > 0 {
            listen_at_v(records[0].base_url)
        } else {
            "127.0.0.1:18765"@
        },
    )
}

/// Where the proxy is asked how the models stand: where the user says, else
/// where the first model says.
pub fn status_listen(listen: Option<&str>, records: &Vec<ModelRecord>) -> (r: String)
    ensures
        r@ == status_listen_v(json::opt_str(listen), config::views(records@)),
{
    assert(config::views(records@).len() == records@.len());
    match listen {
        Some(l) => text::owned(l),
        None => if records.len() > 0 {
            assert(config::views(records@)[0] == records@[0]@);
            listen_at(&records[0].base_url)
        } else {
            text::owned("127.0.0.1:18765")
        },
    }
}

/// A spec with the key that its model has, or else the shared one.
pub open spec fn keyed_v(c: TableV, spec: SpecV, inherited: Option<Seq<char>>) -> SpecV {
    match config::raw_key_v(c, spec.alias) {
        Ok(k) => SpecV { api_key: k, ..spec },
        Err(_) => match inherited {
            Some(k) => SpecV { api_key: k, ..spec },
            None => spec,
        },
    }
}

pub open spec fn all_keyed_v(c: TableV, specs: Seq<SpecV>, inherited: Option<Seq<char>>) -> Seq<
    SpecV,
> {
    specs.map_values(|s: SpecV| keyed_v(c, s, inherited))
}

fn keyed(config: &GrokConfig, specs: Vec<ModelSpec>, inherited: &Option<String>) -> (r: Vec<
    ModelSpec,
>)
    ensures
        grokconfig::specs_v(r@) == all_keyed_v(
            config@.contents(),
            grokconfig::specs_v(specs@),
            text::opt_view(*inherited),
        ),
{
    let ghost c = config@.contents();
    let ghost source = grokconfig::specs_v(specs@);
    let ghost all = all_keyed_v(c, source, text::opt_view(*inherited));
    let mut out = specs;
    let mut i: usize = 0;
    while i < out.len()
        invariant
            i <= out@.len(),
            out@.len() == source.len(),
            c == config@.contents(),
            all == all_keyed_v(c, source, text::opt_view(*inherited)),
            forall|k: int| 0 <= k < i ==> (#[trigger] out@[k])@ == all[k],
            forall|k: int| i <= k < out@.len() ==> (#[trigger] out@[k])@ == source[k],
        decreases out@.len() - i,
    {
        let ghost before = out@;
        let key = match config.raw_api_key(&out[i].alias) {
            Ok(k) => Some(k),
            Err(_) => match inherited {
                Some(k) => Some(text::owned(k)),
                None => None,
            },
        };
        if let Some(k) = key {
            let old_spec: &ModelSpec = &out[i];
            let efforts = copy_texts(&old_spec.reasoning_efforts);
            let one = ModelSpec {
                alias: text::owned(&old_spec.alias),
                base_model: text::owned(&old_spec.base_model),
                effective_model: text::owned(&old_spec.effective_model),
                fast: old_spec.fast,
                name: text::owned(&old_spec.name),
                description: text::owned(&old_spec.description),
                base_url: text::owned(&old_spec.base_url),
                api_key: k,
                context_window: old_spec.context_window,
                reasoning_efforts: efforts,
            };
            assert(one@ == keyed_v(c, source[i as int], text::opt_view(*inherited)));
            out.set(i, one);
        }
        assert(out@[i as int]@ == all[i as int]);
        i += 1;
    }
    assert(grokconfig::specs_v(out@) =~= all);
    out
}

fn copy_texts(v: &Vec<String>) -> (r: Vec<String>)
    ensures
        text::views(r@) == text::views(v@),
{
    let mut out: Vec<String> = Vec::new();
    let mut i: usize = 0;
    let ghost all = text::views(v@);
    assert(text::views(out@) =~= all.take(0));
    while i < v.len()
        invariant
            i <= v@.len(),
            all == text::views(v@),
            text::views(out@) == all.take(i as int),
        decreases v@.len() - i,
    {
        let one = text::owned(&v[i]);
        proof {
            assert(all.take(i + 1) =~= all.take(i as int).push(all[i as int]));
            assert(text::views(out@.push(one)) =~= text::views(out@).push(one@));
        }
        out.push(one);
        i += 1;
    }
    assert(all.take(i as int) =~= all);
    out
}

/// What is written to bring the models in step. Without a token the keys that
/// models have are kept, and new ones get the key that the others share.
pub open spec fn wanted_v(
    c: TableV,
    models: Seq<ModelV>,
    listen: Seq<char>,
    client_token: Seq<char>,
    include_fast: bool,
    r: Result<grokconfig::SyncV, Seq<char>>,
) -> bool {
    match grokconfig::sync_specs_v(models, listen, client_token, include_fast) {
        Err(e) => r == Err::<grokconfig::SyncV, Seq<char>>(e),
        Ok(s) => if client_token.len() > 0 {
            r == Ok::<grokconfig::SyncV, Seq<char>>(s)
        } else {
            exists|k: Result<Option<Seq<char>>, Seq<char>>| #[trigger]
                config::inherits_v(c, grokconfig::base_url_v(listen), k) && r == match k {
                    Err(e) => Err::<grokconfig::SyncV, Seq<char>>(e),
                    Ok(k) => Ok(
                        grokconfig::SyncV { specs: all_keyed_v(c, s.specs, k), ..s },
                    ),
                }
        },
    }
}

pub fn wanted_specs(
    config: &GrokConfig,
    catalog: &Catalog,
    listen: &str,
    client_token: &str,
    include_fast: bool,
) -> (r: Result<(Vec<ModelSpec>, Vec<String>), String>)
    ensures
        wanted_v(
            config@.contents(),
            catalog@,
            listen@,
            client_token@,
            include_fast,
            grokconfig::sync_result(r),
        ),
{
    let (specs, unsupported) = match sync_specs(catalog, listen, client_token, include_fast) {
        Err(e) => {
            return Err(e);
        },
        Ok(x) => x,
    };
    if !client_token.is_empty() {
        return Ok((specs, unsupported));
    }
    let ghost c = config@.contents();
    let inherited = config.inherited_api_key(&base_url(listen));
    let ghost k = config::inherited_result(inherited);
    assert(config::inherits_v(c, grokconfig::base_url_v(listen@), k));
    match inherited {
        Err(e) => Err(e),
        Ok(key) => Ok((keyed(config, specs, &key), unsupported)),
    }
}

/// What is done with changes that have been planned.
#[derive(Clone, Copy, Debug, PartialEq, Eq, Structural)]
pub enum WriteStep {
    /// There is nothing to change.
    Nothing,
    /// The changes are shown, and that is all.
    DryRun,
    /// Nobody is there to ask.
    Refuse,
    /// The user is asked.
    Ask,
    Write,
}

pub open spec fn write_step_v(empty: bool, dry_run: bool, yes: bool, interactive: bool) -> WriteStep {
    if empty {
        WriteStep::Nothing
    } else if dry_run {
        WriteStep::DryRun
    } else if yes {
        WriteStep::Write
    } else if interactive {
        WriteStep::Ask
    } else {
        WriteStep::Refuse
    }
}

/// What is done with planned changes.
pub fn write_step(changes: &ChangeSet, dry_run: bool, yes: bool, interactive: bool) -> (r: WriteStep)
    ensures
        r == write_step_v(changes@.len() == 0, dry_run, yes, interactive),
{
    if changes.is_empty() {
        WriteStep::Nothing
    } else if dry_run {
        WriteStep::DryRun
    } else if yes {
        WriteStep::Write
    } else if interactive {
        WriteStep::Ask
    } else {
        WriteStep::Refuse
    }
}

pub open spec fn consent_v(answer: Seq<char>) -> bool {
    let word = text::lower_v(text::trim_v(answer));
    word == "y"@ || word == "yes"@
}

/// Whether an answer is a yes.
pub fn consents(answer: &str) -> (r: bool)
    ensures
        r == consent_v(answer@),
{
    let word = text::lower(&text::trim(answer));
    same(&word, "y") || same(&word, "yes")
}

/// No file is written on a dry run, nor without a yes, by flag or by answer.
pub proof fn nothing_is_written_unasked(empty: bool, dry_run: bool, yes: bool, interactive: bool)
    ensures
        write_step_v(empty, dry_run, yes, interactive) == WriteStep::Write ==> yes && !dry_run
            && !empty,
        write_step_v(empty, dry_run, yes, interactive) == WriteStep::Ask ==> interactive
            && !dry_run && !empty,
{
}

/// An update changes what it names and keeps the rest: the name, the model, the
/// address and the key stay where the user gives none.
pub proof fn updates_keep_the_rest(
    c: TableV,
    u: Update,
    client_token: Seq<char>,
    listen: Option<Seq<char>>,
)
    ensures
        update_spec_v(c, u, client_token, listen) matches Ok(s) ==> {
            &&& config::find_v(c, u.alias@) matches Ok(current) && {
                &&& s.alias == u.alias@
                &&& u.name is None ==> s.name == current.name
                &&& u.name matches Some(n) ==> s.name == n@
                &&& u.model is None ==> s.base_model == catalog::norm_v(
                    catalog::norm_v(current.model).0,
                ).0
                &&& u.model matches Some(m) ==> s.base_model == catalog::norm_v(
                    catalog::norm_v(m@).0,
                ).0
                &&& u.fast ==> s.fast
                &&& listen matches Some(l) ==> s.base_url == grokconfig::base_url_v(l)
                &&& client_token.len() > 0 ==> s.api_key == client_token
                &&& client_token.len() == 0 ==> (config::raw_key_v(c, u.alias@) matches Ok(k) ==> k.len()
                    > 0 ==> s.api_key == k)
            }
        },
        config::find_v(c, u.alias@) is Err ==> update_spec_v(c, u, client_token, listen) is Err,
{
}

} // verus!
