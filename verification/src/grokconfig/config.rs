//! Reading and editing the configuration of Grok. What is not a model of this
//! proxy stays as it is.

use vstd::prelude::*;

use crate::catalog;
use crate::catalog::normalize_id;
use crate::grokconfig;
use crate::grokconfig::{tier, ChangeSet, ModelRecord, ModelSpec, RecordV, SpecV};
use crate::numbers;
use crate::numbers::signed;
use crate::text;
use crate::text::same;
use crate::toml;
use crate::toml::{
    empty_document, entry_kind, entry_names, entry_prefix, field_int, field_text, put_bool,
    put_entry, put_int, put_section, put_text, put_texts, remove_entry, remove_field, render,
    section_kind, set_prefix, widen_section, Kind, TableV, TomlV,
};
use crate::urls;
use crate::urls::is_loopback_url;

verus! {

/// The comment that marks a model as one of this proxy.
pub const MANAGED_MARKER: &'static str = "Managed by grok-build-proxy";

/// The configuration of Grok: the file it was read from, its text, and the
/// document that is edited.
#[derive(Debug)]
pub struct GrokConfig {
    path: String,
    original: String,
    document: toml_edit::DocumentMut,
}

#[verifier::ext_equal]
pub struct ConfigV {
    pub path: Seq<char>,
    pub original: Seq<char>,
    pub document: toml_edit::DocumentMut,
}

impl ConfigV {
    pub open spec fn contents(self) -> TableV {
        toml::toml_contents(self.document)
    }
}

pub open spec fn entry_of(c: TableV, alias: Seq<char>) -> Option<TomlV> {
    toml::entry_v(c, "model"@, alias)
}

pub open spec fn text_in(c: TableV, alias: Seq<char>, field: Seq<char>) -> Option<Seq<char>> {
    toml::text_of_v(toml::field_v(c, "model"@, alias, field))
}

/// A model that this proxy has written.
pub open spec fn managed_v(c: TableV, alias: Seq<char>) -> bool {
    match toml::prefix_of_v(entry_of(c, alias)) {
        Some(p) => text::contains_v(p, "Managed by grok-build-proxy"@),
        None => false,
    }
}

/// A model that is served by a proxy on this machine.
pub open spec fn local_v(c: TableV, alias: Seq<char>) -> bool {
    text_in(c, alias, "api_backend"@) == Some("responses"@) && match text_in(
        c,
        alias,
        "base_url"@,
    ) {
        Some(url) => urls::loopback_url_v(urls::url_parts(url)),
        None => false,
    }
}

/// A model of this proxy, whoever wrote it.
pub open spec fn proxied_v(c: TableV, alias: Seq<char>) -> bool {
    toml::is_table_v(entry_of(c, alias)) && (managed_v(c, alias) || local_v(c, alias))
}

/// A text that is more than spaces, or nothing.
pub open spec fn filled_v(s: Option<Seq<char>>) -> Seq<char> {
    match s {
        Some(s) => if text::trim_v(s).len() > 0 {
            s
        } else {
            Seq::empty()
        },
        None => Seq::empty(),
    }
}

pub open spec fn must_v(field: Seq<char>) -> Seq<char> {
    field + " must be a non-empty string"@
}

pub open spec fn missing_v(c: TableV, alias: Seq<char>, field: Seq<char>) -> Seq<Seq<char>> {
    if filled_v(text_in(c, alias, field)).len() == 0 {
        seq![must_v(field)]
    } else {
        Seq::empty()
    }
}

pub open spec fn backend_errors_v(backend: Seq<char>) -> Seq<Seq<char>> {
    if backend.len() > 0 && backend != "responses"@ {
        seq!["api_backend must be responses"@]
    } else {
        Seq::empty()
    }
}

pub open spec fn window_errors_v(window: Option<i64>) -> Seq<Seq<char>> {
    if window is None {
        seq!["context_window must be an integer"@]
    } else {
        Seq::empty()
    }
}

pub open spec fn key_errors_v(key: Option<Seq<char>>) -> Seq<Seq<char>> {
    match key {
        Some(k) => if k.len() > 0 {
            Seq::empty()
        } else {
            seq!["api_key must be a non-empty string"@]
        },
        None => seq!["api_key must be a non-empty string"@],
    }
}

pub open spec fn key_kind_v(key: Option<Seq<char>>) -> Seq<char> {
    match key {
        Some(k) => if k == "unused"@ {
            "unused"@
        } else if k.len() > 0 {
            "present"@
        } else {
            "missing"@
        },
        None => "missing"@,
    }
}

pub open spec fn field_errors_v(c: TableV, alias: Seq<char>) -> Seq<Seq<char>> {
    missing_v(c, alias, "model"@) + missing_v(c, alias, "name"@) + missing_v(
        c,
        alias,
        "base_url"@,
    ) + missing_v(c, alias, "api_backend"@)
}

pub open spec fn errors_v(c: TableV, alias: Seq<char>) -> Seq<Seq<char>> {
    field_errors_v(c, alias) + backend_errors_v(filled_v(text_in(c, alias, "api_backend"@)))
        + window_errors_v(toml::int_of_v(toml::field_v(c, "model"@, alias, "context_window"@)))
        + key_errors_v(text_in(c, alias, "api_key"@))
}

/// What is read of a model.
pub open spec fn record_v(c: TableV, alias: Seq<char>) -> RecordV {
    let model = filled_v(text_in(c, alias, "model"@));
    RecordV {
        alias,
        model,
        name: filled_v(text_in(c, alias, "name"@)),
        base_url: filled_v(text_in(c, alias, "base_url"@)),
        service_tier: grokconfig::tier_v(catalog::norm_v(model).1),
        managed: managed_v(c, alias),
        valid: errors_v(c, alias).len() == 0,
        api_key: key_kind_v(text_in(c, alias, "api_key"@)),
        errors: errors_v(c, alias),
    }
}

fn is_managed(doc: &toml_edit::DocumentMut, alias: &str) -> (r: bool)
    ensures
        r == managed_v(toml::toml_contents(*doc), alias@),
{
    match entry_prefix(doc, "model", alias) {
        Some(p) => text::contains(&p, "Managed by grok-build-proxy"),
        None => false,
    }
}

fn is_table(doc: &toml_edit::DocumentMut, alias: &str) -> (r: bool)
    ensures
        r == toml::is_table_v(entry_of(toml::toml_contents(*doc), alias@)),
{
    match entry_kind(doc, "model", alias) {
        Kind::Standard => true,
        Kind::Inline => true,
        _ => false,
    }
}

fn is_proxied(doc: &toml_edit::DocumentMut, alias: &str) -> (r: bool)
    ensures
        r == proxied_v(toml::toml_contents(*doc), alias@),
{
    if !is_table(doc, alias) {
        return false;
    }
    if is_managed(doc, alias) {
        return true;
    }
    let responses = match field_text(doc, "model", alias, "api_backend") {
        Some(s) => same(&s, "responses"),
        None => false,
    };
    responses && match field_text(doc, "model", alias, "base_url") {
        Some(url) => is_loopback_url(&url),
        None => false,
    }
}

fn add_line(lines: &mut Vec<String>, line: String)
    ensures
        text::views(final(lines)@) == text::views(old(lines)@).push(line@),
{
    assert(text::views(lines@.push(line)) =~= text::views(lines@).push(line@));
    lines.push(line);
}

fn string_field(
    doc: &toml_edit::DocumentMut,
    alias: &str,
    field: &str,
    errors: &mut Vec<String>,
) -> (r: String)
    ensures
        r@ == filled_v(text_in(toml::toml_contents(*doc), alias@, field@)),
        text::views(final(errors)@) == text::views(old(errors)@) + missing_v(
            toml::toml_contents(*doc),
            alias@,
            field@,
        ),
{
    let ghost before = text::views(errors@);
    if let Some(s) = field_text(doc, "model", alias, field) {
        let t = text::trim(&s);
        if !t.as_str().is_empty() {
            proof {
                if s@.len() == 0 {
                    assert(text::trim_v(s@).len() == 0);
                }
                assert(before + Seq::<Seq<char>>::empty() =~= before);
            }
            return s;
        }
    }
    add_line(errors, text::cat(field, " must be a non-empty string"));
    assert(before.push(must_v(field@)) =~= before + seq![must_v(field@)]);
    String::new()
}

fn record_of(doc: &toml_edit::DocumentMut, alias: &str) -> (r: ModelRecord)
    ensures
        r@ == record_v(toml::toml_contents(*doc), alias@),
{
    let ghost c = toml::toml_contents(*doc);
    let mut errors: Vec<String> = Vec::new();
    assert(text::views(errors@) =~= Seq::<Seq<char>>::empty());
    let model = string_field(doc, alias, "model", &mut errors);
    let name = string_field(doc, alias, "name", &mut errors);
    let base_url = string_field(doc, alias, "base_url", &mut errors);
    let backend = string_field(doc, alias, "api_backend", &mut errors);
    assert(text::views(errors@) =~= field_errors_v(c, alias@));
    if !backend.as_str().is_empty() && !same(&backend, "responses") {
        add_line(&mut errors, text::owned("api_backend must be responses"));
    }
    let ghost second = field_errors_v(c, alias@) + backend_errors_v(backend@);
    assert(text::views(errors@) =~= second);
    let window: Option<i64> = field_int(doc, "model", alias, "context_window");
    if window.is_none() {
        add_line(&mut errors, text::owned("context_window must be an integer"));
    }
    let ghost third = second + window_errors_v(window);
    assert(text::views(errors@) =~= third);
    let key = field_text(doc, "model", alias, "api_key");
    let kind = match &key {
        Some(k) => if same(k, "unused") {
            proof {
                reveal_strlit("unused");
                assert("unused"@.len() == 6);
            }
            "unused"
        } else if !k.as_str().is_empty() {
            "present"
        } else {
            add_line(&mut errors, text::owned("api_key must be a non-empty string"));
            "missing"
        },
        None => {
            add_line(&mut errors, text::owned("api_key must be a non-empty string"));
            "missing"
        },
    };
    assert(text::views(errors@) =~= third + key_errors_v(text::opt_view(key)));
    assert(text::views(errors@) == errors_v(c, alias@));
    assert(text::views(errors@).len() == errors@.len());
    let (_, fast) = normalize_id(&model);
    ModelRecord {
        alias: text::owned(alias),
        model,
        name,
        base_url,
        service_tier: text::owned(tier(fast)),
        managed: is_managed(doc, alias),
        valid: errors.len() == 0,
        api_key: text::owned(kind),
        errors,
    }
}

/// The fields of a model's entry once it has been written.
pub open spec fn written_v(fields: TableV, spec: SpecV) -> TableV {
    let base = fields.insert("model"@, TomlV::Text(spec.effective_model)).insert(
        "name"@,
        TomlV::Text(spec.name),
    ).insert("description"@, TomlV::Text(spec.description)).insert(
        "base_url"@,
        TomlV::Text(spec.base_url),
    ).insert("api_backend"@, TomlV::Text("responses"@)).insert(
        "api_key"@,
        TomlV::Text(spec.api_key),
    ).insert("context_window"@, TomlV::Int(numbers::signed_v(spec.context_window)));
    if spec.reasoning_efforts.len() == 0 {
        base.remove("supports_reasoning_effort"@).remove("reasoning_efforts"@)
    } else {
        base.insert("supports_reasoning_effort"@, TomlV::Bool(true)).insert(
            "reasoning_efforts"@,
            TomlV::Texts(spec.reasoning_efforts),
        )
    }
}

/// What stands before a model's header once it has been marked.
pub open spec fn marked_v(prefix: Option<Seq<char>>) -> Option<Seq<char>> {
    match prefix {
        Some(p) => if text::contains_v(p, "Managed by grok-build-proxy"@) {
            Some(p)
        } else {
            Some("\n# Managed by grok-build-proxy\n"@)
        },
        None => Some("\n# Managed by grok-build-proxy\n"@),
    }
}

/// The document with a section for models that is a standard table.
pub open spec fn sectioned_v(c: TableV) -> Result<TableV, Seq<char>> {
    match toml::kind_v(toml::get_v(c, "model"@)) {
        Kind::Missing => Ok(c.insert("model"@, toml::empty_table_v())),
        Kind::Standard => Ok(c),
        Kind::Inline => Ok(toml::widened_v(c, "model"@)),
        Kind::Value => Err("`model` must be a TOML table"@),
    }
}

/// The entry of a model once it has been written and marked.
pub open spec fn written_entry_v(c: TableV, spec: SpecV) -> TomlV {
    let entry = entry_of(c, spec.alias);
    TomlV::Table {
        standard: true,
        prefix: marked_v(toml::prefix_of_v(entry)),
        entries: written_v(toml::entries_v(entry), spec),
    }
}

/// The document once a model has been written, or why it cannot be. Then too
/// the section for models is a standard table where it can be one.
pub open spec fn set_v(c: TableV, spec: SpecV) -> (TableV, Option<Seq<char>>) {
    match sectioned_v(c) {
        Err(e) => (c, Some(e)),
        Ok(c1) => match toml::kind_v(entry_of(c1, spec.alias)) {
            Kind::Inline | Kind::Value => (
                c1,
                Some("model alias `"@ + spec.alias + "` must be a TOML table"@),
            ),
            _ => (
                toml::put_entry_v(c1, "model"@, spec.alias, written_entry_v(c1, spec)),
                None,
            ),
        },
    }
}

/// The entry that was put in is the entry that is found, and a field put into
/// it is put into that entry.
proof fn put_again(c: TableV, alias: Seq<char>, item: TomlV)
    requires
        toml::is_standard_v(toml::get_v(c, "model"@)),
    ensures
        ({
            let d = toml::put_entry_v(c, "model"@, alias, item);
            &&& toml::is_standard_v(toml::get_v(d, "model"@))
            &&& entry_of(d, alias) == Some(item)
            &&& forall|other: TomlV| #[trigger]
                toml::put_entry_v(d, "model"@, alias, other) == toml::put_entry_v(
                    c,
                    "model"@,
                    alias,
                    other,
                )
        }),
{
    let d = toml::put_entry_v(c, "model"@, alias, item);
    assert forall|other: TomlV| #[trigger]
        toml::put_entry_v(d, "model"@, alias, other) == toml::put_entry_v(
            c,
            "model"@,
            alias,
            other,
        ) by {
        let e = toml::entries_v(toml::get_v(c, "model"@));
        assert(toml::entries_v(toml::get_v(d, "model"@)) == e.insert(alias, item));
        assert(e.insert(alias, item).insert(alias, other) =~= e.insert(alias, other));
        assert(toml::put_entry_v(d, "model"@, alias, other) =~= toml::put_entry_v(
            c,
            "model"@,
            alias,
            other,
        ));
    }
}

fn write_text(
    doc: &mut toml_edit::DocumentMut,
    Ghost(c): Ghost<TableV>,
    Ghost(item): Ghost<TomlV>,
    alias: &str,
    field: &str,
    value: &str,
)
    requires
        toml::is_standard_v(toml::get_v(c, "model"@)),
        toml::is_standard_v(Some(item)),
        toml::toml_contents(*old(doc)) == toml::put_entry_v(c, "model"@, alias@, item),
    ensures
        toml::toml_contents(*final(doc)) == toml::put_entry_v(
            c,
            "model"@,
            alias@,
            toml::with_entries_v(
                item,
                toml::entries_v(Some(item)).insert(field@, TomlV::Text(value@)),
            ),
        ),
{
    proof {
        put_again(c, alias@, item);
    }
    put_text(doc, "model", alias, field, value);
}

fn ready_section(doc: &mut toml_edit::DocumentMut) -> (r: Result<(), String>)
    ensures
        match sectioned_v(toml::toml_contents(*old(doc))) {
            Ok(c) => r is Ok && toml::toml_contents(*final(doc)) == c && toml::is_standard_v(
                toml::get_v(c, "model"@),
            ),
            Err(e) => r is Err && r->Err_0@ == e && toml::toml_contents(*final(doc))
                == toml::toml_contents(*old(doc)),
        },
{
    match section_kind(doc, "model") {
        Kind::Missing => {
            put_section(doc, "model");
            Ok(())
        },
        Kind::Standard => Ok(()),
        Kind::Inline => {
            widen_section(doc, "model");
            Ok(())
        },
        Kind::Value => Err(text::owned("`model` must be a TOML table")),
    }
}

/// Writes a model and marks it.
fn set_model(doc: &mut toml_edit::DocumentMut, spec: &ModelSpec) -> (r: Result<(), String>)
    ensures
        toml::toml_contents(*final(doc)) == set_v(toml::toml_contents(*old(doc)), spec@).0,
        match r {
            Ok(_) => set_v(toml::toml_contents(*old(doc)), spec@).1 is None,
            Err(e) => set_v(toml::toml_contents(*old(doc)), spec@).1 == Some(e@),
        },
{
    if let Err(e) = ready_section(doc) {
        return Err(e);
    }
    let ghost c = toml::toml_contents(*doc);
    let ghost entry = entry_of(c, spec@.alias);
    let alias: &String = &spec.alias;
    match entry_kind(doc, "model", alias) {
        Kind::Missing => {
            put_entry(doc, "model", alias);
        },
        Kind::Standard => {},
        _ => {
            return Err(text::cat3("model alias `", alias, "` must be a TOML table"));
        },
    }
    let ghost first = if entry is Some {
        entry->0
    } else {
        toml::empty_table_v()
    };
    proof {
        let e = toml::entries_v(toml::get_v(c, "model"@));
        if entry is Some {
            assert(e.insert(alias@, first) =~= e);
            assert(toml::put_entry_v(c, "model"@, alias@, first) =~= c);
        }
        put_again(c, alias@, first);
    }
    if !is_managed(doc, alias) {
        set_prefix(doc, "model", alias, "\n# Managed by grok-build-proxy\n");
    }
    let ghost fields = toml::entries_v(Some(first));
    let ghost prefix = marked_v(toml::prefix_of_v(Some(first)));
    let ghost base = TomlV::Table { standard: true, prefix, entries: fields };
    assert(toml::toml_contents(*doc) == toml::put_entry_v(c, "model"@, alias@, base));
    write_text(doc, Ghost(c), Ghost(base), alias, "model", &spec.effective_model);
    let ghost f1 = fields.insert("model"@, TomlV::Text(spec.effective_model@));
    let ghost i1 = toml::with_entries_v(base, f1);
    write_text(doc, Ghost(c), Ghost(i1), alias, "name", &spec.name);
    let ghost f2 = f1.insert("name"@, TomlV::Text(spec.name@));
    let ghost i2 = toml::with_entries_v(base, f2);
    write_text(doc, Ghost(c), Ghost(i2), alias, "description", &spec.description);
    let ghost f3 = f2.insert("description"@, TomlV::Text(spec.description@));
    let ghost i3 = toml::with_entries_v(base, f3);
    write_text(doc, Ghost(c), Ghost(i3), alias, "base_url", &spec.base_url);
    let ghost f4 = f3.insert("base_url"@, TomlV::Text(spec.base_url@));
    let ghost i4 = toml::with_entries_v(base, f4);
    write_text(doc, Ghost(c), Ghost(i4), alias, "api_backend", "responses");
    let ghost f5 = f4.insert("api_backend"@, TomlV::Text("responses"@));
    let ghost i5 = toml::with_entries_v(base, f5);
    write_text(doc, Ghost(c), Ghost(i5), alias, "api_key", &spec.api_key);
    let ghost f6 = f5.insert("api_key"@, TomlV::Text(spec.api_key@));
    let ghost i6 = toml::with_entries_v(base, f6);
    proof {
        put_again(c, alias@, i6);
    }
    put_int(doc, "model", alias, "context_window", signed(spec.context_window));
    let ghost f7 = f6.insert(
        "context_window"@,
        TomlV::Int(numbers::signed_v(spec.context_window)),
    );
    let ghost i7 = toml::with_entries_v(base, f7);
    proof {
        put_again(c, alias@, i7);
        assert(text::views(spec.reasoning_efforts@).len() == spec.reasoning_efforts@.len());
    }
    if spec.reasoning_efforts.len() == 0 {
        remove_field(doc, "model", alias, "supports_reasoning_effort");
        proof {
            put_again(
                c,
                alias@,
                toml::with_entries_v(base, f7.remove("supports_reasoning_effort"@)),
            );
        }
        remove_field(doc, "model", alias, "reasoning_efforts");
    } else {
        put_bool(doc, "model", alias, "supports_reasoning_effort", true);
        proof {
            put_again(
                c,
                alias@,
                toml::with_entries_v(
                    base,
                    f7.insert("supports_reasoning_effort"@, TomlV::Bool(true)),
                ),
            );
        }
        put_texts(doc, "model", alias, "reasoning_efforts", &spec.reasoning_efforts);
    }
    Ok(())
}

/// The models of this proxy, in the order of their names, each once.
pub open spec fn records_v(c: TableV, records: Seq<RecordV>) -> bool {
    &&& forall|i: int, j: int|
        0 <= i < j < records.len() ==> text::less_v(
            (#[trigger] records[i]).alias,
            (#[trigger] records[j]).alias,
        )
    &&& forall|i: int|
        0 <= i < records.len() ==> proxied_v(c, (#[trigger] records[i]).alias) && records[i]
            == record_v(c, records[i].alias)
    &&& forall|alias: Seq<char>| #[trigger] proxied_v(c, alias) ==> listed_v(records, alias)
}

pub open spec fn listed_v(records: Seq<RecordV>, alias: Seq<char>) -> bool {
    exists|i: int| 0 <= i < records.len() && (#[trigger] records[i]).alias == alias
}

pub open spec fn views(s: Seq<ModelRecord>) -> Seq<RecordV> {
    s.map_values(|r: ModelRecord| r@)
}

/// The place of a name in a list of records that is in order.
fn place_of(records: &Vec<ModelRecord>, alias: &str) -> (r: usize)
    requires
        forall|i: int, j: int|
            0 <= i < j < records@.len() ==> text::less_v(
                (#[trigger] records@[i]).alias@,
                (#[trigger] records@[j]).alias@,
            ),
        forall|i: int| 0 <= i < records@.len() ==> (#[trigger] records@[i]).alias@ != alias@,
    ensures
        r <= records@.len(),
        forall|i: int| 0 <= i < r ==> text::less_v((#[trigger] records@[i]).alias@, alias@),
        forall|i: int|
            r <= i < records@.len() ==> text::less_v(alias@, (#[trigger] records@[i]).alias@),
{
    let mut k: usize = 0;
    while k < records.len() && text::less(&records[k].alias, alias)
        invariant
            k <= records@.len(),
            forall|i: int| 0 <= i < k ==> text::less_v((#[trigger] records@[i]).alias@, alias@),
        decreases records@.len() - k,
    {
        k += 1;
    }
    proof {
        if k < records@.len() {
            text::less_total(records@[k as int].alias@, alias@);
            assert forall|i: int| k <= i < records@.len() implies text::less_v(
                alias@,
                (#[trigger] records@[i]).alias@,
            ) by {
                if i > k {
                    assert(text::less_v(records@[k as int].alias@, records@[i].alias@));
                    text::less_trans(alias@, records@[k as int].alias@, records@[i].alias@);
                }
            }
        }
    }
    k
}


fn list_records(doc: &toml_edit::DocumentMut) -> (r: Vec<ModelRecord>)
    ensures
        records_v(toml::toml_contents(*doc), views(r@)),
{
    let ghost c = toml::toml_contents(*doc);
    let names = entry_names(doc, "model");
    let ghost all = text::views(names@);
    let ghost entries = toml::entries_v(toml::get_v(c, "model"@));
    let mut out: Vec<ModelRecord> = Vec::new();
    let mut k: usize = 0;
    while k < names.len()
        invariant
            k <= names@.len(),
            c == toml::toml_contents(*doc),
            all == text::views(names@),
            toml::keys_v(all, entries),
            forall|i: int, j: int|
                0 <= i < j < out@.len() ==> text::less_v(
                    (#[trigger] out@[i]).alias@,
                    (#[trigger] out@[j]).alias@,
                ),
            forall|i: int|
                0 <= i < out@.len() ==> proxied_v(c, (#[trigger] out@[i]).alias@) && out@[i]@
                    == record_v(c, out@[i].alias@) && all.take(k as int).contains(out@[i].alias@),
            forall|m: int|
                0 <= m < k && proxied_v(c, #[trigger] all[m]) ==> exists|i: int|
                    0 <= i < out@.len() && (#[trigger] out@[i]).alias@ == all[m],
        decreases names@.len() - k,
    {
        let name: &String = &names[k];
        assert(all[k as int] == name@);
        proof {
            assert forall|i: int| 0 <= i < out@.len() implies (#[trigger] out@[i]).alias@
                != name@ by {
                let m = choose|m: int|
                    0 <= m < all.take(k as int).len() && all.take(k as int)[m] == out@[i].alias@;
                assert(all[m] == out@[i].alias@);
            }
            assert forall|i: int| 0 <= i < out@.len() implies all.take(k + 1).contains(
                (#[trigger] out@[i]).alias@,
            ) by {
                let m = choose|m: int|
                    0 <= m < all.take(k as int).len() && all.take(k as int)[m] == out@[i].alias@;
                assert(all.take(k + 1)[m] == out@[i].alias@);
            }
        }
        if is_proxied(doc, name) {
            let at: usize = place_of(&out, name);
            let one = record_of(doc, name);
            let ghost before = out@;
            out.insert(at, one);
            proof {
                assert(out@ =~= before.insert(at as int, one));
                assert(all.take(k + 1)[k as int] == name@);
                assert forall|m: int|
                    0 <= m < k + 1 && proxied_v(c, #[trigger] all[m]) implies exists|i: int|
                    0 <= i < out@.len() && (#[trigger] out@[i]).alias@ == all[m] by {
                    if m == k {
                        assert(out@[at as int].alias@ == all[m]);
                    } else {
                        let i = choose|i: int|
                            0 <= i < before.len() && (#[trigger] before[i]).alias@ == all[m];
                        if i < at {
                            assert(out@[i].alias@ == all[m]);
                        } else {
                            assert(out@[i + 1].alias@ == all[m]);
                        }
                    }
                }
            }
        }
        k += 1;
    }
    proof {
        let rs = views(out@);
        assert forall|alias: Seq<char>| #[trigger] proxied_v(c, alias) implies listed_v(
            rs,
            alias,
        ) by {
            assert(entries.contains_key(alias));
            let m = choose|m: int| 0 <= m < all.len() && all[m] == alias;
            let i = choose|i: int| 0 <= i < out@.len() && (#[trigger] out@[i]).alias@ == all[m];
            assert(rs[i].alias == alias);
        }
        assert forall|i: int, j: int| 0 <= i < j < rs.len() implies text::less_v(
            (#[trigger] rs[i]).alias,
            (#[trigger] rs[j]).alias,
        ) by {
            assert(text::less_v(out@[i].alias@, out@[j].alias@));
        }
        assert forall|i: int| 0 <= i < rs.len() implies proxied_v(c, (#[trigger] rs[i]).alias)
            && rs[i] == record_v(c, rs[i].alias) by {
            assert(rs[i] == out@[i]@);
        }
    }
    out
}

pub open spec fn alias_text_v(alias: Seq<char>, rest: Seq<char>) -> Seq<char> {
    "model alias `"@ + alias + rest
}

fn alias_text(alias: &str, rest: &str) -> (r: String)
    ensures
        r@ == alias_text_v(alias@, rest@),
{
    text::cat3("model alias `", alias, rest)
}

/// What is read of a model, or why nothing can be.
pub open spec fn find_v(c: TableV, alias: Seq<char>) -> Result<RecordV, Seq<char>> {
    match entry_of(c, alias) {
        None => Err(alias_text_v(alias, "` is not configured"@)),
        Some(item) => if toml::is_table_v(Some(item)) {
            Ok(record_v(c, alias))
        } else {
            Err(alias_text_v(alias, "` is not a TOML table"@))
        },
    }
}

pub open spec fn record_result(r: Result<ModelRecord, String>) -> Result<RecordV, Seq<char>> {
    match r {
        Ok(x) => Ok(x@),
        Err(e) => Err(e@),
    }
}

/// The key of a model, as it is written.
pub open spec fn raw_key_v(c: TableV, alias: Seq<char>) -> Result<Seq<char>, Seq<char>> {
    if entry_of(c, alias) is None {
        Err(alias_text_v(alias, "` is not configured"@))
    } else {
        match text_in(c, alias, "api_key"@) {
            Some(k) => Ok(k),
            None => Err(alias_text_v(alias, "` has no string api_key"@)),
        }
    }
}

pub open spec fn text_result(r: Result<String, String>) -> Result<Seq<char>, Seq<char>> {
    match r {
        Ok(x) => Ok(x@),
        Err(e) => Err(e@),
    }
}

/// A key that a model of this proxy at `base_url` has.
pub open spec fn key_at_v(c: TableV, base_url: Seq<char>, alias: Seq<char>, key: Seq<char>) -> bool {
    proxied_v(c, alias) && record_v(c, alias).base_url == base_url && text_in(c, alias, "api_key"@)
        == Some(key) && key.len() > 0 && key != "unused"@
}

pub open spec fn offered_v(c: TableV, base_url: Seq<char>, key: Seq<char>) -> bool {
    exists|alias: Seq<char>| #[trigger] key_at_v(c, base_url, alias, key)
}

pub open spec fn keys_differ_v(base_url: Seq<char>) -> Seq<char> {
    "proxy models for `"@ + base_url
        + "` use different API keys; set GROK_BUILD_PROXY_TOKEN explicitly"@
}

/// The key that the models at `base_url` share: none where they have none, and
/// an error where they have several.
pub open spec fn inherits_v(
    c: TableV,
    base_url: Seq<char>,
    r: Result<Option<Seq<char>>, Seq<char>>,
) -> bool {
    match r {
        Ok(None) => forall|k: Seq<char>| !#[trigger] offered_v(c, base_url, k),
        Ok(Some(key)) => offered_v(c, base_url, key) && forall|k: Seq<char>| #[trigger]
            offered_v(c, base_url, k) ==> k == key,
        Err(e) => e == keys_differ_v(base_url) && exists|a: Seq<char>, b: Seq<char>|
            a != b && #[trigger] offered_v(c, base_url, a) && #[trigger] offered_v(c, base_url, b),
    }
}

pub open spec fn inherited_result(r: Result<Option<String>, String>) -> Result<
    Option<Seq<char>>,
    Seq<char>,
> {
    match r {
        Ok(k) => Ok(text::opt_view(k)),
        Err(e) => Err(e@),
    }
}

/// A change to a model in a line.
pub open spec fn change_v(word: Seq<char>, spec: SpecV) -> Seq<char> {
    word + spec.alias + " -> "@ + spec.effective_model + " ("@ + grokconfig::tier_v(spec.fast)
        + ")"@
}

fn change_line(word: &str, spec: &ModelSpec) -> (r: String)
    ensures
        r@ == change_v(word@, spec@),
{
    let mut line = text::cat3(word, &spec.alias, " -> ");
    line.push_str(&spec.effective_model);
    line.push_str(" (");
    line.push_str(tier(spec.fast));
    line.push_str(")");
    line
}

fn one_change(line: String) -> (r: ChangeSet)
    ensures
        r@ == seq![line@],
{
    let mut changes: Vec<String> = Vec::new();
    changes.push(line);
    assert(text::views(changes@) =~= seq![line@]);
    ChangeSet { changes }
}

/// Adding a model: the document after it, and why it is not added.
pub open spec fn add_v(c: TableV, spec: SpecV) -> (TableV, Option<Seq<char>>) {
    if entry_of(c, spec.alias) is Some {
        (c, Some(alias_text_v(spec.alias, "` already exists; use `models update`"@)))
    } else {
        set_v(c, spec)
    }
}

/// Updating a model: the document after it, and why it is not updated.
pub open spec fn update_v(c: TableV, spec: SpecV) -> (TableV, Option<Seq<char>>) {
    match find_v(c, spec.alias) {
        Err(e) => (c, Some(e)),
        Ok(_) => if !proxied_v(c, spec.alias) {
            (
                c,
                Some(
                    alias_text_v(
                        spec.alias,
                        "` is not a proxy-backed model and will not be modified"@,
                    ),
                ),
            )
        } else {
            set_v(c, spec)
        },
    }
}

pub open spec fn update_line_v(before: RecordV, after: RecordV) -> Seq<char> {
    "update "@ + before.alias + ": "@ + before.model + " ("@ + before.service_tier + ") -> "@
        + after.model + " ("@ + after.service_tier + ")"@
}

/// Removing a model: the document after it, and why it is not removed.
pub open spec fn remove_v(c: TableV, alias: Seq<char>) -> (TableV, Option<Seq<char>>) {
    match find_v(c, alias) {
        Err(e) => (c, Some(e)),
        Ok(_) => if !proxied_v(c, alias) {
            (c, Some(alias_text_v(alias, "` is not managed by this proxy"@)))
        } else {
            (toml::drop_entry_v(c, "model"@, alias), None)
        },
    }
}

/// Writing a model that is kept in step with the catalog: the document after
/// it, and why it is not written.
pub open spec fn sync_one_v(c: TableV, spec: SpecV) -> (TableV, Option<Seq<char>>) {
    match find_v(c, spec.alias) {
        Err(e) => if entry_of(c, spec.alias) is None {
            set_v(c, spec)
        } else {
            (c, Some(e))
        },
        Ok(_) => if !proxied_v(c, spec.alias) {
            (c, Some(alias_text_v(spec.alias, "` conflicts with a non-proxy model"@)))
        } else if !managed_v(c, spec.alias) {
            (
                c,
                Some(
                    alias_text_v(
                        spec.alias,
                        "` is proxy-backed but manually managed; use `models update` or remove it before sync"@,
                    ),
                ),
            )
        } else {
            set_v(c, spec)
        },
    }
}

/// Writing all models, up to the first that cannot be written.
pub open spec fn sync_all_v(c: TableV, specs: Seq<SpecV>) -> (TableV, Option<Seq<char>>)
    decreases specs.len(),
{
    if specs.len() == 0 {
        (c, None)
    } else {
        let (before, error) = sync_all_v(c, specs.drop_last());
        if error is Some {
            (before, error)
        } else {
            sync_one_v(before, specs.last())
        }
    }
}

/// What is told of a model that has been written; `before` and `after` are the
/// texts of the document.
pub open spec fn sync_line_v(c: TableV, spec: SpecV, before: Seq<char>, after: Seq<char>) -> Seq<
    Seq<char>,
> {
    if entry_of(c, spec.alias) is None {
        seq![change_v("add "@, spec)]
    } else if before != after {
        seq![change_v("update "@, spec)]
    } else {
        Seq::empty()
    }
}

/// What is told of all models; `docs` are the documents in between.
pub open spec fn sync_lines_v(
    c: TableV,
    specs: Seq<SpecV>,
    docs: Seq<toml_edit::DocumentMut>,
) -> Seq<Seq<char>>
    decreases specs.len(),
{
    if specs.len() == 0 {
        Seq::empty()
    } else {
        let n = specs.len() as int;
        sync_lines_v(c, specs.drop_last(), docs) + sync_line_v(
            sync_all_v(c, specs.drop_last()).0,
            specs.last(),
            toml::toml_text(docs[n - 1]),
            toml::toml_text(docs[n]),
        )
    }
}

/// The documents that writing models goes through, from `first` on.
pub open spec fn passed_v(
    first: toml_edit::DocumentMut,
    specs: Seq<SpecV>,
    docs: Seq<toml_edit::DocumentMut>,
) -> bool {
    &&& docs.len() == specs.len() + 1
    &&& docs[0] == first
    &&& forall|i: int|
        0 <= i < docs.len() ==> toml::toml_contents(#[trigger] docs[i]) == sync_all_v(
            toml::toml_contents(first),
            specs.take(i),
        ).0
}

proof fn lines_of_prefix(
    c: TableV,
    specs: Seq<SpecV>,
    docs: Seq<toml_edit::DocumentMut>,
    more: toml_edit::DocumentMut,
)
    requires
        docs.len() > specs.len(),
    ensures
        sync_lines_v(c, specs, docs.push(more)) == sync_lines_v(c, specs, docs),
    decreases specs.len(),
{
    if specs.len() > 0 {
        lines_of_prefix(c, specs.drop_last(), docs, more);
    }
}

proof fn sync_errors_stay(c: TableV, specs: Seq<SpecV>, k: int)
    requires
        0 <= k <= specs.len(),
        sync_all_v(c, specs.take(k)).1 is Some,
    ensures
        sync_all_v(c, specs) == sync_all_v(c, specs.take(k)),
    decreases specs.len(),
{
    if k == specs.len() {
        assert(specs.take(k) =~= specs);
    } else {
        assert(specs.drop_last().take(k) =~= specs.take(k));
        sync_errors_stay(c, specs.drop_last(), k);
    }
}

/// A model that this proxy has written, and that is no longer wanted.
pub open spec fn stale_v(c: TableV, specs: Seq<SpecV>, alias: Seq<char>) -> bool {
    proxied_v(c, alias) && managed_v(c, alias) && !grokconfig::taken_v(specs, alias)
}

/// All of these, in the order of their names.
pub open spec fn stales_v(c: TableV, specs: Seq<SpecV>, stale: Seq<Seq<char>>) -> bool {
    &&& forall|i: int, j: int|
        0 <= i < j < stale.len() ==> text::less_v(#[trigger] stale[i], #[trigger] stale[j])
    &&& forall|i: int| 0 <= i < stale.len() ==> stale_v(c, specs, #[trigger] stale[i])
    &&& forall|alias: Seq<char>| #[trigger] stale_v(c, specs, alias) ==> stale.contains(alias)
}

pub open spec fn drop_all_v(c: TableV, aliases: Seq<Seq<char>>) -> TableV
    decreases aliases.len(),
{
    if aliases.len() == 0 {
        c
    } else {
        toml::drop_entry_v(drop_all_v(c, aliases.drop_last()), "model"@, aliases.last())
    }
}

pub open spec fn stale_lines_v(aliases: Seq<Seq<char>>) -> Seq<Seq<char>> {
    aliases.map_values(|a: Seq<char>| "remove stale managed model "@ + a)
}

/// What keeping the models in step comes to, where it succeeds: the document
/// `last`, and what is told.
pub open spec fn synced_v(
    first: toml_edit::DocumentMut,
    specs: Seq<SpecV>,
    prune: bool,
    last: toml_edit::DocumentMut,
    changes: Seq<Seq<char>>,
    docs: Seq<toml_edit::DocumentMut>,
    stale: Seq<Seq<char>>,
) -> bool {
    let c = toml::toml_contents(first);
    let written = sync_all_v(c, specs).0;
    &&& passed_v(first, specs, docs)
    &&& if prune {
        stales_v(written, specs, stale)
    } else {
        stale.len() == 0 && docs.last() == last
    }
    &&& toml::toml_contents(last) == drop_all_v(written, stale)
    &&& changes == sync_lines_v(c, specs, docs) + stale_lines_v(stale)
}

/// The same, whichever documents it went through.
pub open spec fn in_step_v(
    first: toml_edit::DocumentMut,
    specs: Seq<SpecV>,
    prune: bool,
    last: toml_edit::DocumentMut,
    changes: Seq<Seq<char>>,
) -> bool {
    exists|docs: Seq<toml_edit::DocumentMut>, stale: Seq<Seq<char>>| #[trigger]
        synced_v(first, specs, prune, last, changes, docs, stale)
}

/// What is to be written to the file, and whether its old text is kept.
#[derive(Debug)]
pub struct Commit {
    pub text: String,
    pub backup: bool,
}

/// Why a configuration cannot be read: what was tried, and what the parser says.
#[derive(Debug)]
pub struct LoadError {
    pub message: String,
    pub cause: String,
}

pub open spec fn load_message_v(path: Seq<char>) -> Seq<char> {
    "parse "@ + path + " as TOML"@
}

/// The document in a text; a blank one holds nothing.
pub open spec fn loaded_v(text: Seq<char>) -> Result<TableV, Seq<char>> {
    if text::trim_v(text).len() == 0 {
        Ok(toml::no_items_v())
    } else {
        toml::parsed_toml(text)
    }
}

impl GrokConfig {
    pub closed spec fn view(&self) -> ConfigV {
        ConfigV { path: self.path@, original: self.original@, document: self.document }
    }

    /// The configuration in the text of the file `path`; without a file the
    /// text is empty.
    pub fn load(path: &str, original: String) -> (r: Result<GrokConfig, LoadError>)
        ensures
            match loaded_v(original@) {
                Ok(c) => r is Ok && r->Ok_0@.path == path@ && r->Ok_0@.original == original@
                    && r->Ok_0@.contents() == c,
                Err(e) => r is Err && r->Err_0.message@ == load_message_v(path@)
                    && r->Err_0.cause@ == e,
            },
    {
        if text::trim(&original).as_str().is_empty() {
            return Ok(GrokConfig { path: text::owned(path), original, document: empty_document() });
        }
        match toml::parse(&original) {
            Ok(document) => Ok(GrokConfig { path: text::owned(path), original, document }),
            Err(cause) => Err(LoadError { message: text::cat3("parse ", path, " as TOML"), cause }),
        }
    }

    pub fn path(&self) -> (r: &str)
        ensures
            r@ == self@.path,
    {
        self.path.as_str()
    }

    /// The models of this proxy, in the order of their names.
    pub fn records(&self) -> (r: Vec<ModelRecord>)
        ensures
            records_v(self@.contents(), views(r@)),
    {
        list_records(&self.document)
    }

    /// What is read of a model.
    pub fn record(&self, alias: &str) -> (r: Result<ModelRecord, String>)
        ensures
            record_result(r) == find_v(self@.contents(), alias@),
    {
        match entry_kind(&self.document, "model", alias) {
            Kind::Missing => Err(alias_text(alias, "` is not configured")),
            Kind::Value => Err(alias_text(alias, "` is not a TOML table")),
            _ => Ok(record_of(&self.document, alias)),
        }
    }

    /// The key of a model, as it is written.
    pub fn raw_api_key(&self, alias: &str) -> (r: Result<String, String>)
        ensures
            text_result(r) == raw_key_v(self@.contents(), alias@),
    {
        match entry_kind(&self.document, "model", alias) {
            Kind::Missing => Err(alias_text(alias, "` is not configured")),
            _ => match field_text(&self.document, "model", alias, "api_key") {
                Some(k) => Ok(k),
                None => Err(alias_text(alias, "` has no string api_key")),
            },
        }
    }

    /// The number under a field of a model.
    pub fn field_number(&self, alias: &str, field: &str) -> (r: Option<i64>)
        ensures
            r == toml::int_of_v(toml::field_v(self@.contents(), "model"@, alias@, field@)),
    {
        field_int(&self.document, "model", alias, field)
    }

    /// The key that the models at `base_url` share, if they have one.
    pub fn inherited_api_key(&self, base_url: &str) -> (r: Result<Option<String>, String>)
        ensures
            inherits_v(self@.contents(), base_url@, inherited_result(r)),
    {
        let ghost c = self@.contents();
        let records = list_records(&self.document);
        let ghost rs = views(records@);
        let mut found: Option<String> = None;
        let mut i: usize = 0;
        while i < records.len()
            invariant
                i <= records@.len(),
                c == self@.contents(),
                rs == views(records@),
                records_v(c, rs),
                match found {
                    Some(key) => offered_v(c, base_url@, key@) && forall|m: int, k: Seq<char>|
                        0 <= m < i && #[trigger] key_at_v(c, base_url@, rs[m].alias, k) ==> k
                            == key@,
                    None => forall|m: int, k: Seq<char>|
                        0 <= m < i ==> !#[trigger] key_at_v(c, base_url@, rs[m].alias, k),
                },
            decreases records@.len() - i,
        {
            assert(rs[i as int] == records@[i as int]@);
            if same(&records[i].base_url, base_url) {
                if let Some(key) = field_text(&self.document, "model", &records[i].alias, "api_key") {
                    if !key.as_str().is_empty() && !same(&key, "unused") {
                        assert(key_at_v(c, base_url@, rs[i as int].alias, key@));
                        match &found {
                            None => {
                                found = Some(key);
                            },
                            Some(other) => {
                                if !same(other, &key) {
                                    assert(offered_v(c, base_url@, other@));
                                    assert(offered_v(c, base_url@, key@));
                                    return Err(
                                        text::cat3(
                                            "proxy models for `",
                                            base_url,
                                            "` use different API keys; set GROK_BUILD_PROXY_TOKEN explicitly",
                                        ),
                                    );
                                }
                            },
                        }
                    }
                }
            }
            i += 1;
        }
        proof {
            assert(rs.len() == records@.len());
            assert forall|k: Seq<char>, alias: Seq<char>| #[trigger]
                key_at_v(c, base_url@, alias, k) implies found is Some && found->0@ == k by {
                assert(listed_v(rs, alias));
                let m = choose|m: int| 0 <= m < rs.len() && (#[trigger] rs[m]).alias == alias;
                assert(key_at_v(c, base_url@, rs[m].alias, k));
            }
        }
        Ok(found)
    }

    /// Adds a model.
    pub fn add(&mut self, spec: &ModelSpec) -> (r: Result<ChangeSet, String>)
        ensures
            final(self)@.path == old(self)@.path,
            final(self)@.original == old(self)@.original,
            final(self)@.contents() == add_v(old(self)@.contents(), spec@).0,
            match r {
                Ok(cs) => add_v(old(self)@.contents(), spec@).1 is None && cs@ == seq![
                    change_v("add "@, spec@),
                ],
                Err(e) => add_v(old(self)@.contents(), spec@).1 == Some(e@),
            },
    {
        match entry_kind(&self.document, "model", &spec.alias) {
            Kind::Missing => {},
            _ => {
                return Err(alias_text(&spec.alias, "` already exists; use `models update`"));
            },
        }
        match set_model(&mut self.document, spec) {
            Err(e) => Err(e),
            Ok(_) => Ok(one_change(change_line("add ", spec))),
        }
    }

    /// Updates a model of this proxy. It is told unless the text stays the same.
    pub fn update(&mut self, spec: &ModelSpec) -> (r: Result<ChangeSet, String>)
        ensures
            final(self)@.path == old(self)@.path,
            final(self)@.original == old(self)@.original,
            final(self)@.contents() == update_v(old(self)@.contents(), spec@).0,
            match r {
                Ok(cs) => update_v(old(self)@.contents(), spec@).1 is None && cs@ == (
                if toml::toml_text(old(self)@.document) == toml::toml_text(final(self)@.document) {
                    Seq::empty()
                } else {
                    seq![
                        update_line_v(
                            record_v(old(self)@.contents(), spec@.alias),
                            record_v(final(self)@.contents(), spec@.alias),
                        ),
                    ]
                }),
                Err(e) => update_v(old(self)@.contents(), spec@).1 == Some(e@),
            },
    {
        let before = match self.record(&spec.alias) {
            Err(e) => {
                return Err(e);
            },
            Ok(b) => b,
        };
        let rendered = render(&self.document);
        if !is_proxied(&self.document, &spec.alias) {
            return Err(
                alias_text(
                    &spec.alias,
                    "` is not a proxy-backed model and will not be modified",
                ),
            );
        }
        if let Err(e) = set_model(&mut self.document, spec) {
            return Err(e);
        }
        if same(&rendered, &render(&self.document)) {
            let none = ChangeSet::default();
            assert(none@ =~= Seq::empty());
            return Ok(none);
        }
        let after = record_of(&self.document, &spec.alias);
        let mut line = text::cat3("update ", &before.alias, ": ");
        line.push_str(&before.model);
        line.push_str(" (");
        line.push_str(&before.service_tier);
        line.push_str(") -> ");
        line.push_str(&after.model);
        line.push_str(" (");
        line.push_str(&after.service_tier);
        line.push_str(")");
        Ok(one_change(line))
    }

    /// Removes a model of this proxy.
    pub fn remove(&mut self, alias: &str) -> (r: Result<ChangeSet, String>)
        ensures
            final(self)@.path == old(self)@.path,
            final(self)@.original == old(self)@.original,
            final(self)@.contents() == remove_v(old(self)@.contents(), alias@).0,
            match r {
                Ok(cs) => remove_v(old(self)@.contents(), alias@).1 is None && cs@ == seq![
                    "remove "@ + alias@,
                ],
                Err(e) => remove_v(old(self)@.contents(), alias@).1 == Some(e@),
            },
    {
        match entry_kind(&self.document, "model", alias) {
            Kind::Missing => {
                return Err(alias_text(alias, "` is not configured"));
            },
            Kind::Value => {
                return Err(alias_text(alias, "` is not a TOML table"));
            },
            _ => {},
        }
        if !is_proxied(&self.document, alias) {
            return Err(alias_text(alias, "` is not managed by this proxy"));
        }
        remove_entry(&mut self.document, "model", alias);
        Ok(one_change(text::cat("remove ", alias)))
    }

    /// Writes one of the models that are kept in step.
    fn sync_one(&mut self, spec: &ModelSpec) -> (r: Result<Vec<String>, String>)
        ensures
            final(self)@.path == old(self)@.path,
            final(self)@.original == old(self)@.original,
            final(self)@.contents() == sync_one_v(old(self)@.contents(), spec@).0,
            match r {
                Ok(lines) => sync_one_v(old(self)@.contents(), spec@).1 is None && text::views(
                    lines@,
                ) == sync_line_v(
                    old(self)@.contents(),
                    spec@,
                    toml::toml_text(old(self)@.document),
                    toml::toml_text(final(self)@.document),
                ),
                Err(e) => sync_one_v(old(self)@.contents(), spec@).1 == Some(e@),
            },
    {
        let mut lines: Vec<String> = Vec::new();
        assert(text::views(lines@) =~= Seq::<Seq<char>>::empty());
        match entry_kind(&self.document, "model", &spec.alias) {
            Kind::Missing => {
                if let Err(e) = set_model(&mut self.document, spec) {
                    return Err(e);
                }
                add_line(&mut lines, change_line("add ", spec));
                assert(text::views(lines@) =~= seq![change_v("add "@, spec@)]);
                return Ok(lines);
            },
            Kind::Value => {
                return Err(alias_text(&spec.alias, "` is not a TOML table"));
            },
            _ => {},
        }
        if !is_proxied(&self.document, &spec.alias) {
            return Err(alias_text(&spec.alias, "` conflicts with a non-proxy model"));
        }
        if !is_managed(&self.document, &spec.alias) {
            return Err(
                alias_text(
                    &spec.alias,
                    "` is proxy-backed but manually managed; use `models update` or remove it before sync",
                ),
            );
        }
        let rendered = render(&self.document);
        if let Err(e) = set_model(&mut self.document, spec) {
            return Err(e);
        }
        if !same(&rendered, &render(&self.document)) {
            add_line(&mut lines, change_line("update ", spec));
            assert(text::views(lines@) =~= seq![change_v("update "@, spec@)]);
        }
        Ok(lines)
    }

    /// The models that this proxy has written, and that are no longer wanted.
    fn stale(&self, specs: &Vec<ModelSpec>) -> (r: Vec<String>)
        ensures
            stales_v(self@.contents(), grokconfig::specs_v(specs@), text::views(r@)),
    {
        let ghost c = self@.contents();
        let ghost wanted = grokconfig::specs_v(specs@);
        let records = list_records(&self.document);
        let ghost rs = views(records@);
        let mut out: Vec<String> = Vec::new();
        let mut k: usize = 0;
        while k < records.len()
            invariant
                k <= records@.len(),
                c == self@.contents(),
                wanted == grokconfig::specs_v(specs@),
                rs == views(records@),
                records_v(c, rs),
                forall|i: int, j: int|
                    0 <= i < j < out@.len() ==> text::less_v(
                        (#[trigger] out@[i])@,
                        (#[trigger] out@[j])@,
                    ),
                forall|i: int|
                    0 <= i < out@.len() ==> stale_v(c, wanted, (#[trigger] out@[i])@) && exists|
                        m: int,
                    |
                        0 <= m < k && (#[trigger] rs[m]).alias == out@[i]@,
                forall|m: int|
                    0 <= m < k && stale_v(c, wanted, (#[trigger] rs[m]).alias) ==> exists|i: int|
                        0 <= i < out@.len() && (#[trigger] out@[i])@ == rs[m].alias,
            decreases records@.len() - k,
        {
            assert(rs[k as int] == records@[k as int]@);
            if records[k].managed && !grokconfig::is_taken(specs, &records[k].alias) {
                let own = text::owned(&records[k].alias);
                let ghost before = out@;
                proof {
                    assert(stale_v(c, wanted, own@));
                    assert forall|i: int| 0 <= i < before.len() implies text::less_v(
                        (#[trigger] before[i])@,
                        own@,
                    ) by {
                        let m = choose|m: int|
                            0 <= m < k && (#[trigger] rs[m]).alias == before[i]@;
                        assert(text::less_v(rs[m].alias, rs[k as int].alias));
                    }
                }
                out.push(own);
                proof {
                    assert(out@ =~= before.push(own));
                    assert forall|m: int|
                        0 <= m < k + 1 && stale_v(c, wanted, (#[trigger] rs[m]).alias) implies exists|
                        i: int,
                    |
                        0 <= i < out@.len() && (#[trigger] out@[i])@ == rs[m].alias by {
                        if m == k {
                            assert(out@[before.len() as int]@ == rs[m].alias);
                        } else {
                            let i = choose|i: int|
                                0 <= i < before.len() && (#[trigger] before[i])@ == rs[m].alias;
                            assert(out@[i]@ == rs[m].alias);
                        }
                    }
                }
            }
            k += 1;
        }
        proof {
            let all = text::views(out@);
            assert forall|alias: Seq<char>| #[trigger] stale_v(c, wanted, alias) implies all.contains(
                alias,
            ) by {
                assert(listed_v(rs, alias));
                let m = choose|m: int| 0 <= m < rs.len() && (#[trigger] rs[m]).alias == alias;
                let i = choose|i: int|
                    0 <= i < out@.len() && (#[trigger] out@[i])@ == rs[m].alias;
                assert(all[i] == alias);
            }
            assert forall|i: int, j: int| 0 <= i < j < all.len() implies text::less_v(
                #[trigger] all[i],
                #[trigger] all[j],
            ) by {
                assert(text::less_v(out@[i]@, out@[j]@));
            }
            assert forall|i: int| 0 <= i < all.len() implies stale_v(
                c,
                wanted,
                #[trigger] all[i],
            ) by {
                assert(all[i] == out@[i]@);
            }
        }
        out
    }

    /// Brings the models that this proxy writes in step with `specs`, and with
    /// `prune` removes those that are no longer wanted. Models that it has not
    /// written are not touched.
    pub fn sync(&mut self, specs: &Vec<ModelSpec>, prune: bool) -> (r: Result<ChangeSet, String>)
        ensures
            final(self)@.path == old(self)@.path,
            final(self)@.original == old(self)@.original,
            match r {
                Err(e) => sync_all_v(old(self)@.contents(), grokconfig::specs_v(specs@)).1 == Some(
                    e@,
                ) && final(self)@.contents() == sync_all_v(
                    old(self)@.contents(),
                    grokconfig::specs_v(specs@),
                ).0,
                Ok(cs) => sync_all_v(old(self)@.contents(), grokconfig::specs_v(specs@)).1 is None
                    && in_step_v(
                    old(self)@.document,
                    grokconfig::specs_v(specs@),
                    prune,
                    final(self)@.document,
                    cs@,
                ),
            },
    {
        let ghost first = self@.document;
        let ghost c = toml::toml_contents(first);
        let ghost all = grokconfig::specs_v(specs@);
        let ghost mut docs: Seq<toml_edit::DocumentMut> = seq![first];
        let mut changes: Vec<String> = Vec::new();
        let mut i: usize = 0;
        proof {
            assert(all.take(0) =~= Seq::<SpecV>::empty());
            assert(text::views(changes@) =~= Seq::<Seq<char>>::empty());
        }
        while i < specs.len()
            invariant
                i <= specs@.len(),
                all == grokconfig::specs_v(specs@),
                c == toml::toml_contents(first),
                self@.path == old(self)@.path,
                self@.original == old(self)@.original,
                docs.len() == i + 1,
                docs[0] == first,
                docs.last() == self@.document,
                forall|k: int|
                    0 <= k < docs.len() ==> toml::toml_contents(#[trigger] docs[k]) == sync_all_v(
                        c,
                        all.take(k),
                    ).0,
                sync_all_v(c, all.take(i as int)).1 is None,
                text::views(changes@) == sync_lines_v(c, all.take(i as int), docs),
                first == old(self)@.document,
            decreases specs@.len() - i,
        {
            let ghost head = all.take(i + 1);
            let ghost told = text::views(changes@);
            proof {
                assert(head.drop_last() =~= all.take(i as int));
                assert(all[i as int] == specs@[i as int]@);
                assert(head.last() == specs@[i as int]@);
            }
            let ghost before = docs.last();
            let mut lines = match self.sync_one(&specs[i]) {
                Err(e) => {
                    proof {
                        sync_errors_stay(c, all, i + 1);
                    }
                    return Err(e);
                },
                Ok(lines) => lines,
            };
            let ghost more = text::views(lines@);
            proof {
                lines_of_prefix(c, all.take(i as int), docs, self@.document);
                docs = docs.push(self@.document);
                assert(docs[i as int] == before);
                assert(docs[i + 1] == self@.document);
                assert(sync_lines_v(c, head, docs) == told + more);
                assert(text::views(changes@ + lines@) =~= told + more);
            }
            changes.append(&mut lines);
            i += 1;
        }
        proof {
            assert(all.len() == specs@.len());
            assert(all.take(i as int) =~= all);
            assert forall|k: int| 0 <= k < docs.len() implies toml::toml_contents(#[trigger] docs[k])
                == sync_all_v(toml::toml_contents(first), all.take(k)).0 by {}
        }
        let ghost written = sync_all_v(c, all).0;
        let ghost told = text::views(changes@);
        if !prune {
            let out = ChangeSet { changes };
            proof {
                let none = Seq::<Seq<char>>::empty();
                assert(stale_lines_v(none) =~= none);
                assert(told + none =~= told);
                assert(out@ == told);
                assert(synced_v(first, all, prune, self@.document, out@, docs, none));
                assert(in_step_v(first, all, prune, self@.document, out@));
            }
            return Ok(out);
        }
        let stale = self.stale(specs);
        let ghost names = text::views(stale@);
        let mut k: usize = 0;
        proof {
            assert(names.take(0) =~= Seq::<Seq<char>>::empty());
            assert(stale_lines_v(names.take(0)) =~= Seq::<Seq<char>>::empty());
            assert(told + Seq::<Seq<char>>::empty() =~= told);
            if names.len() > 0 {
                assert(stale_v(written, all, names[0]));
                assert(toml::is_table_v(toml::get_v(written, "model"@)));
            }
        }
        while k < stale.len()
            invariant
                k <= stale@.len(),
                names == text::views(stale@),
                self@.path == old(self)@.path,
                self@.original == old(self)@.original,
                names.len() > 0 ==> toml::is_table_v(toml::get_v(self@.contents(), "model"@)),
                self@.contents() == drop_all_v(written, names.take(k as int)),
                text::views(changes@) == told + stale_lines_v(names.take(k as int)),
            decreases stale@.len() - k,
        {
            assert(names[k as int] == stale@[k as int]@);
            remove_entry(&mut self.document, "model", &stale[k]);
            let line = text::cat("remove stale managed model ", &stale[k]);
            proof {
                let head = names.take(k + 1);
                assert(head.drop_last() =~= names.take(k as int));
                assert(stale_lines_v(head) =~= stale_lines_v(names.take(k as int)).push(line@));
                assert(told + stale_lines_v(head) =~= (told + stale_lines_v(
                    names.take(k as int),
                )).push(line@));
            }
            add_line(&mut changes, line);
            k += 1;
        }
        let out = ChangeSet { changes };
        proof {
            assert(names.take(k as int) =~= names);
            assert(out@ == told + stale_lines_v(names));
            assert(synced_v(first, all, prune, self@.document, out@, docs, names));
            assert(in_step_v(first, all, prune, self@.document, out@));
        }
        Ok(out)
    }

    /// Whether there is anything to write.
    pub fn is_changed(&self) -> (r: bool)
        ensures
            r == (toml::toml_text(self@.document) != self@.original),
    {
        !same(&render(&self.document), &self.original)
    }

    /// What is written to the file that now reads `current`: nothing where
    /// nothing has changed, and nothing either where someone else has changed
    /// it meanwhile.
    pub fn commit(&self, current: &str) -> (r: Result<Option<Commit>, String>)
        ensures
            match r {
                Ok(None) => toml::toml_text(self@.document) == self@.original,
                Ok(Some(p)) => toml::toml_text(self@.document) != self@.original && current@
                    == self@.original && p.text@ == toml::toml_text(self@.document) && p.backup == (
                self@.original.len() > 0),
                Err(e) => toml::toml_text(self@.document) != self@.original && current@
                    != self@.original && e@ == self@.path
                    + " changed since it was read; refusing to overwrite concurrent edits"@,
            },
    {
        let rendered = render(&self.document);
        if same(&rendered, &self.original) {
            return Ok(None);
        }
        if !same(current, &self.original) {
            return Err(
                text::cat(
                    &self.path,
                    " changed since it was read; refusing to overwrite concurrent edits",
                ),
            );
        }
        Ok(Some(Commit { text: rendered, backup: !self.original.as_str().is_empty() }))
    }
}

/// The name of the file that takes the place of `file_name`, until it does.
pub fn temporary_name(file_name: &str, suffix: &str) -> (r: String)
    ensures
        r@ == "."@ + file_name@ + "."@ + suffix@ + ".tmp"@,
{
    let mut out = text::cat3(".", file_name, ".");
    out.push_str(suffix);
    out.push_str(".tmp");
    out
}

/// The name of the file that keeps the old text of `file_name`.
pub fn backup_name(file_name: &str, suffix: &str) -> (r: String)
    ensures
        r@ == file_name@ + ".bak."@ + suffix@,
{
    text::cat3(file_name, ".bak.", suffix)
}

} // verus!
