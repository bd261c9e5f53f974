//! TOML documents that are edited in place.

use vstd::prelude::*;

use crate::text;

verus! {

/// `toml_edit::DocumentMut`: a document with its formatting.
#[verifier::external_type_specification]
#[verifier::external_body]
pub struct ExDocument(toml_edit::DocumentMut);

/// What an item of a document is. A table is a standard one, with what stands
/// before its header, or an inline one.
#[verifier::ext_equal]
pub enum TomlV {
    Text(Seq<char>),
    Int(i64),
    Bool(bool),
    Texts(Seq<Seq<char>>),
    Table { standard: bool, prefix: Option<Seq<char>>, entries: Map<Seq<char>, TomlV> },
    Other,
}

pub type TableV = Map<Seq<char>, TomlV>;

/// The items of a document, by their keys.
pub uninterp spec fn toml_contents(doc: toml_edit::DocumentMut) -> Map<Seq<char>, TomlV>;

/// The text of a document.
pub uninterp spec fn toml_text(doc: toml_edit::DocumentMut) -> Seq<char>;

/// What parsing a text as TOML gives: the items of the document, or the error.
pub uninterp spec fn parsed_toml(text: Seq<char>) -> Result<Map<Seq<char>, TomlV>, Seq<char>>;

pub open spec fn get_v(items: TableV, key: Seq<char>) -> Option<TomlV> {
    if items.contains_key(key) {
        Some(items[key])
    } else {
        None
    }
}

/// The entries of an item; what is no table has none.
pub open spec fn entries_v(item: Option<TomlV>) -> TableV {
    match item {
        Some(TomlV::Table { entries, .. }) => entries,
        _ => Map::empty(),
    }
}

pub open spec fn is_table_v(item: Option<TomlV>) -> bool {
    item matches Some(TomlV::Table { .. })
}

pub open spec fn is_standard_v(item: Option<TomlV>) -> bool {
    item matches Some(TomlV::Table { standard, .. }) && standard
}

/// The entry `name` of the section `section`.
pub open spec fn entry_v(c: TableV, section: Seq<char>, name: Seq<char>) -> Option<TomlV> {
    get_v(entries_v(get_v(c, section)), name)
}

/// The value of the field `field` of that entry.
pub open spec fn field_v(
    c: TableV,
    section: Seq<char>,
    name: Seq<char>,
    field: Seq<char>,
) -> Option<TomlV> {
    get_v(entries_v(entry_v(c, section, name)), field)
}

pub open spec fn text_of_v(item: Option<TomlV>) -> Option<Seq<char>> {
    match item {
        Some(TomlV::Text(s)) => Some(s),
        _ => None,
    }
}

pub open spec fn int_of_v(item: Option<TomlV>) -> Option<i64> {
    match item {
        Some(TomlV::Int(n)) => Some(n),
        _ => None,
    }
}

/// What stands before the header of a standard table.
pub open spec fn prefix_of_v(item: Option<TomlV>) -> Option<Seq<char>> {
    match item {
        Some(TomlV::Table { standard, prefix, .. }) => if standard {
            prefix
        } else {
            None
        },
        _ => None,
    }
}

pub open spec fn empty_table_v() -> TomlV {
    TomlV::Table { standard: true, prefix: None, entries: Map::empty() }
}

/// A table with other entries.
pub open spec fn with_entries_v(item: TomlV, entries: TableV) -> TomlV {
    match item {
        TomlV::Table { standard, prefix, entries: _ } => TomlV::Table { standard, prefix, entries },
        other => other,
    }
}

pub open spec fn with_prefix_v(item: TomlV, prefix: Seq<char>) -> TomlV {
    match item {
        TomlV::Table { standard, prefix: _, entries } => TomlV::Table {
            standard,
            prefix: Some(prefix),
            entries,
        },
        other => other,
    }
}

/// The items with the entry `name` of a section put in.
pub open spec fn put_entry_v(c: TableV, section: Seq<char>, name: Seq<char>, item: TomlV) -> TableV {
    c.insert(section, with_entries_v(c[section], entries_v(get_v(c, section)).insert(name, item)))
}

/// The items without the entry `name` of a section.
pub open spec fn drop_entry_v(c: TableV, section: Seq<char>, name: Seq<char>) -> TableV {
    c.insert(section, with_entries_v(c[section], entries_v(get_v(c, section)).remove(name)))
}

/// The items with a field of an entry put in.
pub open spec fn put_field_v(
    c: TableV,
    section: Seq<char>,
    name: Seq<char>,
    field: Seq<char>,
    item: TomlV,
) -> TableV {
    let entry = entry_v(c, section, name);
    put_entry_v(c, section, name, with_entries_v(entry->0, entries_v(entry).insert(field, item)))
}

/// The items without a field of an entry.
pub open spec fn drop_field_v(
    c: TableV,
    section: Seq<char>,
    name: Seq<char>,
    field: Seq<char>,
) -> TableV {
    let entry = entry_v(c, section, name);
    put_entry_v(c, section, name, with_entries_v(entry->0, entries_v(entry).remove(field)))
}

/// A standard table within a section that is one.
pub open spec fn editable_v(c: TableV, section: Seq<char>, name: Seq<char>) -> bool {
    is_standard_v(get_v(c, section)) && is_standard_v(entry_v(c, section, name))
}

pub open spec fn no_items_v() -> TableV {
    Map::empty()
}

pub open spec fn parse_result(r: Result<toml_edit::DocumentMut, String>) -> Result<
    TableV,
    Seq<char>,
> {
    match r {
        Ok(doc) => Ok(toml_contents(doc)),
        Err(e) => Err(e@),
    }
}

/// `str::parse::<toml_edit::DocumentMut>`: the document, or the error's text.
/// Its result is a function of the text.
#[verifier::external_body]
pub(crate) fn parse(source: &str) -> (r: Result<toml_edit::DocumentMut, String>)
    ensures
        parse_result(r) == parsed_toml(source@),
{
    source.parse::<toml_edit::DocumentMut>().map_err(|e| e.to_string())
}

/// `toml_edit::DocumentMut::new`: a document without items.
#[verifier::external_body]
pub(crate) fn empty_document() -> (r: toml_edit::DocumentMut)
    ensures
        toml_contents(r) == no_items_v(),
{
    toml_edit::DocumentMut::new()
}

/// `to_string` of a document: its text, which depends on the document alone.
/// That the text parses back to the same items is not claimed: comments may be
/// set that no parser takes.
#[verifier::external_body]
pub(crate) fn render(doc: &toml_edit::DocumentMut) -> (r: String)
    ensures
        r@ == toml_text(*doc),
{
    doc.to_string()
}

/// What kind of item there is.
#[derive(Clone, Copy, Debug, PartialEq, Eq, Structural)]
pub enum Kind {
    Missing,
    Standard,
    Inline,
    Value,
}

pub open spec fn kind_v(item: Option<TomlV>) -> Kind {
    match item {
        None => Kind::Missing,
        Some(TomlV::Table { standard, .. }) => if standard {
            Kind::Standard
        } else {
            Kind::Inline
        },
        Some(_) => Kind::Value,
    }
}

/// `get` of a document: what kind of item the section is.
#[verifier::external_body]
pub(crate) fn section_kind(doc: &toml_edit::DocumentMut, section: &str) -> (r: Kind)
    ensures
        r == kind_v(get_v(toml_contents(*doc), section@)),
{
    match doc.get(section) {
        None | Some(toml_edit::Item::None) => Kind::Missing,
        Some(toml_edit::Item::Table(_)) => Kind::Standard,
        Some(toml_edit::Item::ArrayOfTables(_)) => Kind::Value,
        Some(toml_edit::Item::Value(toml_edit::Value::InlineTable(_))) => Kind::Inline,
        Some(toml_edit::Item::Value(_)) => Kind::Value,
    }
}

/// `get` of a section that is a table of either kind: what kind of item the
/// entry is. Without such a section there is none.
#[verifier::external_body]
pub(crate) fn entry_kind(doc: &toml_edit::DocumentMut, section: &str, name: &str) -> (r: Kind)
    ensures
        r == kind_v(entry_v(toml_contents(*doc), section@, name@)),
{
    match doc.get(section).and_then(toml_edit::Item::as_table_like).and_then(|t| t.get(name)) {
        None | Some(toml_edit::Item::None) => Kind::Missing,
        Some(toml_edit::Item::Table(_)) => Kind::Standard,
        Some(toml_edit::Item::ArrayOfTables(_)) => Kind::Value,
        Some(toml_edit::Item::Value(toml_edit::Value::InlineTable(_))) => Kind::Inline,
        Some(toml_edit::Item::Value(_)) => Kind::Value,
    }
}

/// Each key of a table, once.
pub open spec fn keys_v(names: Seq<Seq<char>>, entries: TableV) -> bool {
    &&& forall|i: int| 0 <= i < names.len() ==> entries.contains_key(#[trigger] names[i])
    &&& forall|i: int, j: int|
        0 <= i < j < names.len() ==> #[trigger] names[i] != #[trigger] names[j]
    &&& forall|k: Seq<char>| #[trigger] entries.contains_key(k) ==> names.contains(k)
}

/// `iter` of a section that is a table of either kind: the names of its
/// entries, each once, in the order of the document, of which nothing is stated.
#[verifier::external_body]
pub(crate) fn entry_names(doc: &toml_edit::DocumentMut, section: &str) -> (r: Vec<String>)
    ensures
        keys_v(text::views(r@), entries_v(get_v(toml_contents(*doc), section@))),
{
    let table = doc.get(section).and_then(toml_edit::Item::as_table_like);
    table.map(|t| t.iter().map(|(name, _)| name.to_owned()).collect()).unwrap_or_default()
}

/// `as_str` of a field of an entry: its text, where it is a string.
#[verifier::external_body]
pub(crate) fn field_text(
    doc: &toml_edit::DocumentMut,
    section: &str,
    name: &str,
    field: &str,
) -> (r: Option<String>)
    ensures
        text::opt_view(r) == text_of_v(field_v(toml_contents(*doc), section@, name@, field@)),
{
    let table = doc.get(section).and_then(toml_edit::Item::as_table_like)?;
    let entry = table.get(name).and_then(toml_edit::Item::as_table_like)?;
    entry.get(field).and_then(toml_edit::Item::as_str).map(str::to_owned)
}

/// `as_integer` of a field of an entry: its value, where it is an integer.
#[verifier::external_body]
pub(crate) fn field_int(
    doc: &toml_edit::DocumentMut,
    section: &str,
    name: &str,
    field: &str,
) -> (r: Option<i64>)
    ensures
        r == int_of_v(field_v(toml_contents(*doc), section@, name@, field@)),
{
    let table = doc.get(section).and_then(toml_edit::Item::as_table_like)?;
    let entry = table.get(name).and_then(toml_edit::Item::as_table_like)?;
    entry.get(field).and_then(toml_edit::Item::as_integer)
}

/// `prefix` of the decor of an entry that is a standard table: what stands
/// before its header.
#[verifier::external_body]
pub(crate) fn entry_prefix(doc: &toml_edit::DocumentMut, section: &str, name: &str) -> (r: Option<
    String,
>)
    ensures
        text::opt_view(r) == prefix_of_v(entry_v(toml_contents(*doc), section@, name@)),
{
    let table = doc.get(section).and_then(toml_edit::Item::as_table_like)?;
    let entry = table.get(name).and_then(toml_edit::Item::as_table)?;
    entry.decor().prefix().and_then(|p| p.as_str()).map(str::to_owned)
}

/// Assignment of `toml_edit::Table::new` to a section: it is then an empty
/// standard table.
#[verifier::external_body]
pub(crate) fn put_section(doc: &mut toml_edit::DocumentMut, section: &str)
    ensures
        toml_contents(*final(doc)) == toml_contents(*old(doc)).insert(section@, empty_table_v()),
{
    doc[section] = toml_edit::Item::Table(toml_edit::Table::new());
}

/// The section as a standard table with the same entries.
pub open spec fn widened_v(c: TableV, section: Seq<char>) -> TableV {
    c.insert(
        section,
        TomlV::Table { standard: true, prefix: None, entries: entries_v(get_v(c, section)) },
    )
}

/// `into_table` of a section that is an inline table: it is then a standard
/// table with the same entries.
#[verifier::external_body]
pub(crate) fn widen_section(doc: &mut toml_edit::DocumentMut, section: &str)
    requires
        kind_v(get_v(toml_contents(*old(doc)), section@)) == Kind::Inline,
    ensures
        toml_contents(*final(doc)) == widened_v(toml_contents(*old(doc)), section@),
{
    if let Ok(table) = doc[section].clone().into_table() {
        doc[section] = toml_edit::Item::Table(table);
    }
}

/// Assignment of `toml_edit::Table::new` to an entry of a standard table: it is
/// then an empty standard table.
#[verifier::external_body]
pub(crate) fn put_entry(doc: &mut toml_edit::DocumentMut, section: &str, name: &str)
    requires
        is_standard_v(get_v(toml_contents(*old(doc)), section@)),
    ensures
        toml_contents(*final(doc)) == put_entry_v(
            toml_contents(*old(doc)),
            section@,
            name@,
            empty_table_v(),
        ),
{
    doc[section][name] = toml_edit::Item::Table(toml_edit::Table::new());
}

/// `set_prefix` of the decor of an entry that is a standard table: the prefix is
/// then what stands before its header.
#[verifier::external_body]
pub(crate) fn set_prefix(
    doc: &mut toml_edit::DocumentMut,
    section: &str,
    name: &str,
    prefix: &str,
)
    requires
        editable_v(toml_contents(*old(doc)), section@, name@),
    ensures
        toml_contents(*final(doc)) == put_entry_v(
            toml_contents(*old(doc)),
            section@,
            name@,
            with_prefix_v(entry_v(toml_contents(*old(doc)), section@, name@)->0, prefix@),
        ),
{
    if let Some(table) = doc[section][name].as_table_mut() {
        table.decor_mut().set_prefix(prefix);
    }
}

/// Assignment of `toml_edit::value` of a string to a field.
#[verifier::external_body]
pub(crate) fn put_text(
    doc: &mut toml_edit::DocumentMut,
    section: &str,
    name: &str,
    field: &str,
    value: &str,
)
    requires
        editable_v(toml_contents(*old(doc)), section@, name@),
    ensures
        toml_contents(*final(doc)) == put_field_v(
            toml_contents(*old(doc)),
            section@,
            name@,
            field@,
            TomlV::Text(value@),
        ),
{
    doc[section][name][field] = toml_edit::value(value);
}

/// Assignment of `toml_edit::value` of an integer to a field.
#[verifier::external_body]
pub(crate) fn put_int(
    doc: &mut toml_edit::DocumentMut,
    section: &str,
    name: &str,
    field: &str,
    value: i64,
)
    requires
        editable_v(toml_contents(*old(doc)), section@, name@),
    ensures
        toml_contents(*final(doc)) == put_field_v(
            toml_contents(*old(doc)),
            section@,
            name@,
            field@,
            TomlV::Int(value),
        ),
{
    doc[section][name][field] = toml_edit::value(value);
}

/// Assignment of `toml_edit::value` of a truth value to a field.
#[verifier::external_body]
pub(crate) fn put_bool(
    doc: &mut toml_edit::DocumentMut,
    section: &str,
    name: &str,
    field: &str,
    value: bool,
)
    requires
        editable_v(toml_contents(*old(doc)), section@, name@),
    ensures
        toml_contents(*final(doc)) == put_field_v(
            toml_contents(*old(doc)),
            section@,
            name@,
            field@,
            TomlV::Bool(value),
        ),
{
    doc[section][name][field] = toml_edit::value(value);
}

/// Assignment of `toml_edit::value` of an array of strings, filled by
/// `toml_edit::Array::push`, to a field.
#[verifier::external_body]
pub(crate) fn put_texts(
    doc: &mut toml_edit::DocumentMut,
    section: &str,
    name: &str,
    field: &str,
    values: &Vec<String>,
)
    requires
        editable_v(toml_contents(*old(doc)), section@, name@),
    ensures
        toml_contents(*final(doc)) == put_field_v(
            toml_contents(*old(doc)),
            section@,
            name@,
            field@,
            TomlV::Texts(text::views(values@)),
        ),
{
    let mut array = toml_edit::Array::new();
    values.iter().for_each(|value| array.push(value.as_str()));
    doc[section][name][field] = toml_edit::value(array);
}

/// `remove` of a field of an entry that is a standard table.
#[verifier::external_body]
pub(crate) fn remove_field(
    doc: &mut toml_edit::DocumentMut,
    section: &str,
    name: &str,
    field: &str,
)
    requires
        editable_v(toml_contents(*old(doc)), section@, name@),
    ensures
        toml_contents(*final(doc)) == drop_field_v(
            toml_contents(*old(doc)),
            section@,
            name@,
            field@,
        ),
{
    if let Some(table) = doc[section][name].as_table_mut() {
        table.remove(field);
    }
}

/// `remove` of an entry of a section that is a table of either kind.
#[verifier::external_body]
pub(crate) fn remove_entry(doc: &mut toml_edit::DocumentMut, section: &str, name: &str)
    requires
        is_table_v(get_v(toml_contents(*old(doc)), section@)),
    ensures
        toml_contents(*final(doc)) == drop_entry_v(toml_contents(*old(doc)), section@, name@),
{
    if let Some(table) = doc[section].as_table_like_mut() {
        table.remove(name);
    }
}

} // verus!
