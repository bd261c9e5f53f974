//! What a request tells about the session that it belongs to.

use vstd::prelude::*;

use crate::events;
use crate::events::sanitize;
use crate::json;
use crate::json::{Json, JsonV};
use crate::proxy::headers;
use crate::proxy::headers::{FieldV, Headers};
use crate::text;
use crate::text::same;

verus! {

/// What a monitor shows of a session; empty where it is not known.
#[derive(Debug, PartialEq, Eq)]
pub struct SessionContext {
    pub last_prompt: String,
    pub cwd: String,
}

#[verifier::ext_equal]
pub struct ContextV {
    pub last_prompt: Seq<char>,
    pub cwd: Seq<char>,
}

impl SessionContext {
    pub open spec fn view(&self) -> ContextV {
        ContextV { last_prompt: self.last_prompt@, cwd: self.cwd@ }
    }
}

/// The text without space around it, if anything is left.
pub open spec fn non_empty_v(s: Seq<char>) -> Option<Seq<char>> {
    let t = text::trim_v(s);
    if t.len() > 0 {
        Some(t)
    } else {
        None
    }
}

fn non_empty(s: &str) -> (r: Option<String>)
    ensures
        text::opt_view(r) == non_empty_v(s@),
{
    let t = text::trim(s);
    if !t.as_str().is_empty() {
        Some(t)
    } else {
        None
    }
}

pub open spec fn opt_non_empty_v(s: Option<Seq<char>>) -> Option<Seq<char>> {
    match s {
        Some(s) => non_empty_v(s),
        None => None,
    }
}

/// The texts in a message's content, in order.
pub open spec fn texts_v(v: JsonV) -> Seq<Seq<char>>
    decreases v,
{
    match v {
        JsonV::Str(s) => match non_empty_v(s) {
            Some(t) => seq![t],
            None => Seq::empty(),
        },
        JsonV::Arr(items) => all_texts_v(items),
        JsonV::Obj(m) => match opt_non_empty_v(v.get_text("text"@)) {
            Some(t) => seq![t],
            None => if m.dom().finite() && m.contains_key("content"@) {
                texts_v(m["content"@])
            } else {
                Seq::empty()
            },
        },
        _ => Seq::empty(),
    }
}

pub open spec fn all_texts_v(items: Seq<JsonV>) -> Seq<Seq<char>>
    decreases items,
{
    if items.len() == 0 {
        Seq::empty()
    } else {
        all_texts_v(items.drop_last()) + texts_v(items.last())
    }
}

fn push_text(parts: &mut Vec<String>, t: String)
    ensures
        text::views(final(parts)@) == text::views(old(parts)@).push(t@),
{
    let ghost before = parts@;
    proof {
        assert(text::views(before.push(t)) =~= text::views(before).push(t@));
    }
    parts.push(t);
}

fn collect_text(value: &Json, parts: &mut Vec<String>)
    ensures
        text::views(final(parts)@) == text::views(old(parts)@) + texts_v(value@),
    decreases value,
{
    let ghost before = text::views(parts@);
    match value {
        Json::Str(s) => match non_empty(s) {
            Some(t) => {
                push_text(parts, t);
                assert(before.push(t@) =~= before + seq![t@]);
            },
            None => {
                assert(before + Seq::<Seq<char>>::empty() =~= before);
            },
        },
        Json::Arr(items) => {
            let ghost all = json::items_v(items@);
            let mut i: usize = 0;
            assert(before + all_texts_v(all.take(0)) =~= before);
            while i < items.len()
                invariant
                    i <= items@.len(),
                    *value == Json::Arr(*items),
                    all == json::items_v(items@),
                    text::views(parts@) == before + all_texts_v(all.take(i as int)),
                decreases items@.len() - i,
            {
                proof {
                    json::items_len(items@);
                    json::items_at(items@, i as int);
                    json::item_smaller(*value, *items, i as int);
                    assert(all.take(i + 1).drop_last() =~= all.take(i as int));
                    assert(all.take(i + 1).last() == items@[i as int]@);
                }
                collect_text(&items[i], parts);
                proof {
                    assert((before + all_texts_v(all.take(i as int))) + texts_v(items@[i as int]@)
                        =~= before + (all_texts_v(all.take(i as int)) + texts_v(
                        items@[i as int]@,
                    )));
                }
                i += 1;
            }
            proof {
                json::items_len(items@);
                assert(all.take(i as int) =~= all);
            }
        },
        Json::Obj(fields) => {
            let own = match value.get_str("text") {
                Some(s) => non_empty(s),
                None => None,
            };
            match own {
                Some(t) => {
                    push_text(parts, t);
                    assert(before.push(t@) =~= before + seq![t@]);
                },
                None => match json::position(fields, "content") {
                    Some(i) => {
                        proof {
                            json::names_are_members(fields@, "content"@);
                            json::member_smaller(*value, *fields, i as int);
                        }
                        collect_text(&fields[i].1, parts);
                    },
                    None => {
                        assert(before + Seq::<Seq<char>>::empty() =~= before);
                    },
                },
            }
        },
        _ => {
            assert(before + Seq::<Seq<char>>::empty() =~= before);
        },
    }
}

/// The text of a message.
pub open spec fn message_text_v(item: JsonV) -> Option<Seq<char>> {
    let content = match item.get("content"@) {
        Some(c) => c,
        None => item,
    };
    non_empty_v(text::join_v(texts_v(content), "\n"@))
}

fn message_text(item: &Json) -> (r: Option<String>)
    ensures
        text::opt_view(r) == message_text_v(item@),
{
    let mut parts: Vec<String> = Vec::new();
    assert(text::views(parts@) =~= Seq::<Seq<char>>::empty());
    match item.get("content") {
        Some(c) => {
            collect_text(c, &mut parts);
            assert(text::views(parts@) =~= texts_v(c@));
        },
        None => {
            collect_text(item, &mut parts);
            assert(text::views(parts@) =~= texts_v(item@));
        },
    }
    non_empty(&text::join(&parts, "\n"))
}

pub open spec fn user_text_v(item: JsonV) -> Option<Seq<char>> {
    if item.get_text("role"@) == Some("user"@) {
        message_text_v(item)
    } else {
        None
    }
}

/// The text of the last message of the user that has one.
pub open spec fn last_user_v(items: Seq<JsonV>) -> Option<Seq<char>>
    decreases items.len(),
{
    if items.len() == 0 {
        None
    } else {
        match user_text_v(items.last()) {
            Some(t) => Some(t),
            None => last_user_v(items.drop_last()),
        }
    }
}

pub open spec fn last_prompt_v(input: JsonV) -> Option<Seq<char>> {
    match input {
        JsonV::Str(s) => non_empty_v(s),
        JsonV::Arr(items) => last_user_v(items),
        _ => None,
    }
}

/// The last prompt of the user in an input.
pub fn last_user_prompt(input: &Json) -> (r: Option<String>)
    ensures
        text::opt_view(r) == last_prompt_v(input@),
{
    match input {
        Json::Str(s) => non_empty(s),
        Json::Arr(items) => {
            let ghost all = json::items_v(items@);
            let mut i: usize = items.len();
            proof {
                json::items_len(items@);
                assert(all.take(i as int) =~= all);
            }
            while i > 0
                invariant
                    i <= items@.len(),
                    all == json::items_v(items@),
                    input@ == JsonV::Arr(all),
                    last_user_v(all) == last_user_v(all.take(i as int)),
                decreases i,
            {
                proof {
                    json::items_len(items@);
                    json::items_at(items@, i - 1);
                    assert(all.take(i as int).last() == items@[i - 1]@);
                    assert(all.take(i as int).drop_last() =~= all.take(i - 1));
                }
                let item = &items[i - 1];
                let user = match item.get_str("role") {
                    Some(role) => same(role, "user"),
                    None => false,
                };
                if user {
                    if let Some(t) = message_text(item) {
                        return Some(t);
                    }
                }
                i -= 1;
            }
            None
        },
        _ => None,
    }
}

/// What stands between the first `<cwd>` and the next `</cwd>`.
pub open spec fn tag_v(s: Seq<char>) -> Option<Seq<char>> {
    match text::find_from_v(s, "<cwd>"@, 0) {
        None => None,
        Some(i) => {
            let rest = s.skip(i + 5);
            match text::find_from_v(rest, "</cwd>"@, 0) {
                None => None,
                Some(j) => non_empty_v(rest.take(j)),
            }
        },
    }
}

fn cwd_tag(s: &str) -> (r: Option<String>)
    ensures
        text::opt_view(r) == tag_v(s@),
{
    let v = text::chars_of(s);
    let open = text::chars_of("<cwd>");
    let close = text::chars_of("</cwd>");
    proof {
        reveal_strlit("<cwd>");
    }
    match text::find_from(&v, &open, 0) {
        None => None,
        Some(i) => {
            let rest = text::rest_of(&v, i + 5);
            let w = text::chars_of(&rest);
            match text::find_from(&w, &close, 0) {
                None => None,
                Some(j) => {
                    assert(w@.subrange(0, j as int) =~= rest@.take(j as int));
                    non_empty(&text::string_of(&w, 0, j))
                },
            }
        },
    }
}

/// `k` is the first of the names.
pub open spec fn first_name_v(names: Set<Seq<char>>, k: Seq<char>) -> bool {
    names.contains(k) && forall|other: Seq<char>| #[trigger]
        names.contains(other) ==> !text::less_v(other, k)
}

/// The working directory that a value mentions: the first one in its text, its
/// items in order, or its members in the order of their names.
pub open spec fn mentioned_v(v: JsonV) -> Option<Seq<char>>
    decreases v,
{
    match v {
        JsonV::Str(s) => tag_v(s),
        JsonV::Arr(items) => first_mentioned_v(items),
        JsonV::Obj(m) => {
            let names = mentioning_v(m);
            let k = choose|k: Seq<char>| first_name_v(names, k);
            if m.dom().finite() && m.contains_key(k) && first_name_v(names, k) {
                mentioned_v(m[k])
            } else {
                None
            }
        },
        _ => None,
    }
}

/// The names of the members that mention a directory.
pub open spec fn mentioning_v(m: Map<Seq<char>, JsonV>) -> Set<Seq<char>>
    decreases m,
{
    Set::new(
        |k: Seq<char>| m.dom().finite() && m.contains_key(k) && mentioned_v(m[k]) is Some,
    )
}

pub open spec fn first_mentioned_v(items: Seq<JsonV>) -> Option<Seq<char>>
    decreases items,
{
    if items.len() == 0 {
        None
    } else {
        match first_mentioned_v(items.drop_last()) {
            Some(s) => Some(s),
            None => mentioned_v(items.last()),
        }
    }
}

proof fn mention_stays(items: Seq<JsonV>, n: int)
    requires
        0 <= n <= items.len(),
    ensures
        first_mentioned_v(items.take(n)) is Some ==> first_mentioned_v(items)
            == first_mentioned_v(items.take(n)),
    decreases items.len() - n,
{
    if n < items.len() {
        mention_stays(items, n + 1);
        assert(items.take(n + 1).drop_last() =~= items.take(n));
    } else {
        assert(items.take(n) =~= items);
    }
}

proof fn first_is_found(m: Map<Seq<char>, JsonV>, k: Seq<char>)
    requires
        m.dom().finite(),
        first_name_v(mentioning_v(m), k),
    ensures
        mentioned_v(JsonV::Obj(m)) == mentioned_v(m[k]),
{
    let names = mentioning_v(m);
    let c = choose|c: Seq<char>| first_name_v(names, c);
    assert(first_name_v(names, c));
    assert(names.contains(c) && names.contains(k));
    text::less_total(c, k);
}

proof fn none_is_found(m: Map<Seq<char>, JsonV>)
    requires
        forall|k: Seq<char>| !mentioning_v(m).contains(k),
    ensures
        mentioned_v(JsonV::Obj(m)) is None,
{
    let names = mentioning_v(m);
    let c = choose|c: Seq<char>| first_name_v(names, c);
    assert(!names.contains(c));
}

/// The working directory that a value mentions.
pub fn cwd_from_value(value: &Json) -> (r: Option<String>)
    ensures
        text::opt_view(r) == mentioned_v(value@),
    decreases value,
{
    match value {
        Json::Str(s) => cwd_tag(s),
        Json::Arr(items) => {
            let ghost all = json::items_v(items@);
            let mut i: usize = 0;
            while i < items.len()
                invariant
                    i <= items@.len(),
                    *value == Json::Arr(*items),
                    all == json::items_v(items@),
                    first_mentioned_v(all.take(i as int)) is None,
                decreases items@.len() - i,
            {
                proof {
                    json::items_len(items@);
                    json::items_at(items@, i as int);
                    json::item_smaller(*value, *items, i as int);
                    assert(all.take(i + 1).drop_last() =~= all.take(i as int));
                    assert(all.take(i + 1).last() == items@[i as int]@);
                    mention_stays(all, i + 1);
                }
                if let Some(s) = cwd_from_value(&items[i]) {
                    return Some(s);
                }
                i += 1;
            }
            proof {
                json::items_len(items@);
                assert(all.take(i as int) =~= all);
            }
            None
        },
        Json::Obj(fields) => {
            let ghost m = json::fields_v(fields@);
            let ghost names = mentioning_v(m);
            let mut best: Option<(usize, String)> = None;
            let mut i: usize = 0;
            proof {
                json::names_are_members(fields@, Seq::empty());
            }
            while i < fields.len()
                invariant
                    i <= fields@.len(),
                    *value == Json::Obj(*fields),
                    m == json::fields_v(fields@),
                    m.dom().finite(),
                    names == mentioning_v(m),
                    match best {
                        Some((b, s)) => {
                            &&& b < i
                            &&& names.contains(fields@[b as int].0@)
                            &&& mentioned_v(m[fields@[b as int].0@]) == Some(s@)
                            &&& forall|k: int|
                                0 <= k < i && names.contains((#[trigger] fields@[k]).0@)
                                    ==> !text::less_v(fields@[k].0@, fields@[b as int].0@)
                        },
                        None => forall|k: int|
                            0 <= k < i ==> !names.contains((#[trigger] fields@[k]).0@),
                    },
                decreases fields@.len() - i,
            {
                let name = &fields[i].0;
                if let Some(at) = json::position(fields, name) {
                    proof {
                        json::member_smaller(*value, *fields, at as int);
                        text::less_total(name@, name@);
                    }
                    if let Some(s) = cwd_from_value(&fields[at].1) {
                        assert(names.contains(name@));
                        let better = match &best {
                            None => true,
                            Some((b, _)) => {
                                proof {
                                    text::less_total(name@, fields@[*b as int].0@);
                                }
                                text::less(name, &fields[*b].0)
                            },
                        };
                        if better {
                            proof {
                                assert forall|k: int|
                                    0 <= k < i + 1 && names.contains(
                                        (#[trigger] fields@[k]).0@,
                                    ) implies !text::less_v(fields@[k].0@, name@) by {
                                    if k < i {
                                        if let Some((b, _)) = best {
                                            text::less_chain(
                                                fields@[k].0@,
                                                fields@[b as int].0@,
                                                name@,
                                            );
                                        }
                                    }
                                }
                            }
                            best = Some((i, s));
                        }
                    }
                }
                i += 1;
            }
            proof {
                assert forall|k: Seq<char>| #[trigger] names.contains(k) implies exists|j: int|
                    0 <= j < fields@.len() && (#[trigger] fields@[j]).0@ == k by {
                    json::names_are_members(fields@, k);
                }
            }
            match best {
                None => {
                    proof {
                        assert forall|k: Seq<char>| !names.contains(k) by {
                            if names.contains(k) {
                                let j = choose|j: int|
                                    0 <= j < fields@.len() && (#[trigger] fields@[j]).0@ == k;
                                assert(names.contains(fields@[j].0@));
                            }
                        }
                        none_is_found(m);
                    }
                    None
                },
                Some((b, s)) => {
                    proof {
                        let name = fields@[b as int].0@;
                        assert forall|other: Seq<char>| #[trigger] names.contains(
                            other,
                        ) implies !text::less_v(other, name) by {
                            let j = choose|j: int|
                                0 <= j < fields@.len() && (#[trigger] fields@[j]).0@ == other;
                            assert(names.contains(fields@[j].0@));
                        }
                        first_is_found(m, name);
                    }
                    Some(s)
                },
            }
        },
        _ => None,
    }
}

pub open spec fn path_names_v() -> Seq<Seq<char>> {
    seq![
        "cwd"@,
        "current_working_directory"@,
        "working_directory"@,
        "workspace_root"@,
        "project_path"@,
        "repository_path"@,
    ]
}

/// The first of the named members that is a text and not blank.
pub open spec fn first_text_v(v: JsonV, names: Seq<Seq<char>>) -> Option<Seq<char>>
    decreases names.len(),
{
    if names.len() == 0 {
        None
    } else {
        match first_text_v(v, names.drop_last()) {
            Some(s) => Some(s),
            None => opt_non_empty_v(v.get_text(names.last())),
        }
    }
}

proof fn text_stays(v: JsonV, names: Seq<Seq<char>>, n: int)
    requires
        0 <= n <= names.len(),
    ensures
        first_text_v(v, names.take(n)) is Some ==> first_text_v(v, names) == first_text_v(
            v,
            names.take(n),
        ),
    decreases names.len() - n,
{
    if n < names.len() {
        text_stays(v, names, n + 1);
        assert(names.take(n + 1).drop_last() =~= names.take(n));
    } else {
        assert(names.take(n) =~= names);
    }
}

fn first_text(value: &Json, names: &[&str]) -> (r: Option<String>)
    ensures
        text::opt_view(r) == first_text_v(value@, headers::names_v(names@)),
{
    let ghost all = headers::names_v(names@);
    let mut i: usize = 0;
    while i < names.len()
        invariant
            i <= names@.len(),
            all == headers::names_v(names@),
            first_text_v(value@, all.take(i as int)) is None,
        decreases names@.len() - i,
    {
        proof {
            assert(all.take(i + 1).drop_last() =~= all.take(i as int));
            assert(all.take(i + 1).last() == names@[i as int]@);
            text_stays(value@, all, i + 1);
        }
        if let Some(s) = value.get_str(names[i]) {
            if let Some(t) = non_empty(s) {
                return Some(t);
            }
        }
        i += 1;
    }
    assert(all.take(i as int) =~= all);
    None
}

pub open spec fn metadata_path_v(value: JsonV) -> Option<Seq<char>> {
    match value.get("client_metadata"@) {
        Some(metadata) => first_text_v(metadata, path_names_v()),
        None => None,
    }
}

fn client_metadata_path(value: &Json) -> (r: Option<String>)
    ensures
        text::opt_view(r) == metadata_path_v(value@),
{
    match value.get("client_metadata") {
        Some(metadata) => {
            let names = [
                "cwd",
                "current_working_directory",
                "working_directory",
                "workspace_root",
                "project_path",
                "repository_path",
            ];
            assert(headers::names_v(names@) =~= path_names_v());
            first_text(metadata, &names)
        },
        None => None,
    }
}

pub open spec fn mention_in_v(value: JsonV, k: Seq<char>) -> Option<Seq<char>> {
    match value.get(k) {
        Some(v) => mentioned_v(v),
        None => None,
    }
}

pub open spec fn or_v(a: Option<Seq<char>>, b: Option<Seq<char>>) -> Option<Seq<char>> {
    if a is Some {
        a
    } else {
        b
    }
}

/// The working directory: from a header, the metadata, the instructions or the
/// input, whichever comes first.
pub open spec fn cwd_v(value: JsonV, fields: Seq<FieldV>) -> Option<Seq<char>> {
    or_v(
        headers::first_valid_v(
            fields,
            seq!["x-grok-workspace-path"@, "x-codex-cwd"@, "x-workspace-path"@],
        ),
        or_v(
            metadata_path_v(value),
            or_v(mention_in_v(value, "instructions"@), mention_in_v(value, "input"@)),
        ),
    )
}

pub open spec fn shown_v(s: Option<Seq<char>>) -> Seq<char> {
    match s {
        Some(s) => events::sanitize_v(s),
        None => Seq::empty(),
    }
}

/// What a request that reads as `parsed` tells about its session.
pub open spec fn context_v(parsed: Option<JsonV>, fields: Seq<FieldV>) -> ContextV {
    match parsed {
        None => ContextV { last_prompt: Seq::empty(), cwd: Seq::empty() },
        Some(value) => ContextV {
            last_prompt: shown_v(
                match value.get("input"@) {
                    Some(input) => last_prompt_v(input),
                    None => None,
                },
            ),
            cwd: shown_v(cwd_v(value, fields)),
        },
    }
}

fn shown(s: Option<String>) -> (r: String)
    ensures
        r@ == shown_v(text::opt_view(s)),
{
    match s {
        Some(s) => sanitize(&s),
        None => String::new(),
    }
}

/// What a request that has been read tells about its session.
pub fn context_of_body(body: &Option<Json>, headers: &Headers) -> (r: SessionContext)
    ensures
        r@ == context_v(json::opt_owned(*body), headers@),
{
    match body {
        None => SessionContext { last_prompt: String::new(), cwd: String::new() },
        Some(value) => {
            let prompt = match value.get("input") {
                Some(input) => last_user_prompt(input),
                None => None,
            };
            let names = ["x-grok-workspace-path", "x-codex-cwd", "x-workspace-path"];
            assert(headers::names_v(names@) =~= seq![
                "x-grok-workspace-path"@,
                "x-codex-cwd"@,
                "x-workspace-path"@,
            ]);
            let path = match headers.first_valid(&names) {
                Some(s) => Some(text::owned(s)),
                None => match client_metadata_path(value) {
                    Some(s) => Some(s),
                    None => {
                        let told = match value.get("instructions") {
                            Some(v) => cwd_from_value(v),
                            None => None,
                        };
                        match told {
                            Some(s) => Some(s),
                            None => match value.get("input") {
                                Some(v) => cwd_from_value(v),
                                None => None,
                            },
                        }
                    },
                },
            };
            SessionContext { last_prompt: shown(prompt), cwd: shown(path) }
        },
    }
}

/// What a request tells about its session: the last prompt of its user, and the
/// directory that it works in.
pub fn extract_session_context(raw: &[u8], headers: &Headers) -> (r: SessionContext)
    ensures
        r@ == context_v(json::parsed_bytes(raw@), headers@),
{
    let body = json::parse_bytes(raw);
    context_of_body(&body, headers)
}

/// The last prompt is that of the last message of the user with a text: one more
/// such message is the last prompt, and any other item leaves it.
pub proof fn the_last_prompt_counts(items: Seq<JsonV>, item: JsonV, s: Seq<char>)
    requires
        text::trim_v(s).len() > 0,
    ensures
        item.get_text("role"@) == Some("user"@) && item.get("content"@) == Some(JsonV::Str(s))
            ==> last_prompt_v(JsonV::Arr(items.push(item))) == Some(text::trim_v(s)),
        item.get_text("role"@) != Some("user"@) ==> last_prompt_v(JsonV::Arr(items.push(item)))
            == last_prompt_v(JsonV::Arr(items)),
        last_prompt_v(JsonV::Str(s)) == Some(text::trim_v(s)),
{
    assert(items.push(item).drop_last() =~= items);
    let t = text::trim_v(s);
    let one = seq![t];
    assert(text::join_v(one, "\n"@) == t);
    trims_settle(s);
}

proof fn trims_settle(s: Seq<char>)
    ensures
        text::trim_v(text::trim_v(s)) == text::trim_v(s),
{
    starts_settle(s);
    let t = text::trim_start_v(s);
    ends_settle(t);
    let u = text::trim_end_v(t);
    if u.len() > 0 {
        assert(u[0] == t[0]);
    }
}

proof fn starts_settle(s: Seq<char>)
    ensures
        text::trim_start_v(s).len() > 0 ==> !text::is_space(text::trim_start_v(s)[0]),
    decreases s.len(),
{
    if s.len() > 0 && text::is_space(s[0]) {
        starts_settle(s.skip(1));
    }
}

proof fn ends_settle(s: Seq<char>)
    ensures
        text::trim_end_v(s).is_prefix_of(s),
        text::trim_end_v(text::trim_end_v(s)) == text::trim_end_v(s),
    decreases s.len(),
{
    if s.len() > 0 && text::is_space(s.last()) {
        ends_settle(s.drop_last());
        let t = text::trim_end_v(s);
        assert forall|i: int| 0 <= i < t.len() implies t[i] == s[i] by {
            assert(s.drop_last()[i] == s[i]);
        }
    }
}

/// The directory that a header names counts before all else, and then the one that
/// the client's metadata names.
pub proof fn directories_are_found(value: JsonV, fields: Seq<FieldV>, path: Seq<char>)
    ensures
        headers::get_v(fields, "x-grok-workspace-path"@) == Some(path) && headers::valid_v(path)
            ==> cwd_v(value, fields) == Some(path),
        headers::first_valid_v(
            fields,
            seq!["x-grok-workspace-path"@, "x-codex-cwd"@, "x-workspace-path"@],
        ) is None && metadata_path_v(value) is Some ==> cwd_v(value, fields) == metadata_path_v(
            value,
        ),
        value.get("client_metadata"@) matches Some(m) ==> (m.get_text("cwd"@) matches Some(s)
            ==> text::trim_v(s).len() > 0 ==> metadata_path_v(value) == Some(text::trim_v(s))),
{
    let names = seq!["x-grok-workspace-path"@, "x-codex-cwd"@, "x-workspace-path"@];
    let two = seq!["x-grok-workspace-path"@, "x-codex-cwd"@];
    let one = seq!["x-grok-workspace-path"@];
    let none = Seq::<Seq<char>>::empty();
    assert(names.drop_last() =~= two);
    assert(two.drop_last() =~= one);
    assert(one.drop_last() =~= none);
    if headers::get_v(fields, "x-grok-workspace-path"@) == Some(path) && headers::valid_v(path) {
        assert(headers::first_valid_v(fields, none) is None);
        assert(headers::first_valid_v(fields, one) == Some(path));
        assert(headers::first_valid_v(fields, two) == Some(path));
    }
    if let Some(m) = value.get("client_metadata"@) {
        if m.get_text("cwd"@) is Some {
            let all = path_names_v();
            assert(all.take(1).drop_last() =~= none);
            assert(all.take(1).last() == "cwd"@);
            assert(first_text_v(m, none) is None);
            text_stays(m, all, 1);
        }
    }
}

} // verus!
