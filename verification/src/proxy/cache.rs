//! The prompt-cache fields of a request.

use vstd::prelude::*;

use crate::json;
use crate::json::{Json, JsonV};
use crate::text;
use crate::text::same;

verus! {

/// The decimal digits that `s` starts with.
pub open spec fn digits_v(s: Seq<char>) -> Seq<char>
    decreases s.len(),
{
    if s.len() > 0 && '0' <= s[0] <= '9' {
        seq![s[0]] + digits_v(s.skip(1))
    } else {
        Seq::empty()
    }
}

fn digits(v: &Vec<char>, from: usize) -> (r: String)
    requires
        from <= v@.len(),
    ensures
        r@ == digits_v(v@.skip(from as int)),
{
    let mut out = String::new();
    let mut i: usize = from;
    assert(out@ + digits_v(v@.skip(from as int)) =~= digits_v(v@.skip(from as int)));
    while i < v.len() && '0' <= v[i] && v[i] <= '9'
        invariant
            from <= i <= v@.len(),
            out@ + digits_v(v@.skip(i as int)) == digits_v(v@.skip(from as int)),
        decreases v@.len() - i,
    {
        proof {
            let rest = v@.skip(i as int);
            assert(rest[0] == v@[i as int]);
            assert(rest.skip(1) =~= v@.skip(i + 1));
            assert(out@.push(rest[0]) + digits_v(rest.skip(1)) =~= out@ + (seq![rest[0]]
                + digits_v(rest.skip(1))));
        }
        out.push(v[i]);
        i += 1;
    }
    assert(i < v@.len() ==> v@.skip(i as int)[0] == v@[i as int]);
    assert(digits_v(v@.skip(i as int)) =~= Seq::empty());
    assert(out@ + Seq::<char>::empty() =~= out@);
    out
}

pub open spec fn or_zero_v(n: Option<nat>) -> nat {
    match n {
        Some(n) => n,
        None => 0,
    }
}

/// Whether a model is a GPT of version 5.6 or later: `gpt-`, the major version,
/// and after a point the minor one, 0 where there is none.
pub open spec fn gpt_5_6_v(model: Seq<char>) -> bool {
    match text::strip_v(model, "gpt-"@) {
        None => false,
        Some(version) => {
            let point = text::find_from_v(version, "."@, 0);
            let (head, minor) = match point {
                Some(i) => (
                    version.take(i),
                    or_zero_v(
                        text::parse_uint_v(digits_v(version.skip(i + 1)), u32::MAX as nat),
                    ),
                ),
                None => (version, 0),
            };
            match text::parse_uint_v(head, u32::MAX as nat) {
                None => false,
                Some(major) => major > 5 || (major == 5 && minor >= 6),
            }
        },
    }
}

pub fn is_gpt_5_6_or_later(model: &str) -> (r: bool)
    ensures
        r == gpt_5_6_v(model@),
{
    match text::strip_prefix(model, "gpt-") {
        None => false,
        Some(version) => {
            let v = text::chars_of(&version);
            let point = text::chars_of(".");
            proof {
                reveal_strlit(".");
            }
            let (head, minor): (String, u64) = match text::find_from(&v, &point, 0) {
                Some(i) => {
                    assert(version@.take(i as int) =~= version@.subrange(0, i as int));
                    let tail = digits(&v, i + 1);
                    let minor: u64 = match text::parse_uint(&tail, u32::MAX as u64) {
                        Some(n) => n,
                        None => 0,
                    };
                    (text::string_of(&v, 0, i), minor)
                },
                None => (version, 0),
            };
            match text::parse_uint(&head, u32::MAX as u64) {
                None => false,
                Some(major) => major > 5 || (major == 5 && minor >= 6),
            }
        },
    }
}

pub fn is_gpt_5_5(model: &str) -> (r: bool)
    ensures
        r == (model@ == "gpt-5.5"@ || model@ == "gpt-5.5-pro"@),
{
    same(model, "gpt-5.5") || same(model, "gpt-5.5-pro")
}

pub open spec fn unsupported_v(options: Map<Seq<char>, JsonV>, k: Seq<char>) -> bool {
    options.contains_key(k) && k != "mode"@ && k != "ttl"@
}

/// `k` is the first option, in the order of their names, that is none.
pub open spec fn first_unsupported_v(options: Map<Seq<char>, JsonV>, k: Seq<char>) -> bool {
    unsupported_v(options, k) && forall|other: Seq<char>| #[trigger]
        unsupported_v(options, other) ==> !text::less_v(other, k)
}

pub open spec fn options_error_v(value: JsonV, later: bool) -> Option<Seq<char>> {
    if !later {
        Some("prompt_cache_options is only supported for GPT-5.6 models and later"@)
    } else {
        match value {
            JsonV::Obj(options) => if exists|k: Seq<char>| first_unsupported_v(options, k) {
                Some(
                    "unsupported prompt_cache_options field "@ + text::debug_form(
                        choose|k: Seq<char>| first_unsupported_v(options, k),
                    ),
                )
            } else if value.get("mode"@) is Some && value.get_text("mode"@) != Some("implicit"@)
                && value.get_text("mode"@) != Some("explicit"@) {
                Some("prompt_cache_options.mode must be \"implicit\" or \"explicit\""@)
            } else if value.get("ttl"@) is Some && value.get_text("ttl"@) != Some("30m"@) {
                Some("prompt_cache_options.ttl must be \"30m\""@)
            } else {
                None
            },
            _ => Some("prompt_cache_options must be an object"@),
        }
    }
}

pub open spec fn retention_error_v(value: JsonV, model: Seq<char>) -> Option<Seq<char>> {
    if gpt_5_6_v(model) {
        Some(
            "prompt_cache_retention is not supported for GPT-5.6 models and later; use prompt_cache_options.ttl"@,
        )
    } else if model == "gpt-5.5"@ || model == "gpt-5.5-pro"@ {
        if value.text() == Some("24h"@) {
            None
        } else {
            Some("prompt_cache_retention must be \"24h\" for GPT-5.5 models"@)
        }
    } else if value.text() == Some("in_memory"@) || value.text() == Some("24h"@) {
        None
    } else {
        Some("prompt_cache_retention must be \"in_memory\" or \"24h\""@)
    }
}

pub open spec fn key_error_v(value: JsonV) -> Option<Seq<char>> {
    match value.text() {
        None => Some("prompt_cache_key must be a string"@),
        Some(key) => if key.len() > 64 {
            Some("prompt_cache_key must be at most 64 characters"@)
        } else {
            None
        },
    }
}

/// What is wrong with the prompt-cache fields of a request for `model`.
pub open spec fn cache_error_v(body: JsonV, model: Seq<char>) -> Option<Seq<char>> {
    let key = match body.get("prompt_cache_key"@) {
        Some(value) => key_error_v(value),
        None => None,
    };
    let options = match body.get("prompt_cache_options"@) {
        Some(value) => options_error_v(value, gpt_5_6_v(model)),
        None => None,
    };
    let retention = match body.get("prompt_cache_retention"@) {
        Some(value) => retention_error_v(value, model),
        None => None,
    };
    if key is Some {
        key
    } else if options is Some {
        options
    } else {
        retention
    }
}

/// The first of the members, in the order of their names, that is no option.
fn first_unsupported(fields: &Vec<(String, Json)>) -> (r: Option<String>)
    ensures
        match r {
            Some(k) => first_unsupported_v(json::fields_v(fields@), k@) && forall|other: Seq<char>| #[trigger]
                first_unsupported_v(json::fields_v(fields@), other) ==> other == k@,
            None => forall|k: Seq<char>| !first_unsupported_v(json::fields_v(fields@), k),
        },
{
    let ghost options = json::fields_v(fields@);
    let mut best: Option<usize> = None;
    let mut i: usize = 0;
    while i < fields.len()
        invariant
            i <= fields@.len(),
            options == json::fields_v(fields@),
            match best {
                Some(b) => {
                    &&& b < i
                    &&& unsupported_v(options, fields@[b as int].0@)
                    &&& forall|k: int|
                        0 <= k < i && unsupported_v(options, (#[trigger] fields@[k]).0@)
                            ==> !text::less_v(fields@[k].0@, fields@[b as int].0@)
                },
                None => forall|k: int|
                    0 <= k < i ==> !unsupported_v(options, (#[trigger] fields@[k]).0@),
            },
        decreases fields@.len() - i,
    {
        proof {
            json::names_are_members(fields@, fields@[i as int].0@);
            text::less_total(fields@[i as int].0@, fields@[i as int].0@);
        }
        if !same(&fields[i].0, "mode") && !same(&fields[i].0, "ttl") {
            match best {
                None => {
                    best = Some(i);
                },
                Some(b) => {
                    if text::less(&fields[i].0, &fields[b].0) {
                        proof {
                            text::less_total(fields@[i as int].0@, fields@[b as int].0@);
                            assert forall|k: int|
                                0 <= k < i + 1 && unsupported_v(
                                    options,
                                    (#[trigger] fields@[k]).0@,
                                ) implies !text::less_v(fields@[k].0@, fields@[i as int].0@) by {
                                if k < i {
                                    text::less_chain(
                                        fields@[k].0@,
                                        fields@[b as int].0@,
                                        fields@[i as int].0@,
                                    );
                                }
                            }
                        }
                        best = Some(i);
                    }
                },
            }
        }
        i += 1;
    }
    proof {
        assert forall|k: Seq<char>| #[trigger] unsupported_v(options, k) implies exists|j: int|
            0 <= j < fields@.len() && (#[trigger] fields@[j]).0@ == k by {
            json::names_are_members(fields@, k);
        }
    }
    match best {
        None => {
            assert forall|k: Seq<char>| !first_unsupported_v(options, k) by {
                if unsupported_v(options, k) {
                    let j = choose|j: int| 0 <= j < fields@.len() && (#[trigger] fields@[j]).0@ == k;
                    assert(unsupported_v(options, fields@[j].0@));
                }
            }
            None
        },
        Some(b) => {
            let ghost name = fields@[b as int].0@;
            assert forall|other: Seq<char>| #[trigger] unsupported_v(
                options,
                other,
            ) implies !text::less_v(other, name) by {
                let j = choose|j: int| 0 <= j < fields@.len() && (#[trigger] fields@[j]).0@ == other;
                assert(unsupported_v(options, fields@[j].0@));
            }
            assert forall|other: Seq<char>| #[trigger] first_unsupported_v(
                options,
                other,
            ) implies other == name by {
                assert(unsupported_v(options, other));
                text::less_total(other, name);
            }
            Some(text::owned(&fields[b].0))
        },
    }
}

fn text_is(value: &Json, word: &str) -> (r: bool)
    ensures
        r == (value@.text() == Some(word@)),
{
    match value.as_str() {
        Some(s) => same(s, word),
        None => false,
    }
}

fn check_options(value: &Json, later: bool) -> (r: Result<(), String>)
    ensures
        match r {
            Ok(_) => options_error_v(value@, later) is None,
            Err(e) => options_error_v(value@, later) == Some(e@),
        },
{
    if !later {
        return Err(
            text::owned("prompt_cache_options is only supported for GPT-5.6 models and later"),
        );
    }
    match value {
        Json::Obj(fields) => {
            assert(value@ == JsonV::Obj(json::fields_v(fields@)));
            if let Some(field) = first_unsupported(fields) {
                return Err(
                    text::cat(
                        "unsupported prompt_cache_options field ",
                        &text::debug_text(&field),
                    ),
                );
            }
            assert(!exists|k: Seq<char>| first_unsupported_v(json::fields_v(fields@), k));
            if let Some(mode) = value.get("mode") {
                if !text_is(mode, "implicit") && !text_is(mode, "explicit") {
                    return Err(
                        text::owned(
                            "prompt_cache_options.mode must be \"implicit\" or \"explicit\"",
                        ),
                    );
                }
            }
            if let Some(ttl) = value.get("ttl") {
                if !text_is(ttl, "30m") {
                    return Err(text::owned("prompt_cache_options.ttl must be \"30m\""));
                }
            }
            Ok(())
        },
        _ => Err(text::owned("prompt_cache_options must be an object")),
    }
}

fn check_retention(value: &Json, model: &str) -> (r: Result<(), String>)
    ensures
        match r {
            Ok(_) => retention_error_v(value@, model@) is None,
            Err(e) => retention_error_v(value@, model@) == Some(e@),
        },
{
    if is_gpt_5_6_or_later(model) {
        Err(
            text::owned(
                "prompt_cache_retention is not supported for GPT-5.6 models and later; use prompt_cache_options.ttl",
            ),
        )
    } else if is_gpt_5_5(model) {
        if text_is(value, "24h") {
            Ok(())
        } else {
            Err(text::owned("prompt_cache_retention must be \"24h\" for GPT-5.5 models"))
        }
    } else if text_is(value, "in_memory") || text_is(value, "24h") {
        Ok(())
    } else {
        Err(text::owned("prompt_cache_retention must be \"in_memory\" or \"24h\""))
    }
}

/// Refuses prompt-cache fields that the model does not take.
pub fn validate_prompt_cache_fields(body: &Json, model: &str) -> (r: Result<(), String>)
    ensures
        match r {
            Ok(_) => cache_error_v(body@, model@) is None,
            Err(e) => cache_error_v(body@, model@) == Some(e@),
        },
{
    if let Some(value) = body.get("prompt_cache_key") {
        match value.as_str() {
            None => {
                return Err(text::owned("prompt_cache_key must be a string"));
            },
            Some(key) => {
                if text::chars_of(key).len() > 64 {
                    return Err(text::owned("prompt_cache_key must be at most 64 characters"));
                }
            },
        }
    }
    if let Some(value) = body.get("prompt_cache_options") {
        match check_options(value, is_gpt_5_6_or_later(model)) {
            Ok(_) => {},
            Err(e) => {
                return Err(e);
            },
        }
    }
    match body.get("prompt_cache_retention") {
        Some(value) => check_retention(value, model),
        None => Ok(()),
    }
}

/// A model takes prompt-cache options or a retention, never both.
pub proof fn options_exclude_retention(body: JsonV, model: Seq<char>)
    requires
        cache_error_v(body, model) is None,
    ensures
        !(body.get("prompt_cache_options"@) is Some && body.get("prompt_cache_retention"@) is Some),
{
}

/// The prompt-cache fields that are accepted: a key of at most 64 characters; with
/// the models that have them, options whose mode and time are known; and with the
/// others, a retention that they have.
pub proof fn cache_fields_are_accepted(body: JsonV, model: Seq<char>)
    ensures
        cache_error_v(body, model) is None <==> {
            &&& body.get("prompt_cache_key"@) matches Some(k) ==> (k.text() matches Some(s)
                && s.len() <= 64)
            &&& body.get("prompt_cache_options"@) is Some ==> gpt_5_6_v(model) && options_error_v(
                body.get("prompt_cache_options"@)->0,
                true,
            ) is None
            &&& body.get("prompt_cache_retention"@) matches Some(r) ==> !gpt_5_6_v(model) && (
            r.text() == Some("24h"@) || (r.text() == Some("in_memory"@) && model != "gpt-5.5"@
                && model != "gpt-5.5-pro"@))
        },
{
    reveal_strlit("24h");
    reveal_strlit("in_memory");
}

/// Options that are a mode or a time are accepted exactly where the mode is one of
/// the two and the time is half an hour.
pub proof fn known_options_are_accepted(options: Map<Seq<char>, JsonV>)
    requires
        forall|k: Seq<char>| #[trigger]
            options.contains_key(k) ==> k == "mode"@ || k == "ttl"@,
    ensures
        options_error_v(JsonV::Obj(options), true) is None <==> {
            let v = JsonV::Obj(options);
            &&& v.get("mode"@) is None || v.get_text("mode"@) == Some("implicit"@) || v.get_text(
                "mode"@,
            ) == Some("explicit"@)
            &&& v.get("ttl"@) is None || v.get_text("ttl"@) == Some("30m"@)
        },
{
}

/// A version is read from a model's name: before the point the major number, and
/// behind it the minor one, whatever follows its digits.
pub proof fn versions_are_read(major: Seq<char>, minor: Seq<char>, rest: Seq<char>)
    requires
        !major.contains('.'),
        forall|i: int| 0 <= i < minor.len() ==> '0' <= #[trigger] minor[i] <= '9',
        rest.len() == 0 || !('0' <= rest[0] <= '9'),
    ensures
        gpt_5_6_v("gpt-"@ + major + "."@ + minor + rest) == (match text::parse_uint_v(
            major,
            u32::MAX as nat,
        ) {
            None => false,
            Some(m) => m > 5 || (m == 5 && (text::parse_uint_v(minor, u32::MAX as nat) matches Some(
                n,
            ) && n >= 6)),
        }),
{
    reveal_strlit("gpt-");
    reveal_strlit(".");
    let version = major + "."@ + minor + rest;
    let model = "gpt-"@ + major + "."@ + minor + rest;
    assert(model =~= "gpt-"@ + version);
    assert(model.take(4) =~= "gpt-"@);
    assert(model.skip(4) =~= version);
    first_point(major, minor + rest, 0);
    assert(version =~= major + "."@ + (minor + rest));
    assert(version.take(major.len() as int) =~= major);
    assert(version.skip(major.len() as int + 1) =~= minor + rest);
    leading_digits(minor, rest);
}

proof fn first_point(major: Seq<char>, rest: Seq<char>, i: int)
    requires
        !major.contains('.'),
        0 <= i <= major.len(),
    ensures
        text::find_from_v(major + "."@ + rest, "."@, i) == Some(major.len() as int),
    decreases major.len() - i,
{
    reveal_strlit(".");
    let s = major + "."@ + rest;
    if i == major.len() {
        assert(s.subrange(i, i + 1) =~= "."@);
    } else {
        assert(s.subrange(i, i + 1)[0] == major[i]);
        assert("."@[0] == '.');
        first_point(major, rest, i + 1);
    }
}

proof fn leading_digits(minor: Seq<char>, rest: Seq<char>)
    requires
        forall|i: int| 0 <= i < minor.len() ==> '0' <= #[trigger] minor[i] <= '9',
        rest.len() == 0 || !('0' <= rest[0] <= '9'),
    ensures
        digits_v(minor + rest) == minor,
    decreases minor.len(),
{
    if minor.len() == 0 {
        assert(minor + rest =~= rest);
        assert(minor =~= Seq::<char>::empty());
    } else {
        leading_digits(minor.skip(1), rest);
        assert((minor + rest).skip(1) =~= minor.skip(1) + rest);
        assert((minor + rest)[0] == minor[0]);
        assert(seq![minor[0]] + minor.skip(1) =~= minor);
    }
}

} // verus!
