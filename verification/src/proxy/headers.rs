//! Request headers, and who may send requests.

use vstd::prelude::*;

use crate::json;
use crate::sse;
use crate::text;
use crate::text::same;

verus! {

/// Header fields in the order in which they came, their names in lower case. A
/// value that is not text is `None`.
#[derive(Debug)]
pub struct Headers {
    pub fields: Vec<(String, Option<String>)>,
}

pub type FieldV = (Seq<char>, Option<Seq<char>>);

pub open spec fn fields_v(s: Seq<(String, Option<String>)>) -> Seq<FieldV> {
    s.map_values(|f: (String, Option<String>)| (f.0@, text::opt_view(f.1)))
}

/// The text of the first field named `name`.
pub open spec fn get_v(fields: Seq<FieldV>, name: Seq<char>) -> Option<Seq<char>>
    decreases fields.len(),
{
    if fields.len() == 0 {
        None
    } else if fields[0].0 == name {
        fields[0].1
    } else {
        get_v(fields.skip(1), name)
    }
}

impl Headers {
    pub open spec fn view(&self) -> Seq<FieldV> {
        fields_v(self.fields@)
    }

    pub fn new() -> (r: Headers)
        ensures
            r@ == Seq::<FieldV>::empty(),
    {
        let fields: Vec<(String, Option<String>)> = Vec::new();
        assert(fields_v(fields@) =~= Seq::empty());
        Headers { fields }
    }

    /// Adds a field after those that are there.
    pub fn push(&mut self, name: &str, value: Option<String>)
        ensures
            final(self)@ == old(self)@.push((name@, text::opt_view(value))),
    {
        let ghost before = self.fields@;
        let field = (text::owned(name), value);
        proof {
            assert(fields_v(before.push(field)) =~= fields_v(before).push(
                (name@, text::opt_view(value)),
            ));
        }
        self.fields.push(field);
    }

    /// The text of the first field named `name`.
    pub fn get(&self, name: &str) -> (r: Option<&str>)
        ensures
            json::opt_str(r) == get_v(self@, name@),
    {
        let ghost all = fields_v(self.fields@);
        let mut i: usize = 0;
        assert(all.skip(0) =~= all);
        while i < self.fields.len()
            invariant
                i <= self.fields@.len(),
                all == fields_v(self.fields@),
                get_v(all, name@) == get_v(all.skip(i as int), name@),
            decreases self.fields@.len() - i,
        {
            proof {
                assert(all.skip(i as int)[0] == all[i as int]);
                assert(all.skip(i as int).skip(1) =~= all.skip(i + 1));
            }
            if same(&self.fields[i].0, name) {
                return match &self.fields[i].1 {
                    Some(v) => Some(v.as_str()),
                    None => None,
                };
            }
            i += 1;
        }
        None
    }

    /// The first of the named fields that may be passed on.
    pub fn first_valid(&self, names: &[&str]) -> (r: Option<&str>)
        ensures
            json::opt_str(r) == first_valid_v(self@, names_v(names@)),
    {
        let ghost all = names_v(names@);
        let mut i: usize = 0;
        while i < names.len()
            invariant
                i <= names@.len(),
                all == names_v(names@),
                first_valid_v(self@, all.take(i as int)) is None,
            decreases names@.len() - i,
        {
            proof {
                assert(all.take(i + 1).drop_last() =~= all.take(i as int));
                assert(all.take(i + 1).last() == names@[i as int]@);
                first_stays(self@, all, i + 1);
            }
            if let Some(value) = self.get(names[i]) {
                if valid_header(value) {
                    return Some(value);
                }
            }
            i += 1;
        }
        assert(all.take(i as int) =~= all);
        None
    }
}

pub open spec fn names_v(names: Seq<&str>) -> Seq<Seq<char>> {
    names.map_values(|n: &str| n@)
}

/// Not empty, at most 512 bytes, no control characters.
pub open spec fn valid_v(value: Seq<char>) -> bool {
    &&& value.len() > 0
    &&& sse::bytes_v(value).len() <= 512
    &&& forall|i: int| 0 <= i < value.len() ==> !text::is_ctl(#[trigger] value[i])
}

pub fn valid_header(value: &str) -> (r: bool)
    ensures
        r == valid_v(value@),
{
    if value.is_empty() || sse::bytes_of(value).len() > 512 {
        return false;
    }
    let v = text::chars_of(value);
    let mut i: usize = 0;
    while i < v.len()
        invariant
            i <= v@.len(),
            v@ == value@,
            forall|k: int| 0 <= k < i ==> !text::is_ctl(#[trigger] value@[k]),
        decreases v@.len() - i,
    {
        if text::control(v[i]) {
            assert(text::is_ctl(value@[i as int]));
            return false;
        }
        i += 1;
    }
    true
}

/// The value of the first of the named fields that has a valid one.
pub open spec fn first_valid_v(fields: Seq<FieldV>, names: Seq<Seq<char>>) -> Option<Seq<char>>
    decreases names.len(),
{
    if names.len() == 0 {
        None
    } else {
        match first_valid_v(fields, names.drop_last()) {
            Some(value) => Some(value),
            None => match get_v(fields, names.last()) {
                Some(value) => if valid_v(value) {
                    Some(value)
                } else {
                    None
                },
                None => None,
            },
        }
    }
}

proof fn first_stays(fields: Seq<FieldV>, names: Seq<Seq<char>>, n: int)
    requires
        0 <= n <= names.len(),
    ensures
        first_valid_v(fields, names.take(n)) is Some ==> first_valid_v(fields, names)
            == first_valid_v(fields, names.take(n)),
    decreases names.len() - n,
{
    if n < names.len() {
        first_stays(fields, names, n + 1);
        assert(names.take(n + 1).drop_last() =~= names.take(n));
    } else {
        assert(names.take(n) =~= names);
    }
}

/// Whether two byte strings are equal, in a time that depends on their lengths
/// alone.
pub fn constant_time_eq(a: &[u8], b: &[u8]) -> (r: bool)
    ensures
        r == (a@ == b@),
{
    if a.len() != b.len() {
        return false;
    }
    let mut difference: u8 = 0;
    let mut i: usize = 0;
    while i < a.len()
        invariant
            i <= a@.len(),
            a@.len() == b@.len(),
            difference == 0 <==> forall|k: int| 0 <= k < i ==> a@[k] == b@[k],
        decreases a@.len() - i,
    {
        let x: u8 = a[i];
        let y: u8 = b[i];
        let d: u8 = difference;
        assert((d | (x ^ y)) == 0u8 <==> (d == 0u8 && x == y)) by (bit_vector);
        difference = d | (x ^ y);
        i += 1;
    }
    proof {
        if difference == 0 {
            assert(a@ =~= b@);
        }
    }
    difference == 0
}

/// Whether a request may be answered: no token is set, or the request carries
/// it as its bearer credential.
pub open spec fn authorized_v(token: Seq<char>, authorization: Option<Seq<char>>) -> bool {
    text::trim_v(token).len() == 0 || (authorization is Some && text::trim_v(authorization->0)
        == "Bearer "@ + text::trim_v(token))
}

pub fn authorized(token: &str, headers: &Headers) -> (r: bool)
    ensures
        r == authorized_v(token@, get_v(headers@, "authorization"@)),
{
    let wanted = text::trim(token);
    if wanted.as_str().is_empty() {
        return true;
    }
    let wanted = text::cat("Bearer ", &wanted);
    match headers.get("authorization") {
        Some(given) => {
            let given = text::trim(given);
            proof {
                vstd::utf8::encode_utf8_decode_utf8(given@);
                vstd::utf8::encode_utf8_decode_utf8(wanted@);
            }
            constant_time_eq(given.as_str().as_bytes(), wanted.as_str().as_bytes())
        },
        None => false,
    }
}

/// A header of a reply that is not passed on: it concerns one connection only,
/// or the reply's length, or is a cookie.
pub open spec fn hop_v(name: Seq<char>) -> bool {
    ||| name == "connection"@
    ||| name == "proxy-connection"@
    ||| name == "keep-alive"@
    ||| name == "proxy-authenticate"@
    ||| name == "proxy-authorization"@
    ||| name == "te"@
    ||| name == "trailer"@
    ||| name == "transfer-encoding"@
    ||| name == "upgrade"@
    ||| name == "content-length"@
    ||| name == "set-cookie"@
}

/// Whether a header of a reply is passed on.
pub fn passes_on(name: &str) -> (r: bool)
    ensures
        r == !hop_v(name@),
{
    !(same(name, "connection") || same(name, "proxy-connection") || same(name, "keep-alive")
        || same(name, "proxy-authenticate") || same(name, "proxy-authorization") || same(name, "te")
        || same(name, "trailer") || same(name, "transfer-encoding") || same(name, "upgrade")
        || same(name, "content-length") || same(name, "set-cookie"))
}

/// A token closes the door: without it, or with another one, no request is
/// answered.
pub proof fn tokens_are_needed(token: Seq<char>, authorization: Option<Seq<char>>)
    requires
        text::trim_v(token).len() > 0,
        authorized_v(token, authorization),
    ensures
        authorization is Some,
        text::trim_v(authorization->0).skip(7) == text::trim_v(token),
{
    reveal_strlit("Bearer ");
    assert(text::trim_v(authorization->0).skip(7) =~= text::trim_v(token));
}

} // verus!
