//! JSON values, and their passage to and from text.
//!
//! A value is modelled by [`JsonV`]: an array is a sequence, an object a map
//! from member names to values.

use vstd::prelude::*;

use crate::text::same;

verus! {

/// `serde_json::Value`, a parsed JSON document.
#[verifier::external_type_specification]
#[verifier::external_body]
pub struct ExValue(serde_json::Value);

/// `serde_json::Number`, a JSON number.
#[verifier::external_type_specification]
#[verifier::external_body]
pub struct ExNumber(serde_json::Number);

/// What a JSON number is: a natural number of 64 bits, a negative integer of 64
/// bits, or anything else.
pub enum NumV {
    Pos(u64),
    Neg(i64),
    Real(serde_json::Number),
}

/// What a JSON value is.
#[verifier::ext_equal]
pub enum JsonV {
    Null,
    Bool(bool),
    Num(NumV),
    Str(Seq<char>),
    Arr(Seq<JsonV>),
    Obj(Map<Seq<char>, JsonV>),
}

/// What a `serde_json::Number` holds.
pub uninterp spec fn number_view(n: serde_json::Number) -> NumV;

/// What a `serde_json::Value` holds.
pub uninterp spec fn value_view(v: serde_json::Value) -> JsonV;

/// What `serde_json::from_str` makes of a text: the value that it reads, or
/// `None` where it reports an error.
pub uninterp spec fn parsed(text: Seq<char>) -> Option<JsonV>;

/// What `serde_json::Value`'s `Display` prints for a value.
pub uninterp spec fn json_text(v: JsonV) -> Seq<char>;

/// What the alternate form of `serde_json::Value`'s `Display` prints.
pub uninterp spec fn json_pretty(v: JsonV) -> Seq<char>;

/// A JSON value. In an object a later member hides an earlier one of its name.
#[derive(Debug)]
pub enum Json {
    Null,
    Bool(bool),
    Num(serde_json::Number),
    Str(String),
    Arr(Vec<Json>),
    Obj(Vec<(String, Json)>),
}

/// One level of a `serde_json::Value`, opened.
pub enum Shape {
    Null,
    Bool(bool),
    Num(serde_json::Number),
    Str(String),
    Arr(Vec<serde_json::Value>),
    Obj(Vec<(String, serde_json::Value)>),
}

/// The members of an object, as a map.
pub open spec fn fields_v(s: Seq<(String, Json)>) -> Map<Seq<char>, JsonV>
    decreases s,
{
    if s.len() == 0 {
        Map::empty()
    } else {
        fields_v(s.drop_last()).insert(s.last().0@, s.last().1.view())
    }
}

/// The items of an array.
pub open spec fn items_v(s: Seq<Json>) -> Seq<JsonV>
    decreases s,
{
    if s.len() == 0 {
        Seq::empty()
    } else {
        items_v(s.drop_last()).push(s.last().view())
    }
}

impl Json {
    pub open spec fn view(&self) -> JsonV
        decreases self,
    {
        match self {
            Json::Null => JsonV::Null,
            Json::Bool(b) => JsonV::Bool(*b),
            Json::Num(n) => JsonV::Num(number_view(*n)),
            Json::Str(s) => JsonV::Str(s@),
            Json::Arr(v) => JsonV::Arr(items_v(v@)),
            Json::Obj(v) => JsonV::Obj(fields_v(v@)),
        }
    }
}

/// The values of a list of `serde_json::Value`.
pub open spec fn value_items(s: Seq<serde_json::Value>) -> Seq<JsonV> {
    s.map_values(|v: serde_json::Value| value_view(v))
}

/// The members of a list of names and `serde_json::Value`, later ones first.
pub open spec fn value_fields(s: Seq<(String, serde_json::Value)>) -> Map<Seq<char>, JsonV>
    decreases s.len(),
{
    if s.len() == 0 {
        Map::empty()
    } else {
        value_fields(s.drop_last()).insert(s.last().0@, value_view(s.last().1))
    }
}

/// No two members have the same name.
pub open spec fn distinct_names(s: Seq<(String, serde_json::Value)>) -> bool {
    forall|i: int, j: int|
        0 <= i < j < s.len() ==> (#[trigger] s[i]).0@ != (#[trigger] s[j]).0@
}

impl Shape {
    pub open spec fn view(&self) -> JsonV {
        match self {
            Shape::Null => JsonV::Null,
            Shape::Bool(b) => JsonV::Bool(*b),
            Shape::Num(n) => JsonV::Num(number_view(*n)),
            Shape::Str(s) => JsonV::Str(s@),
            Shape::Arr(v) => JsonV::Arr(value_items(v@)),
            Shape::Obj(v) => JsonV::Obj(value_fields(v@)),
        }
    }
}

/// The variants of `serde_json::Value`, told apart; an object's members come
/// out in the order of its iterator, each name once.
#[verifier::external_body]
fn open_value(v: serde_json::Value) -> (r: Shape)
    ensures
        r@ == value_view(v),
        r matches Shape::Obj(fields) ==> distinct_names(fields@),
{
    match v {
        serde_json::Value::Null => Shape::Null,
        serde_json::Value::Bool(b) => Shape::Bool(b),
        serde_json::Value::Number(n) => Shape::Num(n),
        serde_json::Value::String(s) => Shape::Str(s),
        serde_json::Value::Array(items) => Shape::Arr(items),
        serde_json::Value::Object(map) => Shape::Obj(map.into_iter().collect()),
    }
}

/// The variants of `serde_json::Value`, put together; an object is collected
/// from its members in order, so that a later one replaces an earlier one.
#[verifier::external_body]
fn close_value(s: Shape) -> (r: serde_json::Value)
    ensures
        value_view(r) == s@,
{
    match s {
        Shape::Null => serde_json::Value::Null,
        Shape::Bool(b) => serde_json::Value::Bool(b),
        Shape::Num(n) => serde_json::Value::Number(n),
        Shape::Str(s) => serde_json::Value::String(s),
        Shape::Arr(items) => serde_json::Value::Array(items),
        Shape::Obj(fields) => serde_json::Value::Object(fields.into_iter().collect()),
    }
}

/// `serde_json::from_str` into a `Value`. Its result is a function of the text.
#[verifier::external_body]
fn value_from_str(text: &str) -> (r: Option<serde_json::Value>)
    ensures
        match r {
            Some(v) => parsed(text@) == Some(value_view(v)),
            None => parsed(text@) is None,
        },
{
    serde_json::from_str(text).ok()
}

/// What `serde_json::from_slice` makes of a byte sequence.
pub uninterp spec fn parsed_bytes(bytes: Seq<u8>) -> Option<JsonV>;

/// `serde_json::from_slice` into a `Value`. On valid UTF-8 it reads what
/// `from_str` reads of the decoded text.
#[verifier::external_body]
fn value_from_slice(bytes: &[u8]) -> (r: Option<serde_json::Value>)
    ensures
        match r {
            Some(v) => parsed_bytes(bytes@) == Some(value_view(v)),
            None => parsed_bytes(bytes@) is None,
        },
        vstd::utf8::valid_utf8(bytes@) ==> (match r {
            Some(v) => parsed(vstd::utf8::decode_utf8(bytes@)) == Some(value_view(v)),
            None => parsed(vstd::utf8::decode_utf8(bytes@)) is None,
        }),
{
    serde_json::from_slice(bytes).ok()
}

/// `serde_json::Value`'s `Display`: compact JSON text, a function of the value.
/// That the text parses back to the value is not claimed: the parser refuses
/// values that are nested too deep.
#[verifier::external_body]
fn value_to_string(v: &serde_json::Value) -> (r: String)
    ensures
        r@ == json_text(value_view(*v)),
{
    v.to_string()
}

/// `serde_json::Value`'s alternate `Display`: indented JSON text.
#[verifier::external_body]
fn value_to_pretty(v: &serde_json::Value) -> (r: String)
    ensures
        r@ == json_pretty(value_view(*v)),
{
    format!("{v:#}")
}

/// `serde_json::Number::as_u64`.
#[verifier::external_body]
fn number_u64(n: &serde_json::Number) -> (r: Option<u64>)
    ensures
        r == (match number_view(*n) {
            NumV::Pos(u) => Some(u),
            _ => None,
        }),
{
    n.as_u64()
}

/// `serde_json::Number::as_i64`.
#[verifier::external_body]
fn number_i64(n: &serde_json::Number) -> (r: Option<i64>)
    ensures
        r == (match number_view(*n) {
            NumV::Pos(u) => if u <= i64::MAX {
                Some(u as i64)
            } else {
                None
            },
            NumV::Neg(i) => Some(i),
            NumV::Real(_) => None,
        }),
{
    n.as_i64()
}

/// `serde_json::Number::from` of a natural number.
#[verifier::external_body]
fn number_from(u: u64) -> (r: serde_json::Number)
    ensures
        number_view(r) == NumV::Pos(u),
{
    serde_json::Number::from(u)
}

/// `serde_json::Number::clone`.
#[verifier::external_body]
fn number_clone(n: &serde_json::Number) -> (r: serde_json::Number)
    ensures
        number_view(r) == number_view(*n),
{
    n.clone()
}

impl JsonV {
    /// The member `k` of an object.
    pub open spec fn get(self, k: Seq<char>) -> Option<JsonV> {
        match self {
            JsonV::Obj(m) => if m.contains_key(k) {
                Some(m[k])
            } else {
                None
            },
            _ => None,
        }
    }

    pub open spec fn is_obj(self) -> bool {
        self is Obj
    }

    pub open spec fn text(self) -> Option<Seq<char>> {
        match self {
            JsonV::Str(s) => Some(s),
            _ => None,
        }
    }

    pub open spec fn uint(self) -> Option<u64> {
        match self {
            JsonV::Num(NumV::Pos(u)) => Some(u),
            _ => None,
        }
    }

    pub open spec fn sint(self) -> Option<i64> {
        match self {
            JsonV::Num(NumV::Pos(u)) => if u <= i64::MAX {
                Some(u as i64)
            } else {
                None
            },
            JsonV::Num(NumV::Neg(i)) => Some(i),
            _ => None,
        }
    }

    pub open spec fn truth(self) -> Option<bool> {
        match self {
            JsonV::Bool(b) => Some(b),
            _ => None,
        }
    }

    pub open spec fn list(self) -> Option<Seq<JsonV>> {
        match self {
            JsonV::Arr(s) => Some(s),
            _ => None,
        }
    }

    /// The text of the member `k`.
    pub open spec fn get_text(self, k: Seq<char>) -> Option<Seq<char>> {
        match self.get(k) {
            Some(v) => v.text(),
            None => None,
        }
    }

    /// The natural number in the member `k`.
    pub open spec fn get_uint(self, k: Seq<char>) -> Option<u64> {
        match self.get(k) {
            Some(v) => v.uint(),
            None => None,
        }
    }

    /// The items of the array in the member `k`.
    pub open spec fn get_list(self, k: Seq<char>) -> Option<Seq<JsonV>> {
        match self.get(k) {
            Some(v) => v.list(),
            None => None,
        }
    }

    /// The object with `v` as its member `k`.
    pub open spec fn with(self, k: Seq<char>, v: JsonV) -> JsonV {
        match self {
            JsonV::Obj(m) => JsonV::Obj(m.insert(k, v)),
            _ => self,
        }
    }

    /// The object without its member `k`.
    pub open spec fn without(self, k: Seq<char>) -> JsonV {
        match self {
            JsonV::Obj(m) => JsonV::Obj(m.remove(k)),
            _ => self,
        }
    }

    /// The object with `v` as its member `k` where it had none.
    pub open spec fn or_with(self, k: Seq<char>, v: JsonV) -> JsonV {
        if self.get(k) is Some {
            self
        } else {
            self.with(k, v)
        }
    }
}

/// The object without members.
pub open spec fn empty_v() -> JsonV {
    JsonV::Obj(Map::empty())
}

pub open spec fn uint_v(n: u64) -> JsonV {
    JsonV::Num(NumV::Pos(n))
}

pub open spec fn opt_json(o: Option<&Json>) -> Option<JsonV> {
    match o {
        Some(v) => Some(v@),
        None => None,
    }
}

pub open spec fn opt_owned(o: Option<Json>) -> Option<JsonV> {
    match o {
        Some(v) => Some(v@),
        None => None,
    }
}

pub open spec fn opt_str(o: Option<&str>) -> Option<Seq<char>> {
    match o {
        Some(v) => Some(v@),
        None => None,
    }
}

/// There are as many items as elements.
pub broadcast proof fn items_len(s: Seq<Json>)
    ensures
        #[trigger] items_v(s).len() == s.len(),
    decreases s,
{
    if s.len() > 0 {
        items_len(s.drop_last());
    }
}

/// The items are the views of the elements.
pub broadcast proof fn items_at(s: Seq<Json>, i: int)
    requires
        0 <= i < s.len(),
    ensures
        #[trigger] items_v(s)[i] == s[i].view(),
    decreases s,
{
    items_len(s.drop_last());
    if i < s.len() - 1 {
        items_at(s.drop_last(), i);
        assert(s.drop_last()[i] == s[i]);
    }
}

pub broadcast group group_items {
    items_len,
    items_at,
}

/// Putting a member in after taking it out is replacing it.
pub proof fn put_back(v: JsonV, k: Seq<char>, x: JsonV)
    ensures
        v.without(k).with(k, x) == v.with(k, x),
        v.get(k) is None ==> v.without(k) == v,
{
    if let JsonV::Obj(m) = v {
        assert(m.remove(k).insert(k, x) =~= m.insert(k, x));
        if !m.contains_key(k) {
            assert(m.remove(k) =~= m);
        }
    }
}

proof fn items_push(s: Seq<Json>, v: Json)
    ensures
        items_v(s.push(v)) == items_v(s).push(v.view()),
{
    assert(s.push(v).drop_last() =~= s);
}

proof fn fields_push(s: Seq<(String, Json)>, f: (String, Json))
    ensures
        fields_v(s.push(f)) == fields_v(s).insert(f.0@, f.1.view()),
{
    assert(s.push(f).drop_last() =~= s);
}

proof fn fields_update(s: Seq<(String, Json)>, i: int, f: (String, Json))
    requires
        0 <= i < s.len(),
        s[i].0@ == f.0@,
        forall|j: int| i < j < s.len() ==> (#[trigger] s[j]).0@ != f.0@,
    ensures
        fields_v(s.update(i, f)) == fields_v(s).insert(f.0@, f.1.view()),
    decreases s.len(),
{
    if i == s.len() - 1 {
        assert(s.update(i, f).drop_last() =~= s.drop_last());
        assert(fields_v(s.update(i, f)) =~= fields_v(s).insert(f.0@, f.1.view()));
    } else {
        assert(s.update(i, f).drop_last() =~= s.drop_last().update(i, f));
        fields_update(s.drop_last(), i, f);
        assert(fields_v(s.update(i, f)) =~= fields_v(s).insert(f.0@, f.1.view()));
    }
}

proof fn same_but(
    a: Map<Seq<char>, JsonV>,
    b: Map<Seq<char>, JsonV>,
    k: Seq<char>,
    q: Seq<char>,
)
    requires
        a.remove(k) == b.remove(k),
        q != k,
    ensures
        a.contains_key(q) == b.contains_key(q),
        a.contains_key(q) ==> a[q] == b[q],
{
    assert(a.remove(k).dom().contains(q) == a.dom().contains(q));
    assert(b.remove(k).dom().contains(q) == b.dom().contains(q));
    assert(a.contains_key(q) ==> a.remove(k)[q] == b.remove(k)[q]);
}

proof fn fields_remove(s: Seq<(String, Json)>, i: int)
    requires
        0 <= i < s.len(),
    ensures
        fields_v(s.remove(i)).remove(s[i].0@) == fields_v(s).remove(s[i].0@),
    decreases s.len(),
{
    let k = s[i].0@;
    if i == s.len() - 1 {
        assert(s.remove(i) =~= s.drop_last());
        assert(fields_v(s.remove(i)).remove(k) =~= fields_v(s).remove(k));
    } else {
        assert(s.remove(i).drop_last() =~= s.drop_last().remove(i));
        fields_remove(s.drop_last(), i);
        assert(s.remove(i).last() == s.last());
        assert(s.remove(i).len() > 0);
        let a = fields_v(s.drop_last().remove(i));
        let b = fields_v(s.drop_last());
        assert(a.remove(k) == b.remove(k));
        let l = s.last();
        assert(fields_v(s) == b.insert(l.0@, l.1.view()));
        assert(fields_v(s.remove(i)) == a.insert(l.0@, l.1.view()));
        let x = fields_v(s.remove(i)).remove(k);
        let y = fields_v(s).remove(k);
        assert forall|q: Seq<char>| x.contains_key(q) == y.contains_key(q) by {
            if q != k && q != l.0@ {
                same_but(a, b, k, q);
            }
        }
        assert forall|q: Seq<char>| x.contains_key(q) implies x[q] == y[q] by {
            if q != l.0@ {
                same_but(a, b, k, q);
            }
        }
        assert(x =~= y);
    }
}

proof fn fields_absent(s: Seq<(String, Json)>, k: Seq<char>)
    requires
        forall|j: int| 0 <= j < s.len() ==> (#[trigger] s[j]).0@ != k,
    ensures
        !fields_v(s).contains_key(k),
    decreases s.len(),
{
    if s.len() > 0 {
        fields_absent(s.drop_last(), k);
    }
}

proof fn fields_found(s: Seq<(String, Json)>, i: int)
    requires
        0 <= i < s.len(),
        forall|j: int| i < j < s.len() ==> (#[trigger] s[j]).0@ != s[i].0@,
    ensures
        fields_v(s).contains_key(s[i].0@),
        fields_v(s)[s[i].0@] == s[i].1.view(),
    decreases s.len(),
{
    if i < s.len() - 1 {
        assert forall|j: int| i < j < s.drop_last().len() implies (
        #[trigger] s.drop_last()[j]).0@ != s.drop_last()[i].0@ by {
            assert(s.drop_last()[j] == s[j]);
        }
        fields_found(s.drop_last(), i);
    }
}

/// The names of the members are those in the list.
pub proof fn names_are_members(s: Seq<(String, Json)>, k: Seq<char>)
    ensures
        fields_v(s).contains_key(k) <==> exists|i: int| 0 <= i < s.len() && (#[trigger] s[i]).0@ == k,
        fields_v(s).dom().finite(),
    decreases s.len(),
{
    if s.len() > 0 {
        names_are_members(s.drop_last(), k);
        if fields_v(s).contains_key(k) && s.last().0@ != k {
            let i = choose|i: int| 0 <= i < s.drop_last().len() && (
            #[trigger] s.drop_last()[i]).0@ == k;
            assert(s[i].0@ == k);
        }
        if fields_v(s).contains_key(k) && s.last().0@ == k {
            assert(s[s.len() - 1].0@ == k);
        }
        if exists|i: int| 0 <= i < s.len() && (#[trigger] s[i]).0@ == k {
            let i = choose|i: int| 0 <= i < s.len() && (#[trigger] s[i]).0@ == k;
            if i < s.len() - 1 {
                assert(s.drop_last()[i].0@ == k);
            }
        }
    }
}

/// The items of an array are smaller than the array.
pub proof fn item_smaller(j: Json, v: Vec<Json>, i: int)
    requires
        j == Json::Arr(v),
        0 <= i < v@.len(),
    ensures
        decreases_to!(j => v@[i]),
{
    assert(decreases_to!(j => j->Arr_0));
    assert(decreases_to!(v => v@));
    assert(decreases_to!(v@ => v@[i]));
}

/// The members of an object are smaller than the object.
pub proof fn member_smaller(j: Json, v: Vec<(String, Json)>, i: int)
    requires
        j == Json::Obj(v),
        0 <= i < v@.len(),
    ensures
        decreases_to!(j => v@[i].1),
{
    assert(decreases_to!(j => j->Obj_0));
    assert(decreases_to!(v => v@));
    assert(decreases_to!(v@ => v@[i]));
    assert(decreases_to!(v@[i] => v@[i].1));
}

/// The last member named `k`.
pub fn position(v: &Vec<(String, Json)>, k: &str) -> (r: Option<usize>)
    ensures
        match r {
            Some(i) => {
                &&& i < v@.len()
                &&& v@[i as int].0@ == k@
                &&& forall|j: int| i < j < v@.len() ==> (#[trigger] v@[j]).0@ != k@
                &&& fields_v(v@).contains_key(k@)
                &&& fields_v(v@)[k@] == v@[i as int].1.view()
            },
            None => {
                &&& forall|j: int| 0 <= j < v@.len() ==> (#[trigger] v@[j]).0@ != k@
                &&& !fields_v(v@).contains_key(k@)
            },
        },
{
    let mut i: usize = v.len();
    while i > 0
        invariant
            i <= v@.len(),
            forall|j: int| i <= j < v@.len() ==> (#[trigger] v@[j]).0@ != k@,
        decreases i,
    {
        if same(&v[i - 1].0, k) {
            proof {
                fields_found(v@, i - 1);
            }
            return Some(i - 1);
        }
        i -= 1;
    }
    proof {
        fields_absent(v@, k@);
    }
    None
}

impl Json {
    /// An object without members.
    pub fn object() -> (r: Json)
        ensures
            r@ == empty_v(),
    {
        let v: Vec<(String, Json)> = Vec::new();
        assert(fields_v(v@) =~= Map::empty());
        Json::Obj(v)
    }

    pub fn uint(n: u64) -> (r: Json)
        ensures
            r@ == uint_v(n),
    {
        Json::Num(number_from(n))
    }

    pub fn bool(b: bool) -> (r: Json)
        ensures
            r@ == JsonV::Bool(b),
    {
        Json::Bool(b)
    }

    pub fn str(s: &str) -> (r: Json)
        ensures
            r@ == JsonV::Str(s@),
    {
        Json::Str(s.to_owned())
    }

    pub fn string(s: String) -> (r: Json)
        ensures
            r@ == JsonV::Str(s@),
    {
        Json::Str(s)
    }

    pub fn array(v: Vec<Json>) -> (r: Json)
        ensures
            r@ == JsonV::Arr(items_v(v@)),
    {
        Json::Arr(v)
    }

    /// The member `k` of an object.
    pub fn get(&self, k: &str) -> (r: Option<&Json>)
        ensures
            opt_json(r) == self@.get(k@),
    {
        match self {
            Json::Obj(v) => match position(v, k) {
                Some(i) => Some(&v[i].1),
                None => None,
            },
            _ => None,
        }
    }

    pub fn is_object(&self) -> (r: bool)
        ensures
            r == self@.is_obj(),
    {
        match self {
            Json::Obj(_) => true,
            _ => false,
        }
    }

    pub fn is_null(&self) -> (r: bool)
        ensures
            r == (self@ is Null),
    {
        match self {
            Json::Null => true,
            _ => false,
        }
    }

    pub fn as_str(&self) -> (r: Option<&str>)
        ensures
            opt_str(r) == self@.text(),
    {
        match self {
            Json::Str(s) => Some(s.as_str()),
            _ => None,
        }
    }

    pub fn as_u64(&self) -> (r: Option<u64>)
        ensures
            r == self@.uint(),
    {
        match self {
            Json::Num(n) => number_u64(n),
            _ => None,
        }
    }

    pub fn as_i64(&self) -> (r: Option<i64>)
        ensures
            r == self@.sint(),
    {
        match self {
            Json::Num(n) => number_i64(n),
            _ => None,
        }
    }

    pub fn as_bool(&self) -> (r: Option<bool>)
        ensures
            r == self@.truth(),
    {
        match self {
            Json::Bool(b) => Some(*b),
            _ => None,
        }
    }

    pub fn as_array(&self) -> (r: Option<&Vec<Json>>)
        ensures
            match r {
                Some(v) => self@.list() == Some(items_v(v@)),
                None => self@.list() is None,
            },
    {
        match self {
            Json::Arr(v) => Some(v),
            _ => None,
        }
    }

    /// The text of the member `k`.
    pub fn get_str(&self, k: &str) -> (r: Option<&str>)
        ensures
            opt_str(r) == self@.get_text(k@),
    {
        match self.get(k) {
            Some(v) => v.as_str(),
            None => None,
        }
    }

    /// The natural number in the member `k`.
    pub fn get_u64(&self, k: &str) -> (r: Option<u64>)
        ensures
            r == self@.get_uint(k@),
    {
        match self.get(k) {
            Some(v) => v.as_u64(),
            None => None,
        }
    }

    /// The items of the array in the member `k`.
    pub fn get_array(&self, k: &str) -> (r: Option<&Vec<Json>>)
        ensures
            match r {
                Some(v) => self@.get_list(k@) == Some(items_v(v@)),
                None => self@.get_list(k@) is None,
            },
    {
        match self.get(k) {
            Some(v) => v.as_array(),
            None => None,
        }
    }

    /// Makes `v` the member `k` of an object; leaves any other value alone.
    pub fn set(&mut self, k: &str, v: Json)
        ensures
            final(self)@ == old(self)@.with(k@, v@),
    {
        match self {
            Json::Obj(fields) => {
                let ghost before = fields@;
                match position(fields, k) {
                    Some(i) => {
                        let entry = (k.to_owned(), v);
                        proof {
                            fields_update(before, i as int, entry);
                        }
                        fields.set(i, entry);
                    },
                    None => {
                        let entry = (k.to_owned(), v);
                        proof {
                            fields_push(before, entry);
                        }
                        fields.push(entry);
                    },
                }
            },
            _ => {},
        }
    }

    /// Makes `v` the member `k` of an object that has none of that name.
    pub fn set_default(&mut self, k: &str, v: Json)
        ensures
            final(self)@ == old(self)@.or_with(k@, v@),
    {
        if self.get(k).is_none() {
            self.set(k, v);
        }
    }

    /// The object with `v` as its member `k`.
    pub fn with(self, k: &str, v: Json) -> (r: Json)
        ensures
            r@ == self@.with(k@, v@),
    {
        let mut out = self;
        out.set(k, v);
        out
    }

    /// Takes the member `k` out of an object.
    pub fn take(&mut self, k: &str) -> (r: Option<Json>)
        ensures
            opt_owned(r) == old(self)@.get(k@),
            final(self)@ == old(self)@.without(k@),
    {
        match self {
            Json::Obj(fields) => take_field(fields, k),
            _ => None,
        }
    }

    /// A copy of the value.
    pub fn copy(&self) -> (r: Json)
        ensures
            r@ == self@,
        decreases self,
    {
        match self {
            Json::Null => Json::Null,
            Json::Bool(b) => Json::Bool(*b),
            Json::Num(n) => Json::Num(number_clone(n)),
            Json::Str(s) => Json::Str(s.clone()),
            Json::Arr(v) => {
                let mut out: Vec<Json> = Vec::new();
                let mut i: usize = 0;
                while i < v.len()
                    invariant
                        i <= v@.len(),
                        *self == Json::Arr(*v),
                        items_v(out@) == items_v(v@.take(i as int)),
                    decreases v@.len() - i,
                {
                    proof {
                        item_smaller(*self, *v, i as int);
                    }
                    let item = v[i].copy();
                    proof {
                        items_push(out@, item);
                        items_push(v@.take(i as int), v@[i as int]);
                        assert(v@.take(i + 1) =~= v@.take(i as int).push(v@[i as int]));
                    }
                    out.push(item);
                    i += 1;
                }
                assert(v@.take(i as int) =~= v@);
                Json::Arr(out)
            },
            Json::Obj(v) => {
                let mut out: Vec<(String, Json)> = Vec::new();
                let mut i: usize = 0;
                while i < v.len()
                    invariant
                        i <= v@.len(),
                        *self == Json::Obj(*v),
                        fields_v(out@) == fields_v(v@.take(i as int)),
                    decreases v@.len() - i,
                {
                    proof {
                        member_smaller(*self, *v, i as int);
                    }
                    let entry = (v[i].0.clone(), v[i].1.copy());
                    proof {
                        fields_push(out@, entry);
                        fields_push(v@.take(i as int), v@[i as int]);
                        assert(v@.take(i + 1) =~= v@.take(i as int).push(v@[i as int]));
                    }
                    out.push(entry);
                    i += 1;
                }
                assert(v@.take(i as int) =~= v@);
                Json::Obj(out)
            },
        }
    }
}

fn take_field(fields: &mut Vec<(String, Json)>, k: &str) -> (r: Option<Json>)
    ensures
        opt_owned(r) == JsonV::Obj(fields_v(old(fields)@)).get(k@),
        fields_v(final(fields)@) == fields_v(old(fields)@).remove(k@),
{
    let first: Option<usize> = position(fields, k);
    match first {
        None => {
            assert(fields_v(fields@) =~= fields_v(fields@).remove(k@));
            None
        },
        Some(i) => {
            proof {
                fields_remove(fields@, i as int);
            }
            let entry = fields.remove(i);
            let mut more: Option<usize> = position(fields, k);
            while more.is_some()
                invariant
                    fields_v(fields@).remove(k@) == fields_v(old(fields)@).remove(k@),
                    match more {
                        Some(i) => i < fields@.len() && fields@[i as int].0@ == k@,
                        None => !fields_v(fields@).contains_key(k@),
                    },
                decreases fields@.len(),
            {
                if let Some(i) = more {
                    proof {
                        fields_remove(fields@, i as int);
                    }
                    fields.remove(i);
                }
                more = position(fields, k);
            }
            assert(fields_v(fields@) =~= fields_v(fields@).remove(k@));
            Some(entry.1)
        },
    }
}

/// Copies of the values.
pub fn copy_items(v: &Vec<Json>) -> (r: Vec<Json>)
    ensures
        items_v(r@) == items_v(v@),
        r@.len() == v@.len(),
{
    let mut out: Vec<Json> = Vec::new();
    let mut i: usize = 0;
    while i < v.len()
        invariant
            i <= v@.len(),
            out@.len() == i,
            items_v(out@) == items_v(v@.take(i as int)),
        decreases v@.len() - i,
    {
        let item = v[i].copy();
        proof {
            items_push(out@, item);
            items_push(v@.take(i as int), v@[i as int]);
            assert(v@.take(i + 1) =~= v@.take(i as int).push(v@[i as int]));
        }
        out.push(item);
        i += 1;
    }
    assert(v@.take(i as int) =~= v@);
    out
}

/// Appends a value.
pub fn push_item(v: &mut Vec<Json>, item: Json)
    ensures
        items_v(final(v)@) == items_v(old(v)@).push(item@),
        final(v)@.len() == old(v)@.len() + 1,
{
    proof {
        items_push(v@, item);
    }
    v.push(item);
}

/// Appends the values of another list.
pub fn append_items(v: &mut Vec<Json>, more: Vec<Json>)
    ensures
        items_v(final(v)@) == items_v(old(v)@) + items_v(more@),
{
    let ghost before = items_v(v@);
    let ghost all = more@;
    assert(items_v(all.take(0)) =~= Seq::<JsonV>::empty());
    assert(before + items_v(all.take(0)) =~= before);
    for item in it: more
        invariant
            it.seq() == all,
            items_v(v@) == before + items_v(all.take(it.index() as int)),
    {
        let ghost i = it.index() as int;
        proof {
            items_push(v@, item);
            items_push(all.take(i), item);
            assert(all.take(i + 1) =~= all.take(i).push(all[i]));
            assert(before + items_v(all.take(i)).push(item@) =~= (before + items_v(
                all.take(i),
            )).push(item@));
        }
        v.push(item);
    }
    assert(all.take(all.len() as int) =~= all);
}

proof fn fields_finite(s: Seq<(String, serde_json::Value)>)
    ensures
        value_fields(s).dom().finite(),
    decreases s.len(),
{
    if s.len() > 0 {
        fields_finite(s.drop_last());
    }
}

/// The members of a list with distinct names are the members of the map.
proof fn member_found(s: Seq<(String, serde_json::Value)>, i: int)
    requires
        distinct_names(s),
        0 <= i < s.len(),
    ensures
        value_fields(s).contains_key(s[i].0@),
        value_fields(s)[s[i].0@] == value_view(s[i].1),
        value_fields(s).dom().finite(),
    decreases s.len(),
{
    fields_finite(s);
    if i < s.len() - 1 {
        assert forall|a: int, b: int| 0 <= a < b < s.drop_last().len() implies (
        #[trigger] s.drop_last()[a]).0@ != (#[trigger] s.drop_last()[b]).0@ by {
            assert(s[a].0@ != s[b].0@);
        }
        member_found(s.drop_last(), i);
        assert(s[i].0@ != s[s.len() - 1].0@);
    }
}

/// The value in a `serde_json::Value`.
fn json_of(v: serde_json::Value) -> (r: Json)
    ensures
        r@ == value_view(v),
    decreases value_view(v),
{
    let ghost whole = value_view(v);
    match open_value(v) {
        Shape::Null => Json::Null,
        Shape::Bool(b) => Json::Bool(b),
        Shape::Num(n) => Json::Num(n),
        Shape::Str(s) => Json::Str(s),
        Shape::Arr(items) => {
            let ghost all = items@;
            let mut out: Vec<Json> = Vec::new();
            for item in it: items
                invariant
                    it.seq() == all,
                    whole == JsonV::Arr(value_items(all)),
                    items_v(out@) == value_items(all.take(it.index() as int)),
                    value_view(v) == whole,
            {
                let ghost i = it.index() as int;
                assert(value_items(all)[i] == value_view(item));
                assert(decreases_to!(whole => whole->Arr_0));
                assert(decreases_to!(value_items(all) => value_items(all)[i]));
                let json = json_of(item);
                proof {
                    items_push(out@, json);
                    assert(value_items(all.take(i + 1)) =~= value_items(all.take(i)).push(
                        value_view(item),
                    ));
                }
                out.push(json);
            }
            assert(all.take(all.len() as int) =~= all);
            Json::Arr(out)
        },
        Shape::Obj(fields) => {
            let ghost all = fields@;
            let mut out: Vec<(String, Json)> = Vec::new();
            for entry in it: fields
                invariant
                    it.seq() == all,
                    distinct_names(all),
                    whole == JsonV::Obj(value_fields(all)),
                    fields_v(out@) == value_fields(all.take(it.index() as int)),
                    value_view(v) == whole,
            {
                let ghost i = it.index() as int;
                let (name, item) = entry;
                assert(all.take(i + 1).drop_last() =~= all.take(i));
                proof {
                    member_found(all, i);
                }
                assert(decreases_to!(whole => whole->Obj_0));
                assert(decreases_to!(value_fields(all) => value_fields(all)[all[i].0@]));
                let json = json_of(item);
                proof {
                    fields_push(out@, (name, json));
                }
                out.push((name, json));
            }
            assert(all.take(all.len() as int) =~= all);
            Json::Obj(out)
        },
    }
}

/// The `serde_json::Value` of a value.
fn value_of(j: &Json) -> (r: serde_json::Value)
    ensures
        value_view(r) == j@,
    decreases j,
{
    match j {
        Json::Null => close_value(Shape::Null),
        Json::Bool(b) => close_value(Shape::Bool(*b)),
        Json::Num(n) => close_value(Shape::Num(number_clone(n))),
        Json::Str(s) => close_value(Shape::Str(s.clone())),
        Json::Arr(v) => {
            let mut out: Vec<serde_json::Value> = Vec::new();
            let mut i: usize = 0;
            while i < v.len()
                invariant
                    i <= v@.len(),
                    *j == Json::Arr(*v),
                    value_items(out@) == items_v(v@.take(i as int)),
                decreases v@.len() - i,
            {
                proof {
                    item_smaller(*j, *v, i as int);
                }
                let item = value_of(&v[i]);
                let ghost before = out@;
                proof {
                    items_push(v@.take(i as int), v@[i as int]);
                    assert(v@.take(i + 1) =~= v@.take(i as int).push(v@[i as int]));
                    assert(value_items(before.push(item)) =~= value_items(before).push(
                        value_view(item),
                    ));
                }
                out.push(item);
                i += 1;
            }
            assert(v@.take(i as int) =~= v@);
            close_value(Shape::Arr(out))
        },
        Json::Obj(v) => {
            let mut out: Vec<(String, serde_json::Value)> = Vec::new();
            let mut i: usize = 0;
            while i < v.len()
                invariant
                    i <= v@.len(),
                    *j == Json::Obj(*v),
                    value_fields(out@) == fields_v(v@.take(i as int)),
                decreases v@.len() - i,
            {
                proof {
                    member_smaller(*j, *v, i as int);
                }
                let entry = (v[i].0.clone(), value_of(&v[i].1));
                let ghost before = out@;
                proof {
                    fields_push(v@.take(i as int), v@[i as int]);
                    assert(v@.take(i + 1) =~= v@.take(i as int).push(v@[i as int]));
                    assert(before.push(entry).drop_last() =~= before);
                }
                out.push(entry);
                i += 1;
            }
            assert(v@.take(i as int) =~= v@);
            close_value(Shape::Obj(out))
        },
    }
}

/// The value that a JSON text denotes, if it is one.
pub fn parse(text: &str) -> (r: Option<Json>)
    ensures
        opt_owned(r) == parsed(text@),
{
    match value_from_str(text) {
        Some(v) => Some(json_of(v)),
        None => None,
    }
}

/// The value that a sequence of bytes denotes, if it is JSON text.
pub fn parse_bytes(bytes: &[u8]) -> (r: Option<Json>)
    ensures
        opt_owned(r) == parsed_bytes(bytes@),
        vstd::utf8::valid_utf8(bytes@) ==> opt_owned(r) == parsed(
            vstd::utf8::decode_utf8(bytes@),
        ),
{
    match value_from_slice(bytes) {
        Some(v) => Some(json_of(v)),
        None => None,
    }
}

impl Json {
    /// The value as compact JSON text.
    pub fn encode(&self) -> (r: String)
        ensures
            r@ == json_text(self@),
    {
        value_to_string(&value_of(self))
    }

    /// The value as indented JSON text.
    pub fn pretty(&self) -> (r: String)
        ensures
            r@ == json_pretty(self@),
    {
        value_to_pretty(&value_of(self))
    }
}

} // verus!
