//! Text as sequences of characters: the handful of string operations that the
//! rest of the library is built on.

use vstd::prelude::*;

verus! {

/// `String::push` appends the character at the end.
pub assume_specification[ String::push ](s: &mut String, c: char)
    ensures
        final(s)@ == old(s)@.push(c),
;

/// `String::push_str` appends the slice at the end.
pub assume_specification[ String::push_str ](s: &mut String, t: &str)
    ensures
        final(s)@ == old(s)@ + t@,
;

/// `str::eq`: two slices are equal exactly when they hold the same characters.
#[verifier::external_body]
pub(crate) fn same(a: &str, b: &str) -> (r: bool)
    ensures
        r == (a@ == b@),
{
    a == b
}

/// What `String::from_utf8_lossy` makes of a byte sequence.
pub uninterp spec fn utf8_lossy(bytes: Seq<u8>) -> Seq<char>;

/// `String::from_utf8_lossy`: decodes valid UTF-8, and puts a replacement
/// character for what is not. Its result is a function of the bytes alone.
#[verifier::external_body]
pub(crate) fn decode_lossy(bytes: &[u8]) -> (r: String)
    ensures
        r@ == utf8_lossy(bytes@),
        vstd::utf8::valid_utf8(bytes@) ==> r@ == vstd::utf8::decode_utf8(bytes@),
{
    String::from_utf8_lossy(bytes).into_owned()
}

/// What `{:?}` prints for a string: quoted, with escapes.
pub uninterp spec fn debug_form(s: Seq<char>) -> Seq<char>;

/// The `Debug` form of `str`, a function of the text alone.
#[verifier::external_body]
pub(crate) fn debug_text(s: &str) -> (r: String)
    ensures
        r@ == debug_form(s@),
{
    format!("{s:?}")
}

/// The Unicode `White_Space` property.
pub open spec fn is_space(c: char) -> bool {
    ||| 0x09 <= c as u32 <= 0x0d
    ||| c as u32 == 0x20
    ||| c as u32 == 0x85
    ||| c as u32 == 0xa0
    ||| c as u32 == 0x1680
    ||| 0x2000 <= c as u32 <= 0x200a
    ||| c as u32 == 0x2028
    ||| c as u32 == 0x2029
    ||| c as u32 == 0x202f
    ||| c as u32 == 0x205f
    ||| c as u32 == 0x3000
}

/// The Unicode general category `Cc`.
pub open spec fn is_ctl(c: char) -> bool {
    c as u32 <= 0x1f || 0x7f <= c as u32 <= 0x9f
}

pub fn space(c: char) -> (r: bool)
    ensures
        r == is_space(c),
{
    let u: u32 = c as u32;
    (0x09 <= u && u <= 0x0d) || u == 0x20 || u == 0x85 || u == 0xa0 || u == 0x1680 || (0x2000 <= u
        && u <= 0x200a) || u == 0x2028 || u == 0x2029 || u == 0x202f || u == 0x205f || u == 0x3000
}

pub fn control(c: char) -> (r: bool)
    ensures
        r == is_ctl(c),
{
    let u: u32 = c as u32;
    u <= 0x1f || (0x7f <= u && u <= 0x9f)
}

/// The characters of a string slice, in order.
pub fn chars_of(s: &str) -> (r: Vec<char>)
    ensures
        r@ == s@,
{
    let mut out: Vec<char> = Vec::new();
    for c in it: s.chars()
        invariant
            out@.len() == it.index(),
            it.seq() == s@,
            forall|i: int| 0 <= i < out@.len() ==> out@[i] == s@[i],
    {
        out.push(c);
    }
    out
}

/// The string made of `v[from..to]`.
pub fn string_of(v: &Vec<char>, from: usize, to: usize) -> (r: String)
    requires
        from <= to <= v@.len(),
    ensures
        r@ == v@.subrange(from as int, to as int),
{
    let mut out = String::new();
    let mut i: usize = from;
    while i < to
        invariant
            from <= i <= to <= v@.len(),
            out@ == v@.subrange(from as int, i as int),
        decreases to - i,
    {
        out.push(v[i]);
        i += 1;
        assert(v@.subrange(from as int, i as int) =~= v@.subrange(from as int, i - 1).push(
            v@[i - 1],
        ));
    }
    out
}

/// The whole of `v` as a string.
pub fn string_all(v: &Vec<char>) -> (r: String)
    ensures
        r@ == v@,
{
    assert(v@.subrange(0, v@.len() as int) =~= v@);
    string_of(v, 0, v.len())
}

/// A copy of a string slice.
pub fn owned(s: &str) -> (r: String)
    ensures
        r@ == s@,
{
    s.to_owned()
}

/// `a` followed by `b`.
pub fn cat(a: &str, b: &str) -> (r: String)
    ensures
        r@ == a@ + b@,
{
    let mut out = a.to_owned();
    out.push_str(b);
    out
}

/// `a` followed by `b` and `c`.
pub fn cat3(a: &str, b: &str, c: &str) -> (r: String)
    ensures
        r@ == a@ + b@ + c@,
{
    let mut out = a.to_owned();
    out.push_str(b);
    out.push_str(c);
    out
}

/// `s` without its leading white space.
pub open spec fn trim_start_v(s: Seq<char>) -> Seq<char>
    decreases s.len(),
{
    if s.len() > 0 && is_space(s[0]) {
        trim_start_v(s.skip(1))
    } else {
        s
    }
}

/// `s` without its trailing white space.
pub open spec fn trim_end_v(s: Seq<char>) -> Seq<char>
    decreases s.len(),
{
    if s.len() > 0 && is_space(s.last()) {
        trim_end_v(s.drop_last())
    } else {
        s
    }
}

/// `s` without white space at either end.
pub open spec fn trim_v(s: Seq<char>) -> Seq<char> {
    trim_end_v(trim_start_v(s))
}

fn skip_space(v: &Vec<char>) -> (r: usize)
    ensures
        r <= v@.len(),
        trim_start_v(v@) == v@.skip(r as int),
{
    let mut i: usize = 0;
    assert(v@.skip(0) =~= v@);
    while i < v.len() && space(v[i])
        invariant
            i <= v@.len(),
            trim_start_v(v@) == trim_start_v(v@.skip(i as int)),
        decreases v@.len() - i,
    {
        assert(v@.skip(i as int).skip(1) =~= v@.skip(i + 1));
        i += 1;
    }
    i
}

fn drop_space(v: &Vec<char>, from: usize) -> (r: usize)
    requires
        from <= v@.len(),
    ensures
        from <= r <= v@.len(),
        trim_end_v(v@.skip(from as int)) == v@.subrange(from as int, r as int),
{
    let mut i: usize = v.len();
    assert(v@.skip(from as int) =~= v@.subrange(from as int, i as int));
    while i > from && space(v[i - 1])
        invariant
            from <= i <= v@.len(),
            trim_end_v(v@.skip(from as int)) == trim_end_v(v@.subrange(from as int, i as int)),
        decreases i,
    {
        assert(v@.subrange(from as int, i as int).drop_last() =~= v@.subrange(from as int, i - 1));
        i -= 1;
    }
    i
}

pub fn trim_start(s: &str) -> (r: String)
    ensures
        r@ == trim_start_v(s@),
{
    let v = chars_of(s);
    let i: usize = skip_space(&v);
    assert(v@.skip(i as int) =~= v@.subrange(i as int, v@.len() as int));
    string_of(&v, i, v.len())
}

pub fn trim(s: &str) -> (r: String)
    ensures
        r@ == trim_v(s@),
{
    let v = chars_of(s);
    let i: usize = skip_space(&v);
    let j: usize = drop_space(&v, i);
    string_of(&v, i, j)
}

/// `p` is a prefix of `s`.
pub open spec fn starts_v(s: Seq<char>, p: Seq<char>) -> bool {
    p.len() <= s.len() && s.take(p.len() as int) == p
}

/// `p` is a suffix of `s`.
pub open spec fn ends_v(s: Seq<char>, p: Seq<char>) -> bool {
    p.len() <= s.len() && s.skip(s.len() - p.len()) == p
}

/// `p` stands in `s` at position `i`.
pub open spec fn at_v<T>(s: Seq<T>, p: Seq<T>, i: int) -> bool {
    0 <= i <= s.len() - p.len() && s.subrange(i, i + p.len()) == p
}

/// `p` stands somewhere in `s`.
pub open spec fn contains_v(s: Seq<char>, p: Seq<char>) -> bool {
    exists|i: int| at_v(s, p, i)
}

/// The first position of `p` in `s`, if there is one.
pub open spec fn first_at<T>(s: Seq<T>, p: Seq<T>, r: Option<int>) -> bool {
    match r {
        Some(i) => at_v(s, p, i) && forall|j: int| 0 <= j < i ==> !at_v(s, p, j),
        None => forall|j: int| !at_v(s, p, j),
    }
}

fn chars_at(v: &Vec<char>, p: &Vec<char>, at: usize) -> (r: bool)
    requires
        at <= v@.len(),
    ensures
        r == at_v(v@, p@, at as int),
{
    if p.len() > v.len() - at {
        return false;
    }
    let mut i: usize = 0;
    while i < p.len()
        invariant
            i <= p@.len(),
            at + p@.len() <= v@.len(),
            v@.len() == v.len(),
            forall|k: int| 0 <= k < i ==> v@[at + k] == p@[k],
        decreases p@.len() - i,
    {
        if v[at + i] != p[i] {
            assert(v@.subrange(at as int, at + p@.len())[i as int] != p@[i as int]);
            return false;
        }
        i += 1;
    }
    assert(v@.subrange(at as int, at + p@.len()) =~= p@);
    true
}

pub fn starts_with(s: &str, p: &str) -> (r: bool)
    ensures
        r == starts_v(s@, p@),
{
    let v = chars_of(s);
    let w = chars_of(p);
    assert(s@.len() >= p@.len() ==> s@.take(p@.len() as int) =~= s@.subrange(0, p@.len() as int));
    chars_at(&v, &w, 0)
}

pub fn ends_with(s: &str, p: &str) -> (r: bool)
    ensures
        r == ends_v(s@, p@),
{
    let v = chars_of(s);
    let w = chars_of(p);
    if w.len() > v.len() {
        return false;
    }
    let at: usize = v.len() - w.len();
    assert(s@.skip(at as int) =~= s@.subrange(at as int, at + p@.len()));
    chars_at(&v, &w, at)
}

/// Where `p` first stands in `s`, counted in characters.
pub fn find(s: &str, p: &str) -> (r: Option<usize>)
    ensures
        match r {
            Some(i) => first_at(s@, p@, Some(i as int)),
            None => first_at(s@, p@, None),
        },
{
    let v = chars_of(s);
    let w = chars_of(p);
    let mut i: usize = 0;
    while i < v.len()
        invariant
            v@ == s@,
            w@ == p@,
            i <= v@.len(),
            forall|j: int| 0 <= j < i ==> !at_v(s@, p@, j),
        decreases v@.len() - i,
    {
        if chars_at(&v, &w, i) {
            return Some(i);
        }
        i += 1;
    }
    if chars_at(&v, &w, i) {
        Some(i)
    } else {
        None
    }
}

pub fn contains(s: &str, p: &str) -> (r: bool)
    ensures
        r == contains_v(s@, p@),
{
    find(s, p).is_some()
}

/// What follows the prefix `p` of `s`.
pub open spec fn strip_v(s: Seq<char>, p: Seq<char>) -> Option<Seq<char>> {
    if starts_v(s, p) {
        Some(s.skip(p.len() as int))
    } else {
        None
    }
}

pub open spec fn opt_view(s: Option<String>) -> Option<Seq<char>> {
    match s {
        Some(s) => Some(s@),
        None => None,
    }
}

pub fn strip_prefix(s: &str, p: &str) -> (r: Option<String>)
    ensures
        opt_view(r) == strip_v(s@, p@),
{
    if starts_with(s, p) {
        let v = chars_of(s);
        let w = chars_of(p);
        assert(s@.skip(p@.len() as int) =~= s@.subrange(p@.len() as int, s@.len() as int));
        Some(string_of(&v, w.len(), v.len()))
    } else {
        None
    }
}

/// What precedes the suffix `p` of `s`.
pub open spec fn strip_end_v(s: Seq<char>, p: Seq<char>) -> Option<Seq<char>> {
    if ends_v(s, p) {
        Some(s.take(s.len() - p.len()))
    } else {
        None
    }
}

pub fn strip_suffix(s: &str, p: &str) -> (r: Option<String>)
    ensures
        opt_view(r) == strip_end_v(s@, p@),
{
    if ends_with(s, p) {
        let v = chars_of(s);
        let w = chars_of(p);
        assert(s@.take(s@.len() - p@.len()) =~= s@.subrange(0, s@.len() - p@.len()));
        Some(string_of(&v, 0, v.len() - w.len()))
    } else {
        None
    }
}

/// `s` without any number of leading copies of `p`.
pub open spec fn strip_all_v(s: Seq<char>, p: Seq<char>) -> Seq<char>
    decreases s.len(),
{
    if p.len() > 0 && starts_v(s, p) {
        strip_all_v(s.skip(p.len() as int), p)
    } else {
        s
    }
}

pub fn strip_all(s: &str, p: &str) -> (r: String)
    ensures
        r@ == strip_all_v(s@, p@),
{
    let mut out = owned(s);
    if p.is_empty() {
        return out;
    }
    while starts_with(&out, p)
        invariant
            p@.len() > 0,
            strip_all_v(s@, p@) == strip_all_v(out@, p@),
        decreases out@.len(),
    {
        match strip_prefix(&out, p) {
            Some(rest) => out = rest,
            None => return out,
        }
    }
    out
}

/// `s` without trailing copies of the character `c`.
pub open spec fn trim_end_of_v(s: Seq<char>, c: char) -> Seq<char>
    decreases s.len(),
{
    if s.len() > 0 && s.last() == c {
        trim_end_of_v(s.drop_last(), c)
    } else {
        s
    }
}

pub fn trim_end_of(s: &str, c: char) -> (r: String)
    ensures
        r@ == trim_end_of_v(s@, c),
{
    let v = chars_of(s);
    let mut i: usize = v.len();
    assert(v@.take(i as int) =~= v@);
    while i > 0 && v[i - 1] == c
        invariant
            i <= v@.len(),
            v@ == s@,
            trim_end_of_v(s@, c) == trim_end_of_v(v@.take(i as int), c),
        decreases i,
    {
        assert(v@.take(i as int).drop_last() =~= v@.take(i - 1));
        i -= 1;
    }
    assert(v@.take(i as int) =~= v@.subrange(0, i as int));
    string_of(&v, 0, i)
}

/// The views of a list of strings.
pub open spec fn views(v: Seq<String>) -> Seq<Seq<char>> {
    v.map_values(|s: String| s@)
}

/// The pieces of `s` between the characters `c`; one more than `s` has of them.
pub open spec fn split_v(s: Seq<char>, c: char) -> Seq<Seq<char>>
    decreases s.len(),
{
    if s.len() == 0 {
        seq![Seq::<char>::empty()]
    } else {
        let before = split_v(s.drop_last(), c);
        if s.last() == c {
            before.push(Seq::<char>::empty())
        } else {
            before.drop_last().push(before.last().push(s.last()))
        }
    }
}

pub proof fn split_nonempty(s: Seq<char>, c: char)
    ensures
        split_v(s, c).len() > 0,
    decreases s.len(),
{
    if s.len() > 0 {
        split_nonempty(s.drop_last(), c);
    }
}

pub fn split(s: &str, c: char) -> (r: Vec<String>)
    ensures
        views(r@) == split_v(s@, c),
        r@.len() > 0,
{
    let v = chars_of(s);
    let mut done: Vec<String> = Vec::new();
    let mut piece = String::new();
    let mut i: usize = 0;
    assert(v@.take(0) =~= Seq::<char>::empty());
    assert(views(done@).push(piece@) =~= split_v(v@.take(0), c));
    while i < v.len()
        invariant
            i <= v@.len(),
            views(done@).push(piece@) == split_v(v@.take(i as int), c),
        decreases v@.len() - i,
    {
        let ghost before = split_v(v@.take(i as int), c);
        assert(v@.take(i + 1).drop_last() =~= v@.take(i as int));
        assert(before.last() == piece@);
        assert(before.drop_last() =~= views(done@));
        if v[i] == c {
            let ghost old_done = done@;
            done.push(piece);
            assert(views(done@) =~= views(old_done).push(piece@));
            piece = String::new();
        } else {
            piece.push(v[i]);
        }
        i += 1;
    }
    assert(v@.take(i as int) =~= s@);
    let ghost old_done = done@;
    done.push(piece);
    assert(views(done@) =~= views(old_done).push(piece@));
    done
}

/// The pieces of `s` between the characters of `set`.
pub open spec fn split_any_v(s: Seq<char>, set: Seq<char>) -> Seq<Seq<char>>
    decreases s.len(),
{
    if s.len() == 0 {
        seq![Seq::<char>::empty()]
    } else {
        let before = split_any_v(s.drop_last(), set);
        if set.contains(s.last()) {
            before.push(Seq::<char>::empty())
        } else {
            before.drop_last().push(before.last().push(s.last()))
        }
    }
}

fn among(set: &Vec<char>, c: char) -> (r: bool)
    ensures
        r == set@.contains(c),
{
    let mut i: usize = 0;
    while i < set.len()
        invariant
            i <= set@.len(),
            forall|k: int| 0 <= k < i ==> set@[k] != c,
        decreases set@.len() - i,
    {
        if set[i] == c {
            assert(set@[i as int] == c);
            return true;
        }
        i += 1;
    }
    false
}

pub fn split_any(s: &str, set: &str) -> (r: Vec<String>)
    ensures
        views(r@) == split_any_v(s@, set@),
{
    let v = chars_of(s);
    let w = chars_of(set);
    let mut done: Vec<String> = Vec::new();
    let mut piece = String::new();
    let mut i: usize = 0;
    assert(v@.take(0) =~= Seq::empty());
    assert(views(done@).push(piece@) =~= split_any_v(v@.take(0), w@));
    while i < v.len()
        invariant
            i <= v@.len(),
            views(done@).push(piece@) == split_any_v(v@.take(i as int), w@),
        decreases v@.len() - i,
    {
        let c: char = v[i];
        let ghost before = views(done@).push(piece@);
        proof {
            assert(v@.take(i + 1).drop_last() =~= v@.take(i as int));
            assert(before.drop_last() =~= views(done@));
        }
        if among(&w, c) {
            proof {
                assert(views(done@.push(piece)) =~= views(done@).push(piece@));
            }
            done.push(piece);
            piece = String::new();
        } else {
            piece.push(c);
        }
        i += 1;
        assert(views(done@).push(piece@) =~= split_any_v(v@.take(i as int), w@));
    }
    assert(v@.take(i as int) =~= v@);
    proof {
        assert(views(done@.push(piece)) =~= views(done@).push(piece@));
    }
    done.push(piece);
    done
}

/// A line without the carriage return that ends it.
pub open spec fn chomp_v(s: Seq<char>) -> Seq<char> {
    if s.len() > 0 && s.last() == '\r' {
        s.drop_last()
    } else {
        s
    }
}

/// The lines of `s`: what stands before each line feed, less a carriage return
/// directly before it, and what follows the last line feed if it is not empty.
pub open spec fn lines_v(s: Seq<char>) -> Seq<Seq<char>> {
    let pieces = split_v(s, '\n');
    let ended = pieces.drop_last().map_values(|p: Seq<char>| chomp_v(p));
    if pieces.last().len() == 0 {
        ended
    } else {
        ended.push(pieces.last())
    }
}

fn chomp(s: &str) -> (r: String)
    ensures
        r@ == chomp_v(s@),
{
    let v = chars_of(s);
    let n: usize = v.len();
    assert(v@.subrange(0, v@.len() as int) =~= v@);
    if n > 0 && v[n - 1] == '\r' {
        assert(v@.subrange(0, n - 1) =~= v@.drop_last());
        string_of(&v, 0, n - 1)
    } else {
        string_of(&v, 0, n)
    }
}

pub fn lines(s: &str) -> (r: Vec<String>)
    ensures
        views(r@) == lines_v(s@),
{
    let pieces = split(s, '\n');
    let last: usize = pieces.len() - 1;
    let mut out: Vec<String> = Vec::new();
    let mut i: usize = 0;
    let ghost p = split_v(s@, '\n');
    let ghost ended = p.drop_last().map_values(|p: Seq<char>| chomp_v(p));
    while i < last
        invariant
            i <= last,
            last == pieces@.len() - 1,
            views(pieces@) == p,
            ended == p.drop_last().map_values(|p: Seq<char>| chomp_v(p)),
            views(out@) == ended.take(i as int),
        decreases last - i,
    {
        let ghost before = out@;
        assert(views(pieces@)[i as int] == pieces@[i as int]@);
        out.push(chomp(&pieces[i]));
        assert(ended[i as int] == chomp_v(p[i as int]));
        assert(views(out@) =~= views(before).push(ended[i as int]));
        i += 1;
        assert(ended.take(i as int) =~= ended.take(i - 1).push(ended[i - 1]));
    }
    assert(ended.take(last as int) =~= ended);
    assert(views(pieces@)[last as int] == pieces@[last as int]@);
    if !pieces[last].as_str().is_empty() {
        let ghost before = out@;
        out.push(pieces[last].clone());
        assert(views(out@) =~= views(before).push(pieces@[last as int]@));
    }
    out
}

/// `s` with each carriage return directly before a line feed taken out.
pub open spec fn unix_v(s: Seq<char>) -> Seq<char>
    decreases s.len(),
{
    if s.len() == 0 {
        s
    } else if s.len() >= 2 && s.last() == '\n' && s[s.len() - 2] == '\r' {
        unix_v(s.drop_last().drop_last()).push('\n')
    } else {
        unix_v(s.drop_last()).push(s.last())
    }
}

pub fn unix_lines(s: &str) -> (r: String)
    ensures
        r@ == unix_v(s@),
{
    let v = chars_of(s);
    let mut out: Vec<char> = Vec::new();
    let mut i: usize = 0;
    while i < v.len()
        invariant
            i <= v@.len(),
            out@ == unix_v(v@.take(i as int)),
            i > 0 ==> out@.len() > 0 && out@.last() == v@[i - 1],
            i > 0 && v@[i - 1] == '\r' ==> out@.drop_last() == unix_v(v@.take(i - 1)),
        decreases v@.len() - i,
    {
        let ghost t = v@.take(i + 1);
        assert(t.drop_last() =~= v@.take(i as int));
        if i > 0 {
            assert(t.drop_last().drop_last() =~= v@.take(i - 1));
        }
        if v[i] == '\n' && i > 0 && v[i - 1] == '\r' {
            out.pop();
            out.push('\n');
        } else {
            let ghost before = out@;
            out.push(v[i]);
            assert(out@.drop_last() =~= before);
        }
        i += 1;
    }
    assert(v@.take(i as int) =~= s@);
    string_all(&out)
}

/// The strings one after the other, with `sep` between them.
pub open spec fn join_v(parts: Seq<Seq<char>>, sep: Seq<char>) -> Seq<char>
    decreases parts.len(),
{
    if parts.len() == 0 {
        Seq::<char>::empty()
    } else if parts.len() == 1 {
        parts[0]
    } else {
        join_v(parts.drop_last(), sep) + sep + parts.last()
    }
}

pub fn join(parts: &Vec<String>, sep: &str) -> (r: String)
    ensures
        r@ == join_v(views(parts@), sep@),
{
    let mut out = String::new();
    let mut i: usize = 0;
    let ghost all = views(parts@);
    while i < parts.len()
        invariant
            i <= parts@.len(),
            all == views(parts@),
            out@ == join_v(all.take(i as int), sep@),
        decreases parts@.len() - i,
    {
        assert(all.take(i + 1).drop_last() =~= all.take(i as int));
        assert(all.take(i + 1).last() == parts@[i as int]@);
        if i > 0 {
            out.push_str(sep);
        } else {
            assert(all.take(1)[0] == parts@[0]@);
        }
        out.push_str(&parts[i]);
        i += 1;
        if i == 1 {
            assert(out@ =~= parts@[0]@);
        }
    }
    assert(all.take(i as int) =~= all);
    out
}

/// The ASCII capitals as small letters, everything else as it is.
pub open spec fn lower_char(c: char) -> char {
    if 'A' <= c <= 'Z' {
        ((c as u32 + 32) as u32) as char
    } else {
        c
    }
}

/// The text with the letters of ASCII in lower case.
pub open spec fn lower_v(s: Seq<char>) -> Seq<char> {
    s.map_values(|c: char| lower_char(c))
}

fn lower_one(c: char) -> (r: char)
    ensures
        r == lower_char(c),
{
    if 'A' <= c && c <= 'Z' {
        (c as u8 + 32) as char
    } else {
        c
    }
}

pub fn lower(s: &str) -> (r: String)
    ensures
        r@ == lower_v(s@),
{
    let v = chars_of(s);
    let mut out = String::new();
    let mut i: usize = 0;
    while i < v.len()
        invariant
            i <= v@.len(),
            v@ == s@,
            out@ == lower_v(s@).take(i as int),
        decreases v@.len() - i,
    {
        out.push(lower_one(v[i]));
        i += 1;
        assert(lower_v(s@).take(i as int) =~= lower_v(s@).take(i - 1).push(lower_v(s@)[i - 1]));
    }
    assert(lower_v(s@).take(i as int) =~= lower_v(s@));
    out
}

pub open spec fn digit_v(d: nat) -> char {
    if d == 0 {
        '0'
    } else if d == 1 {
        '1'
    } else if d == 2 {
        '2'
    } else if d == 3 {
        '3'
    } else if d == 4 {
        '4'
    } else if d == 5 {
        '5'
    } else if d == 6 {
        '6'
    } else if d == 7 {
        '7'
    } else if d == 8 {
        '8'
    } else {
        '9'
    }
}

/// `n` in decimal.
pub open spec fn decimal_v(n: nat) -> Seq<char>
    decreases n,
{
    if n < 10 {
        seq![digit_v(n)]
    } else {
        decimal_v(n / 10).push(digit_v(n % 10))
    }
}

fn digit(d: u64) -> (r: char)
    requires
        d < 10,
    ensures
        r == digit_v(d as nat),
{
    match d {
        0 => '0',
        1 => '1',
        2 => '2',
        3 => '3',
        4 => '4',
        5 => '5',
        6 => '6',
        7 => '7',
        8 => '8',
        _ => '9',
    }
}

pub fn decimal(n: u64) -> (r: String)
    ensures
        r@ == decimal_v(n as nat),
    decreases n,
{
    if n < 10 {
        let mut out = String::new();
        out.push(digit(n));
        assert(out@ =~= decimal_v(n as nat));
        out
    } else {
        let mut out = decimal(n / 10);
        out.push(digit(n % 10));
        out
    }
}

/// The first position of `p` in `s` at or after `i`.
pub open spec fn find_from_v(s: Seq<char>, p: Seq<char>, i: int) -> Option<int>
    decreases s.len() + 1 - i,
{
    if i > s.len() - p.len() {
        None
    } else if at_v(s, p, i) {
        Some(i)
    } else {
        find_from_v(s, p, i + 1)
    }
}

/// The last position of `p` in `s` at or before `i`.
pub open spec fn find_back_v(s: Seq<char>, p: Seq<char>, i: int) -> Option<int>
    decreases i + 1,
{
    if i < 0 {
        None
    } else if at_v(s, p, i) {
        Some(i)
    } else {
        find_back_v(s, p, i - 1)
    }
}

pub open spec fn opt_int(o: Option<usize>) -> Option<int> {
    match o {
        Some(i) => Some(i as int),
        None => None,
    }
}

/// Where `p` first stands in `v` at or after `from`.
pub fn find_from(v: &Vec<char>, p: &Vec<char>, from: usize) -> (r: Option<usize>)
    requires
        from <= v@.len(),
    ensures
        opt_int(r) == find_from_v(v@, p@, from as int),
        r matches Some(i) ==> from <= i && i + p@.len() <= v@.len() && i + p@.len() <= usize::MAX,
{
    let mut i: usize = from;
    while i < v.len()
        invariant
            from <= i <= v@.len(),
            v@.len() == v.len(),
            find_from_v(v@, p@, from as int) == find_from_v(v@, p@, i as int),
        decreases v@.len() - i,
    {
        if p.len() > v.len() - i {
            return None;
        }
        if chars_at(v, p, i) {
            return Some(i);
        }
        i += 1;
    }
    assert(find_from_v(v@, p@, i + 1) is None);
    if chars_at(v, p, i) {
        Some(i)
    } else {
        None
    }
}

/// Where `p` last stands in `v`.
pub fn find_last(v: &Vec<char>, p: &Vec<char>) -> (r: Option<usize>)
    ensures
        opt_int(r) == find_back_v(v@, p@, v@.len() as int),
        r matches Some(i) ==> i + p@.len() <= v@.len() && i + p@.len() <= usize::MAX,
{
    let mut i: usize = v.len();
    loop
        invariant
            i <= v@.len(),
            v@.len() == v.len(),
            find_back_v(v@, p@, v@.len() as int) == find_back_v(v@, p@, i as int),
        decreases i,
    {
        if chars_at(v, p, i) {
            return Some(i);
        }
        if i == 0 {
            assert(find_back_v(v@, p@, -1) is None);
            return None;
        }
        i -= 1;
    }
}

/// The pieces of `s` between the occurrences of `p`, taken from the left.
pub open spec fn split_on_v(s: Seq<char>, p: Seq<char>) -> Seq<Seq<char>>
    decreases s.len(),
{
    match find_from_v(s, p, 0) {
        Some(i) => if p.len() > 0 && 0 <= i && i + p.len() <= s.len() {
            seq![s.take(i)] + split_on_v(s.skip(i + p.len()), p)
        } else {
            seq![s]
        },
        None => seq![s],
    }
}

pub proof fn find_from_shift(s: Seq<char>, p: Seq<char>, k: int, i: int)
    requires
        0 <= k <= s.len(),
        0 <= i,
    ensures
        find_from_v(s.skip(k), p, i) == (match find_from_v(s, p, k + i) {
            Some(j) => Some(j - k),
            None => None,
        }),
    decreases s.len() + 1 - k - i,
{
    if i <= s.skip(k).len() - p.len() {
        assert(s.skip(k).subrange(i, i + p.len()) =~= s.subrange(k + i, k + i + p.len()));
        find_from_shift(s, p, k, i + 1);
    }
}

pub fn split_on(s: &str, p: &str) -> (r: Vec<String>)
    requires
        p@.len() > 0,
    ensures
        views(r@) == split_on_v(s@, p@),
{
    let v = chars_of(s);
    let w = chars_of(p);
    let mut out: Vec<String> = Vec::new();
    let mut from: usize = 0;
    assert(v@.skip(0) =~= s@);
    assert(views(out@) + split_on_v(s@, p@) =~= split_on_v(s@, p@));
    let mut next: Option<usize> = find_from(&v, &w, 0);
    while next.is_some()
        invariant
            from <= v@.len(),
            v@ == s@,
            w@ == p@,
            p@.len() > 0,
            opt_int(next) == find_from_v(s@, p@, from as int),
            next matches Some(i) ==> from <= i && i + w@.len() <= v@.len(),
            v@.len() == v.len(),
            split_on_v(s@, p@) == views(out@) + split_on_v(s@.skip(from as int), p@),
        decreases v@.len() - from,
    {
        if let Some(i) = next {
            proof {
                find_from_shift(s@, p@, from as int, 0);
                assert(s@.skip(from as int).take(i - from) =~= v@.subrange(from as int, i as int));
                assert(s@.skip(from as int).skip(i - from + p@.len()) =~= s@.skip(i + p@.len()));
            }
            let ghost before = out@;
            out.push(string_of(&v, from, i));
            proof {
                assert(views(out@) =~= views(before).push(out@.last()@));
                let rest = split_on_v(s@.skip(i + p@.len()), p@);
                assert(views(before) + (seq![out@.last()@] + rest) =~= views(out@) + rest);
            }
            from = i + w.len();
            next = find_from(&v, &w, from);
        }
    }
    proof {
        find_from_shift(s@, p@, from as int, 0);
        assert(s@.skip(from as int) =~= v@.subrange(from as int, v@.len() as int));
    }
    let ghost before = out@;
    out.push(string_of(&v, from, v.len()));
    assert(views(out@) =~= views(before) + seq![out@.last()@]);
    out
}

/// The characters of `v` from `from` on, as a string.
pub fn rest_of(v: &Vec<char>, from: usize) -> (r: String)
    requires
        from <= v@.len(),
    ensures
        r@ == v@.skip(from as int),
{
    assert(v@.skip(from as int) =~= v@.subrange(from as int, v@.len() as int));
    string_of(v, from, v.len())
}

/// `s` without leading copies of the character `c`.
pub open spec fn trim_start_of_v(s: Seq<char>, c: char) -> Seq<char>
    decreases s.len(),
{
    if s.len() > 0 && s[0] == c {
        trim_start_of_v(s.skip(1), c)
    } else {
        s
    }
}

pub fn trim_start_of(s: &str, c: char) -> (r: String)
    ensures
        r@ == trim_start_of_v(s@, c),
{
    let v = chars_of(s);
    let mut i: usize = 0;
    assert(v@.skip(0) =~= v@);
    while i < v.len() && v[i] == c
        invariant
            i <= v@.len(),
            v@ == s@,
            trim_start_of_v(s@, c) == trim_start_of_v(v@.skip(i as int), c),
        decreases v@.len() - i,
    {
        assert(v@.skip(i as int).skip(1) =~= v@.skip(i + 1));
        i += 1;
    }
    rest_of(&v, i)
}

/// `s` without its trailing white space.
pub fn trim_end(s: &str) -> (r: String)
    ensures
        r@ == trim_end_v(s@),
{
    let v = chars_of(s);
    assert(v@.skip(0) =~= v@);
    let j: usize = drop_space(&v, 0);
    string_of(&v, 0, j)
}

/// `s` without leading characters of `set`.
pub open spec fn trim_start_any_v(s: Seq<char>, set: Seq<char>) -> Seq<char>
    decreases s.len(),
{
    if s.len() > 0 && set.contains(s[0]) {
        trim_start_any_v(s.skip(1), set)
    } else {
        s
    }
}

/// `s` without trailing characters of `set`.
pub open spec fn trim_end_any_v(s: Seq<char>, set: Seq<char>) -> Seq<char>
    decreases s.len(),
{
    if s.len() > 0 && set.contains(s.last()) {
        trim_end_any_v(s.drop_last(), set)
    } else {
        s
    }
}

/// `s` without characters of `set` at either end.
pub fn trim_any(s: &str, set: &str) -> (r: String)
    ensures
        r@ == trim_end_any_v(trim_start_any_v(s@, set@), set@),
{
    let v = chars_of(s);
    let w = chars_of(set);
    let mut i: usize = 0;
    assert(v@.skip(0) =~= v@);
    while i < v.len() && among(&w, v[i])
        invariant
            i <= v@.len(),
            v@ == s@,
            w@ == set@,
            trim_start_any_v(s@, set@) == trim_start_any_v(v@.skip(i as int), set@),
        decreases v@.len() - i,
    {
        assert(v@.skip(i as int).skip(1) =~= v@.skip(i + 1));
        i += 1;
    }
    let mut j: usize = v.len();
    assert(v@.skip(i as int) =~= v@.subrange(i as int, j as int));
    while j > i && among(&w, v[j - 1])
        invariant
            i <= j <= v@.len(),
            v@ == s@,
            w@ == set@,
            trim_end_any_v(v@.skip(i as int), set@) == trim_end_any_v(
                v@.subrange(i as int, j as int),
                set@,
            ),
        decreases j,
    {
        assert(v@.subrange(i as int, j as int).drop_last() =~= v@.subrange(i as int, j - 1));
        j -= 1;
    }
    string_of(&v, i, j)
}

/// `a` comes before `b` in the order of their characters.
pub open spec fn less_v(a: Seq<char>, b: Seq<char>) -> bool
    decreases a.len(),
{
    if b.len() == 0 {
        false
    } else if a.len() == 0 {
        true
    } else if a[0] != b[0] {
        a[0] < b[0]
    } else {
        less_v(a.skip(1), b.skip(1))
    }
}

pub fn less(a: &str, b: &str) -> (r: bool)
    ensures
        r == less_v(a@, b@),
{
    let v = chars_of(a);
    let w = chars_of(b);
    let mut i: usize = 0;
    assert(v@.skip(0) =~= v@);
    assert(w@.skip(0) =~= w@);
    while i < v.len() && i < w.len()
        invariant
            i <= v@.len(),
            i <= w@.len(),
            v@ == a@,
            w@ == b@,
            less_v(a@, b@) == less_v(v@.skip(i as int), w@.skip(i as int)),
        decreases v@.len() - i,
    {
        if v[i] != w[i] {
            return v[i] < w[i];
        }
        assert(v@.skip(i as int).skip(1) =~= v@.skip(i + 1));
        assert(w@.skip(i as int).skip(1) =~= w@.skip(i + 1));
        i += 1;
    }
    i < w.len()
}

/// The order of characters is irreflexive, and any two texts are ordered or
/// equal.
pub proof fn less_total(a: Seq<char>, b: Seq<char>)
    ensures
        !less_v(a, a),
        less_v(a, b) || less_v(b, a) || a == b,
        !(less_v(a, b) && less_v(b, a)),
    decreases a.len(),
{
    if a.len() > 0 {
        if b.len() > 0 {
            less_total(a.skip(1), b.skip(1));
            assert(a[0] == b[0] ==> less_v(a, b) == less_v(a.skip(1), b.skip(1)));
            assert(a[0] == b[0] ==> less_v(b, a) == less_v(b.skip(1), a.skip(1)));
            if a[0] == b[0] && a.skip(1) == b.skip(1) {
                assert(a =~= seq![a[0]] + a.skip(1));
                assert(b =~= seq![b[0]] + b.skip(1));
                assert(a =~= b);
            }
        } else {
            less_total(a.skip(1), a.skip(1));
        }
    } else if b.len() == 0 {
        assert(a =~= b);
    } else {
        assert(less_v(a, b));
    }
}

/// What does not come before what does not come before a third does not come
/// before the third.
pub proof fn less_chain(a: Seq<char>, b: Seq<char>, c: Seq<char>)
    requires
        !less_v(a, b),
        !less_v(b, c),
    ensures
        !less_v(a, c),
    decreases a.len(),
{
    if a.len() > 0 && b.len() > 0 && c.len() > 0 {
        if a[0] == b[0] && b[0] == c[0] {
            less_chain(a.skip(1), b.skip(1), c.skip(1));
        }
    }
}

/// The order of texts is transitive.
pub proof fn less_trans(a: Seq<char>, b: Seq<char>, c: Seq<char>)
    requires
        less_v(a, b),
        less_v(b, c),
    ensures
        less_v(a, c),
{
    less_total(a, b);
    less_total(b, c);
    less_chain(c, b, a);
    less_total(a, c);
}

/// The digit that a character stands for.
pub open spec fn digit_of_v(c: char) -> Option<nat> {
    if '0' <= c <= '9' {
        Some((c as u32 - 48) as nat)
    } else {
        None
    }
}

/// The number that a row of decimal digits stands for.
pub open spec fn number_v(s: Seq<char>) -> Option<nat>
    decreases s.len(),
{
    if s.len() == 0 {
        Some(0)
    } else {
        match (number_v(s.drop_last()), digit_of_v(s.last())) {
            (Some(n), Some(d)) => Some(n * 10 + d),
            _ => None,
        }
    }
}

/// What a text reads as a natural number up to `max`: decimal digits, at least
/// one, with or without a plus sign before them.
pub open spec fn parse_uint_v(s: Seq<char>, max: nat) -> Option<nat> {
    let digits = if s.len() > 0 && s[0] == '+' {
        s.skip(1)
    } else {
        s
    };
    match number_v(digits) {
        Some(n) => if digits.len() > 0 && n <= max {
            Some(n)
        } else {
            None
        },
        None => None,
    }
}

proof fn number_grows(s: Seq<char>, n: int)
    requires
        0 <= n <= s.len(),
    ensures
        number_v(s.take(n)) is None ==> number_v(s) is None,
        number_v(s) is Some && number_v(s.take(n)) is Some ==> number_v(s)->0 >= number_v(
            s.take(n),
        )->0,
    decreases s.len() - n,
{
    if n < s.len() {
        number_grows(s, n + 1);
        assert(s.take(n + 1).drop_last() =~= s.take(n));
    } else {
        assert(s.take(n) =~= s);
    }
}

/// A row with anything but digits stands for no number.
pub proof fn number_v_bad(s: Seq<char>, i: int)
    requires
        0 <= i < s.len(),
        digit_of_v(s[i]) is None,
    ensures
        number_v(s) is None,
    decreases s.len(),
{
    if i < s.len() - 1 {
        number_v_bad(s.drop_last(), i);
    }
}

/// Reads a natural number up to `max`.
pub fn parse_uint(s: &str, max: u64) -> (r: Option<u64>)
    ensures
        match r {
            Some(n) => parse_uint_v(s@, max as nat) == Some(n as nat),
            None => parse_uint_v(s@, max as nat) is None,
        },
{
    let all = chars_of(s);
    let plus = all.len() > 0 && all[0] == '+';
    let from: usize = if plus {
        1
    } else {
        0
    };
    let digits = chars_of(&rest_of(&all, from));
    assert(!plus ==> digits@ =~= s@);
    if digits.len() == 0 {
        return None;
    }
    let mut n: u64 = 0;
    let mut i: usize = 0;
    assert(digits@.take(0) =~= Seq::empty());
    while i < digits.len()
        invariant
            i <= digits@.len(),
            number_v(digits@.take(i as int)) == Some(n as nat),
            n <= max,
            parse_uint_v(s@, max as nat) == (match number_v(digits@) {
                Some(n) => if n <= max {
                    Some(n)
                } else {
                    None
                },
                None => None,
            }),
        decreases digits@.len() - i,
    {
        let c: char = digits[i];
        proof {
            assert(digits@.take(i + 1).drop_last() =~= digits@.take(i as int));
            number_grows(digits@, i + 1);
        }
        if !('0' <= c && c <= '9') {
            return None;
        }
        let d: u64 = (c as u32 - 48) as u64;
        let wide: u128 = n as u128 * 10 + d as u128;
        if wide > max as u128 {
            return None;
        }
        n = wide as u64;
        i += 1;
    }
    assert(digits@.take(i as int) =~= digits@);
    Some(n)
}

/// What a text reads as an integer of 64 bits: a natural number, with or
/// without a sign.
pub open spec fn parse_int_v(s: Seq<char>) -> Option<i64> {
    if s.len() > 0 && s[0] == '-' {
        match number_v(s.skip(1)) {
            Some(n) => if s.len() > 1 && n <= 0x8000_0000_0000_0000 {
                Some((-n) as i64)
            } else {
                None
            },
            None => None,
        }
    } else {
        match parse_uint_v(s, i64::MAX as nat) {
            Some(n) => Some(n as i64),
            None => None,
        }
    }
}

/// Reads an integer of 64 bits.
pub fn parse_int(s: &str) -> (r: Option<i64>)
    ensures
        r == parse_int_v(s@),
{
    let v = chars_of(s);
    if v.len() > 0 && v[0] == '-' {
        if v.len() == 1 {
            return None;
        }
        let rest = rest_of(&v, 1);
        if v[1] == '+' {
            proof {
                number_v_bad(rest@, 0);
            }
            return None;
        }
        match parse_uint(&rest, 0x8000_0000_0000_0000) {
            None => None,
            Some(n) => if n == 0x8000_0000_0000_0000 {
                Some(i64::MIN)
            } else {
                Some(-(n as i64))
            },
        }
    } else {
        match parse_uint(s, i64::MAX as u64) {
            Some(n) => Some(n as i64),
            None => None,
        }
    }
}

} // verus!
