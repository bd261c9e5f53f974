//! Lists of values with names, in the order in which the names first came.

use vstd::prelude::*;

use crate::text::same;

verus! {

/// Where the name `k` first stands, or minus one.
pub open spec fn find_v<T>(s: Seq<(Seq<char>, T)>, k: Seq<char>) -> int
    decreases s.len(),
{
    if s.len() == 0 {
        -1
    } else if find_v(s.drop_last(), k) >= 0 {
        find_v(s.drop_last(), k)
    } else if s.last().0 == k {
        s.len() - 1
    } else {
        -1
    }
}

/// The value named `k`.
pub open spec fn get_v<T>(s: Seq<(Seq<char>, T)>, k: Seq<char>) -> Option<T> {
    if find_v(s, k) >= 0 {
        Some(s[find_v(s, k)].1)
    } else {
        None
    }
}

/// The list with `v` as the value named `k`.
pub open spec fn put_v<T>(s: Seq<(Seq<char>, T)>, k: Seq<char>, v: T) -> Seq<(Seq<char>, T)> {
    if find_v(s, k) >= 0 {
        s.update(find_v(s, k), (k, v))
    } else {
        s.push((k, v))
    }
}

/// The list without the value named `k`.
pub open spec fn del_v<T>(s: Seq<(Seq<char>, T)>, k: Seq<char>) -> Seq<(Seq<char>, T)> {
    if find_v(s, k) >= 0 {
        s.remove(find_v(s, k))
    } else {
        s
    }
}

/// The values, mapped.
pub open spec fn map_v<A, B>(
    s: Seq<(Seq<char>, A)>,
    f: spec_fn(A) -> B,
) -> Seq<(Seq<char>, B)> {
    s.map_values(|e: (Seq<char>, A)| (e.0, f(e.1)))
}

/// A found name is in the list, and is the first of its kind.
pub proof fn find_within<T>(s: Seq<(Seq<char>, T)>, k: Seq<char>)
    ensures
        -1 <= find_v(s, k) < s.len(),
        find_v(s, k) >= 0 ==> s[find_v(s, k)].0 == k,
        forall|i: int|
            0 <= i < s.len() && (find_v(s, k) < 0 || i < find_v(s, k)) ==> (#[trigger] s[i]).0 != k,
    decreases s.len(),
{
    if s.len() > 0 {
        find_within(s.drop_last(), k);
        assert forall|i: int|
            0 <= i < s.len() && (find_v(s, k) < 0 || i < find_v(s, k)) implies (#[trigger] s[i]).0
            != k by {
            if i < s.len() - 1 {
                assert(s.drop_last()[i] == s[i]);
            }
        }
    }
}

proof fn find_is<T>(s: Seq<(Seq<char>, T)>, k: Seq<char>, i: int)
    requires
        0 <= i < s.len(),
        s[i].0 == k,
        forall|j: int| 0 <= j < i ==> (#[trigger] s[j]).0 != k,
    ensures
        find_v(s, k) == i,
{
    find_within(s, k);
    let f = find_v(s, k);
    if f < 0 || i < f {
        assert(s[i].0 != k);
    }
}

/// Mapping the values does not move the names.
pub proof fn find_map<A, B>(s: Seq<(Seq<char>, A)>, k: Seq<char>, f: spec_fn(A) -> B)
    ensures
        find_v(map_v(s, f), k) == find_v(s, k),
    decreases s.len(),
{
    if s.len() > 0 {
        find_map(s.drop_last(), k, f);
        assert(map_v(s, f).drop_last() =~= map_v(s.drop_last(), f));
    }
}

/// Mapping the values goes through looking up and removing.
pub proof fn get_map<A, B>(s: Seq<(Seq<char>, A)>, k: Seq<char>, f: spec_fn(A) -> B)
    ensures
        find_v(map_v(s, f), k) == find_v(s, k),
        get_v(map_v(s, f), k) == (match get_v(s, k) {
            Some(x) => Some(f(x)),
            None => None,
        }),
        map_v(del_v(s, k), f) == del_v(map_v(s, f), k),
{
    find_map(s, k, f);
    find_within(s, k);
    assert(map_v(del_v(s, k), f) =~= del_v(map_v(s, f), k));
}

/// Mapping the values goes through naming.
pub proof fn put_map<A, B>(s: Seq<(Seq<char>, A)>, k: Seq<char>, v: A, f: spec_fn(A) -> B)
    ensures
        map_v(put_v(s, k, v), f) == put_v(map_v(s, f), k, f(v)),
{
    find_map(s, k, f);
    find_within(s, k);
    assert(map_v(put_v(s, k, v), f) =~= put_v(map_v(s, f), k, f(v)));
}

/// No name stands twice.
pub open spec fn distinct_v<T>(s: Seq<(Seq<char>, T)>) -> bool {
    forall|i: int, j: int|
        0 <= i < j < s.len() ==> (#[trigger] s[i]).0 != (#[trigger] s[j]).0
}

/// Naming a value keeps the names distinct, and the value is then found.
pub proof fn put_keeps<T>(s: Seq<(Seq<char>, T)>, k: Seq<char>, v: T)
    requires
        distinct_v(s),
    ensures
        distinct_v(put_v(s, k, v)),
        get_v(put_v(s, k, v), k) == Some(v),
{
    find_within(s, k);
    let t = put_v(s, k, v);
    let i = if find_v(s, k) >= 0 {
        find_v(s, k)
    } else {
        s.len() as int
    };
    assert forall|j: int| 0 <= j < i implies (#[trigger] t[j]).0 != k by {
        assert(s[j].0 != k);
    }
    find_is(t, k, i);
}

/// Removing a value keeps the names distinct, and the value is then gone.
pub proof fn del_keeps<T>(s: Seq<(Seq<char>, T)>, k: Seq<char>)
    requires
        distinct_v(s),
    ensures
        distinct_v(del_v(s, k)),
        get_v(del_v(s, k), k) is None,
{
    find_within(s, k);
    let t = del_v(s, k);
    find_within(t, k);
    let f = find_v(s, k);
    if f >= 0 && find_v(t, k) >= 0 {
        let g = find_v(t, k);
        assert(t[g].0 == k);
        if g < f {
            assert(s[g].0 == k);
        } else {
            assert(s[g + 1].0 == k);
            assert(s[f].0 == k);
        }
    }
}

/// A value that is named is found under its name, and the others as before.
pub proof fn put_is_found<T>(s: Seq<(Seq<char>, T)>, k: Seq<char>, v: T, j: Seq<char>)
    ensures
        get_v(put_v(s, k, v), k) == Some(v),
        j != k ==> get_v(put_v(s, k, v), j) == get_v(s, j),
{
    find_within(s, k);
    find_within(s, j);
    let t = put_v(s, k, v);
    let i = if find_v(s, k) >= 0 {
        find_v(s, k)
    } else {
        s.len() as int
    };
    assert forall|p: int| 0 <= p < i implies (#[trigger] t[p]).0 != k by {
        assert(s[p].0 != k);
    }
    find_is(t, k, i);
    if j != k {
        let f = find_v(s, j);
        find_within(t, j);
        if f >= 0 {
            assert forall|p: int| 0 <= p < f implies (#[trigger] t[p]).0 != j by {
                assert(s[p].0 != j);
            }
            find_is(t, j, f);
        } else if find_v(t, j) >= 0 {
            assert(s[find_v(t, j)].0 != j);
        }
    }
}

/// Where a value is removed the others are found as before.
pub proof fn del_spares_others<T>(s: Seq<(Seq<char>, T)>, k: Seq<char>, j: Seq<char>)
    requires
        j != k,
    ensures
        get_v(del_v(s, k), j) == get_v(s, j),
{
    find_within(s, k);
    find_within(s, j);
    let t = del_v(s, k);
    let (f, g) = (find_v(s, k), find_v(s, j));
    find_within(t, j);
    if f >= 0 {
        if g >= 0 {
            let h = if g < f {
                g
            } else {
                g - 1
            };
            assert forall|p: int| 0 <= p < h implies (#[trigger] t[p]).0 != j by {
                if p < f {
                    assert(s[p].0 != j);
                } else {
                    assert(s[p + 1].0 != j);
                }
            }
            assert(t[h] == s[g]);
            find_is(t, j, h);
        } else if find_v(t, j) >= 0 {
            let p = find_v(t, j);
            if p < f {
                assert(s[p].0 != j);
            } else {
                assert(s[p + 1].0 != j);
            }
        }
    }
}

/// A list of values with names.
#[derive(Debug)]
pub struct Table<T> {
    pub entries: Vec<(String, T)>,
}

impl<T> Table<T> {
    pub open spec fn view(&self) -> Seq<(Seq<char>, T)> {
        self.entries@.map_values(|e: (String, T)| (e.0@, e.1))
    }

    pub fn new() -> (r: Table<T>)
        ensures
            r@ == Seq::<(Seq<char>, T)>::empty(),
    {
        let r = Table { entries: Vec::new() };
        assert(r@ =~= Seq::<(Seq<char>, T)>::empty());
        r
    }

    /// Where the name `k` stands.
    pub fn find(&self, k: &str) -> (r: Option<usize>)
        ensures
            match r {
                Some(i) => i < self.entries@.len() && find_v(self@, k@) == i,
                None => find_v(self@, k@) < 0,
            },
    {
        let mut i: usize = 0;
        while i < self.entries.len()
            invariant
                i <= self.entries@.len(),
                forall|j: int| 0 <= j < i ==> (#[trigger] self@[j]).0 != k@,
            decreases self.entries@.len() - i,
        {
            assert(self@[i as int].0 == self.entries@[i as int].0@);
            if same(&self.entries[i].0, k) {
                proof {
                    find_is(self@, k@, i as int);
                }
                return Some(i);
            }
            i += 1;
        }
        proof {
            find_within(self@, k@);
        }
        None
    }

    pub fn get(&self, k: &str) -> (r: Option<&T>)
        ensures
            match r {
                Some(v) => get_v(self@, k@) == Some(*v),
                None => get_v(self@, k@) is None,
            },
    {
        match self.find(k) {
            Some(i) => Some(&self.entries[i].1),
            None => None,
        }
    }

    /// The value named `k`, to be changed in its place.
    pub fn get_mut(&mut self, k: &str) -> (r: Option<&mut T>)
        ensures
            match r {
                Some(v) => {
                    &&& get_v(old(self)@, k@) == Some(*v)
                    &&& final(self)@ == put_v(old(self)@, k@, *final(v))
                },
                None => get_v(old(self)@, k@) is None && final(self)@ == old(self)@,
            },
    {
        let ghost before = self@;
        proof {
            find_within(before, k@);
        }
        match self.find(k) {
            Some(i) => {
                let ghost entries = self.entries@;
                let entry = &mut self.entries[i];
                let v = &mut entry.1;
                proof {
                    let last = *final(v);
                    let e = entries.update(i as int, (entries[i as int].0, last));
                    assert(e.map_values(|e: (String, T)| (e.0@, e.1)) =~= put_v(before, k@, last));
                }
                Some(v)
            },
            None => None,
        }
    }

    /// Makes `v` the value named `k`.
    pub fn put(&mut self, k: &str, v: T)
        ensures
            final(self)@ == put_v(old(self)@, k@, v),
    {
        let ghost before = self@;
        match self.find(k) {
            Some(i) => {
                self.entries.set(i, (k.to_owned(), v));
                assert(self@ =~= before.update(i as int, (k@, v)));
            },
            None => {
                self.entries.push((k.to_owned(), v));
                assert(self@ =~= before.push((k@, v)));
            },
        }
    }

    /// Takes the value named `k` out.
    pub fn take(&mut self, k: &str) -> (r: Option<T>)
        ensures
            r == get_v(old(self)@, k@),
            final(self)@ == del_v(old(self)@, k@),
    {
        let ghost before = self@;
        match self.find(k) {
            Some(i) => {
                let (_, v) = self.entries.remove(i);
                assert(self@ =~= before.remove(i as int));
                Some(v)
            },
            None => None,
        }
    }
}

} // verus!
