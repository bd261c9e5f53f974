//! A map from names to numbers.

use vstd::prelude::*;

use crate::text::same;

verus! {

/// A map from names to numbers, kept as a list. A later entry hides an earlier
/// one of its name.
#[derive(Debug)]
pub struct NameMap {
    entries: Vec<(String, u64)>,
}

pub closed spec fn entries_v(s: Seq<(String, u64)>) -> Map<Seq<char>, u64>
    decreases s.len(),
{
    if s.len() == 0 {
        Map::empty()
    } else {
        entries_v(s.drop_last()).insert(s.last().0@, s.last().1)
    }
}

proof fn entries_update(s: Seq<(String, u64)>, i: int, f: (String, u64))
    requires
        0 <= i < s.len(),
        s[i].0@ == f.0@,
        forall|j: int| i < j < s.len() ==> (#[trigger] s[j]).0@ != f.0@,
    ensures
        entries_v(s.update(i, f)) == entries_v(s).insert(f.0@, f.1),
    decreases s.len(),
{
    if i == s.len() - 1 {
        assert(s.update(i, f).drop_last() =~= s.drop_last());
    } else {
        assert(s.update(i, f).drop_last() =~= s.drop_last().update(i, f));
        entries_update(s.drop_last(), i, f);
    }
    assert(entries_v(s.update(i, f)) =~= entries_v(s).insert(f.0@, f.1));
}

proof fn entries_absent(s: Seq<(String, u64)>, k: Seq<char>)
    requires
        forall|j: int| 0 <= j < s.len() ==> (#[trigger] s[j]).0@ != k,
    ensures
        !entries_v(s).contains_key(k),
    decreases s.len(),
{
    if s.len() > 0 {
        entries_absent(s.drop_last(), k);
    }
}

proof fn entries_found(s: Seq<(String, u64)>, i: int)
    requires
        0 <= i < s.len(),
        forall|j: int| i < j < s.len() ==> (#[trigger] s[j]).0@ != s[i].0@,
    ensures
        entries_v(s).contains_key(s[i].0@),
        entries_v(s)[s[i].0@] == s[i].1,
    decreases s.len(),
{
    if i < s.len() - 1 {
        assert forall|j: int| i < j < s.drop_last().len() implies (
        #[trigger] s.drop_last()[j]).0@ != s.drop_last()[i].0@ by {
            assert(s.drop_last()[j] == s[j]);
        }
        entries_found(s.drop_last(), i);
    }
}

impl NameMap {
    pub closed spec fn view(&self) -> Map<Seq<char>, u64> {
        entries_v(self.entries@)
    }

    pub fn new() -> (r: NameMap)
        ensures
            r@ == Map::<Seq<char>, u64>::empty(),
    {
        NameMap { entries: Vec::new() }
    }

    fn position(&self, k: &str) -> (r: Option<usize>)
        ensures
            match r {
                Some(i) => {
                    &&& i < self.entries@.len()
                    &&& self.entries@[i as int].0@ == k@
                    &&& forall|j: int|
                        i < j < self.entries@.len() ==> (#[trigger] self.entries@[j]).0@ != k@
                    &&& self@.contains_key(k@)
                    &&& self@[k@] == self.entries@[i as int].1
                },
                None => !self@.contains_key(k@),
            },
    {
        let mut i: usize = self.entries.len();
        while i > 0
            invariant
                i <= self.entries@.len(),
                forall|j: int| i <= j < self.entries@.len() ==> (#[trigger] self.entries@[j]).0@ != k@,
            decreases i,
        {
            if same(&self.entries[i - 1].0, k) {
                proof {
                    entries_found(self.entries@, i - 1);
                }
                return Some(i - 1);
            }
            i -= 1;
        }
        proof {
            entries_absent(self.entries@, k@);
        }
        None
    }

    pub fn get(&self, k: &str) -> (r: Option<u64>)
        ensures
            r == (if self@.contains_key(k@) {
                Some(self@[k@])
            } else {
                None
            }),
    {
        match self.position(k) {
            Some(i) => Some(self.entries[i].1),
            None => None,
        }
    }

    pub fn insert(&mut self, k: &str, n: u64)
        ensures
            final(self)@ == old(self)@.insert(k@, n),
    {
        let ghost before = self.entries@;
        let entry = (k.to_owned(), n);
        match self.position(k) {
            Some(i) => {
                proof {
                    entries_update(before, i as int, entry);
                }
                self.entries.set(i, entry);
            },
            None => {
                assert(before.push(entry).drop_last() =~= before);
                self.entries.push(entry);
            },
        }
    }
}

} // verus!
