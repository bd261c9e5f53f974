//! Putting a list in order.

use vstd::prelude::*;

verus! {

/// The ordered list with `x` in its place, after what it does not come before.
pub open spec fn insert_v<T>(s: Seq<T>, x: T, before: spec_fn(T, T) -> bool) -> Seq<T>
    decreases s.len(),
{
    if s.len() == 0 || !before(x, s.last()) {
        s.push(x)
    } else {
        insert_v(s.drop_last(), x, before).push(s.last())
    }
}

/// The list in order; what is in no order stays as it came.
pub open spec fn sorted_v<T>(s: Seq<T>, before: spec_fn(T, T) -> bool) -> Seq<T>
    decreases s.len(),
{
    if s.len() == 0 {
        s
    } else {
        insert_v(sorted_v(s.drop_last(), before), s.last(), before)
    }
}

/// Where an element goes in.
pub proof fn insert_at<T>(s: Seq<T>, x: T, before: spec_fn(T, T) -> bool, j: int)
    requires
        0 <= j <= s.len(),
        forall|k: int| j <= k < s.len() ==> before(x, #[trigger] s[k]),
        j > 0 ==> !before(x, s[j - 1]),
    ensures
        insert_v(s, x, before) == s.insert(j, x),
    decreases s.len(),
{
    if j == s.len() {
        assert(s.push(x) =~= s.insert(j, x));
    } else {
        insert_at(s.drop_last(), x, before, j);
        assert(s.drop_last().insert(j, x).push(s.last()) =~= s.insert(j, x));
    }
}

/// Nothing in a list comes before what stands earlier in it.
pub open spec fn ordered_v<T>(s: Seq<T>, before: spec_fn(T, T) -> bool) -> bool {
    forall|i: int, j: int| 0 <= i < j < s.len() ==> !before(#[trigger] s[j], #[trigger] s[i])
}

/// `before` orders its values, some of which may be in no order.
pub open spec fn strict_v<T>(before: spec_fn(T, T) -> bool) -> bool {
    &&& forall|a: T, b: T| #[trigger] before(a, b) ==> !before(b, a)
    &&& forall|a: T, b: T, c: T|
        !(#[trigger] before(a, b)) && !(#[trigger] before(b, c)) ==> !before(a, c)
}

proof fn insert_ordered<T>(s: Seq<T>, x: T, before: spec_fn(T, T) -> bool)
    requires
        strict_v(before),
        ordered_v(s, before),
    ensures
        ordered_v(insert_v(s, x, before), before),
        forall|i: int|
            0 <= i < insert_v(s, x, before).len() ==> (#[trigger] insert_v(s, x, before)[i]) == x
                || s.contains(insert_v(s, x, before)[i]),
    decreases s.len(),
{
    let t = insert_v(s, x, before);
    if s.len() == 0 || !before(x, s.last()) {
        assert forall|i: int, j: int| 0 <= i < j < t.len() implies !before(
            #[trigger] t[j],
            #[trigger] t[i],
        ) by {
            if j == s.len() && i < s.len() - 1 {
                assert(!before(s.last(), s[i]));
                assert(!before(x, s.last()));
            }
        }
    } else {
        let d = s.drop_last();
        assert(ordered_v(d, before)) by {
            assert forall|i: int, j: int| 0 <= i < j < d.len() implies !before(
                #[trigger] d[j],
                #[trigger] d[i],
            ) by {
                assert(d[i] == s[i] && d[j] == s[j]);
            }
        }
        insert_ordered(d, x, before);
        let u = insert_v(d, x, before);
        assert forall|i: int, j: int| 0 <= i < j < t.len() implies !before(
            #[trigger] t[j],
            #[trigger] t[i],
        ) by {
            if j == t.len() - 1 {
                assert(t[i] == u[i]);
                if u[i] != x {
                    let k = choose|k: int| 0 <= k < d.len() && d[k] == u[i];
                    assert(s[k] == u[i]);
                    assert(!before(s.last(), s[k]));
                }
            } else {
                assert(t[i] == u[i] && t[j] == u[j]);
            }
        }
        assert forall|i: int| 0 <= i < t.len() implies (#[trigger] t[i]) == x || s.contains(
            t[i],
        ) by {
            if i < t.len() - 1 {
                assert(t[i] == u[i]);
                if u[i] != x {
                    let k = choose|k: int| 0 <= k < d.len() && d[k] == u[i];
                    assert(s[k] == t[i]);
                }
            } else {
                assert(s[s.len() - 1] == t[i]);
            }
        }
    }
}

/// A list put in order is in order.
pub proof fn sorted_is_ordered<T>(s: Seq<T>, before: spec_fn(T, T) -> bool)
    requires
        strict_v(before),
    ensures
        ordered_v(sorted_v(s, before), before),
    decreases s.len(),
{
    if s.len() > 0 {
        sorted_is_ordered(s.drop_last(), before);
        insert_ordered(sorted_v(s.drop_last(), before), s.last(), before);
    }
}

pub proof fn insert_length<T>(s: Seq<T>, x: T, before: spec_fn(T, T) -> bool)
    ensures
        insert_v(s, x, before).len() == s.len() + 1,
        insert_v(s, x, before).to_multiset() == s.to_multiset().insert(x),
    decreases s.len(),
{
    broadcast use vstd::seq_lib::group_to_multiset_ensures;

    if s.len() == 0 || !before(x, s.last()) {
    } else {
        insert_length(s.drop_last(), x, before);
        assert(s =~= s.drop_last().push(s.last()));
        let t = insert_v(s.drop_last(), x, before);
        assert(t.push(s.last()).to_multiset() =~= s.to_multiset().insert(x));
    }
}

/// Putting a list in order neither adds nor drops anything.
pub proof fn sorted_is_permutation<T>(s: Seq<T>, before: spec_fn(T, T) -> bool)
    ensures
        sorted_v(s, before).len() == s.len(),
        sorted_v(s, before).to_multiset() == s.to_multiset(),
    decreases s.len(),
{
    broadcast use vstd::seq_lib::group_to_multiset_ensures;

    if s.len() > 0 {
        sorted_is_permutation(s.drop_last(), before);
        insert_length(sorted_v(s.drop_last(), before), s.last(), before);
        assert(s =~= s.drop_last().push(s.last()));
    }
}

} // verus!
