//! What holds of the groups of failures.

use vstd::multiset::Multiset;
use vstd::prelude::*;

use crate::monitor::app::FailureFilter;
use crate::monitor::failures;
use crate::monitor::failures::GroupV;
use crate::order;
use crate::store::model::FailureV;

verus! {

/// The failures of some groups, counted.
spec fn held_v(groups: Seq<GroupV>) -> Multiset<FailureV>
    decreases groups.len(),
{
    if groups.len() == 0 {
        Multiset::empty()
    } else {
        held_v(groups.drop_last()).add(groups.last().members.to_multiset())
    }
}

proof fn flat_holds(groups: Seq<GroupV>)
    ensures
        failures::flat_v(groups).to_multiset() == held_v(groups),
    decreases groups.len(),
{
    broadcast use vstd::seq_lib::group_to_multiset_ensures;

    if groups.len() > 0 {
        flat_holds(groups.drop_last());
        vstd::seq_lib::lemma_multiset_commutative(
            failures::flat_v(groups.drop_last()),
            groups.last().members,
        );
    } else {
        assert(failures::flat_v(groups).to_multiset() =~= Multiset::empty());
    }
}

proof fn insert_holds(s: Seq<GroupV>, x: GroupV, before: spec_fn(GroupV, GroupV) -> bool)
    ensures
        held_v(order::insert_v(s, x, before)) == held_v(s).add(x.members.to_multiset()),
    decreases s.len(),
{
    if s.len() == 0 || !before(x, s.last()) {
        assert(s.push(x).drop_last() =~= s);
    } else {
        let t = order::insert_v(s.drop_last(), x, before);
        insert_holds(s.drop_last(), x, before);
        assert(t.push(s.last()).drop_last() =~= t);
        assert(held_v(t.push(s.last())) =~= held_v(s).add(x.members.to_multiset()));
    }
}

proof fn sorting_holds(s: Seq<GroupV>, before: spec_fn(GroupV, GroupV) -> bool)
    ensures
        held_v(order::sorted_v(s, before)) == held_v(s),
    decreases s.len(),
{
    if s.len() > 0 {
        sorting_holds(s.drop_last(), before);
        insert_holds(order::sorted_v(s.drop_last(), before), s.last(), before);
    }
}

proof fn showing_holds(s: Seq<GroupV>)
    ensures
        held_v(s.map_values(|g: GroupV| failures::shown_v(g))) == held_v(s),
    decreases s.len(),
{
    let m = s.map_values(|g: GroupV| failures::shown_v(g));
    if s.len() > 0 {
        showing_holds(s.drop_last());
        assert(m.drop_last() =~= s.drop_last().map_values(|g: GroupV| failures::shown_v(g)));
        order::sorted_is_permutation(s.last().members, failures::before_v(true));
    }
}

proof fn joining_holds(a: Seq<GroupV>, b: Seq<GroupV>)
    ensures
        held_v(a + b) == held_v(a).add(held_v(b)),
    decreases b.len(),
{
    if b.len() == 0 {
        assert(a + b =~= a);
        assert(held_v(a).add(held_v(b)) =~= held_v(a));
    } else {
        joining_holds(a, b.drop_last());
        assert((a + b).drop_last() =~= a + b.drop_last());
        assert(held_v(a + b) =~= held_v(a).add(held_v(b)));
    }
}

proof fn cutting_holds(session: Seq<char>, s: Seq<FailureV>)
    ensures
        held_v(failures::named_v(session, failures::chunks_v(s))) == s.to_multiset(),
        s.len() > 0 ==> failures::chunks_v(s).len() > 0,
    decreases s.len(),
{
    broadcast use vstd::seq_lib::group_to_multiset_ensures;

    let groups = failures::named_v(session, failures::chunks_v(s));
    if s.len() == 0 {
        assert(s.to_multiset() =~= Multiset::empty());
        assert(groups =~= Seq::<GroupV>::empty());
    } else {
        let before = failures::chunks_v(s.drop_last());
        cutting_holds(session, s.drop_last());
        assert(s =~= s.drop_last().push(s.last()));
        let old_groups = failures::named_v(session, before);
        if s.len() > 1 && before.len() > 0 && failures::near_v(s[s.len() - 2], s.last()) {
            assert(groups.drop_last() =~= old_groups.drop_last());
            assert(groups.last().members == before.last().push(s.last()));
            assert(old_groups.last().members == before.last());
            assert(held_v(groups) =~= s.to_multiset());
        } else {
            assert(groups.drop_last() =~= old_groups);
            assert(groups.last().members =~= Seq::<FailureV>::empty().push(s.last()));
            assert(held_v(groups) =~= s.to_multiset());
        }
    }
}

/// The failures of some sessions, counted session by session.
spec fn parts_v(s: Seq<FailureV>, names: Seq<Seq<char>>) -> Multiset<FailureV>
    decreases names.len(),
{
    if names.len() == 0 {
        Multiset::empty()
    } else {
        parts_v(s, names.drop_last()).add(
            failures::of_session_v(s, names.last()).to_multiset(),
        )
    }
}

proof fn groups_hold_parts(s: Seq<FailureV>, names: Seq<Seq<char>>)
    ensures
        held_v(failures::all_groups_v(s, names)) == parts_v(s, names),
    decreases names.len(),
{
    if names.len() > 0 {
        let own = failures::of_session_v(s, names.last());
        groups_hold_parts(s, names.drop_last());
        order::sorted_is_permutation(own, failures::before_v(false));
        cutting_holds(names.last(), failures::by_age_v(own, false));
        joining_holds(
            failures::all_groups_v(s, names.drop_last()),
            failures::named_v(
                names.last(),
                failures::chunks_v(failures::by_age_v(own, false)),
            ),
        );
    }
}

proof fn part_grows(s: Seq<FailureV>, names: Seq<Seq<char>>)
    requires
        s.len() > 0,
        names.no_duplicates(),
    ensures
        parts_v(s, names) == if names.contains(s.last().session_id) {
            parts_v(s.drop_last(), names).insert(s.last())
        } else {
            parts_v(s.drop_last(), names)
        },
    decreases names.len(),
{
    broadcast use vstd::seq_lib::group_to_multiset_ensures;

    let x = s.last();
    if names.len() > 0 {
        let head = names.drop_last();
        part_grows(s, head);
        if names.last() == x.session_id {
            assert(!head.contains(x.session_id)) by {
                if head.contains(x.session_id) {
                    let i = choose|i: int| 0 <= i < head.len() && head[i] == x.session_id;
                    assert(names[i] == names[names.len() - 1]);
                }
            }
            assert(names.contains(x.session_id)) by {
                assert(names[names.len() - 1] == x.session_id);
            }
            assert(parts_v(s, names) =~= parts_v(s.drop_last(), names).insert(x));
        } else {
            assert(names.contains(x.session_id) <==> head.contains(x.session_id)) by {
                if names.contains(x.session_id) {
                    let i = choose|i: int| 0 <= i < names.len() && names[i] == x.session_id;
                    assert(head[i] == x.session_id);
                }
                if head.contains(x.session_id) {
                    let i = choose|i: int| 0 <= i < head.len() && head[i] == x.session_id;
                    assert(names[i] == x.session_id);
                }
            }
            if names.contains(x.session_id) {
                assert(parts_v(s, names) =~= parts_v(s.drop_last(), names).insert(x));
            } else {
                assert(parts_v(s, names) =~= parts_v(s.drop_last(), names));
            }
        }
    }
}

proof fn parts_make_all(s: Seq<FailureV>, names: Seq<Seq<char>>)
    requires
        names.no_duplicates(),
        forall|i: int| 0 <= i < s.len() ==> names.contains((#[trigger] s[i]).session_id),
    ensures
        parts_v(s, names) == s.to_multiset(),
    decreases s.len(),
{
    broadcast use vstd::seq_lib::group_to_multiset_ensures;

    if s.len() == 0 {
        nothing_of_nothing(s, names);
        assert(s.to_multiset() =~= Multiset::empty());
    } else {
        let head = s.drop_last();
        assert forall|i: int| 0 <= i < head.len() implies names.contains(
            (#[trigger] head[i]).session_id,
        ) by {
            assert(names.contains(s[i].session_id));
        }
        parts_make_all(head, names);
        part_grows(s, names);
        assert(names.contains(s[s.len() - 1].session_id));
        assert(s =~= head.push(s.last()));
    }
}

proof fn nothing_of_nothing(s: Seq<FailureV>, names: Seq<Seq<char>>)
    requires
        s.len() == 0,
    ensures
        parts_v(s, names) == Multiset::<FailureV>::empty(),
    decreases names.len(),
{
    broadcast use vstd::seq_lib::group_to_multiset_ensures;

    if names.len() > 0 {
        nothing_of_nothing(s, names.drop_last());
        let none = failures::of_session_v(s, names.last());
        assert(none =~= Seq::<FailureV>::empty());
        assert(none.to_multiset() =~= Multiset::empty());
        assert(parts_v(s, names) =~= Multiset::empty());
    }
}

proof fn sessions_are_all(s: Seq<FailureV>)
    ensures
        failures::sessions_v(s).no_duplicates(),
        forall|i: int|
            0 <= i < s.len() ==> failures::sessions_v(s).contains((#[trigger] s[i]).session_id),
    decreases s.len(),
{
    if s.len() > 0 {
        let head = s.drop_last();
        let before = failures::sessions_v(head);
        let names = failures::sessions_v(s);
        sessions_are_all(head);
        assert forall|i: int| 0 <= i < s.len() implies names.contains(
            (#[trigger] s[i]).session_id,
        ) by {
            if i < head.len() {
                assert(before.contains(head[i].session_id));
                let k = choose|k: int| 0 <= k < before.len() && before[k] == head[i].session_id;
                assert(names[k] == s[i].session_id);
            } else if !before.contains(s[i].session_id) {
                assert(names[before.len() as int] == s[i].session_id);
            }
        }
    }
}

/// Every failure that a filter shows is in exactly one group, as often as it is
/// there: grouping neither drops nor adds anything.
pub proof fn groups_hold_every_failure(s: Seq<FailureV>, filter: FailureFilter)
    ensures
        failures::ordered_v(s, filter).to_multiset() == failures::filtered_v(
            s,
            filter,
        ).to_multiset(),
{
    let fs = failures::filtered_v(s, filter);
    let names = failures::sessions_v(fs);
    let all = failures::all_groups_v(fs, names);
    let ranked = order::sorted_v(all, failures::ranks_v());
    sessions_are_all(fs);
    parts_make_all(fs, names);
    groups_hold_parts(fs, names);
    sorting_holds(all, failures::ranks_v());
    showing_holds(ranked);
    flat_holds(failures::grouped_v(fs));
}

/// Within a group each failure follows the one before it closely, and a new
/// group begins where one does not.
pub proof fn groups_are_chains(s: Seq<FailureV>)
    ensures
        forall|i: int, k: int|
            0 <= i < failures::chunks_v(s).len() && 0 < k < failures::chunks_v(s)[i].len()
                ==> failures::near_v(
                #[trigger] failures::chunks_v(s)[i][k - 1],
                failures::chunks_v(s)[i][k],
            ),
        forall|i: int|
            0 <= i < failures::chunks_v(s).len() ==> (#[trigger] failures::chunks_v(s)[i]).len() > 0,
        forall|i: int|
            0 < i < failures::chunks_v(s).len() ==> !failures::near_v(
                (#[trigger] failures::chunks_v(s)[i - 1]).last(),
                failures::chunks_v(s)[i][0],
            ),
        s.len() > 0 ==> failures::chunks_v(s).len() > 0 && failures::chunks_v(s).last().last()
            == s.last(),
    decreases s.len(),
{
    if s.len() > 0 {
        let before = failures::chunks_v(s.drop_last());
        let after = failures::chunks_v(s);
        groups_are_chains(s.drop_last());
        assert forall|i: int, k: int|
            0 <= i < after.len() && 0 < k < after[i].len() implies failures::near_v(
            #[trigger] after[i][k - 1],
            after[i][k],
        ) by {
            if i < before.len() && k < before[i].len() {
                assert(failures::near_v(before[i][k - 1], before[i][k]));
            }
        }
        assert forall|i: int| 0 < i < after.len() implies !failures::near_v(
            (#[trigger] after[i - 1]).last(),
            after[i][0],
        ) by {
            if i < before.len() {
                assert(before[i - 1].len() > 0);
                assert(before[i].len() > 0);
                assert(!failures::near_v(before[i - 1].last(), before[i][0]));
            } else {
                assert(before.len() > 0);
                assert(s.len() > 1);
                assert(before.last().last() == s[s.len() - 2]);
            }
        }
    }
}

/// A filter shows the failures that it matches, all of them and no others.
pub proof fn filters_show_what_matches(s: Seq<FailureV>, filter: FailureFilter, f: FailureV)
    ensures
        failures::filtered_v(s, filter).contains(f) <==> s.contains(f) && filter.matches_v(f.kind),
    decreases s.len(),
{
    if s.len() > 0 {
        let d = s.drop_last();
        let before = failures::filtered_v(d, filter);
        filters_show_what_matches(d, filter, f);
        assert(s =~= d.push(s.last()));
        if d.contains(f) {
            let k = choose|k: int| 0 <= k < d.len() && d[k] == f;
            assert(s[k] == f);
        }
        if filter.matches_v(s.last().kind) {
            let after = before.push(s.last());
            assert(after[before.len() as int] == s.last());
            if before.contains(f) {
                let k = choose|k: int| 0 <= k < before.len() && before[k] == f;
                assert(after[k] == f);
            }
        }
        assert(s[s.len() - 1] == s.last());
    }
}

} // verus!
