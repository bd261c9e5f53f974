//! What holds of substitutions.

use vstd::prelude::*;

use crate::catalog;
use crate::modelmap;
use crate::modelmap::{EntryV, ResolutionV};
use crate::order;
use crate::text;

verus! {

/// No source occurs twice.
pub open spec fn distinct_v(map: Seq<EntryV>) -> bool {
    forall|i: int, j: int|
        0 <= i < j < map.len() ==> (#[trigger] map[i]).source != (#[trigger] map[j]).source
}

/// A substitution that may stand in a list: names without white space, control
/// characters and, in the target, equals signs, not equal to each other.
pub open spec fn sound_v(e: EntryV) -> bool {
    &&& e.source.len() > 0
    &&& e.target.len() > 0
    &&& modelmap::plain_v(e.source)
    &&& modelmap::plain_v(e.target)
    &&& !text::contains_v(e.target, "="@)
    &&& e.source != e.target
}

pub proof fn direct_none(map: Seq<EntryV>, id: Seq<char>, i: int)
    requires
        modelmap::direct_v(map, id) is None,
        0 <= i < map.len(),
    ensures
        map[i].source != id,
    decreases map.len(),
{
    if i < map.len() - 1 {
        direct_none(map.drop_last(), id, i);
        assert(map.drop_last()[i] == map[i]);
    }
}

proof fn read_ok(pieces: Seq<Seq<char>>)
    ensures
        modelmap::read_v(pieces) matches Ok(map) ==> distinct_v(map) && forall|i: int|
            0 <= i < map.len() ==> sound_v(#[trigger] map[i]),
    decreases pieces.len(),
{
    if pieces.len() > 0 {
        read_ok(pieces.drop_last());
        if let Ok(map) = modelmap::read_v(pieces.drop_last()) {
            let raw = text::trim_v(pieces.last());
            if raw.len() > 0 {
                if let Ok(e) = modelmap::entry_v(map, raw) {
                    let after = map.push(e);
                    assert forall|i: int, j: int| 0 <= i < j < after.len() implies (
                    #[trigger] after[i]).source != (#[trigger] after[j]).source by {
                        if j == map.len() {
                            direct_none(map, e.source, i);
                        }
                    }
                }
            }
        }
    }
}

/// Duplicate sources and models that stand for themselves are refused, and so
/// are cycles: in what is accepted each source occurs once, is not its own
/// target, and leads to a model.
pub proof fn accepted_maps_are_sound(value: Seq<char>)
    ensures
        modelmap::parse_v(value) matches Ok(map) ==> {
            &&& distinct_v(map)
            &&& forall|i: int| 0 <= i < map.len() ==> sound_v(#[trigger] map[i])
            &&& forall|id: Seq<char>| (#[trigger] modelmap::try_resolve_v(map, id)) is Ok
        },
{
    read_ok(text::split_any_v(value, ",;\n\r"@));
    if let Ok(map) = modelmap::parse_v(value) {
        assert forall|i: int| 0 <= i < map.len() implies (#[trigger] modelmap::try_resolve_v(
            map,
            map[i].source,
        )) is Ok by {
            no_cycle(map, map.len() as int, i);
        }
        assert forall|id: Seq<char>| (#[trigger] modelmap::try_resolve_v(map, id)) is Ok by {
            every_name_resolves(map, id);
        }
    }
}

proof fn no_cycle(map: Seq<EntryV>, n: int, i: int)
    requires
        modelmap::cycle_v(map, n) is None,
        0 <= i < n,
    ensures
        modelmap::try_resolve_v(map, map[i].source) is Ok,
    decreases n,
{
    if i < n - 1 {
        no_cycle(map, n - 1, i);
    }
}

/// Whether a walk ends, and where, does not depend on the names gone through
/// and on whether one of them was fast.
proof fn walk_is_by_name(
    map: Seq<EntryV>,
    current: Seq<char>,
    f: bool,
    c: Seq<Seq<char>>,
    g: bool,
    d: Seq<Seq<char>>,
    visited: Seq<Seq<char>>,
)
    ensures
        modelmap::walk_v(map, current, f, c, visited) is Ok == modelmap::walk_v(
            map,
            current,
            g,
            d,
            visited,
        ) is Ok,
    decreases modelmap::left_v(map, visited),
{
    let has_fast = catalog::norm_v(current).1;
    let lookup = modelmap::lookup_v(map, current);
    if let Some(target) = modelmap::direct_v(map, lookup) {
        if !visited.contains(lookup) {
            let next = text::trim_v(target);
            modelmap::left_drops(map, visited, lookup);
            walk_is_by_name(
                map,
                next,
                f || has_fast,
                c.push(next),
                g || has_fast,
                d.push(next),
                visited.push(lookup),
            );
        }
    }
}

pub proof fn direct_some(map: Seq<EntryV>, id: Seq<char>) -> (i: int)
    requires
        modelmap::direct_v(map, id) is Some,
    ensures
        0 <= i < map.len(),
        map[i].source == id,
    decreases map.len(),
{
    if map.last().source == id {
        map.len() - 1
    } else {
        let i = direct_some(map.drop_last(), id);
        assert(map.drop_last()[i] == map[i]);
        i
    }
}

pub proof fn plain_is_trimmed(s: Seq<char>)
    requires
        modelmap::plain_v(s),
    ensures
        text::trim_v(s) == s,
{
    if s.len() > 0 {
        assert(!text::is_space(s[0]));
        assert(!text::is_space(s[s.len() - 1]));
    }
}

proof fn every_name_resolves(map: Seq<EntryV>, id: Seq<char>)
    requires
        forall|i: int| 0 <= i < map.len() ==> sound_v(#[trigger] map[i]),
        forall|i: int|
            0 <= i < map.len() ==> (#[trigger] modelmap::try_resolve_v(map, map[i].source)) is Ok,
    ensures
        modelmap::try_resolve_v(map, id) is Ok,
{
    let requested = text::trim_v(id);
    let (base, fast) = catalog::norm_v(requested);
    let empty = Seq::<Seq<char>>::empty();
    if base.len() > 0 {
        let lookup = modelmap::lookup_v(map, requested);
        if let Some(target) = modelmap::direct_v(map, lookup) {
            let i = direct_some(map, lookup);
            assert(sound_v(map[i]));
            let source = map[i].source;
            plain_is_trimmed(source);
            assert(modelmap::try_resolve_v(map, source) is Ok);
            let source_fast = catalog::norm_v(source).1;
            assert(catalog::norm_v(source).0.len() > 0);
            assert(modelmap::lookup_v(map, source) == source);
            let next = text::trim_v(target);
            assert(!empty.contains(lookup));
            walk_is_by_name(
                map,
                next,
                source_fast || source_fast,
                seq![source].push(next),
                fast || fast,
                seq![requested].push(next),
                empty.push(lookup),
            );
            assert(modelmap::walk_v(map, source, source_fast, seq![source], empty)
                == modelmap::walk_v(
                map,
                next,
                source_fast || source_fast,
                seq![source].push(next),
                empty.push(lookup),
            ));
            assert(modelmap::walk_v(map, requested, fast, seq![requested], empty)
                == modelmap::walk_v(
                map,
                next,
                fast || fast,
                seq![requested].push(next),
                empty.push(lookup),
            ));
        }
    }
}

/// A walk ends at a name for which there is no substitution, and goes through
/// the names that it started with first.
pub proof fn walks_end_at_targets(
    map: Seq<EntryV>,
    current: Seq<char>,
    fast: bool,
    chain: Seq<Seq<char>>,
    visited: Seq<Seq<char>>,
)
    ensures
        modelmap::walk_v(map, current, fast, chain, visited) matches Ok(end) ==> {
            &&& modelmap::direct_v(map, end.model) is None
            &&& fast ==> end.fast
            &&& chain.is_prefix_of(end.chain)
        },
    decreases modelmap::left_v(map, visited),
{
    let has_fast = catalog::norm_v(current).1;
    let lookup = modelmap::lookup_v(map, current);
    if let Some(target) = modelmap::direct_v(map, lookup) {
        if !visited.contains(lookup) {
            let next = text::trim_v(target);
            modelmap::left_drops(map, visited, lookup);
            walks_end_at_targets(
                map,
                next,
                fast || has_fast,
                chain.push(next),
                visited.push(lookup),
            );
            if let Ok(end) = modelmap::walk_v(map, current, fast, chain, visited) {
                assert(chain.push(next).is_prefix_of(end.chain));
                assert forall|i: int| 0 <= i < chain.len() implies chain[i] == end.chain[i] by {
                    assert(chain.push(next)[i] == chain[i]);
                }
            }
        }
    }
}

/// A fast request stays fast through any substitution.
pub proof fn fast_requests_stay_fast(map: Seq<EntryV>, id: Seq<char>)
    requires
        catalog::norm_v(text::trim_v(id)).1,
    ensures
        modelmap::try_resolve_v(map, id) matches Ok(r) ==> r.fast,
{
    let requested = text::trim_v(id);
    walks_end_at_targets(map, requested, true, seq![requested], Seq::empty());
}

/// One of the names carries the suffix of a fast model.
pub open spec fn any_fast_v(names: Seq<Seq<char>>) -> bool {
    exists|i: int| 0 <= i < names.len() && catalog::norm_v(#[trigger] names[i]).1
}

/// A name without white space that does not carry the suffix twice.
pub open spec fn single_v(id: Seq<char>) -> bool {
    &&& id.len() > 0
    &&& forall|i: int| 0 <= i < id.len() ==> !text::is_space(#[trigger] id[i])
    &&& !text::ends_v(id, "-fast-fast"@)
}

/// What is left of such a name without its suffix has none to lose.
proof fn single_names_settle(id: Seq<char>)
    requires
        single_v(id),
    ensures
        text::trim_v(id) == id,
        ({
            let base = catalog::norm_v(id).0;
            &&& base.len() > 0
            &&& text::trim_v(base) == base
            &&& catalog::norm_v(base) == (base, false)
        }),
{
    reveal_strlit("-fast");
    reveal_strlit("-fast-fast");
    let suffix = "-fast"@;
    let twice = "-fast-fast"@;
    assert(!text::is_space(id[0]) && !text::is_space(id[id.len() - 1]));
    assert(text::trim_v(id) == id);
    assert(suffix.len() == 5 && twice.len() == 10);
    let base = catalog::norm_v(id).0;
    if text::ends_v(id, suffix) && id.len() > 5 {
        assert(base == id.take(id.len() - 5));
        assert(!text::is_space(id[0]) && !text::is_space(id[base.len() - 1]));
        assert(base[0] == id[0] && base.last() == id[base.len() - 1]);
        assert(text::trim_v(base) == base);
        if text::ends_v(base, suffix) {
            assert(twice =~= suffix + suffix);
            assert(id.skip(id.len() - 10) =~= base.skip(base.len() - 5) + id.skip(id.len() - 5));
        }
    }
}

/// A walk over such names: it is fast where one of them is.
proof fn walks_are_fast_by_name(
    map: Seq<EntryV>,
    current: Seq<char>,
    fast: bool,
    chain: Seq<Seq<char>>,
    visited: Seq<Seq<char>>,
)
    requires
        forall|i: int| 0 <= i < map.len() ==> single_v((#[trigger] map[i]).target),
        single_v(current),
        chain.len() > 0,
        chain.last() == current,
        any_fast_v(chain.drop_last()) ==> fast,
        fast ==> any_fast_v(chain),
    ensures
        modelmap::walk_v(map, current, fast, chain, visited) matches Ok(end) ==> {
            &&& end.chain.len() > 0
            &&& single_v(end.chain.last())
            &&& end.model == catalog::norm_v(end.chain.last()).0
            &&& end.fast <==> any_fast_v(end.chain)
        },
    decreases modelmap::left_v(map, visited),
{
    let has_fast = catalog::norm_v(current).1;
    let lookup = modelmap::lookup_v(map, current);
    assert(chain[chain.len() - 1] == current);
    match modelmap::direct_v(map, lookup) {
        Some(target) => {
            if !visited.contains(lookup) {
                let i = direct_target(map, lookup);
                assert(single_v(map[i].target));
                single_names_settle(target);
                let next = text::trim_v(target);
                let longer = chain.push(next);
                assert(longer.drop_last() =~= chain);
                if any_fast_v(chain) {
                    let k = choose|k: int|
                        0 <= k < chain.len() && catalog::norm_v(#[trigger] chain[k]).1;
                    assert(longer[k] == chain[k]);
                    if k < chain.len() - 1 {
                        assert(chain.drop_last()[k] == chain[k]);
                    }
                }
                modelmap::left_drops(map, visited, lookup);
                walks_are_fast_by_name(
                    map,
                    next,
                    fast || has_fast,
                    longer,
                    visited.push(lookup),
                );
            }
        },
        None => {
            if any_fast_v(chain) {
                let k = choose|k: int|
                    0 <= k < chain.len() && catalog::norm_v(#[trigger] chain[k]).1;
                if k < chain.len() - 1 {
                    assert(chain.drop_last()[k] == chain[k]);
                }
            }
        },
    }
}

proof fn direct_target(map: Seq<EntryV>, id: Seq<char>) -> (i: int)
    requires
        modelmap::direct_v(map, id) is Some,
    ensures
        0 <= i < map.len(),
        modelmap::direct_v(map, id) == Some(map[i].target),
    decreases map.len(),
{
    if map.last().source == id {
        map.len() - 1
    } else {
        let i = direct_target(map.drop_last(), id);
        assert(map.drop_last()[i] == map[i]);
        i
    }
}

/// How a request for a name is resolved, where neither it nor a target carries
/// the suffix `-fast` twice: the chain starts with the name and ends with that
/// of the model, the model is fast exactly where a name on the chain carries the
/// suffix, and it is mapped exactly where there is more than one name on the
/// chain or the model is not the one that was asked for.
pub proof fn resolutions_follow_their_chain(value: Seq<char>, id: Seq<char>)
    requires
        single_v(text::trim_v(id)),
        modelmap::parse_v(value) matches Ok(map) && forall|i: int|
            0 <= i < map.len() ==> !text::ends_v((#[trigger] map[i]).target, "-fast-fast"@),
    ensures
        ({
            let r = modelmap::resolve_v(modelmap::parse_v(value)->Ok_0, id);
            &&& r.chain.len() > 0
            &&& r.chain[0] == text::trim_v(id)
            &&& r.model == catalog::norm_v(r.chain.last()).0
            &&& r.fast <==> any_fast_v(r.chain)
            &&& r.mapped <==> r.chain.len() > 1 || r.model != catalog::norm_v(id).0
        }),
{
    let map = modelmap::parse_v(value)->Ok_0;
    accepted_maps_are_sound(value);
    targets_are_single(map);
    let requested = text::trim_v(id);
    let fast = catalog::norm_v(requested).1;
    let chain = seq![requested];
    single_names_settle(requested);
    assert(modelmap::try_resolve_v(map, id) is Ok);
    assert(!any_fast_v(chain.drop_last()));
    assert(chain[0] == requested);
    walks_are_fast_by_name(map, requested, fast, chain, Seq::empty());
    walks_end_at_targets(map, requested, fast, chain, Seq::empty());
    let end = modelmap::walk_v(map, requested, fast, chain, Seq::empty())->Ok_0;
    single_names_settle(end.chain.last());
    assert(end.chain[0] == chain[0]);
}

proof fn targets_are_single(map: Seq<EntryV>)
    requires
        forall|i: int| 0 <= i < map.len() ==> sound_v(#[trigger] map[i]),
        forall|i: int|
            0 <= i < map.len() ==> !text::ends_v((#[trigger] map[i]).target, "-fast-fast"@),
    ensures
        forall|i: int| 0 <= i < map.len() ==> single_v((#[trigger] map[i]).target),
{
    assert forall|i: int| 0 <= i < map.len() implies single_v((#[trigger] map[i]).target) by {
        assert(sound_v(map[i]));
    }
}

/// Resolution is final: the model that a name comes to, where neither the name
/// nor a target carries the suffix `-fast` twice, comes to itself, unmapped and
/// not fast.
pub proof fn resolutions_are_final(value: Seq<char>, id: Seq<char>)
    requires
        single_v(text::trim_v(id)),
        modelmap::parse_v(value) matches Ok(map) && forall|i: int|
            0 <= i < map.len() ==> !text::ends_v((#[trigger] map[i]).target, "-fast-fast"@),
    ensures
        ({
            let map = modelmap::parse_v(value)->Ok_0;
            let r = modelmap::resolve_v(map, id);
            let q = modelmap::resolve_v(map, r.model);
            q.model == r.model && !q.mapped && !q.fast
        }),
{
    let map = modelmap::parse_v(value)->Ok_0;
    accepted_maps_are_sound(value);
    targets_are_single(map);
    let requested = text::trim_v(id);
    let fast = catalog::norm_v(requested).1;
    let chain = seq![requested];
    single_names_settle(requested);
    assert(modelmap::try_resolve_v(map, id) is Ok);
    assert(!any_fast_v(chain.drop_last()));
    assert(chain[0] == requested);
    walks_are_fast_by_name(map, requested, fast, chain, Seq::empty());
    walks_end_at_targets(map, requested, fast, chain, Seq::empty());
    let end = modelmap::walk_v(map, requested, fast, chain, Seq::empty())->Ok_0;
    single_names_settle(end.chain.last());
    let r = modelmap::resolve_v(map, id);
    assert(r.model == end.model);
    assert(modelmap::direct_v(map, r.model) is None);
    assert(modelmap::lookup_v(map, r.model) == r.model);
}

/// The name of a fast model reads back as that model, fast.
pub proof fn effective_names_read_back(r: ResolutionV)
    requires
        r.fast,
        r.model.len() > 0,
        !text::is_space(r.model[0]),
    ensures
        catalog::norm_v(modelmap::effective_v(r)) == (r.model, true),
{
    catalog::fast_names_read_back(r.model);
}

/// The text of a list does not depend on the order in which its substitutions
/// were written.
pub proof fn texts_are_stable(a: Seq<EntryV>, b: Seq<EntryV>)
    requires
        distinct_v(a),
        a.to_multiset() == b.to_multiset(),
    ensures
        modelmap::stable_v(a) == modelmap::stable_v(b),
{
    let before = |x: EntryV, y: EntryV| text::less_v(x.source, y.source);
    let leq = |x: EntryV, y: EntryV| leq_v(x, y);
    strict_sources(before);
    order::sorted_is_ordered(a, before);
    order::sorted_is_ordered(b, before);
    order::sorted_is_permutation(a, before);
    order::sorted_is_permutation(b, before);
    let x = modelmap::sorted_entries_v(a);
    let y = modelmap::sorted_entries_v(b);
    total_entries(leq);
    distinct_sorted(a, x, leq);
    distinct_sorted(a, y, leq);
    vstd::seq_lib::lemma_sorted_unique(x, y, leq);
}

/// By source, then by target.
spec fn leq_v(x: EntryV, y: EntryV) -> bool {
    if x.source == y.source {
        !text::less_v(y.target, x.target)
    } else {
        text::less_v(x.source, y.source)
    }
}

proof fn strict_sources(before: spec_fn(EntryV, EntryV) -> bool)
    requires
        before == (|x: EntryV, y: EntryV| text::less_v(x.source, y.source)),
    ensures
        order::strict_v(before),
{
    assert forall|a: EntryV, b: EntryV| #[trigger] before(a, b) implies !before(b, a) by {
        text::less_total(a.source, b.source);
    }
    assert forall|a: EntryV, b: EntryV, c: EntryV|
        !(#[trigger] before(a, b)) && !(#[trigger] before(b, c)) implies !before(a, c) by {
        text::less_chain(a.source, b.source, c.source);
    }
}

proof fn total_entries(leq: spec_fn(EntryV, EntryV) -> bool)
    requires
        leq == (|x: EntryV, y: EntryV| leq_v(x, y)),
    ensures
        vstd::relations::total_ordering(leq),
{
    assert forall|x: EntryV| #[trigger] leq(x, x) by {
        text::less_total(x.target, x.target);
    }
    assert forall|x: EntryV, y: EntryV| #[trigger] leq(x, y) && #[trigger] leq(y, x) implies x
        == y by {
        text::less_total(x.source, y.source);
        text::less_total(x.target, y.target);
    }
    assert forall|x: EntryV, y: EntryV, z: EntryV| #[trigger]
        leq(x, y) && #[trigger] leq(y, z) implies leq(x, z) by {
        text::less_total(x.source, y.source);
        text::less_total(y.source, z.source);
        text::less_total(x.source, z.source);
        text::less_chain(z.source, y.source, x.source);
        if x.source == y.source && y.source == z.source {
            text::less_chain(z.target, y.target, x.target);
        }
    }
    assert forall|x: EntryV, y: EntryV| #[trigger] leq(x, y) || #[trigger] leq(y, x) by {
        text::less_total(x.source, y.source);
        text::less_total(x.target, y.target);
    }
}

proof fn distinct_sorted(a: Seq<EntryV>, x: Seq<EntryV>, leq: spec_fn(EntryV, EntryV) -> bool)
    requires
        distinct_v(a),
        a.to_multiset() == x.to_multiset(),
        leq == (|x: EntryV, y: EntryV| leq_v(x, y)),
        order::ordered_v(x, |x: EntryV, y: EntryV| text::less_v(x.source, y.source)),
    ensures
        vstd::relations::sorted_by(x, leq),
{
    let before = |x: EntryV, y: EntryV| text::less_v(x.source, y.source);
    assert forall|i: int, j: int| 0 <= i < j < x.len() implies #[trigger] leq(x[i], x[j]) by {
        assert(!before(x[j], x[i]));
        text::less_total(x[i].source, x[j].source);
        same_source(a, x, i, j);
    }
}

pub proof fn same_source(a: Seq<EntryV>, x: Seq<EntryV>, i: int, j: int)
    requires
        distinct_v(a),
        a.to_multiset() == x.to_multiset(),
        0 <= i < j < x.len(),
    ensures
        x[i].source != x[j].source,
{
    broadcast use vstd::seq_lib::group_to_multiset_ensures;
    broadcast use vstd::multiset::group_multiset_axioms;

    assert(a.no_duplicates()) by {
        assert forall|p: int, q: int| 0 <= p < a.len() && 0 <= q < a.len() && p != q implies a[p]
            != a[q] by {
            if p < q {
                assert(a[p].source != a[q].source);
            } else {
                assert(a[q].source != a[p].source);
            }
        }
    }
    a.lemma_multiset_has_no_duplicates();
    assert(x.contains(x[i]) && x.contains(x[j]));
    assert(x.to_multiset().count(x[i]) > 0);
    assert(x.to_multiset().count(x[j]) > 0);
    assert(a.contains(x[i]) && a.contains(x[j]));
    let p = choose|p: int| 0 <= p < a.len() && a[p] == x[i];
    let q = choose|q: int| 0 <= q < a.len() && a[q] == x[j];
    if p != q {
        if p < q {
            assert(a[p].source != a[q].source);
        } else {
            assert(a[q].source != a[p].source);
        }
    }
    if x[i].source == x[j].source {
        assert(x[i] == x[j]);
        // One value at two places is there twice.
        let d = x.remove(i);
        assert(d[j - 1] == x[j]);
        assert(x.remove(i).contains(x[j]));
        assert(x =~= d.insert(i, x[i]));
        assert(d.to_multiset().count(x[i]) > 0);
        assert(x.to_multiset() =~= d.to_multiset().insert(x[i]));
        assert(x.to_multiset().count(x[i]) >= 2);
        assert(a.to_multiset().count(x[i]) <= 1);
    }
}

} // verus!
