//! The text of a list of substitutions, read again.

use vstd::prelude::*;

use crate::catalog;
use crate::modelmap;
use crate::modelmap::laws;
use crate::modelmap::{EntryV, MapErrorV};
use crate::order;
use crate::text;

verus! {

/// None of the characters of `set` is in `s`.
pub open spec fn free_v(s: Seq<char>, set: Seq<char>) -> bool {
    forall|i: int| 0 <= i < s.len() ==> !set.contains(#[trigger] s[i])
}

/// A substitution that reads back: sound, without what separates substitutions,
/// and without an equals sign in its source.
pub open spec fn writable_v(e: EntryV) -> bool {
    &&& laws::sound_v(e)
    &&& free_v(e.source, ",;\n\r"@)
    &&& free_v(e.target, ",;\n\r"@)
    &&& free_v(e.source, "="@)
    &&& free_v(e.target, "="@)
}

proof fn equals_sign()
    ensures
        "="@.len() == 1,
        "="@[0] == '=',
        ","@.len() == 1,
        ","@[0] == ',',
        forall|c: char| #[trigger] "="@.contains(c) <==> c == '=',
        ",;\n\r"@.contains(','),
        !",;\n\r"@.contains('='),
{
    reveal_strlit("=");
    reveal_strlit(",");
    reveal_strlit(",;\n\r");
    assert("="@[0] == '=');
    assert(",;\n\r"@[0] == ',');
    let set = ",;\n\r"@;
    assert(set.len() == 4 && set[0] == ',' && set[1] == ';' && set[2] == '\n' && set[3] == '\r');
}

proof fn at_is_equals(s: Seq<char>, i: int)
    ensures
        text::at_v(s, "="@, i) <==> 0 <= i < s.len() && s[i] == '=',
{
    equals_sign();
    if 0 <= i < s.len() {
        assert(s.subrange(i, i + 1)[0] == s[i]);
        if s[i] == '=' {
            assert(s.subrange(i, i + 1) =~= "="@);
        }
    }
}

proof fn no_equals_is_free(s: Seq<char>)
    ensures
        !text::contains_v(s, "="@) <==> free_v(s, "="@),
{
    equals_sign();
    assert forall|i: int| 0 <= i < s.len() && text::contains_v(s, "="@) == false implies !"="@.contains(
        #[trigger] s[i],
    ) by {
        at_is_equals(s, i);
    }
    if text::contains_v(s, "="@) {
        let i = choose|i: int| text::at_v(s, "="@, i);
        at_is_equals(s, i);
        assert("="@.contains(s[i]));
    }
}

proof fn trimmed_is_free(s: Seq<char>, set: Seq<char>)
    requires
        free_v(s, set),
    ensures
        free_v(text::trim_v(s), set),
{
    start_is_free(s, set);
    end_is_free(text::trim_start_v(s), set);
}

proof fn start_is_free(s: Seq<char>, set: Seq<char>)
    requires
        free_v(s, set),
    ensures
        free_v(text::trim_start_v(s), set),
    decreases s.len(),
{
    if s.len() > 0 && text::is_space(s[0]) {
        assert forall|i: int| 0 <= i < s.skip(1).len() implies !set.contains(
            #[trigger] s.skip(1)[i],
        ) by {
            assert(s.skip(1)[i] == s[i + 1]);
        }
        start_is_free(s.skip(1), set);
    }
}

proof fn end_is_free(s: Seq<char>, set: Seq<char>)
    requires
        free_v(s, set),
    ensures
        free_v(text::trim_end_v(s), set),
    decreases s.len(),
{
    if s.len() > 0 && text::is_space(s.last()) {
        end_is_free(s.drop_last(), set);
    }
}

/// What stands between separators has none.
proof fn pieces_are_free(s: Seq<char>, set: Seq<char>)
    ensures
        text::split_any_v(s, set).len() > 0,
        forall|i: int|
            0 <= i < text::split_any_v(s, set).len() ==> free_v(
                #[trigger] text::split_any_v(s, set)[i],
                set,
            ),
    decreases s.len(),
{
    if s.len() > 0 {
        pieces_are_free(s.drop_last(), set);
        let before = text::split_any_v(s.drop_last(), set);
        let pieces = text::split_any_v(s, set);
        assert(free_v(before.last(), set)) by {
            assert(free_v(before[before.len() - 1], set));
        }
        assert forall|i: int| 0 <= i < pieces.len() implies free_v(#[trigger] pieces[i], set) by {
            if i < before.len() - 1 {
                assert(pieces[i] == before[i]);
            }
        }
    }
}

proof fn find_is_first(s: Seq<char>, i: int)
    requires
        0 <= i,
    ensures
        match text::find_from_v(s, "="@, i) {
            Some(p) => i <= p < s.len() && s[p] == '=' && forall|k: int|
                i <= k < p ==> #[trigger] s[k] != '=',
            None => forall|k: int| i <= k < s.len() ==> #[trigger] s[k] != '=',
        },
    decreases s.len() - i,
{
    equals_sign();
    at_is_equals(s, i);
    if i < s.len() && s[i] != '=' {
        find_is_first(s, i + 1);
    }
}

proof fn entries_are_writable(map: Seq<EntryV>, raw: Seq<char>)
    requires
        free_v(raw, ",;\n\r"@),
    ensures
        modelmap::entry_v(map, raw) matches Ok(e) ==> writable_v(e),
{
    equals_sign();
    find_is_first(raw, 0);
    if let Ok(e) = modelmap::entry_v(map, raw) {
        let i = text::find_from_v(raw, "="@, 0)->0;
        let head = raw.take(i);
        let tail = raw.skip(i + 1);
        assert forall|k: int| 0 <= k < head.len() implies !",;\n\r"@.contains(#[trigger] head[k])
            && !"="@.contains(head[k]) by {
            assert(head[k] == raw[k]);
        }
        assert forall|k: int| 0 <= k < tail.len() implies !",;\n\r"@.contains(
            #[trigger] tail[k],
        ) by {
            assert(tail[k] == raw[k + i + 1]);
        }
        trimmed_is_free(head, ",;\n\r"@);
        trimmed_is_free(head, "="@);
        trimmed_is_free(tail, ",;\n\r"@);
        no_equals_is_free(e.target);
    }
}

proof fn read_is_writable(pieces: Seq<Seq<char>>)
    requires
        forall|i: int| 0 <= i < pieces.len() ==> free_v(#[trigger] pieces[i], ",;\n\r"@),
    ensures
        modelmap::read_v(pieces) matches Ok(map) ==> forall|i: int|
            0 <= i < map.len() ==> writable_v(#[trigger] map[i]),
    decreases pieces.len(),
{
    if pieces.len() > 0 {
        let d = pieces.drop_last();
        assert forall|i: int| 0 <= i < d.len() implies free_v(#[trigger] d[i], ",;\n\r"@) by {
            assert(d[i] == pieces[i]);
        }
        read_is_writable(d);
        if let Ok(map) = modelmap::read_v(d) {
            let raw = text::trim_v(pieces.last());
            assert(free_v(pieces[pieces.len() - 1], ",;\n\r"@));
            trimmed_is_free(pieces.last(), ",;\n\r"@);
            entries_are_writable(map, raw);
        }
    }
}

/// What is written of a substitution reads as that substitution.
proof fn entry_reads_back(map: Seq<EntryV>, e: EntryV)
    requires
        writable_v(e),
        modelmap::direct_v(map, e.source) is None,
    ensures
        ({
            let raw = e.source + "="@ + e.target;
            &&& text::trim_v(raw) == raw
            &&& raw.len() > 0
            &&& free_v(raw, ",;\n\r"@)
            &&& modelmap::entry_v(map, raw) == Ok::<EntryV, MapErrorV>(e)
        }),
{
    equals_sign();
    let raw = e.source + "="@ + e.target;
    let n = e.source.len() as int;
    assert(raw[n] == '=');
    assert(raw[0] == e.source[0]);
    assert(raw.last() == e.target[e.target.len() - 1]);
    assert(!text::is_space(e.source[0]));
    assert(!text::is_space(e.target[e.target.len() - 1]));
    find_is_first(raw, 0);
    let p = text::find_from_v(raw, "="@, 0)->0;
    assert(p == n) by {
        if p < n {
            assert(raw[p] == e.source[p]);
            assert("="@.contains(e.source[p]));
        }
    }
    assert(raw.take(n) =~= e.source);
    assert(raw.skip(n + 1) =~= e.target);
    laws::plain_is_trimmed(e.source);
    laws::plain_is_trimmed(e.target);
    assert forall|k: int| 0 <= k < raw.len() implies !",;\n\r"@.contains(#[trigger] raw[k]) by {
        if k < n {
            assert(raw[k] == e.source[k]);
        } else if k > n {
            assert(raw[k] == e.target[k - n - 1]);
        }
    }
}

proof fn direct_is_none(map: Seq<EntryV>, id: Seq<char>)
    requires
        forall|i: int| 0 <= i < map.len() ==> (#[trigger] map[i]).source != id,
    ensures
        modelmap::direct_v(map, id) is None,
    decreases map.len(),
{
    if map.len() > 0 {
        let d = map.drop_last();
        assert forall|i: int| 0 <= i < d.len() implies (#[trigger] d[i]).source != id by {
            assert(d[i] == map[i]);
        }
        direct_is_none(d, id);
    }
}

proof fn written_reads_back(map: Seq<EntryV>)
    requires
        laws::distinct_v(map),
        forall|i: int| 0 <= i < map.len() ==> writable_v(#[trigger] map[i]),
    ensures
        modelmap::read_v(modelmap::written_v(map)) == Ok::<Seq<EntryV>, MapErrorV>(map),
        forall|i: int|
            0 <= i < map.len() ==> free_v(#[trigger] modelmap::written_v(map)[i], ",;\n\r"@),
    decreases map.len(),
{
    let written = modelmap::written_v(map);
    if map.len() > 0 {
        let d = map.drop_last();
        let e = map.last();
        assert forall|i: int, j: int| 0 <= i < j < d.len() implies (#[trigger] d[i]).source != (
        #[trigger] d[j]).source by {
            assert(d[i] == map[i] && d[j] == map[j]);
        }
        assert forall|i: int| 0 <= i < d.len() implies writable_v(#[trigger] d[i]) by {
            assert(d[i] == map[i]);
        }
        written_reads_back(d);
        assert(written.drop_last() =~= modelmap::written_v(d));
        assert forall|i: int| 0 <= i < d.len() implies (#[trigger] d[i]).source != e.source by {
            assert(map[i].source != map[map.len() - 1].source);
        }
        direct_is_none(d, e.source);
        assert(writable_v(map[map.len() - 1]));
        entry_reads_back(d, e);
        assert(written.last() == e.source + "="@ + e.target);
        assert(d.push(e) =~= map);
        assert forall|i: int| 0 <= i < map.len() implies free_v(
            #[trigger] written[i],
            ",;\n\r"@,
        ) by {
            if i < d.len() {
                assert(written[i] == modelmap::written_v(d)[i]);
            }
        }
    } else {
        assert(written =~= Seq::<Seq<char>>::empty());
        assert(map =~= Seq::<EntryV>::empty());
    }
}

proof fn split_grows(s: Seq<char>, piece: Seq<char>, set: Seq<char>)
    requires
        free_v(piece, set),
    ensures
        text::split_any_v(s, set).len() > 0,
        text::split_any_v(s + piece, set) == text::split_any_v(s, set).drop_last().push(
            text::split_any_v(s, set).last() + piece,
        ),
    decreases piece.len(),
{
    pieces_are_free(s, set);
    let whole = text::split_any_v(s, set);
    if piece.len() == 0 {
        assert(s + piece =~= s);
        assert(whole.last() + piece =~= whole.last());
        assert(whole.drop_last().push(whole.last()) =~= whole);
    } else {
        let d = piece.drop_last();
        assert(free_v(d, set)) by {
            assert forall|i: int| 0 <= i < d.len() implies !set.contains(#[trigger] d[i]) by {
                assert(d[i] == piece[i]);
            }
        }
        split_grows(s, d, set);
        assert(!set.contains(piece[piece.len() - 1]));
        assert((s + piece).drop_last() =~= s + d);
        assert((s + piece).last() == piece.last());
        let before = text::split_any_v(s + d, set);
        assert(before.drop_last() =~= whole.drop_last());
        assert(before.last().push(piece.last()) =~= whole.last() + piece);
    }
}

/// Pieces without separators that are joined by one are found again.
proof fn joined_splits(parts: Seq<Seq<char>>)
    requires
        parts.len() > 0,
        forall|i: int| 0 <= i < parts.len() ==> free_v(#[trigger] parts[i], ",;\n\r"@),
    ensures
        text::split_any_v(text::join_v(parts, ","@), ",;\n\r"@) == parts,
    decreases parts.len(),
{
    equals_sign();
    let set = ",;\n\r"@;
    let empty = Seq::<char>::empty();
    assert(free_v(parts[parts.len() - 1], set));
    if parts.len() == 1 {
        split_grows(empty, parts[0], set);
        assert(empty + parts[0] =~= parts[0]);
        assert(text::split_any_v(parts[0], set) =~= parts);
    } else {
        let d = parts.drop_last();
        assert forall|i: int| 0 <= i < d.len() implies free_v(#[trigger] d[i], set) by {
            assert(d[i] == parts[i]);
        }
        joined_splits(d);
        let before = text::join_v(d, ","@);
        let cut = before + ","@;
        assert(cut.drop_last() =~= before);
        assert(cut.last() == ',');
        assert(text::split_any_v(cut, set) == d.push(empty));
        split_grows(cut, parts.last(), set);
        assert(d.push(empty).drop_last() =~= d);
        assert(empty + parts.last() =~= parts.last());
        assert(d.push(parts.last()) =~= parts);
    }
}

proof fn direct_of(map: Seq<EntryV>, i: int)
    requires
        laws::distinct_v(map),
        0 <= i < map.len(),
    ensures
        modelmap::direct_v(map, map[i].source) == Some(map[i].target),
    decreases map.len(),
{
    if i < map.len() - 1 {
        let d = map.drop_last();
        assert(map[i].source != map[map.len() - 1].source);
        assert forall|p: int, q: int| 0 <= p < q < d.len() implies (#[trigger] d[p]).source != (
        #[trigger] d[q]).source by {
            assert(d[p] == map[p] && d[q] == map[q]);
        }
        assert(d[i] == map[i]);
        direct_of(d, i);
    }
}

/// Which substitution there is for a name does not depend on their order.
proof fn direct_is_stable(a: Seq<EntryV>, b: Seq<EntryV>, id: Seq<char>)
    requires
        laws::distinct_v(a),
        laws::distinct_v(b),
        forall|e: EntryV| a.contains(e) <==> b.contains(e),
    ensures
        modelmap::direct_v(a, id) == modelmap::direct_v(b, id),
{
    if modelmap::direct_v(a, id) is Some {
        let i = laws::direct_some(a, id);
        direct_of(a, i);
        assert(a.contains(a[i]));
        let j = choose|j: int| 0 <= j < b.len() && b[j] == a[i];
        direct_of(b, j);
    } else if modelmap::direct_v(b, id) is Some {
        let j = laws::direct_some(b, id);
        assert(b.contains(b[j]));
        let i = choose|i: int| 0 <= i < a.len() && a[i] == b[j];
        laws::direct_none(a, id, i);
    }
}

proof fn walk_is_stable(
    a: Seq<EntryV>,
    b: Seq<EntryV>,
    current: Seq<char>,
    fast: bool,
    chain: Seq<Seq<char>>,
    visited: Seq<Seq<char>>,
)
    requires
        forall|id: Seq<char>| #[trigger]
            modelmap::direct_v(a, id) == modelmap::direct_v(b, id),
    ensures
        modelmap::walk_v(a, current, fast, chain, visited) == modelmap::walk_v(
            b,
            current,
            fast,
            chain,
            visited,
        ),
    decreases modelmap::left_v(a, visited),
{
    let has_fast = catalog::norm_v(current).1;
    assert(modelmap::direct_v(a, current) == modelmap::direct_v(b, current));
    let lookup = modelmap::lookup_v(a, current);
    assert(lookup == modelmap::lookup_v(b, current));
    assert(modelmap::direct_v(a, lookup) == modelmap::direct_v(b, lookup));
    if let Some(target) = modelmap::direct_v(a, lookup) {
        if !visited.contains(lookup) {
            let next = text::trim_v(target);
            modelmap::left_drops(a, visited, lookup);
            modelmap::left_drops(b, visited, lookup);
            walk_is_stable(a, b, next, fast || has_fast, chain.push(next), visited.push(lookup));
        }
    }
}

proof fn no_cycles(map: Seq<EntryV>, n: int)
    requires
        0 <= n <= map.len(),
        forall|i: int|
            0 <= i < map.len() ==> (#[trigger] modelmap::try_resolve_v(map, map[i].source)) is Ok,
    ensures
        modelmap::cycle_v(map, n) is None,
    decreases n,
{
    if n > 0 {
        no_cycles(map, n - 1);
        assert(modelmap::try_resolve_v(map, map[n - 1].source) is Ok);
    }
}

/// The text of a list reads back: it is accepted, gives the substitutions in
/// the order of their sources, is its own text, and resolves every name alike.
pub proof fn texts_read_back(value: Seq<char>)
    ensures
        modelmap::parse_v(value) matches Ok(map) ==> {
            let again = modelmap::sorted_entries_v(map);
            &&& modelmap::parse_v(modelmap::stable_v(map)) == Ok::<Seq<EntryV>, MapErrorV>(again)
            &&& modelmap::stable_v(again) == modelmap::stable_v(map)
            &&& forall|id: Seq<char>| #[trigger]
                modelmap::try_resolve_v(again, id) == modelmap::try_resolve_v(map, id)
            &&& forall|id: Seq<char>| #[trigger]
                modelmap::resolve_v(again, id) == modelmap::resolve_v(map, id)
        },
{
    if let Ok(map) = modelmap::parse_v(value) {
        broadcast use vstd::seq_lib::group_to_multiset_ensures;

        let set = ",;\n\r"@;
        let again = modelmap::sorted_entries_v(map);
        let before = |x: EntryV, y: EntryV| text::less_v(x.source, y.source);
        laws::accepted_maps_are_sound(value);
        pieces_are_free(value, set);
        read_is_writable(text::split_any_v(value, set));
        order::sorted_is_permutation(map, before);
        assert forall|e: EntryV| map.contains(e) <==> again.contains(e) by {
            assert(map.to_multiset().count(e) == again.to_multiset().count(e));
        }
        assert(laws::distinct_v(again)) by {
            assert forall|i: int, j: int| 0 <= i < j < again.len() implies (
            #[trigger] again[i]).source != (#[trigger] again[j]).source by {
                laws::same_source(map, again, i, j);
            }
        }
        assert forall|i: int| 0 <= i < again.len() implies writable_v(#[trigger] again[i]) by {
            assert(again.contains(again[i]));
            assert(map.contains(again[i]));
            let k = choose|k: int| 0 <= k < map.len() && map[k] == again[i];
            assert(writable_v(map[k]));
        }
        laws::texts_are_stable(map, again);
        assert forall|id: Seq<char>| #[trigger]
            modelmap::direct_v(again, id) == modelmap::direct_v(map, id) by {
            direct_is_stable(again, map, id);
        }
        assert forall|id: Seq<char>| #[trigger]
            modelmap::try_resolve_v(again, id) == modelmap::try_resolve_v(map, id) by {
            let requested = text::trim_v(id);
            let fast = catalog::norm_v(requested).1;
            walk_is_stable(again, map, requested, fast, seq![requested], Seq::empty());
        }
        no_cycles(again, again.len() as int);
        written_reads_back(again);
        let written = modelmap::written_v(again);
        if again.len() > 0 {
            joined_splits(written);
        } else {
            let blank = Seq::<char>::empty();
            assert(written.len() == 0);
            assert(modelmap::stable_v(map) =~= blank);
            let pieces = text::split_any_v(blank, set);
            assert(pieces == seq![blank]);
            assert(pieces.drop_last() =~= Seq::<Seq<char>>::empty());
            assert(text::trim_v(blank) == blank);
            assert(modelmap::read_v(Seq::<Seq<char>>::empty()) == Ok::<Seq<EntryV>, MapErrorV>(
                Seq::empty(),
            ));
            assert(again =~= Seq::<EntryV>::empty());
        }
    }
}

} // verus!
