//! The failures that are shown. Failures of one session that follow each other
//! closely are taken for a client's retries, and shown as a group.

use vstd::prelude::*;

use crate::monitor;
use crate::monitor::app::FailureFilter;
use crate::monitor::right;
use crate::monitor::sessions;
use crate::monitor::sessions::column;
use crate::monitor::two_digits;
use crate::order;
use crate::report;
use crate::report::CountV;
use crate::store;
use crate::store::model::FailureV;
use crate::store::FailureRecord;
use crate::text;
use crate::text::same;

pub mod laws;

verus! {

/// Failures of a session that lie no more than so many seconds apart are a
/// group.
pub const RETRY_GROUP_WINDOW_SECS: i64 = 30;

/// The failures that a filter shows, in their order.
pub open spec fn filtered_v(s: Seq<FailureV>, filter: FailureFilter) -> Seq<FailureV>
    decreases s.len(),
{
    if s.len() == 0 {
        Seq::empty()
    } else if filter.matches_v(s.last().kind) {
        filtered_v(s.drop_last(), filter).push(s.last())
    } else {
        filtered_v(s.drop_last(), filter)
    }
}

fn add_failure(out: &mut Vec<FailureRecord>, one: FailureRecord)
    ensures
        store::failures_v(final(out)@) == store::failures_v(old(out)@).push(one@),
{
    assert(store::failures_v(out@.push(one)) =~= store::failures_v(out@).push(one@));
    out.push(one);
}

pub fn filtered(failures: &[FailureRecord], filter: FailureFilter) -> (r: Vec<FailureRecord>)
    ensures
        store::failures_v(r@) == filtered_v(store::failures_v(failures@), filter),
{
    let ghost all = store::failures_v(failures@);
    let mut out: Vec<FailureRecord> = Vec::new();
    let mut i: usize = 0;
    proof {
        assert(store::failures_v(out@) =~= Seq::<FailureV>::empty());
        assert(all.take(0) =~= Seq::<FailureV>::empty());
    }
    while i < failures.len()
        invariant
            i <= failures@.len(),
            all == store::failures_v(failures@),
            store::failures_v(out@) == filtered_v(all.take(i as int), filter),
        decreases failures@.len() - i,
    {
        proof {
            assert(all[i as int] == failures@[i as int]@);
            assert(all.take(i + 1).drop_last() =~= all.take(i as int));
        }
        if filter.matches(failures[i].kind) {
            add_failure(&mut out, failures[i].copy());
        }
        i += 1;
    }
    assert(all.take(i as int) =~= all);
    out
}

/// How many failures a filter shows.
pub fn row_count(failures: &[FailureRecord], filter: FailureFilter) -> (r: usize)
    ensures
        r == filtered_v(store::failures_v(failures@), filter).len(),
{
    let ghost all = store::failures_v(failures@);
    let mut n: usize = 0;
    let mut i: usize = 0;
    assert(all.take(0) =~= Seq::<FailureV>::empty());
    while i < failures.len()
        invariant
            i <= failures@.len(),
            n <= i,
            all == store::failures_v(failures@),
            n == filtered_v(all.take(i as int), filter).len(),
        decreases failures@.len() - i,
    {
        proof {
            assert(all[i as int] == failures@[i as int]@);
            assert(all.take(i + 1).drop_last() =~= all.take(i as int));
        }
        if filter.matches(failures[i].kind) {
            n += 1;
        }
        i += 1;
    }
    assert(all.take(i as int) =~= all);
    n
}

/// The order of failures by their times, and then by their names.
pub open spec fn older_v(a: FailureV, b: FailureV) -> bool {
    a.ts < b.ts || (a.ts == b.ts && text::less_v(a.request_id, b.request_id))
}

pub open spec fn before_v(newest: bool) -> spec_fn(FailureV, FailureV) -> bool {
    |a: FailureV, b: FailureV|
        if newest {
            older_v(b, a)
        } else {
            older_v(a, b)
        }
}

/// The failures, the newest or the oldest first.
pub open spec fn by_age_v(s: Seq<FailureV>, newest: bool) -> Seq<FailureV> {
    order::sorted_v(s, before_v(newest))
}

fn older(a: &FailureRecord, b: &FailureRecord) -> (r: bool)
    ensures
        r == older_v(a@, b@),
{
    a.ts < b.ts || (a.ts == b.ts && text::less(&a.request_id, &b.request_id))
}

fn comes_before(a: &FailureRecord, b: &FailureRecord, newest: bool) -> (r: bool)
    ensures
        r == before_v(newest)(a@, b@),
{
    if newest {
        older(b, a)
    } else {
        older(a, b)
    }
}

fn by_age(s: &Vec<FailureRecord>, newest: bool) -> (r: Vec<FailureRecord>)
    ensures
        store::failures_v(r@) == by_age_v(store::failures_v(s@), newest),
{
    let ghost before = before_v(newest);
    let ghost all = store::failures_v(s@);
    let mut out: Vec<FailureRecord> = Vec::new();
    let mut i: usize = 0;
    assert(store::failures_v(out@) =~= order::sorted_v(all.take(0), before));
    while i < s.len()
        invariant
            i <= s@.len(),
            before == before_v(newest),
            all == store::failures_v(s@),
            store::failures_v(out@) == order::sorted_v(all.take(i as int), before),
        decreases s@.len() - i,
    {
        let x = s[i].copy();
        let mut j: usize = out.len();
        while j > 0 && comes_before(&x, &out[j - 1], newest)
            invariant
                j <= out@.len(),
                before == before_v(newest),
                forall|k: int| j <= k < out@.len() ==> before(x@, (#[trigger] out@[k])@),
            decreases j,
        {
            j -= 1;
        }
        proof {
            let t = store::failures_v(out@);
            assert forall|k: int| j <= k < t.len() implies before(x@, #[trigger] t[k]) by {
                assert(t[k] == out@[k]@);
            }
            assert(j > 0 ==> t[j - 1] == out@[j - 1]@);
            order::insert_at(t, x@, before, j as int);
            assert(all.take(i + 1).drop_last() =~= all.take(i as int));
            assert(all.take(i + 1).last() == x@);
            assert(store::failures_v(out@.insert(j as int, x)) =~= t.insert(j as int, x@));
        }
        out.insert(j, x);
        i += 1;
    }
    assert(all.take(i as int) =~= all);
    out
}

/// The failures of a session.
pub open spec fn of_session_v(s: Seq<FailureV>, session: Seq<char>) -> Seq<FailureV>
    decreases s.len(),
{
    if s.len() == 0 {
        Seq::empty()
    } else if s.last().session_id == session {
        of_session_v(s.drop_last(), session).push(s.last())
    } else {
        of_session_v(s.drop_last(), session)
    }
}

fn of_session(s: &[FailureRecord], session: &str) -> (r: Vec<FailureRecord>)
    ensures
        store::failures_v(r@) == of_session_v(store::failures_v(s@), session@),
{
    let ghost all = store::failures_v(s@);
    let mut out: Vec<FailureRecord> = Vec::new();
    let mut i: usize = 0;
    proof {
        assert(store::failures_v(out@) =~= Seq::<FailureV>::empty());
        assert(all.take(0) =~= Seq::<FailureV>::empty());
    }
    while i < s.len()
        invariant
            i <= s@.len(),
            all == store::failures_v(s@),
            store::failures_v(out@) == of_session_v(all.take(i as int), session@),
        decreases s@.len() - i,
    {
        proof {
            assert(all[i as int] == s@[i as int]@);
            assert(all.take(i + 1).drop_last() =~= all.take(i as int));
        }
        if same(&s[i].session_id, session) {
            add_failure(&mut out, s[i].copy());
        }
        i += 1;
    }
    assert(all.take(i as int) =~= all);
    out
}

/// The sessions of some failures, each once.
pub open spec fn sessions_v(s: Seq<FailureV>) -> Seq<Seq<char>>
    decreases s.len(),
{
    if s.len() == 0 {
        Seq::empty()
    } else {
        let before = sessions_v(s.drop_last());
        if before.contains(s.last().session_id) {
            before
        } else {
            before.push(s.last().session_id)
        }
    }
}

fn listed(names: &Vec<String>, name: &str) -> (r: bool)
    ensures
        r == text::views(names@).contains(name@),
{
    let ghost all = text::views(names@);
    let mut i: usize = 0;
    while i < names.len()
        invariant
            i <= names@.len(),
            all == text::views(names@),
            forall|k: int| 0 <= k < i ==> #[trigger] all[k] != name@,
        decreases names@.len() - i,
    {
        assert(all[i as int] == names@[i as int]@);
        if same(&names[i], name) {
            return true;
        }
        i += 1;
    }
    false
}

fn session_names(s: &[FailureRecord]) -> (r: Vec<String>)
    ensures
        text::views(r@) == sessions_v(store::failures_v(s@)),
{
    let ghost all = store::failures_v(s@);
    let mut out: Vec<String> = Vec::new();
    let mut i: usize = 0;
    proof {
        assert(text::views(out@) =~= Seq::<Seq<char>>::empty());
        assert(all.take(0) =~= Seq::<FailureV>::empty());
    }
    while i < s.len()
        invariant
            i <= s@.len(),
            all == store::failures_v(s@),
            text::views(out@) == sessions_v(all.take(i as int)),
        decreases s@.len() - i,
    {
        proof {
            assert(all[i as int] == s@[i as int]@);
            assert(all.take(i + 1).drop_last() =~= all.take(i as int));
        }
        if !listed(&out, &s[i].session_id) {
            let name = text::owned(&s[i].session_id);
            assert(text::views(out@.push(name)) =~= text::views(out@).push(name@));
            out.push(name);
        }
        i += 1;
    }
    assert(all.take(i as int) =~= all);
    out
}

/// Whether a failure follows another within the window.
pub open spec fn near_v(a: FailureV, b: FailureV) -> bool {
    b.ts - a.ts <= RETRY_GROUP_WINDOW_SECS * 1_000_000_000
}

/// A list that is cut wherever a failure does not follow closely.
pub open spec fn chunks_v(s: Seq<FailureV>) -> Seq<Seq<FailureV>>
    decreases s.len(),
{
    if s.len() == 0 {
        Seq::empty()
    } else {
        let before = chunks_v(s.drop_last());
        if s.len() > 1 && before.len() > 0 && near_v(s[s.len() - 2], s.last()) {
            before.drop_last().push(before.last().push(s.last()))
        } else {
            before.push(seq![s.last()])
        }
    }
}

/// A group of failures of one session.
#[derive(Debug)]
pub struct FailureGroup {
    pub session_id: String,
    /// The newest first.
    pub members: Vec<FailureRecord>,
}

#[verifier::ext_equal]
pub struct GroupV {
    pub session_id: Seq<char>,
    pub members: Seq<FailureV>,
}

pub open spec fn groups_v(s: Seq<FailureGroup>) -> Seq<GroupV> {
    s.map_values(|g: FailureGroup| g@)
}

pub open spec fn named_v(session: Seq<char>, chunks: Seq<Seq<FailureV>>) -> Seq<GroupV> {
    chunks.map_values(|c: Seq<FailureV>| GroupV { session_id: session, members: c })
}

/// The groups of some sessions.
pub open spec fn all_groups_v(s: Seq<FailureV>, names: Seq<Seq<char>>) -> Seq<GroupV>
    decreases names.len(),
{
    if names.len() == 0 {
        Seq::empty()
    } else {
        all_groups_v(s, names.drop_last()) + named_v(
            names.last(),
            chunks_v(by_age_v(of_session_v(s, names.last()), false)),
        )
    }
}

pub open spec fn latest_v(members: Seq<FailureV>) -> i64
    decreases members.len(),
{
    if members.len() == 0 {
        i64::MIN
    } else {
        let m = latest_v(members.drop_last());
        if members.last().ts > m {
            members.last().ts
        } else {
            m
        }
    }
}

pub open spec fn earliest_v(members: Seq<FailureV>) -> i64
    decreases members.len(),
{
    if members.len() == 0 {
        i64::MAX
    } else {
        let m = earliest_v(members.drop_last());
        if members.last().ts < m {
            members.last().ts
        } else {
            m
        }
    }
}

/// The order of groups: the newest first, and then by session.
pub open spec fn ranks_v() -> spec_fn(GroupV, GroupV) -> bool {
    |a: GroupV, b: GroupV|
        latest_v(a.members) > latest_v(b.members) || (latest_v(a.members) == latest_v(b.members)
            && text::less_v(a.session_id, b.session_id))
}

pub open spec fn shown_v(g: GroupV) -> GroupV {
    GroupV { members: by_age_v(g.members, true), ..g }
}

/// The groups in the order in which they are shown.
pub open spec fn grouped_v(s: Seq<FailureV>) -> Seq<GroupV> {
    order::sorted_v(all_groups_v(s, sessions_v(s)), ranks_v()).map_values(|g: GroupV| shown_v(g))
}

pub open spec fn flat_v(groups: Seq<GroupV>) -> Seq<FailureV>
    decreases groups.len(),
{
    if groups.len() == 0 {
        Seq::empty()
    } else {
        flat_v(groups.drop_last()) + groups.last().members
    }
}

/// The failures that a filter shows, in the order in which they are shown.
pub open spec fn ordered_v(s: Seq<FailureV>, filter: FailureFilter) -> Seq<FailureV> {
    flat_v(grouped_v(filtered_v(s, filter)))
}

fn latest(members: &Vec<FailureRecord>) -> (r: i64)
    ensures
        r == latest_v(store::failures_v(members@)),
{
    let ghost all = store::failures_v(members@);
    let mut m: i64 = i64::MIN;
    let mut i: usize = 0;
    assert(all.take(0) =~= Seq::<FailureV>::empty());
    while i < members.len()
        invariant
            i <= members@.len(),
            all == store::failures_v(members@),
            m == latest_v(all.take(i as int)),
        decreases members@.len() - i,
    {
        proof {
            assert(all[i as int] == members@[i as int]@);
            assert(all.take(i + 1).drop_last() =~= all.take(i as int));
        }
        if members[i].ts > m {
            m = members[i].ts;
        }
        i += 1;
    }
    assert(all.take(i as int) =~= all);
    m
}

fn earliest(members: &Vec<FailureRecord>) -> (r: i64)
    ensures
        r == earliest_v(store::failures_v(members@)),
{
    let ghost all = store::failures_v(members@);
    let mut m: i64 = i64::MAX;
    let mut i: usize = 0;
    assert(all.take(0) =~= Seq::<FailureV>::empty());
    while i < members.len()
        invariant
            i <= members@.len(),
            all == store::failures_v(members@),
            m == earliest_v(all.take(i as int)),
        decreases members@.len() - i,
    {
        proof {
            assert(all[i as int] == members@[i as int]@);
            assert(all.take(i + 1).drop_last() =~= all.take(i as int));
        }
        if members[i].ts < m {
            m = members[i].ts;
        }
        i += 1;
    }
    assert(all.take(i as int) =~= all);
    m
}

/// How many seconds lie between the first and the last failure of a group.
pub open spec fn span_v(members: Seq<FailureV>) -> int {
    if members.len() == 0 || latest_v(members) < earliest_v(members) {
        0
    } else {
        (latest_v(members) - earliest_v(members)) / 1_000_000_000
    }
}

/// The kinds of failures in a group: the most frequent first, and then by name.
pub open spec fn kinds_of_v(members: Seq<FailureV>) -> Seq<CountV> {
    order::sorted_v(report::summary_v(members), |a: CountV, b: CountV| a.1 > b.1)
}

pub open spec fn parts_v(counts: Seq<CountV>) -> Seq<Seq<char>> {
    counts.map_values(|c: CountV| c.0 + "×"@ + text::decimal_v(c.1))
}

pub open spec fn kind_summary_v(members: Seq<FailureV>) -> Seq<char> {
    text::join_v(parts_v(kinds_of_v(members)), ", "@)
}

impl FailureGroup {
    pub open spec fn view(&self) -> GroupV {
        GroupV { session_id: self.session_id@, members: store::failures_v(self.members@) }
    }

    /// Whether the group is taken for retries.
    pub fn estimated(&self) -> (r: bool)
        ensures
            r == (self@.members.len() > 1),
    {
        self.members.len() > 1
    }

    /// How many seconds lie between its first and its last failure.
    pub fn span_secs(&self) -> (r: i64)
        ensures
            r == span_v(self@.members),
    {
        if self.members.len() == 0 {
            return 0;
        }
        let newest: i64 = latest(&self.members);
        let oldest: i64 = earliest(&self.members);
        if newest < oldest {
            0
        } else {
            ((newest as i128 - oldest as i128) / 1_000_000_000) as i64
        }
    }

    /// The kinds of its failures, with their numbers.
    pub fn kind_summary(&self) -> (r: String)
        ensures
            r@ == kind_summary_v(self@.members),
    {
        let counts = report::summary_counts(self.members.as_slice());
        let ghost all = report::pairs_v(counts@);
        let ghost before = |a: CountV, b: CountV| a.1 > b.1;
        let mut sorted: Vec<(&'static str, usize)> = Vec::new();
        let mut i: usize = 0;
        assert(report::pairs_v(sorted@) =~= order::sorted_v(all.take(0), before));
        while i < counts.len()
            invariant
                i <= counts@.len(),
                all == report::pairs_v(counts@),
                before == (|a: CountV, b: CountV| a.1 > b.1),
                report::pairs_v(sorted@) == order::sorted_v(all.take(i as int), before),
            decreases counts@.len() - i,
        {
            let x: (&'static str, usize) = counts[i];
            let ghost xv = (x.0@, x.1 as nat);
            let mut j: usize = sorted.len();
            while j > 0 && x.1 > sorted[j - 1].1
                invariant
                    j <= sorted@.len(),
                    forall|k: int| j <= k < sorted@.len() ==> x.1 > (#[trigger] sorted@[k]).1,
                decreases j,
            {
                j -= 1;
            }
            proof {
                let t = report::pairs_v(sorted@);
                assert forall|k: int| j <= k < t.len() implies before(xv, #[trigger] t[k]) by {
                    assert(sorted@[k].1 < x.1);
                }
                assert(j > 0 ==> t[j - 1].1 == sorted@[j - 1].1);
                order::insert_at(t, xv, before, j as int);
                assert(all.take(i + 1).drop_last() =~= all.take(i as int));
                assert(all.take(i + 1).last() == xv);
                assert(report::pairs_v(sorted@.insert(j as int, x)) =~= t.insert(j as int, xv));
            }
            sorted.insert(j, x);
            i += 1;
        }
        assert(all.take(i as int) =~= all);
        let ghost ranked = report::pairs_v(sorted@);
        let mut parts: Vec<String> = Vec::new();
        let mut k: usize = 0;
        assert(text::views(parts@) =~= parts_v(ranked).take(0));
        while k < sorted.len()
            invariant
                k <= sorted@.len(),
                ranked == report::pairs_v(sorted@),
                text::views(parts@) == parts_v(ranked).take(k as int),
            decreases sorted@.len() - k,
        {
            let part = text::cat3(sorted[k].0, "×", &text::decimal(sorted[k].1 as u64));
            proof {
                assert(ranked[k as int] == (sorted@[k as int].0@, sorted@[k as int].1 as nat));
                assert(parts_v(ranked).take(k + 1) =~= parts_v(ranked).take(k as int).push(part@));
                assert(text::views(parts@.push(part)) =~= text::views(parts@).push(part@));
            }
            parts.push(part);
            k += 1;
        }
        assert(parts_v(ranked).take(k as int) =~= parts_v(ranked));
        text::join(&parts, ", ")
    }
}

fn add_group(out: &mut Vec<FailureGroup>, one: FailureGroup)
    ensures
        groups_v(final(out)@) == groups_v(old(out)@).push(one@),
{
    assert(groups_v(out@.push(one)) =~= groups_v(out@).push(one@));
    out.push(one);
}

/// Cuts the failures of a session, the oldest first, into groups.
fn cut(session: &str, s: Vec<FailureRecord>) -> (r: Vec<FailureGroup>)
    ensures
        groups_v(r@) == named_v(session@, chunks_v(store::failures_v(s@))),
{
    let ghost all = store::failures_v(s@);
    let mut out: Vec<FailureGroup> = Vec::new();
    let mut i: usize = 0;
    proof {
        assert(all.take(0) =~= Seq::<FailureV>::empty());
        assert(groups_v(out@) =~= named_v(session@, chunks_v(all.take(0))));
    }
    while i < s.len()
        invariant
            i <= s@.len(),
            all == store::failures_v(s@),
            groups_v(out@) == named_v(session@, chunks_v(all.take(i as int))),
            i > 0 ==> out@.len() > 0,
        decreases s@.len() - i,
    {
        let ghost head = all.take(i + 1);
        let ghost chunks = chunks_v(all.take(i as int));
        proof {
            assert(all[i as int] == s@[i as int]@);
            assert(head.drop_last() =~= all.take(i as int));
            assert(groups_v(out@).len() == out@.len());
            assert(named_v(session@, chunks).len() == chunks.len());
            if i > 0 {
                assert(head[i - 1] == s@[i - 1]@);
            }
        }
        let window: i128 = RETRY_GROUP_WINDOW_SECS as i128 * 1_000_000_000;
        let near = i > 0 && s[i].ts as i128 - s[i - 1].ts as i128 <= window;
        let one = s[i].copy();
        let ghost ov = one@;
        if near {
            let ghost before = out@;
            match out.pop() {
                Some(group) => {
                    let mut group = group;
                    let ghost gv = group@;
                    add_failure(&mut group.members, one);
                    proof {
                        assert(gv == named_v(session@, chunks).last());
                        assert(groups_v(before) == named_v(session@, chunks));
                        assert(groups_v(out@) =~= groups_v(before).drop_last());
                        assert(groups_v(out@) =~= named_v(session@, chunks.drop_last()));
                        assert(named_v(
                            session@,
                            chunks.drop_last().push(chunks.last().push(ov)),
                        ) =~= named_v(session@, chunks.drop_last()).push(group@));
                    }
                    add_group(&mut out, group);
                },
                None => {},
            }
        } else {
            let mut members: Vec<FailureRecord> = Vec::new();
            members.push(one);
            let group = FailureGroup { session_id: text::owned(session), members };
            proof {
                assert(store::failures_v(members@) =~= seq![ov]);
                assert(named_v(session@, chunks.push(seq![ov])) =~= named_v(session@, chunks).push(
                    group@,
                ));
            }
            add_group(&mut out, group);
        }
        i += 1;
    }
    assert(all.take(i as int) =~= all);
    out
}

fn ranks_before(a: &FailureGroup, b: &FailureGroup) -> (r: bool)
    ensures
        r == ranks_v()(a@, b@),
{
    let x: i64 = latest(&a.members);
    let y: i64 = latest(&b.members);
    x > y || (x == y && text::less(&a.session_id, &b.session_id))
}

/// Puts groups in their order.
fn rank(groups: Vec<FailureGroup>) -> (r: Vec<FailureGroup>)
    ensures
        groups_v(r@) == order::sorted_v(groups_v(groups@), ranks_v()),
{
    let ghost before = ranks_v();
    let ghost source = groups@;
    let ghost all = groups_v(source);
    let mut rest = groups;
    let mut out: Vec<FailureGroup> = Vec::new();
    proof {
        assert(source.skip(0) =~= source);
        assert(all.take(0) =~= Seq::<GroupV>::empty());
        assert(groups_v(out@) =~= Seq::<GroupV>::empty());
    }
    while rest.len() > 0
        invariant
            before == ranks_v(),
            all == groups_v(source),
            rest@ == source.skip(out@.len() as int),
            out@.len() + rest@.len() == source.len(),
            groups_v(out@) == order::sorted_v(all.take(out@.len() as int), before),
        decreases rest@.len(),
    {
        let ghost i = out@.len() as int;
        assert(rest@[0] == source[i]);
        let x = rest.remove(0);
        let mut j: usize = out.len();
        while j > 0 && ranks_before(&x, &out[j - 1])
            invariant
                j <= out@.len(),
                before == ranks_v(),
                forall|k: int| j <= k < out@.len() ==> before(x@, (#[trigger] out@[k])@),
            decreases j,
        {
            j -= 1;
        }
        proof {
            assert(rest@ =~= source.skip(i + 1));
            let t = groups_v(out@);
            assert forall|k: int| j <= k < t.len() implies before(x@, #[trigger] t[k]) by {
                assert(t[k] == out@[k]@);
            }
            assert(j > 0 ==> t[j - 1] == out@[j - 1]@);
            order::insert_at(t, x@, before, j as int);
            assert(all[i] == x@);
            assert(all.take(i + 1).drop_last() =~= all.take(i));
            assert(all.take(i + 1).last() == x@);
            assert(groups_v(out@.insert(j as int, x)) =~= t.insert(j as int, x@));
        }
        out.insert(j, x);
    }
    assert(all.take(out@.len() as int) =~= all);
    out
}

/// The failures in groups: the newest group first, and the newest failure of
/// each.
pub fn group_failures(failures: &[FailureRecord]) -> (r: Vec<FailureGroup>)
    ensures
        groups_v(r@) == grouped_v(store::failures_v(failures@)),
{
    let ghost fs = store::failures_v(failures@);
    let names = session_names(failures);
    let ghost all = text::views(names@);
    let mut groups: Vec<FailureGroup> = Vec::new();
    let mut i: usize = 0;
    proof {
        assert(groups_v(groups@) =~= Seq::<GroupV>::empty());
        assert(all.take(0) =~= Seq::<Seq<char>>::empty());
    }
    while i < names.len()
        invariant
            i <= names@.len(),
            fs == store::failures_v(failures@),
            all == text::views(names@),
            groups_v(groups@) == all_groups_v(fs, all.take(i as int)),
        decreases names@.len() - i,
    {
        let ghost before = groups@;
        proof {
            assert(all[i as int] == names@[i as int]@);
            assert(all.take(i + 1).drop_last() =~= all.take(i as int));
        }
        let own = by_age(&of_session(failures, &names[i]), false);
        let mut more = cut(&names[i], own);
        let ghost mv = more@;
        groups.append(&mut more);
        assert(groups_v(groups@) =~= groups_v(before) + groups_v(mv));
        i += 1;
    }
    assert(all.take(i as int) =~= all);
    let ranked = rank(groups);
    let ghost rv = groups_v(ranked@);
    let ghost shown = rv.map_values(|g: GroupV| shown_v(g));
    let mut out: Vec<FailureGroup> = Vec::new();
    let mut k: usize = 0;
    assert(groups_v(out@) =~= shown.take(0));
    while k < ranked.len()
        invariant
            k <= ranked@.len(),
            rv == groups_v(ranked@),
            shown == rv.map_values(|g: GroupV| shown_v(g)),
            groups_v(out@) == shown.take(k as int),
        decreases ranked@.len() - k,
    {
        let one = FailureGroup {
            session_id: text::owned(&ranked[k].session_id),
            members: by_age(&ranked[k].members, true),
        };
        proof {
            assert(rv[k as int] == ranked@[k as int]@);
            assert(one@ == shown[k as int]);
            assert(shown.take(k + 1) =~= shown.take(k as int).push(one@));
        }
        add_group(&mut out, one);
        k += 1;
    }
    assert(shown.take(k as int) =~= shown);
    out
}

/// The groups that a filter shows.
pub fn groups(failures: &[FailureRecord], filter: FailureFilter) -> (r: Vec<FailureGroup>)
    ensures
        groups_v(r@) == grouped_v(filtered_v(store::failures_v(failures@), filter)),
{
    group_failures(filtered(failures, filter).as_slice())
}

fn add_all(out: &mut Vec<FailureRecord>, more: &Vec<FailureRecord>)
    ensures
        store::failures_v(final(out)@) == store::failures_v(old(out)@) + store::failures_v(more@),
{
    let ghost before = store::failures_v(out@);
    let ghost all = store::failures_v(more@);
    let mut i: usize = 0;
    assert(before + all.take(0) =~= before);
    while i < more.len()
        invariant
            i <= more@.len(),
            all == store::failures_v(more@),
            store::failures_v(out@) == before + all.take(i as int),
        decreases more@.len() - i,
    {
        proof {
            assert(all[i as int] == more@[i as int]@);
            assert(before + all.take(i + 1) =~= (before + all.take(i as int)).push(all[i as int]));
        }
        add_failure(out, more[i].copy());
        i += 1;
    }
    assert(all.take(i as int) =~= all);
}

/// The failures that a filter shows, in the order in which they are shown.
pub fn ordered(failures: &[FailureRecord], filter: FailureFilter) -> (r: Vec<FailureRecord>)
    ensures
        store::failures_v(r@) == ordered_v(store::failures_v(failures@), filter),
{
    let all = groups(failures, filter);
    let ghost gs = groups_v(all@);
    let mut out: Vec<FailureRecord> = Vec::new();
    let mut i: usize = 0;
    proof {
        assert(store::failures_v(out@) =~= Seq::<FailureV>::empty());
        assert(gs.take(0) =~= Seq::<GroupV>::empty());
    }
    while i < all.len()
        invariant
            i <= all@.len(),
            gs == groups_v(all@),
            store::failures_v(out@) == flat_v(gs.take(i as int)),
        decreases all@.len() - i,
    {
        proof {
            assert(gs[i as int] == all@[i as int]@);
            assert(gs.take(i + 1).drop_last() =~= gs.take(i as int));
        }
        add_all(&mut out, &all[i].members);
        i += 1;
    }
    assert(gs.take(i as int) =~= gs);
    out
}

/// The time of day of a point in time, in UTC.
pub open spec fn day_time_v(ts: i64) -> Seq<char> {
    let secs = (ts as int / 1_000_000_000) % 86_400;
    monitor::two_digits_v((secs / 3600) as nat) + ":"@ + monitor::two_digits_v(
        ((secs % 3600) / 60) as nat,
    ) + ":"@ + monitor::two_digits_v((secs % 60) as nat)
}

fn second_of_day(ts: i64) -> (r: u64)
    ensures
        r == (ts as int / 1_000_000_000) % 86_400,
{
    let shifted: u128 = (ts as i128 + 9_223_372_800_000_000_000) as u128;
    proof {
        let q = ts as int / 1_000_000_000;
        let r = ts as int % 1_000_000_000;
        vstd::arithmetic::div_mod::lemma_fundamental_div_mod_converse(
            shifted as int,
            1_000_000_000,
            q + 9_223_372_800,
            r,
        );
        vstd::arithmetic::div_mod::lemma_mod_multiples_vanish(106_752, q, 86_400);
    }
    ((shifted / 1_000_000_000) % 86_400) as u64
}

pub fn day_time(ts: i64) -> (r: String)
    ensures
        r@ == day_time_v(ts),
{
    let secs: u64 = second_of_day(ts);
    let mut out = text::cat3(&two_digits(secs / 3600), ":", &two_digits((secs % 3600) / 60));
    out.push_str(":");
    out.push_str(&two_digits(secs % 60));
    out
}

/// What is added to the first row of a group.
pub open spec fn group_note_v(members: Seq<FailureV>) -> Seq<char> {
    "  [×"@ + text::decimal_v(members.len()) + " estimated "@ + text::decimal_v(
        span_v(members) as nat,
    ) + "s · "@ + kind_summary_v(members) + "]"@
}

/// A failure of a group in a row.
pub open spec fn failure_label_v(g: GroupV, i: int) -> Seq<char> {
    let f = g.members[i];
    let many = g.members.len() > 1;
    (if many && i > 0 {
        "  ↳ "@
    } else {
        ""@
    }) + day_time_v(f.ts) + "  "@ + sessions::column_v(f.kind.name_v(), 18) + " "@
        + sessions::column_v(f.session_id, 12) + " "@ + sessions::column_v(
        report::or_dash_v(f.error_type),
        22,
    ) + " "@ + monitor::right_v(text::decimal_v(f.status_code as nat), 3) + " a"@ + text::decimal_v(
        f.attempt as nat,
    ) + (if many && i == 0 {
        group_note_v(g.members)
    } else {
        ""@
    })
}

fn group_note(g: &FailureGroup) -> (r: String)
    ensures
        r@ == group_note_v(g@.members),
{
    let mut out = text::cat3("  [×", &text::decimal(g.members.len() as u64), " estimated ");
    out.push_str(&text::decimal(g.span_secs() as u64));
    out.push_str("s · ");
    out.push_str(&g.kind_summary());
    out.push_str("]");
    out
}

/// A failure of a group in a row.
pub fn failure_label(g: &FailureGroup, i: usize) -> (r: String)
    requires
        i < g.members@.len(),
    ensures
        r@ == failure_label_v(g@, i as int),
{
    let many = g.members.len() > 1;
    let f: &FailureRecord = &g.members[i];
    assert(g@.members[i as int] == f@);
    let prefix = if many && i > 0 {
        "  ↳ "
    } else {
        ""
    };
    let suffix = if many && i == 0 {
        group_note(g)
    } else {
        text::owned("")
    };
    let mut out = text::cat3(prefix, &day_time(f.ts), "  ");
    out.push_str(&column(f.kind.as_str(), 18));
    out.push_str(" ");
    out.push_str(&column(&f.session_id, 12));
    out.push_str(" ");
    out.push_str(&column(&report::or_dash(&f.error_type), 22));
    out.push_str(" ");
    out.push_str(&right(&text::decimal(f.status_code as u64), 3));
    out.push_str(" a");
    out.push_str(&text::decimal(f.attempt as u64));
    out.push_str(&suffix);
    out
}

/// The title of the panel: the filter, and how many failures it shows of all.
pub fn title(filter: FailureFilter, shown: usize, all: usize) -> (r: String)
    ensures
        r@ == " failures ["@ + filter.name_v() + "] "@ + text::decimal_v(shown as nat) + "/"@
            + text::decimal_v(all as nat) + " "@,
{
    let mut out = text::cat3(" failures [", filter.as_str(), "] ");
    out.push_str(&text::decimal(shown as u64));
    out.push_str("/");
    out.push_str(&text::decimal(all as u64));
    out.push_str(" ");
    out
}

} // verus!
