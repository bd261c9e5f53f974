//! The sessions that are shown, and the turns of one.

use vstd::prelude::*;

use crate::events::FailureKind;
use crate::json;
use crate::monitor;
use crate::monitor::{left, right, truncate};
use crate::store;
use crate::store::model::{RequestV, SessionV};
use crate::store::{Request, Session, Snapshot};
use crate::text;
use crate::text::same;

verus! {

pub open spec fn refs_v(s: Seq<&Session>) -> Seq<SessionV> {
    s.map_values(|x: &Session| x@)
}

/// The sessions with a turn under way.
pub open spec fn active_v(sessions: Seq<SessionV>) -> Seq<SessionV>
    decreases sessions.len(),
{
    if sessions.len() == 0 {
        Seq::empty()
    } else if sessions.last().active > 0 {
        active_v(sessions.drop_last()).push(sessions.last())
    } else {
        active_v(sessions.drop_last())
    }
}

/// The sessions with a turn under way, in the order in which they are shown.
pub fn active_sessions(snapshot: &Snapshot) -> (r: Vec<&Session>)
    ensures
        refs_v(r@) == active_v(snapshot@.sessions),
{
    let ghost all = snapshot@.sessions;
    let mut out: Vec<&Session> = Vec::new();
    let mut i: usize = 0;
    proof {
        assert(refs_v(out@) =~= Seq::<SessionV>::empty());
        assert(all.take(0) =~= Seq::<SessionV>::empty());
        assert(all.len() == snapshot.sessions@.len());
    }
    while i < snapshot.sessions.len()
        invariant
            i <= snapshot.sessions@.len(),
            all == snapshot@.sessions,
            all.len() == snapshot.sessions@.len(),
            refs_v(out@) == active_v(all.take(i as int)),
        decreases snapshot.sessions@.len() - i,
    {
        let one: &Session = &snapshot.sessions[i];
        proof {
            assert(all[i as int] == one@);
            assert(all.take(i + 1).drop_last() =~= all.take(i as int));
        }
        if one.active > 0 {
            assert(refs_v(out@.push(one)) =~= refs_v(out@).push(one@));
            out.push(one);
        }
        i += 1;
    }
    assert(all.take(i as int) =~= all);
    out
}

/// Whether a turn is under way or over.
#[derive(Clone, Copy, Debug, PartialEq, Eq, Structural)]
pub enum TurnKind {
    Active,
    Recent,
}

pub type TurnV = (TurnKind, RequestV);

pub open spec fn turns_v(s: Seq<(TurnKind, &Request)>) -> Seq<TurnV> {
    s.map_values(|t: (TurnKind, &Request)| (t.0, t.1@))
}

/// The turns of a session among some.
pub open spec fn of_session_v(kind: TurnKind, turns: Seq<RequestV>, session: Seq<char>) -> Seq<TurnV>
    decreases turns.len(),
{
    if turns.len() == 0 {
        Seq::empty()
    } else if turns.last().session_id == session {
        of_session_v(kind, turns.drop_last(), session).push((kind, turns.last()))
    } else {
        of_session_v(kind, turns.drop_last(), session)
    }
}

/// The turns of a session: those under way, and then those that are over.
pub open spec fn rows_v(
    active: Seq<RequestV>,
    recent: Seq<RequestV>,
    session: Option<Seq<char>>,
) -> Seq<TurnV> {
    match session {
        None => Seq::empty(),
        Some(s) => of_session_v(TurnKind::Active, active, s) + of_session_v(
            TurnKind::Recent,
            recent,
            s,
        ),
    }
}

fn add_turns<'a>(
    out: &mut Vec<(TurnKind, &'a Request)>,
    kind: TurnKind,
    turns: &'a Vec<Request>,
    session: &str,
)
    ensures
        turns_v(final(out)@) == turns_v(old(out)@) + of_session_v(
            kind,
            store::requests_v(turns@),
            session@,
        ),
{
    let ghost before = turns_v(out@);
    let ghost all = store::requests_v(turns@);
    let mut i: usize = 0;
    proof {
        assert(all.take(0) =~= Seq::<RequestV>::empty());
        assert(before + Seq::<TurnV>::empty() =~= before);
        assert(all.len() == turns@.len());
    }
    while i < turns.len()
        invariant
            i <= turns@.len(),
            all == store::requests_v(turns@),
            turns_v(out@) == before + of_session_v(kind, all.take(i as int), session@),
        decreases turns@.len() - i,
    {
        let one: &Request = &turns[i];
        proof {
            assert(all[i as int] == one@);
            assert(all.take(i + 1).drop_last() =~= all.take(i as int));
        }
        if same(&one.session_id, session) {
            let row = (kind, one);
            proof {
                let so_far = of_session_v(kind, all.take(i as int), session@);
                assert(turns_v(out@.push(row)) =~= turns_v(out@).push((kind, one@)));
                assert((before + so_far).push((kind, one@)) =~= before + so_far.push((kind, one@)));
            }
            out.push(row);
        }
        i += 1;
    }
    assert(all.take(i as int) =~= all);
}

/// The turns of a session: those under way, and then those that are over.
pub fn session_rows<'a>(snapshot: &'a Snapshot, session: Option<&str>) -> (r: Vec<
    (TurnKind, &'a Request),
>)
    ensures
        turns_v(r@) == rows_v(snapshot@.active, snapshot@.recent, json::opt_str(session)),
{
    let mut out: Vec<(TurnKind, &'a Request)> = Vec::new();
    assert(turns_v(out@) =~= Seq::<TurnV>::empty());
    if let Some(s) = session {
        add_turns(&mut out, TurnKind::Active, &snapshot.active, s);
        assert(Seq::<TurnV>::empty() + of_session_v(TurnKind::Active, snapshot@.active, s@)
            =~= of_session_v(TurnKind::Active, snapshot@.active, s@));
        add_turns(&mut out, TurnKind::Recent, &snapshot.recent, s);
    }
    out
}

/// A turn that did not succeed.
pub open spec fn failed_v(r: RequestV) -> bool {
    !(200 <= r.status < 300) || r.failure_kind is Some || r.error_type.len() > 0
}

pub fn failed(r: &Request) -> (b: bool)
    ensures
        b == failed_v(r@),
{
    !(200 <= r.status && r.status < 300) || r.failure_kind.is_some()
        || !r.error_type.as_str().is_empty()
}

/// How a turn ended, in a word.
pub open spec fn ending_v(r: RequestV) -> Seq<char> {
    if failed_v(r) && r.error_type.len() > 0 {
        " "@ + r.error_type
    } else if failed_v(r) && r.failure_kind is Some {
        " "@ + r.failure_kind->0.name_v()
    } else if failed_v(r) && r.status == 0 {
        " fail"@
    } else {
        " HTTP "@ + text::decimal_v(r.status as nat)
    }
}

fn ending(r: &Request) -> (s: String)
    ensures
        s@ == ending_v(r@),
{
    if !r.error_type.as_str().is_empty() {
        return text::cat(" ", &r.error_type);
    }
    if let Some(kind) = r.failure_kind {
        return text::cat(" ", kind.as_str());
    }
    if r.status == 0 {
        text::owned(" fail")
    } else {
        text::cat(" HTTP ", &text::decimal(r.status as u64))
    }
}

pub open spec fn column_v(s: Seq<char>, width: int) -> Seq<char> {
    monitor::left_v(monitor::truncated_v(s, width), width)
}

/// A text in a column of its own width.
pub fn column(s: &str, width: usize) -> (r: String)
    ensures
        r@ == column_v(s@, width as int),
{
    left(&truncate(s, width), width)
}

/// A turn in a row; `seconds` is how long it has taken, in five columns.
pub open spec fn turn_label_v(kind: TurnKind, r: RequestV, seconds: Seq<char>) -> Seq<char> {
    match kind {
        TurnKind::Active => "▶ "@ + column_v(r.id, 14) + " "@ + column_v(r.model, 14) + " "@
            + monitor::right_v(seconds, 5) + "s a"@ + text::decimal_v(r.attempt as nat),
        TurnKind::Recent => "  "@ + column_v(r.id, 14) + " "@ + column_v(r.model, 14) + ending_v(r),
    }
}

pub fn turn_label(kind: TurnKind, r: &Request, seconds: &str) -> (s: String)
    ensures
        s@ == turn_label_v(kind, r@, seconds@),
{
    match kind {
        TurnKind::Active => {
            let mut out = text::cat3("▶ ", &column(&r.id, 14), " ");
            out.push_str(&column(&r.model, 14));
            out.push_str(" ");
            out.push_str(&right(seconds, 5));
            out.push_str("s a");
            out.push_str(&text::decimal(r.attempt as u64));
            out
        },
        TurnKind::Recent => {
            let mut out = text::cat3("  ", &column(&r.id, 14), " ");
            out.push_str(&column(&r.model, 14));
            out.push_str(&ending(r));
            out
        },
    }
}

pub open spec fn last_failure_v(kind: Option<FailureKind>) -> Seq<char> {
    match kind {
        Some(k) => " last="@ + k.name_v(),
        None => Seq::empty(),
    }
}

/// A session in a row; `rate` is its tokens per second.
pub open spec fn session_label_v(s: SessionV, rate: Seq<char>) -> Seq<char> {
    column_v(s.id, 16) + " "@ + column_v(s.last_model, 14) + " r"@ + monitor::right_v(
        text::decimal_v(s.requests as nat),
        3,
    ) + " e"@ + monitor::right_v(text::decimal_v(s.errors as nat), 3) + " "@ + monitor::right_v(
        rate,
        5,
    ) + "t/s"@ + last_failure_v(s.last_failure_kind)
}

pub fn session_label(s: &Session, rate: &str) -> (r: String)
    ensures
        r@ == session_label_v(s@, rate@),
{
    let mut out = text::cat3(&column(&s.id, 16), " ", &column(&s.last_model, 14));
    out.push_str(" r");
    out.push_str(&right(&text::decimal(s.requests), 3));
    out.push_str(" e");
    out.push_str(&right(&text::decimal(s.errors), 3));
    out.push_str(" ");
    out.push_str(&right(rate, 5));
    out.push_str("t/s");
    if let Some(kind) = s.last_failure_kind {
        out.push_str(" last=");
        out.push_str(kind.as_str());
        assert(out@ =~= session_label_v(s@, rate@));
    } else {
        assert(out@ =~= session_label_v(s@, rate@));
    }
    out
}

/// The rows of a session are its own turns: none is another's, and none of its
/// own is left out.
pub proof fn rows_belong_to_the_session(turns: Seq<RequestV>, kind: TurnKind, session: Seq<char>)
    ensures
        forall|i: int|
            0 <= i < of_session_v(kind, turns, session).len() ==> (#[trigger] of_session_v(
                kind,
                turns,
                session,
            )[i]).1.session_id == session && turns.contains(
                of_session_v(kind, turns, session)[i].1,
            ),
        forall|k: int|
            0 <= k < turns.len() && (#[trigger] turns[k]).session_id == session ==> of_session_v(
                kind,
                turns,
                session,
            ).contains((kind, turns[k])),
    decreases turns.len(),
{
    if turns.len() > 0 {
        let head = turns.drop_last();
        let before = of_session_v(kind, head, session);
        let after = of_session_v(kind, turns, session);
        rows_belong_to_the_session(head, kind, session);
        assert forall|i: int| 0 <= i < after.len() implies (#[trigger] after[i]).1.session_id
            == session && turns.contains(after[i].1) by {
            if i < before.len() {
                assert(after[i] == before[i]);
                let k = choose|k: int| 0 <= k < head.len() && head[k] == before[i].1;
                assert(turns[k] == after[i].1);
            } else {
                assert(turns[turns.len() - 1] == after[i].1);
            }
        }
        assert forall|k: int|
            0 <= k < turns.len() && (#[trigger] turns[k]).session_id == session implies after.contains(
            (kind, turns[k]),
        ) by {
            if k < head.len() {
                assert(head[k] == turns[k]);
                let i = choose|i: int| 0 <= i < before.len() && before[i] == (kind, head[k]);
                assert(after[i] == (kind, turns[k]));
            } else {
                assert(after[before.len() as int] == (kind, turns[k]));
            }
        }
    }
}

/// The sessions that are shown as active are those with a turn under way, and no
/// others.
pub proof fn active_sessions_have_turns(sessions: Seq<SessionV>, s: SessionV)
    ensures
        active_v(sessions).contains(s) <==> sessions.contains(s) && s.active > 0,
    decreases sessions.len(),
{
    if sessions.len() > 0 {
        let d = sessions.drop_last();
        let before = active_v(d);
        active_sessions_have_turns(d, s);
        if d.contains(s) {
            let k = choose|k: int| 0 <= k < d.len() && d[k] == s;
            assert(sessions[k] == s);
        }
        assert(sessions =~= d.push(sessions.last()));
        assert(sessions[sessions.len() - 1] == sessions.last());
        if sessions.last().active > 0 {
            let after = before.push(sessions.last());
            assert(after[before.len() as int] == sessions.last());
            if before.contains(s) {
                let k = choose|k: int| 0 <= k < before.len() && before[k] == s;
                assert(after[k] == s);
            }
        }
    }
}

/// A turn of a session is among its rows, marked as under way or over.
pub proof fn turns_have_their_rows(kind: TurnKind, turns: Seq<RequestV>, session: Seq<char>, r: RequestV)
    ensures
        of_session_v(kind, turns, session).contains((kind, r)) <==> turns.contains(r)
            && r.session_id == session,
    decreases turns.len(),
{
    if turns.len() > 0 {
        let d = turns.drop_last();
        let before = of_session_v(kind, d, session);
        turns_have_their_rows(kind, d, session, r);
        if d.contains(r) {
            let k = choose|k: int| 0 <= k < d.len() && d[k] == r;
            assert(turns[k] == r);
        }
        assert(turns =~= d.push(turns.last()));
        assert(turns[turns.len() - 1] == turns.last());
        if turns.last().session_id == session {
            let after = before.push((kind, turns.last()));
            assert(after[before.len() as int] == (kind, turns.last()));
            if before.contains((kind, r)) {
                let k = choose|k: int| 0 <= k < before.len() && before[k] == (kind, r);
                assert(after[k] == (kind, r));
            }
        }
    }
}

} // verus!
