//! What holds of every shown text and every captured body.

use vstd::prelude::*;

use crate::events;
use crate::events::capture;
use crate::events::capture::CaptureV;
use crate::text;

verus! {

proof fn shown_front(c: char, s: Seq<char>)
    ensures
        events::sanitize_id_v(seq![c] + s) == events::shown_v(c) + events::sanitize_id_v(s),
    decreases s.len(),
{
    let whole = seq![c] + s;
    if s.len() == 0 {
        assert(whole.drop_last() =~= Seq::<char>::empty());
        assert(events::sanitize_id_v(whole.drop_last()) =~= Seq::<char>::empty());
        assert(whole.last() == c);
        assert(events::sanitize_id_v(whole) =~= events::shown_v(c));
        assert(events::shown_v(c) + events::sanitize_id_v(s) =~= events::shown_v(c));
    } else {
        shown_front(c, s.drop_last());
        assert(whole.drop_last() =~= seq![c] + s.drop_last());
        assert(events::sanitize_id_v(whole) =~= events::shown_v(c) + events::sanitize_id_v(s));
    }
}

proof fn hex_injective(a: u32, b: u32)
    requires
        a < 16,
        b < 16,
        events::hex_v(a) == events::hex_v(b),
    ensures
        a == b,
{
}

proof fn shown_prefix_free(c: char, x: Seq<char>, d: char, y: Seq<char>)
    requires
        events::shown_v(c) + x == events::shown_v(d) + y,
    ensures
        c == d,
{
    let a = events::shown_v(c) + x;
    let b = events::shown_v(d) + y;
    assert(a[0] == events::shown_v(c)[0]);
    assert(b[0] == events::shown_v(d)[0]);
    let ec = events::shown_v(c).len() > 1;
    let ed = events::shown_v(d).len() > 1;
    if ec && ed {
        assert(a[1] == events::shown_v(c)[1]);
        assert(b[1] == events::shown_v(d)[1]);
        if a[1] == 'u' {
            let sc = events::shown_v(c);
            let sd = events::shown_v(d);
            assert(a[3] == sc[3] && b[3] == sd[3]);
            assert(a[4] == sc[4] && b[4] == sd[4]);
            let cu = c as u32;
            let du = d as u32;
            if cu < 16 && du < 16 {
                hex_injective(cu, du);
            } else if cu >= 16 && du >= 16 {
                hex_injective(cu / 16, du / 16);
                hex_injective(cu % 16, du % 16);
            } else if cu < 16 {
                assert(sc[4] == '}');
                assert(sd[4] == events::hex_v(du % 16));
            } else {
                assert(sd[4] == '}');
                assert(sc[4] == events::hex_v(cu % 16));
            }
        }
    }
}

/// Identifiers are shown without loss: two that look the same are the same.
pub proof fn sanitize_id_is_injective(a: Seq<char>, b: Seq<char>)
    requires
        events::sanitize_id_v(a) == events::sanitize_id_v(b),
    ensures
        a == b,
    decreases a.len(),
{
    if a.len() == 0 || b.len() == 0 {
        if a.len() > 0 {
            assert(events::sanitize_id_v(a).len() >= events::shown_v(a.last()).len());
        }
        if b.len() > 0 {
            assert(events::sanitize_id_v(b).len() >= events::shown_v(b.last()).len());
        }
        assert(a =~= b);
    } else {
        let (c, x) = (a[0], a.skip(1));
        let (d, y) = (b[0], b.skip(1));
        assert(a =~= seq![c] + x);
        assert(b =~= seq![d] + y);
        shown_front(c, x);
        shown_front(d, y);
        shown_prefix_free(c, events::sanitize_id_v(x), d, events::sanitize_id_v(y));
        let p = events::shown_v(c);
        let sx = events::sanitize_id_v(x);
        let sy = events::sanitize_id_v(y);
        assert((p + sx).skip(p.len() as int) =~= sx);
        assert((p + sy).skip(p.len() as int) =~= sy);
        sanitize_id_is_injective(x, y);
    }
}

/// No character of a text is a control character.
pub open spec fn plain_v(s: Seq<char>) -> bool {
    forall|i: int| 0 <= i < s.len() ==> !text::is_ctl(#[trigger] s[i])
}

/// A shown identifier has no control characters.
pub proof fn sanitize_id_is_plain(s: Seq<char>)
    ensures
        plain_v(events::sanitize_id_v(s)),
    decreases s.len(),
{
    if s.len() > 0 {
        sanitize_id_is_plain(s.drop_last());
        let c = s.last();
        assert(plain_v(events::shown_v(c))) by {
            if text::is_ctl(c) {
                let code = events::code_v(c);
                assert forall|i: int| 0 <= i < code.len() implies !text::is_ctl(
                    #[trigger] code[i],
                ) by {}
            }
        }
    }
}

proof fn trim_start_keeps(s: Seq<char>)
    requires
        plain_v(s),
    ensures
        plain_v(text::trim_start_v(s)),
        text::trim_start_v(s).len() <= s.len(),
    decreases s.len(),
{
    if s.len() > 0 && text::is_space(s[0]) {
        trim_start_keeps(s.skip(1));
    }
}

proof fn trim_end_keeps(s: Seq<char>)
    requires
        plain_v(s),
    ensures
        plain_v(text::trim_end_v(s)),
        text::trim_end_v(s).len() <= s.len(),
    decreases s.len(),
{
    if s.len() > 0 && text::is_space(s.last()) {
        trim_end_keeps(s.drop_last());
    }
}

/// A shown text has no control characters and a bounded length.
pub proof fn sanitize_is_plain_and_bounded(s: Seq<char>)
    ensures
        plain_v(events::sanitize_v(s)),
        events::sanitize_v(s).len() <= events::SHOWN_CHARS,
{
    let cut = s.take(
        events::min_v(s.len() as int, events::SHOWN_CHARS as int),
    ).map_values(|c: char| events::blanked_v(c));
    assert(plain_v(cut));
    trim_start_keeps(cut);
    trim_end_keeps(text::trim_start_v(cut));
}

/// What a model wrote is never taken for an error: a frame that is no terminal
/// event leaves the findings as they were.
pub proof fn content_is_never_an_error(d: CaptureV, frame: Seq<char>)
    requires
        ({
            let typ = capture::frame_type_v(frame);
            typ != "response.failed"@ && typ != "response.incomplete"@ && typ != "error"@
        }),
    ensures
        capture::frame_v(d, frame) == d || capture::frame_v(d, frame) == (CaptureV {
            has_completed: true,
            ..d
        }),
{
}

/// A turn is completed exactly when its status is good, its stream whole, and no
/// failure was captured.
pub proof fn completed_means_no_failure(ok: bool, broken: Option<Seq<char>>, d: CaptureV)
    ensures
        capture::verdict_v(ok, broken, d).failure is None <==> (ok && broken is None
            && !d.has_proxy_error && !d.has_stream_terminal_failure),
        capture::verdict_v(ok, broken, d).kind == events::RequestEventKind::Completed <==> (ok
            && broken is None && !d.has_proxy_error && !d.has_stream_terminal_failure),
{
}

/// A string behind a name is read up to its closing quote, whatever follows.
pub proof fn strings_are_read(word: Seq<char>, rest: Seq<char>)
    requires
        word.len() > 0,
        forall|i: int| 0 <= i < word.len() ==> #[trigger] word[i] != '"' && word[i] != '\\',
        forall|i: int|
            0 <= i <= word.len() ==> crate::sse::bytes_v(#[trigger] word.take(i)).len()
                <= capture::READ_BYTES,
    ensures
        capture::string_after_v(seq![':', '"'] + word + seq!['"'] + rest) == Some(word),
{
    let s = seq![':', '"'] + word + seq!['"'] + rest;
    let value = s.skip(1);
    assert(s[0] == ':' && value[0] == '"');
    assert(text::trim_start_v(s) == s);
    assert(text::trim_start_of_v(value, ':') == value);
    assert(text::trim_start_of_v(s, ':') == value);
    assert(text::trim_start_v(value) == value);
    assert(word.take(0) =~= Seq::<char>::empty());
    characters_are_read(value, word, 0);
}

proof fn characters_are_read(value: Seq<char>, word: Seq<char>, k: int)
    requires
        0 <= k <= word.len(),
        value.len() >= word.len() + 2,
        forall|i: int| 0 <= i < word.len() ==> value[i + 1] == #[trigger] word[i],
        value[word.len() as int + 1] == '"',
        forall|i: int| 0 <= i < word.len() ==> #[trigger] word[i] != '"' && word[i] != '\\',
        forall|i: int|
            0 <= i <= word.len() ==> crate::sse::bytes_v(#[trigger] word.take(i)).len()
                <= capture::READ_BYTES,
    ensures
        capture::read_v(value, k + 1, word.take(k)) == word,
    decreases word.len() - k,
{
    if k < word.len() {
        assert(value[k + 1] == word[k]);
        assert(word.take(k).push(word[k]) =~= word.take(k + 1));
        characters_are_read(value, word, k + 1);
    } else {
        assert(word.take(k) =~= word);
    }
}

/// An object in a list counts for one, whatever it holds in plain characters.
pub proof fn objects_are_counted(s: Seq<char>, i: int, j: int, st: capture::ScanV)
    requires
        0 <= i < j < s.len(),
        s[i] == '{',
        s[j] == '}',
        forall|k: int|
            i < k < j ==> (#[trigger] s[k]) != '{' && s[k] != '}' && s[k] != ']' && s[k] != '"',
        st.depth == 1,
        !st.in_string,
        !st.saw_object,
        st.items < u32::MAX,
    ensures
        capture::scan_v(s, i, st) == capture::scan_v(
            s,
            j + 1,
            (capture::ScanV { items: (st.items + 1) as u32, ..st }),
        ),
{
    let inner = capture::ScanV { depth: 2, saw_object: true, ..st };
    assert(capture::scan_char_v(st, s[i]) == inner);
    plain_is_passed(s, i + 1, j, inner);
    assert(capture::scan_char_v(inner, s[j]) == (capture::ScanV {
        items: (st.items + 1) as u32,
        ..st
    }));
}

proof fn plain_is_passed(s: Seq<char>, i: int, j: int, st: capture::ScanV)
    requires
        0 <= i <= j < s.len(),
        forall|k: int|
            i <= k < j ==> (#[trigger] s[k]) != '{' && s[k] != '}' && s[k] != ']' && s[k] != '"',
        st.depth == 2,
        !st.in_string,
    ensures
        capture::scan_v(s, i, st) == capture::scan_v(s, j, st),
    decreases j - i,
{
    if i < j {
        assert(capture::scan_char_v(st, s[i]) == st);
        plain_is_passed(s, i + 1, j, st);
    }
}

/// An event that reports a failure is remembered under its name, with the error
/// that it names; what else was found stays, and a failure is never forgotten.
pub proof fn failures_are_found(d: CaptureV, frame: Seq<char>)
    ensures
        ({
            let typ = capture::frame_type_v(frame);
            let after = capture::frame_v(d, frame);
            let data = capture::frame_text_v(frame);
            let failing = !capture::is_idle_v(frame) && (typ == "response.failed"@ || typ
                == "response.incomplete"@ || typ == "error"@);
            &&& after.response_id == d.response_id
            &&& after.output_count == d.output_count
            &&& d.has_completed ==> after.has_completed
            &&& d.has_proxy_error ==> after.has_proxy_error
            &&& d.has_stream_terminal_failure ==> after.has_stream_terminal_failure
            &&& failing ==> {
                &&& after.has_stream_terminal_failure
                &&& after.terminal_event == typ
                &&& after.has_completed == d.has_completed
                &&& capture::error_type_v(data) matches Some(t) ==> after.error_type
                    == events::sanitize_v(t)
                &&& capture::error_message_v(data) matches Some(m) ==> after.error_message
                    == events::sanitize_v(m)
            }
            &&& !capture::is_idle_v(frame) && typ == "response.completed"@ ==> after.has_completed
        }),
{
    crate::words::events();
    reveal_strlit("response.completed");
    reveal_strlit("response.failed");
    reveal_strlit("response.incomplete");
    reveal_strlit("error");
}

/// A text that is short, plain and without white space at its ends is shown as it
/// is.
pub proof fn short_texts_are_shown(s: Seq<char>)
    requires
        0 < s.len() <= events::SHOWN_CHARS,
        plain_v(s),
        !text::is_space(s[0]),
        !text::is_space(s.last()),
    ensures
        events::sanitize_v(s) == s,
{
    assert(s.take(s.len() as int).map_values(|c: char| events::blanked_v(c)) =~= s);
}

} // verus!
