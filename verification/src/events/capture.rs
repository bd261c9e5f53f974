//! What the tail of a response body tells of how the turn ended.

use vstd::prelude::*;

use crate::events;
use crate::events::{sanitize, FailureKind, RequestEventKind};
use crate::sse;
use crate::text;

verus! {

/// What was found in a captured body.
#[derive(Debug, PartialEq, Eq)]
pub struct CaptureDiagnostics {
    pub error_type: String,
    pub error_message: String,
    pub response_id: String,
    pub terminal_event: String,
    pub output_count: u32,
    pub has_proxy_error: bool,
    pub has_stream_terminal_failure: bool,
    /// A `response.completed` frame was seen.
    pub has_completed: bool,
}

#[verifier::ext_equal]
pub struct CaptureV {
    pub error_type: Seq<char>,
    pub error_message: Seq<char>,
    pub response_id: Seq<char>,
    pub terminal_event: Seq<char>,
    pub output_count: u32,
    pub has_proxy_error: bool,
    pub has_stream_terminal_failure: bool,
    pub has_completed: bool,
}

pub open spec fn nothing_v() -> CaptureV {
    CaptureV {
        error_type: Seq::empty(),
        error_message: Seq::empty(),
        response_id: Seq::empty(),
        terminal_event: Seq::empty(),
        output_count: 0,
        has_proxy_error: false,
        has_stream_terminal_failure: false,
        has_completed: false,
    }
}

impl Default for CaptureDiagnostics {
    fn default() -> (r: CaptureDiagnostics)
        ensures
            r@ == nothing_v(),
    {
        CaptureDiagnostics {
            error_type: String::new(),
            error_message: String::new(),
            response_id: String::new(),
            terminal_event: String::new(),
            output_count: 0,
            has_proxy_error: false,
            has_stream_terminal_failure: false,
            has_completed: false,
        }
    }
}

impl CaptureDiagnostics {
    pub open spec fn view(&self) -> CaptureV {
        CaptureV {
            error_type: self.error_type@,
            error_message: self.error_message@,
            response_id: self.response_id@,
            terminal_event: self.terminal_event@,
            output_count: self.output_count,
            has_proxy_error: self.has_proxy_error,
            has_stream_terminal_failure: self.has_stream_terminal_failure,
            has_completed: self.has_completed,
        }
    }

    /// Whether the capture shows an end of the turn, good or bad.
    pub fn has_terminal_end(&self) -> (r: bool)
        ensures
            r == (self.has_completed || self.has_stream_terminal_failure || self.has_proxy_error),
    {
        self.has_completed || self.has_stream_terminal_failure || self.has_proxy_error
    }
}

/// A lower-case ASCII letter, a digit or an underscore.
pub open spec fn is_word_v(c: char) -> bool {
    ('a' <= c && c <= 'z') || ('0' <= c && c <= '9') || c == '_'
}

/// An error type of the proxy's own: `proxy_` and a word.
pub open spec fn is_proxy_error_v(et: Seq<char>) -> bool {
    &&& text::starts_v(et, "proxy_"@)
    &&& et.len() > "proxy_"@.len()
    &&& forall|i: int| 0 <= i < et.len() ==> is_word_v(#[trigger] et[i])
}

fn word(c: char) -> (r: bool)
    ensures
        r == is_word_v(c),
{
    ('a' <= c && c <= 'z') || ('0' <= c && c <= '9') || c == '_'
}

/// Whether an error type is one of the proxy's own.
pub fn is_known_proxy_error_type(et: &str) -> (r: bool)
    ensures
        r == is_proxy_error_v(et@),
{
    if !text::starts_with(et, "proxy_") {
        return false;
    }
    let v = text::chars_of(et);
    proof {
        reveal_strlit("proxy_");
    }
    if v.len() <= 6 {
        return false;
    }
    let mut i: usize = 0;
    while i < v.len()
        invariant
            i <= v@.len(),
            v@ == et@,
            forall|j: int| 0 <= j < i ==> is_word_v(#[trigger] v@[j]),
        decreases v@.len() - i,
    {
        if !word(v[i]) {
            return false;
        }
        i += 1;
    }
    true
}

/// How many bytes of a string are read.
pub const READ_BYTES: usize = 256;

/// What is read of a JSON string from position `i` on, after `out`: up to the
/// closing quote, a backslash dropped before the character that follows it,
/// until more than the bytes to read are there.
pub open spec fn read_v(s: Seq<char>, i: int, out: Seq<char>) -> Seq<char>
    decreases s.len() + 1 - i,
{
    if i < 0 || i >= s.len() || s[i] == '"' {
        out
    } else {
        let skip = s[i] == '\\';
        let next = if skip {
            if i + 1 < s.len() {
                out.push(s[i + 1])
            } else {
                out
            }
        } else {
            out.push(s[i])
        };
        if sse::bytes_v(next).len() as usize > READ_BYTES {
            next
        } else if skip {
            read_v(s, i + 2, next)
        } else {
            read_v(s, i + 1, next)
        }
    }
}

/// The JSON string that follows a member name: white space and colons are
/// passed over, and an empty string counts as none.
pub open spec fn string_after_v(rest: Seq<char>) -> Option<Seq<char>> {
    let value = text::trim_start_v(text::trim_start_of_v(text::trim_start_v(rest), ':'));
    if value.len() > 0 && value[0] == '"' {
        let out = read_v(value, 1, Seq::empty());
        if out.len() == 0 {
            None
        } else {
            Some(out)
        }
    } else {
        None
    }
}

fn extract_json_string_after(rest: &str) -> (r: Option<String>)
    ensures
        text::opt_view(r) == string_after_v(rest@),
{
    let value = text::trim_start(&text::trim_start_of(&text::trim_start(rest), ':'));
    let s = text::chars_of(&value);
    if s.len() == 0 || s[0] != '"' {
        return None;
    }
    let mut out = String::new();
    let mut i: usize = 1;
    let ghost wanted = read_v(s@, 1, Seq::empty());
    assert(out@ =~= Seq::<char>::empty());
    while i < s.len() && s[i] != '"'
        invariant_except_break
            wanted == read_v(s@, i as int, out@),
        invariant
            1 <= i <= s@.len(),
            s@.len() == s.len(),
        ensures
            wanted == out@,
        decreases s@.len() - i,
    {
        let skip = s[i] == '\\';
        if skip {
            i += 1;
            if i < s.len() {
                out.push(s[i]);
                i += 1;
            }
        } else {
            out.push(s[i]);
            i += 1;
        }
        if out.as_str().len() > READ_BYTES {
            break;
        }
        assert(i == s@.len() ==> read_v(s@, i as int, out@) == out@ && read_v(
            s@,
            i + 1,
            out@,
        ) == out@);
    }
    if out.as_str().is_empty() {
        None
    } else {
        Some(out)
    }
}

/// The JSON string of the first member called `field`.
pub open spec fn string_field_v(json: Seq<char>, field: Seq<char>) -> Option<Seq<char>> {
    let marker = seq!['"'] + field + seq!['"'];
    match text::find_from_v(json, marker, 0) {
        Some(i) => string_after_v(json.skip(i + marker.len())),
        None => None,
    }
}

fn marker_of(field: &str) -> (r: Vec<char>)
    ensures
        r@ == seq!['"'] + field@ + seq!['"'],
{
    let mut out = String::new();
    out.push('"');
    out.push_str(field);
    out.push('"');
    assert(out@ =~= seq!['"'] + field@ + seq!['"']);
    text::chars_of(&out)
}

fn extract_json_string_field(json: &str, field: &str) -> (r: Option<String>)
    ensures
        text::opt_view(r) == string_field_v(json@, field@),
{
    let v = text::chars_of(json);
    let marker = marker_of(field);
    match text::find_from(&v, &marker, 0) {
        Some(i) => extract_json_string_after(&text::rest_of(&v, i + marker.len())),
        None => None,
    }
}

/// What stands from the first `"error"` on.
pub open spec fn error_part_v(json: Seq<char>) -> Option<Seq<char>> {
    match text::find_from_v(json, seq!['"'] + "error"@ + seq!['"'], 0) {
        Some(i) => Some(json.skip(i)),
        None => None,
    }
}

fn error_part(json: &str) -> (r: Option<String>)
    ensures
        text::opt_view(r) == error_part_v(json@),
{
    let v = text::chars_of(json);
    let marker = marker_of("error");
    match text::find_from(&v, &marker, 0) {
        Some(i) => Some(text::rest_of(&v, i)),
        None => None,
    }
}

pub open spec fn error_type_v(json: Seq<char>) -> Option<Seq<char>> {
    match error_part_v(json) {
        Some(rest) => string_field_v(rest, "type"@),
        None => None,
    }
}

fn extract_nested_error_type(json: &str) -> (r: Option<String>)
    ensures
        text::opt_view(r) == error_type_v(json@),
{
    match error_part(json) {
        Some(rest) => extract_json_string_field(&rest, "type"),
        None => None,
    }
}

pub open spec fn has_field_v(json: Seq<char>, field: Seq<char>) -> bool {
    text::find_from_v(json, seq!['"'] + field + seq!['"'], 0) is Some
}

pub open spec fn error_message_v(json: Seq<char>) -> Option<Seq<char>> {
    match error_part_v(json) {
        Some(rest) => if has_field_v(rest, "message"@) {
            string_field_v(rest, "message"@)
        } else {
            string_field_v(json, "message"@)
        },
        None => string_field_v(json, "message"@),
    }
}

fn extract_nested_error_message(json: &str) -> (r: Option<String>)
    ensures
        text::opt_view(r) == error_message_v(json@),
{
    if let Some(rest) = error_part(json) {
        let v = text::chars_of(&rest);
        let marker = marker_of("message");
        if text::find_from(&v, &marker, 0).is_some() {
            return extract_json_string_field(&rest, "message");
        }
    }
    extract_json_string_field(json, "message")
}

/// The last response ID among the members called by `marker` from `p` on, or
/// `last`.
pub open spec fn last_id_v(
    s: Seq<char>,
    marker: Seq<char>,
    any: bool,
    p: int,
    last: Seq<char>,
) -> Seq<char>
    decreases s.len() - p,
{
    if p < 0 || p > s.len() || marker.len() == 0 {
        last
    } else {
        match text::find_from_v(s, marker, p) {
            Some(i) => if i >= p && i + marker.len() <= s.len() {
                let next = match string_after_v(s.skip(i + marker.len())) {
                    Some(id) => if any || text::starts_v(id, "resp_"@) {
                        events::sanitize_v(id)
                    } else {
                        last
                    },
                    None => last,
                };
                last_id_v(s, marker, any, i + marker.len(), next)
            } else {
                last
            },
            None => last,
        }
    }
}

fn last_id(s: &Vec<char>, marker: &Vec<char>, any: bool, last: String) -> (r: String)
    requires
        marker@.len() > 0,
    ensures
        r@ == last_id_v(s@, marker@, any, 0, last@),
{
    let mut out = last;
    let mut p: usize = 0;
    let ghost wanted = last_id_v(s@, marker@, any, 0, last@);
    let mut next: Option<usize> = text::find_from(s, marker, 0);
    while next.is_some()
        invariant
            marker@.len() > 0,
            p <= s@.len(),
            s@.len() == s.len(),
            text::opt_int(next) == text::find_from_v(s@, marker@, p as int),
            next matches Some(i) ==> p <= i && i + marker@.len() <= s@.len(),
            wanted == last_id_v(s@, marker@, any, p as int, out@),
        decreases s@.len() - p,
    {
        if let Some(i) = next {
            p = i + marker.len();
            if let Some(id) = extract_json_string_after(&text::rest_of(s, p)) {
                if any || text::starts_with(&id, "resp_") {
                    out = sanitize(&id);
                }
            }
            next = text::find_from(s, marker, p);
        }
    }
    out
}

/// The state of a scan over a JSON array of objects.
pub struct ScanV {
    pub depth: int,
    pub items: u32,
    pub in_string: bool,
    pub escape: bool,
    pub saw_object: bool,
}

/// The scan after one more character.
pub open spec fn scan_char_v(st: ScanV, c: char) -> ScanV {
    if st.in_string {
        if st.escape {
            ScanV { escape: false, ..st }
        } else if c == '\\' {
            ScanV { escape: true, ..st }
        } else if c == '"' {
            ScanV { in_string: false, ..st }
        } else {
            st
        }
    } else if c == '"' {
        ScanV { in_string: true, ..st }
    } else if c == '{' {
        ScanV { depth: st.depth + 1, saw_object: st.saw_object || st.depth == 1, ..st }
    } else if c == '}' {
        if st.depth == 2 && st.saw_object {
            ScanV {
                depth: 1,
                items: st.items.wrapping_add(1),
                saw_object: false,
                ..st
            }
        } else {
            ScanV { depth: st.depth - 1, ..st }
        }
    } else if c == ']' {
        ScanV { depth: st.depth - 1, ..st }
    } else {
        st
    }
}

/// How many objects a scan counts from position `i` on: where the array closes,
/// what was counted; where it does not, what was counted if that is any.
pub open spec fn scan_v(s: Seq<char>, i: int, st: ScanV) -> Option<u32>
    decreases s.len() - i,
{
    let partial = if st.items > 0 {
        Some(st.items)
    } else {
        None
    };
    if i < 0 || i >= s.len() {
        partial
    } else {
        let next = scan_char_v(st, s[i]);
        if !st.in_string && s[i] == ']' && next.depth == 0 {
            Some(next.items)
        } else if next.depth < 0 {
            if next.items > 0 {
                Some(next.items)
            } else {
                None
            }
        } else {
            scan_v(s, i + 1, next)
        }
    }
}

/// How many objects the last `"output"` array of a text holds.
pub open spec fn output_items_v(s: Seq<char>) -> Option<u32> {
    let marker = seq!['"'] + "output"@ + seq!['"'];
    match text::find_back_v(s, marker, s.len() as int) {
        Some(i) => {
            let rest = text::trim_start_v(s.skip(i + marker.len()));
            if rest.len() > 0 && rest[0] == ':' {
                let list = text::trim_start_v(rest.skip(1));
                if list.len() > 0 && list[0] == '[' {
                    scan_v(
                        list,
                        1,
                        ScanV {
                            depth: 1,
                            items: 0,
                            in_string: false,
                            escape: false,
                            saw_object: false,
                        },
                    )
                } else {
                    None
                }
            } else {
                None
            }
        },
        None => None,
    }
}

fn count_output_items(s: &Vec<char>) -> (r: Option<u32>)
    ensures
        r == output_items_v(s@),
{
    let marker = marker_of("output");
    let i: usize = match text::find_last(s, &marker) {
        Some(i) => i,
        None => return None,
    };
    let rest = text::chars_of(&text::trim_start(&text::rest_of(s, i + marker.len())));
    if rest.len() == 0 || rest[0] != ':' {
        return None;
    }
    let list = text::chars_of(&text::trim_start(&text::rest_of(&rest, 1)));
    if list.len() == 0 || list[0] != '[' {
        return None;
    }
    let mut depth: i128 = 1;
    let mut items: u32 = 0;
    let mut in_string = false;
    let mut escape = false;
    let mut saw_object = false;
    let mut k: usize = 1;
    let ghost wanted = output_items_v(s@);
    while k < list.len()
        invariant
            1 <= k <= list@.len(),
            list@.len() == list.len(),
            0 <= depth <= k,
            wanted == output_items_v(s@),
            wanted == scan_v(
                list@,
                k as int,
                ScanV { depth: depth as int, items, in_string, escape, saw_object },
            ),
        decreases list@.len() - k,
    {
        let c: char = list[k];
        k += 1;
        if in_string {
            if escape {
                escape = false;
            } else if c == '\\' {
                escape = true;
            } else if c == '"' {
                in_string = false;
            }
        } else if c == '"' {
            in_string = true;
        } else if c == '{' {
            if depth == 1 {
                saw_object = true;
            }
            depth += 1;
        } else if c == '}' {
            depth -= 1;
            if depth == 1 && saw_object {
                items = items.wrapping_add(1);
                saw_object = false;
            }
        } else if c == ']' {
            depth -= 1;
            if depth == 0 {
                return Some(items);
            }
        }
        if depth < 0 {
            if items > 0 {
                return Some(items);
            }
            return None;
        }
    }
    if items > 0 {
        Some(items)
    } else {
        None
    }
}

/// What a frame says: its data lines, or the frame itself where it has none.
pub open spec fn frame_text_v(frame: Seq<char>) -> Seq<char> {
    let data = sse::frame_data_v(text::lines_v(frame));
    if data.len() == 0 {
        text::trim_v(frame)
    } else {
        text::join_v(data, "\n"@)
    }
}

/// The event name of a frame.
pub open spec fn frame_event_v(frame: Seq<char>) -> Option<Seq<char>> {
    match sse::frame_name_v(text::lines_v(frame)) {
        Some(name) => Some(text::trim_end_v(name)),
        None => None,
    }
}

/// A frame without anything to look at.
pub open spec fn is_idle_v(frame: Seq<char>) -> bool {
    ||| sse::frame_data_v(text::lines_v(frame)).len() == 0 && text::trim_v(frame).len() == 0
    ||| frame_text_v(frame) == "[DONE]"@
}

/// The type of the event in a frame.
pub open spec fn frame_type_v(frame: Seq<char>) -> Seq<char> {
    match frame_event_v(frame) {
        Some(name) => name,
        None => match string_field_v(frame_text_v(frame), "type"@) {
            Some(t) => t,
            None => Seq::empty(),
        },
    }
}

/// The error that a terminal event reports: a nested type, or its own where that
/// is not the name of the event.
pub open spec fn reported_type_v(terminal: Seq<char>, data: Seq<char>) -> Option<Seq<char>> {
    match error_type_v(data) {
        Some(t) => Some(t),
        None => match string_field_v(data, "type"@) {
            Some(t) => if t != "error"@ && t != terminal {
                Some(t)
            } else {
                None
            },
            None => None,
        },
    }
}

pub open spec fn sanitized_or_v(s: Option<Seq<char>>, other: Seq<char>) -> Seq<char> {
    match s {
        Some(t) => events::sanitize_v(t),
        None => other,
    }
}

/// The findings after a terminal event that reports a failure.
pub open spec fn terminal_v(d: CaptureV, terminal: Seq<char>, data: Seq<char>) -> CaptureV {
    let et = reported_type_v(terminal, data);
    let message = match error_message_v(data) {
        Some(m) => Some(m),
        None => string_field_v(data, "message"@),
    };
    CaptureV {
        has_stream_terminal_failure: true,
        terminal_event: terminal,
        error_type: sanitized_or_v(et, d.error_type),
        has_proxy_error: d.has_proxy_error || (et matches Some(t) && is_proxy_error_v(t)),
        error_message: sanitized_or_v(message, d.error_message),
        ..d
    }
}

/// The findings after a frame. Only terminal events count: what a model wrote is
/// never taken for an error.
pub open spec fn frame_v(d: CaptureV, frame: Seq<char>) -> CaptureV {
    let typ = frame_type_v(frame);
    if is_idle_v(frame) {
        d
    } else if typ == "response.completed"@ {
        CaptureV { has_completed: true, ..d }
    } else if typ == "response.failed"@ || typ == "response.incomplete"@ || typ == "error"@ {
        terminal_v(d, typ, frame_text_v(frame))
    } else {
        d
    }
}

/// The findings after a list of frames.
pub open spec fn frames_v(d: CaptureV, frames: Seq<Seq<char>>) -> CaptureV
    decreases frames.len(),
{
    if frames.len() == 0 {
        d
    } else {
        frame_v(frames_v(d, frames.drop_last()), frames.last())
    }
}

/// Whether a frame has an event name.
pub open spec fn any_event_v(frames: Seq<Seq<char>>) -> bool {
    exists|i: int| 0 <= i < frames.len() && frame_event_v(#[trigger] frames[i]) is Some
}

/// The findings in a plain JSON error body.
pub open spec fn plain_v(d: CaptureV, s: Seq<char>) -> CaptureV {
    let et = error_type_v(s);
    let own = et matches Some(t) && is_proxy_error_v(t);
    CaptureV {
        error_type: sanitized_or_v(et, d.error_type),
        has_proxy_error: d.has_proxy_error || own,
        has_stream_terminal_failure: d.has_stream_terminal_failure || own,
        terminal_event: if own {
            "error"@
        } else {
            d.terminal_event
        },
        error_message: if d.error_message.len() == 0 {
            sanitized_or_v(error_message_v(s), d.error_message)
        } else {
            d.error_message
        },
        ..d
    }
}

/// What is known of a text before its frames are read.
pub open spec fn head_v(s: Seq<char>) -> CaptureV {
    let by_field = last_id_v(s, seq!['"'] + "response_id"@ + seq!['"'], true, 0, Seq::empty());
    CaptureV {
        response_id: last_id_v(s, seq!['"'] + "id"@ + seq!['"'], false, 0, by_field),
        output_count: match output_items_v(s) {
            Some(n) => n,
            None => 0,
        },
        ..nothing_v()
    }
}

/// What is found in a captured text.
pub open spec fn capture_v(s: Seq<char>) -> CaptureV {
    let frames = text::split_on_v(s, "\n\n"@);
    let d = frames_v(head_v(s), frames);
    if !any_event_v(frames) && !d.has_completed && !d.has_stream_terminal_failure {
        plain_v(d, s)
    } else {
        d
    }
}

fn apply_terminal_error(d: &mut CaptureDiagnostics, terminal: &str, data: &str)
    ensures
        final(d)@ == terminal_v(old(d)@, terminal@, data@),
{
    d.has_stream_terminal_failure = true;
    d.terminal_event = terminal.to_owned();
    let et = match extract_nested_error_type(data) {
        Some(t) => Some(t),
        None => match extract_json_string_field(data, "type") {
            Some(t) => if !text::same(&t, "error") && !text::same(&t, terminal) {
                Some(t)
            } else {
                None
            },
            None => None,
        },
    };
    if let Some(et) = et {
        d.error_type = sanitize(&et);
        if is_known_proxy_error_type(&et) {
            d.has_proxy_error = true;
        }
    }
    let message = match extract_nested_error_message(data) {
        Some(m) => Some(m),
        None => extract_json_string_field(data, "message"),
    };
    if let Some(m) = message {
        d.error_message = sanitize(&m);
    }
}

/// Reads a frame; whether it has an event name.
fn read_frame(d: &mut CaptureDiagnostics, frame: &str) -> (r: bool)
    ensures
        final(d)@ == frame_v(old(d)@, frame@),
        r == (frame_event_v(frame@) is Some),
{
    let lines = text::lines(frame);
    let name = sse::frame_name(&lines);
    let parts = sse::frame_data(&lines);
    let named = name.is_some();
    assert(text::views(parts@).len() == parts@.len());
    let data = if parts.len() == 0 {
        text::trim(frame)
    } else {
        text::join(&parts, "\n")
    };
    if parts.len() == 0 && data.as_str().is_empty() {
        return named;
    }
    if text::same(&data, "[DONE]") {
        return named;
    }
    let typ = match name {
        Some(n) => text::trim_end(&n),
        None => match extract_json_string_field(&data, "type") {
            Some(t) => t,
            None => String::new(),
        },
    };
    assert(typ@ =~= frame_type_v(frame@));
    if text::same(&typ, "response.completed") {
        d.has_completed = true;
    } else if text::same(&typ, "response.failed") || text::same(&typ, "response.incomplete")
        || text::same(&typ, "error") {
        apply_terminal_error(d, &typ, &data);
    }
    named
}

fn read_plain(d: &mut CaptureDiagnostics, s: &str)
    ensures
        final(d)@ == plain_v(old(d)@, s@),
{
    if let Some(et) = extract_nested_error_type(s) {
        d.error_type = sanitize(&et);
        if is_known_proxy_error_type(&et) {
            d.has_proxy_error = true;
            d.has_stream_terminal_failure = true;
            d.terminal_event = "error".to_owned();
        }
    }
    if d.error_message.as_str().is_empty() {
        if let Some(m) = extract_nested_error_message(s) {
            d.error_message = sanitize(&m);
        }
    }
}

/// What is found in the tail of a response body.
pub fn parse_capture_diagnostics(bytes: &[u8]) -> (r: CaptureDiagnostics)
    ensures
        r@ == capture_v(text::utf8_lossy(bytes@)),
{
    let s = text::decode_lossy(bytes);
    let v = text::chars_of(&s);
    let mut d = CaptureDiagnostics::default();
    let by_field = last_id(&v, &marker_of("response_id"), true, String::new());
    d.response_id = last_id(&v, &marker_of("id"), false, by_field);
    if let Some(n) = count_output_items(&v) {
        d.output_count = n;
    }
    proof {
        reveal_strlit("\n\n");
    }
    let frames = text::split_on(&s, "\n\n");
    let ghost all = text::views(frames@);
    let mut named = false;
    let mut i: usize = 0;
    assert(all.take(0) =~= Seq::empty());
    while i < frames.len()
        invariant
            i <= frames@.len(),
            all == text::views(frames@),
            d@ == frames_v(head_v(s@), all.take(i as int)),
            named == any_event_v(all.take(i as int)),
        decreases frames@.len() - i,
    {
        assert(all.take(i + 1).drop_last() =~= all.take(i as int));
        assert(all.take(i + 1).last() == frames@[i as int]@);
        let one = read_frame(&mut d, &frames[i]);
        proof {
            any_event_push(all, i as int);
        }
        named = named || one;
        i += 1;
    }
    assert(all.take(i as int) =~= all);
    if !named && !d.has_completed && !d.has_stream_terminal_failure {
        read_plain(&mut d, &s);
    }
    d
}

proof fn any_event_push(frames: Seq<Seq<char>>, i: int)
    requires
        0 <= i < frames.len(),
    ensures
        any_event_v(frames.take(i + 1)) == (any_event_v(frames.take(i)) || frame_event_v(
            frames[i],
        ) is Some),
{
    if any_event_v(frames.take(i)) {
        let k = choose|k: int|
            0 <= k < i && frame_event_v(#[trigger] frames.take(i)[k]) is Some;
        assert(frames.take(i + 1)[k] == frames.take(i)[k]);
    }
    if frame_event_v(frames[i]) is Some {
        assert(frames.take(i + 1)[i] == frames[i]);
    }
    if any_event_v(frames.take(i + 1)) {
        let k = choose|k: int|
            0 <= k < i + 1 && frame_event_v(#[trigger] frames.take(i + 1)[k]) is Some;
        if k < i {
            assert(frames.take(i)[k] == frames.take(i + 1)[k]);
        }
    }
}

/// How a turn ended: the kind of event, the kind of failure, its type and its
/// message.
#[verifier::ext_equal]
pub struct VerdictV {
    pub kind: RequestEventKind,
    pub failure: Option<FailureKind>,
    pub error_type: Seq<char>,
    pub message: Seq<char>,
}

pub open spec fn first_text_v(a: Seq<char>, b: Seq<char>) -> Seq<char> {
    if a.len() == 0 {
        b
    } else {
        a
    }
}

pub open spec fn failed_v(failure: FailureKind, error_type: Seq<char>, message: Seq<char>) -> VerdictV {
    VerdictV { kind: RequestEventKind::Failed, failure: Some(failure), error_type, message }
}

/// How a turn ended, from its status, a break of the stream, and its capture.
pub open spec fn verdict_v(ok: bool, broken: Option<Seq<char>>, d: CaptureV) -> VerdictV {
    match broken {
        Some(message) => failed_v(
            FailureKind::StreamIo,
            "stream_io"@,
            events::sanitize_v(message),
        ),
        None => if !ok {
            failed_v(
                FailureKind::UpstreamHttp,
                first_text_v(d.error_type, "upstream_http"@),
                d.error_message,
            )
        } else if d.has_proxy_error || (d.has_stream_terminal_failure && is_proxy_error_v(
            d.error_type,
        )) {
            let et = first_text_v(d.error_type, "proxy_assemble"@);
            failed_v(FailureKind::ProxyAssemble, et, first_text_v(d.error_message, et))
        } else if d.has_stream_terminal_failure {
            let et = first_text_v(
                d.error_type,
                first_text_v(d.terminal_event, "stream_terminal_failed"@),
            );
            failed_v(FailureKind::StreamTerminalFailed, et, first_text_v(d.error_message, et))
        } else {
            VerdictV {
                kind: RequestEventKind::Completed,
                failure: None,
                error_type: Seq::empty(),
                message: Seq::empty(),
            }
        },
    }
}

fn first_text(a: &str, b: &str) -> (r: String)
    ensures
        r@ == first_text_v(a@, b@),
{
    if a.is_empty() {
        b.to_owned()
    } else {
        a.to_owned()
    }
}

/// How a turn ended.
pub fn classify_stream_end(
    status_success: bool,
    stream_io_error: Option<&str>,
    diag: &CaptureDiagnostics,
) -> (r: (RequestEventKind, Option<FailureKind>, String, String))
    ensures
        (VerdictV { kind: r.0, failure: r.1, error_type: r.2@, message: r.3@ }) == verdict_v(
            status_success,
            crate::json::opt_str(stream_io_error),
            diag@,
        ),
{
    if let Some(message) = stream_io_error {
        return (
            RequestEventKind::Failed,
            Some(FailureKind::StreamIo),
            "stream_io".to_owned(),
            sanitize(message),
        );
    }
    if !status_success {
        return (
            RequestEventKind::Failed,
            Some(FailureKind::UpstreamHttp),
            first_text(&diag.error_type, "upstream_http"),
            diag.error_message.clone(),
        );
    }
    if diag.has_proxy_error || (diag.has_stream_terminal_failure && is_known_proxy_error_type(
        &diag.error_type,
    )) {
        let et = first_text(&diag.error_type, "proxy_assemble");
        let message = first_text(&diag.error_message, &et);
        return (RequestEventKind::Failed, Some(FailureKind::ProxyAssemble), et, message);
    }
    if diag.has_stream_terminal_failure {
        let other = first_text(&diag.terminal_event, "stream_terminal_failed");
        let et = first_text(&diag.error_type, &other);
        let message = first_text(&diag.error_message, &et);
        return (RequestEventKind::Failed, Some(FailureKind::StreamTerminalFailed), et, message);
    }
    (RequestEventKind::Completed, None, String::new(), String::new())
}

} // verus!
