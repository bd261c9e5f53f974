//! Repair of Responses event streams.
//!
//! A stream arrives in chunks of bytes. [`StreamNormalizer`] cuts it into
//! frames, hands each event to the [`assembler`], and puts out the frames that
//! take their place.

use vstd::prelude::*;

use crate::clock;
use crate::json;
use crate::proxy::CompatMode;
use crate::sse::assembler::{encode, Assembler, Normalized};
use crate::sse::model::{AsmV, NormV};
use crate::text;

pub mod assembler;
pub mod items;
pub mod laws;
pub mod model;
pub mod recovery;
pub mod stamps;

verus! {

/// The length of the frame separator at position `p`, zero where there is none:
/// two line feeds, or two carriage returns and line feeds.
pub open spec fn separator_v(b: Seq<u8>, p: int) -> int {
    if text::at_v(b, seq![10u8, 10u8], p) {
        2
    } else if text::at_v(b, seq![13u8, 10u8, 13u8, 10u8], p) {
        4
    } else {
        0
    }
}

/// Where the first frame separator at or after `p` stands, and its length.
pub open spec fn boundary_v(b: Seq<u8>, p: int) -> Option<(int, int)>
    decreases b.len() - p,
{
    if p >= b.len() {
        None
    } else if separator_v(b, p) > 0 {
        Some((p, separator_v(b, p)))
    } else {
        boundary_v(b, p + 1)
    }
}

/// The name that the last `event:` line of a frame gives.
pub open spec fn frame_name_v(lines: Seq<Seq<char>>) -> Option<Seq<char>>
    decreases lines.len(),
{
    if lines.len() == 0 {
        None
    } else {
        match text::strip_v(lines.last(), "event:"@) {
            Some(rest) => Some(text::trim_start_v(rest)),
            None => frame_name_v(lines.drop_last()),
        }
    }
}

/// What a `data:` line carries.
pub open spec fn payload_v(line: Seq<char>) -> Option<Seq<char>> {
    match text::strip_v(line, "data:"@) {
        Some(rest) => Some(
            match text::strip_v(rest, " "@) {
                Some(r) => r,
                None => rest,
            },
        ),
        None => None,
    }
}

/// What the `data:` lines of a frame carry.
pub open spec fn frame_data_v(lines: Seq<Seq<char>>) -> Seq<Seq<char>>
    decreases lines.len(),
{
    if lines.len() == 0 {
        Seq::empty()
    } else {
        let before = frame_data_v(lines.drop_last());
        if text::strip_v(lines.last(), "event:"@) is Some {
            before
        } else {
            match payload_v(lines.last()) {
                Some(data) => before.push(data),
                None => before,
            }
        }
    }
}

pub open spec fn bytes_v(s: Seq<char>) -> Seq<u8> {
    vstd::utf8::encode_utf8(s)
}

pub open spec fn terminal_bytes_v(ev: Option<json::JsonV>) -> Seq<u8> {
    match ev {
        Some(ev) => bytes_v(model::frame_v(ev)),
        None => Seq::empty(),
    }
}

/// What takes the place of a frame, and the assembler after it.
#[verifier::opaque]
pub open spec fn process_v(a: AsmV, frame: Seq<u8>, now: u64) -> (AsmV, Seq<u8>) {
    let lines = text::lines_v(text::unix_v(text::utf8_lossy(frame)));
    let name = frame_name_v(lines);
    let data = text::join_v(frame_data_v(lines), "\n"@);
    if name is Some && model::is_aside_v(name->0) {
        (a, Seq::empty())
    } else if frame_data_v(lines).len() == 0 {
        (a, frame)
    } else if data == "[DONE]"@ {
        let (b, ev) = model::synthetic_v(a, now);
        (b, terminal_bytes_v(ev) + bytes_v("data: [DONE]\n\n"@))
    } else {
        match json::parsed(data) {
            None => (a, frame),
            Some(ev) => match model::normalize_v(a, ev, model::text_or_v(name, ""@), now) {
                (b, NormV::Emit(ev)) => (b, bytes_v(model::frame_v(ev))),
                (b, NormV::Drop) => (b, Seq::empty()),
                (b, NormV::Fail(kind)) => {
                    let (c, ev) = model::error_v(b, kind);
                    (c, bytes_v(model::frame_v(ev)))
                },
            },
        }
    }
}

/// What takes the place of the whole frames of a buffer: the assembler after
/// them, what is left of the buffer, and what is put out.
pub open spec fn drain_v(a: AsmV, buffer: Seq<u8>, now: u64) -> (AsmV, Seq<u8>, Seq<u8>)
    decreases buffer.len(),
{
    match boundary_v(buffer, 0) {
        Some((p, n)) => {
            if 0 <= p && n > 0 && p + n <= buffer.len() {
                let (b, first) = process_v(a, buffer.take(p + n), now);
                let (c, rest, more) = drain_v(b, buffer.skip(p + n), now);
                (c, rest, first + more)
            } else {
                (a, buffer, Seq::empty())
            }
        },
        None => (a, buffer, Seq::empty()),
    }
}

/// A stream under repair: the assembler, and the bytes of an unfinished frame.
#[verifier::ext_equal]
pub struct StreamV {
    pub assembler: AsmV,
    pub pending: Seq<u8>,
}

/// A chunk of the stream.
pub open spec fn push_v(s: StreamV, chunk: Seq<u8>, now: u64) -> (StreamV, Seq<u8>) {
    let (assembler, pending, out) = drain_v(s.assembler, s.pending + chunk, now);
    (StreamV { assembler, pending }, out)
}

/// The end of the stream.
pub open spec fn finish_v(s: StreamV, now: u64) -> (StreamV, Seq<u8>) {
    let (a, first) = if s.pending.len() == 0 {
        (s.assembler, Seq::empty())
    } else {
        process_v(s.assembler, s.pending, now)
    };
    let (b, ev) = model::synthetic_v(a, now);
    (StreamV { assembler: b, pending: Seq::empty() }, first + terminal_bytes_v(ev))
}

/// A stream before its first chunk.
pub open spec fn fresh_v(mode: CompatMode, model: Seq<char>, request_id: Seq<char>) -> StreamV {
    StreamV { assembler: model::start_v(mode, model, request_id), pending: Seq::empty() }
}

/// A whole stream, repaired.
pub open spec fn normalize_sse_v(
    input: Seq<u8>,
    mode: CompatMode,
    model: Seq<char>,
    request_id: Seq<char>,
    now: u64,
) -> Seq<u8> {
    let (s, out) = push_v(fresh_v(mode, model, request_id), input, now);
    out + finish_v(s, now).1
}

/// A boundary is a separator within the buffer.
pub proof fn boundary_within(b: Seq<u8>, p: int)
    requires
        0 <= p,
    ensures
        match boundary_v(b, p) {
            Some((q, n)) => p <= q && n > 0 && q + n <= b.len() && separator_v(b, q) == n
                && forall|k: int| p <= k < q ==> separator_v(b, k) == 0,
            None => forall|k: int| p <= k ==> separator_v(b, k) == 0,
        },
    decreases b.len() - p,
{
    if p < b.len() && separator_v(b, p) == 0 {
        boundary_within(b, p + 1);
    }
}

fn separator(b: &Vec<u8>, p: usize) -> (r: usize)
    requires
        p <= b@.len(),
    ensures
        r == separator_v(b@, p as int),
{
    let n: usize = b.len() - p;
    if n >= 2 && b[p] == 10 && b[p + 1] == 10 {
        assert(b@.subrange(p as int, p + 2) =~= seq![10u8, 10u8]);
        2
    } else {
        assert(n >= 2 ==> b@.subrange(p as int, p + 2)[0] == b@[p as int]);
        assert(n >= 2 ==> b@.subrange(p as int, p + 2)[1] == b@[p + 1]);
        if n >= 4 && b[p] == 13 && b[p + 1] == 10 && b[p + 2] == 13 && b[p + 3] == 10 {
            assert(b@.subrange(p as int, p + 4) =~= seq![13u8, 10u8, 13u8, 10u8]);
            4
        } else {
            assert(n >= 4 ==> b@.subrange(p as int, p + 4)[0] == b@[p as int]);
            assert(n >= 4 ==> b@.subrange(p as int, p + 4)[1] == b@[p + 1]);
            assert(n >= 4 ==> b@.subrange(p as int, p + 4)[2] == b@[p + 2]);
            assert(n >= 4 ==> b@.subrange(p as int, p + 4)[3] == b@[p + 3]);
            0
        }
    }
}

/// Where the first frame separator at or after `from` stands, and its length.
pub fn frame_boundary(b: &Vec<u8>, from: usize) -> (r: Option<(usize, usize)>)
    requires
        from <= b@.len(),
    ensures
        match r {
            Some((p, n)) => boundary_v(b@, from as int) == Some((p as int, n as int)),
            None => boundary_v(b@, from as int) is None,
        },
{
    let mut p: usize = from;
    while p < b.len()
        invariant
            from <= p <= b@.len(),
            boundary_v(b@, from as int) == boundary_v(b@, p as int),
        decreases b@.len() - p,
    {
        let n: usize = separator(b, p);
        if n > 0 {
            return Some((p, n));
        }
        p += 1;
    }
    None
}

/// The bytes from `from` to `to`.
pub fn sub_bytes(b: &Vec<u8>, from: usize, to: usize) -> (r: Vec<u8>)
    requires
        from <= to <= b@.len(),
    ensures
        r@ == b@.subrange(from as int, to as int),
{
    vstd::slice::slice_to_vec(vstd::slice::slice_subrange(b.as_slice(), from, to))
}

/// The bytes of a string.
pub fn bytes_of(s: &str) -> (r: Vec<u8>)
    ensures
        r@ == bytes_v(s@),
{
    vstd::slice::slice_to_vec(s.as_bytes())
}

pub fn frame_name(lines: &Vec<String>) -> (r: Option<String>)
    ensures
        text::opt_view(r) == frame_name_v(text::views(lines@)),
{
    let mut i: usize = lines.len();
    let ghost all = text::views(lines@);
    assert(all.take(i as int) =~= all);
    while i > 0
        invariant
            i <= lines@.len(),
            all == text::views(lines@),
            frame_name_v(all) == frame_name_v(all.take(i as int)),
        decreases i,
    {
        assert(all.take(i as int).last() == lines@[i - 1]@);
        assert(all.take(i as int).drop_last() =~= all.take(i - 1));
        if let Some(rest) = text::strip_prefix(&lines[i - 1], "event:") {
            return Some(text::trim_start(&rest));
        }
        i -= 1;
    }
    None
}

pub fn frame_data(lines: &Vec<String>) -> (r: Vec<String>)
    ensures
        text::views(r@) == frame_data_v(text::views(lines@)),
{
    let mut out: Vec<String> = Vec::new();
    let mut i: usize = 0;
    let ghost all = text::views(lines@);
    assert(text::views(out@) =~= frame_data_v(all.take(0)));
    while i < lines.len()
        invariant
            i <= lines@.len(),
            all == text::views(lines@),
            text::views(out@) == frame_data_v(all.take(i as int)),
        decreases lines@.len() - i,
    {
        assert(all.take(i + 1).last() == lines@[i as int]@);
        assert(all.take(i + 1).drop_last() =~= all.take(i as int));
        let ghost before = out@;
        if text::strip_prefix(&lines[i], "event:").is_none() {
            if let Some(rest) = text::strip_prefix(&lines[i], "data:") {
                match text::strip_prefix(&rest, " ") {
                    Some(r) => out.push(r),
                    None => out.push(rest),
                }
                assert(text::views(out@) =~= text::views(before).push(out@.last()@));
            }
        }
        i += 1;
    }
    assert(all.take(i as int) =~= all);
    out
}

fn is_named(name: &Option<String>, s: &str) -> (r: bool)
    ensures
        r == (text::opt_view(*name) == Some(s@)),
{
    match name {
        Some(n) => text::same(n, s),
        None => false,
    }
}

/// A stream under repair.
pub struct StreamNormalizer {
    assembler: Assembler,
    pending: Vec<u8>,
}

impl StreamNormalizer {
    pub closed spec fn view(&self) -> StreamV {
        StreamV { assembler: self.assembler@, pending: self.pending@ }
    }

    pub fn new(mode: CompatMode, model: &str, request_id: &str) -> (r: StreamNormalizer)
        ensures
            r@ == fresh_v(mode, model@, request_id@),
    {
        StreamNormalizer { assembler: Assembler::new(mode, model, request_id), pending: Vec::new() }
    }

    fn process_frame(assembler: &mut Assembler, frame: Vec<u8>, now: u64) -> (r: Vec<u8>)
        ensures
            (final(assembler)@, r@) == process_v(old(assembler)@, frame@, now),
    {
        reveal(process_v);
        let raw = text::unix_lines(&text::decode_lossy(frame.as_slice()));
        let lines = text::lines(&raw);
        let name = frame_name(&lines);
        let parts = frame_data(&lines);
        if is_named(&name, "response.metadata") || is_named(&name, "keepalive") {
            return Vec::new();
        }
        assert(text::views(parts@).len() == parts@.len());
        if parts.len() == 0 {
            return frame;
        }
        let data = text::join(&parts, "\n");
        if text::same(&data, "[DONE]") {
            let mut out: Vec<u8> = match assembler.synthetic_terminal(now) {
                Some(ev) => bytes_of(&encode(&ev)),
                None => Vec::new(),
            };
            let done = bytes_of("data: [DONE]\n\n");
            append(&mut out, &done);
            return out;
        }
        match json::parse(&data) {
            None => frame,
            Some(ev) => {
                let name = match &name {
                    Some(n) => n.as_str(),
                    None => "",
                };
                match assembler.normalize(ev, name, now) {
                    Normalized::Emit(ev) => bytes_of(&encode(&ev)),
                    Normalized::Drop => Vec::new(),
                    Normalized::Fail(kind) => {
                        let ev = assembler.error(kind);
                        bytes_of(&encode(&ev))
                    },
                }
            },
        }
    }

    /// Takes a chunk of the stream at time `now`, and gives what is put out.
    pub fn push_at(&mut self, chunk: &[u8], now: u64) -> (r: Vec<u8>)
        ensures
            (final(self)@, r@) == push_v(old(self)@, chunk@, now),
    {
        let mut buffer: Vec<u8> = Vec::new();
        append(&mut buffer, &self.pending);
        append_slice(&mut buffer, chunk);
        let ghost a0 = self.assembler@;
        let ghost whole = buffer@;
        assert(whole =~= old(self)@.pending + chunk@);
        let mut from: usize = 0;
        let mut out: Vec<u8> = Vec::new();
        assert(whole.skip(0) =~= whole);
        let mut next: Option<(usize, usize)> = frame_boundary(&buffer, 0);
        proof {
            let d = drain_v(a0, whole, now);
            assert(Seq::<u8>::empty() + d.2 =~= d.2);
            boundary_shift(whole, 0);
        }
        while next.is_some()
            invariant
                from <= buffer@.len(),
                buffer@.len() == buffer.len(),
                buffer@ == whole,
                match next {
                    Some((p, n)) => boundary_v(whole, from as int) == Some((p as int, n as int)),
                    None => boundary_v(whole, from as int) is None,
                },
                ({
                    let d = drain_v(self.assembler@, whole.skip(from as int), now);
                    drain_v(a0, whole, now) == (d.0, d.1, out@ + d.2)
                }),
            decreases buffer@.len() - from,
        {
            if let Some((p, n)) = next {
                proof {
                    boundary_within(whole, from as int);
                    boundary_shift(whole, from as int);
                    assert(whole.skip(from as int).take(p + n - from) =~= whole.subrange(
                        from as int,
                        p + n,
                    ));
                    assert(whole.skip(from as int).skip(p + n - from) =~= whole.skip(p + n));
                }
                let ghost before = out@;
                let ghost a = self.assembler@;
                let frame = sub_bytes(&buffer, from, p + n);
                let more = Self::process_frame(&mut self.assembler, frame, now);
                append(&mut out, &more);
                from = p + n;
                proof {
                    let d = drain_v(self.assembler@, whole.skip(from as int), now);
                    assert(before + (more@ + d.2) =~= before + more@ + d.2);
                }
                next = frame_boundary(&buffer, from);
            }
        }
        proof {
            boundary_shift(whole, from as int);
            assert(out@ + Seq::<u8>::empty() =~= out@);
            assert(whole.skip(from as int) =~= whole.subrange(from as int, whole.len() as int));
        }
        self.pending = sub_bytes(&buffer, from, buffer.len());
        out
    }

    /// Takes the end of the stream at time `now`, and gives what is put out.
    pub fn finish_at(&mut self, now: u64) -> (r: Vec<u8>)
        ensures
            (final(self)@, r@) == finish_v(old(self)@, now),
    {
        let mut out: Vec<u8> = Vec::new();
        if self.pending.len() > 0 {
            let frame = sub_bytes(&self.pending, 0, self.pending.len());
            assert(frame@ =~= self.pending@);
            out = Self::process_frame(&mut self.assembler, frame, now);
            self.pending = Vec::new();
        }
        let ghost first = out@;
        if let Some(ev) = self.assembler.synthetic_terminal(now) {
            let last = bytes_of(&encode(&ev));
            append(&mut out, &last);
        }
        assert(first + Seq::<u8>::empty() =~= first);
        out
    }

    /// Takes a chunk of the stream, and gives what is put out.
    pub fn push(&mut self, chunk: &[u8]) -> (r: Vec<u8>)
        ensures
            exists|now: u64| (final(self)@, r@) == #[trigger] push_v(old(self)@, chunk@, now),
    {
        let now: u64 = clock::now();
        self.push_at(chunk, now)
    }

    /// Takes the end of the stream, and gives what is put out.
    pub fn finish(&mut self) -> (r: Vec<u8>)
        ensures
            exists|now: u64| (final(self)@, r@) == #[trigger] finish_v(old(self)@, now),
    {
        let now: u64 = clock::now();
        self.finish_at(now)
    }
}

/// The first boundary from `p` on, counted from `p`.
pub proof fn boundary_shift(b: Seq<u8>, p: int)
    requires
        0 <= p <= b.len(),
    ensures
        boundary_v(b.skip(p), 0) == (match boundary_v(b, p) {
            Some((q, n)) => Some((q - p, n)),
            None => None,
        }),
{
    boundary_shift_from(b, p, 0);
}

proof fn boundary_shift_from(b: Seq<u8>, p: int, k: int)
    requires
        0 <= p <= b.len(),
        0 <= k,
    ensures
        boundary_v(b.skip(p), k) == (match boundary_v(b, p + k) {
            Some((q, n)) => Some((q - p, n)),
            None => None,
        }),
    decreases b.len() - p - k,
{
    if p + k < b.len() {
        assert(separator_v(b.skip(p), k) == separator_v(b, p + k)) by {
            if p + k + 2 <= b.len() {
                assert(b.skip(p).subrange(k, k + 2) =~= b.subrange(p + k, p + k + 2));
            }
            if p + k + 4 <= b.len() {
                assert(b.skip(p).subrange(k, k + 4) =~= b.subrange(p + k, p + k + 4));
            }
        }
        boundary_shift_from(b, p, k + 1);
    }
}

/// Appends bytes.
pub fn append(out: &mut Vec<u8>, more: &Vec<u8>)
    ensures
        final(out)@ == old(out)@ + more@,
{
    append_slice(out, more.as_slice());
}

/// Appends bytes.
pub fn append_slice(out: &mut Vec<u8>, more: &[u8])
    ensures
        final(out)@ == old(out)@ + more@,
{
    let ghost before = out@;
    out.extend_from_slice(more);
    assert(out@ =~= before + more@);
}

/// A whole stream, repaired at time `now`.
pub fn normalize_sse_at(
    input: &[u8],
    mode: CompatMode,
    model: &str,
    request_id: &str,
    now: u64,
) -> (r: Vec<u8>)
    ensures
        r@ == normalize_sse_v(input@, mode, model@, request_id@, now),
{
    let mut normalizer = StreamNormalizer::new(mode, model, request_id);
    let mut out = normalizer.push_at(input, now);
    let last = normalizer.finish_at(now);
    append(&mut out, &last);
    out
}

/// A whole stream, repaired.
pub fn normalize_sse(input: &[u8], mode: CompatMode, model: &str, request_id: &str) -> (r: Vec<u8>)
    ensures
        exists|now: u64|
            r@ == #[trigger] normalize_sse_v(input@, mode, model@, request_id@, now),
{
    let now: u64 = clock::now();
    normalize_sse_at(input, mode, model, request_id, now)
}

} // verus!
