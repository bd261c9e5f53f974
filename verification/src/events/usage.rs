//! The token usage that a response reports.

use vstd::prelude::*;

use crate::events::TokenUsage;
use crate::json;
use crate::json::{Json, JsonV};
use crate::sse;
use crate::sse::{append_slice, frame_boundary, frame_data, sub_bytes};
use crate::text;

verus! {

pub open spec fn count_v(v: JsonV, k: Seq<char>) -> u64 {
    match v.get_uint(k) {
        Some(n) => n,
        None => 0,
    }
}

/// What a usage object counts; what it leaves out counts as none.
pub open spec fn tokens_v(usage: JsonV) -> TokenUsage {
    let details = match usage.get("input_tokens_details"@) {
        Some(d) => d,
        None => JsonV::Null,
    };
    TokenUsage {
        input_tokens: count_v(usage, "input_tokens"@),
        cached_input_tokens: count_v(details, "cached_tokens"@),
        cache_write_tokens: count_v(details, "cache_write_tokens"@),
        output_tokens: count_v(usage, "output_tokens"@),
    }
}

/// The usage object of a response or of an event that carries one.
pub open spec fn usage_object_v(v: JsonV) -> Option<JsonV> {
    let inner = match v.get("response"@) {
        Some(r) => r.get("usage"@),
        None => None,
    };
    let own = match inner {
        Some(u) => Some(u),
        None => v.get("usage"@),
    };
    match own {
        Some(JsonV::Obj(m)) => Some(JsonV::Obj(m)),
        _ => None,
    }
}

pub open spec fn reported_v(v: JsonV) -> Option<TokenUsage> {
    match usage_object_v(v) {
        Some(u) => Some(tokens_v(u)),
        None => None,
    }
}

fn count(v: &Json, k: &str) -> (r: u64)
    ensures
        r == count_v(v@, k@),
{
    match v.get_u64(k) {
        Some(n) => n,
        None => 0,
    }
}

/// The usage that a response, or an event that carries one, reports.
pub fn reported_usage(v: &Json) -> (r: Option<TokenUsage>)
    ensures
        r == reported_v(v@),
{
    let inner = match v.get("response") {
        Some(response) => response.get("usage"),
        None => None,
    };
    let own = match inner {
        Some(u) => Some(u),
        None => v.get("usage"),
    };
    match own {
        Some(u) => {
            if !u.is_object() {
                return None;
            }
            let none = Json::Null;
            let details = match u.get("input_tokens_details") {
                Some(d) => d,
                None => &none,
            };
            Some(
                TokenUsage {
                    input_tokens: count(u, "input_tokens"),
                    cached_input_tokens: count(details, "cached_tokens"),
                    cache_write_tokens: count(details, "cache_write_tokens"),
                    output_tokens: count(u, "output_tokens"),
                },
            )
        },
        None => None,
    }
}

pub open spec fn later_v(before: Option<TokenUsage>, now: Option<TokenUsage>) -> Option<
    TokenUsage,
> {
    if now is Some {
        now
    } else {
        before
    }
}

/// What the text of a frame's data reports.
pub open spec fn parsed_usage_v(parsed: Option<JsonV>) -> Option<TokenUsage> {
    match parsed {
        Some(v) => reported_v(v),
        None => None,
    }
}

/// What a frame of an event stream reports.
pub open spec fn frame_usage_v(frame: Seq<u8>) -> Option<TokenUsage> {
    let lines = text::lines_v(text::unix_v(text::utf8_lossy(frame)));
    parsed_usage_v(json::parsed(text::join_v(sse::frame_data_v(lines), "\n"@)))
}

fn frame_usage(frame: &Vec<u8>) -> (r: Option<TokenUsage>)
    ensures
        r == frame_usage_v(frame@),
{
    let raw = text::unix_lines(&text::decode_lossy(frame.as_slice()));
    let parts = frame_data(&text::lines(&raw));
    match json::parse(&text::join(&parts, "\n")) {
        Some(v) => reported_usage(&v),
        None => None,
    }
}

/// What has come of a response: the last usage in whole frames, and the bytes
/// after them.
#[verifier::ext_equal]
pub struct UsageV {
    pub sse: bool,
    pub pending: Seq<u8>,
    pub usage: Option<TokenUsage>,
}

/// The last usage in the whole frames of a buffer, and what is left of it.
pub open spec fn drain_v(usage: Option<TokenUsage>, buffer: Seq<u8>) -> (
    Option<TokenUsage>,
    Seq<u8>,
)
    decreases buffer.len(),
{
    match sse::boundary_v(buffer, 0) {
        Some((p, n)) => {
            if 0 <= p && n > 0 && p + n <= buffer.len() {
                drain_v(
                    later_v(usage, frame_usage_v(buffer.take(p + n))),
                    buffer.skip(p + n),
                )
            } else {
                (usage, buffer)
            }
        },
        None => (usage, buffer),
    }
}

pub open spec fn push_v(s: UsageV, chunk: Seq<u8>) -> UsageV {
    if s.sse {
        let (usage, pending) = drain_v(s.usage, s.pending + chunk);
        UsageV { sse: true, pending, usage }
    } else {
        UsageV { sse: false, pending: s.pending + chunk, usage: s.usage }
    }
}

/// The usage of the whole response: of an event stream the last that a frame
/// reports, else that of the response itself.
pub open spec fn total_v(s: UsageV) -> Option<TokenUsage> {
    if s.sse {
        later_v(s.usage, frame_usage_v(s.pending))
    } else {
        parsed_usage_v(json::parsed_bytes(s.pending))
    }
}

pub open spec fn fresh_v(sse: bool) -> UsageV {
    UsageV { sse, pending: Seq::empty(), usage: None }
}

/// Picks the token usage out of a response as it passes.
#[derive(Debug)]
pub struct UsageAccumulator {
    sse: bool,
    pending: Vec<u8>,
    usage: Option<TokenUsage>,
}

impl UsageAccumulator {
    pub closed spec fn view(&self) -> UsageV {
        UsageV { sse: self.sse, pending: self.pending@, usage: self.usage }
    }

    /// For an event stream, or for a response in one piece.
    pub fn new(sse: bool) -> (r: UsageAccumulator)
        ensures
            r@ == fresh_v(sse),
    {
        UsageAccumulator { sse, pending: Vec::new(), usage: None }
    }

    /// Takes a chunk of the response.
    pub fn push(&mut self, chunk: &[u8])
        ensures
            final(self)@ == push_v(old(self)@, chunk@),
    {
        append_slice(&mut self.pending, chunk);
        if !self.sse {
            return;
        }
        let ghost first = self.usage;
        let ghost whole = self.pending@;
        let mut from: usize = 0;
        assert(whole.skip(0) =~= whole);
        let mut next: Option<(usize, usize)> = frame_boundary(&self.pending, 0);
        while next.is_some()
            invariant
                from <= self.pending@.len(),
                self.sse,
                self.pending@.len() == self.pending.len(),
                self.pending@ == whole,
                match next {
                    Some((p, n)) => sse::boundary_v(whole, from as int) == Some(
                        (p as int, n as int),
                    ),
                    None => sse::boundary_v(whole, from as int) is None,
                },
                drain_v(first, whole) == drain_v(self.usage, whole.skip(from as int)),
            decreases self.pending@.len() - from,
        {
            if let Some((p, n)) = next {
                proof {
                    sse::boundary_within(whole, from as int);
                    sse::boundary_shift(whole, from as int);
                    assert(whole.skip(from as int).take(p + n - from) =~= whole.subrange(
                        from as int,
                        p + n,
                    ));
                    assert(whole.skip(from as int).skip(p + n - from) =~= whole.skip(p + n));
                }
                let frame = sub_bytes(&self.pending, from, p + n);
                if let Some(usage) = frame_usage(&frame) {
                    self.usage = Some(usage);
                }
                from = p + n;
                next = frame_boundary(&self.pending, from);
            }
        }
        proof {
            sse::boundary_shift(whole, from as int);
            assert(whole.skip(from as int) =~= whole.subrange(from as int, whole.len() as int));
        }
        self.pending = sub_bytes(&self.pending, from, self.pending.len());
    }

    /// The usage of the response up to here.
    pub fn finish(&self) -> (r: Option<TokenUsage>)
        ensures
            r == total_v(self@),
    {
        if self.sse {
            match frame_usage(&self.pending) {
                Some(usage) => Some(usage),
                None => self.usage,
            }
        } else {
            match json::parse_bytes(self.pending.as_slice()) {
                Some(v) => reported_usage(&v),
                None => None,
            }
        }
    }
}

proof fn drain_append(usage: Option<TokenUsage>, p: Seq<u8>, more: Seq<u8>)
    ensures
        ({
            let (first, rest) = drain_v(usage, p);
            drain_v(usage, p + more) == drain_v(first, rest + more)
        }),
    decreases p.len(),
{
    sse::boundary_within(p, 0);
    if let Some((q, n)) = sse::boundary_v(p, 0) {
        sse::laws::boundary_kept(p, more);
        assert((p + more).take(q + n) =~= p.take(q + n));
        assert((p + more).skip(q + n) =~= p.skip(q + n) + more);
        drain_append(later_v(usage, frame_usage_v(p.take(q + n))), p.skip(q + n), more);
    }
}

/// Where the network cuts a response into chunks makes no difference to the
/// usage: one chunk has the effect of its two parts.
pub proof fn chunks_do_not_matter(s: UsageV, first: Seq<u8>, second: Seq<u8>)
    ensures
        push_v(s, first + second) == push_v(push_v(s, first), second),
{
    assert(s.pending + (first + second) =~= (s.pending + first) + second);
    if s.sse {
        drain_append(s.usage, s.pending + first, second);
    }
}

} // verus!
