//! Rates and shares, as the pairs of numbers that they are quotients of.

use vstd::prelude::*;

use crate::store::model;
use crate::store::model::{RequestV, SessionV, Totals};
use crate::store::{Request, Session};

verus! {

/// So many tokens in so many nanoseconds.
#[derive(Clone, Copy, Debug, PartialEq, Eq, Structural)]
pub struct Rate {
    pub tokens: u64,
    pub nanos: u64,
}

/// One number as a share of another.
#[derive(Clone, Copy, Debug, PartialEq, Eq, Structural)]
pub struct Share {
    pub part: u64,
    pub whole: u64,
}

/// The rate over a whole turn.
pub open spec fn rate_v(r: RequestV, now: u64) -> Rate {
    Rate { tokens: r.output_tokens, nanos: model::nanos_v(r, now) }
}

/// The time from the beginning of the generation on, up to `now` where the turn
/// is running.
pub open spec fn window_v(r: RequestV, now: u64) -> u64 {
    let end = match r.ended_at {
        Some(t) => t,
        None => now,
    };
    match r.generation_started_at {
        Some(start) if start < end => (end - start) as u64,
        _ => 0,
    }
}

/// The rate from the beginning of the generation on; over the whole turn where
/// that took no time.
pub open spec fn generation_rate_v(r: RequestV, now: u64) -> Rate {
    if window_v(r, now) == 0 {
        rate_v(r, now)
    } else {
        Rate {
            tokens: if r.output_tokens < r.generation_initial_output_tokens {
                0
            } else {
                (r.output_tokens - r.generation_initial_output_tokens) as u64
            },
            nanos: window_v(r, now),
        }
    }
}

impl Request {
    /// The rate over the whole turn, up to `now` where it is running.
    pub fn rate(&self, now: u64) -> (r: Rate)
        ensures
            r == rate_v(self@, now),
    {
        Rate { tokens: self.output_tokens, nanos: self.duration(now) }
    }

    /// The rate from the beginning of the generation on.
    pub fn generation_rate(&self, now: u64) -> (r: Rate)
        ensures
            r == generation_rate_v(self@, now),
    {
        let end: u64 = match self.ended_at {
            Some(t) => t,
            None => now,
        };
        let window: u64 = match self.generation_started_at {
            Some(start) => end.saturating_sub(start),
            None => 0,
        };
        if window == 0 {
            return self.rate(now);
        }
        Rate {
            tokens: self.output_tokens.saturating_sub(self.generation_initial_output_tokens),
            nanos: window,
        }
    }
}

/// The part of all input that was read from a cache; of no input it is nothing.
pub open spec fn cache_share_v(cached: u64, input: u64, observations: u64) -> Option<Share> {
    if observations == 0 {
        None
    } else if input == 0 {
        Some(Share { part: 0, whole: 1 })
    } else {
        Some(Share { part: cached, whole: input })
    }
}

fn cache_share(cached: u64, input: u64, observations: u64) -> (r: Option<Share>)
    ensures
        r == cache_share_v(cached, input, observations),
{
    if observations == 0 {
        None
    } else if input == 0 {
        Some(Share { part: 0, whole: 1 })
    } else {
        Some(Share { part: cached, whole: input })
    }
}

pub open spec fn session_share_v(s: SessionV) -> Option<Share> {
    cache_share_v(s.cached_input_tokens, s.input_tokens, s.usage_requests)
}

impl Session {
    /// The rate over all turns with output.
    pub fn rate(&self) -> (r: Rate)
        ensures
            r == (Rate { tokens: self@.output_tokens, nanos: self@.sample_nanos }),
    {
        Rate { tokens: self.output_tokens, nanos: self.sample_nanos }
    }

    /// The rate over the generation of all turns.
    pub fn generation_rate(&self) -> (r: Rate)
        ensures
            r == (Rate {
                tokens: self@.generation_output_tokens,
                nanos: self@.generation_sample_nanos,
            }),
    {
        Rate { tokens: self.generation_output_tokens, nanos: self.generation_sample_nanos }
    }

    /// The part of the input that was read from a cache, where usage is known.
    pub fn cache_read_share(&self) -> (r: Option<Share>)
        ensures
            r == session_share_v(self@),
    {
        cache_share(self.cached_input_tokens, self.input_tokens, self.usage_requests)
    }
}

impl Totals {
    /// The part of all input that was read from a cache, where usage is known.
    pub fn cache_read_share(&self) -> (r: Option<Share>)
        ensures
            r == cache_share_v(self.cached_input_tokens, self.input_tokens, self.usage_requests),
    {
        cache_share(self.cached_input_tokens, self.input_tokens, self.usage_requests)
    }
}

} // verus!
