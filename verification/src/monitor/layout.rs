//! How much a row shows, by the width of the screen.

use vstd::prelude::*;

verus! {

/// Widths of the screen.
#[derive(Clone, Copy, Debug, PartialEq, Eq, Structural)]
pub enum LayoutTier {
    /// Below 80 columns.
    Emergency,
    /// From 80 to 99.
    Narrow,
    /// From 100 to 129.
    Medium,
    /// From 130 on.
    Wide,
}

impl LayoutTier {
    pub open spec fn of_v(width: u16) -> LayoutTier {
        if width < 80 {
            LayoutTier::Emergency
        } else if width < 100 {
            LayoutTier::Narrow
        } else if width < 130 {
            LayoutTier::Medium
        } else {
            LayoutTier::Wide
        }
    }

    pub fn for_width(width: u16) -> (r: LayoutTier)
        ensures
            r == LayoutTier::of_v(width),
    {
        if width < 80 {
            LayoutTier::Emergency
        } else if width < 100 {
            LayoutTier::Narrow
        } else if width < 130 {
            LayoutTier::Medium
        } else {
            LayoutTier::Wide
        }
    }

    pub fn session_id_width(self) -> (r: usize)
        ensures
            r == match self {
                LayoutTier::Emergency => 12usize,
                LayoutTier::Narrow => 12,
                LayoutTier::Medium => 16,
                LayoutTier::Wide => 20,
            },
    {
        match self {
            LayoutTier::Emergency => 12,
            LayoutTier::Narrow => 12,
            LayoutTier::Medium => 16,
            LayoutTier::Wide => 20,
        }
    }

    pub fn model_width(self) -> (r: usize)
        ensures
            r == match self {
                LayoutTier::Emergency => 10usize,
                LayoutTier::Narrow => 12,
                LayoutTier::Medium => 16,
                LayoutTier::Wide => 22,
            },
    {
        match self {
            LayoutTier::Emergency => 10,
            LayoutTier::Narrow => 12,
            LayoutTier::Medium => 16,
            LayoutTier::Wide => 22,
        }
    }

    pub fn show_provider(self) -> (r: bool)
        ensures
            r == (self != LayoutTier::Emergency),
    {
        match self {
            LayoutTier::Emergency => false,
            _ => true,
        }
    }

    pub fn failure_error_width(self) -> (r: usize)
        ensures
            r == match self {
                LayoutTier::Emergency => 12usize,
                LayoutTier::Narrow => 18,
                LayoutTier::Medium => 28,
                LayoutTier::Wide => 40,
            },
    {
        match self {
            LayoutTier::Emergency => 12,
            LayoutTier::Narrow => 18,
            LayoutTier::Medium => 28,
            LayoutTier::Wide => 40,
        }
    }
}

/// The blocks of a sparkline, the lowest first.
pub open spec fn block_v(level: int) -> char {
    if level <= 0 {
        '▁'
    } else if level == 1 {
        '▂'
    } else if level == 2 {
        '▃'
    } else if level == 3 {
        '▄'
    } else if level == 4 {
        '▅'
    } else if level == 5 {
        '▆'
    } else if level == 6 {
        '▇'
    } else {
        '█'
    }
}

/// Seven times the share of `v` in `max`, to the nearest number, and up from
/// the middle between two.
pub open spec fn level_v(v: u64, max: u64) -> int {
    (14 * v + max) / (2 * max)
}

pub open spec fn most_v(s: Seq<u64>) -> u64
    decreases s.len(),
{
    if s.len() == 0 {
        1
    } else {
        let m = most_v(s.drop_last());
        if s.last() > m {
            s.last()
        } else {
            m
        }
    }
}

/// A block for each of the last `width` numbers, as high as its share of the
/// largest of all.
pub open spec fn sparkline_v(buckets: Seq<u64>, width: int) -> Seq<char> {
    let n = if buckets.len() < width {
        buckets.len() as int
    } else {
        width
    };
    let shown = buckets.skip(buckets.len() - n);
    shown.map_values(|v: u64| block_v(level_v(v, most_v(buckets))))
}

fn block(level: u128) -> (r: char)
    ensures
        r == block_v(level as int),
{
    if level == 0 {
        '▁'
    } else if level == 1 {
        '▂'
    } else if level == 2 {
        '▃'
    } else if level == 3 {
        '▄'
    } else if level == 4 {
        '▅'
    } else if level == 5 {
        '▆'
    } else if level == 6 {
        '▇'
    } else {
        '█'
    }
}

fn most(s: &[u64]) -> (r: u64)
    ensures
        r == most_v(s@),
        r >= 1,
{
    let mut m: u64 = 1;
    let mut i: usize = 0;
    assert(s@.take(0) =~= Seq::<u64>::empty());
    while i < s.len()
        invariant
            i <= s@.len(),
            m == most_v(s@.take(i as int)),
            m >= 1,
        decreases s@.len() - i,
    {
        assert(s@.take(i + 1).drop_last() =~= s@.take(i as int));
        if s[i] > m {
            m = s[i];
        }
        i += 1;
    }
    assert(s@.take(i as int) =~= s@);
    m
}

/// A sparkline of the numbers of tokens.
pub fn token_bucket_sparkline(buckets: &[u64], width: usize) -> (r: String)
    ensures
        r@ == sparkline_v(buckets@, width as int),
{
    let max: u64 = most(buckets);
    let n: usize = if buckets.len() < width {
        buckets.len()
    } else {
        width
    };
    let start: usize = buckets.len() - n;
    let ghost all = sparkline_v(buckets@, width as int);
    let mut out = String::new();
    let mut i: usize = start;
    assert(out@ =~= all.take(0));
    while i < buckets.len()
        invariant
            start <= i <= buckets@.len(),
            start == buckets@.len() - n,
            all == sparkline_v(buckets@, width as int),
            all.len() == n,
            max == most_v(buckets@),
            max >= 1,
            forall|k: int|
                0 <= k < n ==> #[trigger] all[k] == block_v(level_v(buckets@[start + k], max)),
            out@ == all.take(i - start),
        decreases buckets@.len() - i,
    {
        let v: u64 = buckets[i];
        let level: u128 = (14 * (v as u128) + max as u128) / (2 * (max as u128));
        proof {
            assert(level == level_v(v, max));
            assert(all[i - start] == block_v(level as int));
            assert(all.take(i + 1 - start) =~= all.take(i - start).push(all[i - start]));
        }
        out.push(block(level));
        i += 1;
    }
    assert(all.take(n as int) =~= all);
    out
}

/// The largest number shows as a full block.
pub proof fn largest_is_full(v: u64)
    requires
        v >= 1,
    ensures
        block_v(level_v(v, v)) == '█',
        block_v(level_v(0, v)) == '▁',
{
    assert((14 * v + v) / (2 * v) == 7) by (nonlinear_arith)
        requires
            v >= 1,
    ;
    assert((14 * 0 + v) / (2 * v) == 0) by (nonlinear_arith)
        requires
            v >= 1,
    ;
}

/// A sparkline shows the latest numbers, the last one last, each by its share of
/// the largest.
pub proof fn sparklines_show_the_latest(buckets: Seq<u64>, width: int, i: int)
    requires
        width >= 0,
    ensures
        ({
            let line = sparkline_v(buckets, width);
            let first = buckets.len() - line.len();
            &&& line.len() <= width
            &&& line.len() <= buckets.len()
            &&& line.len() == width || line.len() == buckets.len()
            &&& 0 <= i < line.len() ==> line[i] == block_v(
                level_v(buckets[first + i], most_v(buckets)),
            )
        }),
{
}

/// The largest number is none below any other.
pub proof fn the_largest_is_the_most(s: Seq<u64>, i: int)
    requires
        0 <= i < s.len(),
    ensures
        s[i] <= most_v(s),
        most_v(s) == 1 || s.contains(most_v(s)),
    decreases s.len(),
{
    let d = s.drop_last();
    assert(s[s.len() - 1] == s.last());
    if d.len() > 0 {
        let k = if i < d.len() {
            i
        } else {
            0
        };
        the_largest_is_the_most(d, k);
        if d.contains(most_v(d)) {
            let j = choose|j: int| 0 <= j < d.len() && d[j] == most_v(d);
            assert(s[j] == most_v(d));
        }
    } else {
        assert(most_v(d) == 1);
    }
}

} // verus!
