//! The strip of metrics.

use vstd::prelude::*;

verus! {

/// Whether the strip is drawn on a screen of this size.
pub fn should_show_metrics(area_width: u16, area_height: u16) -> (r: bool)
    ensures
        r == (area_width >= 40 && area_height >= 18),
{
    area_width >= 40 && area_height >= 18
}

pub open spec fn spark_width_v(total: u16) -> int {
    let column = total / 3 - 12;
    if column < 4 {
        4
    } else if column > 24 {
        24
    } else {
        column
    }
}

/// The width of a sparkline in one of three columns, next to its label.
pub fn spark_width(total_inner: u16) -> (r: usize)
    ensures
        r == spark_width_v(total_inner),
{
    let column: usize = ((total_inner / 3) as usize).saturating_sub(12);
    if column < 4 {
        4
    } else if column > 24 {
        24
    } else {
        column
    }
}

pub open spec fn successes_v(completed: Seq<bool>) -> nat
    decreases completed.len(),
{
    if completed.len() == 0 {
        0
    } else {
        successes_v(completed.drop_last()) + (if completed.last() {
            1nat
        } else {
            0nat
        })
    }
}

/// How many of the latest turns succeeded, and how many failed.
pub fn completed_counts(completed: &Vec<bool>) -> (r: (usize, usize))
    ensures
        r.0 == successes_v(completed@),
        r.0 + r.1 == completed@.len(),
{
    let mut n: usize = 0;
    let mut i: usize = 0;
    assert(completed@.take(0) =~= Seq::<bool>::empty());
    while i < completed.len()
        invariant
            i <= completed@.len(),
            n <= i,
            n == successes_v(completed@.take(i as int)),
        decreases completed@.len() - i,
    {
        assert(completed@.take(i + 1).drop_last() =~= completed@.take(i as int));
        if completed[i] {
            n += 1;
        }
        i += 1;
    }
    assert(completed@.take(i as int) =~= completed@);
    (n, completed.len() - n)
}

/// How bad a share of failures is.
#[derive(Clone, Copy, Debug, PartialEq, Eq, Structural)]
pub enum Alarm {
    /// At most one turn in twenty failed.
    Fine,
    /// At most one turn in four failed.
    Raised,
    High,
}

pub open spec fn alarm_v(succeeded: nat, failed: nat) -> Alarm {
    let total = succeeded + failed;
    if 4 * failed > total {
        Alarm::High
    } else if 20 * failed > total {
        Alarm::Raised
    } else {
        Alarm::Fine
    }
}

/// How bad a share of failures is.
pub fn alarm(succeeded: usize, failed: usize) -> (r: Alarm)
    ensures
        r == alarm_v(succeeded as nat, failed as nat),
{
    let total: u128 = succeeded as u128 + failed as u128;
    if 4 * (failed as u128) > total {
        Alarm::High
    } else if 20 * (failed as u128) > total {
        Alarm::Raised
    } else {
        Alarm::Fine
    }
}

} // verus!
