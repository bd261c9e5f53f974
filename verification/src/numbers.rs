//! Numbers as machines hold them.

use vstd::prelude::*;

verus! {

/// The 64 bits of a number read as a signed one.
pub open spec fn signed_v(n: u64) -> i64 {
    if n <= i64::MAX {
        n as i64
    } else {
        (n - u64::MAX - 1) as i64
    }
}

pub fn signed(n: u64) -> (r: i64)
    ensures
        r == signed_v(n),
{
    if n <= i64::MAX as u64 {
        n as i64
    } else {
        -((u64::MAX - n) as i64) - 1
    }
}

} // verus!
