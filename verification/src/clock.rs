//! The wall clock.

use vstd::prelude::*;

verus! {

/// `chrono::Utc::now` and `timestamp`: the seconds since 1970. Nothing is
/// stated of the result, which is the machine's.
#[verifier::external_body]
fn timestamp() -> (r: i64) {
    chrono::Utc::now().timestamp()
}

/// The seconds since 1970, zero before.
pub fn now() -> (r: u64) {
    let t: i64 = timestamp();
    if t < 0 {
        0
    } else {
        t as u64
    }
}

/// What chrono writes for a point in time, given in nanoseconds since 1970, as
/// RFC 3339 in UTC.
pub uninterp spec fn rfc3339_text(nanos: i64) -> Seq<char>;

/// `chrono::DateTime::from_timestamp_nanos` and `to_rfc3339`, which depend on
/// the point in time alone.
#[verifier::external_body]
pub(crate) fn rfc3339(nanos: i64) -> (r: String)
    ensures
        r@ == rfc3339_text(nanos),
{
    chrono::DateTime::from_timestamp_nanos(nanos).to_rfc3339()
}

} // verus!
