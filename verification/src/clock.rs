//! The wall clock, read in UNIX nanoseconds.

use time::OffsetDateTime;
use vstd::prelude::*;

verus! {

/// A bound on the clock readings, in nanoseconds from the UNIX epoch: `2^80`,
/// more than a million years either way.
pub open spec fn clock_limit() -> int {
    1_208_925_819_614_629_174_706_176
}

/// Reads the wall clock through `time::OffsetDateTime::now_utc` and its
/// `unix_timestamp_nanos`: the current UNIX time in nanoseconds. The reading
/// itself depends on the clock; what is stated is its range: the time crate's
/// dates lie in the years -999,999 to 999,999 at the widest (its `MIN_YEAR`
/// and `MAX_YEAR`), which is within `2^80` nanoseconds of the epoch.
#[verifier::external_body]
pub(crate) fn now_timestamp() -> (now: i128)
    ensures
        -clock_limit() <= now <= clock_limit(),
{
    OffsetDateTime::now_utc().unix_timestamp_nanos()
}

} // verus!
