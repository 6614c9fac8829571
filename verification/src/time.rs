//! Clamped time arithmetic for the time-gated operations. The host reads a
//! trusted wall clock once per operation and passes the reading in; the core
//! only compares durations.

use vstd::prelude::*;

verus! {

/// The seconds elapsed from `since` to `now`, clamped to the `i64` range.
pub open spec fn elapsed_spec(now: i64, since: i64) -> int {
    if now - since > i64::MAX {
        i64::MAX as int
    } else if now - since < i64::MIN {
        i64::MIN as int
    } else {
        now - since
    }
}

/// The seconds elapsed from `since` to `now`, saturating instead of
/// overflowing at the ends of the `i64` range.
pub fn elapsed_since(now: i64, since: i64) -> (e: i64)
    ensures
        e == elapsed_spec(now, since),
{
    match now.checked_sub(since) {
        Some(d) => d,
        None => {
            if since > 0 {
                i64::MIN
            } else {
                i64::MAX
            }
        },
    }
}

} // verus!
