//! Looking again and again until something has happened or the time is up.

use vstd::prelude::*;

verus! {

/// Whether more time has gone by than there was.
pub open spec fn time_is_up(elapsed_nanos: u128, timeout_secs: u64) -> bool {
    elapsed_nanos > timeout_secs * 1_000_000_000
}

/// Whether more time has gone by than there was.
pub fn timed_out(elapsed_nanos: u128, timeout_secs: u64) -> (up: bool)
    ensures
        up == time_is_up(elapsed_nanos, timeout_secs),
{
    elapsed_nanos > (timeout_secs as u128) * 1_000_000_000
}

} // verus!
