//! Block time arithmetic, done by `cosmwasm_std::Timestamp`.

use vstd::prelude::*;

verus! {

/// The time `seconds` after `nanos` (both in nanoseconds since the epoch),
/// computed by `cosmwasm_std::Timestamp::plus_seconds`. That function
/// multiplies the seconds by 10^9 and adds them with a checked addition that
/// panics on overflow; inputs that overflow are left out here.
#[verifier::external_body]
pub(crate) fn plus_seconds(nanos: u64, seconds: u64) -> (r: u64)
    requires
        seconds * 1_000_000_000 <= u64::MAX,
        nanos + seconds * 1_000_000_000 <= u64::MAX,
    ensures
        r == nanos + seconds * 1_000_000_000,
{
    cosmwasm_std::Timestamp::from_nanos(nanos).plus_seconds(seconds).nanos()
}

} // verus!
