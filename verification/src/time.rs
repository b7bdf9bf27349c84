//! Wall-clock durations as whole nanoseconds.

use vstd::prelude::*;
use std::time::Duration;

verus! {

/// The length of a duration in nanoseconds.
pub uninterp spec fn duration_nanos(d: Duration) -> nat;

/// `Duration::as_nanos`: the total number of nanoseconds that the duration
/// spans. The contract names that number; nothing else is claimed of it.
#[verifier::external_body]
pub(crate) fn as_nanos(d: Duration) -> (nanos: u128)
    ensures
        nanos == duration_nanos(d),
{
    d.as_nanos()
}

} // verus!
