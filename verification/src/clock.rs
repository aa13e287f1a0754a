//! Readings of the machine's monotonic clock.
use std::time::Instant;

use vstd::prelude::*;

verus! {

/// `std::time::Instant`, carried through unread.
#[verifier::external_type_specification]
#[verifier::external_body]
pub struct ExInstant(std::time::Instant);

/// `Instant::now` of std: some reading of the clock, of which nothing is
/// claimed.
pub assume_specification[ Instant::now ]() -> Instant
;

/// `Instant::elapsed` of std in nanoseconds. The number depends on the clock,
/// so nothing is claimed of it.
#[verifier::external_body]
pub(crate) fn elapsed_nanos(since: &Instant) -> u64 {
    since.elapsed().as_nanos() as u64
}

/// The whole seconds in a number of nanoseconds.
pub fn whole_seconds(nanos: u64) -> (r: u64)
    ensures
        r == nanos / 1_000_000_000,
{
    nanos / 1_000_000_000
}

} // verus!
