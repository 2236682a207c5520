//! The clock that the loops are timed by: tokio's monotonic `Instant`.
//!
//! Nothing in this file is proved. The loops are verified for every reading
//! that the clock may give, so nothing is claimed of the readings either.

use vstd::prelude::*;
use tokio::time::Instant;

verus! {

#[verifier::external_type_specification]
#[verifier::external_body]
pub struct ExInstant(tokio::time::Instant);

/// Starts a clock: `tokio::time::Instant::now()`, the moment from which
/// `clock_nanos` counts. No claim is made of the instant returned.
#[verifier::external_body]
pub(crate) fn clock_start() -> (zero: Instant) {
    Instant::now()
}

/// Reads a clock: `tokio::time::Instant::elapsed()` on the instant at which
/// it was started, as whole nanoseconds (`Duration::as_nanos`). No claim is
/// made of the reading, not even that it is no less than the one before.
#[verifier::external_body]
pub(crate) fn clock_nanos(zero: &Instant) -> (nanos: u128) {
    zero.elapsed().as_nanos()
}

} // verus!
