//! The monotonic clock of the standard library, as far as the service reads
//! it.
//!
//! The declarations here are believed, not proved. They claim nothing about
//! what the clock shows: each says only that the call returns a value of its
//! type, so whatever is verified with them holds for every reading.

use std::time::{Duration, Instant};
use vstd::prelude::*;

verus! {

/// `std::time::Instant`, a reading of the monotonic clock. The type is opaque
/// here: a reading is only taken and handed back to the clock.
#[verifier::external_type_specification]
#[verifier::external_body]
pub struct ExInstant(Instant);

/// `Instant::now` reads the clock. No two readings are related by this
/// declaration, and nothing is said of the reading itself.
pub assume_specification[ Instant::now ]() -> (reading: Instant)
;

/// `Instant::saturating_duration_since` gives the time that passed between
/// the earlier reading and this one, and a zero duration where the order of
/// the two is the other way round. It is not said here how long that is.
pub assume_specification[ Instant::saturating_duration_since ](
    later: &Instant,
    earlier: Instant,
) -> (passed: Duration)
;

/// `Duration::as_nanos` gives the whole duration in nanoseconds. The number
/// is not related to the duration here, which is opaque.
pub assume_specification[ Duration::as_nanos ](duration: &Duration) -> (nanos: u128)
;

} // verus!
