//! The wall clock.

use crate::time::Timestamp;
use vstd::prelude::*;

verus! {

/// Reads the wall clock.
///
/// Trusted: the body calls `chrono::Local::now` and keeps what
/// `DateTime::timestamp_millis` gives for the reading, the count of
/// milliseconds since the Unix epoch. Nothing is claimed of the value. Two
/// readings may be equal, and where the system clock was set back the later
/// one is the smaller. chrono panics in `now` only where the system clock
/// stands before 1970.
#[verifier::external_body]
pub(crate) fn wall_clock_now() -> Timestamp {
    Timestamp { millis: chrono::Local::now().timestamp_millis() }
}

} // verus!
