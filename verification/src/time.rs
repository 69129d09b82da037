//! Clock readings and lengths of time, in whole milliseconds.

use vstd::prelude::*;

verus! {

pub const MILLIS_PER_SECOND: i64 = 1000;

pub const SECONDS_PER_MINUTE: i64 = 60;

/// A reading of the clock, as whole milliseconds since the Unix epoch.
///
/// Readings are only ever compared with one another, so those of any clock
/// will do as long as all come from the same one. Nothing here assumes that
/// a later reading is the larger: a wall clock may be set back, and every
/// comparison is defined for that case too.
#[derive(Clone, Copy, Debug, PartialEq, Eq, Structural)]
pub struct Timestamp {
    pub millis: i64,
}

/// A signed length of time in whole milliseconds.
#[derive(Clone, Copy, Debug, PartialEq, Eq, Structural)]
pub struct Span {
    pub millis: i64,
}

impl View for Timestamp {
    type V = int;

    open spec fn view(&self) -> int {
        self.millis as int
    }
}

impl View for Span {
    type V = int;

    open spec fn view(&self) -> int {
        self.millis as int
    }
}

impl Timestamp {
    pub fn from_millis(millis: i64) -> (t: Timestamp)
        ensures
            t@ == millis,
    {
        Timestamp { millis }
    }

    /// Whether at least `span` lies between the reading `since` and this
    /// one.
    ///
    /// The difference is taken in the integers, so no pair of readings
    /// overflows it.
    pub fn has_elapsed(self, since: Timestamp, span: Span) -> (r: bool)
        ensures
            r == (self@ - since@ >= span@),
    {
        (self.millis as i128) - (since.millis as i128) >= (span.millis as i128)
    }
}

impl Span {
    pub fn from_millis(millis: i64) -> (s: Span)
        ensures
            s@ == millis,
    {
        Span { millis }
    }
}

} // verus!
