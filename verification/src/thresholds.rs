//! The two configured periods and what is derived from them.

use crate::time::Span;
use vstd::prelude::*;

verus! {

/// The break length is divided by this to get the recency window: an input
/// event counts as activity for one sixtieth of a break.
pub const ACTIVITY_DIVISOR: i64 = 60;

/// The shortest period a threshold may have, in milliseconds.
pub const MINIMUM_PERIOD_MILLIS: i64 = 1;

/// Length of the default work period: 55 minutes.
pub const DEFAULT_BREAK_GAP_MILLIS: i64 = 3_300_000;

/// Length of the default break: 5 minutes.
pub const DEFAULT_BREAK_LENGTH_MILLIS: i64 = 300_000;

/// What a requested period becomes when it is taken as a threshold: itself
/// where it is positive, the shortest period otherwise.
pub open spec fn clamped_period(requested: Span) -> Span {
    if requested@ < MINIMUM_PERIOD_MILLIS {
        Span { millis: MINIMUM_PERIOD_MILLIS }
    } else {
        requested
    }
}

/// The two configured periods: how long a work period lasts before a break
/// is due (`break_gap`) and how long a break lasts (`break_length`).
///
/// Both are positive in every value of this type.
#[derive(Clone, Copy, Debug, PartialEq, Eq, Structural)]
pub struct Thresholds {
    break_gap: Span,
    break_length: Span,
}

impl Thresholds {
    #[verifier::type_invariant]
    spec fn positive(self) -> bool {
        self.break_gap@ >= MINIMUM_PERIOD_MILLIS && self.break_length@ >= MINIMUM_PERIOD_MILLIS
    }

    pub closed spec fn spec_break_gap(&self) -> Span {
        self.break_gap
    }

    pub closed spec fn spec_break_length(&self) -> Span {
        self.break_length
    }

    /// The recency window: the break length divided by `ACTIVITY_DIVISOR`,
    /// rounded down to whole milliseconds.
    pub open spec fn spec_activity_window(&self) -> Span {
        Span { millis: (self.break_length()@ / (ACTIVITY_DIVISOR as int)) as i64 }
    }

    /// Validity of a value of this type: both periods are positive. Every
    /// value that executable code can hold is valid; proofs that speak of an
    /// arbitrary value ask for it.
    pub open spec fn wf(&self) -> bool {
        self.break_gap()@ >= MINIMUM_PERIOD_MILLIS && self.break_length()@ >= MINIMUM_PERIOD_MILLIS
    }

    /// Takes the two periods, each raised to the shortest period where it is
    /// zero or negative.
    pub fn new(break_gap: Span, break_length: Span) -> (th: Thresholds)
        ensures
            th.wf(),
            th.break_gap() == clamped_period(break_gap),
            th.break_length() == clamped_period(break_length),
    {
        let gap = if break_gap.millis < MINIMUM_PERIOD_MILLIS {
            Span { millis: MINIMUM_PERIOD_MILLIS }
        } else {
            break_gap
        };
        let length = if break_length.millis < MINIMUM_PERIOD_MILLIS {
            Span { millis: MINIMUM_PERIOD_MILLIS }
        } else {
            break_length
        };
        Thresholds { break_gap: gap, break_length: length }
    }

    #[verifier::when_used_as_spec(spec_break_gap)]
    pub fn break_gap(&self) -> (s: Span)
        ensures
            s == self.break_gap(),
            self.wf(),
    {
        proof {
            use_type_invariant(self);
        }
        self.break_gap
    }

    #[verifier::when_used_as_spec(spec_break_length)]
    pub fn break_length(&self) -> (s: Span)
        ensures
            s == self.break_length(),
            self.wf(),
    {
        proof {
            use_type_invariant(self);
        }
        self.break_length
    }

    #[verifier::when_used_as_spec(spec_activity_window)]
    pub fn activity_window(&self) -> (s: Span)
        ensures
            s == self.activity_window(),
            self.wf(),
    {
        proof {
            use_type_invariant(self);
        }
        Span { millis: self.break_length.millis / ACTIVITY_DIVISOR }
    }
}

impl Default for Thresholds {
    /// A work period of 55 minutes and a break of 5 minutes.
    fn default() -> (th: Thresholds)
        ensures
            th.wf(),
            th.break_gap()@ == DEFAULT_BREAK_GAP_MILLIS,
            th.break_length()@ == DEFAULT_BREAK_LENGTH_MILLIS,
    {
        Thresholds {
            break_gap: Span { millis: DEFAULT_BREAK_GAP_MILLIS },
            break_length: Span { millis: DEFAULT_BREAK_LENGTH_MILLIS },
        }
    }
}

} // verus!
