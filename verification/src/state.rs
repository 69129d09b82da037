//! The break state machine: work periods and breaks, and the tick that
//! leads from one to the other.

use crate::clock::wall_clock_now;
use crate::thresholds::Thresholds;
use crate::time::Timestamp;
use vstd::prelude::*;

verus! {

/// What the program is doing, with the reading at which that began.
///
/// `TakingBreak(t)`: a break is on since `t`, and the overlay is shown.
/// `Working(Some(t))`: the work period runs since `t`.
/// `Working(None)`: it is work time, but the user has not been seen active
/// yet, so the work period has not begun to count.
#[derive(Clone, Copy, Debug, PartialEq, Eq, Structural)]
pub enum ProgramState {
    TakingBreak(Timestamp),
    Working(Option<Timestamp>),
}

/// What a transition tells the caller, who may notify the user of it.
#[derive(Clone, Copy, Debug, PartialEq, Eq, Structural)]
pub enum TransitionEvent {
    /// A work period ran its full length: the break begins.
    BreakStarted,
    /// A break ran its full length: it is work time again.
    BreakEnded,
}

impl ProgramState {
    /// Whether the period that this state is in has run its full length at
    /// `now`: the break its `break_length`, the work period its `break_gap`.
    /// A work period that has not begun never has.
    pub open spec fn period_over(self, now: Timestamp, th: Thresholds) -> bool {
        match self {
            ProgramState::TakingBreak(started_at) => now@ - started_at@ >= th.break_length()@,
            ProgramState::Working(Some(started_at)) => now@ - started_at@ >= th.break_gap()@,
            ProgramState::Working(None) => false,
        }
    }

    /// The state after a tick at `now`.
    ///
    /// A period that is over ends: the break gives way to a work period that
    /// waits for activity, the work period to a break that begins at `now`.
    /// Otherwise activity restarts a break at `now` and begins a work period
    /// that was waiting for it; a running work period takes no notice of it.
    /// The end of a period goes before activity.
    pub open spec fn next(self, now: Timestamp, user_active: bool, th: Thresholds) -> ProgramState {
        match self {
            ProgramState::TakingBreak(_) => if self.period_over(now, th) {
                ProgramState::Working(None)
            } else if user_active {
                ProgramState::TakingBreak(now)
            } else {
                self
            },
            ProgramState::Working(None) => if user_active {
                ProgramState::Working(Some(now))
            } else {
                self
            },
            ProgramState::Working(Some(_)) => if self.period_over(now, th) {
                ProgramState::TakingBreak(now)
            } else {
                self
            },
        }
    }

    /// The event of a tick at `now`: one exactly where a period ends.
    pub open spec fn event(self, now: Timestamp, th: Thresholds) -> Option<TransitionEvent> {
        if !self.period_over(now, th) {
            None
        } else if self is TakingBreak {
            Some(TransitionEvent::BreakEnded)
        } else {
            Some(TransitionEvent::BreakStarted)
        }
    }

    /// One tick of the state machine: the state that follows `self` at `now`,
    /// and the event to act on, if the tick ended a period.
    pub fn transition(self, now: Timestamp, user_active: bool, thresholds: &Thresholds) -> (r: (
        ProgramState,
        Option<TransitionEvent>,
    ))
        ensures
            r.0 == self.next(now, user_active, *thresholds),
            r.1 == self.event(now, *thresholds),
    {
        match self {
            ProgramState::TakingBreak(started_at) => {
                if now.has_elapsed(started_at, thresholds.break_length()) {
                    (ProgramState::Working(None), Some(TransitionEvent::BreakEnded))
                } else if user_active {
                    (ProgramState::TakingBreak(now), None)
                } else {
                    (self, None)
                }
            },
            ProgramState::Working(None) => {
                if user_active {
                    (ProgramState::Working(Some(now)), None)
                } else {
                    (self, None)
                }
            },
            ProgramState::Working(Some(started_at)) => {
                if now.has_elapsed(started_at, thresholds.break_gap()) {
                    (ProgramState::TakingBreak(now), Some(TransitionEvent::BreakStarted))
                } else {
                    (self, None)
                }
            },
        }
    }

    /// Whether a break is on.
    pub fn on_break(&self) -> (r: bool)
        ensures
            r == (*self is TakingBreak),
    {
        match self {
            ProgramState::TakingBreak(_) => true,
            ProgramState::Working(_) => false,
        }
    }
}

impl Default for ProgramState {
    /// A work period that begins with a reading of the wall clock taken now.
    fn default() -> (s: ProgramState)
        ensures
            s is Working,
            s->Working_0 is Some,
    {
        ProgramState::Working(Some(wall_clock_now()))
    }
}

/// A break that began its full length ago ends at this tick, whether or
/// not the user is active: the state waits for activity, and the event is
/// `BreakEnded`.
pub proof fn lemma_break_ends_at_its_length(
    started_at: Timestamp,
    now: Timestamp,
    user_active: bool,
    th: Thresholds,
)
    requires
        now@ == started_at@ + th.break_length()@,
    ensures
        ProgramState::TakingBreak(started_at).next(now, user_active, th) == ProgramState::Working(None),
        ProgramState::TakingBreak(started_at).event(now, th) == Some(TransitionEvent::BreakEnded),
{
}

/// Activity half way through a break restarts it: the break now counts from
/// this tick, and there is no event.
pub proof fn lemma_activity_half_way_restarts_break(started_at: Timestamp, now: Timestamp, th: Thresholds)
    requires
        th.wf(),
        now@ == started_at@ + th.break_length()@ / 2,
    ensures
        ProgramState::TakingBreak(started_at).next(now, true, th) == ProgramState::TakingBreak(now),
        ProgramState::TakingBreak(started_at).event(now, th) is None,
{
}

/// A work period that began a full break gap ago gives way to a break that
/// begins at this tick, with the event `BreakStarted`.
pub proof fn lemma_break_starts_at_the_gap(
    started_at: Timestamp,
    now: Timestamp,
    user_active: bool,
    th: Thresholds,
)
    requires
        now@ == started_at@ + th.break_gap()@,
    ensures
        ProgramState::Working(Some(started_at)).next(now, user_active, th)
            == ProgramState::TakingBreak(now),
        ProgramState::Working(Some(started_at)).event(now, th) == Some(TransitionEvent::BreakStarted),
{
}

/// A work period that waits for activity begins at the tick that sees it,
/// without an event.
pub proof fn lemma_activity_begins_work(now: Timestamp, th: Thresholds)
    ensures
        ProgramState::Working(None).next(now, true, th) == ProgramState::Working(Some(now)),
        ProgramState::Working(None).event(now, th) is None,
{
}

/// A period that is over at one reading is over at every later one: a tick
/// that comes late still ends the period, so no end is ever missed.
pub proof fn lemma_period_over_stays_over(
    state: ProgramState,
    now: Timestamp,
    later: Timestamp,
    th: Thresholds,
)
    requires
        state.period_over(now, th),
        now@ <= later@,
    ensures
        state.period_over(later, th),
{
}

/// What every tick keeps to. A break that a tick begins or restarts is
/// stamped with the reading of that tick. The state comes to wait for
/// activity only from a break that is over. There is an event exactly
/// where the tick leads from work to a break or from a break to work.
pub proof fn lemma_tick_invariants(state: ProgramState, now: Timestamp, user_active: bool, th: Thresholds)
    ensures
        ({
            let next = state.next(now, user_active, th);
            &&& next is TakingBreak && next != state ==> next == ProgramState::TakingBreak(now)
            &&& next == ProgramState::Working(None) && state != next ==> state is TakingBreak
                && state.period_over(now, th)
            &&& state.event(now, th) is Some == ((state is TakingBreak) != (next is TakingBreak))
        }),
{
}

} // verus!
