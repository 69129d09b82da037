//! The timer as a whole: detector, state machine and configured periods,
//! moved on one tick at a time.

use crate::activity::{menu_keys, ActivityDetector, Key, MenuKeys, PointerSample};
use crate::clock::wall_clock_now;
use crate::state::{ProgramState, TransitionEvent};
use crate::thresholds::Thresholds;
use crate::time::{Span, Timestamp};
use vstd::prelude::*;

verus! {

/// The break timer: the state machine, the activity detector and the
/// configured periods, carried from one tick to the next.
#[derive(Clone, Copy, Debug, PartialEq, Eq, Structural)]
pub struct BreakTimeApp {
    pub program_state: ProgramState,
    pub thresholds: Thresholds,
    pub detector: ActivityDetector,
}

/// What one tick found, for the caller to act on.
#[derive(Clone, Copy, Debug, PartialEq, Eq, Structural)]
pub struct TickReport {
    /// The reading of the clock that the tick went by.
    pub now: Timestamp,
    /// Whether the user counted as active at this tick.
    pub user_active: bool,
    /// The period that ended at this tick, if one did.
    pub event: Option<TransitionEvent>,
    /// Which keys of the options-menu combination were held down.
    pub menu_keys: MenuKeys,
}

impl BreakTimeApp {
    /// Whether the user counts as active at a tick at `now` with these
    /// samples: by the detector as it is after taking them in, within the
    /// recency window of the configured break length.
    pub open spec fn user_active_at(self, now: Timestamp, pointer: PointerSample, keys: Seq<Key>) -> bool {
        self.detector.observed(pointer, keys, now).active_at(now, self.thresholds.activity_window())
    }

    /// The timer after a tick at `now` with these samples.
    pub open spec fn after_tick(self, now: Timestamp, pointer: PointerSample, keys: Seq<Key>) -> BreakTimeApp {
        BreakTimeApp {
            program_state: self.program_state.next(
                now,
                self.user_active_at(now, pointer, keys),
                self.thresholds,
            ),
            thresholds: self.thresholds,
            detector: self.detector.observed(pointer, keys, now),
        }
    }

    /// The report of a tick at `now` with these samples.
    pub open spec fn report_of_tick(self, now: Timestamp, pointer: PointerSample, keys: Seq<Key>) -> TickReport {
        TickReport {
            now,
            user_active: self.user_active_at(now, pointer, keys),
            event: self.program_state.event(now, self.thresholds),
            menu_keys: MenuKeys {
                slash: keys.contains(Key::Slash),
                back_slash: keys.contains(Key::BackSlash),
            },
        }
    }

    /// A timer in the state `program_state` whose detector has seen nothing
    /// yet.
    pub fn new(thresholds: Thresholds, program_state: ProgramState) -> (app: BreakTimeApp)
        ensures
            app.thresholds == thresholds,
            app.program_state == program_state,
            app.detector == (ActivityDetector {
                previous_pointer: None,
                moved_at: None,
                key_pressed_at: None,
            }),
    {
        BreakTimeApp { program_state, thresholds, detector: ActivityDetector::new() }
    }

    /// Sets the two periods, each raised to the shortest period where it is
    /// zero or negative. State and detector stay as they are.
    pub fn configure(&mut self, break_gap: Span, break_length: Span)
        ensures
            final(self).thresholds.wf(),
            final(self).thresholds.break_gap() == crate::thresholds::clamped_period(break_gap),
            final(self).thresholds.break_length() == crate::thresholds::clamped_period(break_length),
            final(self).program_state == old(self).program_state,
            final(self).detector == old(self).detector,
    {
        self.thresholds = Thresholds::new(break_gap, break_length);
    }

    /// One tick at the reading `now`: the detector takes in the samples, and
    /// the state machine moves on by what the detector says.
    pub fn tick(&mut self, now: Timestamp, pointer: PointerSample, keys: &Vec<Key>) -> (report: TickReport)
        ensures
            *final(self) == old(self).after_tick(now, pointer, keys@),
            report == old(self).report_of_tick(now, pointer, keys@),
    {
        let window = self.thresholds.activity_window();
        let user_active = self.detector.observe(pointer, keys, now, window);
        let (next, event) = self.program_state.transition(now, user_active, &self.thresholds);
        self.program_state = next;
        TickReport { now, user_active, event, menu_keys: menu_keys(keys) }
    }

    /// One tick at the reading that the wall clock gives now. The report
    /// holds that reading; whatever it is, timer and report are those of
    /// `tick` at it.
    pub fn update(&mut self, pointer: PointerSample, keys: &Vec<Key>) -> (report: TickReport)
        ensures
            *final(self) == old(self).after_tick(report.now, pointer, keys@),
            report == old(self).report_of_tick(report.now, pointer, keys@),
    {
        let now = wall_clock_now();
        self.tick(now, pointer, keys)
    }
}

impl Default for BreakTimeApp {
    /// The default periods, a work period that begins with a reading of the
    /// wall clock taken now, and a detector that has seen nothing yet.
    fn default() -> (app: BreakTimeApp)
        ensures
            app.thresholds.wf(),
            app.thresholds.break_gap()@ == crate::thresholds::DEFAULT_BREAK_GAP_MILLIS,
            app.thresholds.break_length()@ == crate::thresholds::DEFAULT_BREAK_LENGTH_MILLIS,
            app.program_state is Working,
            app.program_state->Working_0 is Some,
            app.detector == (ActivityDetector {
                previous_pointer: None,
                moved_at: None,
                key_pressed_at: None,
            }),
    {
        BreakTimeApp {
            program_state: ProgramState::Working(Some(wall_clock_now())),
            thresholds: Thresholds::default(),
            detector: ActivityDetector::new(),
        }
    }
}

} // verus!
