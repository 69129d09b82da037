use break_time::history::{replay, Tick};
use break_time::state::{ProgramState, TransitionEvent};
use break_time::thresholds::Thresholds;
use break_time::time::{Span, Timestamp};

const GAP: i64 = 3_300_000;
const LENGTH: i64 = 300_000;

fn thresholds() -> Thresholds {
    Thresholds::new(Span::from_millis(GAP), Span::from_millis(LENGTH))
}

fn at(millis: i64) -> Timestamp {
    Timestamp::from_millis(millis)
}

fn idle(millis: i64) -> Tick {
    Tick { now: at(millis), user_active: false }
}

fn busy(millis: i64) -> Tick {
    Tick { now: at(millis), user_active: true }
}

#[test]
fn break_ends_when_its_length_has_passed() {
    let t0: i64 = 1_700_000_000_000;
    let state = ProgramState::TakingBreak(at(t0));
    let (next, event) = state.transition(at(t0 + LENGTH), false, &thresholds());
    assert_eq!(next, ProgramState::Working(None));
    assert_eq!(event, Some(TransitionEvent::BreakEnded));
}

#[test]
fn break_goes_on_one_millisecond_before_its_length() {
    let t0: i64 = 1_700_000_000_000;
    let state = ProgramState::TakingBreak(at(t0));
    let (next, event) = state.transition(at(t0 + LENGTH - 1), false, &thresholds());
    assert_eq!(next, state);
    assert_eq!(event, None);
}

#[test]
fn activity_half_way_restarts_the_break() {
    let t0: i64 = 1_700_000_000_000;
    let now = at(t0 + LENGTH / 2);
    let state = ProgramState::TakingBreak(at(t0));
    let (next, event) = state.transition(now, true, &thresholds());
    assert_eq!(next, ProgramState::TakingBreak(now));
    assert_eq!(event, None);
}

#[test]
fn end_of_break_goes_before_activity() {
    let t0: i64 = 1_700_000_000_000;
    let state = ProgramState::TakingBreak(at(t0));
    let (next, event) = state.transition(at(t0 + LENGTH + 40), true, &thresholds());
    assert_eq!(next, ProgramState::Working(None));
    assert_eq!(event, Some(TransitionEvent::BreakEnded));
}

#[test]
fn break_starts_when_the_gap_has_passed() {
    let t0: i64 = 1_700_000_000_000;
    let now = at(t0 + GAP);
    let state = ProgramState::Working(Some(at(t0)));
    let (next, event) = state.transition(now, false, &thresholds());
    assert_eq!(next, ProgramState::TakingBreak(now));
    assert_eq!(event, Some(TransitionEvent::BreakStarted));
    let (next, event) = state.transition(now, true, &thresholds());
    assert_eq!(next, ProgramState::TakingBreak(now));
    assert_eq!(event, Some(TransitionEvent::BreakStarted));
}

#[test]
fn running_work_period_takes_no_notice_of_activity() {
    let t0: i64 = 1_700_000_000_000;
    let state = ProgramState::Working(Some(at(t0)));
    let (next, event) = state.transition(at(t0 + GAP - 1), true, &thresholds());
    assert_eq!(next, state);
    assert_eq!(event, None);
}

#[test]
fn activity_begins_the_work_period() {
    let now = at(1_700_000_123_456);
    let (next, event) = ProgramState::Working(None).transition(now, true, &thresholds());
    assert_eq!(next, ProgramState::Working(Some(now)));
    assert_eq!(event, None);
}

#[test]
fn waiting_for_activity_goes_on_without_it() {
    let (next, event) =
        ProgramState::Working(None).transition(at(i64::MAX), false, &thresholds());
    assert_eq!(next, ProgramState::Working(None));
    assert_eq!(event, None);
}

#[test]
fn idle_ticks_short_of_the_threshold_change_nothing() {
    let t0: i64 = 5_000;
    let th = thresholds();
    let states = [
        ProgramState::TakingBreak(at(t0)),
        ProgramState::Working(Some(at(t0))),
        ProgramState::Working(None),
    ];
    for start in states {
        let mut state = start;
        let mut now: i64 = t0;
        while now < t0 + LENGTH {
            let (next, event) = state.transition(at(now), false, &th);
            assert_eq!(next, start);
            assert_eq!(event, None);
            state = next;
            now += 9_973;
        }
    }
}

#[test]
fn clock_set_back_ends_no_period() {
    let th = thresholds();
    let state = ProgramState::TakingBreak(at(1_000_000));
    assert_eq!(state.transition(at(-5), false, &th), (state, None));
    let state = ProgramState::Working(Some(at(i64::MAX)));
    assert_eq!(state.transition(at(i64::MIN), false, &th), (state, None));
}

#[test]
fn farthest_readings_do_not_overflow() {
    let th = thresholds();
    let state = ProgramState::Working(Some(at(i64::MIN)));
    let (next, event) = state.transition(at(i64::MAX), false, &th);
    assert_eq!(next, ProgramState::TakingBreak(at(i64::MAX)));
    assert_eq!(event, Some(TransitionEvent::BreakStarted));
}

#[test]
fn idle_ticks_past_the_gap_start_exactly_one_break() {
    let t0: i64 = 0;
    let th = thresholds();
    let mut ticks: Vec<Tick> = Vec::new();
    let mut now: i64 = t0;
    while now < t0 + GAP + LENGTH / 2 {
        ticks.push(idle(now));
        now += 1_000;
    }
    let (state, events) = replay(ProgramState::Working(Some(at(t0))), &ticks, &th);
    assert_eq!(events, vec![TransitionEvent::BreakStarted]);
    assert_eq!(state, ProgramState::TakingBreak(at(t0 + GAP)));
}

#[test]
fn idle_ticks_go_through_one_break_and_then_wait() {
    let t0: i64 = 0;
    let th = thresholds();
    let mut ticks: Vec<Tick> = Vec::new();
    let mut now: i64 = t0;
    while now < t0 + 5 * GAP {
        ticks.push(idle(now));
        now += 1_000;
    }
    let (state, events) = replay(ProgramState::Working(Some(at(t0))), &ticks, &th);
    assert_eq!(events, vec![TransitionEvent::BreakStarted, TransitionEvent::BreakEnded]);
    assert_eq!(state, ProgramState::Working(None));
}

#[test]
fn idle_ticks_short_of_the_gap_start_no_break() {
    let th = thresholds();
    let ticks = vec![idle(10), idle(GAP / 2), idle(GAP - 1)];
    let start = ProgramState::Working(Some(at(0)));
    let (state, events) = replay(start, &ticks, &th);
    assert_eq!(events, Vec::<TransitionEvent>::new());
    assert_eq!(state, start);
}

#[test]
fn events_take_turns_over_two_rounds() {
    let th = thresholds();
    let ticks = vec![
        busy(0),
        idle(GAP - 1),
        busy(GAP),
        busy(GAP + 1_000),
        idle(GAP + 1_000 + LENGTH),
        idle(GAP + 2_000 + LENGTH),
        busy(GAP + 3_000 + LENGTH),
        busy(2 * GAP + 3_000 + LENGTH),
        idle(2 * GAP + 3_000 + 2 * LENGTH),
    ];
    let (state, events) = replay(ProgramState::Working(None), &ticks, &th);
    assert_eq!(
        events,
        vec![
            TransitionEvent::BreakStarted,
            TransitionEvent::BreakEnded,
            TransitionEvent::BreakStarted,
            TransitionEvent::BreakEnded,
        ]
    );
    assert_eq!(state, ProgramState::Working(None));
}

#[test]
fn replay_of_no_ticks_gives_the_start() {
    let start = ProgramState::TakingBreak(at(77));
    let (state, events) = replay(start, &Vec::new(), &thresholds());
    assert_eq!(state, start);
    assert!(events.is_empty());
}

#[test]
fn on_break_tells_the_variant() {
    assert!(ProgramState::TakingBreak(at(1)).on_break());
    assert!(!ProgramState::Working(None).on_break());
    assert!(!ProgramState::Working(Some(at(1))).on_break());
}

#[test]
fn default_state_is_a_work_period_that_runs_from_the_present() {
    match ProgramState::default() {
        ProgramState::Working(Some(started_at)) => {
            assert!(started_at.millis > 1_600_000_000_000);
        }
        other => panic!("unexpected state {:?}", other),
    }
}

#[test]
fn thresholds_keep_positive_periods() {
    let th = Thresholds::new(Span::from_millis(GAP), Span::from_millis(LENGTH));
    assert_eq!(th.break_gap(), Span::from_millis(GAP));
    assert_eq!(th.break_length(), Span::from_millis(LENGTH));
}

#[test]
fn thresholds_raise_zero_and_negative_periods() {
    let th = Thresholds::new(Span::from_millis(0), Span::from_millis(-600_000));
    assert_eq!(th.break_gap(), Span::from_millis(1));
    assert_eq!(th.break_length(), Span::from_millis(1));
    let th = Thresholds::new(Span::from_millis(i64::MIN), Span::from_millis(1));
    assert_eq!(th.break_gap(), Span::from_millis(1));
    assert_eq!(th.break_length(), Span::from_millis(1));
}

#[test]
fn default_thresholds_are_55_and_5_minutes() {
    let th = Thresholds::default();
    assert_eq!(th.break_gap().millis, 55 * 60 * 1000);
    assert_eq!(th.break_length().millis, 5 * 60 * 1000);
}

#[test]
fn activity_window_is_a_sixtieth_of_the_break() {
    assert_eq!(thresholds().activity_window(), Span::from_millis(5_000));
    let th = Thresholds::new(Span::from_millis(GAP), Span::from_millis(6_059));
    assert_eq!(th.activity_window(), Span::from_millis(100));
    let th = Thresholds::new(Span::from_millis(GAP), Span::from_millis(59));
    assert_eq!(th.activity_window(), Span::from_millis(0));
}

#[test]
fn has_elapsed_compares_the_difference() {
    assert!(at(100).has_elapsed(at(40), Span::from_millis(60)));
    assert!(!at(100).has_elapsed(at(40), Span::from_millis(61)));
    assert!(at(40).has_elapsed(at(100), Span::from_millis(-60)));
    assert!(!at(40).has_elapsed(at(100), Span::from_millis(-59)));
    assert!(at(i64::MAX).has_elapsed(at(i64::MIN), Span::from_millis(i64::MAX)));
    assert!(!at(i64::MIN).has_elapsed(at(i64::MAX), Span::from_millis(i64::MIN)));
}
