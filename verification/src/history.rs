//! Runs of ticks, and what holds of every run.

use crate::state::{ProgramState, TransitionEvent};
use crate::thresholds::Thresholds;
use crate::time::Timestamp;
use vstd::prelude::*;

verus! {

/// What the state machine is given at one tick.
#[derive(Clone, Copy, Debug, PartialEq, Eq, Structural)]
pub struct Tick {
    pub now: Timestamp,
    pub user_active: bool,
}

/// The state that `start` has become when the ticks have been fed to it in
/// order.
pub open spec fn state_after(start: ProgramState, ticks: Seq<Tick>, th: Thresholds) -> ProgramState
    decreases ticks.len(),
{
    if ticks.len() == 0 {
        start
    } else {
        state_after(start, ticks.drop_last(), th).next(ticks.last().now, ticks.last().user_active, th)
    }
}

/// The events that feeding the ticks to `start` gives, in order.
pub open spec fn events_of(start: ProgramState, ticks: Seq<Tick>, th: Thresholds) -> Seq<TransitionEvent>
    decreases ticks.len(),
{
    if ticks.len() == 0 {
        Seq::empty()
    } else {
        let earlier = events_of(start, ticks.drop_last(), th);
        match state_after(start, ticks.drop_last(), th).event(ticks.last().now, th) {
            Some(event) => earlier.push(event),
            None => earlier,
        }
    }
}

/// How many of the events are `BreakStarted`.
pub open spec fn breaks_started(events: Seq<TransitionEvent>) -> nat
    decreases events.len(),
{
    if events.len() == 0 {
        0
    } else if events.last() == TransitionEvent::BreakStarted {
        breaks_started(events.drop_last()) + 1
    } else {
        breaks_started(events.drop_last())
    }
}

/// The event that stands at place `index` among the events of a machine
/// that began in `start`: events take turns, and the first is the end of
/// the period that `start` is in.
pub open spec fn event_in_turn(start: ProgramState, index: int) -> TransitionEvent {
    if (start is TakingBreak) == (index % 2 == 0) {
        TransitionEvent::BreakEnded
    } else {
        TransitionEvent::BreakStarted
    }
}

/// Feeds the ticks to `start` in order and gives the state reached and the
/// events on the way.
pub fn replay(start: ProgramState, ticks: &Vec<Tick>, thresholds: &Thresholds) -> (r: (
    ProgramState,
    Vec<TransitionEvent>,
))
    ensures
        r.0 == state_after(start, ticks@, *thresholds),
        r.1@ == events_of(start, ticks@, *thresholds),
{
    let mut state = start;
    let mut events: Vec<TransitionEvent> = Vec::new();
    let mut i: usize = 0;
    while i < ticks.len()
        invariant
            i <= ticks.len(),
            state == state_after(start, ticks@.take(i as int), *thresholds),
            events@ == events_of(start, ticks@.take(i as int), *thresholds),
        decreases ticks.len() - i,
    {
        let tick = ticks[i];
        let (next, event) = state.transition(tick.now, tick.user_active, thresholds);
        proof {
            let fed = ticks@.take(i + 1);
            assert(fed.drop_last() == ticks@.take(i as int));
            assert(fed.last() == tick);
        }
        state = next;
        match event {
            Some(e) => {
                events.push(e);
            },
            None => {},
        }
        i += 1;
    }
    proof {
        assert(ticks@.take(ticks.len() as int) == ticks@);
    }
    (state, events)
}

/// While no tick sees activity and none comes as late as the threshold of
/// the period that `start` is in, the state stays exactly as it is and no
/// event is given, however many ticks there are.
pub proof fn lemma_idle_ticks_short_of_threshold_change_nothing(
    start: ProgramState,
    ticks: Seq<Tick>,
    th: Thresholds,
)
    requires
        forall|i: int|
            0 <= i < ticks.len() ==> !(#[trigger] ticks[i]).user_active && !start.period_over(
                ticks[i].now,
                th,
            ),
    ensures
        state_after(start, ticks, th) == start,
        events_of(start, ticks, th) == Seq::<TransitionEvent>::empty(),
    decreases ticks.len(),
{
    if ticks.len() > 0 {
        let earlier = ticks.drop_last();
        assert forall|i: int| 0 <= i < earlier.len() implies !(#[trigger] earlier[i]).user_active
            && !start.period_over(earlier[i].now, th) by {
            assert(earlier[i] == ticks[i]);
        }
        lemma_idle_ticks_short_of_threshold_change_nothing(start, earlier, th);
        assert(ticks.last() == ticks[ticks.len() - 1]);
    }
}

/// Events take turns, whatever the ticks: from a work state the first is
/// `BreakStarted`, from a break `BreakEnded`, and each one after is the
/// other of the one before. So no second break starts before the first has
/// ended. The state reached is a break exactly where the last event began
/// one, or where there was no event and `start` was one.
pub proof fn lemma_events_take_turns(start: ProgramState, ticks: Seq<Tick>, th: Thresholds)
    ensures
        forall|k: int|
            0 <= k < events_of(start, ticks, th).len() ==> #[trigger] events_of(start, ticks, th)[k]
                == event_in_turn(start, k),
        (state_after(start, ticks, th) is TakingBreak) == ((start is TakingBreak) == (events_of(
            start,
            ticks,
            th,
        ).len() % 2 == 0)),
    decreases ticks.len(),
{
    if ticks.len() > 0 {
        lemma_events_take_turns(start, ticks.drop_last(), th);
    }
}

/// Whether one of the ticks comes as late as the break gap after a work
/// period that began at `started_at`.
pub open spec fn gap_reached(started_at: Timestamp, ticks: Seq<Tick>, th: Thresholds) -> bool {
    exists|i: int|
        0 <= i < ticks.len() && ProgramState::Working(Some(started_at)).period_over(
            (#[trigger] ticks[i]).now,
            th,
        )
}

/// From a running work period, ticks that see no activity start a break
/// exactly once if one of them comes as late as the break gap after the
/// period began, and never otherwise. All the events there can be are that
/// `BreakStarted` and then one `BreakEnded`; before the gap is reached the
/// state is the one it began in.
pub proof fn lemma_idle_ticks_start_one_break(started_at: Timestamp, ticks: Seq<Tick>, th: Thresholds)
    requires
        forall|i: int| 0 <= i < ticks.len() ==> !(#[trigger] ticks[i]).user_active,
    ensures
        breaks_started(events_of(ProgramState::Working(Some(started_at)), ticks, th)) == (if gap_reached(
            started_at,
            ticks,
            th,
        ) {
            1nat
        } else {
            0nat
        }),
        gap_reached(started_at, ticks, th) ==> {
            ||| {
                &&& events_of(ProgramState::Working(Some(started_at)), ticks, th) == seq![
                    TransitionEvent::BreakStarted,
                ]
                &&& state_after(ProgramState::Working(Some(started_at)), ticks, th) is TakingBreak
            }
            ||| {
                &&& events_of(ProgramState::Working(Some(started_at)), ticks, th) == seq![
                    TransitionEvent::BreakStarted,
                    TransitionEvent::BreakEnded,
                ]
                &&& state_after(ProgramState::Working(Some(started_at)), ticks, th)
                    == ProgramState::Working(None)
            }
        },
        !gap_reached(started_at, ticks, th) ==> {
            &&& events_of(ProgramState::Working(Some(started_at)), ticks, th) == Seq::<
                TransitionEvent,
            >::empty()
            &&& state_after(ProgramState::Working(Some(started_at)), ticks, th)
                == ProgramState::Working(Some(started_at))
        },
    decreases ticks.len(),
{
    let start = ProgramState::Working(Some(started_at));
    let one = seq![TransitionEvent::BreakStarted];
    let two = seq![TransitionEvent::BreakStarted, TransitionEvent::BreakEnded];
    assert(breaks_started(one) == 1 && breaks_started(two) == 1) by {
        assert(two.drop_last() =~= one);
        assert(one.drop_last() =~= Seq::<TransitionEvent>::empty());
        reveal_with_fuel(breaks_started, 3);
    }
    if ticks.len() > 0 {
        let earlier = ticks.drop_last();
        let last = ticks.last();
        assert(last == ticks[ticks.len() - 1]);
        assert forall|i: int| 0 <= i < earlier.len() implies !(#[trigger] earlier[i]).user_active by {
            assert(earlier[i] == ticks[i]);
        }
        lemma_idle_ticks_start_one_break(started_at, earlier, th);
        assert(gap_reached(started_at, ticks, th) == (gap_reached(started_at, earlier, th)
            || start.period_over(last.now, th))) by {
            if gap_reached(started_at, earlier, th) {
                let i = choose|i: int|
                    0 <= i < earlier.len() && start.period_over((#[trigger] earlier[i]).now, th);
                assert(ticks[i] == earlier[i]);
            }
            if gap_reached(started_at, ticks, th) && !start.period_over(last.now, th) {
                let i = choose|i: int|
                    0 <= i < ticks.len() && start.period_over((#[trigger] ticks[i]).now, th);
                assert(earlier[i] == ticks[i]);
            }
        }
        let before = events_of(start, earlier, th);
        if before =~= one && state_after(start, earlier, th).period_over(last.now, th) {
            assert(before.push(TransitionEvent::BreakEnded) =~= two);
        }
        if before =~= Seq::<TransitionEvent>::empty() && start.period_over(last.now, th) {
            assert(before.push(TransitionEvent::BreakStarted) =~= one);
        }
    }
}

} // verus!
