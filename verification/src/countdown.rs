//! The countdown that the overlay shows during a break.

use crate::state::ProgramState;
use crate::thresholds::Thresholds;
use crate::time::{Timestamp, MILLIS_PER_SECOND, SECONDS_PER_MINUTE};
use vstd::prelude::*;

verus! {

/// The time left of a break, as the overlay shows it: whole minutes, and the
/// whole seconds beyond them.
///
/// Both are rounded toward zero. Time left that has run out into the
/// negative shows as negative numbers; right after a tick a break always
/// has time left.
#[derive(Clone, Copy, Debug, PartialEq, Eq, Structural)]
pub struct Countdown {
    pub minutes: i64,
    pub seconds: i64,
}

/// The quotient of `n` by a positive `d`, rounded toward zero.
pub open spec fn quotient_toward_zero(n: int, d: int) -> int {
    if n >= 0 {
        n / d
    } else {
        -((-n) / d)
    }
}

/// The whole seconds in `millis` milliseconds.
pub open spec fn whole_seconds(millis: int) -> int {
    quotient_toward_zero(millis, MILLIS_PER_SECOND as int)
}

/// The whole minutes in `millis` milliseconds.
pub open spec fn whole_minutes(millis: int) -> int {
    quotient_toward_zero(whole_seconds(millis), SECONDS_PER_MINUTE as int)
}

/// The character of the decimal digit `d`.
pub open spec fn digit_char(d: int) -> char {
    if d == 0 {
        '0'
    } else if d == 1 {
        '1'
    } else if d == 2 {
        '2'
    } else if d == 3 {
        '3'
    } else if d == 4 {
        '4'
    } else if d == 5 {
        '5'
    } else if d == 6 {
        '6'
    } else if d == 7 {
        '7'
    } else if d == 8 {
        '8'
    } else {
        '9'
    }
}

/// The decimal digits of `n`, most significant first, with no leading zero
/// but for zero itself.
pub open spec fn decimal(n: nat) -> Seq<char>
    decreases n,
{
    if n < 10 {
        seq![digit_char(n as int)]
    } else {
        decimal(n / 10).push(digit_char((n % 10) as int))
    }
}

/// The decimal digits of `n`, after a minus sign where it is negative.
pub open spec fn signed_decimal(n: int) -> Seq<char> {
    if n < 0 {
        seq!['-'] + decimal((-n) as nat)
    } else {
        decimal(n as nat)
    }
}

/// `minutes`, a colon, and `seconds` in at least two characters: a single
/// digit gets a zero before it.
pub open spec fn countdown_text(minutes: int, seconds: int) -> Seq<char> {
    signed_decimal(minutes) + seq![':'] + (if 0 <= seconds < 10 {
        seq!['0'] + signed_decimal(seconds)
    } else {
        signed_decimal(seconds)
    })
}

impl Countdown {
    /// Whether this is how `millis` milliseconds show.
    pub open spec fn shows(self, millis: int) -> bool {
        &&& self.minutes == whole_minutes(millis)
        &&& self.seconds == whole_seconds(millis) - SECONDS_PER_MINUTE * whole_minutes(millis)
    }

    /// The countdown as text, such as `4:07`.
    pub fn text(&self) -> (s: String)
        ensures
            s@ == countdown_text(self.minutes as int, self.seconds as int),
    {
        let mut s = String::new();
        append_signed_decimal(&mut s, self.minutes);
        proof {
            reveal_strlit(":");
            reveal_strlit("0");
        }
        s.append(":");
        if 0 <= self.seconds && self.seconds < 10 {
            s.append("0");
        }
        append_signed_decimal(&mut s, self.seconds);
        assert(s@ =~= countdown_text(self.minutes as int, self.seconds as int));
        s
    }
}

fn digit_text(d: u64) -> (t: &'static str)
    requires
        d < 10,
    ensures
        t@ == seq![digit_char(d as int)],
{
    proof {
        reveal_strlit("0");
        reveal_strlit("1");
        reveal_strlit("2");
        reveal_strlit("3");
        reveal_strlit("4");
        reveal_strlit("5");
        reveal_strlit("6");
        reveal_strlit("7");
        reveal_strlit("8");
        reveal_strlit("9");
    }
    let t = if d == 0 {
        "0"
    } else if d == 1 {
        "1"
    } else if d == 2 {
        "2"
    } else if d == 3 {
        "3"
    } else if d == 4 {
        "4"
    } else if d == 5 {
        "5"
    } else if d == 6 {
        "6"
    } else if d == 7 {
        "7"
    } else if d == 8 {
        "8"
    } else {
        "9"
    };
    assert(t@ =~= seq![digit_char(d as int)]);
    t
}

fn append_decimal(text: &mut String, n: u64)
    ensures
        final(text)@ == old(text)@ + decimal(n as nat),
    decreases n,
{
    if n >= 10 {
        append_decimal(text, n / 10);
    }
    text.append(digit_text(n % 10));
    assert(text@ =~= old(text)@ + decimal(n as nat));
}

fn append_signed_decimal(text: &mut String, n: i64)
    ensures
        final(text)@ == old(text)@ + signed_decimal(n as int),
{
    if n < 0 {
        proof {
            reveal_strlit("-");
        }
        text.append("-");
        append_decimal(text, (-(n as i128)) as u64);
    } else {
        append_decimal(text, n as u64);
    }
    assert(text@ =~= old(text)@ + signed_decimal(n as int));
}

impl ProgramState {
    /// The milliseconds left of the break at `now`: its length less the
    /// time since it began. There is none outside a break.
    pub open spec fn time_left(self, now: Timestamp, th: Thresholds) -> Option<int> {
        match self {
            ProgramState::TakingBreak(started_at) => Some(
                th.break_length()@ - (now@ - started_at@),
            ),
            ProgramState::Working(_) => None,
        }
    }

    /// The countdown to show at `now`: that of the time left during a
    /// break, none outside one.
    pub fn countdown(&self, now: Timestamp, thresholds: &Thresholds) -> (r: Option<Countdown>)
        ensures
            (r is Some) == (self.time_left(now, *thresholds) is Some),
            r is Some ==> r->0.shows(self.time_left(now, *thresholds)->0),
    {
        match self {
            ProgramState::TakingBreak(started_at) => {
                let length = thresholds.break_length();
                let left: i128 = length.millis as i128 - (now.millis as i128
                    - started_at.millis as i128);
                let seconds: i128 = left / (MILLIS_PER_SECOND as i128);
                let minutes: i128 = seconds / (SECONDS_PER_MINUTE as i128);
                Some(
                    Countdown {
                        minutes: minutes as i64,
                        seconds: (seconds - (SECONDS_PER_MINUTE as i128) * minutes) as i64,
                    },
                )
            },
            ProgramState::Working(_) => None,
        }
    }
}

/// A countdown of time that has not run out shows no negative number, its
/// seconds stay below sixty and so take exactly two digits, and minutes and
/// seconds together are the whole seconds of the time left.
pub proof fn lemma_countdown_of_time_left(shown: Countdown, millis: int)
    requires
        shown.shows(millis),
        millis >= 0,
    ensures
        shown.minutes >= 0,
        0 <= shown.seconds < SECONDS_PER_MINUTE,
        shown.minutes * SECONDS_PER_MINUTE + shown.seconds == millis / (MILLIS_PER_SECOND as int),
        countdown_text(shown.minutes as int, shown.seconds as int) == decimal(shown.minutes as nat)
            + seq![
            ':',
            digit_char(shown.seconds as int / 10),
            digit_char(shown.seconds as int % 10),
        ],
{
    let seconds = shown.seconds as int;
    if seconds < 10 {
        assert(seq!['0'] + decimal(seconds as nat) =~= seq![
            digit_char(seconds / 10),
            digit_char(seconds % 10),
        ]);
    } else {
        assert(decimal(seconds as nat) =~= seq![
            digit_char(seconds / 10),
            digit_char(seconds % 10),
        ]) by {
            reveal_with_fuel(decimal, 2);
        }
    }
    assert(countdown_text(shown.minutes as int, seconds) =~= decimal(shown.minutes as nat) + seq![
        ':',
        digit_char(seconds / 10),
        digit_char(seconds % 10),
    ]);
}

/// After a tick at `now`, a break that is on has time left at `now`: the
/// countdown that goes with a tick never shows a break that has run out.
pub proof fn lemma_break_after_tick_has_time_left(
    state: ProgramState,
    now: Timestamp,
    user_active: bool,
    th: Thresholds,
)
    requires
        th.wf(),
    ensures
        state.next(now, user_active, th) is TakingBreak ==> state.next(now, user_active, th).time_left(
            now,
            th,
        )->0 > 0,
{
}

} // verus!
