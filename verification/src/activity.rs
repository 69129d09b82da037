//! The activity detector: from the pointer and the keys of each tick it
//! tells whether the user has been active of late.

use crate::time::{Span, Timestamp};
use vstd::prelude::*;

verus! {

/// The pointer has moved where it is farther than this from where it was.
pub const SIGNIFICANT_DISTANCE: i128 = 1;

/// Where the pointer is: a pair of integer coordinates in one continuous
/// coordinate space.
#[derive(Clone, Copy, Debug, PartialEq, Eq, Structural)]
pub struct PointerSample {
    pub x: i32,
    pub y: i32,
}

/// A key that is held down. Only the two keys that together ask for the
/// options menu are told apart.
#[derive(Clone, Copy, Debug, PartialEq, Eq, Structural)]
pub enum Key {
    Slash,
    BackSlash,
    Other,
}

/// Which keys of the options-menu combination are held down.
#[derive(Clone, Copy, Debug, PartialEq, Eq, Structural)]
pub struct MenuKeys {
    pub slash: bool,
    pub back_slash: bool,
}

/// What the detector remembers from one tick to the next.
#[derive(Clone, Copy, Debug, PartialEq, Eq, Structural)]
pub struct ActivityDetector {
    /// The pointer sample of the tick before, or `None` before the first
    /// tick.
    pub previous_pointer: Option<PointerSample>,
    /// The reading at which the pointer last moved significantly, or `None`
    /// while it has not been seen to.
    pub moved_at: Option<Timestamp>,
    /// The reading at which a key was last seen held down, or `None` while
    /// none has been.
    pub key_pressed_at: Option<Timestamp>,
}

/// The square of the Euclidean distance between two pointer samples.
pub open spec fn distance_squared(from: PointerSample, to: PointerSample) -> int {
    (to.x - from.x) * (to.x - from.x) + (to.y - from.y) * (to.y - from.y)
}

/// Whether the Euclidean distance between the two samples is greater than
/// `SIGNIFICANT_DISTANCE`. Neither being negative, the distance exceeds the
/// bound exactly where its square exceeds the bound's square.
pub open spec fn moved_significantly(from: PointerSample, to: PointerSample) -> bool {
    distance_squared(from, to) > SIGNIFICANT_DISTANCE * SIGNIFICANT_DISTANCE
}

/// Whether the event last seen at `at` is less than `window` old at `now`.
/// An event that was never seen is not.
pub open spec fn recent(at: Option<Timestamp>, now: Timestamp, window: Span) -> bool {
    at matches Some(seen) && now@ - seen@ < window@
}

impl PointerSample {
    pub fn new(x: i32, y: i32) -> (p: PointerSample)
        ensures
            p.x == x,
            p.y == y,
    {
        PointerSample { x, y }
    }

    /// Whether the pointer, now at `self`, has moved significantly since it
    /// was at `from`.
    pub fn moved_from(self, from: PointerSample) -> (r: bool)
        ensures
            r == moved_significantly(from, self),
    {
        let dx: i128 = self.x as i128 - from.x as i128;
        let dy: i128 = self.y as i128 - from.y as i128;
        assert(0 <= dx * dx <= 0x1_0000_0000 * 0x1_0000_0000) by (nonlinear_arith)
            requires
                -0x1_0000_0000 <= dx <= 0x1_0000_0000,
        ;
        assert(0 <= dy * dy <= 0x1_0000_0000 * 0x1_0000_0000) by (nonlinear_arith)
            requires
                -0x1_0000_0000 <= dy <= 0x1_0000_0000,
        ;
        dx * dx + dy * dy > SIGNIFICANT_DISTANCE * SIGNIFICANT_DISTANCE
    }
}

impl MenuKeys {
    /// Whether the whole combination is held down.
    pub fn complete(&self) -> (r: bool)
        ensures
            r == (self.slash && self.back_slash),
    {
        self.slash && self.back_slash
    }
}

/// Looks for the keys of the options-menu combination among the keys held
/// down.
pub fn menu_keys(keys: &Vec<Key>) -> (m: MenuKeys)
    ensures
        m.slash == keys@.contains(Key::Slash),
        m.back_slash == keys@.contains(Key::BackSlash),
{
    let mut slash = false;
    let mut back_slash = false;
    let mut i: usize = 0;
    while i < keys.len()
        invariant
            i <= keys.len(),
            slash == exists|j: int| 0 <= j < i && keys@[j] == Key::Slash,
            back_slash == exists|j: int| 0 <= j < i && keys@[j] == Key::BackSlash,
        decreases keys.len() - i,
    {
        match keys[i] {
            Key::Slash => {
                slash = true;
            },
            Key::BackSlash => {
                back_slash = true;
            },
            Key::Other => {},
        }
        i += 1;
    }
    MenuKeys { slash, back_slash }
}

fn is_recent(at: Option<Timestamp>, now: Timestamp, window: Span) -> (r: bool)
    ensures
        r == recent(at, now, window),
{
    match at {
        Some(seen) => !now.has_elapsed(seen, window),
        None => false,
    }
}

impl ActivityDetector {
    /// What the detector remembers after a tick at `now` with the pointer at
    /// `pointer` and the keys `keys` held down.
    ///
    /// `moved_at` becomes `now` where the pointer has moved significantly
    /// since the tick before; the first sample only sets the baseline.
    /// `key_pressed_at` becomes `now` where any key is held down.
    pub open spec fn observed(self, pointer: PointerSample, keys: Seq<Key>, now: Timestamp) -> Self {
        ActivityDetector {
            previous_pointer: Some(pointer),
            moved_at: if self.previous_pointer is Some && moved_significantly(
                self.previous_pointer->0,
                pointer,
            ) {
                Some(now)
            } else {
                self.moved_at
            },
            key_pressed_at: if keys.len() > 0 {
                Some(now)
            } else {
                self.key_pressed_at
            },
        }
    }

    /// Whether the user counts as active at `now`: the pointer moved, or a
    /// key was held down, less than `window` ago.
    pub open spec fn active_at(self, now: Timestamp, window: Span) -> bool {
        recent(self.moved_at, now, window) || recent(self.key_pressed_at, now, window)
    }

    /// A detector that has seen nothing yet: no pointer sample, no movement
    /// and no key.
    pub fn new() -> (d: ActivityDetector)
        ensures
            d == (ActivityDetector { previous_pointer: None, moved_at: None, key_pressed_at: None }),
    {
        ActivityDetector { previous_pointer: None, moved_at: None, key_pressed_at: None }
    }

    pub fn is_active(&self, now: Timestamp, window: Span) -> (r: bool)
        ensures
            r == self.active_at(now, window),
    {
        is_recent(self.moved_at, now, window) || is_recent(self.key_pressed_at, now, window)
    }

    /// Takes in the samples of one tick and says whether the user counts as
    /// active at `now`.
    pub fn observe(
        &mut self,
        pointer: PointerSample,
        keys: &Vec<Key>,
        now: Timestamp,
        window: Span,
    ) -> (active: bool)
        ensures
            *final(self) == old(self).observed(pointer, keys@, now),
            active == final(self).active_at(now, window),
    {
        let moved = match self.previous_pointer {
            Some(previous) => pointer.moved_from(previous),
            None => false,
        };
        if moved {
            self.moved_at = Some(now);
        }
        if keys.len() > 0 {
            self.key_pressed_at = Some(now);
        }
        self.previous_pointer = Some(pointer);
        self.is_active(now, window)
    }
}

} // verus!
