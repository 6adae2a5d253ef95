//! What the outside world reports to one update tick: the keys held and the clock.

use vstd::prelude::*;

verus! {

/// The physical keys that the game listens to, each `true` while it is held down.
#[derive(Clone, Copy, Debug, PartialEq, Eq, Structural)]
pub struct KeyboardState {
    pub w: bool,
    pub up: bool,
    pub a: bool,
    pub left: bool,
    pub s: bool,
    pub down: bool,
    pub d: bool,
    pub right: bool,
    pub space: bool,
    pub enter: bool,
    pub backspace: bool,
}

/// The logical keys held during one update tick and the reading of the frame clock.
#[derive(Clone, Copy, Debug, PartialEq, Eq, Structural)]
pub struct InputSnapshot {
    /// Up arrow or W.
    pub up: bool,
    /// Left arrow or A.
    pub left: bool,
    /// Down arrow or S.
    pub down: bool,
    /// Right arrow or D.
    pub right: bool,
    /// Space or Enter.
    pub confirm: bool,
    /// Backspace.
    pub cancel: bool,
    /// Reading of the frame clock, in time units since an arbitrary origin.
    pub now: u64,
}

impl InputSnapshot {
    /// The key bindings: a logical key is held when either of its physical keys is.
    pub open spec fn of_keyboard(keys: KeyboardState, now: u64) -> InputSnapshot {
        InputSnapshot {
            up: keys.w || keys.up,
            left: keys.a || keys.left,
            down: keys.s || keys.down,
            right: keys.d || keys.right,
            confirm: keys.space || keys.enter,
            cancel: keys.backspace,
            now,
        }
    }

    /// Applies the key bindings to the physical keys held at `now`.
    pub fn from_keyboard(keys: &KeyboardState, now: u64) -> (input: InputSnapshot)
        ensures
            input == InputSnapshot::of_keyboard(*keys, now),
    {
        InputSnapshot {
            up: keys.w || keys.up,
            left: keys.a || keys.left,
            down: keys.s || keys.down,
            right: keys.d || keys.right,
            confirm: keys.space || keys.enter,
            cancel: keys.backspace,
            now,
        }
    }
}

} // verus!
