//! Input events and the transitions they stand for.

use vstd::prelude::*;

verus! {

/// The logical identity of a pressed key.
#[derive(Clone, Copy, Debug, PartialEq, Eq, Structural)]
pub enum Key {
    /// A printable character.
    Char(char),
    /// The left arrow.
    Left,
    /// The right arrow.
    Right,
    /// Any other key.
    Other,
}

/// What one bounded wait for input produced.
#[derive(Clone, Copy, Debug, PartialEq, Eq, Structural)]
pub enum Input {
    /// No event arrived before the wait ran out.
    Timeout,
    /// A key was pressed.
    Press(Key),
    /// An event of another kind (mouse, resize, focus, paste).
    Other,
}

/// A change to the selection state.
#[derive(Clone, Copy, Debug, PartialEq, Eq, Structural)]
pub enum Transition {
    /// Select the next tab, wrapping after the last.
    Advance,
    /// Select the previous tab, wrapping before the first.
    Retreat,
    /// Stop the loop.
    Quit,
    /// Leave the state as it is.
    Ignore,
}

/// The transition bound to a key: `q` quits, the right arrow advances, the
/// left arrow retreats, and every other key is ignored.
pub open spec fn key_transition(key: Key) -> Transition {
    match key {
        Key::Char(c) => if c == 'q' {
            Transition::Quit
        } else {
            Transition::Ignore
        },
        Key::Right => Transition::Advance,
        Key::Left => Transition::Retreat,
        Key::Other => Transition::Ignore,
    }
}

/// The transition that an input causes: that of its key for a key press,
/// none for a timeout or an event of another kind.
pub open spec fn input_transition(input: Input) -> Transition {
    match input {
        Input::Press(key) => key_transition(key),
        Input::Timeout => Transition::Ignore,
        Input::Other => Transition::Ignore,
    }
}

impl Key {
    /// Maps this key to its transition.
    pub fn transition(self) -> (t: Transition)
        ensures
            t == key_transition(self),
    {
        match self {
            Key::Char(c) => {
                if c == 'q' {
                    Transition::Quit
                } else {
                    Transition::Ignore
                }
            },
            Key::Right => Transition::Advance,
            Key::Left => Transition::Retreat,
            Key::Other => Transition::Ignore,
        }
    }
}

impl Input {
    /// Maps this input to its transition.
    pub fn transition(self) -> (t: Transition)
        ensures
            t == input_transition(self),
    {
        match self {
            Input::Press(key) => key.transition(),
            Input::Timeout => Transition::Ignore,
            Input::Other => Transition::Ignore,
        }
    }
}

} // verus!
