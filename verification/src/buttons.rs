//! Raw samples of the three push-buttons.
//!
//! The inputs are active-low: a button that is held pulls its line low. A
//! sample is the instantaneous picture of the three lines and carries no
//! memory; settling is the control loop's business.

use vstd::prelude::*;

verus! {

/// The logic level of a digital input line.
#[derive(Clone, Copy, Debug, PartialEq, Eq, Structural)]
pub enum Level {
    Low,
    High,
}

/// Which of the buttons A, B and C are held; `true` means held.
#[derive(Clone, Copy, Debug, PartialEq, Eq, Structural)]
pub struct ButtonState {
    pub a: bool,
    pub b: bool,
    pub c: bool,
}

impl ButtonState {
    /// No button held.
    pub fn released() -> (state: ButtonState)
        ensures
            state == (ButtonState { a: false, b: false, c: false }),
    {
        ButtonState { a: false, b: false, c: false }
    }

    /// The sample that three line levels stand for: a low line is a held button.
    pub fn from_levels(a: Level, b: Level, c: Level) -> (state: ButtonState)
        ensures
            state.a == (a == Level::Low),
            state.b == (b == Level::Low),
            state.c == (c == Level::Low),
    {
        ButtonState { a: a == Level::Low, b: b == Level::Low, c: c == Level::Low }
    }

    /// Whether at least one button differs between the two samples.
    pub fn differs_from(&self, other: &ButtonState) -> (differs: bool)
        ensures
            differs == (*self != *other),
            differs == (self.a != other.a || self.b != other.b || self.c != other.c),
    {
        self.a != other.a || self.b != other.b || self.c != other.c
    }
}

} // verus!
