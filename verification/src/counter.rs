//! The signed 8-bit counter that the periodic action tick adjusts.
//!
//! Overflow wraps around the 8-bit signed range on purpose: it neither
//! saturates nor fails.

use vstd::prelude::*;

verus! {

/// Added to the counter on an action tick while button A is held.
pub const PRESS_A_STEP: i8 = 10;

/// Taken from the counter on an action tick while button C is held.
pub const PRESS_C_STEP: i8 = 16;

/// The value in `-128..=127` that differs from `x` by a multiple of 256.
pub open spec fn wrap_i8(x: int) -> int {
    (x + 128) % 256 - 128
}

/// What one action tick adds to the counter before wrapping.
pub open spec fn action_delta(a_pressed: bool, c_pressed: bool) -> int {
    (if a_pressed { 10int } else { 0int }) - (if c_pressed { 16int } else { 0int }) + 1
}

/// The counter after one action tick: plus 10 if A is held, minus 16 if C is
/// held, plus 1 in every case, each step wrapped, in that order.
pub open spec fn after_action(counter: int, a_pressed: bool, c_pressed: bool) -> int {
    let after_a = if a_pressed { wrap_i8(counter + 10) } else { counter };
    let after_c = if c_pressed { wrap_i8(after_a - 16) } else { after_a };
    wrap_i8(after_c + 1)
}

/// The counter after a run of action ticks; each entry of `held` says whether
/// A and C were held at that tick.
pub open spec fn after_actions(counter: int, held: Seq<(bool, bool)>) -> int
    decreases held.len(),
{
    if held.len() == 0 {
        counter
    } else {
        after_action(after_actions(counter, held.drop_last()), held.last().0, held.last().1)
    }
}

/// What a run of action ticks adds to the counter before wrapping.
pub open spec fn total_delta(held: Seq<(bool, bool)>) -> int
    decreases held.len(),
{
    if held.len() == 0 {
        0
    } else {
        total_delta(held.drop_last()) + action_delta(held.last().0, held.last().1)
    }
}

/// The successor of `current`, wrapping from 127 to -128.
pub fn increment(current: i8) -> (next: i8)
    ensures
        next == wrap_i8(current + 1),
{
    current.wrapping_add(1)
}

/// Applies one action tick to `counter`.
pub fn apply_action(counter: i8, a_pressed: bool, c_pressed: bool) -> (next: i8)
    ensures
        next == after_action(counter as int, a_pressed, c_pressed),
        next == wrap_i8(counter + action_delta(a_pressed, c_pressed)),
{
    let mut value: i8 = counter;
    if a_pressed {
        value = value.wrapping_add(PRESS_A_STEP);
    }
    if c_pressed {
        value = value.wrapping_sub(PRESS_C_STEP);
    }
    increment(value)
}

/// Wrapping lands in the 8-bit signed range, changes a value by a multiple of
/// 256 only, and leaves a value already in range untouched.
pub proof fn lemma_wrap_i8_range(x: int)
    ensures
        -128 <= wrap_i8(x) <= 127,
        (wrap_i8(x) - x) % 256 == 0,
        -128 <= x <= 127 ==> wrap_i8(x) == x,
{
}

/// Wrapping after every step gives the same counter as wrapping the exact sum once.
pub proof fn lemma_action_wraps_once(counter: int, a_pressed: bool, c_pressed: bool)
    ensures
        after_action(counter, a_pressed, c_pressed) == wrap_i8(
            counter + action_delta(a_pressed, c_pressed),
        ),
{
}

/// After any run of action ticks the counter lies in `-128..=127` and equals
/// the wrapped exact sum of the start value and every tick's change.
pub proof fn lemma_counter_wraps_over_any_run(counter: int, held: Seq<(bool, bool)>)
    requires
        -128 <= counter <= 127,
    ensures
        -128 <= after_actions(counter, held) <= 127,
        after_actions(counter, held) == wrap_i8(counter + total_delta(held)),
    decreases held.len(),
{
    if held.len() > 0 {
        lemma_counter_wraps_over_any_run(counter, held.drop_last());
        lemma_action_wraps_once(
            after_actions(counter, held.drop_last()),
            held.last().0,
            held.last().1,
        );
    }
}

} // verus!
