//! The polling cycle: debounced buttons, two periodic timers and the counter.
//!
//! One call of [`Controller::step`] is one cycle. The caller reads the tick
//! counter and the three input lines, hands both in, and acts on the answer:
//! it redraws when a new button state was accepted, prints the report when an
//! action tick fired, and sleeps for the cycle period before the next call.

use vstd::prelude::*;
use crate::buttons::ButtonState;
use crate::counter::{
    action_delta, after_action, apply_action, lemma_action_wraps_once, lemma_wrap_i8_range, wrap_i8,
};
use crate::ticks::{elapsed_ticks, lasts_longer_than, wrapping_delta, TickRate};

verus! {

/// A raw state must wait until more than this many milliseconds have passed
/// since the last accepted change before it can be accepted.
pub const DEBOUNCE_MILLIS: u32 = 25;

/// An action tick fires once more than this many milliseconds have passed
/// since the last one.
pub const ACTION_PERIOD_MILLIS: u32 = 1000;

/// The pause the caller makes between two cycles, in milliseconds.
pub const CYCLE_PERIOD_MILLIS: u32 = 10;

/// What an action tick reports: whether A was held, and the counter after the tick.
#[derive(Clone, Copy, Debug, PartialEq, Eq)]
pub struct StatusReport {
    pub a_pressed: bool,
    pub counter: i8,
}

/// What one cycle produced.
#[derive(Clone, Copy, Debug, PartialEq, Eq)]
pub struct Cycle {
    /// Ticks that passed since the previous cycle.
    pub elapsed: u32,
    /// The button state accepted in this cycle, if one was; the display is
    /// redrawn for it.
    pub accepted: Option<ButtonState>,
    /// The report of the action tick, if it fired in this cycle.
    pub report: Option<StatusReport>,
}

/// The state of the control loop as mathematics: timers count whole ticks
/// without bound.
pub struct ControlModel {
    /// Ticks per second.
    pub hz: int,
    /// The tick reading of the previous cycle.
    pub previous: u32,
    /// The last accepted button state.
    pub accepted: ButtonState,
    /// Ticks accumulated since the last accepted change.
    pub window: nat,
    /// Ticks accumulated since the last action tick.
    pub action: nat,
    /// The counter.
    pub counter: int,
}

/// The state before the first cycle: nothing held, both timers empty, counter zero.
pub open spec fn initial_model(hz: int, start: u32) -> ControlModel {
    ControlModel {
        hz,
        previous: start,
        accepted: ButtonState { a: false, b: false, c: false },
        window: 0,
        action: 0,
        counter: 0,
    }
}

/// One cycle. In this order: measure the ticks since the previous cycle; add
/// them to the debounce window and accept the raw state if the window is
/// longer than the debounce time and the raw state differs from the accepted
/// one; add them to the action timer and, if it is longer than the action
/// period, apply the counter rule to the accepted state and report.
pub open spec fn step_model(m: ControlModel, now: u32, raw: ButtonState) -> (ControlModel, Cycle) {
    let delta = wrapping_delta(m.previous, now);
    let window = m.window + delta;
    let accept = lasts_longer_than(window, m.hz, DEBOUNCE_MILLIS as int) && raw != m.accepted;
    let accepted = if accept { raw } else { m.accepted };
    let action = m.action + delta;
    let fire = lasts_longer_than(action, m.hz, ACTION_PERIOD_MILLIS as int);
    let counter = if fire { after_action(m.counter, accepted.a, accepted.c) } else { m.counter };
    (
        ControlModel {
            hz: m.hz,
            previous: now,
            accepted,
            window: if accept { 0 } else { window as nat },
            action: if fire { 0 } else { action as nat },
            counter,
        },
        Cycle {
            elapsed: delta as u32,
            accepted: if accept { Some(raw) } else { None },
            report: if fire {
                Some(StatusReport { a_pressed: accepted.a, counter: counter as i8 })
            } else {
                None
            },
        },
    )
}

/// What always holds of the state of a running loop: the rate is not zero,
/// the action timer is no longer than one action period, and the counter is
/// in the 8-bit signed range.
pub open spec fn valid(m: ControlModel) -> bool {
    &&& m.hz > 0
    &&& !lasts_longer_than(m.action as int, m.hz, ACTION_PERIOD_MILLIS as int)
    &&& -128 <= m.counter <= 127
}

/// The state after a run of cycles; each entry is a tick reading and the raw
/// sample taken with it.
pub open spec fn run_model(m: ControlModel, cycles: Seq<(u32, ButtonState)>) -> ControlModel
    decreases cycles.len(),
{
    if cycles.len() == 0 {
        m
    } else {
        step_model(run_model(m, cycles.drop_last()), cycles.last().0, cycles.last().1).0
    }
}

/// Ticks that pass over a run of cycles that starts at the reading `previous`.
pub open spec fn ticks_over(previous: u32, cycles: Seq<(u32, ButtonState)>) -> int
    decreases cycles.len(),
{
    if cycles.len() == 0 {
        0
    } else {
        let before = cycles.drop_last();
        let from = if before.len() == 0 { previous } else { before.last().0 };
        ticks_over(previous, before) + wrapping_delta(from, cycles.last().0)
    }
}

/// The control loop's state.
pub struct Controller {
    rate: TickRate,
    previous: u32,
    accepted: ButtonState,
    /// The debounce window in ticks, held at `u64::MAX` once it is longer.
    window: u64,
    /// The action timer in ticks; never longer than one action period.
    action: u64,
    counter: i8,
    /// The debounce window without the cap.
    full_window: Ghost<nat>,
}

impl View for Controller {
    type V = ControlModel;

    closed spec fn view(&self) -> ControlModel {
        ControlModel {
            hz: self.rate.spec_hz() as int,
            previous: self.previous,
            accepted: self.accepted,
            window: self.full_window@,
            action: self.action as nat,
            counter: self.counter as int,
        }
    }
}

impl Controller {
    #[verifier::type_invariant]
    spec fn consistent(self) -> bool {
        &&& self.window == if self.full_window@ > u64::MAX {
            u64::MAX as nat
        } else {
            self.full_window@
        }
        &&& self.action <= self.rate.spec_hz()
    }

    /// A control loop at rest whose first cycle measures from the reading `start`.
    pub fn new(rate: TickRate, start: u32) -> (controller: Controller)
        ensures
            controller@ == initial_model(rate.hz() as int, start),
            valid(controller@),
    {
        let hz: u32 = rate.hz();
        assert(hz > 0);
        Controller {
            rate,
            previous: start,
            accepted: ButtonState::released(),
            window: 0,
            action: 0,
            counter: 0,
            full_window: Ghost(0),
        }
    }

    /// The last accepted button state.
    pub fn accepted(&self) -> (accepted: ButtonState)
        ensures
            accepted == self@.accepted,
    {
        self.accepted
    }

    /// The counter.
    pub fn counter(&self) -> (counter: i8)
        ensures
            counter == self@.counter,
    {
        self.counter
    }

    /// The tick rate the timers are measured at.
    pub fn rate(&self) -> (rate: TickRate)
        ensures
            rate.hz() == self@.hz,
    {
        self.rate
    }

    /// Runs one cycle on the tick reading `now` and the raw sample `raw`.
    pub fn step(&mut self, now: u32, raw: ButtonState) -> (cycle: Cycle)
        ensures
            final(self)@ == step_model(old(self)@, now, raw).0,
            cycle == step_model(old(self)@, now, raw).1,
            valid(final(self)@),
    {
        proof {
            use_type_invariant(&*self);
        }
        let hz: u32 = self.rate.hz();
        proof {
            lemma_step_keeps_valid(self@, now, raw);
        }
        let delta: u32 = elapsed_ticks(self.previous, now);

        let window: u64 = self.window.saturating_add(delta as u64);
        let ghost full_window: nat = (self.full_window@ + delta) as nat;
        let settled: bool = self.rate.exceeds_millis(window, DEBOUNCE_MILLIS);
        assert(settled == lasts_longer_than(full_window as int, hz as int, DEBOUNCE_MILLIS as int));
        let accept: bool = settled && raw.differs_from(&self.accepted);
        let accepted: ButtonState = if accept { raw } else { self.accepted };

        let action: u64 = self.action + delta as u64;
        let fire: bool = self.rate.exceeds_millis(action, ACTION_PERIOD_MILLIS);
        let counter: i8 = if fire {
            apply_action(self.counter, accepted.a, accepted.c)
        } else {
            self.counter
        };

        *self = Controller {
            rate: self.rate,
            previous: now,
            accepted,
            window: if accept { 0 } else { window },
            action: if fire { 0 } else { action },
            counter,
            full_window: Ghost(if accept { 0 } else { full_window }),
        };
        Cycle {
            elapsed: delta,
            accepted: if accept { Some(raw) } else { None },
            report: if fire { Some(StatusReport { a_pressed: accepted.a, counter }) } else { None },
        }
    }
}

/// A cycle keeps a valid state valid.
pub proof fn lemma_step_keeps_valid(m: ControlModel, now: u32, raw: ButtonState)
    requires
        valid(m),
    ensures
        valid(step_model(m, now, raw).0),
{
    let accepted = step_model(m, now, raw).0.accepted;
    lemma_wrap_i8_range(m.counter + action_delta(accepted.a, accepted.c));
    lemma_action_wraps_once(m.counter, accepted.a, accepted.c);
}

/// A raw state is accepted only in a cycle in which the debounce window is
/// longer than the debounce time and the raw state differs from the accepted
/// one; the window starts over with it. In every other cycle the accepted
/// state stays and the window keeps what it has gathered.
pub proof fn lemma_change_needs_a_settled_window(m: ControlModel, now: u32, raw: ButtonState)
    ensures
        step_model(m, now, raw).1.accepted is Some <==> raw != m.accepted && lasts_longer_than(
            m.window + wrapping_delta(m.previous, now),
            m.hz,
            DEBOUNCE_MILLIS as int,
        ),
        step_model(m, now, raw).1.accepted is Some ==> {
            &&& step_model(m, now, raw).1.accepted == Some(raw)
            &&& step_model(m, now, raw).0.accepted == raw
            &&& step_model(m, now, raw).0.window == 0
        },
        step_model(m, now, raw).1.accepted is None ==> {
            &&& step_model(m, now, raw).0.accepted == m.accepted
            &&& step_model(m, now, raw).0.window == m.window + wrapping_delta(m.previous, now)
        },
{
}

/// The counter moves only in a cycle in which the action tick fires, and the
/// tick fires exactly when the action timer is longer than the action
/// period. The tick starts the timer over, applies the counter rule to the
/// state accepted by the end of the debounce step of the same cycle, and
/// reports the counter it arrived at.
pub proof fn lemma_counter_moves_only_on_action(m: ControlModel, now: u32, raw: ButtonState)
    requires
        valid(m),
    ensures
        step_model(m, now, raw).1.report is Some <==> lasts_longer_than(
            m.action + wrapping_delta(m.previous, now),
            m.hz,
            ACTION_PERIOD_MILLIS as int,
        ),
        step_model(m, now, raw).1.report is None ==> step_model(m, now, raw).0.counter
            == m.counter,
        step_model(m, now, raw).1.report matches Some(report) ==> {
            &&& step_model(m, now, raw).0.action == 0
            &&& report.a_pressed == step_model(m, now, raw).0.accepted.a
            &&& report.counter == step_model(m, now, raw).0.counter
            &&& report.counter == wrap_i8(
                m.counter + action_delta(
                    step_model(m, now, raw).0.accepted.a,
                    step_model(m, now, raw).0.accepted.c,
                ),
            )
        },
{
    let accepted = step_model(m, now, raw).0.accepted;
    lemma_wrap_i8_range(m.counter + action_delta(accepted.a, accepted.c));
    lemma_action_wraps_once(m.counter, accepted.a, accepted.c);
}

/// While the debounce window, with the ticks of a run of cycles added, is
/// still no longer than the debounce time, the accepted state is the same
/// after every cycle of the run, whatever the raw samples show. A change that
/// is gone again within the debounce time of the last accepted change never
/// reaches the accepted state.
pub proof fn lemma_transient_is_never_accepted(m: ControlModel, cycles: Seq<(u32, ButtonState)>)
    requires
        m.hz > 0,
        !lasts_longer_than(
            m.window + ticks_over(m.previous, cycles),
            m.hz,
            DEBOUNCE_MILLIS as int,
        ),
    ensures
        forall|k: int|
            0 <= k <= cycles.len() ==> (#[trigger] run_model(m, cycles.take(k))).accepted
                == m.accepted,
        run_model(m, cycles).accepted == m.accepted,
    decreases cycles.len(),
{
    lemma_quiet_run(m, cycles);
    assert forall|k: int| 0 <= k <= cycles.len() implies (#[trigger] run_model(
        m,
        cycles.take(k),
    )).accepted == m.accepted by {
        lemma_ticks_over_prefix(m.previous, cycles, k);
        lemma_quiet_run(m, cycles.take(k));
    }
}

/// A run that stays within the debounce time accepts nothing and only lets
/// the window grow by the ticks that passed.
proof fn lemma_quiet_run(m: ControlModel, cycles: Seq<(u32, ButtonState)>)
    requires
        m.hz > 0,
        !lasts_longer_than(
            m.window + ticks_over(m.previous, cycles),
            m.hz,
            DEBOUNCE_MILLIS as int,
        ),
    ensures
        run_model(m, cycles).accepted == m.accepted,
        run_model(m, cycles).window == m.window + ticks_over(m.previous, cycles),
        run_model(m, cycles).hz == m.hz,
        run_model(m, cycles).previous == (if cycles.len() == 0 {
            m.previous
        } else {
            cycles.last().0
        }),
        0 <= ticks_over(m.previous, cycles),
    decreases cycles.len(),
{
    if cycles.len() > 0 {
        let before = cycles.drop_last();
        lemma_ticks_over_nonnegative(m.previous, before);
        lemma_quiet_run(m, before);
    }
}

/// Ticks passed over a run are never negative.
proof fn lemma_ticks_over_nonnegative(previous: u32, cycles: Seq<(u32, ButtonState)>)
    ensures
        0 <= ticks_over(previous, cycles),
    decreases cycles.len(),
{
    if cycles.len() > 0 {
        lemma_ticks_over_nonnegative(previous, cycles.drop_last());
    }
}

/// A prefix of a run takes no more ticks than the whole run.
proof fn lemma_ticks_over_prefix(previous: u32, cycles: Seq<(u32, ButtonState)>, k: int)
    requires
        0 <= k <= cycles.len(),
    ensures
        0 <= ticks_over(previous, cycles.take(k)) <= ticks_over(previous, cycles),
    decreases cycles.len(),
{
    lemma_ticks_over_nonnegative(previous, cycles.take(k));
    if k == cycles.len() {
        assert(cycles.take(k) =~= cycles);
    } else {
        assert(cycles.drop_last().take(k) =~= cycles.take(k));
        lemma_ticks_over_prefix(previous, cycles.drop_last(), k);
    }
}

} // verus!
