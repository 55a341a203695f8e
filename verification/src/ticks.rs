//! Arithmetic on readings of a free-running, wrapping 32-bit tick counter.
//!
//! Durations are kept as whole ticks next to the tick rate, so that every
//! comparison against a threshold is exact.

use vstd::prelude::*;

verus! {

/// The reading that a counter started at zero shows once `ticks` ticks have passed.
pub open spec fn counter_reading(ticks: nat) -> u32 {
    (ticks % 0x1_0000_0000) as u32
}

/// The distance from `previous` forward to `now` on the 32-bit circle.
pub open spec fn wrapping_delta(previous: u32, now: u32) -> int {
    if now >= previous {
        now - previous
    } else {
        now - previous + 0x1_0000_0000
    }
}

/// Whether `ticks` ticks at `hz` ticks per second last strictly longer than `millis` milliseconds.
pub open spec fn lasts_longer_than(ticks: int, hz: int, millis: int) -> bool {
    ticks * 1000 > millis * hz
}

/// Whole milliseconds contained in `ticks` ticks at `hz` ticks per second.
pub open spec fn whole_millis(ticks: int, hz: int) -> int {
    ticks * 1000 / hz
}

/// Ticks elapsed between two readings of the counter, taken modulo 2^32.
pub fn elapsed_ticks(previous: u32, now: u32) -> (delta: u32)
    ensures
        delta == wrapping_delta(previous, now),
{
    now.wrapping_sub(previous)
}

/// A tick frequency in ticks per second; never zero.
#[derive(Clone, Copy, Debug)]
pub struct TickRate {
    hz: u32,
}

impl TickRate {
    #[verifier::type_invariant]
    spec fn nonzero(self) -> bool {
        self.hz > 0
    }

    /// Ticks per second, for use in contracts.
    pub closed spec fn spec_hz(&self) -> u32 {
        self.hz
    }

    /// A rate of `hz` ticks per second; `None` exactly when `hz` is zero.
    pub fn new(hz: u32) -> (rate: Option<TickRate>)
        ensures
            hz == 0 <==> rate is None,
            rate matches Some(r) ==> r.spec_hz() == hz,
    {
        if hz == 0 {
            None
        } else {
            Some(TickRate { hz })
        }
    }

    /// Ticks per second.
    #[verifier::when_used_as_spec(spec_hz)]
    pub fn hz(&self) -> (hz: u32)
        ensures
            hz == self.spec_hz(),
            hz > 0,
    {
        proof {
            use_type_invariant(self);
        }
        self.hz
    }

    /// Whether a duration of `ticks` ticks is strictly longer than `millis` milliseconds.
    pub fn exceeds_millis(&self, ticks: u64, millis: u32) -> (longer: bool)
        ensures
            longer == lasts_longer_than(ticks as int, self.hz() as int, millis as int),
    {
        let scaled: u128 = (ticks as u128) * 1000;
        assert(millis * self.hz <= 0xffff_ffff * 0xffff_ffff) by (nonlinear_arith)
            requires
                millis <= 0xffff_ffff,
                self.hz <= 0xffff_ffff,
        ;
        let limit: u128 = (millis as u128) * (self.hz as u128);
        scaled > limit
    }

    /// Whole milliseconds elapsed between two readings of the counter.
    pub fn elapsed_millis(&self, previous: u32, now: u32) -> (millis: u64)
        ensures
            millis == whole_millis(wrapping_delta(previous, now), self.hz() as int),
    {
        proof {
            use_type_invariant(self);
        }
        let delta: u64 = elapsed_ticks(previous, now) as u64;
        delta * 1000 / (self.hz as u64)
    }
}

/// A delta taken across a wraparound of the counter is the true number of
/// ticks that passed, as long as fewer than 2^32 ticks passed: it is never
/// negative and never inflated by the wrap.
pub proof fn lemma_delta_survives_wraparound(start: nat, passed: nat)
    requires
        passed < 0x1_0000_0000,
    ensures
        wrapping_delta(counter_reading(start), counter_reading(start + passed)) == passed,
        0 <= wrapping_delta(counter_reading(start), counter_reading(start + passed)) < 0x1_0000_0000,
{
    let modulus: int = 0x1_0000_0000;
    let turns: int = (start as int) / modulus;
    let reading: int = (start as int) % modulus;
    vstd::arithmetic::div_mod::lemma_fundamental_div_mod(start as int, modulus);
    if reading + passed < modulus {
        vstd::arithmetic::div_mod::lemma_fundamental_div_mod_converse(
            (start + passed) as int,
            modulus,
            turns,
            reading + passed,
        );
    } else {
        vstd::arithmetic::div_mod::lemma_fundamental_div_mod_converse(
            (start + passed) as int,
            modulus,
            turns + 1,
            reading + passed - modulus,
        );
    }
}

/// The milliseconds reported for a delta never exceed the true elapsed time
/// and fall short of it by less than one millisecond.
pub proof fn lemma_millis_track_elapsed_time(ticks: int, hz: int)
    requires
        0 <= ticks,
        0 < hz,
    ensures
        0 <= whole_millis(ticks, hz),
        whole_millis(ticks, hz) * hz <= ticks * 1000 < (whole_millis(ticks, hz) + 1) * hz,
{
    vstd::arithmetic::div_mod::lemma_fundamental_div_mod(ticks * 1000, hz);
    vstd::arithmetic::div_mod::lemma_mod_bound(ticks * 1000, hz);
    vstd::arithmetic::div_mod::lemma_div_pos_is_pos(ticks * 1000, hz);
    assert((ticks * 1000 / hz + 1) * hz == (ticks * 1000 / hz) * hz + hz) by (nonlinear_arith);
    assert(hz * (ticks * 1000 / hz) == (ticks * 1000 / hz) * hz) by (nonlinear_arith);
}

} // verus!
