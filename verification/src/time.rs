//! Tempo and bar-length arithmetic.
//!
//! A [`BPM`] holds the master tempo in beats per minute. [`TicksPerBar`]
//! derives from it the length of one musical bar, counted in periods of the
//! fixed-rate timer interrupt.

use vstd::prelude::*;

verus! {

/// Beats per minute a device starts with.
pub const DEFAULT_BPM: u16 = 120;

/// Ceiling of the tempo range; tempo arithmetic saturates here.
pub const MAX_BPM: u16 = 9_999;

/// Timer interrupts per second: the resolution of every bar measurement.
pub const TICK_RATE: u32 = 10_000;

/// The master tempo, in beats per minute.
#[derive(Copy, Clone, Debug, PartialEq, Eq, Structural)]
pub struct BPM {
    /// Beats per minute.
    pub bpm: u16,
}

/// The saturating tempo step: `bpm + delta`, held inside `[0, MAX_BPM]`.
pub open spec fn saturated_add(bpm: u16, delta: i8) -> u16 {
    let sum = bpm as int + delta as int;
    if sum < 0 {
        0
    } else if sum > MAX_BPM as int {
        MAX_BPM as u16
    } else {
        sum as u16
    }
}

impl BPM {
    /// Wraps a raw beats-per-minute value; no validation beyond the type.
    pub fn new(bpm: u16) -> (r: Self)
        ensures
            r.bpm == bpm,
    {
        BPM { bpm }
    }

    /// Advances the tempo by a signed encoder step, saturating at `0` and at
    /// [`MAX_BPM`] instead of wrapping.
    pub fn adjust(self, delta: i8) -> (r: Self)
        ensures
            r.bpm == saturated_add(self.bpm, delta),
    {
        let intermediate: i32 = self.bpm as i32 + delta as i32;
        let bpm: u16 = if intermediate < 0 {
            0
        } else if intermediate > MAX_BPM as i32 {
            MAX_BPM
        } else {
            intermediate as u16
        };
        BPM { bpm }
    }

    /// The decimal digit of the tempo at place `index` (`0` is the ones
    /// place), for the display to paint.
    pub fn display_digit(&self, index: u8) -> (digit: u8)
        requires
            index <= 4,
        ensures
            digit == (self.bpm as int / pow10(index as nat)) % 10,
            digit <= 9,
    {
        let divisor: u16 = match index {
            0 => 1,
            1 => 10,
            2 => 100,
            3 => 1_000,
            _ => 10_000,
        };
        assert(divisor as int == pow10(index as nat)) by {
            reveal_with_fuel(pow10, 6);
        }
        (self.bpm / divisor % 10) as u8
    }
}

impl Default for BPM {
    /// Defaults to [`DEFAULT_BPM`] beats per minute.
    fn default() -> (r: Self)
        ensures
            r.bpm == DEFAULT_BPM,
    {
        BPM { bpm: DEFAULT_BPM }
    }
}

/// Ten to the `n`th, for reading decimal digits out of a tempo.
pub open spec fn pow10(n: nat) -> int
    decreases n,
{
    if n == 0 {
        1
    } else {
        10 * pow10((n - 1) as nat)
    }
}

/// The length of one bar in ticks at tempo `bpm`: four beats of
/// `60 * TICK_RATE / 2` tick-seconds each, divided by the tempo.
pub open spec fn bar_ticks_spec(bpm: u16) -> int {
    (240int / 2 * TICK_RATE as int) / bpm as int
}

/// The length of one musical bar, in timer ticks.
#[derive(Copy, Clone, Debug, PartialEq, Eq, Structural)]
pub struct TicksPerBar {
    /// Ticks in one bar at the tempo this value was derived from.
    pub ticks: u32,
}

impl TicksPerBar {
    /// Derives the bar length from a tempo. A zero tempo has no bar length;
    /// the caller keeps the tempo at one or above.
    pub fn from(bpm: BPM) -> (r: Self)
        requires
            bpm.bpm >= 1,
        ensures
            r.ticks == bar_ticks_spec(bpm.bpm),
    {
        TicksPerBar { ticks: (240 / 2 * TICK_RATE) / bpm.bpm as u32 }
    }
}

/// For every tempo in the musical range, the bar is at least one tick long:
/// the divider always has a positive bar to subdivide.
pub proof fn lemma_bar_ticks_positive(bpm: u16)
    requires
        30 <= bpm <= 9999,
    ensures
        bar_ticks_spec(bpm) > 0,
{
    assert(bar_ticks_spec(bpm) >= 1_200_000int / 9999) by {
        vstd::arithmetic::div_mod::lemma_div_is_ordered_by_denominator(
            1_200_000,
            bpm as int,
            9999,
        );
    }
}

/// Over the musical tempo range the bar length stays within fixed bounds:
/// never shorter than 120 ticks, never longer than 40 000.
pub proof fn lemma_bar_ticks_bounds(bpm: u16)
    requires
        30 <= bpm <= 9999,
    ensures
        120 <= bar_ticks_spec(bpm) <= 40_000,
{
    assert(bar_ticks_spec(bpm) >= 1_200_000int / 9999) by {
        vstd::arithmetic::div_mod::lemma_div_is_ordered_by_denominator(
            1_200_000,
            bpm as int,
            9999,
        );
    }
    assert(bar_ticks_spec(bpm) <= 1_200_000int / 30) by {
        vstd::arithmetic::div_mod::lemma_div_is_ordered_by_denominator(
            1_200_000,
            30,
            bpm as int,
        );
    }
}

} // verus!
