//! The per-channel clock-division scheduler.
//!
//! A [`ClockChannel`] owns a subdivision ratio ([`Prescaler`]), a running
//! toggle threshold and one rectangular output. Fed the global tick count
//! once per controller iteration, it toggles its output every
//! `threshold_interval` ticks and re-synchronizes whenever the tick counter
//! restarts at a bar boundary.

use vstd::prelude::*;

verus! {

/// Smallest denominator a channel's subdivision can take.
pub const MIN_DENOMINATOR: u16 = 1;

/// Largest denominator a channel's subdivision can take.
pub const MAX_DENOMINATOR: u16 = 128;

/// A channel's subdivision ratio relative to one bar: the channel toggles
/// `numerator` times per `denominator`th of a bar.
#[derive(Copy, Clone, Debug, PartialEq, Eq, Structural)]
pub struct Prescaler {
    /// Active subdivisions per firing; stays `1` in device use.
    pub numerator: u16,
    /// Subdivisions per bar; held in `[MIN_DENOMINATOR, MAX_DENOMINATOR]`
    /// by every mutation the device performs.
    pub denominator: u16,
}

impl Prescaler {
    /// Builds a ratio from its two parts; no validation beyond the types.
    pub fn new(numerator: u16, denominator: u16) -> (r: Self)
        ensures
            r.numerator == numerator,
            r.denominator == denominator,
    {
        Prescaler { numerator, denominator }
    }

    /// Replaces the numerator.
    pub fn set_numerator(&mut self, numerator: u16)
        ensures
            final(self).numerator == numerator,
            final(self).denominator == old(self).denominator,
    {
        self.numerator = numerator;
    }

    /// Replaces the denominator.
    pub fn set_denominator(&mut self, denominator: u16)
        ensures
            final(self).denominator == denominator,
            final(self).numerator == old(self).numerator,
    {
        self.denominator = denominator;
    }
}

/// One rectangular output: a boolean state mirrored onto an indicator and
/// the actual output signal. The two physical pins live outside the
/// library; these fields record the level each pin was last driven to.
#[derive(Copy, Clone, Debug, PartialEq, Eq, Structural)]
pub struct ClockOutput {
    /// The logical output state.
    pub state: bool,
    /// Level the indicator signal was last driven to.
    pub led_level: bool,
    /// Level the output signal was last driven to.
    pub output_level: bool,
}

/// [`ClockOutput::toggle`]'s effect: state flips, and both signals follow
/// it in the same step.
pub open spec fn toggled(o: ClockOutput) -> ClockOutput {
    ClockOutput { state: !o.state, led_level: !o.state, output_level: !o.state }
}

impl ClockOutput {
    /// A fresh output: logically low, both signals driven low.
    pub fn new() -> (r: Self)
        ensures
            r == (ClockOutput { state: false, led_level: false, output_level: false }),
    {
        ClockOutput { state: false, led_level: false, output_level: false }
    }

    /// Drives the output high: state and both signals together.
    pub fn set_high(&mut self)
        ensures
            *final(self) == (ClockOutput { state: true, led_level: true, output_level: true }),
    {
        self.state = true;
        self.led_level = true;
        self.output_level = true;
    }

    /// Drives the output low: state and both signals together.
    pub fn set_low(&mut self)
        ensures
            *final(self) == (ClockOutput { state: false, led_level: false, output_level: false }),
    {
        self.state = false;
        self.led_level = false;
        self.output_level = false;
    }

    /// Flips the output; state and both signals agree afterwards.
    pub fn toggle(&mut self)
        ensures
            *final(self) == toggled(*old(self)),
    {
        self.state = !self.state;
        match self.state {
            true => self.set_high(),
            false => self.set_low(),
        }
    }
}

/// Ticks between toggles for bar length `bar_ticks` under prescaler `p`:
/// the bar split into `denominator` parts, `numerator` of them per firing.
pub open spec fn interval_spec(bar_ticks: u32, p: Prescaler) -> int {
    bar_ticks as int / p.denominator as int * p.numerator as int
}

/// One output channel: its subdivision, its running toggle schedule, and
/// its output. Reset at the start of every bar.
#[derive(Copy, Clone, Debug, PartialEq, Eq, Structural)]
pub struct ClockChannel {
    /// The channel's subdivision of the bar.
    pub prescaler: Prescaler,
    /// Next absolute tick count at which the output toggles.
    pub threshold: u32,
    /// Ticks between successive toggles.
    pub threshold_interval: u32,
    /// The channel's rectangular output.
    pub output: ClockOutput,
    /// Tick count seen on the previous update; a smaller current count
    /// means the bar restarted.
    pub previous_ticks: u32,
}

/// [`ClockChannel::calculate_threshold`]'s effect: only the interval is
/// recomputed; the live threshold keeps its value.
pub open spec fn calculated(c: ClockChannel, bar_ticks: u32) -> ClockChannel {
    ClockChannel { threshold_interval: interval_spec(bar_ticks, c.prescaler) as u32, ..c }
}

/// [`ClockChannel::reset_threshold`]'s effect: the schedule restarts at one
/// interval into the bar and the output goes high.
pub open spec fn reset_spec(c: ClockChannel) -> ClockChannel {
    ClockChannel {
        threshold: c.threshold_interval,
        previous_ticks: 0,
        output: ClockOutput { state: true, led_level: true, output_level: true },
        ..c
    }
}

/// [`ClockChannel::update`]'s effect for tick count `ticks`: re-synchronize
/// when the counter ran backwards, toggle when the threshold was reached,
/// otherwise only record the count.
pub open spec fn updated(c: ClockChannel, ticks: u32) -> ClockChannel {
    if c.previous_ticks > ticks {
        ClockChannel { previous_ticks: ticks, ..reset_spec(c) }
    } else if ticks >= c.threshold {
        ClockChannel {
            threshold: (c.threshold + c.threshold_interval) as u32,
            output: toggled(c.output),
            previous_ticks: ticks,
            ..c
        }
    } else {
        ClockChannel { previous_ticks: ticks, ..c }
    }
}

/// [`ClockChannel::set_led`]'s effect: only the indicator level moves.
pub open spec fn led_set(c: ClockChannel, state: bool) -> ClockChannel {
    ClockChannel { output: ClockOutput { led_level: state, ..c.output }, ..c }
}

/// The denominator one encoder step away: down wraps from
/// `MIN_DENOMINATOR` to `MAX_DENOMINATOR`, up wraps back, zero steps stay.
pub open spec fn next_denominator(d: u16, change: i8) -> u16 {
    if change < 0 {
        if d > MIN_DENOMINATOR {
            (d - 1) as u16
        } else {
            MAX_DENOMINATOR
        }
    } else if change > 0 {
        if d < MAX_DENOMINATOR {
            (d + 1) as u16
        } else {
            MIN_DENOMINATOR
        }
    } else {
        d
    }
}

/// [`ClockChannel::update_denominator`]'s effect: the denominator steps
/// with wraparound and the interval is recomputed against `bar_ticks`.
pub open spec fn denominator_updated(c: ClockChannel, change: i8, bar_ticks: u32) -> ClockChannel {
    let p = Prescaler { denominator: next_denominator(c.prescaler.denominator, change), ..c.prescaler };
    calculated(ClockChannel { prescaler: p, ..c }, bar_ticks)
}

impl ClockChannel {
    /// The channel invariant: the denominator stays inside the wraparound
    /// range, so its divisions can never fail.
    pub open spec fn wf(self) -> bool {
        MIN_DENOMINATOR <= self.prescaler.denominator <= MAX_DENOMINATOR
    }

    /// Builds a channel for bar length `ticks_per_bar`: threshold and
    /// interval both start at one subdivision, the output starts low.
    pub fn new(prescaler: Prescaler, ticks_per_bar: u32) -> (r: Self)
        requires
            MIN_DENOMINATOR <= prescaler.denominator <= MAX_DENOMINATOR,
            interval_spec(ticks_per_bar, prescaler) <= u32::MAX,
        ensures
            r.prescaler == prescaler,
            r.threshold == interval_spec(ticks_per_bar, prescaler),
            r.threshold_interval == interval_spec(ticks_per_bar, prescaler),
            r.previous_ticks == 0,
            r.output == (ClockOutput { state: false, led_level: false, output_level: false }),
            r.wf(),
    {
        ClockChannel {
            threshold_interval: ticks_per_bar / prescaler.denominator as u32
                * prescaler.numerator as u32,
            threshold: ticks_per_bar / prescaler.denominator as u32 * prescaler.numerator as u32,
            prescaler,
            output: ClockOutput::new(),
            previous_ticks: 0,
        }
    }

    /// Recomputes the toggle interval for a changed bar length. The live
    /// threshold is deliberately left alone, so a tempo change never causes
    /// a spurious immediate pulse: the new interval takes effect from the
    /// next scheduled edge.
    pub fn calculate_threshold(&mut self, bar_ticks: u32)
        requires
            old(self).wf(),
            interval_spec(bar_ticks, old(self).prescaler) <= u32::MAX,
        ensures
            *final(self) == calculated(*old(self), bar_ticks),
            final(self).threshold == old(self).threshold,
    {
        self.threshold_interval =
            bar_ticks / self.prescaler.denominator as u32 * self.prescaler.numerator as u32;
    }

    /// Re-synchronizes the channel to a bar boundary: the next toggle is one
    /// interval away, and the output is forced high so the first pulse of
    /// the new bar is never missed.
    pub fn reset_threshold(&mut self)
        ensures
            *final(self) == reset_spec(*old(self)),
    {
        self.threshold = self.threshold_interval;
        self.previous_ticks = 0;
        self.output.set_high();
    }

    /// Advances the channel to absolute tick count `ticks`. A count below
    /// the previous one means the bar restarted: re-synchronize. Otherwise
    /// toggle once the threshold is reached and move it one interval on, so
    /// each edge sits exactly one interval after the previous edge and
    /// drift never accumulates.
    pub fn update(&mut self, ticks: u32)
        requires
            old(self).previous_ticks > ticks
                || ticks < old(self).threshold
                || old(self).threshold + old(self).threshold_interval <= u32::MAX,
        ensures
            *final(self) == updated(*old(self), ticks),
    {
        if self.previous_ticks > ticks {
            self.reset_threshold()
        } else if ticks >= self.threshold {
            self.output.toggle();
            self.threshold = self.threshold + self.threshold_interval;
        }
        self.previous_ticks = ticks;
    }

    /// Drives only the indicator signal, for channel-select highlighting;
    /// the logical output state is untouched.
    pub fn set_led(&mut self, state: bool)
        ensures
            *final(self) == led_set(*old(self), state),
    {
        if state {
            self.output.led_level = true;
        } else {
            self.output.led_level = false;
        }
    }

    /// Replaces the prescaler's numerator.
    pub fn set_numerator(&mut self, numerator: u16)
        ensures
            final(self).prescaler.numerator == numerator,
            final(self).prescaler.denominator == old(self).prescaler.denominator,
            final(self).threshold == old(self).threshold,
            final(self).threshold_interval == old(self).threshold_interval,
            final(self).output == old(self).output,
            final(self).previous_ticks == old(self).previous_ticks,
    {
        self.prescaler.numerator = numerator;
    }

    /// Steps the denominator by the sign of `change`, wrapping at the range
    /// ends, and recomputes the interval against `bar_ticks`. No immediate
    /// reset: the running threshold keeps its value.
    pub fn update_denominator(&mut self, change: i8, bar_ticks: u32)
        requires
            old(self).wf(),
            interval_spec(
                bar_ticks,
                Prescaler {
                    denominator: next_denominator(old(self).prescaler.denominator, change),
                    ..old(self).prescaler
                },
            ) <= u32::MAX,
        ensures
            *final(self) == denominator_updated(*old(self), change, bar_ticks),
            final(self).threshold == old(self).threshold,
            final(self).wf(),
    {
        if change < 0 {
            if self.prescaler.denominator > MIN_DENOMINATOR {
                self.prescaler.denominator -= 1;
            } else {
                self.prescaler.denominator = MAX_DENOMINATOR;
            }
        } else if change > 0 {
            if self.prescaler.denominator < MAX_DENOMINATOR {
                self.prescaler.denominator += 1;
            } else {
                self.prescaler.denominator = MIN_DENOMINATOR;
            }
        }
        self.calculate_threshold(bar_ticks);
    }

    /// Reads the current denominator, for the display.
    pub fn get_denominator(&self) -> (d: u16)
        ensures
            d == self.prescaler.denominator,
    {
        self.prescaler.denominator
    }
}

/// Recomputing the interval for the same bar length twice is the same as
/// doing it once, and neither pass moves the live threshold.
pub proof fn lemma_calculate_threshold_idempotent(c: ClockChannel, bar_ticks: u32)
    ensures
        calculated(calculated(c, bar_ticks), bar_ticks) == calculated(c, bar_ticks),
        calculated(c, bar_ticks).threshold == c.threshold,
{
}

/// The denominator after `n` encoder steps of the same sign `change`.
pub open spec fn denominator_after(d: u16, change: i8, n: nat) -> u16
    decreases n,
{
    if n == 0 {
        d
    } else {
        next_denominator(denominator_after(d, change, (n - 1) as nat), change)
    }
}

/// Closed form of stepping the denominator up: `n` increments from `d`
/// land on `(d - 1 + n) % 128 + 1`.
pub proof fn lemma_denominator_steps_up(d: u16, change: i8, n: nat)
    requires
        MIN_DENOMINATOR <= d <= MAX_DENOMINATOR,
        change > 0,
    ensures
        denominator_after(d, change, n) as int == (d - 1 + n) % (MAX_DENOMINATOR as int) + 1,
    decreases n,
{
    let m = MAX_DENOMINATOR as int;
    if n == 0 {
        vstd::arithmetic::div_mod::lemma_small_mod((d - 1) as nat, MAX_DENOMINATOR as nat);
    } else {
        lemma_denominator_steps_up(d, change, (n - 1) as nat);
        let a = d - 1 + (n - 1);
        let prev_rem = a % m;
        vstd::arithmetic::div_mod::lemma_mod_division_less_than_divisor(a, m);
        vstd::arithmetic::div_mod::lemma_add_mod_noop_right(1, a, m);
        if prev_rem < m - 1 {
            vstd::arithmetic::div_mod::lemma_small_mod((1 + prev_rem) as nat, MAX_DENOMINATOR as nat);
        } else {
            vstd::arithmetic::div_mod::lemma_mod_self_0(m);
        }
    }
}

/// Closed form of stepping the denominator down: `n` decrements from `d`
/// land on `(d - 1 - n) % 128 + 1`.
pub proof fn lemma_denominator_steps_down(d: u16, change: i8, n: nat)
    requires
        MIN_DENOMINATOR <= d <= MAX_DENOMINATOR,
        change < 0,
    ensures
        denominator_after(d, change, n) as int == (d - 1 - n) % (MAX_DENOMINATOR as int) + 1,
    decreases n,
{
    let m = MAX_DENOMINATOR as int;
    if n == 0 {
        vstd::arithmetic::div_mod::lemma_small_mod((d - 1) as nat, MAX_DENOMINATOR as nat);
    } else {
        lemma_denominator_steps_down(d, change, (n - 1) as nat);
        let a = d - 1 - (n - 1);
        let prev_rem = a % m;
        vstd::arithmetic::div_mod::lemma_mod_division_less_than_divisor(a, m);
        vstd::arithmetic::div_mod::lemma_sub_mod_noop(a, 1, m);
        vstd::arithmetic::div_mod::lemma_small_mod(1nat, MAX_DENOMINATOR as nat);
        if prev_rem >= 1 {
            vstd::arithmetic::div_mod::lemma_small_mod((prev_rem - 1) as nat, MAX_DENOMINATOR as nat);
        } else {
            assert((-1) % m == m - 1) by {
                vstd::arithmetic::div_mod::lemma_fundamental_div_mod_converse_mod(-1, m, -1, m - 1);
            }
        }
    }
}

/// Wraparound closure: stepping the denominator a full range's worth of
/// times in one direction, up or down, returns it to where it started.
pub proof fn lemma_denominator_wraparound(d: u16, change: i8)
    requires
        MIN_DENOMINATOR <= d <= MAX_DENOMINATOR,
        change != 0,
    ensures
        denominator_after(d, change, MAX_DENOMINATOR as nat) == d,
{
    let m = MAX_DENOMINATOR as int;
    vstd::arithmetic::div_mod::lemma_small_mod((d - 1) as nat, MAX_DENOMINATOR as nat);
    if change > 0 {
        lemma_denominator_steps_up(d, change, MAX_DENOMINATOR as nat);
        vstd::arithmetic::div_mod::lemma_mod_add_multiples_vanish(d - 1, m);
    } else {
        lemma_denominator_steps_down(d, change, MAX_DENOMINATOR as nat);
        vstd::arithmetic::div_mod::lemma_mod_sub_multiples_vanish(d - 1, m);
    }
}

/// Bar-restart: whatever state a channel is in, an update whose tick count
/// runs backwards forces the output high and puts the next toggle one
/// interval into the new bar.
pub proof fn lemma_bar_restart(c: ClockChannel, ticks: u32)
    requires
        c.previous_ticks > ticks,
    ensures
        updated(c, ticks).output.state == true,
        updated(c, ticks).threshold == c.threshold_interval,
        updated(c, ticks).previous_ticks == ticks,
{
}

/// With the numerator at one, as the device keeps it, the toggle interval
/// is a division of the bar: never negative and never longer than the bar.
pub proof fn lemma_interval_le_bar(bar_ticks: u32, p: Prescaler)
    requires
        p.numerator == 1,
        p.denominator >= 1,
    ensures
        0 <= interval_spec(bar_ticks, p) <= bar_ticks,
{
    let q = bar_ticks as int / p.denominator as int;
    vstd::arithmetic::mul::lemma_mul_basics(q);
    vstd::arithmetic::div_mod::lemma_div_pos_is_pos(bar_ticks as int, p.denominator as int);
    vstd::arithmetic::div_mod::lemma_div_is_ordered_by_denominator(
        bar_ticks as int,
        1,
        p.denominator as int,
    );
    vstd::arithmetic::div_mod::lemma_div_basics(bar_ticks as int);
}

/// The channel after `update` has been fed every tick count `1, 2, ..., n`
/// in order, one call per tick, as the controller does while a bar runs.
pub open spec fn run_updates(c: ClockChannel, n: u32) -> ClockChannel
    decreases n,
{
    if n == 0 {
        c
    } else {
        updated(run_updates(c, (n - 1) as u32), n)
    }
}

proof fn lemma_parity_flip(q: int)
    ensures
        (q + 1) % 2 != q % 2,
{
    vstd::arithmetic::div_mod::lemma_fundamental_div_mod(q, 2);
    vstd::arithmetic::div_mod::lemma_mod_division_less_than_divisor(q, 2);
    if q % 2 == 0 {
        vstd::arithmetic::div_mod::lemma_fundamental_div_mod_converse_mod(q + 1, 2, q / 2, 1);
    } else {
        vstd::arithmetic::div_mod::lemma_fundamental_div_mod_converse_mod(q + 1, 2, q / 2 + 1, 0);
    }
}

/// No drift: a channel that starts a bar with interval `I` keeps its
/// threshold at exactly `(n / I + 1) * I` after ticks `1..=n`, so every
/// toggle lands on a multiple of `I` — `I`, `2I`, `3I`, ... — and the
/// output's level after `n` ticks is fixed by how many multiples of `I`
/// have passed, never by rounding of earlier edges.
pub proof fn lemma_no_drift_schedule(c: ClockChannel, n: u32)
    requires
        c.threshold_interval >= 1,
        c.threshold == c.threshold_interval,
        c.previous_ticks == 0,
        c.output.led_level == c.output.state,
        c.output.output_level == c.output.state,
        (n as int / c.threshold_interval as int + 1) * c.threshold_interval as int <= u32::MAX,
    ensures
        run_updates(c, n).threshold == (n as int / c.threshold_interval as int + 1)
            * c.threshold_interval as int,
        run_updates(c, n).previous_ticks == n,
        run_updates(c, n).threshold_interval == c.threshold_interval,
        run_updates(c, n).prescaler == c.prescaler,
        run_updates(c, n).output.state == (if (n as int / c.threshold_interval as int) % 2 == 0 {
            c.output.state
        } else {
            !c.output.state
        }),
        run_updates(c, n).output.led_level == run_updates(c, n).output.state,
        run_updates(c, n).output.output_level == run_updates(c, n).output.state,
    decreases n,
{
    let iv = c.threshold_interval as int;
    if n == 0 {
        vstd::arithmetic::div_mod::lemma_div_of0(iv);
        vstd::arithmetic::mul::lemma_mul_basics(iv);
    } else {
        let nm1 = n - 1;
        vstd::arithmetic::div_mod::lemma_div_is_ordered(nm1, n as int, iv);
        vstd::arithmetic::mul::lemma_mul_inequality(nm1 / iv + 1, n as int / iv + 1, iv);
        lemma_no_drift_schedule(c, (n - 1) as u32);
        let q = nm1 / iv;
        let s = nm1 % iv;
        vstd::arithmetic::div_mod::lemma_fundamental_div_mod(nm1, iv);
        vstd::arithmetic::div_mod::lemma_mod_division_less_than_divisor(nm1, iv);
        let r = run_updates(c, (n - 1) as u32);
        vstd::arithmetic::mul::lemma_mul_is_distributive_add_other_way(iv, q, 1);
        vstd::arithmetic::mul::lemma_mul_is_commutative(q + 1, iv);
        if s == iv - 1 {
            // the next tick is the (q + 1)th multiple of the interval: toggle
            assert(n as int == (q + 1) * iv);
            vstd::arithmetic::div_mod::lemma_fundamental_div_mod_converse_div(
                n as int,
                iv,
                q + 1,
                0,
            );
            vstd::arithmetic::mul::lemma_mul_is_distributive_add_other_way(iv, q + 2, 0);
            assert((q + 2) * iv == (q + 1) * iv + iv) by {
                vstd::arithmetic::mul::lemma_mul_is_distributive_add_other_way(iv, q + 1, 1);
                vstd::arithmetic::mul::lemma_mul_basics(iv);
            }
            lemma_parity_flip(q);
        } else {
            // the next tick falls short of the threshold: nothing toggles
            vstd::arithmetic::div_mod::lemma_fundamental_div_mod_converse_div(
                n as int,
                iv,
                q,
                s + 1,
            );
            assert((n as int) < (q + 1) * iv);
        }
    }
}

/// Successive toggles land exactly on the multiples of the interval: after
/// a bar restart, tick `n` flips the output if and only if `n` is a
/// multiple of `threshold_interval`.
pub proof fn lemma_toggle_exactly_at_multiples(c: ClockChannel, n: u32)
    requires
        c.threshold_interval >= 1,
        c.threshold == c.threshold_interval,
        c.previous_ticks == 0,
        c.output.led_level == c.output.state,
        c.output.output_level == c.output.state,
        n >= 1,
        (n as int / c.threshold_interval as int + 1) * c.threshold_interval as int <= u32::MAX,
    ensures
        (run_updates(c, n).output.state != run_updates(c, (n - 1) as u32).output.state)
            <==> n as int % (c.threshold_interval as int) == 0,
{
    let iv = c.threshold_interval as int;
    let nm1 = n - 1;
    vstd::arithmetic::div_mod::lemma_div_is_ordered(nm1, n as int, iv);
    vstd::arithmetic::mul::lemma_mul_inequality(nm1 / iv + 1, n as int / iv + 1, iv);
    lemma_no_drift_schedule(c, n);
    lemma_no_drift_schedule(c, (n - 1) as u32);
    let q = nm1 / iv;
    let s = nm1 % iv;
    vstd::arithmetic::div_mod::lemma_fundamental_div_mod(nm1, iv);
    vstd::arithmetic::div_mod::lemma_mod_division_less_than_divisor(nm1, iv);
    vstd::arithmetic::mul::lemma_mul_is_distributive_add_other_way(iv, q, 1);
    vstd::arithmetic::mul::lemma_mul_is_commutative(q + 1, iv);
    if s == iv - 1 {
        assert(n as int == (q + 1) * iv);
        vstd::arithmetic::div_mod::lemma_fundamental_div_mod_converse_div(n as int, iv, q + 1, 0);
        vstd::arithmetic::div_mod::lemma_fundamental_div_mod_converse_mod(n as int, iv, q + 1, 0);
        lemma_parity_flip(q);
    } else {
        vstd::arithmetic::div_mod::lemma_fundamental_div_mod_converse_div(n as int, iv, q, s + 1);
        vstd::arithmetic::div_mod::lemma_fundamental_div_mod_converse_mod(n as int, iv, q, s + 1);
    }
}

} // verus!
