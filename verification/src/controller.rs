//! The controller: one polling iteration at a time.
//!
//! Each iteration the surrounding program samples the two buttons, polls the
//! encoder, and reads the shared tick counter under its interrupt exclusion;
//! [`Controller::step`] then makes every decision of the iteration — tempo,
//! mode, channel schedules, tick-counter reset and display value — and hands
//! the outcome back as plain values. The interrupt context's own work is the
//! single counter increment of [`on_timer_tick`].

use vstd::prelude::*;

use crate::cv_output::ClockChannel;
use crate::cv_output::Prescaler;
use crate::cv_output::calculated;
use crate::cv_output::denominator_updated;
use crate::cv_output::interval_spec;
use crate::cv_output::led_set;
use crate::cv_output::lemma_interval_le_bar;
use crate::cv_output::next_denominator;
use crate::cv_output::reset_spec;
use crate::cv_output::updated;
use crate::state_machine::ButtonPressed;
use crate::state_machine::DeviceState;
use crate::time::BPM;
use crate::time::MAX_BPM;
use crate::time::TicksPerBar;
use crate::time::bar_ticks_spec;
use crate::time::lemma_bar_ticks_bounds;
use crate::time::saturated_add;

verus! {

/// Output channels the device drives.
pub const NUM_CHANNELS: u8 = 4;

/// Floor of the musically useful tempo range; the controller refuses to
/// step below it.
pub const MIN_BPM: u16 = 30;

/// Longest bar the tempo range allows, in ticks.
pub const MAX_BAR_TICKS: u32 = 40_000;

/// Upper bound a channel's running threshold keeps while the controller
/// drives it: at most one interval past the longest bar.
pub const MAX_THRESHOLD: u32 = 80_000;

/// The timer compare value for an interrupt rate of `target_hz`: how many
/// prescaled clock cycles fit in one tick, less the one the counter spends
/// on zero.
pub fn calc_overflow(clock_hz: u32, target_hz: u32, prescale: u32) -> (r: u32)
    requires
        target_hz >= 1,
        prescale >= 1,
        clock_hz as int / target_hz as int / prescale as int >= 1,
    ensures
        r == clock_hz as int / target_hz as int / prescale as int - 1,
{
    clock_hz / target_hz / prescale - 1
}

/// The timer interrupt's whole computation: one more tick has elapsed.
/// The caller holds the counter exclusively while this runs.
pub fn on_timer_tick(ticks: &mut u32)
    requires
        *old(ticks) < u32::MAX,
    ensures
        *final(ticks) == *old(ticks) + 1,
{
    *ticks = *ticks + 1;
}

/// Edge detection for one button, sampled as a raw level once per
/// iteration: a press event fires only when the level was low on the
/// previous sample and is high now.
pub struct ButtonTracker {
    /// Whether the previous sample saw the button held low.
    pub previous_low: bool,
}

impl ButtonTracker {
    /// A tracker that has not yet seen the button low.
    pub fn new() -> (r: Self)
        ensures
            r.previous_low == false,
    {
        ButtonTracker { previous_low: false }
    }

    /// Feeds the current raw level and reports whether a press event fires
    /// this iteration.
    pub fn sample(&mut self, level_high: bool) -> (pressed: bool)
        ensures
            pressed == (old(self).previous_low && level_high),
            final(self).previous_low == !level_high,
    {
        let pressed = self.previous_low && level_high;
        self.previous_low = !level_high;
        pressed
    }
}

/// The tempo one guarded encoder step away: a decrement at or below
/// [`MIN_BPM`], or an increment at or above [`MAX_BPM`], is refused before
/// raw saturation could ever act; any other step saturates at the range
/// bounds.
pub open spec fn guarded_tempo_spec(bpm: u16, change: i8) -> u16 {
    if (bpm <= MIN_BPM && change < 0) || (bpm >= MAX_BPM && change > 0) {
        bpm
    } else {
        saturated_add(bpm, change)
    }
}

/// Applies one encoder step to the tempo under the controller's range
/// guard. A single step from inside `[MIN_BPM, MAX_BPM]` stays inside.
pub fn apply_tempo_change(bpm: BPM, change: i8) -> (r: BPM)
    ensures
        r.bpm == guarded_tempo_spec(bpm.bpm, change),
        MIN_BPM <= bpm.bpm <= MAX_BPM && -1 <= change <= 1 ==> MIN_BPM <= r.bpm <= MAX_BPM,
{
    if (bpm.bpm <= MIN_BPM && change < 0) || (bpm.bpm >= MAX_BPM && change > 0) {
        bpm
    } else {
        bpm.adjust(change)
    }
}

/// The channel-select index one encoder step away, circular over
/// `[0, NUM_CHANNELS)`.
pub open spec fn wrap_selected_spec(selected: i8, change: i8) -> i8 {
    let moved = selected + change;
    if moved > NUM_CHANNELS - 1 {
        0
    } else if moved < 0 {
        (NUM_CHANNELS - 1) as i8
    } else {
        moved as i8
    }
}

/// Moves the channel-select index by one encoder step, wrapping at either
/// end of the channel range.
pub fn wrap_selected_channel(selected: i8, change: i8) -> (r: i8)
    requires
        0 <= selected < NUM_CHANNELS as i8,
        -1 <= change <= 1,
    ensures
        r == wrap_selected_spec(selected, change),
        0 <= r < NUM_CHANNELS as i8,
{
    let moved = selected + change;
    if moved > NUM_CHANNELS as i8 - 1 {
        0
    } else if moved < 0 {
        NUM_CHANNELS as i8 - 1
    } else {
        moved
    }
}

/// The whole shared device state the controller decides over: UI mode,
/// channel selection, tempo, derived bar length, and the four channels.
pub struct Controller {
    /// Current UI mode.
    pub state: DeviceState,
    /// Index of the channel the selection modes act on.
    pub selected_channel: i8,
    /// The master tempo.
    pub bpm: BPM,
    /// Bar length derived from the tempo; kept consistent with it.
    pub bar_ticks: TicksPerBar,
    /// The output channels, [`NUM_CHANNELS`] of them.
    pub channels: Vec<ClockChannel>,
}

/// What the controller maintains of each channel: the denominator bound,
/// the numerator the device never moves, an interval consistent with the
/// current bar, and a threshold that never runs away from the bar.
pub open spec fn channel_wf(c: ClockChannel, bar: u32) -> bool {
    &&& c.wf()
    &&& c.prescaler.numerator == 1
    &&& c.threshold_interval == interval_spec(bar, c.prescaler)
    &&& c.threshold <= MAX_THRESHOLD
}

impl Controller {
    /// The controller invariant, established at construction and preserved
    /// by every iteration.
    pub open spec fn wf(self) -> bool {
        &&& self.channels@.len() == NUM_CHANNELS as int
        &&& MIN_BPM <= self.bpm.bpm <= MAX_BPM
        &&& self.bar_ticks.ticks == bar_ticks_spec(self.bpm.bpm)
        &&& 0 <= self.selected_channel < NUM_CHANNELS as i8
        &&& forall|i: int|
            0 <= i < self.channels@.len() ==> channel_wf(
                #[trigger] self.channels@[i],
                self.bar_ticks.ticks,
            )
    }

    /// Builds the device's startup state: running at the default tempo,
    /// first channel selected, and four channels subdividing the bar in
    /// halves, quarters, sixths and eighths.
    pub fn new() -> (r: Controller)
        ensures
            r.wf(),
            r.state == DeviceState::Running,
            r.selected_channel == 0,
            r.bpm.bpm == crate::time::DEFAULT_BPM,
            r.bar_ticks.ticks == bar_ticks_spec(crate::time::DEFAULT_BPM),
            r.channels@.len() == NUM_CHANNELS as int,
            forall|i: int|
                0 <= i < NUM_CHANNELS as int ==> (#[trigger] r.channels@[i]).prescaler
                    == (Prescaler { numerator: 1, denominator: (2 + 2 * i) as u16 }),
            forall|i: int|
                0 <= i < NUM_CHANNELS as int ==> (#[trigger] r.channels@[i]) == (ClockChannel {
                    prescaler: r.channels@[i].prescaler,
                    threshold: (interval_spec(r.bar_ticks.ticks, r.channels@[i].prescaler) as u32),
                    threshold_interval: (interval_spec(
                        r.bar_ticks.ticks,
                        r.channels@[i].prescaler,
                    ) as u32),
                    output: (crate::cv_output::ClockOutput {
                        state: false,
                        led_level: false,
                        output_level: false,
                    }),
                    previous_ticks: 0,
                }),
    {
        let bpm = BPM::default();
        let bar_ticks = TicksPerBar::from(bpm);
        let ticks_per_bar = bar_ticks.ticks;
        let mut channels: Vec<ClockChannel> = Vec::new();
        channels.push(ClockChannel::new(Prescaler::new(1, 2), ticks_per_bar));
        channels.push(ClockChannel::new(Prescaler::new(1, 4), ticks_per_bar));
        channels.push(ClockChannel::new(Prescaler::new(1, 6), ticks_per_bar));
        channels.push(ClockChannel::new(Prescaler::new(1, 8), ticks_per_bar));
        Controller {
            state: DeviceState::Running,
            selected_channel: 0,
            bpm,
            bar_ticks,
            channels,
        }
    }
}

/// A channel's passage through one `Running` iteration's scheduling: reset
/// to the bar boundary when the counter wrapped, then one `update` with the
/// tick count the iteration settled on.
pub open spec fn advanced_channel(c: ClockChannel, reset: bool, t: u32) -> ClockChannel {
    if reset {
        updated(reset_spec(c), t)
    } else {
        updated(c, t)
    }
}

impl Controller {
    /// Applies one guarded encoder step to the tempo, re-derives the bar
    /// length, and recomputes every channel's interval against it. Live
    /// thresholds stay untouched, so the tempo change causes no spurious
    /// pulse.
    pub fn apply_tempo_step(&mut self, change: i8)
        requires
            old(self).wf(),
            -1 <= change <= 1,
        ensures
            final(self).wf(),
            final(self).bpm.bpm == guarded_tempo_spec(old(self).bpm.bpm, change),
            final(self).bar_ticks.ticks == bar_ticks_spec(final(self).bpm.bpm),
            final(self).state == old(self).state,
            final(self).selected_channel == old(self).selected_channel,
            final(self).channels@.len() == old(self).channels@.len(),
            forall|i: int|
                0 <= i < old(self).channels@.len() ==> final(self).channels@[i] == calculated(
                    #[trigger] old(self).channels@[i],
                    final(self).bar_ticks.ticks,
                ),
    {
        self.bpm = apply_tempo_change(self.bpm, change);
        self.bar_ticks = TicksPerBar::from(self.bpm);
        proof {
            lemma_bar_ticks_bounds(self.bpm.bpm);
        }
        let bar = self.bar_ticks.ticks;
        let n = self.channels.len();
        let mut i: usize = 0;
        while i < n
            invariant
                i <= n,
                n == self.channels@.len(),
                self.channels@.len() == old(self).channels@.len(),
                MIN_BPM <= self.bpm.bpm <= MAX_BPM,
                self.bpm.bpm == guarded_tempo_spec(old(self).bpm.bpm, change),
                self.bar_ticks.ticks == bar_ticks_spec(self.bpm.bpm),
                bar == self.bar_ticks.ticks,
                bar <= MAX_BAR_TICKS,
                self.state == old(self).state,
                self.selected_channel == old(self).selected_channel,
                forall|j: int|
                    0 <= j < i ==> #[trigger] self.channels@[j] == calculated(
                        old(self).channels@[j],
                        bar,
                    ),
                forall|j: int| i <= j < n ==> #[trigger] self.channels@[j] == old(self).channels@[j],
                forall|j: int|
                    0 <= j < n ==> channel_wf(
                        #[trigger] old(self).channels@[j],
                        old(self).bar_ticks.ticks,
                    ),
            decreases n - i,
        {
            proof {
                lemma_interval_le_bar(bar, self.channels@[i as int].prescaler);
            }
            self.channels[i].calculate_threshold(bar);
            i = i + 1;
        }
        proof {
            assert forall|j: int| 0 <= j < self.channels@.len() implies channel_wf(
                #[trigger] self.channels@[j],
                self.bar_ticks.ticks,
            ) by {
                lemma_interval_le_bar(bar, old(self).channels@[j].prescaler);
            }
        }
    }

    /// One `Running` iteration's scheduling: when the tick counter has
    /// reached the bar length, zero it and re-synchronize every channel to
    /// the bar boundary; then drive every channel with the resulting count.
    /// The caller holds the counter under its interrupt exclusion for the
    /// whole call, so the read, the conditional reset and the channel
    /// updates act on one consistent count.
    pub fn advance_channels(&mut self, ticks: &mut u32)
        requires
            old(self).wf(),
        ensures
            final(self).wf(),
            final(self).bpm == old(self).bpm,
            final(self).bar_ticks == old(self).bar_ticks,
            final(self).state == old(self).state,
            final(self).selected_channel == old(self).selected_channel,
            final(self).channels@.len() == old(self).channels@.len(),
            *final(ticks) == (if *old(ticks) >= old(self).bar_ticks.ticks {
                0u32
            } else {
                *old(ticks)
            }),
            forall|i: int|
                0 <= i < old(self).channels@.len() ==> final(self).channels@[i]
                    == advanced_channel(
                    #[trigger] old(self).channels@[i],
                    *old(ticks) >= old(self).bar_ticks.ticks,
                    *final(ticks),
                ),
    {
        proof {
            lemma_bar_ticks_bounds(self.bpm.bpm);
        }
        let bar = self.bar_ticks.ticks;
        let n = self.channels.len();
        let ghost did_reset = *old(ticks) >= old(self).bar_ticks.ticks;
        if *ticks >= self.bar_ticks.ticks {
            *ticks = 0;
            let mut i: usize = 0;
            while i < n
                invariant
                    i <= n,
                    n == self.channels@.len(),
                    self.channels@.len() == old(self).channels@.len(),
                    self.bpm == old(self).bpm,
                    self.bar_ticks == old(self).bar_ticks,
                    bar == self.bar_ticks.ticks,
                    self.state == old(self).state,
                    self.selected_channel == old(self).selected_channel,
                    forall|j: int|
                        0 <= j < i ==> #[trigger] self.channels@[j] == reset_spec(
                            old(self).channels@[j],
                        ),
                    forall|j: int|
                        i <= j < n ==> #[trigger] self.channels@[j] == old(self).channels@[j],
                decreases n - i,
            {
                self.channels[i].reset_threshold();
                i = i + 1;
            }
        }
        let t = *ticks;
        assert(t == (if did_reset {
            0u32
        } else {
            *old(ticks)
        }));
        assert(t < bar);
        let ghost base = if did_reset {
            old(self).channels@.map_values(|c: ClockChannel| reset_spec(c))
        } else {
            old(self).channels@
        };
        assert(forall|j: int|
            0 <= j < n ==> #[trigger] self.channels@[j] == base[j]);
        let mut i: usize = 0;
        while i < n
            invariant
                i <= n,
                n == self.channels@.len(),
                self.channels@.len() == old(self).channels@.len(),
                base.len() == n,
                self.bpm == old(self).bpm,
                self.bar_ticks == old(self).bar_ticks,
                bar == self.bar_ticks.ticks,
                MIN_BPM <= self.bpm.bpm <= MAX_BPM,
                bar <= MAX_BAR_TICKS,
                t < bar,
                self.state == old(self).state,
                self.selected_channel == old(self).selected_channel,
                base == (if did_reset {
                    old(self).channels@.map_values(|c: ClockChannel| reset_spec(c))
                } else {
                    old(self).channels@
                }),
                forall|j: int|
                    0 <= j < n ==> channel_wf(
                        #[trigger] old(self).channels@[j],
                        old(self).bar_ticks.ticks,
                    ),
                forall|j: int| 0 <= j < i ==> #[trigger] self.channels@[j] == updated(base[j], t),
                forall|j: int| i <= j < n ==> #[trigger] self.channels@[j] == base[j],
            decreases n - i,
        {
            proof {
                lemma_interval_le_bar(bar, self.channels@[i as int].prescaler);
            }
            self.channels[i].update(t);
            i = i + 1;
        }
        proof {
            assert forall|j: int| 0 <= j < self.channels@.len() implies channel_wf(
                #[trigger] self.channels@[j],
                self.bar_ticks.ticks,
            ) by {
                lemma_interval_le_bar(bar, old(self).channels@[j].prescaler);
            }
        }
    }

    /// Lights only the selected channel's indicator, as the selection modes
    /// show which channel the encoder acts on.
    pub fn highlight_selected(&mut self)
        requires
            old(self).wf(),
        ensures
            final(self).wf(),
            final(self).bpm == old(self).bpm,
            final(self).bar_ticks == old(self).bar_ticks,
            final(self).state == old(self).state,
            final(self).selected_channel == old(self).selected_channel,
            final(self).channels@.len() == old(self).channels@.len(),
            forall|i: int|
                0 <= i < old(self).channels@.len() ==> final(self).channels@[i] == led_set(
                    #[trigger] old(self).channels@[i],
                    i == old(self).selected_channel as int,
                ),
    {
        let n = self.channels.len();
        let mut i: usize = 0;
        while i < n
            invariant
                i <= n,
                n == self.channels@.len(),
                self.channels@.len() == old(self).channels@.len(),
                self.bpm == old(self).bpm,
                self.bar_ticks == old(self).bar_ticks,
                self.state == old(self).state,
                self.selected_channel == old(self).selected_channel,
                forall|j: int|
                    0 <= j < i ==> #[trigger] self.channels@[j] == led_set(
                        old(self).channels@[j],
                        false,
                    ),
                forall|j: int| i <= j < n ==> #[trigger] self.channels@[j] == old(self).channels@[j],
            decreases n - i,
        {
            self.channels[i].set_led(false);
            i = i + 1;
        }
        let sel = self.selected_channel as usize;
        self.channels[sel].set_led(true);
    }

    /// Re-synchronizes every channel to the bar boundary, as the controller
    /// does when a selection mode hands control back to `Running`.
    pub fn reset_all_channels(&mut self)
        requires
            old(self).wf(),
        ensures
            final(self).wf(),
            final(self).bpm == old(self).bpm,
            final(self).bar_ticks == old(self).bar_ticks,
            final(self).state == old(self).state,
            final(self).selected_channel == old(self).selected_channel,
            final(self).channels@.len() == old(self).channels@.len(),
            forall|i: int|
                0 <= i < old(self).channels@.len() ==> final(self).channels@[i] == reset_spec(
                    #[trigger] old(self).channels@[i],
                ),
    {
        proof {
            lemma_bar_ticks_bounds(self.bpm.bpm);
        }
        let n = self.channels.len();
        let mut i: usize = 0;
        while i < n
            invariant
                i <= n,
                n == self.channels@.len(),
                self.channels@.len() == old(self).channels@.len(),
                self.bpm == old(self).bpm,
                self.bar_ticks == old(self).bar_ticks,
                self.state == old(self).state,
                self.selected_channel == old(self).selected_channel,
                forall|j: int|
                    0 <= j < i ==> #[trigger] self.channels@[j] == reset_spec(
                        old(self).channels@[j],
                    ),
                forall|j: int| i <= j < n ==> #[trigger] self.channels@[j] == old(self).channels@[j],
            decreases n - i,
        {
            self.channels[i].reset_threshold();
            i = i + 1;
        }
        proof {
            lemma_bar_ticks_bounds(self.bpm.bpm);
            assert forall|j: int| 0 <= j < self.channels@.len() implies channel_wf(
                #[trigger] self.channels@[j],
                self.bar_ticks.ticks,
            ) by {
                lemma_interval_le_bar(self.bar_ticks.ticks, old(self).channels@[j].prescaler);
            }
        }
    }
}

/// The mode one iteration lands in, given which press events fired. Each
/// mode feeds its events to the transition table in the order the
/// iteration handles them; `Paused` reads only the pause button.
pub open spec fn next_mode_spec(mode: DeviceState, pause: bool, encoder: bool) -> DeviceState {
    match mode {
        DeviceState::Running => if encoder {
            DeviceState::SelectingChannel
        } else if pause {
            DeviceState::Paused
        } else {
            DeviceState::Running
        },
        DeviceState::Paused => if pause {
            DeviceState::Running
        } else {
            DeviceState::Paused
        },
        DeviceState::SelectingChannel => if pause {
            DeviceState::Running
        } else if encoder {
            DeviceState::SettingDivisionState
        } else {
            DeviceState::SelectingChannel
        },
        DeviceState::SettingDivisionState => if pause {
            DeviceState::Running
        } else if encoder {
            DeviceState::SelectingChannel
        } else {
            DeviceState::SettingDivisionState
        },
    }
}

/// The tempo after one iteration: only `Running` feeds encoder motion to
/// the guarded tempo step.
pub open spec fn stepped_bpm(mode: DeviceState, bpm: u16, delta: Option<i8>) -> u16 {
    match mode {
        DeviceState::Running => match delta {
            Some(change) => guarded_tempo_spec(bpm, change),
            None => bpm,
        },
        _ => bpm,
    }
}

/// The channel-select index after one iteration: only `SelectingChannel`
/// feeds encoder motion to the circular selection.
pub open spec fn stepped_selected(mode: DeviceState, selected: i8, delta: Option<i8>) -> i8 {
    match mode {
        DeviceState::SelectingChannel => match delta {
            Some(change) => wrap_selected_spec(selected, change),
            None => selected,
        },
        _ => selected,
    }
}

/// The shared tick counter after one iteration: only `Running` reads it,
/// zeroing it when it has reached the bar length.
pub open spec fn stepped_ticks(mode: DeviceState, t0: u32, new_bar: u32) -> u32 {
    match mode {
        DeviceState::Running => if t0 >= new_bar {
            0u32
        } else {
            t0
        },
        _ => t0,
    }
}

/// A channel's passage through one `Running` iteration: interval retuned
/// when the encoder moved, the bar-boundary reset and update of
/// [`advanced_channel`], then the selection highlight when the encoder
/// button fired.
pub open spec fn running_channel_spec(
    c: ClockChannel,
    retuned: bool,
    new_bar: u32,
    t0: u32,
    highlight: bool,
    is_sel: bool,
) -> ClockChannel {
    let c1 = if retuned {
        calculated(c, new_bar)
    } else {
        c
    };
    let reset = t0 >= new_bar;
    let t1 = if reset {
        0u32
    } else {
        t0
    };
    let c2 = advanced_channel(c1, reset, t1);
    if highlight {
        led_set(c2, is_sel)
    } else {
        c2
    }
}

/// A channel's passage through one `Paused` iteration: frozen, except that
/// the resume press re-synchronizes it to the bar boundary.
pub open spec fn paused_channel_spec(c: ClockChannel, pause: bool) -> ClockChannel {
    if pause {
        reset_spec(c)
    } else {
        c
    }
}

/// A channel's passage through one `SelectingChannel` iteration: the
/// highlight follows encoder motion and the encoder button, and the pause
/// press re-synchronizes everything on the way back to `Running`.
pub open spec fn selecting_channel_spec(
    c: ClockChannel,
    moved: bool,
    confirmed: bool,
    is_sel: bool,
    pause: bool,
) -> ClockChannel {
    let c1 = if moved {
        led_set(c, is_sel)
    } else {
        c
    };
    let c2 = if confirmed {
        led_set(c1, is_sel)
    } else {
        c1
    };
    if pause {
        reset_spec(c2)
    } else {
        c2
    }
}

/// A channel's passage through one `SettingDivisionState` iteration: the
/// selected channel takes the denominator step, the encoder button
/// re-highlights, and the pause press re-synchronizes everything.
pub open spec fn setting_channel_spec(
    c: ClockChannel,
    is_sel: bool,
    delta: Option<i8>,
    bar: u32,
    confirmed: bool,
    pause: bool,
) -> ClockChannel {
    let c1 = match delta {
        Some(change) => if is_sel {
            denominator_updated(led_set(c, true), change, bar)
        } else {
            c
        },
        None => c,
    };
    let c2 = if confirmed {
        led_set(c1, is_sel)
    } else {
        c1
    };
    if pause {
        reset_spec(c2)
    } else {
        c2
    }
}

/// A channel's passage through one whole iteration, by mode. `is_sel`
/// says whether the channel is the selected one after the iteration.
pub open spec fn stepped_channel(
    mode: DeviceState,
    c: ClockChannel,
    is_sel: bool,
    pause: bool,
    encoder: bool,
    delta: Option<i8>,
    new_bar: u32,
    t0: u32,
) -> ClockChannel {
    match mode {
        DeviceState::Running => running_channel_spec(c, delta is Some, new_bar, t0, encoder, is_sel),
        DeviceState::Paused => paused_channel_spec(c, pause),
        DeviceState::SelectingChannel => selecting_channel_spec(
            c,
            delta is Some,
            encoder,
            is_sel,
            pause,
        ),
        DeviceState::SettingDivisionState => setting_channel_spec(
            c,
            is_sel,
            delta,
            new_bar,
            encoder,
            pause,
        ),
    }
}

impl Controller {
    /// One `Running` iteration: encoder motion retunes the tempo and every
    /// channel's interval, the channels advance against the shared tick
    /// counter, the tempo goes to the display, and the buttons move the
    /// mode on.
    pub fn step_running(
        &mut self,
        pause_pressed: bool,
        encoder_pressed: bool,
        encoder_delta: Option<i8>,
        ticks: &mut u32,
    ) -> (display: u16)
        requires
            old(self).wf(),
            old(self).state == DeviceState::Running,
            encoder_delta matches Some(change) ==> -1 <= change <= 1,
        ensures
            final(self).wf(),
            final(self).bpm.bpm == stepped_bpm(
                DeviceState::Running,
                old(self).bpm.bpm,
                encoder_delta,
            ),
            final(self).bar_ticks.ticks == bar_ticks_spec(final(self).bpm.bpm),
            final(self).state == next_mode_spec(
                DeviceState::Running,
                pause_pressed,
                encoder_pressed,
            ),
            final(self).selected_channel == old(self).selected_channel,
            final(self).channels@.len() == old(self).channels@.len(),
            *final(ticks) == stepped_ticks(
                DeviceState::Running,
                *old(ticks),
                final(self).bar_ticks.ticks,
            ),
            forall|i: int|
                0 <= i < old(self).channels@.len() ==> final(self).channels@[i]
                    == running_channel_spec(
                    #[trigger] old(self).channels@[i],
                    encoder_delta is Some,
                    final(self).bar_ticks.ticks,
                    *old(ticks),
                    encoder_pressed,
                    i == old(self).selected_channel as int,
                ),
            display == final(self).bpm.bpm,
    {
        if let Some(change) = encoder_delta {
            self.apply_tempo_step(change);
        }
        self.advance_channels(ticks);
        let display = self.bpm.bpm;
        if pause_pressed {
            self.state = self.state.transition(ButtonPressed::PauseButton);
        }
        if encoder_pressed {
            self.highlight_selected();
            self.state = self.state.transition(ButtonPressed::EncoderButton);
        }
        display
    }

    /// One `Paused` iteration: scheduling is frozen and the display keeps
    /// showing the tempo; the pause button resumes, re-synchronizing every
    /// channel so output restarts at a bar boundary instead of
    /// mid-interval.
    pub fn step_paused(&mut self, pause_pressed: bool) -> (display: u16)
        requires
            old(self).wf(),
            old(self).state == DeviceState::Paused,
        ensures
            final(self).wf(),
            final(self).bpm == old(self).bpm,
            final(self).bar_ticks == old(self).bar_ticks,
            final(self).selected_channel == old(self).selected_channel,
            final(self).state == next_mode_spec(DeviceState::Paused, pause_pressed, false),
            final(self).channels@.len() == old(self).channels@.len(),
            forall|i: int|
                0 <= i < old(self).channels@.len() ==> final(self).channels@[i]
                    == paused_channel_spec(#[trigger] old(self).channels@[i], pause_pressed),
            display == old(self).bpm.bpm,
    {
        if pause_pressed {
            self.reset_all_channels();
            self.state = self.state.transition(ButtonPressed::PauseButton);
        }
        self.bpm.bpm
    }

    /// One `SelectingChannel` iteration: encoder motion moves the
    /// selection circularly and relights the highlight, the encoder button
    /// confirms into division setting, and the pause button returns to
    /// `Running` with every channel re-synchronized.
    pub fn step_selecting_channel(
        &mut self,
        pause_pressed: bool,
        encoder_pressed: bool,
        encoder_delta: Option<i8>,
    ) -> (display: u16)
        requires
            old(self).wf(),
            old(self).state == DeviceState::SelectingChannel,
            encoder_delta matches Some(change) ==> -1 <= change <= 1,
        ensures
            final(self).wf(),
            final(self).bpm == old(self).bpm,
            final(self).bar_ticks == old(self).bar_ticks,
            final(self).selected_channel == stepped_selected(
                DeviceState::SelectingChannel,
                old(self).selected_channel,
                encoder_delta,
            ),
            final(self).state == next_mode_spec(
                DeviceState::SelectingChannel,
                pause_pressed,
                encoder_pressed,
            ),
            final(self).channels@.len() == old(self).channels@.len(),
            forall|i: int|
                0 <= i < old(self).channels@.len() ==> final(self).channels@[i]
                    == selecting_channel_spec(
                    #[trigger] old(self).channels@[i],
                    encoder_delta is Some,
                    encoder_pressed,
                    i == stepped_selected(
                        DeviceState::SelectingChannel,
                        old(self).selected_channel,
                        encoder_delta,
                    ) as int,
                    pause_pressed,
                ),
            display == old(self).bpm.bpm,
    {
        if let Some(change) = encoder_delta {
            let sel = wrap_selected_channel(self.selected_channel, change);
            self.selected_channel = sel;
            self.highlight_selected();
        }
        if encoder_pressed {
            self.highlight_selected();
            self.state = self.state.transition(ButtonPressed::EncoderButton);
        }
        if pause_pressed {
            self.reset_all_channels();
            self.state = self.state.transition(ButtonPressed::PauseButton);
        }
        self.bpm.bpm
    }

    /// One `SettingDivisionState` iteration: encoder motion steps the
    /// selected channel's denominator with wraparound, the denominator
    /// goes to the display, the encoder button returns to channel
    /// selection, and the pause button returns to `Running` with every
    /// channel re-synchronized.
    pub fn step_setting_division(
        &mut self,
        pause_pressed: bool,
        encoder_pressed: bool,
        encoder_delta: Option<i8>,
    ) -> (display: u16)
        requires
            old(self).wf(),
            old(self).state == DeviceState::SettingDivisionState,
        ensures
            final(self).wf(),
            final(self).bpm == old(self).bpm,
            final(self).bar_ticks == old(self).bar_ticks,
            final(self).selected_channel == old(self).selected_channel,
            final(self).state == next_mode_spec(
                DeviceState::SettingDivisionState,
                pause_pressed,
                encoder_pressed,
            ),
            final(self).channels@.len() == old(self).channels@.len(),
            forall|i: int|
                0 <= i < old(self).channels@.len() ==> final(self).channels@[i]
                    == setting_channel_spec(
                    #[trigger] old(self).channels@[i],
                    i == old(self).selected_channel as int,
                    encoder_delta,
                    old(self).bar_ticks.ticks,
                    encoder_pressed,
                    pause_pressed,
                ),
            display == display_spec(
                DeviceState::SettingDivisionState,
                old(self).bpm.bpm,
                old(self).channels@[old(self).selected_channel as int],
                encoder_delta,
            ),
    {
        let bar = self.bar_ticks.ticks;
        let sel = self.selected_channel as usize;
        if let Some(change) = encoder_delta {
            self.channels[sel].set_led(true);
            proof {
                lemma_bar_ticks_bounds(self.bpm.bpm);
                let c = self.channels@[sel as int];
                lemma_interval_le_bar(
                    bar,
                    Prescaler {
                        denominator: next_denominator(c.prescaler.denominator, change),
                        ..c.prescaler
                    },
                );
            }
            self.channels[sel].update_denominator(change, bar);
        }
        let ghost after_delta = self.channels@;
        proof {
            assert forall|i: int| 0 <= i < old(self).channels@.len() implies after_delta[i]
                == (match encoder_delta {
                Some(change) => if i == sel as int {
                    denominator_updated(led_set(old(self).channels@[i], true), change, bar)
                } else {
                    old(self).channels@[i]
                },
                None => old(self).channels@[i],
            }) by {}
        }
        let display = self.channels[sel].get_denominator();
        if encoder_pressed {
            self.highlight_selected();
            self.state = self.state.transition(ButtonPressed::EncoderButton);
        }
        let ghost after_confirm = self.channels@;
        proof {
            assert forall|i: int| 0 <= i < old(self).channels@.len() implies after_confirm[i]
                == (if encoder_pressed {
                led_set(after_delta[i], i == sel as int)
            } else {
                after_delta[i]
            }) by {}
        }
        if pause_pressed {
            self.reset_all_channels();
            self.state = self.state.transition(ButtonPressed::PauseButton);
        }
        proof {
            assert forall|i: int| 0 <= i < old(self).channels@.len() implies self.channels@[i]
                == setting_channel_spec(
                old(self).channels@[i],
                i == old(self).selected_channel as int,
                encoder_delta,
                old(self).bar_ticks.ticks,
                encoder_pressed,
                pause_pressed,
            ) by {
                assert(self.channels@[i] == (if pause_pressed {
                    reset_spec(after_confirm[i])
                } else {
                    after_confirm[i]
                }));
            }
        }
        display
    }

    /// One whole controller iteration, dispatched on the current mode: the
    /// press events and encoder motion go in, the updated device state and
    /// the display value come out, and the shared tick counter is read and
    /// conditionally reset in place. The caller samples the inputs and
    /// holds the tick counter under its interrupt exclusion.
    pub fn step(
        &mut self,
        pause_pressed: bool,
        encoder_pressed: bool,
        encoder_delta: Option<i8>,
        ticks: &mut u32,
    ) -> (display: u16)
        requires
            old(self).wf(),
            encoder_delta matches Some(change) ==> -1 <= change <= 1,
        ensures
            final(self).wf(),
            final(self).state == next_mode_spec(old(self).state, pause_pressed, encoder_pressed),
            final(self).bpm.bpm == stepped_bpm(old(self).state, old(self).bpm.bpm, encoder_delta),
            final(self).bar_ticks.ticks == bar_ticks_spec(final(self).bpm.bpm),
            final(self).selected_channel == stepped_selected(
                old(self).state,
                old(self).selected_channel,
                encoder_delta,
            ),
            *final(ticks) == stepped_ticks(
                old(self).state,
                *old(ticks),
                final(self).bar_ticks.ticks,
            ),
            final(self).channels@.len() == old(self).channels@.len(),
            forall|i: int|
                0 <= i < old(self).channels@.len() ==> final(self).channels@[i] == stepped_channel(
                    old(self).state,
                    #[trigger] old(self).channels@[i],
                    i == stepped_selected(
                        old(self).state,
                        old(self).selected_channel,
                        encoder_delta,
                    ) as int,
                    pause_pressed,
                    encoder_pressed,
                    encoder_delta,
                    final(self).bar_ticks.ticks,
                    *old(ticks),
                ),
            display == display_spec(
                old(self).state,
                final(self).bpm.bpm,
                old(self).channels@[old(self).selected_channel as int],
                encoder_delta,
            ),
    {
        match self.state {
            DeviceState::Running => self.step_running(
                pause_pressed,
                encoder_pressed,
                encoder_delta,
                ticks,
            ),
            DeviceState::Paused => self.step_paused(pause_pressed),
            DeviceState::SelectingChannel => self.step_selecting_channel(
                pause_pressed,
                encoder_pressed,
                encoder_delta,
            ),
            DeviceState::SettingDivisionState => self.step_setting_division(
                pause_pressed,
                encoder_pressed,
                encoder_delta,
            ),
        }
    }
}

/// The value an iteration hands to the display: the selected channel's
/// denominator while it is being set, the tempo in every other mode.
pub open spec fn display_spec(
    mode: DeviceState,
    new_bpm: u16,
    sel_channel: ClockChannel,
    delta: Option<i8>,
) -> u16 {
    match mode {
        DeviceState::SettingDivisionState => match delta {
            Some(change) => next_denominator(sel_channel.prescaler.denominator, change),
            None => sel_channel.prescaler.denominator,
        },
        _ => new_bpm,
    }
}

} // verus!
