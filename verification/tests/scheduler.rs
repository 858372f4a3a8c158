use cloooock_rs::cv_output::ClockChannel;
use cloooock_rs::cv_output::ClockOutput;
use cloooock_rs::cv_output::Prescaler;

#[test]
fn prescaler_holds_its_parts() {
    let mut p = Prescaler::new(1, 4);
    assert_eq!(p.numerator, 1);
    assert_eq!(p.denominator, 4);
    p.set_numerator(2);
    p.set_denominator(8);
    assert_eq!(p.numerator, 2);
    assert_eq!(p.denominator, 8);
}

#[test]
fn output_keeps_signals_consistent() {
    let mut o = ClockOutput::new();
    assert!(!o.state && !o.led_level && !o.output_level);
    o.set_high();
    assert!(o.state && o.led_level && o.output_level);
    o.set_low();
    assert!(!o.state && !o.led_level && !o.output_level);
    o.toggle();
    assert!(o.state && o.led_level && o.output_level);
    o.toggle();
    assert!(!o.state && !o.led_level && !o.output_level);
}

#[test]
fn new_channel_starts_one_interval_in() {
    let ch = ClockChannel::new(Prescaler::new(1, 4), 10_000);
    assert_eq!(ch.threshold_interval, 2_500);
    assert_eq!(ch.threshold, 2_500);
    assert_eq!(ch.previous_ticks, 0);
    assert!(!ch.output.state);
}

#[test]
fn interval_formula_divides_then_multiplies() {
    // bar / denominator * numerator, with the division truncating first
    let ch = ClockChannel::new(Prescaler::new(3, 7), 10_000);
    assert_eq!(ch.threshold_interval, 10_000 / 7 * 3);
    let ch2 = ClockChannel::new(Prescaler::new(1, 128), 120);
    assert_eq!(ch2.threshold_interval, 0);
}

#[test]
fn calculate_threshold_keeps_live_threshold() {
    let mut ch = ClockChannel::new(Prescaler::new(1, 4), 10_000);
    ch.calculate_threshold(20_000);
    assert_eq!(ch.threshold_interval, 5_000);
    assert_eq!(ch.threshold, 2_500);
}

#[test]
fn calculate_threshold_twice_is_once() {
    let mut a = ClockChannel::new(Prescaler::new(1, 4), 10_000);
    let mut b = ClockChannel::new(Prescaler::new(1, 4), 10_000);
    a.calculate_threshold(7_000);
    b.calculate_threshold(7_000);
    b.calculate_threshold(7_000);
    assert_eq!(a, b);
    assert_eq!(b.threshold, 2_500);
}

#[test]
fn reset_threshold_resynchronizes() {
    let mut ch = ClockChannel::new(Prescaler::new(1, 4), 10_000);
    ch.update(2_500);
    ch.reset_threshold();
    assert_eq!(ch.threshold, 2_500);
    assert_eq!(ch.previous_ticks, 0);
    assert!(ch.output.state);
    assert!(ch.output.led_level);
    assert!(ch.output.output_level);
}

#[test]
fn update_toggles_only_at_threshold() {
    let mut ch = ClockChannel::new(Prescaler::new(1, 4), 10_000);
    ch.update(2_499);
    assert!(!ch.output.state);
    assert_eq!(ch.threshold, 2_500);
    ch.update(2_500);
    assert!(ch.output.state);
    assert_eq!(ch.threshold, 5_000);
    ch.update(2_501);
    assert!(ch.output.state);
    assert_eq!(ch.previous_ticks, 2_501);
}

#[test]
fn toggles_land_on_exact_multiples_for_ten_bars() {
    // interval 10 over a bar of 100 ticks; run ten bars' worth of ticks
    // without a bar reset and demand every toggle sits on a multiple of 10
    let mut ch = ClockChannel::new(Prescaler::new(1, 10), 100);
    ch.reset_threshold();
    assert_eq!(ch.threshold_interval, 10);
    let mut toggles: Vec<u32> = Vec::new();
    let mut state: bool = ch.output.state;
    let mut t: u32 = 1;
    while t <= 1_000 {
        ch.update(t);
        if ch.output.state != state {
            toggles.push(t);
            state = ch.output.state;
        }
        t += 1;
    }
    assert_eq!(toggles.len(), 100);
    for (k, at) in toggles.iter().enumerate() {
        assert_eq!(*at, 10 * (k as u32 + 1));
    }
    assert_eq!(ch.threshold, 1_010);
}

#[test]
fn bar_restart_forces_high_and_resets() {
    let mut ch = ClockChannel::new(Prescaler::new(1, 4), 10_000);
    ch.update(6_000);
    ch.update(7_000);
    assert_eq!(ch.previous_ticks, 7_000);
    ch.update(3);
    assert!(ch.output.state);
    assert_eq!(ch.threshold, ch.threshold_interval);
    assert_eq!(ch.previous_ticks, 3);
}

#[test]
fn denominator_steps_and_recomputes() {
    let mut ch = ClockChannel::new(Prescaler::new(1, 4), 10_000);
    ch.update_denominator(1, 10_000);
    assert_eq!(ch.get_denominator(), 5);
    assert_eq!(ch.threshold_interval, 2_000);
    ch.update_denominator(-1, 10_000);
    assert_eq!(ch.get_denominator(), 4);
    assert_eq!(ch.threshold_interval, 2_500);
    ch.update_denominator(0, 10_000);
    assert_eq!(ch.get_denominator(), 4);
}

#[test]
fn denominator_wraps_at_both_ends() {
    let mut ch = ClockChannel::new(Prescaler::new(1, 128), 10_000);
    ch.update_denominator(1, 10_000);
    assert_eq!(ch.get_denominator(), 1);
    ch.update_denominator(-1, 10_000);
    assert_eq!(ch.get_denominator(), 128);
}

#[test]
fn denominator_closes_after_full_cycle() {
    let mut up = ClockChannel::new(Prescaler::new(1, 7), 10_000);
    let mut down = ClockChannel::new(Prescaler::new(1, 7), 10_000);
    for _ in 0..128 {
        up.update_denominator(1, 10_000);
        down.update_denominator(-1, 10_000);
    }
    assert_eq!(up.get_denominator(), 7);
    assert_eq!(down.get_denominator(), 7);
}

#[test]
fn set_numerator_scales_next_interval() {
    let mut ch = ClockChannel::new(Prescaler::new(1, 4), 10_000);
    ch.set_numerator(3);
    assert_eq!(ch.threshold_interval, 2_500);
    ch.calculate_threshold(10_000);
    assert_eq!(ch.threshold_interval, 7_500);
}

#[test]
fn zero_interval_toggles_on_every_update() {
    // the shortest bar split 128 ways truncates to a zero interval; the
    // threshold then never moves and every update toggles
    let mut ch = ClockChannel::new(Prescaler::new(1, 128), 120);
    assert_eq!(ch.threshold_interval, 0);
    ch.update(0);
    assert!(ch.output.state);
    assert_eq!(ch.threshold, 0);
    ch.update(0);
    assert!(!ch.output.state);
}

#[test]
fn set_led_moves_only_the_indicator() {
    let mut ch = ClockChannel::new(Prescaler::new(1, 4), 10_000);
    ch.set_led(true);
    assert!(ch.output.led_level);
    assert!(!ch.output.state);
    assert!(!ch.output.output_level);
    ch.set_led(false);
    assert!(!ch.output.led_level);
}
