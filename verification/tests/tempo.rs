use cloooock_rs::controller::apply_tempo_change;
use cloooock_rs::time::BPM;
use cloooock_rs::time::TicksPerBar;

#[test]
fn new_keeps_value() {
    assert_eq!(BPM::new(120).bpm, 120);
    assert_eq!(BPM::new(0).bpm, 0);
}

#[test]
fn default_is_120() {
    let bpm: BPM = Default::default();
    assert_eq!(bpm.bpm, 120);
}

#[test]
fn adjust_moves_by_delta() {
    assert_eq!(BPM::new(120).adjust(1).bpm, 121);
    assert_eq!(BPM::new(120).adjust(-1).bpm, 119);
    assert_eq!(BPM::new(120).adjust(0).bpm, 120);
}

#[test]
fn adjust_saturates_at_zero() {
    assert_eq!(BPM::new(0).adjust(-1).bpm, 0);
    assert_eq!(BPM::new(5).adjust(-100).bpm, 0);
}

#[test]
fn adjust_saturates_at_ceiling() {
    assert_eq!(BPM::new(9_999).adjust(1).bpm, 9_999);
    assert_eq!(BPM::new(9_950).adjust(127).bpm, 9_999);
    assert_eq!(BPM::new(u16::MAX).adjust(1).bpm, 9_999);
    assert_eq!(BPM::new(u16::MAX).adjust(-1).bpm, 9_999);
}

#[test]
fn guard_refuses_increment_at_max() {
    let bpm = apply_tempo_change(BPM::new(9999), 1);
    assert_eq!(bpm.bpm, 9999);
}

#[test]
fn guard_refuses_decrement_at_min() {
    let bpm = apply_tempo_change(BPM::new(30), -1);
    assert_eq!(bpm.bpm, 30);
}

#[test]
fn guard_passes_interior_steps() {
    assert_eq!(apply_tempo_change(BPM::new(120), 1).bpm, 121);
    assert_eq!(apply_tempo_change(BPM::new(120), -1).bpm, 119);
    assert_eq!(apply_tempo_change(BPM::new(31), -1).bpm, 30);
    assert_eq!(apply_tempo_change(BPM::new(9998), 1).bpm, 9999);
}

#[test]
fn bar_ticks_at_120_bpm_is_10000() {
    let bar = TicksPerBar::from(BPM::new(120));
    assert_eq!(bar.ticks, 10_000);
}

#[test]
fn bar_ticks_across_the_range() {
    assert_eq!(TicksPerBar::from(BPM::new(30)).ticks, 40_000);
    assert_eq!(TicksPerBar::from(BPM::new(9999)).ticks, 120);
    assert_eq!(TicksPerBar::from(BPM::new(1)).ticks, 1_200_000);
}

#[test]
fn bar_ticks_positive_at_range_ends() {
    assert!(TicksPerBar::from(BPM::new(30)).ticks > 0);
    assert!(TicksPerBar::from(BPM::new(9999)).ticks > 0);
}

#[test]
fn display_digits_read_decimal_places() {
    let bpm = BPM::new(1234);
    assert_eq!(bpm.display_digit(0), 4);
    assert_eq!(bpm.display_digit(1), 3);
    assert_eq!(bpm.display_digit(2), 2);
    assert_eq!(bpm.display_digit(3), 1);
    assert_eq!(bpm.display_digit(4), 0);
}
