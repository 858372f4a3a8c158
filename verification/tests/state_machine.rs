use cloooock_rs::state_machine::ButtonPressed;
use cloooock_rs::state_machine::DeviceState;

#[test]
fn running_transitions() {
    assert_eq!(
        DeviceState::Running.transition(ButtonPressed::PauseButton),
        DeviceState::Paused
    );
    assert_eq!(
        DeviceState::Running.transition(ButtonPressed::EncoderButton),
        DeviceState::SelectingChannel
    );
}

#[test]
fn paused_transitions() {
    assert_eq!(
        DeviceState::Paused.transition(ButtonPressed::PauseButton),
        DeviceState::Running
    );
    assert_eq!(
        DeviceState::Paused.transition(ButtonPressed::EncoderButton),
        DeviceState::SelectingChannel
    );
}

#[test]
fn selecting_channel_transitions() {
    assert_eq!(
        DeviceState::SelectingChannel.transition(ButtonPressed::PauseButton),
        DeviceState::Running
    );
    assert_eq!(
        DeviceState::SelectingChannel.transition(ButtonPressed::EncoderButton),
        DeviceState::SettingDivisionState
    );
}

#[test]
fn setting_division_transitions() {
    assert_eq!(
        DeviceState::SettingDivisionState.transition(ButtonPressed::PauseButton),
        DeviceState::Running
    );
    assert_eq!(
        DeviceState::SettingDivisionState.transition(ButtonPressed::EncoderButton),
        DeviceState::SelectingChannel
    );
}
