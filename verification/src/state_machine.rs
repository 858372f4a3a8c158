//! The device-mode state machine.
//!
//! Button presses move the device between its four UI modes. The transition
//! function is total: every pair of mode and button maps to exactly one next
//! mode, so no input can fail.

use vstd::prelude::*;

verus! {

/// A button-press event, detected on an edge of the raw level signal.
#[derive(Copy, Clone, Debug, PartialEq, Eq, Structural)]
pub enum ButtonPressed {
    /// The dedicated pause button.
    PauseButton,
    /// The push switch built into the rotary encoder.
    EncoderButton,
}

/// The UI mode the device is in.
#[derive(Copy, Clone, Debug, PartialEq, Eq, Structural)]
pub enum DeviceState {
    /// Outputs advance every iteration; the encoder adjusts the tempo.
    Running,
    /// Channel scheduling is frozen; the display stays live.
    Paused,
    /// The encoder moves the channel-select index.
    SelectingChannel,
    /// The encoder changes the selected channel's denominator.
    SettingDivisionState,
}

/// The full transition table: the next mode for every mode and button.
pub open spec fn transition_spec(state: DeviceState, button: ButtonPressed) -> DeviceState {
    match (state, button) {
        (DeviceState::Running, ButtonPressed::PauseButton) => DeviceState::Paused,
        (DeviceState::Running, ButtonPressed::EncoderButton) => DeviceState::SelectingChannel,
        (DeviceState::Paused, ButtonPressed::PauseButton) => DeviceState::Running,
        (DeviceState::Paused, ButtonPressed::EncoderButton) => DeviceState::SelectingChannel,
        (DeviceState::SelectingChannel, ButtonPressed::PauseButton) => DeviceState::Running,
        (DeviceState::SelectingChannel, ButtonPressed::EncoderButton) => {
            DeviceState::SettingDivisionState
        },
        (DeviceState::SettingDivisionState, ButtonPressed::PauseButton) => DeviceState::Running,
        (DeviceState::SettingDivisionState, ButtonPressed::EncoderButton) => {
            DeviceState::SelectingChannel
        },
    }
}

impl DeviceState {
    /// Consumes a button press and yields the next mode, exactly as the
    /// transition table says.
    pub fn transition(self, button: ButtonPressed) -> (next: DeviceState)
        ensures
            next == transition_spec(self, button),
    {
        match (self, button) {
            (DeviceState::Running, ButtonPressed::PauseButton) => DeviceState::Paused,
            (DeviceState::Running, ButtonPressed::EncoderButton) => DeviceState::SelectingChannel,
            (DeviceState::Paused, ButtonPressed::PauseButton) => DeviceState::Running,
            (DeviceState::Paused, ButtonPressed::EncoderButton) => DeviceState::SelectingChannel,
            (DeviceState::SelectingChannel, ButtonPressed::PauseButton) => DeviceState::Running,
            (DeviceState::SelectingChannel, ButtonPressed::EncoderButton) => {
                DeviceState::SettingDivisionState
            },
            (DeviceState::SettingDivisionState, ButtonPressed::PauseButton) => {
                DeviceState::Running
            },
            (DeviceState::SettingDivisionState, ButtonPressed::EncoderButton) => {
                DeviceState::SelectingChannel
            },
        }
    }
}

} // verus!
