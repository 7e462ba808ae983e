use vstd::prelude::*;
use crate::numeric_entry::FreeRateUnit;

verus! {

/// How the pump cycle is timed: locked to the host tempo, or free-running.
#[derive(Clone, Copy, Debug, PartialEq, Eq, Structural)]
pub enum TimingMode {
    Sync,
    Free,
}

/// The editor's header state around the curve: the timing mode, the open
/// overlays, the unit the free rate is shown in, and whether the waveform
/// view replaces live or holds each completed cycle.
#[derive(Clone, Copy, Debug, PartialEq, Eq, Structural)]
pub struct EditorChromeState {
    pub timing_mode: TimingMode,
    pub timing_dropdown_open: bool,
    pub hotkey_help_open: bool,
    pub free_rate_unit: FreeRateUnit,
    pub waveform_live: bool,
}

/// Header messages that do not touch the curve.
#[derive(Clone, Copy, Debug, PartialEq, Eq, Structural)]
pub enum ChromeMessage {
    ToggleTimingMode,
    ToggleTimingDropdown,
    ToggleHotkeyHelp,
    ToggleWaveformMode,
    SelectFreeRateUnit(FreeRateUnit),
}

/// What a header message asks of the editor besides its own state: whether an
/// undo step is recorded first, and the timing mode to send to the host.
#[derive(Clone, Copy, Debug, PartialEq, Eq, Structural)]
pub struct ChromeOutcome {
    pub push_history: bool,
    pub timing_mode_update: Option<TimingMode>,
}

/// The state and outcome after `message`.
///
/// Switching the timing mode records an undo step, closes the timing dropdown
/// and sends the other mode to the host. The dropdown and the hotkey help
/// toggle; opening the help closes the dropdown. The waveform mode toggles
/// and touches nothing else. Choosing a free-rate unit
/// changes only how the rate is shown, and closes the dropdown.
pub open spec fn spec_chrome_message(state: EditorChromeState, message: ChromeMessage) -> (EditorChromeState, ChromeOutcome) {
    match message {
        ChromeMessage::ToggleTimingMode => {
            let mode = match state.timing_mode {
                TimingMode::Free => TimingMode::Sync,
                TimingMode::Sync => TimingMode::Free,
            };
            (
                EditorChromeState { timing_mode: mode, timing_dropdown_open: false, ..state },
                ChromeOutcome { push_history: true, timing_mode_update: Some(mode) },
            )
        },
        ChromeMessage::ToggleTimingDropdown => (
            EditorChromeState { timing_dropdown_open: !state.timing_dropdown_open, ..state },
            ChromeOutcome { push_history: false, timing_mode_update: None },
        ),
        ChromeMessage::ToggleHotkeyHelp => (
            EditorChromeState {
                hotkey_help_open: !state.hotkey_help_open,
                timing_dropdown_open: if !state.hotkey_help_open {
                    false
                } else {
                    state.timing_dropdown_open
                },
                ..state
            },
            ChromeOutcome { push_history: false, timing_mode_update: None },
        ),
        ChromeMessage::ToggleWaveformMode => (
            EditorChromeState { waveform_live: !state.waveform_live, ..state },
            ChromeOutcome { push_history: false, timing_mode_update: None },
        ),
        ChromeMessage::SelectFreeRateUnit(unit) => (
            EditorChromeState { free_rate_unit: unit, timing_dropdown_open: false, ..state },
            ChromeOutcome { push_history: false, timing_mode_update: None },
        ),
    }
}

impl EditorChromeState {
    /// Apply a header message (see `spec_chrome_message`).
    pub fn reduce(&mut self, message: ChromeMessage) -> (outcome: ChromeOutcome)
        ensures
            (*final(self), outcome) == spec_chrome_message(*old(self), message),
    {
        match message {
            ChromeMessage::ToggleTimingMode => {
                let mode = match self.timing_mode {
                    TimingMode::Free => TimingMode::Sync,
                    TimingMode::Sync => TimingMode::Free,
                };
                self.timing_dropdown_open = false;
                self.timing_mode = mode;
                ChromeOutcome { push_history: true, timing_mode_update: Some(mode) }
            },
            ChromeMessage::ToggleTimingDropdown => {
                self.timing_dropdown_open = !self.timing_dropdown_open;
                ChromeOutcome { push_history: false, timing_mode_update: None }
            },
            ChromeMessage::ToggleHotkeyHelp => {
                self.hotkey_help_open = !self.hotkey_help_open;
                if self.hotkey_help_open {
                    self.timing_dropdown_open = false;
                }
                ChromeOutcome { push_history: false, timing_mode_update: None }
            },
            ChromeMessage::ToggleWaveformMode => {
                self.waveform_live = !self.waveform_live;
                ChromeOutcome { push_history: false, timing_mode_update: None }
            },
            ChromeMessage::SelectFreeRateUnit(unit) => {
                self.free_rate_unit = unit;
                self.timing_dropdown_open = false;
                ChromeOutcome { push_history: false, timing_mode_update: None }
            },
        }
    }
}

/// Toggling the hotkey help twice leaves it as it was, and never reopens the
/// timing dropdown.
pub proof fn law_hotkey_help_toggle_is_an_involution(state: EditorChromeState)
    ensures
        ({
            let (once, _) = spec_chrome_message(state, ChromeMessage::ToggleHotkeyHelp);
            let (twice, _) = spec_chrome_message(once, ChromeMessage::ToggleHotkeyHelp);
            &&& twice.hotkey_help_open == state.hotkey_help_open
            &&& twice.timing_mode == state.timing_mode
            &&& twice.free_rate_unit == state.free_rate_unit
            &&& twice.timing_dropdown_open ==> state.timing_dropdown_open
        }),
{
}

/// Switching the timing mode twice returns to the starting mode.
pub proof fn law_timing_mode_toggle_is_an_involution(state: EditorChromeState)
    ensures
        ({
            let (once, _) = spec_chrome_message(state, ChromeMessage::ToggleTimingMode);
            let (twice, _) = spec_chrome_message(once, ChromeMessage::ToggleTimingMode);
            twice.timing_mode == state.timing_mode
        }),
{
}

} // verus!
