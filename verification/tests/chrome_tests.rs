use pump::chrome::{ChromeMessage, ChromeOutcome, EditorChromeState, TimingMode};
use pump::numeric_entry::FreeRateUnit;

fn chrome() -> EditorChromeState {
    EditorChromeState {
        timing_mode: TimingMode::Sync,
        timing_dropdown_open: false,
        hotkey_help_open: false,
        free_rate_unit: FreeRateUnit::Hertz,
        waveform_live: true,
    }
}

#[test]
fn hotkey_help_message_toggles_overlay_state() {
    let mut state = chrome();
    assert!(!state.hotkey_help_open);
    state.reduce(ChromeMessage::ToggleHotkeyHelp);
    assert!(state.hotkey_help_open);
    state.reduce(ChromeMessage::ToggleHotkeyHelp);
    assert!(!state.hotkey_help_open);
}

#[test]
fn opening_hotkey_help_closes_the_timing_dropdown() {
    let mut state = chrome();
    state.reduce(ChromeMessage::ToggleTimingDropdown);
    assert!(state.timing_dropdown_open);
    state.reduce(ChromeMessage::ToggleHotkeyHelp);
    assert!(!state.timing_dropdown_open);
}

#[test]
fn timing_toggle_switches_modes_and_free_unit_selection_is_sound_neutral() {
    let mut state = chrome();
    let outcome = state.reduce(ChromeMessage::ToggleTimingMode);
    assert_eq!(state.timing_mode, TimingMode::Free);
    assert_eq!(outcome, ChromeOutcome { push_history: true, timing_mode_update: Some(TimingMode::Free) });
    assert_eq!(state.free_rate_unit, FreeRateUnit::Hertz);

    state.timing_dropdown_open = true;
    let outcome = state.reduce(ChromeMessage::SelectFreeRateUnit(FreeRateUnit::Milliseconds));
    assert_eq!(state.free_rate_unit, FreeRateUnit::Milliseconds);
    assert!(!state.timing_dropdown_open);
    assert_eq!(outcome, ChromeOutcome { push_history: false, timing_mode_update: None });
}

#[test]
fn waveform_mode_toggles_alone() {
    let mut state = chrome();
    state.timing_dropdown_open = true;
    let outcome = state.reduce(ChromeMessage::ToggleWaveformMode);
    assert!(!state.waveform_live);
    assert!(state.timing_dropdown_open);
    assert_eq!(outcome, ChromeOutcome { push_history: false, timing_mode_update: None });
}
