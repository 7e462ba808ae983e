use pump::chrome::TimingMode;
use pump::curve::{CurveNode, CurveSegment, EditableCurve, UNIT};
use pump::editor::{CurveEditorState, DeckParams};
use pump::header::{SoundConfirmation, SoundMessage, SoundSide};
use pump::knob::{HostParamEditSink, HostSink, KnobMessage};
use pump::numeric_entry::NumericEntryTarget;

/// A host that accepts every knob event.
struct AcceptingHost;

impl HostParamEditSink<NumericEntryTarget, u32> for AcceptingHost {
    fn edit(&mut self, _target: NumericEntryTarget, _value: u32) -> bool {
        true
    }

    fn gesture_started(&mut self, _target: NumericEntryTarget) -> bool {
        true
    }

    fn gesture_value(&mut self, _target: NumericEntryTarget, _value: u32) -> bool {
        true
    }

    fn gesture_ended(&mut self, _target: NumericEntryTarget) -> bool {
        true
    }
}

fn deck() -> DeckParams {
    DeckParams {
        mix: UNIT,
        smooth: 0,
        swing: 0,
        depth: 120_000,
        floor: 0,
        output_gain: 0,
        sync_division: 4,
        timing_mode: TimingMode::Sync,
    }
}

fn editor() -> CurveEditorState {
    let points = [(0, UNIT), (100_000, 300_000), (500_000, 700_000), (UNIT, UNIT)];
    let curve = EditableCurve {
        nodes: points.iter().map(|&(x, y)| CurveNode { x, y }).collect(),
        segments: vec![CurveSegment { tension: 0 }; points.len() - 1],
    };
    CurveEditorState::new(curve, 0, deck(), 2_000)
}

fn swing_gesture(state: &mut CurveEditorState, value: u32) {
    let mut active = None;
    let target = NumericEntryTarget::Swing;
    state.reduce_knob(&mut active, &mut HostSink::new(AcceptingHost), target, KnobMessage::GestureStarted);
    state.reduce_knob(&mut active, &mut HostSink::new(AcceptingHost), target, KnobMessage::ValueChanged { value });
    state.reduce_knob(&mut active, &mut HostSink::new(AcceptingHost), target, KnobMessage::GestureEnded);
}

#[test]
fn vim_undo_redo_shortcuts_follow_history_availability() {
    let mut state = editor();
    assert!(!state.dispatch_character('u', false));
    assert!(!state.dispatch_character('U', false));

    let initial_swing = state.deck.swing;
    swing_gesture(&mut state, 250_000);
    assert_ne!(state.deck.swing, initial_swing);
    assert!(state.dispatch_character('u', false));
    assert_eq!(state.deck.swing, initial_swing);
    assert_eq!(state.history.undo_len(), 0);
    assert_eq!(state.history.redo_len(), 1);

    assert!(!state.dispatch_character('u', false));
    assert!(state.dispatch_character('U', false));
    assert_eq!(state.deck.swing, 250_000);
    assert_eq!(state.history.undo_len(), 1);
    assert_eq!(state.history.redo_len(), 0);
}

#[test]
fn vim_shortcuts_do_not_intercept_numeric_entry() {
    let mut state = editor();
    swing_gesture(&mut state, 250_000);
    assert_eq!(state.history.undo_len(), 1);
    assert!(!state.dispatch_character('u', true));
    assert_eq!(state.deck.swing, 250_000);
    assert_eq!(state.history.undo_len(), 1);
}

#[test]
fn free_rate_edits_record_a_step_but_are_not_restored() {
    let mut state = editor();
    let mut active = None;
    state.reduce_knob(&mut active, &mut HostSink::new(AcceptingHost), NumericEntryTarget::FreeRate, KnobMessage::Reset { value: 5_000 });
    assert_eq!(state.free_rate, 5_000);
    assert_eq!(state.history.undo_len(), 1);
    assert!(state.undo());
    assert_eq!(state.free_rate, 5_000);
}

#[test]
fn timing_mode_toggle_is_undoable() {
    let mut state = editor();
    assert_eq!(state.toggle_timing_mode(), TimingMode::Free);
    assert_eq!(state.deck.timing_mode, TimingMode::Free);
    assert!(state.undo());
    assert_eq!(state.deck.timing_mode, TimingMode::Sync);
    assert!(state.redo());
    assert_eq!(state.deck.timing_mode, TimingMode::Free);
}

#[test]
fn ab_copy_and_switch_are_coherent_undo_redo_actions() {
    let mut state = editor();
    state.deck.mix = 200_000;
    state.reduce_sound_message(SoundMessage::SelectSound { side: SoundSide::B, copy: true });
    assert!(!state.sound_sides_differ());
    assert!(state.undo());
    assert!(state.sound_sides_differ());
    assert!(state.redo());
    assert!(!state.sound_sides_differ());
    state.reduce_sound_message(SoundMessage::SelectSound { side: SoundSide::B, copy: false });
    assert_eq!(state.active_sound, SoundSide::B);
    assert!(state.undo());
    assert_eq!(state.active_sound, SoundSide::A);
    assert!(state.redo());
    assert_eq!(state.active_sound, SoundSide::B);
}

#[test]
fn ab_command_copy_switches_to_the_copied_side_and_reports_the_sound() {
    let mut state = editor();
    state.deck.mix = 200_000;
    state.selected_curve_nodes.push(1);

    let update = state.reduce_sound_message(SoundMessage::CopyAndSelectSound(SoundSide::B));
    assert_eq!(update, Some(SoundSide::B));
    assert_eq!(state.active_sound, SoundSide::B);
    assert!(!state.sound_sides_differ());
    assert!(state.selected_curve_nodes.is_empty());
    assert_eq!(state.history.undo_len(), 1);
    assert_eq!(
        state.ab_confirmation,
        Some(SoundConfirmation::CopiedAndSwitched { from: SoundSide::A, to: SoundSide::B })
    );

    assert!(state.undo());
    assert_eq!(state.active_sound, SoundSide::A);
    assert!(state.sound_sides_differ());
    assert!(state.redo());
    assert_eq!(state.active_sound, SoundSide::B);
    assert!(!state.sound_sides_differ());
}

#[test]
fn ab_command_copy_switches_even_when_sides_are_equal() {
    let mut state = editor();
    state.reduce_sound_message(SoundMessage::CopyAndSelectSound(SoundSide::B));
    assert_eq!(state.active_sound, SoundSide::B);
    assert!(!state.sound_sides_differ());
    assert_eq!(state.history.undo_len(), 1);
    assert!(state.undo());
    assert_eq!(state.active_sound, SoundSide::A);
    assert!(state.redo());
    assert_eq!(state.active_sound, SoundSide::B);
}

#[test]
fn equivalent_ab_copy_preserves_undo_and_redo_history() {
    let mut state = editor();
    state.deck.mix = 200_000;
    state.reduce_sound_message(SoundMessage::SelectSound { side: SoundSide::B, copy: true });
    state.deck.mix = 300_000;
    state.reduce_sound_message(SoundMessage::SelectSound { side: SoundSide::B, copy: true });
    assert!(state.undo());
    state.deck.mix = 200_000;
    assert!(!state.sound_sides_differ());

    let undo_len = state.history.undo_len();
    let redo_len = state.history.redo_len();
    state.reduce_sound_message(SoundMessage::SelectSound { side: SoundSide::B, copy: true });
    assert_eq!(state.history.undo_len(), undo_len);
    assert_eq!(state.history.redo_len(), redo_len);
}

#[test]
fn switching_sounds_swaps_their_curves_and_deck_values() {
    let mut state = editor();
    let curve_a = state.curve.clone();
    state.reduce_sound_message(SoundMessage::SelectSound { side: SoundSide::B, copy: false });
    assert_eq!(state.active_sound, SoundSide::B);
    state.deck.swing = 400_000;
    state.curve.nodes[1].y = 900_000;
    let update = state.reduce_sound_message(SoundMessage::SelectSound { side: SoundSide::A, copy: false });
    assert_eq!(update, Some(SoundSide::A));
    assert_eq!(state.active_sound, SoundSide::A);
    assert_eq!(state.deck.swing, 0);
    assert_eq!(state.curve.nodes, curve_a.nodes);
    assert_eq!(state.inactive_sound.deck.swing, 400_000);
    assert_eq!(state.ab_confirmation, Some(SoundConfirmation::Switched { to: SoundSide::A }));

    // Recording any later step clears the confirmation.
    swing_gesture(&mut state, 100_000);
    assert_eq!(state.ab_confirmation, None);
}

#[test]
fn selecting_the_active_sound_changes_nothing() {
    let mut state = editor();
    assert_eq!(state.reduce_sound_message(SoundMessage::SelectSound { side: SoundSide::A, copy: false }), None);
    assert_eq!(state.reduce_sound_message(SoundMessage::CopyAndSelectSound(SoundSide::A)), None);
    assert_eq!(state.history.undo_len(), 0);
}

#[test]
fn sync_division_selection_is_limited_and_undoable() {
    let mut state = editor();
    state.select_sync_division(9, 7);
    assert_eq!(state.deck.sync_division, 7);
    state.select_sync_division(2, 7);
    assert_eq!(state.deck.sync_division, 2);
    assert!(state.undo());
    assert_eq!(state.deck.sync_division, 7);
    assert!(state.undo());
    assert_eq!(state.deck.sync_division, 4);
}

#[test]
fn host_sound_switch_clears_curve_selection_before_projecting_new_curve() {
    let mut state = editor();
    let curve_a = state.curve.clone();
    state.reduce_sound_message(SoundMessage::SelectSound { side: SoundSide::B, copy: false });
    let points = [(0, 100_000), (200_000, 800_000), (450_000, 300_000), (700_000, 900_000), (UNIT, 100_000)];
    state.curve = EditableCurve {
        nodes: points.iter().map(|&(x, y)| CurveNode { x, y }).collect(),
        segments: vec![CurveSegment { tension: 0 }; points.len() - 1],
    };
    let curve_b = state.curve.clone();
    state.reduce_sound_message(SoundMessage::SelectSound { side: SoundSide::A, copy: false });
    assert_eq!(state.curve.nodes, curve_a.nodes);

    state.selected_curve_nodes = vec![1];
    state.active_curve_marquee = Some(pump::editor::ActiveCurveMarquee {
        start: CurveNode { x: 100_000, y: 900_000 },
        current: CurveNode { x: 800_000, y: 100_000 },
    });
    let undo_len = state.history.undo_len();
    assert!(state.apply_host_sound_switch(SoundSide::B));
    assert!(state.selected_curve_nodes.is_empty());
    assert!(state.active_curve_marquee.is_none());
    assert_eq!(state.curve.nodes, curve_b.nodes);
    assert_eq!(state.history.undo_len(), undo_len);
    assert!(!state.apply_host_sound_switch(SoundSide::B));
}

#[test]
fn typed_values_are_stored_without_an_undo_step() {
    let mut state = editor();
    state.apply_numeric_entry_value(NumericEntryTarget::Mix, 400_000);
    state.apply_numeric_entry_value(NumericEntryTarget::OutputGain, 12_000);
    assert_eq!(state.deck.mix, 400_000);
    assert_eq!(state.deck.output_gain, 12_000);
    assert_eq!(state.history.undo_len(), 0);
}
