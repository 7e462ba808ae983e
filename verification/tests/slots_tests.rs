use pump::slots::{slot_look, SlotBorder, SlotFill};
use pump::chrome::TimingMode;
use pump::curve::{CurveNode, CurveSegment, EditableCurve, UNIT};
use pump::editor::{CurveEditorState, DeckParams};
use pump::header::CurveSlotMessage;
use pump::slots::{reduce_curve_slot_message, CurveSlotBank, GLOBAL_CURVE_SLOT_COUNT};

fn curve(points: &[(u32, u32)]) -> EditableCurve {
    EditableCurve {
        nodes: points.iter().map(|&(x, y)| CurveNode { x, y }).collect(),
        segments: vec![CurveSegment { tension: 0 }; points.len() - 1],
    }
}

#[test]
fn storing_then_loading_a_slot_brings_the_curve_back() {
    let stored = curve(&[(0, 200_000), (400_000, 900_000), (UNIT, 200_000)]);
    let mut state = CurveEditorState::new(stored.clone(), 250_000, deck(), 0);
    let mut bank = CurveSlotBank::new(4);

    reduce_curve_slot_message(&mut state, &mut bank, CurveSlotMessage::Store { index: 2 });
    assert_eq!(bank.loaded, Some(2));
    assert_eq!(bank.slots[2].as_ref().map(|c| c.nodes.clone()), Some(stored.nodes.clone()));

    state.curve = curve(&[(0, 0), (UNIT, UNIT)]);
    state.selected_curve_nodes = vec![1];
    state.hover_curve_node = Some(1);
    reduce_curve_slot_message(&mut state, &mut bank, CurveSlotMessage::Load { index: 2 });
    assert_eq!(state.curve.nodes, stored.nodes);
    assert_eq!(state.curve.segments, stored.segments);
    assert_eq!(state.phase_offset, 250_000);
    assert!(state.selected_curve_nodes.is_empty());
    assert_eq!(state.hover_curve_node, None);
    assert_eq!(state.history.undo_len(), 0);
}

#[test]
fn loading_an_empty_or_missing_slot_changes_nothing() {
    let start = curve(&[(0, 0), (UNIT, UNIT)]);
    let mut state = CurveEditorState::new(start.clone(), 0, deck(), 0);
    state.selected_curve_nodes = vec![0];
    let mut bank = CurveSlotBank::new(2);

    reduce_curve_slot_message(&mut state, &mut bank, CurveSlotMessage::Load { index: 1 });
    reduce_curve_slot_message(&mut state, &mut bank, CurveSlotMessage::Load { index: 7 });
    reduce_curve_slot_message(&mut state, &mut bank, CurveSlotMessage::Store { index: 7 });
    assert_eq!(state.curve.nodes, start.nodes);
    assert_eq!(state.selected_curve_nodes, vec![0]);
    assert_eq!(bank.loaded, None);
    assert!(bank.slots.iter().all(|slot| slot.is_none()));
}

#[test]
fn a_loaded_slot_shows_drift_until_the_curve_matches_again() {
    let stored = curve(&[(0, 300_000), (600_000, 800_000), (UNIT, 300_000)]);
    let mut state = CurveEditorState::new(stored.clone(), 0, deck(), 0);
    let mut bank = CurveSlotBank::new(GLOBAL_CURVE_SLOT_COUNT);
    assert_eq!(bank.slots.len(), 8);
    assert_eq!(bank.deviated_slot(&state.curve), None);

    reduce_curve_slot_message(&mut state, &mut bank, CurveSlotMessage::Store { index: 5 });
    assert_eq!(bank.deviated_slot(&state.curve), None);

    state.curve = curve(&[(0, 0), (UNIT, UNIT)]);
    assert_eq!(bank.deviated_slot(&state.curve), Some(5));

    state.curve = stored.clone();
    assert_eq!(bank.deviated_slot(&state.curve), None);

    state.curve = curve(&[(0, 0), (UNIT, UNIT)]);
    reduce_curve_slot_message(&mut state, &mut bank, CurveSlotMessage::Load { index: 5 });
    assert_eq!(bank.deviated_slot(&state.curve), None);
}

/// Deck values for tests that do not look at them.
fn deck() -> DeckParams {
    DeckParams {
        mix: UNIT,
        smooth: 0,
        swing: 0,
        depth: 120_000,
        floor: 0,
        output_gain: 0,
        sync_division: 4,
        timing_mode: TimingMode::Sync,
    }
}

#[test]
fn slot_look_prefers_deviation_then_press_then_load_then_hover() {
    let all = slot_look(true, true, true, true, false);
    assert_eq!(all.fill, SlotFill::Deviated);
    assert_eq!(all.border, SlotBorder::Deviated);
    assert!(all.accent_curve && all.wide_stroke && all.loaded_ring);
    assert_eq!(slot_look(false, true, true, true, true).fill, SlotFill::Pressed);
    assert_eq!(slot_look(false, false, true, true, true).fill, SlotFill::Loaded);
    assert_eq!(slot_look(false, false, false, true, true).fill, SlotFill::Hovered);
    let idle = slot_look(false, false, false, false, false);
    assert_eq!(idle.fill, SlotFill::Idle);
    assert_eq!(idle.border, SlotBorder::Muted);
    assert!(!idle.accent_curve && !idle.wide_stroke && !idle.loaded_ring);
    assert!(slot_look(false, false, false, false, true).accent_curve);
    assert_eq!(slot_look(false, false, true, false, false).border, SlotBorder::Accent);
}
