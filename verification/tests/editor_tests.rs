use pump::chrome::TimingMode;
use pump::curve::{
    has_interactive_deletable_selection, interactive_curve_node_survivors, sample_editable_curve, CurveNode, CurveSegment, EditableCurve,
    CURVE_NODE_MIN_SPACING_X, UNIT,
};
use pump::editor::{
    DeckParams,
    resolve_curve_offset, ActiveCurveMarquee, CurveEditorState, CurvePreviewMessage, PhaseOffsetParam,
};
use pump::knob::{HostParamEditSink, HostSink, SinkCall};
use pump::paint::{CurvePaintSample, RectPoint};
use pump::screen::Point;

/// The push-through threshold of a 300 px wide preview: a 10 px margin over
/// the 258.2 px usable span, in curve units.
const PUSH_THROUGH: u32 = 38_729;

fn no_snap(x: u32) -> u32 {
    x
}

fn curve(points: &[(u32, u32)]) -> EditableCurve {
    EditableCurve {
        nodes: points.iter().map(|&(x, y)| CurveNode { x, y }).collect(),
        segments: vec![CurveSegment { tension: 0 }; points.len() - 1],
    }
}

/// The curve the editor tests start from when they do not set one.
fn default_curve() -> EditableCurve {
    curve(&[(0, UNIT), (100_000, 300_000), (500_000, 700_000), (UNIT, UNIT)])
}

fn four_node_curve() -> EditableCurve {
    curve(&[(0, UNIT), (250_000, 600_000), (500_000, 300_000), (750_000, 500_000), (UNIT, UNIT)])
}

fn legacy_edge_curve() -> EditableCurve {
    curve(&[(0, 750_000), (100, 200_000), (500_000, 450_000), (999_900, 150_000), (UNIT, 750_000)])
}

fn editor(curve: EditableCurve) -> CurveEditorState {
    CurveEditorState::new(curve, 0, deck(), 0)
}

/// A host that accepts every phase offset event.
struct AcceptingHost;

impl HostParamEditSink<PhaseOffsetParam, u32> for AcceptingHost {
    fn edit(&mut self, _target: PhaseOffsetParam, _value: u32) -> bool {
        true
    }

    fn gesture_started(&mut self, _target: PhaseOffsetParam) -> bool {
        true
    }

    fn gesture_value(&mut self, _target: PhaseOffsetParam, _value: u32) -> bool {
        true
    }

    fn gesture_ended(&mut self, _target: PhaseOffsetParam) -> bool {
        true
    }
}

/// Move the interior nodes of segment `index` up by the pointer's upward
/// travel, a thousandth of the cycle per pixel, within the gain range.
fn move_pair(curve: &EditableCurve, index: usize, start: Point, current: Point) -> EditableCurve {
    let mut moved = curve.clone();
    let dy = (start.y as i64 - current.y as i64) * 1_000;
    let last = moved.nodes.len() - 1;
    for i in [index, index + 1] {
        if i > 0 && i < last {
            moved.nodes[i].y = (moved.nodes[i].y as i64 + dy).clamp(0, UNIT as i64) as u32;
        }
    }
    moved
}

/// Snap a phase to the nearest sixteenth of the cycle.
fn sixteenth_grid(x: u32) -> u32 {
    (x + 31_250) / 62_500 * 62_500
}

fn send(state: &mut CurveEditorState, message: CurvePreviewMessage) -> Vec<SinkCall<PhaseOffsetParam, u32>> {
    state.reduce_editor_curve_message(message, &no_snap, &move_pair, &mut HostSink::new(AcceptingHost))
}

fn send_snapping(state: &mut CurveEditorState, message: CurvePreviewMessage) -> Vec<SinkCall<PhaseOffsetParam, u32>> {
    state.reduce_editor_curve_message(message, &sixteenth_grid, &move_pair, &mut HostSink::new(AcceptingHost))
}

fn press(index: usize, pointer: CurveNode, shift_held: bool, option_held: bool) -> CurvePreviewMessage {
    CurvePreviewMessage::PressNode { index, pointer, shift_held, option_held, command_held: false }
}

fn unconstrained_press(index: usize) -> CurvePreviewMessage {
    press(index, CurveNode { x: 0, y: 0 }, false, false)
}

fn drag(index: usize, x: u32, y: u32) -> CurvePreviewMessage {
    CurvePreviewMessage::DragNode { index, node: CurveNode { x, y }, push_through_threshold_x: PUSH_THROUGH }
}

fn modifiers(option_held: bool, command_held: bool, shift_held: bool) -> CurvePreviewMessage {
    CurvePreviewMessage::ModifiersChanged { option_held, command_held, shift_held }
}

fn paint_sample(x: u32, y: u32) -> CurvePaintSample {
    CurvePaintSample {
        node: CurveNode { x, y },
        display_position: RectPoint { x, y },
        outside: false,
    }
}

#[test]
fn legacy_edge_nodes_have_one_painted_hit_and_marquee_survivor_per_side() {
    let curve = legacy_edge_curve();
    assert_eq!(curve.nodes.len(), 5);
    let survivors = interactive_curve_node_survivors(&curve, 0, None);
    assert_eq!(survivors, vec![0, 2, 4]);

    let before = curve.nodes.clone();
    let mut state = editor(curve);
    send(&mut state, CurvePreviewMessage::PressMarquee { start: CurveNode { x: 0, y: UNIT } });
    send(&mut state, CurvePreviewMessage::ReleaseMarquee { current: CurveNode { x: UNIT, y: 0 } });
    assert_eq!(state.selected_curve_nodes, survivors);
    assert_eq!(state.curve.nodes, before);
}

#[test]
fn legacy_edge_active_node_wins_deterministically_for_paint_and_hit() {
    let curve = legacy_edge_curve();
    assert_eq!(interactive_curve_node_survivors(&curve, 0, Some(1)), vec![1, 2, 4]);
    assert_eq!(interactive_curve_node_survivors(&curve, 0, Some(3)), vec![0, 2, 3]);
}

#[test]
fn legacy_edge_hidden_selection_is_not_deleted() {
    let curve = legacy_edge_curve();
    let mut state = editor(curve);
    state.selected_curve_nodes = (0..5).collect();

    send(&mut state, CurvePreviewMessage::DeleteSelectedNodes);

    let remaining = &state.curve.nodes;
    assert_eq!(remaining.len(), 4);
    assert!(remaining.iter().any(|node| node.x == 100));
    assert!(remaining.iter().any(|node| node.x == 999_900));
    assert!(!remaining.iter().any(|node| node.x == 500_000));
}

#[test]
fn legacy_edge_node_drag_preserves_origin_for_vertical_movement() {
    let curve = legacy_edge_curve();
    let origin = curve.nodes[3];
    let mut state = CurveEditorState::new(curve, 100, deck(), 0);

    send(&mut state, press(3, origin, false, false));
    assert_eq!(state.active_curve_node, Some(3));
    send(&mut state, drag(3, origin.x, 350_000));

    assert_eq!(state.curve.nodes.len(), 5);
    assert_eq!(state.curve.nodes[3].x, origin.x);
    assert_eq!(state.curve.nodes[3].y, 350_000);
}

#[test]
fn legacy_edge_group_drag_keeps_zero_delta_feasible_for_vertical_movement() {
    let curve = legacy_edge_curve();
    let origin = curve.nodes[3];
    let mut state = CurveEditorState::new(curve, 100, deck(), 0);
    state.selected_curve_nodes = vec![0, 3];

    send(&mut state, press(3, origin, false, false));
    assert_eq!(
        state.active_curve_node_drag.as_ref().map(|drag| drag.selected_indices.clone()),
        Some(vec![0, 3])
    );
    send(&mut state, drag(3, origin.x, 350_000));

    let dragged = &state.curve.nodes;
    assert_eq!(dragged.len(), 5);
    assert_eq!(dragged[3].x, origin.x);
    assert_eq!(dragged[3].y, 350_000);
    assert_eq!(dragged[0].y, 950_000);
    assert_eq!(dragged[4].y, 950_000);
}

#[test]
fn radiant_editor_curve_drag_updates_editable_curve() {
    let mut state = editor(default_curve());

    send(&mut state, unconstrained_press(1));
    assert_eq!(state.active_curve_node, Some(1));

    send(&mut state, drag(1, 200_000, 250_000));
    assert_eq!(state.curve.nodes[1], CurveNode { x: 200_000, y: 250_000 });
    assert_eq!(state.active_curve_node, Some(1));

    send(
        &mut state,
        CurvePreviewMessage::ReleaseNode {
            index: 1,
            node: CurveNode { x: 240_000, y: 300_000 },
            push_through_threshold_x: PUSH_THROUGH,
            shift_held: false,
            option_held: false,
            command_held: false,
        },
    );
    assert_eq!(state.curve.nodes[1], CurveNode { x: 240_000, y: 300_000 });
    assert_eq!(state.active_curve_node, None);
}

#[test]
fn radiant_editor_marquee_selects_node_centers_without_mutating_curve() {
    let curve = curve(&[(0, 200_000), (200_000, 800_000), (500_000, 500_000), (800_000, 200_000), (UNIT, 200_000)]);
    let before = curve.nodes.clone();
    let mut state = editor(curve);

    send(&mut state, CurvePreviewMessage::PressMarquee { start: CurveNode { x: 150_000, y: 900_000 } });
    send(&mut state, CurvePreviewMessage::DragMarquee { current: CurveNode { x: 600_000, y: 100_000 } });
    assert!(state.active_curve_marquee.is_some());
    send(&mut state, CurvePreviewMessage::ReleaseMarquee { current: CurveNode { x: 600_000, y: 100_000 } });

    assert_eq!(state.selected_curve_nodes, vec![1, 2]);
    assert_eq!(state.curve.nodes, before);
    assert!(state.active_curve_marquee.is_none());
    assert_eq!(state.history.undo_len(), 0);
}

#[test]
fn radiant_editor_shift_drag_from_start_locks_gain_through_vertical_drift() {
    let curve = four_node_curve();
    let origin = curve.nodes[2];
    let crossed = curve.nodes[3];
    let mut state = editor(curve);

    send(&mut state, press(2, origin, true, false));
    send(&mut state, drag(2, 950_000, 50_000));

    let dragged = &state.curve.nodes;
    assert_eq!(dragged.len(), 4);
    assert!(!dragged.contains(&crossed));
    assert_eq!(dragged[2].x, 950_000);
    assert_eq!(dragged[2].y, origin.y);
    assert!(state.shift_hover_held);
    assert_eq!(
        state.active_curve_node_drag.as_ref().and_then(|drag| drag.horizontal_gain_anchor),
        Some(origin.y)
    );
}

#[test]
fn radiant_editor_shift_mid_drag_engages_and_releases_without_gain_jump() {
    let mut state = editor(default_curve());
    let origin = state.curve.nodes[1];

    send(&mut state, press(1, origin, false, false));
    send(&mut state, drag(1, 420_000, 600_000));
    let engaged_gain = state.curve.nodes[1].y;

    send(&mut state, modifiers(false, false, true));
    send(&mut state, drag(1, 500_000, 50_000));
    assert_eq!(state.curve.nodes[1].y, engaged_gain);

    send(&mut state, modifiers(false, false, false));
    assert_eq!(state.curve.nodes[1].y, engaged_gain);

    send(&mut state, drag(1, 550_000, 50_000));
    assert_eq!(state.curve.nodes[1].y, engaged_gain);

    send(&mut state, drag(1, 580_000, 150_000));
    assert_eq!(state.curve.nodes[1].y, engaged_gain + 100_000);
}

#[test]
fn radiant_editor_shift_drag_preserves_wrapped_endpoint_gain() {
    let mut state = editor(default_curve());
    let origin = state.curve.nodes[0];

    send(&mut state, press(0, origin, true, false));
    send(&mut state, drag(0, 800_000, 200_000));

    let dragged = &state.curve.nodes;
    let last = dragged.len() - 1;
    assert_eq!(dragged[0].x, 0);
    assert_eq!(dragged[last].x, UNIT);
    assert_eq!(dragged[0].y, origin.y);
    assert_eq!(dragged[last].y, origin.y);
}

#[test]
fn radiant_editor_shift_anchor_does_not_leak_into_consecutive_gesture() {
    let mut state = editor(default_curve());
    let origin = state.curve.nodes[1];

    send(&mut state, press(1, origin, true, false));
    send(
        &mut state,
        CurvePreviewMessage::ReleaseNode {
            index: 1,
            node: CurveNode { x: 400_000, y: 100_000 },
            push_through_threshold_x: PUSH_THROUGH,
            shift_held: true,
            option_held: false,
            command_held: false,
        },
    );
    assert!(state.active_curve_node_drag.is_none());

    let second_origin = state.curve.nodes[1];
    send(&mut state, press(1, second_origin, false, false));
    send(&mut state, drag(1, 450_000, 250_000));

    assert_eq!(state.curve.nodes[1].y, 250_000);
    assert!(!state.shift_hover_held);
}

fn time_lock_curve() -> EditableCurve {
    curve(&[(0, 800_000), (250_000, 600_000), (530_000, 300_000), (750_000, 500_000), (UNIT, 800_000)])
}

#[test]
fn radiant_editor_shift_option_drag_from_start_locks_time_while_gain_moves() {
    let curve = time_lock_curve();
    let origin = curve.nodes[2];
    let mut state = editor(curve);

    send(&mut state, press(2, origin, true, true));
    send(&mut state, drag(2, 980_000, 50_000));

    let dragged = &state.curve.nodes;
    assert_eq!(dragged.len(), 5);
    assert_eq!(dragged[2].x, origin.x);
    assert_eq!(dragged[2].y, 50_000);
    let active = state.active_curve_node_drag.as_ref().expect("drag in progress");
    assert_eq!(active.vertical_time_anchor, Some(origin.x));
    assert!(active.horizontal_gain_anchor.is_none());
}

#[test]
fn radiant_editor_shift_option_mid_drag_engages_and_releases_without_jump() {
    let mut state = editor(default_curve());
    let origin = state.curve.nodes[1];

    send(&mut state, press(1, origin, false, false));
    send(&mut state, drag(1, 420_000, 600_000));
    let engaged = state.curve.nodes[1];

    send(&mut state, modifiers(true, false, true));
    send(&mut state, drag(1, 900_000, 200_000));
    let constrained = state.curve.nodes[1];
    assert_eq!(constrained.x, engaged.x);
    assert_eq!(constrained.y, 200_000);

    send(&mut state, modifiers(false, false, false));
    send(&mut state, drag(1, 900_000, 200_000));
    let released = state.curve.nodes[1];
    assert_eq!(released, constrained);

    send(&mut state, drag(1, 940_000, 300_000));
    let resumed = state.curve.nodes[1];
    assert_eq!(resumed.x, released.x + 40_000);
    assert_eq!(resumed.y, 300_000);
}

#[test]
fn radiant_editor_option_release_transitions_smoothly_to_shift_only() {
    let curve = time_lock_curve();
    let origin = curve.nodes[2];
    let mut state = editor(curve);

    send(
        &mut state,
        CurvePreviewMessage::PressNode { index: 2, pointer: origin, shift_held: true, option_held: true, command_held: true },
    );
    send(&mut state, drag(2, 900_000, 100_000));
    let vertical = state.curve.nodes[2];
    assert_eq!(vertical.x, origin.x);
    assert_eq!(vertical.y, 100_000);

    send(&mut state, modifiers(false, true, true));
    send(&mut state, drag(2, 900_000, 100_000));
    let handoff = state.curve.nodes[2];
    assert_eq!(handoff, vertical);

    send(&mut state, modifiers(false, false, true));
    send(&mut state, drag(2, 940_000, 900_000));
    let horizontal = state.curve.nodes[2];
    assert_eq!(horizontal.x, handoff.x + 40_000);
    assert_eq!(horizontal.y, handoff.y);
}

#[test]
fn radiant_editor_shift_option_precedes_command_and_preserves_boundaries() {
    let curve = time_lock_curve();
    let origin = curve.nodes[2];
    let mut state = editor(curve);

    send(&mut state, press(2, origin, true, true));
    send(&mut state, modifiers(true, true, true));
    send(&mut state, drag(2, 1_500_000, 1_500_000));
    let high = &state.curve.nodes;
    assert_eq!(high.len(), 5);
    assert_eq!(high[2].x, origin.x);
    assert_eq!(high[2].y, UNIT);

    send(&mut state, modifiers(true, false, true));
    send(&mut state, drag(2, 0, 0));
    let low = &state.curve.nodes;
    assert_eq!(low.len(), 5);
    assert_eq!(low[2].x, origin.x);
    assert_eq!(low[2].y, 0);
}

#[test]
fn radiant_editor_vertical_anchor_clears_on_cancel_and_consecutive_gesture() {
    let mut state = editor(default_curve());
    let origin = state.curve.nodes[1];

    send(&mut state, press(1, origin, true, true));
    send(&mut state, drag(1, 800_000, 200_000));
    send(&mut state, CurvePreviewMessage::Cancel);
    assert!(state.active_curve_node_drag.is_none());
    assert!(!state.shift_hover_held);
    assert!(!state.option_hover_held);

    let second_origin = state.curve.nodes[1];
    send(&mut state, press(1, second_origin, false, false));
    send(&mut state, drag(1, 400_000, 400_000));
    assert_eq!(state.curve.nodes[1], CurveNode { x: 400_000, y: 400_000 });
}

#[test]
fn radiant_editor_curve_drag_sticks_before_neighbor_boundary() {
    let curve = four_node_curve();
    let neighbour = curve.nodes[3];
    let mut state = editor(curve);

    send(&mut state, unconstrained_press(2));
    send(&mut state, drag(2, neighbour.x + PUSH_THROUGH - 1_000, 400_000));

    let dragged = &state.curve.nodes;
    assert_eq!(dragged.len(), 5);
    assert_eq!(dragged[3], neighbour);
    assert!(dragged[2].x <= neighbour.x - CURVE_NODE_MIN_SPACING_X);
    assert_eq!(state.active_curve_node, Some(2));
}

#[test]
fn radiant_editor_curve_drag_removes_crossed_neighbor() {
    let curve = four_node_curve();
    let crossed = curve.nodes[3];
    let mut state = editor(curve);

    send(&mut state, unconstrained_press(2));
    send(&mut state, drag(2, 950_000, 400_000));

    let dragged = &state.curve;
    assert_eq!(dragged.nodes.len(), 4);
    assert!(!dragged.nodes.contains(&crossed));
    assert_eq!(dragged.segments.len(), dragged.nodes.len() - 1);
    assert_eq!(state.active_curve_node, Some(2));
    assert_eq!(state.hover_curve_node, Some(2));
}

#[test]
fn radiant_editor_curve_drag_removes_multiple_crossed_neighbors() {
    let curve = curve(&[(0, UNIT), (200_000, 600_000), (400_000, 300_000), (600_000, 700_000), (800_000, 200_000), (UNIT, UNIT)]);
    let mut state = editor(curve);

    send(&mut state, unconstrained_press(1));
    send(&mut state, drag(1, 980_000, 450_000));

    let dragged = &state.curve.nodes;
    assert_eq!(dragged.len(), 3);
    assert_eq!(dragged[0].x, 0);
    assert_eq!(dragged[1].x, 980_000);
    assert_eq!(dragged[2].x, UNIT);
    assert_eq!(state.active_curve_node, Some(1));
}

#[test]
fn radiant_editor_selected_nodes_drag_as_group_with_spacing_clamp() {
    let curve = curve(&[(0, 800_000), (200_000, 200_000), (400_000, 400_000), (700_000, 600_000), (UNIT, 800_000)]);
    let pressed = curve.nodes[1];
    let mut state = editor(curve);
    state.selected_curve_nodes = vec![1, 2];

    send(&mut state, press(1, pressed, false, false));
    assert_eq!(state.selected_curve_nodes, vec![1, 2]);
    send(&mut state, drag(1, 950_000, 800_000));

    let moved = state.curve.nodes.clone();
    assert_eq!(moved.len(), 5);
    assert_eq!(moved[1].x, moved[2].x - 200_000);
    assert!(moved[2].x <= moved[3].x - CURVE_NODE_MIN_SPACING_X);
    assert_eq!(moved[1].y, 800_000);
    assert_eq!(moved[2].y, UNIT);
    assert_eq!(moved[0].x, 0);
    assert_eq!(moved[4].x, UNIT);
    assert_eq!(state.selected_curve_nodes, vec![1, 2]);

    send(
        &mut state,
        CurvePreviewMessage::ReleaseNode {
            index: 1,
            node: moved[1],
            push_through_threshold_x: PUSH_THROUGH,
            shift_held: false,
            option_held: false,
            command_held: false,
        },
    );
    assert_eq!(state.selected_curve_nodes, vec![1, 2]);
}

#[test]
fn radiant_editor_pressing_unselected_node_clears_group_selection() {
    let mut state = editor(default_curve());
    let pressed = state.curve.nodes[2];
    state.selected_curve_nodes = vec![1];

    send(&mut state, press(2, pressed, false, false));

    assert!(state.selected_curve_nodes.is_empty());
    assert!(state.active_curve_node_drag.as_ref().is_some_and(|drag| drag.selected_indices.is_empty()));
}

#[test]
fn radiant_editor_delete_selected_nodes_preserves_endpoints_and_clears_state() {
    let curve = curve(&[(0, 500_000), (300_000, 200_000), (600_000, 800_000), (UNIT, 500_000)]);
    let marquee = ActiveCurveMarquee { start: curve.nodes[1], current: curve.nodes[2] };
    let mut state = editor(curve);
    state.selected_curve_nodes = vec![0, 1, 2, 3];
    state.active_curve_marquee = Some(marquee);

    send(&mut state, CurvePreviewMessage::DeleteSelectedNodes);

    let remaining = &state.curve;
    assert_eq!(remaining.nodes.len(), 2);
    assert_eq!(remaining.segments.len(), 1);
    assert_eq!(remaining.nodes[0].x, 0);
    assert_eq!(remaining.nodes[1].x, UNIT);
    assert!(state.selected_curve_nodes.is_empty());
    assert!(state.active_curve_marquee.is_none());
    assert!(state.active_curve_node_drag.is_none());
}

#[test]
fn radiant_editor_curve_drag_reverse_restores_buffered_neighbors() {
    let mut curve = four_node_curve();
    curve.segments = vec![
        CurveSegment { tension: 150_000 },
        CurveSegment { tension: -250_000 },
        CurveSegment { tension: 350_000 },
        CurveSegment { tension: -50_000 },
    ];
    let unchanged = curve.clone();
    let mut state = editor(curve);

    send(&mut state, unconstrained_press(2));
    send(&mut state, drag(2, 950_000, 400_000));
    assert_eq!(state.curve.nodes.len(), 4);

    send(&mut state, drag(2, 550_000, 400_000));
    assert_eq!(state.curve.nodes.len(), 5);
    assert_eq!(state.curve.nodes[3], unchanged.nodes[3]);
    assert_eq!(state.curve.segments, unchanged.segments);
    assert_eq!(state.active_curve_node, Some(2));
}

#[test]
fn radiant_editor_curve_drag_release_commits_visible_crossings() {
    let curve = four_node_curve();
    let crossed = curve.nodes[3];
    let mut state = editor(curve);

    send(&mut state, unconstrained_press(2));
    send(
        &mut state,
        CurvePreviewMessage::ReleaseNode {
            index: 2,
            node: CurveNode { x: 950_000, y: 400_000 },
            push_through_threshold_x: PUSH_THROUGH,
            shift_held: false,
            option_held: false,
            command_held: false,
        },
    );

    assert_eq!(state.curve.nodes.len(), 4);
    assert!(!state.curve.nodes.contains(&crossed));
    assert_eq!(state.active_curve_node, None);
    assert!(state.active_curve_node_drag.is_none());
}

#[test]
fn radiant_editor_curve_drag_keeps_endpoints_anchored() {
    let curve = curve(&[(0, UNIT), (500_000, 250_000), (UNIT, UNIT)]);
    let mut state = editor(curve);

    send(&mut state, unconstrained_press(0));
    send(&mut state, drag(0, 900_000, 310_000));

    let dragged = &state.curve.nodes;
    let last = dragged.len() - 1;
    assert_eq!(dragged.len(), 3);
    assert_eq!(dragged[0].x, 0);
    assert_eq!(dragged[last].x, UNIT);
    assert_eq!(dragged[0].y, 310_000);
    assert_eq!(dragged[last].y, 310_000);
}

#[test]
fn radiant_editor_curve_delete_removes_interior_node() {
    let before = default_curve();
    let mut state = editor(before.clone());
    state.active_curve_node = Some(1);
    state.hover_curve_node = Some(1);
    state.preview_curve_node = Some(CurveNode { x: 200_000, y: 300_000 });
    state.hover_curve_segment = Some(0);

    send(&mut state, CurvePreviewMessage::DeleteNode { index: 1 });

    assert_eq!(state.curve.nodes.len() + 1, before.nodes.len());
    assert_eq!(state.curve.segments.len(), state.curve.nodes.len() - 1);
    assert_eq!(state.active_curve_node, None);
    assert!(state.active_curve_segment.is_none());
    assert_eq!(state.hover_curve_node, None);
    assert_eq!(state.preview_curve_node, None);
    assert_eq!(state.hover_curve_segment, None);
    assert_eq!(state.history.undo_len(), 1);
}

#[test]
fn radiant_editor_curve_delete_ignores_endpoints() {
    let before = default_curve();
    let mut state = editor(before.clone());
    state.hover_curve_node = Some(0);

    send(&mut state, CurvePreviewMessage::DeleteNode { index: 0 });

    assert_eq!(state.curve.nodes, before.nodes);
    assert_eq!(state.curve.segments, before.segments);
}

#[test]
fn radiant_editor_curve_insert_adds_preview_node_to_params() {
    let before = default_curve();
    let mut state = editor(before.clone());
    state.preview_curve_node = Some(CurveNode { x: 200_000, y: 0 });
    state.hover_curve_segment = Some(1);
    state.option_hover_held = true;
    let node = CurveNode { x: 200_000, y: sample_editable_curve(&before, 200_000) };

    send(&mut state, CurvePreviewMessage::InsertNode { node, command_held: false });

    let after = &state.curve;
    assert_eq!(after.nodes.len(), before.nodes.len() + 1);
    assert_eq!(after.segments.len(), after.nodes.len() - 1);
    assert_eq!(state.active_curve_node, Some(2));
    assert_eq!(state.preview_curve_node, None);
    assert_eq!(state.hover_curve_segment, None);
    assert!(after.nodes.contains(&node));
}

#[test]
fn radiant_editor_option_hover_clears_insert_preview() {
    let mut state = editor(default_curve());
    state.preview_curve_node = Some(CurveNode { x: 200_000, y: 300_000 });
    state.hover_curve_segment = Some(1);

    send(&mut state, modifiers(true, false, false));

    assert_eq!(state.preview_curve_node, None);
    assert_eq!(state.hover_curve_segment, Some(1));
    assert!(state.option_hover_held);
}

#[test]
fn radiant_editor_segment_drag_bends_with_pointer_direction() {
    let curve = curve(&[(0, 200_000), (500_000, 800_000), (UNIT, 200_000)]);
    let baseline_midpoint = sample_editable_curve(&curve, 250_000);
    let mut state = editor(curve);
    state.option_hover_held = true;
    let start = Point { x: 120, y: 48 };

    send(&mut state, CurvePreviewMessage::PressSegment { index: 0, position: start });
    assert!(state.active_curve_segment.is_some());
    assert_eq!(state.preview_curve_node, None);

    send(&mut state, CurvePreviewMessage::DragSegment { index: 0, position: Point { x: start.x, y: start.y - 24 } });
    let upward_midpoint = sample_editable_curve(&state.curve, 250_000);
    assert!(upward_midpoint > baseline_midpoint);

    send(&mut state, CurvePreviewMessage::DragSegment { index: 0, position: Point { x: start.x, y: start.y + 24 } });
    let downward_midpoint = sample_editable_curve(&state.curve, 250_000);
    assert!(downward_midpoint < baseline_midpoint);

    send(&mut state, CurvePreviewMessage::ReleaseSegment { index: 0, position: Point { x: start.x, y: start.y + 24 } });
    assert!(state.active_curve_segment.is_none());
    assert_eq!(state.hover_curve_segment, Some(0));
}

#[test]
fn command_segment_press_moves_the_pair_and_records_one_undo_step() {
    let origin = four_node_curve();
    let mut state = editor(origin.clone());
    let start = Point { x: 120, y: 48 };

    send(&mut state, CurvePreviewMessage::PressSegmentMove { index: 1, position: start });
    assert!(state.active_curve_segment.as_ref().is_some_and(|d| d.move_pair));
    assert!(state.command_hover_held);
    assert_eq!(state.hover_curve_segment, Some(1));
    assert_eq!(state.history.undo_len(), 1);

    send(&mut state, CurvePreviewMessage::DragSegment { index: 1, position: Point { x: 120, y: 38 } });
    assert_eq!(state.curve.nodes[1].y, origin.nodes[1].y + 10_000);
    assert_eq!(state.curve.nodes[2].y, origin.nodes[2].y + 10_000);
    assert_eq!(state.curve.segments, origin.segments);

    send(&mut state, CurvePreviewMessage::ReleaseSegment { index: 1, position: Point { x: 120, y: 28 } });
    assert!(state.active_curve_segment.is_none());
    assert_eq!(state.curve.nodes[1].y, origin.nodes[1].y + 20_000);
    assert_eq!(state.hover_curve_segment, Some(1));
    assert_eq!(state.history.undo_len(), 1);

    assert!(state.undo());
    assert_eq!(state.curve.nodes, origin.nodes);
}

#[test]
fn command_segment_press_past_the_last_segment_does_nothing_but_record() {
    let origin = default_curve();
    let mut state = editor(origin.clone());
    send(&mut state, CurvePreviewMessage::PressSegmentMove { index: 9, position: Point { x: 1, y: 1 } });
    assert!(state.active_curve_segment.is_none());
    assert!(!state.command_hover_held);
    assert_eq!(state.curve.nodes, origin.nodes);
}

fn flat_curve() -> EditableCurve {
    curve(&[(0, 500_000), (UNIT, 500_000)])
}

#[test]
fn undo_discards_active_curve_paint_before_restoring_history() {
    let origin = flat_curve();
    let mut state = editor(origin.clone());

    send(&mut state, CurvePreviewMessage::PressPaint { sample: paint_sample(200_000, 200_000) });
    send(&mut state, CurvePreviewMessage::DragPaint { sample: paint_sample(800_000, 800_000) });
    send(&mut state, CurvePreviewMessage::ReleasePaint { sample: None });
    let painted = state.curve.clone();
    assert_ne!(painted.nodes, origin.nodes);
    assert_eq!(state.history.undo_len(), 1);

    send(&mut state, CurvePreviewMessage::PressPaint { sample: paint_sample(300_000, 900_000) });
    send(&mut state, CurvePreviewMessage::DragPaint { sample: paint_sample(700_000, 100_000) });
    assert!(state.active_curve_paint.is_some());

    assert!(state.handle_undo());
    assert!(state.active_curve_paint.is_none());
    assert_eq!(state.curve.nodes, origin.nodes);
    assert_eq!(state.curve.segments, origin.segments);
    assert_eq!(state.history.undo_len(), 0);
    assert_eq!(state.history.redo_len(), 1);

    send(&mut state, CurvePreviewMessage::ReleasePaint { sample: Some(paint_sample(700_000, 100_000)) });
    assert_eq!(state.curve.nodes, origin.nodes);
    assert_eq!(state.history.undo_len(), 0);
    assert_eq!(state.history.redo_len(), 1);
}

#[test]
fn redo_discards_active_curve_paint_before_restoring_history() {
    let origin = flat_curve();
    let mut state = editor(origin.clone());

    send(&mut state, CurvePreviewMessage::PressPaint { sample: paint_sample(200_000, 200_000) });
    send(&mut state, CurvePreviewMessage::DragPaint { sample: paint_sample(800_000, 800_000) });
    send(&mut state, CurvePreviewMessage::ReleasePaint { sample: None });
    let painted = state.curve.clone();
    assert!(state.undo());
    assert_eq!(state.curve.nodes, origin.nodes);
    assert_eq!(state.history.redo_len(), 1);

    send(&mut state, CurvePreviewMessage::PressPaint { sample: paint_sample(300_000, 900_000) });
    send(&mut state, CurvePreviewMessage::DragPaint { sample: paint_sample(700_000, 100_000) });
    assert!(state.active_curve_paint.is_some());

    assert!(state.handle_redo());
    assert!(state.active_curve_paint.is_none());
    assert_eq!(state.curve.nodes, painted.nodes);
    assert_eq!(state.history.undo_len(), 1);
    assert_eq!(state.history.redo_len(), 0);

    send(&mut state, CurvePreviewMessage::ReleasePaint { sample: Some(paint_sample(700_000, 100_000)) });
    assert_eq!(state.curve.nodes, painted.nodes);
    assert_eq!(state.history.undo_len(), 1);
    assert_eq!(state.history.redo_len(), 0);
}

#[test]
fn undo_and_redo_without_a_step_keep_a_paint_stroke() {
    let origin = flat_curve();
    let mut state = editor(origin.clone());
    send(&mut state, CurvePreviewMessage::PressPaint { sample: paint_sample(200_000, 200_000) });
    send(&mut state, CurvePreviewMessage::DragPaint { sample: paint_sample(800_000, 800_000) });
    assert!(state.active_curve_paint.is_some());
    let painting = state.curve.clone();

    assert!(!state.undo());
    assert!(!state.redo());
    assert!(state.active_curve_paint.is_some());
    assert_eq!(state.curve.nodes, painting.nodes);

    assert!(!state.handle_undo());
    assert!(state.active_curve_paint.is_none());
    assert_eq!(state.history.undo_len(), 0);
    assert_eq!(state.history.redo_len(), 0);
}

#[test]
fn paint_undo_step_is_taken_when_the_stroke_begins() {
    let origin = flat_curve();
    let mut state = editor(origin.clone());
    let mix_before = state.deck.mix;
    send(&mut state, CurvePreviewMessage::PressPaint { sample: paint_sample(200_000, 200_000) });
    send(&mut state, CurvePreviewMessage::DragPaint { sample: paint_sample(800_000, 800_000) });
    state.apply_numeric_entry_value(pump::numeric_entry::NumericEntryTarget::Mix, 123_000);
    send(&mut state, CurvePreviewMessage::ReleasePaint { sample: None });
    assert_ne!(state.curve.nodes, origin.nodes);
    assert_eq!(state.deck.mix, 123_000);
    assert!(state.undo());
    assert_eq!(state.curve.nodes, origin.nodes);
    assert_eq!(state.deck.mix, mix_before);
}

#[test]
fn paint_cancel_leaves_curve_and_history() {
    let origin = flat_curve();
    let mut state = editor(origin.clone());
    send(&mut state, CurvePreviewMessage::PressPaint { sample: paint_sample(200_000, 200_000) });
    send(&mut state, CurvePreviewMessage::DragPaint { sample: paint_sample(800_000, 800_000) });
    send(&mut state, CurvePreviewMessage::Cancel);
    send(&mut state, CurvePreviewMessage::ReleasePaint { sample: None });
    assert_eq!(state.curve.nodes, origin.nodes);
    assert_eq!(state.history.undo_len(), 0);
}

#[test]
fn recorded_edit_undo_restores_the_curve() {
    let before = default_curve();
    let mut state = editor(before.clone());
    send(&mut state, CurvePreviewMessage::DeleteNode { index: 1 });
    assert_ne!(state.curve.nodes, before.nodes);
    assert!(state.undo());
    assert_eq!(state.curve.nodes, before.nodes);
    assert_eq!(state.curve.segments, before.segments);
    assert!(state.redo());
    assert_eq!(state.curve.nodes.len(), before.nodes.len() - 1);
}

#[test]
fn radiant_editor_cmd_shift_offset_moves_only_phase_and_commits_on_release() {
    let origin = default_curve();
    let mut state = editor(origin.clone());

    let calls = send(&mut state, CurvePreviewMessage::PressCurveOffset { pointer_x: 400_000, quantized: false });
    assert_eq!(calls, vec![SinkCall::GestureStarted { target: PhaseOffsetParam, accepted: true }]);
    assert_eq!(state.history.undo_len(), 1);
    send(&mut state, CurvePreviewMessage::DragCurveOffset { delta: 250_000 });
    assert!(state.active_curve_offset.is_some());
    assert_eq!(state.curve.nodes, origin.nodes);
    assert_eq!(state.phase_offset, 250_000);

    let calls = send(&mut state, CurvePreviewMessage::ReleaseCurveOffset { delta: 250_000, option_held: false });
    assert_eq!(
        calls,
        vec![
            SinkCall::GestureValue { target: PhaseOffsetParam, value: 250_000, accepted: true },
            SinkCall::GestureEnded { target: PhaseOffsetParam, accepted: true },
        ]
    );
    assert!(state.active_curve_offset.is_none());
    assert_eq!(state.curve.nodes, origin.nodes);
    assert_eq!(state.phase_offset, 250_000);
    assert_eq!(state.history.undo_len(), 1);
}

#[test]
fn radiant_editor_cmd_shift_offset_cancel_restores_auditioned_origin() {
    let mut state = editor(default_curve());
    send(&mut state, CurvePreviewMessage::PressCurveOffset { pointer_x: 400_000, quantized: false });
    send(&mut state, CurvePreviewMessage::DragCurveOffset { delta: 250_000 });
    assert_eq!(state.phase_offset, 250_000);

    send(&mut state, CurvePreviewMessage::Cancel);
    assert_eq!(state.phase_offset, 0);
    assert!(state.active_curve_offset.is_none());
}

#[test]
fn radiant_editor_cmd_shift_offset_snaps_immediately_when_option_is_pressed() {
    let mut state = editor(default_curve());
    let raw_delta = 170_000;
    send_snapping(&mut state, CurvePreviewMessage::PressCurveOffset { pointer_x: 400_000, quantized: false });
    send_snapping(&mut state, CurvePreviewMessage::DragCurveOffset { delta: raw_delta });
    assert_eq!(state.phase_offset, 170_000);

    send_snapping(&mut state, modifiers(true, true, true));
    let snapped = resolve_curve_offset(0, raw_delta, true, &sixteenth_grid);
    assert_eq!(snapped, 187_500);
    assert!(state.active_curve_offset.as_ref().is_some_and(|drag| drag.quantized));
    assert_eq!(state.phase_offset, snapped);
}

#[test]
fn radiant_editor_cmd_shift_offset_reverses_to_free_mode_immediately() {
    let mut state = editor(default_curve());
    let raw_delta = 170_000;
    send_snapping(&mut state, CurvePreviewMessage::PressCurveOffset { pointer_x: 400_000, quantized: true });
    send_snapping(&mut state, CurvePreviewMessage::DragCurveOffset { delta: raw_delta });
    send_snapping(&mut state, modifiers(false, true, true));
    assert!(state.active_curve_offset.as_ref().is_some_and(|drag| !drag.quantized));
    assert_eq!(state.phase_offset, raw_delta as u32);
}

#[test]
fn radiant_editor_cmd_shift_offset_uses_option_state_at_release_without_new_move() {
    let mut state = editor(default_curve());
    let raw_delta = 170_000;
    let snapped = resolve_curve_offset(0, raw_delta, true, &sixteenth_grid);
    send_snapping(&mut state, CurvePreviewMessage::PressCurveOffset { pointer_x: 400_000, quantized: false });
    send_snapping(&mut state, CurvePreviewMessage::ReleaseCurveOffset { delta: raw_delta, option_held: true });
    assert_eq!(state.phase_offset, snapped);
    assert!(state.active_curve_offset.is_none());
}

#[test]
fn radiant_editor_option_offset_snap_uses_the_absolute_grid_position() {
    let mut state = CurveEditorState::new(default_curve(), 180_000, deck(), 0);
    let delta = 120_000;
    let expected = resolve_curve_offset(180_000, delta, true, &sixteenth_grid);
    assert_eq!(expected, 312_500);
    send_snapping(&mut state, CurvePreviewMessage::PressCurveOffset { pointer_x: 400_000, quantized: true });
    send_snapping(&mut state, CurvePreviewMessage::DragCurveOffset { delta });
    assert_eq!(state.phase_offset, expected);
}

#[test]
fn offset_reset_returns_the_phase_to_zero() {
    let mut state = CurveEditorState::new(default_curve(), 430_000, deck(), 0);
    let calls = send(&mut state, CurvePreviewMessage::ResetCurveOffset);
    assert_eq!(calls.len(), 3);
    assert_eq!(state.phase_offset, 0);
    assert_eq!(state.history.undo_len(), 1);
    let calls = send(&mut state, CurvePreviewMessage::ResetCurveOffset);
    assert!(calls.is_empty());
}

#[test]
fn resolve_curve_offset_wraps_into_the_cycle() {
    assert_eq!(resolve_curve_offset(900_000, 250_000, false, &no_snap), 150_000);
    assert_eq!(resolve_curve_offset(100_000, -250_000, false, &no_snap), 850_000);
    assert_eq!(resolve_curve_offset(0, -1_000_000, false, &no_snap), 0);
}

#[test]
fn truncated_active_curve_paint_preview_and_release_use_retained_geometry() {
    let origin = flat_curve();
    let mut state = editor(origin.clone());

    send(&mut state, CurvePreviewMessage::PressPaint { sample: paint_sample(100_000, 200_000) });
    for index in 1..=128 {
        let (x, y) = if index % 2 == 0 { (100_000, 200_000) } else { (900_000, 800_000) };
        send(&mut state, CurvePreviewMessage::DragPaint { sample: paint_sample(x, y) });
    }

    let paint = state.active_curve_paint.as_ref().expect("truncated paint remains active until release");
    assert!(paint.recorder.is_truncated());
    assert!(matches!(paint.finished_curve(), pump::paint::PaintCommitOutcome::Applied { .. }));
    assert_ne!(paint.finished_curve().candidate().nodes, origin.nodes);

    send(&mut state, CurvePreviewMessage::ReleasePaint { sample: Some(paint_sample(100_000, 200_000)) });
    assert_ne!(state.curve.nodes, origin.nodes);
    assert_eq!(state.history.undo_len(), 1);
}

fn boundary_paint_sample(x: u32, y: u32) -> CurvePaintSample {
    CurvePaintSample {
        node: CurveNode { x, y },
        display_position: RectPoint { x, y },
        outside: true,
    }
}

#[test]
fn curve_paint_effective_boundary_release_has_one_undo_and_cancel_has_none() {
    let origin = default_curve();
    let start = paint_sample(350_000, 200_000);
    let outside = boundary_paint_sample(0, 750_000);

    let mut state = editor(origin.clone());
    send(&mut state, CurvePreviewMessage::PressPaint { sample: start });
    send(&mut state, CurvePreviewMessage::DragPaintOutside { sample: outside });
    send(&mut state, CurvePreviewMessage::ReleasePaint { sample: None });
    assert_ne!(state.curve.nodes, origin.nodes);
    assert_eq!(state.history.undo_len(), 1);
    assert_eq!(state.history.redo_len(), 0);

    let mut state = editor(origin.clone());
    send(&mut state, CurvePreviewMessage::PressPaint { sample: start });
    send(&mut state, CurvePreviewMessage::DragPaintOutside { sample: outside });
    send(&mut state, CurvePreviewMessage::Cancel);
    assert_eq!(state.curve.nodes, origin.nodes);
    assert_eq!(state.curve.segments, origin.segments);
    assert_eq!(state.history.undo_len(), 0);
    assert_eq!(state.history.redo_len(), 0);
    assert!(state.active_curve_paint.is_none());
}

#[test]
fn radiant_editor_curve_paint_commits_one_localized_gesture() {
    let origin = curve(&[(0, UNIT), (250_000, 700_000), (500_000, 300_000), (750_000, 700_000), (UNIT, UNIT)]);
    let mut state = editor(origin.clone());

    send(&mut state, CurvePreviewMessage::PressPaint { sample: paint_sample(300_000, 150_000) });
    assert!(state.active_curve_paint.is_some());
    assert_eq!(state.curve.nodes, origin.nodes);
    send(&mut state, CurvePreviewMessage::DragPaint { sample: paint_sample(450_000, 850_000) });
    assert_eq!(state.curve.nodes, origin.nodes);
    send(&mut state, CurvePreviewMessage::ReleasePaint { sample: Some(paint_sample(600_000, 200_000)) });

    let painted = &state.curve.nodes;
    assert!(state.active_curve_paint.is_none());
    assert_eq!(state.history.undo_len(), 1);
    assert!(painted.iter().any(|node| node.x == 250_000));
    assert!(painted.iter().any(|node| node.x == 750_000));
    assert!(!painted.iter().any(|node| node.x == 500_000));
    assert!(painted.iter().any(|node| node.x == 300_000));
    assert!(painted.iter().any(|node| node.x == 600_000));
}

#[test]
fn radiant_editor_curve_paint_commits_prior_samples_when_release_is_outside() {
    let origin = default_curve();
    let mut state = editor(origin.clone());
    send(&mut state, CurvePreviewMessage::PressPaint { sample: paint_sample(300_000, 150_000) });
    send(&mut state, CurvePreviewMessage::DragPaint { sample: paint_sample(550_000, 800_000) });
    send(&mut state, CurvePreviewMessage::ReleasePaintOutside { sample: boundary_paint_sample(UNIT, 450_000) });

    assert_ne!(state.curve.nodes, origin.nodes);
    assert_eq!(state.history.undo_len(), 1);
    assert_eq!(state.history.redo_len(), 0);
    assert!(state.active_curve_paint.is_none());
}

#[test]
fn radiant_editor_curve_paint_cancellation_and_noop_keep_history_unchanged() {
    let origin = default_curve();
    let mut state = editor(origin.clone());
    let sample = paint_sample(400_000, 200_000);

    send(&mut state, CurvePreviewMessage::PressPaint { sample });
    send(&mut state, CurvePreviewMessage::ReleasePaint { sample: None });
    assert_eq!(state.curve.nodes, origin.nodes);
    assert_eq!(state.history.undo_len(), 0);
    assert_eq!(state.history.redo_len(), 0);

    send(&mut state, CurvePreviewMessage::PressPaint { sample });
    send(&mut state, CurvePreviewMessage::ReleasePaint { sample: Some(sample) });
    assert_eq!(state.curve.nodes, origin.nodes);
    assert_eq!(state.history.undo_len(), 0);
    assert_eq!(state.history.redo_len(), 0);
}

#[test]
fn radiant_editor_curve_paint_noop_and_capacity_use_expected_history() {
    let origin = flat_curve();
    let mut state = editor(origin.clone());

    send(&mut state, CurvePreviewMessage::PressPaint { sample: paint_sample(200_000, 200_000) });
    send(&mut state, CurvePreviewMessage::DragPaint { sample: paint_sample(800_000, 800_000) });
    send(&mut state, CurvePreviewMessage::ReleasePaint { sample: None });
    assert!(state.undo());
    assert_eq!(state.curve.nodes, origin.nodes);
    assert_eq!(state.curve.segments, origin.segments);
    assert_eq!(state.history.undo_len(), 0);
    assert_eq!(state.history.redo_len(), 1);

    let no_op = paint_sample(400_000, 200_000);
    send(&mut state, CurvePreviewMessage::PressPaint { sample: no_op });
    send(&mut state, CurvePreviewMessage::ReleasePaint { sample: Some(no_op) });
    assert_eq!(state.curve.nodes, origin.nodes);
    assert_eq!(state.history.undo_len(), 0);
    assert_eq!(state.history.redo_len(), 1);

    send(&mut state, CurvePreviewMessage::PressPaint { sample: paint_sample(100_000, 100_000) });
    for index in 1..70u32 {
        let x = 100_000 + index * 800_000 / 69;
        let y = if index % 2 == 0 { 100_000 } else { 900_000 };
        send(&mut state, CurvePreviewMessage::DragPaint { sample: paint_sample(x, y) });
    }
    send(&mut state, CurvePreviewMessage::ReleasePaint { sample: None });
    assert_ne!(state.curve.nodes, origin.nodes);
    assert!(state.curve.nodes.len() <= pump::curve::MAX_EDITABLE_NODES);
    assert_eq!(state.history.undo_len(), 1);
    assert_eq!(state.history.redo_len(), 0);
    assert!(state.active_curve_paint.is_none());
}

#[test]
fn radiant_editor_canvas_insert_can_drag_inserted_node() {
    let mut state = editor(default_curve());
    send(&mut state, CurvePreviewMessage::InsertNode { node: CurveNode { x: 720_000, y: 180_000 }, command_held: false });
    let inserted = state.active_curve_node.expect("inserted node should become active");

    send(&mut state, drag(inserted, 620_000, 420_000));
    assert_eq!(state.curve.nodes[inserted], CurveNode { x: 620_000, y: 420_000 });
}

#[test]
fn curve_paint_keeps_origin_until_release_and_commits_candidate_once() {
    let origin = flat_curve();
    let mut state = editor(origin.clone());

    send(&mut state, CurvePreviewMessage::PressPaint { sample: paint_sample(200_000, 200_000) });
    send(&mut state, CurvePreviewMessage::DragPaint { sample: paint_sample(800_000, 800_000) });

    let paint = state.active_curve_paint.as_ref().expect("paint remains active before release");
    let preview = paint.preview_candidate();
    let release = paint.finished_curve();
    assert!(matches!(&release, pump::paint::PaintCommitOutcome::Applied { .. }));
    assert_eq!(preview.nodes, release.candidate().nodes);
    assert_eq!(preview.segments, release.candidate().segments);
    assert_ne!(preview.nodes, origin.nodes);
    assert_eq!(paint.preview_runs().len(), 1);
    assert_eq!(state.curve.nodes, origin.nodes);

    send(&mut state, CurvePreviewMessage::ReleasePaint { sample: None });
    assert_eq!(state.curve.nodes, preview.nodes);
    assert_eq!(state.curve.segments, preview.segments);
    assert_eq!(state.history.undo_len(), 1);

    assert!(state.undo());
    assert_eq!(state.curve.nodes, origin.nodes);
    assert_eq!(state.history.undo_len(), 0);
    assert_eq!(state.history.redo_len(), 1);
}

#[test]
fn is_normalized_accepts_only_the_normal_form() {
    assert!(default_curve().is_normalized());
    assert!(curve(&[(0, 0), (UNIT, UNIT)]).is_normalized());
    assert!(!curve(&[(0, 0), (500_000, 500_000)]).is_normalized());
    assert!(!curve(&[(0, 0), (600_000, 1), (400_000, 2), (UNIT, UNIT)]).is_normalized());
    assert!(!curve(&[(0, UNIT + 1), (UNIT, UNIT)]).is_normalized());
    let mut bent = curve(&[(0, 0), (UNIT, UNIT)]);
    bent.segments.push(CurveSegment { tension: 0 });
    assert!(!bent.is_normalized());
}

#[test]
fn deletable_selection_needs_an_interactive_interior_node() {
    let curve = legacy_edge_curve();
    assert!(has_interactive_deletable_selection(&curve, 0, None, &[0, 1, 2, 3, 4]));
    assert!(!has_interactive_deletable_selection(&curve, 0, None, &[0, 4]));
    assert!(!has_interactive_deletable_selection(&curve, 0, None, &[1, 3]));
    assert!(has_interactive_deletable_selection(&curve, 0, Some(1), &[1]));
    assert!(!has_interactive_deletable_selection(&curve, 0, None, &[]));
}

/// The painted curve is normalized: at most the node limit, one segment per
/// gap, endpoints at both ends of the cycle, gains in range and times strictly
/// increasing.
fn assert_curve_paint_topology_is_bounded(curve: &EditableCurve) {
    assert!(curve.nodes.len() <= pump::curve::MAX_EDITABLE_NODES);
    assert_eq!(curve.segments.len(), curve.nodes.len().saturating_sub(1));
    assert_eq!(curve.nodes.first().map(|node| node.x), Some(0));
    assert_eq!(curve.nodes.last().map(|node| node.x), Some(UNIT));
    assert!(curve.nodes.iter().all(|node| node.x <= UNIT && node.y <= UNIT));
    assert!(curve.nodes.windows(2).all(|pair| pair[1].x > pair[0].x));
}

#[test]
fn curve_paint_reentry_splits_preview_and_commit_without_an_unobserved_chord() {
    let origin = curve(&[(0, UNIT), (200_000, 200_000), (500_000, 800_000), (800_000, 300_000), (UNIT, UNIT)]);
    let mut state = editor(origin);
    let first = paint_sample(200_000, 750_000);
    let second = paint_sample(300_000, 250_000);
    let outside = boundary_paint_sample(UNIT, 550_000);
    let reentry = paint_sample(700_000, 650_000);
    let final_sample = paint_sample(800_000, 350_000);

    send(&mut state, CurvePreviewMessage::PressPaint { sample: first });
    send(&mut state, CurvePreviewMessage::DragPaint { sample: second });
    send(&mut state, CurvePreviewMessage::DragPaintOutside { sample: outside });
    send(&mut state, CurvePreviewMessage::DragPaint { sample: reentry });

    let paint = state.active_curve_paint.as_ref().expect("re-entry keeps painting active");
    let runs = paint.preview_runs();
    assert_eq!(runs.len(), 2);
    assert_eq!(runs[0].points().first().copied(), Some(first.raw_position()));
    assert!(runs[0].points().iter().any(|point| *point == outside.raw_position()));
    assert_eq!(runs[1].points().first().copied(), Some(outside.raw_position()));
    assert!(runs[1].points().iter().any(|point| *point == reentry.raw_position()));
    assert_eq!(runs[1].points().first().map(|point| point.x), Some(UNIT));

    send(&mut state, CurvePreviewMessage::DragPaint { sample: final_sample });
    send(&mut state, CurvePreviewMessage::ReleasePaintOutside { sample: outside });

    let painted = &state.curve;
    assert_eq!(state.history.undo_len(), 1);
    assert!(painted
        .nodes
        .iter()
        .any(|node| node.x == outside.node.x && node.y.abs_diff(outside.node.y) <= 80_000));
    assert!(painted
        .nodes
        .iter()
        .any(|node| node.x == reentry.node.x && node.y.abs_diff(reentry.node.y) <= 80_000));
    assert_curve_paint_topology_is_bounded(painted);
}

#[test]
fn curve_paint_full_capacity_boundary_extension_applies_boundary_candidate() {
    let max = pump::curve::MAX_EDITABLE_NODES as u32;
    let points: Vec<(u32, u32)> = (0..max)
        .map(|index| {
            let x = (index as u64 * UNIT as u64 / (max as u64 - 1)) as u32;
            (x, 300_000 + (x as u64 * 400_000 / UNIT as u64) as u32)
        })
        .collect();
    let origin = curve(&points);
    assert_eq!(origin.nodes.len(), pump::curve::MAX_EDITABLE_NODES);
    assert!(origin.is_normalized());
    let mut state = editor(origin.clone());
    let in_bounds = paint_sample(5_000, 200_000);
    let boundary = boundary_paint_sample(0, 800_000);

    send(&mut state, CurvePreviewMessage::PressPaint { sample: in_bounds });
    send(&mut state, CurvePreviewMessage::DragPaintOutside { sample: boundary });
    send(&mut state, CurvePreviewMessage::ReleasePaintOutside { sample: boundary });

    let painted = &state.curve;
    assert_curve_paint_topology_is_bounded(painted);
    assert_ne!(painted.nodes, origin.nodes);
    assert_eq!(painted.nodes.first().map(|node| node.y), Some(boundary.node.y));
    assert_eq!(painted.nodes.last().map(|node| node.y), Some(boundary.node.y));
    assert_eq!(state.history.undo_len(), 1);
    assert_eq!(state.history.redo_len(), 0);
    assert!(state.active_curve_paint.is_none());
}

/// Snap a phase to the nearest sixteenth of the cycle, with every second
/// sixteenth delayed by a full swing of a third of a step.
fn swung_sixteenths(x: u32) -> u32 {
    let step = (x + 31_250) / 62_500;
    let base = step * 62_500;
    if step % 2 == 1 {
        (base + 20_833).min(UNIT)
    } else {
        base.min(UNIT)
    }
}

fn send_swung(state: &mut CurveEditorState, message: CurvePreviewMessage) {
    state.reduce_editor_curve_message(message, &swung_sixteenths, &move_pair, &mut HostSink::new(AcceptingHost));
}

fn swing_test_curve() -> EditableCurve {
    curve(&[(0, 800_000), (250_000, 400_000), (750_000, 600_000), (UNIT, 800_000)])
}

#[test]
fn radiant_editor_command_press_and_release_update_point_snap_mid_drag() {
    let start = swing_test_curve();
    let mut state = editor(start.clone());
    send_swung(&mut state, press(1, start.nodes[1], false, false));
    send_swung(&mut state, modifiers(false, true, false));

    let raw = CurveNode { x: 340_000, y: 700_000 };
    send_swung(&mut state, drag(1, raw.x, raw.y));
    let snapped = state.curve.nodes[1];
    assert_eq!(snapped.x, swung_sixteenths(raw.x));

    send_swung(&mut state, modifiers(false, false, false));
    send_swung(&mut state, drag(1, raw.x, raw.y));
    let continuous = state.curve.nodes[1];
    assert!(continuous.x.abs_diff(raw.x) < 10_000);
    assert!(continuous.y.abs_diff(snapped.y) < 10_000);
}

#[test]
fn radiant_editor_command_release_uses_swung_snap() {
    let start = swing_test_curve();
    let mut state = editor(start.clone());
    send_swung(&mut state, press(1, start.nodes[1], false, false));

    let raw = CurveNode { x: 340_000, y: 700_000 };
    send_swung(
        &mut state,
        CurvePreviewMessage::ReleaseNode {
            index: 1,
            node: raw,
            push_through_threshold_x: PUSH_THROUGH,
            shift_held: false,
            option_held: false,
            command_held: true,
        },
    );
    assert_eq!(state.curve.nodes[1].x, swung_sixteenths(raw.x));
}

#[test]
fn redo_after_undo_restores_the_edited_curve_and_history() {
    let mut state = editor(default_curve());
    send(&mut state, CurvePreviewMessage::DeleteNode { index: 2 });
    send(&mut state, CurvePreviewMessage::InsertNode { node: CurveNode { x: 700_000, y: 200_000 }, command_held: false });
    let edited = state.curve.clone();
    let (undo_len, redo_len) = (state.history.undo_len(), state.history.redo_len());
    assert_eq!((undo_len, redo_len), (2, 0));

    assert!(state.undo());
    assert_ne!(state.curve.nodes, edited.nodes);
    assert!(state.redo());
    assert_eq!(state.curve.nodes, edited.nodes);
    assert_eq!(state.curve.segments, edited.segments);
    assert_eq!((state.history.undo_len(), state.history.redo_len()), (undo_len, redo_len));
}

/// Deck values for tests that do not look at them.
fn deck() -> DeckParams {
    DeckParams {
        mix: UNIT,
        smooth: 0,
        swing: 0,
        depth: 120_000,
        floor: 0,
        output_gain: 0,
        sync_division: 4,
        timing_mode: TimingMode::Sync,
    }
}

#[test]
fn curve_helpers_accept_curves_that_are_not_normalized() {
    use_curve_helpers();
}

fn use_curve_helpers() {
    let mut short = EditableCurve { nodes: vec![CurveNode { x: 5, y: 9 }], segments: Vec::new() };
    pump::curve::enforce_wrapped_curve_endpoints(&mut short);
    assert_eq!(short.nodes, vec![CurveNode { x: 5, y: 9 }]);

    let mut sparse = EditableCurve {
        nodes: vec![CurveNode { x: 0, y: 1 }, CurveNode { x: 10, y: 2 }, CurveNode { x: 20, y: 3 }, CurveNode { x: 30, y: 4 }],
        segments: vec![CurveSegment { tension: 400_000 }, CurveSegment { tension: 1_000_000 }],
    };
    pump::curve::remove_interior_curve_node(&mut sparse, 2);
    assert_eq!(sparse.nodes.len(), 3);
    assert_eq!(sparse.segments, vec![CurveSegment { tension: 400_000 }]);

    let mut bare = EditableCurve {
        nodes: vec![CurveNode { x: 0, y: 1 }, CurveNode { x: 10, y: 2 }, CurveNode { x: 20, y: 3 }],
        segments: Vec::new(),
    };
    pump::curve::remove_interior_curve_node(&mut bare, 1);
    assert_eq!(bare.nodes, vec![CurveNode { x: 0, y: 1 }, CurveNode { x: 20, y: 3 }]);
    assert!(bare.segments.is_empty());
}
