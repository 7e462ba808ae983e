use vstd::prelude::*;
use crate::curve::{
    delete_curve_node, delete_selected_curve_nodes, display_phase, insert_curve_node,
    interactive_curve_node_survivors, slice_contains, spec_delete_node, spec_delete_selected,
    spec_display_phase, spec_display_xs, spec_edge_survivor, spec_indices_where, spec_insert_node,
    spec_survivors, spec_update_node, update_curve_node, is_survivor, CurveNode, CurveSegment, EditableCurve, MAX_SEGMENT_TENSION,
    MIN_SEGMENT_TENSION, UNIT,
};
use crate::drag::{
    curve_with_dragged_node, curve_with_dragged_segment, drag_bounds_ok, spec_dragged_curve,
    spec_pointer_target, CurvePointDragModifiers, spec_bent_segments, spec_set_constraints,
    spec_started_drag, spec_started_segment_drag, start_curve_node_drag,
    start_curve_segment_move_drag, start_curve_segment_tension_drag, ActiveCurveNodeDrag,
    ActiveCurveSegmentDrag, int_max, int_min,
};
use crate::screen::Point;
use crate::chrome::TimingMode;
use crate::header::{SoundConfirmation, SoundSide};
use crate::history::{spec_bounded_push, EditHistory};
use crate::knob::{calls_match, HostParamEditSink, HostSink, SinkCall};
use crate::paint::{
    clamp_into, inside, run_points, spec_finished, spec_pushed_boundary_sample, spec_pushed_sample, unit_rect,
    ActiveCurvePaint, CurvePaintSample, PaintCommitOutcome, RectPoint,
};

verus! {

/// A marquee selection in progress, between two curve positions.
#[derive(Clone, Copy, Debug, PartialEq, Eq, Structural)]
pub struct ActiveCurveMarquee {
    pub start: CurveNode,
    pub current: CurveNode,
}

/// A phase offset drag in progress: the offset it started from, where the
/// pointer started, how far it has moved since, and whether the offset snaps
/// to the beat grid.
#[derive(Clone, Copy, Debug, PartialEq, Eq, Structural)]
pub struct ActiveCurveOffsetDrag {
    pub origin_phase_offset: u32,
    pub start_pointer_x: i64,
    pub raw_delta: i64,
    pub quantized: bool,
}

/// Names the phase offset parameter to the host.
#[derive(Clone, Copy, Debug, PartialEq, Eq, Structural)]
pub struct PhaseOffsetParam;

/// The deck's parameter values that an undo step restores, each as the
/// integer the deck stores for it, and the timing mode.
#[derive(Clone, Copy, Debug, PartialEq, Eq, Structural)]
pub struct DeckParams {
    pub mix: u32,
    pub smooth: u32,
    pub swing: u32,
    pub depth: u32,
    pub floor: u32,
    pub output_gain: u32,
    pub sync_division: u32,
    pub timing_mode: TimingMode,
}

/// What one of the two sounds holds: its curve, the phase offset the curve is
/// drawn with, and its deck values.
#[derive(Clone, Debug)]
pub struct SoundState {
    pub curve: EditableCurve,
    pub phase_offset: u32,
    pub deck: DeckParams,
}

/// A sound as plain values.
pub ghost struct SoundView {
    pub nodes: Seq<CurveNode>,
    pub segments: Seq<CurveSegment>,
    pub phase_offset: u32,
    pub deck: DeckParams,
}

pub open spec fn sound_view(s: SoundState) -> SoundView {
    SoundView { nodes: s.curve.nodes@, segments: s.curve.segments@, phase_offset: s.phase_offset, deck: s.deck }
}

impl SoundState {
    /// A copy of the sound.
    pub fn snapshot(&self) -> (copy: SoundState)
        ensures
            sound_view(copy) == sound_view(*self),
            self.curve.wf() ==> copy.curve.wf(),
    {
        SoundState { curve: self.curve.snapshot(), phase_offset: self.phase_offset, deck: self.deck }
    }
}

/// What an undo step restores: the curve, its phase offset and the deck
/// values of the active sound, which sound is active, and the other sound.
#[derive(Clone, Debug)]
pub struct CurveSnapshot {
    pub curve: EditableCurve,
    pub phase_offset: u32,
    pub deck: DeckParams,
    pub active_sound: SoundSide,
    pub inactive_sound: SoundState,
}

/// The undoable part of the editor as plain values.
pub ghost struct EditorView {
    pub nodes: Seq<CurveNode>,
    pub segments: Seq<CurveSegment>,
    pub phase_offset: u32,
    pub deck: DeckParams,
    pub active_sound: SoundSide,
    pub inactive_sound: SoundView,
}

/// A snapshot as plain values.
pub open spec fn snapshot_view(s: CurveSnapshot) -> EditorView {
    EditorView {
        nodes: s.curve.nodes@,
        segments: s.curve.segments@,
        phase_offset: s.phase_offset,
        deck: s.deck,
        active_sound: s.active_sound,
        inactive_sound: sound_view(s.inactive_sound),
    }
}

/// The undoable part of an editor state as plain values.
pub open spec fn undoable_view(s: CurveEditorState) -> EditorView {
    EditorView {
        nodes: s.curve.nodes@,
        segments: s.curve.segments@,
        phase_offset: s.phase_offset,
        deck: s.deck,
        active_sound: s.active_sound,
        inactive_sound: sound_view(s.inactive_sound),
    }
}

/// The snapshots of a history stack as plain values.
pub open spec fn snapshots_view(s: Seq<CurveSnapshot>) -> Seq<EditorView> {
    s.map_values(|x: CurveSnapshot| snapshot_view(x))
}

/// Every snapshot holds normalized curves.
pub open spec fn snapshots_wf(s: Seq<CurveSnapshot>) -> bool {
    forall|i: int| 0 <= i < s.len() ==> (#[trigger] s[i]).curve.wf() && s[i].inactive_sound.curve.wf()
}

/// The interactive state of the editor: the active sound's curve (with the
/// phase offset it is drawn with) and deck values, which sound is active and
/// what the other one holds, the free rate, the undo history, the last A/B
/// confirmation, the selection, what the pointer hovers, the gesture in
/// progress and the modifier keys last seen.
#[derive(Debug)]
pub struct CurveEditorState {
    pub curve: EditableCurve,
    pub phase_offset: u32,
    pub deck: DeckParams,
    pub active_sound: SoundSide,
    pub inactive_sound: SoundState,
    pub free_rate: u32,
    pub history: EditHistory<CurveSnapshot>,
    pub ab_confirmation: Option<SoundConfirmation>,
    pub selected_curve_nodes: Vec<usize>,
    pub hover_curve_node: Option<usize>,
    pub preview_curve_node: Option<CurveNode>,
    pub hover_curve_segment: Option<usize>,
    pub active_curve_node: Option<usize>,
    pub active_curve_node_drag: Option<ActiveCurveNodeDrag>,
    pub active_curve_segment: Option<ActiveCurveSegmentDrag>,
    pub active_curve_marquee: Option<ActiveCurveMarquee>,
    pub active_curve_paint: Option<ActiveCurvePaint>,
    pub active_curve_offset: Option<ActiveCurveOffsetDrag>,
    pub option_hover_held: bool,
    pub command_hover_held: bool,
    pub shift_hover_held: bool,
}

/// A node drag whose origin is usable: a normalized curve, the dragged node
/// on it, and anchors in range.
pub open spec fn node_drag_wf(d: ActiveCurveNodeDrag) -> bool {
    &&& d.origin_curve.wf()
    &&& drag_bounds_ok(d)
    &&& d.origin_index < d.origin_curve.nodes@.len()
}

/// A segment drag whose origin is usable: a normalized curve with the bent
/// segment on it and a starting tension in range.
pub open spec fn segment_drag_wf(d: ActiveCurveSegmentDrag) -> bool {
    &&& d.origin_curve.wf()
    &&& d.index < d.origin_curve.segments@.len()
    &&& MIN_SEGMENT_TENSION <= d.start_tension <= MAX_SEGMENT_TENSION
}

impl CurveEditorState {
    pub open spec fn wf(&self) -> bool {
        &&& self.curve.wf()
        &&& self.inactive_sound.curve.wf()
        &&& snapshots_wf(self.history.undo_seq())
        &&& snapshots_wf(self.history.redo_seq())
        &&& (self.active_curve_node_drag matches Some(d) ==> node_drag_wf(d))
        &&& (self.active_curve_segment matches Some(d) ==> segment_drag_wf(d))
        &&& (self.active_curve_paint matches Some(p) ==> p.wf())
    }

    /// An editor showing `curve` drawn with `phase_offset` and the deck values
    /// `deck` as sound A, with sound B holding the same, the free rate
    /// `free_rate`, empty history and nothing selected, hovered or in
    /// progress.
    pub fn new(curve: EditableCurve, phase_offset: u32, deck: DeckParams, free_rate: u32) -> (state: CurveEditorState)
        requires
            curve.wf(),
        ensures
            state.wf(),
            state.curve == curve,
            state.phase_offset == phase_offset,
            state.deck == deck,
            state.active_sound == SoundSide::A,
            sound_view(state.inactive_sound) == (SoundView {
                nodes: curve.nodes@,
                segments: curve.segments@,
                phase_offset,
                deck,
            }),
            state.free_rate == free_rate,
            state.ab_confirmation is None,
            state.history.undo_seq().len() == 0,
            state.history.redo_seq().len() == 0,
            state.selected_curve_nodes@.len() == 0,
            state.hover_curve_node is None,
            state.preview_curve_node is None,
            state.hover_curve_segment is None,
            state.active_curve_node is None,
            state.active_curve_node_drag is None,
            state.active_curve_segment is None,
            state.active_curve_marquee is None,
            state.active_curve_paint is None,
            state.active_curve_offset is None,
            !state.option_hover_held,
            !state.command_hover_held,
            !state.shift_hover_held,
    {
        let inactive_sound = SoundState { curve: curve.snapshot(), phase_offset, deck };
        CurveEditorState {
            curve,
            phase_offset,
            deck,
            active_sound: SoundSide::A,
            inactive_sound,
            free_rate,
            history: EditHistory::new(),
            ab_confirmation: None,
            selected_curve_nodes: Vec::new(),
            hover_curve_node: None,
            preview_curve_node: None,
            hover_curve_segment: None,
            active_curve_node: None,
            active_curve_node_drag: None,
            active_curve_segment: None,
            active_curve_marquee: None,
            active_curve_paint: None,
            active_curve_offset: None,
            option_hover_held: false,
            command_hover_held: false,
            shift_hover_held: false,
        }
    }

    /// The undoable state as an undo snapshot.
    pub fn snapshot(&self) -> (s: CurveSnapshot)
        requires
            self.curve.wf(),
            self.inactive_sound.curve.wf(),
        ensures
            snapshot_view(s) == undoable_view(*self),
            s.curve.wf(),
            s.inactive_sound.curve.wf(),
    {
        CurveSnapshot {
            curve: self.curve.snapshot(),
            phase_offset: self.phase_offset,
            deck: self.deck,
            active_sound: self.active_sound,
            inactive_sound: self.inactive_sound.snapshot(),
        }
    }

    /// Drop the marquee and the selection.
    pub fn clear_curve_selection(&mut self)
        ensures
            final(self).active_curve_marquee is None,
            final(self).selected_curve_nodes@.len() == 0,
            *final(self) == (CurveEditorState {
                active_curve_marquee: None,
                selected_curve_nodes: final(self).selected_curve_nodes,
                ..*old(self)
            }),
    {
        self.active_curve_marquee = None;
        self.selected_curve_nodes.clear();
    }
}

} // verus!

verus! {

/// The node the active drag is at: the active node on the current curve when
/// there is one, else the node the drag started from.
pub open spec fn spec_drag_current(s: CurveEditorState, d: ActiveCurveNodeDrag) -> CurveNode {
    match s.active_curve_node {
        Some(i) => if i < s.curve.nodes@.len() {
            s.curve.nodes@[i as int]
        } else {
            d.origin_curve.nodes@[d.origin_index as int]
        },
        None => d.origin_curve.nodes@[d.origin_index as int],
    }
}

/// The state after the modifier keys changed to `(option, command, shift)`,
/// with `calls` the calls made to the host.
///
/// A phase offset drag in progress takes Option as its snapping and resolves
/// its offset again (see `spec_resolved`), sending it to the host and storing
/// it when the host accepts it. A change of Shift or Option re-applies the
/// active node drag's locks from the node it is at; Option or Command hides
/// the insertion preview; releasing Command clears the hovered segment.
pub open spec fn spec_modifiers_changed<F: Fn(u32) -> u32>(
    before: CurveEditorState,
    after: CurveEditorState,
    option_held: bool,
    command_held: bool,
    shift_held: bool,
    snap: F,
    calls: Seq<SinkCall<PhaseOffsetParam, u32>>,
) -> bool {
    let command_released = before.command_hover_held && !command_held;
    let constraint_changed = before.shift_hover_held != shift_held || before.option_hover_held != option_held;
    let drag = if constraint_changed {
        match before.active_curve_node_drag {
            Some(d) => Some(spec_set_constraints(d, shift_held, option_held, spec_drag_current(before, d))),
            None => None,
        }
    } else {
        before.active_curve_node_drag
    };
    &&& match before.active_curve_offset {
        None => calls.len() == 0 && after.active_curve_offset is None && after.phase_offset == before.phase_offset,
        Some(d) => exists|phase: u32|
            {
                &&& spec_resolved(d.origin_phase_offset, d.raw_delta as int, option_held, snap, phase)
                &&& calls_match(calls, seq![SinkCall::GestureValue { target: PhaseOffsetParam, value: phase, accepted: true }])
                &&& after.active_curve_offset == Some(ActiveCurveOffsetDrag { quantized: option_held, ..d })
                &&& after.phase_offset == if calls[0].accepted() {
                    phase
                } else {
                    before.phase_offset
                }
            },
    }
    &&& after == CurveEditorState {
        option_hover_held: option_held,
        command_hover_held: command_held,
        shift_hover_held: shift_held,
        active_curve_node_drag: drag,
        active_curve_offset: after.active_curve_offset,
        phase_offset: after.phase_offset,
        preview_curve_node: if option_held || command_held {
            None
        } else {
            before.preview_curve_node
        },
        hover_curve_segment: if command_released {
            None
        } else {
            before.hover_curve_segment
        },
        ..before
    }
}

impl CurveEditorState {
    /// The pointer hovers `node` (or nothing), would insert `preview_node`, and
    /// hovers `segment`.
    pub fn on_hover(&mut self, node: Option<usize>, preview_node: Option<CurveNode>, segment: Option<usize>)
        requires
            old(self).wf(),
        ensures
            final(self).wf(),
            spec_on_hover(*old(self), *final(self), node, preview_node, segment),
    {
        self.hover_curve_node = node;
        self.preview_curve_node = preview_node;
        self.hover_curve_segment = segment;
    }

    /// The modifier keys changed (see `spec_modifiers_changed`); gives the
    /// calls made to the host.
    pub fn on_modifiers_changed<F: Fn(u32) -> u32, S: HostParamEditSink<PhaseOffsetParam, u32>>(
        &mut self,
        option_held: bool,
        command_held: bool,
        shift_held: bool,
        snap: &F,
        sink: &mut HostSink<PhaseOffsetParam, u32, S>,
    ) -> (calls: Vec<SinkCall<PhaseOffsetParam, u32>>)
        requires
            old(self).wf(),
            forall|x: u32| call_requires(*snap, (x,)),
        ensures
            final(self).wf(),
            final(sink).sent@ == old(sink).sent@ + calls@,
            spec_modifiers_changed(*old(self), *final(self), option_held, command_held, shift_held, *snap, calls@),
    {
        let ghost start = sink.sent@;
        let mut calls: Vec<SinkCall<PhaseOffsetParam, u32>> = Vec::new();
        let command_released = self.command_hover_held && !command_held;
        let constraint_changed = self.shift_hover_held != shift_held || self.option_hover_held != option_held;
        self.option_hover_held = option_held;
        self.command_hover_held = command_held;
        self.shift_hover_held = shift_held;
        match self.active_curve_offset {
            Some(drag) => {
                let quantized = ActiveCurveOffsetDrag { quantized: option_held, ..drag };
                self.active_curve_offset = Some(quantized);
                let phase = resolve_curve_offset(drag.origin_phase_offset, drag.raw_delta, option_held, snap);
                let accepted = sink.gesture_value(PhaseOffsetParam, phase);
                calls.push(SinkCall::GestureValue { target: PhaseOffsetParam, value: phase, accepted });
                if accepted {
                    self.phase_offset = phase;
                }
            },
            None => {},
        }
        if constraint_changed {
            let active = self.active_curve_node;
            match self.active_curve_node_drag.take() {
                Some(mut drag) => {
                    let current = match active {
                        Some(i) => if i < self.curve.nodes.len() {
                            self.curve.nodes[i]
                        } else {
                            drag.origin_curve.nodes[drag.origin_index]
                        },
                        None => drag.origin_curve.nodes[drag.origin_index],
                    };
                    drag.set_constraints(shift_held, option_held, current);
                    self.active_curve_node_drag = Some(drag);
                },
                None => {},
            }
        }
        if option_held || command_held {
            self.preview_curve_node = None;
        }
        if command_released {
            self.hover_curve_segment = None;
        }
        assert(sink.sent@ =~= start + calls@);
        calls
    }

    /// A marquee starts at `start`; every other gesture and the hover state
    /// end.
    pub fn on_press_marquee(&mut self, start: CurveNode)
        requires
            old(self).wf(),
        ensures
            final(self).wf(),
            spec_on_press_marquee(*old(self), *final(self), start),
    {
        self.active_curve_marquee = Some(ActiveCurveMarquee { start, current: start });
        self.active_curve_node = None;
        self.active_curve_node_drag = None;
        self.active_curve_paint = None;
        self.active_curve_offset = None;
        self.active_curve_segment = None;
        self.hover_curve_node = None;
        self.preview_curve_node = None;
        self.hover_curve_segment = None;
    }

    /// The marquee in progress, if any, now reaches `current`.
    pub fn on_drag_marquee(&mut self, current: CurveNode)
        requires
            old(self).wf(),
        ensures
            final(self).wf(),
            spec_on_drag_marquee(*old(self), *final(self), current),
    {
        match self.active_curve_marquee {
            Some(m) => {
                self.active_curve_marquee = Some(ActiveCurveMarquee { start: m.start, current });
            },
            None => {},
        }
    }

    /// Every gesture, the hover state and the modifier keys are dropped; a
    /// phase offset drag in progress is rolled back to the offset it started
    /// from and its host gesture ended (see `spec_on_cancel`). Gives the calls
    /// made to the host.
    pub fn on_cancel<S: HostParamEditSink<PhaseOffsetParam, u32>>(
        &mut self,
        sink: &mut HostSink<PhaseOffsetParam, u32, S>,
    ) -> (calls: Vec<SinkCall<PhaseOffsetParam, u32>>)
        requires
            old(self).wf(),
        ensures
            final(self).wf(),
            final(sink).sent@ == old(sink).sent@ + calls@,
            spec_on_cancel(*old(self), *final(self), calls@),
    {
        let ghost start = sink.sent@;
        let mut calls: Vec<SinkCall<PhaseOffsetParam, u32>> = Vec::new();
        self.active_curve_paint = None;
        match self.active_curve_offset.take() {
            Some(drag) => {
                if self.phase_offset != drag.origin_phase_offset {
                    let accepted = sink.gesture_value(PhaseOffsetParam, drag.origin_phase_offset);
                    calls.push(
                        SinkCall::GestureValue { target: PhaseOffsetParam, value: drag.origin_phase_offset, accepted },
                    );
                    if accepted {
                        self.phase_offset = drag.origin_phase_offset;
                    }
                }
                let ended = sink.gesture_ended(PhaseOffsetParam);
                calls.push(SinkCall::GestureEnded { target: PhaseOffsetParam, accepted: ended });
            },
            None => {},
        }
        self.active_curve_node = None;
        self.active_curve_node_drag = None;
        self.active_curve_segment = None;
        self.active_curve_marquee = None;
        self.hover_curve_node = None;
        self.preview_curve_node = None;
        self.hover_curve_segment = None;
        self.option_hover_held = false;
        self.command_hover_held = false;
        self.shift_hover_held = false;
        assert(sink.sent@ =~= start + calls@);
        calls
    }

    /// Pressing segment `index` at `position` starts bending it (see
    /// `start_curve_segment_tension_drag`) and ends node and paint gestures;
    /// nothing changes when there is no such segment.
    pub fn on_press_segment(&mut self, index: usize, position: Point)
        requires
            old(self).wf(),
        ensures
            final(self).wf(),
            spec_on_press_segment(*old(self), *final(self), index, position, false),
    {
        let drag = start_curve_segment_tension_drag(&self.curve, index, position);
        self.start_segment_drag(index, drag);
    }

    /// Pressing segment `index` at `position` with Command starts moving its
    /// two nodes (see `start_curve_segment_move_drag`), ends node and paint
    /// gestures and counts Command as held; nothing changes when there is no
    /// such segment.
    pub fn on_press_segment_move(&mut self, index: usize, position: Point)
        requires
            old(self).wf(),
        ensures
            final(self).wf(),
            spec_on_press_segment(*old(self), *final(self), index, position, true),
    {
        let drag = start_curve_segment_move_drag(&self.curve, index, position);
        match drag {
            Some(_) => {
                self.command_hover_held = true;
            },
            None => {},
        }
        self.start_segment_drag(index, drag);
    }

    fn start_segment_drag(&mut self, index: usize, drag: Option<ActiveCurveSegmentDrag>)
        requires
            old(self).wf(),
            drag matches Some(d) ==> segment_drag_wf(d),
        ensures
            final(self).wf(),
            drag is None ==> *final(self) == *old(self),
            drag is Some ==> *final(self) == (CurveEditorState {
                active_curve_node: None,
                active_curve_node_drag: None,
                active_curve_paint: None,
                active_curve_offset: None,
                active_curve_segment: drag,
                hover_curve_node: None,
                preview_curve_node: None,
                hover_curve_segment: Some(index),
                ..*old(self)
            }),
    {
        match drag {
            Some(d) => {
                self.active_curve_node = None;
                self.active_curve_node_drag = None;
                self.active_curve_paint = None;
                self.active_curve_offset = None;
                self.active_curve_segment = Some(d);
                self.hover_curve_node = None;
                self.preview_curve_node = None;
                self.hover_curve_segment = Some(index);
            },
            None => {},
        }
    }

    /// The curve a segment drag gives with the pointer at `position`: a bend
    /// (see `spec_bent_segments`) or, for a move of the pair, what `translate`
    /// makes of the origin curve.
    fn dragged_segment_curve<M: Fn(&EditableCurve, usize, Point, Point) -> EditableCurve>(
        drag: &ActiveCurveSegmentDrag,
        position: Point,
        translate: &M,
    ) -> (curve: EditableCurve)
        requires
            segment_drag_wf(*drag),
            spec_translator_ok(*translate),
        ensures
            curve.wf(),
            spec_segment_dragged(*drag, position, *translate, curve),
    {
        if drag.move_pair {
            translate(&drag.origin_curve, drag.index, drag.start_pointer, position)
        } else {
            curve_with_dragged_segment(drag, position)
        }
    }

    /// Moving the pointer to `position` during a segment drag redoes it from
    /// its start (see `spec_segment_dragged`); without one nothing changes.
    pub fn on_drag_segment<M: Fn(&EditableCurve, usize, Point, Point) -> EditableCurve>(
        &mut self,
        position: Point,
        translate: &M,
    )
        requires
            old(self).wf(),
            spec_translator_ok(*translate),
        ensures
            final(self).wf(),
            spec_on_drag_segment(*old(self), *final(self), position, *translate),
    {
        match &self.active_curve_segment {
            Some(drag) => {
                let curve = Self::dragged_segment_curve(drag, position, translate);
                let index = drag.index;
                self.curve = curve;
                self.hover_curve_node = None;
                self.preview_curve_node = None;
                self.hover_curve_segment = Some(index);
            },
            None => {},
        }
    }

    /// Releasing the pointer at `position` finishes the segment drag like a
    /// last move and ends it; the segment stays hovered while Option (for a
    /// bend) or Command (for a move) is held.
    pub fn on_release_segment<M: Fn(&EditableCurve, usize, Point, Point) -> EditableCurve>(
        &mut self,
        position: Point,
        translate: &M,
    )
        requires
            old(self).wf(),
            spec_translator_ok(*translate),
        ensures
            final(self).wf(),
            spec_on_release_segment(*old(self), *final(self), position, *translate),
    {
        match self.active_curve_segment.take() {
            Some(drag) => {
                let curve = Self::dragged_segment_curve(&drag, position, translate);
                self.curve = curve;
                self.hover_curve_node = None;
                self.preview_curve_node = None;
                let held = if drag.move_pair {
                    self.command_hover_held
                } else {
                    self.option_hover_held
                };
                self.hover_curve_segment = if held {
                    Some(drag.index)
                } else {
                    None
                };
            },
            None => {},
        }
    }
}

} // verus!

verus! {

/// `p` is a fresh paint gesture over the curve `(nodes, segments)` drawn with
/// `phase_offset`, taken from the undoable state `origin`, after its first
/// `sample`.
pub open spec fn spec_fresh_paint(
    p: ActiveCurvePaint,
    origin: EditorView,
    nodes: Seq<CurveNode>,
    segments: Seq<CurveSegment>,
    phase_offset: u32,
    sample: CurvePaintSample,
) -> bool {
    let pos = sample.display_position;
    &&& snapshot_view(p.origin_snapshot) == origin
    &&& p.origin_curve.nodes@ == nodes
    &&& p.origin_curve.segments@ == segments
    &&& p.phase_offset == phase_offset
    &&& p.recorder.bounds == unit_rect()
    &&& p.recorder.samples == 1
    &&& !p.recorder.truncated
    &&& if !sample.outside && inside(unit_rect(), pos) {
        &&& p.recorder.open
        &&& run_points(p.recorder.runs@) == seq![seq![pos]]
        &&& p.recorder.boundary_contact is None
    } else {
        &&& !p.recorder.open
        &&& run_points(p.recorder.runs@) == Seq::<Seq<RectPoint>>::empty()
        &&& p.recorder.boundary_contact == Some(clamp_into(unit_rect(), pos))
    }
}

/// `after` has the paint gesture `paint` committed over `before`: when the
/// stroke changes the curve (see `spec_finished`), the curve becomes the
/// painted one and the undo step taken when the stroke began, with the
/// gesture's origin curve, becomes the newest undo step; otherwise curve and
/// history stay.
pub open spec fn spec_committed_paint(before: CurveEditorState, after: CurveEditorState, paint: ActiveCurvePaint) -> bool {
    let (nodes, segments) = spec_finished(paint);
    if nodes == paint.origin_curve.nodes@ && segments == paint.origin_curve.segments@ {
        after.curve == before.curve && after.history == before.history && after.ab_confirmation
            == before.ab_confirmation
    } else {
        &&& after.ab_confirmation is None
        &&& after.curve.nodes@ == nodes
        &&& after.curve.segments@ == segments
        &&& snapshots_view(after.history.undo_seq()) == spec_bounded_push(
            snapshots_view(before.history.undo_seq()),
            EditorView {
                nodes: paint.origin_curve.nodes@,
                segments: paint.origin_curve.segments@,
                ..snapshot_view(paint.origin_snapshot)
            },
        )
        &&& after.history.redo_seq().len() == 0
    }
}

/// Mapping a bounded push is the bounded push of the mapped values.
proof fn lemma_bounded_push_view(s: Seq<CurveSnapshot>, x: CurveSnapshot)
    ensures
        snapshots_view(spec_bounded_push(s, x)) == spec_bounded_push(snapshots_view(s), snapshot_view(x)),
{
    let pushed = s.push(x);
    assert(snapshots_view(pushed) =~= snapshots_view(s).push(snapshot_view(x)));
    if pushed.len() > crate::history::HISTORY_LIMIT {
        assert(snapshots_view(pushed.subrange(1, pushed.len() as int)) =~= snapshots_view(pushed).subrange(
            1,
            pushed.len() as int,
        ));
    }
}

impl CurveEditorState {
    /// Record the undoable state as the newest undo step; the redo steps and
    /// the A/B confirmation are cleared.
    pub fn push_history(&mut self)
        requires
            old(self).wf(),
        ensures
            final(self).wf(),
            snapshots_view(final(self).history.undo_seq()) == spec_bounded_push(
                snapshots_view(old(self).history.undo_seq()),
                undoable_view(*old(self)),
            ),
            final(self).history.redo_seq().len() == 0,
            *final(self) == (CurveEditorState { history: final(self).history, ab_confirmation: None, ..*old(self) }),
    {
        let snapshot = self.snapshot();
        self.push_history_snapshot(snapshot);
    }

    fn push_history_snapshot(&mut self, snapshot: CurveSnapshot)
        requires
            old(self).wf(),
            snapshot.curve.wf(),
            snapshot.inactive_sound.curve.wf(),
        ensures
            final(self).wf(),
            snapshots_view(final(self).history.undo_seq()) == spec_bounded_push(
                snapshots_view(old(self).history.undo_seq()),
                snapshot_view(snapshot),
            ),
            final(self).history.redo_seq().len() == 0,
            *final(self) == (CurveEditorState { history: final(self).history, ab_confirmation: None, ..*old(self) }),
    {
        let ghost before = self.history.undo_seq();
        self.ab_confirmation = None;
        self.history.push_history_snapshot(snapshot);
        proof {
            lemma_bounded_push_view(before, snapshot);
            let after = self.history.undo_seq();
            assert forall|i: int| 0 <= i < after.len() implies (#[trigger] after[i]).curve.wf()
                && after[i].inactive_sound.curve.wf() by {
                let pushed = before.push(snapshot);
                if pushed.len() > crate::history::HISTORY_LIMIT {
                    assert(after[i] == pushed[i + 1]);
                } else {
                    assert(after[i] == pushed[i]);
                }
            }
            assert(snapshots_wf(self.history.redo_seq()));
        }
    }

    /// Commit a finished paint gesture (see `spec_committed_paint`).
    fn commit_active_curve_paint(&mut self, paint: ActiveCurvePaint)
        requires
            old(self).wf(),
            paint.wf(),
        ensures
            final(self).wf(),
            spec_committed_paint(*old(self), *final(self), paint),
            *final(self) == (CurveEditorState {
                curve: final(self).curve,
                history: final(self).history,
                ab_confirmation: final(self).ab_confirmation,
                ..*old(self)
            }),
    {
        match paint.finished_curve() {
            PaintCommitOutcome::Applied { candidate } => {
                let snapshot = CurveSnapshot { curve: paint.origin_curve, ..paint.origin_snapshot };
                self.curve = candidate;
                self.push_history_snapshot(snapshot);
            },
            PaintCommitOutcome::NoOp { candidate: _ } => {},
        }
    }

    /// Pressing to paint starts a fresh stroke over the current curve with
    /// `sample` (see `spec_fresh_paint`); the selection and every other gesture
    /// and hover state end.
    pub fn on_press_paint(&mut self, sample: CurvePaintSample)
        requires
            old(self).wf(),
        ensures
            final(self).wf(),
            spec_on_press_paint(*old(self), *final(self), sample),
    {
        let mut paint = ActiveCurvePaint::new(self.snapshot(), self.phase_offset);
        paint.push_sample(sample);
        proof {
            let pos = sample.display_position;
            if !sample.outside && inside(unit_rect(), pos) {
                assert(run_points(paint.recorder.runs@) =~= seq![seq![pos]]);
            } else {
                assert(run_points(paint.recorder.runs@) =~= Seq::<Seq<RectPoint>>::empty());
            }
        }
        self.clear_curve_selection();
        self.active_curve_node = None;
        self.active_curve_node_drag = None;
        self.active_curve_segment = None;
        self.active_curve_marquee = None;
        self.active_curve_offset = None;
        self.hover_curve_node = None;
        self.preview_curve_node = None;
        self.hover_curve_segment = None;
        self.active_curve_paint = Some(paint);
    }

    /// Dragging while painting records `sample` (see `spec_pushed_sample`), or
    /// with `boundary` records it as a boundary sample; without a stroke
    /// nothing changes.
    pub fn on_drag_paint(&mut self, sample: CurvePaintSample, boundary: bool)
        requires
            old(self).wf(),
        ensures
            final(self).wf(),
            spec_on_drag_paint(*old(self), *final(self), sample, boundary),
    {
        match self.active_curve_paint.take() {
            Some(mut paint) => {
                if boundary {
                    paint.push_boundary_sample(sample);
                } else {
                    paint.push_sample(sample);
                }
                self.active_curve_paint = Some(paint);
            },
            None => {},
        }
    }

    /// Releasing ends painting: the stroke, with the final `sample` recorded
    /// when there is one (as a boundary sample with `boundary`), is committed
    /// (see `spec_committed_paint`), and every gesture and hover state ends.
    pub fn on_release_paint(&mut self, sample: Option<CurvePaintSample>, boundary: bool)
        requires
            old(self).wf(),
        ensures
            final(self).wf(),
            spec_on_release_paint(*old(self), *final(self), sample, boundary),
    {
        match self.active_curve_paint.take() {
            Some(mut paint) => {
                let ghost p = paint;
                match sample {
                    Some(smp) => {
                        if boundary {
                            paint.push_boundary_sample(smp);
                        } else {
                            paint.push_sample(smp);
                        }
                    },
                    None => {},
                }
                let ghost q = paint;
                self.commit_active_curve_paint(paint);
                assert(spec_committed_paint(*old(self), *self, q));
            },
            None => {},
        }
        self.active_curve_node = None;
        self.active_curve_node_drag = None;
        self.active_curve_segment = None;
        self.active_curve_marquee = None;
        self.active_curve_offset = None;
        self.hover_curve_node = None;
        self.preview_curve_node = None;
        self.hover_curve_segment = None;
    }
}

} // verus!

verus! {

/// The first `k` selected indices that are interactive, in order.
pub open spec fn spec_retain_survivors(selected: Seq<usize>, survivors: Seq<usize>, k: int) -> Seq<usize>
    decreases k,
{
    if k <= 0 {
        Seq::empty()
    } else {
        let r = spec_retain_survivors(selected, survivors, k - 1);
        if survivors.contains(selected[k - 1]) {
            r.push(selected[k - 1])
        } else {
            r
        }
    }
}

/// The state after pressing node `index` with the pointer at `pointer`, given
/// the interactive nodes `survivors`.
///
/// A node that is not interactive only clears the selection. Otherwise the node
/// drag starts (see `spec_started_drag`), carrying the interactive part of the
/// selection when the pressed node is selected (and clearing the selection
/// when that leaves nothing to carry); the node becomes active and hovered,
/// the modifier keys are taken from the press, and paint and segment gestures
/// and the preview end.
pub open spec fn spec_press_node(
    before: CurveEditorState,
    after: CurveEditorState,
    survivors: Seq<usize>,
    index: usize,
    pointer: CurveNode,
    shift_held: bool,
    option_held: bool,
    command_held: bool,
) -> bool {
    if !survivors.contains(index) {
        &&& after.selected_curve_nodes@.len() == 0
        &&& after == CurveEditorState {
            active_curve_marquee: None,
            selected_curve_nodes: after.selected_curve_nodes,
            ..before
        }
    } else {
        let carried = if before.selected_curve_nodes@.contains(index) {
            spec_retain_survivors(before.selected_curve_nodes@, survivors, before.selected_curve_nodes@.len() as int)
        } else {
            Seq::empty()
        };
        &&& after.active_curve_node_drag matches Some(d) && spec_started_drag(
            d,
            before.curve.nodes@,
            before.curve.segments@,
            index,
            pointer,
            shift_held,
            option_held,
        ) && d.selected_indices@ == carried
        &&& after.selected_curve_nodes@ == if carried.len() == 0 {
            Seq::empty()
        } else {
            before.selected_curve_nodes@
        }
        &&& after == CurveEditorState {
            selected_curve_nodes: after.selected_curve_nodes,
            active_curve_marquee: if carried.len() == 0 {
                None
            } else {
                before.active_curve_marquee
            },
            active_curve_node_drag: after.active_curve_node_drag,
            option_hover_held: option_held,
            command_hover_held: command_held,
            shift_hover_held: shift_held,
            active_curve_node: Some(index),
            active_curve_paint: None,
            active_curve_offset: None,
            active_curve_segment: None,
            hover_curve_node: Some(index),
            preview_curve_node: None,
            hover_curve_segment: None,
            ..before
        }
    }
}

/// Whether node `i` lies in the displayed box spanned by the marquee start
/// and `current`.
pub open spec fn in_marquee(nodes: Seq<CurveNode>, phase_offset: u32, start: CurveNode, current: CurveNode, i: int) -> bool {
    let sx = spec_display_phase(start.x, phase_offset) as int;
    let cx = spec_display_phase(current.x, phase_offset) as int;
    let x = spec_display_phase(nodes[i].x, phase_offset) as int;
    &&& int_min(sx, cx) <= x <= int_max(sx, cx)
    &&& int_min(start.y as int, current.y as int) <= nodes[i].y <= int_max(start.y as int, current.y as int)
}

/// Every interactive index names a node.
proof fn lemma_survivors_in_range(
    nodes: Seq<CurveNode>,
    phase_offset: u32,
    active_node: Option<usize>,
    survivors: Seq<usize>,
)
    requires
        spec_survivors(nodes, phase_offset, active_node, survivors),
    ensures
        forall|k: int| 0 <= k < survivors.len() ==> (#[trigger] survivors[k]) < nodes.len(),
{
    let display_x = spec_display_xs(nodes, (phase_offset % UNIT) as u32);
    let (left, right) = choose|left: Option<usize>, right: Option<usize>|
        spec_edge_survivor(display_x, active_node, true, left) && spec_edge_survivor(display_x, active_node, false, right)
            && survivors == spec_indices_where(nodes.len() as int, |i: int| is_survivor(display_x, i, left, right));
    lemma_indices_where_in_range(nodes.len() as int, |i: int| is_survivor(display_x, i, left, right));
}

/// `spec_indices_where(n, keep)` only holds indices below `n`.
proof fn lemma_indices_where_in_range(n: int, keep: spec_fn(int) -> bool)
    ensures
        forall|k: int| 0 <= k < spec_indices_where(n, keep).len() ==> (#[trigger] spec_indices_where(n, keep)[k]) < n,
        spec_indices_where(n, keep).len() <= if n > 0 { n } else { 0 },
    decreases n,
{
    if n > 0 {
        lemma_indices_where_in_range(n - 1, keep);
    }
}

impl CurveEditorState {
    /// Press node `index` (see `spec_press_node`).
    pub fn on_press_node(
        &mut self,
        index: usize,
        pointer: CurveNode,
        shift_held: bool,
        option_held: bool,
        command_held: bool,
    )
        requires
            old(self).wf(),
        ensures
            final(self).wf(),
            spec_on_press_node(*old(self), *final(self), index, pointer, shift_held, option_held, command_held),
    {
        let survivors = interactive_curve_node_survivors(&self.curve, self.phase_offset, self.active_curve_node);
        if !slice_contains(survivors.as_slice(), index) {
            self.clear_curve_selection();
            assert(spec_press_node(*old(self), *self, survivors@, index, pointer, shift_held, option_held, command_held));
            return;
        }
        proof {
            lemma_survivors_in_range(self.curve.nodes@, self.phase_offset, self.active_curve_node, survivors@);
        }
        assert(index < self.curve.nodes@.len());
        let ghost sel = self.selected_curve_nodes@;
        let mut carried: Vec<usize> = Vec::new();
        if slice_contains(self.selected_curve_nodes.as_slice(), index) {
            let mut i: usize = 0;
            while i < self.selected_curve_nodes.len()
                invariant
                    i <= sel.len(),
                    sel == self.selected_curve_nodes@,
                    carried@ == spec_retain_survivors(sel, survivors@, i as int),
                decreases sel.len() - i,
            {
                let candidate = self.selected_curve_nodes[i];
                if slice_contains(survivors.as_slice(), candidate) {
                    carried.push(candidate);
                }
                i = i + 1;
            }
        }
        if carried.len() == 0 {
            self.clear_curve_selection();
        }
        let ghost survivors_v = survivors@;
        proof {
            assert(survivors_v.contains(index));
        }
        let started = start_curve_node_drag(&self.curve, index, pointer, shift_held, option_held);
        match started {
            Some(mut drag) => {
                drag.selected_indices = carried;
                self.option_hover_held = option_held;
                self.command_hover_held = command_held;
                self.active_curve_node = Some(index);
                self.active_curve_node_drag = Some(drag);
                self.active_curve_paint = None;
                self.active_curve_offset = None;
                self.active_curve_segment = None;
                self.shift_hover_held = shift_held;
                self.hover_curve_node = Some(index);
                self.preview_curve_node = None;
                self.hover_curve_segment = None;
            },
            None => {},
        }
        proof {
            let carried_v = if sel.contains(index) {
                spec_retain_survivors(sel, survivors_v, sel.len() as int)
            } else {
                Seq::empty()
            };
            assert(self.active_curve_node_drag->0.selected_indices@ == carried_v);
            assert(self.selected_curve_nodes@ == if carried_v.len() == 0 {
                Seq::<usize>::empty()
            } else {
                sel
            });
            assert(self.active_curve_marquee == if carried_v.len() == 0 {
                None
            } else {
                old(self).active_curve_marquee
            });
        }
        assert(spec_press_node(*old(self), *self, survivors_v, index, pointer, shift_held, option_held, command_held));
    }

    /// Releasing the marquee at `current` selects, in index order, the
    /// interactive nodes displayed inside the box it spans, and ends every
    /// gesture and hover state; without a marquee nothing changes.
    pub fn on_release_marquee(&mut self, current: CurveNode)
        requires
            old(self).wf(),
        ensures
            final(self).wf(),
            spec_on_release_marquee(*old(self), *final(self), current),
    {
        let marquee = match self.active_curve_marquee {
            Some(m) => m,
            None => {
                return;
            },
        };
        self.active_curve_marquee = None;
        let survivors = interactive_curve_node_survivors(&self.curve, self.phase_offset, None);
        let start_x = display_phase(marquee.start.x, self.phase_offset);
        let current_x = display_phase(current.x, self.phase_offset);
        let min_x = if start_x <= current_x { start_x } else { current_x };
        let max_x = if start_x >= current_x { start_x } else { current_x };
        let min_y = if marquee.start.y <= current.y { marquee.start.y } else { current.y };
        let max_y = if marquee.start.y >= current.y { marquee.start.y } else { current.y };
        let n = self.curve.nodes.len();
        let ghost nodes = self.curve.nodes@;
        let ghost keep = |i: int|
            survivors@.contains(i as usize) && in_marquee(nodes, self.phase_offset, marquee.start, current, i);
        let mut selected: Vec<usize> = Vec::new();
        let mut i: usize = 0;
        while i < n
            invariant
                i <= n,
                n == nodes.len(),
                nodes == self.curve.nodes@,
                min_x == int_min(spec_display_phase(marquee.start.x, self.phase_offset) as int, spec_display_phase(current.x, self.phase_offset) as int),
                max_x == int_max(spec_display_phase(marquee.start.x, self.phase_offset) as int, spec_display_phase(current.x, self.phase_offset) as int),
                min_y == int_min(marquee.start.y as int, current.y as int),
                max_y == int_max(marquee.start.y as int, current.y as int),
                keep == (|j: int|
                    survivors@.contains(j as usize) && in_marquee(nodes, self.phase_offset, marquee.start, current, j)),
                selected@ == spec_indices_where(i as int, keep),
            decreases n - i,
        {
            let node = self.curve.nodes[i];
            let x = display_phase(node.x, self.phase_offset);
            let take = slice_contains(survivors.as_slice(), i) && min_x <= x && x <= max_x && min_y <= node.y
                && node.y <= max_y;
            assert(take == keep(i as int));
            if take {
                selected.push(i);
            }
            i = i + 1;
        }
        self.selected_curve_nodes = selected;
        self.active_curve_node = None;
        self.active_curve_node_drag = None;
        self.active_curve_paint = None;
        self.active_curve_offset = None;
        self.active_curve_segment = None;
        self.hover_curve_node = None;
        self.preview_curve_node = None;
        self.hover_curve_segment = None;
    }

    /// Inserting `node` clears the selection and ends paint and segment
    /// gestures and the hover state, taking Command from the message. When
    /// the curve takes the node (see `spec_insert_node`) it becomes active and
    /// hovered and a drag of it starts; otherwise the curve and the active
    /// node stay.
    pub fn on_insert_node(&mut self, node: CurveNode, command_held: bool)
        requires
            old(self).wf(),
        ensures
            final(self).wf(),
            spec_on_insert_node(*old(self), *final(self), node, command_held),
    {
        self.clear_curve_selection();
        self.command_hover_held = command_held;
        self.active_curve_node_drag = None;
        self.active_curve_paint = None;
        self.active_curve_offset = None;
        self.active_curve_segment = None;
        self.hover_curve_node = None;
        self.preview_curve_node = None;
        self.hover_curve_segment = None;
        match insert_curve_node(&mut self.curve, node) {
            Some(index) => {
                assert(index < self.curve.nodes@.len());
                self.active_curve_node = Some(index);
                self.active_curve_node_drag = start_curve_node_drag(&self.curve, index, node, false, false);
                self.hover_curve_node = Some(index);
            },
            None => {},
        }
    }

    /// Deleting interactive node `index` clears the selection, deletes it (see
    /// `spec_delete_node`) and ends every gesture and hover state; a node that
    /// is not interactive changes nothing.
    pub fn on_delete_node(&mut self, index: usize)
        requires
            old(self).wf(),
        ensures
            final(self).wf(),
            spec_on_delete_node(*old(self), *final(self), index),
    {
        let survivors = interactive_curve_node_survivors(&self.curve, self.phase_offset, None);
        if !slice_contains(survivors.as_slice(), index) {
            return;
        }
        self.clear_curve_selection();
        let _ = delete_curve_node(&mut self.curve, index);
        self.active_curve_node = None;
        self.active_curve_node_drag = None;
        self.active_curve_paint = None;
        self.active_curve_offset = None;
        self.active_curve_segment = None;
        self.hover_curve_node = None;
        self.preview_curve_node = None;
        self.hover_curve_segment = None;
    }

    /// Deleting the selection removes the selected interactive interior nodes
    /// (see `spec_delete_selected`), clears the selection and ends every
    /// gesture and hover state.
    pub fn on_delete_selected_nodes(&mut self)
        requires
            old(self).wf(),
        ensures
            final(self).wf(),
            spec_on_delete_selected_nodes(*old(self), *final(self)),
    {
        let _ = delete_selected_curve_nodes(&mut self.curve, self.selected_curve_nodes.as_slice(), self.phase_offset);
        self.active_curve_node = None;
        self.active_curve_node_drag = None;
        self.active_curve_paint = None;
        self.active_curve_offset = None;
        self.active_curve_segment = None;
        self.active_curve_marquee = None;
        self.selected_curve_nodes.clear();
        self.hover_curve_node = None;
        self.preview_curve_node = None;
        self.hover_curve_segment = None;
    }
}

} // verus!

verus! {

/// The node the pointer drag is at: the active node on the current curve when
/// there is one, else `node` itself.
pub open spec fn spec_current_for(s: CurveEditorState, node: CurveNode) -> CurveNode {
    match s.active_curve_node {
        Some(i) => if i < s.curve.nodes@.len() {
            s.curve.nodes@[i as int]
        } else {
            node
        },
        None => node,
    }
}

/// One pointer step of a node drag to `node` with modifier state `modifiers`,
/// giving the curve `curve`, the drag `drag_after` and the dragged node's
/// index `moved`.
///
/// With a drag in progress, the pointer is applied to it (see
/// `spec_pointer_target`) and the drag's origin curve is dragged to the
/// resulting position (see `spec_dragged_curve`). Without one, node `index`
/// of the current curve is moved to `node` (see `spec_update_node`), with its
/// time snapped by `snap` while Command is held.
pub open spec fn spec_node_drag_step<F: Fn(u32) -> u32>(
    before: CurveEditorState,
    curve: EditableCurve,
    drag_after: Option<ActiveCurveNodeDrag>,
    index: usize,
    node: CurveNode,
    threshold: u32,
    modifiers: CurvePointDragModifiers,
    snap: F,
    moved: usize,
) -> bool {
    match before.active_curve_node_drag {
        Some(d) => exists|d2: ActiveCurveNodeDrag, effective: CurveNode|
            {
                &&& spec_pointer_target(d, d2, node, modifiers, spec_current_for(before, node), snap, effective)
                &&& spec_dragged_curve(d2, effective, threshold, curve.nodes@, curve.segments@, moved)
                &&& drag_after == Some(d2)
            },
        None => {
            &&& drag_after is None
            &&& moved == index
            &&& curve.segments@ == before.curve.segments@
            &&& exists|target: CurveNode|
                {
                    &&& target.y == node.y
                    &&& if modifiers.command_held {
                        call_ensures(snap, (node.x,), target.x)
                    } else {
                        target.x == node.x
                    }
                    &&& curve.nodes@ == spec_update_node(before.curve.nodes@, index as int, target)
                }
        },
    }
}

impl CurveEditorState {
    /// Apply one pointer step of a node drag (see `spec_node_drag_step`);
    /// gives the dragged node's index.
    fn drag_step<F: Fn(u32) -> u32>(
        &mut self,
        index: usize,
        node: CurveNode,
        threshold: u32,
        modifiers: CurvePointDragModifiers,
        snap: &F,
    ) -> (moved: usize)
        requires
            old(self).wf(),
            forall|x: u32| call_requires(*snap, (x,)),
        ensures
            final(self).wf(),
            spec_node_drag_step(
                *old(self),
                final(self).curve,
                final(self).active_curve_node_drag,
                index,
                node,
                threshold,
                modifiers,
                *snap,
                moved,
            ),
            *final(self) == (CurveEditorState {
                curve: final(self).curve,
                active_curve_node_drag: final(self).active_curve_node_drag,
                ..*old(self)
            }),
    {
        let current = match self.active_curve_node {
            Some(i) => if i < self.curve.nodes.len() {
                self.curve.nodes[i]
            } else {
                node
            },
            None => node,
        };
        match self.active_curve_node_drag.take() {
            Some(mut drag) => {
                let ghost d = drag;
                let target = drag.target_for_pointer(node, modifiers, current, snap);
                let (curve, moved) = curve_with_dragged_node(&drag, target, threshold);
                self.curve = curve;
                let ghost d2 = drag;
                self.active_curve_node_drag = Some(drag);
                assert(spec_pointer_target(d, d2, node, modifiers, spec_current_for(*old(self), node), *snap, target));
                moved
            },
            None => {
                let mut target = node;
                if modifiers.command_held {
                    target.x = snap(node.x);
                }
                update_curve_node(&mut self.curve, index, target);
                index
            },
        }
    }

    /// Dragging node `index` to `node` applies one drag step with the modifier
    /// keys last seen (see `spec_node_drag_step`); the dragged node becomes
    /// active and hovered, and any segment gesture and the preview end.
    pub fn on_drag_node<F: Fn(u32) -> u32>(
        &mut self,
        index: usize,
        node: CurveNode,
        push_through_threshold_x: u32,
        snap: &F,
    )
        requires
            old(self).wf(),
            forall|x: u32| call_requires(*snap, (x,)),
        ensures
            final(self).wf(),
            spec_on_drag_node(*old(self), *final(self), index, node, push_through_threshold_x, *snap),
    {
        let modifiers = CurvePointDragModifiers {
            shift_held: self.shift_hover_held,
            option_held: self.option_hover_held,
            command_held: self.command_hover_held,
        };
        let moved = self.drag_step(index, node, push_through_threshold_x, modifiers, snap);
        let ghost stepped = *self;
        self.active_curve_node = Some(moved);
        self.active_curve_segment = None;
        self.hover_curve_node = Some(moved);
        self.preview_curve_node = None;
        self.hover_curve_segment = None;
        assert(self.curve == stepped.curve && self.active_curve_node_drag == stepped.active_curve_node_drag);
        assert(spec_node_drag_step(
            *old(self),
            self.curve,
            self.active_curve_node_drag,
            index,
            node,
            push_through_threshold_x,
            modifiers,
            *snap,
            moved,
        ));
    }

    /// Releasing node `index` at `node` applies a last drag step with the
    /// modifier keys of the release (see `spec_node_drag_step`) and ends the
    /// drag; the selection is cleared unless it was dragged as a group. The
    /// modifier keys are taken from the release, the released node stays
    /// hovered, and every other gesture and the preview end.
    pub fn on_release_node<F: Fn(u32) -> u32>(
        &mut self,
        index: usize,
        node: CurveNode,
        push_through_threshold_x: u32,
        shift_held: bool,
        option_held: bool,
        command_held: bool,
        snap: &F,
    )
        requires
            old(self).wf(),
            forall|x: u32| call_requires(*snap, (x,)),
        ensures
            final(self).wf(),
            spec_on_release_node(*old(self), *final(self), index, node, push_through_threshold_x, shift_held, option_held, command_held, *snap),
    {
        let grouped = match &self.active_curve_node_drag {
            Some(d) => d.selected_indices.len() > 0,
            None => false,
        };
        if !grouped {
            self.clear_curve_selection();
        }
        let ghost cleared = *self;
        let modifiers = CurvePointDragModifiers { shift_held, option_held, command_held };
        let moved = self.drag_step(index, node, push_through_threshold_x, modifiers, snap);
        let ghost drag_after = self.active_curve_node_drag;
        let ghost stepped_curve = self.curve;
        assert(spec_node_drag_step(cleared, self.curve, drag_after, index, node, push_through_threshold_x, modifiers, *snap, moved));
        assert(cleared.curve == old(self).curve);
        assert(cleared.active_curve_node_drag == old(self).active_curve_node_drag);
        assert(spec_current_for(cleared, node) == spec_current_for(*old(self), node));
        assert(spec_node_drag_step(*old(self), stepped_curve, drag_after, index, node, push_through_threshold_x, modifiers, *snap, moved));
        self.option_hover_held = option_held;
        self.command_hover_held = command_held;
        self.shift_hover_held = shift_held;
        self.active_curve_node = None;
        self.active_curve_node_drag = None;
        self.active_curve_paint = None;
        self.active_curve_segment = None;
        self.hover_curve_node = Some(moved);
        self.preview_curve_node = None;
        self.hover_curve_segment = None;
        assert(self.curve == stepped_curve);
        assert(grouped == (old(self).active_curve_node_drag matches Some(d) && d.selected_indices@.len() > 0));
        assert(self.selected_curve_nodes@ == if grouped {
            old(self).selected_curve_nodes@
        } else {
            Seq::<usize>::empty()
        });
    }
}

} // verus!

verus! {

/// The state after `on_hover` with these arguments.
pub open spec fn spec_on_hover(
    before: CurveEditorState,
    after: CurveEditorState,
    node: Option<usize>,
    preview_node: Option<CurveNode>,
    segment: Option<usize>,
) -> bool {
    &&& after == (CurveEditorState {
        hover_curve_node: node,
        preview_curve_node: preview_node,
        hover_curve_segment: segment,
        ..before
    })
}

/// The state after `on_press_marquee` with these arguments.
pub open spec fn spec_on_press_marquee(
    before: CurveEditorState,
    after: CurveEditorState,
    start: CurveNode,
) -> bool {
    &&& after == (CurveEditorState {
        active_curve_marquee: Some(ActiveCurveMarquee { start, current: start }),
        active_curve_node: None,
        active_curve_node_drag: None,
        active_curve_paint: None,
        active_curve_offset: None,
        active_curve_segment: None,
        hover_curve_node: None,
        preview_curve_node: None,
        hover_curve_segment: None,
        ..before
    })
}

/// The state after `on_drag_marquee` with these arguments.
pub open spec fn spec_on_drag_marquee(
    before: CurveEditorState,
    after: CurveEditorState,
    current: CurveNode,
) -> bool {
    &&& after == (CurveEditorState {
        active_curve_marquee: match before.active_curve_marquee {
            Some(m) => Some(ActiveCurveMarquee { start: m.start, current }),
            None => None,
        },
        ..before
    })
}

/// The state after `on_cancel`, with `calls` the calls made to the host: a
/// phase offset drag that moved the offset sends the offset it started from
/// (stored when the host accepts it) and then ends its gesture; every gesture,
/// the hover state and the modifier keys end.
pub open spec fn spec_on_cancel(
    before: CurveEditorState,
    after: CurveEditorState,
    calls: Seq<SinkCall<PhaseOffsetParam, u32>>,
) -> bool {
    let cleared = CurveEditorState {
        active_curve_paint: None,
        active_curve_offset: None,
        active_curve_node: None,
        active_curve_node_drag: None,
        active_curve_segment: None,
        active_curve_marquee: None,
        hover_curve_node: None,
        preview_curve_node: None,
        hover_curve_segment: None,
        option_hover_held: false,
        command_hover_held: false,
        shift_hover_held: false,
        ..before
    };
    match before.active_curve_offset {
        None => calls.len() == 0 && after == cleared,
        Some(d) => if before.phase_offset != d.origin_phase_offset {
            &&& calls_match(
                calls,
                seq![
                    SinkCall::GestureValue { target: PhaseOffsetParam, value: d.origin_phase_offset, accepted: true },
                    SinkCall::GestureEnded { target: PhaseOffsetParam, accepted: true },
                ],
            )
            &&& after == CurveEditorState {
                phase_offset: if calls[0].accepted() {
                    d.origin_phase_offset
                } else {
                    before.phase_offset
                },
                ..cleared
            }
        } else {
            &&& calls_match(calls, seq![SinkCall::GestureEnded { target: PhaseOffsetParam, accepted: true }])
            &&& after == cleared
        },
    }
}

/// `translate` accepts every call and always gives a well-formed curve.
pub open spec fn spec_translator_ok<M: Fn(&EditableCurve, usize, Point, Point) -> EditableCurve>(translate: M) -> bool {
    &&& forall|c: &EditableCurve, i: usize, p: Point, q: Point| call_requires(translate, (c, i, p, q))
    &&& forall|c: &EditableCurve, i: usize, p: Point, q: Point, r: EditableCurve|
        call_ensures(translate, (c, i, p, q), r) ==> r.wf()
}

/// `curve` is what the segment drag `d` gives with the pointer at `position`:
/// for a move of the pair, a result of `translate` on the origin curve, the
/// segment index, the start pointer and `position`; for a bend, the origin
/// nodes with the bent segments (see `spec_bent_segments`).
pub open spec fn spec_segment_dragged<M: Fn(&EditableCurve, usize, Point, Point) -> EditableCurve>(
    d: ActiveCurveSegmentDrag,
    position: Point,
    translate: M,
    curve: EditableCurve,
) -> bool {
    if d.move_pair {
        call_ensures(translate, (&d.origin_curve, d.index, d.start_pointer, position), curve)
    } else {
        curve.nodes@ == d.origin_curve.nodes@ && curve.segments@ == spec_bent_segments(d, position)
    }
}

/// The state after pressing segment `index` at `position`, to move its pair
/// of nodes with `move_pair` (which also counts Command as held) or else to
/// bend it.
pub open spec fn spec_on_press_segment(
    before: CurveEditorState,
    after: CurveEditorState,
    index: usize,
    position: Point,
    move_pair: bool,
) -> bool {
    &&& index + 1 < before.curve.nodes@.len() ==> {
        &&& after.active_curve_segment matches Some(d) && spec_started_segment_drag(
            d,
            before.curve.nodes@,
            before.curve.segments@,
            index,
            position,
            move_pair,
        )
        &&& after == (CurveEditorState {
            active_curve_node: None,
            active_curve_node_drag: None,
            active_curve_paint: None,
            active_curve_offset: None,
            active_curve_segment: after.active_curve_segment,
            hover_curve_node: None,
            preview_curve_node: None,
            hover_curve_segment: Some(index),
            command_hover_held: move_pair || before.command_hover_held,
            ..before
        })
    }
    &&& index + 1 >= before.curve.nodes@.len() ==> after == before
}

/// The state after `on_drag_segment` with these arguments.
pub open spec fn spec_on_drag_segment<M: Fn(&EditableCurve, usize, Point, Point) -> EditableCurve>(
    before: CurveEditorState,
    after: CurveEditorState,
    position: Point,
    translate: M,
) -> bool {
    &&& match before.active_curve_segment {
        Some(d) => {
            &&& spec_segment_dragged(d, position, translate, after.curve)
            &&& after == (CurveEditorState {
                curve: after.curve,
                hover_curve_node: None,
                preview_curve_node: None,
                hover_curve_segment: Some(d.index),
                ..before
            })
        },
        None => after == before,
    }
}

/// The state after `on_release_segment` with these arguments.
pub open spec fn spec_on_release_segment<M: Fn(&EditableCurve, usize, Point, Point) -> EditableCurve>(
    before: CurveEditorState,
    after: CurveEditorState,
    position: Point,
    translate: M,
) -> bool {
    &&& match before.active_curve_segment {
        Some(d) => {
            let held = if d.move_pair {
                before.command_hover_held
            } else {
                before.option_hover_held
            };
            &&& spec_segment_dragged(d, position, translate, after.curve)
            &&& after == (CurveEditorState {
                curve: after.curve,
                active_curve_segment: None,
                hover_curve_node: None,
                preview_curve_node: None,
                hover_curve_segment: if held {
                    Some(d.index)
                } else {
                    None
                },
                ..before
            })
        },
        None => after == before,
    }
}

/// The state after `on_press_paint` with these arguments.
pub open spec fn spec_on_press_paint(
    before: CurveEditorState,
    after: CurveEditorState,
    sample: CurvePaintSample,
) -> bool {
    &&& after.active_curve_paint matches Some(p) && spec_fresh_paint(
        p,
        undoable_view(before),
        before.curve.nodes@,
        before.curve.segments@,
        before.phase_offset,
        sample,
    )
    &&& after.selected_curve_nodes@.len() == 0
    &&& after == (CurveEditorState {
        active_curve_paint: after.active_curve_paint,
        active_curve_offset: None,
        selected_curve_nodes: after.selected_curve_nodes,
        active_curve_marquee: None,
        active_curve_node: None,
        active_curve_node_drag: None,
        active_curve_segment: None,
        hover_curve_node: None,
        preview_curve_node: None,
        hover_curve_segment: None,
        ..before
    })
}

/// The state after `on_drag_paint` with these arguments.
pub open spec fn spec_on_drag_paint(
    before: CurveEditorState,
    after: CurveEditorState,
    sample: CurvePaintSample,
    boundary: bool,
) -> bool {
    &&& match before.active_curve_paint {
        Some(p) => {
            &&& after.active_curve_paint matches Some(q) && if boundary {
                spec_pushed_boundary_sample(p, q, sample)
            } else {
                spec_pushed_sample(p, q, sample)
            }
            &&& after == (CurveEditorState {
                active_curve_paint: after.active_curve_paint,
                ..before
            })
        },
        None => after == before,
    }
}

/// The state after `on_release_paint` with these arguments.
pub open spec fn spec_on_release_paint(
    before: CurveEditorState,
    after: CurveEditorState,
    sample: Option<CurvePaintSample>,
    boundary: bool,
) -> bool {
    &&& match before.active_curve_paint {
        Some(p) => exists|q: ActiveCurvePaint|
            {
                &&& q.wf()
                &&& match sample {
                    Some(smp) => if boundary {
                        spec_pushed_boundary_sample(p, q, smp)
                    } else {
                        spec_pushed_sample(p, q, smp)
                    },
                    None => q == p,
                }
                &&& spec_committed_paint(before, after, q)
            },
        None => after.curve == before.curve && after.history == before.history && after.ab_confirmation
            == before.ab_confirmation,
    }
    &&& after == (CurveEditorState {
        curve: after.curve,
        history: after.history,
        ab_confirmation: after.ab_confirmation,
        active_curve_paint: None,
        active_curve_offset: None,
        active_curve_node: None,
        active_curve_node_drag: None,
        active_curve_segment: None,
        active_curve_marquee: None,
        hover_curve_node: None,
        preview_curve_node: None,
        hover_curve_segment: None,
        ..before
    })
}

/// The state after `on_press_node` with these arguments.
pub open spec fn spec_on_press_node(
    before: CurveEditorState,
    after: CurveEditorState,
    index: usize,
    pointer: CurveNode,
    shift_held: bool,
    option_held: bool,
    command_held: bool,
) -> bool {
    &&& exists|survivors: Seq<usize>|
        spec_survivors(before.curve.nodes@, before.phase_offset, before.active_curve_node, survivors)
            && spec_press_node(
            before,
            after,
            survivors,
            index,
            pointer,
            shift_held,
            option_held,
            command_held,
        )
}

/// The state after `on_release_marquee` with these arguments.
pub open spec fn spec_on_release_marquee(
    before: CurveEditorState,
    after: CurveEditorState,
    current: CurveNode,
) -> bool {
    &&& match before.active_curve_marquee {
        Some(m) => exists|survivors: Seq<usize>|
            {
                &&& spec_survivors(before.curve.nodes@, before.phase_offset, None, survivors)
                &&& after.selected_curve_nodes@ == spec_indices_where(
                    before.curve.nodes@.len() as int,
                    |i: int|
                        survivors.contains(i as usize) && in_marquee(
                            before.curve.nodes@,
                            before.phase_offset,
                            m.start,
                            current,
                            i,
                        ),
                )
                &&& after == (CurveEditorState {
                    selected_curve_nodes: after.selected_curve_nodes,
                    active_curve_marquee: None,
                    active_curve_node: None,
                    active_curve_node_drag: None,
                    active_curve_paint: None,
                active_curve_offset: None,
                    active_curve_segment: None,
                    hover_curve_node: None,
                    preview_curve_node: None,
                    hover_curve_segment: None,
                    ..before
                })
            },
        None => after == before,
    }
}

/// The state after `on_insert_node` with these arguments.
pub open spec fn spec_on_insert_node(
    before: CurveEditorState,
    after: CurveEditorState,
    node: CurveNode,
    command_held: bool,
) -> bool {
    &&& after.selected_curve_nodes@.len() == 0
    &&& match spec_insert_node(before.curve.nodes@, before.curve.segments@, node) {
        Some((nodes, segments, at)) => {
            &&& after.curve.nodes@ == nodes
            &&& after.curve.segments@ == segments
            &&& after.active_curve_node_drag matches Some(d) && spec_started_drag(
                d,
                nodes,
                segments,
                at as usize,
                node,
                false,
                false,
            ) && d.selected_indices@.len() == 0
            &&& after == (CurveEditorState {
                curve: after.curve,
                selected_curve_nodes: after.selected_curve_nodes,
                active_curve_marquee: None,
                command_hover_held: command_held,
                active_curve_node: Some(at as usize),
                active_curve_node_drag: after.active_curve_node_drag,
                active_curve_paint: None,
                active_curve_offset: None,
                active_curve_segment: None,
                hover_curve_node: Some(at as usize),
                preview_curve_node: None,
                hover_curve_segment: None,
                ..before
            })
        },
        None => after.curve.nodes@ == before.curve.nodes@ && after.curve.segments@
            == before.curve.segments@ && after == (CurveEditorState {
            curve: after.curve,
            selected_curve_nodes: after.selected_curve_nodes,
            active_curve_marquee: None,
            command_hover_held: command_held,
            active_curve_node_drag: None,
            active_curve_paint: None,
            active_curve_offset: None,
            active_curve_segment: None,
            hover_curve_node: None,
            preview_curve_node: None,
            hover_curve_segment: None,
            ..before
        }),
    }
}

/// The state after `on_delete_node` with these arguments.
pub open spec fn spec_on_delete_node(
    before: CurveEditorState,
    after: CurveEditorState,
    index: usize,
) -> bool {
    &&& exists|survivors: Seq<usize>|
        {
            &&& spec_survivors(before.curve.nodes@, before.phase_offset, None, survivors)
            &&& if survivors.contains(index) {
                &&& (after.curve.nodes@, after.curve.segments@) == spec_delete_node(
                    before.curve.nodes@,
                    before.curve.segments@,
                    index as int,
                )
                &&& after.selected_curve_nodes@.len() == 0
                &&& after == (CurveEditorState {
                    curve: after.curve,
                    selected_curve_nodes: after.selected_curve_nodes,
                    active_curve_marquee: None,
                    active_curve_node: None,
                    active_curve_node_drag: None,
                    active_curve_paint: None,
                active_curve_offset: None,
                    active_curve_segment: None,
                    hover_curve_node: None,
                    preview_curve_node: None,
                    hover_curve_segment: None,
                    ..before
                })
            } else {
                after == before
            }
        }
}

/// The state after `on_delete_selected_nodes` with these arguments.
pub open spec fn spec_on_delete_selected_nodes(
    before: CurveEditorState,
    after: CurveEditorState,
) -> bool {
    &&& exists|survivors: Seq<usize>|
        {
            &&& spec_survivors(before.curve.nodes@, before.phase_offset, None, survivors)
            &&& (after.curve.nodes@, after.curve.segments@) == spec_delete_selected(
                before.curve.nodes@,
                before.curve.segments@,
                before.selected_curve_nodes@,
                survivors,
            )
        }
    &&& after.selected_curve_nodes@.len() == 0
    &&& after == (CurveEditorState {
        curve: after.curve,
        selected_curve_nodes: after.selected_curve_nodes,
        active_curve_marquee: None,
        active_curve_node: None,
        active_curve_node_drag: None,
        active_curve_paint: None,
        active_curve_offset: None,
        active_curve_segment: None,
        hover_curve_node: None,
        preview_curve_node: None,
        hover_curve_segment: None,
        ..before
    })
}

/// The state after `on_drag_node` with these arguments.
pub open spec fn spec_on_drag_node<F: Fn(u32) -> u32>(
    before: CurveEditorState,
    after: CurveEditorState,
    index: usize,
    node: CurveNode,
    push_through_threshold_x: u32,
    snap: F,
) -> bool {
    &&& exists|moved: usize|
        {
            &&& spec_node_drag_step(
                before,
                after.curve,
                after.active_curve_node_drag,
                index,
                node,
                push_through_threshold_x,
                CurvePointDragModifiers {
                    shift_held: before.shift_hover_held,
                    option_held: before.option_hover_held,
                    command_held: before.command_hover_held,
                },
                snap,
                moved,
            )
            &&& after == (CurveEditorState {
                curve: after.curve,
                active_curve_node_drag: after.active_curve_node_drag,
                active_curve_node: Some(moved),
                active_curve_segment: None,
                hover_curve_node: Some(moved),
                preview_curve_node: None,
                hover_curve_segment: None,
                ..before
            })
        }
}

/// The state after `on_release_node` with these arguments.
pub open spec fn spec_on_release_node<F: Fn(u32) -> u32>(
    before: CurveEditorState,
    after: CurveEditorState,
    index: usize,
    node: CurveNode,
    push_through_threshold_x: u32,
    shift_held: bool,
    option_held: bool,
    command_held: bool,
    snap: F,
) -> bool {
    &&& ({
        let grouped = before.active_curve_node_drag matches Some(d) && d.selected_indices@.len() > 0;
        exists|moved: usize, drag_after: Option<ActiveCurveNodeDrag>|
            {
                &&& spec_node_drag_step(
                    before,
                    after.curve,
                    drag_after,
                    index,
                    node,
                    push_through_threshold_x,
                    CurvePointDragModifiers { shift_held, option_held, command_held },
                    snap,
                    moved,
                )
                &&& after.selected_curve_nodes@ == if grouped {
                    before.selected_curve_nodes@
                } else {
                    Seq::empty()
                }
                &&& after == (CurveEditorState {
                    curve: after.curve,
                    selected_curve_nodes: after.selected_curve_nodes,
                    active_curve_marquee: if grouped {
                        before.active_curve_marquee
                    } else {
                        None
                    },
                    option_hover_held: option_held,
                    command_hover_held: command_held,
                    shift_hover_held: shift_held,
                    active_curve_node: None,
                    active_curve_node_drag: None,
                    active_curve_paint: None,
                    active_curve_segment: None,
                    hover_curve_node: Some(moved),
                    preview_curve_node: None,
                    hover_curve_segment: None,
                    ..before
                })
            }
    })
}

} // verus!

verus! {

/// Input from the curve preview.
#[derive(Clone, Copy, Debug)]
pub enum CurvePreviewMessage {
    Hover { node: Option<usize>, preview_node: Option<CurveNode>, segment: Option<usize> },
    ModifiersChanged { option_held: bool, command_held: bool, shift_held: bool },
    PressPaint { sample: CurvePaintSample },
    DragPaint { sample: CurvePaintSample },
    DragPaintOutside { sample: CurvePaintSample },
    ReleasePaint { sample: Option<CurvePaintSample> },
    ReleasePaintOutside { sample: CurvePaintSample },
    PressNode { index: usize, pointer: CurveNode, shift_held: bool, option_held: bool, command_held: bool },
    PressMarquee { start: CurveNode },
    DragMarquee { current: CurveNode },
    ReleaseMarquee { current: CurveNode },
    PressCurveOffset { pointer_x: i64, quantized: bool },
    ResetCurveOffset,
    InsertNode { node: CurveNode, command_held: bool },
    DeleteNode { index: usize },
    DeleteSelectedNodes,
    DragNode { index: usize, node: CurveNode, push_through_threshold_x: u32 },
    DragCurveOffset { delta: i64 },
    ReleaseCurveOffset { delta: i64, option_held: bool },
    ReleaseNode {
        index: usize,
        node: CurveNode,
        push_through_threshold_x: u32,
        shift_held: bool,
        option_held: bool,
        command_held: bool,
    },
    PressSegment { index: usize, position: Point },
    PressSegmentMove { index: usize, position: Point },
    DragSegment { index: usize, position: Point },
    ReleaseSegment { index: usize, position: Point },
    Cancel,
}

/// The state after `message` (with `snap` for beat-grid snapping), with
/// `calls` the calls made to the host: each message acts as its handler
/// describes, and only the phase offset messages, a modifier change during an
/// offset drag and a cancel call the host.
pub open spec fn spec_curve_message<F: Fn(u32) -> u32, M: Fn(&EditableCurve, usize, Point, Point) -> EditableCurve>(
    before: CurveEditorState,
    after: CurveEditorState,
    message: CurvePreviewMessage,
    snap: F,
    translate: M,
    calls: Seq<SinkCall<PhaseOffsetParam, u32>>,
) -> bool {
    match message {
        CurvePreviewMessage::ModifiersChanged { option_held, command_held, shift_held } => spec_modifiers_changed(
            before,
            after,
            option_held,
            command_held,
            shift_held,
            snap,
            calls,
        ),
        CurvePreviewMessage::PressCurveOffset { pointer_x, quantized } => spec_on_press_curve_offset(
            before,
            after,
            pointer_x,
            quantized,
            calls,
        ),
        CurvePreviewMessage::ResetCurveOffset => spec_on_reset_curve_offset(before, after, calls),
        CurvePreviewMessage::DragCurveOffset { delta } => spec_on_drag_curve_offset(before, after, delta, snap, calls),
        CurvePreviewMessage::ReleaseCurveOffset { delta, option_held } => spec_on_release_curve_offset(
            before,
            after,
            delta,
            option_held,
            snap,
            calls,
        ),
        CurvePreviewMessage::Cancel => spec_on_cancel(before, after, calls),
        _ => calls.len() == 0 && spec_local_message(before, after, message, snap, translate),
    }
}

/// The state after a message that never calls the host (see
/// `spec_curve_message`).
pub open spec fn spec_local_message<F: Fn(u32) -> u32, M: Fn(&EditableCurve, usize, Point, Point) -> EditableCurve>(
    before: CurveEditorState,
    after: CurveEditorState,
    message: CurvePreviewMessage,
    snap: F,
    translate: M,
) -> bool {
    match message {
        CurvePreviewMessage::Hover { node, preview_node, segment } => spec_on_hover(
            before,
            after,
            node,
            preview_node,
            segment,
        ),
        CurvePreviewMessage::PressPaint { sample } => spec_on_press_paint(before, after, sample),
        CurvePreviewMessage::DragPaint { sample } => spec_on_drag_paint(before, after, sample, false),
        CurvePreviewMessage::DragPaintOutside { sample } => spec_on_drag_paint(before, after, sample, true),
        CurvePreviewMessage::ReleasePaint { sample } => spec_on_release_paint(before, after, sample, false),
        CurvePreviewMessage::ReleasePaintOutside { sample } => spec_on_release_paint(
            before,
            after,
            Some(sample),
            true,
        ),
        CurvePreviewMessage::PressNode { index, pointer, shift_held, option_held, command_held } => spec_on_press_node(
            before,
            after,
            index,
            pointer,
            shift_held,
            option_held,
            command_held,
        ),
        CurvePreviewMessage::PressMarquee { start } => spec_on_press_marquee(before, after, start),
        CurvePreviewMessage::DragMarquee { current } => spec_on_drag_marquee(before, after, current),
        CurvePreviewMessage::ReleaseMarquee { current } => spec_on_release_marquee(before, after, current),
        CurvePreviewMessage::InsertNode { node, command_held } => spec_on_insert_node(
            before,
            after,
            node,
            command_held,
        ),
        CurvePreviewMessage::DeleteNode { index } => spec_on_delete_node(before, after, index),
        CurvePreviewMessage::DeleteSelectedNodes => spec_on_delete_selected_nodes(before, after),
        CurvePreviewMessage::DragNode { index, node, push_through_threshold_x } => spec_on_drag_node(
            before,
            after,
            index,
            node,
            push_through_threshold_x,
            snap,
        ),
        CurvePreviewMessage::ReleaseNode {
            index,
            node,
            push_through_threshold_x,
            shift_held,
            option_held,
            command_held,
        } => spec_on_release_node(
            before,
            after,
            index,
            node,
            push_through_threshold_x,
            shift_held,
            option_held,
            command_held,
            snap,
        ),
        CurvePreviewMessage::PressSegment { index, position } => spec_on_press_segment(
            before,
            after,
            index,
            position,
            false,
        ),
        CurvePreviewMessage::PressSegmentMove { index, position } => spec_on_press_segment(
            before,
            after,
            index,
            position,
            true,
        ),
        CurvePreviewMessage::DragSegment { index: _, position } => spec_on_drag_segment(
            before,
            after,
            position,
            translate,
        ),
        CurvePreviewMessage::ReleaseSegment { index: _, position } => spec_on_release_segment(
            before,
            after,
            position,
            translate,
        ),
        _ => false,
    }
}

/// Whether `message` starts an edit that is recorded as an undo step before
/// it is applied.
pub open spec fn spec_records_history(message: CurvePreviewMessage) -> bool {
    match message {
        CurvePreviewMessage::PressNode { .. } => true,
        CurvePreviewMessage::PressCurveOffset { .. } => true,
        CurvePreviewMessage::ResetCurveOffset => true,
        CurvePreviewMessage::InsertNode { .. } => true,
        CurvePreviewMessage::DeleteNode { .. } => true,
        CurvePreviewMessage::DeleteSelectedNodes => true,
        CurvePreviewMessage::PressSegment { .. } => true,
        CurvePreviewMessage::PressSegmentMove { .. } => true,
        _ => false,
    }
}

pub fn records_history(message: &CurvePreviewMessage) -> (r: bool)
    ensures
        r == spec_records_history(*message),
{
    match message {
        CurvePreviewMessage::PressNode { .. } => true,
        CurvePreviewMessage::PressCurveOffset { .. } => true,
        CurvePreviewMessage::ResetCurveOffset => true,
        CurvePreviewMessage::InsertNode { .. } => true,
        CurvePreviewMessage::DeleteNode { .. } => true,
        CurvePreviewMessage::DeleteSelectedNodes => true,
        CurvePreviewMessage::PressSegment { .. } => true,
        CurvePreviewMessage::PressSegmentMove { .. } => true,
        _ => false,
    }
}

/// The editor after the curve message `message` as the editor applies it,
/// with `calls` the calls made to the host: a message that starts an edit
/// (see `spec_records_history`) first records the undoable state as an undo
/// step, then acts as `spec_curve_message` says.
pub open spec fn spec_editor_curve_message<F: Fn(u32) -> u32, M: Fn(&EditableCurve, usize, Point, Point) -> EditableCurve>(
    before: CurveEditorState,
    after: CurveEditorState,
    message: CurvePreviewMessage,
    snap: F,
    translate: M,
    calls: Seq<SinkCall<PhaseOffsetParam, u32>>,
) -> bool {
    &&& spec_records_history(message) ==> exists|recorded: CurveEditorState|
        {
            &&& snapshots_view(recorded.history.undo_seq()) == spec_bounded_push(
                snapshots_view(before.history.undo_seq()),
                undoable_view(before),
            )
            &&& recorded.history.redo_seq().len() == 0
            &&& recorded == (CurveEditorState { history: recorded.history, ab_confirmation: None, ..before })
            &&& spec_curve_message(recorded, after, message, snap, translate, calls)
        }
    &&& !spec_records_history(message) ==> spec_curve_message(before, after, message, snap, translate, calls)
}

/// `after` is `before` after an undo that `restored` a step or found none
/// (and then changed nothing); with an undo step, the newest one
/// gives back every undoable value (curve, phase offset, deck values, active
/// sound and the other sound), the current ones become the newest redo step,
/// and the selection and marquee are cleared.
pub open spec fn spec_editor_undo(before: CurveEditorState, after: CurveEditorState, restored: bool) -> bool {
    &&& restored == (before.history.undo_seq().len() > 0)
    &&& restored ==> {
        let u = snapshots_view(before.history.undo_seq());
        &&& snapshots_view(after.history.undo_seq()) == u.drop_last()
        &&& snapshots_view(after.history.redo_seq()) == snapshots_view(before.history.redo_seq()).push(
            undoable_view(before),
        )
        &&& undoable_view(after) == u.last()
        &&& after.selected_curve_nodes@.len() == 0
        &&& after == (CurveEditorState {
            curve: after.curve,
            phase_offset: after.phase_offset,
            deck: after.deck,
            active_sound: after.active_sound,
            inactive_sound: after.inactive_sound,
            history: after.history,
            selected_curve_nodes: after.selected_curve_nodes,
            active_curve_marquee: None,
            ..before
        })
    }
    &&& !restored ==> after == before
}

/// `after` is `before` after a redo that `restored` a step or found none; the
/// mirror image of `spec_editor_undo`.
pub open spec fn spec_editor_redo(before: CurveEditorState, after: CurveEditorState, restored: bool) -> bool {
    &&& restored == (before.history.redo_seq().len() > 0)
    &&& restored ==> {
        let r = snapshots_view(before.history.redo_seq());
        &&& snapshots_view(after.history.redo_seq()) == r.drop_last()
        &&& snapshots_view(after.history.undo_seq()) == snapshots_view(before.history.undo_seq()).push(
            undoable_view(before),
        )
        &&& undoable_view(after) == r.last()
        &&& after.selected_curve_nodes@.len() == 0
        &&& after == (CurveEditorState {
            curve: after.curve,
            phase_offset: after.phase_offset,
            deck: after.deck,
            active_sound: after.active_sound,
            inactive_sound: after.inactive_sound,
            history: after.history,
            selected_curve_nodes: after.selected_curve_nodes,
            active_curve_marquee: None,
            ..before
        })
    }
    &&& !restored ==> after == before
}

/// Undoing a step and then redoing it gives back every undoable value (the
/// curve, the phase offset, the deck values, the active sound and the other
/// sound) and both history stacks as they were before the undo.
pub proof fn law_redo_after_undo_restores_editor(s0: CurveEditorState, s1: CurveEditorState, s2: CurveEditorState)
    requires
        spec_editor_undo(s0, s1, true),
        spec_editor_redo(s1, s2, true),
    ensures
        s2.curve.nodes@ == s0.curve.nodes@,
        s2.curve.segments@ == s0.curve.segments@,
        s2.phase_offset == s0.phase_offset,
        undoable_view(s2) == undoable_view(s0),
        snapshots_view(s2.history.undo_seq()) == snapshots_view(s0.history.undo_seq()),
        snapshots_view(s2.history.redo_seq()) == snapshots_view(s0.history.redo_seq()),
{
    let u = snapshots_view(s0.history.undo_seq());
    assert(u.drop_last().push(u.last()) =~= u);
    let r = snapshots_view(s0.history.redo_seq());
    assert(r.push(undoable_view(s0)).drop_last() =~= r);
}

impl CurveEditorState {
    /// Apply one curve preview message (see `spec_curve_message`); `snap` gives
    /// the beat-grid time for a time that snaps, and `sink` is the host end of
    /// phase offset edits. Gives the calls made to the host.
    pub fn reduce_curve_message<
        F: Fn(u32) -> u32,
        M: Fn(&EditableCurve, usize, Point, Point) -> EditableCurve,
        S: HostParamEditSink<PhaseOffsetParam, u32>,
    >(
        &mut self,
        message: CurvePreviewMessage,
        snap: &F,
        translate: &M,
        sink: &mut HostSink<PhaseOffsetParam, u32, S>,
    ) -> (calls: Vec<SinkCall<PhaseOffsetParam, u32>>)
        requires
            old(self).wf(),
            forall|x: u32| call_requires(*snap, (x,)),
            spec_translator_ok(*translate),
        ensures
            final(self).wf(),
            final(sink).sent@ == old(sink).sent@ + calls@,
            spec_curve_message(*old(self), *final(self), message, *snap, *translate, calls@),
    {
        match message {
            CurvePreviewMessage::ModifiersChanged { option_held, command_held, shift_held } => {
                return self.on_modifiers_changed(option_held, command_held, shift_held, snap, sink);
            },
            CurvePreviewMessage::PressCurveOffset { pointer_x, quantized } => {
                return self.on_press_curve_offset(pointer_x, quantized, sink);
            },
            CurvePreviewMessage::ResetCurveOffset => {
                return self.on_reset_curve_offset(sink);
            },
            CurvePreviewMessage::DragCurveOffset { delta } => {
                return self.on_drag_curve_offset(delta, snap, sink);
            },
            CurvePreviewMessage::ReleaseCurveOffset { delta, option_held } => {
                return self.on_release_curve_offset(delta, option_held, snap, sink);
            },
            CurvePreviewMessage::Cancel => {
                return self.on_cancel(sink);
            },
            CurvePreviewMessage::Hover { node, preview_node, segment } => self.on_hover(node, preview_node, segment),
            CurvePreviewMessage::PressPaint { sample } => self.on_press_paint(sample),
            CurvePreviewMessage::DragPaint { sample } => self.on_drag_paint(sample, false),
            CurvePreviewMessage::DragPaintOutside { sample } => self.on_drag_paint(sample, true),
            CurvePreviewMessage::ReleasePaint { sample } => self.on_release_paint(sample, false),
            CurvePreviewMessage::ReleasePaintOutside { sample } => self.on_release_paint(Some(sample), true),
            CurvePreviewMessage::PressNode { index, pointer, shift_held, option_held, command_held } => self.on_press_node(
                index,
                pointer,
                shift_held,
                option_held,
                command_held,
            ),
            CurvePreviewMessage::PressMarquee { start } => self.on_press_marquee(start),
            CurvePreviewMessage::DragMarquee { current } => self.on_drag_marquee(current),
            CurvePreviewMessage::ReleaseMarquee { current } => self.on_release_marquee(current),
            CurvePreviewMessage::InsertNode { node, command_held } => self.on_insert_node(node, command_held),
            CurvePreviewMessage::DeleteNode { index } => self.on_delete_node(index),
            CurvePreviewMessage::DeleteSelectedNodes => self.on_delete_selected_nodes(),
            CurvePreviewMessage::DragNode { index, node, push_through_threshold_x } => self.on_drag_node(
                index,
                node,
                push_through_threshold_x,
                snap,
            ),
            CurvePreviewMessage::ReleaseNode {
                index,
                node,
                push_through_threshold_x,
                shift_held,
                option_held,
                command_held,
            } => self.on_release_node(
                index,
                node,
                push_through_threshold_x,
                shift_held,
                option_held,
                command_held,
                snap,
            ),
            CurvePreviewMessage::PressSegment { index, position } => self.on_press_segment(index, position),
            CurvePreviewMessage::PressSegmentMove { index, position } => self.on_press_segment_move(index, position),
            CurvePreviewMessage::DragSegment { index: _, position } => self.on_drag_segment(position, translate),
            CurvePreviewMessage::ReleaseSegment { index: _, position } => self.on_release_segment(position, translate),
        }
        let calls: Vec<SinkCall<PhaseOffsetParam, u32>> = Vec::new();
        assert(old(sink).sent@ + calls@ =~= sink.sent@);
        calls
    }

    /// Apply a curve preview message as the editor does: an edit that starts
    /// with this message (see `spec_records_history`) first records the
    /// undoable state as an undo step.
    pub fn reduce_editor_curve_message<
        F: Fn(u32) -> u32,
        M: Fn(&EditableCurve, usize, Point, Point) -> EditableCurve,
        S: HostParamEditSink<PhaseOffsetParam, u32>,
    >(
        &mut self,
        message: CurvePreviewMessage,
        snap: &F,
        translate: &M,
        sink: &mut HostSink<PhaseOffsetParam, u32, S>,
    ) -> (calls: Vec<SinkCall<PhaseOffsetParam, u32>>)
        requires
            old(self).wf(),
            forall|x: u32| call_requires(*snap, (x,)),
            spec_translator_ok(*translate),
        ensures
            final(self).wf(),
            final(sink).sent@ == old(sink).sent@ + calls@,
            spec_editor_curve_message(*old(self), *final(self), message, *snap, *translate, calls@),
    {
        if records_history(&message) {
            self.push_history();
            let ghost recorded = *self;
            let calls = self.reduce_curve_message(message, snap, translate, sink);
            assert(spec_curve_message(recorded, *self, message, *snap, *translate, calls@));
            calls
        } else {
            self.reduce_curve_message(message, snap, translate, sink)
        }
    }

    /// Undo: the newest undo step is restored (see `spec_editor_undo`), with
    /// the current state becoming the newest redo step and the selection
    /// cleared; nothing changes when there is no undo step.
    pub fn undo(&mut self) -> (restored: bool)
        requires
            old(self).wf(),
        ensures
            final(self).wf(),
            spec_editor_undo(*old(self), *final(self), restored),
    {
        if !self.history.can_undo() {
            return false;
        }
        let current = self.snapshot();
        let ghost undo_before = self.history.undo_seq();
        let ghost redo_before = self.history.redo_seq();
        match self.history.undo(current) {
            Some(snapshot) => {
                proof {
                    assert(snapshots_view(self.history.undo_seq()) =~= snapshots_view(undo_before).drop_last());
                    assert(snapshots_view(self.history.redo_seq()) =~= snapshots_view(redo_before).push(
                        snapshot_view(current),
                    ));
                    assert(snapshot == undo_before.last());
                    assert(snapshots_wf(self.history.undo_seq()));
                    assert forall|i: int| 0 <= i < self.history.redo_seq().len() implies (
                    #[trigger] self.history.redo_seq()[i]).curve.wf()
                        && self.history.redo_seq()[i].inactive_sound.curve.wf() by {
                        if i < redo_before.len() {
                            assert(self.history.redo_seq()[i] == redo_before[i]);
                        }
                    }
                    assert(snapshot.curve.wf());
                }
                self.curve = snapshot.curve;
                self.phase_offset = snapshot.phase_offset;
                self.deck = snapshot.deck;
                self.active_sound = snapshot.active_sound;
                self.inactive_sound = snapshot.inactive_sound;
                self.clear_curve_selection();
                true
            },
            None => false,
        }
    }

    /// Redo: the newest redo step is restored (see `spec_editor_redo`), with
    /// the current state becoming the newest undo step and the selection
    /// cleared; nothing changes when there is no redo step.
    pub fn redo(&mut self) -> (restored: bool)
        requires
            old(self).wf(),
        ensures
            final(self).wf(),
            spec_editor_redo(*old(self), *final(self), restored),
    {
        if !self.history.can_redo() {
            return false;
        }
        let current = self.snapshot();
        let ghost undo_before = self.history.undo_seq();
        let ghost redo_before = self.history.redo_seq();
        match self.history.redo(current) {
            Some(snapshot) => {
                proof {
                    assert(snapshots_view(self.history.redo_seq()) =~= snapshots_view(redo_before).drop_last());
                    assert(snapshots_view(self.history.undo_seq()) =~= snapshots_view(undo_before).push(
                        snapshot_view(current),
                    ));
                    assert(snapshot == redo_before.last());
                    assert(snapshots_wf(self.history.redo_seq()));
                    assert forall|i: int| 0 <= i < self.history.undo_seq().len() implies (
                    #[trigger] self.history.undo_seq()[i]).curve.wf()
                        && self.history.undo_seq()[i].inactive_sound.curve.wf() by {
                        if i < undo_before.len() {
                            assert(self.history.undo_seq()[i] == undo_before[i]);
                        }
                    }
                    assert(snapshot.curve.wf());
                }
                self.curve = snapshot.curve;
                self.phase_offset = snapshot.phase_offset;
                self.deck = snapshot.deck;
                self.active_sound = snapshot.active_sound;
                self.inactive_sound = snapshot.inactive_sound;
                self.clear_curve_selection();
                true
            },
            None => false,
        }
    }

    /// The Undo message: a paint stroke in progress is dropped, then the
    /// newest undo step, if any, is restored (see `spec_editor_undo`).
    pub fn handle_undo(&mut self) -> (restored: bool)
        requires
            old(self).wf(),
        ensures
            final(self).wf(),
            spec_editor_undo(CurveEditorState { active_curve_paint: None, ..*old(self) }, *final(self), restored),
    {
        self.active_curve_paint = None;
        self.undo()
    }

    /// The Redo message: a paint stroke in progress is dropped, then the
    /// newest redo step, if any, is restored (see `spec_editor_redo`).
    pub fn handle_redo(&mut self) -> (restored: bool)
        requires
            old(self).wf(),
        ensures
            final(self).wf(),
            spec_editor_redo(CurveEditorState { active_curve_paint: None, ..*old(self) }, *final(self), restored),
    {
        self.active_curve_paint = None;
        self.redo()
    }
}

} // verus!

verus! {

/// After an edit that records history, the newest undo step is the undoable
/// state from before the edit, so undoing restores it.
pub proof fn law_recorded_edit_is_undoable<
    F: Fn(u32) -> u32,
    M: Fn(&EditableCurve, usize, Point, Point) -> EditableCurve,
>(
    before: CurveEditorState,
    recorded: CurveEditorState,
    after: CurveEditorState,
    message: CurvePreviewMessage,
    snap: F,
    translate: M,
    calls: Seq<SinkCall<PhaseOffsetParam, u32>>,
)
    requires
        spec_records_history(message),
        snapshots_view(recorded.history.undo_seq()) == spec_bounded_push(
            snapshots_view(before.history.undo_seq()),
            undoable_view(before),
        ),
        spec_curve_message(recorded, after, message, snap, translate, calls),
    ensures
        snapshots_view(after.history.undo_seq()).len() > 0,
        snapshots_view(after.history.undo_seq()).last() == undoable_view(before),
{
    assert(after.history == recorded.history);
}

/// Cancelling never changes the curve or the history, and leaves the phase
/// offset either as it was or back where an offset drag started.
pub proof fn law_cancel_keeps_curve_and_history(
    before: CurveEditorState,
    after: CurveEditorState,
    calls: Seq<SinkCall<PhaseOffsetParam, u32>>,
)
    requires
        spec_on_cancel(before, after, calls),
    ensures
        after.curve == before.curve,
        after.history == before.history,
        after.active_curve_paint is None,
        after.active_curve_offset is None,
        after.phase_offset == before.phase_offset || (before.active_curve_offset matches Some(d)
            && after.phase_offset == d.origin_phase_offset),
{
}

} // verus!

verus! {

/// The phase offset reached by moving `delta` from `origin`, wrapped into the
/// cycle.
pub open spec fn spec_offset_phase(origin: u32, delta: int) -> int {
    (origin + delta) % (UNIT as int)
}

/// `phase` is what a drag by `delta` from `origin` resolves to: the wrapped
/// offset, replaced by a value `snap` gives for it when `snap_to_grid`.
pub open spec fn spec_resolved<F: Fn(u32) -> u32>(origin: u32, delta: int, snap_to_grid: bool, snap: F, phase: u32) -> bool {
    if snap_to_grid {
        call_ensures(snap, (spec_offset_phase(origin, delta) as u32,), phase)
    } else {
        phase == spec_offset_phase(origin, delta)
    }
}

/// The phase offset for a drag by `delta` from `origin` (see `spec_resolved`).
pub fn resolve_curve_offset<F: Fn(u32) -> u32>(origin: u32, delta: i64, snap_to_grid: bool, snap: &F) -> (phase: u32)
    requires
        forall|x: u32| call_requires(*snap, (x,)),
    ensures
        spec_resolved(origin, delta as int, snap_to_grid, *snap, phase),
{
    let x: i128 = origin as i128 + delta as i128;
    let unit: i128 = UNIT as i128;
    let wrapped: i128 = if x >= 0 {
        x % unit
    } else {
        let r: i128 = (-x) % unit;
        if r == 0 { 0 } else { unit - r }
    };
    proof {
        let xi = x as int;
        if xi < 0 {
            let r = (-xi) % 1_000_000;
            let q = (-xi) / 1_000_000;
            assert(-xi == q * 1_000_000 + r);
            if r == 0 {
                assert(xi == (-q) * 1_000_000);
                vstd::arithmetic::div_mod::lemma_mod_multiples_basic(-q, 1_000_000);
            } else {
                assert(xi == (-q - 1) * 1_000_000 + (1_000_000 - r));
                vstd::arithmetic::div_mod::lemma_mod_multiples_vanish(-q - 1, 1_000_000 - r, 1_000_000);
                vstd::arithmetic::div_mod::lemma_small_mod((1_000_000 - r) as nat, 1_000_000);
            }
        }
    }
    assert(wrapped == spec_offset_phase(origin, delta as int));
    let phase: u32 = wrapped as u32;
    if snap_to_grid {
        snap(phase)
    } else {
        phase
    }
}

} // verus!

verus! {

/// The state after pressing to drag the phase offset from `pointer_x`, with
/// `calls` the calls made to the host: the host is asked to begin a gesture;
/// when it refuses nothing else happens, otherwise the selection is cleared,
/// the drag starts from the current offset, every other gesture and the hover
/// state end, and Command and Shift count as held.
pub open spec fn spec_on_press_curve_offset(
    before: CurveEditorState,
    after: CurveEditorState,
    pointer_x: i64,
    quantized: bool,
    calls: Seq<SinkCall<PhaseOffsetParam, u32>>,
) -> bool {
    &&& calls_match(calls, seq![SinkCall::GestureStarted { target: PhaseOffsetParam, accepted: true }])
    &&& if !calls[0].accepted() {
        after == before
    } else {
        &&& after.selected_curve_nodes@.len() == 0
        &&& after == CurveEditorState {
            selected_curve_nodes: after.selected_curve_nodes,
            active_curve_marquee: None,
            active_curve_offset: Some(
                ActiveCurveOffsetDrag {
                    origin_phase_offset: before.phase_offset,
                    start_pointer_x: pointer_x,
                    raw_delta: 0,
                    quantized,
                },
            ),
            active_curve_node: None,
            active_curve_node_drag: None,
            active_curve_paint: None,
            active_curve_segment: None,
            hover_curve_node: None,
            preview_curve_node: None,
            hover_curve_segment: None,
            command_hover_held: true,
            shift_hover_held: true,
            ..before
        }
    }
}

/// The state after a request to reset the phase offset, with `calls` the
/// calls made to the host: nothing happens at offset 0 or when the host
/// refuses the gesture; otherwise 0 is sent (and stored when accepted) and the
/// gesture ended.
pub open spec fn spec_on_reset_curve_offset(
    before: CurveEditorState,
    after: CurveEditorState,
    calls: Seq<SinkCall<PhaseOffsetParam, u32>>,
) -> bool {
    if before.phase_offset == 0 {
        calls.len() == 0 && after == before
    } else if !(calls.len() > 0 && calls[0].accepted()) {
        calls_match(calls, seq![SinkCall::GestureStarted { target: PhaseOffsetParam, accepted: true }])
            && after == before
    } else {
        &&& calls_match(
            calls,
            seq![
                SinkCall::GestureStarted { target: PhaseOffsetParam, accepted: true },
                SinkCall::GestureValue { target: PhaseOffsetParam, value: 0, accepted: true },
                SinkCall::GestureEnded { target: PhaseOffsetParam, accepted: true },
            ],
        )
        &&& after == CurveEditorState {
            phase_offset: if calls[1].accepted() {
                0
            } else {
                before.phase_offset
            },
            ..before
        }
    }
}

/// The state after the phase offset drag moved by `delta` from its start,
/// with `calls` the calls made to the host: the offset resolves from the
/// drag's origin (see `spec_resolved`), is sent to the host and stored when
/// accepted; node and segment gestures and the hover state end. Without a drag
/// nothing happens.
pub open spec fn spec_on_drag_curve_offset<F: Fn(u32) -> u32>(
    before: CurveEditorState,
    after: CurveEditorState,
    delta: i64,
    snap: F,
    calls: Seq<SinkCall<PhaseOffsetParam, u32>>,
) -> bool {
    match before.active_curve_offset {
        None => calls.len() == 0 && after == before,
        Some(d) => exists|phase: u32|
            {
                &&& spec_resolved(d.origin_phase_offset, delta as int, d.quantized, snap, phase)
                &&& calls_match(calls, seq![SinkCall::GestureValue { target: PhaseOffsetParam, value: phase, accepted: true }])
                &&& after == CurveEditorState {
                    active_curve_offset: Some(ActiveCurveOffsetDrag { raw_delta: delta, ..d }),
                    phase_offset: if calls[0].accepted() {
                        phase
                    } else {
                        before.phase_offset
                    },
                    active_curve_node: None,
                    active_curve_segment: None,
                    hover_curve_node: None,
                    preview_curve_node: None,
                    hover_curve_segment: None,
                    ..before
                }
            },
    }
}

/// The state after releasing the phase offset drag at `delta` with Option
/// `option_held`, with `calls` the calls made to the host: the final offset
/// resolves with Option as its snapping, is sent (and stored when accepted)
/// and the gesture ended; Option is taken from the release and every gesture
/// and the hover state end.
pub open spec fn spec_on_release_curve_offset<F: Fn(u32) -> u32>(
    before: CurveEditorState,
    after: CurveEditorState,
    delta: i64,
    option_held: bool,
    snap: F,
    calls: Seq<SinkCall<PhaseOffsetParam, u32>>,
) -> bool {
    let cleared = CurveEditorState {
        active_curve_offset: None,
        option_hover_held: option_held,
        active_curve_node: None,
        active_curve_node_drag: None,
        active_curve_paint: None,
        active_curve_segment: None,
        hover_curve_node: None,
        preview_curve_node: None,
        hover_curve_segment: None,
        ..before
    };
    match before.active_curve_offset {
        None => calls.len() == 0 && after == cleared,
        Some(d) => exists|phase: u32|
            {
                &&& spec_resolved(d.origin_phase_offset, delta as int, option_held, snap, phase)
                &&& calls_match(
                    calls,
                    seq![
                        SinkCall::GestureValue { target: PhaseOffsetParam, value: phase, accepted: true },
                        SinkCall::GestureEnded { target: PhaseOffsetParam, accepted: true },
                    ],
                )
                &&& after == CurveEditorState {
                    phase_offset: if calls[0].accepted() {
                        phase
                    } else {
                        before.phase_offset
                    },
                    ..cleared
                }
            },
    }
}

impl CurveEditorState {
    /// Press to drag the phase offset (see `spec_on_press_curve_offset`).
    pub fn on_press_curve_offset<S: HostParamEditSink<PhaseOffsetParam, u32>>(
        &mut self,
        pointer_x: i64,
        quantized: bool,
        sink: &mut HostSink<PhaseOffsetParam, u32, S>,
    ) -> (calls: Vec<SinkCall<PhaseOffsetParam, u32>>)
        requires
            old(self).wf(),
        ensures
            final(self).wf(),
            final(sink).sent@ == old(sink).sent@ + calls@,
            spec_on_press_curve_offset(*old(self), *final(self), pointer_x, quantized, calls@),
    {
        let ghost start = sink.sent@;
        let mut calls: Vec<SinkCall<PhaseOffsetParam, u32>> = Vec::new();
        let accepted = sink.gesture_started(PhaseOffsetParam);
        calls.push(SinkCall::GestureStarted { target: PhaseOffsetParam, accepted });
        if !accepted {
            assert(sink.sent@ =~= start + calls@);
            return calls;
        }
        self.clear_curve_selection();
        self.active_curve_offset = Some(
            ActiveCurveOffsetDrag {
                origin_phase_offset: self.phase_offset,
                start_pointer_x: pointer_x,
                raw_delta: 0,
                quantized,
            },
        );
        self.active_curve_node = None;
        self.active_curve_node_drag = None;
        self.active_curve_paint = None;
        self.active_curve_segment = None;
        self.hover_curve_node = None;
        self.preview_curve_node = None;
        self.hover_curve_segment = None;
        self.command_hover_held = true;
        self.shift_hover_held = true;
        assert(sink.sent@ =~= start + calls@);
        calls
    }

    /// Reset the phase offset to 0 (see `spec_on_reset_curve_offset`).
    pub fn on_reset_curve_offset<S: HostParamEditSink<PhaseOffsetParam, u32>>(
        &mut self,
        sink: &mut HostSink<PhaseOffsetParam, u32, S>,
    ) -> (calls: Vec<SinkCall<PhaseOffsetParam, u32>>)
        requires
            old(self).wf(),
        ensures
            final(self).wf(),
            final(sink).sent@ == old(sink).sent@ + calls@,
            spec_on_reset_curve_offset(*old(self), *final(self), calls@),
    {
        let ghost start = sink.sent@;
        let mut calls: Vec<SinkCall<PhaseOffsetParam, u32>> = Vec::new();
        if self.phase_offset == 0 {
            assert(sink.sent@ =~= start + calls@);
            return calls;
        }
        let started = sink.gesture_started(PhaseOffsetParam);
        calls.push(SinkCall::GestureStarted { target: PhaseOffsetParam, accepted: started });
        if !started {
            assert(sink.sent@ =~= start + calls@);
            return calls;
        }
        let accepted = sink.gesture_value(PhaseOffsetParam, 0);
        calls.push(SinkCall::GestureValue { target: PhaseOffsetParam, value: 0, accepted });
        if accepted {
            self.phase_offset = 0;
        }
        let ended = sink.gesture_ended(PhaseOffsetParam);
        calls.push(SinkCall::GestureEnded { target: PhaseOffsetParam, accepted: ended });
        assert(sink.sent@ =~= start + calls@);
        calls
    }

    /// Move the phase offset drag (see `spec_on_drag_curve_offset`).
    pub fn on_drag_curve_offset<F: Fn(u32) -> u32, S: HostParamEditSink<PhaseOffsetParam, u32>>(
        &mut self,
        delta: i64,
        snap: &F,
        sink: &mut HostSink<PhaseOffsetParam, u32, S>,
    ) -> (calls: Vec<SinkCall<PhaseOffsetParam, u32>>)
        requires
            old(self).wf(),
            forall|x: u32| call_requires(*snap, (x,)),
        ensures
            final(self).wf(),
            final(sink).sent@ == old(sink).sent@ + calls@,
            spec_on_drag_curve_offset(*old(self), *final(self), delta, *snap, calls@),
    {
        let ghost start = sink.sent@;
        let mut calls: Vec<SinkCall<PhaseOffsetParam, u32>> = Vec::new();
        let drag = match self.active_curve_offset {
            Some(d) => d,
            None => {
                assert(sink.sent@ =~= start + calls@);
                return calls;
            },
        };
        self.active_curve_offset = Some(ActiveCurveOffsetDrag { raw_delta: delta, ..drag });
        let phase = resolve_curve_offset(drag.origin_phase_offset, delta, drag.quantized, snap);
        let accepted = sink.gesture_value(PhaseOffsetParam, phase);
        calls.push(SinkCall::GestureValue { target: PhaseOffsetParam, value: phase, accepted });
        if accepted {
            self.phase_offset = phase;
        }
        self.active_curve_node = None;
        self.active_curve_segment = None;
        self.hover_curve_node = None;
        self.preview_curve_node = None;
        self.hover_curve_segment = None;
        assert(sink.sent@ =~= start + calls@);
        calls
    }

    /// Release the phase offset drag (see `spec_on_release_curve_offset`).
    pub fn on_release_curve_offset<F: Fn(u32) -> u32, S: HostParamEditSink<PhaseOffsetParam, u32>>(
        &mut self,
        delta: i64,
        option_held: bool,
        snap: &F,
        sink: &mut HostSink<PhaseOffsetParam, u32, S>,
    ) -> (calls: Vec<SinkCall<PhaseOffsetParam, u32>>)
        requires
            old(self).wf(),
            forall|x: u32| call_requires(*snap, (x,)),
        ensures
            final(self).wf(),
            final(sink).sent@ == old(sink).sent@ + calls@,
            spec_on_release_curve_offset(*old(self), *final(self), delta, option_held, *snap, calls@),
    {
        let ghost start = sink.sent@;
        let mut calls: Vec<SinkCall<PhaseOffsetParam, u32>> = Vec::new();
        match self.active_curve_offset.take() {
            Some(drag) => {
                let phase = resolve_curve_offset(drag.origin_phase_offset, delta, option_held, snap);
                let accepted = sink.gesture_value(PhaseOffsetParam, phase);
                calls.push(SinkCall::GestureValue { target: PhaseOffsetParam, value: phase, accepted });
                if accepted {
                    self.phase_offset = phase;
                }
                let ended = sink.gesture_ended(PhaseOffsetParam);
                calls.push(SinkCall::GestureEnded { target: PhaseOffsetParam, accepted: ended });
            },
            None => {},
        }
        self.option_hover_held = option_held;
        self.active_curve_node = None;
        self.active_curve_node_drag = None;
        self.active_curve_paint = None;
        self.active_curve_segment = None;
        self.hover_curve_node = None;
        self.preview_curve_node = None;
        self.hover_curve_segment = None;
        assert(sink.sent@ =~= start + calls@);
        calls
    }
}

} // verus!

verus! {

/// `spec_indices_where(n, keep)` holds exactly the indices below `n` that
/// `keep` picks.
proof fn lemma_indices_where_contains(n: int, keep: spec_fn(int) -> bool, i: int)
    requires
        0 <= i <= usize::MAX,
        n <= usize::MAX,
    ensures
        spec_indices_where(n, keep).contains(i as usize) <==> (i < n && keep(i)),
    decreases n,
{
    if n > 0 {
        lemma_indices_where_contains(n - 1, keep, i);
        lemma_indices_where_in_range(n - 1, keep);
        let s = spec_indices_where(n - 1, keep);
        if s.contains(i as usize) {
            let k = choose|k: int| 0 <= k < s.len() && #[trigger] s[k] == i as usize;
            assert(s[k] < n - 1);
        }
        if !keep(n - 1) {
            assert(spec_indices_where(n, keep) == s);
        } else {
            let t = s.push((n - 1) as usize);
            assert(spec_indices_where(n, keep) == t);
            assert(t[s.len() as int] == (n - 1) as usize);
            if t.contains(i as usize) {
                let k = choose|k: int| 0 <= k < t.len() && #[trigger] t[k] == i as usize;
                if k < s.len() {
                    assert(s[k] == t[k]);
                    assert(s.contains(i as usize));
                }
            }
            if s.contains(i as usize) {
                let k = choose|k: int| 0 <= k < s.len() && #[trigger] s[k] == i as usize;
                assert(t[k] == i as usize);
            }
            if i == n - 1 {
                assert(t.contains(i as usize));
            }
        }
    }
}

/// Releasing a marquee selects exactly the interactive nodes inside the box
/// it spans: a node is selected when, and only when, its displayed time lies
/// between the displayed times of the box's start and release points and its
/// gain between their gains. A node outside the box's time or gain range is
/// never selected.
pub proof fn law_marquee_selects_the_nodes_inside_the_box(
    before: CurveEditorState,
    after: CurveEditorState,
    current: CurveNode,
)
    requires
        before.wf(),
        before.active_curve_marquee is Some,
        spec_on_release_marquee(before, after, current),
    ensures
        ({
            let m = before.active_curve_marquee->0;
            let nodes = before.curve.nodes@;
            let sx = spec_display_phase(m.start.x, before.phase_offset);
            let cx = spec_display_phase(current.x, before.phase_offset);
            exists|survivors: Seq<usize>|
                {
                    &&& spec_survivors(nodes, before.phase_offset, None, survivors)
                    &&& forall|i: int|
                        0 <= i < nodes.len() ==> (after.selected_curve_nodes@.contains(i as usize) <==> {
                            let x = spec_display_phase(#[trigger] nodes[i].x, before.phase_offset);
                            &&& survivors.contains(i as usize)
                            &&& (sx <= x <= cx || cx <= x <= sx)
                            &&& (m.start.y <= nodes[i].y <= current.y || current.y <= nodes[i].y <= m.start.y)
                        })
                }
        }),
        forall|k: int|
            0 <= k < after.selected_curve_nodes@.len() ==> {
                let m = before.active_curve_marquee->0;
                let i = #[trigger] after.selected_curve_nodes@[k] as int;
                &&& i < before.curve.nodes@.len()
                &&& (m.start.y <= before.curve.nodes@[i].y <= current.y || current.y <= before.curve.nodes@[i].y
                    <= m.start.y)
            },
{
    let m = before.active_curve_marquee->0;
    let nodes = before.curve.nodes@;
    let survivors = choose|survivors: Seq<usize>|
        {
            &&& spec_survivors(nodes, before.phase_offset, None, survivors)
            &&& after.selected_curve_nodes@ == spec_indices_where(
                nodes.len() as int,
                |i: int| survivors.contains(i as usize) && in_marquee(nodes, before.phase_offset, m.start, current, i),
            )
        };
    let keep = |i: int| survivors.contains(i as usize) && in_marquee(nodes, before.phase_offset, m.start, current, i);
    assert forall|i: int| 0 <= i < nodes.len() implies (#[trigger] after.selected_curve_nodes@.contains(i as usize)
        <==> keep(i)) by {
        lemma_indices_where_contains(nodes.len() as int, keep, i);
    }
    assert forall|k: int| 0 <= k < after.selected_curve_nodes@.len() implies {
        let i = #[trigger] after.selected_curve_nodes@[k] as int;
        &&& i < nodes.len()
        &&& (m.start.y <= nodes[i].y <= current.y || current.y <= nodes[i].y <= m.start.y)
    } by {
        let i = after.selected_curve_nodes@[k] as int;
        assert(after.selected_curve_nodes@.contains(i as usize));
        lemma_indices_where_contains(nodes.len() as int, keep, i);
    }
}

} // verus!
