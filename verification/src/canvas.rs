use vstd::prelude::*;
use crate::curve::{has_interactive_deletable_selection, spec_survivors, CurveNode, EditableCurve};
use crate::editor::{ActiveCurveMarquee, CurvePreviewMessage};
use crate::paint::CurvePaintSample;
use crate::screen::Point;

verus! {

/// The modifier keys an event carries.
#[derive(Clone, Copy, Debug, PartialEq, Eq, Structural)]
pub struct PointerModifiers {
    pub command: bool,
    pub alt: bool,
    pub shift: bool,
}

/// The mouse button of a pointer event.
#[derive(Clone, Copy, Debug, PartialEq, Eq, Structural)]
pub enum PointerButton {
    Primary,
    Secondary,
    Other,
}

/// What the pointer hovers: a node, the node that a click would insert, and
/// a segment.
#[derive(Clone, Copy, Debug, PartialEq, Eq, Structural)]
pub struct CanvasHover {
    pub node: Option<usize>,
    pub preview_node: Option<CurveNode>,
    pub segment: Option<usize>,
}

/// A pointer position on the curve canvas as the canvas geometry resolves it:
/// the pixel position; whether it lies in the curve area or the offset bar;
/// the offset bar coordinate under it; the curve position under it; the paint
/// sample taken there and the one projected onto the nearest edge of the
/// curve area; the node it hits; what it hovers; the node a click there would
/// insert; and the push-through threshold of the canvas width.
#[derive(Clone, Copy, Debug, PartialEq, Eq, Structural)]
pub struct CanvasPoint {
    pub position: Point,
    pub in_curve: bool,
    pub in_offset_bar: bool,
    pub offset_x: i32,
    pub raw_node: CurveNode,
    pub display_sample: CurvePaintSample,
    pub boundary_sample: CurvePaintSample,
    pub hit_node: Option<usize>,
    pub hover: CanvasHover,
    pub insert_node: Option<CurveNode>,
    pub push_through_threshold_x: u32,
}

/// Input delivered to the curve canvas. A drop ends a press like a release.
#[derive(Clone, Copy, Debug, PartialEq, Eq, Structural)]
pub enum CanvasInput {
    Press { button: PointerButton, point: CanvasPoint, modifiers: PointerModifiers },
    DoubleClick { button: PointerButton, point: CanvasPoint },
    DeleteKey,
    Move { point: CanvasPoint },
    ModifiersChanged { modifiers: PointerModifiers },
    Release { button: PointerButton, point: CanvasPoint, modifiers: PointerModifiers },
    FocusChanged { focused: bool },
    Other,
}

/// The curve canvas as it was last drawn: the curve, its phase offset and
/// selection, focus, the gesture in progress, what is hovered, and the
/// modifiers last seen.
#[derive(Clone, Debug)]
pub struct CurveCanvas {
    pub curve: EditableCurve,
    pub phase_offset: u32,
    pub selected_nodes: Vec<usize>,
    pub focused: bool,
    pub active_node: Option<usize>,
    pub active_segment: Option<usize>,
    pub active_curve_paint: bool,
    pub active_curve_offset_start_x: Option<i64>,
    pub active_marquee: Option<ActiveCurveMarquee>,
    pub hover_node: Option<usize>,
    pub preview_node: Option<CurveNode>,
    pub hover_segment: Option<usize>,
    pub option_hover_held: bool,
    pub command_hover_held: bool,
    pub shift_hover_held: bool,
}

impl CurveCanvas {
    /// A normalized curve, and an offset drag start within the `i32` range of
    /// offset bar coordinates.
    pub open spec fn wf(&self) -> bool {
        &&& self.curve.wf()
        &&& (self.active_curve_offset_start_x matches Some(x) ==> i32::MIN <= x <= i32::MAX)
    }
}

/// The node a plain press at `p` inserts: the hovered preview node, else the
/// node under the pointer.
pub open spec fn spec_insert_target(p: CanvasPoint) -> Option<CurveNode> {
    match p.hover.preview_node {
        Some(node) => Some(node),
        None => p.insert_node,
    }
}

/// What a primary press reports.
///
/// Command+Shift on the curve area, or any press on the offset bar, starts a
/// phase offset drag (snapping with Option). Otherwise a hit node is pressed;
/// Shift without Option on the curve area starts a marquee; Command on a
/// hovered segment moves the segment, Option bends it; Option elsewhere does
/// nothing; and any other press inserts the hovered preview node, or the node
/// under the pointer, with its time snapped by `snap` when Command is held.
/// Held modifiers count whether the event carries them or the canvas saw them
/// last (Shift only from the event).
pub open spec fn spec_primary_press<F: Fn(u32) -> u32>(
    c: CurveCanvas,
    p: CanvasPoint,
    m: PointerModifiers,
    snap: F,
    out: Option<CurvePreviewMessage>,
) -> bool {
    let command_held = c.command_hover_held || m.command;
    let option_held = c.option_hover_held || m.alt;
    let shift_held = m.shift;
    let offset_gesture = m.command && m.shift && p.in_curve;
    if p.in_offset_bar || offset_gesture {
        out == Some(
            CurvePreviewMessage::PressCurveOffset { pointer_x: p.offset_x as i64, quantized: option_held },
        )
    } else if p.hit_node is Some {
        out == Some(
            CurvePreviewMessage::PressNode {
                index: p.hit_node->0,
                pointer: p.raw_node,
                shift_held,
                option_held,
                command_held,
            },
        )
    } else if shift_held && !option_held && p.in_curve {
        out == Some(CurvePreviewMessage::PressMarquee { start: p.raw_node })
    } else if command_held && p.hover.segment is Some {
        out == Some(CurvePreviewMessage::PressSegmentMove { index: p.hover.segment->0, position: p.position })
    } else if !command_held && option_held {
        out == match p.hover.segment {
            Some(index) => Some(
                CurvePreviewMessage::PressSegment { index, position: p.position },
            ),
            None => None,
        }
    } else {
        match spec_insert_target(p) {
            None => out is None,
            Some(node) => if command_held {
                exists|x: u32|
                    #[trigger] call_ensures(snap, (node.x,), x) && out == Some(
                        CurvePreviewMessage::InsertNode { node: CurveNode { x, y: node.y }, command_held },
                    )
            } else {
                out == Some(CurvePreviewMessage::InsertNode { node, command_held })
            },
        }
    }
}

/// What a pointer move reports: it continues the gesture in progress (the
/// marquee, then paint inside or outside the curve area, then a node drag,
/// then an offset drag, then a segment drag), and otherwise reports a change
/// of what is hovered.
pub open spec fn spec_pointer_move(c: CurveCanvas, p: CanvasPoint) -> Option<CurvePreviewMessage> {
    if c.active_marquee is Some {
        Some(CurvePreviewMessage::DragMarquee { current: p.raw_node })
    } else if c.active_curve_paint {
        if p.in_curve {
            Some(CurvePreviewMessage::DragPaint { sample: p.display_sample })
        } else {
            Some(CurvePreviewMessage::DragPaintOutside { sample: p.boundary_sample })
        }
    } else if c.active_node is Some {
        Some(
            CurvePreviewMessage::DragNode {
                index: c.active_node->0,
                node: p.raw_node,
                push_through_threshold_x: p.push_through_threshold_x,
            },
        )
    } else if c.active_curve_offset_start_x is Some {
        Some(
            CurvePreviewMessage::DragCurveOffset {
                delta: (p.offset_x - c.active_curve_offset_start_x->0) as i64,
            },
        )
    } else if c.active_segment is Some {
        Some(
            CurvePreviewMessage::DragSegment { index: c.active_segment->0, position: p.position },
        )
    } else if p.hover.node != c.hover_node || p.hover.preview_node != c.preview_node || p.hover.segment
        != c.hover_segment {
        Some(
            CurvePreviewMessage::Hover {
                node: p.hover.node,
                preview_node: p.hover.preview_node,
                segment: p.hover.segment,
            },
        )
    } else {
        None
    }
}

/// What a primary release reports: it ends the gesture in progress (the
/// marquee, a node drag with the event's modifiers, an offset drag snapping
/// with Option, a segment drag), if any.
pub open spec fn spec_primary_release(c: CurveCanvas, p: CanvasPoint, m: PointerModifiers) -> Option<CurvePreviewMessage> {
    if c.active_marquee is Some {
        Some(CurvePreviewMessage::ReleaseMarquee { current: p.raw_node })
    } else if c.active_node is Some {
        Some(
            CurvePreviewMessage::ReleaseNode {
                index: c.active_node->0,
                node: p.raw_node,
                push_through_threshold_x: p.push_through_threshold_x,
                shift_held: m.shift,
                option_held: m.alt,
                command_held: m.command,
            },
        )
    } else if c.active_curve_offset_start_x is Some {
        Some(
            CurvePreviewMessage::ReleaseCurveOffset {
                delta: (p.offset_x - c.active_curve_offset_start_x->0) as i64,
                option_held: m.alt,
            },
        )
    } else if c.active_segment is Some {
        Some(
            CurvePreviewMessage::ReleaseSegment { index: c.active_segment->0, position: p.position },
        )
    } else {
        None
    }
}

/// Whether the canvas has anything that losing focus must cancel: a gesture,
/// a hover, or a held modifier.
pub open spec fn spec_has_transient_state(c: CurveCanvas) -> bool {
    c.active_node is Some || c.active_segment is Some || c.active_curve_paint || c.active_curve_offset_start_x is Some
        || c.active_marquee is Some || c.hover_node is Some || c.preview_node is Some || c.hover_segment is Some
        || c.option_hover_held || c.command_hover_held || c.shift_hover_held
}

/// What the canvas reports for `input`.
///
/// A secondary press on the curve area starts painting and its release (or
/// drop) ends the paint inside or outside the area. A primary press acts as
/// `spec_primary_press` says; a primary double-click resets the phase offset
/// on the offset bar and elsewhere deletes the interior node it hits. Delete
/// or Backspace deletes the selection when the canvas has focus and the
/// selection holds an interactive interior node. Pointer moves and primary
/// releases act as `spec_pointer_move` and `spec_primary_release` say. A
/// change of modifiers is reported when it differs from the ones last seen;
/// losing focus cancels whatever is in progress.
pub open spec fn spec_canvas_output<F: Fn(u32) -> u32>(
    c: CurveCanvas,
    input: CanvasInput,
    snap: F,
    out: Option<CurvePreviewMessage>,
) -> bool {
    let n = c.curve.nodes@.len();
    match input {
        CanvasInput::Press { button, point, modifiers } => match button {
            PointerButton::Secondary => out == if point.in_curve {
                Some(CurvePreviewMessage::PressPaint { sample: point.display_sample })
            } else {
                None
            },
            PointerButton::Primary => spec_primary_press(c, point, modifiers, snap, out),
            PointerButton::Other => out is None,
        },
        CanvasInput::DoubleClick { button, point } => out == if button != PointerButton::Primary {
            None
        } else if point.in_offset_bar {
            Some(CurvePreviewMessage::ResetCurveOffset)
        } else {
            match point.hit_node {
                Some(index) => if 0 < index && index + 1 < n {
                    Some(CurvePreviewMessage::DeleteNode { index })
                } else {
                    None
                },
                None => None,
            }
        },
        CanvasInput::DeleteKey => exists|survivors: Seq<usize>|
            {
                &&& spec_survivors(c.curve.nodes@, c.phase_offset, c.active_node, survivors)
                &&& out == if c.focused && exists|j: int|
                    0 <= j < c.selected_nodes@.len() && survivors.contains(#[trigger] c.selected_nodes@[j]) && 0
                        < c.selected_nodes@[j] && c.selected_nodes@[j] + 1 < n {
                    Some(CurvePreviewMessage::DeleteSelectedNodes)
                } else {
                    None
                }
            },
        CanvasInput::Move { point } => out == spec_pointer_move(c, point),
        CanvasInput::ModifiersChanged { modifiers } => out == if modifiers.alt != c.option_hover_held
            || modifiers.command != c.command_hover_held || modifiers.shift != c.shift_hover_held {
            Some(
                CurvePreviewMessage::ModifiersChanged {
                    option_held: modifiers.alt,
                    command_held: modifiers.command,
                    shift_held: modifiers.shift,
                },
            )
        } else {
            None
        },
        CanvasInput::Release { button, point, modifiers } => out == match button {
            PointerButton::Secondary => if !c.active_curve_paint {
                None
            } else if point.in_curve {
                Some(CurvePreviewMessage::ReleasePaint { sample: Some(point.display_sample) })
            } else {
                Some(CurvePreviewMessage::ReleasePaintOutside { sample: point.boundary_sample })
            },
            PointerButton::Primary => spec_primary_release(c, point, modifiers),
            PointerButton::Other => None,
        },
        CanvasInput::FocusChanged { focused } => out == if !focused && spec_has_transient_state(c) {
            Some(CurvePreviewMessage::Cancel)
        } else {
            None
        },
        CanvasInput::Other => out is None,
    }
}

impl CurveCanvas {
    fn primary_press<F: Fn(u32) -> u32>(&self, p: CanvasPoint, m: PointerModifiers, snap: &F) -> (out: Option<
        CurvePreviewMessage,
    >)
        requires
            forall|x: u32| call_requires(*snap, (x,)),
        ensures
            spec_primary_press(*self, p, m, *snap, out),
    {
        let command_held = self.command_hover_held || m.command;
        let option_held = self.option_hover_held || m.alt;
        let shift_held = m.shift;
        let offset_gesture = m.command && m.shift && p.in_curve;
        let out = if p.in_offset_bar || offset_gesture {
            Some(CurvePreviewMessage::PressCurveOffset { pointer_x: p.offset_x as i64, quantized: option_held })
        } else if let Some(index) = p.hit_node {
            Some(CurvePreviewMessage::PressNode { index, pointer: p.raw_node, shift_held, option_held, command_held })
        } else if shift_held && !option_held && p.in_curve {
            Some(CurvePreviewMessage::PressMarquee { start: p.raw_node })
        } else if command_held && p.hover.segment.is_some() {
            Some(CurvePreviewMessage::PressSegmentMove { index: p.hover.segment.unwrap(), position: p.position })
        } else if !command_held && option_held {
            match p.hover.segment {
                Some(index) => Some(CurvePreviewMessage::PressSegment { index, position: p.position }),
                None => None,
            }
        } else {
            let target = match p.hover.preview_node {
                Some(node) => Some(node),
                None => p.insert_node,
            };
            match target {
                None => None,
                Some(node) => {
                    if command_held {
                        let x = snap(node.x);
                        assert(call_ensures(*snap, (node.x,), x));
                        Some(CurvePreviewMessage::InsertNode { node: CurveNode { x, y: node.y }, command_held })
                    } else {
                        Some(CurvePreviewMessage::InsertNode { node, command_held })
                    }
                },
            }
        };
        out
    }

    fn pointer_move(&self, p: CanvasPoint) -> (out: Option<CurvePreviewMessage>)
        requires
            self.wf(),
        ensures
            out == spec_pointer_move(*self, p),
    {
        if self.active_marquee.is_some() {
            Some(CurvePreviewMessage::DragMarquee { current: p.raw_node })
        } else if self.active_curve_paint {
            if p.in_curve {
                Some(CurvePreviewMessage::DragPaint { sample: p.display_sample })
            } else {
                Some(CurvePreviewMessage::DragPaintOutside { sample: p.boundary_sample })
            }
        } else if let Some(index) = self.active_node {
            Some(CurvePreviewMessage::DragNode { index, node: p.raw_node, push_through_threshold_x: p.push_through_threshold_x })
        } else if let Some(start_x) = self.active_curve_offset_start_x {
            Some(CurvePreviewMessage::DragCurveOffset { delta: p.offset_x as i64 - start_x })
        } else if let Some(index) = self.active_segment {
            Some(CurvePreviewMessage::DragSegment { index, position: p.position })
        } else if p.hover.node != self.hover_node || p.hover.preview_node != self.preview_node || p.hover.segment
            != self.hover_segment {
            Some(
                CurvePreviewMessage::Hover {
                    node: p.hover.node,
                    preview_node: p.hover.preview_node,
                    segment: p.hover.segment,
                },
            )
        } else {
            None
        }
    }

    fn primary_release(&self, p: CanvasPoint, m: PointerModifiers) -> (out: Option<CurvePreviewMessage>)
        requires
            self.wf(),
        ensures
            out == spec_primary_release(*self, p, m),
    {
        if self.active_marquee.is_some() {
            Some(CurvePreviewMessage::ReleaseMarquee { current: p.raw_node })
        } else if let Some(index) = self.active_node {
            Some(
                CurvePreviewMessage::ReleaseNode {
                    index,
                    node: p.raw_node,
                    push_through_threshold_x: p.push_through_threshold_x,
                    shift_held: m.shift,
                    option_held: m.alt,
                    command_held: m.command,
                },
            )
        } else if let Some(start_x) = self.active_curve_offset_start_x {
            Some(CurvePreviewMessage::ReleaseCurveOffset { delta: p.offset_x as i64 - start_x, option_held: m.alt })
        } else if let Some(index) = self.active_segment {
            Some(CurvePreviewMessage::ReleaseSegment { index, position: p.position })
        } else {
            None
        }
    }

    /// React to one input (see `spec_canvas_output`); only a focus change
    /// changes the canvas, and only its focus.
    pub fn handle_input<F: Fn(u32) -> u32>(&mut self, input: CanvasInput, snap: &F) -> (out: Option<CurvePreviewMessage>)
        requires
            old(self).wf(),
            forall|x: u32| call_requires(*snap, (x,)),
        ensures
            spec_canvas_output(*old(self), input, *snap, out),
            *final(self) == (CurveCanvas {
                focused: match input {
                    CanvasInput::FocusChanged { focused } => focused,
                    _ => old(self).focused,
                },
                ..*old(self)
            }),
    {
        let n = self.curve.nodes.len();
        match input {
            CanvasInput::Press { button, point, modifiers } => match button {
                PointerButton::Secondary => {
                    if point.in_curve {
                        Some(CurvePreviewMessage::PressPaint { sample: point.display_sample })
                    } else {
                        None
                    }
                },
                PointerButton::Primary => self.primary_press(point, modifiers, snap),
                PointerButton::Other => None,
            },
            CanvasInput::DoubleClick { button, point } => {
                if button != PointerButton::Primary {
                    None
                } else if point.in_offset_bar {
                    Some(CurvePreviewMessage::ResetCurveOffset)
                } else {
                    match point.hit_node {
                        Some(index) => {
                            if 0 < index && index < n - 1 {
                                Some(CurvePreviewMessage::DeleteNode { index })
                            } else {
                                None
                            }
                        },
                        None => None,
                    }
                }
            },
            CanvasInput::DeleteKey => {
                let deletable = has_interactive_deletable_selection(
                    &self.curve,
                    self.phase_offset,
                    self.active_node,
                    self.selected_nodes.as_slice(),
                );
                if self.focused && deletable {
                    Some(CurvePreviewMessage::DeleteSelectedNodes)
                } else {
                    None
                }
            },
            CanvasInput::Move { point } => self.pointer_move(point),
            CanvasInput::ModifiersChanged { modifiers } => {
                if modifiers.alt != self.option_hover_held || modifiers.command != self.command_hover_held
                    || modifiers.shift != self.shift_hover_held {
                    Some(
                        CurvePreviewMessage::ModifiersChanged {
                            option_held: modifiers.alt,
                            command_held: modifiers.command,
                            shift_held: modifiers.shift,
                        },
                    )
                } else {
                    None
                }
            },
            CanvasInput::Release { button, point, modifiers } => match button {
                PointerButton::Secondary => {
                    if !self.active_curve_paint {
                        None
                    } else if point.in_curve {
                        Some(CurvePreviewMessage::ReleasePaint { sample: Some(point.display_sample) })
                    } else {
                        Some(CurvePreviewMessage::ReleasePaintOutside { sample: point.boundary_sample })
                    }
                },
                PointerButton::Primary => self.primary_release(point, modifiers),
                PointerButton::Other => None,
            },
            CanvasInput::FocusChanged { focused } => {
                let cancel = !focused && (self.active_node.is_some() || self.active_segment.is_some()
                    || self.active_curve_paint || self.active_curve_offset_start_x.is_some()
                    || self.active_marquee.is_some() || self.hover_node.is_some() || self.preview_node.is_some()
                    || self.hover_segment.is_some() || self.option_hover_held || self.command_hover_held
                    || self.shift_hover_held);
                self.focused = focused;
                if cancel {
                    Some(CurvePreviewMessage::Cancel)
                } else {
                    None
                }
            },
            CanvasInput::Other => None,
        }
    }
}

} // verus!
