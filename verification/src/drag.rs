use vstd::prelude::*;
use crate::curve::{
    clamp_to, enforce_wrapped_curve_endpoints, feasible_delta_interval_including_zero,
    move_curve_node_with_push_through, nodes_wf, set_wrapped_curve_endpoint_y, slice_contains,
    spec_feasible_delta_interval, spec_move_with_push_through, spec_push_left, spec_push_right,
    spec_with_endpoint_y, CurveNode,
    CurveSegment, EditableCurve, CURVE_NODE_MIN_SPACING_X, MAX_SEGMENT_TENSION, MIN_SEGMENT_TENSION,
    UNIT,
};
use crate::screen::Point;

verus! {

/// Modifier keys held while a curve point is dragged.
#[derive(Clone, Copy, Debug, PartialEq, Eq, Structural)]
pub struct CurvePointDragModifiers {
    pub shift_held: bool,
    pub option_held: bool,
    pub command_held: bool,
}

/// A node drag in progress.
///
/// Shift alone locks the gain (a horizontal drag) and Shift+Option locks the
/// time (a vertical drag). Each lock anchors the coordinate it holds; when the
/// lock is released, the offset between the anchor and the pointer is kept so
/// that the node does not jump back under the pointer.
#[derive(Clone, Debug)]
pub struct ActiveCurveNodeDrag {
    pub origin_index: usize,
    pub origin_curve: EditableCurve,
    /// Marquee selection retained for a grouped node drag. An empty list is the
    /// ordinary single-node gesture.
    pub selected_indices: Vec<usize>,
    pub horizontal_gain_anchor: Option<u32>,
    pub vertical_time_anchor: Option<u32>,
    pub last_pointer_x: u32,
    pub last_pointer_y: u32,
    pub unconstrained_x_offset: i64,
    pub unconstrained_y_offset: i64,
    pub suppress_command_snap_once: bool,
}

/// `v` limited to `0..=UNIT`.
pub open spec fn unit_clamp(v: int) -> int {
    clamp_to(v, 0, UNIT as int)
}

/// The anchors, offsets and one-shot snap suppression after the modifier
/// state `(shift, option)` is applied with the node currently at `current`.
///
/// Entering a lock anchors the current coordinate; leaving the time lock keeps
/// `anchor - last pointer x` as the x offset and suppresses one command snap;
/// leaving the gain lock keeps `anchor - last pointer y` as the y offset.
pub open spec fn spec_set_constraints(
    drag: ActiveCurveNodeDrag,
    shift_held: bool,
    option_held: bool,
    current: CurveNode,
) -> ActiveCurveNodeDrag {
    let vertical_active = shift_held && option_held;
    let horizontal_active = shift_held && !vertical_active;
    let d1 = match (drag.vertical_time_anchor, vertical_active) {
        (None, true) => ActiveCurveNodeDrag {
            vertical_time_anchor: Some(unit_clamp(current.x as int) as u32),
            ..drag
        },
        (Some(anchor), false) => ActiveCurveNodeDrag {
            unconstrained_x_offset: (anchor - drag.last_pointer_x) as i64,
            vertical_time_anchor: None,
            suppress_command_snap_once: true,
            ..drag
        },
        _ => drag,
    };
    match (d1.horizontal_gain_anchor, horizontal_active) {
        (None, true) => ActiveCurveNodeDrag {
            horizontal_gain_anchor: Some(unit_clamp(current.y as int) as u32),
            ..d1
        },
        (Some(anchor), false) => ActiveCurveNodeDrag {
            unconstrained_y_offset: (anchor - d1.last_pointer_y) as i64,
            horizontal_gain_anchor: None,
            ..d1
        },
        _ => d1,
    }
}

/// Anchors lie on the curve area and the kept offsets stay within the range
/// that keeps the arithmetic exact.
pub open spec fn drag_bounds_ok(drag: ActiveCurveNodeDrag) -> bool {
    &&& -(u32::MAX as int) <= drag.unconstrained_x_offset <= u32::MAX
    &&& -(u32::MAX as int) <= drag.unconstrained_y_offset <= u32::MAX
    &&& (drag.vertical_time_anchor matches Some(a) ==> a <= UNIT)
    &&& (drag.horizontal_gain_anchor matches Some(a) ==> a <= UNIT)
}

/// The position the node takes for the pointer at `target`, before any time
/// snap: each locked coordinate is its anchor, each free one the pointer plus
/// the kept offset, limited to `0..=UNIT`.
pub open spec fn spec_unsnapped_target(drag: ActiveCurveNodeDrag, target: CurveNode) -> CurveNode {
    CurveNode {
        x: unit_clamp(
            match drag.vertical_time_anchor {
                Some(a) => a as int,
                None => target.x + drag.unconstrained_x_offset,
            },
        ) as u32,
        y: unit_clamp(
            match drag.horizontal_gain_anchor {
                Some(a) => a as int,
                None => target.y + drag.unconstrained_y_offset,
            },
        ) as u32,
    }
}

/// Whether the time of the node is snapped to the beat grid: Command is held,
/// time is not locked, and no snap suppression was pending.
pub open spec fn spec_snaps(drag: ActiveCurveNodeDrag, command_held: bool) -> bool {
    command_held && drag.vertical_time_anchor is None && !drag.suppress_command_snap_once
}

/// `after` and `effective` are the drag and the node position after the
/// pointer moved to `target` (see `target_for_pointer`): the pointer is
/// recorded, the modifier state applied, pending snap suppression used up, and
/// the position is `spec_unsnapped_target`, with its time replaced by a value
/// `snap` gives for it when Command snaps.
pub open spec fn spec_pointer_target<F: Fn(u32) -> u32>(
    before: ActiveCurveNodeDrag,
    after: ActiveCurveNodeDrag,
    target: CurveNode,
    modifiers: CurvePointDragModifiers,
    current: CurveNode,
    snap: F,
    effective: CurveNode,
) -> bool {
    let recorded = ActiveCurveNodeDrag { last_pointer_x: target.x, last_pointer_y: target.y, ..before };
    let constrained = spec_set_constraints(recorded, modifiers.shift_held, modifiers.option_held, current);
    let unsnapped = spec_unsnapped_target(constrained, target);
    &&& after == ActiveCurveNodeDrag { suppress_command_snap_once: false, ..constrained }
    &&& if spec_snaps(constrained, modifiers.command_held) {
        effective.y == unsnapped.y && call_ensures(snap, (unsnapped.x,), effective.x)
    } else {
        effective == unsnapped
    }
}

/// `d` is the drag that pressing node `index` of the curve `(nodes, segments)`
/// with the pointer at `pointer` starts (see `start_curve_node_drag`), before
/// any selection is attached to it.
pub open spec fn spec_started_drag(
    d: ActiveCurveNodeDrag,
    nodes: Seq<CurveNode>,
    segments: Seq<CurveSegment>,
    index: usize,
    pointer: CurveNode,
    shift_held: bool,
    option_held: bool,
) -> bool {
    let origin = nodes[index as int];
    &&& d.origin_index == index
    &&& d.origin_curve.nodes@ == nodes
    &&& d.origin_curve.segments@ == segments
    &&& d.horizontal_gain_anchor == (if shift_held && !option_held { Some(origin.y) } else { None::<u32> })
    &&& d.vertical_time_anchor == (if shift_held && option_held { Some(origin.x) } else { None::<u32> })
    &&& d.last_pointer_x == unit_clamp(pointer.x as int)
    &&& d.last_pointer_y == unit_clamp(pointer.y as int)
    &&& d.unconstrained_x_offset == 0
    &&& d.unconstrained_y_offset == 0
    &&& !d.suppress_command_snap_once
}

/// `(nodes, segments, moved)` is the curve and dragged node index after the
/// drag moved to `target` (see `curve_with_dragged_node`).
pub open spec fn spec_dragged_curve(
    drag: ActiveCurveNodeDrag,
    target: CurveNode,
    threshold: u32,
    nodes: Seq<CurveNode>,
    segments: Seq<CurveSegment>,
    moved: usize,
) -> bool {
    &&& drag.selected_indices@.len() == 0 ==> (nodes, segments, moved as int) == spec_move_with_push_through(
        drag.origin_curve.nodes@,
        drag.origin_curve.segments@,
        drag.origin_index as int,
        target,
        threshold as int,
    )
    &&& drag.selected_indices@.len() > 0 ==> moved == drag.origin_index && segments == drag.origin_curve.segments@
        && nodes == spec_group_drag(drag.origin_curve.nodes@, drag.selected_indices@, drag.origin_index as int, target)
}

impl ActiveCurveNodeDrag {
    /// Apply the modifier state to the anchors (see `spec_set_constraints`).
    pub fn set_constraints(&mut self, shift_held: bool, option_held: bool, current: CurveNode)
        requires
            drag_bounds_ok(*old(self)),
        ensures
            *final(self) == spec_set_constraints(*old(self), shift_held, option_held, current),
            drag_bounds_ok(*final(self)),
    {
        let vertical_active = shift_held && option_held;
        let horizontal_active = shift_held && !vertical_active;
        match self.vertical_time_anchor {
            None => {
                if vertical_active {
                    let x: u32 = if current.x > UNIT { UNIT } else { current.x };
                    self.vertical_time_anchor = Some(x);
                }
            },
            Some(anchor) => {
                if !vertical_active {
                    self.unconstrained_x_offset = anchor as i64 - self.last_pointer_x as i64;
                    self.vertical_time_anchor = None;
                    self.suppress_command_snap_once = true;
                }
            },
        }
        match self.horizontal_gain_anchor {
            None => {
                if horizontal_active {
                    let y: u32 = if current.y > UNIT { UNIT } else { current.y };
                    self.horizontal_gain_anchor = Some(y);
                }
            },
            Some(anchor) => {
                if !horizontal_active {
                    self.unconstrained_y_offset = anchor as i64 - self.last_pointer_y as i64;
                    self.horizontal_gain_anchor = None;
                }
            },
        }
    }

    /// The node position for the pointer at `target`.
    ///
    /// The pointer is recorded, the modifier state applied, and the position
    /// computed (see `spec_unsnapped_target`); when Command snaps (see
    /// `spec_snaps`) its time is replaced by what `snap` gives for it. A pending
    /// snap suppression is used up by this call.
    pub fn target_for_pointer<F: Fn(u32) -> u32>(
        &mut self,
        target: CurveNode,
        modifiers: CurvePointDragModifiers,
        current: CurveNode,
        snap: &F,
    ) -> (effective: CurveNode)
        requires
            drag_bounds_ok(*old(self)),
            forall|x: u32| call_requires(*snap, (x,)),
        ensures
            spec_pointer_target(*old(self), *final(self), target, modifiers, current, *snap, effective),
            drag_bounds_ok(*final(self)),
    {
        self.last_pointer_x = target.x;
        self.last_pointer_y = target.y;
        self.set_constraints(modifiers.shift_held, modifiers.option_held, current);
        let suppress_command_snap = self.suppress_command_snap_once;
        self.suppress_command_snap_once = false;
        let raw_x: i64 = match self.vertical_time_anchor {
            Some(a) => a as i64,
            None => target.x as i64 + self.unconstrained_x_offset,
        };
        let raw_y: i64 = match self.horizontal_gain_anchor {
            Some(a) => a as i64,
            None => target.y as i64 + self.unconstrained_y_offset,
        };
        let x: i64 = if raw_x < 0 { 0 } else if raw_x > UNIT as i64 { UNIT as i64 } else { raw_x };
        let y: i64 = if raw_y < 0 { 0 } else if raw_y > UNIT as i64 { UNIT as i64 } else { raw_y };
        let mut effective = CurveNode { x: x as u32, y: y as u32 };
        if modifiers.command_held && self.vertical_time_anchor.is_none() && !suppress_command_snap {
            effective.x = snap(effective.x);
        }
        effective
    }
}

/// Begin dragging node `index` of `curve` with the pointer at `pointer`.
///
/// Shift alone anchors the node's gain and Shift+Option its time from the
/// start. Gives `None` when `index` names no node.
pub fn start_curve_node_drag(
    curve: &EditableCurve,
    index: usize,
    pointer: CurveNode,
    shift_held: bool,
    option_held: bool,
) -> (drag: Option<ActiveCurveNodeDrag>)
    requires
        curve.wf(),
    ensures
        index < curve.nodes@.len() <==> drag is Some,
        drag matches Some(d) ==> {
            &&& spec_started_drag(d, curve.nodes@, curve.segments@, index, pointer, shift_held, option_held)
            &&& d.selected_indices@.len() == 0
            &&& drag_bounds_ok(d)
        },
{
    if index >= curve.nodes.len() {
        return None;
    }
    let origin = curve.nodes[index];
    let vertical_active = shift_held && option_held;
    let horizontal_active = shift_held && !vertical_active;
    Some(ActiveCurveNodeDrag {
        origin_index: index,
        origin_curve: curve.snapshot(),
        selected_indices: Vec::new(),
        horizontal_gain_anchor: if horizontal_active { Some(origin.y) } else { None },
        vertical_time_anchor: if vertical_active { Some(origin.x) } else { None },
        last_pointer_x: if pointer.x > UNIT { UNIT } else { pointer.x },
        last_pointer_y: if pointer.y > UNIT { UNIT } else { pointer.y },
        unconstrained_x_offset: 0,
        unconstrained_y_offset: 0,
        suppress_command_snap_once: false,
    })
}

/// Dragging with the pointer at `target`: a single node pushes through its
/// neighbours (see `spec_move_with_push_through`); a retained selection moves
/// as a group (see `spec_group_drag`). Gives the curve and the dragged node's
/// index afterwards.
pub fn curve_with_dragged_node(
    drag: &ActiveCurveNodeDrag,
    target: CurveNode,
    push_through_threshold_x: u32,
) -> (result: (EditableCurve, usize))
    requires
        drag.origin_curve.wf(),
    ensures
        result.0.wf(),
        spec_dragged_curve(*drag, target, push_through_threshold_x, result.0.nodes@, result.0.segments@, result.1),
{
    if drag.selected_indices.len() > 0 {
        return curve_with_dragged_selected_nodes(drag, target);
    }
    let mut curve = drag.origin_curve.snapshot();
    let moved_index = move_curve_node_with_push_through(
        &mut curve,
        drag.origin_index,
        target,
        push_through_threshold_x,
    );
    (curve, moved_index)
}

/// Whether node `i` of a curve with `n` nodes moves in x with the selection:
/// selected and not an endpoint (endpoints are fixed in x).
pub open spec fn movable(selected: Seq<usize>, n: int, i: int) -> bool {
    0 < i < n - 1 && selected.contains(i as usize)
}

pub open spec fn int_max(a: int, b: int) -> int {
    if a >= b { a } else { b }
}

pub open spec fn int_min(a: int, b: int) -> int {
    if a <= b { a } else { b }
}

/// `acc` raised by the limits that the fixed nodes among the first `m`, left
/// of node `i`, set on how far `i` may move left.
pub open spec fn lower_scan(nodes: Seq<CurveNode>, selected: Seq<usize>, i: int, m: int, acc: int) -> int
    decreases m,
{
    if m <= 0 {
        acc
    } else {
        let a = lower_scan(nodes, selected, i, m - 1, acc);
        let j = m - 1;
        if !movable(selected, nodes.len() as int, j) && j < i {
            int_max(a, nodes[j].x + CURVE_NODE_MIN_SPACING_X - nodes[i].x)
        } else {
            a
        }
    }
}

/// `acc` lowered by the limits that the fixed nodes among the first `m`, right
/// of node `i`, set on how far `i` may move right.
pub open spec fn upper_scan(nodes: Seq<CurveNode>, selected: Seq<usize>, i: int, m: int, acc: int) -> int
    decreases m,
{
    if m <= 0 {
        acc
    } else {
        let a = upper_scan(nodes, selected, i, m - 1, acc);
        let j = m - 1;
        if !movable(selected, nodes.len() as int, j) && j > i {
            int_min(a, nodes[j].x - CURVE_NODE_MIN_SPACING_X - nodes[i].x)
        } else {
            a
        }
    }
}

/// The least common x delta that keeps every moving node among the first `k`
/// at least `CURVE_NODE_MIN_SPACING_X` right of x = 0 and of every fixed node
/// on its left (starting from -`UNIT`).
pub open spec fn spec_min_delta(nodes: Seq<CurveNode>, selected: Seq<usize>, k: int) -> int
    decreases k,
{
    if k <= 0 {
        -(UNIT as int)
    } else {
        let a = spec_min_delta(nodes, selected, k - 1);
        let i = k - 1;
        if movable(selected, nodes.len() as int, i) {
            lower_scan(nodes, selected, i, nodes.len() as int, int_max(a, CURVE_NODE_MIN_SPACING_X - nodes[i].x))
        } else {
            a
        }
    }
}

/// The greatest common x delta that keeps every moving node among the first
/// `k` at least `CURVE_NODE_MIN_SPACING_X` left of x = `UNIT` and of every
/// fixed node on its right (starting from `UNIT`).
pub open spec fn spec_max_delta(nodes: Seq<CurveNode>, selected: Seq<usize>, k: int) -> int
    decreases k,
{
    if k <= 0 {
        UNIT as int
    } else {
        let a = spec_max_delta(nodes, selected, k - 1);
        let i = k - 1;
        if movable(selected, nodes.len() as int, i) {
            upper_scan(nodes, selected, i, nodes.len() as int, int_min(a, UNIT - nodes[i].x - CURVE_NODE_MIN_SPACING_X))
        } else {
            a
        }
    }
}

/// Node `i` after a group move by `(dx, dy)`: a selected node takes the gain
/// delta (limited to `0..=UNIT`) and, unless it is an endpoint, the x delta;
/// other nodes stay.
pub open spec fn spec_group_node(nodes: Seq<CurveNode>, selected: Seq<usize>, i: int, dx: int, dy: int) -> CurveNode {
    let n = nodes.len() as int;
    if selected.contains(i as usize) {
        CurveNode {
            x: if i == 0 {
                0
            } else if i == n - 1 {
                UNIT
            } else {
                unit_clamp(nodes[i].x + dx) as u32
            },
            y: unit_clamp(nodes[i].y + dy) as u32,
        }
    } else {
        nodes[i]
    }
}

/// The nodes after dragging a retained selection so that node `anchor_index`
/// follows `target`.
///
/// Every selected node moves by the same delta: the gain delta of the anchor,
/// and its x delta clamped to the interval between `spec_min_delta` and
/// `spec_max_delta` (widened to contain 0), so that the group never pushes
/// through or crosses a fixed node. The endpoints then wrap: to the moved gain
/// of the first endpoint if it is selected, else of the last if that one is,
/// else to the gain of the first. Nothing moves when `anchor_index` names no
/// node or no selected index names one.
pub open spec fn spec_group_drag(
    nodes: Seq<CurveNode>,
    selected: Seq<usize>,
    anchor_index: int,
    target: CurveNode,
) -> Seq<CurveNode> {
    let n = nodes.len() as int;
    if anchor_index < 0 || anchor_index >= n || !(exists|k: int| 0 <= k < selected.len() && selected[k] < n) {
        nodes
    } else {
        let anchor = nodes[anchor_index];
        let (lo, hi) = spec_feasible_delta_interval(spec_min_delta(nodes, selected, n), spec_max_delta(nodes, selected, n));
        let dx = clamp_to(target.x - anchor.x, lo, hi);
        let dy = target.y - anchor.y;
        let moved = Seq::new(n as nat, |i: int| spec_group_node(nodes, selected, i, dx, dy));
        if !selected.contains(0usize) && selected.contains((n - 1) as usize) {
            spec_with_endpoint_y(moved, moved[n - 1].y)
        } else {
            spec_with_endpoint_y(moved, moved[0].y)
        }
    }
}

/// How far left node `i` may move before it comes within the minimum spacing
/// of node `j`.
pub open spec fn lower_term(nodes: Seq<CurveNode>, i: int, j: int) -> int {
    nodes[j].x + CURVE_NODE_MIN_SPACING_X - nodes[i].x
}

/// How far right node `i` may move before it comes within the minimum spacing
/// of node `j`.
pub open spec fn upper_term(nodes: Seq<CurveNode>, i: int, j: int) -> int {
    nodes[j].x - CURVE_NODE_MIN_SPACING_X - nodes[i].x
}

proof fn lemma_lower_scan(nodes: Seq<CurveNode>, selected: Seq<usize>, i: int, m: int, acc: int)
    requires
        m <= nodes.len(),
    ensures
        lower_scan(nodes, selected, i, m, acc) >= acc,
        forall|j: int|
            0 <= j < m && j < i && !movable(selected, nodes.len() as int, j) ==> #[trigger] lower_term(nodes, i, j)
                <= lower_scan(nodes, selected, i, m, acc),
    decreases m,
{
    if m > 0 {
        lemma_lower_scan(nodes, selected, i, m - 1, acc);
    }
}

proof fn lemma_upper_scan(nodes: Seq<CurveNode>, selected: Seq<usize>, i: int, m: int, acc: int)
    requires
        m <= nodes.len(),
    ensures
        upper_scan(nodes, selected, i, m, acc) <= acc,
        forall|j: int|
            0 <= j < m && j > i && !movable(selected, nodes.len() as int, j) ==> #[trigger] upper_term(nodes, i, j)
                >= upper_scan(nodes, selected, i, m, acc),
    decreases m,
{
    if m > 0 {
        lemma_upper_scan(nodes, selected, i, m - 1, acc);
    }
}

/// The delta limits hold every moving node clear of the fixed ones and of the
/// ends of the cycle.
proof fn lemma_delta_limits(nodes: Seq<CurveNode>, selected: Seq<usize>, k: int)
    requires
        0 <= k <= nodes.len(),
    ensures
        forall|i: int|
            0 <= i < k && movable(selected, nodes.len() as int, i) ==> CURVE_NODE_MIN_SPACING_X - #[trigger] nodes[i].x
                <= spec_min_delta(nodes, selected, k)
                && spec_max_delta(nodes, selected, k) <= UNIT - nodes[i].x - CURVE_NODE_MIN_SPACING_X,
        forall|i: int, j: int|
            0 <= i < k && 0 <= j < i && movable(selected, nodes.len() as int, i) && !movable(
                selected,
                nodes.len() as int,
                j,
            ) ==> #[trigger] lower_term(nodes, i, j) <= spec_min_delta(nodes, selected, k),
        forall|i: int, j: int|
            0 <= i < k && i < j < nodes.len() && movable(selected, nodes.len() as int, i) && !movable(
                selected,
                nodes.len() as int,
                j,
            ) ==> #[trigger] upper_term(nodes, i, j) >= spec_max_delta(nodes, selected, k),
    decreases k,
{
    if k > 0 {
        lemma_delta_limits(nodes, selected, k - 1);
        let n = nodes.len() as int;
        let i = k - 1;
        if movable(selected, n, i) {
            let a = spec_min_delta(nodes, selected, k - 1);
            let b = spec_max_delta(nodes, selected, k - 1);
            lemma_lower_scan(nodes, selected, i, n, int_max(a, CURVE_NODE_MIN_SPACING_X - nodes[i].x));
            lemma_upper_scan(nodes, selected, i, n, int_min(b, UNIT - nodes[i].x - CURVE_NODE_MIN_SPACING_X));
        }
    }
}

/// A group move within the delta limits keeps the nodes in normalized order.
proof fn lemma_group_move_keeps_order(
    nodes: Seq<CurveNode>,
    selected: Seq<usize>,
    dx: int,
    dy: int,
)
    requires
        nodes_wf(nodes),
        dx < 0 ==> spec_min_delta(nodes, selected, nodes.len() as int) <= dx,
        dx > 0 ==> dx <= spec_max_delta(nodes, selected, nodes.len() as int),
    ensures
        nodes_wf(Seq::new(nodes.len(), |i: int| spec_group_node(nodes, selected, i, dx, dy))),
{
    let n = nodes.len() as int;
    let moved = Seq::new(nodes.len(), |i: int| spec_group_node(nodes, selected, i, dx, dy));
    lemma_delta_limits(nodes, selected, n);
    let min_d = spec_min_delta(nodes, selected, n);
    let max_d = spec_max_delta(nodes, selected, n);
    assert forall|i: int| 0 <= i < n implies #[trigger] moved[i].y <= UNIT by {
        assert(nodes[i].y <= UNIT);
    }
    assert forall|i: int| 0 <= i < n && movable(selected, n, i) implies #[trigger] moved[i].x == nodes[i].x + dx && 0
        < moved[i].x < UNIT by {
        assert(CURVE_NODE_MIN_SPACING_X - nodes[i].x <= min_d);
        assert(max_d <= UNIT - nodes[i].x - CURVE_NODE_MIN_SPACING_X);
    }
    assert forall|i: int| 0 <= i < n && !movable(selected, n, i) implies #[trigger] moved[i].x == nodes[i].x by {
        if i == 0 {
            assert(nodes[0].x == 0);
        } else if i == n - 1 {
            assert(nodes[n - 1].x == UNIT);
        }
    }
    assert forall|a: int, b: int| 0 <= a < b < n implies #[trigger] moved[a].x < #[trigger] moved[b].x by {
        assert(nodes[a].x < nodes[b].x);
        let ma = movable(selected, n, a);
        let mb = movable(selected, n, b);
        if ma && !mb {
            assert(upper_term(nodes, a, b) >= max_d);
        } else if !ma && mb {
            assert(lower_term(nodes, b, a) <= min_d);
        }
    }
    assert(moved[0].x == 0) by {
        assert(!movable(selected, n, 0));
    }
    assert(moved[n - 1].x == UNIT) by {
        assert(!movable(selected, n, n - 1));
    }
}

/// Every two nodes lie at least `CURVE_NODE_MIN_SPACING_X` apart in x.
pub open spec fn nodes_spaced(nodes: Seq<CurveNode>) -> bool {
    forall|a: int, b: int| 0 <= a < b < nodes.len() ==> #[trigger] nodes[b].x - #[trigger] nodes[a].x >= CURVE_NODE_MIN_SPACING_X
}

/// Every selected interior node of `result` is the one of `nodes` moved by
/// `dx` in x.
pub open spec fn selection_shifted_by(nodes: Seq<CurveNode>, result: Seq<CurveNode>, selected: Seq<usize>, dx: int) -> bool {
    forall|i: int| 0 < i < nodes.len() - 1 && selected.contains(i as usize) ==> #[trigger] result[i].x == nodes[i].x + dx
}

/// A group move within the delta limits moves every movable node by `dx`,
/// keeps the others in place, and keeps the minimum spacing.
proof fn lemma_group_move_keeps_spacing(nodes: Seq<CurveNode>, selected: Seq<usize>, dx: int, dy: int)
    requires
        nodes_wf(nodes),
        nodes_spaced(nodes),
        dx < 0 ==> spec_min_delta(nodes, selected, nodes.len() as int) <= dx,
        dx > 0 ==> dx <= spec_max_delta(nodes, selected, nodes.len() as int),
    ensures
        ({
            let moved = Seq::new(nodes.len(), |i: int| spec_group_node(nodes, selected, i, dx, dy));
            &&& nodes_spaced(moved)
            &&& forall|i: int| 0 <= i < nodes.len() && movable(selected, nodes.len() as int, i) ==> #[trigger] moved[i].x == nodes[i].x + dx
            &&& forall|i: int| 0 <= i < nodes.len() && !movable(selected, nodes.len() as int, i) ==> #[trigger] moved[i].x == nodes[i].x
        }),
{
    let n = nodes.len() as int;
    let moved = Seq::new(nodes.len(), |i: int| spec_group_node(nodes, selected, i, dx, dy));
    lemma_delta_limits(nodes, selected, n);
    let min_d = spec_min_delta(nodes, selected, n);
    let max_d = spec_max_delta(nodes, selected, n);
    assert forall|i: int| 0 <= i < n && movable(selected, n, i) implies #[trigger] moved[i].x == nodes[i].x + dx by {
        assert(CURVE_NODE_MIN_SPACING_X - nodes[i].x <= min_d);
        assert(max_d <= UNIT - nodes[i].x - CURVE_NODE_MIN_SPACING_X);
        if dx < 0 {
            assert(nodes[i].x + dx >= CURVE_NODE_MIN_SPACING_X);
        } else if dx > 0 {
            assert(nodes[i].x + dx <= UNIT - CURVE_NODE_MIN_SPACING_X);
        }
    }
    assert forall|i: int| 0 <= i < n && !movable(selected, n, i) implies #[trigger] moved[i].x == nodes[i].x by {
        if i == 0 {
            assert(nodes[0].x == 0);
        } else if i == n - 1 {
            assert(nodes[n - 1].x == UNIT);
        }
    }
    assert forall|a: int, b: int| 0 <= a < b < n implies #[trigger] moved[b].x - #[trigger] moved[a].x
        >= CURVE_NODE_MIN_SPACING_X by {
        assert(nodes[b].x - nodes[a].x >= CURVE_NODE_MIN_SPACING_X);
        let ma = movable(selected, n, a);
        let mb = movable(selected, n, b);
        if ma && !mb {
            assert(upper_term(nodes, a, b) >= max_d);
        } else if !ma && mb {
            assert(lower_term(nodes, b, a) <= min_d);
        }
    }
}

/// Dragging a selection of a curve whose nodes keep the minimum spacing
/// keeps every node: the endpoints stay at both ends of the cycle, the nodes
/// stay at least the minimum spacing apart, every interior node outside the
/// selection stays where it was, and every selected interior node moves in x
/// by one common delta.
pub proof fn law_group_drag_keeps_spacing_and_shifts_together(
    nodes: Seq<CurveNode>,
    selected: Seq<usize>,
    anchor_index: int,
    target: CurveNode,
)
    requires
        nodes_wf(nodes),
        nodes_spaced(nodes),
    ensures
        ({
            let result = spec_group_drag(nodes, selected, anchor_index, target);
            &&& result.len() == nodes.len()
            &&& result[0].x == 0
            &&& result[nodes.len() - 1].x == UNIT
            &&& nodes_spaced(result)
            &&& forall|i: int| 0 < i < nodes.len() - 1 && !selected.contains(i as usize) ==> #[trigger] result[i] == nodes[i]
            &&& exists|dx: int| #[trigger] selection_shifted_by(nodes, result, selected, dx)
        }),
{
    let n = nodes.len() as int;
    let result = spec_group_drag(nodes, selected, anchor_index, target);
    if anchor_index < 0 || anchor_index >= n || !(exists|k: int| 0 <= k < selected.len() && selected[k] < n) {
        assert(selection_shifted_by(nodes, result, selected, 0));
    } else {
        let anchor = nodes[anchor_index];
        let (lo, hi) = spec_feasible_delta_interval(spec_min_delta(nodes, selected, n), spec_max_delta(nodes, selected, n));
        let dx = clamp_to(target.x - anchor.x, lo, hi);
        let dy = target.y - anchor.y;
        lemma_group_move_keeps_spacing(nodes, selected, dx, dy);
        let moved = Seq::new(n as nat, |i: int| spec_group_node(nodes, selected, i, dx, dy));
        assert forall|i: int| 0 < i < n - 1 && selected.contains(i as usize) implies #[trigger] result[i].x == nodes[i].x + dx by {
            assert(movable(selected, n, i));
            assert(result[i] == moved[i]);
        }
        assert forall|i: int| 0 < i < n - 1 && !selected.contains(i as usize) implies #[trigger] result[i] == nodes[i] by {
            assert(result[i] == moved[i]);
        }
        assert forall|a: int, b: int| 0 <= a < b < n implies #[trigger] result[b].x - #[trigger] result[a].x
            >= CURVE_NODE_MIN_SPACING_X by {
            assert(result[a].x == moved[a].x);
            assert(result[b].x == moved[b].x);
        }
        assert(!movable(selected, n, 0) && !movable(selected, n, n - 1));
        assert(selection_shifted_by(nodes, result, selected, dx));
    }
}

/// Drag the retained selection so that node `drag.origin_index` follows
/// `target` (see `spec_group_drag`).
fn curve_with_dragged_selected_nodes(drag: &ActiveCurveNodeDrag, target: CurveNode) -> (result: (
    EditableCurve,
    usize,
))
    requires
        drag.origin_curve.wf(),
    ensures
        result.0.wf(),
        result.1 == drag.origin_index,
        result.0.segments@ == drag.origin_curve.segments@,
        result.0.nodes@ == spec_group_drag(
            drag.origin_curve.nodes@,
            drag.selected_indices@,
            drag.origin_index as int,
            target,
        ),
{
    let origin = &drag.origin_curve;
    let n = origin.nodes.len();
    let ghost nodes = origin.nodes@;
    let ghost selv = drag.selected_indices@;
    if drag.origin_index >= n {
        return (origin.snapshot(), drag.origin_index);
    }
    let sel = drag.selected_indices.as_slice();
    let mut any = false;
    let mut k: usize = 0;
    while k < sel.len()
        invariant
            k <= sel@.len(),
            sel@ == selv,
            n == nodes.len(),
            any == exists|q: int| 0 <= q < k && selv[q] < n,
        decreases sel@.len() - k,
    {
        if sel[k] < n {
            any = true;
        }
        k = k + 1;
    }
    if !any {
        return (origin.snapshot(), drag.origin_index);
    }
    let anchor = origin.nodes[drag.origin_index];
    let mut min_d: i64 = -(UNIT as i64);
    let mut max_d: i64 = UNIT as i64;
    let mut i: usize = 0;
    while i < n
        invariant
            i <= n,
            n == nodes.len(),
            nodes == origin.nodes@,
            nodes_wf(nodes),
            sel@ == selv,
            min_d == spec_min_delta(nodes, selv, i as int),
            max_d == spec_max_delta(nodes, selv, i as int),
            -2 * (UNIT as int) <= min_d <= 2 * (UNIT as int),
            -2 * (UNIT as int) <= max_d <= 2 * (UNIT as int),
        decreases n - i,
    {
        if i > 0 && i < n - 1 && slice_contains(sel, i) {
            assert(movable(selv, n as int, i as int));
            let xi: i64 = origin.nodes[i].x as i64;
            assert(xi <= UNIT);
            let lo0: i64 = CURVE_NODE_MIN_SPACING_X as i64 - xi;
            let hi0: i64 = UNIT as i64 - xi - CURVE_NODE_MIN_SPACING_X as i64;
            let mut lo_acc: i64 = if min_d >= lo0 { min_d } else { lo0 };
            let mut hi_acc: i64 = if max_d <= hi0 { max_d } else { hi0 };
            let ghost lo_start = lo_acc as int;
            let ghost hi_start = hi_acc as int;
            let mut j: usize = 0;
            while j < n
                invariant
                    j <= n,
                    0 < i < n - 1,
                    n == nodes.len(),
                    nodes == origin.nodes@,
                    nodes_wf(nodes),
                    sel@ == selv,
                    xi == nodes[i as int].x,
                    lo_acc == lower_scan(nodes, selv, i as int, j as int, lo_start),
                    hi_acc == upper_scan(nodes, selv, i as int, j as int, hi_start),
                    -2 * (UNIT as int) <= lo_acc <= 2 * (UNIT as int),
                    -2 * (UNIT as int) <= hi_acc <= 2 * (UNIT as int),
                decreases n - j,
            {
                let j_moves = j > 0 && j < n - 1 && slice_contains(sel, j);
                assert(j_moves == movable(selv, n as int, j as int));
                let xj: i64 = origin.nodes[j].x as i64;
                assert(xj <= UNIT);
                if !j_moves && j < i {
                    let term: i64 = xj + CURVE_NODE_MIN_SPACING_X as i64 - xi;
                    if term > lo_acc {
                        lo_acc = term;
                    }
                } else if !j_moves && j > i {
                    let term: i64 = xj - CURVE_NODE_MIN_SPACING_X as i64 - xi;
                    if term < hi_acc {
                        hi_acc = term;
                    }
                }
                j = j + 1;
            }
            min_d = lo_acc;
            max_d = hi_acc;
        } else {
            assert(!movable(selv, n as int, i as int));
        }
        i = i + 1;
    }
    let (lo, hi) = feasible_delta_interval_including_zero(min_d, max_d);
    let raw_dx: i64 = target.x as i64 - anchor.x as i64;
    let dx: i64 = if raw_dx < lo { lo } else if raw_dx > hi { hi } else { raw_dx };
    let dy: i64 = target.y as i64 - anchor.y as i64;
    proof {
        lemma_group_move_keeps_order(nodes, selv, dx as int, dy as int);
    }
    let ghost moved = Seq::new(n as nat, |q: int| spec_group_node(nodes, selv, q, dx as int, dy as int));
    let mut new_nodes: Vec<CurveNode> = Vec::new();
    let mut q: usize = 0;
    while q < n
        invariant
            q <= n,
            n == nodes.len(),
            nodes == origin.nodes@,
            sel@ == selv,
            -2 * (UNIT as int) <= dx <= 2 * (UNIT as int),
            -(UNIT as int) <= dy <= u32::MAX,
            moved == Seq::new(n as nat, |q: int| spec_group_node(nodes, selv, q, dx as int, dy as int)),
            new_nodes@ == moved.subrange(0, q as int),
        decreases n - q,
    {
        let node = origin.nodes[q];
        let next = if slice_contains(sel, q) {
            let x: u32 = if q == 0 {
                0
            } else if q == n - 1 {
                UNIT
            } else {
                let v: i64 = node.x as i64 + dx;
                if v < 0 { 0 } else if v > UNIT as i64 { UNIT } else { v as u32 }
            };
            let w: i64 = node.y as i64 + dy;
            let y: u32 = if w < 0 { 0 } else if w > UNIT as i64 { UNIT } else { w as u32 };
            CurveNode { x, y }
        } else {
            node
        };
        assert(next == moved[q as int]);
        new_nodes.push(next);
        q = q + 1;
    }
    assert(new_nodes@ == moved);
    let mut curve = EditableCurve { nodes: new_nodes, segments: origin.snapshot().segments };
    assert(curve.wf());
    let first_sel = slice_contains(sel, 0);
    let last_sel = slice_contains(sel, n - 1);
    if !first_sel && last_sel {
        let y = curve.nodes[n - 1].y;
        set_wrapped_curve_endpoint_y(&mut curve, y);
    } else {
        enforce_wrapped_curve_endpoints(&mut curve);
    }
    (curve, drag.origin_index)
}

} // verus!

verus! {

/// Vertical pixels of pointer travel per unit of segment tension.
pub const CURVE_SEGMENT_TENSION_PIXEL_SCALE: i64 = 120;

/// A segment drag in progress from `start_pointer`: a bend, where the
/// tension of segment `index` follows the pointer's vertical travel, or with
/// `move_pair` a move of the segment's two nodes with the pointer.
#[derive(Clone, Debug)]
pub struct ActiveCurveSegmentDrag {
    pub index: usize,
    pub origin_curve: EditableCurve,
    pub start_pointer: Point,
    pub start_tension: i32,
    pub move_pair: bool,
}

/// Which way a positive upward drag moves the tension of segment `i`: -1 for a
/// rising segment, so that dragging up always lifts its middle, else 1.
pub open spec fn spec_upward_tension_sign(nodes: Seq<CurveNode>, i: int) -> int {
    if 0 <= i && i + 1 < nodes.len() && nodes[i + 1].y > nodes[i].y {
        -1
    } else {
        1
    }
}

pub fn segment_upward_tension_sign(curve: &EditableCurve, segment_index: usize) -> (sign: i32)
    ensures
        sign == spec_upward_tension_sign(curve.nodes@, segment_index as int),
{
    if segment_index < curve.nodes.len() && curve.nodes.len() - segment_index > 1
        && curve.nodes[segment_index + 1].y > curve.nodes[segment_index].y {
        -1
    } else {
        1
    }
}

/// The tension change for `drag_px` pixels of upward travel on segment `i`:
/// `UNIT` per `CURVE_SEGMENT_TENSION_PIXEL_SCALE` pixels, rounded towards
/// zero, in the direction of `spec_upward_tension_sign`.
pub open spec fn spec_tension_delta(nodes: Seq<CurveNode>, i: int, drag_px: int) -> int {
    let magnitude = if drag_px >= 0 {
        drag_px * (UNIT as int) / (CURVE_SEGMENT_TENSION_PIXEL_SCALE as int)
    } else {
        -((-drag_px) * (UNIT as int) / (CURVE_SEGMENT_TENSION_PIXEL_SCALE as int))
    };
    magnitude * spec_upward_tension_sign(nodes, i)
}

/// `d` is the drag (a move of the pair with `move_pair`, else a bend) that
/// pressing segment `index` of the curve `(nodes, segments)` at
/// `start_pointer` starts.
pub open spec fn spec_started_segment_drag(
    d: ActiveCurveSegmentDrag,
    nodes: Seq<CurveNode>,
    segments: Seq<CurveSegment>,
    index: usize,
    start_pointer: Point,
    move_pair: bool,
) -> bool {
    &&& d.index == index
    &&& d.move_pair == move_pair
    &&& d.origin_curve.nodes@ == nodes
    &&& d.origin_curve.segments@ == segments
    &&& d.start_pointer == start_pointer
    &&& d.start_tension == segments[index as int].tension
}

/// The segments with the bent one's tension moved by the pointer's upward
/// travel from the start (see `spec_tension_delta`), limited to the tension
/// range.
pub open spec fn spec_bent_segments(drag: ActiveCurveSegmentDrag, current_pointer: Point) -> Seq<CurveSegment> {
    drag.origin_curve.segments@.update(
        drag.index as int,
        CurveSegment {
            tension: clamp_to(
                drag.start_tension + spec_tension_delta(
                    drag.origin_curve.nodes@,
                    drag.index as int,
                    drag.start_pointer.y - current_pointer.y,
                ),
                MIN_SEGMENT_TENSION as int,
                MAX_SEGMENT_TENSION as int,
            ) as i32,
        },
    )
}

/// Begin bending segment `index` of `curve` with the pointer at
/// `start_pointer`; `None` when there is no such segment.
pub fn start_curve_segment_tension_drag(curve: &EditableCurve, index: usize, start_pointer: Point) -> (drag:
    Option<ActiveCurveSegmentDrag>)
    requires
        curve.wf(),
    ensures
        drag is Some <==> index + 1 < curve.nodes@.len(),
        drag matches Some(d) ==> spec_started_segment_drag(
            d,
            curve.nodes@,
            curve.segments@,
            index,
            start_pointer,
            false,
        ),
{
    start_curve_segment_drag(curve, index, start_pointer, false)
}

/// Begin moving the two nodes of segment `index` of `curve` with the pointer
/// at `start_pointer`; `None` when there is no such segment.
pub fn start_curve_segment_move_drag(curve: &EditableCurve, index: usize, start_pointer: Point) -> (drag: Option<
    ActiveCurveSegmentDrag,
>)
    requires
        curve.wf(),
    ensures
        drag is Some <==> index + 1 < curve.nodes@.len(),
        drag matches Some(d) ==> spec_started_segment_drag(
            d,
            curve.nodes@,
            curve.segments@,
            index,
            start_pointer,
            true,
        ),
{
    start_curve_segment_drag(curve, index, start_pointer, true)
}

fn start_curve_segment_drag(curve: &EditableCurve, index: usize, start_pointer: Point, move_pair: bool) -> (drag:
    Option<ActiveCurveSegmentDrag>)
    requires
        curve.wf(),
    ensures
        drag is Some <==> index + 1 < curve.nodes@.len(),
        drag matches Some(d) ==> spec_started_segment_drag(
            d,
            curve.nodes@,
            curve.segments@,
            index,
            start_pointer,
            move_pair,
        ),
{
    if index >= curve.segments.len() {
        return None;
    }
    Some(
        ActiveCurveSegmentDrag {
            index,
            origin_curve: curve.snapshot(),
            start_pointer,
            start_tension: curve.segments[index].tension,
            move_pair,
        },
    )
}

/// The curve with the dragged segment's tension moved by the pointer's upward
/// travel from the start (see `spec_tension_delta`), limited to the tension
/// range; every node and every other segment stays as it was.
pub fn curve_with_dragged_segment(drag: &ActiveCurveSegmentDrag, current_pointer: Point) -> (curve: EditableCurve)
    requires
        drag.origin_curve.wf(),
        drag.index < drag.origin_curve.segments@.len(),
        MIN_SEGMENT_TENSION <= drag.start_tension <= MAX_SEGMENT_TENSION,
    ensures
        curve.wf(),
        curve.nodes@ == drag.origin_curve.nodes@,
        curve.segments@ == spec_bent_segments(*drag, current_pointer),
{
    let drag_px: i64 = drag.start_pointer.y as i64 - current_pointer.y as i64;
    proof {
        let a: int = if drag_px >= 0 { drag_px as int } else { -drag_px };
        assert(0 <= a <= 0x1_0000_0000);
        assert(0 <= a * 1000000 <= 0x1_0000_0000 * 1000000) by (nonlinear_arith)
            requires
                0 <= a <= 0x1_0000_0000,
        ;
        assert(0 <= a * 1000000 / 120 <= a * 1000000);
    }
    let magnitude: i64 = if drag_px >= 0 {
        drag_px * (UNIT as i64) / CURVE_SEGMENT_TENSION_PIXEL_SCALE
    } else {
        -((-drag_px) * (UNIT as i64) / CURVE_SEGMENT_TENSION_PIXEL_SCALE)
    };
    assert(-0x1_0000_0000 * 1000000 <= magnitude <= 0x1_0000_0000 * 1000000);
    let sign = segment_upward_tension_sign(&drag.origin_curve, drag.index);
    let delta: i64 = if sign < 0 { -magnitude } else { magnitude };
    let raw: i64 = drag.start_tension as i64 + delta;
    let tension: i32 = if raw < MIN_SEGMENT_TENSION as i64 {
        MIN_SEGMENT_TENSION
    } else if raw > MAX_SEGMENT_TENSION as i64 {
        MAX_SEGMENT_TENSION
    } else {
        raw as i32
    };
    let mut curve = drag.origin_curve.snapshot();
    curve.segments.set(drag.index, CurveSegment { tension });
    curve
}

} // verus!

verus! {

/// While Shift alone is held the dragged node keeps one gain, wherever the
/// pointer goes: the gain it had when the lock engaged.
pub proof fn law_gain_lock_holds_gain(
    drag: ActiveCurveNodeDrag,
    target: CurveNode,
    modifiers: CurvePointDragModifiers,
    current: CurveNode,
)
    requires
        drag_bounds_ok(drag),
        modifiers.shift_held,
        !modifiers.option_held,
    ensures
        ({
            let recorded = ActiveCurveNodeDrag { last_pointer_x: target.x, last_pointer_y: target.y, ..drag };
            let constrained = spec_set_constraints(recorded, modifiers.shift_held, modifiers.option_held, current);
            spec_unsnapped_target(constrained, target).y == match drag.horizontal_gain_anchor {
                Some(a) => a as int,
                None => unit_clamp(current.y as int),
            }
        }),
{
}

/// Releasing the gain lock with the pointer where it last was does not move
/// the node's gain: it stays at the anchored gain, and later motion moves it
/// from there.
pub proof fn law_releasing_gain_lock_does_not_jump(
    drag: ActiveCurveNodeDrag,
    target: CurveNode,
    modifiers: CurvePointDragModifiers,
    current: CurveNode,
)
    requires
        drag_bounds_ok(drag),
        drag.horizontal_gain_anchor is Some,
        target.y == drag.last_pointer_y,
        !modifiers.shift_held,
    ensures
        ({
            let recorded = ActiveCurveNodeDrag { last_pointer_x: target.x, last_pointer_y: target.y, ..drag };
            let constrained = spec_set_constraints(recorded, modifiers.shift_held, modifiers.option_held, current);
            spec_unsnapped_target(constrained, target).y == drag.horizontal_gain_anchor->0
        }),
{
}

/// Releasing the time lock with the pointer where it last was does not move
/// the node's time, and the time is not snapped on that step.
pub proof fn law_releasing_time_lock_does_not_jump(
    drag: ActiveCurveNodeDrag,
    target: CurveNode,
    modifiers: CurvePointDragModifiers,
    current: CurveNode,
)
    requires
        drag_bounds_ok(drag),
        drag.vertical_time_anchor is Some,
        target.x == drag.last_pointer_x,
        !(modifiers.shift_held && modifiers.option_held),
    ensures
        ({
            let recorded = ActiveCurveNodeDrag { last_pointer_x: target.x, last_pointer_y: target.y, ..drag };
            let constrained = spec_set_constraints(recorded, modifiers.shift_held, modifiers.option_held, current);
            &&& spec_unsnapped_target(constrained, target).x == drag.vertical_time_anchor->0
            &&& !spec_snaps(constrained, modifiers.command_held)
        }),
{
}

/// Dragging a selection straight up or down (the anchor's time unchanged)
/// never moves any node in time.
pub proof fn law_vertical_group_drag_keeps_times(
    nodes: Seq<CurveNode>,
    selected: Seq<usize>,
    anchor_index: int,
    target: CurveNode,
)
    requires
        nodes_wf(nodes),
        0 <= anchor_index < nodes.len(),
        target.x == nodes[anchor_index].x,
    ensures
        spec_group_drag(nodes, selected, anchor_index, target).len() == nodes.len(),
        forall|i: int|
            0 <= i < nodes.len() ==> (#[trigger] spec_group_drag(nodes, selected, anchor_index, target)[i]).x
                == nodes[i].x,
{
    let n = nodes.len() as int;
    let result = spec_group_drag(nodes, selected, anchor_index, target);
    if exists|k: int| 0 <= k < selected.len() && selected[k] < n {
        let (lo, hi) = spec_feasible_delta_interval(
            spec_min_delta(nodes, selected, n),
            spec_max_delta(nodes, selected, n),
        );
        assert(lo <= 0 <= hi);
        let dy = target.y - nodes[anchor_index].y;
        let moved = Seq::new(n as nat, |i: int| spec_group_node(nodes, selected, i, 0, dy));
        assert forall|i: int| 0 <= i < n implies (#[trigger] moved[i]).x == nodes[i].x by {
            assert(nodes[i].x <= UNIT);
            assert(nodes[0].x == 0);
            assert(nodes[n - 1].x == UNIT);
        }
        assert forall|i: int| 0 <= i < n implies (#[trigger] result[i]).x == nodes[i].x by {
            assert(moved[i].x == nodes[i].x);
        }
    }
}

/// Dragging an interior node straight up or down (its time unchanged) keeps
/// every node, each at its time, and the node keeps its index.
pub proof fn law_vertical_node_drag_keeps_time(
    nodes: Seq<CurveNode>,
    segments: Seq<CurveSegment>,
    index: int,
    target: CurveNode,
    threshold: nat,
)
    requires
        nodes_wf(nodes),
        0 < index < nodes.len() - 1,
        target.x == nodes[index].x,
    ensures
        ({
            let (n2, s2, moved) = spec_move_with_push_through(nodes, segments, index, target, threshold as int);
            &&& moved == index
            &&& n2.len() == nodes.len()
            &&& s2 == segments
            &&& forall|i: int| 0 <= i < nodes.len() ==> (#[trigger] n2[i]).x == nodes[i].x
        }),
{
    assert(nodes[index].x < nodes[index + 1].x);
    assert(nodes[index - 1].x < nodes[index].x);
    let (n1, s1) = spec_push_right(nodes, segments, index, target.x as int, threshold as int);
    assert(n1 == nodes && s1 == segments);
    let (n2, s2, m) = spec_push_left(n1, s1, index, target.x as int, threshold as int);
    assert(n2 == nodes && s2 == segments && m == index);
    let (n3, s3, moved) = spec_move_with_push_through(nodes, segments, index, target, threshold as int);
    assert forall|i: int| 0 <= i < nodes.len() implies (#[trigger] n3[i]).x == nodes[i].x by {
        assert(nodes[0].x == 0);
        assert(nodes[nodes.len() - 1].x == UNIT);
    }
}

} // verus!

verus! {

/// Bending a segment moves its tension with the pointer: every
/// `CURVE_SEGMENT_TENSION_PIXEL_SCALE` pixels of upward travel add `UNIT` to
/// the tension of a segment that does not rise (rounded towards zero) and
/// take it away from one that rises, so that dragging up always lifts the
/// segment's middle; downward travel does the opposite. The result is
/// limited to the tension range, and every other segment keeps its tension.
pub proof fn law_segment_bend_follows_pointer(drag: ActiveCurveSegmentDrag, current: Point)
    requires
        drag.origin_curve.wf(),
        drag.index < drag.origin_curve.segments@.len(),
        MIN_SEGMENT_TENSION <= drag.start_tension <= MAX_SEGMENT_TENSION,
    ensures
        ({
            let i = drag.index as int;
            let nodes = drag.origin_curve.nodes@;
            let bent = spec_bent_segments(drag, current);
            let up = drag.start_pointer.y as int - current.y as int;
            let step = (if up >= 0 { up } else { -up }) * (UNIT as int) / 120;
            let rising = nodes[i + 1].y > nodes[i].y;
            let raw = if (up >= 0) != rising { drag.start_tension + step } else { drag.start_tension - step };
            let t = bent[i].tension as int;
            &&& bent.len() == drag.origin_curve.segments@.len()
            &&& forall|j: int| 0 <= j < bent.len() && j != i ==> bent[j] == drag.origin_curve.segments@[j]
            &&& t == if raw < MIN_SEGMENT_TENSION {
                MIN_SEGMENT_TENSION as int
            } else if raw > MAX_SEGMENT_TENSION {
                MAX_SEGMENT_TENSION as int
            } else {
                raw
            }
            &&& (up >= 0 && !rising) ==> t >= drag.start_tension
            &&& (up >= 0 && rising) ==> t <= drag.start_tension
        }),
{
    let i = drag.index as int;
    let nodes = drag.origin_curve.nodes@;
    assert(i + 1 < nodes.len());
    let up = drag.start_pointer.y as int - current.y as int;
    let a = if up >= 0 { up } else { -up };
    assert(a * (UNIT as int) / 120 >= 0) by (nonlinear_arith)
        requires
            a >= 0,
    ;
}

} // verus!
