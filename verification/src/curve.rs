use vstd::prelude::*;

verus! {

/// Curve coordinates are fixed-point: `UNIT` stands for 1.0, so the curve
/// occupies `0..=UNIT` on both axes (phase on x, gain on y).
pub const UNIT: u32 = 1_000_000;

/// Smallest x distance kept between editable neighbours (1.0e-3 of the cycle).
pub const CURVE_NODE_MIN_SPACING_X: u32 = 1_000;

/// Width of the band at the display seam in which a position counts as lying on
/// the seam itself (1.0e-5 of the cycle).
pub const CURVE_DISPLAY_SEAM_EPSILON: u32 = 10;

/// Most nodes an editable curve holds.
pub const MAX_EDITABLE_NODES: usize = 32;

/// Segment tension range, in the same fixed-point scale (-1.0..=1.0).
pub const MIN_SEGMENT_TENSION: i32 = -1_000_000;

pub const MAX_SEGMENT_TENSION: i32 = 1_000_000;

/// One editable point: `x` is the phase in the cycle, `y` the gain.
#[derive(Clone, Copy, Debug, PartialEq, Eq, Structural)]
pub struct CurveNode {
    pub x: u32,
    pub y: u32,
}

/// The shape of the span between two neighbouring nodes.
#[derive(Clone, Copy, Debug, PartialEq, Eq, Structural)]
pub struct CurveSegment {
    pub tension: i32,
}

/// A gain curve over one cycle: nodes in phase order, and one segment between
/// each pair of neighbours.
#[derive(Clone, Debug)]
pub struct EditableCurve {
    pub nodes: Vec<CurveNode>,
    pub segments: Vec<CurveSegment>,
}

/// The nodes are in normalized form: at least two and at most
/// `MAX_EDITABLE_NODES`, strictly increasing in x from 0 to `UNIT`, with gains
/// within `0..=UNIT`.
pub open spec fn nodes_wf(nodes: Seq<CurveNode>) -> bool {
    &&& 2 <= nodes.len() <= MAX_EDITABLE_NODES
    &&& nodes[0].x == 0
    &&& nodes[nodes.len() - 1].x == UNIT
    &&& forall|i: int| 0 <= i < nodes.len() ==> #[trigger] nodes[i].y <= UNIT
    &&& forall|i: int, j: int| 0 <= i < j < nodes.len() ==> #[trigger] nodes[i].x < #[trigger] nodes[j].x
}

/// One segment per neighbouring pair, each with a tension in range.
pub open spec fn segments_wf(segments: Seq<CurveSegment>, node_count: int) -> bool {
    &&& segments.len() == node_count - 1
    &&& forall|i: int|
        0 <= i < segments.len() ==> MIN_SEGMENT_TENSION <= #[trigger] segments[i].tension <= MAX_SEGMENT_TENSION
}

impl EditableCurve {
    /// An independent copy with the same nodes and segments.
    pub fn snapshot(&self) -> (copy: EditableCurve)
        ensures
            copy.nodes@ == self.nodes@,
            copy.segments@ == self.segments@,
    {
        let mut nodes: Vec<CurveNode> = Vec::new();
        let mut i: usize = 0;
        while i < self.nodes.len()
            invariant
                i <= self.nodes@.len(),
                nodes@ == self.nodes@.subrange(0, i as int),
            decreases self.nodes@.len() - i,
        {
            nodes.push(self.nodes[i]);
            i = i + 1;
        }
        let mut segments: Vec<CurveSegment> = Vec::new();
        let mut j: usize = 0;
        while j < self.segments.len()
            invariant
                j <= self.segments@.len(),
                segments@ == self.segments@.subrange(0, j as int),
            decreases self.segments@.len() - j,
        {
            segments.push(self.segments[j]);
            j = j + 1;
        }
        EditableCurve { nodes, segments }
    }

    /// Normalized form of a curve.
    pub open spec fn wf(&self) -> bool {
        nodes_wf(self.nodes@) && segments_wf(self.segments@, self.nodes@.len() as int)
    }

    /// Whether the curve is in normalized form.
    pub fn is_normalized(&self) -> (r: bool)
        ensures
            r == self.wf(),
    {
        let n = self.nodes.len();
        if n < 2 || n > MAX_EDITABLE_NODES || self.segments.len() != n - 1 {
            return false;
        }
        if self.nodes[0].x != 0 || self.nodes[n - 1].x != UNIT {
            return false;
        }
        let mut i: usize = 0;
        while i < n
            invariant
                2 <= n <= MAX_EDITABLE_NODES,
                n == self.nodes@.len(),
                self.segments@.len() == n - 1,
                self.nodes@[0].x == 0,
                self.nodes@[n - 1].x == UNIT,
                i <= n,
                forall|k: int| 0 <= k < i ==> #[trigger] self.nodes@[k].y <= UNIT,
                forall|k: int| 0 < k < i ==> self.nodes@[k - 1].x < #[trigger] self.nodes@[k].x,
            decreases n - i,
        {
            if self.nodes[i].y > UNIT {
                return false;
            }
            if i > 0 && self.nodes[i - 1].x >= self.nodes[i].x {
                return false;
            }
            i = i + 1;
        }
        proof {
            lemma_adjacent_increasing_is_increasing(self.nodes@);
        }
        let mut j: usize = 0;
        while j < n - 1
            invariant
                n == self.nodes@.len(),
                self.segments@.len() == n - 1,
                j <= n - 1,
                forall|k: int|
                    0 <= k < j ==> MIN_SEGMENT_TENSION <= #[trigger] self.segments@[k].tension <= MAX_SEGMENT_TENSION,
            decreases n - 1 - j,
        {
            let t = self.segments[j].tension;
            if t < MIN_SEGMENT_TENSION || t > MAX_SEGMENT_TENSION {
                return false;
            }
            j = j + 1;
        }
        true
    }
}

/// Neighbour-wise increasing x implies increasing x across the whole sequence.
proof fn lemma_adjacent_increasing_is_increasing(nodes: Seq<CurveNode>)
    requires
        forall|k: int| 0 < k < nodes.len() ==> nodes[k - 1].x < #[trigger] nodes[k].x,
    ensures
        forall|i: int, j: int| 0 <= i < j < nodes.len() ==> #[trigger] nodes[i].x < #[trigger] nodes[j].x,
{
    assert forall|i: int, j: int| 0 <= i < j < nodes.len() implies #[trigger] nodes[i].x < #[trigger] nodes[j].x by {
        lemma_increasing_between(nodes, i, j);
    }
}

proof fn lemma_increasing_between(nodes: Seq<CurveNode>, i: int, j: int)
    requires
        forall|k: int| 0 < k < nodes.len() ==> nodes[k - 1].x < #[trigger] nodes[k].x,
        0 <= i < j < nodes.len(),
    ensures
        nodes[i].x < nodes[j].x,
    decreases j - i,
{
    if j > i + 1 {
        lemma_increasing_between(nodes, i, j - 1);
        assert(nodes[j - 1].x < nodes[j].x);
    }
}

} // verus!

verus! {

/// `v` limited to the tension range.
pub open spec fn spec_clamp_tension(v: int) -> int {
    if v < MIN_SEGMENT_TENSION {
        MIN_SEGMENT_TENSION as int
    } else if v > MAX_SEGMENT_TENSION {
        MAX_SEGMENT_TENSION as int
    } else {
        v
    }
}

/// The curve after removing interior node `k`: the node goes, and the
/// segments on its left and right (a missing left one counting as straight,
/// a missing right one as equal to the left one; the right one is the last
/// when there are too few) become one whose tension is the midpoint of
/// theirs, limited to the tension range. Endpoints and out-of-range indices
/// are left alone, and a curve without segments only loses the node.
pub open spec fn spec_remove_interior(nodes: Seq<CurveNode>, segments: Seq<CurveSegment>, k: int) -> (Seq<CurveNode>, Seq<CurveSegment>) {
    let sl = segments.len() as int;
    if k <= 0 || k >= nodes.len() - 1 {
        (nodes, segments)
    } else if sl == 0 {
        (nodes.remove(k), segments)
    } else {
        let li = k - 1;
        let ri = if k < sl - 1 { k } else { sl - 1 };
        let lt: int = if li < sl { segments[li].tension as int } else { 0 };
        let rt: int = if ri < sl { segments[ri].tension as int } else { lt };
        let merged = spec_clamp_tension((lt + rt) / 2) as i32;
        let rest = segments.remove(ri);
        (
            nodes.remove(k),
            if li < rest.len() {
                rest.update(li, CurveSegment { tension: merged })
            } else {
                rest
            },
        )
    }
}

/// Remove interior node `remove_index`, merging its two segments (see
/// `spec_remove_interior`); a normalized curve stays normalized.
pub fn remove_interior_curve_node(curve: &mut EditableCurve, remove_index: usize)
    ensures
        old(curve).wf() ==> final(curve).wf(),
        (final(curve).nodes@, final(curve).segments@) == spec_remove_interior(
            old(curve).nodes@,
            old(curve).segments@,
            remove_index as int,
        ),
{
    if curve.nodes.len() < 2 {
        return;
    }
    let last_index = curve.nodes.len() - 1;
    if remove_index == 0 || remove_index >= last_index {
        return;
    }
    let ghost old_nodes = curve.nodes@;
    let ghost old_segments = curve.segments@;
    let sl = curve.segments.len();
    if sl == 0 {
        curve.nodes.remove(remove_index);
        return;
    }
    let li = remove_index - 1;
    let ri = if remove_index < sl - 1 { remove_index } else { sl - 1 };
    let left_tension: i64 = if li < sl { curve.segments[li].tension as i64 } else { 0 };
    let right_tension: i64 = if ri < sl { curve.segments[ri].tension as i64 } else { left_tension };
    let sum: i64 = left_tension + right_tension;
    let half: i64 = if sum >= 0 { sum / 2 } else { (sum - 1) / 2 };
    assert(half == (left_tension + right_tension) / 2);
    let merged: i64 = if half < MIN_SEGMENT_TENSION as i64 {
        MIN_SEGMENT_TENSION as i64
    } else if half > MAX_SEGMENT_TENSION as i64 {
        MAX_SEGMENT_TENSION as i64
    } else {
        half
    };
    curve.nodes.remove(remove_index);
    curve.segments.remove(ri);
    if li < curve.segments.len() {
        curve.segments.set(li, CurveSegment { tension: merged as i32 });
    }
    proof {
        if old_nodes.len() <= MAX_EDITABLE_NODES && nodes_wf(old_nodes) && segments_wf(
            old_segments,
            old_nodes.len() as int,
        ) {
            assert forall|i: int, j: int| 0 <= i < j < curve.nodes@.len() implies #[trigger] curve.nodes@[i].x
                < #[trigger] curve.nodes@[j].x by {
                let oi = if i < remove_index { i } else { i + 1 };
                let oj = if j < remove_index { j } else { j + 1 };
                assert(old_nodes[oi].x < old_nodes[oj].x);
            }
            assert forall|i: int| 0 <= i < curve.nodes@.len() implies #[trigger] curve.nodes@[i].y <= UNIT by {
                let oi = if i < remove_index { i } else { i + 1 };
                assert(old_nodes[oi].y <= UNIT);
            }
        }
    }
}

/// The nodes with both endpoints pinned to x = 0 and x = `UNIT` at gain `y`
/// (limited to `UNIT`), so that the curve wraps seamlessly.
pub open spec fn spec_with_endpoint_y(nodes: Seq<CurveNode>, y: u32) -> Seq<CurveNode> {
    let clamped = if y > UNIT { UNIT } else { y };
    if nodes.len() < 2 {
        nodes
    } else {
        nodes.update(0, CurveNode { x: 0, y: clamped }).update(
            nodes.len() - 1,
            CurveNode { x: UNIT, y: clamped },
        )
    }
}

/// Give both endpoints the gain `y` (a curve of fewer than two nodes is left
/// alone).
pub fn set_wrapped_curve_endpoint_y(curve: &mut EditableCurve, y: u32)
    ensures
        old(curve).wf() ==> final(curve).wf(),
        final(curve).nodes@ == spec_with_endpoint_y(old(curve).nodes@, y),
        final(curve).segments@ == old(curve).segments@,
{
    if curve.nodes.len() < 2 {
        return;
    }
    let clamped: u32 = if y > UNIT { UNIT } else { y };
    let last_index = curve.nodes.len() - 1;
    let ghost old_nodes = curve.nodes@;
    let ghost was_wf = old(curve).wf();
    curve.nodes.set(0, CurveNode { x: 0, y: clamped });
    curve.nodes.set(last_index, CurveNode { x: UNIT, y: clamped });
    proof {
        if was_wf {
            assert forall|i: int, j: int| 0 <= i < j < curve.nodes@.len() implies #[trigger] curve.nodes@[i].x
                < #[trigger] curve.nodes@[j].x by {
                assert(old_nodes[i].x < old_nodes[j].x);
            }
            assert forall|i: int| 0 <= i < curve.nodes@.len() implies #[trigger] curve.nodes@[i].y <= UNIT by {
                assert(old_nodes[i].y <= UNIT);
            }
        }
    }
}

/// Make the last node repeat the gain of the first (a curve of fewer than two
/// nodes is left alone).
pub fn enforce_wrapped_curve_endpoints(curve: &mut EditableCurve)
    ensures
        old(curve).wf() ==> final(curve).wf(),
        old(curve).nodes@.len() < 2 ==> final(curve).nodes@ == old(curve).nodes@,
        old(curve).nodes@.len() >= 2 ==> final(curve).nodes@ == spec_with_endpoint_y(
            old(curve).nodes@,
            old(curve).nodes@[0].y,
        ),
        final(curve).segments@ == old(curve).segments@,
{
    if curve.nodes.len() < 2 {
        return;
    }
    let first_y = curve.nodes[0].y;
    set_wrapped_curve_endpoint_y(curve, first_y);
}

/// The curve after deleting node `index`: endpoints are never deleted; an
/// interior node is removed together with the segment on its left.
pub open spec fn spec_delete_node(nodes: Seq<CurveNode>, segments: Seq<CurveSegment>, index: int) -> (Seq<CurveNode>, Seq<CurveSegment>) {
    if index <= 0 || index + 1 >= nodes.len() {
        (nodes, segments)
    } else {
        (nodes.remove(index), segments.remove(index - 1))
    }
}

/// Delete interior node `index`; returns whether a node was deleted.
pub fn delete_curve_node(curve: &mut EditableCurve, index: usize) -> (deleted: bool)
    requires
        old(curve).wf(),
    ensures
        final(curve).wf(),
        deleted == (0 < index && index + 1 < old(curve).nodes@.len()),
        (final(curve).nodes@, final(curve).segments@) == spec_delete_node(
            old(curve).nodes@,
            old(curve).segments@,
            index as int,
        ),
{
    if index == 0 || index >= curve.nodes.len() - 1 {
        return false;
    }
    let ghost old_nodes = curve.nodes@;
    let ghost old_segments = curve.segments@;
    curve.nodes.remove(index);
    curve.segments.remove(index - 1);
    assert forall|i: int, j: int| 0 <= i < j < curve.nodes@.len() implies #[trigger] curve.nodes@[i].x
        < #[trigger] curve.nodes@[j].x by {
        let oi = if i < index { i } else { i + 1 };
        let oj = if j < index { j } else { j + 1 };
        assert(old_nodes[oi].x < old_nodes[oj].x);
    }
    assert forall|i: int| 0 <= i < curve.nodes@.len() implies #[trigger] curve.nodes@[i].y <= UNIT by {
        let oi = if i < index { i } else { i + 1 };
        assert(old_nodes[oi].y <= UNIT);
    }
    assert forall|i: int| 0 <= i < curve.segments@.len() implies MIN_SEGMENT_TENSION
        <= #[trigger] curve.segments@[i].tension <= MAX_SEGMENT_TENSION by {
        let oi = if i < index - 1 { i } else { i + 1 };
        assert(MIN_SEGMENT_TENSION <= old_segments[oi].tension <= MAX_SEGMENT_TENSION);
    }
    true
}

} // verus!

verus! {

pub open spec fn spec_min_u32(a: int, b: int) -> int {
    if a < b {
        a
    } else {
        b
    }
}

/// The nodes after moving node `index` towards `node`: an endpoint only takes
/// the new gain (both endpoints, so the curve keeps wrapping); an interior node
/// takes the new gain and an x clamped to stay at least
/// `CURVE_NODE_MIN_SPACING_X` away from its neighbours, and does not move at
/// all when its neighbours leave no such room. Out-of-range indices change
/// nothing.
pub open spec fn spec_update_node(nodes: Seq<CurveNode>, index: int, node: CurveNode) -> Seq<CurveNode> {
    if index < 0 || index >= nodes.len() {
        nodes
    } else if index == 0 || index == nodes.len() - 1 {
        spec_with_endpoint_y(nodes, node.y)
    } else {
        let lo = nodes[index - 1].x + CURVE_NODE_MIN_SPACING_X;
        let hi = nodes[index + 1].x - CURVE_NODE_MIN_SPACING_X;
        if lo >= hi {
            nodes
        } else {
            nodes.update(index, CurveNode { x: clamp_to(node.x as int, lo, hi) as u32, y: spec_min_u32(node.y as int, UNIT as int) as u32 })
        }
    }
}

pub open spec fn clamp_to(v: int, lo: int, hi: int) -> int {
    if v < lo {
        lo
    } else if v > hi {
        hi
    } else {
        v
    }
}

/// Move node `index` towards `node` (see `spec_update_node`).
pub fn update_curve_node(curve: &mut EditableCurve, index: usize, node: CurveNode)
    requires
        old(curve).wf(),
    ensures
        final(curve).wf(),
        final(curve).nodes@ == spec_update_node(old(curve).nodes@, index as int, node),
        final(curve).segments@ == old(curve).segments@,
{
    let n = curve.nodes.len();
    if index >= n {
        return;
    }
    if index == 0 || index == n - 1 {
        set_wrapped_curve_endpoint_y(curve, node.y);
        return;
    }
    let lo: u32 = curve.nodes[index - 1].x + CURVE_NODE_MIN_SPACING_X;
    let next_x: u32 = curve.nodes[index + 1].x;
    if next_x < CURVE_NODE_MIN_SPACING_X || lo >= next_x - CURVE_NODE_MIN_SPACING_X {
        return;
    }
    let hi: u32 = next_x - CURVE_NODE_MIN_SPACING_X;
    let x: u32 = if node.x < lo { lo } else if node.x > hi { hi } else { node.x };
    let y: u32 = if node.y < UNIT { node.y } else { UNIT };
    let ghost old_nodes = curve.nodes@;
    curve.nodes.set(index, CurveNode { x, y });
    assert forall|i: int, j: int| 0 <= i < j < curve.nodes@.len() implies #[trigger] curve.nodes@[i].x
        < #[trigger] curve.nodes@[j].x by {
        if i == index {
            assert(old_nodes[index + 1].x <= old_nodes[j].x);
        } else if j == index {
            assert(old_nodes[i].x <= old_nodes[index - 1].x);
        } else {
            assert(old_nodes[i].x < old_nodes[j].x);
        }
    }
    assert forall|i: int| 0 <= i < curve.nodes@.len() implies #[trigger] curve.nodes@[i].y <= UNIT by {
        if i != index {
            assert(old_nodes[i].y <= UNIT);
        }
    }
}

/// How many of `nodes` lie strictly left of `x`.
pub open spec fn spec_count_left_of(nodes: Seq<CurveNode>, x: u32) -> nat
    decreases nodes.len(),
{
    if nodes.len() == 0 {
        0
    } else {
        spec_count_left_of(nodes.drop_last(), x) + if nodes.last().x < x {
            1nat
        } else {
            0nat
        }
    }
}

/// Where a node at `x` is inserted: after every node left of `x`, but never
/// before the first or after the last node.
pub open spec fn spec_insert_index(nodes: Seq<CurveNode>, x: u32) -> int {
    clamp_to(spec_count_left_of(nodes, x) as int, 1, nodes.len() - 1)
}

/// The curve after inserting `node`, with the index it took, or `None` when the
/// curve is full or the gap at the insertion point is too narrow for a node at
/// least `CURVE_NODE_MIN_SPACING_X` away from both neighbours. The node's x is
/// clamped into that room and its gain limited to `UNIT`; the new segment copies
/// the one it splits.
pub open spec fn spec_insert_node(nodes: Seq<CurveNode>, segments: Seq<CurveSegment>, node: CurveNode) -> Option<(Seq<CurveNode>, Seq<CurveSegment>, int)> {
    if nodes.len() < 2 || nodes.len() >= MAX_EDITABLE_NODES {
        None
    } else {
        let at = spec_insert_index(nodes, node.x);
        let lo = nodes[at - 1].x + CURVE_NODE_MIN_SPACING_X;
        let hi = nodes[at].x - CURVE_NODE_MIN_SPACING_X;
        if lo >= hi {
            None
        } else {
            Some((
                nodes.insert(at, CurveNode { x: clamp_to(node.x as int, lo, hi) as u32, y: spec_min_u32(node.y as int, UNIT as int) as u32 }),
                segments.insert(at - 1, segments[at - 1]),
                at,
            ))
        }
    }
}

/// How many of `nodes` lie strictly left of `x`.
fn count_nodes_left_of(nodes: &Vec<CurveNode>, x: u32) -> (count: usize)
    ensures
        count == spec_count_left_of(nodes@, x),
        count <= nodes@.len(),
{
    let n = nodes.len();
    let mut count: usize = 0;
    let mut i: usize = 0;
    while i < n
        invariant
            n == nodes@.len(),
            i <= n,
            count <= i,
            count == spec_count_left_of(nodes@.take(i as int), x),
        decreases n - i,
    {
        assert(nodes@.take(i + 1).drop_last() =~= nodes@.take(i as int));
        if nodes[i].x < x {
            count = count + 1;
        }
        i = i + 1;
    }
    assert(nodes@.take(n as int) =~= nodes@);
    count
}

/// Inserting a node strictly between its neighbours keeps a curve normalized.
proof fn lemma_insert_keeps_wf(nodes: Seq<CurveNode>, segments: Seq<CurveSegment>, at: int, node: CurveNode)
    requires
        nodes_wf(nodes),
        segments_wf(segments, nodes.len() as int),
        nodes.len() < MAX_EDITABLE_NODES,
        1 <= at <= nodes.len() - 1,
        nodes[at - 1].x < node.x < nodes[at].x,
        node.y <= UNIT,
    ensures
        nodes_wf(nodes.insert(at, node)),
        segments_wf(segments.insert(at - 1, segments[at - 1]), nodes.len() + 1int),
{
    let new_nodes = nodes.insert(at, node);
    let new_segments = segments.insert(at - 1, segments[at - 1]);
    assert forall|a: int, b: int| 0 <= a < b < new_nodes.len() implies #[trigger] new_nodes[a].x
        < #[trigger] new_nodes[b].x by {
        if a == at {
            assert(nodes[at].x <= nodes[b - 1].x);
        } else if b == at {
            assert(nodes[a].x <= nodes[at - 1].x);
        } else {
            let oa = if a < at { a } else { a - 1 };
            let ob = if b < at { b } else { b - 1 };
            assert(nodes[oa].x < nodes[ob].x);
        }
    }
    assert forall|a: int| 0 <= a < new_nodes.len() implies #[trigger] new_nodes[a].y <= UNIT by {
        if a != at {
            let oa = if a < at { a } else { a - 1 };
            assert(nodes[oa].y <= UNIT);
        }
    }
    assert forall|a: int| 0 <= a < new_segments.len() implies MIN_SEGMENT_TENSION
        <= #[trigger] new_segments[a].tension <= MAX_SEGMENT_TENSION by {
        let oa = if a < at { a } else { a - 1 };
        assert(MIN_SEGMENT_TENSION <= segments[oa].tension <= MAX_SEGMENT_TENSION);
    }
}

/// Insert `node` (see `spec_insert_node`); returns its index.
pub fn insert_curve_node(curve: &mut EditableCurve, node: CurveNode) -> (inserted: Option<usize>)
    requires
        old(curve).wf(),
    ensures
        final(curve).wf(),
        match spec_insert_node(old(curve).nodes@, old(curve).segments@, node) {
            Some((nodes, segments, at)) => {
                &&& inserted == Some(at as usize)
                &&& final(curve).nodes@ == nodes
                &&& final(curve).segments@ == segments
            },
            None => {
                &&& inserted is None
                &&& final(curve).nodes@ == old(curve).nodes@
                &&& final(curve).segments@ == old(curve).segments@
            },
        },
{
    let n = curve.nodes.len();
    if n >= MAX_EDITABLE_NODES {
        return None;
    }
    let count = count_nodes_left_of(&curve.nodes, node.x);
    let at: usize = if count < 1 { 1 } else if count > n - 1 { n - 1 } else { count };
    let lo: u32 = curve.nodes[at - 1].x + CURVE_NODE_MIN_SPACING_X;
    let right_x: u32 = curve.nodes[at].x;
    if right_x < CURVE_NODE_MIN_SPACING_X || lo >= right_x - CURVE_NODE_MIN_SPACING_X {
        return None;
    }
    let hi: u32 = right_x - CURVE_NODE_MIN_SPACING_X;
    let x: u32 = if node.x < lo { lo } else if node.x > hi { hi } else { node.x };
    let y: u32 = if node.y < UNIT { node.y } else { UNIT };
    let inherited = curve.segments[at - 1];
    proof {
        lemma_insert_keeps_wf(curve.nodes@, curve.segments@, at as int, CurveNode { x, y });
    }
    curve.nodes.insert(at, CurveNode { x, y });
    curve.segments.insert(at - 1, inherited);
    Some(at)
}

} // verus!

verus! {

/// Where phase `raw_x` is drawn when the curve is shifted by `phase_offset`:
/// the shifted phase wrapped into the cycle, except that a shifted phase that
/// lands on the wrap seam from above is drawn at the right edge (`UNIT`) so the
/// right edge stays distinguishable from the left one.
pub open spec fn spec_display_phase(raw_x: u32, phase_offset: u32) -> u32 {
    let shifted = raw_x + phase_offset;
    let wrapped = shifted % (UNIT as int);
    if shifted > CURVE_DISPLAY_SEAM_EPSILON && wrapped <= CURVE_DISPLAY_SEAM_EPSILON {
        UNIT
    } else {
        wrapped as u32
    }
}

pub fn display_phase(raw_x: u32, phase_offset: u32) -> (x: u32)
    ensures
        x == spec_display_phase(raw_x, phase_offset),
        x <= UNIT,
{
    let shifted: u64 = raw_x as u64 + phase_offset as u64;
    let wrapped: u64 = shifted % (UNIT as u64);
    if shifted > CURVE_DISPLAY_SEAM_EPSILON as u64 && wrapped <= CURVE_DISPLAY_SEAM_EPSILON as u64 {
        UNIT
    } else {
        wrapped as u32
    }
}

/// Whether a displayed phase lies in the band next to the left (or right) edge
/// in which nodes crowd each other.
pub open spec fn in_edge_band(x: u32, left_side: bool) -> bool {
    if left_side {
        x <= CURVE_NODE_MIN_SPACING_X
    } else {
        x >= UNIT - CURVE_NODE_MIN_SPACING_X
    }
}

/// Whether a displayed phase lies on the left (or right) seam itself.
pub open spec fn on_seam(x: u32, left_side: bool) -> bool {
    if left_side {
        x <= CURVE_DISPLAY_SEAM_EPSILON
    } else {
        x >= UNIT - CURVE_DISPLAY_SEAM_EPSILON
    }
}

/// Distance of a displayed phase from the left (or right) edge.
pub open spec fn edge_distance(x: u32, left_side: bool) -> int {
    if left_side {
        x as int
    } else {
        UNIT - x
    }
}

/// Index `i` is the in-band node nearest the edge, the lowest such index on ties.
pub open spec fn is_nearest_in_band(display_x: Seq<u32>, i: int, left_side: bool) -> bool {
    &&& 0 <= i < display_x.len()
    &&& in_edge_band(display_x[i], left_side)
    &&& forall|j: int|
        0 <= j < display_x.len() && in_edge_band(#[trigger] display_x[j], left_side) ==> edge_distance(
            display_x[i],
            left_side,
        ) < edge_distance(display_x[j], left_side) || (edge_distance(display_x[i], left_side)
            == edge_distance(display_x[j], left_side) && i <= j)
}

/// The structural endpoint on one side: the first node on the left, the last
/// on the right.
pub open spec fn structural_index(len: int, left_side: bool) -> int {
    if left_side || len == 0 {
        0
    } else {
        len - 1
    }
}

/// The one node that stays interactive in the crowded band at an edge: the
/// active node if it is in the band, else the structural endpoint if it sits
/// on the seam, else the in-band node nearest the edge (`is_nearest_in_band`),
/// else none.
pub open spec fn spec_edge_survivor(display_x: Seq<u32>, active_node: Option<usize>, left_side: bool, survivor: Option<usize>) -> bool {
    let s = structural_index(display_x.len() as int, left_side);
    if active_node matches Some(a) && a < display_x.len() && in_edge_band(display_x[a as int], left_side) {
        survivor == active_node
    } else if s < display_x.len() && in_edge_band(display_x[s], left_side) && on_seam(display_x[s], left_side) {
        survivor == Some(s as usize)
    } else if exists|j: int| 0 <= j < display_x.len() && in_edge_band(#[trigger] display_x[j], left_side) {
        survivor matches Some(i) && is_nearest_in_band(display_x, i as int, left_side)
    } else {
        survivor is None
    }
}

/// Pick the node that stays interactive in the crowded band at one edge.
pub fn select_interactive_edge_survivor(display_x: &[u32], active_node: Option<usize>, left_side: bool) -> (survivor: Option<usize>)
    ensures
        spec_edge_survivor(display_x@, active_node, left_side, survivor),
{
    let n = display_x.len();
    if let Some(active) = active_node {
        if active < n && edge_band(display_x[active], left_side) {
            return Some(active);
        }
    }
    let structural: usize = if left_side || n == 0 { 0 } else { n - 1 };
    if structural < n && edge_band(display_x[structural], left_side) && seam(display_x[structural], left_side) {
        return Some(structural);
    }
    let mut best: Option<usize> = None;
    let mut i: usize = 0;
    while i < n
        invariant
            n == display_x@.len(),
            i <= n,
            match best {
                Some(b) => {
                    &&& b < i
                    &&& in_edge_band(display_x@[b as int], left_side)
                    &&& forall|j: int|
                        0 <= j < i && in_edge_band(#[trigger] display_x@[j], left_side) ==> edge_distance(
                            display_x@[b as int],
                            left_side,
                        ) < edge_distance(display_x@[j], left_side) || (edge_distance(display_x@[b as int], left_side)
                            == edge_distance(display_x@[j], left_side) && b <= j)
                },
                None => forall|j: int| 0 <= j < i ==> !in_edge_band(#[trigger] display_x@[j], left_side),
            },
        decreases n - i,
    {
        let x = display_x[i];
        if edge_band(x, left_side) {
            match best {
                Some(b) => {
                    if distance(x, left_side) < distance(display_x[b], left_side) {
                        best = Some(i);
                    }
                },
                None => {
                    best = Some(i);
                },
            }
        }
        i = i + 1;
    }
    best
}

fn edge_band(x: u32, left_side: bool) -> (r: bool)
    ensures
        r == in_edge_band(x, left_side),
{
    if left_side {
        x <= CURVE_NODE_MIN_SPACING_X
    } else {
        x >= UNIT - CURVE_NODE_MIN_SPACING_X
    }
}

fn seam(x: u32, left_side: bool) -> (r: bool)
    ensures
        r == on_seam(x, left_side),
{
    if left_side {
        x <= CURVE_DISPLAY_SEAM_EPSILON
    } else {
        x >= UNIT - CURVE_DISPLAY_SEAM_EPSILON
    }
}

fn distance(x: u32, left_side: bool) -> (d: i64)
    ensures
        d == edge_distance(x, left_side),
{
    if left_side {
        x as i64
    } else {
        UNIT as i64 - x as i64
    }
}

} // verus!

verus! {

/// Displayed phases of all nodes.
pub open spec fn spec_display_xs(nodes: Seq<CurveNode>, phase_offset: u32) -> Seq<u32> {
    Seq::new(nodes.len(), |i: int| spec_display_phase(nodes[i].x, phase_offset))
}

/// The increasing sequence of indices `0..n` that satisfy `keep`.
pub open spec fn spec_indices_where(n: int, keep: spec_fn(int) -> bool) -> Seq<usize>
    decreases n,
{
    if n <= 0 {
        Seq::empty()
    } else if keep(n - 1) {
        spec_indices_where(n - 1, keep).push((n - 1) as usize)
    } else {
        spec_indices_where(n - 1, keep)
    }
}

/// A node is interactive unless it is hidden in a crowded edge band, where
/// only the chosen survivor of that band is interactive.
pub open spec fn is_survivor(display_x: Seq<u32>, i: int, left: Option<usize>, right: Option<usize>) -> bool {
    (!in_edge_band(display_x[i], true) && !in_edge_band(display_x[i], false)) || left == Some(i as usize)
        || right == Some(i as usize)
}

/// The indices of the nodes that stay interactive (painted, hit-testable and
/// selectable), in increasing order, for a curve shifted by `phase_offset`
/// (taken modulo the cycle) while `active_node` is being edited.
pub open spec fn spec_survivors(nodes: Seq<CurveNode>, phase_offset: u32, active_node: Option<usize>, survivors: Seq<usize>) -> bool {
    let display_x = spec_display_xs(nodes, (phase_offset % UNIT) as u32);
    exists|left: Option<usize>, right: Option<usize>|
        spec_edge_survivor(display_x, active_node, true, left) && spec_edge_survivor(display_x, active_node, false, right)
            && survivors == spec_indices_where(nodes.len() as int, |i: int| is_survivor(display_x, i, left, right))
}

/// Indices of the interactive nodes (see `spec_survivors`).
pub fn interactive_curve_node_survivors(curve: &EditableCurve, phase_offset: u32, active_node: Option<usize>) -> (survivors: Vec<usize>)
    requires
        curve.wf(),
    ensures
        spec_survivors(curve.nodes@, phase_offset, active_node, survivors@),
{
    let n = curve.nodes.len();
    let phase: u32 = phase_offset % UNIT;
    let mut display_x: Vec<u32> = Vec::new();
    let mut i: usize = 0;
    while i < n
        invariant
            n == curve.nodes@.len(),
            i <= n,
            display_x@ == spec_display_xs(curve.nodes@.take(i as int), phase),
        decreases n - i,
    {
        display_x.push(display_phase(curve.nodes[i].x, phase));
        i = i + 1;
        assert(display_x@ =~= spec_display_xs(curve.nodes@.take(i as int), phase));
    }
    assert(curve.nodes@.take(n as int) =~= curve.nodes@);
    let ghost dx = display_x@;
    assert(dx == spec_display_xs(curve.nodes@, (phase_offset % UNIT) as u32));
    let left = select_interactive_edge_survivor(display_x.as_slice(), active_node, true);
    let right = select_interactive_edge_survivor(display_x.as_slice(), active_node, false);
    let ghost keep = |k: int| is_survivor(dx, k, left, right);
    let mut survivors: Vec<usize> = Vec::new();
    let mut k: usize = 0;
    while k < n
        invariant
            n == dx.len(),
            dx == display_x@,
            k <= n,
            keep == (|j: int| is_survivor(dx, j, left, right)),
            survivors@ == spec_indices_where(k as int, keep),
        decreases n - k,
    {
        let x = display_x[k];
        let keep_k = (!edge_band(x, true) && !edge_band(x, false)) || left == Some(k) || right == Some(k);
        assert(keep_k == keep(k as int));
        if keep_k {
            survivors.push(k);
        }
        k = k + 1;
    }
    survivors
}

} // verus!

verus! {

/// The first `k` elements of `s` without those at indices that `dropped` marks.
pub open spec fn spec_kept<A>(s: Seq<A>, dropped: spec_fn(int) -> bool, k: int) -> Seq<A>
    decreases k,
{
    if k <= 0 {
        Seq::empty()
    } else if dropped(k - 1) {
        spec_kept(s, dropped, k - 1)
    } else {
        spec_kept(s, dropped, k - 1).push(s[k - 1])
    }
}

/// Node `i` is deleted by a selection delete: it is interior, selected, and
/// interactive.
pub open spec fn deleted_by_selection(n: int, selected: Seq<usize>, survivors: Seq<usize>, i: int) -> bool {
    0 < i < n - 1 && selected.contains(i as usize) && survivors.contains(i as usize)
}

/// The curve after deleting every selected interior node that is interactive:
/// those nodes go, and each takes the segment on its left with it.
pub open spec fn spec_delete_selected(
    nodes: Seq<CurveNode>,
    segments: Seq<CurveSegment>,
    selected: Seq<usize>,
    survivors: Seq<usize>,
) -> (Seq<CurveNode>, Seq<CurveSegment>) {
    let n = nodes.len() as int;
    (
        spec_kept(nodes, |i: int| deleted_by_selection(n, selected, survivors, i), n),
        spec_kept(segments, |j: int| deleted_by_selection(n, selected, survivors, j + 1), n - 1),
    )
}

pub(crate) fn slice_contains(s: &[usize], v: usize) -> (r: bool)
    ensures
        r == s@.contains(v),
{
    let mut i: usize = 0;
    while i < s.len()
        invariant
            i <= s@.len(),
            forall|j: int| 0 <= j < i ==> s@[j] != v,
        decreases s@.len() - i,
    {
        if s[i] == v {
            assert(s@[i as int] == v);
            return true;
        }
        i = i + 1;
    }
    false
}

/// Whether the selection holds a node that Delete would remove: an interior
/// node that is interactive (see `spec_survivors`) while `active_node` is
/// being edited and the curve is drawn shifted by `phase_offset`.
pub fn has_interactive_deletable_selection(
    curve: &EditableCurve,
    phase_offset: u32,
    active_node: Option<usize>,
    selected: &[usize],
) -> (r: bool)
    requires
        curve.wf(),
    ensures
        exists|survivors: Seq<usize>|
            {
                &&& spec_survivors(curve.nodes@, phase_offset, active_node, survivors)
                &&& (r <==> exists|j: int|
                    0 <= j < selected@.len() && survivors.contains(#[trigger] selected@[j]) && 0 < selected@[j]
                        && selected@[j] + 1 < curve.nodes@.len())
            },
{
    let survivors = interactive_curve_node_survivors(curve, phase_offset, active_node);
    let n = curve.nodes.len();
    let mut j: usize = 0;
    while j < selected.len()
        invariant
            j <= selected@.len(),
            n == curve.nodes@.len(),
            n >= 2,
            spec_survivors(curve.nodes@, phase_offset, active_node, survivors@),
            forall|k: int|
                0 <= k < j ==> !(survivors@.contains(#[trigger] selected@[k]) && 0 < selected@[k] && selected@[k]
                    + 1 < n),
        decreases selected@.len() - j,
    {
        let index = selected[j];
        if index > 0 && index < n - 1 && slice_contains(survivors.as_slice(), index) {
            assert(0 <= j < selected@.len() && survivors@.contains(selected@[j as int]));
            return true;
        }
        j = j + 1;
    }
    assert(spec_survivors(curve.nodes@, phase_offset, active_node, survivors@));
    false
}

/// Delete the selected interactive interior nodes (see `spec_delete_selected`);
/// returns whether anything was deleted. Endpoints, nodes hidden in a crowded
/// edge band, and indices outside the curve are never deleted.
pub fn delete_selected_curve_nodes(curve: &mut EditableCurve, selected: &[usize], phase_offset: u32) -> (deleted: bool)
    requires
        old(curve).wf(),
    ensures
        final(curve).wf(),
        exists|survivors: Seq<usize>|
            {
                &&& spec_survivors(old(curve).nodes@, phase_offset, None, survivors)
                &&& (final(curve).nodes@, final(curve).segments@) == spec_delete_selected(
                    old(curve).nodes@,
                    old(curve).segments@,
                    selected@,
                    survivors,
                )
                &&& deleted == exists|i: int|
                    #![trigger selected@.contains(i as usize)]
                    deleted_by_selection(old(curve).nodes@.len() as int, selected@, survivors, i)
            },
{
    let survivors = interactive_curve_node_survivors(curve, phase_offset, None);
    let n = curve.nodes.len();
    let ghost nodes = curve.nodes@;
    let ghost segments = curve.segments@;
    let ghost dropped = |i: int| deleted_by_selection(n as int, selected@, survivors@, i);
    let mut new_nodes: Vec<CurveNode> = Vec::new();
    let mut new_segments: Vec<CurveSegment> = Vec::new();
    let mut deleted = false;
    let mut last_kept: usize = 0;
    let mut k: usize = 0;
    while k < n
        invariant
            nodes == curve.nodes@,
            segments == curve.segments@,
            nodes_wf(nodes),
            segments_wf(segments, n as int),
            n == nodes.len(),
            k <= n,
            dropped == (|i: int| deleted_by_selection(n as int, selected@, survivors@, i)),
            new_nodes@ == spec_kept(nodes, dropped, k as int),
            new_segments@ == spec_kept(segments, |j: int| dropped(j + 1), k - 1),
            k > 0 ==> new_nodes@.len() > 0 && last_kept < k && new_nodes@.last() == nodes[last_kept as int],
            k > 0 ==> new_segments@.len() + 1 == new_nodes@.len(),
            k == 0 ==> new_nodes@.len() == 0 && new_segments@.len() == 0,
            forall|a: int, b: int| 0 <= a < b < new_nodes@.len() ==> #[trigger] new_nodes@[a].x < #[trigger] new_nodes@[b].x,
            forall|a: int| 0 <= a < new_nodes@.len() ==> #[trigger] new_nodes@[a].y <= UNIT,
            forall|a: int| 0 <= a < new_segments@.len() ==> MIN_SEGMENT_TENSION <= #[trigger] new_segments@[a].tension <= MAX_SEGMENT_TENSION,
            new_nodes@.len() <= k,
            k > 0 ==> new_nodes@[0] == nodes[0],
            deleted == exists|i: int| #![trigger selected@.contains(i as usize)] 0 <= i < k && dropped(i),
            k == n ==> last_kept == n - 1,
        decreases n - k,
    {
        let drop_k = k > 0 && k < n - 1 && slice_contains(selected, k) && slice_contains(survivors.as_slice(), k);
        assert(drop_k == dropped(k as int));
        if drop_k {
            deleted = true;
        } else {
            if k > 0 {
                assert(nodes[last_kept as int].x < nodes[k as int].x);
                new_segments.push(curve.segments[k - 1]);
            }
            new_nodes.push(curve.nodes[k]);
            last_kept = k;
        }
        k = k + 1;
    }
    proof {
        let by_segment = |j: int| deleted_by_selection(n as int, selected@, survivors@, j + 1);
        assert((|j: int| dropped(j + 1)) =~= by_segment);
        assert(new_nodes@[new_nodes@.len() - 1].x == UNIT);
        assert(new_nodes@.len() >= 2);
    }
    curve.nodes = new_nodes;
    curve.segments = new_segments;
    deleted
}

} // verus!

verus! {

/// `(min_delta, max_delta)` when it is a non-empty interval containing 0; else
/// the interval widened just enough to contain 0, so that a gesture that does
/// not move in x is always allowed.
pub open spec fn spec_feasible_delta_interval(min_delta: int, max_delta: int) -> (int, int) {
    if min_delta <= max_delta && min_delta <= 0 && max_delta >= 0 {
        (min_delta, max_delta)
    } else {
        (if min_delta < 0 { min_delta } else { 0 }, if max_delta > 0 { max_delta } else { 0 })
    }
}

pub fn feasible_delta_interval_including_zero(min_delta: i64, max_delta: i64) -> (interval: (i64, i64))
    ensures
        (interval.0 as int, interval.1 as int) == spec_feasible_delta_interval(min_delta as int, max_delta as int),
        interval.0 <= 0 <= interval.1,
{
    if min_delta <= max_delta && min_delta <= 0 && max_delta >= 0 {
        (min_delta, max_delta)
    } else {
        (if min_delta < 0 { min_delta } else { 0 }, if max_delta > 0 { max_delta } else { 0 })
    }
}

/// `(min_x, max_x)` when it is a non-empty interval containing `origin_x`; else
/// the interval widened just enough to contain `origin_x`, so a node whose
/// current position breaks the spacing rule can still stay where it is.
pub open spec fn spec_feasible_node_x_interval(min_x: int, max_x: int, origin_x: int) -> (int, int) {
    if min_x <= max_x && min_x <= origin_x && origin_x <= max_x {
        (min_x, max_x)
    } else {
        (if min_x < origin_x { min_x } else { origin_x }, if max_x > origin_x { max_x } else { origin_x })
    }
}

pub fn feasible_node_x_interval_including_origin(min_x: i64, max_x: i64, origin_x: i64) -> (interval: (i64, i64))
    ensures
        (interval.0 as int, interval.1 as int) == spec_feasible_node_x_interval(min_x as int, max_x as int, origin_x as int),
        interval.0 <= origin_x <= interval.1,
{
    if min_x <= max_x && min_x <= origin_x && origin_x <= max_x {
        (min_x, max_x)
    } else {
        (if min_x < origin_x { min_x } else { origin_x }, if max_x > origin_x { max_x } else { origin_x })
    }
}

/// Remove the interior neighbours right of node `m` that the target x has
/// passed by more than `threshold`, nearest first.
pub open spec fn spec_push_right(nodes: Seq<CurveNode>, segments: Seq<CurveSegment>, m: int, target_x: int, threshold: int) -> (Seq<CurveNode>, Seq<CurveSegment>)
    decreases nodes.len(),
{
    if 0 <= m && m + 1 < nodes.len() - 1 && target_x > nodes[m + 1].x + threshold {
        let (n2, s2) = spec_remove_interior(nodes, segments, m + 1);
        spec_push_right(n2, s2, m, target_x, threshold)
    } else {
        (nodes, segments)
    }
}

/// Remove the interior neighbours left of node `m` that the target x has
/// passed by more than `threshold`, nearest first; also gives the node's index
/// afterwards.
pub open spec fn spec_push_left(nodes: Seq<CurveNode>, segments: Seq<CurveSegment>, m: int, target_x: int, threshold: int) -> (Seq<CurveNode>, Seq<CurveSegment>, int)
    decreases m,
{
    if 1 < m < nodes.len() && target_x + threshold < nodes[m - 1].x {
        let (n2, s2) = spec_remove_interior(nodes, segments, m - 1);
        spec_push_left(n2, s2, m - 1, target_x, threshold)
    } else {
        (nodes, segments, m)
    }
}

/// Dragging node `index` to `target`.
///
/// An endpoint only takes the new gain, on both ends. An interior node first
/// pushes through the neighbours it has passed by more than
/// `push_through_threshold_x` (removing them and merging their segments), then
/// takes an x clamped to keep `CURVE_NODE_MIN_SPACING_X` from its remaining
/// neighbours (or to its current x where that room does not exist) and the new
/// gain; the endpoints are then made to wrap. Gives the curve and the node's
/// index afterwards.
pub open spec fn spec_move_with_push_through(
    nodes: Seq<CurveNode>,
    segments: Seq<CurveSegment>,
    index: int,
    target: CurveNode,
    threshold: int,
) -> (Seq<CurveNode>, Seq<CurveSegment>, int) {
    let y = spec_min_u32(target.y as int, UNIT as int) as u32;
    if index < 0 || index >= nodes.len() {
        (nodes, segments, index)
    } else if index == 0 || index == nodes.len() - 1 {
        (spec_with_endpoint_y(nodes, y), segments, index)
    } else {
        let (n1, s1) = spec_push_right(nodes, segments, index, target.x as int, threshold);
        let (n2, s2, m) = spec_push_left(n1, s1, index, target.x as int, threshold);
        let (lo, hi) = spec_feasible_node_x_interval(
            n2[m - 1].x + CURVE_NODE_MIN_SPACING_X,
            n2[m + 1].x - CURVE_NODE_MIN_SPACING_X,
            n2[m].x as int,
        );
        let moved = n2.update(m, CurveNode { x: clamp_to(target.x as int, lo, hi) as u32, y });
        (spec_with_endpoint_y(moved, moved[0].y), s2, m)
    }
}

/// Drag node `index` to `target` (see `spec_move_with_push_through`); returns
/// the node's index afterwards.
pub fn move_curve_node_with_push_through(
    curve: &mut EditableCurve,
    index: usize,
    target: CurveNode,
    push_through_threshold_x: u32,
) -> (moved_index: usize)
    requires
        old(curve).wf(),
    ensures
        final(curve).wf(),
        (final(curve).nodes@, final(curve).segments@, moved_index as int) == spec_move_with_push_through(
            old(curve).nodes@,
            old(curve).segments@,
            index as int,
            target,
            push_through_threshold_x as int,
        ),
{
    let n = curve.nodes.len();
    if index >= n {
        return index;
    }
    let y: u32 = if target.y < UNIT { target.y } else { UNIT };
    if index == 0 || index == n - 1 {
        set_wrapped_curve_endpoint_y(curve, y);
        return index;
    }
    let threshold: u64 = push_through_threshold_x as u64;
    let target_x: u64 = target.x as u64;
    let ghost start_nodes = curve.nodes@;
    let ghost start_segments = curve.segments@;
    let ghost right = spec_push_right(start_nodes, start_segments, index as int, target.x as int, threshold as int);
    while index + 1 < curve.nodes.len() - 1 && target_x > curve.nodes[index + 1].x as u64 + threshold
        invariant
            curve.wf(),
            0 < index < curve.nodes@.len() - 1,
            threshold == push_through_threshold_x as u64,
            target_x == target.x as u64,
            spec_push_right(curve.nodes@, curve.segments@, index as int, target.x as int, threshold as int) == right,
        decreases curve.nodes@.len(),
    {
        remove_interior_curve_node(curve, index + 1);
    }
    let ghost left = spec_push_left(right.0, right.1, index as int, target.x as int, threshold as int);
    let mut moved: usize = index;
    while moved > 1 && target_x + threshold < curve.nodes[moved - 1].x as u64
        invariant
            curve.wf(),
            0 < moved < curve.nodes@.len() - 1,
            threshold == push_through_threshold_x as u64,
            target_x == target.x as u64,
            spec_push_left(curve.nodes@, curve.segments@, moved as int, target.x as int, threshold as int) == left,
        decreases moved,
    {
        remove_interior_curve_node(curve, moved - 1);
        moved = moved - 1;
    }
    let origin_x: i64 = curve.nodes[moved].x as i64;
    let preferred_min: i64 = curve.nodes[moved - 1].x as i64 + CURVE_NODE_MIN_SPACING_X as i64;
    let preferred_max: i64 = curve.nodes[moved + 1].x as i64 - CURVE_NODE_MIN_SPACING_X as i64;
    let (min_x, max_x) = feasible_node_x_interval_including_origin(preferred_min, preferred_max, origin_x);
    let tx: i64 = target.x as i64;
    let x: i64 = if tx < min_x { min_x } else if tx > max_x { max_x } else { tx };
    let ghost before = curve.nodes@;
    assert(before[moved - 1].x < before[moved as int].x < before[moved + 1].x);
    assert(0 <= x <= UNIT);
    curve.nodes.set(moved, CurveNode { x: x as u32, y });
    proof {
        assert forall|i: int, j: int| 0 <= i < j < curve.nodes@.len() implies #[trigger] curve.nodes@[i].x
            < #[trigger] curve.nodes@[j].x by {
            if i == moved {
                assert(before[moved + 1].x <= before[j].x);
            } else if j == moved {
                assert(before[i].x <= before[moved - 1].x);
            } else {
                assert(before[i].x < before[j].x);
            }
        }
        assert forall|i: int| 0 <= i < curve.nodes@.len() implies #[trigger] curve.nodes@[i].y <= UNIT by {
            if i != moved {
                assert(before[i].y <= UNIT);
            }
        }
    }
    enforce_wrapped_curve_endpoints(curve);
    moved
}

} // verus!

verus! {

/// The numerator of the segment shape at offset `p` into a span of width
/// `dx`: the shape is `u - t·u·(1 - u)` for `u = p / dx`, scaled by
/// `dx²·UNIT` (with the tension `t` in `UNIT`s).
pub open spec fn spec_shape_numerator(p: int, dx: int, tension: int) -> int {
    p * dx * (UNIT as int) - tension * p * (dx - p)
}

/// The gain of the segment from `left` to `right` with `tension` at phase `x`.
///
/// The segment rises (or falls) from `left.y` to `right.y` along
/// `u - t·u·(1 - u)`, where `u` is the fraction of the span covered at `x`
/// and `t` the tension in `UNIT`s: zero tension is the straight line, a
/// negative one bows towards `right.y` early, a positive one late. The step
/// from `left.y` is rounded towards `left.y`. Left of the span (or on a span
/// of no width) the gain is `left.y`, right of it `right.y`.
pub open spec fn spec_sample_segment(left: CurveNode, right: CurveNode, tension: int, x: int) -> int {
    if x <= left.x || right.x <= left.x {
        left.y as int
    } else if x >= right.x {
        right.y as int
    } else {
        let dx = right.x - left.x;
        let s = spec_shape_numerator(x - left.x, dx, tension);
        let d = dx * dx * (UNIT as int);
        if right.y >= left.y {
            left.y + (right.y - left.y) * s / d
        } else {
            left.y - (left.y - right.y) * s / d
        }
    }
}

/// Within the span the shape numerator lies between 0 and `dx²·UNIT`.
proof fn lemma_shape_numerator_bounds(p: int, dx: int, tension: int)
    requires
        0 < p < dx,
        -(UNIT as int) <= tension <= UNIT,
    ensures
        0 <= spec_shape_numerator(p, dx, tension) <= dx * dx * (UNIT as int),
{
    let q = dx - p;
    let b = p * q;
    let pp = p * p;
    let qq = q * q;
    assert(spec_shape_numerator(p, dx, tension) == p * dx * 1000000 - tension * b) by (nonlinear_arith)
        requires
            q == dx - p,
            b == p * q,
    ;
    assert(p * dx == b + pp) by (nonlinear_arith)
        requires
            q == dx - p,
            b == p * q,
            pp == p * p,
    ;
    assert(dx * dx == b + b + pp + qq) by (nonlinear_arith)
        requires
            q == dx - p,
            b == p * q,
            pp == p * p,
            qq == q * q,
    ;
    assert(b > 0 && pp > 0 && qq > 0) by (nonlinear_arith)
        requires
            p > 0,
            q > 0,
            b == p * q,
            pp == p * p,
            qq == q * q,
    ;
    assert(-1000000 * b <= tension * b <= 1000000 * b) by (nonlinear_arith)
        requires
            -1000000 <= tension <= 1000000,
            b > 0,
    ;
    assert(p * dx * 1000000 == (b + pp) * 1000000) by (nonlinear_arith)
        requires
            p * dx == b + pp,
    ;
    assert(dx * dx * 1000000 == (b + b + pp + qq) * 1000000) by (nonlinear_arith)
        requires
            dx * dx == b + b + pp + qq,
    ;
}

/// For `0 <= s <= d` the scaled step `a·s/d` lies between 0 and `a`.
proof fn lemma_scaled_step(a: int, s: int, d: int)
    requires
        0 <= a,
        0 <= s <= d,
        0 < d,
    ensures
        0 <= a * s / d <= a,
{
    assert(0 <= a * s <= a * d) by (nonlinear_arith)
        requires
            0 <= a,
            0 <= s <= d,
    ;
    vstd::arithmetic::div_mod::lemma_div_is_ordered(a * s, a * d, d);
    vstd::arithmetic::div_mod::lemma_div_multiples_vanish(a, d);
    vstd::arithmetic::div_mod::lemma_div_pos_is_pos(a * s, d);
    assert(a * d == d * a) by (nonlinear_arith);
}

/// The gain of the segment from `left` to `right` with `tension` at phase `x`
/// (see `spec_sample_segment`); it always lies between `left.y` and `right.y`.
pub fn sample_curve_segment(left: CurveNode, right: CurveNode, tension: i32, x: u32) -> (y: u32)
    requires
        MIN_SEGMENT_TENSION <= tension <= MAX_SEGMENT_TENSION,
    ensures
        y == spec_sample_segment(left, right, tension as int, x as int),
        spec_min_u32(left.y as int, right.y as int) <= y,
        y <= left.y || y <= right.y,
{
    if x <= left.x || right.x <= left.x {
        return left.y;
    }
    if x >= right.x {
        return right.y;
    }
    let dx: u32 = right.x - left.x;
    let p: u32 = x - left.x;
    let ghost s_spec = spec_shape_numerator(p as int, dx as int, tension as int);
    proof {
        lemma_shape_numerator_bounds(p as int, dx as int, tension as int);
        assert(0 <= (p as int) * (dx as int) <= 0xffff_ffff * 0xffff_ffff) by (nonlinear_arith)
            requires
                p <= 0xffff_ffff,
                dx <= 0xffff_ffff,
        ;
        assert(0 <= (p as int) * ((dx - p) as int) <= 0xffff_ffff * 0xffff_ffff) by (nonlinear_arith)
            requires
                p <= 0xffff_ffff,
                0 <= dx - p <= 0xffff_ffff,
        ;
    }
    let pd: i128 = p as i128 * dx as i128;
    let pq: i128 = p as i128 * (dx - p) as i128;
    proof {
        assert(-(UNIT as int) * pq <= tension * pq <= (UNIT as int) * pq) by (nonlinear_arith)
            requires
                -(UNIT as int) <= tension <= UNIT,
                pq >= 0,
        ;
        assert((UNIT as int) * pq <= (UNIT as int) * (0xffff_ffff * 0xffff_ffff)) by (nonlinear_arith)
            requires
                pq <= 0xffff_ffff * 0xffff_ffff,
        ;
        assert((UNIT as int) * pd <= (UNIT as int) * (0xffff_ffff * 0xffff_ffff)) by (nonlinear_arith)
            requires
                pd <= 0xffff_ffff * 0xffff_ffff,
        ;
        assert(pd * (UNIT as int) == (p as int) * (dx as int) * (UNIT as int)) by (nonlinear_arith)
            requires
                pd == (p as int) * (dx as int),
        ;
        assert(tension * pq == (tension as int) * (p as int) * ((dx - p) as int)) by (nonlinear_arith)
            requires
                pq == (p as int) * ((dx - p) as int),
        ;
    }
    let s: i128 = pd * (UNIT as i128) - tension as i128 * pq;
    assert(s == s_spec);
    proof {
        assert(0 < (dx as int) * (dx as int) <= 0xffff_ffff * 0xffff_ffff) by (nonlinear_arith)
            requires
                0 < dx <= 0xffff_ffff,
        ;
    }
    let dd: i128 = dx as i128 * dx as i128;
    proof {
        assert(0 < dd <= 0xffff_ffff * 0xffff_ffff) by (nonlinear_arith)
            requires
                dd == (dx as int) * (dx as int),
                0 < dx <= 0xffff_ffff,
        ;
        assert(dd * (UNIT as int) <= (UNIT as int) * (0xffff_ffff * 0xffff_ffff)) by (nonlinear_arith)
            requires
                dd <= 0xffff_ffff * 0xffff_ffff,
        ;
        assert(dd * (UNIT as int) == (dx as int) * (dx as int) * (UNIT as int)) by (nonlinear_arith)
            requires
                dd == (dx as int) * (dx as int),
        ;
    }
    let d: i128 = dd * (UNIT as i128);
    let up = right.y >= left.y;
    let a: i128 = if up { (right.y - left.y) as i128 } else { (left.y - right.y) as i128 };
    proof {
        assert(0 <= a * s <= a * d) by (nonlinear_arith)
            requires
                0 <= a <= 0xffff_ffff,
                0 <= s <= d,
        ;
        assert(a * d <= 0xffff_ffff * ((UNIT as int) * (0xffff_ffff * 0xffff_ffff))) by (nonlinear_arith)
            requires
                0 <= a <= 0xffff_ffff,
                d <= (UNIT as int) * (0xffff_ffff * 0xffff_ffff),
        ;
        lemma_scaled_step(a as int, s as int, d as int);
    }
    let step: i128 = (a * s) / d;
    if up {
        (left.y as i128 + step) as u32
    } else {
        (left.y as i128 - step) as u32
    }
}

} // verus!

verus! {

/// The segment that covers phase `x`, searching from segment `i`: the first
/// whose right node is not left of `x`, or the last segment.
pub open spec fn spec_segment_at(nodes: Seq<CurveNode>, x: int, i: int) -> int
    decreases nodes.len() - i,
{
    if i < 0 || i + 2 >= nodes.len() || nodes[i + 1].x >= x {
        i
    } else {
        spec_segment_at(nodes, x, i + 1)
    }
}

/// The gain of the curve at phase `x`: the gain of the segment covering `x`.
pub open spec fn spec_sample_curve(nodes: Seq<CurveNode>, segments: Seq<CurveSegment>, x: int) -> int {
    let i = spec_segment_at(nodes, x, 0);
    spec_sample_segment(nodes[i], nodes[i + 1], segments[i].tension as int, x)
}

/// The gain of the curve at phase `x` (see `spec_sample_curve`).
pub fn sample_editable_curve(curve: &EditableCurve, x: u32) -> (y: u32)
    requires
        curve.wf(),
    ensures
        y == spec_sample_curve(curve.nodes@, curve.segments@, x as int),
        y <= UNIT,
{
    let n = curve.nodes.len();
    let mut i: usize = 0;
    while i + 2 < n && curve.nodes[i + 1].x < x
        invariant
            0 <= i,
            i + 2 <= n,
            n == curve.nodes@.len(),
            spec_segment_at(curve.nodes@, x as int, i as int) == spec_segment_at(curve.nodes@, x as int, 0),
        decreases n - i,
    {
        i = i + 1;
    }
    let left = curve.nodes[i];
    let right = curve.nodes[i + 1];
    assert(left.y <= UNIT && right.y <= UNIT);
    sample_curve_segment(left, right, curve.segments[i].tension, x)
}

} // verus!

verus! {

/// Deleting the node an insertion created gives back the curve as it was
/// before the insertion.
pub proof fn law_delete_after_insert_restores_curve(
    nodes: Seq<CurveNode>,
    segments: Seq<CurveSegment>,
    node: CurveNode,
)
    requires
        nodes_wf(nodes),
        segments_wf(segments, nodes.len() as int),
        spec_insert_node(nodes, segments, node) is Some,
    ensures
        ({
            let (n1, s1, at) = spec_insert_node(nodes, segments, node)->0;
            spec_delete_node(n1, s1, at) == (nodes, segments)
        }),
{
    let (n1, s1, at) = spec_insert_node(nodes, segments, node)->0;
    assert(n1.remove(at) =~= nodes);
    assert(s1.remove(at - 1) =~= segments);
}

} // verus!

verus! {

/// Removing interior node `k` of a normalized curve drops that node and
/// merges the two segments around it into one whose tension lies between
/// theirs, at their midpoint rounded down (two equal tensions merge to that
/// same tension); every other node and segment keeps its order.
pub proof fn law_remove_interior_merges_between_neighbours(
    nodes: Seq<CurveNode>,
    segments: Seq<CurveSegment>,
    k: int,
)
    requires
        nodes_wf(nodes),
        segments_wf(segments, nodes.len() as int),
        0 < k < nodes.len() - 1,
    ensures
        ({
            let (n2, s2) = spec_remove_interior(nodes, segments, k);
            let lt = segments[k - 1].tension;
            let rt = segments[k].tension;
            &&& n2.len() == nodes.len() - 1
            &&& forall|j: int| 0 <= j < k ==> n2[j] == nodes[j]
            &&& forall|j: int| k <= j < n2.len() ==> n2[j] == nodes[j + 1]
            &&& s2.len() == segments.len() - 1
            &&& forall|j: int| 0 <= j < k - 1 ==> s2[j] == segments[j]
            &&& forall|j: int| k <= j < s2.len() ==> s2[j] == segments[j + 1]
            &&& lt <= rt ==> lt <= s2[k - 1].tension <= rt
            &&& rt <= lt ==> rt <= s2[k - 1].tension <= lt
            &&& lt + rt - 1 <= 2 * s2[k - 1].tension <= lt + rt
        }),
{
    let sl = segments.len() as int;
    let lt = segments[k - 1].tension as int;
    let rt = segments[k].tension as int;
    assert(MIN_SEGMENT_TENSION <= segments[k - 1].tension <= MAX_SEGMENT_TENSION);
    assert(MIN_SEGMENT_TENSION <= segments[k].tension <= MAX_SEGMENT_TENSION);
    let h = (lt + rt) / 2;
    assert(lt <= rt ==> lt <= h <= rt);
    assert(rt <= lt ==> rt <= h <= lt);
    assert(spec_clamp_tension(h) == h);
    let (n2, s2) = spec_remove_interior(nodes, segments, k);
    assert(s2 == segments.remove(k).update(k - 1, CurveSegment { tension: h as i32 }));
}

/// Inserting a node into a normalized curve puts it strictly between two
/// neighbours, with its gain limited to `UNIT` and its x kept where it leaves
/// room; the segment it splits becomes two segments that both keep that
/// segment's tension; every other node and segment keeps its order.
pub proof fn law_insert_splits_segment_keeping_its_tension(
    nodes: Seq<CurveNode>,
    segments: Seq<CurveSegment>,
    node: CurveNode,
)
    requires
        nodes_wf(nodes),
        segments_wf(segments, nodes.len() as int),
        spec_insert_node(nodes, segments, node) is Some,
    ensures
        ({
            let (n2, s2, at) = spec_insert_node(nodes, segments, node)->0;
            &&& 1 <= at < nodes.len()
            &&& n2.len() == nodes.len() + 1
            &&& s2.len() == segments.len() + 1
            &&& nodes[at - 1].x < n2[at].x < nodes[at].x
            &&& n2[at].y == if node.y <= UNIT { node.y } else { UNIT }
            &&& (nodes[at - 1].x + CURVE_NODE_MIN_SPACING_X <= node.x <= nodes[at].x - CURVE_NODE_MIN_SPACING_X
                ==> n2[at].x == node.x)
            &&& forall|j: int| 0 <= j < at ==> n2[j] == nodes[j]
            &&& forall|j: int| at < j < n2.len() ==> n2[j] == nodes[j - 1]
            &&& s2[at - 1] == segments[at - 1]
            &&& s2[at] == segments[at - 1]
            &&& forall|j: int| 0 <= j < at - 1 ==> s2[j] == segments[j]
            &&& forall|j: int| at < j < s2.len() ==> s2[j] == segments[j - 1]
        }),
{
}

/// Pushing through to the left removes only interior nodes left of `m`,
/// nearest first: the node at `m` moves to the returned index, the nodes
/// before it and from it on keep their order, and no interior neighbour on
/// its left is still passed by more than `threshold`.
proof fn lemma_push_left(nodes: Seq<CurveNode>, segments: Seq<CurveSegment>, m: int, target_x: int, threshold: int)
    requires
        0 < m < nodes.len() - 1,
    ensures
        ({
            let (n2, s2, m2) = spec_push_left(nodes, segments, m, target_x, threshold);
            &&& 1 <= m2 <= m
            &&& n2.len() == nodes.len() - (m - m2)
            &&& forall|j: int| 0 <= j < m2 ==> n2[j] == nodes[j]
            &&& forall|j: int| m2 <= j < n2.len() ==> n2[j] == nodes[j + (m - m2)]
            &&& m2 > 1 ==> n2[m2 - 1].x <= target_x + threshold
            &&& (1 < m && target_x + threshold < nodes[m - 1].x) ==> m2 < m
            &&& forall|j: int| m2 <= j < m ==> target_x + threshold < #[trigger] nodes[j].x
        }),
    decreases m,
{
    if 1 < m && target_x + threshold < nodes[m - 1].x {
        let (n1, s1) = spec_remove_interior(nodes, segments, m - 1);
        assert(n1 == nodes.remove(m - 1));
        lemma_push_left(n1, s1, m - 1, target_x, threshold);
        let (n2, s2, m2) = spec_push_left(n1, s1, m - 1, target_x, threshold);
        assert forall|j: int| m2 <= j < m implies target_x + threshold < #[trigger] nodes[j].x by {
            if j < m - 1 {
                assert(n1[j] == nodes[j]);
            }
        }
        assert forall|j: int| m2 <= j < n2.len() implies n2[j] == nodes[j + (m - m2)] by {
            assert(n2[j] == n1[j + (m - 1 - m2)]);
        }
    }
}

/// Pushing through to the right removes only interior nodes right of `m`,
/// nearest first: the nodes up to `m` stay, the rest keep their order, and
/// no interior neighbour on its right is still passed by more than
/// `threshold`.
proof fn lemma_push_right(nodes: Seq<CurveNode>, segments: Seq<CurveSegment>, m: int, target_x: int, threshold: int)
    requires
        0 < m < nodes.len() - 1,
    ensures
        ({
            let (n2, s2) = spec_push_right(nodes, segments, m, target_x, threshold);
            let gone = nodes.len() - n2.len();
            &&& 0 <= gone
            &&& m < n2.len() - 1
            &&& forall|j: int| 0 <= j <= m ==> n2[j] == nodes[j]
            &&& forall|j: int| m < j < n2.len() ==> n2[j] == nodes[j + gone]
            &&& m + 1 < n2.len() - 1 ==> target_x <= n2[m + 1].x + threshold
            &&& (m + 1 < nodes.len() - 1 && target_x > nodes[m + 1].x + threshold) ==> gone > 0
            &&& forall|j: int| m < j <= m + gone ==> target_x > #[trigger] nodes[j].x + threshold
        }),
    decreases nodes.len(),
{
    if 0 <= m && m + 1 < nodes.len() - 1 && target_x > nodes[m + 1].x + threshold {
        let (n1, s1) = spec_remove_interior(nodes, segments, m + 1);
        assert(n1 == nodes.remove(m + 1));
        lemma_push_right(n1, s1, m, target_x, threshold);
        let (n2, s2) = spec_push_right(n1, s1, m, target_x, threshold);
        let gone1 = n1.len() - n2.len();
        assert forall|j: int| m < j <= m + gone1 + 1 implies target_x > #[trigger] nodes[j].x + threshold by {
            if j > m + 1 {
                assert(n1[j - 1] == nodes[j]);
            }
        }
        assert forall|j: int| m < j < n2.len() implies n2[j] == nodes[j + (gone1 + 1)] by {
            assert(n2[j] == n1[j + gone1]);
        }
    }
}

/// Dragging interior node `index` of a normalized curve pushes through every
/// interior neighbour it passes by more than the threshold, and only those:
/// passing the left neighbour (of an index above 1) removes it, so the curve
/// loses a node and the dragged node's index drops; passing the right
/// neighbour removes it and keeps the index; passing neither removes nothing.
/// Every removed node was passed by more than the threshold, and afterwards
/// no interior neighbour of the dragged node still is.
#[verifier::spinoff_prover]
#[verifier::rlimit(40)]
pub proof fn law_push_through_removes_passed_neighbours(
    nodes: Seq<CurveNode>,
    segments: Seq<CurveSegment>,
    index: int,
    target: CurveNode,
    threshold: int,
)
    requires
        nodes_wf(nodes),
        segments_wf(segments, nodes.len() as int),
        0 < index < nodes.len() - 1,
        0 <= threshold,
    ensures
        ({
            let (n2, s2, m) = spec_move_with_push_through(nodes, segments, index, target, threshold);
            let tx = target.x as int;
            &&& 1 <= m <= index
            &&& (1 < index && tx + threshold < nodes[index - 1].x) ==> n2.len() < nodes.len() && m < index
            &&& (index + 1 < nodes.len() - 1 && tx > nodes[index + 1].x + threshold) ==> n2.len() < nodes.len()
                && m == index
            &&& (tx + threshold >= nodes[index - 1].x && tx <= nodes[index + 1].x + threshold) ==> n2.len()
                == nodes.len() && m == index
            &&& 1 < m ==> n2[m - 1].x <= tx + threshold
            &&& m + 1 < n2.len() - 1 ==> tx <= n2[m + 1].x + threshold
            &&& forall|j: int| m <= j < index ==> tx + threshold < #[trigger] nodes[j].x
            &&& forall|j: int| index < j <= index + (nodes.len() - n2.len() - (index - m)) ==> tx > #[trigger] nodes[j].x
                + threshold
        }),
{
    let tx = target.x as int;
    lemma_push_right(nodes, segments, index, tx, threshold);
    let (n1, s1) = spec_push_right(nodes, segments, index, tx, threshold);
    lemma_push_left(n1, s1, index, tx, threshold);
    let (n2, s2, m) = spec_push_left(n1, s1, index, tx, threshold);
    assert(nodes[index - 1].x < nodes[index + 1].x);
    if tx + threshold < nodes[index - 1].x {
        assert(n1 == nodes);
    }
    if tx > nodes[index + 1].x + threshold {
        assert(n1[index - 1] == nodes[index - 1]);
        assert(m == index);
    }
    if tx + threshold >= nodes[index - 1].x && tx <= nodes[index + 1].x + threshold {
        assert(n1 == nodes);
        assert(m == index);
    }
    if m + 1 < n2.len() - 1 {
        assert(n2[m + 1] == n1[m + 1 + (index - m)]);
    }
}

} // verus!
