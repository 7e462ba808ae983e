use vstd::prelude::*;
use crate::editor::CurveSnapshot;
use crate::curve::{
    nodes_wf, segments_wf, sample_curve_segment, set_wrapped_curve_endpoint_y, spec_with_endpoint_y, spec_min_u32, spec_sample_segment, CurveNode, CurveSegment, EditableCurve,
    MAX_EDITABLE_NODES, MAX_SEGMENT_TENSION, MIN_SEGMENT_TENSION, UNIT,
};

verus! {

/// Largest gain error a fitted segment may leave at any painted sample before
/// the span is split (2.0e-3 of the gain range), at the finest fit level (see
/// `fit_tolerance`).
pub const PAINT_FIT_TOLERANCE: u64 = 2_000;

/// Spacing of the tensions tried when a segment is fitted (0.01).
pub const PAINT_TENSION_STEP: i32 = 10_000;

/// Number of tension steps above `MIN_SEGMENT_TENSION` that are tried, so the
/// whole tension range is covered.
pub const PAINT_TENSION_CANDIDATES: i32 = 200;

/// Most samples one stroke records; later ones are dropped and the stroke is
/// marked truncated.
pub const MAX_PAINT_SAMPLES: usize = 128;

/// A position in the paint area, in the curve's fixed-point units.
#[derive(Clone, Copy, Debug, PartialEq, Eq, Structural)]
pub struct RectPoint {
    pub x: u32,
    pub y: u32,
}

/// The rectangle in which painting is observed.
#[derive(Clone, Copy, Debug, PartialEq, Eq, Structural)]
pub struct RectBounds {
    pub min: RectPoint,
    pub max: RectPoint,
}

/// One pointer sample of a paint gesture: the curve node under the pointer,
/// where it was drawn, and whether the pointer had left the paint area.
#[derive(Clone, Copy, Debug, PartialEq, Eq, Structural)]
pub struct CurvePaintSample {
    pub node: CurveNode,
    pub display_position: RectPoint,
    pub outside: bool,
}

impl CurvePaintSample {
    /// The position the sample was drawn at.
    pub fn raw_position(self) -> (position: RectPoint)
        ensures
            position == self.display_position,
    {
        self.display_position
    }
}

/// The samples of one uninterrupted stretch of a stroke, in the order they
/// were observed.
#[derive(Clone, Debug)]
pub struct PaintRun {
    pub points: Vec<RectPoint>,
}

impl PaintRun {
    pub fn points(&self) -> (points: &[RectPoint])
        ensures
            points@ == self.points@,
    {
        self.points.as_slice()
    }
}

pub open spec fn inside(bounds: RectBounds, p: RectPoint) -> bool {
    bounds.min.x <= p.x <= bounds.max.x && bounds.min.y <= p.y <= bounds.max.y
}

pub open spec fn clamp_u32(v: u32, lo: u32, hi: u32) -> u32 {
    if v < lo {
        lo
    } else if v > hi {
        hi
    } else {
        v
    }
}

/// `p` moved onto the nearest position of `bounds`.
pub open spec fn clamp_into(bounds: RectBounds, p: RectPoint) -> RectPoint {
    RectPoint { x: clamp_u32(p.x, bounds.min.x, bounds.max.x), y: clamp_u32(p.y, bounds.min.y, bounds.max.y) }
}

/// Records a paint stroke as runs of samples: each run starts when the pointer
/// is inside the paint area and ends at the first sample outside it, which is
/// kept, moved onto the area's boundary. While the pointer is outside,
/// `boundary_contact` is where it was last seen, moved onto the boundary; a run
/// that starts on re-entry starts there, so that no stretch of the stroke is
/// left out.
#[derive(Clone, Debug)]
pub struct StrokeRecorder {
    pub bounds: RectBounds,
    pub runs: Vec<PaintRun>,
    pub open: bool,
    pub samples: usize,
    pub truncated: bool,
    pub boundary_contact: Option<RectPoint>,
}

/// The run that a sample at `point` starts: from the boundary contact, when
/// there is one apart from `point`, to `point`.
pub open spec fn spec_entry_run(contact: Option<RectPoint>, point: RectPoint) -> Seq<RectPoint> {
    match contact {
        Some(b) => if b != point {
            seq![b, point]
        } else {
            seq![point]
        },
        None => seq![point],
    }
}

/// The samples of each run.
pub open spec fn run_points(runs: Seq<PaintRun>) -> Seq<Seq<RectPoint>> {
    runs.map_values(|r: PaintRun| r.points@)
}

impl StrokeRecorder {
    /// An open run always exists, and the sample count stays within
    /// `MAX_PAINT_SAMPLES`.
    pub open spec fn wf(&self) -> bool {
        &&& self.open ==> self.runs@.len() > 0 && self.boundary_contact is None
        &&& self.samples <= MAX_PAINT_SAMPLES
    }

    /// A recorder with no samples for the area `bounds`.
    pub fn new(bounds: RectBounds) -> (recorder: StrokeRecorder)
        ensures
            recorder.wf(),
            recorder.bounds == bounds,
            recorder.runs@.len() == 0,
            !recorder.open,
            recorder.samples == 0,
            !recorder.truncated,
            recorder.boundary_contact is None,
    {
        StrokeRecorder { bounds, runs: Vec::new(), open: false, samples: 0, truncated: false, boundary_contact: None }
    }

    /// Observe the pointer at `point`.
    ///
    /// Once `MAX_PAINT_SAMPLES` samples are recorded, further ones are dropped
    /// and the recorder is marked truncated. A sample inside the area extends
    /// the open run or starts a new one (from the boundary contact, see
    /// `spec_entry_run`); a sample outside it ends the open run with the
    /// sample moved onto the boundary (see `observe_outside`).
    pub fn observe(&mut self, point: RectPoint)
        requires
            old(self).wf(),
        ensures
            final(self).wf(),
            spec_observed(*old(self), *final(self), point),
    {
        if self.samples >= MAX_PAINT_SAMPLES {
            self.truncated = true;
            return;
        }
        self.samples = self.samples + 1;
        let b = self.bounds;
        if b.min.x <= point.x && point.x <= b.max.x && b.min.y <= point.y && point.y <= b.max.y {
            if self.open {
                self.append_to_open_run(point);
            } else {
                let mut points: Vec<RectPoint> = Vec::new();
                match self.boundary_contact {
                    Some(contact) => {
                        if contact != point {
                            points.push(contact);
                        }
                    },
                    None => {},
                }
                points.push(point);
                assert(points@ =~= spec_entry_run(old(self).boundary_contact, point));
                self.runs.push(PaintRun { points });
                self.open = true;
                self.boundary_contact = None;
                proof {
                    assert(run_points(self.runs@) =~= run_points(old(self).runs@).push(
                        spec_entry_run(old(self).boundary_contact, point),
                    ));
                }
            }
        } else {
            self.close_at(point);
        }
    }

    /// Observe the pointer outside the area at `point`: it ends the open run,
    /// if any, with the sample moved onto the boundary (see `spec_close`).
    pub fn observe_outside(&mut self, point: RectPoint)
        requires
            old(self).wf(),
        ensures
            final(self).wf(),
            spec_observed_outside(*old(self), *final(self), point),
    {
        if self.samples >= MAX_PAINT_SAMPLES {
            self.truncated = true;
            return;
        }
        self.samples = self.samples + 1;
        self.close_at(point);
    }

    fn append_to_open_run(&mut self, point: RectPoint)
        requires
            old(self).wf(),
            old(self).open,
        ensures
            final(self).bounds == old(self).bounds,
            final(self).open == old(self).open,
            final(self).samples == old(self).samples,
            final(self).truncated == old(self).truncated,
            final(self).boundary_contact == old(self).boundary_contact,
            final(self).runs@.len() == old(self).runs@.len(),
            ({
                let old_runs = run_points(old(self).runs@);
                run_points(final(self).runs@) == old_runs.update(old_runs.len() - 1, old_runs.last().push(point))
            }),
    {
        let last = self.runs.len() - 1;
        let mut run = self.runs.remove(last);
        run.points.push(point);
        self.runs.push(run);
        proof {
            let old_runs = run_points(old(self).runs@);
            assert(run_points(self.runs@) =~= old_runs.update(old_runs.len() - 1, old_runs.last().push(point)));
        }
    }

    fn close_at(&mut self, point: RectPoint)
        requires
            old(self).wf(),
        ensures
            final(self).wf(),
            final(self).bounds == old(self).bounds,
            final(self).samples == old(self).samples,
            final(self).truncated == old(self).truncated,
            spec_close(*old(self), *final(self), point),
    {
        let b = self.bounds;
        let x: u32 = if point.x < b.min.x { b.min.x } else if point.x > b.max.x { b.max.x } else { point.x };
        let y: u32 = if point.y < b.min.y { b.min.y } else if point.y > b.max.y { b.max.y } else { point.y };
        if self.open {
            self.append_to_open_run(RectPoint { x, y });
            self.open = false;
        }
        self.boundary_contact = Some(RectPoint { x, y });
    }

    /// Whether samples were dropped because the stroke grew too long.
    pub fn is_truncated(&self) -> (r: bool)
        ensures
            r == self.truncated,
    {
        self.truncated
    }

    /// The runs recorded so far.
    pub fn runs(&self) -> (runs: &[PaintRun])
        ensures
            runs@ == self.runs@,
    {
        self.runs.as_slice()
    }
}

/// The recorder after observing the pointer at `point` (see `observe`).
pub open spec fn spec_observed(before: StrokeRecorder, after: StrokeRecorder, point: RectPoint) -> bool {
    &&& after.bounds == before.bounds
    &&& before.samples >= MAX_PAINT_SAMPLES ==> {
        &&& run_points(after.runs@) == run_points(before.runs@)
        &&& after.truncated
        &&& after.open == before.open
        &&& after.samples == before.samples
        &&& after.boundary_contact == before.boundary_contact
    }
    &&& before.samples < MAX_PAINT_SAMPLES ==> {
        &&& after.samples == before.samples + 1
        &&& after.truncated == before.truncated
        &&& if inside(before.bounds, point) {
            &&& after.open
            &&& after.boundary_contact is None
            &&& if before.open {
                let old_runs = run_points(before.runs@);
                run_points(after.runs@) == old_runs.update(old_runs.len() - 1, old_runs.last().push(point))
            } else {
                run_points(after.runs@) == run_points(before.runs@).push(
                    spec_entry_run(before.boundary_contact, point),
                )
            }
        } else {
            spec_close(before, after, point)
        }
    }
}

/// The recorder after observing the pointer outside the area at `point` (see
/// `observe_outside`).
pub open spec fn spec_observed_outside(before: StrokeRecorder, after: StrokeRecorder, point: RectPoint) -> bool {
    &&& after.bounds == before.bounds
    &&& before.samples >= MAX_PAINT_SAMPLES ==> {
        &&& run_points(after.runs@) == run_points(before.runs@)
        &&& after.truncated
        &&& after.open == before.open
        &&& after.samples == before.samples
        &&& after.boundary_contact == before.boundary_contact
    }
    &&& before.samples < MAX_PAINT_SAMPLES ==> {
        &&& after.samples == before.samples + 1
        &&& after.truncated == before.truncated
        &&& spec_close(before, after, point)
    }
}

/// `after` is `before` with its open run, if any, ended by `point` moved onto
/// the boundary; with no open run the runs are unchanged. No run is open
/// afterwards, and the boundary contact is that moved point.
pub open spec fn spec_close(before: StrokeRecorder, after: StrokeRecorder, point: RectPoint) -> bool {
    let old_runs = run_points(before.runs@);
    &&& !after.open
    &&& after.boundary_contact == Some(clamp_into(before.bounds, point))
    &&& if before.open {
        run_points(after.runs@) == old_runs.update(
            old_runs.len() - 1,
            old_runs.last().push(clamp_into(before.bounds, point)),
        )
    } else {
        run_points(after.runs@) == old_runs
    }
}

} // verus!

verus! {

/// A paint position read as a curve node.
pub open spec fn as_node(p: RectPoint) -> CurveNode {
    CurveNode { x: p.x, y: p.y }
}

pub open spec fn abs_diff(a: int, b: int) -> int {
    if a >= b {
        a - b
    } else {
        b - a
    }
}

/// How far sample `k` lies from the segment joining samples `lo` and `hi`
/// with tension `t`.
pub open spec fn point_error(pts: Seq<RectPoint>, lo: int, hi: int, t: int, k: int) -> int {
    abs_diff(pts[k].y as int, spec_sample_segment(as_node(pts[lo]), as_node(pts[hi]), t, pts[k].x as int))
}

/// The largest error among the first `m` samples after `lo`, and the first
/// sample with that error (`(0, lo)` when none exceeds 0).
pub open spec fn error_scan(pts: Seq<RectPoint>, lo: int, hi: int, t: int, m: int) -> (int, int)
    decreases m,
{
    if m <= 0 {
        (0, lo)
    } else {
        let (e, i) = error_scan(pts, lo, hi, t, m - 1);
        let k = lo + m;
        let ek = point_error(pts, lo, hi, t, k);
        if ek > e {
            (ek, k)
        } else {
            (e, i)
        }
    }
}

/// The largest error of the samples strictly between `lo` and `hi` against
/// the segment joining them with tension `t`, and where it first occurs.
pub open spec fn fit_error(pts: Seq<RectPoint>, lo: int, hi: int, t: int) -> (int, int) {
    error_scan(pts, lo, hi, t, hi - lo - 1)
}

/// The `c`-th tension tried.
pub open spec fn candidate_tension(c: int) -> int {
    MIN_SEGMENT_TENSION + c * PAINT_TENSION_STEP
}

/// Among the first `c + 1` tensions tried, the first with the least fit error,
/// with that error.
pub open spec fn tension_scan(pts: Seq<RectPoint>, lo: int, hi: int, c: int) -> (int, int)
    decreases c,
{
    if c <= 0 {
        (candidate_tension(0), fit_error(pts, lo, hi, candidate_tension(0)).0)
    } else {
        let (bt, be) = tension_scan(pts, lo, hi, c - 1);
        let t = candidate_tension(c);
        let e = fit_error(pts, lo, hi, t).0;
        if e < be {
            (t, e)
        } else {
            (bt, be)
        }
    }
}

/// The tension that fits the samples between `lo` and `hi` best, and its error.
pub open spec fn best_tension(pts: Seq<RectPoint>, lo: int, hi: int) -> (int, int) {
    tension_scan(pts, lo, hi, PAINT_TENSION_CANDIDATES as int)
}

/// The nodes (after sample `lo`) and segment tensions that reproduce samples
/// `lo..=hi` to within `tol`.
///
/// Two neighbouring samples are joined by a straight segment. Otherwise the
/// best-fitting single segment is kept when no sample lies more than `tol`
/// from it; else the span is split at the sample that lies farthest from it
/// and each half is fitted the same way.
pub open spec fn spec_fit(pts: Seq<RectPoint>, lo: int, hi: int, tol: int) -> Seq<(RectPoint, i32)>
    decreases hi - lo,
{
    if hi - lo <= 1 {
        seq![(pts[hi], 0i32)]
    } else {
        let (t, e) = best_tension(pts, lo, hi);
        let s = fit_error(pts, lo, hi, t).1;
        if e <= tol || !(lo < s < hi) {
            seq![(pts[hi], t as i32)]
        } else {
            spec_fit(pts, lo, s, tol) + spec_fit(pts, s, hi, tol)
        }
    }
}

/// Samples usable for fitting: strictly increasing in x, within the unit
/// square.
pub open spec fn piece_ok(pts: Seq<RectPoint>) -> bool {
    &&& forall|i: int| 0 <= i < pts.len() ==> #[trigger] pts[i].x <= UNIT && pts[i].y <= UNIT
    &&& forall|i: int, j: int| 0 <= i < j < pts.len() ==> #[trigger] pts[i].x < #[trigger] pts[j].x
}

proof fn lemma_error_scan_index(pts: Seq<RectPoint>, lo: int, hi: int, t: int, m: int)
    requires
        m >= 0,
    ensures
        error_scan(pts, lo, hi, t, m).0 >= 0,
        error_scan(pts, lo, hi, t, m).0 > 0 ==> lo < error_scan(pts, lo, hi, t, m).1 <= lo + m,
    decreases m,
{
    if m > 0 {
        lemma_error_scan_index(pts, lo, hi, t, m - 1);
    }
}

proof fn lemma_tension_scan_range(pts: Seq<RectPoint>, lo: int, hi: int, c: int)
    requires
        0 <= c <= PAINT_TENSION_CANDIDATES,
    ensures
        MIN_SEGMENT_TENSION <= tension_scan(pts, lo, hi, c).0 <= MAX_SEGMENT_TENSION,
    decreases c,
{
    if c > 0 {
        lemma_tension_scan_range(pts, lo, hi, c - 1);
    }
}

/// A fit yields nodes strictly increasing in x after sample `lo`, ending at
/// sample `hi`, within the unit square, with tensions in range.
proof fn lemma_fit_shape(pts: Seq<RectPoint>, lo: int, hi: int, tol: int)
    requires
        piece_ok(pts),
        0 <= lo < hi < pts.len(),
    ensures
        ({
            let f = spec_fit(pts, lo, hi, tol);
            &&& 1 <= f.len() <= hi - lo
            &&& f.last().0 == pts[hi]
            &&& forall|k: int| 0 <= k < f.len() ==> pts[lo].x < (#[trigger] f[k]).0.x <= pts[hi].x
            &&& forall|k: int| 0 <= k < f.len() ==> (#[trigger] f[k]).0.y <= UNIT
            &&& forall|k: int|
                0 <= k < f.len() ==> MIN_SEGMENT_TENSION <= (#[trigger] f[k]).1 <= MAX_SEGMENT_TENSION
            &&& forall|a: int, b: int| 0 <= a < b < f.len() ==> (#[trigger] f[a]).0.x < (#[trigger] f[b]).0.x
        }),
    decreases hi - lo,
{
    assert(pts[lo].x < pts[hi].x);
    assert(pts[hi].y <= UNIT);
    if hi - lo > 1 {
        lemma_tension_scan_range(pts, lo, hi, PAINT_TENSION_CANDIDATES as int);
        let (t, e) = best_tension(pts, lo, hi);
        let s = fit_error(pts, lo, hi, t).1;
        if !(e <= tol || !(lo < s < hi)) {
            lemma_fit_shape(pts, lo, s, tol);
            lemma_fit_shape(pts, s, hi, tol);
            let f1 = spec_fit(pts, lo, s, tol);
            let f2 = spec_fit(pts, s, hi, tol);
            let f = f1 + f2;
            assert(pts[lo].x < pts[s].x);
            assert forall|a: int, b: int| 0 <= a < b < f.len() implies (#[trigger] f[a]).0.x < (#[trigger] f[b]).0.x by {
                if b < f1.len() {
                    assert(f1[a].0.x < f1[b].0.x);
                } else if a >= f1.len() {
                    assert(f2[a - f1.len()].0.x < f2[b - f1.len()].0.x);
                } else {
                    assert(f1[a].0.x <= pts[s].x);
                    assert(pts[s].x < f2[b - f1.len()].0.x);
                }
            }
            assert forall|k: int| 0 <= k < f.len() implies pts[lo].x < (#[trigger] f[k]).0.x <= pts[hi].x by {
                if k < f1.len() {
                    assert(f1[k].0.x <= pts[s].x);
                } else {
                    assert(pts[s].x < f2[k - f1.len()].0.x);
                }
            }
            assert forall|k: int| 0 <= k < f.len() implies (#[trigger] f[k]).0.y <= UNIT by {
                if k < f1.len() {
                    assert(f1[k].0.y <= UNIT);
                } else {
                    assert(f2[k - f1.len()].0.y <= UNIT);
                }
            }
            assert forall|k: int| 0 <= k < f.len() implies MIN_SEGMENT_TENSION <= (#[trigger] f[k]).1
                <= MAX_SEGMENT_TENSION by {
                if k < f1.len() {
                    assert(MIN_SEGMENT_TENSION <= f1[k].1 <= MAX_SEGMENT_TENSION);
                } else {
                    assert(MIN_SEGMENT_TENSION <= f2[k - f1.len()].1 <= MAX_SEGMENT_TENSION);
                }
            }
        }
    }
}

/// The fit error of tension `t` over the samples between `lo` and `hi` (see
/// `fit_error`).
fn max_fit_error(pts: &[RectPoint], lo: usize, hi: usize, t: i32) -> (r: (u64, usize))
    requires
        lo < hi < pts@.len(),
        MIN_SEGMENT_TENSION <= t <= MAX_SEGMENT_TENSION,
    ensures
        (r.0 as int, r.1 as int) == fit_error(pts@, lo as int, hi as int, t as int),
{
    let left = CurveNode { x: pts[lo].x, y: pts[lo].y };
    let right = CurveNode { x: pts[hi].x, y: pts[hi].y };
    let mut worst: u64 = 0;
    let mut at: usize = lo;
    let mut k: usize = lo + 1;
    while k < hi
        invariant
            lo < k <= hi,
            hi < pts@.len(),
            MIN_SEGMENT_TENSION <= t <= MAX_SEGMENT_TENSION,
            left == as_node(pts@[lo as int]),
            right == as_node(pts@[hi as int]),
            (worst as int, at as int) == error_scan(pts@, lo as int, hi as int, t as int, k - lo - 1),
        decreases hi - k,
    {
        let y = sample_curve_segment(left, right, t, pts[k].x);
        let py = pts[k].y;
        let e: u64 = if py >= y { (py - y) as u64 } else { (y - py) as u64 };
        assert(e == point_error(pts@, lo as int, hi as int, t as int, k as int));
        if e > worst {
            worst = e;
            at = k;
        }
        k = k + 1;
    }
    (worst, at)
}

/// The best-fitting tension over the samples between `lo` and `hi`, and its
/// error (see `best_tension`).
fn best_fit_tension(pts: &[RectPoint], lo: usize, hi: usize) -> (r: (i32, u64))
    requires
        lo < hi < pts@.len(),
    ensures
        (r.0 as int, r.1 as int) == best_tension(pts@, lo as int, hi as int),
{
    let (first_error, _) = max_fit_error(pts, lo, hi, MIN_SEGMENT_TENSION);
    let mut best_t: i32 = MIN_SEGMENT_TENSION;
    let mut best_e: u64 = first_error;
    let mut c: i32 = 1;
    while c <= PAINT_TENSION_CANDIDATES
        invariant
            1 <= c <= PAINT_TENSION_CANDIDATES + 1,
            lo < hi < pts@.len(),
            (best_t as int, best_e as int) == tension_scan(pts@, lo as int, hi as int, c - 1),
        decreases PAINT_TENSION_CANDIDATES + 1 - c,
    {
        let t: i32 = MIN_SEGMENT_TENSION + c * PAINT_TENSION_STEP;
        let (e, _) = max_fit_error(pts, lo, hi, t);
        if e < best_e {
            best_t = t;
            best_e = e;
        }
        c = c + 1;
    }
    (best_t, best_e)
}

/// Append the fit of samples `lo..=hi` to within `tol` (see `spec_fit`) to
/// `out`.
fn fit_range(pts: &[RectPoint], lo: usize, hi: usize, tol: u64, out: &mut Vec<(RectPoint, i32)>)
    requires
        lo < hi < pts@.len(),
    ensures
        final(out)@ == old(out)@ + spec_fit(pts@, lo as int, hi as int, tol as int),
    decreases hi - lo,
{
    if hi - lo <= 1 {
        out.push((pts[hi], 0));
        return;
    }
    let (t, e) = best_fit_tension(pts, lo, hi);
    proof {
        lemma_tension_scan_range(pts@, lo as int, hi as int, PAINT_TENSION_CANDIDATES as int);
    }
    let (_, s) = max_fit_error(pts, lo, hi, t);
    if e <= tol || !(lo < s && s < hi) {
        out.push((pts[hi], t));
        return;
    }
    fit_range(pts, lo, s, tol, out);
    fit_range(pts, s, hi, tol, out);
    proof {
        assert(final(out)@ =~= old(out)@ + spec_fit(pts@, lo as int, hi as int, tol as int));
    }
}

} // verus!

verus! {

/// The first index from `i` on whose node is not left of `x` (the node count
/// if there is none).
pub open spec fn first_not_below(nodes: Seq<CurveNode>, x: int, i: int) -> int
    decreases nodes.len() - i,
{
    if i < 0 || i >= nodes.len() || nodes[i].x >= x {
        i
    } else {
        first_not_below(nodes, x, i + 1)
    }
}

/// The first index from `i` on whose node is right of `x` (the node count if
/// there is none).
pub open spec fn first_above(nodes: Seq<CurveNode>, x: int, i: int) -> int
    decreases nodes.len() - i,
{
    if i < 0 || i >= nodes.len() || nodes[i].x > x {
        i
    } else {
        first_above(nodes, x, i + 1)
    }
}

/// How many times the fit tolerance may be doubled to make a stroke fit the
/// node limit; the last tolerance exceeds the whole gain range.
pub const PAINT_FIT_LEVELS: u32 = 9;

/// The fit tolerance at level `k`: `PAINT_FIT_TOLERANCE` doubled `k` times.
pub open spec fn fit_tolerance(k: nat) -> int
    decreases k,
{
    if k == 0 {
        PAINT_FIT_TOLERANCE as int
    } else {
        2 * fit_tolerance((k - 1) as nat)
    }
}

proof fn lemma_fit_tolerance_grows(k: nat, j: nat)
    requires
        k <= j,
    ensures
        PAINT_FIT_TOLERANCE <= fit_tolerance(k) <= fit_tolerance(j),
    decreases j,
{
    if j > k {
        lemma_fit_tolerance_grows(k, (j - 1) as nat);
    } else if k > 0 {
        lemma_fit_tolerance_grows((k - 1) as nat, (k - 1) as nat);
    }
}

/// The nodes the curve would have after splicing in `piece` fitted at level
/// `k`.
pub open spec fn spliced_node_count(nodes: Seq<CurveNode>, piece: Seq<RectPoint>, k: nat) -> int {
    let l = first_not_below(nodes, piece[0].x as int, 0);
    let r = first_above(nodes, piece.last().x as int, 0);
    l + 1 + spec_fit(piece, 0, piece.len() - 1, fit_tolerance(k)).len() + (nodes.len() - r)
}

/// The first level from `k` on at which the fitted piece leaves at most
/// `MAX_EDITABLE_NODES` nodes, or a level past `PAINT_FIT_LEVELS` when none
/// does.
pub open spec fn fit_level(nodes: Seq<CurveNode>, piece: Seq<RectPoint>, k: nat) -> nat
    decreases PAINT_FIT_LEVELS + 1 - k,
{
    if k > PAINT_FIT_LEVELS {
        k
    } else if spliced_node_count(nodes, piece, k) <= MAX_EDITABLE_NODES {
        k
    } else {
        fit_level(nodes, piece, k + 1)
    }
}

/// The curve after painting one increasing `piece` of samples over it.
///
/// The piece is fitted (see `spec_fit`) at the finest tolerance that keeps the
/// curve within `MAX_EDITABLE_NODES` nodes (see `fit_level`) and replaces every
/// node within its x span: nodes left of its first sample and right of its
/// last one stay with their segments, the first sample becomes a node, and
/// the segments that join the piece to the nodes kept on either side take the
/// tension of the segment they lie in; a piece that reaches the seam wraps the
/// endpoints (see `spec_wrap_painted`). A piece of fewer than two samples
/// changes nothing, and a piece that no tolerance makes fit changes only the
/// endpoints, by the seam wrap.
pub open spec fn spec_apply_piece(
    nodes: Seq<CurveNode>,
    segments: Seq<CurveSegment>,
    piece: Seq<RectPoint>,
) -> (Seq<CurveNode>, Seq<CurveSegment>) {
    if piece.len() < 2 {
        (nodes, segments)
    } else {
        let level = fit_level(nodes, piece, 0);
        let fit = spec_fit(piece, 0, piece.len() - 1, fit_tolerance(level));
        let l = first_not_below(nodes, piece[0].x as int, 0);
        let r = first_above(nodes, piece.last().x as int, 0);
        let new_nodes = nodes.take(l) + seq![as_node(piece[0])] + fit.map_values(
            |e: (RectPoint, i32)| as_node(e.0),
        ) + nodes.skip(r);
        let right_segments = if r < nodes.len() {
            segments.skip(r - 1)
        } else {
            Seq::empty()
        };
        let new_segments = segments.take(l) + fit.map_values(
            |e: (RectPoint, i32)| CurveSegment { tension: e.1 },
        ) + right_segments;
        if level <= PAINT_FIT_LEVELS {
            (spec_wrap_painted(new_nodes, piece), new_segments)
        } else {
            (spec_wrap_painted(nodes, piece), segments)
        }
    }
}

/// The painted nodes with the endpoints wrapped to the gain the piece gave
/// the seam: its first gain when it starts at x = 0, else its last gain when
/// it ends at x = `UNIT`; unchanged when it touches neither end.
pub open spec fn spec_wrap_painted(nodes: Seq<CurveNode>, piece: Seq<RectPoint>) -> Seq<CurveNode> {
    if piece[0].x == 0 {
        spec_with_endpoint_y(nodes, piece[0].y)
    } else if piece.last().x == UNIT {
        spec_with_endpoint_y(nodes, piece.last().y)
    } else {
        nodes
    }
}

proof fn lemma_first_not_below(nodes: Seq<CurveNode>, x: int, i: int)
    requires
        0 <= i <= nodes.len(),
    ensures
        i <= first_not_below(nodes, x, i) <= nodes.len(),
        forall|j: int| i <= j < first_not_below(nodes, x, i) ==> #[trigger] nodes[j].x < x,
        first_not_below(nodes, x, i) < nodes.len() ==> nodes[first_not_below(nodes, x, i)].x >= x,
    decreases nodes.len() - i,
{
    if i < nodes.len() && nodes[i].x < x {
        lemma_first_not_below(nodes, x, i + 1);
    }
}

proof fn lemma_first_above(nodes: Seq<CurveNode>, x: int, i: int)
    requires
        0 <= i <= nodes.len(),
    ensures
        i <= first_above(nodes, x, i) <= nodes.len(),
        forall|j: int| i <= j < first_above(nodes, x, i) ==> #[trigger] nodes[j].x <= x,
        first_above(nodes, x, i) < nodes.len() ==> nodes[first_above(nodes, x, i)].x > x,
    decreases nodes.len() - i,
{
    if i < nodes.len() && nodes[i].x <= x {
        lemma_first_above(nodes, x, i + 1);
    }
}

/// Splicing a fitted piece between the nodes left and right of its span
/// gives a normalized curve.
proof fn lemma_spliced_wf(
    nodes: Seq<CurveNode>,
    segments: Seq<CurveSegment>,
    piece: Seq<RectPoint>,
    fit: Seq<(RectPoint, i32)>,
    tol: int,
    l: int,
    r: int,
    s: Seq<CurveNode>,
    g: Seq<CurveSegment>,
)
    requires
        nodes_wf(nodes),
        segments_wf(segments, nodes.len() as int),
        piece_ok(piece),
        piece.len() >= 2,
        fit == spec_fit(piece, 0, piece.len() - 1, tol),
        l == first_not_below(nodes, piece[0].x as int, 0),
        r == first_above(nodes, piece.last().x as int, 0),
        s == nodes.take(l) + seq![as_node(piece[0])] + fit.map_values(|e: (RectPoint, i32)| as_node(e.0))
            + nodes.skip(r),
        g == segments.take(l) + fit.map_values(|e: (RectPoint, i32)| CurveSegment { tension: e.1 }) + (if r
            < nodes.len() {
            segments.skip(r - 1)
        } else {
            Seq::empty()
        }),
        s.len() <= MAX_EDITABLE_NODES,
    ensures
        nodes_wf(s),
        segments_wf(g, s.len() as int),
{
    let n = nodes.len() as int;
    let m = piece.len() - 1;
    let first = piece[0];
    let last = piece[m];
    lemma_fit_shape(piece, 0, m, tol);
    lemma_first_not_below(nodes, first.x as int, 0);
    lemma_first_above(nodes, last.x as int, 0);
    assert(first.x < last.x);
    assert forall|j: int| 0 <= j < l implies #[trigger] nodes[j].x < first.x by {}
    assert forall|j: int| r <= j < n implies #[trigger] nodes[j].x > last.x by {
        assert(nodes[r].x > last.x);
        if j > r {
            assert(nodes[r].x < nodes[j].x);
        }
    }
    assert(l <= r) by {
        if l > r {
            assert(nodes[r].x > last.x);
            assert(nodes[r].x < first.x);
        }
    }
    let f = fit.len() as int;
    let a = l;
    let c = a + 1 + f;
    assert(s.len() == c + (n - r));
    assert forall|i: int| 0 <= i < s.len() implies #[trigger] s[i].y <= UNIT by {
        if i < a {
            assert(nodes[i].y <= UNIT);
        } else if i == a {
        } else if i < c {
            assert(fit[i - a - 1].0.y <= UNIT);
        } else {
            assert(nodes[i - c + r].y <= UNIT);
        }
    }
    assert forall|i: int, j: int| 0 <= i < j < s.len() implies #[trigger] s[i].x < #[trigger] s[j].x by {
        if j < a {
            assert(nodes[i].x < nodes[j].x);
        } else if i < a {
            assert(nodes[i].x < first.x);
            if j == a {
            } else if j < c {
                assert(first.x < fit[j - a - 1].0.x);
            } else {
                assert(nodes[j - c + r].x > last.x);
            }
        } else if i == a {
            if j < c {
                assert(first.x < fit[j - a - 1].0.x);
            } else {
                assert(nodes[j - c + r].x > last.x);
            }
        } else if i < c {
            if j < c {
                assert(fit[i - a - 1].0.x < fit[j - a - 1].0.x);
            } else {
                assert(fit[i - a - 1].0.x <= last.x);
                assert(nodes[j - c + r].x > last.x);
            }
        } else {
            assert(nodes[i - c + r].x < nodes[j - c + r].x);
        }
    }
    if a == 0 {
        assert(nodes[0].x >= first.x);
    }
    if r == n {
        assert(nodes[n - 1].x <= last.x);
        assert(fit.last().0 == last);
    }
    assert(s[0].x == 0);
    assert(s[s.len() - 1].x == UNIT);
    assert forall|i: int| 0 <= i < g.len() implies MIN_SEGMENT_TENSION <= #[trigger] g[i].tension
        <= MAX_SEGMENT_TENSION by {
        if i < a {
            assert(MIN_SEGMENT_TENSION <= segments[i].tension <= MAX_SEGMENT_TENSION);
        } else if i < a + f {
            assert(MIN_SEGMENT_TENSION <= fit[i - a].1 <= MAX_SEGMENT_TENSION);
        } else {
            assert(MIN_SEGMENT_TENSION <= segments[i - a - f + r - 1].tension <= MAX_SEGMENT_TENSION);
        }
    }
}

/// Paint one increasing piece of samples over the curve (see
/// `spec_apply_piece`).
fn apply_piece(curve: &mut EditableCurve, piece: &[RectPoint])
    requires
        old(curve).wf(),
        piece_ok(piece@),
    ensures
        final(curve).wf(),
        (final(curve).nodes@, final(curve).segments@) == spec_apply_piece(
            old(curve).nodes@,
            old(curve).segments@,
            piece@,
        ),
{
    if piece.len() < 2 {
        return;
    }
    let ghost nodes = curve.nodes@;
    let ghost segments = curve.segments@;
    let m = piece.len() - 1;
    let first = piece[0];
    let last = piece[m];
    let n = curve.nodes.len();
    let mut l: usize = 0;
    while l < n && curve.nodes[l].x < first.x
        invariant
            l <= n,
            n == nodes.len(),
            nodes == curve.nodes@,
            first_not_below(nodes, first.x as int, l as int) == first_not_below(nodes, first.x as int, 0),
        decreases n - l,
    {
        l = l + 1;
    }
    let mut r: usize = 0;
    while r < n && curve.nodes[r].x <= last.x
        invariant
            r <= n,
            n == nodes.len(),
            nodes == curve.nodes@,
            first_above(nodes, last.x as int, r as int) == first_above(nodes, last.x as int, 0),
        decreases n - r,
    {
        r = r + 1;
    }
    proof {
        lemma_first_not_below(nodes, first.x as int, 0);
        lemma_first_above(nodes, last.x as int, 0);
        assert(l as int == first_not_below(nodes, first.x as int, 0));
        assert(r as int == first_above(nodes, last.x as int, 0));
        assert(piece@[0].x < piece@[m as int].x);
        if l > r {
            assert(nodes[r as int].x > last.x);
            assert(nodes[r as int].x < first.x);
        }
        assert(fit_tolerance(PAINT_FIT_LEVELS as nat) == 1_024_000) by {
            reveal_with_fuel(fit_tolerance, 10);
        }
    }
    let mut level: u32 = 0;
    let mut tol: u64 = PAINT_FIT_TOLERANCE;
    let mut fit: Vec<(RectPoint, i32)> = Vec::new();
    let mut fits = false;
    while !fits && level <= PAINT_FIT_LEVELS
        invariant
            level <= PAINT_FIT_LEVELS + 1,
            tol == fit_tolerance(level as nat),
            fit_tolerance(PAINT_FIT_LEVELS as nat) == 1_024_000,
            piece_ok(piece@),
            m == piece@.len() - 1,
            m >= 1,
            l as int == first_not_below(nodes, piece@[0].x as int, 0),
            r as int == first_above(nodes, piece@.last().x as int, 0),
            l <= r <= n,
            n == nodes.len(),
            n <= MAX_EDITABLE_NODES,
            !fits ==> fit_level(nodes, piece@, 0) == fit_level(nodes, piece@, level as nat),
            fits ==> level <= PAINT_FIT_LEVELS && fit_level(nodes, piece@, 0) == level && fit@ == spec_fit(
                piece@,
                0,
                m as int,
                tol as int,
            ) && spliced_node_count(nodes, piece@, level as nat) <= MAX_EDITABLE_NODES,
        decreases 2 * (PAINT_FIT_LEVELS + 1 - level) + (if fits {
            0int
        } else {
            1int
        }),
    {
        let mut candidate: Vec<(RectPoint, i32)> = Vec::new();
        fit_range(piece, 0, m, tol, &mut candidate);
        assert(candidate@ =~= spec_fit(piece@, 0, m as int, tol as int));
        let f = candidate.len();
        if f <= MAX_EDITABLE_NODES && l + 1 + f + (n - r) <= MAX_EDITABLE_NODES {
            fit = candidate;
            fits = true;
        } else {
            proof {
                lemma_fit_tolerance_grows(level as nat, PAINT_FIT_LEVELS as nat);
            }
            level = level + 1;
            tol = tol * 2;
        }
    }
    if !fits {
        if first.x == 0 {
            set_wrapped_curve_endpoint_y(curve, first.y);
        } else if last.x == UNIT {
            set_wrapped_curve_endpoint_y(curve, last.y);
        }
        return;
    }
    let f = fit.len();
    proof {
        lemma_fit_shape(piece@, 0, m as int, tol as int);
    }
    let mut new_nodes: Vec<CurveNode> = Vec::new();
    let mut new_segments: Vec<CurveSegment> = Vec::new();
    let mut i: usize = 0;
    while i < l
        invariant
            i <= l <= n,
            n == nodes.len(),
            nodes == curve.nodes@,
            segments == curve.segments@,
            segments.len() == n - 1,
            l < n || l == n,
            l as int == first_not_below(nodes, first.x as int, 0),
            new_nodes@ == nodes.take(i as int),
            new_segments@ == segments.take(i as int),
            l > 0 ==> l <= n - 1,
        decreases l - i,
    {
        new_nodes.push(curve.nodes[i]);
        new_segments.push(curve.segments[i]);
        i = i + 1;
    }
    new_nodes.push(CurveNode { x: first.x, y: first.y });
    let mut k: usize = 0;
    while k < f
        invariant
            k <= f,
            f == fit@.len(),
            new_nodes@ == nodes.take(l as int) + seq![as_node(first)] + fit@.take(k as int).map_values(
                |e: (RectPoint, i32)| as_node(e.0),
            ),
            new_segments@ == segments.take(l as int) + fit@.take(k as int).map_values(
                |e: (RectPoint, i32)| CurveSegment { tension: e.1 },
            ),
        decreases f - k,
    {
        let (p, t) = fit[k];
        new_nodes.push(CurveNode { x: p.x, y: p.y });
        new_segments.push(CurveSegment { tension: t });
        proof {
            assert(fit@.take(k + 1) =~= fit@.take(k as int).push(fit@[k as int]));
        }
        k = k + 1;
    }
    assert(fit@.take(f as int) =~= fit@);
    let ghost mid_nodes = new_nodes@;
    let ghost mid_segments = new_segments@;
    let mut j: usize = r;
    while j < n
        invariant
            r <= j <= n,
            n == nodes.len(),
            nodes == curve.nodes@,
            new_nodes@ == mid_nodes + nodes.subrange(r as int, j as int),
        decreases n - j,
    {
        new_nodes.push(curve.nodes[j]);
        j = j + 1;
    }
    if r < n {
        let mut q: usize = r - 1;
        while q < n - 1
            invariant
                r - 1 <= q <= n - 1,
                0 < r < n,
                n == nodes.len(),
                segments == curve.segments@,
                segments.len() == n - 1,
                new_segments@ == mid_segments + segments.subrange(r - 1, q as int),
            decreases n - 1 - q,
        {
            new_segments.push(curve.segments[q]);
            q = q + 1;
        }
    }
    let ghost fit_nodes = fit@.map_values(|e: (RectPoint, i32)| as_node(e.0));
    proof {
        assert(nodes.subrange(r as int, n as int) =~= nodes.skip(r as int));
        assert(new_nodes@ =~= nodes.take(l as int) + seq![as_node(first)] + fit_nodes + nodes.skip(r as int));
        if r < n {
            assert(segments.subrange(r - 1, n - 1) =~= segments.skip(r - 1));
        } else {
            assert(new_segments@ =~= mid_segments + Seq::<CurveSegment>::empty());
        }
        lemma_spliced_wf(
            nodes,
            segments,
            piece@,
            fit@,
            tol as int,
            l as int,
            r as int,
            new_nodes@,
            new_segments@,
        );
    }
    curve.nodes = new_nodes;
    curve.segments = new_segments;
    if first.x == 0 {
        set_wrapped_curve_endpoint_y(curve, first.y);
    } else if last.x == UNIT {
        set_wrapped_curve_endpoint_y(curve, last.y);
    }
}

} // verus!

verus! {

/// Where a sample drawn at `p` lies on the curve when the curve is drawn
/// shifted by `phase_offset`: the position is limited to the unit square and
/// its x shifted back by the offset, wrapping at the seam.
pub open spec fn display_to_raw(p: RectPoint, phase_offset: u32) -> RectPoint {
    let x = spec_min_u32(p.x as int, UNIT as int);
    let y = spec_min_u32(p.y as int, UNIT as int);
    let off = phase_offset % UNIT;
    RectPoint {
        x: (if x >= off {
            x - off
        } else {
            x + UNIT - off
        }) as u32,
        y: y as u32,
    }
}

fn to_raw(p: RectPoint, phase_offset: u32) -> (raw: RectPoint)
    ensures
        raw == display_to_raw(p, phase_offset),
        raw.x <= UNIT,
        raw.y <= UNIT,
{
    let x: u32 = if p.x > UNIT { UNIT } else { p.x };
    let y: u32 = if p.y > UNIT { UNIT } else { p.y };
    let off: u32 = phase_offset % UNIT;
    RectPoint { x: if x >= off { x - off } else { x + UNIT - off }, y }
}

/// Samples within the unit square whose x strictly increases or strictly
/// decreases.
pub open spec fn piece_monotone(pts: Seq<RectPoint>) -> bool {
    &&& forall|i: int| 0 <= i < pts.len() ==> #[trigger] pts[i].x <= UNIT && pts[i].y <= UNIT
    &&& (forall|i: int, j: int| 0 <= i < j < pts.len() ==> #[trigger] pts[i].x < #[trigger] pts[j].x)
        || (forall|i: int, j: int| 0 <= i < j < pts.len() ==> #[trigger] pts[i].x > #[trigger] pts[j].x)
}

/// The samples in the opposite order.
pub open spec fn spec_reversed(pts: Seq<RectPoint>) -> Seq<RectPoint> {
    Seq::new(pts.len(), |i: int| pts[pts.len() - 1 - i])
}

/// A piece in increasing x: a piece drawn leftwards is reversed.
pub open spec fn spec_oriented(pts: Seq<RectPoint>) -> Seq<RectPoint> {
    if pts.len() >= 2 && pts[0].x > pts[1].x {
        spec_reversed(pts)
    } else {
        pts
    }
}

/// Whether sample `p` continues `piece` in the direction it is drawn: any
/// other x continues a single sample; after that, x must keep moving the way
/// the piece's first two samples went.
pub open spec fn spec_extends(piece: Seq<RectPoint>, p: RectPoint) -> bool {
    if piece.len() == 0 {
        false
    } else if piece.len() == 1 {
        piece[0].x != p.x
    } else if piece[0].x < piece[1].x {
        piece.last().x < p.x
    } else {
        piece.last().x > p.x
    }
}

proof fn lemma_oriented_ok(pts: Seq<RectPoint>)
    requires
        piece_monotone(pts),
    ensures
        piece_ok(spec_oriented(pts)),
        spec_oriented(pts).len() == pts.len(),
{
    let o = spec_oriented(pts);
    if pts.len() >= 2 && pts[0].x > pts[1].x {
        assert(!(forall|i: int, j: int| 0 <= i < j < pts.len() ==> #[trigger] pts[i].x < #[trigger] pts[j].x)) by {
            assert(!(pts[0].x < pts[1].x));
        }
        assert forall|i: int, j: int| 0 <= i < j < o.len() implies #[trigger] o[i].x < #[trigger] o[j].x by {
            assert(pts[pts.len() - 1 - j].x > pts[pts.len() - 1 - i].x);
        }
        assert forall|i: int| 0 <= i < o.len() implies #[trigger] o[i].x <= UNIT && o[i].y <= UNIT by {
            assert(pts[pts.len() - 1 - i].x <= UNIT);
        }
    }
}

/// The piece in increasing x (see `spec_oriented`).
fn oriented(piece: &[RectPoint]) -> (out: Vec<RectPoint>)
    ensures
        out@ == spec_oriented(piece@),
{
    let n = piece.len();
    let mut out: Vec<RectPoint> = Vec::new();
    if n >= 2 && piece[0].x > piece[1].x {
        let mut k: usize = 0;
        while k < n
            invariant
                k <= n,
                n == piece@.len(),
                out@ == spec_reversed(piece@).take(k as int),
            decreases n - k,
        {
            out.push(piece[n - 1 - k]);
            k = k + 1;
            assert(out@ =~= spec_reversed(piece@).take(k as int));
        }
        assert(spec_reversed(piece@).take(n as int) =~= spec_reversed(piece@));
    } else {
        let mut k: usize = 0;
        while k < n
            invariant
                k <= n,
                n == piece@.len(),
                out@ == piece@.take(k as int),
            decreases n - k,
        {
            out.push(piece[k]);
            k = k + 1;
            assert(out@ =~= piece@.take(k as int));
        }
        assert(piece@.take(n as int) =~= piece@);
    }
    out
}

/// Extending a piece in its direction keeps it monotone.
proof fn lemma_extended_monotone(piece: Seq<RectPoint>, p: RectPoint)
    requires
        piece_monotone(piece),
        spec_extends(piece, p),
        p.x <= UNIT,
        p.y <= UNIT,
    ensures
        piece_monotone(piece.push(p)),
{
    let q = piece.push(p);
    let n = piece.len();
    assert forall|i: int| 0 <= i < q.len() implies #[trigger] q[i].x <= UNIT && q[i].y <= UNIT by {
        if i < n {
            assert(q[i] == piece[i]);
        }
    }
    if n == 1 {
        if piece[0].x < p.x {
            assert forall|i: int, j: int| 0 <= i < j < q.len() implies #[trigger] q[i].x < #[trigger] q[j].x by {}
        } else {
            assert forall|i: int, j: int| 0 <= i < j < q.len() implies #[trigger] q[i].x > #[trigger] q[j].x by {}
        }
    } else if piece[0].x < piece[1].x {
        assert(!(forall|i: int, j: int| 0 <= i < j < piece.len() ==> #[trigger] piece[i].x > #[trigger] piece[j].x)) by {
            assert(!(piece[0].x > piece[1].x));
        }
        assert forall|i: int, j: int| 0 <= i < j < q.len() implies #[trigger] q[i].x < #[trigger] q[j].x by {
            if j == n {
                if i < n - 1 {
                    assert(piece[i].x < piece[n - 1].x);
                }
            } else {
                assert(piece[i].x < piece[j].x);
            }
        }
    } else {
        assert(!(forall|i: int, j: int| 0 <= i < j < piece.len() ==> #[trigger] piece[i].x < #[trigger] piece[j].x)) by {
            assert(!(piece[0].x < piece[1].x));
        }
        assert forall|i: int, j: int| 0 <= i < j < q.len() implies #[trigger] q[i].x > #[trigger] q[j].x by {
            if j == n {
                if i < n - 1 {
                    assert(piece[i].x > piece[n - 1].x);
                }
            } else {
                assert(piece[i].x > piece[j].x);
            }
        }
    }
}

/// The curve and the piece being gathered after the first `m` samples of one
/// run: a sample that continues the piece in the direction it is drawn (see
/// `spec_extends`) extends it; any other sample paints the piece, turned to
/// increasing x (see `spec_oriented`, `spec_apply_piece`), and starts a new
/// one.
pub open spec fn scan_points(
    nodes: Seq<CurveNode>,
    segments: Seq<CurveSegment>,
    pts: Seq<RectPoint>,
    phase_offset: u32,
    m: int,
) -> (Seq<CurveNode>, Seq<CurveSegment>, Seq<RectPoint>)
    decreases m,
{
    if m <= 0 {
        (nodes, segments, Seq::empty())
    } else {
        let (n1, s1, piece) = scan_points(nodes, segments, pts, phase_offset, m - 1);
        let p = display_to_raw(pts[m - 1], phase_offset);
        if spec_extends(piece, p) {
            (n1, s1, piece.push(p))
        } else {
            let (n2, s2) = spec_apply_piece(n1, s1, spec_oriented(piece));
            (n2, s2, seq![p])
        }
    }
}

/// The curve after painting the first `r` runs over it, each run split into
/// pieces that move one way in curve x (see `scan_points`).
pub open spec fn spec_reconstruct(
    nodes: Seq<CurveNode>,
    segments: Seq<CurveSegment>,
    runs: Seq<Seq<RectPoint>>,
    phase_offset: u32,
    r: int,
) -> (Seq<CurveNode>, Seq<CurveSegment>)
    decreases r,
{
    if r <= 0 {
        (nodes, segments)
    } else {
        let (n1, s1) = spec_reconstruct(nodes, segments, runs, phase_offset, r - 1);
        let pts = runs[r - 1];
        let (n2, s2, piece) = scan_points(n1, s1, pts, phase_offset, pts.len() as int);
        spec_apply_piece(n2, s2, spec_oriented(piece))
    }
}

/// What a finished paint stroke does to the curve.
#[derive(Clone, Debug)]
pub enum PaintCommitOutcome {
    /// The stroke changes the curve into `candidate`.
    Applied { candidate: EditableCurve },
    /// The stroke leaves the curve as it was.
    NoOp { candidate: EditableCurve },
}

impl PaintCommitOutcome {
    pub open spec fn spec_candidate(&self) -> EditableCurve {
        match self {
            PaintCommitOutcome::Applied { candidate } => *candidate,
            PaintCommitOutcome::NoOp { candidate } => *candidate,
        }
    }

    /// The curve after the stroke.
    pub fn candidate(&self) -> (curve: &EditableCurve)
        ensures
            *curve == self.spec_candidate(),
    {
        match self {
            PaintCommitOutcome::Applied { candidate } => candidate,
            PaintCommitOutcome::NoOp { candidate } => candidate,
        }
    }
}

/// Whether two curves have the same nodes and segments.
pub fn same_curve(a: &EditableCurve, b: &EditableCurve) -> (same: bool)
    ensures
        same == (a.nodes@ == b.nodes@ && a.segments@ == b.segments@),
{
    if a.nodes.len() != b.nodes.len() || a.segments.len() != b.segments.len() {
        return false;
    }
    let mut i: usize = 0;
    while i < a.nodes.len()
        invariant
            a.nodes@.len() == b.nodes@.len(),
            i <= a.nodes@.len(),
            forall|k: int| 0 <= k < i ==> a.nodes@[k] == b.nodes@[k],
        decreases a.nodes@.len() - i,
    {
        if a.nodes[i] != b.nodes[i] {
            return false;
        }
        i = i + 1;
    }
    assert(a.nodes@ =~= b.nodes@);
    let mut j: usize = 0;
    while j < a.segments.len()
        invariant
            a.segments@.len() == b.segments@.len(),
            j <= a.segments@.len(),
            forall|k: int| 0 <= k < j ==> a.segments@[k] == b.segments@[k],
        decreases a.segments@.len() - j,
    {
        if a.segments[j] != b.segments[j] {
            return false;
        }
        j = j + 1;
    }
    assert(a.segments@ =~= b.segments@);
    true
}

/// The curve a finished stroke paints over `origin` drawn with
/// `phase_offset` (see `spec_reconstruct`): `Applied` when it differs from
/// `origin`, else `NoOp`.
pub fn reconstruct_paint(origin: &EditableCurve, phase_offset: u32, runs: &[PaintRun]) -> (outcome: PaintCommitOutcome)
    requires
        origin.wf(),
    ensures
        outcome.spec_candidate().wf(),
        (outcome.spec_candidate().nodes@, outcome.spec_candidate().segments@) == spec_reconstruct(
            origin.nodes@,
            origin.segments@,
            run_points(runs@),
            phase_offset,
            runs@.len() as int,
        ),
        outcome is Applied <==> !(outcome.spec_candidate().nodes@ == origin.nodes@
            && outcome.spec_candidate().segments@ == origin.segments@),
{
    let ghost all = run_points(runs@);
    let mut curve = origin.snapshot();
    let mut r: usize = 0;
    while r < runs.len()
        invariant
            r <= runs@.len(),
            all == run_points(runs@),
            curve.wf(),
            (curve.nodes@, curve.segments@) == spec_reconstruct(
                origin.nodes@,
                origin.segments@,
                all,
                phase_offset,
                r as int,
            ),
        decreases runs@.len() - r,
    {
        let pts = runs[r].points.as_slice();
        assert(pts@ == all[r as int]);
        let ghost start_nodes = curve.nodes@;
        let ghost start_segments = curve.segments@;
        let mut piece: Vec<RectPoint> = Vec::new();
        let mut i: usize = 0;
        while i < pts.len()
            invariant
                i <= pts@.len(),
                curve.wf(),
                piece_monotone(piece@),
                (curve.nodes@, curve.segments@, piece@) == scan_points(
                    start_nodes,
                    start_segments,
                    pts@,
                    phase_offset,
                    i as int,
                ),
            decreases pts@.len() - i,
        {
            let p = to_raw(pts[i], phase_offset);
            let len = piece.len();
            let extends = if len == 0 {
                false
            } else if len == 1 {
                piece[0].x != p.x
            } else if piece[0].x < piece[1].x {
                piece[len - 1].x < p.x
            } else {
                piece[len - 1].x > p.x
            };
            assert(extends == spec_extends(piece@, p));
            if extends {
                let ghost before = piece@;
                piece.push(p);
                proof {
                    lemma_extended_monotone(before, p);
                }
            } else {
                proof {
                    lemma_oriented_ok(piece@);
                }
                let turned = oriented(piece.as_slice());
                apply_piece(&mut curve, turned.as_slice());
                piece = Vec::new();
                piece.push(p);
                assert(piece@ =~= seq![p]);
            }
            i = i + 1;
        }
        proof {
            lemma_oriented_ok(piece@);
        }
        let turned = oriented(piece.as_slice());
        apply_piece(&mut curve, turned.as_slice());
        r = r + 1;
    }
    if same_curve(&curve, origin) {
        PaintCommitOutcome::NoOp { candidate: curve }
    } else {
        PaintCommitOutcome::Applied { candidate: curve }
    }
}

} // verus!

verus! {

/// Painting a piece that some fit level fits and that does not reach the
/// seam puts its first and last samples into the curve as nodes, at most as
/// many nodes apart as the piece has samples after the first; the two
/// samples of a two-sample piece become adjacent nodes.
pub proof fn law_painted_piece_endpoints_become_nodes(
    nodes: Seq<CurveNode>,
    segments: Seq<CurveSegment>,
    piece: Seq<RectPoint>,
)
    requires
        nodes_wf(nodes),
        segments_wf(segments, nodes.len() as int),
        piece_ok(piece),
        piece.len() >= 2,
        fit_level(nodes, piece, 0) <= PAINT_FIT_LEVELS,
        piece[0].x > 0,
        piece.last().x < UNIT,
    ensures
        ({
            let painted = spec_apply_piece(nodes, segments, piece).0;
            exists|l: int, m: int|
                #![trigger painted[l], painted[m]]
                0 <= l < m < painted.len() && painted[l] == as_node(piece[0]) && painted[m] == as_node(piece.last())
                    && m - l <= piece.len() - 1 && (piece.len() == 2 ==> m == l + 1)
        }),
{
    let painted = spec_apply_piece(nodes, segments, piece).0;
    let level = fit_level(nodes, piece, 0);
    let fit = spec_fit(piece, 0, piece.len() - 1, fit_tolerance(level));
    lemma_fit_shape(piece, 0, piece.len() - 1, fit_tolerance(level));
    let l = first_not_below(nodes, piece[0].x as int, 0);
    let r = first_above(nodes, piece.last().x as int, 0);
    lemma_first_not_below(nodes, piece[0].x as int, 0);
    lemma_first_above(nodes, piece.last().x as int, 0);
    let fit_nodes = fit.map_values(|e: (RectPoint, i32)| as_node(e.0));
    let new_nodes = nodes.take(l) + seq![as_node(piece[0])] + fit_nodes + nodes.skip(r);
    assert(painted == new_nodes);
    let m = l + fit.len();
    assert(new_nodes[l] == as_node(piece[0]));
    assert(fit_nodes[fit.len() - 1] == as_node(fit.last().0));
    assert(new_nodes[m] == fit_nodes[fit.len() - 1]);
    assert(painted[l] == as_node(piece[0]) && painted[m] == as_node(piece.last()));
}

/// Painting a piece leaves every interior node outside the piece's x span in
/// the curve.
pub proof fn law_paint_keeps_nodes_outside_span(
    nodes: Seq<CurveNode>,
    segments: Seq<CurveSegment>,
    piece: Seq<RectPoint>,
    i: int,
)
    requires
        nodes_wf(nodes),
        segments_wf(segments, nodes.len() as int),
        piece_ok(piece),
        piece.len() >= 2,
        0 < i < nodes.len() - 1,
        nodes[i].x < piece[0].x || nodes[i].x > piece.last().x,
    ensures
        spec_apply_piece(nodes, segments, piece).0.contains(nodes[i]),
{
    let (n2, s2) = spec_apply_piece(nodes, segments, piece);
    let first = piece[0];
    let last = piece.last();
    let l = first_not_below(nodes, first.x as int, 0);
    let r = first_above(nodes, last.x as int, 0);
    lemma_first_not_below(nodes, first.x as int, 0);
    lemma_first_above(nodes, last.x as int, 0);
    let level = fit_level(nodes, piece, 0);
    let fit = spec_fit(piece, 0, piece.len() - 1, fit_tolerance(level));
    let new_nodes = nodes.take(l) + seq![as_node(piece[0])] + fit.map_values(|e: (RectPoint, i32)| as_node(e.0))
        + nodes.skip(r);
    if level <= PAINT_FIT_LEVELS {
        lemma_fit_shape(piece, 0, piece.len() - 1, fit_tolerance(level));
        let c = l + 1 + fit.len();
        assert(n2 == spec_wrap_painted(new_nodes, piece));
        if nodes[i].x < first.x {
            if i >= l {
                assert(nodes[l].x <= nodes[i].x);
            }
            assert(new_nodes[i] == nodes[i]);
            assert(n2[i] == nodes[i]);
        } else {
            if i < r {
                assert(nodes[i].x <= last.x);
            }
            assert(new_nodes[c + (i - r)] == nodes[i]);
            assert(n2[c + (i - r)] == nodes[i]);
        }
    } else {
        assert(n2 == spec_wrap_painted(nodes, piece));
        assert(n2[i] == nodes[i]);
    }
}

} // verus!

verus! {

/// The whole curve area, `0..=UNIT` on both axes.
pub open spec fn unit_rect() -> RectBounds {
    RectBounds { min: RectPoint { x: 0, y: 0 }, max: RectPoint { x: UNIT, y: UNIT } }
}

/// A paint gesture in progress over `origin_curve`, drawn shifted by
/// `phase_offset`; `origin_snapshot` is the undo step taken when the stroke
/// began.
#[derive(Clone, Debug)]
pub struct ActiveCurvePaint {
    pub origin_snapshot: CurveSnapshot,
    pub origin_curve: EditableCurve,
    pub phase_offset: u32,
    pub recorder: StrokeRecorder,
}

impl ActiveCurvePaint {
    pub open spec fn wf(&self) -> bool {
        &&& self.origin_curve.wf()
        &&& self.recorder.wf()
        &&& self.origin_snapshot.curve.wf()
        &&& self.origin_snapshot.inactive_sound.curve.wf()
    }

    /// A gesture with no samples yet over the curve of `origin_snapshot`,
    /// recording over the whole curve area.
    pub fn new(origin_snapshot: CurveSnapshot, phase_offset: u32) -> (paint: ActiveCurvePaint)
        requires
            origin_snapshot.curve.wf(),
            origin_snapshot.inactive_sound.curve.wf(),
        ensures
            paint.wf(),
            paint.origin_snapshot == origin_snapshot,
            paint.origin_curve.nodes@ == origin_snapshot.curve.nodes@,
            paint.origin_curve.segments@ == origin_snapshot.curve.segments@,
            paint.phase_offset == phase_offset,
            paint.recorder.bounds == unit_rect(),
            paint.recorder.runs@.len() == 0,
            !paint.recorder.open,
            paint.recorder.samples == 0,
            !paint.recorder.truncated,
            paint.recorder.boundary_contact is None,
    {
        let origin_curve = origin_snapshot.curve.snapshot();
        ActiveCurvePaint {
            origin_snapshot,
            origin_curve,
            phase_offset,
            recorder: StrokeRecorder::new(
                RectBounds { min: RectPoint { x: 0, y: 0 }, max: RectPoint { x: UNIT, y: UNIT } },
            ),
        }
    }

    /// Record one pointer sample: inside the area it extends the stroke, outside
    /// it ends the current run at the boundary.
    pub fn push_sample(&mut self, sample: CurvePaintSample)
        requires
            old(self).wf(),
        ensures
            final(self).wf(),
            spec_pushed_sample(*old(self), *final(self), sample),
    {
        if sample.outside {
            self.recorder.observe_outside(sample.raw_position());
        } else {
            self.recorder.observe(sample.raw_position());
        }
    }

    /// Record a sample on the boundary of the area: it ends the current run.
    pub fn push_boundary_sample(&mut self, sample: CurvePaintSample)
        requires
            old(self).wf(),
        ensures
            final(self).wf(),
            spec_pushed_boundary_sample(*old(self), *final(self), sample),
    {
        self.recorder.observe_outside(sample.raw_position());
    }

    /// The runs recorded so far.
    pub fn preview_runs(&self) -> (runs: &[PaintRun])
        ensures
            runs@ == self.recorder.runs@,
    {
        self.recorder.runs()
    }

    /// What the stroke recorded so far paints over the origin curve (see
    /// `reconstruct_paint`).
    pub fn finished_curve(&self) -> (outcome: PaintCommitOutcome)
        requires
            self.wf(),
        ensures
            outcome.spec_candidate().wf(),
            (outcome.spec_candidate().nodes@, outcome.spec_candidate().segments@) == spec_finished(*self),
            outcome is Applied <==> !(outcome.spec_candidate().nodes@ == self.origin_curve.nodes@
                && outcome.spec_candidate().segments@ == self.origin_curve.segments@),
    {
        reconstruct_paint(&self.origin_curve, self.phase_offset, self.recorder.runs())
    }

    /// The curve the stroke recorded so far would commit on release.
    pub fn preview_candidate(&self) -> (curve: EditableCurve)
        requires
            self.wf(),
        ensures
            curve.wf(),
            (curve.nodes@, curve.segments@) == spec_finished(*self),
    {
        let outcome = self.finished_curve();
        outcome.candidate().snapshot()
    }
}

/// The curve the recorded stroke paints over the gesture's origin.
pub open spec fn spec_finished(paint: ActiveCurvePaint) -> (Seq<CurveNode>, Seq<CurveSegment>) {
    spec_reconstruct(
        paint.origin_curve.nodes@,
        paint.origin_curve.segments@,
        run_points(paint.recorder.runs@),
        paint.phase_offset,
        paint.recorder.runs@.len() as int,
    )
}

/// `after` is `before` with `sample` recorded (see `push_sample`).
pub open spec fn spec_pushed_sample(before: ActiveCurvePaint, after: ActiveCurvePaint, sample: CurvePaintSample) -> bool {
    &&& after.origin_snapshot == before.origin_snapshot
    &&& after.origin_curve == before.origin_curve
    &&& after.phase_offset == before.phase_offset
    &&& if sample.outside {
        spec_observed_outside(before.recorder, after.recorder, sample.display_position)
    } else {
        spec_observed(before.recorder, after.recorder, sample.display_position)
    }
}

/// `after` is `before` with the boundary `sample` recorded (see
/// `push_boundary_sample`).
pub open spec fn spec_pushed_boundary_sample(
    before: ActiveCurvePaint,
    after: ActiveCurvePaint,
    sample: CurvePaintSample,
) -> bool {
    &&& after.origin_snapshot == before.origin_snapshot
    &&& after.origin_curve == before.origin_curve
    &&& after.phase_offset == before.phase_offset
    &&& spec_observed_outside(before.recorder, after.recorder, sample.display_position)
}

} // verus!
