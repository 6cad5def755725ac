//! Composite path cuts built from line, arc and waypoint segments.

use vstd::prelude::*;

use crate::cuts::{rdiv, rdiv_i128};
use crate::errors::CncError;
use crate::instructions::{Comment, Empty, Instruction, InstrV, G0, G1, G17, G18, G19, G2, G3};
use crate::program::InnerContext;
use crate::text::num_str;
use crate::tools::Tool;
use crate::types::{coord_ok, dist2, Axis, Bounds, Direction, Units, Vector2, Vector3};

verus! {

/// A 2D line segment of a path, in coordinates relative to the path start.
#[derive(Debug, PartialEq, Eq, Structural, Clone, Copy)]
pub struct Line2D {
    /// The relative starting point.
    pub from: Vector2,
    /// The relative end point.
    pub to: Vector2,
}

impl Line2D {
    /// A new 2D line segment.
    pub fn new(from: Vector2, to: Vector2) -> (l: Line2D)
        ensures
            l == (Line2D { from, to }),
    {
        Line2D { from, to }
    }
}

/// A 2D arc segment of a path, in coordinates relative to the path start.
#[derive(Debug, PartialEq, Eq, Structural, Clone, Copy)]
pub struct Arc2D {
    /// The relative starting point.
    pub from: Vector2,
    /// The relative end point.
    pub to: Vector2,
    /// The relative center; it must be equidistant from both endpoints to
    /// the tolerance of one ten-thousandth of a unit.
    pub center: Vector2,
    /// The axis to turn around; `Axis::Z` gives a top-down arc.
    pub axis: Axis,
    /// The rotation direction.
    pub direction: Direction,
}

impl Arc2D {
    /// A new 2D arc segment.
    pub fn new(from: Vector2, to: Vector2, center: Vector2, axis: Axis, direction: Direction) -> (a:
        Arc2D)
        ensures
            a == (Arc2D { from, to, center, axis, direction }),
    {
        Arc2D { from, to, center, axis, direction }
    }

    /// The radius of the arc segment: the larger endpoint distance to the
    /// center.
    pub fn radius(&self) -> (r: i64)
        requires
            self.from.wf(),
            self.to.wf(),
            self.center.wf(),
        ensures
            r == arc2d_radius(*self),
            0 <= r <= 3 * crate::types::MAX_COORD,
    {
        let d_from = self.from.distance_to(self.center);
        let d_to = self.to.distance_to(self.center);
        if d_from >= d_to {
            d_from
        } else {
            d_to
        }
    }
}

/// The radius of an arc segment: the larger endpoint distance to the center.
pub open spec fn arc2d_radius(a: Arc2D) -> int {
    if dist2(a.from, a.center) >= dist2(a.to, a.center) {
        dist2(a.from, a.center)
    } else {
        dist2(a.to, a.center)
    }
}

/// One segment of a path, in coordinates relative to the path start.
#[derive(Debug, PartialEq, Eq, Structural, Clone, Copy)]
pub enum Segment {
    /// A straight segment.
    Line(Line2D),
    /// An arc segment.
    Arc(Arc2D),
    /// A bare waypoint: a linear move to the point.
    Point(Vector2),
}

impl Segment {
    /// A straight segment.
    pub fn line(from: Vector2, to: Vector2) -> (s: Segment)
        ensures
            s == Segment::Line(Line2D { from, to }),
    {
        Segment::Line(Line2D::new(from, to))
    }

    /// A top-down arc segment (around the z axis).
    pub fn arc(from: Vector2, to: Vector2, center: Vector2, direction: Direction) -> (s: Segment)
        ensures
            s == Segment::Arc(Arc2D { from, to, center, axis: Axis::Z, direction }),
    {
        Self::arc_z(from, to, center, direction)
    }

    /// An arc segment around the x axis.
    pub fn arc_x(from: Vector2, to: Vector2, center: Vector2, direction: Direction) -> (s: Segment)
        ensures
            s == Segment::Arc(Arc2D { from, to, center, axis: Axis::X, direction }),
    {
        Segment::Arc(Arc2D::new(from, to, center, Axis::X, direction))
    }

    /// An arc segment around the y axis.
    pub fn arc_y(from: Vector2, to: Vector2, center: Vector2, direction: Direction) -> (s: Segment)
        ensures
            s == Segment::Arc(Arc2D { from, to, center, axis: Axis::Y, direction }),
    {
        Segment::Arc(Arc2D::new(from, to, center, Axis::Y, direction))
    }

    /// An arc segment around the z axis.
    pub fn arc_z(from: Vector2, to: Vector2, center: Vector2, direction: Direction) -> (s: Segment)
        ensures
            s == Segment::Arc(Arc2D { from, to, center, axis: Axis::Z, direction }),
    {
        Segment::Arc(Arc2D::new(from, to, center, Axis::Z, direction))
    }

    /// A single waypoint.
    pub fn point(x: i64, y: i64) -> (s: Segment)
        ensures
            s == Segment::Point(Vector2 { x, y }),
    {
        Segment::Point(Vector2::new(x, y))
    }

    /// Waypoint segments for a list of points, in order.
    pub fn points(points: Vec<Vector2>) -> (r: Vec<Segment>)
        ensures
            r@.len() == points@.len(),
            forall|i: int| 0 <= i < r@.len() ==> r@[i] == Segment::Point(points@[i]),
    {
        let mut result: Vec<Segment> = Vec::new();
        let n = points.len();
        let mut i: usize = 0;
        while i < n
            invariant
                0 <= i <= n,
                n == points@.len(),
                result@.len() == i,
                forall|j: int| 0 <= j < i ==> result@[j] == Segment::Point(points@[j]),
            decreases n - i,
        {
            result.push(Segment::Point(points[i]));
            i += 1;
        }
        result
    }

    /// The relative point the segment ends at.
    pub open spec fn end(self) -> Vector2 {
        match self {
            Segment::Line(l) => l.to,
            Segment::Arc(a) => a.to,
            Segment::Point(p) => p,
        }
    }

    /// The relative point the segment starts at (a waypoint starts where it
    /// ends).
    pub open spec fn begin(self) -> Vector2 {
        match self {
            Segment::Line(l) => l.from,
            Segment::Arc(a) => a.from,
            Segment::Point(p) => p,
        }
    }

    /// Whether the segment's points are inside the working range.
    pub open spec fn wf(self) -> bool {
        match self {
            Segment::Line(l) => l.from.wf() && l.to.wf(),
            Segment::Arc(a) => a.from.wf() && a.to.wf() && a.center.wf(),
            Segment::Point(p) => p.wf(),
        }
    }
}

/// A path cut: a profile of segments traced top-down, descending helically
/// so that the depth advances with each segment's share of the total path
/// length.
#[derive(Debug, Clone)]
pub struct Path {
    /// The point the cut starts at; segment coordinates are relative to it.
    pub start: Vector3,
    /// The segments of the profile, in order.
    pub segments: Vec<Segment>,
    /// The depth where the cut ends.
    pub end_z: i64,
    /// The most the cut descends per pass.
    pub max_step_z: i64,
}

/// The mathematical shape of a path cut.
pub struct PathV {
    /// The point the cut starts at.
    pub start: Vector3,
    /// The segments of the profile.
    pub segments: Seq<Segment>,
    /// The depth where the cut ends.
    pub end_z: i64,
    /// The most the cut descends per pass.
    pub max_step_z: i64,
}

impl View for Path {
    type V = PathV;

    open spec fn view(&self) -> PathV {
        PathV {
            start: self.start,
            segments: self.segments@,
            end_z: self.end_z,
            max_step_z: self.max_step_z,
        }
    }
}

impl DeepView for Path {
    type V = PathV;

    open spec fn deep_view(&self) -> PathV {
        self.view()
    }
}

/// The point a segment walk stands at before segment `i`: the origin at the
/// start, then each segment's end.
pub open spec fn seg_prev(segs: Seq<Segment>, i: int) -> Vector2 {
    if i <= 0 {
        Vector2 { x: 0, y: 0 }
    } else {
        segs[i - 1].end()
    }
}

/// The declared length of segment `i`: the straight distance from the
/// previous end point to this segment's end point (an arc counts its chord).
pub open spec fn seg_dist(segs: Seq<Segment>, i: int) -> int {
    dist2(seg_prev(segs, i), segs[i].end())
}

/// The total declared length of the first `n` segments.
pub open spec fn total_dist(segs: Seq<Segment>, n: int) -> int
    decreases n,
    when n >= 0
{
    if n <= 0 {
        0
    } else {
        total_dist(segs, n - 1) + seg_dist(segs, n - 1)
    }
}

/// Every partial total is below the full total, and each segment's length is
/// inside its own partial step: the declared lengths are never negative.
pub proof fn lemma_total_dist_bounds(segs: Seq<Segment>, i: int, n: int)
    requires
        0 <= i < n <= segs.len(),
    ensures
        0 <= total_dist(segs, i),
        total_dist(segs, i) + seg_dist(segs, i) <= total_dist(segs, n),
    decreases n,
{
    if i + 1 < n {
        lemma_total_dist_bounds(segs, i, n - 1);
    }
    if i > 0 {
        lemma_total_dist_bounds(segs, i - 1, i);
    }
}

/// Whether an arc segment's endpoints are equidistant from its center, to
/// one ten-thousandth of a unit.
pub open spec fn arc2d_ok(a: Arc2D) -> bool {
    let d_from = dist2(a.from, a.center);
    let d_to = dist2(a.to, a.center);
    (if d_from >= d_to {
        d_from - d_to
    } else {
        d_to - d_from
    }) <= 1
}

/// The failure of the first invalid arc segment at or after `i`, if any.
pub open spec fn first_arc_error(segs: Seq<Segment>, i: int, units: Units) -> Option<CncError>
    decreases segs.len() - i,
    when 0 <= i <= segs.len()
{
    if i >= segs.len() {
        None
    } else {
        match segs[i] {
            Segment::Arc(a) => {
                if !arc2d_ok(a) {
                    Some(
                        CncError::ArcDistanceMismatch {
                            distance_from: dist2(a.from, a.center) as i64,
                            distance_to: dist2(a.to, a.center) as i64,
                            units,
                        },
                    )
                } else {
                    first_arc_error(segs, i + 1, units)
                }
            },
            _ => first_arc_error(segs, i + 1, units),
        }
    }
}

/// The depth at the end of segment `i` of one pass from `sz` to `ez`, given
/// the depth `from_z` at its start: the segment's share of the pass descent.
pub open spec fn seg_to_z(segs: Seq<Segment>, i: int, from_z: int, sz: int, ez: int) -> int {
    from_z - rdiv(seg_dist(segs, i) * (sz - ez), total_dist(segs, segs.len() as int))
}

/// The instructions of segment `i` at the given depths.
pub open spec fn seg_instrs(p: PathV, i: int, from_z: int, to_z: int) -> Seq<InstrV> {
    match p.segments[i] {
        Segment::Arc(a) => seq![
            InstrV::G1 {
                x: Some((p.start.x + a.from.x) as i64),
                y: Some((p.start.y + a.from.y) as i64),
                z: Some(from_z as i64),
                f: None,
            },
            crate::cuts::arc::plane_select(a.axis),
            (match a.direction {
                Direction::Clockwise => InstrV::G2 {
                    x: Some((p.start.x + a.to.x) as i64),
                    y: Some((p.start.y + a.to.y) as i64),
                    z: Some(to_z as i64),
                    i: Some((a.center.x - a.from.x) as i64),
                    j: Some((a.center.y - a.from.y) as i64),
                    k: None,
                    r: None,
                    p: None,
                    f: None,
                },
                Direction::Counterclockwise => InstrV::G3 {
                    x: Some((p.start.x + a.to.x) as i64),
                    y: Some((p.start.y + a.to.y) as i64),
                    z: Some(to_z as i64),
                    i: Some((a.center.x - a.from.x) as i64),
                    j: Some((a.center.y - a.from.y) as i64),
                    k: None,
                    r: None,
                    p: None,
                    f: None,
                },
            }),
            InstrV::G17,
        ],
        Segment::Line(l) => seq![
            InstrV::G1 {
                x: Some((p.start.x + l.from.x) as i64),
                y: Some((p.start.y + l.from.y) as i64),
                z: Some(from_z as i64),
                f: None,
            },
            InstrV::G1 {
                x: Some((p.start.x + l.to.x) as i64),
                y: Some((p.start.y + l.to.y) as i64),
                z: Some(to_z as i64),
                f: None,
            },
        ],
        Segment::Point(pt) => seq![
            InstrV::G1 {
                x: Some((p.start.x + pt.x) as i64),
                y: Some((p.start.y + pt.y) as i64),
                z: Some(to_z as i64),
                f: None,
            },
        ],
    }
}

/// The instructions of the segments from `i` on, for one pass from `sz` to
/// `ez`, entered at depth `from_z`.
pub open spec fn segs_from(p: PathV, i: int, from_z: int, sz: int, ez: int) -> Seq<InstrV>
    decreases p.segments.len() - i,
    when 0 <= i <= p.segments.len()
{
    if i >= p.segments.len() {
        Seq::<InstrV>::empty()
    } else {
        let to_z = seg_to_z(p.segments, i, from_z, sz, ez);
        seg_instrs(p, i, from_z, to_z) + segs_from(p, i + 1, to_z, sz, ez)
    }
}

/// One full pass over the path from depth `sz` to depth `ez`.
pub open spec fn path_pass(p: PathV, sz: int, ez: int) -> Seq<InstrV> {
    segs_from(p, 0, sz, sz, ez)
}

/// The number of descending passes: how often the step fits in the depth,
/// never negative, capped at the pass-counter range.
pub open spec fn path_layers(p: PathV) -> int {
    let step = if p.max_step_z < 0 {
        -(p.max_step_z as int)
    } else {
        p.max_step_z as int
    };
    if p.start.z <= p.end_z || step == 0 {
        0
    } else {
        let n = (p.start.z - p.end_z) / step;
        if n > u32::MAX {
            u32::MAX as int
        } else {
            n
        }
    }
}

/// The first `n` descending passes over the path.
pub open spec fn path_passes(p: PathV, n: int) -> Seq<InstrV>
    decreases n,
    when n >= 0
{
    if n <= 0 {
        Seq::<InstrV>::empty()
    } else {
        let step = if p.max_step_z < 0 {
            -(p.max_step_z as int)
        } else {
            p.max_step_z as int
        };
        path_passes(p, n - 1) + path_pass(p, p.start.z - (n - 1) * step, p.start.z - n * step)
    }
}

/// The comment announcing a path cut.
pub open spec fn path_comment(p: PathV) -> Seq<char> {
    "Cut path at: x = "@ + num_str(p.start.x as int) + ", y = "@ + num_str(p.start.y as int)
}

/// The point the tool travels to before plunging: the path start offset by
/// the first segment's starting point.
pub open spec fn path_entry(p: PathV) -> Vector2 {
    Vector2 {
        x: (p.start.x + p.segments[0].begin().x) as i64,
        y: (p.start.y + p.segments[0].begin().y) as i64,
    }
}

/// The instruction stream of a path cut.
///
/// A path with no segments compiles to no instructions.  A path holding an
/// arc segment whose endpoints are not equidistant from its center fails
/// with that arc's distances.  Otherwise the tool descends one pass over the
/// whole profile per step, plus a final pass pinned to the end depth, then
/// retracts.
pub open spec fn path_spec(p: PathV, tool: Tool, units: Units, z_safe: i64) -> Result<
    Seq<InstrV>,
    CncError,
> {
    if p.segments.len() == 0 {
        Ok(Seq::<InstrV>::empty())
    } else {
        match first_arc_error(p.segments, 0, units) {
            Some(e) => Err(e),
            None => Ok(
                seq![
                    InstrV::Empty,
                    InstrV::Comment { text: path_comment(p) },
                    InstrV::G0 { x: None, y: None, z: Some(z_safe) },
                    InstrV::G0 {
                        x: Some(path_entry(p).x),
                        y: Some(path_entry(p).y),
                        z: None,
                    },
                    InstrV::G1 {
                        x: None,
                        y: None,
                        z: Some(p.start.z),
                        f: Some(tool.spec_feed_rate() as i64),
                    },
                ] + path_passes(p, path_layers(p)) + path_pass(p, p.end_z as int, p.end_z as int)
                    + seq![InstrV::G0 { x: None, y: None, z: Some(z_safe) }],
            ),
        }
    }
}

impl PathV {
    /// Whether the geometry of the path is inside the working range, with a
    /// segment count that keeps the total length computable.
    pub open spec fn wf(self) -> bool {
        &&& self.start.wf()
        &&& coord_ok(self.end_z as int)
        &&& coord_ok(self.max_step_z as int)
        &&& self.segments.len() <= 10000
        &&& forall|i: int| 0 <= i < self.segments.len() ==> #[trigger] self.segments[i].wf()
    }
}

impl Path {
    /// Whether the geometry of the path is inside the working range.
    pub open spec fn wf(self) -> bool {
        self@.wf()
    }

    /// A new path cut.
    pub fn new(start: Vector3, segments: Vec<Segment>, end_z: i64, max_step_z: i64) -> (p: Path)
        ensures
            p.start == start,
            p.segments == segments,
            p.end_z == end_z,
            p.max_step_z == max_step_z,
    {
        Path { start, segments, end_z, max_step_z }
    }

    /// The box the path spans, folded from each segment, each offset by the
    /// path start: lines and waypoints contribute their exact extent; an arc
    /// contributes its center plus and minus its radius, an approximation of
    /// the true arc extent.
    pub fn bounds(&self) -> (b: Bounds)
        requires
            self.wf(),
        ensures
            b == path_bounds(self@),
    {
        let mut bounds = crate::types::Bounds::minmax();
        let n = self.segments.len();
        let mut i: usize = 0;
        while i < n
            invariant
                0 <= i <= n,
                n == self.segments@.len(),
                self.wf(),
                bounds == path_bounds_upto(self@, i as int),
            decreases n - i,
        {
            proof {
                assert(self.segments@[i as int].wf());
            }
            let seg = self.segments[i];
            let min_z = if self.start.z < self.end_z {
                self.start.z
            } else {
                self.end_z
            };
            let max_z = if self.start.z > self.end_z {
                self.start.z
            } else {
                self.end_z
            };
            match seg {
                Segment::Arc(arc) => {
                    let radius = arc.radius();
                    let max_x = self.start.x + arc.center.x + radius;
                    let min_x = self.start.x + arc.center.x - radius;
                    let max_y = self.start.y + arc.center.y + radius;
                    let min_y = self.start.y + arc.center.y - radius;
                    if bounds.max.x < max_x {
                        bounds.max.x = max_x;
                    }
                    if bounds.max.y < max_y {
                        bounds.max.y = max_y;
                    }
                    if bounds.max.z < max_z {
                        bounds.max.z = max_z;
                    }
                    if bounds.min.x > min_x {
                        bounds.min.x = min_x;
                    }
                    if bounds.min.y > min_y {
                        bounds.min.y = min_y;
                    }
                    if bounds.min.z > min_z {
                        bounds.min.z = min_z;
                    }
                },
                Segment::Line(line) => {
                    let max_x = self.start.x + (if line.from.x > line.to.x {
                        line.from.x
                    } else {
                        line.to.x
                    });
                    let min_x = self.start.x + (if line.from.x < line.to.x {
                        line.from.x
                    } else {
                        line.to.x
                    });
                    let max_y = self.start.y + (if line.from.y > line.to.y {
                        line.from.y
                    } else {
                        line.to.y
                    });
                    let min_y = self.start.y + (if line.from.y < line.to.y {
                        line.from.y
                    } else {
                        line.to.y
                    });
                    if bounds.max.x < max_x {
                        bounds.max.x = max_x;
                    }
                    if bounds.max.y < max_y {
                        bounds.max.y = max_y;
                    }
                    if bounds.max.z < max_z {
                        bounds.max.z = max_z;
                    }
                    if bounds.min.x > min_x {
                        bounds.min.x = min_x;
                    }
                    if bounds.min.y > min_y {
                        bounds.min.y = min_y;
                    }
                    if bounds.min.z > min_z {
                        bounds.min.z = min_z;
                    }
                },
                Segment::Point(point) => {
                    let x = self.start.x + point.x;
                    let y = self.start.y + point.y;
                    if bounds.max.x < x {
                        bounds.max.x = x;
                    }
                    if bounds.max.y < y {
                        bounds.max.y = y;
                    }
                    if bounds.max.z < max_z {
                        bounds.max.z = max_z;
                    }
                    if bounds.min.x > x {
                        bounds.min.x = x;
                    }
                    if bounds.min.y > y {
                        bounds.min.y = y;
                    }
                    if bounds.min.z > min_z {
                        bounds.min.z = min_z;
                    }
                },
            }
            i += 1;
        }
        bounds
    }

    /// The path compiled to instructions, per [`path_spec`]: empty for a
    /// path with no segments, the first invalid arc's failure if one exists,
    /// and the full descending profile otherwise.
    #[verifier::rlimit(80)]
    pub fn to_instructions(&self, context: &InnerContext) -> (r: Result<Vec<Instruction>, CncError>)
        requires
            self.wf(),
            context.wf(),
        ensures
            crate::cuts::result_view(r) == path_spec(
                self@,
                context.spec_tool(),
                context.spec_units(),
                context.spec_z_safe(),
            ),
    {
        let mut instructions: Vec<Instruction> = Vec::new();
        if self.segments.len() == 0 {
            proof {
                assert(instructions.deep_view() =~= Seq::<InstrV>::empty());
            }
            return Ok(instructions);
        }

        // The declared segment lengths, measured from the previous end
        // point, and their total.
        let n = self.segments.len();
        let mut distances: Vec<i64> = Vec::new();
        let mut total: i128 = 0;
        let mut last_point = Vector2::new(0, 0);
        let mut i: usize = 0;
        while i < n
            invariant
                0 <= i <= n,
                n == self.segments@.len(),
                self.wf(),
                last_point == seg_prev(self.segments@, i as int),
                last_point.wf(),
                distances@.len() == i,
                forall|j: int| 0 <= j < i ==> distances@[j] == seg_dist(self.segments@, j),
                forall|j: int| 0 <= j < i ==> 0 <= #[trigger] distances@[j] <= 3
                    * crate::types::MAX_COORD,
                total == total_dist(self.segments@, i as int),
                0 <= total <= (i as int) * (3 * crate::types::MAX_COORD),
            decreases n - i,
        {
            proof {
                assert(self.segments@[i as int].wf());
            }
            let seg = self.segments[i];
            let end = match seg {
                Segment::Arc(a) => a.to,
                Segment::Line(l) => l.to,
                Segment::Point(p) => p,
            };
            let d = last_point.distance_to(end);
            distances.push(d);
            proof {
                assert((i as int) * (3 * crate::types::MAX_COORD) + 3 * crate::types::MAX_COORD
                    == (i as int + 1) * (3 * crate::types::MAX_COORD) && (i as int) * (3
                    * crate::types::MAX_COORD) <= 10000 * (3 * crate::types::MAX_COORD))
                    by (nonlinear_arith)
                    requires
                        0 <= i <= 10000,
                        crate::types::MAX_COORD == 10_000_000_000_000,
                ;
            }
            total = total + d as i128;
            last_point = end;
            i += 1;
        }

        // Validate every arc segment before emitting anything.
        let mut i: usize = 0;
        while i < n
            invariant
                0 <= i <= n,
                n == self.segments@.len(),
                self.wf(),
                context.wf(),
                first_arc_error(self.segments@, 0, context.spec_units()) == first_arc_error(
                    self.segments@,
                    i as int,
                    context.spec_units(),
                ),
            decreases n - i,
        {
            proof {
                assert(self.segments@[i as int].wf());
            }
            match self.segments[i] {
                Segment::Arc(a) => {
                    let d_from = a.from.distance_to(a.center);
                    let d_to = a.to.distance_to(a.center);
                    let diff = if d_from >= d_to {
                        d_from - d_to
                    } else {
                        d_to - d_from
                    };
                    if diff > 1 {
                        return Err(
                            CncError::ArcDistanceMismatch {
                                distance_from: d_from,
                                distance_to: d_to,
                                units: context.units(),
                            },
                        );
                    }
                },
                _ => {},
            }
            i += 1;
        }

        let ghost pv = self@;
        proof {
            assert(self.segments@[0].wf());
        }
        let entry = match self.segments[0] {
            Segment::Arc(a) => Vector2::new(self.start.x + a.from.x, self.start.y + a.from.y),
            Segment::Line(l) => Vector2::new(self.start.x + l.from.x, self.start.y + l.from.y),
            Segment::Point(p) => Vector2::new(self.start.x + p.x, self.start.y + p.y),
        };

        instructions.push(Instruction::Empty(Empty {}));
        let mut text = String::from_str("Cut path at: x = ");
        text.append(crate::text::format_num(self.start.x).as_str());
        text.append(", y = ");
        text.append(crate::text::format_num(self.start.y).as_str());
        instructions.push(Instruction::Comment(Comment { text }));
        instructions.push(Instruction::G0(G0 { x: None, y: None, z: Some(context.z_safe()) }));
        instructions.push(Instruction::G0(G0 { x: Some(entry.x), y: Some(entry.y), z: None }));
        instructions.push(
            Instruction::G1(
                G1 { x: None, y: None, z: Some(self.start.z), f: Some(context.tool().feed_rate()) },
            ),
        );
        let ghost header = instructions.deep_view();
        let ghost spec_header = seq![
            InstrV::Empty,
            InstrV::Comment { text: path_comment(pv) },
            InstrV::G0 { x: None, y: None, z: Some(context.spec_z_safe()) },
            InstrV::G0 { x: Some(path_entry(pv).x), y: Some(path_entry(pv).y), z: None },
            InstrV::G1 {
                x: None,
                y: None,
                z: Some(self.start.z),
                f: Some(context.spec_tool().spec_feed_rate() as i64),
            },
        ];
        proof {
            assert(header =~= spec_header);
            assert(header + path_passes(pv, 0) =~= header);
        }

        let max_step_z = if self.max_step_z < 0 {
            -self.max_step_z
        } else {
            self.max_step_z
        };
        let layers: u32 = if self.start.z <= self.end_z || max_step_z == 0 {
            0
        } else {
            let nn: i64 = (self.start.z - self.end_z) / max_step_z;
            if nn > u32::MAX as i64 {
                u32::MAX
            } else {
                nn as u32
            }
        };
        proof {
            assert(layers as int == path_layers(pv));
            if max_step_z != 0 && self.start.z > self.end_z {
                vstd::arithmetic::div_mod::lemma_fundamental_div_mod(
                    self.start.z - self.end_z,
                    max_step_z as int,
                );
                assert((layers as int) * (max_step_z as int) <= self.start.z - self.end_z)
                    by (nonlinear_arith)
                    requires
                        0 < max_step_z,
                        0 <= layers as int <= (self.start.z - self.end_z) / (max_step_z as int),
                        self.start.z - self.end_z == (max_step_z as int) * ((self.start.z
                            - self.end_z) / (max_step_z as int)) + (self.start.z - self.end_z) % (
                        max_step_z as int),
                        0 <= (self.start.z - self.end_z) % (max_step_z as int),
                ;
            }
        }

        let mut layer: u32 = 0;
        let mut start_z: i64 = self.start.z;
        while layer < layers
            invariant
                0 <= layer <= layers,
                layers as int == path_layers(pv),
                pv == self@,
                self.wf(),
                context.wf(),
                n == self.segments@.len(),
                distances@.len() == n,
                forall|j: int| 0 <= j < n ==> distances@[j] == seg_dist(self.segments@, j),
                forall|j: int| 0 <= j < n ==> 0 <= #[trigger] distances@[j] <= 3
                    * crate::types::MAX_COORD,
                total == total_dist(self.segments@, n as int),
                0 <= total <= 30000 * 10_000_000_000_000,
                max_step_z as int == if self.max_step_z < 0 {
                    -(self.max_step_z as int)
                } else {
                    self.max_step_z as int
                },
                0 <= (layer as int) * (max_step_z as int),
                layers > 0 ==> (layers as int) * (max_step_z as int) <= self.start.z - self.end_z,
                start_z as int == self.start.z - (layer as int) * (max_step_z as int),
                instructions.deep_view() == header + path_passes(pv, layer as int),
                header == spec_header,
            decreases layers - layer,
        {
            proof {
                assert((layer as int + 1) * (max_step_z as int) <= (layers as int) * (
                max_step_z as int) && (layer as int + 1) * (max_step_z as int) == (layer as int) * (
                max_step_z as int) + (max_step_z as int) && 0 <= (layer as int + 1) * (
                max_step_z as int)) by (nonlinear_arith)
                    requires
                        0 <= max_step_z,
                        0 <= layer,
                        layer as int + 1 <= layers as int,
                ;
            }
            let end_z = start_z - max_step_z;
            self.push_pass(&mut instructions, &distances, total, start_z, end_z);
            proof {
                vstd::seq_lib::lemma_concat_associative(
                    header,
                    path_passes(pv, layer as int),
                    path_pass(pv, start_z as int, end_z as int),
                );
                assert(path_passes(pv, layer as int + 1) == path_passes(pv, layer as int)
                    + path_pass(pv, start_z as int, end_z as int));
                assert(instructions.deep_view() == header + path_passes(pv, layer as int + 1));
            }
            start_z = end_z;
            layer += 1;
        }

        self.push_pass(&mut instructions, &distances, total, self.end_z, self.end_z);
        let ghost tail_base = instructions.deep_view();
        instructions.push(Instruction::G0(G0 { x: None, y: None, z: Some(context.z_safe()) }));

        proof {
            assert(instructions.deep_view() =~= tail_base + seq![
                InstrV::G0 { x: None, y: None, z: Some(context.spec_z_safe()) },
            ]);
            assert(instructions.deep_view() == path_spec(
                pv,
                context.spec_tool(),
                context.spec_units(),
                context.spec_z_safe(),
            )->Ok_0);
        }
        Ok(instructions)
    }

    /// Appends one full pass over the path from depth `sz` to depth `ez`.
    fn push_pass(
        &self,
        instructions: &mut Vec<Instruction>,
        distances: &Vec<i64>,
        total: i128,
        sz: i64,
        ez: i64,
    )
        requires
            self.wf(),
            distances@.len() == self.segments@.len(),
            forall|j: int| 0 <= j < distances@.len() ==> distances@[j] == seg_dist(self.segments@, j),
            forall|j: int| 0 <= j < distances@.len() ==> 0 <= #[trigger] distances@[j] <= 3
                * crate::types::MAX_COORD,
            total == total_dist(self.segments@, self.segments@.len() as int),
            0 <= total <= 30000 * 10_000_000_000_000,
            -10 * crate::types::MAX_COORD <= sz <= 10 * crate::types::MAX_COORD,
            -10 * crate::types::MAX_COORD <= ez <= 10 * crate::types::MAX_COORD,
            -crate::types::MAX_COORD <= sz - ez <= crate::types::MAX_COORD,
        ensures
            final(instructions).deep_view() == old(instructions).deep_view() + path_pass(
                self@,
                sz as int,
                ez as int,
            ),
    {
        let ghost pv = self@;
        let ghost base = instructions.deep_view();
        let n = self.segments.len();
        let mut from_z: i64 = sz;
        let mut i: usize = 0;
        while i < n
            invariant
                0 <= i <= n,
                n == self.segments@.len(),
                pv == self@,
                self.wf(),
                distances@.len() == n,
                forall|j: int| 0 <= j < n ==> distances@[j] == seg_dist(self.segments@, j),
                forall|j: int| 0 <= j < n ==> 0 <= #[trigger] distances@[j] <= 3
                    * crate::types::MAX_COORD,
                total == total_dist(self.segments@, n as int),
                0 <= total <= 30000 * 10_000_000_000_000,
                -10 * crate::types::MAX_COORD <= sz <= 10 * crate::types::MAX_COORD,
                -10 * crate::types::MAX_COORD <= ez <= 10 * crate::types::MAX_COORD,
                -crate::types::MAX_COORD <= sz - ez <= crate::types::MAX_COORD,
                -(10 * crate::types::MAX_COORD + (i as int) * (10 * crate::types::MAX_COORD + 1))
                    <= from_z <= 10 * crate::types::MAX_COORD + (i as int) * (10
                    * crate::types::MAX_COORD + 1),
                base + segs_from(pv, 0, sz as int, sz as int, ez as int)
                    == instructions.deep_view() + segs_from(
                    pv,
                    i as int,
                    from_z as int,
                    sz as int,
                    ez as int,
                ),
            decreases n - i,
        {
            let d: i64 = distances[i];
            proof {
                assert(self.segments@[i as int].wf());
                lemma_total_dist_bounds(self.segments@, i as int, n as int);
                assert(d <= total);
                assert((d as int) * ((sz - ez) as int) <= (total as int) * 100_000_000_000_000
                    && (d as int) * ((sz - ez) as int) >= -((total as int) * 100_000_000_000_000)
                    && -900_000_000_000_000_000_000_000_000 <= (d as int) * ((sz - ez) as int)
                    <= 900_000_000_000_000_000_000_000_000) by (nonlinear_arith)
                    requires
                        0 <= d <= 3 * crate::types::MAX_COORD,
                        d <= total,
                        -crate::types::MAX_COORD <= (sz - ez) as int <= crate::types::MAX_COORD,
                        crate::types::MAX_COORD == 10_000_000_000_000,
                        0 <= total,
                ;
            }
            proof {
                let bound = 10 * crate::types::MAX_COORD + 1;
                assert((i as int) * bound <= 10000 * bound && (i as int + 1) * bound == (i as int)
                    * bound + bound && 0 <= (i as int) * bound) by (nonlinear_arith)
                    requires
                        0 <= i <= 10000,
                        bound == 10 * crate::types::MAX_COORD + 1,
                        crate::types::MAX_COORD == 10_000_000_000_000,
                ;
            }
            let to_z: i64 = from_z - rdiv_i128(d as i128 * (sz as i128 - ez as i128), total);
            let ghost pre = instructions.deep_view();
            let seg = self.segments[i];
            match seg {
                Segment::Arc(a) => {
                    instructions.push(
                        Instruction::G1(
                            G1 {
                                x: Some(self.start.x + a.from.x),
                                y: Some(self.start.y + a.from.y),
                                z: Some(from_z),
                                f: None,
                            },
                        ),
                    );
                    match a.axis {
                        Axis::X => instructions.push(Instruction::G19(G19 {})),
                        Axis::Y => instructions.push(Instruction::G18(G18 {})),
                        Axis::Z => instructions.push(Instruction::G17(G17 {})),
                    }
                    match a.direction {
                        Direction::Clockwise => {
                            instructions.push(
                                Instruction::G2(
                                    G2 {
                                        x: Some(self.start.x + a.to.x),
                                        y: Some(self.start.y + a.to.y),
                                        z: Some(to_z),
                                        i: Some(a.center.x - a.from.x),
                                        j: Some(a.center.y - a.from.y),
                                        k: None,
                                        r: None,
                                        p: None,
                                        f: None,
                                    },
                                ),
                            );
                        },
                        Direction::Counterclockwise => {
                            instructions.push(
                                Instruction::G3(
                                    G3 {
                                        x: Some(self.start.x + a.to.x),
                                        y: Some(self.start.y + a.to.y),
                                        z: Some(to_z),
                                        i: Some(a.center.x - a.from.x),
                                        j: Some(a.center.y - a.from.y),
                                        k: None,
                                        r: None,
                                        p: None,
                                        f: None,
                                    },
                                ),
                            );
                        },
                    }
                    instructions.push(Instruction::G17(G17 {}));
                },
                Segment::Line(l) => {
                    instructions.push(
                        Instruction::G1(
                            G1 {
                                x: Some(self.start.x + l.from.x),
                                y: Some(self.start.y + l.from.y),
                                z: Some(from_z),
                                f: None,
                            },
                        ),
                    );
                    instructions.push(
                        Instruction::G1(
                            G1 {
                                x: Some(self.start.x + l.to.x),
                                y: Some(self.start.y + l.to.y),
                                z: Some(to_z),
                                f: None,
                            },
                        ),
                    );
                },
                Segment::Point(pt) => {
                    instructions.push(
                        Instruction::G1(
                            G1 {
                                x: Some(self.start.x + pt.x),
                                y: Some(self.start.y + pt.y),
                                z: Some(to_z),
                                f: None,
                            },
                        ),
                    );
                },
            }
            proof {
                assert(instructions.deep_view() =~= pre + seg_instrs(
                    pv,
                    i as int,
                    from_z as int,
                    to_z as int,
                ));
                assert(segs_from(pv, i as int, from_z as int, sz as int, ez as int)
                    == seg_instrs(pv, i as int, from_z as int, to_z as int) + segs_from(
                    pv,
                    i as int + 1,
                    to_z as int,
                    sz as int,
                    ez as int,
                ));
                vstd::seq_lib::lemma_concat_associative(
                    pre,
                    seg_instrs(pv, i as int, from_z as int, to_z as int),
                    segs_from(pv, i as int + 1, to_z as int, sz as int, ez as int),
                );
                assert(base + segs_from(pv, 0, sz as int, sz as int, ez as int)
                    == instructions.deep_view() + segs_from(
                    pv,
                    i as int + 1,
                    to_z as int,
                    sz as int,
                    ez as int,
                ));
            }
            from_z = to_z;
            i += 1;
        }
        proof {
            assert(segs_from(pv, n as int, from_z as int, sz as int, ez as int) == Seq::<
                InstrV,
            >::empty());
            assert(instructions.deep_view() + Seq::<InstrV>::empty()
                =~= instructions.deep_view());
            assert(instructions.deep_view() == base + path_pass(pv, sz as int, ez as int));
        }
    }
}

/// The bounds folded from the first `i` segments of a path.
pub open spec fn path_bounds_upto(p: PathV, i: int) -> Bounds
    decreases i,
    when i >= 0
{
    if i <= 0 {
        Bounds {
            min: Vector3 { x: i64::MAX, y: i64::MAX, z: i64::MAX },
            max: Vector3 { x: i64::MIN, y: i64::MIN, z: i64::MIN },
        }
    } else {
        let b = path_bounds_upto(p, i - 1);
        let min_z = if p.start.z < p.end_z {
            p.start.z
        } else {
            p.end_z
        };
        let max_z = if p.start.z > p.end_z {
            p.start.z
        } else {
            p.end_z
        };
        let (min_x, max_x, min_y, max_y): (int, int, int, int) = match p.segments[i - 1] {
            Segment::Arc(a) => (
                p.start.x + a.center.x - arc2d_radius(a),
                p.start.x + a.center.x + arc2d_radius(a),
                p.start.y + a.center.y - arc2d_radius(a),
                p.start.y + a.center.y + arc2d_radius(a),
            ),
            Segment::Line(l) => (
                p.start.x + (if l.from.x < l.to.x {
                    l.from.x
                } else {
                    l.to.x
                }),
                p.start.x + (if l.from.x > l.to.x {
                    l.from.x
                } else {
                    l.to.x
                }),
                p.start.y + (if l.from.y < l.to.y {
                    l.from.y
                } else {
                    l.to.y
                }),
                p.start.y + (if l.from.y > l.to.y {
                    l.from.y
                } else {
                    l.to.y
                }),
            ),
            Segment::Point(pt) => (
                p.start.x + pt.x,
                p.start.x + pt.x,
                p.start.y + pt.y,
                p.start.y + pt.y,
            ),
        };
        Bounds {
            min: Vector3 {
                x: if b.min.x > min_x {
                    min_x as i64
                } else {
                    b.min.x
                },
                y: if b.min.y > min_y {
                    min_y as i64
                } else {
                    b.min.y
                },
                z: if b.min.z > min_z {
                    min_z as i64
                } else {
                    b.min.z
                },
            },
            max: Vector3 {
                x: if b.max.x < max_x {
                    max_x as i64
                } else {
                    b.max.x
                },
                y: if b.max.y < max_y {
                    max_y as i64
                } else {
                    b.max.y
                },
                z: if b.max.z < max_z {
                    max_z as i64
                } else {
                    b.max.z
                },
            },
        }
    }
}

/// The bounds of a whole path.
pub open spec fn path_bounds(p: PathV) -> Bounds {
    path_bounds_upto(p, p.segments.len() as int)
}

} // verus!
