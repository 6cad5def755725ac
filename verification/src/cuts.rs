//! The cut engine: the declared material-removal operations and their
//! compilation to instruction streams.
//!
//! Each cut kind exposes `bounds()` and `to_instructions(context)`, and each
//! has a spec function stating the exact instruction stream (or failure) it
//! compiles to.

use vstd::prelude::*;

pub mod arc;
pub mod area;
pub mod circle;
pub mod frame;
pub mod line;
pub mod path;

pub use arc::Arc;
pub use area::Area;
pub use circle::Circle;
pub use frame::Frame;
pub use line::Line;
pub use path::Arc2D;
pub use path::Line2D;
pub use path::Path;
pub use path::PathV;
pub use path::Segment;

use crate::errors::CncError;
use crate::instructions::{Instruction, InstrV};
use crate::program::InnerContext;
use crate::text::num_str;
use crate::tools::Tool;
use crate::types::{Bounds, ToolPathCompensation, Units, Vector2, Vector3};

verus! {

/// A result of compiling to instructions, with the instruction list
/// abstracted to its view.
pub open spec fn result_view(r: Result<Vec<Instruction>, CncError>) -> Result<
    Seq<InstrV>,
    CncError,
> {
    match r {
        Ok(v) => Ok(v.deep_view()),
        Err(e) => Err(e),
    }
}

/// Division rounded to the nearest integer, half away from zero; zero for a
/// non-positive divisor.  This distributes a depth over proportional shares.
pub open spec fn rdiv(n: int, d: int) -> int {
    if d <= 0 {
        0
    } else if n >= 0 {
        (n + d / 2) / d
    } else {
        -(((-n) + d / 2) / d)
    }
}

/// Division rounded to the nearest integer, per [`rdiv`].
pub(crate) fn rdiv_i128(n: i128, d: i128) -> (r: i64)
    requires
        d <= 1_000_000_000_000_000_000,
        d <= 0 || (-d * 100_000_000_000_000 <= n && n <= d * 100_000_000_000_000),
    ensures
        r as int == rdiv(n as int, d as int),
        -100_000_000_000_001 <= r <= 100_000_000_000_001,
{
    if d <= 0 {
        return 0;
    }
    let neg = n < 0;
    let a: u128 = if neg {
        (-n) as u128
    } else {
        n as u128
    };
    let du: u128 = d as u128;
    let q: u128 = (a + du / 2) / du;
    proof {
        assert((a + du / 2) as int <= (d as int) * 100_000_000_000_001) by (nonlinear_arith)
            requires
                a as int <= (d as int) * 100_000_000_000_000,
                1 <= d,
                du == d,
        ;
        vstd::arithmetic::div_mod::lemma_div_is_ordered(
            (a + du / 2) as int,
            (d as int) * 100_000_000_000_001,
            d as int,
        );
        vstd::arithmetic::div_mod::lemma_div_multiples_vanish(100_000_000_000_001, d as int);
        assert((d as int) * 100_000_000_000_001 / (d as int) == 100_000_000_000_001);
    }
    let r = q as i64;
    if neg {
        -r
    } else {
        r
    }
}

/// A start corner offset by the compensation: inward by the tool radius for
/// `Inner`, outward for `Outer`.
pub open spec fn comp_start(start: Vector3, comp: ToolPathCompensation, tr: int) -> Vector3 {
    match comp {
        ToolPathCompensation::Off => start,
        ToolPathCompensation::Inner => Vector3 {
            x: (start.x + tr) as i64,
            y: (start.y + tr) as i64,
            z: start.z,
        },
        ToolPathCompensation::Outer => Vector3 {
            x: (start.x - tr) as i64,
            y: (start.y - tr) as i64,
            z: start.z,
        },
    }
}

/// A size offset by the compensation: shrunk by the tool diameter for
/// `Inner`, grown for `Outer`.
pub open spec fn comp_size(size: Vector2, comp: ToolPathCompensation, tr: int) -> Vector2 {
    match comp {
        ToolPathCompensation::Off => size,
        ToolPathCompensation::Inner => Vector2 {
            x: (size.x - 2 * tr) as i64,
            y: (size.y - 2 * tr) as i64,
        },
        ToolPathCompensation::Outer => Vector2 {
            x: (size.x + 2 * tr) as i64,
            y: (size.y + 2 * tr) as i64,
        },
    }
}

/// The text a 2D point prints as inside comments.
pub open spec fn vector2_text(v: Vector2) -> Seq<char> {
    "{x: "@ + num_str(v.x as int) + ", y: "@ + num_str(v.y as int) + "}"@
}

/// The text a 2D point prints as inside comments, per [`vector2_text`].
pub fn vector2_string(v: Vector2) -> (s: String)
    ensures
        s@ == vector2_text(v),
{
    let mut s = String::from_str("{x: ");
    s.append(crate::text::format_num(v.x).as_str());
    s.append(", y: ");
    s.append(crate::text::format_num(v.y).as_str());
    s.append("}");
    s
}

/// One declared cut, of any kind.
#[derive(Debug, Clone)]
pub enum Cut {
    /// An arc move around a chosen axis.
    Arc(Arc),
    /// A top-down circle cut; also drills.
    Circle(Circle),
    /// A top-down rectangular frame cut.
    Frame(Frame),
    /// A line cut between two 3D points.
    Line(Line),
    /// A top-down path cut built from segments.
    Path(Path),
    /// A top-down rectangular area cut, for pockets and planing.
    Area(Area),
}

/// The mathematical shape of one cut.
pub enum CutV {
    /// An arc move around a chosen axis.
    Arc(Arc),
    /// A top-down circle cut.
    Circle(Circle),
    /// A top-down rectangular frame cut.
    Frame(Frame),
    /// A line cut between two 3D points.
    Line(Line),
    /// A top-down path cut.
    Path(PathV),
    /// A top-down rectangular area cut.
    Area(Area),
}

impl View for Cut {
    type V = CutV;

    open spec fn view(&self) -> CutV {
        match self {
            Cut::Arc(c) => CutV::Arc(*c),
            Cut::Circle(c) => CutV::Circle(*c),
            Cut::Frame(c) => CutV::Frame(*c),
            Cut::Line(c) => CutV::Line(*c),
            Cut::Path(c) => CutV::Path(c@),
            Cut::Area(c) => CutV::Area(*c),
        }
    }
}

impl DeepView for Cut {
    type V = CutV;

    open spec fn deep_view(&self) -> CutV {
        self.view()
    }
}

/// Whether a cut's geometry is inside the working range.
pub open spec fn cut_wf(c: CutV) -> bool {
    match c {
        CutV::Arc(x) => x.wf(),
        CutV::Circle(x) => x.wf(),
        CutV::Frame(x) => x.wf(),
        CutV::Line(x) => x.wf(),
        CutV::Path(x) => x.wf(),
        CutV::Area(x) => x.wf(),
    }
}

/// The bounds of a cut, by kind.
#[verifier::opaque]
pub open spec fn cut_bounds(c: CutV) -> Bounds {
    match c {
        CutV::Arc(x) => Bounds {
            min: Vector3 { x: 0, y: 0, z: 0 },
            max: Vector3 { x: 0, y: 0, z: 0 },
        },
        CutV::Circle(x) => Bounds {
            min: Vector3 {
                x: (x.start.x - x.radius) as i64,
                y: (x.start.y - x.radius) as i64,
                z: x.end_z,
            },
            max: Vector3 {
                x: (x.start.x + x.radius) as i64,
                y: (x.start.y + x.radius) as i64,
                z: x.start.z,
            },
        },
        CutV::Frame(x) => Bounds {
            min: Vector3 { x: x.start.x, y: x.start.y, z: x.end_z },
            max: Vector3 {
                x: (x.start.x + x.size.x) as i64,
                y: (x.start.y + x.size.y) as i64,
                z: x.start.z,
            },
        },
        CutV::Line(x) => Bounds {
            min: Vector3 {
                x: line::min_i64(x.from.x, x.to.x),
                y: line::min_i64(x.from.y, x.to.y),
                z: line::min_i64(x.from.z, x.to.z),
            },
            max: Vector3 {
                x: line::max_i64(x.from.x, x.to.x),
                y: line::max_i64(x.from.y, x.to.y),
                z: line::max_i64(x.from.z, x.to.z),
            },
        },
        CutV::Path(x) => path::path_bounds(x),
        CutV::Area(x) => Bounds {
            min: Vector3 {
                x: x.start.x,
                y: x.start.y,
                z: if x.end_z < x.end_z_stop {
                    x.end_z
                } else {
                    x.end_z_stop
                },
            },
            max: Vector3 {
                x: (x.start.x + x.size.x) as i64,
                y: (x.start.y + x.size.y) as i64,
                z: x.start.z,
            },
        },
    }
}

/// The instruction stream of a cut, by kind.
#[verifier::opaque]
pub open spec fn cut_spec(c: CutV, tool: Tool, units: Units, z_safe: i64) -> Result<
    Seq<InstrV>,
    CncError,
> {
    match c {
        CutV::Arc(x) => arc::arc_spec(x, tool, units, z_safe),
        CutV::Circle(x) => circle::circle_spec(x, tool, units, z_safe),
        CutV::Frame(x) => frame::frame_spec(x, tool, units, z_safe),
        CutV::Line(x) => line::line_spec(x, tool, units, z_safe),
        CutV::Path(x) => path::path_spec(x, tool, units, z_safe),
        CutV::Area(x) => area::area_spec(x, tool, units, z_safe),
    }
}

impl Cut {
    /// Whether the cut's geometry is inside the working range.
    pub open spec fn wf(self) -> bool {
        cut_wf(self.deep_view())
    }

    /// A top-down circle cut without compensation.
    pub fn circle(start: Vector3, end_z: i64, radius: i64, max_step_z: i64) -> (c: Cut)
        ensures
            c == Cut::Circle(
                Circle { start, radius, end_z, max_step_z, compensation: ToolPathCompensation::Off },
            ),
    {
        Cut::Circle(Circle::new(start, radius, end_z, max_step_z, ToolPathCompensation::Off))
    }

    /// A circle cut compensated inward, for cutting holes.
    pub fn circle_inner(start: Vector3, end_z: i64, radius: i64, max_step_z: i64) -> (c: Cut)
        ensures
            c == Cut::Circle(
                Circle {
                    start,
                    radius,
                    end_z,
                    max_step_z,
                    compensation: ToolPathCompensation::Inner,
                },
            ),
    {
        Cut::Circle(Circle::new(start, radius, end_z, max_step_z, ToolPathCompensation::Inner))
    }

    /// A circle cut compensated outward, for cutting out round pieces.
    pub fn circle_outer(start: Vector3, end_z: i64, radius: i64, max_step_z: i64) -> (c: Cut)
        ensures
            c == Cut::Circle(
                Circle {
                    start,
                    radius,
                    end_z,
                    max_step_z,
                    compensation: ToolPathCompensation::Outer,
                },
            ),
    {
        Cut::Circle(Circle::new(start, radius, end_z, max_step_z, ToolPathCompensation::Outer))
    }

    /// A top-down drill cut.
    pub fn drill(start: Vector3, end_z: i64) -> (c: Cut)
        ensures
            c == Cut::Circle(
                Circle {
                    start,
                    radius: 0,
                    end_z,
                    max_step_z: 0,
                    compensation: ToolPathCompensation::Off,
                },
            ),
    {
        Cut::Circle(Circle::drill(start, end_z))
    }

    /// An arc cut.
    pub fn arc(from: Vector3, to: Vector3, center: Vector3, axis: crate::types::Axis, direction: crate::types::Direction) -> (c: Cut)
        ensures
            c == Cut::Arc(Arc { from, to, center, axis, direction }),
    {
        Cut::Arc(Arc::new(from, to, center, axis, direction))
    }

    /// A line cut.
    pub fn line(from: Vector3, to: Vector3) -> (c: Cut)
        ensures
            c == Cut::Line(Line { from, to }),
    {
        Cut::Line(Line::new(from, to))
    }

    /// A top-down path cut from segments.
    pub fn path(start: Vector3, segments: Vec<Segment>, end_z: i64, max_step_z: i64) -> (c: Cut)
        ensures
            c.deep_view() == CutV::Path(
                PathV { start, segments: segments@, end_z, max_step_z },
            ),
    {
        Cut::Path(Path::new(start, segments, end_z, max_step_z))
    }

    /// A rectangular frame cut without compensation.
    pub fn frame(start: Vector3, size: Vector2, end_z: i64, max_step_z: i64) -> (c: Cut)
        ensures
            c == Cut::Frame(
                Frame { start, size, end_z, max_step_z, compensation: ToolPathCompensation::Off },
            ),
    {
        Cut::Frame(Frame::new(start, size, end_z, max_step_z, ToolPathCompensation::Off))
    }

    /// A frame cut compensated inward, for rectangular holes.
    pub fn frame_inner(start: Vector3, size: Vector2, end_z: i64, max_step_z: i64) -> (c: Cut)
        ensures
            c == Cut::Frame(
                Frame { start, size, end_z, max_step_z, compensation: ToolPathCompensation::Inner },
            ),
    {
        Cut::Frame(Frame::new(start, size, end_z, max_step_z, ToolPathCompensation::Inner))
    }

    /// A frame cut compensated outward, for cutting out rectangular pieces.
    pub fn frame_outer(start: Vector3, size: Vector2, end_z: i64, max_step_z: i64) -> (c: Cut)
        ensures
            c == Cut::Frame(
                Frame { start, size, end_z, max_step_z, compensation: ToolPathCompensation::Outer },
            ),
    {
        Cut::Frame(Frame::new(start, size, end_z, max_step_z, ToolPathCompensation::Outer))
    }

    /// A planing cut: an area compensated outward.
    pub fn plane(start: Vector3, size: Vector2, end_z: i64, max_step_z: i64) -> (c: Cut)
        ensures
            c == Cut::Area(
                Area {
                    start,
                    size,
                    end_z,
                    end_z_stop: end_z,
                    max_step_z,
                    compensation: ToolPathCompensation::Outer,
                },
            ),
    {
        Cut::Area(Area::new(start, size, end_z, max_step_z, ToolPathCompensation::Outer))
    }

    /// A pocket cut: an area compensated inward.
    pub fn pocket(start: Vector3, size: Vector2, end_z: i64, max_step_z: i64) -> (c: Cut)
        ensures
            c == Cut::Area(
                Area {
                    start,
                    size,
                    end_z,
                    end_z_stop: end_z,
                    max_step_z,
                    compensation: ToolPathCompensation::Inner,
                },
            ),
    {
        Cut::Area(Area::new(start, size, end_z, max_step_z, ToolPathCompensation::Inner))
    }

    /// A planing cut whose far side descends to its own depth, tilting the
    /// floor.  Only this one slope direction is supported.
    pub fn plane_with_slope(
        start: Vector3,
        size: Vector2,
        end_z: i64,
        end_z_stop: i64,
        max_step_z: i64,
    ) -> (c: Cut)
        ensures
            c == Cut::Area(
                Area {
                    start,
                    size,
                    end_z,
                    end_z_stop,
                    max_step_z,
                    compensation: ToolPathCompensation::Outer,
                },
            ),
    {
        Cut::Area(
            Area::new_with_slope(start, size, end_z, end_z_stop, max_step_z,
                ToolPathCompensation::Outer),
        )
    }

    /// The bounds of the cut, per [`cut_bounds`].
    pub fn bounds(&self) -> (b: Bounds)
        requires
            self.wf(),
        ensures
            b == cut_bounds(self.deep_view()),
    {
        proof {
            reveal(cut_bounds);
        }
        match self {
            Cut::Arc(c) => c.bounds(),
            Cut::Circle(c) => c.bounds(),
            Cut::Frame(c) => c.bounds(),
            Cut::Line(c) => c.bounds(),
            Cut::Path(c) => c.bounds(),
            Cut::Area(c) => c.bounds(),
        }
    }

    /// The cut compiled to instructions, per [`cut_spec`].
    pub fn to_instructions(&self, context: &InnerContext) -> (r: Result<Vec<Instruction>, CncError>)
        requires
            self.wf(),
            context.wf(),
            self.deep_view() is Area ==> context.spec_tool().spec_diameter() >= 2,
        ensures
            result_view(r) == cut_spec(
                self.deep_view(),
                context.spec_tool(),
                context.spec_units(),
                context.spec_z_safe(),
            ),
    {
        proof {
            reveal(cut_spec);
        }
        match self {
            Cut::Arc(c) => c.to_instructions(context),
            Cut::Circle(c) => c.to_instructions(context),
            Cut::Frame(c) => c.to_instructions(context),
            Cut::Line(c) => c.to_instructions(context),
            Cut::Path(c) => c.to_instructions(context),
            Cut::Area(c) => c.to_instructions(context),
        }
    }
}

} // verus!
