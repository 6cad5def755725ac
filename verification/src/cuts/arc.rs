//! Arc moves between two 3D points around a chosen axis.

use vstd::prelude::*;

use crate::errors::CncError;
use crate::instructions::{Comment, Empty, Instruction, InstrV, G0, G1, G17, G18, G19, G2, G3};
use crate::program::InnerContext;
use crate::text::num_str;
use crate::tools::Tool;
use crate::types::{
    axis_label, dist3, direction_label, Axis, Bounds, Direction, Units, Vector3,
};

verus! {

/// An arc move from one 3D point to another around an axis, in either
/// direction.  The center must be equidistant from both endpoints, to the
/// tolerance of one ten-thousandth of a unit.
#[derive(Debug, Clone, Copy)]
pub struct Arc {
    /// The starting point.
    pub from: Vector3,
    /// The end point.
    pub to: Vector3,
    /// The center; the radius follows from it and the endpoints.
    pub center: Vector3,
    /// The axis to turn around; `Axis::Z` gives a conventional top-down arc.
    pub axis: Axis,
    /// The rotation direction.
    pub direction: Direction,
}

/// The plane-select instruction for an arc around the given axis.
pub open spec fn plane_select(axis: Axis) -> InstrV {
    match axis {
        Axis::X => InstrV::G19,
        Axis::Y => InstrV::G18,
        Axis::Z => InstrV::G17,
    }
}

/// The comment announcing an arc cut.
pub open spec fn arc_comment(a: Arc) -> Seq<char> {
    "Cut arc "@ + direction_label(a.direction) + " at axis "@ + axis_label(a.axis) + ", from: x = "@
        + num_str(a.from.x as int) + ", y = "@ + num_str(a.from.y as int) + ", z = "@ + num_str(
        a.from.z as int,
    ) + ", to:  x = "@ + num_str(a.to.x as int) + ", y = "@ + num_str(a.to.y as int) + ", z = "@
        + num_str(a.to.z as int)
}

/// The instruction stream of an arc cut, or the distance-mismatch failure.
///
/// The cut fails exactly when the distances from the endpoints to the center
/// differ by more than one ten-thousandth of a unit.  On success it retracts
/// to the safe height, travels to the start, plunges at the tool's feed
/// rate, selects the plane of the arc's axis, emits one arc move whose
/// center offsets are relative to the start, resets the plane and retracts.
pub open spec fn arc_spec(a: Arc, tool: Tool, units: Units, z_safe: i64) -> Result<
    Seq<InstrV>,
    CncError,
> {
    let d_from = dist3(a.from, a.center);
    let d_to = dist3(a.to, a.center);
    if (if d_from >= d_to {
        d_from - d_to
    } else {
        d_to - d_from
    }) > 1 {
        Err(
            CncError::ArcDistanceMismatch {
                distance_from: d_from as i64,
                distance_to: d_to as i64,
                units,
            },
        )
    } else {
        Ok(
            seq![
                InstrV::Empty,
                InstrV::Comment { text: arc_comment(a) },
                InstrV::G0 { x: None, y: None, z: Some(z_safe) },
                InstrV::G0 { x: Some(a.from.x), y: Some(a.from.y), z: None },
                InstrV::G1 {
                    x: None,
                    y: None,
                    z: Some(a.from.z),
                    f: Some(tool.spec_feed_rate() as i64),
                },
                plane_select(a.axis),
                arc_move(a, tool),
                InstrV::G17,
                InstrV::G0 { x: None, y: None, z: Some(z_safe) },
            ],
        )
    }
}

/// The single arc-move instruction of an arc cut.
pub open spec fn arc_move(a: Arc, tool: Tool) -> InstrV {
    match a.direction {
        Direction::Clockwise => InstrV::G2 {
            x: Some(a.to.x),
            y: Some(a.to.y),
            z: Some(a.to.z),
            i: Some((a.center.x - a.from.x) as i64),
            j: Some((a.center.y - a.from.y) as i64),
            k: Some((a.center.z - a.from.z) as i64),
            r: None,
            p: None,
            f: Some(tool.spec_feed_rate() as i64),
        },
        Direction::Counterclockwise => InstrV::G3 {
            x: Some(a.to.x),
            y: Some(a.to.y),
            z: Some(a.to.z),
            i: Some((a.center.x - a.from.x) as i64),
            j: Some((a.center.y - a.from.y) as i64),
            k: Some((a.center.z - a.from.z) as i64),
            r: None,
            p: None,
            f: Some(tool.spec_feed_rate() as i64),
        },
    }
}

impl Arc {
    /// Whether the points of the arc are inside the working range.
    pub open spec fn wf(self) -> bool {
        self.from.wf() && self.to.wf() && self.center.wf()
    }

    /// A new arc.
    pub fn new(from: Vector3, to: Vector3, center: Vector3, axis: Axis, direction: Direction) -> (a:
        Arc)
        ensures
            a == (Arc { from, to, center, axis, direction }),
    {
        Arc { from, to, center, axis, direction }
    }

    /// The radius of the arc: the larger of the two endpoint distances to
    /// the center.
    pub fn radius(&self) -> (r: i64)
        requires
            self.wf(),
        ensures
            r == if dist3(self.from, self.center) >= dist3(self.to, self.center) {
                dist3(self.from, self.center)
            } else {
                dist3(self.to, self.center)
            },
    {
        let d_from = self.from.distance_to(self.center);
        let d_to = self.to.distance_to(self.center);
        if d_from >= d_to {
            d_from
        } else {
            d_to
        }
    }

    /// The bounds of the arc move.  Arc extents are not computed: the box is
    /// degenerate at the origin, and callers needing real arc bounds must
    /// compute them independently.
    pub fn bounds(&self) -> (b: Bounds)
        ensures
            b == (Bounds {
                min: Vector3 { x: 0, y: 0, z: 0 },
                max: Vector3 { x: 0, y: 0, z: 0 },
            }),
    {
        Bounds { min: Vector3::default(), max: Vector3::default() }
    }

    /// The arc compiled to instructions, per [`arc_spec`]: it fails exactly
    /// when the endpoint distances to the center differ by more than one
    /// ten-thousandth of a unit.
    pub fn to_instructions(&self, context: &InnerContext) -> (r: Result<Vec<Instruction>, CncError>)
        requires
            self.wf(),
            context.wf(),
        ensures
            crate::cuts::result_view(r) == arc_spec(
                *self,
                context.spec_tool(),
                context.spec_units(),
                context.spec_z_safe() as i64,
            ),
    {
        let distance_from = self.from.distance_to(self.center);
        let distance_to = self.to.distance_to(self.center);
        let diff = if distance_from >= distance_to {
            distance_from - distance_to
        } else {
            distance_to - distance_from
        };
        if diff > 1 {
            return Err(
                CncError::ArcDistanceMismatch {
                    distance_from,
                    distance_to,
                    units: context.units(),
                },
            );
        }

        let mut instructions: Vec<Instruction> = Vec::new();
        instructions.push(Instruction::Empty(Empty {}));

        let mut text = String::from_str("Cut arc ");
        text.append(self.direction.label());
        text.append(" at axis ");
        text.append(self.axis.label());
        text.append(", from: x = ");
        text.append(crate::text::format_num(self.from.x).as_str());
        text.append(", y = ");
        text.append(crate::text::format_num(self.from.y).as_str());
        text.append(", z = ");
        text.append(crate::text::format_num(self.from.z).as_str());
        text.append(", to:  x = ");
        text.append(crate::text::format_num(self.to.x).as_str());
        text.append(", y = ");
        text.append(crate::text::format_num(self.to.y).as_str());
        text.append(", z = ");
        text.append(crate::text::format_num(self.to.z).as_str());
        instructions.push(Instruction::Comment(Comment { text }));

        instructions.push(Instruction::G0(G0 { x: None, y: None, z: Some(context.z_safe()) }));
        instructions.push(Instruction::G0(G0 { x: Some(self.from.x), y: Some(self.from.y), z: None }));
        instructions.push(
            Instruction::G1(
                G1 { x: None, y: None, z: Some(self.from.z), f: Some(context.tool().feed_rate()) },
            ),
        );

        match self.axis {
            Axis::X => instructions.push(Instruction::G19(G19 {})),
            Axis::Y => instructions.push(Instruction::G18(G18 {})),
            Axis::Z => instructions.push(Instruction::G17(G17 {})),
        }

        let feed = context.tool().feed_rate();
        match self.direction {
            Direction::Clockwise => {
                instructions.push(
                    Instruction::G2(
                        G2 {
                            x: Some(self.to.x),
                            y: Some(self.to.y),
                            z: Some(self.to.z),
                            i: Some(self.center.x - self.from.x),
                            j: Some(self.center.y - self.from.y),
                            k: Some(self.center.z - self.from.z),
                            r: None,
                            p: None,
                            f: Some(feed),
                        },
                    ),
                );
            },
            Direction::Counterclockwise => {
                instructions.push(
                    Instruction::G3(
                        G3 {
                            x: Some(self.to.x),
                            y: Some(self.to.y),
                            z: Some(self.to.z),
                            i: Some(self.center.x - self.from.x),
                            j: Some(self.center.y - self.from.y),
                            k: Some(self.center.z - self.from.z),
                            r: None,
                            p: None,
                            f: Some(feed),
                        },
                    ),
                );
            },
        }

        instructions.push(Instruction::G17(G17 {}));
        instructions.push(Instruction::G0(G0 { x: None, y: None, z: Some(context.z_safe()) }));

        proof {
            assert(instructions.deep_view() =~= arc_spec(
                *self,
                context.spec_tool(),
                context.spec_units(),
                context.spec_z_safe() as i64,
            )->Ok_0);
        }
        Ok(instructions)
    }
}

} // verus!
