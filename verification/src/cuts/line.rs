//! Linear moves between two 3D points.

use vstd::prelude::*;

use crate::errors::CncError;
use crate::instructions::{Comment, Empty, Instruction, InstrV, G0, G1};
use crate::program::InnerContext;
use crate::text::num_str;
use crate::tools::Tool;
use crate::types::{Bounds, Units, Vector3};

verus! {

/// A linear move from one 3D point to another.
#[derive(Debug, Clone, Copy)]
pub struct Line {
    /// The starting point.
    pub from: Vector3,
    /// The end point.
    pub to: Vector3,
}

/// The comment announcing a line cut.
pub open spec fn line_comment(l: Line) -> Seq<char> {
    "Cut line from: x = "@ + num_str(l.from.x as int) + ", y = "@ + num_str(l.from.y as int)
        + ", z = "@ + num_str(l.from.z as int) + ", to:  x = "@ + num_str(l.to.x as int) + ", y = "@
        + num_str(l.to.y as int) + ", z = "@ + num_str(l.to.z as int)
}

/// The instruction stream of a line cut: retract to the safe height, travel
/// to the start, plunge at the tool's feed rate, one linear move to the end,
/// retract.
pub open spec fn line_spec(l: Line, tool: Tool, units: Units, z_safe: i64) -> Result<
    Seq<InstrV>,
    CncError,
> {
    Ok(
        seq![
            InstrV::Empty,
            InstrV::Comment { text: line_comment(l) },
            InstrV::G0 { x: None, y: None, z: Some(z_safe) },
            InstrV::G0 { x: Some(l.from.x), y: Some(l.from.y), z: None },
            InstrV::G1 { x: None, y: None, z: Some(l.from.z), f: Some(tool.spec_feed_rate() as i64) },
            InstrV::G1 { x: Some(l.to.x), y: Some(l.to.y), z: Some(l.to.z), f: None },
            InstrV::G0 { x: None, y: None, z: Some(z_safe) },
        ],
    )
}

/// The smaller of two scalars.
pub open spec fn min_i64(a: i64, b: i64) -> i64 {
    if a < b {
        a
    } else {
        b
    }
}

/// The larger of two scalars.
pub open spec fn max_i64(a: i64, b: i64) -> i64 {
    if a > b {
        a
    } else {
        b
    }
}

impl Line {
    /// Whether the points of the line are inside the working range.
    pub open spec fn wf(self) -> bool {
        self.from.wf() && self.to.wf()
    }

    /// A new line.
    pub fn new(from: Vector3, to: Vector3) -> (l: Line)
        ensures
            l == (Line { from, to }),
    {
        Line { from, to }
    }

    /// The box spanned by the two endpoints.
    pub fn bounds(&self) -> (b: Bounds)
        ensures
            b == (Bounds {
                min: Vector3 {
                    x: min_i64(self.from.x, self.to.x),
                    y: min_i64(self.from.y, self.to.y),
                    z: min_i64(self.from.z, self.to.z),
                },
                max: Vector3 {
                    x: max_i64(self.from.x, self.to.x),
                    y: max_i64(self.from.y, self.to.y),
                    z: max_i64(self.from.z, self.to.z),
                },
            }),
    {
        let min_x = if self.from.x < self.to.x {
            self.from.x
        } else {
            self.to.x
        };
        let min_y = if self.from.y < self.to.y {
            self.from.y
        } else {
            self.to.y
        };
        let min_z = if self.from.z < self.to.z {
            self.from.z
        } else {
            self.to.z
        };
        let max_x = if self.from.x > self.to.x {
            self.from.x
        } else {
            self.to.x
        };
        let max_y = if self.from.y > self.to.y {
            self.from.y
        } else {
            self.to.y
        };
        let max_z = if self.from.z > self.to.z {
            self.from.z
        } else {
            self.to.z
        };
        Bounds { min: Vector3::new(min_x, min_y, min_z), max: Vector3::new(max_x, max_y, max_z) }
    }

    /// The line compiled to instructions, per [`line_spec`].
    pub fn to_instructions(&self, context: &InnerContext) -> (r: Result<Vec<Instruction>, CncError>)
        requires
            self.wf(),
            context.wf(),
        ensures
            crate::cuts::result_view(r) == line_spec(
                *self,
                context.spec_tool(),
                context.spec_units(),
                context.spec_z_safe(),
            ),
    {
        let mut instructions: Vec<Instruction> = Vec::new();
        instructions.push(Instruction::Empty(Empty {}));

        let mut text = String::from_str("Cut line from: x = ");
        text.append(crate::text::format_num(self.from.x).as_str());
        text.append(", y = ");
        text.append(crate::text::format_num(self.from.y).as_str());
        text.append(", z = ");
        text.append(crate::text::format_num(self.from.z).as_str());
        text.append(", to:  x = ");
        text.append(crate::text::format_num(self.to.x).as_str());
        text.append(", y = ");
        text.append(crate::text::format_num(self.to.y).as_str());
        text.append(", z = ");
        text.append(crate::text::format_num(self.to.z).as_str());
        instructions.push(Instruction::Comment(Comment { text }));

        instructions.push(Instruction::G0(G0 { x: None, y: None, z: Some(context.z_safe()) }));
        instructions.push(
            Instruction::G0(G0 { x: Some(self.from.x), y: Some(self.from.y), z: None }),
        );
        instructions.push(
            Instruction::G1(
                G1 { x: None, y: None, z: Some(self.from.z), f: Some(context.tool().feed_rate()) },
            ),
        );
        instructions.push(
            Instruction::G1(
                G1 { x: Some(self.to.x), y: Some(self.to.y), z: Some(self.to.z), f: None },
            ),
        );
        instructions.push(Instruction::G0(G0 { x: None, y: None, z: Some(context.z_safe()) }));

        proof {
            assert(instructions.deep_view() =~= line_spec(
                *self,
                context.spec_tool(),
                context.spec_units(),
                context.spec_z_safe(),
            )->Ok_0);
        }
        Ok(instructions)
    }
}

} // verus!
