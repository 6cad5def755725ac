//! Circle cuts: spiral bores, and straight drills as their degenerate case.

use vstd::prelude::*;

use crate::errors::CncError;
use crate::instructions::{Comment, Empty, Instruction, InstrV, G0, G1, G2};
use crate::program::InnerContext;
use crate::text::num_str;
use crate::tools::Tool;
use crate::types::{coord_ok, Bounds, ToolPathCompensation, Units, Vector3, MAX_COORD};

verus! {

/// A circle cut spiraling down to `end_z`.  Only the edge of the circle is
/// cut.  An effective radius under one thousandth of a unit degenerates to a
/// straight plunge drill.
#[derive(Debug, Clone, Copy)]
pub struct Circle {
    /// The start point; the cut spirals down from its z.
    pub start: Vector3,
    /// The circle radius.
    pub radius: i64,
    /// The depth where the cut ends.
    pub end_z: i64,
    /// The most the cut descends per pass.
    pub max_step_z: i64,
    /// How the path is offset by the tool radius: `Inner` for holes,
    /// `Outer` for round pieces, `Off` for drilling.
    pub compensation: ToolPathCompensation,
}

/// The radius the tool center actually travels, after compensation.
pub open spec fn cut_radius_spec(c: Circle, tool: Tool) -> int {
    match c.compensation {
        ToolPathCompensation::Off => c.radius as int,
        ToolPathCompensation::Inner => c.radius - tool.spec_radius(),
        ToolPathCompensation::Outer => c.radius + tool.spec_radius(),
    }
}

/// The magnitude of a scalar.
pub open spec fn abs_i64(v: int) -> int {
    if v < 0 {
        -v
    } else {
        v
    }
}

/// The number of descending spiral passes: how often the step fits in the
/// depth, never negative, capped at the pass-counter range.
pub open spec fn circle_layers(c: Circle) -> int {
    let step = abs_i64(c.max_step_z as int);
    if c.start.z <= c.end_z || step == 0 {
        0
    } else {
        let n = (c.start.z - c.end_z) / step;
        if n > u32::MAX {
            u32::MAX as int
        } else {
            n
        }
    }
}

/// One spiral pass: a full circle whose z is stepped down by the pass index,
/// clamped to the end depth.
pub open spec fn circle_pass(c: Circle, tool: Tool, i: int) -> InstrV {
    let step = abs_i64(c.max_step_z as int);
    let z = if c.start.z - i * step > c.end_z {
        c.start.z - i * step
    } else {
        c.end_z as int
    };
    InstrV::G2 {
        x: Some((c.start.x - cut_radius_spec(c, tool)) as i64),
        y: None,
        z: Some(z as i64),
        i: Some(cut_radius_spec(c, tool) as i64),
        j: None,
        k: None,
        r: None,
        p: None,
        f: None,
    }
}

/// The first `n` spiral passes of a circle cut.
pub open spec fn circle_passes(c: Circle, tool: Tool, n: int) -> Seq<InstrV>
    decreases n,
    when n >= 0
{
    if n <= 0 {
        Seq::<InstrV>::empty()
    } else {
        circle_passes(c, tool, n - 1) + seq![circle_pass(c, tool, n - 1)]
    }
}

/// The comment announcing a plunge drill.
pub open spec fn drill_comment(c: Circle) -> Seq<char> {
    "Drill hole at: x = "@ + num_str(c.start.x as int) + ", y = "@ + num_str(c.start.y as int)
}

/// The comment announcing a spiral bore.
pub open spec fn bore_comment(c: Circle) -> Seq<char> {
    "Cut hole at: x = "@ + num_str(c.start.x as int) + ", y = "@ + num_str(c.start.y as int)
}

/// The instruction stream of a circle cut.
///
/// With an effective radius in `[0, 0.001)` of a unit the cut is one plunge
/// sequence with no arc moves.  A negative effective radius fails: the tool
/// is wider than the requested hole.  Otherwise the tool bores down with one
/// full circle per pass, one exact pass at the end depth, and one finishing
/// pass pulled in by one thousandth to clean the entry scar.
pub open spec fn circle_spec(c: Circle, tool: Tool, units: Units, z_safe: i64) -> Result<
    Seq<InstrV>,
    CncError,
> {
    let cr = cut_radius_spec(c, tool);
    if 0 <= cr < 10 {
        Ok(
            seq![
                InstrV::Empty,
                InstrV::Comment { text: drill_comment(c) },
                InstrV::G0 { x: None, y: None, z: Some(z_safe) },
                InstrV::G0 { x: Some(c.start.x), y: Some(c.start.y), z: None },
                InstrV::G1 {
                    x: None,
                    y: None,
                    z: Some(c.end_z),
                    f: Some(tool.spec_feed_rate() as i64),
                },
                InstrV::G0 { x: None, y: None, z: Some(z_safe) },
            ],
        )
    } else if cr > 0 {
        Ok(
            seq![
                InstrV::Empty,
                InstrV::Comment { text: bore_comment(c) },
                InstrV::G0 { x: None, y: None, z: Some(z_safe) },
                InstrV::G0 { x: Some((c.start.x - cr) as i64), y: Some(c.start.y), z: None },
                InstrV::G1 {
                    x: None,
                    y: None,
                    z: Some(c.start.z),
                    f: Some(tool.spec_feed_rate() as i64),
                },
            ] + circle_passes(c, tool, circle_layers(c)) + seq![
                InstrV::G2 {
                    x: Some((c.start.x - cr) as i64),
                    y: None,
                    z: Some(c.end_z),
                    i: Some(cr as i64),
                    j: None,
                    k: None,
                    r: None,
                    p: None,
                    f: None,
                },
                InstrV::G2 {
                    x: Some((c.start.x - cr) as i64),
                    y: None,
                    z: Some(c.end_z),
                    i: Some((cr - 10) as i64),
                    j: None,
                    k: None,
                    r: None,
                    p: None,
                    f: None,
                },
                InstrV::G0 { x: None, y: None, z: Some(z_safe) },
            ],
        )
    } else {
        Err(
            CncError::CircleTooNarrow {
                cut_diameter: (2 * abs_i64(cr)) as i64,
                tool_diameter: tool.spec_diameter() as i64,
                units,
            },
        )
    }
}

impl Circle {
    /// Whether the geometry of the circle is inside the working range.
    pub open spec fn wf(self) -> bool {
        self.start.wf() && coord_ok(self.radius as int) && coord_ok(self.end_z as int) && coord_ok(
            self.max_step_z as int,
        )
    }

    /// A new circle cut.
    pub fn new(
        start: Vector3,
        radius: i64,
        end_z: i64,
        max_step_z: i64,
        compensation: ToolPathCompensation,
    ) -> (c: Circle)
        ensures
            c == (Circle { start, radius, end_z, max_step_z, compensation }),
    {
        Circle { start, radius, end_z, max_step_z, compensation }
    }

    /// A drill cut from the start down to the end depth.
    pub fn drill(start: Vector3, end_z: i64) -> (c: Circle)
        ensures
            c == (Circle {
                start,
                radius: 0,
                end_z,
                max_step_z: 0,
                compensation: ToolPathCompensation::Off,
            }),
    {
        Circle { start, radius: 0, end_z, max_step_z: 0, compensation: ToolPathCompensation::Off }
    }

    /// The box the circle spans: the radius around the start in x and y,
    /// the cut depths in z.
    pub fn bounds(&self) -> (b: Bounds)
        requires
            self.wf(),
        ensures
            b == (Bounds {
                min: Vector3 {
                    x: (self.start.x - self.radius) as i64,
                    y: (self.start.y - self.radius) as i64,
                    z: self.end_z,
                },
                max: Vector3 {
                    x: (self.start.x + self.radius) as i64,
                    y: (self.start.y + self.radius) as i64,
                    z: self.start.z,
                },
            }),
    {
        Bounds {
            min: Vector3::new(self.start.x - self.radius, self.start.y - self.radius, self.end_z),
            max: Vector3::new(self.start.x + self.radius, self.start.y + self.radius, self.start.z),
        }
    }

    /// The circle compiled to instructions, per [`circle_spec`]: one plunge
    /// sequence when the effective radius is under one thousandth of a unit,
    /// a spiral bore when it is at least that, and the too-narrow failure
    /// exactly when it is negative.
    pub fn to_instructions(&self, context: &InnerContext) -> (r: Result<Vec<Instruction>, CncError>)
        requires
            self.wf(),
            context.wf(),
        ensures
            crate::cuts::result_view(r) == circle_spec(
                *self,
                context.spec_tool(),
                context.spec_units(),
                context.spec_z_safe(),
            ),
    {
        let ghost tool_g = context.spec_tool();
        let tool_radius = context.tool().radius();
        let cut_radius = match self.compensation {
            ToolPathCompensation::Off => self.radius,
            ToolPathCompensation::Inner => self.radius - tool_radius,
            ToolPathCompensation::Outer => self.radius + tool_radius,
        };

        if 0 <= cut_radius && cut_radius < 10 {
            let mut instructions: Vec<Instruction> = Vec::new();
            instructions.push(Instruction::Empty(Empty {}));
            let mut text = String::from_str("Drill hole at: x = ");
            text.append(crate::text::format_num(self.start.x).as_str());
            text.append(", y = ");
            text.append(crate::text::format_num(self.start.y).as_str());
            instructions.push(Instruction::Comment(Comment { text }));
            instructions.push(Instruction::G0(G0 { x: None, y: None, z: Some(context.z_safe()) }));
            instructions.push(
                Instruction::G0(G0 { x: Some(self.start.x), y: Some(self.start.y), z: None }),
            );
            instructions.push(
                Instruction::G1(
                    G1 {
                        x: None,
                        y: None,
                        z: Some(self.end_z),
                        f: Some(context.tool().feed_rate()),
                    },
                ),
            );
            instructions.push(Instruction::G0(G0 { x: None, y: None, z: Some(context.z_safe()) }));
            proof {
                assert(instructions.deep_view() =~= circle_spec(
                    *self,
                    context.spec_tool(),
                    context.spec_units(),
                    context.spec_z_safe(),
                )->Ok_0);
            }
            Ok(instructions)
        } else if cut_radius > 0 {
            let mut instructions: Vec<Instruction> = Vec::new();
            instructions.push(Instruction::Empty(Empty {}));
            let mut text = String::from_str("Cut hole at: x = ");
            text.append(crate::text::format_num(self.start.x).as_str());
            text.append(", y = ");
            text.append(crate::text::format_num(self.start.y).as_str());
            instructions.push(Instruction::Comment(Comment { text }));
            instructions.push(Instruction::G0(G0 { x: None, y: None, z: Some(context.z_safe()) }));
            instructions.push(
                Instruction::G0(
                    G0 { x: Some(self.start.x - cut_radius), y: Some(self.start.y), z: None },
                ),
            );
            instructions.push(
                Instruction::G1(
                    G1 {
                        x: None,
                        y: None,
                        z: Some(self.start.z),
                        f: Some(context.tool().feed_rate()),
                    },
                ),
            );
            let ghost header = instructions.deep_view();
            let ghost spec_header = seq![
                InstrV::Empty,
                InstrV::Comment { text: bore_comment(*self) },
                InstrV::G0 { x: None, y: None, z: Some(context.spec_z_safe()) },
                InstrV::G0 {
                    x: Some((self.start.x - cut_radius_spec(*self, tool_g)) as i64),
                    y: Some(self.start.y),
                    z: None,
                },
                InstrV::G1 {
                    x: None,
                    y: None,
                    z: Some(self.start.z),
                    f: Some(tool_g.spec_feed_rate() as i64),
                },
            ];
            proof {
                assert(header =~= spec_header);
                assert(header + circle_passes(*self, tool_g, 0) =~= header);
            }

            let max_step_z = if self.max_step_z < 0 {
                -self.max_step_z
            } else {
                self.max_step_z
            };
            let layers: u32 = if self.start.z <= self.end_z || max_step_z == 0 {
                0
            } else {
                let n: i64 = (self.start.z - self.end_z) / max_step_z;
                if n > u32::MAX as i64 {
                    u32::MAX
                } else {
                    n as u32
                }
            };
            proof {
                assert(layers as int == circle_layers(*self));
            }

            let mut index: u32 = 0;
            while index < layers
                invariant
                    0 <= index <= layers,
                    layers as int == circle_layers(*self),
                    self.wf(),
                    context.wf(),
                    tool_g == context.spec_tool(),
                    cut_radius as int == cut_radius_spec(*self, tool_g),
                    10 <= cut_radius <= 2 * MAX_COORD,
                    max_step_z as int == abs_i64(self.max_step_z as int),
                    instructions.deep_view() == header + circle_passes(
                        *self,
                        tool_g,
                        index as int,
                    ),
                    header == spec_header,
                decreases layers - index,
            {
                proof {
                    let step = abs_i64(self.max_step_z as int);
                    let a = self.start.z - self.end_z;
                    assert(circle_layers(*self) > index as int);
                    assert(step > 0);
                    vstd::arithmetic::div_mod::lemma_fundamental_div_mod(a, step);
                    assert((index as int) * step <= a && 0 <= (index as int) * step)
                        by (nonlinear_arith)
                        requires
                            0 < step,
                            0 <= index as int,
                            (index as int) < circle_layers(*self),
                            circle_layers(*self) <= a / step,
                            a == step * (a / step) + a % step,
                            0 <= a % step,
                    ;
                }
                let z_step: i64 = index as i64 * max_step_z;
                let z_raw: i64 = self.start.z - z_step;
                let z: i64 = if z_raw > self.end_z {
                    z_raw
                } else {
                    self.end_z
                };
                let ghost prev = instructions.deep_view();
                instructions.push(
                    Instruction::G2(
                        G2 {
                            x: Some(self.start.x - cut_radius),
                            y: None,
                            z: Some(z),
                            i: Some(cut_radius),
                            j: None,
                            k: None,
                            r: None,
                            p: None,
                            f: None,
                        },
                    ),
                );
                proof {
                    assert(instructions.deep_view() =~= prev + seq![
                        circle_pass(*self, tool_g, index as int),
                    ]);
                    vstd::seq_lib::lemma_concat_associative(
                        header,
                        circle_passes(*self, tool_g, index as int),
                        seq![circle_pass(*self, tool_g, index as int)],
                    );
                    assert(circle_passes(*self, tool_g, index as int + 1) == circle_passes(
                        *self,
                        tool_g,
                        index as int,
                    ) + seq![circle_pass(*self, tool_g, index as int)]);
                }
                index += 1;
            }

            let ghost tail_base = instructions.deep_view();
            instructions.push(
                Instruction::G2(
                    G2 {
                        x: Some(self.start.x - cut_radius),
                        y: None,
                        z: Some(self.end_z),
                        i: Some(cut_radius),
                        j: None,
                        k: None,
                        r: None,
                        p: None,
                        f: None,
                    },
                ),
            );
            instructions.push(
                Instruction::G2(
                    G2 {
                        x: Some(self.start.x - cut_radius),
                        y: None,
                        z: Some(self.end_z),
                        i: Some(cut_radius - 10),
                        j: None,
                        k: None,
                        r: None,
                        p: None,
                        f: None,
                    },
                ),
            );
            instructions.push(Instruction::G0(G0 { x: None, y: None, z: Some(context.z_safe()) }));
            proof {
                assert(instructions.deep_view() =~= tail_base + seq![
                    InstrV::G2 {
                        x: Some((self.start.x - cut_radius_spec(*self, tool_g)) as i64),
                        y: None,
                        z: Some(self.end_z),
                        i: Some(cut_radius_spec(*self, tool_g) as i64),
                        j: None,
                        k: None,
                        r: None,
                        p: None,
                        f: None,
                    },
                    InstrV::G2 {
                        x: Some((self.start.x - cut_radius_spec(*self, tool_g)) as i64),
                        y: None,
                        z: Some(self.end_z),
                        i: Some((cut_radius_spec(*self, tool_g) - 10) as i64),
                        j: None,
                        k: None,
                        r: None,
                        p: None,
                        f: None,
                    },
                    InstrV::G0 { x: None, y: None, z: Some(context.spec_z_safe()) },
                ]);
                assert(instructions.deep_view() == circle_spec(
                    *self,
                    context.spec_tool(),
                    context.spec_units(),
                    context.spec_z_safe(),
                )->Ok_0);
            }
            Ok(instructions)
        } else {
            let cut_diameter = 2 * (if cut_radius < 0 {
                -cut_radius
            } else {
                cut_radius
            });
            Err(
                CncError::CircleTooNarrow {
                    cut_diameter,
                    tool_diameter: context.tool().diameter(),
                    units: context.units(),
                },
            )
        }
    }
}

} // verus!
