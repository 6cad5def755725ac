//! Rectangular frame cuts: the tool traces the perimeter of an area.

use vstd::prelude::*;

use crate::cuts::{comp_size, comp_start, rdiv, rdiv_i128, vector2_text};
use crate::errors::CncError;
use crate::instructions::{Comment, Empty, Instruction, InstrV, G0, G1};
use crate::program::InnerContext;
use crate::text::num_str;
use crate::tools::Tool;
use crate::types::{coord_ok, Axis, Bounds, ToolPathCompensation, Units, Vector2, Vector3};

verus! {

/// A rectangular frame cut.  Only the edge of the area is cut, descending
/// helically: within one pass around the perimeter the depth advances in
/// proportion to the length of each side.
#[derive(Debug, Clone, Copy)]
pub struct Frame {
    /// The corner the cut starts at; the cut descends from its z.
    pub start: Vector3,
    /// The size of the area.
    pub size: Vector2,
    /// The depth where the cut ends.
    pub end_z: i64,
    /// The most the cut descends per pass.
    pub max_step_z: i64,
    /// How the path is offset by the tool radius: `Inner` for rectangular
    /// holes, `Outer` for rectangular pieces.
    pub compensation: ToolPathCompensation,
}

/// One pass around the perimeter, from depth `sz` to depth `ez`: the four
/// sides in order, the depth advancing with each side's share of the
/// circumference, the last side pinned to `ez`.
pub open spec fn perimeter_pass(cs: Vector3, csize: Vector2, sz: int, ez: int) -> Seq<InstrV> {
    let dz = ez - sz;
    let circ = 2 * (csize.x + csize.y);
    let xs = rdiv(csize.x * dz, circ);
    let ys = rdiv(csize.y * dz, circ);
    seq![
        InstrV::G1 { x: Some((cs.x + csize.x) as i64), y: None, z: Some((sz + xs) as i64), f: None },
        InstrV::G1 {
            x: None,
            y: Some((cs.y + csize.y) as i64),
            z: Some((sz + xs + ys) as i64),
            f: None,
        },
        InstrV::G1 { x: Some(cs.x), y: None, z: Some((sz + 2 * xs + ys) as i64), f: None },
        InstrV::G1 { x: None, y: Some(cs.y), z: Some(ez as i64), f: None },
    ]
}

/// The number of full perimeter passes: how often the step fits in the
/// total depth, capped at the pass-counter range.
pub open spec fn frame_layers(f: Frame) -> int {
    let step = if f.max_step_z < 0 {
        -(f.max_step_z as int)
    } else {
        f.max_step_z as int
    };
    let depth = if f.start.z >= f.end_z {
        f.start.z - f.end_z
    } else {
        f.end_z - f.start.z
    };
    if step == 0 {
        0
    } else {
        let n = depth / step;
        if n > u32::MAX {
            u32::MAX as int
        } else {
            n
        }
    }
}

/// The first `n` descending perimeter passes.
pub open spec fn frame_passes(f: Frame, tool: Tool, n: int) -> Seq<InstrV>
    decreases n,
    when n >= 0
{
    if n <= 0 {
        Seq::<InstrV>::empty()
    } else {
        let step = if f.max_step_z < 0 {
            -(f.max_step_z as int)
        } else {
            f.max_step_z as int
        };
        let cs = comp_start(f.start, f.compensation, tool.spec_radius());
        let csize = comp_size(f.size, f.compensation, tool.spec_radius());
        frame_passes(f, tool, n - 1) + perimeter_pass(
            cs,
            csize,
            f.start.z - (n - 1) * step,
            f.start.z - n * step,
        )
    }
}

/// The comment announcing a frame cut.
pub open spec fn frame_comment(cs: Vector3, csize: Vector2) -> Seq<char> {
    "Cut frame: x = "@ + num_str(cs.x as int) + ", y = "@ + num_str(cs.y as int) + ", size = "@
        + vector2_text(csize)
}

/// The instruction stream of a frame cut.
///
/// The cut fails exactly when the declared size is smaller than the tool
/// diameter on either axis, naming the axis and the shortfall.  On success
/// the start and size are offset by the compensation, the tool descends one
/// perimeter pass per step plus a final pass pinned to the end depth, closes
/// the loop with one more side, retracts and returns over the start corner.
pub open spec fn frame_spec(f: Frame, tool: Tool, units: Units, z_safe: i64) -> Result<
    Seq<InstrV>,
    CncError,
> {
    let d = tool.spec_diameter();
    if f.size.x < d {
        Err(
            CncError::FrameTooNarrow {
                axis: Axis::X,
                shortfall: (d - f.size.x) as i64,
                tool_diameter: d as i64,
                units: tool.spec_units(),
            },
        )
    } else if f.size.y < d {
        Err(
            CncError::FrameTooNarrow {
                axis: Axis::Y,
                shortfall: (d - f.size.y) as i64,
                tool_diameter: d as i64,
                units: tool.spec_units(),
            },
        )
    } else {
        let cs = comp_start(f.start, f.compensation, tool.spec_radius());
        let csize = comp_size(f.size, f.compensation, tool.spec_radius());
        Ok(
            seq![
                InstrV::Empty,
                InstrV::Comment { text: frame_comment(cs, csize) },
                InstrV::G0 { x: None, y: None, z: Some(z_safe) },
                InstrV::G0 { x: Some(cs.x), y: Some(cs.y), z: None },
                InstrV::G1 {
                    x: None,
                    y: None,
                    z: Some(cs.z),
                    f: Some(tool.spec_feed_rate() as i64),
                },
            ] + frame_passes(f, tool, frame_layers(f)) + perimeter_pass(
                cs,
                csize,
                f.end_z as int,
                f.end_z as int,
            ) + seq![
                InstrV::G1 { x: Some((cs.x + csize.x) as i64), y: None, z: None, f: None },
                InstrV::G0 { x: None, y: None, z: Some(z_safe) },
                InstrV::G0 { x: Some(cs.x), y: Some(cs.y), z: None },
            ],
        )
    }
}

impl Frame {
    /// Whether the geometry of the frame is inside the working range.
    pub open spec fn wf(self) -> bool {
        self.start.wf() && coord_ok(self.size.x as int) && coord_ok(self.size.y as int) && coord_ok(
            self.end_z as int,
        ) && coord_ok(self.max_step_z as int) && self.size.x >= 0 && self.size.y >= 0
    }

    /// A new frame cut.
    pub fn new(
        start: Vector3,
        size: Vector2,
        end_z: i64,
        max_step_z: i64,
        compensation: ToolPathCompensation,
    ) -> (f: Frame)
        ensures
            f == (Frame { start, size, end_z, max_step_z, compensation }),
    {
        Frame { start, size, end_z, max_step_z, compensation }
    }

    /// The box the frame spans: the declared footprint in x and y, the cut
    /// depths in z.
    pub fn bounds(&self) -> (b: Bounds)
        requires
            self.wf(),
        ensures
            b == (Bounds {
                min: Vector3 { x: self.start.x, y: self.start.y, z: self.end_z },
                max: Vector3 {
                    x: (self.start.x + self.size.x) as i64,
                    y: (self.start.y + self.size.y) as i64,
                    z: self.start.z,
                },
            }),
    {
        Bounds {
            min: Vector3::new(self.start.x, self.start.y, self.end_z),
            max: Vector3::new(self.start.x + self.size.x, self.start.y + self.size.y, self.start.z),
        }
    }

    /// The frame compiled to instructions, per [`frame_spec`]: it fails
    /// exactly when the size is under the tool diameter on either axis.
    #[verifier::rlimit(80)]
    pub fn to_instructions(&self, context: &InnerContext) -> (r: Result<Vec<Instruction>, CncError>)
        requires
            self.wf(),
            context.wf(),
        ensures
            crate::cuts::result_view(r) == frame_spec(
                *self,
                context.spec_tool(),
                context.spec_units(),
                context.spec_z_safe(),
            ),
    {
        let ghost tool_g = context.spec_tool();
        let tool_radius = context.tool().radius();
        let tool_diameter = context.tool().diameter();

        if self.size.x < tool_diameter {
            return Err(
                CncError::FrameTooNarrow {
                    axis: Axis::X,
                    shortfall: tool_diameter - self.size.x,
                    tool_diameter,
                    units: context.tool().units(),
                },
            );
        }
        if self.size.y < tool_diameter {
            return Err(
                CncError::FrameTooNarrow {
                    axis: Axis::Y,
                    shortfall: tool_diameter - self.size.y,
                    tool_diameter,
                    units: context.tool().units(),
                },
            );
        }

        let start = match self.compensation {
            ToolPathCompensation::Off => self.start,
            ToolPathCompensation::Inner => self.start.add_x(tool_radius).add_y(tool_radius),
            ToolPathCompensation::Outer => self.start.add_x(-tool_radius).add_y(-tool_radius),
        };
        let size = match self.compensation {
            ToolPathCompensation::Off => self.size,
            ToolPathCompensation::Inner => self.size.add_x(-(tool_radius * 2)).add_y(
                -(tool_radius * 2),
            ),
            ToolPathCompensation::Outer => self.size.add_x(tool_radius * 2).add_y(tool_radius * 2),
        };
        proof {
            assert(start == comp_start(self.start, self.compensation, tool_g.spec_radius()));
            assert(size == comp_size(self.size, self.compensation, tool_g.spec_radius()));
        }

        let mut instructions: Vec<Instruction> = Vec::new();
        instructions.push(Instruction::Empty(Empty {}));
        let mut text = String::from_str("Cut frame: x = ");
        text.append(crate::text::format_num(start.x).as_str());
        text.append(", y = ");
        text.append(crate::text::format_num(start.y).as_str());
        text.append(", size = ");
        text.append(crate::cuts::vector2_string(size).as_str());
        instructions.push(Instruction::Comment(Comment { text }));
        instructions.push(Instruction::G0(G0 { x: None, y: None, z: Some(context.z_safe()) }));
        instructions.push(Instruction::G0(G0 { x: Some(start.x), y: Some(start.y), z: None }));
        instructions.push(
            Instruction::G1(
                G1 { x: None, y: None, z: Some(start.z), f: Some(context.tool().feed_rate()) },
            ),
        );
        let ghost header = instructions.deep_view();
        let ghost cs_g = comp_start(self.start, self.compensation, tool_g.spec_radius());
        let ghost csize_g = comp_size(self.size, self.compensation, tool_g.spec_radius());
        let ghost spec_header = seq![
            InstrV::Empty,
            InstrV::Comment { text: frame_comment(cs_g, csize_g) },
            InstrV::G0 { x: None, y: None, z: Some(context.spec_z_safe()) },
            InstrV::G0 { x: Some(cs_g.x), y: Some(cs_g.y), z: None },
            InstrV::G1 {
                x: None,
                y: None,
                z: Some(cs_g.z),
                f: Some(tool_g.spec_feed_rate() as i64),
            },
        ];
        proof {
            assert(header =~= spec_header);
            assert(header + frame_passes(*self, tool_g, 0) =~= header);
        }

        let max_step_z = if self.max_step_z < 0 {
            -self.max_step_z
        } else {
            self.max_step_z
        };
        let depth: i64 = if self.start.z >= self.end_z {
            self.start.z - self.end_z
        } else {
            self.end_z - self.start.z
        };
        let layers: u32 = if max_step_z == 0 {
            0
        } else {
            let n: i64 = depth / max_step_z;
            if n > u32::MAX as i64 {
                u32::MAX
            } else {
                n as u32
            }
        };
        proof {
            assert(layers as int == frame_layers(*self));
            if max_step_z != 0 {
                vstd::arithmetic::div_mod::lemma_fundamental_div_mod(
                    depth as int,
                    max_step_z as int,
                );
                assert((layers as int) * (max_step_z as int) <= depth as int) by (nonlinear_arith)
                    requires
                        0 < max_step_z,
                        0 <= layers as int <= (depth as int) / (max_step_z as int),
                        depth as int == (max_step_z as int) * ((depth as int) / (max_step_z as int))
                            + (depth as int) % (max_step_z as int),
                        0 <= (depth as int) % (max_step_z as int),
                ;
            }
        }

        let mut layer: u32 = 0;
        let mut start_z: i64 = self.start.z;
        let mut end_z: i64 = self.start.z;
        while layer < layers
            invariant
                0 <= layer <= layers,
                layers as int == frame_layers(*self),
                self.wf(),
                context.wf(),
                tool_g == context.spec_tool(),
                max_step_z as int == if self.max_step_z < 0 {
                    -(self.max_step_z as int)
                } else {
                    self.max_step_z as int
                },
                (layers as int) * (max_step_z as int) <= depth as int,
                depth as int == if self.start.z >= self.end_z {
                    self.start.z - self.end_z
                } else {
                    self.end_z - self.start.z
                },
                0 <= (layer as int) * (max_step_z as int) <= depth as int,
                start_z as int == self.start.z - (layer as int) * (max_step_z as int),
                end_z == start_z,
                start == comp_start(self.start, self.compensation, tool_g.spec_radius()),
                size == comp_size(self.size, self.compensation, tool_g.spec_radius()),
                -2 * crate::types::MAX_COORD <= start.x <= 2 * crate::types::MAX_COORD,
                -2 * crate::types::MAX_COORD <= start.y <= 2 * crate::types::MAX_COORD,
                0 <= size.x <= 3 * crate::types::MAX_COORD,
                0 <= size.y <= 3 * crate::types::MAX_COORD,
                instructions.deep_view() == header + frame_passes(*self, tool_g, layer as int),
                header == spec_header,
            decreases layers - layer,
        {
            proof {
                assert((layer as int + 1) * (max_step_z as int) <= (layers as int) * (
                max_step_z as int) && (layer as int + 1) * (max_step_z as int) == (layer as int) * (
                max_step_z as int) + (max_step_z as int) && 0 <= (layer as int + 1) * (
                max_step_z as int)) by (nonlinear_arith)
                    requires
                        0 <= max_step_z,
                        0 <= layer,
                        layer as int + 1 <= layers as int,
                ;
            }
            end_z = end_z - max_step_z;
            Self::push_perimeter_pass(&mut instructions, start, size, start_z, end_z);
            proof {
                vstd::seq_lib::lemma_concat_associative(
                    header,
                    frame_passes(*self, tool_g, layer as int),
                    perimeter_pass(
                        comp_start(self.start, self.compensation, tool_g.spec_radius()),
                        comp_size(self.size, self.compensation, tool_g.spec_radius()),
                        start_z as int,
                        end_z as int,
                    ),
                );
                assert(frame_passes(*self, tool_g, layer as int + 1) == frame_passes(
                    *self,
                    tool_g,
                    layer as int,
                ) + perimeter_pass(
                    comp_start(self.start, self.compensation, tool_g.spec_radius()),
                    comp_size(self.size, self.compensation, tool_g.spec_radius()),
                    start_z as int,
                    end_z as int,
                ));
                assert(instructions.deep_view() == header + frame_passes(
                    *self,
                    tool_g,
                    layer as int + 1,
                ));
            }
            start_z = end_z;
            layer += 1;
        }

        Self::push_perimeter_pass(&mut instructions, start, size, self.end_z, self.end_z);
        let ghost tail_base = instructions.deep_view();
        instructions.push(
            Instruction::G1(G1 { x: Some(start.x + size.x), y: None, z: None, f: None }),
        );
        instructions.push(Instruction::G0(G0 { x: None, y: None, z: Some(context.z_safe()) }));
        instructions.push(Instruction::G0(G0 { x: Some(start.x), y: Some(start.y), z: None }));

        proof {
            assert(instructions.deep_view() =~= tail_base + seq![
                InstrV::G1 { x: Some((cs_g.x + csize_g.x) as i64), y: None, z: None, f: None },
                InstrV::G0 { x: None, y: None, z: Some(context.spec_z_safe()) },
                InstrV::G0 { x: Some(cs_g.x), y: Some(cs_g.y), z: None },
            ]);
            assert(instructions.deep_view() == frame_spec(
                *self,
                context.spec_tool(),
                context.spec_units(),
                context.spec_z_safe(),
            )->Ok_0);
        }
        Ok(instructions)
    }

    /// Appends one perimeter pass from depth `sz` to depth `ez`.
    fn push_perimeter_pass(
        instructions: &mut Vec<Instruction>,
        cs: Vector3,
        csize: Vector2,
        sz: i64,
        ez: i64,
    )
        requires
            -2 * crate::types::MAX_COORD <= cs.x <= 2 * crate::types::MAX_COORD,
            -2 * crate::types::MAX_COORD <= cs.y <= 2 * crate::types::MAX_COORD,
            0 <= csize.x <= 3 * crate::types::MAX_COORD,
            0 <= csize.y <= 3 * crate::types::MAX_COORD,
            -10 * crate::types::MAX_COORD <= sz <= 10 * crate::types::MAX_COORD,
            -10 * crate::types::MAX_COORD <= ez <= 10 * crate::types::MAX_COORD,
        ensures
            final(instructions).deep_view() == old(instructions).deep_view() + perimeter_pass(
                cs,
                csize,
                sz as int,
                ez as int,
            ),
    {
        let dz: i64 = ez - sz;
        let circ: i64 = 2 * (csize.x + csize.y);
        proof {
            assert((csize.x as int) * (dz as int) <= (circ as int) * 100_000_000_000_000
                && (csize.x as int) * (dz as int) >= -((circ as int) * 100_000_000_000_000))
                by (nonlinear_arith)
                requires
                    0 <= csize.x,
                    circ as int == 2 * (csize.x + csize.y),
                    0 <= csize.y,
                    -200_000_000_000_000 <= dz as int <= 200_000_000_000_000,
            ;
            assert((csize.y as int) * (dz as int) <= (circ as int) * 100_000_000_000_000
                && (csize.y as int) * (dz as int) >= -((circ as int) * 100_000_000_000_000))
                by (nonlinear_arith)
                requires
                    0 <= csize.y,
                    circ as int == 2 * (csize.x + csize.y),
                    0 <= csize.x,
                    -200_000_000_000_000 <= dz as int <= 200_000_000_000_000,
            ;
        }
        let xs: i64 = rdiv_i128(csize.x as i128 * dz as i128, circ as i128);
        let ys: i64 = rdiv_i128(csize.y as i128 * dz as i128, circ as i128);
        instructions.push(
            Instruction::G1(G1 { x: Some(cs.x + csize.x), y: None, z: Some(sz + xs), f: None }),
        );
        instructions.push(
            Instruction::G1(G1 { x: None, y: Some(cs.y + csize.y), z: Some(sz + xs + ys), f: None }),
        );
        instructions.push(
            Instruction::G1(G1 { x: Some(cs.x), y: None, z: Some(sz + 2 * xs + ys), f: None }),
        );
        instructions.push(Instruction::G1(G1 { x: None, y: Some(cs.y), z: Some(ez), f: None }));
        proof {
            assert(instructions.deep_view() =~= old(instructions).deep_view() + perimeter_pass(
                cs,
                csize,
                sz as int,
                ez as int,
            ));
        }
    }
}

} // verus!
