//! Rectangular area cuts: surfacing planes and pockets, filled with a
//! back-and-forth raster.

use vstd::prelude::*;

use crate::cuts::{comp_size, comp_start, rdiv, rdiv_i128, vector2_text};
use crate::errors::CncError;
use crate::instructions::{Comment, Empty, Instruction, InstrV, G0, G1};
use crate::program::InnerContext;
use crate::text::num_str;
use crate::tools::Tool;
use crate::types::{coord_ok, Axis, Bounds, ToolPathCompensation, Units, Vector2, Vector3};

verus! {

/// A rectangular area cut, for planing and pockets.  Each layer is filled
/// with a boustrophedon raster whose pass spacing guarantees overlap between
/// neighbouring passes.  An optional second depth target tilts the floor.
#[derive(Debug, Clone, Copy)]
pub struct Area {
    /// The corner the cut starts at; the cut descends from its z.
    pub start: Vector3,
    /// The size of the area.
    pub size: Vector2,
    /// The depth where the cut ends.
    pub end_z: i64,
    /// The depth where the sloped far side of the cut ends; equal to
    /// `end_z` for a flat floor.
    pub end_z_stop: i64,
    /// The most the cut descends per pass.
    pub max_step_z: i64,
    /// How the path is offset by the tool radius: `Inner` for pockets,
    /// `Outer` for planing past the edges.
    pub compensation: ToolPathCompensation,
}

/// The number of raster passes in one layer: the compensated width divided
/// by 1.8 tool radii, rounded up, which keeps neighbouring passes
/// overlapping.
pub open spec fn raster_passes(sy: int, tr: int) -> int {
    (5 * sy + 9 * tr - 1) / (9 * tr)
}

/// The first `k` raster pass pairs of one layer: the move to the pass line,
/// then a sweep whose direction alternates.
pub open spec fn raster_pairs(
    cs: Vector3,
    csize: Vector2,
    passes: int,
    ez: int,
    ezs: int,
    k: int,
) -> Seq<InstrV>
    decreases k,
    when k >= 0
{
    if k <= 0 {
        Seq::<InstrV>::empty()
    } else {
        raster_pairs(cs, csize, passes, ez, ezs, k - 1) + seq![
            InstrV::G1 {
                x: None,
                y: Some((cs.y + rdiv((k - 1) * csize.y, passes)) as i64),
                z: None,
                f: None,
            },
            if (k - 1) % 2 == 0 {
                InstrV::G1 {
                    x: Some((cs.x + csize.x) as i64),
                    y: None,
                    z: Some(ezs as i64),
                    f: None,
                }
            } else {
                InstrV::G1 { x: Some(cs.x), y: None, z: Some(ez as i64), f: None }
            },
        ]
    }
}

/// One raster layer at depths `ez` (near side) and `ezs` (far side): a pass
/// around the rectangle, the raster if the area is wider than the tool,
/// then a short lift and a return to the start corner.
pub open spec fn area_layer(cs: Vector3, csize: Vector2, tr: int, ez: int, ezs: int) -> Seq<
    InstrV,
> {
    let passes = raster_passes(csize.y as int, tr);
    let swept = csize.x > 2 * tr && passes >= 1;
    let end_at_start = if swept {
        passes % 2 == 0
    } else {
        true
    };
    let lift = if end_at_start {
        ez
    } else {
        ezs
    };
    seq![
        InstrV::G1 { x: Some((cs.x + csize.x) as i64), y: None, z: Some(ezs as i64), f: None },
        InstrV::G1 { x: None, y: Some((cs.y + csize.y) as i64), z: None, f: None },
        InstrV::G1 { x: Some(cs.x), y: None, z: Some(ez as i64), f: None },
        InstrV::G1 { x: None, y: Some(cs.y), z: None, f: None },
    ] + (if csize.x > 2 * tr {
        raster_pairs(cs, csize, passes, ez, ezs, passes)
    } else {
        Seq::<InstrV>::empty()
    }) + seq![
        InstrV::G0 { x: None, y: None, z: Some((lift + 5000) as i64) },
        InstrV::G0 { x: Some(cs.x), y: Some(cs.y), z: Some((ez + 5000) as i64) },
        InstrV::G1 { x: None, y: None, z: Some(ez as i64), f: None },
    ]
}

/// The magnitude of a scalar.
pub open spec fn abs_int(v: int) -> int {
    if v < 0 {
        -v
    } else {
        v
    }
}

/// The depth the layer count is computed from: the plain vertical depth for
/// a flat floor, the larger slope depth otherwise.
pub open spec fn area_depth(a: Area) -> int {
    if abs_int(a.end_z - a.end_z_stop) < 100 {
        abs_int(a.end_z - a.start.z)
    } else {
        abs_int(a.end_z_stop - a.end_z)
    }
}

/// The number of layers: the depth divided by the step, rounded up, capped
/// at the layer-counter range.
pub open spec fn area_layers(a: Area) -> int {
    let step = abs_int(a.max_step_z as int);
    let base = area_depth(a);
    if step == 0 {
        if base == 0 {
            0
        } else {
            u32::MAX as int
        }
    } else {
        let n = (base + step - 1) / step;
        if n > u32::MAX {
            u32::MAX as int
        } else {
            n
        }
    }
}

/// The z the descending layers start from: raised by a negative slope delta
/// so the deeper target is reached stepwise.
pub open spec fn area_start_z(a: Area) -> int {
    let delta = a.end_z_stop - a.end_z;
    if delta < 0 {
        a.start.z - delta
    } else {
        a.start.z as int
    }
}

/// The smaller of two scalars.
pub open spec fn min_int(x: int, y: int) -> int {
    if x < y {
        x
    } else {
        y
    }
}

/// The first `n` descending raster layers, each clamped to the safe height.
pub open spec fn area_descents(a: Area, tool: Tool, z_safe: int, n: int) -> Seq<InstrV>
    decreases n,
    when n >= 0
{
    if n <= 0 {
        Seq::<InstrV>::empty()
    } else {
        let step = abs_int(a.max_step_z as int);
        let delta = a.end_z_stop - a.end_z;
        let tr = tool.spec_radius();
        let cs = comp_start(a.start, a.compensation, tr);
        let csize = comp_size(a.size, a.compensation, tr);
        area_descents(a, tool, z_safe, n - 1) + area_layer(
            cs,
            csize,
            tr,
            min_int(area_start_z(a) - n * step, z_safe),
            min_int(area_start_z(a) + delta - n * step, z_safe),
        )
    }
}

/// The comment announcing an area cut.
pub open spec fn area_comment(cs: Vector3, csize: Vector2) -> Seq<char> {
    "Do planing at: x = "@ + num_str(cs.x as int) + ", y = "@ + num_str(cs.y as int) + ", size = "@
        + vector2_text(csize)
}

/// The instruction stream of an area cut.
///
/// The cut fails exactly when the declared size is smaller than the tool
/// diameter on either axis, naming the axis and the shortfall.  On success
/// the tool rasters one layer per step (each layer clamped to the safe
/// height), then a final layer pinned to the end depths, then retracts.
pub open spec fn area_spec(a: Area, tool: Tool, units: Units, z_safe: i64) -> Result<
    Seq<InstrV>,
    CncError,
> {
    let d = tool.spec_diameter();
    if a.size.x < d {
        Err(
            CncError::AreaTooNarrow {
                axis: Axis::X,
                shortfall: (d - a.size.x) as i64,
                tool_diameter: d as i64,
                units: tool.spec_units(),
            },
        )
    } else if a.size.y < d {
        Err(
            CncError::AreaTooNarrow {
                axis: Axis::Y,
                shortfall: (d - a.size.y) as i64,
                tool_diameter: d as i64,
                units: tool.spec_units(),
            },
        )
    } else {
        let tr = tool.spec_radius();
        let cs = comp_start(a.start, a.compensation, tr);
        let csize = comp_size(a.size, a.compensation, tr);
        let n = if area_layers(a) == 0 {
            0
        } else {
            area_layers(a) - 1
        };
        Ok(
            seq![
                InstrV::Empty,
                InstrV::Comment { text: area_comment(cs, csize) },
                InstrV::G0 { x: None, y: None, z: Some(z_safe) },
                InstrV::G0 { x: Some(cs.x), y: Some(cs.y), z: None },
                InstrV::G1 {
                    x: None,
                    y: None,
                    z: Some(cs.z),
                    f: Some(tool.spec_feed_rate() as i64),
                },
            ] + area_descents(a, tool, z_safe as int, n) + area_layer(
                cs,
                csize,
                tr,
                min_int(a.end_z as int, z_safe as int),
                min_int(a.end_z_stop as int, z_safe as int),
            ) + seq![InstrV::G0 { x: None, y: None, z: Some(z_safe) }],
        )
    }
}

impl Area {
    /// Whether the geometry of the area is inside the working range.
    pub open spec fn wf(self) -> bool {
        self.start.wf() && coord_ok(self.size.x as int) && coord_ok(self.size.y as int) && coord_ok(
            self.end_z as int,
        ) && coord_ok(self.end_z_stop as int) && coord_ok(self.max_step_z as int) && self.size.x
            >= 0 && self.size.y >= 0
    }

    /// A new area cut with a flat floor.
    pub fn new(
        start: Vector3,
        size: Vector2,
        end_z: i64,
        max_step_z: i64,
        compensation: ToolPathCompensation,
    ) -> (a: Area)
        ensures
            a == (Area { start, size, end_z, end_z_stop: end_z, max_step_z, compensation }),
    {
        Area { start, size, end_z, end_z_stop: end_z, max_step_z, compensation }
    }

    /// A new area cut whose far side descends to its own depth, tilting the
    /// floor.  A narrowing convenience over the general area: only this one
    /// slope direction is supported.
    pub fn new_with_slope(
        start: Vector3,
        size: Vector2,
        end_z: i64,
        end_z_stop: i64,
        max_step_z: i64,
        compensation: ToolPathCompensation,
    ) -> (a: Area)
        ensures
            a == (Area { start, size, end_z, end_z_stop, max_step_z, compensation }),
    {
        Area { start, size, end_z, end_z_stop, max_step_z, compensation }
    }

    /// The box the area spans: the declared footprint in x and y, the
    /// deeper of the two depth targets to the start in z.
    pub fn bounds(&self) -> (b: Bounds)
        requires
            self.wf(),
        ensures
            b == (Bounds {
                min: Vector3 {
                    x: self.start.x,
                    y: self.start.y,
                    z: if self.end_z < self.end_z_stop {
                        self.end_z
                    } else {
                        self.end_z_stop
                    },
                },
                max: Vector3 {
                    x: (self.start.x + self.size.x) as i64,
                    y: (self.start.y + self.size.y) as i64,
                    z: self.start.z,
                },
            }),
    {
        let min_z = if self.end_z < self.end_z_stop {
            self.end_z
        } else {
            self.end_z_stop
        };
        Bounds {
            min: Vector3::new(self.start.x, self.start.y, min_z),
            max: Vector3::new(self.start.x + self.size.x, self.start.y + self.size.y, self.start.z),
        }
    }

    /// The area compiled to instructions, per [`area_spec`]: it fails
    /// exactly when the size is under the tool diameter on either axis.
    #[verifier::rlimit(60)]
    pub fn to_instructions(&self, context: &InnerContext) -> (r: Result<Vec<Instruction>, CncError>)
        requires
            self.wf(),
            context.wf(),
            context.spec_tool().spec_diameter() >= 2,
        ensures
            crate::cuts::result_view(r) == area_spec(
                *self,
                context.spec_tool(),
                context.spec_units(),
                context.spec_z_safe(),
            ),
    {
        let ghost tool_g = context.spec_tool();
        let tool_radius = context.tool().radius();
        let tool_diameter = context.tool().diameter();
        proof {
            vstd::arithmetic::div_mod::lemma_div_is_ordered(2, tool_g.spec_diameter(), 2);
            assert(tool_radius >= 1);
        }

        if self.size.x < tool_diameter {
            return Err(
                CncError::AreaTooNarrow {
                    axis: Axis::X,
                    shortfall: tool_diameter - self.size.x,
                    tool_diameter,
                    units: context.tool().units(),
                },
            );
        }
        if self.size.y < tool_diameter {
            return Err(
                CncError::AreaTooNarrow {
                    axis: Axis::Y,
                    shortfall: tool_diameter - self.size.y,
                    tool_diameter,
                    units: context.tool().units(),
                },
            );
        }

        let start = match self.compensation {
            ToolPathCompensation::Off => self.start,
            ToolPathCompensation::Inner => self.start.add_x(tool_radius).add_y(tool_radius),
            ToolPathCompensation::Outer => self.start.add_x(-tool_radius).add_y(-tool_radius),
        };
        let size = match self.compensation {
            ToolPathCompensation::Off => self.size,
            ToolPathCompensation::Inner => self.size.add_x(-(tool_radius * 2)).add_y(
                -(tool_radius * 2),
            ),
            ToolPathCompensation::Outer => self.size.add_x(tool_radius * 2).add_y(tool_radius * 2),
        };
        proof {
            assert(start == comp_start(self.start, self.compensation, tool_g.spec_radius()));
            assert(size == comp_size(self.size, self.compensation, tool_g.spec_radius()));
        }

        let mut instructions: Vec<Instruction> = Vec::new();
        instructions.push(Instruction::Empty(Empty {}));
        let mut text = String::from_str("Do planing at: x = ");
        text.append(crate::text::format_num(start.x).as_str());
        text.append(", y = ");
        text.append(crate::text::format_num(start.y).as_str());
        text.append(", size = ");
        text.append(crate::cuts::vector2_string(size).as_str());
        instructions.push(Instruction::Comment(Comment { text }));
        instructions.push(Instruction::G0(G0 { x: None, y: None, z: Some(context.z_safe()) }));
        instructions.push(Instruction::G0(G0 { x: Some(start.x), y: Some(start.y), z: None }));
        instructions.push(
            Instruction::G1(
                G1 { x: None, y: None, z: Some(start.z), f: Some(context.tool().feed_rate()) },
            ),
        );
        let ghost header = instructions.deep_view();
        let ghost tr_g = tool_g.spec_radius();
        let ghost cs_g = comp_start(self.start, self.compensation, tr_g);
        let ghost csize_g = comp_size(self.size, self.compensation, tr_g);
        let ghost spec_header = seq![
            InstrV::Empty,
            InstrV::Comment { text: area_comment(cs_g, csize_g) },
            InstrV::G0 { x: None, y: None, z: Some(context.spec_z_safe()) },
            InstrV::G0 { x: Some(cs_g.x), y: Some(cs_g.y), z: None },
            InstrV::G1 {
                x: None,
                y: None,
                z: Some(cs_g.z),
                f: Some(tool_g.spec_feed_rate() as i64),
            },
        ];
        proof {
            assert(header =~= spec_header);
            assert(header + area_descents(*self, tool_g, context.spec_z_safe() as int, 0)
                =~= header);
        }

        let delta_z: i64 = self.end_z_stop - self.end_z;
        let max_step_z: i64 = if self.max_step_z < 0 {
            -self.max_step_z
        } else {
            self.max_step_z
        };
        let base: i64 = {
            let diff = if delta_z < 0 {
                -delta_z
            } else {
                delta_z
            };
            if diff < 100 {
                if self.end_z >= self.start.z {
                    self.end_z - self.start.z
                } else {
                    self.start.z - self.end_z
                }
            } else {
                diff
            }
        };
        let layers: u32 = if max_step_z == 0 {
            if base == 0 {
                0
            } else {
                u32::MAX
            }
        } else {
            let n: i64 = (base + max_step_z - 1) / max_step_z;
            if n > u32::MAX as i64 {
                u32::MAX
            } else {
                n as u32
            }
        };
        proof {
            assert(base as int == area_depth(*self));
            assert(layers as int == area_layers(*self));
            if max_step_z != 0 {
                vstd::arithmetic::div_mod::lemma_fundamental_div_mod(
                    base as int + max_step_z as int - 1,
                    max_step_z as int,
                );
                assert((layers as int) * (max_step_z as int) <= base as int + max_step_z as int - 1)
                    by (nonlinear_arith)
                    requires
                        0 < max_step_z,
                        0 <= layers as int <= (base as int + max_step_z as int - 1) / (
                        max_step_z as int),
                        base as int + max_step_z as int - 1 == (max_step_z as int) * ((base as int
                            + max_step_z as int - 1) / (max_step_z as int)) + (base as int
                            + max_step_z as int - 1) % (max_step_z as int),
                        0 <= (base as int + max_step_z as int - 1) % (max_step_z as int),
                ;
            }
        }

        let start_z0: i64 = if delta_z < 0 {
            self.start.z - delta_z
        } else {
            self.start.z
        };
        let mut end_z: i64 = start_z0;
        let mut end_z_stop: i64 = start_z0 + delta_z;
        let loop_count: u32 = if layers == 0 {
            0
        } else {
            layers - 1
        };
        proof {
            assert((loop_count as int) * (max_step_z as int) <= 4 * crate::types::MAX_COORD && (
            0 as int) * (max_step_z as int) == 0) by (nonlinear_arith)
                requires
                    0 <= loop_count <= layers as int,
                    0 <= max_step_z,
                    max_step_z == 0 || (layers as int) * (max_step_z as int) <= base as int
                        + max_step_z as int - 1,
                    0 <= base <= 3 * crate::types::MAX_COORD,
                    max_step_z <= crate::types::MAX_COORD,
                    crate::types::MAX_COORD == 10_000_000_000_000,
            ;
        }

        let mut layer: u32 = 0;
        while layer < loop_count
            invariant
                0 <= layer <= loop_count,
                loop_count as int == if area_layers(*self) == 0 {
                    0
                } else {
                    area_layers(*self) - 1
                },
                self.wf(),
                context.wf(),
                tool_g == context.spec_tool(),
                tool_g.spec_diameter() >= 2,
                max_step_z as int == abs_int(self.max_step_z as int),
                0 <= (layer as int) * (max_step_z as int) <= 4 * crate::types::MAX_COORD,
                (loop_count as int) * (max_step_z as int) <= 4 * crate::types::MAX_COORD,
                delta_z == self.end_z_stop - self.end_z,
                start_z0 as int == area_start_z(*self),
                end_z as int == start_z0 - (layer as int) * (max_step_z as int),
                end_z_stop as int == start_z0 + delta_z - (layer as int) * (max_step_z as int),
                start == comp_start(self.start, self.compensation, tool_g.spec_radius()),
                size == comp_size(self.size, self.compensation, tool_g.spec_radius()),
                -2 * crate::types::MAX_COORD <= start.x <= 2 * crate::types::MAX_COORD,
                -2 * crate::types::MAX_COORD <= start.y <= 2 * crate::types::MAX_COORD,
                0 <= size.x <= 3 * crate::types::MAX_COORD,
                0 <= size.y <= 3 * crate::types::MAX_COORD,
                1 <= tool_radius <= crate::types::MAX_COORD,
                tool_radius as int == tool_g.spec_radius(),
                instructions.deep_view() == header + area_descents(
                    *self,
                    tool_g,
                    context.spec_z_safe() as int,
                    layer as int,
                ),
                header == spec_header,
            decreases loop_count - layer,
        {
            proof {
                assert((layer as int + 1) * (max_step_z as int) <= (loop_count as int) * (
                max_step_z as int) && (layer as int + 1) * (max_step_z as int) == (layer as int) * (
                max_step_z as int) + (max_step_z as int) && 0 <= (layer as int + 1) * (
                max_step_z as int)) by (nonlinear_arith)
                    requires
                        0 <= max_step_z,
                        0 <= layer,
                        layer as int + 1 <= loop_count as int,
                ;
            }
            end_z = end_z - max_step_z;
            end_z_stop = end_z_stop - max_step_z;
            let ez = if end_z < context.z_safe() {
                end_z
            } else {
                context.z_safe()
            };
            let ezs = if end_z_stop < context.z_safe() {
                end_z_stop
            } else {
                context.z_safe()
            };
            Self::push_area_layer(&mut instructions, start, size, tool_radius, ez, ezs);
            proof {
                let zs = context.spec_z_safe() as int;
                let n1 = layer as int + 1;
                let step_g = abs_int(self.max_step_z as int);
                assert(step_g == max_step_z as int);
                assert(n1 * step_g == n1 * (max_step_z as int)) by (nonlinear_arith)
                    requires
                        step_g == max_step_z as int,
                ;
                let m1 = min_int(area_start_z(*self) - n1 * step_g, zs);
                let m2 = min_int(
                    area_start_z(*self) + (self.end_z_stop - self.end_z) - n1 * step_g,
                    zs,
                );
                let this_layer = area_layer(
                    comp_start(self.start, self.compensation, tool_g.spec_radius()),
                    comp_size(self.size, self.compensation, tool_g.spec_radius()),
                    tool_g.spec_radius(),
                    m1,
                    m2,
                );
                assert(area_descents(*self, tool_g, zs, n1) == area_descents(
                    *self,
                    tool_g,
                    zs,
                    layer as int,
                ) + this_layer);
                assert(ez as int == m1);
                assert(ezs as int == m2);
                assert(instructions.deep_view() == (header + area_descents(
                    *self,
                    tool_g,
                    zs,
                    layer as int,
                )) + this_layer);
                vstd::seq_lib::lemma_concat_associative(
                    header,
                    area_descents(*self, tool_g, zs, layer as int),
                    this_layer,
                );
                assert(instructions.deep_view() == header + area_descents(
                    *self,
                    tool_g,
                    zs,
                    n1,
                ));
            }
            layer += 1;
        }

        let ez = if self.end_z < context.z_safe() {
            self.end_z
        } else {
            context.z_safe()
        };
        let ezs = if self.end_z_stop < context.z_safe() {
            self.end_z_stop
        } else {
            context.z_safe()
        };
        Self::push_area_layer(&mut instructions, start, size, tool_radius, ez, ezs);
        let ghost tail_base = instructions.deep_view();
        instructions.push(Instruction::G0(G0 { x: None, y: None, z: Some(context.z_safe()) }));

        proof {
            assert(instructions.deep_view() =~= tail_base + seq![
                InstrV::G0 { x: None, y: None, z: Some(context.spec_z_safe()) },
            ]);
            assert(instructions.deep_view() == area_spec(
                *self,
                context.spec_tool(),
                context.spec_units(),
                context.spec_z_safe(),
            )->Ok_0);
        }
        Ok(instructions)
    }

    /// Appends one raster layer at depths `ez` and `ezs`.
    fn push_area_layer(
        instructions: &mut Vec<Instruction>,
        cs: Vector3,
        csize: Vector2,
        tr: i64,
        ez: i64,
        ezs: i64,
    )
        requires
            -2 * crate::types::MAX_COORD <= cs.x <= 2 * crate::types::MAX_COORD,
            -2 * crate::types::MAX_COORD <= cs.y <= 2 * crate::types::MAX_COORD,
            0 <= csize.x <= 3 * crate::types::MAX_COORD,
            0 <= csize.y <= 3 * crate::types::MAX_COORD,
            1 <= tr <= crate::types::MAX_COORD,
            -10 * crate::types::MAX_COORD <= ez <= 10 * crate::types::MAX_COORD,
            -10 * crate::types::MAX_COORD <= ezs <= 10 * crate::types::MAX_COORD,
        ensures
            final(instructions).deep_view() == old(instructions).deep_view() + area_layer(
                cs,
                csize,
                tr as int,
                ez as int,
                ezs as int,
            ),
    {
        let passes: i64 = (5 * csize.y + 9 * tr - 1) / (9 * tr);
        proof {
            assert(passes as int == raster_passes(csize.y as int, tr as int));
            assert(passes as int >= 0) by (nonlinear_arith)
                requires
                    passes as int == (5 * (csize.y as int) + 9 * (tr as int) - 1) / (9 * (
                    tr as int)),
                    csize.y >= 0,
                    tr >= 1,
            ;
            assert(passes as int <= 5 * (csize.y as int)) by (nonlinear_arith)
                requires
                    passes as int == (5 * (csize.y as int) + 9 * (tr as int) - 1) / (9 * (
                    tr as int)),
                    csize.y >= 0,
                    tr >= 1,
            ;
        }
        let ghost seq4 = seq![
            InstrV::G1 { x: Some((cs.x + csize.x) as i64), y: None, z: Some(ezs), f: None },
            InstrV::G1 { x: None, y: Some((cs.y + csize.y) as i64), z: None, f: None },
            InstrV::G1 { x: Some(cs.x), y: None, z: Some(ez), f: None },
            InstrV::G1 { x: None, y: Some(cs.y), z: None, f: None },
        ];
        instructions.push(
            Instruction::G1(G1 { x: Some(cs.x + csize.x), y: None, z: Some(ezs), f: None }),
        );
        instructions.push(
            Instruction::G1(G1 { x: None, y: Some(cs.y + csize.y), z: None, f: None }),
        );
        instructions.push(Instruction::G1(G1 { x: Some(cs.x), y: None, z: Some(ez), f: None }));
        instructions.push(Instruction::G1(G1 { x: None, y: Some(cs.y), z: None, f: None }));
        let ghost prefix = instructions.deep_view();
        proof {
            assert(prefix =~= old(instructions).deep_view() + seq4);
            assert(prefix + raster_pairs(cs, csize, passes as int, ez as int, ezs as int, 0)
                =~= prefix);
        }

        if csize.x > 2 * tr {
            let mut i: i64 = 0;
            while i < passes
                invariant
                    0 <= i <= passes,
                    0 <= csize.y <= 3 * crate::types::MAX_COORD,
                    -2 * crate::types::MAX_COORD <= cs.x <= 2 * crate::types::MAX_COORD,
                    -2 * crate::types::MAX_COORD <= cs.y <= 2 * crate::types::MAX_COORD,
                    0 <= csize.x <= 3 * crate::types::MAX_COORD,
                    -10 * crate::types::MAX_COORD <= ez <= 10 * crate::types::MAX_COORD,
                    -10 * crate::types::MAX_COORD <= ezs <= 10 * crate::types::MAX_COORD,
                    passes <= 5 * (csize.y as int) + 1,
                    passes as int == raster_passes(csize.y as int, tr as int),
                    instructions.deep_view() == prefix + raster_pairs(
                        cs,
                        csize,
                        passes as int,
                        ez as int,
                        ezs as int,
                        i as int,
                    ),
                decreases passes - i,
            {
                proof {
                    assert((i as int) * (csize.y as int) <= (passes as int)
                        * 100_000_000_000_000 && 0 <= (i as int) * (csize.y as int))
                        by (nonlinear_arith)
                        requires
                            0 <= i < passes,
                            0 <= csize.y <= 100_000_000_000_000,
                    ;
                }
                let y: i64 = cs.y + rdiv_i128(i as i128 * csize.y as i128, passes as i128);
                let ghost prev = instructions.deep_view();
                let ghost pair = seq![
                    InstrV::G1 { x: None, y: Some(y), z: None, f: None },
                    if (i as int) % 2 == 0 {
                        InstrV::G1 {
                            x: Some((cs.x + csize.x) as i64),
                            y: None,
                            z: Some(ezs),
                            f: None,
                        }
                    } else {
                        InstrV::G1 { x: Some(cs.x), y: None, z: Some(ez), f: None }
                    },
                ];
                instructions.push(Instruction::G1(G1 { x: None, y: Some(y), z: None, f: None }));
                if i % 2 == 0 {
                    instructions.push(
                        Instruction::G1(
                            G1 { x: Some(cs.x + csize.x), y: None, z: Some(ezs), f: None },
                        ),
                    );
                } else {
                    instructions.push(
                        Instruction::G1(G1 { x: Some(cs.x), y: None, z: Some(ez), f: None }),
                    );
                }
                proof {
                    assert(instructions.deep_view() =~= prev + pair);
                    vstd::seq_lib::lemma_concat_associative(
                        prefix,
                        raster_pairs(cs, csize, passes as int, ez as int, ezs as int, i as int),
                        pair,
                    );
                    assert(raster_pairs(
                        cs,
                        csize,
                        passes as int,
                        ez as int,
                        ezs as int,
                        i as int + 1,
                    ) == raster_pairs(cs, csize, passes as int, ez as int, ezs as int, i as int)
                        + pair);
                    assert(instructions.deep_view() == prefix + raster_pairs(
                        cs,
                        csize,
                        passes as int,
                        ez as int,
                        ezs as int,
                        i as int + 1,
                    ));
                }
                i += 1;
            }
        }

        let ghost raster_part = if csize.x > 2 * tr {
            raster_pairs(cs, csize, passes as int, ez as int, ezs as int, passes as int)
        } else {
            Seq::<InstrV>::empty()
        };
        proof {
            if csize.x <= 2 * tr {
                assert(instructions.deep_view() =~= prefix + raster_part);
            }
        }
        let ghost mid = instructions.deep_view();
        let end_at_start: bool = if csize.x > 2 * tr && passes >= 1 {
            passes % 2 == 0
        } else {
            true
        };
        let lift = if end_at_start {
            ez
        } else {
            ezs
        };
        let ghost seq3 = seq![
            InstrV::G0 { x: None, y: None, z: Some((lift + 5000) as i64) },
            InstrV::G0 { x: Some(cs.x), y: Some(cs.y), z: Some((ez + 5000) as i64) },
            InstrV::G1 { x: None, y: None, z: Some(ez), f: None },
        ];
        instructions.push(Instruction::G0(G0 { x: None, y: None, z: Some(lift + 5000) }));
        instructions.push(
            Instruction::G0(G0 { x: Some(cs.x), y: Some(cs.y), z: Some(ez + 5000) }),
        );
        instructions.push(Instruction::G1(G1 { x: None, y: None, z: Some(ez), f: None }));
        proof {
            assert(instructions.deep_view() =~= mid + seq3);
            let base = old(instructions).deep_view();
            vstd::seq_lib::lemma_concat_associative(base, seq4, raster_part);
            vstd::seq_lib::lemma_concat_associative(base, seq4 + raster_part, seq3);
            assert(area_layer(cs, csize, tr as int, ez as int, ezs as int) == seq4 + raster_part
                + seq3);
            assert(instructions.deep_view() == old(instructions).deep_view() + area_layer(
                cs,
                csize,
                tr as int,
                ez as int,
                ezs as int,
            ));
        }
    }
}

} // verus!
