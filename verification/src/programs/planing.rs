//! A ready-made program that planes a surface down to a given depth.

use vstd::prelude::*;

use crate::cuts::{Area, Cut, CutV};
use crate::program::{append_op, ensure_ctx, pv_wf, OperationV, Program, ProgramV};
use crate::tools::{tool_ok, Tool};
use crate::types::{measurement_spec, ToolPathCompensation, Units, Vector2, Vector3, MAX_COORD};

verus! {

/// The measurements of a planing job.
#[derive(Debug, Clone, Copy)]
pub struct PlaningMeasurements {
    /// The length to plane on the x axis.
    pub x_length: i64,
    /// The length to plane on the y axis.
    pub y_length: i64,
    /// The height where planing starts.
    pub z_start: i64,
    /// The depth where planing ends.
    pub z_end: i64,
    /// The most the cut descends per pass.
    pub z_max_step: i64,
    /// The units of the measurements.
    pub units: Units,
}

impl PlaningMeasurements {
    /// Whether the measurements are inside the working range.
    pub open spec fn wf(self) -> bool {
        &&& 0 <= self.x_length <= MAX_COORD / 4
        &&& 0 <= self.y_length <= MAX_COORD / 4
        &&& -MAX_COORD / 4 <= self.z_start <= MAX_COORD / 4
        &&& -MAX_COORD / 4 <= self.z_end <= MAX_COORD / 4
        &&& -MAX_COORD / 4 <= self.z_max_step <= MAX_COORD / 4
    }
}

impl Default for PlaningMeasurements {
    /// A ten-by-ten planing job from a height of five units down to a tenth
    /// of a unit below zero, descending one unit per pass, in metric units.
    fn default() -> (m: Self)
        ensures
            m == (PlaningMeasurements {
                x_length: measurement_spec(Units::Metric, 100000) as i64,
                y_length: measurement_spec(Units::Metric, 100000) as i64,
                z_start: measurement_spec(Units::Metric, 50000) as i64,
                z_end: measurement_spec(Units::Metric, -1000) as i64,
                z_max_step: measurement_spec(Units::Metric, 10000) as i64,
                units: Units::Metric,
            }),
            m.wf(),
    {
        let units = Units::Metric;
        PlaningMeasurements {
            x_length: units.measurement_from_mm(100000),
            y_length: units.measurement_from_mm(100000),
            z_start: units.measurement_from_mm(50000),
            z_end: units.measurement_from_mm(-1000),
            z_max_step: units.measurement_from_mm(10000),
            units,
        }
    }
}

/// The planing cut of the job: an outward-compensated area one tool radius
/// left of and below the origin, spanning the lengths plus one tool
/// diameter.
pub open spec fn planing_cut(tool: Tool, m: PlaningMeasurements) -> CutV {
    CutV::Area(
        Area {
            start: Vector3 {
                x: (-tool.spec_radius()) as i64,
                y: (-tool.spec_radius()) as i64,
                z: m.z_start,
            },
            size: Vector2 {
                x: (m.x_length + tool.spec_diameter()) as i64,
                y: (m.y_length + tool.spec_diameter()) as i64,
            },
            end_z: m.z_end,
            end_z_stop: m.z_end,
            max_step_z: m.z_max_step,
            compensation: ToolPathCompensation::Outer,
        },
    )
}

/// A program that planes a surface down to a given depth: one area cut over
/// the requested lengths, widened by the tool, with the safe height two
/// units above the start and the tool-change height fifty above.
pub fn planing(tool: Tool, measurements: PlaningMeasurements) -> (p: Program)
    requires
        tool_ok(tool),
        tool.spec_diameter() <= MAX_COORD / 2,
        measurements.wf(),
    ensures
        pv_wf(p@),
        p@.units == measurements.units,
        p@.z_safe == measurements.z_start + measurement_spec(measurements.units, 20000),
        p@.z_tool_change == measurements.z_start + measurement_spec(measurements.units, 500000),
        ({
            let base = ProgramV {
                contexts: Seq::empty(),
                tools: Seq::empty(),
                ordering: Seq::empty(),
                explicit: Seq::empty(),
                ..p@
            };
            p@ == append_op(base, tool, OperationV::Cut(planing_cut(tool, measurements)))
        }),
{
    let mut program = Program::new(
        measurements.units,
        measurements.z_start + measurements.units.measurement_from_mm(20000),
        measurements.z_start + measurements.units.measurement_from_mm(500000),
    );
    let radius = tool.radius();
    let diameter = tool.diameter();
    program.append_cut(
        tool,
        Cut::plane(
            Vector3::new(-radius, -radius, measurements.z_start),
            Vector2::new(
                measurements.x_length + diameter,
                measurements.y_length + diameter,
            ),
            measurements.z_end,
            measurements.z_max_step,
        ),
    );
    program
}

} // verus!
