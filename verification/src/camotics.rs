//! Simulation-project records: a pure transcription of a program's tools and
//! workpiece geometry into the shape a simulator loads.  Writing the record
//! out as a project file is left to the caller.

use vstd::prelude::*;

use crate::program::{program_bounds, pv_wf, Program};
use crate::tools::Tool;
use crate::types::{Bounds, Units, Vector3};

verus! {

/// The resolution mode of a simulation: two presets, or a manual value.
#[derive(Debug, PartialEq, Eq, Structural, Clone, Copy)]
pub enum ResolutionMode {
    /// The preset fine resolution.
    High,
    /// The preset coarse resolution.
    Low,
    /// A manual resolution value.
    Manual,
}

/// The workpiece of a simulation: explicit bounds with an optional margin.
#[derive(Debug, PartialEq, Eq, Structural, Clone, Copy)]
pub struct Workpiece {
    /// Whether the simulator should compute the bounds itself.
    pub automatic: bool,
    /// The extra margin around automatically computed bounds.
    pub margin: i64,
    /// The explicit workpiece bounds.
    pub bounds: Bounds,
}

/// The shape class of a simulated tool.
#[derive(Debug, PartialEq, Eq, Structural, Clone, Copy)]
pub enum CamoticsToolShape {
    /// A cylindrical tool.
    Cylindrical,
    /// A ballnose tool.
    Ballnose,
    /// A conical tool.
    Conical,
}

/// One tool of a simulation, keyed by its 1-based position.
#[derive(Debug, PartialEq, Eq, Structural, Clone, Copy)]
pub struct CamoticsTool {
    /// The units of the tool measurements.
    pub units: Units,
    /// The cutting angle of a conical tool.
    pub angle: Option<i64>,
    /// The cutter length.
    pub length: i64,
    /// The cutter diameter.
    pub diameter: i64,
    /// The 1-based position of the tool.
    pub number: u32,
    /// The shape class.
    pub shape: CamoticsToolShape,
}

/// The simulation form of a tool.
pub open spec fn camotics_tool_of(tool: Tool, number: u32) -> CamoticsTool {
    match tool {
        Tool::Cylindrical(t) => CamoticsTool {
            units: t.units,
            angle: None,
            length: t.length,
            diameter: t.diameter,
            number,
            shape: CamoticsToolShape::Cylindrical,
        },
        Tool::Ballnose(t) => CamoticsTool {
            units: t.units,
            angle: None,
            length: t.length,
            diameter: t.diameter,
            number,
            shape: CamoticsToolShape::Ballnose,
        },
        Tool::Conical(t) => CamoticsTool {
            units: t.units,
            angle: Some(t.angle),
            length: t.length,
            diameter: t.diameter,
            number,
            shape: CamoticsToolShape::Conical,
        },
    }
}

impl CamoticsTool {
    /// The simulation form of a tool, per [`camotics_tool_of`].
    pub fn from_tool(tool: Tool, number: u32) -> (t: CamoticsTool)
        ensures
            t == camotics_tool_of(tool, number),
    {
        match tool {
            Tool::Cylindrical(c) => CamoticsTool {
                units: c.units,
                angle: None,
                length: c.length,
                diameter: c.diameter,
                number,
                shape: CamoticsToolShape::Cylindrical,
            },
            Tool::Ballnose(c) => CamoticsTool {
                units: c.units,
                angle: None,
                length: c.length,
                diameter: c.diameter,
                number,
                shape: CamoticsToolShape::Ballnose,
            },
            Tool::Conical(c) => CamoticsTool {
                units: c.units,
                angle: Some(c.angle),
                length: c.length,
                diameter: c.diameter,
                number,
                shape: CamoticsToolShape::Conical,
            },
        }
    }
}

/// A simulation project: units, resolution, the tools keyed by position, the
/// workpiece, and the generated code file names.
#[derive(Debug, PartialEq)]
pub struct Camotics {
    /// The project name (not part of the serialized record).
    pub name: String,
    /// The units of the project.
    pub units: Units,
    /// The resolution mode; manual by default, so the value below applies.
    pub resolution_mode: ResolutionMode,
    /// The simulation resolution.
    pub resolution: i64,
    /// The tools of the project, in position order.
    pub tools: Vec<CamoticsTool>,
    /// The workpiece of the project.
    pub workpiece: Workpiece,
    /// The code files the project simulates.
    pub files: Vec<String>,
}

impl Camotics {
    /// A new simulation project over the given tools and workpiece, with a
    /// manual resolution.  Tool numbers count from one in list order, and
    /// the single code file is named after the project.
    pub fn new(name: &str, tools: &Vec<Tool>, workpiece: Bounds, resolution: i64) -> (c: Camotics)
        requires
            tools@.len() <= u32::MAX,
        ensures
            c.name@ == name@,
            c.units == Units::Metric,
            c.resolution_mode == ResolutionMode::Manual,
            c.resolution == resolution,
            c.tools@.len() == tools@.len(),
            forall|i: int|
                0 <= i < tools@.len() ==> c.tools@[i] == camotics_tool_of(
                    tools@[i],
                    (i + 1) as u32,
                ),
            c.workpiece == (Workpiece { automatic: false, margin: 0, bounds: workpiece }),
            c.files@.len() == 1 && c.files@[0]@ == name@ + ".gcode"@,
    {
        let mut tools_list: Vec<CamoticsTool> = Vec::new();
        let n = tools.len();
        let mut i: usize = 0;
        while i < n
            invariant
                0 <= i <= n,
                n == tools@.len(),
                n <= u32::MAX,
                tools_list@.len() == i,
                forall|j: int|
                    0 <= j < i ==> tools_list@[j] == camotics_tool_of(tools@[j], (j + 1) as u32),
            decreases n - i,
        {
            tools_list.push(CamoticsTool::from_tool(tools[i], (i as u32) + 1));
            i += 1;
        }
        let mut file = String::from_str(name);
        file.append(".gcode");
        let mut files: Vec<String> = Vec::new();
        files.push(file);
        Camotics {
            name: String::from_str(name),
            units: Units::Metric,
            resolution_mode: ResolutionMode::Manual,
            resolution,
            tools: tools_list,
            workpiece: Workpiece { automatic: false, margin: 0, bounds: workpiece },
            files,
        }
    }

    /// A new simulation project over a program's tools and bounds.
    pub fn from_program(name: &str, program: &Program, resolution: i64) -> (c: Camotics)
        requires
            pv_wf(program@),
        ensures
            c.name@ == name@,
            c.units == Units::Metric,
            c.resolution_mode == ResolutionMode::Manual,
            c.resolution == resolution,
            ({
                let ts = crate::tools::tools_ordered_spec(program@.ordering);
                c.tools@.len() == ts.len() && forall|i: int|
                    0 <= i < ts.len() ==> c.tools@[i] == camotics_tool_of(ts[i], (i + 1) as u32)
            }),
            c.workpiece == (Workpiece {
                automatic: false,
                margin: 0,
                bounds: program_bounds(program@),
            }),
            c.files@.len() == 1 && c.files@[0]@ == name@ + ".gcode"@,
    {
        let tools = program.tools();
        let workpiece = program.bounds();
        proof {
            crate::tools::lemma_tools_ordered_count(program@.ordering);
        }
        Self::new(name, &tools, workpiece, resolution)
    }
}

} // verus!
