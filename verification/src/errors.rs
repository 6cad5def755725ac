//! The failures the compiler can report.
//!
//! Every failure is a structured value naming the quantities involved; the
//! [`CncError::message`] method renders the human-readable cause, and its
//! exact text is defined by [`error_message`].

use vstd::prelude::*;

use crate::text::{num2_str, num_str};
use crate::types::{units_label, Axis, Units};

verus! {

/// A recoverable failure of the compilation of a cut or program.
#[derive(Debug, PartialEq, Eq, Structural, Clone, Copy)]
pub enum CncError {
    /// The two endpoints of an arc are not equidistant from its center.
    ArcDistanceMismatch {
        /// Distance from the starting point to the center.
        distance_from: i64,
        /// Distance from the end point to the center.
        distance_to: i64,
        /// The units the distances are in.
        units: Units,
    },
    /// The tool is wider than the circle it should cut.
    CircleTooNarrow {
        /// The diameter of the compensated cut (its magnitude).
        cut_diameter: i64,
        /// The tool diameter.
        tool_diameter: i64,
        /// The units the diameters are in.
        units: Units,
    },
    /// The tool is wider than a frame dimension.
    FrameTooNarrow {
        /// The axis on which the frame is too small.
        axis: Axis,
        /// How much wider the tool is than the dimension.
        shortfall: i64,
        /// The tool diameter.
        tool_diameter: i64,
        /// The units the lengths are in.
        units: Units,
    },
    /// The tool is wider than an area dimension.
    AreaTooNarrow {
        /// The axis on which the area is too small.
        axis: Axis,
        /// How much wider the tool is than the dimension.
        shortfall: i64,
        /// The tool diameter.
        tool_diameter: i64,
        /// The units the lengths are in.
        units: Units,
    },
    /// The tool-change height lies below the safe travel height.
    ToolChangeBelowSafe {
        /// The configured tool-change height.
        z_tool_change: i64,
        /// The configured safe travel height.
        z_safe: i64,
        /// The units the heights are in.
        units: Units,
    },
    /// The safe travel height lies below the top of the workpiece.
    SafeBelowWork {
        /// The configured safe travel height.
        z_safe: i64,
        /// The highest z coordinate any cut reaches.
        max_z: i64,
        /// The units the heights are in.
        units: Units,
    },
    /// Two programs or contexts with different units cannot merge.
    UnitsMismatch,
    /// Two contexts bound to different tools cannot merge.
    ToolMismatch,
}

/// The axis name in lower case, as the dimension messages quote it.
pub open spec fn axis_lower(a: Axis) -> Seq<char> {
    match a {
        Axis::X => "x"@,
        Axis::Y => "y"@,
        Axis::Z => "z"@,
    }
}

/// The cause of a dimension shortfall, shared by frames and areas.
pub open spec fn too_narrow_message(
    verb: Seq<char>,
    glue: Seq<char>,
    axis: Axis,
    shortfall: int,
    tool_diameter: int,
    units: Units,
) -> Seq<char> {
    verb + num2_str(shortfall) + " "@ + units_label(units) + glue + axis_lower(axis)
        + " dimension (tool diameter is "@ + num2_str(tool_diameter) + " "@ + units_label(units)
        + ")"@
}

/// The human-readable cause of each failure.
pub open spec fn error_message(e: CncError) -> Seq<char> {
    match e {
        CncError::ArcDistanceMismatch { distance_from, distance_to, units } => {
            "Arc distances from/center ("@ + num_str(distance_from as int) + " "@ + units_label(
                units,
            ) + ") and to/center ("@ + num_str(distance_to as int) + " "@ + units_label(units)
                + ") must be equal"@
        },
        CncError::CircleTooNarrow { cut_diameter, tool_diameter, units } => {
            "Unable to cut circle of diameter "@ + num2_str(cut_diameter as int) + " "@
                + units_label(units) + " with tool diameter "@ + num2_str(tool_diameter as int)
                + " "@ + units_label(units) + "."@
        },
        CncError::FrameTooNarrow { axis, shortfall, tool_diameter, units } => {
            too_narrow_message(
                "Unable to cut frame, tool is "@,
                " to wider than "@,
                axis,
                shortfall as int,
                tool_diameter as int,
                units,
            )
        },
        CncError::AreaTooNarrow { axis, shortfall, tool_diameter, units } => {
            too_narrow_message(
                "Unable to plane area, tool is "@,
                " wider than "@,
                axis,
                shortfall as int,
                tool_diameter as int,
                units,
            )
        },
        CncError::ToolChangeBelowSafe { z_tool_change, z_safe, units } => {
            "z_tool_change "@ + num_str(z_tool_change as int) + " "@ + units_label(units)
                + " must be larger than or equal to the z_safe value of "@ + num_str(z_safe as int)
                + " "@ + units_label(units)
        },
        CncError::SafeBelowWork { z_safe, max_z, units } => {
            "z_safe "@ + num_str(z_safe as int) + " "@ + units_label(units)
                + " must be larger than or equal to the workpiece max z value of "@ + num_str(
                max_z as int,
            ) + " "@ + units_label(units)
        },
        CncError::UnitsMismatch => "Failed to merge due to mismatching units"@,
        CncError::ToolMismatch => "Failed to merge due to mismatching tools"@,
    }
}

/// Renders a dimension-shortfall cause.
fn too_narrow_text(
    verb: &str,
    glue: &str,
    axis: Axis,
    shortfall: i64,
    tool_diameter: i64,
    units: Units,
) -> (s: String)
    ensures
        s@ == too_narrow_message(
            verb@,
            glue@,
            axis,
            shortfall as int,
            tool_diameter as int,
            units,
        ),
{
    let axis_text = match axis {
        Axis::X => "x",
        Axis::Y => "y",
        Axis::Z => "z",
    };
    proof {
        assert(axis_text@ == axis_lower(axis));
    }
    let mut s = String::from_str(verb);
    s.append(crate::text::format_num2(shortfall).as_str());
    s.append(" ");
    s.append(units.label());
    s.append(glue);
    s.append(axis_text);
    s.append(" dimension (tool diameter is ");
    s.append(crate::text::format_num2(tool_diameter).as_str());
    s.append(" ");
    s.append(units.label());
    s.append(")");
    s
}

/// Renders the arc-distance cause.
fn arc_mismatch_message(distance_from: i64, distance_to: i64, units: Units) -> (s: String)
    ensures
        s@ == error_message(
            CncError::ArcDistanceMismatch { distance_from, distance_to, units },
        ),
{
    let mut s = String::from_str("Arc distances from/center (");
    s.append(crate::text::format_num(distance_from).as_str());
    s.append(" ");
    s.append(units.label());
    s.append(") and to/center (");
    s.append(crate::text::format_num(distance_to).as_str());
    s.append(" ");
    s.append(units.label());
    s.append(") must be equal");
    proof {
        assert(s@ =~= error_message(
            CncError::ArcDistanceMismatch { distance_from, distance_to, units },
        ));
    }
    s
}

/// Renders the circle-width cause.
fn circle_too_narrow_message(cut_diameter: i64, tool_diameter: i64, units: Units) -> (s: String)
    ensures
        s@ == error_message(
            CncError::CircleTooNarrow { cut_diameter, tool_diameter, units },
        ),
{
    let mut s = String::from_str("Unable to cut circle of diameter ");
    s.append(crate::text::format_num2(cut_diameter).as_str());
    s.append(" ");
    s.append(units.label());
    s.append(" with tool diameter ");
    s.append(crate::text::format_num2(tool_diameter).as_str());
    s.append(" ");
    s.append(units.label());
    s.append(".");
    proof {
        assert(s@ =~= error_message(
            CncError::CircleTooNarrow { cut_diameter, tool_diameter, units },
        ));
    }
    s
}

/// Renders the height-order causes.
fn heights_message(first: &str, mid: &str, a: i64, b: i64, units: Units) -> (s: String)
    ensures
        s@ == first@ + num_str(a as int) + " "@ + units_label(units) + mid@ + num_str(b as int)
            + " "@ + units_label(units),
{
    let mut s = String::from_str(first);
    s.append(crate::text::format_num(a).as_str());
    s.append(" ");
    s.append(units.label());
    s.append(mid);
    s.append(crate::text::format_num(b).as_str());
    s.append(" ");
    s.append(units.label());
    proof {
        assert(s@ =~= first@ + num_str(a as int) + " "@ + units_label(units) + mid@ + num_str(
            b as int,
        ) + " "@ + units_label(units));
    }
    s
}

impl CncError {
    /// The human-readable cause of this failure, per [`error_message`].
    pub fn message(&self) -> (s: String)
        ensures
            s@ == error_message(*self),
    {
        match *self {
            CncError::ArcDistanceMismatch { distance_from, distance_to, units } => {
                arc_mismatch_message(distance_from, distance_to, units)
            },
            CncError::CircleTooNarrow { cut_diameter, tool_diameter, units } => {
                circle_too_narrow_message(cut_diameter, tool_diameter, units)
            },
            CncError::FrameTooNarrow { axis, shortfall, tool_diameter, units } => {
                too_narrow_text(
                    "Unable to cut frame, tool is ",
                    " to wider than ",
                    axis,
                    shortfall,
                    tool_diameter,
                    units,
                )
            },
            CncError::AreaTooNarrow { axis, shortfall, tool_diameter, units } => {
                too_narrow_text(
                    "Unable to plane area, tool is ",
                    " wider than ",
                    axis,
                    shortfall,
                    tool_diameter,
                    units,
                )
            },
            CncError::ToolChangeBelowSafe { z_tool_change, z_safe, units } => {
                heights_message(
                    "z_tool_change ",
                    " must be larger than or equal to the z_safe value of ",
                    z_tool_change,
                    z_safe,
                    units,
                )
            },
            CncError::SafeBelowWork { z_safe, max_z, units } => {
                heights_message(
                    "z_safe ",
                    " must be larger than or equal to the workpiece max z value of ",
                    z_safe,
                    max_z,
                    units,
                )
            },
            CncError::UnitsMismatch => {
                String::from_str("Failed to merge due to mismatching units")
            },
            CncError::ToolMismatch => {
                String::from_str("Failed to merge due to mismatching tools")
            },
        }
    }
}

} // verus!
