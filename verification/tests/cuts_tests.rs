//! Tests of the cut algorithms, the failure cases, and end-to-end emission.

use cnccoder::cuts::{Arc, Cut, Segment};
use cnccoder::errors::CncError;
use cnccoder::instructions::{Instruction, G1};
use cnccoder::program::{InnerContext, Program};
use cnccoder::tools::Tool;
use cnccoder::types::{Axis, Direction, Units, Vector2, Vector3};

fn test_tool() -> Tool {
    Tool::cylindrical(
        Units::Metric,
        500000,
        40000,
        Direction::Clockwise,
        50_000_000,
        4_000_000,
    )
}

fn test_context() -> InnerContext {
    InnerContext::new(Units::Metric, &test_tool(), 100000, 500000)
}

#[test]
fn arc_requires_equal_center_distances() {
    // Distances 10 and 20: the arc fails with both distances reported.
    let bad = Arc::new(
        Vector3::new(100000, 0, 0),
        Vector3::new(0, 200000, 0),
        Vector3::new(0, 0, 0),
        Axis::Z,
        Direction::Clockwise,
    );
    let r = bad.to_instructions(&test_context());
    assert_eq!(
        r,
        Err(CncError::ArcDistanceMismatch {
            distance_from: 100000,
            distance_to: 200000,
            units: Units::Metric,
        })
    );

    // Equal distances: the arc compiles.
    let good = Arc::new(
        Vector3::new(100000, 0, 0),
        Vector3::new(0, 100000, 0),
        Vector3::new(0, 0, 0),
        Axis::Z,
        Direction::Clockwise,
    );
    assert!(good.to_instructions(&test_context()).is_ok());

    // A mismatch of exactly one ten-thousandth is still tolerated.
    let near = Arc::new(
        Vector3::new(100001, 0, 0),
        Vector3::new(0, 100000, 0),
        Vector3::new(0, 0, 0),
        Axis::Z,
        Direction::Clockwise,
    );
    assert!(near.to_instructions(&test_context()).is_ok());
}

#[test]
fn circle_drill_is_one_plunge() {
    let cut = Cut::drill(Vector3::new(0, 0, 0), -10000);
    let instructions = cut.to_instructions(&test_context()).unwrap();
    assert_eq!(instructions.len(), 6);
    for i in &instructions {
        assert!(!matches!(i, Instruction::G2(_)));
        assert!(!matches!(i, Instruction::G3(_)));
    }
}

#[test]
fn circle_narrower_than_tool_fails() {
    // Inner compensation on a radius of one unit with a two-unit-radius
    // tool: the effective radius is negative.
    let cut = Cut::circle_inner(Vector3::new(0, 0, 0), -10000, 10000, 10000);
    let r = cut.to_instructions(&test_context());
    assert_eq!(
        r,
        Err(CncError::CircleTooNarrow {
            cut_diameter: 20000,
            tool_diameter: 40000,
            units: Units::Metric,
        })
    );
}

#[test]
fn circle_pass_count_grows_with_depth() {
    let shallow = Cut::circle(Vector3::new(0, 0, 30000), 0, 50000, 10000);
    let deep = Cut::circle(Vector3::new(0, 0, 50000), 0, 50000, 10000);
    let shallow_count = shallow.to_instructions(&test_context()).unwrap().len();
    let deep_count = deep.to_instructions(&test_context()).unwrap().len();
    // Five fixed header and three trailing instructions plus one full
    // circle per layer.
    assert_eq!(shallow_count, 8 + 3);
    assert_eq!(deep_count, 8 + 5);
    assert!(shallow_count < deep_count);
}

#[test]
fn frame_narrower_than_tool_fails_naming_the_axis() {
    let cut = Cut::frame(Vector3::new(0, 0, 0), Vector2::new(20000, 100000), -10000, 10000);
    let r = cut.to_instructions(&test_context());
    assert_eq!(
        r,
        Err(CncError::FrameTooNarrow {
            axis: Axis::X,
            shortfall: 20000,
            tool_diameter: 40000,
            units: Units::Metric,
        })
    );
    let message = match r {
        Err(e) => e.message(),
        Ok(_) => panic!("expected a failure"),
    };
    assert_eq!(
        message,
        "Unable to cut frame, tool is 2.00 mm to wider than x dimension (tool diameter is 4.00 mm)"
    );
}

#[test]
fn area_narrower_than_tool_fails_naming_the_axis() {
    let cut = Cut::pocket(Vector3::new(0, 0, 0), Vector2::new(100000, 30000), -10000, 10000);
    let r = cut.to_instructions(&test_context());
    assert_eq!(
        r,
        Err(CncError::AreaTooNarrow {
            axis: Axis::Y,
            shortfall: 10000,
            tool_diameter: 40000,
            units: Units::Metric,
        })
    );
    let message = match r {
        Err(e) => e.message(),
        Ok(_) => panic!("expected a failure"),
    };
    assert_eq!(
        message,
        "Unable to plane area, tool is 1.00 mm wider than y dimension (tool diameter is 4.00 mm)"
    );
}

#[test]
fn empty_path_compiles_to_nothing() {
    let cut = Cut::path(Vector3::new(0, 0, 30000), vec![], -1000, 10000);
    let instructions = cut.to_instructions(&test_context()).unwrap();
    assert!(instructions.is_empty());
}

#[test]
fn path_rejects_unbalanced_arc_segment() {
    let cut = Cut::path(
        Vector3::new(0, 0, 30000),
        vec![Segment::arc(
            Vector2::new(100000, 0),
            Vector2::new(0, 200000),
            Vector2::new(0, 0),
            Direction::Clockwise,
        )],
        -1000,
        10000,
    );
    let r = cut.to_instructions(&test_context());
    assert_eq!(
        r,
        Err(CncError::ArcDistanceMismatch {
            distance_from: 100000,
            distance_to: 200000,
            units: Units::Metric,
        })
    );
}

#[test]
fn path_arc_bounds_are_offset_by_the_start() {
    // A path starting at (1, 2, 3) holding one arc centered at (3, 4) with
    // radius 2 spans the start-offset box around the center.
    let cut = Cut::path(
        Vector3::new(10000, 20000, 30000),
        vec![Segment::arc(
            Vector2::new(10000, 40000),
            Vector2::new(50000, 40000),
            Vector2::new(30000, 40000),
            Direction::Clockwise,
        )],
        -1000,
        10000,
    );
    let bounds = cut.bounds();
    assert_eq!(bounds.min, Vector3::new(20000, 40000, -1000));
    assert_eq!(bounds.max, Vector3::new(60000, 80000, 30000));
}

#[test]
fn empty_contexts_get_no_tool_change_block() {
    let mut program = Program::new(Units::Metric, 100000, 500000);
    program.set_name("idle tool");
    // The tool is placed and ordered, but no operation is declared for it.
    program.context(test_tool());
    assert_eq!(program.tools().len(), 1);
    let gcode = program.to_gcode().unwrap();
    assert!(!gcode.contains("T1 M6"));
    assert!(!gcode.contains("Tool change:"));
}

#[test]
fn program_rejects_tool_change_below_safe_height() {
    let mut program = Program::new(Units::Metric, 100000, 50000);
    program.append_cut(test_tool(), Cut::drill(Vector3::default(), -10000));
    let r = program.to_instructions();
    assert_eq!(
        r,
        Err(CncError::ToolChangeBelowSafe {
            z_tool_change: 50000,
            z_safe: 100000,
            units: Units::Metric,
        })
    );
}

#[test]
fn program_rejects_safe_height_below_workpiece() {
    let mut program = Program::new(Units::Metric, 10000, 500000);
    program.append_cut(
        test_tool(),
        Cut::drill(Vector3::new(0, 0, 30000), -10000),
    );
    let r = program.to_instructions();
    assert_eq!(
        r,
        Err(CncError::SafeBelowWork {
            z_safe: 10000,
            max_z: 30000,
            units: Units::Metric,
        })
    );
}

#[test]
fn merging_programs_of_different_units_fails() {
    let mut metric = Program::new(Units::Metric, 100000, 500000);
    let imperial = Program::new(Units::Imperial, 100000, 500000);
    assert_eq!(metric.merge(&imperial), Err(CncError::UnitsMismatch));
}

#[test]
fn duplicate_comment_lines_collapse() {
    let mut program = Program::new(Units::Metric, 100000, 500000);
    program.set_name("duplicates");
    let tool = test_tool();
    program.append(
        tool,
        cnccoder::program::Operation::Comment(cnccoder::instructions::Comment {
            text: "twice".to_string(),
        }),
    );
    program.append(
        tool,
        cnccoder::program::Operation::Comment(cnccoder::instructions::Comment {
            text: "twice".to_string(),
        }),
    );
    let gcode = program.to_gcode().unwrap();
    assert_eq!(gcode.matches(";(twice)").count(), 1);
}

#[test]
fn switching_planes_is_kept_and_reasserting_dropped() {
    let mut program = Program::new(Units::Metric, 100000, 500000);
    program.set_name("planes");
    let tool = test_tool();
    // An arc around the x axis selects the YZ plane and resets to XY after.
    program.append_cut(
        tool,
        Cut::arc(
            Vector3::new(100000, 0, 0),
            Vector3::new(0, 100000, 0),
            Vector3::new(0, 0, 0),
            Axis::X,
            Direction::Clockwise,
        ),
    );
    // A top-down arc re-asserts the XY plane, which is already active.
    program.append_cut(
        tool,
        Cut::arc(
            Vector3::new(100000, 0, 0),
            Vector3::new(0, 100000, 0),
            Vector3::new(0, 0, 0),
            Axis::Z,
            Direction::Clockwise,
        ),
    );
    let gcode = program.to_gcode().unwrap();
    let lines: Vec<&str> = gcode.lines().collect();
    // The plane switch to YZ and the switch back to XY are kept.
    assert_eq!(lines.iter().filter(|l| **l == "G19").count(), 1);
    // The XY plane is selected up front and re-selected after the first
    // arc; the second arc's re-assertions are dropped.
    assert_eq!(lines.iter().filter(|l| **l == "G17").count(), 2);
}

#[test]
fn planing_program_emits_byte_identical_gcode() {
    // One cylindrical tool, diameter four, feed four hundred, cutting one
    // line from the origin to (-28, -30) relative to a start of (0, 0, 3),
    // down to -0.1 with at most one unit per pass.
    let tool = Tool::cylindrical(
        Units::Metric,
        500000,
        40000,
        Direction::Clockwise,
        50_000_000,
        4_000_000,
    );
    let mut program = Program::new(Units::Metric, 100000, 500000);
    program.set_name("end to end");
    program.append_cut(
        tool,
        Cut::path(
            Vector3::new(0, 0, 30000),
            vec![Segment::line(
                Vector2::default(),
                Vector2::new(-280000, -300000),
            )],
            -1000,
            10000,
        ),
    );

    let first = program.to_gcode().unwrap();
    let second = program.to_gcode().unwrap();
    assert_eq!(first, second);

    let lines: Vec<&str> = first.lines().collect();
    assert!(lines.contains(&"T1 M6"));
    assert!(lines.contains(&";(Cut path at: x = 0, y = 0)"));
    assert_eq!(lines.last(), Some(&"M2"));

    // Three full descending passes plus the final pass pinned to the end
    // depth.
    let descents: Vec<&&str> = lines.iter().filter(|l| l.starts_with("G1 X-28 Y-30")).collect();
    assert_eq!(
        descents,
        vec![
            &"G1 X-28 Y-30 Z2",
            &"G1 X-28 Y-30 Z1",
            &"G1 X-28 Y-30 Z0",
            &"G1 X-28 Y-30 Z-0.1",
        ]
    );
}

#[test]
fn gcode_numbers_round_to_three_decimals() {
    let i = Instruction::G1(G1 { x: Some(29505), y: Some(-29504), z: Some(29500), f: None });
    assert_eq!(i.to_gcode(), "G1 X2.951 Y-2.95 Z2.95");
    let i = Instruction::G1(G1 { x: Some(5), y: Some(-5), z: Some(3), f: None });
    assert_eq!(i.to_gcode(), "G1 X0.001 Y-0.001 Z0");
}

#[test]
fn conical_length_follows_from_angle_and_diameter() {
    // A ninety-degree cone is as long as its radius.
    let tool = Tool::conical(
        Units::Metric,
        900000,
        160000,
        Direction::Clockwise,
        100_000_000,
        5_000_000,
    );
    match tool {
        Tool::Conical(c) => assert_eq!(c.length, 80000),
        _ => panic!("expected a conical tool"),
    }
    // A forty-five-degree cone of unit diameter: 0.5 / tan(22.5 degrees).
    let tool = Tool::conical(
        Units::Imperial,
        450000,
        10000,
        Direction::Clockwise,
        100_000_000,
        5_000_000,
    );
    match tool {
        Tool::Conical(c) => assert_eq!(c.length, 12071),
        _ => panic!("expected a conical tool"),
    }
}

#[test]
fn program_names_are_generated() {
    let program = Program::new(Units::Metric, 100000, 500000);
    assert!(!program.name().is_empty());
}
