//! Tests of the simulation-project export.

use cnccoder::camotics::{Camotics, CamoticsTool, ResolutionMode, Workpiece};
use cnccoder::cuts::{Cut, Segment};
use cnccoder::program::Program;
use cnccoder::tools::Tool;
use cnccoder::types::{Direction, Units, Vector2, Vector3};

#[test]
fn camotics_test_camotics_from_program() {
    let mut program = Program::new(Units::Metric, 100000, 500000);

    let tool = Tool::cylindrical(
        Units::Metric,
        500000,
        40000,
        Direction::Clockwise,
        50_000_000,
        4_000_000,
    );

    program.append_cut(
        tool,
        Cut::path(
            Vector3::new(0, 0, 30000),
            vec![Segment::line(
                Vector2::default(),
                Vector2::new(-280000, -300000),
            )],
            -1000,
            10000,
        ),
    );

    program.append_cut(
        tool,
        Cut::path(
            Vector3::new(0, 0, 30000),
            vec![
                Segment::line(Vector2::new(230000, 120000), Vector2::new(50000, 100000)),
                Segment::line(Vector2::new(50000, 100000), Vector2::new(670000, 1020000)),
                Segment::line(Vector2::new(670000, 1020000), Vector2::new(230000, 120000)),
            ],
            -1000,
            10000,
        ),
    );

    let camotics = Camotics::from_program("test-project", &program, 10000);

    let tools = vec![CamoticsTool::from_tool(tool, 1)];

    assert_eq!(
        camotics,
        Camotics {
            name: "test-project".to_string(),
            units: Units::Metric,
            resolution_mode: ResolutionMode::Manual,
            resolution: 10000,
            tools,
            workpiece: Workpiece {
                automatic: false,
                margin: 0,
                bounds: program.bounds()
            },
            files: vec!["test-project.gcode".to_string()]
        }
    );
}
