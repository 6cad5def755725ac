//! Tests of program assembly and emission.  Coordinates are `i64` values in
//! ten-thousandths of a unit, so `100000` is ten units.

use cnccoder::cuts::{Cut, Segment};
use cnccoder::instructions::{
    Comment, Empty, Instruction, G0, G1, G17, G21, G4, M2, M3, M5, M6, S,
};
use cnccoder::program::Program;
use cnccoder::tools::Tool;
use cnccoder::types::{Bounds, Direction, Units, Vector2, Vector3};

fn mask_non_pure_comments(gcode: &str) -> String {
    let pattern = regex::Regex::new(r"(Created\s+on|Created\s+by|Generator):\s*[^\)]+").unwrap();
    let gcode = pattern.replace_all(gcode, "$1: MASKED");
    gcode.to_string()
}

fn mask_instructions(instructions: &mut Vec<Instruction>) {
    for i in instructions.iter_mut() {
        if let Instruction::Comment(comment) = i {
            comment.text = mask_non_pure_comments(&comment.text);
        }
    }
}

#[test]
fn test_program_new() {
    let program = Program::new(Units::Metric, 100000, 500000);
    assert_eq!(program.z_safe(), 100000);
    assert_eq!(program.z_tool_change(), 500000);
}

#[test]
fn test_program_empty() {
    let mut program = Program::new(Units::Metric, 100000, 500000);
    program.set_name("empty");

    let tool = Tool::cylindrical(
        Units::Metric,
        500000,
        40000,
        Direction::Clockwise,
        50_000_000,
        4_000_000,
    );

    program.context(tool);
    program.append_cut(tool, Cut::drill(Vector3::default(), -10000));

    assert_eq!(program.tools().len(), 1);

    let mut instructions = program.to_instructions().unwrap();
    mask_instructions(&mut instructions);

    assert_eq!(
        instructions,
        vec![
            Instruction::Comment(Comment { text: "Name: empty".into() }),
            Instruction::Comment(Comment { text: "Created on: MASKED".into() }),
            Instruction::Comment(Comment { text: "Created by: MASKED".into() }),
            Instruction::Comment(Comment { text: "Generator: MASKED".into() }),
            Instruction::Comment(Comment { text: "Workarea: size_x = 0 mm, size_y = 0 mm, size_z = 1 mm, min_x = 0 mm, min_y = 0 mm, max_z = 0 mm, z_safe = 10 mm, z_tool_change = 50 mm".into() }),
            Instruction::Empty(Empty {}),
            Instruction::G17(G17 {}),
            Instruction::Empty(Empty {}),
            Instruction::Comment(Comment { text: "Tool change: type = Cylindrical, diameter = 4 mm, length = 50 mm, direction = clockwise, spindle_speed = 5000 rpm, feed_rate = 400 mm/min".to_string() }),
            Instruction::G21(G21 {}),
            Instruction::G0(G0 { x: None, y: None, z: Some(500000) }),
            Instruction::M5(M5 {}),
            Instruction::M6(M6 { t: 1 }),
            Instruction::S(S { x: 50_000_000 }),
            Instruction::M3(M3 {}),
            Instruction::G4(G4 { p: 4 }),
            Instruction::Empty(Empty {}),
            Instruction::Comment(Comment { text: "Drill hole at: x = 0, y = 0".to_string() }),
            Instruction::G0(G0 { x: None, y: None, z: Some(100000) }),
            Instruction::G0(G0 { x: Some(0), y: Some(0), z: None }),
            Instruction::G1(G1 { x: None, y: None, z: Some(-10000), f: Some(4_000_000) }),
            Instruction::G0(G0 { x: None, y: None, z: Some(100000) }),
            Instruction::G0(G0 { x: None, y: None, z: Some(500000) }),
            Instruction::Empty(Empty {}),
            Instruction::M2(M2 {}),
        ]
    );

    let mut other_program = Program::new_empty_from(&program);
    other_program.set_name("empty2");

    assert_eq!(other_program.z_safe(), 100000);
    assert_eq!(other_program.z_tool_change(), 500000);
    assert_eq!(other_program.tools().len(), 0);

    let mut instructions = other_program.to_instructions().unwrap();
    mask_instructions(&mut instructions);

    assert_eq!(
        instructions,
        vec![
            Instruction::Comment(Comment { text: "Name: empty2".into() }),
            Instruction::Comment(Comment { text: "Created on: MASKED".into() }),
            Instruction::Comment(Comment { text: "Created by: MASKED".into() }),
            Instruction::Comment(Comment { text: "Generator: MASKED".into() }),
            Instruction::Comment(Comment { text: "Workarea: size_x = 0 mm, size_y = 0 mm, size_z = 0 mm, min_x = 0 mm, min_y = 0 mm, max_z = 0 mm, z_safe = 10 mm, z_tool_change = 50 mm".into() }),
            Instruction::Empty(Empty {}),
            Instruction::G17(G17 {}),
            Instruction::G0(G0 { x: None, y: None, z: Some(500000) }),
            Instruction::Empty(Empty {}),
            Instruction::M2(M2 {}),
        ]
    );
}

#[test]
fn test_program_extend() {
    let mut program = Program::new(Units::Metric, 100000, 500000);

    let tool1 = Tool::cylindrical(
        Units::Metric,
        500000,
        40000,
        Direction::Clockwise,
        50_000_000,
        4_000_000,
    );

    let tool2 = Tool::conical(
        Units::Metric,
        450000,
        150000,
        Direction::Clockwise,
        50_000_000,
        4_000_000,
    );

    program.append_cut(
        tool1,
        Cut::path(
            Vector3::new(0, 0, 30000),
            vec![Segment::line(Vector2::default(), Vector2::new(50000, 100000))],
            -1000,
            10000,
        ),
    );

    program.append_cut(
        tool2,
        Cut::path(
            Vector3::new(50000, 100000, 30000),
            vec![Segment::line(
                Vector2::new(50000, 100000),
                Vector2::new(150000, 100000),
            )],
            -1000,
            10000,
        ),
    );

    let tools = program.tools();
    assert_eq!(tools, vec![tool1, tool2]);

    program.set_tool_ordering(&tool2, 0);

    let tools = program.tools();
    assert_eq!(tools, vec![tool2, tool1]);
}

#[test]
fn test_program_tools() {
    let mut program = Program::new(Units::Metric, 100000, 500000);

    let tool1 = Tool::cylindrical(
        Units::Metric,
        500000,
        40000,
        Direction::Clockwise,
        50_000_000,
        4_000_000,
    );

    let tool2 = Tool::conical(
        Units::Metric,
        450000,
        150000,
        Direction::Clockwise,
        50_000_000,
        4_000_000,
    );

    program.context(tool1);
    program.append_cut(
        tool1,
        Cut::path(
            Vector3::new(0, 0, 30000),
            vec![Segment::line(Vector2::default(), Vector2::new(50000, 100000))],
            -1000,
            10000,
        ),
    );

    program.context(tool2);
    program.append_cut(
        tool2,
        Cut::path(
            Vector3::new(50000, 100000, 30000),
            vec![Segment::line(
                Vector2::new(50000, 100000),
                Vector2::new(150000, 100000),
            )],
            -1000,
            10000,
        ),
    );

    let tools = program.tools();
    assert_eq!(tools, vec![tool1, tool2]);

    program.set_tool_ordering(&tool2, 0);

    let tools = program.tools();
    assert_eq!(tools, vec![tool2, tool1]);
}

fn path_cut_instructions(
    comment_x: i64,
    comment_y: i64,
    entry_x: i64,
    entry_y: i64,
    to_x: i64,
    to_y: i64,
) -> Vec<Instruction> {
    vec![
        Instruction::Empty(Empty {}),
        Instruction::Comment(Comment {
            text: format!(
                "Cut path at: x = {}, y = {}",
                comment_x / 10000,
                comment_y / 10000
            ),
        }),
        Instruction::G0(G0 { x: None, y: None, z: Some(100000) }),
        Instruction::G0(G0 { x: Some(entry_x), y: Some(entry_y), z: None }),
        Instruction::G1(G1 { x: None, y: None, z: Some(30000), f: Some(4_000_000) }),
        Instruction::G1(G1 { x: Some(entry_x), y: Some(entry_y), z: Some(30000), f: None }),
        Instruction::G1(G1 { x: Some(to_x), y: Some(to_y), z: Some(20000), f: None }),
        Instruction::G1(G1 { x: Some(entry_x), y: Some(entry_y), z: Some(20000), f: None }),
        Instruction::G1(G1 { x: Some(to_x), y: Some(to_y), z: Some(10000), f: None }),
        Instruction::G1(G1 { x: Some(entry_x), y: Some(entry_y), z: Some(10000), f: None }),
        Instruction::G1(G1 { x: Some(to_x), y: Some(to_y), z: Some(0), f: None }),
        Instruction::G1(G1 { x: Some(entry_x), y: Some(entry_y), z: Some(-1000), f: None }),
        Instruction::G1(G1 { x: Some(to_x), y: Some(to_y), z: Some(-1000), f: None }),
        Instruction::G0(G0 { x: None, y: None, z: Some(100000) }),
    ]
}

fn tool_change_block(description: &str, tool_number: u8) -> Vec<Instruction> {
    vec![
        Instruction::Empty(Empty {}),
        Instruction::Comment(Comment { text: format!("Tool change: {}", description) }),
        Instruction::G21(G21 {}),
        Instruction::G0(G0 { x: None, y: None, z: Some(500000) }),
        Instruction::M5(M5 {}),
        Instruction::M6(M6 { t: tool_number }),
        Instruction::S(S { x: 50_000_000 }),
        Instruction::M3(M3 {}),
        Instruction::G4(G4 { p: 4 }),
    ]
}

const CYLINDRICAL_TEXT: &str = "type = Cylindrical, diameter = 4 mm, length = 50 mm, direction = clockwise, spindle_speed = 5000 rpm, feed_rate = 400 mm/min";
const CONICAL_TEXT: &str = "type = Conical, angle = 45\u{b0}, diameter = 1\", length = 1.207\", direction = clockwise, spindle_speed = 5000 rpm, feed_rate = 400\"/min";

#[test]
fn test_program_to_instructions() {
    let mut program = Program::new(Units::Metric, 100000, 500000);
    program.set_name("program to instructions");

    let tool1 = Tool::cylindrical(
        Units::Metric,
        500000,
        40000,
        Direction::Clockwise,
        50_000_000,
        4_000_000,
    );

    let tool2 = Tool::conical(
        Units::Imperial,
        450000,
        10000,
        Direction::Clockwise,
        50_000_000,
        4_000_000,
    );

    program.context(tool1);
    program.append_cut(
        tool1,
        Cut::path(
            Vector3::new(0, 0, 30000),
            vec![Segment::line(Vector2::default(), Vector2::new(50000, 100000))],
            -1000,
            10000,
        ),
    );

    program.context(tool2);
    program.append_cut(
        tool2,
        Cut::path(
            Vector3::new(50000, 100000, 30000),
            vec![Segment::line(
                Vector2::new(50000, 100000),
                Vector2::new(150000, 100000),
            )],
            -1000,
            10000,
        ),
    );

    let mut instructions = program.to_instructions().unwrap();
    mask_instructions(&mut instructions);

    let mut expected_output = vec![
        Instruction::Comment(Comment { text: "Name: program to instructions".into() }),
        Instruction::Comment(Comment { text: "Created on: MASKED".into() }),
        Instruction::Comment(Comment { text: "Created by: MASKED".into() }),
        Instruction::Comment(Comment { text: "Generator: MASKED".into() }),
        Instruction::Comment(Comment { text: "Workarea: size_x = 20 mm, size_y = 20 mm, size_z = 3.1 mm, min_x = 0 mm, min_y = 0 mm, max_z = 3 mm, z_safe = 10 mm, z_tool_change = 50 mm".into() }),
        Instruction::Empty(Empty {}),
        Instruction::G17(G17 {}),
    ];
    expected_output.extend(tool_change_block(CYLINDRICAL_TEXT, 1));
    expected_output.extend(path_cut_instructions(0, 0, 0, 0, 50000, 100000));
    expected_output.extend(tool_change_block(CONICAL_TEXT, 2));
    expected_output.extend(path_cut_instructions(50000, 100000, 100000, 200000, 200000, 200000));
    expected_output.push(Instruction::G0(G0 { x: None, y: None, z: Some(500000) }));
    expected_output.push(Instruction::Empty(Empty {}));
    expected_output.push(Instruction::M2(M2 {}));

    assert_eq!(instructions, expected_output);

    program.set_tool_ordering(&tool2, 1);

    let mut instructions = program.to_instructions().unwrap();
    mask_instructions(&mut instructions);

    let mut expected_output = vec![
        Instruction::Comment(Comment { text: "Name: program to instructions".into() }),
        Instruction::Comment(Comment { text: "Created on: MASKED".into() }),
        Instruction::Comment(Comment { text: "Created by: MASKED".into() }),
        Instruction::Comment(Comment { text: "Generator: MASKED".into() }),
        Instruction::Comment(Comment { text: "Workarea: size_x = 20 mm, size_y = 20 mm, size_z = 3.1 mm, min_x = 0 mm, min_y = 0 mm, max_z = 3 mm, z_safe = 10 mm, z_tool_change = 50 mm".into() }),
        Instruction::Empty(Empty {}),
        Instruction::G17(G17 {}),
    ];
    expected_output.extend(tool_change_block(CONICAL_TEXT, 1));
    expected_output.extend(path_cut_instructions(50000, 100000, 100000, 200000, 200000, 200000));
    expected_output.extend(tool_change_block(CYLINDRICAL_TEXT, 2));
    expected_output.extend(path_cut_instructions(0, 0, 0, 0, 50000, 100000));
    expected_output.push(Instruction::G0(G0 { x: None, y: None, z: Some(500000) }));
    expected_output.push(Instruction::Empty(Empty {}));
    expected_output.push(Instruction::M2(M2 {}));

    assert_eq!(instructions, expected_output);
}

#[test]
fn test_merge_programs() {
    let tool1 = Tool::cylindrical(
        Units::Metric,
        500000,
        40000,
        Direction::Clockwise,
        50_000_000,
        4_000_000,
    );

    let tool2 = Tool::conical(
        Units::Imperial,
        450000,
        10000,
        Direction::Clockwise,
        50_000_000,
        4_000_000,
    );

    let mut program1 = Program::new(Units::Metric, 100000, 400000);
    program1.set_name("program1");

    program1.append_cut(
        tool1,
        Cut::path(
            Vector3::new(0, 0, 30000),
            vec![Segment::line(Vector2::default(), Vector2::new(50000, 100000))],
            -1000,
            10000,
        ),
    );

    let mut program2 = Program::new(Units::Metric, 50000, 500000);

    program2.append_cut(
        tool1,
        Cut::path(
            Vector3::new(100000, 100000, 30000),
            vec![Segment::line(Vector2::default(), Vector2::new(50000, 100000))],
            -1000,
            10000,
        ),
    );

    program2.append_cut(
        tool2,
        Cut::path(
            Vector3::new(50000, 100000, 30000),
            vec![Segment::line(
                Vector2::new(50000, 100000),
                Vector2::new(150000, 100000),
            )],
            -1000,
            10000,
        ),
    );

    program1.merge(&program2).unwrap();

    let mut instructions = program1.to_instructions().unwrap();
    mask_instructions(&mut instructions);

    let low_retract = |v: &mut Vec<Instruction>| {
        for i in v.iter_mut() {
            if let Instruction::G0(g) = i {
                if g.z == Some(100000) {
                    g.z = Some(50000);
                }
            }
        }
    };

    let mut expected_output = vec![
        Instruction::Comment(Comment { text: "Name: program1".into() }),
        Instruction::Comment(Comment { text: "Created on: MASKED".into() }),
        Instruction::Comment(Comment { text: "Created by: MASKED".into() }),
        Instruction::Comment(Comment { text: "Generator: MASKED".into() }),
        Instruction::Comment(Comment { text: "Workarea: size_x = 20 mm, size_y = 20 mm, size_z = 3.1 mm, min_x = 0 mm, min_y = 0 mm, max_z = 3 mm, z_safe = 5 mm, z_tool_change = 40 mm".into() }),
        Instruction::Empty(Empty {}),
        Instruction::G17(G17 {}),
    ];
    expected_output.extend(tool_change_block(CYLINDRICAL_TEXT, 1));
    let mut part = path_cut_instructions(0, 0, 0, 0, 50000, 100000);
    low_retract(&mut part);
    expected_output.extend(part);
    let mut part = path_cut_instructions(100000, 100000, 100000, 100000, 150000, 200000);
    low_retract(&mut part);
    expected_output.extend(part);
    expected_output.extend(tool_change_block(CONICAL_TEXT, 2));
    let mut part = path_cut_instructions(50000, 100000, 100000, 200000, 200000, 200000);
    low_retract(&mut part);
    expected_output.extend(part);
    expected_output.push(Instruction::G0(G0 { x: None, y: None, z: Some(400000) }));
    expected_output.push(Instruction::Empty(Empty {}));
    expected_output.push(Instruction::M2(M2 {}));

    assert_eq!(instructions, expected_output);
}

#[test]
fn test_program_to_gcode() {
    let mut program = Program::new(Units::Imperial, 100000, 500000);
    program.set_name("a test program");

    let tool1 = Tool::cylindrical(
        Units::Metric,
        500000,
        40000,
        Direction::Clockwise,
        50_000_000,
        4_000_000,
    );

    let tool2 = Tool::conical(
        Units::Imperial,
        450000,
        10000,
        Direction::Clockwise,
        50_000_000,
        4_000_000,
    );

    program.append_cut(
        tool1,
        Cut::path(
            Vector3::new(0, 0, 30000),
            vec![Segment::line(Vector2::default(), Vector2::new(50000, 100000))],
            -1000,
            10000,
        ),
    );

    program.append_cut(
        tool2,
        Cut::path(
            Vector3::new(50000, 100000, 30000),
            vec![Segment::line(
                Vector2::new(50000, 100000),
                Vector2::new(150000, 100000),
            )],
            -1000,
            10000,
        ),
    );

    program.set_tool_ordering(&tool2, 0);

    let gcode = mask_non_pure_comments(&program.to_gcode().unwrap());

    let expected_output = vec![
        ";(Name: a test program)",
        ";(Created on: MASKED)",
        ";(Created by: MASKED)",
        ";(Generator: MASKED)",
        ";(Workarea: size_x = 20 \", size_y = 20 \", size_z = 3.1 \", min_x = 0 \", min_y = 0 \", max_z = 3 \", z_safe = 10 \", z_tool_change = 50 \")",
        "",
        "G17",
        "",
        ";(Tool change: type = Conical, angle = 45\u{b0}, diameter = 1\", length = 1.207\", direction = clockwise, spindle_speed = 5000 rpm, feed_rate = 400\"/min)",
        "G20",
        "G0 Z50",
        "M5",
        "T1 M6",
        "S5000",
        "M3",
        "G4 P4",
        "",
        ";(Cut path at: x = 5, y = 10)",
        "G0 Z10",
        "G0 X10 Y20",
        "G1 Z3 F400",
        "G1 X10 Y20 Z3",
        "G1 X20 Y20 Z2",
        "G1 X10 Y20 Z2",
        "G1 X20 Y20 Z1",
        "G1 X10 Y20 Z1",
        "G1 X20 Y20 Z0",
        "G1 X10 Y20 Z-0.1",
        "G1 X20 Y20 Z-0.1",
        "G0 Z10",
        "",
        ";(Tool change: type = Cylindrical, diameter = 4 mm, length = 50 mm, direction = clockwise, spindle_speed = 5000 rpm, feed_rate = 400 mm/min)",
        "G20",
        "G0 Z50",
        "M5",
        "T2 M6",
        "S5000",
        "M3",
        "G4 P4",
        "",
        ";(Cut path at: x = 0, y = 0)",
        "G0 Z10",
        "G0 X0 Y0",
        "G1 Z3 F400",
        "G1 X0 Y0 Z3",
        "G1 X5 Y10 Z2",
        "G1 X0 Y0 Z2",
        "G1 X5 Y10 Z1",
        "G1 X0 Y0 Z1",
        "G1 X5 Y10 Z0",
        "G1 X0 Y0 Z-0.1",
        "G1 X5 Y10 Z-0.1",
        "G0 Z10",
        "G0 Z50",
        "",
        "M2",
    ]
    .join("\n");

    assert_eq!(gcode, expected_output);
}

#[test]
fn test_program_bounds() {
    let mut program = Program::new(Units::Metric, 100000, 500000);
    program.set_name("program bounds");

    let tool = Tool::cylindrical(
        Units::Metric,
        500000,
        40000,
        Direction::Clockwise,
        50_000_000,
        4_000_000,
    );

    program.context(tool);

    program.append_cut(
        tool,
        Cut::path(
            Vector3::new(0, 0, 30000),
            vec![Segment::line(
                Vector2::default(),
                Vector2::new(-280000, -300000),
            )],
            -1000,
            10000,
        ),
    );

    program.append_cut(
        tool,
        Cut::path(
            Vector3::new(0, 0, 30000),
            vec![
                Segment::line(Vector2::new(230000, 120000), Vector2::new(50000, 100000)),
                Segment::line(Vector2::new(50000, 100000), Vector2::new(670000, 1020000)),
                Segment::line(Vector2::new(670000, 1020000), Vector2::new(230000, 120000)),
            ],
            -1000,
            10000,
        ),
    );

    let bounds = program.bounds();

    assert_eq!(
        bounds,
        Bounds {
            min: Vector3::new(-280000, -300000, -1000),
            max: Vector3::new(670000, 1020000, 30000),
        }
    );
}
