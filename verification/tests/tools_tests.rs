//! Tests of the tool-ordering table.

use cnccoder::tools::{Tool, ToolOrdering};
use cnccoder::types::{Direction, Units};

#[test]
fn test_auto_ordering() {
    let mut tool_ordering = ToolOrdering::default();

    let tool1 = Tool::conical(
        Units::Metric,
        300000,
        60000,
        Direction::Clockwise,
        100_000_000,
        5_000_000,
    );
    let tool2 = Tool::cylindrical(
        Units::Metric,
        300000,
        20000,
        Direction::Clockwise,
        100_000_000,
        5_000_000,
    );

    tool_ordering.auto_ordering(&tool1);
    tool_ordering.auto_ordering(&tool2);

    assert_eq!(tool_ordering.ordering(&tool1), Some(1));
    assert_eq!(tool_ordering.ordering(&tool2), Some(2));
    assert_ne!(tool_ordering.ordering(&tool1), tool_ordering.ordering(&tool2));
}

#[test]
fn test_set_ordering() {
    let mut tool_ordering = ToolOrdering::default();

    let tool1 = Tool::conical(
        Units::Metric,
        450000,
        60000,
        Direction::Clockwise,
        100_000_000,
        5_000_000,
    );
    let tool2 = Tool::cylindrical(
        Units::Metric,
        200000,
        40000,
        Direction::Clockwise,
        100_000_000,
        5_000_000,
    );

    tool_ordering.set_ordering(&tool1, 1);
    tool_ordering.set_ordering(&tool2, 2);

    assert_eq!(tool_ordering.ordering(&tool1), Some(1));
    assert_eq!(tool_ordering.ordering(&tool2), Some(2));

    tool_ordering.set_ordering(&tool1, 3);

    assert_eq!(tool_ordering.ordering(&tool1), Some(3));
    assert_eq!(tool_ordering.ordering(&tool2), Some(2));
}

#[test]
fn test_mix_set_and_auto_ordering() {
    let mut tool_ordering = ToolOrdering::default();

    let tool1 = Tool::conical(
        Units::Metric,
        300000,
        40000,
        Direction::Clockwise,
        100_000_000,
        5_000_000,
    );
    let tool2 = Tool::ballnose(
        Units::Metric,
        200000,
        10000,
        Direction::Clockwise,
        100_000_000,
        5_000_000,
    );
    let tool3 = Tool::cylindrical(
        Units::Metric,
        320000,
        20000,
        Direction::Clockwise,
        100_000_000,
        5_000_000,
    );

    tool_ordering.auto_ordering(&tool1);
    tool_ordering.set_ordering(&tool2, 1);
    tool_ordering.auto_ordering(&tool3);

    assert_eq!(tool_ordering.ordering(&tool1), Some(2));
    assert_eq!(tool_ordering.ordering(&tool2), Some(1));
    assert_eq!(tool_ordering.ordering(&tool3), Some(3));

    assert_ne!(tool_ordering.ordering(&tool1), tool_ordering.ordering(&tool2));
    assert_ne!(tool_ordering.ordering(&tool1), tool_ordering.ordering(&tool3));
    assert_ne!(tool_ordering.ordering(&tool2), tool_ordering.ordering(&tool3));
}

#[test]
fn set_ordering_clamps_to_one() {
    let mut tool_ordering = ToolOrdering::default();
    let tool = Tool::default();
    tool_ordering.set_ordering(&tool, 0);
    assert_eq!(tool_ordering.ordering(&tool), Some(1));
}

#[test]
fn set_ordering_collision_shifts_prior_occupant() {
    let mut tool_ordering = ToolOrdering::default();

    let tool1 = Tool::cylindrical(
        Units::Metric,
        300000,
        60000,
        Direction::Clockwise,
        100_000_000,
        5_000_000,
    );
    let tool2 = Tool::cylindrical(
        Units::Metric,
        300000,
        20000,
        Direction::Clockwise,
        100_000_000,
        5_000_000,
    );

    tool_ordering.set_ordering(&tool1, 1);
    tool_ordering.set_ordering(&tool2, 1);

    // The prior occupant moves to the next free position; the set stays
    // dense from one.
    assert_eq!(tool_ordering.ordering(&tool2), Some(1));
    assert_eq!(tool_ordering.ordering(&tool1), Some(2));
    let ordered = tool_ordering.tools_ordered();
    assert_eq!(ordered, vec![tool2, tool1]);
}
