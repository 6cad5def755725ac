//! Cutting-tool configurations (ballnose, conical, cylindrical) and the
//! tool-ordering table.
//!
//! A tool is an immutable record; equality is exact over all fields, so two
//! tools differing in any field are distinct keys.  A conical tool's cutter
//! length is derived from its cutting angle and diameter at construction.
//!
//! [`ToolOrdering`] maps each tool to a 1-based position: explicit positions
//! are user-assigned, automatic ones fill the lowest unused position in
//! first-use order.  Positions are capped at 255.

use vstd::prelude::*;

use crate::text::{format_num, num_str};
use crate::trig::{conical_length, conical_length_spec};
use crate::types::{direction_label, Direction, Units, MAX_COORD};

verus! {

/// Whether a tool measurement is inside the working range.
pub open spec fn tool_field_ok(v: int) -> bool {
    0 <= v <= MAX_COORD
}

/// A ballnose tool.
#[derive(Debug, PartialEq, Eq, Structural, Clone, Copy, Hash)]
pub struct Ballnose {
    /// The units of the tool measurements.
    pub units: Units,
    /// The length of the cutter.
    pub length: i64,
    /// The diameter of the cutter.
    pub diameter: i64,
    /// The spin direction.
    pub direction: Direction,
    /// The spindle speed, revolutions per minute.
    pub spindle_speed: i64,
    /// The feed rate, units per minute.
    pub feed_rate: i64,
}

/// A conical tool.
#[derive(Debug, PartialEq, Eq, Structural, Clone, Copy, Hash)]
pub struct Conical {
    /// The units of the tool measurements.
    pub units: Units,
    /// The length of the cutter, derived from angle and diameter.
    pub length: i64,
    /// The cutting angle, degrees in ten-thousandths.
    pub angle: i64,
    /// The diameter of the cutter.
    pub diameter: i64,
    /// The spin direction.
    pub direction: Direction,
    /// The spindle speed, revolutions per minute.
    pub spindle_speed: i64,
    /// The feed rate, units per minute.
    pub feed_rate: i64,
}

/// A cylindrical tool.
#[derive(Debug, PartialEq, Eq, Structural, Clone, Copy, Hash)]
pub struct Cylindrical {
    /// The units of the tool measurements.
    pub units: Units,
    /// The length of the cutter.
    pub length: i64,
    /// The diameter of the cutter.
    pub diameter: i64,
    /// The spin direction.
    pub direction: Direction,
    /// The spindle speed, revolutions per minute.
    pub spindle_speed: i64,
    /// The feed rate, units per minute.
    pub feed_rate: i64,
}

impl Ballnose {
    /// A new ballnose tool.
    pub fn new(
        units: Units,
        length: i64,
        diameter: i64,
        direction: Direction,
        spindle_speed: i64,
        feed_rate: i64,
    ) -> (t: Ballnose)
        requires
            tool_field_ok(length as int),
            tool_field_ok(diameter as int),
            tool_field_ok(spindle_speed as int),
            tool_field_ok(feed_rate as int),
        ensures
            t == (Ballnose { units, length, diameter, direction, spindle_speed, feed_rate }),
    {
        Ballnose { units, length, diameter, direction, spindle_speed, feed_rate }
    }

    /// The radius of the cutter.
    pub fn radius(&self) -> (r: i64)
        requires
            self.diameter >= 0,
        ensures
            r == self.diameter as int / 2,
    {
        self.diameter / 2
    }
}

impl Default for Ballnose {
    fn default() -> (t: Self)
        ensures
            t == (Ballnose {
                units: Units::Metric,
                length: 50000,
                diameter: 20000,
                direction: Direction::Clockwise,
                spindle_speed: 100_000_000,
                feed_rate: 5_000_000,
            }),
    {
        Ballnose {
            units: Units::Metric,
            length: 50000,
            diameter: 20000,
            direction: Direction::Clockwise,
            spindle_speed: 100_000_000,
            feed_rate: 5_000_000,
        }
    }
}

impl Conical {
    /// A new conical tool; the cutter length is derived from the cutting
    /// angle and the diameter.
    pub fn new(
        units: Units,
        angle: i64,
        diameter: i64,
        direction: Direction,
        spindle_speed: i64,
        feed_rate: i64,
    ) -> (t: Conical)
        requires
            0 < angle < 1_800_000,
            tool_field_ok(diameter as int),
            tool_field_ok(spindle_speed as int),
            tool_field_ok(feed_rate as int),
        ensures
            t == (Conical {
                units,
                length: conical_length_spec(angle as int, diameter as int) as i64,
                angle,
                diameter,
                direction,
                spindle_speed,
                feed_rate,
            }),
    {
        Conical {
            units,
            length: conical_length(angle, diameter),
            angle,
            diameter,
            direction,
            spindle_speed,
            feed_rate,
        }
    }

    /// The radius of the cutter.
    pub fn radius(&self) -> (r: i64)
        requires
            self.diameter >= 0,
        ensures
            r == self.diameter as int / 2,
    {
        self.diameter / 2
    }
}

impl Default for Conical {
    fn default() -> (t: Self)
        ensures
            t == (Conical {
                units: Units::Metric,
                length: 80000,
                angle: 900000,
                diameter: 160000,
                direction: Direction::Clockwise,
                spindle_speed: 100_000_000,
                feed_rate: 5_000_000,
            }),
    {
        Conical {
            units: Units::Metric,
            length: 80000,
            angle: 900000,
            diameter: 160000,
            direction: Direction::Clockwise,
            spindle_speed: 100_000_000,
            feed_rate: 5_000_000,
        }
    }
}

impl Cylindrical {
    /// A new cylindrical tool.
    pub fn new(
        units: Units,
        length: i64,
        diameter: i64,
        direction: Direction,
        spindle_speed: i64,
        feed_rate: i64,
    ) -> (t: Cylindrical)
        requires
            tool_field_ok(length as int),
            tool_field_ok(diameter as int),
            tool_field_ok(spindle_speed as int),
            tool_field_ok(feed_rate as int),
        ensures
            t == (Cylindrical { units, length, diameter, direction, spindle_speed, feed_rate }),
    {
        Cylindrical { units, length, diameter, direction, spindle_speed, feed_rate }
    }

    /// The radius of the cutter.
    pub fn radius(&self) -> (r: i64)
        requires
            self.diameter >= 0,
        ensures
            r == self.diameter as int / 2,
    {
        self.diameter / 2
    }
}

impl Default for Cylindrical {
    fn default() -> (t: Self)
        ensures
            t == (Cylindrical {
                units: Units::Metric,
                length: 300000,
                diameter: 60000,
                direction: Direction::Clockwise,
                spindle_speed: 100_000_000,
                feed_rate: 5_000_000,
            }),
    {
        Cylindrical {
            units: Units::Metric,
            length: 300000,
            diameter: 60000,
            direction: Direction::Clockwise,
            spindle_speed: 100_000_000,
            feed_rate: 5_000_000,
        }
    }
}

/// A tool configuration; the shape class discriminates the variants.
#[derive(Debug, PartialEq, Eq, Structural, Clone, Copy, Hash)]
pub enum Tool {
    /// A ballnose tool.
    Ballnose(Ballnose),
    /// A conical tool.
    Conical(Conical),
    /// A cylindrical tool.
    Cylindrical(Cylindrical),
}

impl Tool {
    /// The units of the tool measurements.
    pub open spec fn spec_units(self) -> Units {
        match self {
            Tool::Ballnose(t) => t.units,
            Tool::Conical(t) => t.units,
            Tool::Cylindrical(t) => t.units,
        }
    }

    /// The cutter diameter.
    pub open spec fn spec_diameter(self) -> int {
        match self {
            Tool::Ballnose(t) => t.diameter as int,
            Tool::Conical(t) => t.diameter as int,
            Tool::Cylindrical(t) => t.diameter as int,
        }
    }

    /// The cutter length.
    pub open spec fn spec_length(self) -> int {
        match self {
            Tool::Ballnose(t) => t.length as int,
            Tool::Conical(t) => t.length as int,
            Tool::Cylindrical(t) => t.length as int,
        }
    }

    /// The cutter radius: half the diameter, rounded down.
    pub open spec fn spec_radius(self) -> int {
        self.spec_diameter() / 2
    }

    /// The spin direction.
    pub open spec fn spec_direction(self) -> Direction {
        match self {
            Tool::Ballnose(t) => t.direction,
            Tool::Conical(t) => t.direction,
            Tool::Cylindrical(t) => t.direction,
        }
    }

    /// The spindle speed.
    pub open spec fn spec_spindle_speed(self) -> int {
        match self {
            Tool::Ballnose(t) => t.spindle_speed as int,
            Tool::Conical(t) => t.spindle_speed as int,
            Tool::Cylindrical(t) => t.spindle_speed as int,
        }
    }

    /// The feed rate.
    pub open spec fn spec_feed_rate(self) -> int {
        match self {
            Tool::Ballnose(t) => t.feed_rate as int,
            Tool::Conical(t) => t.feed_rate as int,
            Tool::Cylindrical(t) => t.feed_rate as int,
        }
    }

    /// Whether every measurement of the tool is inside the working range.
    pub open spec fn wf(self) -> bool {
        &&& tool_field_ok(self.spec_diameter())
        &&& tool_field_ok(self.spec_length())
        &&& tool_field_ok(self.spec_spindle_speed())
        &&& tool_field_ok(self.spec_feed_rate())
        &&& match self {
            Tool::Conical(t) => 0 < t.angle < 1_800_000,
            _ => true,
        }
    }

    /// A new ballnose tool.
    pub fn ballnose(
        units: Units,
        length: i64,
        diameter: i64,
        direction: Direction,
        spindle_speed: i64,
        feed_rate: i64,
    ) -> (t: Tool)
        requires
            tool_field_ok(length as int),
            tool_field_ok(diameter as int),
            tool_field_ok(spindle_speed as int),
            tool_field_ok(feed_rate as int),
        ensures
            t == Tool::Ballnose(
                Ballnose { units, length, diameter, direction, spindle_speed, feed_rate },
            ),
            t.wf(),
    {
        Tool::Ballnose(Ballnose::new(units, length, diameter, direction, spindle_speed, feed_rate))
    }

    /// A new conical tool; the length is derived from angle and diameter.
    pub fn conical(
        units: Units,
        angle: i64,
        diameter: i64,
        direction: Direction,
        spindle_speed: i64,
        feed_rate: i64,
    ) -> (t: Tool)
        requires
            0 < angle < 1_800_000,
            tool_field_ok(diameter as int),
            tool_field_ok(spindle_speed as int),
            tool_field_ok(feed_rate as int),
        ensures
            t == Tool::Conical(
                Conical {
                    units,
                    length: conical_length_spec(angle as int, diameter as int) as i64,
                    angle,
                    diameter,
                    direction,
                    spindle_speed,
                    feed_rate,
                },
            ),
            t.wf(),
    {
        Tool::Conical(Conical::new(units, angle, diameter, direction, spindle_speed, feed_rate))
    }

    /// A new cylindrical tool.
    pub fn cylindrical(
        units: Units,
        length: i64,
        diameter: i64,
        direction: Direction,
        spindle_speed: i64,
        feed_rate: i64,
    ) -> (t: Tool)
        requires
            tool_field_ok(length as int),
            tool_field_ok(diameter as int),
            tool_field_ok(spindle_speed as int),
            tool_field_ok(feed_rate as int),
        ensures
            t == Tool::Cylindrical(
                Cylindrical { units, length, diameter, direction, spindle_speed, feed_rate },
            ),
            t.wf(),
    {
        Tool::Cylindrical(
            Cylindrical::new(units, length, diameter, direction, spindle_speed, feed_rate),
        )
    }

    /// The units of the tool measurements.
    pub fn units(&self) -> (u: Units)
        ensures
            u == self.spec_units(),
    {
        match self {
            Tool::Cylindrical(t) => t.units,
            Tool::Ballnose(t) => t.units,
            Tool::Conical(t) => t.units,
        }
    }

    /// The cutter diameter.
    pub fn diameter(&self) -> (d: i64)
        ensures
            d == self.spec_diameter(),
    {
        match self {
            Tool::Cylindrical(t) => t.diameter,
            Tool::Ballnose(t) => t.diameter,
            Tool::Conical(t) => t.diameter,
        }
    }

    /// The cutter radius.
    pub fn radius(&self) -> (r: i64)
        requires
            self.spec_diameter() >= 0,
        ensures
            r == self.spec_radius(),
    {
        match self {
            Tool::Cylindrical(t) => t.radius(),
            Tool::Ballnose(t) => t.radius(),
            Tool::Conical(t) => t.radius(),
        }
    }

    /// The spin direction.
    pub fn direction(&self) -> (d: Direction)
        ensures
            d == self.spec_direction(),
    {
        match self {
            Tool::Cylindrical(t) => t.direction,
            Tool::Ballnose(t) => t.direction,
            Tool::Conical(t) => t.direction,
        }
    }

    /// The spindle speed.
    pub fn spindle_speed(&self) -> (s: i64)
        ensures
            s == self.spec_spindle_speed(),
    {
        match self {
            Tool::Cylindrical(t) => t.spindle_speed,
            Tool::Ballnose(t) => t.spindle_speed,
            Tool::Conical(t) => t.spindle_speed,
        }
    }

    /// The feed rate.
    pub fn feed_rate(&self) -> (f: i64)
        ensures
            f == self.spec_feed_rate(),
    {
        match self {
            Tool::Cylindrical(t) => t.feed_rate,
            Tool::Ballnose(t) => t.feed_rate,
            Tool::Conical(t) => t.feed_rate,
        }
    }

    /// The tool description used in tool-change comments, per
    /// [`tool_description`].
    pub fn description(&self) -> (s: String)
        requires
            self.wf(),
        ensures
            s@ == tool_description(*self),
    {
        match self {
            Tool::Cylindrical(t) => {
                let mut s = String::from_str("type = Cylindrical, diameter = ");
                s.append(format_num(t.diameter).as_str());
                s.append(unit_suffix_text(t.units));
                s.append(", length = ");
                s.append(format_num(t.length).as_str());
                s.append(unit_suffix_text(t.units));
                s.append(", direction = ");
                s.append(t.direction.label());
                s.append(", spindle_speed = ");
                s.append(format_num(t.spindle_speed).as_str());
                s.append(" rpm, feed_rate = ");
                s.append(format_num(t.feed_rate).as_str());
                s.append(unit_suffix_text(t.units));
                s.append("/min");
                s
            },
            Tool::Ballnose(t) => {
                let mut s = String::from_str("type = Ballnose, diameter = ");
                s.append(format_num(t.diameter).as_str());
                s.append(unit_suffix_text(t.units));
                s.append(", length = ");
                s.append(format_num(t.length).as_str());
                s.append(unit_suffix_text(t.units));
                s.append(", direction = ");
                s.append(t.direction.label());
                s.append(", spindle_speed = ");
                s.append(format_num(t.spindle_speed).as_str());
                s.append(" rpm, feed_rate = ");
                s.append(format_num(t.feed_rate).as_str());
                s.append(unit_suffix_text(t.units));
                s.append("/min");
                s
            },
            Tool::Conical(t) => {
                let mut s = String::from_str("type = Conical, angle = ");
                s.append(format_num(t.angle).as_str());
                s.append("°, diameter = ");
                s.append(format_num(t.diameter).as_str());
                s.append(unit_suffix_text(t.units));
                s.append(", length = ");
                s.append(format_num(t.length).as_str());
                s.append(unit_suffix_text(t.units));
                s.append(", direction = ");
                s.append(t.direction.label());
                s.append(", spindle_speed = ");
                s.append(format_num(t.spindle_speed).as_str());
                s.append(" rpm, feed_rate = ");
                s.append(format_num(t.feed_rate).as_str());
                s.append(unit_suffix_text(t.units));
                s.append("/min");
                s
            },
        }
    }
}

impl Default for Tool {
    fn default() -> (t: Self)
        ensures
            t == Tool::Cylindrical(
                Cylindrical {
                    units: Units::Metric,
                    length: 300000,
                    diameter: 60000,
                    direction: Direction::Clockwise,
                    spindle_speed: 100_000_000,
                    feed_rate: 5_000_000,
                },
            ),
    {
        Tool::Cylindrical(Cylindrical::default())
    }
}

/// The unit text inside tool descriptions: metric units print with a leading
/// space, imperial ones as a bare double quote.
pub open spec fn unit_suffix(u: Units) -> Seq<char> {
    match u {
        Units::Metric => " mm"@,
        Units::Imperial => "\""@,
    }
}

/// The unit text inside tool descriptions.
fn unit_suffix_text(u: Units) -> (s: &'static str)
    ensures
        s@ == unit_suffix(u),
{
    match u {
        Units::Metric => " mm",
        Units::Imperial => "\"",
    }
}

/// The description a tool prints as in tool-change comments.
pub open spec fn tool_description(t: Tool) -> Seq<char> {
    match t {
        Tool::Cylindrical(c) => "type = Cylindrical, diameter = "@ + num_str(c.diameter as int)
            + unit_suffix(c.units) + ", length = "@ + num_str(c.length as int) + unit_suffix(
            c.units,
        ) + ", direction = "@ + direction_label(c.direction) + ", spindle_speed = "@ + num_str(
            c.spindle_speed as int,
        ) + " rpm, feed_rate = "@ + num_str(c.feed_rate as int) + unit_suffix(c.units) + "/min"@,
        Tool::Ballnose(c) => "type = Ballnose, diameter = "@ + num_str(c.diameter as int)
            + unit_suffix(c.units) + ", length = "@ + num_str(c.length as int) + unit_suffix(
            c.units,
        ) + ", direction = "@ + direction_label(c.direction) + ", spindle_speed = "@ + num_str(
            c.spindle_speed as int,
        ) + " rpm, feed_rate = "@ + num_str(c.feed_rate as int) + unit_suffix(c.units) + "/min"@,
        Tool::Conical(c) => "type = Conical, angle = "@ + num_str(c.angle as int)
            + "°, diameter = "@ + num_str(c.diameter as int) + unit_suffix(c.units) + ", length = "@
            + num_str(c.length as int) + unit_suffix(c.units) + ", direction = "@ + direction_label(
            c.direction,
        ) + ", spindle_speed = "@ + num_str(c.spindle_speed as int) + " rpm, feed_rate = "@
            + num_str(c.feed_rate as int) + unit_suffix(c.units) + "/min"@,
    }
}

/// The first position a tool is mapped to in an association list, if any.
pub open spec fn lookup(s: Seq<(Tool, u8)>, t: Tool) -> Option<u8>
    decreases s.len(),
{
    if s.len() == 0 {
        None
    } else if s[0].0 == t {
        Some(s[0].1)
    } else {
        lookup(s.skip(1), t)
    }
}

/// Whether some entry holds the given position.
pub open spec fn uses_order(s: Seq<(Tool, u8)>, o: int) -> bool {
    exists|i: int| 0 <= i < s.len() && s[i].1 == o
}

/// The lowest position from `o` upward that neither list uses, capped at
/// 255.
pub open spec fn next_free_from(a: Seq<(Tool, u8)>, b: Seq<(Tool, u8)>, o: int) -> int
    decreases 255 - o,
    when o <= 255
{
    if o >= 255 {
        255
    } else if !uses_order(a, o) && !uses_order(b, o) {
        o
    } else {
        next_free_from(a, b, o + 1)
    }
}

/// The lowest unused position, counting from one.
pub open spec fn next_auto(a: Seq<(Tool, u8)>, b: Seq<(Tool, u8)>) -> int {
    next_free_from(a, b, 1)
}

/// The explicit table after an assignment: other tools colliding on the
/// position leave, any earlier entry of the tool leaves, the new pair joins.
pub open spec fn keep_explicit(s: Seq<(Tool, u8)>, i: int, t: Tool, o: u8) -> Seq<(Tool, u8)>
    decreases i,
    when 0 <= i <= s.len()
{
    if i <= 0 {
        Seq::<(Tool, u8)>::empty()
    } else {
        let rest = keep_explicit(s, i - 1, t, o);
        if s[i - 1].0 != t && s[i - 1].1 != o {
            rest.push(s[i - 1])
        } else {
            rest
        }
    }
}

/// The merged ordering rebuilt from position `i` of the tool list onward:
/// tools already placed stay, the rest take the lowest free position in
/// order.
pub open spec fn rebuild_from(
    tools: Seq<Tool>,
    expl: Seq<(Tool, u8)>,
    i: int,
    acc: Seq<(Tool, u8)>,
) -> Seq<(Tool, u8)>
    decreases tools.len() - i,
    when 0 <= i <= tools.len()
{
    if i >= tools.len() {
        acc
    } else {
        let acc2 = if lookup(acc, tools[i]) is Some {
            acc
        } else {
            acc.push((tools[i], next_free_from(acc, expl, 1) as u8))
        };
        rebuild_from(tools, expl, i + 1, acc2)
    }
}

/// The merged ordering rebuilt in full: the explicit entries first, then
/// every remaining tool on the lowest free position.
pub open spec fn rebuilt(tools: Seq<Tool>, expl: Seq<(Tool, u8)>) -> Seq<(Tool, u8)> {
    rebuild_from(tools, expl, 0, expl)
}

/// The first tool mapped to a position, if any.
pub open spec fn tool_at_order(s: Seq<(Tool, u8)>, o: int) -> Option<Tool>
    decreases s.len(),
{
    if s.len() == 0 {
        None
    } else if s[0].1 == o {
        Some(s[0].0)
    } else {
        tool_at_order(s.skip(1), o)
    }
}

/// The tools on positions one through `o`, in position order.
pub open spec fn tools_through_order(s: Seq<(Tool, u8)>, o: int) -> Seq<Tool>
    decreases o,
    when o >= 0
{
    if o <= 0 {
        Seq::<Tool>::empty()
    } else {
        tools_through_order(s, o - 1) + match tool_at_order(s, o) {
            Some(t) => seq![t],
            None => Seq::<Tool>::empty(),
        }
    }
}

/// The tools of an ordering, sorted by position.
pub open spec fn tools_ordered_spec(s: Seq<(Tool, u8)>) -> Seq<Tool> {
    tools_through_order(s, 255)
}

/// An association list step: skipping a mismatching head leaves the lookup
/// unchanged.
proof fn lemma_lookup_skip(s: Seq<(Tool, u8)>, t: Tool, i: int)
    requires
        0 <= i < s.len(),
        s[i].0 != t,
    ensures
        lookup(s.skip(i), t) == lookup(s.skip(i + 1), t),
{
    assert(s.skip(i).len() > 0);
    assert(s.skip(i)[0] == s[i]);
    assert(s.skip(i).skip(1) =~= s.skip(i + 1));
}

/// Keeps the positions of every tool used in a program.
///
/// The `tools` list records first-use order (with repeats); `ordering` is
/// the merged table the program reads; `explicit_ordering` holds only the
/// user-assigned positions.
#[derive(Debug, Clone)]
pub struct ToolOrdering {
    tools: Vec<Tool>,
    ordering: Vec<(Tool, u8)>,
    explicit_ordering: Vec<(Tool, u8)>,
}

impl ToolOrdering {
    /// The tool list, for contracts.
    pub closed spec fn spec_tools(self) -> Seq<Tool> {
        self.tools@
    }

    /// The merged ordering, for contracts.
    pub closed spec fn spec_ordering(self) -> Seq<(Tool, u8)> {
        self.ordering@
    }

    /// The explicit ordering, for contracts.
    pub closed spec fn spec_explicit(self) -> Seq<(Tool, u8)> {
        self.explicit_ordering@
    }

    /// An empty ordering.
    pub fn new() -> (r: Self)
        ensures
            r.spec_tools() == Seq::<Tool>::empty(),
            r.spec_ordering() == Seq::<(Tool, u8)>::empty(),
            r.spec_explicit() == Seq::<(Tool, u8)>::empty(),
    {
        ToolOrdering { tools: Vec::new(), ordering: Vec::new(), explicit_ordering: Vec::new() }
    }

    /// The first position a tool holds in a table, if any.
    fn find(v: &Vec<(Tool, u8)>, tool: &Tool) -> (r: Option<u8>)
        ensures
            r == lookup(v@, *tool),
    {
        let n = v.len();
        let mut i: usize = 0;
        proof {
            assert(v@.skip(0) =~= v@);
        }
        while i < n
            invariant
                0 <= i <= n,
                n == v@.len(),
                lookup(v@, *tool) == lookup(v@.skip(i as int), *tool),
            decreases n - i,
        {
            let (t, o) = v[i];
            if t == *tool {
                proof {
                    assert(v@.skip(i as int)[0] == v@[i as int]);
                }
                return Some(o);
            }
            proof {
                lemma_lookup_skip(v@, *tool, i as int);
            }
            i += 1;
        }
        proof {
            assert(v@.skip(n as int) =~= Seq::<(Tool, u8)>::empty());
        }
        None
    }

    /// Whether any entry of a table holds the position.
    fn uses(v: &Vec<(Tool, u8)>, o: u8) -> (r: bool)
        ensures
            r == uses_order(v@, o as int),
    {
        let n = v.len();
        let mut i: usize = 0;
        while i < n
            invariant
                0 <= i <= n,
                n == v@.len(),
                forall|j: int| 0 <= j < i ==> v@[j].1 != o,
            decreases n - i,
        {
            if v[i].1 == o {
                return true;
            }
            i += 1;
        }
        false
    }

    /// The lowest position not yet used by either table, capped at 255.
    fn next_auto_order(&self) -> (r: u8)
        ensures
            r as int == next_auto(self.ordering@, self.explicit_ordering@),
            1 <= r <= 255,
    {
        let mut next: u8 = 1;
        while next < 255 && (Self::uses(&self.ordering, next) || Self::uses(
            &self.explicit_ordering,
            next,
        ))
            invariant
                1 <= next <= 255,
                next_free_from(self.ordering@, self.explicit_ordering@, 1) == next_free_from(
                    self.ordering@,
                    self.explicit_ordering@,
                    next as int,
                ),
            decreases 255 - next,
        {
            next += 1;
        }
        next
    }

    /// Adds a tool on the lowest free position, if it is not placed yet.
    pub fn auto_ordering(&mut self, tool: &Tool)
        ensures
            lookup(old(self).spec_ordering(), *tool) is Some ==> *final(self) == *old(self),
            lookup(old(self).spec_ordering(), *tool) is None ==> {
                &&& final(self).spec_tools() == old(self).spec_tools().push(*tool)
                &&& final(self).spec_ordering() == old(self).spec_ordering().push(
                    (
                        *tool,
                        next_auto(old(self).spec_ordering(), old(self).spec_explicit()) as u8,
                    ),
                )
                &&& final(self).spec_explicit() == old(self).spec_explicit()
            },
    {
        if Self::find(&self.ordering, tool).is_some() {
            return ;
        }
        let order = self.next_auto_order();
        self.tools.push(*tool);
        self.ordering.push((*tool, order));
    }

    /// Assigns a position to a tool (the minimum position is one), evicting
    /// any other tool that held it explicitly, then rebuilds the merged
    /// ordering in full: explicit entries first, every other known tool on
    /// its lowest free position.
    pub fn set_ordering(&mut self, tool: &Tool, order: u8)
        ensures
            ({
                let o = if order == 0 {
                    1 as u8
                } else {
                    order
                };
                let tools2 = old(self).spec_tools().push(*tool);
                let expl2 = keep_explicit(
                    old(self).spec_explicit(),
                    old(self).spec_explicit().len() as int,
                    *tool,
                    o,
                ).push((*tool, o));
                &&& final(self).spec_tools() == tools2
                &&& final(self).spec_explicit() == expl2
                &&& final(self).spec_ordering() == rebuilt(tools2, expl2)
            }),
    {
        let order: u8 = if order == 0 {
            1
        } else {
            order
        };
        self.tools.push(*tool);

        let ghost old_expl = self.explicit_ordering@;
        let mut kept: Vec<(Tool, u8)> = Vec::new();
        let n = self.explicit_ordering.len();
        let mut i: usize = 0;
        while i < n
            invariant
                0 <= i <= n,
                n == old_expl.len(),
                self.explicit_ordering@ == old_expl,
                kept@ == keep_explicit(old_expl, i as int, *tool, order),
            decreases n - i,
        {
            let (t, o) = self.explicit_ordering[i];
            if !(t == *tool) && o != order {
                kept.push((t, o));
            }
            i += 1;
        }
        kept.push((*tool, order));
        self.explicit_ordering = kept;

        // Rebuild the merged ordering: the explicit entries seed it.
        let ghost expl2 = self.explicit_ordering@;
        let mut merged: Vec<(Tool, u8)> = Vec::new();
        let m = self.explicit_ordering.len();
        let mut j: usize = 0;
        while j < m
            invariant
                0 <= j <= m,
                m == expl2.len(),
                self.explicit_ordering@ == expl2,
                merged@ == expl2.take(j as int),
            decreases m - j,
        {
            let e = self.explicit_ordering[j];
            merged.push(e);
            proof {
                assert(merged@ =~= expl2.take(j as int + 1));
            }
            j += 1;
        }
        proof {
            assert(merged@ =~= expl2);
        }
        self.ordering = merged;

        let ghost tools2 = self.tools@;
        let tn = self.tools.len();
        let mut k: usize = 0;
        while k < tn
            invariant
                0 <= k <= tn,
                tn == tools2.len(),
                self.tools@ == tools2,
                self.explicit_ordering@ == expl2,
                rebuild_from(tools2, expl2, 0, expl2) == rebuild_from(
                    tools2,
                    expl2,
                    k as int,
                    self.ordering@,
                ),
            decreases tn - k,
        {
            let t = self.tools[k];
            if Self::find(&self.ordering, &t).is_none() {
                let order = self.next_auto_order();
                self.ordering.push((t, order));
            }
            k += 1;
        }
    }

    /// The position of a tool, or nothing if it has not been added.
    pub fn ordering(&self, tool: &Tool) -> (r: Option<u8>)
        ensures
            r == lookup(self.spec_ordering(), *tool),
    {
        Self::find(&self.ordering, tool)
    }

    /// The tools that have positions, sorted by position.
    pub fn tools_ordered(&self) -> (r: Vec<Tool>)
        ensures
            r@ == tools_ordered_spec(self.spec_ordering()),
    {
        let mut result: Vec<Tool> = Vec::new();
        let mut o: u16 = 1;
        while o <= 255
            invariant
                1 <= o <= 256,
                result@ == tools_through_order(self.ordering@, o as int - 1),
            decreases 256 - o,
        {
            match Self::find_by_order(&self.ordering, o as u8) {
                Some(t) => {
                    result.push(t);
                    proof {
                        assert(result@ =~= tools_through_order(self.ordering@, o as int));
                    }
                },
                None => {
                    proof {
                        assert(result@ =~= tools_through_order(self.ordering@, o as int));
                    }
                },
            }
            o += 1;
        }
        result
    }

    /// The first tool a table maps to the given position, if any.
    fn find_by_order(v: &Vec<(Tool, u8)>, o: u8) -> (r: Option<Tool>)
        ensures
            r == tool_at_order(v@, o as int),
    {
        let n = v.len();
        let mut i: usize = 0;
        proof {
            assert(v@.skip(0) =~= v@);
        }
        while i < n
            invariant
                0 <= i <= n,
                n == v@.len(),
                tool_at_order(v@, o as int) == tool_at_order(v@.skip(i as int), o as int),
            decreases n - i,
        {
            let (t, ord) = v[i];
            if ord == o {
                proof {
                    assert(v@.skip(i as int)[0] == v@[i as int]);
                }
                return Some(t);
            }
            proof {
                assert(v@.skip(i as int)[0] == v@[i as int]);
                assert(v@.skip(i as int).skip(1) =~= v@.skip(i as int + 1));
            }
            i += 1;
        }
        proof {
            assert(v@.skip(n as int) =~= Seq::<(Tool, u8)>::empty());
        }
        None
    }
}

impl Default for ToolOrdering {
    /// An empty ordering.
    fn default() -> (r: Self)
        ensures
            r.spec_tools() == Seq::<Tool>::empty(),
            r.spec_ordering() == Seq::<(Tool, u8)>::empty(),
            r.spec_explicit() == Seq::<(Tool, u8)>::empty(),
    {
        Self::new()
    }
}


/// Whether a tool can be compiled: well-formed measurements and a cutter at
/// least two ten-thousandths of a unit wide, so raster spacing is positive.
pub open spec fn tool_ok(t: Tool) -> bool {
    t.wf() && t.spec_diameter() >= 2
}

/// Whether every tool a table maps is compilable.
pub open spec fn keys_ok(s: Seq<(Tool, u8)>) -> bool {
    forall|i: int| 0 <= i < s.len() ==> #[trigger] tool_ok(s[i].0)
}

/// Whether every tool of a list is compilable.
pub open spec fn tools_ok(s: Seq<Tool>) -> bool {
    forall|i: int| 0 <= i < s.len() ==> #[trigger] tool_ok(s[i])
}

/// Filtering an explicit table keeps its keys compilable.
pub proof fn lemma_keep_explicit_ok(s: Seq<(Tool, u8)>, i: int, t: Tool, o: u8)
    requires
        keys_ok(s),
        0 <= i <= s.len(),
    ensures
        keys_ok(keep_explicit(s, i, t, o)),
    decreases i,
{
    if i > 0 {
        lemma_keep_explicit_ok(s, i - 1, t, o);
    }
}

/// Rebuilding the merged table from compilable tools keeps its keys
/// compilable.
pub proof fn lemma_rebuild_ok(tools: Seq<Tool>, expl: Seq<(Tool, u8)>, i: int, acc: Seq<(Tool, u8)>)
    requires
        tools_ok(tools),
        keys_ok(acc),
        0 <= i <= tools.len(),
    ensures
        keys_ok(rebuild_from(tools, expl, i, acc)),
    decreases tools.len() - i,
{
    if i < tools.len() {
        let acc2 = if lookup(acc, tools[i]) is Some {
            acc
        } else {
            acc.push((tools[i], next_free_from(acc, expl, 1) as u8))
        };
        assert(keys_ok(acc2));
        lemma_rebuild_ok(tools, expl, i + 1, acc2);
    }
}

/// A tool found at a position is one of the table's keys, so it is
/// compilable when they all are.
pub proof fn lemma_tool_at_order_ok(s: Seq<(Tool, u8)>, o: int)
    requires
        keys_ok(s),
    ensures
        match tool_at_order(s, o) {
            Some(t) => tool_ok(t),
            None => true,
        },
    decreases s.len(),
{
    if s.len() > 0 && s[0].1 != o {
        assert(tool_ok(s[0].0));
        assert(keys_ok(s.skip(1))) by {
            assert(forall|i: int|
                0 <= i < s.skip(1).len() ==> s.skip(1)[i] == s[i + 1] && tool_ok(s[i + 1].0));
        }
        lemma_tool_at_order_ok(s.skip(1), o);
    } else if s.len() > 0 {
        assert(tool_ok(s[0].0));
    }
}

/// Every tool the position-sorted list places is compilable when the
/// table's keys are.
pub proof fn lemma_tools_through_ok(s: Seq<(Tool, u8)>, o: int)
    requires
        keys_ok(s),
        o >= 0,
    ensures
        tools_ok(tools_through_order(s, o)),
    decreases o,
{
    if o > 0 {
        lemma_tools_through_ok(s, o - 1);
        lemma_tool_at_order_ok(s, o);
    }
}


/// The position-sorted list holds at most one tool per position.
pub proof fn lemma_tools_through_len(s: Seq<(Tool, u8)>, o: int)
    requires
        o >= 0,
    ensures
        tools_through_order(s, o).len() <= o,
    decreases o,
{
    if o > 0 {
        lemma_tools_through_len(s, o - 1);
    }
}

/// The position-sorted list of any table holds at most 255 tools.
pub proof fn lemma_tools_ordered_count(s: Seq<(Tool, u8)>)
    ensures
        tools_ordered_spec(s).len() <= 255,
{
    lemma_tools_through_len(s, 255);
}

} // verus!
