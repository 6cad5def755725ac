//! The supported G-code instructions.
//!
//! Each instruction serializes to one line of machine code.  The spec
//! function [`gcode`] defines that line exactly over the instruction's view,
//! and every `to_gcode` method is proved to produce it.  Numeric parameters
//! are fixed-point values in ten-thousandths of a unit; they print rounded to
//! three decimals.

use vstd::prelude::*;

use crate::text::{dec_str, format_num, format_u64, num_str};

verus! {

/// Rapid move.
#[derive(Debug, Clone, PartialEq)]
pub struct G0 {
    /// X coordinate.
    pub x: Option<i64>,
    /// Y coordinate.
    pub y: Option<i64>,
    /// Z coordinate.
    pub z: Option<i64>,
}

/// Linear move.
#[derive(Debug, Clone, PartialEq)]
pub struct G1 {
    /// X coordinate.
    pub x: Option<i64>,
    /// Y coordinate.
    pub y: Option<i64>,
    /// Z coordinate.
    pub z: Option<i64>,
    /// Feed rate.
    pub f: Option<i64>,
}

/// Arc move, clockwise.  Use either `r` or `i`/`j`/`k`; when `r` is present
/// the offsets are not printed.
#[derive(Debug, Clone, PartialEq)]
pub struct G2 {
    /// X coordinate.
    pub x: Option<i64>,
    /// Y coordinate.
    pub y: Option<i64>,
    /// Z coordinate.
    pub z: Option<i64>,
    /// X offset of the arc center, relative to the current point.
    pub i: Option<i64>,
    /// Y offset of the arc center, relative to the current point.
    pub j: Option<i64>,
    /// Z offset of the arc center, relative to the current point.
    pub k: Option<i64>,
    /// Radius.
    pub r: Option<i64>,
    /// Number of complete circles.
    pub p: Option<u32>,
    /// Feed rate.
    pub f: Option<i64>,
}

/// Arc move, counterclockwise.  Use either `r` or `i`/`j`/`k`; when `r` is
/// present the offsets are not printed.
#[derive(Debug, Clone, PartialEq)]
pub struct G3 {
    /// X coordinate.
    pub x: Option<i64>,
    /// Y coordinate.
    pub y: Option<i64>,
    /// Z coordinate.
    pub z: Option<i64>,
    /// X offset of the arc center, relative to the current point.
    pub i: Option<i64>,
    /// Y offset of the arc center, relative to the current point.
    pub j: Option<i64>,
    /// Z offset of the arc center, relative to the current point.
    pub k: Option<i64>,
    /// Radius.
    pub r: Option<i64>,
    /// Number of complete circles.
    pub p: Option<u32>,
    /// Feed rate.
    pub f: Option<i64>,
}

/// Dwell: pause for the given number of whole seconds.
#[derive(Debug, Clone, PartialEq)]
pub struct G4 {
    /// Seconds to pause.
    pub p: u64,
}

/// Select the XY plane.
#[derive(Debug, Clone, PartialEq)]
pub struct G17 {}

/// Select the ZX plane.
#[derive(Debug, Clone, PartialEq)]
pub struct G18 {}

/// Select the YZ plane.
#[derive(Debug, Clone, PartialEq)]
pub struct G19 {}

/// Inch units.
#[derive(Debug, Clone, PartialEq)]
pub struct G20 {}

/// Millimeter units.
#[derive(Debug, Clone, PartialEq)]
pub struct G21 {}

/// Tool length offset, looked up in the tool table.
#[derive(Debug, Clone, PartialEq)]
pub struct G43 {
    /// Tool number.
    pub h: u32,
}

/// Set the feed rate.
#[derive(Debug, Clone, PartialEq)]
pub struct F {
    /// Feed rate, units per minute.
    pub x: i64,
}

/// Set the spindle speed.
#[derive(Debug, Clone, PartialEq)]
pub struct S {
    /// Spindle speed, revolutions per minute.
    pub x: i64,
}

/// Program pause; the user must resume.
#[derive(Debug, Clone, PartialEq)]
pub struct M0 {}

/// Program end.
#[derive(Debug, Clone, PartialEq)]
pub struct M2 {}

/// Start the spindle clockwise.
#[derive(Debug, Clone, PartialEq)]
pub struct M3 {}

/// Start the spindle counterclockwise.
#[derive(Debug, Clone, PartialEq)]
pub struct M4 {}

/// Stop the spindle.
#[derive(Debug, Clone, PartialEq)]
pub struct M5 {}

/// Manual tool change.
#[derive(Debug, Clone, PartialEq)]
pub struct M6 {
    /// Tool number.
    pub t: u8,
}

/// An empty line.
#[derive(Debug, Clone, PartialEq)]
pub struct Empty {}

/// A comment line.
#[derive(Debug, Clone, Default, PartialEq)]
pub struct Comment {
    /// The comment text.
    pub text: String,
}

/// A message line the controller prints.
#[derive(Debug, Clone, PartialEq)]
pub struct Message {
    /// The message text.
    pub text: String,
}

/// One G-code instruction.
#[derive(Debug, Clone, PartialEq)]
pub enum Instruction {
    /// G0, rapid move.
    G0(G0),
    /// G1, linear move.
    G1(G1),
    /// G2, arc move clockwise.
    G2(G2),
    /// G3, arc move counterclockwise.
    G3(G3),
    /// G4, dwell.
    G4(G4),
    /// G17, select plane XY.
    G17(G17),
    /// G18, select plane ZX.
    G18(G18),
    /// G19, select plane YZ.
    G19(G19),
    /// G20, inch units.
    G20(G20),
    /// G21, millimeter units.
    G21(G21),
    /// G43, tool length offset.
    G43(G43),
    /// F, set feed rate.
    F(F),
    /// S, set spindle speed.
    S(S),
    /// M0, program pause.
    M0(M0),
    /// M2, program end.
    M2(M2),
    /// M3, start spindle clockwise.
    M3(M3),
    /// M4, start spindle counterclockwise.
    M4(M4),
    /// M5, stop spindle.
    M5(M5),
    /// M6, manual tool change.
    M6(M6),
    /// An empty line.
    Empty(Empty),
    /// A comment line.
    Comment(Comment),
    /// A message line.
    Message(Message),
}

/// The mathematical shape of one instruction: the same data with text as
/// character sequences.  Contracts speak of instruction lists through this
/// type.
pub enum InstrV {
    /// G0, rapid move.
    G0 { x: Option<i64>, y: Option<i64>, z: Option<i64> },
    /// G1, linear move.
    G1 { x: Option<i64>, y: Option<i64>, z: Option<i64>, f: Option<i64> },
    /// G2, arc move clockwise.
    G2 {
        x: Option<i64>,
        y: Option<i64>,
        z: Option<i64>,
        i: Option<i64>,
        j: Option<i64>,
        k: Option<i64>,
        r: Option<i64>,
        p: Option<u32>,
        f: Option<i64>,
    },
    /// G3, arc move counterclockwise.
    G3 {
        x: Option<i64>,
        y: Option<i64>,
        z: Option<i64>,
        i: Option<i64>,
        j: Option<i64>,
        k: Option<i64>,
        r: Option<i64>,
        p: Option<u32>,
        f: Option<i64>,
    },
    /// G4, dwell.
    G4 { p: u64 },
    /// G17, select plane XY.
    G17,
    /// G18, select plane ZX.
    G18,
    /// G19, select plane YZ.
    G19,
    /// G20, inch units.
    G20,
    /// G21, millimeter units.
    G21,
    /// G43, tool length offset.
    G43 { h: u32 },
    /// F, set feed rate.
    F { x: i64 },
    /// S, set spindle speed.
    S { x: i64 },
    /// M0, program pause.
    M0,
    /// M2, program end.
    M2,
    /// M3, start spindle clockwise.
    M3,
    /// M4, start spindle counterclockwise.
    M4,
    /// M5, stop spindle.
    M5,
    /// M6, manual tool change.
    M6 { t: u8 },
    /// An empty line.
    Empty,
    /// A comment line.
    Comment { text: Seq<char> },
    /// A message line.
    Message { text: Seq<char> },
}

impl View for Instruction {
    type V = InstrV;

    open spec fn view(&self) -> InstrV {
        match self {
            Instruction::G0(c) => InstrV::G0 { x: c.x, y: c.y, z: c.z },
            Instruction::G1(c) => InstrV::G1 { x: c.x, y: c.y, z: c.z, f: c.f },
            Instruction::G2(c) => InstrV::G2 {
                x: c.x,
                y: c.y,
                z: c.z,
                i: c.i,
                j: c.j,
                k: c.k,
                r: c.r,
                p: c.p,
                f: c.f,
            },
            Instruction::G3(c) => InstrV::G3 {
                x: c.x,
                y: c.y,
                z: c.z,
                i: c.i,
                j: c.j,
                k: c.k,
                r: c.r,
                p: c.p,
                f: c.f,
            },
            Instruction::G4(c) => InstrV::G4 { p: c.p },
            Instruction::G17(_) => InstrV::G17,
            Instruction::G18(_) => InstrV::G18,
            Instruction::G19(_) => InstrV::G19,
            Instruction::G20(_) => InstrV::G20,
            Instruction::G21(_) => InstrV::G21,
            Instruction::G43(c) => InstrV::G43 { h: c.h },
            Instruction::F(c) => InstrV::F { x: c.x },
            Instruction::S(c) => InstrV::S { x: c.x },
            Instruction::M0(_) => InstrV::M0,
            Instruction::M2(_) => InstrV::M2,
            Instruction::M3(_) => InstrV::M3,
            Instruction::M4(_) => InstrV::M4,
            Instruction::M5(_) => InstrV::M5,
            Instruction::M6(c) => InstrV::M6 { t: c.t },
            Instruction::Empty(_) => InstrV::Empty,
            Instruction::Comment(c) => InstrV::Comment { text: c.text@ },
            Instruction::Message(c) => InstrV::Message { text: c.text@ },
        }
    }
}

impl DeepView for Instruction {
    type V = InstrV;

    open spec fn deep_view(&self) -> InstrV {
        self.view()
    }
}

/// An optional numeric parameter: nothing, or the prefix followed by the
/// rounded number.
pub open spec fn opt_str(prefix: Seq<char>, v: Option<i64>) -> Seq<char> {
    match v {
        Some(n) => prefix + num_str(n as int),
        None => Seq::<char>::empty(),
    }
}

/// A comment line: `;(text)`, or nothing for an empty text.
pub open spec fn comment_str(text: Seq<char>) -> Seq<char> {
    if text.len() == 0 {
        Seq::<char>::empty()
    } else {
        ";("@ + text + ")"@
    }
}

/// A message line: `(MSG,text)`.
pub open spec fn message_str(text: Seq<char>) -> Seq<char> {
    "(MSG,"@ + text + ")"@
}

/// The one line of machine code an instruction serializes to.
pub open spec fn gcode(i: InstrV) -> Seq<char> {
    match i {
        InstrV::G0 { x, y, z } => "G0"@ + opt_str(" X"@, x) + opt_str(" Y"@, y) + opt_str(
            " Z"@,
            z,
        ),
        InstrV::G1 { x, y, z, f } => "G1"@ + opt_str(" X"@, x) + opt_str(" Y"@, y) + opt_str(
            " Z"@,
            z,
        ) + opt_str(" F"@, f),
        InstrV::G2 { x, y, z, i, j, k, r, p, f } => "G2"@ + arc_args(x, y, z, i, j, k, r, p, f),
        InstrV::G3 { x, y, z, i, j, k, r, p, f } => "G3"@ + arc_args(x, y, z, i, j, k, r, p, f),
        InstrV::G4 { p } => "G4 P"@ + dec_str(p as nat),
        InstrV::G17 => "G17"@,
        InstrV::G18 => "G18"@,
        InstrV::G19 => "G19"@,
        InstrV::G20 => "G20"@,
        InstrV::G21 => "G21"@,
        InstrV::G43 { h } => "G43 H"@ + dec_str(h as nat),
        InstrV::F { x } => "F"@ + num_str(x as int),
        InstrV::S { x } => "S"@ + num_str(x as int),
        InstrV::M0 => "M0"@,
        InstrV::M2 => "M2"@,
        InstrV::M3 => "M3"@,
        InstrV::M4 => "M4"@,
        InstrV::M5 => "M5"@,
        InstrV::M6 { t } => "T"@ + dec_str(t as nat) + " M6"@,
        InstrV::Empty => Seq::<char>::empty(),
        InstrV::Comment { text } => comment_str(text),
        InstrV::Message { text } => message_str(text),
    }
}

/// The parameters of an arc move: coordinates, then the radius or the center
/// offsets, then the circle count, then the feed rate.
pub open spec fn arc_args(
    x: Option<i64>,
    y: Option<i64>,
    z: Option<i64>,
    i: Option<i64>,
    j: Option<i64>,
    k: Option<i64>,
    r: Option<i64>,
    p: Option<u32>,
    f: Option<i64>,
) -> Seq<char> {
    opt_str(" X"@, x) + opt_str(" Y"@, y) + opt_str(" Z"@, z) + (match r {
        Some(rv) => " R"@ + num_str(rv as int),
        None => opt_str(" I"@, i) + opt_str(" J"@, j) + opt_str(" K"@, k),
    }) + (match p {
        Some(pv) => " P"@ + dec_str(pv as nat),
        None => Seq::<char>::empty(),
    }) + opt_str(" F"@, f)
}

/// Appends an optional parameter to a command under construction.
fn push_opt(s: &mut String, prefix: &str, v: Option<i64>)
    ensures
        final(s)@ == old(s)@ + opt_str(prefix@, v),
{
    match v {
        Some(n) => {
            s.append(prefix);
            s.append(format_num(n).as_str());
            proof {
                assert(s@ =~= old(s)@ + opt_str(prefix@, v));
            }
        },
        None => {
            proof {
                assert(s@ =~= old(s)@ + opt_str(prefix@, v));
            }
        },
    }
}

impl G0 {
    /// The G-code line for this command.
    pub fn to_gcode(&self) -> (s: String)
        ensures
            s@ == gcode(InstrV::G0 { x: self.x, y: self.y, z: self.z }),
    {
        let mut s = String::from_str("G0");
        push_opt(&mut s, " X", self.x);
        push_opt(&mut s, " Y", self.y);
        push_opt(&mut s, " Z", self.z);
        proof {
            assert(s@ =~= gcode(InstrV::G0 { x: self.x, y: self.y, z: self.z }));
        }
        s
    }
}

impl G1 {
    /// The G-code line for this command.
    pub fn to_gcode(&self) -> (s: String)
        ensures
            s@ == gcode(InstrV::G1 { x: self.x, y: self.y, z: self.z, f: self.f }),
    {
        let mut s = String::from_str("G1");
        push_opt(&mut s, " X", self.x);
        push_opt(&mut s, " Y", self.y);
        push_opt(&mut s, " Z", self.z);
        push_opt(&mut s, " F", self.f);
        proof {
            assert(s@ =~= gcode(InstrV::G1 { x: self.x, y: self.y, z: self.z, f: self.f }));
        }
        s
    }
}

/// Appends the shared arc-move parameter list.
#[verifier::rlimit(60)]
fn push_arc_args(
    s: &mut String,
    x: Option<i64>,
    y: Option<i64>,
    z: Option<i64>,
    i: Option<i64>,
    j: Option<i64>,
    k: Option<i64>,
    r: Option<i64>,
    p: Option<u32>,
    f: Option<i64>,
)
    ensures
        final(s)@ == old(s)@ + arc_args(x, y, z, i, j, k, r, p, f),
{
    let ghost s0 = s@;
    let ghost xyz = opt_str(" X"@, x) + opt_str(" Y"@, y) + opt_str(" Z"@, z);
    let ghost rpart = match r {
        Some(rv) => " R"@ + num_str(rv as int),
        None => opt_str(" I"@, i) + opt_str(" J"@, j) + opt_str(" K"@, k),
    };
    let ghost ppart = match p {
        Some(pv) => " P"@ + dec_str(pv as nat),
        None => Seq::<char>::empty(),
    };
    push_opt(s, " X", x);
    push_opt(s, " Y", y);
    push_opt(s, " Z", z);
    proof {
        assert(s@ =~= s0 + xyz);
    }
    let ghost s1 = s@;
    match r {
        Some(rv) => {
            s.append(" R");
            s.append(format_num(rv).as_str());
        },
        None => {
            push_opt(s, " I", i);
            push_opt(s, " J", j);
            push_opt(s, " K", k);
        },
    }
    proof {
        assert(s@ =~= s1 + rpart);
    }
    let ghost s2 = s@;
    match p {
        Some(pv) => {
            s.append(" P");
            s.append(format_u64(pv as u64).as_str());
        },
        None => {},
    }
    proof {
        assert(s@ =~= s2 + ppart);
    }
    let ghost s3 = s@;
    push_opt(s, " F", f);
    proof {
        assert(s@ =~= s3 + opt_str(" F"@, f));
        assert(arc_args(x, y, z, i, j, k, r, p, f) == xyz + rpart + ppart + opt_str(" F"@, f));
        assert(s@ =~= s0 + arc_args(x, y, z, i, j, k, r, p, f));
    }
}

impl G2 {
    /// The G-code line for this command.
    pub fn to_gcode(&self) -> (s: String)
        ensures
            s@ == gcode(self.v()),
    {
        let mut s = String::from_str("G2");
        push_arc_args(&mut s, self.x, self.y, self.z, self.i, self.j, self.k, self.r, self.p,
            self.f);
        s
    }

    /// This command as an instruction view.
    pub open spec fn v(&self) -> InstrV {
        InstrV::G2 {
            x: self.x,
            y: self.y,
            z: self.z,
            i: self.i,
            j: self.j,
            k: self.k,
            r: self.r,
            p: self.p,
            f: self.f,
        }
    }
}

impl G3 {
    /// The G-code line for this command.
    pub fn to_gcode(&self) -> (s: String)
        ensures
            s@ == gcode(self.v()),
    {
        let mut s = String::from_str("G3");
        push_arc_args(&mut s, self.x, self.y, self.z, self.i, self.j, self.k, self.r, self.p,
            self.f);
        s
    }

    /// This command as an instruction view.
    pub open spec fn v(&self) -> InstrV {
        InstrV::G3 {
            x: self.x,
            y: self.y,
            z: self.z,
            i: self.i,
            j: self.j,
            k: self.k,
            r: self.r,
            p: self.p,
            f: self.f,
        }
    }
}

impl G4 {
    /// The G-code line for this command.
    pub fn to_gcode(&self) -> (s: String)
        ensures
            s@ == gcode(InstrV::G4 { p: self.p }),
    {
        let mut s = String::from_str("G4 P");
        s.append(format_u64(self.p).as_str());
        proof {
            assert(s@ =~= gcode(InstrV::G4 { p: self.p }));
        }
        s
    }
}

impl G17 {
    /// The G-code line for this command.
    pub fn to_gcode(&self) -> (s: String)
        ensures
            s@ == gcode(InstrV::G17),
    {
        String::from_str("G17")
    }
}

impl G18 {
    /// The G-code line for this command.
    pub fn to_gcode(&self) -> (s: String)
        ensures
            s@ == gcode(InstrV::G18),
    {
        String::from_str("G18")
    }
}

impl G19 {
    /// The G-code line for this command.
    pub fn to_gcode(&self) -> (s: String)
        ensures
            s@ == gcode(InstrV::G19),
    {
        String::from_str("G19")
    }
}

impl G20 {
    /// The G-code line for this command.
    pub fn to_gcode(&self) -> (s: String)
        ensures
            s@ == gcode(InstrV::G20),
    {
        String::from_str("G20")
    }
}

impl G21 {
    /// The G-code line for this command.
    pub fn to_gcode(&self) -> (s: String)
        ensures
            s@ == gcode(InstrV::G21),
    {
        String::from_str("G21")
    }
}

impl G43 {
    /// The G-code line for this command.
    pub fn to_gcode(&self) -> (s: String)
        ensures
            s@ == gcode(InstrV::G43 { h: self.h }),
    {
        let mut s = String::from_str("G43 H");
        s.append(format_u64(self.h as u64).as_str());
        proof {
            assert(s@ =~= gcode(InstrV::G43 { h: self.h }));
        }
        s
    }
}

impl F {
    /// The G-code line for this command.
    pub fn to_gcode(&self) -> (s: String)
        ensures
            s@ == gcode(InstrV::F { x: self.x }),
    {
        let mut s = String::from_str("F");
        s.append(format_num(self.x).as_str());
        proof {
            assert(s@ =~= gcode(InstrV::F { x: self.x }));
        }
        s
    }
}

impl S {
    /// The G-code line for this command.
    pub fn to_gcode(&self) -> (s: String)
        ensures
            s@ == gcode(InstrV::S { x: self.x }),
    {
        let mut s = String::from_str("S");
        s.append(format_num(self.x).as_str());
        proof {
            assert(s@ =~= gcode(InstrV::S { x: self.x }));
        }
        s
    }
}

impl M0 {
    /// The G-code line for this command.
    pub fn to_gcode(&self) -> (s: String)
        ensures
            s@ == gcode(InstrV::M0),
    {
        String::from_str("M0")
    }
}

impl M2 {
    /// The G-code line for this command.
    pub fn to_gcode(&self) -> (s: String)
        ensures
            s@ == gcode(InstrV::M2),
    {
        String::from_str("M2")
    }
}

impl M3 {
    /// The G-code line for this command.
    pub fn to_gcode(&self) -> (s: String)
        ensures
            s@ == gcode(InstrV::M3),
    {
        String::from_str("M3")
    }
}

impl M4 {
    /// The G-code line for this command.
    pub fn to_gcode(&self) -> (s: String)
        ensures
            s@ == gcode(InstrV::M4),
    {
        String::from_str("M4")
    }
}

impl M5 {
    /// The G-code line for this command.
    pub fn to_gcode(&self) -> (s: String)
        ensures
            s@ == gcode(InstrV::M5),
    {
        String::from_str("M5")
    }
}

impl M6 {
    /// The G-code line for this command.
    pub fn to_gcode(&self) -> (s: String)
        ensures
            s@ == gcode(InstrV::M6 { t: self.t }),
    {
        let mut s = String::from_str("T");
        s.append(format_u64(self.t as u64).as_str());
        s.append(" M6");
        proof {
            assert(s@ =~= gcode(InstrV::M6 { t: self.t }));
        }
        s
    }
}

impl Empty {
    /// The G-code line for this command: an empty line.
    pub fn to_gcode(&self) -> (s: String)
        ensures
            s@ == gcode(InstrV::Empty),
    {
        String::new()
    }
}

impl Comment {
    /// The G-code line for this comment: `;(text)`, or an empty line for an
    /// empty text.
    pub fn to_gcode(&self) -> (s: String)
        ensures
            s@ == gcode(InstrV::Comment { text: self.text@ }),
    {
        if self.text.as_str().is_empty() {
            return String::new();
        }
        let mut s = String::from_str(";(");
        s.append(self.text.as_str());
        s.append(")");
        proof {
            assert(s@ =~= gcode(InstrV::Comment { text: self.text@ }));
        }
        s
    }
}

impl Message {
    /// The G-code line for this message: `(MSG,text)`.
    pub fn to_gcode(&self) -> (s: String)
        ensures
            s@ == gcode(InstrV::Message { text: self.text@ }),
    {
        let mut s = String::from_str("(MSG,");
        s.append(self.text.as_str());
        s.append(")");
        proof {
            assert(s@ =~= gcode(InstrV::Message { text: self.text@ }));
        }
        s
    }
}

impl Instruction {
    /// The one line of machine code this instruction serializes to.
    pub fn to_gcode(&self) -> (s: String)
        ensures
            s@ == gcode(self@),
    {
        match self {
            Instruction::G0(c) => c.to_gcode(),
            Instruction::G1(c) => c.to_gcode(),
            Instruction::G2(c) => c.to_gcode(),
            Instruction::G3(c) => c.to_gcode(),
            Instruction::G4(c) => c.to_gcode(),
            Instruction::G17(c) => c.to_gcode(),
            Instruction::G18(c) => c.to_gcode(),
            Instruction::G19(c) => c.to_gcode(),
            Instruction::G20(c) => c.to_gcode(),
            Instruction::G21(c) => c.to_gcode(),
            Instruction::G43(c) => c.to_gcode(),
            Instruction::F(c) => c.to_gcode(),
            Instruction::S(c) => c.to_gcode(),
            Instruction::M0(c) => c.to_gcode(),
            Instruction::M2(c) => c.to_gcode(),
            Instruction::M3(c) => c.to_gcode(),
            Instruction::M4(c) => c.to_gcode(),
            Instruction::M5(c) => c.to_gcode(),
            Instruction::M6(c) => c.to_gcode(),
            Instruction::Empty(c) => c.to_gcode(),
            Instruction::Comment(c) => c.to_gcode(),
            Instruction::Message(c) => c.to_gcode(),
        }
    }
}

} // verus!
