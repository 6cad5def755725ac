//! Program assembly: operations, per-tool contexts, and the program that
//! batches them into one validated, deduplicated instruction stream.

use vstd::prelude::*;

use crate::cuts::{cut_bounds, cut_spec, cut_wf, result_view, Cut, CutV};
use crate::errors::CncError;
use crate::instructions::{Comment, Empty, Instruction, InstrV, Message, G0, G1, G2, G3, G4};
use crate::tools::Tool;
use crate::types::{coord_ok, Bounds, Units, Vector3};

verus! {

/// One program-level entry: a cut, or a pass-through comment, message or
/// blank line.  Operations are kept in declaration order and never
/// reordered.
#[derive(Debug)]
pub enum Operation {
    /// A cut operation.
    Cut(Cut),
    /// A blank line in the output.
    Empty(Empty),
    /// A comment line in the output.
    Comment(Comment),
    /// A message line in the output.
    Message(Message),
}

/// The mathematical shape of one operation.
pub enum OperationV {
    /// A cut operation.
    Cut(CutV),
    /// A blank line.
    Empty,
    /// A comment line.
    Comment(Seq<char>),
    /// A message line.
    Message(Seq<char>),
}

impl View for Operation {
    type V = OperationV;

    open spec fn view(&self) -> OperationV {
        match self {
            Operation::Cut(c) => OperationV::Cut(c.deep_view()),
            Operation::Empty(_) => OperationV::Empty,
            Operation::Comment(c) => OperationV::Comment(c.text@),
            Operation::Message(m) => OperationV::Message(m.text@),
        }
    }
}

impl DeepView for Operation {
    type V = OperationV;

    open spec fn deep_view(&self) -> OperationV {
        self.view()
    }
}

/// Whether an operation's geometry is inside the working range.
pub open spec fn op_wf(o: OperationV) -> bool {
    match o {
        OperationV::Cut(c) => cut_wf(c),
        _ => true,
    }
}

/// The bounds of an operation: its cut's bounds, or the zero box for the
/// pass-through entries.
pub open spec fn op_bounds(o: OperationV) -> Bounds {
    match o {
        OperationV::Cut(c) => cut_bounds(c),
        _ => Bounds {
            min: Vector3 { x: 0, y: 0, z: 0 },
            max: Vector3 { x: 0, y: 0, z: 0 },
        },
    }
}

/// The instruction stream of an operation: its cut's stream, or the single
/// pass-through line.
pub open spec fn op_spec(o: OperationV, tool: Tool, units: Units, z_safe: i64) -> Result<
    Seq<InstrV>,
    CncError,
> {
    match o {
        OperationV::Cut(c) => cut_spec(c, tool, units, z_safe),
        OperationV::Empty => Ok(seq![InstrV::Empty]),
        OperationV::Comment(t) => Ok(seq![InstrV::Comment { text: t }]),
        OperationV::Message(t) => Ok(seq![InstrV::Message { text: t }]),
    }
}

impl Operation {
    /// A deep copy of the operation.
    pub fn duplicate(&self) -> (r: Operation)
        ensures
            r.deep_view() == self.deep_view(),
    {
        match self {
            Operation::Cut(c) => Operation::Cut(
                match c {
                    Cut::Arc(x) => Cut::Arc(*x),
                    Cut::Circle(x) => Cut::Circle(*x),
                    Cut::Frame(x) => Cut::Frame(*x),
                    Cut::Line(x) => Cut::Line(*x),
                    Cut::Area(x) => Cut::Area(*x),
                    Cut::Path(x) => {
                        let mut segments: Vec<crate::cuts::Segment> = Vec::new();
                        let n = x.segments.len();
                        let mut i: usize = 0;
                        while i < n
                            invariant
                                0 <= i <= n,
                                n == x.segments@.len(),
                                segments@ == x.segments@.take(i as int),
                            decreases n - i,
                        {
                            segments.push(x.segments[i]);
                            proof {
                                assert(segments@ =~= x.segments@.take(i as int + 1));
                            }
                            i += 1;
                        }
                        proof {
                            assert(segments@ =~= x.segments@);
                        }
                        Cut::Path(
                            crate::cuts::Path {
                                start: x.start,
                                segments,
                                end_z: x.end_z,
                                max_step_z: x.max_step_z,
                            },
                        )
                    },
                },
            ),
            Operation::Empty(_) => Operation::Empty(Empty {}),
            Operation::Comment(c) => Operation::Comment(Comment { text: c.text.clone() }),
            Operation::Message(m) => Operation::Message(Message { text: m.text.clone() }),
        }
    }

    /// The bounds of the operation, per [`op_bounds`].
    pub fn bounds(&self) -> (b: Bounds)
        requires
            op_wf(self.deep_view()),
        ensures
            b == op_bounds(self.deep_view()),
    {
        match self {
            Operation::Cut(c) => c.bounds(),
            Operation::Empty(_) => Bounds::default(),
            Operation::Comment(_) => Bounds::default(),
            Operation::Message(_) => Bounds::default(),
        }
    }

    /// The operation compiled to instructions, per [`op_spec`].
    pub fn to_instructions(&self, context: &InnerContext) -> (r: Result<Vec<Instruction>, CncError>)
        requires
            op_wf(self.deep_view()),
            context.wf(),
            context.spec_tool().spec_diameter() >= 2,
        ensures
            result_view(r) == op_spec(
                self.deep_view(),
                context.spec_tool(),
                context.spec_units(),
                context.spec_z_safe(),
            ),
    {
        match self {
            Operation::Cut(c) => c.to_instructions(context),
            Operation::Empty(_) => {
                let mut v: Vec<Instruction> = Vec::new();
                v.push(Instruction::Empty(Empty {}));
                proof {
                    assert(v.deep_view() =~= seq![InstrV::Empty]);
                }
                Ok(v)
            },
            Operation::Comment(c) => {
                let mut v: Vec<Instruction> = Vec::new();
                v.push(Instruction::Comment(Comment { text: c.text.clone() }));
                proof {
                    assert(v.deep_view() =~= seq![InstrV::Comment { text: c.text@ }]);
                }
                Ok(v)
            },
            Operation::Message(m) => {
                let mut v: Vec<Instruction> = Vec::new();
                v.push(Instruction::Message(Message { text: m.text.clone() }));
                proof {
                    assert(v.deep_view() =~= seq![InstrV::Message { text: m.text@ }]);
                }
                Ok(v)
            },
        }
    }
}

/// The bounds folded from the first `i` operations of a context.
pub open spec fn ops_bounds_upto(ops: Seq<OperationV>, i: int) -> Bounds
    decreases i,
    when i >= 0
{
    if i <= 0 {
        Bounds {
            min: Vector3 { x: i64::MAX, y: i64::MAX, z: i64::MAX },
            max: Vector3 { x: i64::MIN, y: i64::MIN, z: i64::MIN },
        }
    } else {
        let b = ops_bounds_upto(ops, i - 1);
        let ob = op_bounds(ops[i - 1]);
        Bounds {
            min: Vector3 {
                x: if b.min.x > ob.min.x {
                    ob.min.x
                } else {
                    b.min.x
                },
                y: if b.min.y > ob.min.y {
                    ob.min.y
                } else {
                    b.min.y
                },
                z: if b.min.z > ob.min.z {
                    ob.min.z
                } else {
                    b.min.z
                },
            },
            max: Vector3 {
                x: if b.max.x < ob.max.x {
                    ob.max.x
                } else {
                    b.max.x
                },
                y: if b.max.y < ob.max.y {
                    ob.max.y
                } else {
                    b.max.y
                },
                z: if b.max.z < ob.max.z {
                    ob.max.z
                } else {
                    b.max.z
                },
            },
        }
    }
}

/// The bounds of a context: the fold of its operations' bounds over the
/// sentinel empty box.
pub open spec fn ops_bounds(ops: Seq<OperationV>) -> Bounds {
    ops_bounds_upto(ops, ops.len() as int)
}

/// The instruction stream of the first `i` operations of a context: the
/// streams in declaration order, or the first failure.
pub open spec fn ops_spec_upto(
    ops: Seq<OperationV>,
    tool: Tool,
    units: Units,
    z_safe: i64,
    i: int,
) -> Result<Seq<InstrV>, CncError>
    decreases i,
    when i >= 0
{
    if i <= 0 {
        Ok(Seq::<InstrV>::empty())
    } else {
        match ops_spec_upto(ops, tool, units, z_safe, i - 1) {
            Err(e) => Err(e),
            Ok(s) => match op_spec(ops[i - 1], tool, units, z_safe) {
                Err(e) => Err(e),
                Ok(t) => Ok(s + t),
            },
        }
    }
}

/// The instruction stream of a whole context.
pub open spec fn ops_spec(ops: Seq<OperationV>, tool: Tool, units: Units, z_safe: i64) -> Result<
    Seq<InstrV>,
    CncError,
> {
    ops_spec_upto(ops, tool, units, z_safe, ops.len() as int)
}

/// Whether every operation of a sequence is inside the working range.
pub open spec fn ops_wf(ops: Seq<OperationV>) -> bool {
    forall|i: int| 0 <= i < ops.len() ==> #[trigger] op_wf(ops[i])
}

/// The state of one tool within a program: the tool, the travel heights,
/// and the operations declared against the tool, in order.
#[derive(Debug)]
pub struct InnerContext {
    units: Units,
    tool: Tool,
    z_safe: i64,
    z_tool_change: i64,
    operations: Vec<Operation>,
}

impl InnerContext {
    /// The units of the context, for contracts.
    pub closed spec fn spec_units(self) -> Units {
        self.units
    }

    /// The tool of the context, for contracts.
    pub closed spec fn spec_tool(self) -> Tool {
        self.tool
    }

    /// The safe travel height, for contracts.
    pub closed spec fn spec_z_safe(self) -> i64 {
        self.z_safe
    }

    /// The tool-change height, for contracts.
    pub closed spec fn spec_z_tool_change(self) -> i64 {
        self.z_tool_change
    }

    /// The declared operations, for contracts.
    pub closed spec fn spec_operations(self) -> Seq<OperationV> {
        self.operations.deep_view()
    }

    /// Whether the context's tool and heights are inside the working range.
    pub open spec fn wf(self) -> bool {
        self.spec_tool().wf() && coord_ok(self.spec_z_safe() as int) && coord_ok(
            self.spec_z_tool_change() as int,
        )
    }

    /// A new, empty context for a tool.
    pub fn new(units: Units, tool: &Tool, z_safe: i64, z_tool_change: i64) -> (c: InnerContext)
        ensures
            c.spec_units() == units,
            c.spec_tool() == *tool,
            c.spec_z_safe() == z_safe,
            c.spec_z_tool_change() == z_tool_change,
            c.spec_operations() == Seq::<OperationV>::empty(),
    {
        let c = InnerContext { units, tool: *tool, z_safe, z_tool_change, operations: Vec::new() };
        proof {
            assert(c.spec_operations() =~= Seq::<OperationV>::empty());
        }
        c
    }

    /// Applies the operations of another context to this one: the
    /// operations are appended in order and the travel heights of the other
    /// context are adopted.  Fails when the units or the tools differ.
    pub fn merge(&mut self, context: InnerContext) -> (r: Result<(), CncError>)
        ensures
            old(self).spec_units() != context.spec_units() ==> r == Err::<(), CncError>(
                CncError::UnitsMismatch,
            ) && *final(self) == *old(self),
            old(self).spec_units() == context.spec_units() && old(self).spec_tool()
                != context.spec_tool() ==> r == Err::<(), CncError>(CncError::ToolMismatch)
                && *final(self) == *old(self),
            old(self).spec_units() == context.spec_units() && old(self).spec_tool()
                == context.spec_tool() ==> r == Ok::<(), CncError>(()) && {
                &&& final(self).spec_units() == old(self).spec_units()
                &&& final(self).spec_tool() == old(self).spec_tool()
                &&& final(self).spec_z_safe() == context.spec_z_safe()
                &&& final(self).spec_z_tool_change() == context.spec_z_tool_change()
                &&& final(self).spec_operations() == old(self).spec_operations()
                    + context.spec_operations()
            },
    {
        if !(self.units == context.units) {
            return Err(CncError::UnitsMismatch);
        }
        if !(self.tool == context.tool) {
            return Err(CncError::ToolMismatch);
        }
        self.z_safe = context.z_safe;
        self.z_tool_change = context.z_tool_change;
        let mut other = context.operations;
        self.operations.append(&mut other);
        proof {
            assert(self.spec_operations() =~= old(self).spec_operations()
                + context.spec_operations());
        }
        Ok(())
    }

    /// Adopts the travel heights of another context and appends copies of
    /// its operations, in order.
    pub fn adopt_from(&mut self, src: &InnerContext)
        ensures
            final(self).spec_units() == old(self).spec_units(),
            final(self).spec_tool() == old(self).spec_tool(),
            final(self).spec_z_safe() == src.spec_z_safe(),
            final(self).spec_z_tool_change() == src.spec_z_tool_change(),
            final(self).spec_operations() == old(self).spec_operations()
                + src.spec_operations(),
    {
        self.z_safe = src.z_safe;
        self.z_tool_change = src.z_tool_change;
        let n = src.operations.len();
        let mut i: usize = 0;
        proof {
            assert(self.spec_operations() =~= old(self).spec_operations()
                + src.spec_operations().take(0));
        }
        while i < n
            invariant
                0 <= i <= n,
                n == src.operations@.len(),
                self.spec_units() == old(self).spec_units(),
                self.spec_tool() == old(self).spec_tool(),
                self.spec_z_safe() == src.spec_z_safe(),
                self.spec_z_tool_change() == src.spec_z_tool_change(),
                self.spec_operations() == old(self).spec_operations()
                    + src.spec_operations().take(i as int),
            decreases n - i,
        {
            let ghost prev = self.spec_operations();
            self.operations.push(src.operations[i].duplicate());
            proof {
                assert(self.spec_operations() =~= prev.push(
                    src.spec_operations()[i as int],
                ));
                assert(old(self).spec_operations() + src.spec_operations().take(i as int + 1)
                    =~= prev.push(src.spec_operations()[i as int]));
            }
            i += 1;
        }
        proof {
            assert(src.spec_operations().take(n as int) =~= src.spec_operations());
        }
    }

    /// Appends an operation.
    pub fn append(&mut self, operation: Operation)
        ensures
            final(self).spec_operations() == old(self).spec_operations().push(
                operation.deep_view(),
            ),
            final(self).spec_units() == old(self).spec_units(),
            final(self).spec_tool() == old(self).spec_tool(),
            final(self).spec_z_safe() == old(self).spec_z_safe(),
            final(self).spec_z_tool_change() == old(self).spec_z_tool_change(),
    {
        self.operations.push(operation);
        proof {
            assert(self.spec_operations() =~= old(self).spec_operations().push(
                self.operations@[self.operations@.len() - 1].deep_view(),
            ));
        }
    }

    /// Appends a cut operation.
    pub fn append_cut(&mut self, cut: Cut)
        ensures
            final(self).spec_operations() == old(self).spec_operations().push(
                OperationV::Cut(cut.deep_view()),
            ),
            final(self).spec_units() == old(self).spec_units(),
            final(self).spec_tool() == old(self).spec_tool(),
            final(self).spec_z_safe() == old(self).spec_z_safe(),
            final(self).spec_z_tool_change() == old(self).spec_z_tool_change(),
    {
        self.append(Operation::Cut(cut));
    }

    /// The units of the context.
    pub fn units(&self) -> (u: Units)
        ensures
            u == self.spec_units(),
    {
        self.units
    }

    /// The tool of the context.
    pub fn tool(&self) -> (t: Tool)
        ensures
            t == self.spec_tool(),
    {
        self.tool
    }

    /// The height above which the tool can travel freely in x and y.
    pub fn z_safe(&self) -> (z: i64)
        ensures
            z == self.spec_z_safe(),
    {
        self.z_safe
    }

    /// The height used for manual tool changes.
    pub fn z_tool_change(&self) -> (z: i64)
        ensures
            z == self.spec_z_tool_change(),
    {
        self.z_tool_change
    }

    /// The operations of the context, in declaration order.
    pub fn operations(&self) -> (r: &Vec<Operation>)
        ensures
            r.deep_view() == self.spec_operations(),
    {
        &self.operations
    }

    /// The bounds of the context: the fold of its operations' bounds, per
    /// [`ops_bounds`].
    pub fn bounds(&self) -> (b: Bounds)
        requires
            ops_wf(self.spec_operations()),
        ensures
            b == ops_bounds(self.spec_operations()),
    {
        let mut bounds = Bounds::minmax();
        let n = self.operations.len();
        let mut i: usize = 0;
        while i < n
            invariant
                0 <= i <= n,
                n == self.operations@.len(),
                self.spec_operations() == self.operations.deep_view(),
                ops_wf(self.spec_operations()),
                bounds == ops_bounds_upto(self.spec_operations(), i as int),
            decreases n - i,
        {
            proof {
                assert(op_wf(self.spec_operations()[i as int]));
                assert(self.spec_operations()[i as int] == self.operations@[i as int].deep_view());
            }
            let operation_bounds = self.operations[i].bounds();
            bounds.min.x = if bounds.min.x > operation_bounds.min.x {
                operation_bounds.min.x
            } else {
                bounds.min.x
            };
            bounds.min.y = if bounds.min.y > operation_bounds.min.y {
                operation_bounds.min.y
            } else {
                bounds.min.y
            };
            bounds.min.z = if bounds.min.z > operation_bounds.min.z {
                operation_bounds.min.z
            } else {
                bounds.min.z
            };
            bounds.max.x = if bounds.max.x < operation_bounds.max.x {
                operation_bounds.max.x
            } else {
                bounds.max.x
            };
            bounds.max.y = if bounds.max.y < operation_bounds.max.y {
                operation_bounds.max.y
            } else {
                bounds.max.y
            };
            bounds.max.z = if bounds.max.z < operation_bounds.max.z {
                operation_bounds.max.z
            } else {
                bounds.max.z
            };
            i += 1;
        }
        bounds
    }

    /// The context compiled to instructions: the operations' streams in
    /// declaration order, or the first failure, per [`ops_spec`].  The tool
    /// must be at least two ten-thousandths of a unit wide, so that raster
    /// pass spacing stays positive.
    #[verifier::rlimit(100)]
    pub fn to_instructions(&self) -> (r: Result<Vec<Instruction>, CncError>)
        requires
            self.wf(),
            ops_wf(self.spec_operations()),
            self.spec_tool().spec_diameter() >= 2,
        ensures
            result_view(r) == ops_spec(
                self.spec_operations(),
                self.spec_tool(),
                self.spec_units(),
                self.spec_z_safe(),
            ),
    {
        let mut instructions: Vec<Instruction> = Vec::new();
        let n = self.operations.len();
        let mut i: usize = 0;
        proof {
            assert(instructions.deep_view() =~= Seq::<InstrV>::empty());
        }
        while i < n
            invariant
                0 <= i <= n,
                n == self.operations@.len(),
                self.wf(),
                ops_wf(self.spec_operations()),
                self.spec_tool().spec_diameter() >= 2,
                self.spec_operations() == self.operations.deep_view(),
                ops_spec_upto(
                    self.spec_operations(),
                    self.spec_tool(),
                    self.spec_units(),
                    self.spec_z_safe(),
                    i as int,
                ) == Ok::<Seq<InstrV>, CncError>(instructions.deep_view()),
            decreases n - i,
        {
            proof {
                assert(op_wf(self.spec_operations()[i as int]));
                assert(self.spec_operations()[i as int] == self.operations@[i as int].deep_view());
            }
            let mut more = match self.operations[i].to_instructions(self) {
                Ok(v) => v,
                Err(e) => {
                    proof {
                        assert(ops_spec(
                            self.spec_operations(),
                            self.spec_tool(),
                            self.spec_units(),
                            self.spec_z_safe(),
                        ) == Err::<Seq<InstrV>, CncError>(e)) by {
                            lemma_ops_spec_error(
                                self.spec_operations(),
                                self.spec_tool(),
                                self.spec_units(),
                                self.spec_z_safe(),
                                i as int,
                            );
                        }
                    }
                    return Err(e);
                },
            };
            let ghost s_prev = instructions.deep_view();
            let ghost t = more.deep_view();
            instructions.append(&mut more);
            proof {
                assert(instructions.deep_view() =~= s_prev + t);
                assert(ops_spec_upto(
                    self.spec_operations(),
                    self.spec_tool(),
                    self.spec_units(),
                    self.spec_z_safe(),
                    i as int + 1,
                ) == Ok::<Seq<InstrV>, CncError>(s_prev + t));
            }
            i += 1;
        }
        Ok(instructions)
    }
}

/// An error at step `i` of a context's stream makes the whole stream fail
/// with it.
proof fn lemma_ops_spec_error(ops: Seq<OperationV>, tool: Tool, units: Units, z_safe: i64, i: int)
    requires
        0 <= i < ops.len(),
        ops_spec_upto(ops, tool, units, z_safe, i) is Ok,
        op_spec(ops[i], tool, units, z_safe) is Err,
    ensures
        ops_spec(ops, tool, units, z_safe) == Err::<Seq<InstrV>, CncError>(
            op_spec(ops[i], tool, units, z_safe)->Err_0,
        ),
    decreases ops.len() - i,
{
    assert(ops_spec_upto(ops, tool, units, z_safe, i + 1) is Err);
    lemma_ops_spec_error_propagates(ops, tool, units, z_safe, i + 1, ops.len() as int);
}

/// A failing prefix keeps failing as the prefix grows.
proof fn lemma_ops_spec_error_propagates(
    ops: Seq<OperationV>,
    tool: Tool,
    units: Units,
    z_safe: i64,
    i: int,
    j: int,
)
    requires
        0 <= i <= j <= ops.len(),
        ops_spec_upto(ops, tool, units, z_safe, i) is Err,
    ensures
        ops_spec_upto(ops, tool, units, z_safe, j) == ops_spec_upto(ops, tool, units, z_safe, i),
    decreases j - i,
{
    if i < j {
        lemma_ops_spec_error_propagates(ops, tool, units, z_safe, i, j - 1);
    }
}


/// The mathematical shape of one per-tool context.
pub struct CtxV {
    /// The units of the context.
    pub units: Units,
    /// The tool the context is bound to.
    pub tool: Tool,
    /// The safe travel height.
    pub z_safe: i64,
    /// The tool-change height.
    pub z_tool_change: i64,
    /// The declared operations, in order.
    pub operations: Seq<OperationV>,
}

/// The shape of a context.
pub open spec fn cv(c: InnerContext) -> CtxV {
    CtxV {
        units: c.spec_units(),
        tool: c.spec_tool(),
        z_safe: c.spec_z_safe(),
        z_tool_change: c.spec_z_tool_change(),
        operations: c.spec_operations(),
    }
}

/// The shapes of a list of contexts.
pub open spec fn cvs(s: Seq<InnerContext>) -> Seq<CtxV> {
    Seq::new(s.len(), |i: int| cv(s[i]))
}

/// The mathematical shape of the program metadata.
pub struct MetaV {
    /// The program name.
    pub name: Seq<char>,
    /// Free-text description lines.
    pub description: Seq<Seq<char>>,
    /// The creation time, as text.
    pub created_on: Seq<char>,
    /// The creating user and host, as `user@host`.
    pub created_by: Seq<char>,
    /// The generating command, as text.
    pub generator: Seq<char>,
}

/// Program metadata, used only for the header comments.
#[derive(Debug)]
struct ProgramMeta {
    name: String,
    description: Vec<String>,
    created_on: String,
    created_by: String,
    generator: String,
}

impl View for ProgramMeta {
    type V = MetaV;

    closed spec fn view(&self) -> MetaV {
        MetaV {
            name: self.name@,
            description: self.description.deep_view(),
            created_on: self.created_on@,
            created_by: self.created_by@,
            generator: self.generator@,
        }
    }
}

/// The description comment lines for the first `i` description entries.
pub open spec fn desc_lines(desc: Seq<Seq<char>>, i: int) -> Seq<InstrV>
    decreases i,
    when i >= 0
{
    if i <= 0 {
        Seq::<InstrV>::empty()
    } else {
        desc_lines(desc, i - 1) + seq![
            InstrV::Comment { text: "Description: "@ + desc[i - 1] },
        ]
    }
}

/// The header comment lines of a program: name, creation time, creator,
/// generator, then one line per description entry.
pub open spec fn meta_lines(m: MetaV) -> Seq<InstrV> {
    seq![
        InstrV::Comment { text: "Name: "@ + m.name },
        InstrV::Comment { text: "Created on: "@ + m.created_on },
        InstrV::Comment { text: "Created by: "@ + m.created_by },
        InstrV::Comment { text: "Generator: "@ + m.generator },
    ] + desc_lines(m.description, m.description.len() as int)
}

impl ProgramMeta {
    /// The header comment lines, per [`meta_lines`].
    fn to_instructions(&self) -> (r: Vec<Instruction>)
        ensures
            r.deep_view() == meta_lines(self@),
    {
        let mut r: Vec<Instruction> = Vec::new();
        let mut text = String::from_str("Name: ");
        text.append(self.name.as_str());
        r.push(Instruction::Comment(Comment { text }));
        let mut text = String::from_str("Created on: ");
        text.append(self.created_on.as_str());
        r.push(Instruction::Comment(Comment { text }));
        let mut text = String::from_str("Created by: ");
        text.append(self.created_by.as_str());
        r.push(Instruction::Comment(Comment { text }));
        let mut text = String::from_str("Generator: ");
        text.append(self.generator.as_str());
        r.push(Instruction::Comment(Comment { text }));
        let ghost head = r.deep_view();
        proof {
            assert(head =~= seq![
                InstrV::Comment { text: "Name: "@ + self.name@ },
                InstrV::Comment { text: "Created on: "@ + self.created_on@ },
                InstrV::Comment { text: "Created by: "@ + self.created_by@ },
                InstrV::Comment { text: "Generator: "@ + self.generator@ },
            ]);
            assert(head + desc_lines(self@.description, 0) =~= head);
        }
        let n = self.description.len();
        let mut i: usize = 0;
        while i < n
            invariant
                0 <= i <= n,
                n == self.description@.len(),
                self@.description == self.description.deep_view(),
                r.deep_view() == head + desc_lines(self@.description, i as int),
                head == seq![
                    InstrV::Comment { text: "Name: "@ + self@.name },
                    InstrV::Comment { text: "Created on: "@ + self@.created_on },
                    InstrV::Comment { text: "Created by: "@ + self@.created_by },
                    InstrV::Comment { text: "Generator: "@ + self@.generator },
                ],
            decreases n - i,
        {
            let ghost prev = r.deep_view();
            let mut text = String::from_str("Description: ");
            text.append(self.description[i].as_str());
            r.push(Instruction::Comment(Comment { text }));
            proof {
                assert(r.deep_view() =~= prev + seq![
                    InstrV::Comment { text: "Description: "@ + self@.description[i as int] },
                ]);
                vstd::seq_lib::lemma_concat_associative(
                    head,
                    desc_lines(self@.description, i as int),
                    seq![InstrV::Comment { text: "Description: "@ + self@.description[i as int] }],
                );
            }
            i += 1;
        }
        r
    }
}

/// The mathematical shape of a whole program.
pub struct ProgramV {
    /// The safe travel height.
    pub z_safe: i64,
    /// The tool-change height.
    pub z_tool_change: i64,
    /// The units of the program.
    pub units: Units,
    /// The header metadata.
    pub meta: MetaV,
    /// The per-tool contexts, in creation order.
    pub contexts: Seq<CtxV>,
    /// The tools recorded by the ordering, in first-use order with repeats.
    pub tools: Seq<Tool>,
    /// The merged tool-ordering table.
    pub ordering: Seq<(Tool, u8)>,
    /// The explicit tool-ordering table.
    pub explicit: Seq<(Tool, u8)>,
}

/// The index of the first context bound to a tool, from `i` on.
pub open spec fn ctxv_find_from(s: Seq<CtxV>, t: Tool, i: int) -> Option<int>
    decreases s.len() - i,
    when 0 <= i <= s.len()
{
    if i >= s.len() {
        None
    } else if s[i].tool == t {
        Some(i)
    } else {
        ctxv_find_from(s, t, i + 1)
    }
}

/// The index of the first context bound to a tool, if any.
pub open spec fn ctxv_find(s: Seq<CtxV>, t: Tool) -> Option<int> {
    ctxv_find_from(s, t, 0)
}

/// A program with a context ensured for the tool: an existing one is kept;
/// otherwise an empty context joins at the end and the tool takes the lowest
/// free position of the ordering.
pub open spec fn ensure_ctx(p: ProgramV, t: Tool) -> ProgramV {
    match ctxv_find(p.contexts, t) {
        Some(_) => p,
        None => {
            let p1 = ProgramV {
                contexts: p.contexts.push(
                    CtxV {
                        units: p.units,
                        tool: t,
                        z_safe: p.z_safe,
                        z_tool_change: p.z_tool_change,
                        operations: Seq::<OperationV>::empty(),
                    },
                ),
                ..p
            };
            if crate::tools::lookup(p.ordering, t) is Some {
                p1
            } else {
                ProgramV {
                    tools: p1.tools.push(t),
                    ordering: p1.ordering.push(
                        (t, crate::tools::next_auto(p.ordering, p.explicit) as u8),
                    ),
                    ..p1
                }
            }
        },
    }
}

/// A program with an operation appended to the tool's context (created when
/// missing).
pub open spec fn append_op(p: ProgramV, t: Tool, o: OperationV) -> ProgramV {
    let p1 = ensure_ctx(p, t);
    match ctxv_find(p1.contexts, t) {
        Some(i) => ProgramV {
            contexts: p1.contexts.update(
                i,
                CtxV { operations: p1.contexts[i].operations.push(o), ..p1.contexts[i] },
            ),
            ..p1
        },
        None => p1,
    }
}

/// A program after adopting the contexts of another, tool by tool: each
/// source tool's context is created when missing, takes the source travel
/// heights, and receives the source operations in order.
pub open spec fn adopt(p: ProgramV, src: ProgramV, ts: Seq<Tool>, k: int) -> ProgramV
    decreases ts.len() - k,
    when 0 <= k <= ts.len()
{
    if k >= ts.len() {
        p
    } else {
        let t = ts[k];
        let p1 = ensure_ctx(p, t);
        let p2 = match ctxv_find(src.contexts, t) {
            None => p1,
            Some(si) => {
                match ctxv_find(p1.contexts, t) {
                    Some(di) => ProgramV {
                        contexts: p1.contexts.update(
                            di,
                            CtxV {
                                z_safe: src.contexts[si].z_safe,
                                z_tool_change: src.contexts[si].z_tool_change,
                                operations: p1.contexts[di].operations
                                    + src.contexts[si].operations,
                                ..p1.contexts[di]
                            },
                        ),
                        ..p1
                    },
                    None => p1,
                }
            },
        };
        adopt(p2, src, ts, k + 1)
    }
}

/// The smaller of two heights.
pub open spec fn min_i64v(a: i64, b: i64) -> i64 {
    if a < b {
        a
    } else {
        b
    }
}

/// The result of merging one program into another: a units mismatch fails;
/// otherwise the heights take the more conservative value and every source
/// context is adopted in tool order.
pub open spec fn merge_spec(a: ProgramV, b: ProgramV) -> Result<ProgramV, CncError> {
    if a.units != b.units {
        Err(CncError::UnitsMismatch)
    } else {
        let base = ProgramV {
            z_safe: min_i64v(a.z_safe, b.z_safe),
            z_tool_change: min_i64v(a.z_tool_change, b.z_tool_change),
            ..a
        };
        Ok(adopt(base, b, crate::tools::tools_ordered_spec(b.ordering), 0))
    }
}

/// The units-selection instruction.
pub open spec fn units_instr(u: Units) -> InstrV {
    match u {
        Units::Metric => InstrV::G21,
        Units::Imperial => InstrV::G20,
    }
}

/// The settle dwell after a spindle start: scaled linearly with the spindle
/// speed, from three seconds at standstill to twenty at fifty thousand
/// revolutions per minute, truncated to whole seconds.
pub open spec fn dwell_seconds(speed: int) -> int {
    3 + speed * 17 / 500_000_000
}

/// The tool-change block emitted before a tool's operations.
pub open spec fn tool_block(tool: Tool, number: u8, c: CtxV) -> Seq<InstrV> {
    seq![
        InstrV::Empty,
        InstrV::Comment { text: "Tool change: "@ + crate::tools::tool_description(tool) },
        units_instr(c.units),
        InstrV::G0 { x: None, y: None, z: Some(c.z_tool_change) },
        InstrV::M5,
        InstrV::M6 { t: number },
        InstrV::S { x: tool.spec_spindle_speed() as i64 },
        if tool.spec_direction() == crate::types::Direction::Clockwise {
            InstrV::M3
        } else {
            InstrV::M4
        },
        InstrV::G4 { p: dwell_seconds(tool.spec_spindle_speed()) as u64 },
    ]
}

/// The position a tool prints as in its tool-select code.
pub open spec fn block_number(ordering: Seq<(Tool, u8)>, t: Tool) -> u8 {
    match crate::tools::lookup(ordering, t) {
        Some(n) => n,
        None => 0,
    }
}

/// The tool-change blocks and operation streams of the first `i` tools, in
/// position order; a tool without a context, or with an empty one, is
/// skipped, and the first failing operation fails the whole stream.
pub open spec fn blocks_upto(
    ts: Seq<Tool>,
    contexts: Seq<CtxV>,
    ordering: Seq<(Tool, u8)>,
    i: int,
) -> Result<Seq<InstrV>, CncError>
    decreases i,
    when i >= 0
{
    if i <= 0 {
        Ok(Seq::<InstrV>::empty())
    } else {
        match blocks_upto(ts, contexts, ordering, i - 1) {
            Err(e) => Err(e),
            Ok(s) => match ctxv_find(contexts, ts[i - 1]) {
                None => Ok(s),
                Some(ci) => {
                    let c = contexts[ci];
                    if c.operations.len() == 0 {
                        Ok(s)
                    } else {
                        match ops_spec(c.operations, c.tool, c.units, c.z_safe) {
                            Err(e) => Err(e),
                            Ok(body) => Ok(
                                s + tool_block(ts[i - 1], block_number(ordering, ts[i - 1]), c)
                                    + body,
                            ),
                        }
                    }
                },
            },
        }
    }
}

/// The tool-change blocks and operation streams of all placed tools.
pub open spec fn tool_blocks(
    ts: Seq<Tool>,
    contexts: Seq<CtxV>,
    ordering: Seq<(Tool, u8)>,
) -> Result<Seq<InstrV>, CncError> {
    blocks_upto(ts, contexts, ordering, ts.len() as int)
}

/// A failing block prefix keeps failing as the prefix grows.
proof fn lemma_blocks_error_propagates(
    ts: Seq<Tool>,
    contexts: Seq<CtxV>,
    ordering: Seq<(Tool, u8)>,
    i: int,
    j: int,
)
    requires
        0 <= i <= j <= ts.len(),
        blocks_upto(ts, contexts, ordering, i) is Err,
    ensures
        blocks_upto(ts, contexts, ordering, j) == blocks_upto(ts, contexts, ordering, i),
    decreases j - i,
{
    if i < j {
        lemma_blocks_error_propagates(ts, contexts, ordering, i, j - 1);
    }
}

/// The bounds folded from the contexts of the tools from index `i` on.
pub open spec fn prog_bounds_from(ts: Seq<Tool>, contexts: Seq<CtxV>, i: int) -> Bounds
    decreases ts.len() - i,
    when 0 <= i <= ts.len()
{
    if i >= ts.len() {
        Bounds {
            min: Vector3 { x: i64::MAX, y: i64::MAX, z: i64::MAX },
            max: Vector3 { x: i64::MIN, y: i64::MIN, z: i64::MIN },
        }
    } else {
        let rest = prog_bounds_from(ts, contexts, i + 1);
        match ctxv_find(contexts, ts[i]) {
            None => rest,
            Some(ci) => {
                let cb = ops_bounds(contexts[ci].operations);
                Bounds {
                    min: Vector3 {
                        x: if rest.min.x > cb.min.x {
                            cb.min.x
                        } else {
                            rest.min.x
                        },
                        y: if rest.min.y > cb.min.y {
                            cb.min.y
                        } else {
                            rest.min.y
                        },
                        z: if rest.min.z > cb.min.z {
                            cb.min.z
                        } else {
                            rest.min.z
                        },
                    },
                    max: Vector3 {
                        x: if rest.max.x < cb.max.x {
                            cb.max.x
                        } else {
                            rest.max.x
                        },
                        y: if rest.max.y < cb.max.y {
                            cb.max.y
                        } else {
                            rest.max.y
                        },
                        z: if rest.max.z < cb.max.z {
                            cb.max.z
                        } else {
                            rest.max.z
                        },
                    },
                }
            },
        }
    }
}

/// The bounds of a whole program: the fold of every placed tool's context
/// bounds.
pub open spec fn program_bounds(p: ProgramV) -> Bounds {
    prog_bounds_from(crate::tools::tools_ordered_spec(p.ordering), p.contexts, 0)
}

/// A number in the work-area summary: the sentinel corners of an empty
/// program print as zero.
pub open spec fn wa_num(v: int) -> Seq<char> {
    if v == i64::MAX || v == i64::MIN {
        "0"@
    } else {
        crate::text::num_str(v)
    }
}

/// The work-area summary comment for given bounds and heights.
pub open spec fn workarea_text_of(b: Bounds, z_safe: i64, z_tool_change: i64, units: Units) -> Seq<
    char,
> {
    let u = crate::types::units_label(units);
    let size_x = crate::types::sat_sub(b.max.x as int, b.min.x as int);
    let size_y = crate::types::sat_sub(b.max.y as int, b.min.y as int);
    let size_z = crate::types::sat_sub(b.max.z as int, b.min.z as int);
    "Workarea: size_x = "@ + wa_num(size_x) + " "@ + u + ", size_y = "@ + wa_num(size_y) + " "@ + u
        + ", size_z = "@ + wa_num(size_z) + " "@ + u + ", min_x = "@ + wa_num(b.min.x as int)
        + " "@ + u + ", min_y = "@ + wa_num(b.min.y as int) + " "@ + u + ", max_z = "@ + wa_num(
        b.max.z as int,
    ) + " "@ + u + ", z_safe = "@ + wa_num(z_safe as int) + " "@ + u + ", z_tool_change = "@
        + wa_num(z_tool_change as int) + " "@ + u
}

/// The work-area summary comment of a program.
pub open spec fn workarea_text(p: ProgramV) -> Seq<char> {
    workarea_text_of(program_bounds(p), p.z_safe, p.z_tool_change, p.units)
}

/// Renders the work-area summary comment.
fn workarea_string(b: Bounds, z_safe: i64, z_tool_change: i64, units: Units) -> (s: String)
    ensures
        s@ == workarea_text_of(b, z_safe, z_tool_change, units),
{
    let size = b.size();
    let mut text = String::from_str("Workarea: size_x = ");
    text.append(wa_string(size.x).as_str());
    text.append(" ");
    text.append(units.label());
    text.append(", size_y = ");
    text.append(wa_string(size.y).as_str());
    text.append(" ");
    text.append(units.label());
    text.append(", size_z = ");
    text.append(wa_string(size.z).as_str());
    text.append(" ");
    text.append(units.label());
    text.append(", min_x = ");
    text.append(wa_string(b.min.x).as_str());
    text.append(" ");
    text.append(units.label());
    text.append(", min_y = ");
    text.append(wa_string(b.min.y).as_str());
    text.append(" ");
    text.append(units.label());
    text.append(", max_z = ");
    text.append(wa_string(b.max.z).as_str());
    text.append(" ");
    text.append(units.label());
    text.append(", z_safe = ");
    text.append(wa_string(z_safe).as_str());
    text.append(" ");
    text.append(units.label());
    text.append(", z_tool_change = ");
    text.append(wa_string(z_tool_change).as_str());
    text.append(" ");
    text.append(units.label());
    text
}

/// A number of the work-area summary as text, per [`wa_num`].
fn wa_string(v: i64) -> (s: String)
    ensures
        s@ == wa_num(v as int),
{
    if v == i64::MAX || v == i64::MIN {
        let s = String::from_str("0");
        proof {
            reveal_strlit("0");
        }
        s
    } else {
        crate::text::format_num(v)
    }
}

/// The raw (pre-deduplication) instruction stream of a program, or its
/// failure.
///
/// A tool-change height under the safe height fails, as does a safe height
/// under the tallest workpiece feature.  Otherwise: the header comments, the
/// work-area summary, a blank line, the plane selection, one tool-change
/// block and operation stream per placed tool with a non-empty context, in
/// position order, and the closing retract and program end.
pub open spec fn program_raw(p: ProgramV) -> Result<Seq<InstrV>, CncError> {
    let b = program_bounds(p);
    if p.z_tool_change < p.z_safe {
        Err(
            CncError::ToolChangeBelowSafe {
                z_tool_change: p.z_tool_change,
                z_safe: p.z_safe,
                units: p.units,
            },
        )
    } else if p.z_safe < b.max.z {
        Err(CncError::SafeBelowWork { z_safe: p.z_safe, max_z: b.max.z, units: p.units })
    } else {
        match tool_blocks(crate::tools::tools_ordered_spec(p.ordering), p.contexts, p.ordering) {
            Err(e) => Err(e),
            Ok(blocks) => Ok(
                meta_lines(p.meta) + seq![
                    InstrV::Comment { text: workarea_text(p) },
                    InstrV::Empty,
                    InstrV::G17,
                ] + blocks + seq![
                    InstrV::G0 { x: None, y: None, z: Some(p.z_tool_change) },
                    InstrV::Empty,
                    InstrV::M2,
                ],
            ),
        }
    }
}

/// Whether an instruction selects a plane.
pub open spec fn is_plane(x: InstrV) -> bool {
    x is G17 || x is G18 || x is G19
}

/// The deduplicated stream from index `i` on, with `wp` the active
/// plane-select instruction.  A plane-select equal to the active one is
/// dropped; any instruction whose text equals its successor's is dropped, so
/// the last of a textual run is kept.
pub open spec fn dedup_from(s: Seq<InstrV>, i: int, wp: InstrV) -> Seq<InstrV>
    decreases s.len() - i,
    when 0 <= i <= s.len()
{
    if i >= s.len() {
        Seq::<InstrV>::empty()
    } else {
        let x = s[i];
        if is_plane(x) && x == wp {
            dedup_from(s, i + 1, wp)
        } else {
            let wp2 = if is_plane(x) {
                x
            } else {
                wp
            };
            if i + 1 < s.len() && crate::instructions::gcode(x) == crate::instructions::gcode(
                s[i + 1],
            ) {
                dedup_from(s, i + 1, wp2)
            } else {
                seq![x] + dedup_from(s, i + 1, wp2)
            }
        }
    }
}

/// The deduplicated form of a raw instruction stream.
pub open spec fn dedup_spec(s: Seq<InstrV>) -> Seq<InstrV> {
    dedup_from(s, 0, InstrV::Empty)
}

/// The compiled instruction stream of a program: the raw stream with
/// redundant lines removed, or the raw stream's failure.
pub open spec fn program_spec(p: ProgramV) -> Result<Seq<InstrV>, CncError> {
    match program_raw(p) {
        Err(e) => Err(e),
        Ok(raw) => Ok(dedup_spec(raw)),
    }
}

/// The lines after the first, each preceded by a line break.
pub open spec fn rest_lines(s: Seq<InstrV>, i: int) -> Seq<char>
    decreases s.len() - i,
    when 0 <= i <= s.len()
{
    if i >= s.len() {
        Seq::<char>::empty()
    } else {
        seq!['\n'] + crate::instructions::gcode(s[i]) + rest_lines(s, i + 1)
    }
}

/// An instruction stream as machine-code text: one line per instruction.
pub open spec fn gcode_text(s: Seq<InstrV>) -> Seq<char> {
    if s.len() == 0 {
        Seq::<char>::empty()
    } else {
        crate::instructions::gcode(s[0]) + rest_lines(s, 1)
    }
}

/// The plane-select instruction a dedup state code stands for.
pub open spec fn wp_of(c: u8) -> InstrV {
    if c == 17 {
        InstrV::G17
    } else if c == 18 {
        InstrV::G18
    } else if c == 19 {
        InstrV::G19
    } else {
        InstrV::Empty
    }
}

/// A copy of an instruction.
fn dup_instruction(x: &Instruction) -> (r: Instruction)
    ensures
        r.deep_view() == x.deep_view(),
{
    match x {
        Instruction::G0(c) => Instruction::G0(G0 { x: c.x, y: c.y, z: c.z }),
        Instruction::G1(c) => Instruction::G1(G1 { x: c.x, y: c.y, z: c.z, f: c.f }),
        Instruction::G2(c) => Instruction::G2(
            G2 { x: c.x, y: c.y, z: c.z, i: c.i, j: c.j, k: c.k, r: c.r, p: c.p, f: c.f },
        ),
        Instruction::G3(c) => Instruction::G3(
            G3 { x: c.x, y: c.y, z: c.z, i: c.i, j: c.j, k: c.k, r: c.r, p: c.p, f: c.f },
        ),
        Instruction::G4(c) => Instruction::G4(G4 { p: c.p }),
        Instruction::G17(_) => Instruction::G17(crate::instructions::G17 {}),
        Instruction::G18(_) => Instruction::G18(crate::instructions::G18 {}),
        Instruction::G19(_) => Instruction::G19(crate::instructions::G19 {}),
        Instruction::G20(_) => Instruction::G20(crate::instructions::G20 {}),
        Instruction::G21(_) => Instruction::G21(crate::instructions::G21 {}),
        Instruction::G43(c) => Instruction::G43(crate::instructions::G43 { h: c.h }),
        Instruction::F(c) => Instruction::F(crate::instructions::F { x: c.x }),
        Instruction::S(c) => Instruction::S(crate::instructions::S { x: c.x }),
        Instruction::M0(_) => Instruction::M0(crate::instructions::M0 {}),
        Instruction::M2(_) => Instruction::M2(crate::instructions::M2 {}),
        Instruction::M3(_) => Instruction::M3(crate::instructions::M3 {}),
        Instruction::M4(_) => Instruction::M4(crate::instructions::M4 {}),
        Instruction::M5(_) => Instruction::M5(crate::instructions::M5 {}),
        Instruction::M6(c) => Instruction::M6(crate::instructions::M6 { t: c.t }),
        Instruction::Empty(_) => Instruction::Empty(Empty {}),
        Instruction::Comment(c) => Instruction::Comment(Comment { text: c.text.clone() }),
        Instruction::Message(c) => Instruction::Message(Message { text: c.text.clone() }),
    }
}

/// Removes the redundant lines of a raw stream, per [`dedup_spec`]: a
/// re-asserted plane selection is dropped, and of textually identical
/// neighbours only the last is kept.
fn dedup_instructions(raw: &Vec<Instruction>) -> (r: Vec<Instruction>)
    ensures
        r.deep_view() == dedup_spec(raw.deep_view()),
{
    let mut result: Vec<Instruction> = Vec::new();
    let n = raw.len();
    let mut i: usize = 0;
    let mut wp: u8 = 0;
    while i < n
        invariant
            0 <= i <= n,
            n == raw@.len(),
            wp == 0 || wp == 17 || wp == 18 || wp == 19,
            dedup_spec(raw.deep_view()) == result.deep_view() + dedup_from(
                raw.deep_view(),
                i as int,
                wp_of(wp),
            ),
        decreases n - i,
    {
        let x = &raw[i];
        let code: u8 = match x {
            Instruction::G17(_) => 17,
            Instruction::G18(_) => 18,
            Instruction::G19(_) => 19,
            _ => 0,
        };
        if code != 0 && code == wp {
            proof {
                assert(raw.deep_view()[i as int] == raw@[i as int].deep_view());
            }
            i += 1;
            continue ;
        }
        let wp2 = if code != 0 {
            code
        } else {
            wp
        };
        proof {
            assert(raw.deep_view()[i as int] == raw@[i as int].deep_view());
            assert(wp_of(wp2) == if is_plane(raw.deep_view()[i as int]) {
                raw.deep_view()[i as int]
            } else {
                wp_of(wp)
            });
        }
        if i + 1 < n && raw[i].to_gcode() == raw[i + 1].to_gcode() {
            proof {
                assert(raw.deep_view()[i as int + 1] == raw@[i as int + 1].deep_view());
            }
            wp = wp2;
            i += 1;
            continue ;
        }
        let ghost prev = result.deep_view();
        result.push(dup_instruction(&raw[i]));
        proof {
            assert(result.deep_view() =~= prev + seq![raw.deep_view()[i as int]]);
            if i as int + 1 < n {
                assert(raw.deep_view()[i as int + 1] == raw@[i as int + 1].deep_view());
            }
            vstd::seq_lib::lemma_concat_associative(
                prev,
                seq![raw.deep_view()[i as int]],
                dedup_from(raw.deep_view(), i as int + 1, wp_of(wp2)),
            );
        }
        wp = wp2;
        i += 1;
    }
    proof {
        assert(result.deep_view() + dedup_from(raw.deep_view(), n as int, wp_of(wp))
            =~= result.deep_view());
    }
    result
}

/// Joins an instruction stream into machine-code text, one line per
/// instruction, per [`gcode_text`].
fn join_gcode(instructions: &Vec<Instruction>) -> (r: String)
    ensures
        r@ == gcode_text(instructions.deep_view()),
{
    let mut r = String::new();
    let n = instructions.len();
    if n == 0 {
        proof {
            assert(r@ =~= gcode_text(instructions.deep_view()));
        }
        return r;
    }
    r.append(instructions[0].to_gcode().as_str());
    proof {
        assert(instructions.deep_view()[0] == instructions@[0].deep_view());
        assert(r@ =~= crate::instructions::gcode(instructions.deep_view()[0]));
    }
    let mut i: usize = 1;
    while i < n
        invariant
            1 <= i <= n,
            n == instructions@.len(),
            n > 0,
            gcode_text(instructions.deep_view()) == r@ + rest_lines(
                instructions.deep_view(),
                i as int,
            ),
        decreases n - i,
    {
        let ghost prev = r@;
        r.append("\n");
        r.append(instructions[i].to_gcode().as_str());
        proof {
            reveal_strlit("\n");
            assert("\n"@ =~= seq!['\n']);
            assert(instructions.deep_view()[i as int] == instructions@[i as int].deep_view());
            assert(r@ =~= prev + (seq!['\n'] + crate::instructions::gcode(
                instructions.deep_view()[i as int],
            )));
            vstd::seq_lib::lemma_concat_associative(
                prev,
                seq!['\n'] + crate::instructions::gcode(instructions.deep_view()[i as int]),
                rest_lines(instructions.deep_view(), i as int + 1),
            );
            assert(rest_lines(instructions.deep_view(), i as int) == (seq!['\n']
                + crate::instructions::gcode(instructions.deep_view()[i as int])) + rest_lines(
                instructions.deep_view(),
                i as int + 1,
            )) by {
                vstd::seq_lib::lemma_concat_associative(
                    seq!['\n'],
                    crate::instructions::gcode(instructions.deep_view()[i as int]),
                    rest_lines(instructions.deep_view(), i as int + 1),
                );
            }
        }
        i += 1;
    }
    proof {
        assert(rest_lines(instructions.deep_view(), n as int) =~= Seq::<char>::empty());
        assert(r@ + Seq::<char>::empty() =~= r@);
    }
    r
}

/// Whether every context of a program shape is usable: well-formed, bound
/// to the program's units, holding well-formed operations, with a tool wide
/// enough to raster.
pub open spec fn pv_wf(p: ProgramV) -> bool {
    &&& crate::types::coord_ok(p.z_safe as int)
    &&& crate::types::coord_ok(p.z_tool_change as int)
    &&& forall|i: int|
        0 <= i < p.contexts.len() ==> {
            let c = #[trigger] p.contexts[i];
            &&& crate::tools::tool_ok(c.tool)
            &&& c.units == p.units
            &&& crate::types::coord_ok(c.z_safe as int)
            &&& crate::types::coord_ok(c.z_tool_change as int)
            &&& ops_wf(c.operations)
        }
    &&& crate::tools::tools_ok(p.tools)
    &&& crate::tools::keys_ok(p.ordering)
    &&& crate::tools::keys_ok(p.explicit)
}

/// A compiled program: one context per tool, a tool-ordering table, the
/// travel heights, the units, and the header metadata.
#[derive(Debug)]
pub struct Program {
    z_safe: i64,
    z_tool_change: i64,
    meta: ProgramMeta,
    units: Units,
    contexts: Vec<InnerContext>,
    tool_ordering: crate::tools::ToolOrdering,
}

impl View for Program {
    type V = ProgramV;

    closed spec fn view(&self) -> ProgramV {
        ProgramV {
            z_safe: self.z_safe,
            z_tool_change: self.z_tool_change,
            units: self.units,
            meta: self.meta@,
            contexts: cvs(self.contexts@),
            tools: self.tool_ordering.spec_tools(),
            ordering: self.tool_ordering.spec_ordering(),
            explicit: self.tool_ordering.spec_explicit(),
        }
    }
}

impl Program {
    /// A new, empty program.  The name, creation time and creator identity
    /// are read from the machine; the generator is `unknown` until
    /// [`Program::set_generator`] replaces it.
    pub fn new(units: Units, z_safe: i64, z_tool_change: i64) -> (p: Program)
        requires
            crate::types::coord_ok(z_safe as int),
            crate::types::coord_ok(z_tool_change as int),
        ensures
            p@.units == units,
            p@.z_safe == z_safe,
            p@.z_tool_change == z_tool_change,
            p@.contexts == Seq::<CtxV>::empty(),
            p@.tools == Seq::<Tool>::empty(),
            p@.ordering == Seq::<(Tool, u8)>::empty(),
            p@.explicit == Seq::<(Tool, u8)>::empty(),
            p@.meta.generator == "unknown"@,
            pv_wf(p@),
    {
        let p = Program {
            z_safe,
            z_tool_change,
            meta: Self::fresh_meta(),
            units,
            contexts: Vec::new(),
            tool_ordering: crate::tools::ToolOrdering::new(),
        };
        proof {
            assert(p@.contexts =~= Seq::<CtxV>::empty());
            assert(crate::tools::tools_ok(p@.tools));
            assert(crate::tools::keys_ok(p@.ordering));
            assert(crate::tools::keys_ok(p@.explicit));
            assert(pv_wf(p@));
        }
        p
    }

    /// Fresh metadata from the machine.
    fn fresh_meta() -> (m: ProgramMeta)
        ensures
            m@.generator == "unknown"@,
    {
        let mut created_by = match crate::host::user_name() {
            Some(u) => u,
            None => String::from_str("unknown"),
        };
        created_by.append("@");
        let host = match crate::host::host_name() {
            Some(h) => h,
            None => String::from_str("unknown"),
        };
        created_by.append(host.as_str());
        ProgramMeta {
            name: crate::host::generated_name(),
            description: Vec::new(),
            created_on: crate::host::current_time_text(),
            created_by,
            generator: String::from_str("unknown"),
        }
    }

    /// A new, empty program with the same settings as the given one.
    pub fn new_empty_from(program: &Program) -> (p: Program)
        requires
            pv_wf(program@),
        ensures
            p@.units == program@.units,
            p@.z_safe == program@.z_safe,
            p@.z_tool_change == program@.z_tool_change,
            p@.contexts == Seq::<CtxV>::empty(),
            p@.tools == Seq::<Tool>::empty(),
            p@.ordering == Seq::<(Tool, u8)>::empty(),
            p@.explicit == Seq::<(Tool, u8)>::empty(),
            pv_wf(p@),
    {
        let p = Program {
            z_safe: program.z_safe,
            z_tool_change: program.z_tool_change,
            meta: Self::fresh_meta(),
            units: program.units,
            contexts: Vec::new(),
            tool_ordering: crate::tools::ToolOrdering::new(),
        };
        proof {
            assert(p@.contexts =~= Seq::<CtxV>::empty());
            assert(crate::tools::tools_ok(p@.tools));
            assert(crate::tools::keys_ok(p@.ordering));
            assert(crate::tools::keys_ok(p@.explicit));
        }
        p
    }

    /// Sets the program name.
    pub fn set_name(&mut self, name: &str)
        ensures
            final(self)@ == (ProgramV {
                meta: MetaV { name: name@, ..old(self)@.meta },
                ..old(self)@
            }),
    {
        self.meta.name = String::from_str(name);
    }

    /// The program name.
    pub fn name(&self) -> (r: &str)
        ensures
            r@ == self@.meta.name,
    {
        self.meta.name.as_str()
    }

    /// Sets the generator text of the header, normally the invoking command
    /// line.
    pub fn set_generator(&mut self, generator: &str)
        ensures
            final(self)@ == (ProgramV {
                meta: MetaV { generator: generator@, ..old(self)@.meta },
                ..old(self)@
            }),
    {
        self.meta.generator = String::from_str(generator);
    }

    /// Appends one description line to the header.
    pub fn add_description(&mut self, description: &str)
        ensures
            final(self)@ == (ProgramV {
                meta: MetaV {
                    description: old(self)@.meta.description.push(description@),
                    ..old(self)@.meta
                },
                ..old(self)@
            }),
    {
        self.meta.description.push(String::from_str(description));
        proof {
            assert(self.meta.description.deep_view() =~= old(
                self,
            ).meta.description.deep_view().push(description@));
        }
    }

    /// The description lines of the header.
    pub fn description(&self) -> (r: &Vec<String>)
        ensures
            r.deep_view() == self@.meta.description,
    {
        &self.meta.description
    }

    /// The height above which the tool can travel freely in x and y.
    pub fn z_safe(&self) -> (z: i64)
        ensures
            z == self@.z_safe,
    {
        self.z_safe
    }

    /// The height used for manual tool changes.
    pub fn z_tool_change(&self) -> (z: i64)
        ensures
            z == self@.z_tool_change,
    {
        self.z_tool_change
    }

    /// The position of a tool, or nothing if it has not been used.
    pub fn tool_ordering(&self, tool: &Tool) -> (r: Option<u8>)
        ensures
            r == crate::tools::lookup(self@.ordering, *tool),
    {
        self.tool_ordering.ordering(tool)
    }

    /// Assigns a position to a tool; see
    /// [`ToolOrdering::set_ordering`](crate::tools::ToolOrdering::set_ordering).
    pub fn set_tool_ordering(&mut self, tool: &Tool, ordering: u8)
        requires
            pv_wf(old(self)@),
            crate::tools::tool_ok(*tool),
        ensures
            pv_wf(final(self)@),
            ({
                let o = if ordering == 0 {
                    1 as u8
                } else {
                    ordering
                };
                let tools2 = old(self)@.tools.push(*tool);
                let expl2 = crate::tools::keep_explicit(
                    old(self)@.explicit,
                    old(self)@.explicit.len() as int,
                    *tool,
                    o,
                ).push((*tool, o));
                final(self)@ == (ProgramV {
                    tools: tools2,
                    explicit: expl2,
                    ordering: crate::tools::rebuilt(tools2, expl2),
                    ..old(self)@
                })
            }),
    {
        self.tool_ordering.set_ordering(tool, ordering);
        proof {
            let o = if ordering == 0 {
                1 as u8
            } else {
                ordering
            };
            let tools2 = old(self)@.tools.push(*tool);
            let expl2 = crate::tools::keep_explicit(
                old(self)@.explicit,
                old(self)@.explicit.len() as int,
                *tool,
                o,
            ).push((*tool, o));
            crate::tools::lemma_keep_explicit_ok(
                old(self)@.explicit,
                old(self)@.explicit.len() as int,
                *tool,
                o,
            );
            assert(crate::tools::keys_ok(expl2));
            assert(crate::tools::tools_ok(tools2));
            crate::tools::lemma_rebuild_ok(tools2, expl2, 0, expl2);
        }
    }

    /// Ensures a context exists for the tool, creating it (and placing the
    /// tool on the lowest free position) when missing.
    pub fn context(&mut self, tool: Tool)
        requires
            pv_wf(old(self)@),
            crate::tools::tool_ok(tool),
        ensures
            final(self)@ == ensure_ctx(old(self)@, tool),
            pv_wf(final(self)@),
    {
        if Self::find_context(&self.contexts, &tool).is_some() {
            return ;
        }
        let c = InnerContext::new(self.units, &tool, self.z_safe, self.z_tool_change);
        self.contexts.push(c);
        self.tool_ordering.auto_ordering(&tool);
        proof {
            assert(self@.contexts =~= old(self)@.contexts.push(cv(c)));
            assert(self@ == ensure_ctx(old(self)@, tool));
        }
    }

    /// The index of the tool's context, if one exists.
    fn find_context(contexts: &Vec<InnerContext>, tool: &Tool) -> (r: Option<usize>)
        ensures
            match r {
                Some(i) => ctxv_find(cvs(contexts@), *tool) == Some(i as int) && i < contexts@.len(),
                None => ctxv_find(cvs(contexts@), *tool) is None,
            },
    {
        let n = contexts.len();
        let mut i: usize = 0;
        while i < n
            invariant
                0 <= i <= n,
                n == contexts@.len(),
                ctxv_find(cvs(contexts@), *tool) == ctxv_find_from(cvs(contexts@), *tool, i as int),
            decreases n - i,
        {
            if contexts[i].tool() == *tool {
                return Some(i);
            }
            i += 1;
        }
        None
    }

    /// Appends an operation to the tool's context, creating the context when
    /// missing.
    pub fn append(&mut self, tool: Tool, operation: Operation)
        requires
            pv_wf(old(self)@),
            crate::tools::tool_ok(tool),
            op_wf(operation.deep_view()),
        ensures
            final(self)@ == append_op(old(self)@, tool, operation.deep_view()),
            pv_wf(final(self)@),
    {
        self.context(tool);
        let idx = match Self::find_context(&self.contexts, &tool) {
            Some(i) => i,
            None => {
                proof {
                    lemma_ensure_ctx_found(old(self)@, tool);
                }
                unreached()
            },
        };
        let ghost mid = self@;
        let ghost opv = operation.deep_view();
        let mut c = self.contexts.remove(idx);
        c.append(operation);
        self.contexts.insert(idx, c);
        proof {
            assert(self@.contexts =~= mid.contexts.update(
                idx as int,
                CtxV {
                    operations: mid.contexts[idx as int].operations.push(opv),
                    ..mid.contexts[idx as int]
                },
            ));
            assert(self@ == append_op(old(self)@, tool, opv));
        }
    }

    /// Appends a cut operation to the tool's context, creating the context
    /// when missing.
    pub fn append_cut(&mut self, tool: Tool, cut: Cut)
        requires
            pv_wf(old(self)@),
            crate::tools::tool_ok(tool),
            cut_wf(cut.deep_view()),
        ensures
            final(self)@ == append_op(old(self)@, tool, OperationV::Cut(cut.deep_view())),
            pv_wf(final(self)@),
    {
        self.append(tool, Operation::Cut(cut));
    }

    /// The tools that have positions, sorted by position.
    pub fn tools(&self) -> (r: Vec<Tool>)
        ensures
            r@ == crate::tools::tools_ordered_spec(self@.ordering),
    {
        self.tool_ordering.tools_ordered()
    }

    /// Merges another program into this one, per [`merge_spec`]: fails when
    /// the units differ; otherwise the heights take the more conservative
    /// value and every source context is adopted in tool order.
    pub fn merge(&mut self, program: &Program) -> (r: Result<(), CncError>)
        requires
            pv_wf(old(self)@),
            pv_wf(program@),
        ensures
            match r {
                Ok(()) => merge_spec(old(self)@, program@) == Ok::<ProgramV, CncError>(
                    final(self)@,
                ) && pv_wf(final(self)@),
                Err(e) => merge_spec(old(self)@, program@) == Err::<ProgramV, CncError>(e)
                    && *final(self) == *old(self),
            },
    {
        if !(self.units == program.units) {
            return Err(CncError::UnitsMismatch);
        }
        self.z_safe = if self.z_safe < program.z_safe {
            self.z_safe
        } else {
            program.z_safe
        };
        self.z_tool_change = if self.z_tool_change < program.z_tool_change {
            self.z_tool_change
        } else {
            program.z_tool_change
        };
        let ghost base = self@;
        let ghost srcv = program@;
        let ghost ts = crate::tools::tools_ordered_spec(program@.ordering);
        let src_tools = program.tool_ordering.tools_ordered();
        let m = src_tools.len();
        let mut k: usize = 0;
        while k < m
            invariant
                0 <= k <= m,
                m == ts.len(),
                src_tools@ == ts,
                srcv == program@,
                ts == crate::tools::tools_ordered_spec(srcv.ordering),
                pv_wf(srcv),
                pv_wf(self@),
                adopt(base, srcv, ts, 0) == adopt(self@, srcv, ts, k as int),
                self@.units == srcv.units,
            decreases m - k,
        {
            let tool = src_tools[k];
            proof {
                assert(crate::tools::keys_ok(srcv.ordering));
                crate::tools::lemma_tools_through_ok(srcv.ordering, 255);
                assert(crate::tools::tools_ok(ts));
                assert(crate::tools::tool_ok(ts[k as int]));
            }
            let ghost pre = self@;
            self.context(tool);
            let ghost p1 = self@;
            proof {
                assert(p1 == ensure_ctx(pre, tool));
            }
            match Self::find_context(&program.contexts, &tool) {
                None => {
                    proof {
                        assert(ctxv_find(srcv.contexts, tool) is None);
                        assert(adopt(pre, srcv, ts, k as int) == adopt(p1, srcv, ts, k as int + 1));
                    }
                },
                Some(si) => {
                    let di = match Self::find_context(&self.contexts, &tool) {
                        Some(i) => i,
                        None => {
                            proof {
                                lemma_ensure_ctx_found(pre, tool);
                            }
                            unreached()
                        },
                    };
                    let src_ctx = &program.contexts[si];
                    let mut c = self.contexts.remove(di);
                    c.adopt_from(src_ctx);
                    self.contexts.insert(di, c);
                    proof {
                        assert(cv(program.contexts@[si as int]) == srcv.contexts[si as int]);
                        let updated = CtxV {
                            z_safe: srcv.contexts[si as int].z_safe,
                            z_tool_change: srcv.contexts[si as int].z_tool_change,
                            operations: p1.contexts[di as int].operations
                                + srcv.contexts[si as int].operations,
                            ..p1.contexts[di as int]
                        };
                        assert(self@.contexts =~= p1.contexts.update(di as int, updated));
                        assert(self@ == (ProgramV {
                            contexts: p1.contexts.update(di as int, updated),
                            ..p1
                        }));
                        assert(adopt(pre, srcv, ts, k as int) == adopt(self@, srcv, ts, k as int
                            + 1));
                        assert(ops_wf(updated.operations)) by {
                            let a = p1.contexts[di as int].operations;
                            let b = srcv.contexts[si as int].operations;
                            assert(ops_wf(a));
                            assert(ops_wf(b));
                            assert forall|j: int| 0 <= j < (a + b).len() implies #[trigger] op_wf(
                                (a + b)[j],
                            ) by {
                                if j < a.len() {
                                    assert((a + b)[j] == a[j]);
                                } else {
                                    assert((a + b)[j] == b[j - a.len()]);
                                }
                            }
                        }
                        assert(pv_wf(self@)) by {
                            assert forall|i: int| 0 <= i < self@.contexts.len() implies {
                                let cc = #[trigger] self@.contexts[i];
                                &&& crate::tools::tool_ok(cc.tool)
                                &&& cc.units == self@.units
                                &&& crate::types::coord_ok(cc.z_safe as int)
                                &&& crate::types::coord_ok(cc.z_tool_change as int)
                                &&& ops_wf(cc.operations)
                            } by {
                                if i == di as int {
                                    assert(self@.contexts[i] == updated);
                                } else {
                                    assert(self@.contexts[i] == p1.contexts[i]);
                                }
                            }
                        }
                    }
                },
            }
            k += 1;
        }
        proof {
            assert(adopt(self@, srcv, ts, m as int) == self@);
        }
        Ok(())
    }

    /// The bounds of the program, per [`program_bounds`].
    pub fn bounds(&self) -> (b: Bounds)
        requires
            pv_wf(self@),
        ensures
            b == program_bounds(self@),
    {
        let tools = self.tools();
        let ghost ts = crate::tools::tools_ordered_spec(self@.ordering);
        let n = tools.len();
        let mut bounds = Bounds::minmax();
        let mut i: usize = n;
        while i > 0
            invariant
                0 <= i <= n,
                n == ts.len(),
                tools@ == ts,
                pv_wf(self@),
                bounds == prog_bounds_from(ts, self@.contexts, i as int),
            decreases i,
        {
            i -= 1;
            match Self::find_context(&self.contexts, &tools[i]) {
                None => {},
                Some(ci) => {
                    proof {
                        assert(cv(self.contexts@[ci as int]) == self@.contexts[ci as int]);
                    }
                    let cb = self.contexts[ci].bounds();
                    bounds = Bounds {
                        min: Vector3 {
                            x: if bounds.min.x > cb.min.x {
                                cb.min.x
                            } else {
                                bounds.min.x
                            },
                            y: if bounds.min.y > cb.min.y {
                                cb.min.y
                            } else {
                                bounds.min.y
                            },
                            z: if bounds.min.z > cb.min.z {
                                cb.min.z
                            } else {
                                bounds.min.z
                            },
                        },
                        max: Vector3 {
                            x: if bounds.max.x < cb.max.x {
                                cb.max.x
                            } else {
                                bounds.max.x
                            },
                            y: if bounds.max.y < cb.max.y {
                                cb.max.y
                            } else {
                                bounds.max.y
                            },
                            z: if bounds.max.z < cb.max.z {
                                cb.max.z
                            } else {
                                bounds.max.z
                            },
                        },
                    };
                },
            }
        }
        bounds
    }
}

/// Appends the tool-change block of one context.
fn push_tool_block(raw: &mut Vec<Instruction>, context: &InnerContext, number: u8)
    requires
        crate::tools::tool_ok(context.spec_tool()),
    ensures
        final(raw).deep_view() == old(raw).deep_view() + tool_block(
            context.spec_tool(),
            number,
            cv(*context),
        ),
{
    let ghost prev = raw.deep_view();
    raw.push(Instruction::Empty(Empty {}));
    let mut text = String::from_str("Tool change: ");
    text.append(context.tool().description().as_str());
    raw.push(Instruction::Comment(Comment { text }));
    match context.units() {
        Units::Metric => raw.push(Instruction::G21(crate::instructions::G21 {})),
        Units::Imperial => raw.push(Instruction::G20(crate::instructions::G20 {})),
    }
    raw.push(Instruction::G0(G0 { x: None, y: None, z: Some(context.z_tool_change()) }));
    raw.push(Instruction::M5(crate::instructions::M5 {}));
    raw.push(Instruction::M6(crate::instructions::M6 { t: number }));
    raw.push(Instruction::S(crate::instructions::S { x: context.tool().spindle_speed() }));
    if context.tool().direction() == crate::types::Direction::Clockwise {
        raw.push(Instruction::M3(crate::instructions::M3 {}));
    } else {
        raw.push(Instruction::M4(crate::instructions::M4 {}));
    }
    let sp = context.tool().spindle_speed();
    let dwell: u64 = (3 + sp * 17 / 500_000_000) as u64;
    raw.push(Instruction::G4(G4 { p: dwell }));
    proof {
        assert(raw.deep_view() =~= prev + tool_block(
            context.spec_tool(),
            number,
            cv(*context),
        ));
    }
}

impl Program {
    /// The program compiled to instructions, per [`program_spec`]: the raw
    /// stream of header, tool blocks and operations with its redundant lines
    /// removed, or the first failure.
    #[verifier::rlimit(100)]
    pub fn to_instructions(&self) -> (r: Result<Vec<Instruction>, CncError>)
        requires
            pv_wf(self@),
        ensures
            result_view(r) == program_spec(self@),
    {
        let tools = self.tools();
        let ghost ts = crate::tools::tools_ordered_spec(self@.ordering);
        let bounds = self.bounds();
        if self.z_tool_change < self.z_safe {
            return Err(
                CncError::ToolChangeBelowSafe {
                    z_tool_change: self.z_tool_change,
                    z_safe: self.z_safe,
                    units: self.units,
                },
            );
        }
        if self.z_safe < bounds.max.z {
            return Err(
                CncError::SafeBelowWork {
                    z_safe: self.z_safe,
                    max_z: bounds.max.z,
                    units: self.units,
                },
            );
        }

        let mut raw = self.meta.to_instructions();
        let ghost base0 = raw.deep_view();
        let text = workarea_string(bounds, self.z_safe, self.z_tool_change, self.units);
        proof {
            assert(text@ == workarea_text(self@));
        }
        raw.push(Instruction::Comment(Comment { text }));
        raw.push(Instruction::Empty(Empty {}));
        raw.push(Instruction::G17(crate::instructions::G17 {}));
        let ghost head = raw.deep_view();
        proof {
            assert(head =~= base0 + seq![
                InstrV::Comment { text: workarea_text(self@) },
                InstrV::Empty,
                InstrV::G17,
            ]);
        }

        let n = tools.len();
        let mut k: usize = 0;
        let ghost mut acc = Seq::<InstrV>::empty();
        proof {
            assert(raw.deep_view() =~= head + acc);
        }
        while k < n
            invariant
                0 <= k <= n,
                n == ts.len(),
                tools@ == ts,
                pv_wf(self@),
                ts == crate::tools::tools_ordered_spec(self@.ordering),
                self@.z_tool_change >= self@.z_safe,
                self@.z_safe >= program_bounds(self@).max.z,
                blocks_upto(ts, self@.contexts, self@.ordering, k as int) == Ok::<
                    Seq<InstrV>,
                    CncError,
                >(acc),
                raw.deep_view() == head + acc,
            decreases n - k,
        {
            let tool = tools[k];
            match Self::find_context(&self.contexts, &tool) {
                None => {},
                Some(ci) if self.contexts[ci].operations().len() == 0 => {
                    proof {
                        assert(cv(self.contexts@[ci as int]) == self@.contexts[ci as int]);
                    }
                },
                Some(ci) => {
                    proof {
                        lemma_ctxv_find_props(self@.contexts, tool, 0);
                        assert(cv(self.contexts@[ci as int]) == self@.contexts[ci as int]);
                        assert(crate::tools::tool_ok(self@.contexts[ci as int].tool));
                    }
                    let number: u8 = match self.tool_ordering.ordering(&tool) {
                        Some(o) => o,
                        None => 0,
                    };
                    let ghost prev = raw.deep_view();
                    push_tool_block(&mut raw, &self.contexts[ci], number);
                    let ghost block = tool_block(
                        tool,
                        block_number(self@.ordering, tool),
                        self@.contexts[ci as int],
                    );
                    proof {
                        assert(raw.deep_view() == prev + block);
                    }
                    let mut body = match self.contexts[ci].to_instructions() {
                        Ok(v) => v,
                        Err(e) => {
                            proof {
                                assert(blocks_upto(ts, self@.contexts, self@.ordering, k as int + 1)
                                    == Err::<Seq<InstrV>, CncError>(e));
                                lemma_blocks_error_propagates(
                                    ts,
                                    self@.contexts,
                                    self@.ordering,
                                    k as int + 1,
                                    ts.len() as int,
                                );
                                assert(program_raw(self@) == Err::<Seq<InstrV>, CncError>(e));
                            }
                            return Err(e);
                        },
                    };
                    let ghost bodyv = body.deep_view();
                    raw.append(&mut body);
                    proof {
                        assert(raw.deep_view() =~= (prev + block) + bodyv);
                        vstd::seq_lib::lemma_concat_associative(head, acc, block);
                        vstd::seq_lib::lemma_concat_associative(head, acc + block, bodyv);
                        acc = acc + block + bodyv;
                        assert(raw.deep_view() == head + acc);
                        assert(blocks_upto(ts, self@.contexts, self@.ordering, k as int + 1)
                            == Ok::<Seq<InstrV>, CncError>(acc));
                    }
                },
            }
            k += 1;
        }

        let ghost tail_base = raw.deep_view();
        raw.push(Instruction::G0(G0 { x: None, y: None, z: Some(self.z_tool_change) }));
        raw.push(Instruction::Empty(Empty {}));
        raw.push(Instruction::M2(crate::instructions::M2 {}));
        proof {
            assert(raw.deep_view() =~= tail_base + seq![
                InstrV::G0 { x: None, y: None, z: Some(self@.z_tool_change) },
                InstrV::Empty,
                InstrV::M2,
            ]);
            assert(raw.deep_view() == program_raw(self@)->Ok_0);
        }
        let result = dedup_instructions(&raw);
        Ok(result)
    }

    /// The program compiled to machine-code text: the instruction stream
    /// joined with one line per instruction.
    pub fn to_gcode(&self) -> (r: Result<String, CncError>)
        requires
            pv_wf(self@),
        ensures
            match r {
                Ok(s) => program_spec(self@) is Ok && s@ == gcode_text(program_spec(self@)->Ok_0),
                Err(e) => program_spec(self@) == Err::<Seq<InstrV>, CncError>(e),
            },
    {
        match self.to_instructions() {
            Ok(v) => Ok(join_gcode(&v)),
            Err(e) => Err(e),
        }
    }
}

impl Default for Program {
    /// An empty metric program with a safe height of fifty units and a
    /// tool-change height of one hundred.
    fn default() -> (p: Self)
        ensures
            p@.units == Units::Metric,
            p@.z_safe == 500000,
            p@.z_tool_change == 1000000,
            p@.contexts == Seq::<CtxV>::empty(),
            p@.tools == Seq::<Tool>::empty(),
            p@.ordering == Seq::<(Tool, u8)>::empty(),
            p@.explicit == Seq::<(Tool, u8)>::empty(),
            pv_wf(p@),
    {
        Program::new(Units::Metric, 500000, 1000000)
    }
}

/// A found context is inside the list and bound to the searched tool.
proof fn lemma_ctxv_find_props(s: Seq<CtxV>, t: Tool, i: int)
    requires
        0 <= i <= s.len(),
        ctxv_find_from(s, t, i) is Some,
    ensures
        ({
            let j = ctxv_find_from(s, t, i)->Some_0;
            i <= j < s.len() && s[j].tool == t
        }),
    decreases s.len() - i,
{
    if i < s.len() && s[i].tool != t {
        lemma_ctxv_find_props(s, t, i + 1);
    }
}

/// After a context is ensured for a tool, one can be found for it.
proof fn lemma_ensure_ctx_found(p: ProgramV, t: Tool)
    ensures
        ctxv_find(ensure_ctx(p, t).contexts, t) is Some,
{
    match ctxv_find(p.contexts, t) {
        Some(i) => {},
        None => {
            lemma_find_pushed(
                p.contexts,
                t,
                0,
                CtxV {
                    units: p.units,
                    tool: t,
                    z_safe: p.z_safe,
                    z_tool_change: p.z_tool_change,
                    operations: Seq::<OperationV>::empty(),
                },
            );
        },
    }
}

/// Pushing a context for a tool makes it findable: the scan reaches the new
/// last element.
proof fn lemma_find_pushed(s: Seq<CtxV>, t: Tool, i: int, c: CtxV)
    requires
        0 <= i <= s.len(),
        ctxv_find_from(s, t, i) is None,
        c.tool == t,
    ensures
        ctxv_find_from(s.push(c), t, i) == Some(s.len() as int),
    decreases s.len() - i,
{
    let s2 = s.push(c);
    if i < s.len() {
        assert(s2[i] == s[i]);
        lemma_find_pushed(s, t, i + 1, c);
    } else {
        assert(s2[i] == c);
    }
}

} // verus!
