//! Function bodies: the instructions of one function, each with its flag.

use vstd::prelude::*;
use wasmparser::Operator;
use crate::error::Error;
use crate::ir::instr_flag::{
    add_result, add_state, FlagView, InstrumentationFlag, InstrumentationMode,
};
use crate::ir::types::DataType;
use crate::ir::operator::{end_op, kind_of, shape_of, OpKind};

verus! {

/// One decoded operation together with what is injected around it.
#[derive(Debug)]
pub struct Instruction<'a> {
    pub op: Operator<'a>,
    pub instr_flag: InstrumentationFlag<'a>,
}

impl<'a> Clone for Instruction<'a> {
    /// An instruction with the same operation and a flag in the same state.
    fn clone(&self) -> (instr: Self)
        ensures
            instr.op == self.op,
            instr.instr_flag@ == self.instr_flag@,
    {
        Instruction { op: self.op.clone(), instr_flag: self.instr_flag.clone() }
    }
}

impl<'a> Instruction<'a> {
    /// An instruction without any injection.
    pub fn new(op: Operator<'a>) -> (instr: Self)
        ensures
            instr.op == op,
            instr.instr_flag@ == FlagView::empty(),
    {
        Instruction { op, instr_flag: InstrumentationFlag::default() }
    }

    /// Appends `val` to the selected bucket of the instruction's flag. The
    /// instruction's own operation decides whether the selected mode
    /// applies.
    ///
    /// Fails with `Error::ModeNotSet` while no mode is selected, and with
    /// `Error::ModeNotApplicable` where the selected mode does not apply to
    /// the operation; the instruction is then unchanged. Otherwise returns
    /// whether the selected mode is a special one.
    pub fn add_instr(&mut self, val: Operator<'a>) -> (r: Result<bool, Error>)
        ensures
            final(self).op == old(self).op,
            r == add_result(old(self).instr_flag@, shape_of(old(self).op)),
            final(self).instr_flag@ == add_state(
                old(self).instr_flag@,
                shape_of(old(self).op),
                val,
            ),
            r is Ok <==> (old(self).instr_flag@.current_mode matches Some(mode)
                && mode.spec_accepts(shape_of(old(self).op))),
            r is Err ==> *final(self) == *old(self),
    {
        self.instr_flag.add_instr(&self.op, val)
    }
}

/// The body of a function.
#[derive(Debug, Clone)]
pub struct Body<'a> {
    /// The locals of the function as pairs of a count and a type. The
    /// parameters are not among them: they take the local indices before
    /// these.
    pub locals: Vec<(u32, DataType)>,
    pub num_locals: usize,
    pub instructions: Vec<Instruction<'a>>,
    /// The number of instructions, kept equal to `instructions.len()`.
    pub num_instructions: usize,
    pub name: Option<String>,
}

impl<'a> Default for Body<'a> {
    /// A body without locals, instructions or name.
    fn default() -> (body: Self)
        ensures
            body.wf(),
            body.locals@.len() == 0,
            body.num_locals == 0,
            body.instructions@.len() == 0,
            body.name is None,
    {
        Body {
            locals: Vec::new(),
            num_locals: 0,
            instructions: Vec::new(),
            num_instructions: 0,
            name: None,
        }
    }
}

impl<'a> Body<'a> {
    /// The recorded number of instructions is the length of the sequence.
    pub open spec fn wf(&self) -> bool {
        self.num_instructions == self.instructions@.len()
    }

    /// Everything but the instructions is the same in both bodies.
    pub open spec fn same_frame(&self, other: &Self) -> bool {
        &&& self.locals == other.locals
        &&& self.num_locals == other.num_locals
        &&& self.name == other.name
    }

    /// Appends the operation `op` as a new instruction without any
    /// injection.
    pub fn push_op(&mut self, op: Operator<'a>)
        ensures
            final(self).wf(),
            final(self).same_frame(old(self)),
            final(self).instructions@.len() == old(self).instructions@.len() + 1,
            final(self).instructions@.drop_last() == old(self).instructions@,
            final(self).instructions@.last().op == op,
            final(self).instructions@.last().instr_flag@ == FlagView::empty(),
    {
        self.instructions.push(Instruction::new(op));
        self.num_instructions = self.instructions.len();
    }

    /// The operation of the instruction at `idx`.
    pub fn get_op(&self, idx: usize) -> (op: &Operator<'a>)
        requires
            idx < self.instructions@.len(),
        ensures
            *op == self.instructions@[idx as int].op,
    {
        &self.instructions[idx].op
    }

    /// The flag of the instruction at `idx`.
    pub fn get_instr_flag(&self, idx: usize) -> (flag: &InstrumentationFlag<'a>)
        requires
            idx < self.instructions@.len(),
        ensures
            *flag == self.instructions@[idx as int].instr_flag,
    {
        &self.instructions[idx].instr_flag
    }

    /// Empties the bucket `mode` of the flag of the instruction at `idx`.
    /// A replacement slot becomes unset.
    pub fn clear_instr(&mut self, idx: usize, mode: InstrumentationMode)
        requires
            idx < old(self).instructions@.len(),
        ensures
            final(self).same_frame(old(self)),
            final(self).num_instructions == old(self).num_instructions,
            final(self).instructions@.len() == old(self).instructions@.len(),
            final(self).instructions@[idx as int].op == old(self).instructions@[idx as int].op,
            final(self).instructions@[idx as int].instr_flag@
                == old(self).instructions@[idx as int].instr_flag@.cleared(mode),
            forall|j: int|
                0 <= j < old(self).instructions@.len() && j != idx
                    ==> final(self).instructions@[j] == old(self).instructions@[j],
    {
        self.instructions[idx].instr_flag.clear_instr(mode);
    }

    /// Appends the operation `end`, which terminates a function body, as a
    /// new instruction without any injection.
    pub fn end(&mut self)
        ensures
            final(self).wf(),
            final(self).same_frame(old(self)),
            final(self).instructions@.len() == old(self).instructions@.len() + 1,
            final(self).instructions@.drop_last() == old(self).instructions@,
            kind_of(final(self).instructions@.last().op) == OpKind::End,
            final(self).instructions@.last().instr_flag@ == FlagView::empty(),
    {
        self.push_op(end_op());
    }
}

} // verus!
