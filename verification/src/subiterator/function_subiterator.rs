//! Cursor over the instructions of one function.

use vstd::prelude::*;

verus! {

/// Tracks the current instruction inside a function of known length.
///
/// The cursor is at an instruction while `curr_instr < num_instrs`, and has
/// run past the end once the two are equal.
pub struct FuncSubIterator {
    /// The instruction the cursor is at.
    pub curr_instr: usize,
    /// The number of instructions in the function.
    pub num_instrs: usize,
}

impl FuncSubIterator {
    /// The cursor never stands beyond one past the last instruction.
    pub open spec fn wf(&self) -> bool {
        self.curr_instr <= self.num_instrs
    }

    /// The cursor stands at an instruction.
    pub open spec fn at_instr(&self) -> bool {
        self.curr_instr < self.num_instrs
    }

    /// A cursor at the first instruction of a function of `num_instrs`
    /// instructions.
    pub fn new(num_instrs: usize) -> (it: Self)
        ensures
            it.curr_instr == 0,
            it.num_instrs == num_instrs,
            it.wf(),
    {
        FuncSubIterator { curr_instr: 0, num_instrs }
    }

    /// Rewinds the cursor to the first instruction of a function of
    /// `num_instrs` instructions.
    pub fn reset(&mut self, num_instrs: usize)
        ensures
            final(self).curr_instr == 0,
            final(self).num_instrs == num_instrs,
            final(self).wf(),
    {
        self.curr_instr = 0;
        self.num_instrs = num_instrs;
    }

    /// Whether an instruction follows the current one.
    pub fn has_next(&self) -> (r: bool)
        ensures
            r == (self.curr_instr + 1 < self.num_instrs),
    {
        self.curr_instr < self.num_instrs && self.num_instrs - self.curr_instr > 1
    }

    /// Whether the cursor has run past the last instruction.
    pub fn end(&self) -> (r: bool)
        ensures
            r == !self.at_instr(),
    {
        self.curr_instr >= self.num_instrs
    }

    /// Whether the cursor stands at the last instruction of the function.
    pub fn at_last(&self) -> (r: bool)
        ensures
            r == (self.curr_instr + 1 == self.num_instrs),
    {
        self.curr_instr < self.num_instrs && self.num_instrs - self.curr_instr == 1
    }

    /// Moves to the next instruction; a cursor past the end stays there.
    /// Returns whether the cursor then stands at an instruction.
    pub fn next(&mut self) -> (r: bool)
        ensures
            final(self).num_instrs == old(self).num_instrs,
            old(self).at_instr() ==> final(self).curr_instr == old(self).curr_instr + 1,
            !old(self).at_instr() ==> final(self).curr_instr == old(self).curr_instr,
            r == final(self).at_instr(),
            old(self).wf() ==> final(self).wf(),
    {
        if self.curr_instr < self.num_instrs {
            self.curr_instr = self.curr_instr + 1;
        }
        self.curr_instr < self.num_instrs
    }
}

} // verus!
