//! Cursor over the functions of one module and, inside the current function,
//! over its instructions.

use vstd::prelude::*;
use std::collections::HashMap;
use crate::error::Error;
use crate::ir::id::FunctionID;
use crate::ir::types::Location;
use crate::subiterator::function_subiterator::FuncSubIterator;
use crate::subiterator::sites::{
    func_sites, index_limit, is_least_from, lemma_module_sites_contains, lemma_sites_end_with,
    lemma_sites_from_least, module_sites, module_sites_from, site, visitable,
};

verus! {

/// Whether `skip` holds `f`.
pub fn is_skipped(skip: &Vec<u32>, f: u32) -> (r: bool)
    ensures
        r == skip@.contains(f),
{
    let mut i: usize = 0;
    while i < skip.len()
        invariant
            i <= skip.len(),
            forall|j: int| 0 <= j < i ==> skip@[j] != f,
        decreases skip.len() - i,
    {
        if skip[i] == f {
            return true;
        }
        i = i + 1;
    }
    false
}

/// The least function index that is at least `from`, has an instruction
/// count above zero and is not in `skip`, together with that count.
pub fn least_visitable_from(counts: &HashMap<u32, usize>, skip: &Vec<u32>, from: u32) -> (r:
    Option<(u32, usize)>)
    ensures
        is_least_from(
            counts@,
            skip@,
            from as int,
            match r {
                Some(p) => Some(p.0),
                None => None,
            },
        ),
        r matches Some(p) ==> p.1 == counts@[p.0],
{
    let mut best: Option<(u32, usize)> = None;
    for key in it: counts.keys()
        invariant
            match best {
                Some(p) => from <= p.0 && visitable(counts@, skip@, p.0) && p.1 == counts@[p.0]
                    && forall|j: int|
                    0 <= j < it.index() ==> !(from <= *it.seq()[j] < p.0 && visitable(
                        counts@,
                        skip@,
                        *it.seq()[j],
                    )),
                None => forall|j: int|
                    0 <= j < it.index() ==> !(from <= *it.seq()[j] && visitable(
                        counts@,
                        skip@,
                        *it.seq()[j],
                    )),
            },
    {
        let k: u32 = *key;
        let closer: bool = match best {
            Some(p) => k < p.0,
            None => true,
        };
        if k >= from && closer {
            match counts.get(key) {
                Some(c) => {
                    if *c > 0 && !is_skipped(skip, k) {
                        best = Some((k, *c));
                    }
                },
                None => {},
            }
        }
    }
    best
}

/// The key of a function found by a search, without its instruction count.
pub open spec fn key_of(found: Option<(u32, usize)>) -> Option<u32> {
    match found {
        Some(p) => Some(p.0),
        None => None,
    }
}

/// Tracks the current function of a module and the current instruction inside
/// it.
///
/// The cursor walks the functions that have an instruction count, are not on
/// the skip list and hold at least one instruction, in increasing order of
/// their index. It holds its own copy of the instruction counts and never
/// touches a function body.
pub struct ModuleSubIterator {
    /// The function the cursor is at.
    pub(crate) curr_func: FunctionID,
    /// The cursor inside the current function.
    pub(crate) func_iterator: FuncSubIterator,
    /// The function that follows the current one, with its instruction count.
    next_func: Option<(u32, usize)>,
    /// Function index -> number of instructions.
    metadata: HashMap<u32, usize>,
    /// Functions that are not walked.
    skip_funcs: Vec<u32>,
}

impl ModuleSubIterator {
    /// The instruction counts the cursor was made with.
    pub closed spec fn counts(&self) -> Map<u32, usize> {
        self.metadata@
    }

    /// The skip list the cursor was made with.
    pub closed spec fn skipped(&self) -> Seq<u32> {
        self.skip_funcs@
    }

    /// The index of the function the cursor is at.
    pub closed spec fn cur_func(&self) -> u32 {
        self.curr_func.0
    }

    /// The index of the instruction the cursor is at.
    pub closed spec fn cur_instr(&self) -> usize {
        self.func_iterator.curr_instr
    }

    /// The sites that the traversal has yet to leave, the current one first.
    /// Nothing remains once the cursor has run past the last site of the
    /// module.
    pub closed spec fn remaining(&self) -> Seq<Location> {
        if self.func_iterator.at_instr() {
            func_sites(
                self.curr_func.0,
                self.func_iterator.curr_instr as int,
                self.func_iterator.num_instrs as int,
            ) + module_sites_from(self.metadata@, self.skip_funcs@, self.curr_func.0 + 1)
        } else {
            Seq::empty()
        }
    }

    /// The cursor stands at an instruction: a site remains.
    pub open spec fn at_site(&self) -> bool {
        self.remaining().len() > 0
    }

    /// The state is consistent: while at an instruction, the current function
    /// is one that is walked, its length is the recorded one, and the
    /// function that follows is known.
    pub closed spec fn wf(&self) -> bool {
        &&& self.func_iterator.wf()
        &&& self.func_iterator.at_instr() ==> {
            &&& visitable(self.metadata@, self.skip_funcs@, self.curr_func.0)
            &&& self.func_iterator.num_instrs == self.metadata@[self.curr_func.0]
            &&& is_least_from(
                self.metadata@,
                self.skip_funcs@,
                self.curr_func.0 + 1,
                key_of(self.next_func),
            )
            &&& self.next_func matches Some(p) ==> p.1 == self.metadata@[p.0]
        }
        &&& !self.func_iterator.at_instr() ==> self.next_func is None
    }

    /// While a site remains, the first of the remaining sites is the current
    /// function and instruction, that function is walked, and the
    /// instruction exists. Every remaining site is module-local.
    pub proof fn lemma_current_site(&self)
        requires
            self.wf(),
        ensures
            self.at_site() ==> {
                &&& self.remaining()[0] == site(self.cur_func(), self.cur_instr() as int)
                &&& visitable(self.counts(), self.skipped(), self.cur_func())
                &&& self.cur_instr() < self.counts()[self.cur_func()]
            },
            forall|i: int| 0 <= i < self.remaining().len() ==> self.remaining()[i] is Module,
    {
        if self.func_iterator.at_instr() {
            let here = func_sites(
                self.curr_func.0,
                self.func_iterator.curr_instr as int,
                self.func_iterator.num_instrs as int,
            );
            let rest = module_sites_from(self.metadata@, self.skip_funcs@, self.curr_func.0 + 1);
            assert forall|i: int| here.len() <= i < self.remaining().len() implies
                self.remaining()[i] is Module by {
                lemma_module_sites_contains(
                    self.metadata@,
                    self.skip_funcs@,
                    self.curr_func.0 + 1,
                    rest[i - here.len()],
                );
            }
        }
    }

    /// What remains is an end of the module's sites: the cursor only ever
    /// leaves sites behind, in the order of the traversal.
    pub proof fn lemma_remaining_is_suffix(&self)
        requires
            self.wf(),
        ensures
            exists|k: int|
                0 <= k <= module_sites(self.counts(), self.skipped()).len() && self.remaining()
                    == #[trigger] module_sites(self.counts(), self.skipped()).skip(k),
    {
        let all = module_sites(self.counts(), self.skipped());
        if self.func_iterator.at_instr() {
            let f = self.curr_func.0;
            let rest = module_sites_from(self.metadata@, self.skip_funcs@, f + 1);
            let whole = func_sites(f, 0, self.func_iterator.num_instrs as int);
            lemma_sites_end_with(self.metadata@, self.skip_funcs@, 0, f);
            let k = all.len() - (whole + rest).len() + self.func_iterator.curr_instr;
            assert(self.remaining() =~= (whole + rest).skip(self.func_iterator.curr_instr as int));
            assert(0 <= k <= all.len() && self.remaining() == all.skip(k));
        } else {
            let k = all.len() as int;
            assert(0 <= k <= all.len() && self.remaining() == all.skip(k));
        }
    }

    /// A site remains exactly while the function cursor is at an
    /// instruction, and more than one exactly while the current function has
    /// a further instruction or a further function is walked.
    proof fn lemma_state(&self)
        requires
            self.wf(),
        ensures
            self.at_site() == self.func_iterator.at_instr(),
            self.at_site() ==> self.remaining()[0] == site(
                self.curr_func.0,
                self.func_iterator.curr_instr as int,
            ),
            (self.remaining().len() > 1) == (self.func_iterator.curr_instr + 1
                < self.func_iterator.num_instrs || self.next_func is Some),
    {
        if self.func_iterator.at_instr() {
            lemma_sites_from_least(
                self.metadata@,
                self.skip_funcs@,
                self.curr_func.0 + 1,
                key_of(self.next_func),
            );
        }
    }

    /// Moves the cursor to the first instruction of `target`, or past the end
    /// of the module where there is no target.
    fn enter(&mut self, target: Option<(u32, usize)>, Ghost(lo): Ghost<int>)
        requires
            0 <= lo,
            is_least_from(old(self).metadata@, old(self).skip_funcs@, lo, key_of(target)),
            target matches Some(p) ==> p.1 == old(self).metadata@[p.0],
        ensures
            final(self).wf(),
            final(self).metadata == old(self).metadata,
            final(self).skip_funcs == old(self).skip_funcs,
            final(self).remaining() == module_sites_from(
                old(self).metadata@,
                old(self).skip_funcs@,
                lo,
            ),
            final(self).func_iterator.at_instr() == target is Some,
    {
        proof {
            lemma_sites_from_least(self.metadata@, self.skip_funcs@, lo, key_of(target));
        }
        match target {
            Some(p) => {
                self.curr_func = FunctionID(p.0);
                self.func_iterator = FuncSubIterator::new(p.1);
                if p.0 < u32::MAX {
                    self.next_func = least_visitable_from(
                        &self.metadata,
                        &self.skip_funcs,
                        p.0 + 1,
                    );
                } else {
                    self.next_func = None;
                }
            },
            None => {
                self.curr_func = FunctionID(0);
                self.func_iterator = FuncSubIterator::new(0);
                self.next_func = None;
            },
        }
    }

    /// A cursor over the module with the instruction counts `metadata`, at
    /// the first instruction of the first function that is walked.
    pub fn new(metadata: HashMap<u32, usize>, skip_funcs: Vec<u32>) -> (it: Self)
        ensures
            it.wf(),
            it.counts() == metadata@,
            it.skipped() == skip_funcs@,
            it.remaining() == module_sites(metadata@, skip_funcs@),
    {
        let first = least_visitable_from(&metadata, &skip_funcs, 0);
        let mut it = ModuleSubIterator {
            curr_func: FunctionID(0),
            func_iterator: FuncSubIterator::new(0),
            next_func: None,
            metadata,
            skip_funcs,
        };
        it.enter(first, Ghost(0));
        it
    }

    /// Rewinds the cursor to the first instruction of the first function
    /// that is walked.
    pub fn reset(&mut self)
        ensures
            final(self).wf(),
            final(self).counts() == old(self).counts(),
            final(self).skipped() == old(self).skipped(),
            final(self).remaining() == module_sites(old(self).counts(), old(self).skipped()),
    {
        let first = least_visitable_from(&self.metadata, &self.skip_funcs, 0);
        self.enter(first, Ghost(0));
    }

    /// Whether a site follows the current one.
    pub fn has_next(&self) -> (r: bool)
        requires
            self.wf(),
        ensures
            r == (self.remaining().len() > 1),
    {
        proof {
            self.lemma_state();
        }
        self.func_iterator.has_next() || self.next_func.is_some()
    }

    /// Moves to the first instruction of the next function that is walked, or
    /// past the end of the module where none is left.
    fn next_function(&mut self) -> (r: bool)
        requires
            old(self).wf(),
            !old(self).func_iterator.at_instr() || old(self).func_iterator.curr_instr + 1
                == old(self).func_iterator.num_instrs,
        ensures
            final(self).wf(),
            final(self).metadata == old(self).metadata,
            final(self).skip_funcs == old(self).skip_funcs,
            old(self).at_site() ==> final(self).remaining() == old(self).remaining().drop_first(),
            !old(self).at_site() ==> !final(self).at_site(),
            r == final(self).at_site(),
    {
        let target = self.next_func;
        let ghost lo: int = if self.func_iterator.at_instr() {
            self.curr_func.0 + 1
        } else {
            index_limit()
        };
        self.enter(target, Ghost(lo));
        target.is_some()
    }

    /// Moves to the next site: the next instruction of the current function,
    /// or the first instruction of the next function that is walked. A cursor
    /// past the end stays there. Returns whether the cursor then stands at an
    /// instruction.
    pub fn next(&mut self) -> (r: bool)
        requires
            old(self).wf(),
        ensures
            final(self).wf(),
            final(self).counts() == old(self).counts(),
            final(self).skipped() == old(self).skipped(),
            old(self).at_site() ==> final(self).remaining() == old(self).remaining().drop_first(),
            !old(self).at_site() ==> !final(self).at_site(),
            r == final(self).at_site(),
    {
        if self.func_iterator.has_next() {
            self.func_iterator.next()
        } else {
            self.next_function()
        }
    }

    /// The index of the function the cursor is at.
    pub fn curr_func_idx(&self) -> (r: FunctionID)
        ensures
            r.0 == self.cur_func(),
    {
        self.curr_func
    }

    /// The index of the instruction the cursor is at.
    pub fn curr_instr_idx(&self) -> (r: usize)
        ensures
            r == self.cur_instr(),
    {
        self.func_iterator.curr_instr
    }

    /// Whether the cursor has run past the last site of the module.
    pub fn end(&self) -> (r: bool)
        requires
            self.wf(),
        ensures
            r == !self.at_site(),
    {
        self.func_iterator.end()
    }

    /// The module-local location of the current site, and whether it is the
    /// last instruction of its function.
    ///
    /// Fails with `Error::NotAtInstruction` once the cursor has run past the
    /// last site of the module.
    pub fn curr_loc(&self) -> (r: Result<(Location, bool), Error>)
        requires
            self.wf(),
        ensures
            match r {
                Ok(p) => {
                    &&& self.at_site()
                    &&& p.0 == self.remaining()[0]
                    &&& p.0 == site(self.cur_func(), self.cur_instr() as int)
                    &&& self.counts().contains_key(self.cur_func())
                    &&& p.1 == (self.cur_instr() + 1 == self.counts()[self.cur_func()])
                },
                Err(e) => !self.at_site() && e == Error::NotAtInstruction,
            },
    {
        if self.func_iterator.end() {
            Err(Error::NotAtInstruction)
        } else {
            Ok(
                (
                    Location::Module {
                        func_idx: self.curr_func,
                        instr_idx: self.func_iterator.curr_instr,
                    },
                    self.func_iterator.at_last(),
                ),
            )
        }
    }
}

} // verus!
