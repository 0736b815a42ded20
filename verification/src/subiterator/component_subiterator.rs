//! Cursor over the modules of a component and, inside the current module,
//! over its functions and instructions.

use vstd::prelude::*;
use std::collections::HashMap;
use crate::error::Error;
use crate::ir::id::{FunctionID, ModuleID};
use crate::ir::types::Location;
use crate::subiterator::module_subiterator::ModuleSubIterator;
use crate::subiterator::sites::{
    component_sites, every_module_has_a_site, lemma_component_sites_contains,
    lemma_component_sites_len, lemma_component_sites_split, lift, mod_of, module_sites, site,
    skip_of, stops,
};

verus! {

/// The instruction counts of every module, as mathematical maps.
pub open spec fn counts_of(metadata: Map<u32, HashMap<u32, usize>>) -> Map<u32, Map<u32, usize>> {
    metadata.map_values(|h: HashMap<u32, usize>| h@)
}

/// The skip lists of every module, as mathematical sequences.
pub open spec fn skips_of(skip_funcs: Map<u32, Vec<u32>>) -> Map<u32, Seq<u32>> {
    skip_funcs.map_values(|v: Vec<u32>| v@)
}

/// Every module below `num_mods` has its instruction counts in `metadata`.
pub open spec fn covers(metadata: Map<u32, HashMap<u32, usize>>, num_mods: usize) -> bool {
    forall|m: u32| m < num_mods ==> metadata.contains_key(m)
}

/// Tracks the current module of a component, and through a module cursor the
/// current function and instruction.
///
/// The cursor is a position only: it holds instruction counts and skip
/// lists, never a function body, and can be reset at any time.
pub struct ComponentSubIterator {
    /// The module the cursor is at.
    curr_mod: ModuleID,
    /// The number of modules in the component.
    num_mods: usize,
    /// The cursor inside the current module.
    pub(crate) mod_iterator: ModuleSubIterator,
    /// Module index -> function index -> number of instructions.
    metadata: HashMap<u32, HashMap<u32, usize>>,
    /// Module index -> functions of that module that are not walked.
    skip_funcs: HashMap<u32, Vec<u32>>,
}

impl ComponentSubIterator {
    /// The instruction counts the cursor was made with.
    pub closed spec fn meta(&self) -> Map<u32, Map<u32, usize>> {
        counts_of(self.metadata@)
    }

    /// The skip lists the cursor was made with.
    pub closed spec fn skips(&self) -> Map<u32, Seq<u32>> {
        skips_of(self.skip_funcs@)
    }

    /// The number of modules in the component.
    pub closed spec fn total(&self) -> int {
        self.num_mods as int
    }

    /// The index of the module the cursor is at.
    pub closed spec fn cur_mod(&self) -> u32 {
        self.curr_mod.0
    }

    /// The module cursor that walks the current module.
    pub closed spec fn nested(&self) -> ModuleSubIterator {
        self.mod_iterator
    }

    /// The index of the function the cursor is at: the one the module
    /// cursor is at.
    pub open spec fn cur_func(&self) -> u32 {
        self.nested().cur_func()
    }

    /// The index of the instruction the cursor is at: the one the module
    /// cursor is at.
    pub open spec fn cur_instr(&self) -> usize {
        self.nested().cur_instr()
    }

    /// The sites that the traversal has yet to leave, in the order of the
    /// traversal: what remains of the current module, then the sites of the
    /// modules after it.
    pub closed spec fn remaining(&self) -> Seq<Location> {
        if self.curr_mod.0 < self.num_mods {
            lift(self.mod_iterator.remaining(), self.curr_mod.0) + component_sites(
                self.meta(),
                self.skips(),
                self.curr_mod.0 + 1,
                self.num_mods as int,
            )
        } else {
            Seq::empty()
        }
    }

    /// The module index has reached the number of modules.
    pub open spec fn finished(&self) -> bool {
        self.cur_mod() == self.total()
    }

    /// The cursor stands at an instruction: a site remains, and the first
    /// one lies in the current module. It does not once it has finished, nor
    /// while it is in a module without any site.
    pub open spec fn at_site(&self) -> bool {
        self.remaining().len() > 0 && mod_of(self.remaining()[0]) == self.cur_mod()
    }

    /// A site of the current module follows the current one.
    pub open spec fn more_in_module(&self) -> bool {
        self.remaining().len() > 1 && mod_of(self.remaining()[1]) == self.cur_mod()
    }

    /// The number of calls of `next` after which the cursor has finished:
    /// one for every site that remains, and one for every module without a
    /// site, in which the cursor stands for one step.
    pub open spec fn steps_left(&self) -> nat {
        if self.cur_mod() < self.total() {
            (if self.nested().remaining().len() == 0 {
                1nat
            } else {
                self.nested().remaining().len()
            }) + stops(self.meta(), self.skips(), self.cur_mod() + 1, self.total())
        } else {
            0
        }
    }

    /// The module-local location that the module cursor reports.
    pub open spec fn module_location(&self) -> Location {
        site(self.cur_func(), self.cur_instr() as int)
    }

    /// The state is consistent: the module index is at most the number of
    /// modules, every module has its counts, and the module cursor walks the
    /// current module.
    pub closed spec fn wf(&self) -> bool {
        &&& self.curr_mod.0 <= self.num_mods <= u32::MAX
        &&& covers(self.metadata@, self.num_mods)
        &&& self.mod_iterator.wf()
        &&& self.curr_mod.0 < self.num_mods ==> {
            &&& self.mod_iterator.counts() == self.meta()[self.curr_mod.0]
            &&& self.mod_iterator.skipped() == skip_of(self.skips(), self.curr_mod.0)
        }
    }

    /// The module index never exceeds the number of modules, nothing
    /// remains once the cursor has finished, and every remaining site lies
    /// in the current module or a later one. While the cursor is at a site,
    /// so is the module cursor, over the counts and the skip list of the
    /// current module, and the current site is the one the module cursor is
    /// at, placed in the current module.
    pub proof fn lemma_invariant(&self)
        requires
            self.wf(),
        ensures
            0 <= self.cur_mod() <= self.total() <= u32::MAX,
            self.nested().wf(),
            self.finished() ==> self.remaining() == Seq::<Location>::empty(),
            !self.finished() ==> self.nested().counts() == self.meta()[self.cur_mod()]
                && self.nested().skipped() == skip_of(self.skips(), self.cur_mod()),
            self.at_site() ==> self.nested().at_site() && self.remaining()[0]
                == self.nested().remaining()[0].in_module(ModuleID(self.cur_mod())),
            forall|i: int|
                0 <= i < self.remaining().len() ==> {
                    let m = mod_of(#[trigger] self.remaining()[i]);
                    self.cur_mod() <= m < self.total()
                },
    {
        self.lemma_state();
    }

    /// The cursor has finished exactly when no step is left. There are at
    /// least as many steps left as sites remain, and exactly as many while
    /// the cursor is at a site and every later module has a site.
    pub proof fn lemma_steps_left(&self)
        requires
            self.wf(),
        ensures
            self.finished() <==> self.steps_left() == 0,
            self.remaining().len() <= self.steps_left(),
            self.at_site() && every_module_has_a_site(
                self.meta(),
                self.skips(),
                self.cur_mod() + 1,
                self.total(),
            ) ==> self.steps_left() == self.remaining().len(),
    {
        self.lemma_state();
        lemma_component_sites_len(self.meta(), self.skips(), self.cur_mod() + 1, self.total());
    }

    /// What remains is an end of the sites of the whole component: the
    /// cursor only ever leaves sites behind, in the order of the traversal.
    pub proof fn lemma_remaining_is_suffix(&self)
        requires
            self.wf(),
        ensures
            exists|k: int|
                0 <= k <= component_sites(self.meta(), self.skips(), 0, self.total()).len()
                    && self.remaining() == #[trigger] component_sites(
                    self.meta(),
                    self.skips(),
                    0,
                    self.total(),
                ).skip(k),
    {
        let all = component_sites(self.meta(), self.skips(), 0, self.total());
        if self.curr_mod.0 < self.num_mods {
            let m = self.curr_mod.0;
            let before = component_sites(self.meta(), self.skips(), 0, m as int);
            let local = module_sites(self.meta()[m], skip_of(self.skips(), m));
            lemma_component_sites_split(self.meta(), self.skips(), 0, m as int, self.total());
            self.mod_iterator.lemma_remaining_is_suffix();
            let j = choose|j: int|
                0 <= j <= local.len() && self.mod_iterator.remaining() == #[trigger] local.skip(j);
            let k = before.len() + j;
            assert(0 <= k <= all.len() && self.remaining() == all.skip(k));
        } else {
            let k = all.len() as int;
            assert(0 <= k <= all.len() && self.remaining() == all.skip(k));
        }
    }

    /// What the public view of the state says of the module cursor.
    proof fn lemma_state(&self)
        requires
            self.wf(),
        ensures
            self.curr_mod.0 <= self.num_mods <= u32::MAX,
            self.at_site() == (self.curr_mod.0 < self.num_mods && self.mod_iterator.at_site()),
            self.more_in_module() == (self.curr_mod.0 < self.num_mods
                && self.mod_iterator.remaining().len() > 1),
            self.at_site() ==> self.remaining()[0] == self.mod_iterator.remaining()[0].in_module(
                self.curr_mod,
            ),
            self.curr_mod.0 < self.num_mods ==> self.remaining() == lift(
                self.mod_iterator.remaining(),
                self.curr_mod.0,
            ) + component_sites(
                self.meta(),
                self.skips(),
                self.curr_mod.0 + 1,
                self.num_mods as int,
            ),
            forall|i: int|
                0 <= i < self.remaining().len() ==> {
                    let m = mod_of(#[trigger] self.remaining()[i]);
                    self.curr_mod.0 <= m < self.num_mods
                },
    {
        if self.curr_mod.0 < self.num_mods {
            let rest = component_sites(
                self.meta(),
                self.skips(),
                self.curr_mod.0 + 1,
                self.num_mods as int,
            );
            self.mod_iterator.lemma_current_site();
            assert forall|j: int| 0 <= j < rest.len() implies ({
                let m = mod_of(#[trigger] rest[j]);
                self.curr_mod.0 < m < self.num_mods
            }) by {
                lemma_component_sites_contains(
                    self.meta(),
                    self.skips(),
                    self.curr_mod.0 + 1,
                    self.num_mods as int,
                    rest[j],
                );
            }
        }
    }

    /// A cursor over module `m`.
    fn module_cursor(
        metadata: &HashMap<u32, HashMap<u32, usize>>,
        skip_funcs: &HashMap<u32, Vec<u32>>,
        m: u32,
    ) -> (it: ModuleSubIterator)
        requires
            metadata@.contains_key(m),
        ensures
            it.wf(),
            it.counts() == counts_of(metadata@)[m],
            it.skipped() == skip_of(skips_of(skip_funcs@), m),
            it.remaining() == module_sites(
                counts_of(metadata@)[m],
                skip_of(skips_of(skip_funcs@), m),
            ),
    {
        let counts: HashMap<u32, usize> = match metadata.get(&m) {
            Some(c) => c.clone(),
            None => HashMap::new(),
        };
        let skip: Vec<u32> = match skip_funcs.get(&m) {
            Some(s) => s.clone(),
            None => Vec::new(),
        };
        ModuleSubIterator::new(counts, skip)
    }

    /// A cursor over a component of `num_mods` modules, at the first site of
    /// module `curr_mod`.
    ///
    /// `metadata` gives, for each module, the number of instructions of each
    /// of its functions; `skip_funcs` gives, for the modules that have any,
    /// the functions to leave out. A function without instructions has no
    /// site, and is passed over like one that is left out.
    pub fn new(
        curr_mod: ModuleID,
        num_mods: usize,
        metadata: HashMap<u32, HashMap<u32, usize>>,
        skip_funcs: HashMap<u32, Vec<u32>>,
    ) -> (it: Self)
        requires
            curr_mod.0 <= num_mods <= u32::MAX,
            covers(metadata@, num_mods),
        ensures
            it.wf(),
            it.meta() == counts_of(metadata@),
            it.skips() == skips_of(skip_funcs@),
            it.total() == num_mods,
            it.cur_mod() == curr_mod.0,
            it.remaining() == component_sites(
                counts_of(metadata@),
                skips_of(skip_funcs@),
                curr_mod.0 as int,
                num_mods as int,
            ),
            it.steps_left() == stops(
                counts_of(metadata@),
                skips_of(skip_funcs@),
                curr_mod.0 as int,
                num_mods as int,
            ),
    {
        let mod_iterator = if (curr_mod.0 as usize) < num_mods {
            Self::module_cursor(&metadata, &skip_funcs, curr_mod.0)
        } else {
            ModuleSubIterator::new(HashMap::new(), Vec::new())
        };
        ComponentSubIterator { curr_mod, num_mods, mod_iterator, metadata, skip_funcs }
    }

    /// Rewinds the cursor to the first site of module 0. The instruction
    /// counts and the skip lists stay as they are, so that the traversal
    /// reports again what a cursor newly made at module 0 reports.
    pub fn reset(&mut self)
        requires
            old(self).wf(),
        ensures
            final(self).wf(),
            final(self).meta() == old(self).meta(),
            final(self).skips() == old(self).skips(),
            final(self).total() == old(self).total(),
            final(self).cur_mod() == 0,
            final(self).remaining() == component_sites(
                old(self).meta(),
                old(self).skips(),
                0,
                old(self).total(),
            ),
            final(self).steps_left() == stops(
                old(self).meta(),
                old(self).skips(),
                0,
                old(self).total(),
            ),
    {
        self.curr_mod = ModuleID(0);
        if 0 < self.num_mods {
            self.mod_iterator = Self::module_cursor(&self.metadata, &self.skip_funcs, 0);
        }
    }

    /// Goes to the next module of the component. A cursor that has finished
    /// stays where it is. Returns whether the cursor is then inside a module.
    fn next_module(&mut self) -> (r: bool)
        requires
            old(self).wf(),
            !old(self).more_in_module(),
        ensures
            final(self).wf(),
            final(self).meta() == old(self).meta(),
            final(self).skips() == old(self).skips(),
            final(self).total() == old(self).total(),
            old(self).at_site() ==> final(self).remaining() == old(self).remaining().drop_first(),
            !old(self).at_site() ==> final(self).remaining() == old(self).remaining(),
            old(self).finished() ==> final(self).cur_mod() == old(self).cur_mod(),
            !old(self).finished() ==> final(self).cur_mod() == old(self).cur_mod() + 1,
            r == !final(self).finished(),
            old(self).finished() ==> final(self).steps_left() == 0,
            !old(self).finished() ==> final(self).steps_left() == old(self).steps_left() - 1,
            r == (final(self).steps_left() > 0),
    {
        proof {
            self.lemma_state();
        }
        if (self.curr_mod.0 as usize) < self.num_mods {
            self.curr_mod = ModuleID(self.curr_mod.0 + 1);
            if (self.curr_mod.0 as usize) < self.num_mods {
                self.mod_iterator = Self::module_cursor(
                    &self.metadata,
                    &self.skip_funcs,
                    self.curr_mod.0,
                );
                true
            } else {
                false
            }
        } else {
            false
        }
    }

    /// The index of the module the cursor is at.
    pub fn curr_mod_idx(&self) -> (r: ModuleID)
        ensures
            r.0 == self.cur_mod(),
    {
        self.curr_mod
    }

    /// The index of the function the cursor is at, inside the current
    /// module.
    pub fn curr_func_idx(&self) -> (r: FunctionID)
        ensures
            r.0 == self.cur_func(),
    {
        self.mod_iterator.curr_func_idx()
    }

    /// The index of the instruction the cursor is at, inside the current
    /// function.
    pub fn curr_instr_idx(&self) -> (r: usize)
        ensures
            r == self.cur_instr(),
    {
        self.mod_iterator.curr_instr_idx()
    }

    /// Whether the cursor has left the last module: the module index equals
    /// the number of modules.
    pub fn end(&self) -> (r: bool)
        ensures
            r == self.finished(),
    {
        self.curr_mod.0 as usize == self.num_mods
    }

    /// The component-local location of the current site, and whether it is
    /// the last instruction of its function.
    ///
    /// The location is the one the module cursor reports, placed in the
    /// current module. Where the cursor is not at an instruction, because it
    /// has finished or the current module has no site, the result is
    /// `Error::NotAtInstruction`.
    pub fn curr_loc(&self) -> (r: Result<(Location, bool), Error>)
        requires
            self.wf(),
        ensures
            match r {
                Ok(p) => {
                    &&& self.at_site()
                    &&& p.0 == self.remaining()[0]
                    &&& p.0 == Location::Component {
                        mod_idx: ModuleID(self.cur_mod()),
                        func_idx: FunctionID(self.cur_func()),
                        instr_idx: self.cur_instr(),
                    }
                    &&& p.0 == self.module_location().in_module(ModuleID(self.cur_mod()))
                    &&& p.0.module_local() == self.module_location()
                    &&& self.nested().at_site()
                    &&& self.module_location() == self.nested().remaining()[0]
                    &&& self.meta().contains_key(self.cur_mod())
                    &&& self.meta()[self.cur_mod()].contains_key(self.cur_func())
                    &&& p.1 == (self.cur_instr() + 1
                        == self.meta()[self.cur_mod()][self.cur_func()])
                },
                Err(e) => !self.at_site() && e == Error::NotAtInstruction,
            },
    {
        proof {
            self.lemma_state();
        }
        if self.curr_mod.0 as usize >= self.num_mods {
            return Err(Error::NotAtInstruction);
        }
        match self.mod_iterator.curr_loc() {
            Ok((loc, is_end)) => match loc.in_component(self.curr_mod) {
                Ok(l) => Ok((l, is_end)),
                Err(e) => Err(e),
            },
            Err(e) => Err(e),
        }
    }

    /// Walks what is left of the component: goes from site to site until
    /// the cursor has finished, and returns the locations of the sites it
    /// was at, in the order of the traversal.
    pub fn walk(&mut self) -> (seen: Vec<Location>)
        requires
            old(self).wf(),
        ensures
            final(self).wf(),
            final(self).finished(),
            final(self).meta() == old(self).meta(),
            final(self).skips() == old(self).skips(),
            final(self).total() == old(self).total(),
            seen@ == old(self).remaining(),
    {
        let mut seen: Vec<Location> = Vec::new();
        while !self.end()
            invariant
                self.wf(),
                self.meta() == old(self).meta(),
                self.skips() == old(self).skips(),
                self.total() == old(self).total(),
                seen@ + self.remaining() == old(self).remaining(),
            decreases self.total() - self.cur_mod(), self.remaining().len(),
        {
            match self.curr_loc() {
                Ok((loc, _)) => {
                    seen.push(loc);
                },
                Err(_) => {},
            }
            self.next();
        }
        seen
    }

    /// Goes to the next site of the component.
    ///
    /// While the current module has a further site the module cursor moves
    /// to it. Otherwise the cursor enters the next module, at its first site
    /// if it has one, and finishes where no module is left. A cursor that
    /// has finished stays where it is. Returns whether the cursor is then
    /// inside a module.
    ///
    /// Every call on a cursor that has not finished takes one step off
    /// `steps_left`, and returns whether a step is left after it. So of the
    /// calls that take a cursor to the end, all but the last return true,
    /// and there are as many as sites remain, plus one for every module
    /// without a site on the way.
    pub fn next(&mut self) -> (r: bool)
        requires
            old(self).wf(),
        ensures
            final(self).wf(),
            final(self).meta() == old(self).meta(),
            final(self).skips() == old(self).skips(),
            final(self).total() == old(self).total(),
            old(self).at_site() ==> final(self).remaining() == old(self).remaining().drop_first(),
            !old(self).at_site() ==> final(self).remaining() == old(self).remaining(),
            old(self).finished() || old(self).more_in_module() ==> final(self).cur_mod()
                == old(self).cur_mod(),
            !old(self).finished() && !old(self).more_in_module() ==> final(self).cur_mod()
                == old(self).cur_mod() + 1,
            r == !final(self).finished(),
            old(self).finished() ==> final(self).steps_left() == 0,
            !old(self).finished() ==> final(self).steps_left() == old(self).steps_left() - 1,
            r == (final(self).steps_left() > 0),
    {
        proof {
            self.lemma_state();
        }
        if (self.curr_mod.0 as usize) < self.num_mods && self.mod_iterator.has_next() {
            self.mod_iterator.next();
            true
        } else {
            self.next_module()
        }
    }
}

} // verus!
