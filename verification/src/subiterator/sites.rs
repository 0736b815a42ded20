//! The order in which a traversal reports instruction sites, as sequences of
//! locations, and what those sequences hold.

use vstd::prelude::*;
use crate::ir::id::{FunctionID, ModuleID};
use crate::ir::types::Location;

verus! {

/// One past the largest function or module index.
pub open spec fn index_limit() -> int {
    0x1_0000_0000
}

/// Function `f` is walked: it has an instruction count and is not skipped.
pub open spec fn walked(counts: Map<u32, usize>, skip: Seq<u32>, f: u32) -> bool {
    counts.contains_key(f) && !skip.contains(f)
}

/// Function `f` is walked and has at least one instruction to report.
pub open spec fn visitable(counts: Map<u32, usize>, skip: Seq<u32>, f: u32) -> bool {
    walked(counts, skip, f) && counts[f] > 0
}

/// `found` is the least visitable function index that is at least `from`,
/// or `None` where there is none.
pub open spec fn is_least_from(
    counts: Map<u32, usize>,
    skip: Seq<u32>,
    from: int,
    found: Option<u32>,
) -> bool {
    match found {
        Some(g) => from <= g && visitable(counts, skip, g) && forall|k: u32|
            from <= k < g ==> !visitable(counts, skip, k),
        None => forall|k: u32| from <= k ==> !visitable(counts, skip, k),
    }
}

/// The module-local site of instruction `i` of function `f`.
pub open spec fn site(f: u32, i: int) -> Location {
    Location::Module { func_idx: FunctionID(f), instr_idx: i as usize }
}

/// The sites of function `f` from instruction `from` up to, not including,
/// instruction `count`, in increasing order.
pub open spec fn func_sites(f: u32, from: int, count: int) -> Seq<Location> {
    Seq::new(
        if from <= count {
            (count - from) as nat
        } else {
            0
        },
        |i: int| site(f, from + i),
    )
}

/// The sites of all walked functions whose index is at least `lo`: functions
/// in increasing order, and the instructions of each in increasing order.
pub open spec fn module_sites_from(counts: Map<u32, usize>, skip: Seq<u32>, lo: int) -> Seq<
    Location,
>
    decreases index_limit() - lo,
{
    if lo < 0 || lo >= index_limit() {
        Seq::empty()
    } else if walked(counts, skip, lo as u32) {
        func_sites(lo as u32, 0, counts[lo as u32] as int) + module_sites_from(
            counts,
            skip,
            lo + 1,
        )
    } else {
        module_sites_from(counts, skip, lo + 1)
    }
}

/// All sites of a module, in traversal order.
pub open spec fn module_sites(counts: Map<u32, usize>, skip: Seq<u32>) -> Seq<Location> {
    module_sites_from(counts, skip, 0)
}

/// The skip list of module `m`: empty where none was given.
pub open spec fn skip_of(skips: Map<u32, Seq<u32>>, m: u32) -> Seq<u32> {
    if skips.contains_key(m) {
        skips[m]
    } else {
        Seq::empty()
    }
}

/// The module-local locations `s`, each placed in module `m`.
pub open spec fn lift(s: Seq<Location>, m: u32) -> Seq<Location> {
    Seq::new(s.len(), |i: int| s[i].in_module(ModuleID(m)))
}

/// The sites of modules `lo` up to, not including, `hi`: modules in
/// increasing order, each module's sites in its own traversal order.
pub open spec fn component_sites(
    meta: Map<u32, Map<u32, usize>>,
    skips: Map<u32, Seq<u32>>,
    lo: int,
    hi: int,
) -> Seq<Location>
    decreases hi - lo,
{
    if lo < 0 || lo >= hi || lo >= index_limit() {
        Seq::empty()
    } else {
        lift(module_sites(meta[lo as u32], skip_of(skips, lo as u32)), lo as u32)
            + component_sites(meta, skips, lo + 1, hi)
    }
}

/// The number of instructions of the walked functions of a module whose
/// index is at least `lo`.
pub open spec fn module_count_from(counts: Map<u32, usize>, skip: Seq<u32>, lo: int) -> nat
    decreases index_limit() - lo,
{
    if lo < 0 || lo >= index_limit() {
        0
    } else if walked(counts, skip, lo as u32) {
        counts[lo as u32] as nat + module_count_from(counts, skip, lo + 1)
    } else {
        module_count_from(counts, skip, lo + 1)
    }
}

/// The number of instructions of the walked functions of modules `lo` up
/// to, not including, `hi`.
pub open spec fn component_count(
    meta: Map<u32, Map<u32, usize>>,
    skips: Map<u32, Seq<u32>>,
    lo: int,
    hi: int,
) -> nat
    decreases hi - lo,
{
    if lo < 0 || lo >= hi || lo >= index_limit() {
        0
    } else {
        module_count_from(meta[lo as u32], skip_of(skips, lo as u32), 0) + component_count(
            meta,
            skips,
            lo + 1,
            hi,
        )
    }
}

/// The number of stops that a traversal makes in modules `lo` up to, not
/// including, `hi`: one at every site, and one in every module that has no
/// site, where the cursor stands for one step without a location.
pub open spec fn stops(
    meta: Map<u32, Map<u32, usize>>,
    skips: Map<u32, Seq<u32>>,
    lo: int,
    hi: int,
) -> nat
    decreases hi - lo,
{
    if lo < 0 || lo >= hi || lo >= index_limit() {
        0
    } else {
        let here = module_sites(meta[lo as u32], skip_of(skips, lo as u32)).len();
        (if here == 0 {
            1nat
        } else {
            here
        }) + stops(meta, skips, lo + 1, hi)
    }
}

/// Every module from `lo` up to, not including, `hi` has a site.
pub open spec fn every_module_has_a_site(
    meta: Map<u32, Map<u32, usize>>,
    skips: Map<u32, Seq<u32>>,
    lo: int,
    hi: int,
) -> bool {
    forall|m: u32|
        lo <= m < hi ==> (#[trigger] module_sites(meta[m], skip_of(skips, m))).len() > 0
}

/// `loc` is an instruction of a walked function of the module.
pub open spec fn is_module_site(counts: Map<u32, usize>, skip: Seq<u32>, loc: Location) -> bool {
    match loc {
        Location::Module { func_idx, instr_idx } => walked(counts, skip, func_idx.0)
            && instr_idx < counts[func_idx.0],
        Location::Component { .. } => false,
    }
}

/// `loc` is an instruction of a walked function of one of the first `n`
/// modules of the component.
pub open spec fn is_component_site(
    meta: Map<u32, Map<u32, usize>>,
    skips: Map<u32, Seq<u32>>,
    n: int,
    loc: Location,
) -> bool {
    match loc {
        Location::Component { mod_idx, func_idx, instr_idx } => mod_idx.0 < n && is_module_site(
            meta[mod_idx.0],
            skip_of(skips, mod_idx.0),
            Location::Module { func_idx, instr_idx },
        ),
        Location::Module { .. } => false,
    }
}

/// The module index of a location, 0 for a module-local one.
pub open spec fn mod_of(loc: Location) -> int {
    match loc {
        Location::Component { mod_idx, .. } => mod_idx.0 as int,
        Location::Module { .. } => 0,
    }
}

/// The function index of a location.
pub open spec fn func_of(loc: Location) -> int {
    match loc {
        Location::Component { func_idx, .. } => func_idx.0 as int,
        Location::Module { func_idx, .. } => func_idx.0 as int,
    }
}

/// The instruction index of a location.
pub open spec fn instr_of(loc: Location) -> int {
    match loc {
        Location::Component { instr_idx, .. } => instr_idx as int,
        Location::Module { instr_idx, .. } => instr_idx as int,
    }
}

/// `a` comes before `b` in the lexicographic order on module, function and
/// instruction index.
pub open spec fn site_lt(a: Location, b: Location) -> bool {
    mod_of(a) < mod_of(b) || (mod_of(a) == mod_of(b) && (func_of(a) < func_of(b) || (func_of(a)
        == func_of(b) && instr_of(a) < instr_of(b))))
}

/// Every two entries of `s` stand in lexicographic order.
pub open spec fn strictly_ascending(s: Seq<Location>) -> bool {
    forall|i: int, j: int| 0 <= i < j < s.len() ==> site_lt(s[i], s[j])
}

/// Where `found` is the least visitable function from `lo`, the sites from
/// `lo` are that function's sites followed by the sites after it, and none
/// where there is no such function.
pub proof fn lemma_sites_from_least(
    counts: Map<u32, usize>,
    skip: Seq<u32>,
    lo: int,
    found: Option<u32>,
)
    requires
        0 <= lo,
        is_least_from(counts, skip, lo, found),
    ensures
        match found {
            Some(g) => module_sites_from(counts, skip, lo) == func_sites(
                g,
                0,
                counts[g] as int,
            ) + module_sites_from(counts, skip, g + 1),
            None => module_sites_from(counts, skip, lo) == Seq::<Location>::empty(),
        },
    decreases index_limit() - lo,
{
    if lo < index_limit() && found != Some(lo as u32) {
        assert(!visitable(counts, skip, lo as u32));
        lemma_sites_from_least(counts, skip, lo + 1, found);
    }
}

/// The sites of a walked function `f`, followed by the sites of the
/// functions after it, are the end of the sites from any `lo` up to `f`.
pub proof fn lemma_sites_end_with(counts: Map<u32, usize>, skip: Seq<u32>, lo: int, f: u32)
    requires
        0 <= lo <= f,
        walked(counts, skip, f),
    ensures
        ({
            let all = module_sites_from(counts, skip, lo);
            let tail = func_sites(f, 0, counts[f] as int) + module_sites_from(counts, skip, f + 1);
            tail.len() <= all.len() && all.skip(all.len() - tail.len()) == tail
        }),
    decreases f - lo,
{
    if lo < f {
        lemma_sites_end_with(counts, skip, lo + 1, f);
    }
}

/// The sites of modules `lo` up to `hi` are those of the modules up to
/// `mid` followed by those of the modules from `mid` on.
pub proof fn lemma_component_sites_split(
    meta: Map<u32, Map<u32, usize>>,
    skips: Map<u32, Seq<u32>>,
    lo: int,
    mid: int,
    hi: int,
)
    requires
        0 <= lo <= mid <= hi <= index_limit(),
    ensures
        component_sites(meta, skips, lo, hi) == component_sites(meta, skips, lo, mid)
            + component_sites(meta, skips, mid, hi),
    decreases mid - lo,
{
    if lo < mid {
        lemma_component_sites_split(meta, skips, lo + 1, mid, hi);
    }
}

/// A concatenation holds what either part holds.
pub proof fn lemma_concat_contains(a: Seq<Location>, b: Seq<Location>, x: Location)
    ensures
        (a + b).contains(x) == (a.contains(x) || b.contains(x)),
{
    if a.contains(x) {
        let i = choose|i: int| 0 <= i < a.len() && a[i] == x;
        assert((a + b)[i] == x);
    }
    if b.contains(x) {
        let j = choose|j: int| 0 <= j < b.len() && b[j] == x;
        assert((a + b)[a.len() + j] == x);
    }
}

/// The sites of one function are exactly its instructions from `from` on.
pub proof fn lemma_func_sites_contains(f: u32, from: int, count: usize, loc: Location)
    requires
        0 <= from,
    ensures
        func_sites(f, from, count as int).contains(loc) <==> (loc is Module && func_of(loc) == f
            && from <= instr_of(loc) < count),
{
    let s = func_sites(f, from, count as int);
    if loc is Module && func_of(loc) == f && from <= instr_of(loc) < count {
        assert(s[instr_of(loc) - from] == loc);
    }
}

/// The sites of a module from function `lo` on are exactly the instructions
/// of its walked functions with an index of at least `lo`.
pub proof fn lemma_module_sites_contains(
    counts: Map<u32, usize>,
    skip: Seq<u32>,
    lo: int,
    loc: Location,
)
    requires
        0 <= lo,
    ensures
        module_sites_from(counts, skip, lo).contains(loc) <==> (is_module_site(counts, skip, loc)
            && lo <= func_of(loc)),
    decreases index_limit() - lo,
{
    if lo < index_limit() {
        let f = lo as u32;
        let rest = module_sites_from(counts, skip, lo + 1);
        lemma_module_sites_contains(counts, skip, lo + 1, loc);
        if walked(counts, skip, f) {
            let here = func_sites(f, 0, counts[f] as int);
            lemma_func_sites_contains(f, 0, counts[f], loc);
            lemma_concat_contains(here, rest, loc);
        }
    }
}

/// The sites of a module are in lexicographic order.
pub proof fn lemma_module_sites_ascending(counts: Map<u32, usize>, skip: Seq<u32>, lo: int)
    requires
        0 <= lo,
    ensures
        strictly_ascending(module_sites_from(counts, skip, lo)),
    decreases index_limit() - lo,
{
    if lo < index_limit() {
        let f = lo as u32;
        let rest = module_sites_from(counts, skip, lo + 1);
        lemma_module_sites_ascending(counts, skip, lo + 1);
        if walked(counts, skip, f) {
            let here = func_sites(f, 0, counts[f] as int);
            assert forall|i: int, j: int|
                0 <= i < here.len() && 0 <= j < rest.len() implies site_lt(here[i], rest[j]) by {
                lemma_module_sites_contains(counts, skip, lo + 1, rest[j]);
            }
        }
    }
}

/// Placing module-local sites in module `m` gives exactly the
/// component-local locations of module `m` whose module-local part is among
/// them.
pub proof fn lemma_lift_contains(s: Seq<Location>, m: u32, loc: Location)
    requires
        forall|i: int| 0 <= i < s.len() ==> s[i] is Module,
    ensures
        lift(s, m).contains(loc) <==> (loc is Component && mod_of(loc) == m && s.contains(
            loc.module_local(),
        )),
{
    let t = lift(s, m);
    if loc is Component && mod_of(loc) == m && s.contains(loc.module_local()) {
        let i = choose|i: int| 0 <= i < s.len() && s[i] == loc.module_local();
        assert(t[i] == loc);
    }
}

/// Every site of a module is module-local.
pub proof fn lemma_module_sites_local(counts: Map<u32, usize>, skip: Seq<u32>)
    ensures
        forall|i: int|
            0 <= i < module_sites(counts, skip).len() ==> module_sites(counts, skip)[i] is Module,
{
    let s = module_sites(counts, skip);
    assert forall|i: int| 0 <= i < s.len() implies s[i] is Module by {
        lemma_module_sites_contains(counts, skip, 0, s[i]);
    }
}

/// The sites of modules `lo` up to `hi` are exactly the instructions of the
/// walked functions of those modules.
pub proof fn lemma_component_sites_contains(
    meta: Map<u32, Map<u32, usize>>,
    skips: Map<u32, Seq<u32>>,
    lo: int,
    hi: int,
    loc: Location,
)
    requires
        0 <= lo,
        hi <= index_limit(),
    ensures
        component_sites(meta, skips, lo, hi).contains(loc) <==> (is_component_site(
            meta,
            skips,
            hi,
            loc,
        ) && lo <= mod_of(loc)),
    decreases hi - lo,
{
    if lo < hi {
        let m = lo as u32;
        let local = module_sites(meta[m], skip_of(skips, m));
        let here = lift(local, m);
        let rest = component_sites(meta, skips, lo + 1, hi);
        lemma_component_sites_contains(meta, skips, lo + 1, hi, loc);
        lemma_module_sites_local(meta[m], skip_of(skips, m));
        lemma_lift_contains(local, m, loc);
        lemma_module_sites_contains(meta[m], skip_of(skips, m), 0, loc.module_local());
        lemma_concat_contains(here, rest, loc);
    }
}

/// The sites of modules `lo` up to `hi` are in lexicographic order.
pub proof fn lemma_component_sites_ascending(
    meta: Map<u32, Map<u32, usize>>,
    skips: Map<u32, Seq<u32>>,
    lo: int,
    hi: int,
)
    requires
        0 <= lo,
        hi <= index_limit(),
    ensures
        strictly_ascending(component_sites(meta, skips, lo, hi)),
    decreases hi - lo,
{
    if lo < hi {
        let m = lo as u32;
        let local = module_sites(meta[m], skip_of(skips, m));
        let here = lift(local, m);
        let rest = component_sites(meta, skips, lo + 1, hi);
        lemma_component_sites_ascending(meta, skips, lo + 1, hi);
        lemma_module_sites_ascending(meta[m], skip_of(skips, m), 0);
        lemma_module_sites_local(meta[m], skip_of(skips, m));
        assert forall|i: int, j: int| 0 <= i < j < here.len() implies site_lt(here[i], here[j]) by {
            assert(site_lt(local[i], local[j]));
        }
        assert forall|i: int, j: int|
            0 <= i < here.len() && 0 <= j < rest.len() implies site_lt(here[i], rest[j]) by {
            lemma_component_sites_contains(meta, skips, lo + 1, hi, rest[j]);
        }
    }
}

/// A module has as many sites as its walked functions have instructions.
pub proof fn lemma_module_sites_len(counts: Map<u32, usize>, skip: Seq<u32>, lo: int)
    requires
        0 <= lo,
    ensures
        module_sites_from(counts, skip, lo).len() == module_count_from(counts, skip, lo),
    decreases index_limit() - lo,
{
    if lo < index_limit() {
        lemma_module_sites_len(counts, skip, lo + 1);
    }
}

/// Modules `lo` up to `hi` have as many sites as their walked functions
/// have instructions. Where each of them has a site, that is also the
/// number of stops of a traversal.
pub proof fn lemma_component_sites_len(
    meta: Map<u32, Map<u32, usize>>,
    skips: Map<u32, Seq<u32>>,
    lo: int,
    hi: int,
)
    requires
        0 <= lo,
        hi <= index_limit(),
    ensures
        component_sites(meta, skips, lo, hi).len() == component_count(meta, skips, lo, hi),
        component_sites(meta, skips, lo, hi).len() <= stops(meta, skips, lo, hi),
        every_module_has_a_site(meta, skips, lo, hi) ==> stops(meta, skips, lo, hi)
            == component_sites(meta, skips, lo, hi).len(),
    decreases hi - lo,
{
    if lo < hi {
        lemma_component_sites_len(meta, skips, lo + 1, hi);
        lemma_module_sites_len(meta[lo as u32], skip_of(skips, lo as u32), 0);
    }
}

/// A full traversal of a component of `n` modules reports exactly the
/// instructions of the walked functions of its modules: every such site
/// occurs in the order, nothing else does, and the order is strictly
/// lexicographic by module, function and instruction index, so that no site
/// is reported twice.
pub proof fn lemma_traversal_coverage(
    meta: Map<u32, Map<u32, usize>>,
    skips: Map<u32, Seq<u32>>,
    n: int,
)
    requires
        0 <= n <= index_limit(),
    ensures
        forall|loc: Location|
            component_sites(meta, skips, 0, n).contains(loc) <==> is_component_site(
                meta,
                skips,
                n,
                loc,
            ),
        strictly_ascending(component_sites(meta, skips, 0, n)),
        component_sites(meta, skips, 0, n).no_duplicates(),
{
    let s = component_sites(meta, skips, 0, n);
    assert forall|loc: Location| s.contains(loc) <==> is_component_site(meta, skips, n, loc) by {
        lemma_component_sites_contains(meta, skips, 0, n, loc);
    }
    lemma_component_sites_ascending(meta, skips, 0, n);
    assert forall|i: int, j: int| 0 <= i < s.len() && 0 <= j < s.len() && i != j implies s[i]
        != s[j] by {
        if i < j {
            assert(site_lt(s[i], s[j]));
        } else {
            assert(site_lt(s[j], s[i]));
        }
    }
}

} // verus!
