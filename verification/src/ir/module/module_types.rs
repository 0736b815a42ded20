//! The type section of a module: function types, each stored once.

use vstd::prelude::*;
use vstd::slice::slice_to_vec;
use crate::ir::id::TypeID;
use crate::ir::types::DataType;

verus! {

/// Turns a vector into a boxed slice with `Vec::into_boxed_slice`.
///
/// Trusted: the boxed slice holds the entries of the vector, in order.
#[verifier::external_body]
fn boxed(v: Vec<DataType>) -> (b: Box<[DataType]>)
    ensures
        b@ == v@,
{
    v.into_boxed_slice()
}

/// Whether two sequences of value types are equal.
pub fn same_types(a: &[DataType], b: &[DataType]) -> (r: bool)
    ensures
        r == (a@ == b@),
{
    if a.len() != b.len() {
        return false;
    }
    let mut i: usize = 0;
    while i < a.len()
        invariant
            i <= a.len(),
            a.len() == b.len(),
            forall|j: int| 0 <= j < i ==> a@[j] == b@[j],
        decreases a.len() - i,
    {
        if a[i] != b[i] {
            return false;
        }
        i = i + 1;
    }
    proof {
        assert(a@ =~= b@);
    }
    true
}

/// The type of a function: the types of its parameters and of its results.
#[derive(Debug, Hash)]
pub struct FuncType {
    pub params: Box<[DataType]>,
    pub results: Box<[DataType]>,
}

/// A function type as a pair of sequences: parameters, then results.
pub type Signature = (Seq<DataType>, Seq<DataType>);

impl View for FuncType {
    type V = Signature;

    open spec fn view(&self) -> Signature {
        (self.params@, self.results@)
    }
}

impl Clone for FuncType {
    /// A function type with the same parameter and result types.
    fn clone(&self) -> (ty: Self)
        ensures
            ty@ == self@,
    {
        FuncType {
            params: boxed(slice_to_vec(&self.params)),
            results: boxed(slice_to_vec(&self.results)),
        }
    }
}

impl PartialEq for FuncType {
    /// Two function types are equal where they have the same parameter
    /// types and the same result types.
    fn eq(&self, other: &Self) -> (r: bool) {
        same_types(&self.params, &other.params) && same_types(&self.results, &other.results)
    }
}

impl vstd::std_specs::cmp::PartialEqSpecImpl for FuncType {
    open spec fn obeys_eq_spec() -> bool {
        true
    }

    open spec fn eq_spec(&self, other: &Self) -> bool {
        self@ == other@
    }
}

impl Eq for FuncType {

}

impl FuncType {
    /// The function type with the given parameter and result types.
    pub fn new(params: Box<[DataType]>, results: Box<[DataType]>) -> (ty: Self)
        ensures
            ty.params == params,
            ty.results == results,
            ty@ == (params@, results@),
    {
        Self { params, results }
    }
}

/// The signatures of a sequence of function types.
pub open spec fn signatures(types: Seq<FuncType>) -> Seq<Signature> {
    Seq::new(types.len(), |i: int| types[i]@)
}

/// The greatest index at which `table` holds `sig`, if it holds it at all.
pub open spec fn index_of(table: Seq<Signature>, sig: Signature) -> Option<int>
    decreases table.len(),
{
    if table.len() == 0 {
        None
    } else if table.last() == sig {
        Some(table.len() - 1)
    } else {
        index_of(table.drop_last(), sig)
    }
}

/// The table after `sig` is added: unchanged where it holds `sig` already,
/// else with `sig` appended.
pub open spec fn table_added(table: Seq<Signature>, sig: Signature) -> Seq<Signature> {
    if index_of(table, sig) is Some {
        table
    } else {
        table.push(sig)
    }
}

/// The index that adding `sig` to the table returns: the index at which the
/// table holds `sig` already, else the index at which it is appended.
pub open spec fn added_index(table: Seq<Signature>, sig: Signature) -> int {
    match index_of(table, sig) {
        Some(i) => i,
        None => table.len() as int,
    }
}

/// What `index_of` finds is an index of the table at which `sig` stands, and
/// no greater index holds `sig`; it finds nothing only where no index holds
/// `sig`.
pub proof fn lemma_index_of(table: Seq<Signature>, sig: Signature)
    ensures
        match index_of(table, sig) {
            Some(i) => 0 <= i < table.len() && table[i] == sig && forall|j: int|
                i < j < table.len() ==> table[j] != sig,
            None => forall|j: int| 0 <= j < table.len() ==> table[j] != sig,
        },
    decreases table.len(),
{
    if table.len() > 0 && table.last() != sig {
        let rest = table.drop_last();
        lemma_index_of(rest, sig);
        assert(forall|j: int| 0 <= j < rest.len() ==> rest[j] == table[j]);
    }
}

/// Adding a signature twice returns the same index both times, and the
/// second addition leaves the table as it is. One addition makes the table
/// longer by at most one entry, keeps every entry at its index, and the
/// index it returns is one at which the table then holds the signature.
pub proof fn lemma_add_idempotent(table: Seq<Signature>, sig: Signature)
    ensures
        added_index(table_added(table, sig), sig) == added_index(table, sig),
        table_added(table_added(table, sig), sig) == table_added(table, sig),
        table.len() <= table_added(table, sig).len() <= table.len() + 1,
        table_added(table, sig).subrange(0, table.len() as int) == table,
        0 <= added_index(table, sig) < table_added(table, sig).len(),
        table_added(table, sig)[added_index(table, sig)] == sig,
{
    lemma_index_of(table_added(table, sig), sig);
}

/// The type section of a module.
///
/// A signature that is added through [`ModuleTypes::add`] is stored once:
/// adding it again gives the index it already has.
#[derive(Clone, Debug)]
pub struct ModuleTypes {
    pub types: Vec<FuncType>,
}

impl View for ModuleTypes {
    type V = Seq<Signature>;

    open spec fn view(&self) -> Seq<Signature> {
        signatures(self.types@)
    }
}

impl Default for ModuleTypes {
    /// An empty type section.
    fn default() -> (section: Self)
        ensures
            section@ == Seq::<Signature>::empty(),
    {
        ModuleTypes { types: Vec::new() }
    }
}

impl ModuleTypes {
    /// A type section that holds the given function types, in order.
    pub fn new(types: Vec<FuncType>) -> (section: Self)
        ensures
            section.types == types,
            section@ == signatures(types@),
    {
        ModuleTypes { types }
    }

    /// Whether the section holds no type.
    pub fn is_empty(&self) -> (r: bool)
        ensures
            r == (self@.len() == 0),
    {
        self.types.is_empty()
    }

    /// The index of the last type of the section with the given parameter
    /// and result types.
    fn find(&self, param: &[DataType], ret: &[DataType]) -> (r: Option<usize>)
        ensures
            match r {
                Some(i) => index_of(self@, (param@, ret@)) == Some(i as int),
                None => index_of(self@, (param@, ret@)) is None,
            },
    {
        let ghost sig = (param@, ret@);
        let mut i: usize = self.types.len();
        proof {
            assert(self@.subrange(0, i as int) =~= self@);
        }
        while i > 0
            invariant
                i <= self.types@.len(),
                sig == (param@, ret@),
                index_of(self@, sig) == index_of(self@.subrange(0, i as int), sig),
            decreases i,
        {
            let ty = &self.types[i - 1];
            let found = same_types(&ty.params, param) && same_types(&ty.results, ret);
            proof {
                let prefix = self@.subrange(0, i as int);
                assert(prefix.drop_last() =~= self@.subrange(0, i - 1));
            }
            if found {
                return Some(i - 1);
            }
            i = i - 1;
        }
        None
    }

    /// Adds the function type with the given parameter and result types,
    /// and returns its index.
    ///
    /// Where the section holds the type already, nothing is added and the
    /// index is the one it has. Otherwise the type is appended and the index
    /// is the length the section had.
    pub fn add(&mut self, param: &[DataType], ret: &[DataType]) -> (id: TypeID)
        requires
            old(self)@.len() <= u32::MAX,
        ensures
            final(self)@ == table_added(old(self)@, (param@, ret@)),
            id.0 == added_index(old(self)@, (param@, ret@)),
            index_of(old(self)@, (param@, ret@)) is Some ==> final(self).types == old(self).types,
    {
        proof {
            lemma_index_of(self@, (param@, ret@));
        }
        match self.find(param, ret) {
            Some(i) => TypeID(i as u32),
            None => {
                let index = self.types.len();
                let ty = FuncType::new(boxed(slice_to_vec(param)), boxed(slice_to_vec(ret)));
                self.types.push(ty);
                TypeID(index as u32)
            },
        }
    }

    /// The number of types in the section.
    pub fn len(&self) -> (n: usize)
        ensures
            n == self@.len(),
    {
        self.types.len()
    }

    /// An iterator over the types of the section, in the order of their
    /// indices.
    pub fn iter(&self) -> (it: std::slice::Iter<'_, FuncType>)
        ensures
            vstd::std_specs::slice::into_iter_elts(it) == self.types@,
    {
        self.types.iter()
    }

    /// The type at `index`, or `None` where the section has no such index.
    pub fn get(&self, index: TypeID) -> (r: Option<&FuncType>)
        ensures
            index.0 < self.types@.len() ==> r == Some(&self.types@[index.0 as int]),
            index.0 >= self.types@.len() ==> r is None,
    {
        let i = index.0 as usize;
        if i < self.types.len() {
            Some(&self.types[i])
        } else {
            None
        }
    }
}

} // verus!
