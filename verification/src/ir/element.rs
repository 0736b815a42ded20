//! Element segments: what initialises a table.

use vstd::prelude::*;
use wasmparser::{ConstExpr, RefType};
use crate::ir::id::FunctionID;
use crate::ir::parser::{ref_of, ref_shape, RefShape};

verus! {

/// The kind of an element segment.
///
/// The offset of an active segment is kept as the decoder hands it out, as
/// bytes that are not yet evaluated.
#[derive(Debug)]
pub enum ElementKind<'a> {
    /// The segment is passive.
    Passive,
    /// The segment is active: it is copied into a table when the module is
    /// instantiated.
    Active {
        /// The index of the table, where one is given.
        table_index: Option<u32>,
        /// The offset in the table at which the segment is placed.
        offset_expr: ConstExpr<'a>,
    },
    /// The segment is declared: it only names functions that are referred
    /// to elsewhere.
    Declared,
}

impl<'a> Clone for ElementKind<'a> {
    /// The same kind, with the same table index and offset.
    fn clone(&self) -> (kind: Self)
        ensures
            kind == *self,
    {
        match self {
            ElementKind::Passive => ElementKind::Passive,
            ElementKind::Active { table_index, offset_expr } => ElementKind::Active {
                table_index: *table_index,
                offset_expr: offset_expr.clone(),
            },
            ElementKind::Declared => ElementKind::Declared,
        }
    }
}

/// The items of an element segment: function indices, or constant
/// expressions of a reference type. The expressions are kept as the decoder
/// hands them out, as bytes that are not yet evaluated.
#[derive(Debug)]
pub enum ElementItems<'a> {
    Functions(Vec<FunctionID>),
    ConstExprs { ty: RefShape, exprs: Vec<ConstExpr<'a>> },
}

/// The function identifiers with the given indices, in order.
pub open spec fn ids_of(indices: Seq<u32>) -> Seq<FunctionID> {
    Seq::new(indices.len(), |i: int| FunctionID(indices[i]))
}

impl<'a> Clone for ElementItems<'a> {
    /// The same items, in the same order.
    fn clone(&self) -> (items: Self)
        ensures
            match *self {
                ElementItems::Functions(f) => items matches ElementItems::Functions(g) && g@
                    == f@,
                ElementItems::ConstExprs { ty, exprs } => items matches ElementItems::ConstExprs {
                    ty: t,
                    exprs: e,
                } && t == ty && e@ == exprs@,
            },
    {
        match self {
            ElementItems::Functions(f) => ElementItems::Functions(f.clone()),
            ElementItems::ConstExprs { ty, exprs } => ElementItems::ConstExprs {
                ty: *ty,
                exprs: exprs.clone(),
            },
        }
    }
}

impl<'a> ElementItems<'a> {
    /// The items of a segment that holds the functions with the given
    /// indices.
    pub fn from_functions(indices: Vec<u32>) -> (items: Self)
        ensures
            items matches ElementItems::Functions(f) && f@ == ids_of(indices@),
    {
        let mut functions: Vec<FunctionID> = Vec::new();
        let mut i: usize = 0;
        while i < indices.len()
            invariant
                i <= indices@.len(),
                functions@ == ids_of(indices@.subrange(0, i as int)),
            decreases indices@.len() - i,
        {
            functions.push(FunctionID(indices[i]));
            i = i + 1;
        }
        ElementItems::Functions(functions)
    }

    /// The items of a segment that holds the given constant expressions of
    /// the reference type `ty`.
    pub fn from_exprs(ty: RefType, exprs: Vec<ConstExpr<'a>>) -> (items: Self)
        ensures
            items matches ElementItems::ConstExprs { ty: t, exprs: e } && t == ref_of(ty) && e@
                == exprs@,
    {
        ElementItems::ConstExprs { ty: ref_shape(ty), exprs }
    }
}

} // verus!
