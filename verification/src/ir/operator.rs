//! The operator type of the binary decoder, and the few questions the
//! library asks of it.
//!
//! An operator is carried through the library as an opaque value: injection
//! buckets store it and hand it back. The library looks inside only to tell
//! which kind of control operator it is, and to compare two sequences of
//! operators. Both go through the trusted functions of this file.

use vstd::prelude::*;
use wasmparser::Operator;

verus! {

/// `wasmparser::Operator`: one decoded instruction with its immediates.
#[verifier::external_type_specification]
#[verifier::external_body]
pub struct ExOperator<'a>(Operator<'a>);

/// The control operators that the injection rules know by name; every other
/// operator is `Other`.
#[derive(Clone, Copy, Debug, PartialEq, Eq, Structural)]
pub enum OpKind {
    Block,
    Loop,
    If,
    Else,
    Br,
    BrIf,
    BrTable,
    BrOnCast,
    BrOnCastFail,
    BrOnNull,
    BrOnNonNull,
    End,
    Other,
}

/// The three shapes of operation that the injection rules tell apart.
#[derive(Clone, Copy, Debug, PartialEq, Eq, Structural)]
pub enum OpShape {
    /// Neither opens a block nor branches.
    Ordinary,
    /// Opens a block or an arm of one: `block`, `loop`, `if`, `else`.
    BlockStyle,
    /// Transfers control to a label.
    Branching,
}

impl OpKind {
    /// The shape of an operator of this kind.
    pub open spec fn spec_shape(self) -> OpShape {
        match self {
            OpKind::Block | OpKind::Loop | OpKind::If | OpKind::Else => OpShape::BlockStyle,
            OpKind::Br
            | OpKind::BrIf
            | OpKind::BrTable
            | OpKind::BrOnCast
            | OpKind::BrOnCastFail
            | OpKind::BrOnNull
            | OpKind::BrOnNonNull => OpShape::Branching,
            OpKind::End | OpKind::Other => OpShape::Ordinary,
        }
    }

    /// The shape of an operator of this kind. This is the one place that
    /// says which operators are block-style and which are branching.
    #[verifier::when_used_as_spec(spec_shape)]
    pub fn shape(self) -> (s: OpShape)
        ensures
            s == self.spec_shape(),
    {
        match self {
            OpKind::Block | OpKind::Loop | OpKind::If | OpKind::Else => OpShape::BlockStyle,
            OpKind::Br
            | OpKind::BrIf
            | OpKind::BrTable
            | OpKind::BrOnCast
            | OpKind::BrOnCastFail
            | OpKind::BrOnNull
            | OpKind::BrOnNonNull => OpShape::Branching,
            OpKind::End | OpKind::Other => OpShape::Ordinary,
        }
    }
}

/// The kind of an operator: which variant of `wasmparser::Operator` it is,
/// as far as [`OpKind`] tells variants apart.
pub uninterp spec fn kind_of(op: Operator) -> OpKind;

/// Whether two sequences of operators are equal in the sense of
/// `wasmparser`'s `PartialEq` for `Operator`, applied entry by entry.
pub uninterp spec fn ops_equal(a: Seq<Operator>, b: Seq<Operator>) -> bool;

/// Tells the variants of `wasmparser::Operator` apart.
///
/// Trusted: the result is the variant's name for the twelve control
/// operators listed in [`OpKind`], and `Other` for every other variant. The
/// immediates of the operator are not read.
#[verifier::external_body]
pub(crate) fn op_kind(op: &Operator) -> (kind: OpKind)
    ensures
        kind == kind_of(*op),
{
    match op {
        Operator::Block { .. } => OpKind::Block,
        Operator::Loop { .. } => OpKind::Loop,
        Operator::If { .. } => OpKind::If,
        Operator::Else => OpKind::Else,
        Operator::Br { .. } => OpKind::Br,
        Operator::BrIf { .. } => OpKind::BrIf,
        Operator::BrTable { .. } => OpKind::BrTable,
        Operator::BrOnCast { .. } => OpKind::BrOnCast,
        Operator::BrOnCastFail { .. } => OpKind::BrOnCastFail,
        Operator::BrOnNull { .. } => OpKind::BrOnNull,
        Operator::BrOnNonNull { .. } => OpKind::BrOnNonNull,
        Operator::End => OpKind::End,
        _ => OpKind::Other,
    }
}

/// `Clone` for `wasmparser::Operator`, which the crate derives.
///
/// Trusted: the copy is the same operator with the same immediates.
pub assume_specification<'a>[ <Operator<'a> as Clone>::clone ](op: &Operator<'a>) -> (r: Operator<
    'a,
>)
    ensures
        r == *op,
;

/// The operator `end`, which closes a block and a function body.
///
/// Trusted: the value is the variant `End` of `wasmparser::Operator`, which
/// has no immediates.
#[verifier::external_body]
pub(crate) fn end_op() -> (op: Operator<'static>)
    ensures
        kind_of(op) == OpKind::End,
{
    Operator::End
}

/// Compares two sequences of operators with `==`, which for vectors
/// compares the lengths and then the entries in order with the `PartialEq`
/// that `wasmparser` derives for `Operator`.
///
/// Trusted: the result depends on the two sequences alone.
#[verifier::external_body]
pub(crate) fn ops_eq(a: &Vec<Operator>, b: &Vec<Operator>) -> (r: bool)
    ensures
        r == ops_equal(a@, b@),
{
    a == b
}

/// The shape of an operator.
pub open spec fn shape_of(op: Operator) -> OpShape {
    kind_of(op).spec_shape()
}

/// The shape of an operator: block-style, branching or ordinary.
pub fn classify(op: &Operator) -> (shape: OpShape)
    ensures
        shape == shape_of(*op),
{
    op_kind(op).shape()
}

} // verus!
