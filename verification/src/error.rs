//! The error type shared by the whole library.

use vstd::prelude::*;
use crate::ir::instr_flag::InstrumentationMode;
use crate::ir::operator::OpShape;

verus! {

/// What can go wrong when a rewriting pass drives the library.
///
/// The first six variants are violations of the injection and traversal
/// protocol by the caller; the others report input that cannot be
/// represented.
#[derive(Clone, Copy, Debug, PartialEq, Eq, Structural)]
pub enum Error {
    /// A bucket was written or read while no mode was selected.
    ModeNotSet,
    /// A special mode was used on an operation of a shape it does not apply
    /// to. The error names the mode and the shape of the operation.
    ModeNotApplicable { mode: InstrumentationMode, shape: OpShape },
    /// A replacement slot was read while it was unset.
    NoReplacement,
    /// An index lies beyond the end of the sequence it addresses.
    IndexOutOfRange,
    /// A cursor was asked for its location while it was not at an instruction.
    NotAtInstruction,
    /// A location that is already component-local was given where a
    /// module-local one is expected.
    UnexpectedLocation,
    /// A type shape that has no counterpart on the other side of a conversion.
    Unsupported,
    /// A constant expression that is not one constant operator followed by
    /// `end`.
    InvalidConstExpr,
    /// A floating-point constant, which the library holds as bits and does
    /// not turn into a number.
    FloatConstant,
}

} // verus!
