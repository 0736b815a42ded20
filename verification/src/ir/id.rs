//! Typed indices into the index spaces of a module or component.

use vstd::prelude::*;

verus! {

/// Index of a function type in the type section.
#[derive(Clone, Copy, Debug, PartialEq, Eq, Structural, Hash)]
pub struct TypeID(pub u32);

/// Index of a core module inside a component.
#[derive(Clone, Copy, Debug, PartialEq, Eq, Structural, Hash)]
pub struct ModuleID(pub u32);

/// Index of a function inside a module.
#[derive(Clone, Copy, Debug, PartialEq, Eq, Structural, Hash)]
pub struct FunctionID(pub u32);

/// Index of a global inside a module.
#[derive(Clone, Copy, Debug, PartialEq, Eq, Structural, Hash)]
pub struct GlobalID(pub u32);

/// Index of a custom section inside a module.
#[derive(Clone, Copy, Debug, PartialEq, Eq, Structural, Hash)]
pub struct CustomSectionID(pub u32);

} // verus!
