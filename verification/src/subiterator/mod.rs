//! Cursors that track a position while a pass walks a program: over the
//! instructions of a function, over the functions of a module, and over the
//! modules of a component.

pub mod sites;
pub mod function_subiterator;
pub mod module_subiterator;
pub mod component_subiterator;
