//! The sections of a module.

pub mod module_types;
