//! An intermediate representation of WebAssembly programs built for
//! instrumentation: per-instruction and per-function injection buckets, and a
//! cursor that walks a component module by module, function by function and
//! instruction by instruction.

pub mod error;
pub mod ir;
pub mod subiterator;
pub mod text;
