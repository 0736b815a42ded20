//! The data model: identifiers, locations, types, function bodies and what
//! is injected into them.
//!
//! [`operator`], [`parser`] and [`encoder`] hold everything that is taken on
//! trust from the decoder and the encoder.

pub mod body;
pub mod custom_section;
pub mod element;
pub mod encoder;
pub mod id;
pub mod init_expr;
pub mod instr_flag;
pub mod module;
pub mod operator;
pub mod parser;
pub mod types;
