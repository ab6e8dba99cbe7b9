//! Named entities of a VHDL design: what every declaration introduces,
//! how aliases and subtypes resolve, how overloaded subprograms are keyed,
//! and how entities are described in diagnostics.

pub mod ast;
pub mod source;
pub mod region;
pub mod named_entity;
pub mod laws;
