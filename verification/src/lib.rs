//! A verified interpreter for the Brainfuck language.
//!
//! The language machine is an array of 30,000 byte cells, a data pointer
//! into that array, and eight single-character instructions.  The crate is
//! split into a mathematical model of the machine ([`machine`]), the
//! executable interpreter proved against that model ([`interpreter`]), and
//! proofs of general laws of the machine ([`laws`]).

pub mod interpreter;
pub mod laws;
pub mod machine;
