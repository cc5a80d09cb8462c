//! A tape machine: a fixed-length tape of byte cells, one movable cursor, a
//! finite input and a record of every byte written out, driven by programs of
//! one-byte opcodes.
//!
//! [`machine`] holds the mathematical model, [`laws`] what is proved of it,
//! [`runtime`] the executable machine state, and [`interpreter`] the
//! dispatcher that runs a program against a borrowed runtime.

pub mod error;
pub mod interpreter;
pub mod laws;
pub mod machine;
pub mod runtime;
