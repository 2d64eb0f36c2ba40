//! A translator for a stack-based virtual-machine instruction language,
//! lowering it to assembly for a simple 16-bit accumulator machine.
//!
//! The crate is organised as a pipeline: [`lexer`] splits raw text into
//! tokens, [`parser`] turns tokens into structured [`command::Command`]
//! values (resolving label scoping and return-address naming), and
//! [`translator`] turns each command into a sequence of target
//! instructions, modelled structurally in [`instr`] and rendered to text.
//! [`machine`] is a model of the target machine, and [`laws`] states
//! and proves what the generated instruction sequences do when
//! executed on it.

pub mod command;
pub mod instr;
pub mod labels;
pub mod laws;
pub mod lexer;
pub mod machine;
pub mod parser;
pub mod text;
pub mod translator;
