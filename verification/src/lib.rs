//! A tape-based virtual machine for an eight-instruction esoteric language.
//!
//! The crate provides the instruction representation and parser
//! (`instruction`), a cursor-addressed buffer used for both the program and
//! the memory tape (`pointed`), and the execution engine with its
//! linear-scan bracket matcher (`vm`).

pub mod instruction;
pub mod pointed;
pub mod trace;
pub mod vm;
