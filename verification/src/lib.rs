//! A deterministic counter machine: a fixed bank of 256 wrapping `u64`
//! registers and a fixed 65,536-slot program of halt, increment-and-jump,
//! and decrement-or-branch-on-zero instructions, executed one transition
//! at a time or under a caller-supplied step budget.

pub mod laws;
pub mod machine;

pub use machine::Instruction;
pub use machine::Program;
