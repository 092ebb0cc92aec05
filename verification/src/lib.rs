//! An interpreter for a two-dimensional, stack-based esoteric language:
//! a grid of single-character instructions is walked by an instruction
//! pointer that moves in one of four cardinal directions, reading, writing
//! and reinterpreting the grid as it runs.

pub mod errors;
pub mod interpreter;
pub mod machine;
pub mod program;
pub mod stack;
