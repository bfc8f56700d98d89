pub mod assembler_error;
pub mod program;

pub use assembler_error::{AssemblerError, Token};
pub use program::{AssembledProgram, Section};
