pub mod definitions;
pub mod instruction;

pub use definitions::{ISA, InstructionDefinition, InstructionFormat, Operands};
pub use instruction::{Instruction, InstructionBuildError, InstructionBuildErrorType};
