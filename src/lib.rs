pub mod errors;
pub mod instructions;
mod register;
pub mod value;
pub mod vm;

pub use crate::errors::{RuntimeError, RuntimeErrorKind};
pub use crate::instructions::{I9, Instruction, Word};
pub use crate::register::Registers;
pub use crate::value::Value;
pub use crate::vm::{Action, VM};
