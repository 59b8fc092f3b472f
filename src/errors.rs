use vstd::prelude::*;

verus! {

/// An error that ends one run of the machine.
#[derive(Debug, Clone)]
pub struct RuntimeError {
    pub kind: RuntimeErrorKind,
}

/// What went wrong while running a program.
#[derive(Debug, Clone)]
pub enum RuntimeErrorKind {
    /// A global was read by a name that the table does not hold.
    GlobalNotFound(String),
    /// An instruction received an operand of the wrong variant.
    InvalidOperator,
    /// A register was read or written beyond the append-or-overwrite rule.
    RegisterOutOfRange,
    /// The code has a truncated word, an unknown opcode, a jump outside the
    /// code, or names a constant that the pool does not hold.
    MalformedProgram,
}

} // verus!
