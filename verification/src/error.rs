use vstd::prelude::*;

verus! {

/// Why a primitive operation, and with it the whole run, stopped.
#[derive(Clone, Copy, Debug, PartialEq, Eq, Structural)]
pub enum ExecutionError {
    /// The cursor stood on cell 0 and was asked to move left.
    CursorUnderflow,
    /// The cursor stood on the last cell and was asked to move right.
    CursorOverflow,
    /// A byte was asked of an input that had none left.
    InputExhausted,
    /// The program holds a byte that is none of the six opcodes.
    InvalidOpcode,
}

} // verus!
