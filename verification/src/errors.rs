use vstd::prelude::*;

verus! {

/// The ways a single invocation can fail. Every error is terminal for the
/// current invocation: no partial application, no retry, no defaulting.
#[derive(Debug, Clone, Copy, PartialEq, Eq, Structural)]
pub enum CounterError {
    /// The instruction buffer held no discriminant byte.
    EmptyInput,
    /// The discriminant byte named no known operation.
    UnknownOperation,
    /// The operand bytes were present but were not exactly a 4-byte
    /// little-endian `u32`.
    MalformedOperand,
    /// The state region could not be read as a counter record.
    CorruptState,
}

} // verus!
