use vstd::prelude::*;

verus! {

/// The failure modes of a program run. Stack underflow is deliberately not
/// among them: popping an empty stack yields zero by definition.
#[derive(Clone, Copy, PartialEq, Eq, Structural, Debug)]
pub enum BefungeError {
    /// An input instruction ran with no supplied values left. A host can
    /// decide to abort the program or inject a default.
    EmptyInputError,
    /// The running program authored an invalid grid access, or asked for a
    /// character from a numeric value that is no valid codepoint.
    IndexError,
    /// Division or modulo by zero.
    ArithmeticError,
    /// A fatal internal invariant violation, such as a random draw outside
    /// the expected range.
    InternalError,
}

} // verus!
