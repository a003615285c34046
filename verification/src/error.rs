//! The errors that IR construction and engine building can report.
use vstd::prelude::*;

verus! {

/// An error reported by an emission or lookup call on the builder.
#[derive(Clone, Copy, Debug, PartialEq, Eq, Structural)]
pub enum BuildError {
    /// An instruction was emitted while the builder had no insertion point,
    /// or a handle did not refer into the module it was used with.
    InvalidState,
    /// A parameter index at or past the end of the signature's parameter
    /// list was requested.
    IndexOutOfRange,
    /// The two operands of an addition had different types.
    TypeMismatch,
    /// A second terminator was emitted into a block that already ends in
    /// one.
    DoubleTerminator,
    /// A non-terminator instruction was emitted into a block that already
    /// ends in a terminator.
    AfterTerminator,
}

/// An error reported while building an execution engine from a module.
#[derive(Clone, Copy, Debug, PartialEq, Eq, Structural)]
pub enum JitError {
    /// Some basic block of a defined function does not end in exactly one
    /// terminator.
    UnterminatedBlock,
    /// Some instruction operand does not resolve to a formal parameter or to
    /// an earlier addition of the same block, or its recorded type does not
    /// match what it refers to.
    InvalidOperand,
}

} // verus!
