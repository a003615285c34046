//! Values and instructions: the operands and the instruction kinds that a
//! basic block can hold.
use vstd::prelude::*;
use crate::types::Type;

verus! {

/// Where a value comes from: either the formal parameter of a function, or
/// the result of an earlier instruction.
///
/// The indices identify the producing function, block and instruction inside
/// the owning module; they are checked against the module when an execution
/// engine is built.
#[derive(Clone, Copy, Debug, PartialEq, Eq, Structural)]
pub enum Operand {
    /// The `index`-th formal parameter of the function `function`.
    Param { function: usize, index: usize },
    /// The result of the `index`-th instruction of block `block` of the
    /// function `function`.
    InstResult { function: usize, block: usize, index: usize },
}

/// A typed handle to an operand: a formal parameter, or a computed
/// instruction result.  A value does not own anything; its meaning is tied
/// to the module whose builder produced it.
#[derive(Clone, Copy, Debug, PartialEq, Eq, Structural)]
pub struct Value {
    /// The type of the value.
    pub ty: Type,
    /// The producer of the value.
    pub operand: Operand,
}

impl Value {
    /// The type of this value, as recorded when it was produced.
    pub fn get_type(&self) -> (t: Type)
        ensures
            t == self.ty,
    {
        self.ty
    }
}

/// One instruction of a basic block.  `Ret` is the only terminator.
///
/// Instructions are a tagged variant so that growing the instruction set is
/// additive: a new variant plus a new emission method on the builder.
#[derive(Clone, Copy, Debug, PartialEq, Eq, Structural)]
pub enum Inst {
    /// Integer addition of two operands of the same type, wrapping on
    /// overflow; produces a value of that shared type.
    Add { ty: Type, lhs: Value, rhs: Value },
    /// Return the given operand from the enclosing function; ends the block.
    Ret { value: Value },
}

/// Whether an instruction is a terminator: an instruction that must come
/// last in its block and ends the block's control flow.
pub open spec fn is_terminator(inst: Inst) -> bool {
    inst is Ret
}

impl Inst {
    /// Whether this instruction is a terminator.
    pub fn terminates(&self) -> (r: bool)
        ensures
            r == is_terminator(*self),
    {
        match self {
            Inst::Ret { .. } => true,
            _ => false,
        }
    }
}

} // verus!
