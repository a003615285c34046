//! The meaning of a module: which modules are compilable units, and what a
//! compiled function computes.
use vstd::prelude::*;

use crate::ir::{is_terminator, Inst, Operand, Value};
use crate::module::{BlockV, FunctionV, ModuleV};

verus! {

/// Whether an instruction list is a valid compilable unit: it contains
/// exactly one terminator, and that terminator is its last instruction.
pub open spec fn insts_terminated(s: Seq<Inst>) -> bool {
    &&& s.len() > 0
    &&& is_terminator(s.last())
    &&& forall|k: int| 0 <= k < s.len() - 1 ==> !is_terminator(#[trigger] s[k])
}

/// Whether a stored block is a valid compilable unit.
pub open spec fn block_terminated(b: BlockV) -> bool {
    insts_terminated(b.insts)
}

/// Whether a function carries a body.  A function declared without blocks
/// is a declaration only: it resolves to a null address, never to code.
pub open spec fn is_defined(f: FunctionV) -> bool {
    f.blocks.len() > 0
}

/// Whether every block of every function of the module is terminated.
pub open spec fn blocks_terminated(m: ModuleV) -> bool {
    forall|f: int, b: int|
        0 <= f < m.functions.len() && 0 <= b < m.functions[f].blocks.len()
            ==> block_terminated(#[trigger] m.functions[f].blocks[b])
}

/// Whether one operand of the `i`-th instruction of block `b` of the
/// function `func` (which has index `fidx` in its module) resolves inside
/// that function: to a formal parameter, or to an earlier addition of the
/// same block, with the type the value claims.
pub open spec fn operand_ok(func: FunctionV, fidx: int, b: int, i: int, v: Value) -> bool {
    match v.operand {
        Operand::Param { function, index } => {
            &&& function == fidx
            &&& index < func.ty.params.len()
            &&& v.ty == func.ty.params[index as int]
        },
        Operand::InstResult { function, block, index } => {
            &&& function == fidx
            &&& block == b
            &&& index < i
            &&& func.blocks[b].insts[index as int] matches Inst::Add { ty, .. } && ty == v.ty
        },
    }
}

/// Whether the `i`-th instruction of block `b` of `func` is well formed:
/// its operands resolve, and its types are consistent.
pub open spec fn inst_ok(func: FunctionV, fidx: int, b: int, i: int) -> bool {
    match func.blocks[b].insts[i] {
        Inst::Add { ty, lhs, rhs } => {
            &&& operand_ok(func, fidx, b, i, lhs)
            &&& operand_ok(func, fidx, b, i, rhs)
            &&& lhs.ty == ty
            &&& rhs.ty == ty
        },
        Inst::Ret { value } => {
            &&& operand_ok(func, fidx, b, i, value)
            &&& value.ty == func.ty.ret
        },
    }
}

/// Whether every instruction of the module is well formed.
pub open spec fn operands_ok(m: ModuleV) -> bool {
    forall|f: int, b: int, i: int|
        0 <= f < m.functions.len() && 0 <= b < m.functions[f].blocks.len() && 0 <= i
            < m.functions[f].blocks[b].insts.len() ==> #[trigger] inst_ok(m.functions[f], f, b, i)
}

/// Whether the module is a valid input to the engine's build step.
pub open spec fn module_compilable(m: ModuleV) -> bool {
    blocks_terminated(m) && operands_ok(m)
}

/// 32-bit wrapping addition: the runtime semantics of the addition
/// instruction.
pub open spec fn wrap_add(a: i32, b: i32) -> i32 {
    vstd::wrapping::i32_specs::wrapping_add(a, b)
}

/// The runtime meaning of an operand, given the actual arguments and the
/// results of the instructions already executed.
pub open spec fn operand_value(v: Value, args: Seq<i32>, computed: Seq<i32>) -> i32 {
    match v.operand {
        Operand::Param { index, .. } => args[index as int],
        Operand::InstResult { index, .. } => computed[index as int],
    }
}

/// Straight-line execution of a block's instructions, resumed after the
/// ones whose results are already in `computed`: the value handed to the
/// block's terminator, or `None` when control falls off the end of the
/// block.
pub open spec fn eval_insts(insts: Seq<Inst>, args: Seq<i32>, computed: Seq<i32>) -> Option<i32>
    decreases insts.len() - computed.len(),
{
    let p = computed.len() as int;
    if p >= insts.len() {
        None
    } else {
        match insts[p] {
            Inst::Add { lhs, rhs, .. } => eval_insts(
                insts,
                args,
                computed.push(
                    wrap_add(operand_value(lhs, args, computed), operand_value(rhs, args, computed)),
                ),
            ),
            Inst::Ret { value } => Some(operand_value(value, args, computed)),
        }
    }
}

/// The value computed by calling the defined function `f` of module `m`
/// with the given arguments: its entry block, executed from the start.
pub open spec fn function_result(m: ModuleV, f: int, args: Seq<i32>) -> Option<i32> {
    eval_insts(m.functions[f].blocks[0].insts, args, Seq::empty())
}

/// Execution of a terminated block always reaches the terminator: however
/// it is resumed, it returns a value rather than falling off the end.
pub proof fn lemma_terminated_block_returns(insts: Seq<Inst>, args: Seq<i32>, computed: Seq<i32>)
    requires
        insts.len() > 0,
        is_terminator(insts.last()),
        forall|k: int| 0 <= k < insts.len() - 1 ==> !is_terminator(#[trigger] insts[k]),
        computed.len() < insts.len(),
    ensures
        eval_insts(insts, args, computed) is Some,
    decreases insts.len() - computed.len(),
{
    let p = computed.len() as int;
    match insts[p] {
        Inst::Ret { .. } => {},
        Inst::Add { lhs, rhs, .. } => {
            assert(p < insts.len() - 1) by {
                if p == insts.len() - 1 {
                    assert(is_terminator(insts.last()));
                    assert(insts.last() == insts[p]);
                }
            }
            lemma_terminated_block_returns(
                insts,
                args,
                computed.push(
                    wrap_add(operand_value(lhs, args, computed), operand_value(rhs, args, computed)),
                ),
            );
        },
    }
}

/// A defined function of a compilable module never falls off the end of
/// its entry block: executing it always reaches a terminator and yields a
/// value, for any argument list.
pub proof fn lemma_compilable_function_returns(m: ModuleV, f: int, args: Seq<i32>)
    requires
        module_compilable(m),
        0 <= f < m.functions.len(),
        is_defined(m.functions[f]),
    ensures
        function_result(m, f, args) is Some,
{
    let blk = m.functions[f].blocks[0];
    assert(block_terminated(blk));
    lemma_terminated_block_returns(blk.insts, args, Seq::empty());
}

} // verus!
