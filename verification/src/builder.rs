//! The builder: a transient cursor that emits instructions into a module at
//! an explicit, settable insertion point.
use vstd::prelude::*;

use crate::error::BuildError;
use crate::ir::{is_terminator, Inst, Operand, Value};
use crate::module::{BasicBlock, BlockV, Function, Module, ModuleV};

verus! {

/// A transient instruction-emission cursor bound to one module.
///
/// Its insertion point is explicit state, not a hidden global cursor: it is
/// either unset (`NoInsertPoint`, the state after [`Builder::new`]) or a
/// specific block of the module (`HasInsertPoint`, after
/// [`Builder::set_insert_point`]).  Emitting with no insertion point fails
/// with [`BuildError::InvalidState`].  A builder owns none of the objects it
/// creates: every emitted instruction and every produced value belongs to
/// the module graph.
#[derive(Debug)]
pub struct Builder {
    /// The block at whose end emitted instructions are appended, if set.
    pub insert_point: Option<BasicBlock>,
}

/// Whether some instruction of the list is a terminator.
pub open spec fn seq_has_terminator(s: Seq<Inst>) -> bool {
    exists|k: int| 0 <= k < s.len() && is_terminator(#[trigger] s[k])
}

/// Whether some instruction of the block is a terminator.
pub open spec fn block_has_terminator(b: BlockV) -> bool {
    seq_has_terminator(b.insts)
}

/// The result `create_add` reports, given the module, the insertion point
/// and the operands: the produced value handle, or the exact error.
pub open spec fn add_outcome(m: ModuleV, ip: Option<BasicBlock>, lhs: Value, rhs: Value) -> Result<
    Value,
    BuildError,
> {
    match ip {
        None => Err(BuildError::InvalidState),
        Some(bb) => if !m.valid_block(bb.function as int, bb.block as int) {
            Err(BuildError::InvalidState)
        } else if lhs.ty != rhs.ty {
            Err(BuildError::TypeMismatch)
        } else if block_has_terminator(m.block_at(bb.function as int, bb.block as int)) {
            Err(BuildError::AfterTerminator)
        } else {
            Ok(
                Value {
                    ty: lhs.ty,
                    operand: Operand::InstResult {
                        function: bb.function,
                        block: bb.block,
                        index: m.block_at(bb.function as int, bb.block as int).insts.len() as usize,
                    },
                },
            )
        },
    }
}

/// The module `create_add` leaves behind: unchanged on error, otherwise
/// with the addition appended to the insertion-point block.
pub open spec fn add_new_module(m: ModuleV, ip: Option<BasicBlock>, lhs: Value, rhs: Value) -> ModuleV {
    if add_outcome(m, ip, lhs, rhs) is Ok {
        let bb = ip->Some_0;
        m.with_inst(
            bb.function as int,
            bb.block as int,
            Inst::Add { ty: lhs.ty, lhs: lhs, rhs: rhs },
        )
    } else {
        m
    }
}

/// The result `create_ret` reports, given the module, the insertion point
/// and the returned value.
pub open spec fn ret_outcome(m: ModuleV, ip: Option<BasicBlock>, value: Value) -> Result<
    (),
    BuildError,
> {
    match ip {
        None => Err(BuildError::InvalidState),
        Some(bb) => if !m.valid_block(bb.function as int, bb.block as int) {
            Err(BuildError::InvalidState)
        } else if block_has_terminator(m.block_at(bb.function as int, bb.block as int)) {
            Err(BuildError::DoubleTerminator)
        } else {
            Ok(())
        },
    }
}

/// The module `create_ret` leaves behind: unchanged on error, otherwise
/// with the return appended as the insertion-point block's terminator.
pub open spec fn ret_new_module(m: ModuleV, ip: Option<BasicBlock>, value: Value) -> ModuleV {
    if ret_outcome(m, ip, value) is Ok {
        let bb = ip->Some_0;
        m.with_inst(bb.function as int, bb.block as int, Inst::Ret { value: value })
    } else {
        m
    }
}

/// A successful `create_add` leaves the insertion-point block still open:
/// it gains exactly the one emitted instruction and still has no
/// terminator, so emission may continue.
pub proof fn lemma_add_keeps_block_open(m: ModuleV, ip: Option<BasicBlock>, lhs: Value, rhs: Value)
    requires
        add_outcome(m, ip, lhs, rhs) is Ok,
    ensures
        ({
            let bb = ip->Some_0;
            let new_blk = add_new_module(m, ip, lhs, rhs).block_at(
                bb.function as int,
                bb.block as int,
            );
            let old_blk = m.block_at(bb.function as int, bb.block as int);
            &&& !block_has_terminator(new_blk)
            &&& new_blk.insts == old_blk.insts.push(
                Inst::Add { ty: lhs.ty, lhs: lhs, rhs: rhs },
            )
        }),
{
    let bb = ip->Some_0;
    let old_blk = m.block_at(bb.function as int, bb.block as int);
    let new_blk = add_new_module(m, ip, lhs, rhs).block_at(bb.function as int, bb.block as int);
    assert(new_blk.insts == old_blk.insts.push(Inst::Add { ty: lhs.ty, lhs: lhs, rhs: rhs }));
    assert forall|k: int| 0 <= k < new_blk.insts.len() implies !is_terminator(
        #[trigger] new_blk.insts[k],
    ) by {
        if k < old_blk.insts.len() {
            assert(new_blk.insts[k] == old_blk.insts[k]);
            assert(!is_terminator(old_blk.insts[k]));
        }
    }
}

/// A successful `create_ret` leaves the insertion-point block terminated:
/// the block then passes the structural check the engine's build step
/// makes, so ending emission with one `create_ret` is exactly what turns a
/// block into a compilable unit.
pub proof fn lemma_ret_terminates_block(m: ModuleV, ip: Option<BasicBlock>, value: Value)
    requires
        ret_outcome(m, ip, value) is Ok,
    ensures
        ({
            let bb = ip->Some_0;
            crate::semantics::block_terminated(
                ret_new_module(m, ip, value).block_at(bb.function as int, bb.block as int),
            )
        }),
{
    let bb = ip->Some_0;
    let old_blk = m.block_at(bb.function as int, bb.block as int);
    let new_blk = ret_new_module(m, ip, value).block_at(bb.function as int, bb.block as int);
    assert(new_blk.insts == old_blk.insts.push(Inst::Ret { value: value }));
    assert(is_terminator(new_blk.insts.last()));
    assert forall|k: int| 0 <= k < new_blk.insts.len() - 1 implies !is_terminator(
        #[trigger] new_blk.insts[k],
    ) by {
        assert(new_blk.insts[k] == old_blk.insts[k]);
        assert(!is_terminator(old_blk.insts[k]));
    }
}

/// Whether any instruction of the list is a terminator.
fn has_terminator(insts: &Vec<Inst>) -> (r: bool)
    ensures
        r == seq_has_terminator(insts@),
{
    let mut i: usize = 0;
    while i < insts.len()
        invariant
            i <= insts@.len(),
            forall|k: int| 0 <= k < i ==> !is_terminator(#[trigger] insts@[k]),
        decreases insts@.len() - i,
    {
        if insts[i].terminates() {
            return true;
        }
        i = i + 1;
    }
    false
}

impl Builder {
    /// Creates a builder bound to the given module, with no insertion
    /// point.
    pub fn new(_module: &Module) -> (b: Builder)
        ensures
            b.insert_point is None,
    {
        Builder { insert_point: None }
    }

    /// Moves the insertion point to the end of the given block.  The
    /// builder may move between blocks arbitrarily many times.
    pub fn set_insert_point(&mut self, block: &BasicBlock)
        ensures
            final(self).insert_point == Some(*block),
    {
        self.insert_point = Some(*block);
    }

    /// Returns a typed handle to the `index`-th formal parameter of
    /// `function`.  Fails with `IndexOutOfRange` exactly when `index` is at
    /// or past the end of the signature's parameter list; otherwise the
    /// handle carries that parameter's type.
    pub fn get_param(&mut self, function: &Function, index: u32) -> (r: Result<Value, BuildError>)
        ensures
            *final(self) == *old(self),
            (index as int) < function.ty@.params.len() ==> r == Ok::<Value, BuildError>(
                Value {
                    ty: function.ty@.params[index as int],
                    operand: Operand::Param { function: function.index, index: index as usize },
                },
            ),
            (index as int) >= function.ty@.params.len() ==> r == Err::<Value, BuildError>(
                BuildError::IndexOutOfRange,
            ),
    {
        if (index as usize) < function.ty.params.len() {
            Ok(
                Value {
                    ty: function.ty.params[index as usize],
                    operand: Operand::Param { function: function.index, index: index as usize },
                },
            )
        } else {
            Err(BuildError::IndexOutOfRange)
        }
    }

    /// Emits an addition of `lhs` and `rhs` at the current insertion point
    /// and returns the handle of its result, a value of the operands'
    /// common type.
    ///
    /// Fails with `InvalidState` when no insertion point is set (or it does
    /// not refer into `module`), with `TypeMismatch` when the operand types
    /// differ structurally, and with `AfterTerminator` when the block
    /// already ends in a terminator.
    pub fn create_add(&mut self, module: &mut Module, lhs: &Value, rhs: &Value) -> (r: Result<
        Value,
        BuildError,
    >)
        ensures
            *final(self) == *old(self),
            r == add_outcome(old(module)@, old(self).insert_point, *lhs, *rhs),
            final(module)@ == add_new_module(old(module)@, old(self).insert_point, *lhs, *rhs),
    {
        let bb: BasicBlock = match self.insert_point {
            None => { return Err(BuildError::InvalidState); },
            Some(bb) => bb,
        };
        if bb.function >= module.functions.len() {
            return Err(BuildError::InvalidState);
        }
        if bb.block >= module.functions[bb.function].blocks.len() {
            return Err(BuildError::InvalidState);
        }
        if !(lhs.ty == rhs.ty) {
            return Err(BuildError::TypeMismatch);
        }
        if has_terminator(&module.functions[bb.function].blocks[bb.block].insts) {
            return Err(BuildError::AfterTerminator);
        }
        let index: usize = module.functions[bb.function].blocks[bb.block].insts.len();
        module.push_inst(bb.function, bb.block, Inst::Add { ty: lhs.ty, lhs: *lhs, rhs: *rhs });
        Ok(
            Value {
                ty: lhs.ty,
                operand: Operand::InstResult {
                    function: bb.function,
                    block: bb.block,
                    index: index,
                },
            },
        )
    }

    /// Emits a return of `value` as the terminator of the current
    /// insertion-point block.
    ///
    /// Fails with `InvalidState` when no insertion point is set (or it does
    /// not refer into `module`), and with `DoubleTerminator` when the block
    /// already ends in a terminator: a second terminator is rejected, never
    /// silently appended or overwritten.
    pub fn create_ret(&mut self, module: &mut Module, value: &Value) -> (r: Result<
        (),
        BuildError,
    >)
        ensures
            *final(self) == *old(self),
            r == ret_outcome(old(module)@, old(self).insert_point, *value),
            final(module)@ == ret_new_module(old(module)@, old(self).insert_point, *value),
    {
        let bb: BasicBlock = match self.insert_point {
            None => { return Err(BuildError::InvalidState); },
            Some(bb) => bb,
        };
        if bb.function >= module.functions.len() {
            return Err(BuildError::InvalidState);
        }
        if bb.block >= module.functions[bb.function].blocks.len() {
            return Err(BuildError::InvalidState);
        }
        let closed: bool = has_terminator(&module.functions[bb.function].blocks[bb.block].insts);
        proof {
            assert(module.functions@[bb.function as int]@.blocks[bb.block as int] == module@.block_at(
                bb.function as int,
                bb.block as int,
            ));
        }
        if closed {
            return Err(BuildError::DoubleTerminator);
        }
        module.push_inst(bb.function, bb.block, Inst::Ret { value: *value });
        Ok(())
    }
}

} // verus!
