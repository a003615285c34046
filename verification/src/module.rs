//! The module: root owner of a compilation unit's declared functions, their
//! basic blocks and their instructions, together with the handles that refer
//! into it.
use vstd::prelude::*;

use crate::builder::Builder;
use crate::error::BuildError;
use crate::ir::Inst;
use crate::types::{duplicate_function_type, FunctionType, FunctionTypeV, Type};

verus! {

/// One basic block as stored inside a module: a label and the ordered
/// instructions emitted into it so far.
#[derive(Debug)]
pub struct BlockData {
    /// The block's label.
    pub name: String,
    /// The instructions of the block, in emission order.
    pub insts: Vec<Inst>,
}

/// The mathematical shape of a stored basic block.
pub ghost struct BlockV {
    pub name: Seq<char>,
    pub insts: Seq<Inst>,
}

impl View for BlockData {
    type V = BlockV;

    open spec fn view(&self) -> BlockV {
        BlockV { name: self.name@, insts: self.insts@ }
    }
}

/// One declared function as stored inside a module: its name, its signature
/// (fixed at declaration, never mutated), and its ordered basic blocks.  A
/// function with no block is a declaration without a body.
#[derive(Debug)]
pub struct FunctionData {
    /// The function's name.
    pub name: String,
    /// The function's signature.
    pub ty: FunctionType,
    /// The function's basic blocks, in creation order.
    pub blocks: Vec<BlockData>,
}

/// The mathematical shape of a stored function.
pub ghost struct FunctionV {
    pub name: Seq<char>,
    pub ty: FunctionTypeV,
    pub blocks: Seq<BlockV>,
}

impl View for FunctionData {
    type V = FunctionV;

    open spec fn view(&self) -> FunctionV {
        FunctionV {
            name: self.name@,
            ty: self.ty@,
            blocks: self.blocks@.map_values(|b: BlockData| b@),
        }
    }
}

/// The root owner of one compilation unit: it owns every declared function
/// and, through them, every block and instruction.  Handles (`Function`,
/// `BasicBlock`) refer into it by index.
///
/// A module moved into an execution engine is consumed: the move makes the
/// old binding unusable, so no further declarations can be made through it.
#[derive(Debug)]
pub struct Module {
    /// The module's name.
    pub name: String,
    /// The declared functions, in declaration order.
    pub functions: Vec<FunctionData>,
}

/// The mathematical shape of a module.
pub ghost struct ModuleV {
    pub name: Seq<char>,
    pub functions: Seq<FunctionV>,
}

impl View for Module {
    type V = ModuleV;

    open spec fn view(&self) -> ModuleV {
        ModuleV { name: self.name@, functions: self.functions@.map_values(|f: FunctionData| f@) }
    }
}

impl ModuleV {
    /// Whether `f` indexes a declared function.
    pub open spec fn valid_function(self, f: int) -> bool {
        0 <= f < self.functions.len()
    }

    /// Whether `b` indexes a block of the declared function `f`.
    pub open spec fn valid_block(self, f: int, b: int) -> bool {
        self.valid_function(f) && 0 <= b < self.functions[f].blocks.len()
    }

    /// The block `b` of function `f`.
    pub open spec fn block_at(self, f: int, b: int) -> BlockV {
        self.functions[f].blocks[b]
    }

    /// The module after appending a fresh function declaration.
    pub open spec fn with_function(self, name: Seq<char>, ty: FunctionTypeV) -> ModuleV {
        ModuleV {
            functions: self.functions.push(FunctionV { name: name, ty: ty, blocks: Seq::empty() }),
            ..self
        }
    }

    /// The module after appending a fresh, empty block to function `f`.
    pub open spec fn with_block(self, f: int, name: Seq<char>) -> ModuleV {
        let func = self.functions[f];
        ModuleV {
            functions: self.functions.update(
                f,
                FunctionV {
                    blocks: func.blocks.push(BlockV { name: name, insts: Seq::empty() }),
                    ..func
                },
            ),
            ..self
        }
    }

    /// The module after appending one instruction to block `b` of function
    /// `f`.
    pub open spec fn with_inst(self, f: int, b: int, inst: Inst) -> ModuleV {
        let func = self.functions[f];
        let blk = func.blocks[b];
        ModuleV {
            functions: self.functions.update(
                f,
                FunctionV {
                    blocks: func.blocks.update(b, BlockV { insts: blk.insts.push(inst), ..blk }),
                    ..func
                },
            ),
            ..self
        }
    }
}

impl Module {
    /// Creates a new, empty module with the given name.  The backing
    /// context of the compilation unit is owned by the returned value.
    pub fn new(name: &str) -> (m: Module)
        ensures
            m@.name == name@,
            m@.functions.len() == 0,
    {
        Module { name: name.to_owned(), functions: Vec::new() }
    }

    /// Returns the 32-bit scalar integer type of this module's context.
    pub fn get_int32_type(&mut self) -> (t: Type)
        ensures
            final(self)@ == old(self)@,
            t.width == 32,
    {
        Type { width: 32 }
    }

    /// Returns the scalar integer type of the given bit width.  Types are
    /// uniqued structurally: every call with one width returns equal,
    /// interchangeable descriptors.
    pub fn get_int_type(&mut self, width: u32) -> (t: Type)
        requires
            width >= 1,
        ensures
            final(self)@ == old(self)@,
            t.width == width,
    {
        Type { width }
    }

    /// Builds a function signature from a return type and an ordered list
    /// of parameter types.
    pub fn create_function_type(&mut self, return_type: &Type, param_types: &Vec<Type>) -> (ft:
        FunctionType)
        ensures
            final(self)@ == old(self)@,
            ft@.ret == *return_type,
            ft@.params == param_types@,
    {
        FunctionType { ret: *return_type, params: crate::types::copy_types(param_types) }
    }

    /// Declares a new function with the given name and signature in this
    /// module and returns a handle to it.
    ///
    /// Names are labels only: identity is by handle, so declaring two
    /// functions under one name creates two distinct functions rather than
    /// leaving the collision to chance.
    pub fn add_function(&mut self, name: &str, func_type: &FunctionType) -> (f: Function)
        ensures
            final(self)@ == old(self)@.with_function(name@, func_type@),
            f.index == old(self)@.functions.len(),
            f.ty@ == func_type@,
    {
        let ghost old_m = self@;
        let index: usize = self.functions.len();
        let fd = FunctionData {
            name: name.to_owned(),
            ty: duplicate_function_type(func_type),
            blocks: Vec::new(),
        };
        let ghost fdv = fd@;
        self.functions.push(fd);
        proof {
            assert(fdv.blocks =~= Seq::<BlockV>::empty());
            assert(fdv == (FunctionV { name: name@, ty: func_type@, blocks: Seq::empty() }));
            assert(self@.functions =~= old_m.functions.push(fdv));
            assert(self@ == old_m.with_function(name@, func_type@));
        }
        Function { index: index, ty: duplicate_function_type(func_type) }
    }

    /// Appends one instruction to block `b` of function `f`.
    pub(crate) fn push_inst(&mut self, f: usize, b: usize, inst: Inst)
        requires
            old(self)@.valid_block(f as int, b as int),
        ensures
            final(self)@ == old(self)@.with_inst(f as int, b as int, inst),
    {
        let ghost old_m = self@;
        let fd = &mut self.functions[f];
        let ghost old_fdv = fd@;
        let blk = &mut fd.blocks[b];
        let ghost old_blkv = blk@;
        blk.insts.push(inst);
        proof {
            let target = old_m.with_inst(f as int, b as int, inst);
            assert(old_m.functions[f as int] == old_fdv);
            assert(old_fdv.blocks[b as int] == old_blkv);
            assert(self.functions@[f as int]@.blocks =~= target.functions[f as int].blocks);
            assert(self.functions@[f as int]@ == target.functions[f as int]);
            assert(self@.functions =~= target.functions);
            assert(self@ == target);
        }
    }
}

impl Function {
    /// Appends a new, empty basic block with the given label to this
    /// function inside its owning module and returns a handle to it.
    ///
    /// Fails with `InvalidState` when this handle does not refer to a
    /// function declared in `module`.
    pub fn create_basic_block(&mut self, module: &mut Module, name: &str) -> (r: Result<
        BasicBlock,
        BuildError,
    >)
        ensures
            *final(self) == *old(self),
            r is Ok <==> old(self).index < old(module)@.functions.len(),
            r matches Ok(bb) ==> {
                &&& bb.function == old(self).index
                &&& bb.block == old(module)@.functions[old(self).index as int].blocks.len()
                &&& final(module)@ == old(module)@.with_block(old(self).index as int, name@)
            },
            r is Err ==> r == Err::<BasicBlock, BuildError>(BuildError::InvalidState)
                && final(module)@ == old(module)@,
    {
        if self.index >= module.functions.len() {
            return Err(BuildError::InvalidState);
        }
        let ghost old_m = module@;
        let block: usize = module.functions[self.index].blocks.len();
        let fd = &mut module.functions[self.index];
        let ghost old_fdv = fd@;
        let bd = BlockData { name: name.to_owned(), insts: Vec::new() };
        let ghost bdv = bd@;
        fd.blocks.push(bd);
        proof {
            let target = old_m.with_block(self.index as int, name@);
            assert(old_m.functions[self.index as int] == old_fdv);
            assert(bdv.insts =~= Seq::<Inst>::empty());
            assert(bdv == (BlockV { name: name@, insts: Seq::empty() }));
            assert(module.functions@[self.index as int]@.blocks =~= target.functions[self.index as int].blocks);
            assert(module.functions@[self.index as int]@ == target.functions[self.index as int]);
            assert(module@.functions =~= target.functions);
            assert(module@ == target);
        }
        Ok(BasicBlock { function: self.index, block: block })
    }
}

/// A handle to a function declared in a module: the function's position in
/// the module's declaration order, together with its signature (fixed at
/// declaration).
#[derive(Debug, Clone)]
pub struct Function {
    /// The function's position among the module's declarations.
    pub index: usize,
    /// The function's signature.
    pub ty: FunctionType,
}

/// A handle to one basic block of a declared function.
#[derive(Clone, Copy, Debug, PartialEq, Eq, Structural)]
pub struct BasicBlock {
    /// The owning function's position in the module.
    pub function: usize,
    /// The block's position inside the owning function.
    pub block: usize,
}

impl BasicBlock {
    /// Establishes a transient builder whose insertion point is this block.
    /// The caller emits instructions through the returned builder; the
    /// objects it creates are owned by the module, not by the builder.
    pub fn build(&self) -> (b: Builder)
        ensures
            b.insert_point == Some(*self),
    {
        Builder { insert_point: Some(*self) }
    }
}

} // verus!
