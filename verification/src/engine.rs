//! The execution engine: consumes a fully built module, performs the build
//! step (the structural check of the whole graph), finalizes, and resolves
//! functions to invokable entries.
use vstd::prelude::*;

use crate::error::JitError;
use crate::ir::{Inst, Operand, Value};
use crate::module::{FunctionData, Function, Module, ModuleV};
use crate::semantics::{
    block_terminated, blocks_terminated, eval_insts, function_result, inst_ok, insts_terminated,
    is_defined, module_compilable, operand_ok, operand_value, operands_ok, wrap_add,
};

verus! {

/// The resolved address of a compiled function: an entry into the engine's
/// compiled module, or null.
#[derive(Clone, Copy, Debug, PartialEq, Eq, Structural)]
pub struct FuncPtr {
    /// The compiled entry this pointer designates, when it is not null.
    pub address: Option<usize>,
}

impl FuncPtr {
    /// Whether this is the null address: the function had no body, or
    /// resolution otherwise failed.
    pub open spec fn spec_is_null(&self) -> bool {
        self.address is None
    }

    /// Whether this is the null address.
    #[verifier::when_used_as_spec(spec_is_null)]
    pub fn is_null(&self) -> (r: bool)
        ensures
            r == self.spec_is_null(),
    {
        match self.address {
            None => true,
            Some(_) => false,
        }
    }
}

/// The observable state of an execution engine: the module it owns, and
/// whether the compiled code has been finalized.
pub ghost struct EngineV {
    pub module: ModuleV,
    pub finalized: bool,
}

/// The engine build step's report on a module: acceptance exactly for
/// compilable modules, with unterminated blocks reported ahead of invalid
/// operands.
pub open spec fn build_report(m: ModuleV) -> Result<(), JitError> {
    if !blocks_terminated(m) {
        Err(JitError::UnterminatedBlock)
    } else if !operands_ok(m) {
        Err(JitError::InvalidOperand)
    } else {
        Ok(())
    }
}

/// What resolving a function handle yields: a non-null pointer exactly
/// when the engine is finalized and the handle names a defined function of
/// the engine's module.
pub open spec fn resolution(e: EngineV, f: Function) -> FuncPtr {
    if e.finalized && f.index < e.module.functions.len() && is_defined(
        e.module.functions[f.index as int],
    ) {
        FuncPtr { address: Some(f.index) }
    } else {
        FuncPtr { address: None }
    }
}

/// What invoking a pointer with the given arguments yields: the designated
/// function's computed value when the pointer designates a defined
/// function of the finalized engine's module and the argument count
/// matches its signature; `None` otherwise.
pub open spec fn invocation(e: EngineV, p: FuncPtr, args: Seq<i32>) -> Option<i32> {
    match p.address {
        None => None,
        Some(f) => if e.finalized && f < e.module.functions.len() && is_defined(
            e.module.functions[f as int],
        ) && args.len() == e.module.functions[f as int].ty.params.len() {
            function_result(e.module, f as int, args)
        } else {
            None
        },
    }
}

/// Checks that a block's instruction list ends in exactly one terminator.
fn check_block(insts: &Vec<Inst>) -> (r: bool)
    ensures
        r == insts_terminated(insts@),
{
    let n: usize = insts.len();
    if n == 0 {
        return false;
    }
    if !insts[n - 1].terminates() {
        return false;
    }
    let mut i: usize = 0;
    while i < n - 1
        invariant
            n == insts@.len(),
            n >= 1,
            i <= n - 1,
            forall|k: int| 0 <= k < i ==> !crate::ir::is_terminator(#[trigger] insts@[k]),
        decreases n - 1 - i,
    {
        if insts[i].terminates() {
            return false;
        }
        i = i + 1;
    }
    true
}

/// Checks that every block of every function of the module is terminated.
fn check_blocks_terminated(m: &Module) -> (r: bool)
    ensures
        r == blocks_terminated(m@),
{
    let mut f: usize = 0;
    while f < m.functions.len()
        invariant
            f <= m.functions@.len(),
            forall|ff: int, b: int|
                0 <= ff < f && 0 <= b < m@.functions[ff].blocks.len() ==> block_terminated(
                    #[trigger] m@.functions[ff].blocks[b],
                ),
        decreases m.functions@.len() - f,
    {
        let nb: usize = m.functions[f].blocks.len();
        let mut b: usize = 0;
        while b < nb
            invariant
                f < m.functions@.len(),
                nb == m@.functions[f as int].blocks.len(),
                b <= nb,
                forall|bb: int|
                    0 <= bb < b ==> block_terminated(#[trigger] m@.functions[f as int].blocks[bb]),
            decreases nb - b,
        {
            let ok: bool = check_block(&m.functions[f].blocks[b].insts);
            proof {
                assert(m@.functions[f as int].blocks[b as int]
                    == m.functions@[f as int]@.blocks[b as int]);
            }
            if !ok {
                return false;
            }
            b = b + 1;
        }
        f = f + 1;
    }
    true
}

/// Checks one operand of the `i`-th instruction of block `b` of `fd`.
fn check_operand(fd: &FunctionData, fidx: usize, b: usize, i: usize, v: &Value) -> (r: bool)
    requires
        b < fd@.blocks.len(),
        i <= fd@.blocks[b as int].insts.len(),
    ensures
        r == operand_ok(fd@, fidx as int, b as int, i as int, *v),
{
    match v.operand {
        Operand::Param { function, index } => {
            if function != fidx {
                return false;
            }
            if index >= fd.ty.params.len() {
                return false;
            }
            v.ty == fd.ty.params[index]
        },
        Operand::InstResult { function, block, index } => {
            if function != fidx {
                return false;
            }
            if block != b {
                return false;
            }
            if index >= i {
                return false;
            }
            match fd.blocks[b].insts[index] {
                Inst::Add { ty, .. } => ty == v.ty,
                _ => false,
            }
        },
    }
}

/// Checks the `i`-th instruction of block `b` of `fd`.
fn check_inst(fd: &FunctionData, fidx: usize, b: usize, i: usize) -> (r: bool)
    requires
        b < fd@.blocks.len(),
        i < fd@.blocks[b as int].insts.len(),
    ensures
        r == inst_ok(fd@, fidx as int, b as int, i as int),
{
    let inst: Inst = fd.blocks[b].insts[i];
    match inst {
        Inst::Add { ty, lhs, rhs } => check_operand(fd, fidx, b, i, &lhs) && check_operand(
            fd,
            fidx,
            b,
            i,
            &rhs,
        ) && lhs.ty == ty && rhs.ty == ty,
        Inst::Ret { value } => check_operand(fd, fidx, b, i, &value) && value.ty == fd.ty.ret,
    }
}

/// Checks that every instruction of the module is well formed.
fn check_operands(m: &Module) -> (r: bool)
    ensures
        r == operands_ok(m@),
{
    let mut f: usize = 0;
    while f < m.functions.len()
        invariant
            f <= m.functions@.len(),
            forall|ff: int, b: int, i: int|
                0 <= ff < f && 0 <= b < m@.functions[ff].blocks.len() && 0 <= i
                    < m@.functions[ff].blocks[b].insts.len() ==> #[trigger] inst_ok(
                    m@.functions[ff],
                    ff,
                    b,
                    i,
                ),
        decreases m.functions@.len() - f,
    {
        let fd: &FunctionData = &m.functions[f];
        let nb: usize = fd.blocks.len();
        let mut b: usize = 0;
        while b < nb
            invariant
                f < m.functions@.len(),
                *fd == m.functions@[f as int],
                fd@ == m@.functions[f as int],
                nb == fd@.blocks.len(),
                b <= nb,
                forall|bb: int, i: int|
                    0 <= bb < b && 0 <= i < fd@.blocks[bb].insts.len() ==> #[trigger] inst_ok(
                        fd@,
                        f as int,
                        bb,
                        i,
                    ),
            decreases nb - b,
        {
            let ni: usize = fd.blocks[b].insts.len();
            let mut i: usize = 0;
            while i < ni
                invariant
                    f < m.functions@.len(),
                    *fd == m.functions@[f as int],
                    fd@ == m@.functions[f as int],
                    b < fd@.blocks.len(),
                    ni == fd@.blocks[b as int].insts.len(),
                    i <= ni,
                    forall|ii: int|
                        0 <= ii < i ==> #[trigger] inst_ok(fd@, f as int, b as int, ii),
                decreases ni - i,
            {
                if !check_inst(fd, f, b, i) {
                    return false;
                }
                i = i + 1;
            }
            b = b + 1;
        }
        f = f + 1;
    }
    true
}

/// Reads the runtime value an operand stands for.
fn read_operand(v: &Value, args: &Vec<i32>, computed: &Vec<i32>) -> (r: i32)
    requires
        match v.operand {
            Operand::Param { index, .. } => index < args@.len(),
            Operand::InstResult { index, .. } => index < computed@.len(),
        },
    ensures
        r == operand_value(*v, args@, computed@),
{
    match v.operand {
        Operand::Param { index, .. } => args[index],
        Operand::InstResult { index, .. } => computed[index],
    }
}

/// Executes the entry block of the defined function `fidx` of a compilable
/// module on the given arguments.
fn run_function(module: &Module, fidx: usize, args: &Vec<i32>) -> (r: i32)
    requires
        module_compilable(module@),
        fidx < module@.functions.len(),
        is_defined(module@.functions[fidx as int]),
        args@.len() == module@.functions[fidx as int].ty.params.len(),
    ensures
        Some(r) == function_result(module@, fidx as int, args@),
{
    let ghost gm = module@;
    let ghost gf = gm.functions[fidx as int];
    let insts: &Vec<Inst> = &module.functions[fidx].blocks[0].insts;
    proof {
        assert(block_terminated(gm.functions[fidx as int].blocks[0]));
        assert(insts@ == gf.blocks[0].insts);
    }
    let n: usize = insts.len();
    let mut computed: Vec<i32> = Vec::new();
    loop
        invariant
            n == insts@.len(),
            insts@ == gf.blocks[0].insts,
            gm == module@,
            gf == gm.functions[fidx as int],
            module_compilable(gm),
            fidx < gm.functions.len(),
            is_defined(gf),
            args@.len() == gf.ty.params.len(),
            computed@.len() < n,
            eval_insts(insts@, args@, computed@) == function_result(gm, fidx as int, args@),
        decreases n - computed@.len(),
    {
        let p: usize = computed.len();
        let inst: Inst = insts[p];
        proof {
            assert(inst_ok(gf, fidx as int, 0, p as int));
            assert(block_terminated(gf.blocks[0]));
        }
        match inst {
            Inst::Add { lhs, rhs, .. } => {
                let ghost prev = computed@;
                let a: i32 = read_operand(&lhs, args, &computed);
                let c: i32 = read_operand(&rhs, args, &computed);
                let s: i32 = a.wrapping_add(c);
                computed.push(s);
                proof {
                    assert(s == wrap_add(
                        operand_value(lhs, args@, prev),
                        operand_value(rhs, args@, prev),
                    ));
                    assert(eval_insts(insts@, args@, computed@) == eval_insts(insts@, args@, prev));
                    assert(p < n - 1) by {
                        assert(crate::ir::is_terminator(insts@.last()));
                        assert(insts@[p as int] == inst);
                    }
                }
            },
            Inst::Ret { value } => {
                let rv: i32 = read_operand(&value, args, &computed);
                proof {
                    assert(eval_insts(insts@, args@, computed@) == Some(
                        operand_value(value, args@, computed@),
                    ));
                }
                return rv;
            },
        }
    }
}

/// Owns a fully built module and executes its functions.
///
/// The build step happens at construction: a module whose structure is not
/// compilable is rejected there, so an engine never holds an unchecked
/// module.  Taking the module by value consumes it — the move makes the
/// caller's old binding unusable, so no declaration can follow the
/// transfer.  The lifecycle is `Built` (constructed) to `Finalized`
/// (after [`ExecutionEngine::finalize`]); symbol resolution yields non-null
/// addresses only once finalized.
#[derive(Debug)]
pub struct ExecutionEngine {
    module: Module,
    finalized: bool,
}

impl View for ExecutionEngine {
    type V = EngineV;

    closed spec fn view(&self) -> EngineV {
        EngineV { module: self.module@, finalized: self.finalized }
    }
}

impl ExecutionEngine {
    #[verifier::type_invariant]
    spec fn wf(self) -> bool {
        module_compilable(self.module@)
    }

    /// Takes ownership of the module and performs the backend build step,
    /// checking the structure of the whole graph.  A module that is not
    /// compilable is rejected explicitly here, rather than yielding a
    /// partially broken engine.
    pub fn new(module: Module) -> (r: Result<ExecutionEngine, JitError>)
        ensures
            r is Ok <==> module_compilable(module@),
            r matches Ok(e) ==> e@ == (EngineV { module: module@, finalized: false }),
            r matches Err(err) ==> Err::<(), JitError>(err) == build_report(module@),
    {
        if !check_blocks_terminated(&module) {
            return Err(JitError::UnterminatedBlock);
        }
        if !check_operands(&module) {
            return Err(JitError::InvalidOperand);
        }
        Ok(ExecutionEngine { module, finalized: false })
    }

    /// Commits the compiled code into executable form: state `Built` to
    /// `Finalized`.  Finalization is idempotent: repeated calls leave the
    /// engine finalized.
    pub fn finalize(&mut self)
        ensures
            final(self)@ == (EngineV { module: old(self)@.module, finalized: true }),
    {
        proof {
            use_type_invariant(&*self);
        }
        self.finalized = true;
    }

    /// Resolves a function handle to its compiled entry address.  The
    /// result is null when the engine is not finalized, when the handle
    /// does not name a function of the engine's module, or when the
    /// function was declared without a body — resolution never invents
    /// code for an empty function.
    pub fn get_pointer_to_function(&self, function: &Function) -> (p: FuncPtr)
        ensures
            p == resolution(self@, *function),
    {
        if self.finalized && function.index < self.module.functions.len() {
            if self.module.functions[function.index].blocks.len() > 0 {
                return FuncPtr { address: Some(function.index) };
            }
        }
        FuncPtr { address: None }
    }

    /// Runs the function a pointer resolves to on the given arguments and
    /// returns its computed value.  The result is `None` exactly when the
    /// pointer is null, does not designate a defined function of this
    /// finalized engine's module, or the argument count does not match the
    /// function's signature.
    pub fn invoke(&self, ptr: &FuncPtr, args: &Vec<i32>) -> (r: Option<i32>)
        ensures
            r == invocation(self@, *ptr, args@),
    {
        proof {
            use_type_invariant(&*self);
        }
        let f: usize = match ptr.address {
            None => { return None; },
            Some(f) => f,
        };
        if !self.finalized {
            return None;
        }
        if f >= self.module.functions.len() {
            return None;
        }
        if self.module.functions[f].blocks.len() == 0 {
            return None;
        }
        if args.len() != self.module.functions[f].ty.params.len() {
            return None;
        }
        let r: i32 = run_function(&self.module, f, args);
        Some(r)
    }
}

} // verus!
