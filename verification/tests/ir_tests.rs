use jit_ir::builder::Builder;
use jit_ir::engine::ExecutionEngine;
use jit_ir::error::{BuildError, JitError};
use jit_ir::ir::{Inst, Operand, Value};
use jit_ir::module::{BlockData, FunctionData, Module};
use jit_ir::types::{FunctionType, Type};

#[test]
fn int_types_of_same_width_are_equal() {
    let mut module = Module::new("types");
    let a = module.get_int32_type();
    let b = module.get_int32_type();
    let c = module.get_int_type(32);
    assert_eq!(a, b);
    assert_eq!(a, c);
    assert_eq!(a.width, 32);
    let wide = module.get_int_type(64);
    assert_ne!(a, wide);
}

#[test]
fn int_types_of_same_width_are_interchangeable_in_add() {
    let mut module = Module::new("types");
    let ret = module.get_int32_type();
    let p0 = module.get_int32_type();
    let p1 = module.get_int32_type();
    let ft = module.create_function_type(&ret, &vec![p0, p1]);
    let mut function = module.add_function("f", &ft);
    let block = function.create_basic_block(&mut module, "entry").unwrap();
    let mut builder = block.build();
    let a = builder.get_param(&function, 0).unwrap();
    let b = builder.get_param(&function, 1).unwrap();
    // The two parameter types were created by separate calls; the addition
    // only requires structural equality, so it succeeds.
    let sum = builder.create_add(&mut module, &a, &b).unwrap();
    assert_eq!(sum.get_type(), ret);
}

#[test]
fn unterminated_block_rejected_at_build() {
    let mut module = Module::new("bad");
    let i32t = module.get_int32_type();
    let ft = module.create_function_type(&i32t, &vec![i32t]);
    let mut function = module.add_function("f", &ft);
    let block = function.create_basic_block(&mut module, "entry").unwrap();
    let mut builder = block.build();
    let a = builder.get_param(&function, 0).unwrap();
    let b = builder.get_param(&function, 0).unwrap();
    builder.create_add(&mut module, &a, &b).unwrap();
    // No terminator was emitted: the build step must reject the module
    // before any callable pointer can exist.
    match ExecutionEngine::new(module) {
        Err(JitError::UnterminatedBlock) => {}
        other => panic!("expected UnterminatedBlock, got {:?}", other.is_ok()),
    }
}

#[test]
fn empty_block_rejected_at_build() {
    let mut module = Module::new("bad");
    let i32t = module.get_int32_type();
    let ft = module.create_function_type(&i32t, &vec![]);
    let mut function = module.add_function("f", &ft);
    function.create_basic_block(&mut module, "entry").unwrap();
    match ExecutionEngine::new(module) {
        Err(JitError::UnterminatedBlock) => {}
        other => panic!("expected UnterminatedBlock, got {:?}", other.is_ok()),
    }
}

#[test]
fn get_param_bounds() {
    let mut module = Module::new("params");
    let i32t = module.get_int32_type();
    let i64t = module.get_int_type(64);
    let ft = module.create_function_type(&i32t, &vec![i32t, i64t]);
    let mut function = module.add_function("f", &ft);
    let block = function.create_basic_block(&mut module, "entry").unwrap();
    let mut builder = block.build();
    let p0 = builder.get_param(&function, 0).unwrap();
    assert_eq!(p0.get_type(), i32t);
    assert_eq!(
        p0.operand,
        Operand::Param { function: function.index, index: 0 }
    );
    let p1 = builder.get_param(&function, 1).unwrap();
    assert_eq!(p1.get_type(), i64t);
    assert_eq!(builder.get_param(&function, 2), Err(BuildError::IndexOutOfRange));
    assert_eq!(builder.get_param(&function, 1000), Err(BuildError::IndexOutOfRange));
}

#[test]
fn add_requires_equal_types() {
    let mut module = Module::new("mismatch");
    let i32t = module.get_int32_type();
    let i64t = module.get_int_type(64);
    let ft = module.create_function_type(&i32t, &vec![i32t, i64t]);
    let mut function = module.add_function("f", &ft);
    let block = function.create_basic_block(&mut module, "entry").unwrap();
    let mut builder = block.build();
    let a = builder.get_param(&function, 0).unwrap();
    let b = builder.get_param(&function, 1).unwrap();
    assert_eq!(
        builder.create_add(&mut module, &a, &b),
        Err(BuildError::TypeMismatch)
    );
    // Nothing was emitted by the failed call.
    assert_eq!(module.functions[0].blocks[0].insts.len(), 0);
    // Operands of one type are accepted and produce a value of that type.
    let sum = builder.create_add(&mut module, &a, &a).unwrap();
    assert_eq!(sum.get_type(), i32t);
}

#[test]
fn end_to_end_add_and_invoke() {
    let mut module = Module::new("demo");
    let return_type = module.get_int32_type();
    let param1_type = module.get_int32_type();
    let param2_type = module.get_int32_type();
    let function_type = module.create_function_type(&return_type, &vec![param1_type, param2_type]);
    let mut function = module.add_function("foo", &function_type);

    let block = function.create_basic_block(&mut module, "init").unwrap();
    let mut builder = block.build();
    let param1 = builder.get_param(&function, 0).unwrap();
    let param2 = builder.get_param(&function, 1).unwrap();
    let sum = builder.create_add(&mut module, &param1, &param2).unwrap();
    builder.create_ret(&mut module, &sum).unwrap();

    let mut engine = ExecutionEngine::new(module).unwrap();
    engine.finalize();
    let fptr = engine.get_pointer_to_function(&function);
    assert!(!fptr.is_null());
    assert_eq!(engine.invoke(&fptr, &vec![12, 13]), Some(25));
    assert_eq!(engine.invoke(&fptr, &vec![-5, 5]), Some(0));
}

#[test]
fn declaration_resolves_to_null() {
    let mut module = Module::new("decl");
    let i32t = module.get_int32_type();
    let ft = module.create_function_type(&i32t, &vec![i32t]);
    let function = module.add_function("external_f", &ft);
    let mut engine = ExecutionEngine::new(module).unwrap();
    engine.finalize();
    let fptr = engine.get_pointer_to_function(&function);
    assert!(fptr.is_null());
    assert_eq!(engine.invoke(&fptr, &vec![1]), None);
}

#[test]
fn resolution_before_finalize_is_null() {
    let mut module = Module::new("order");
    let i32t = module.get_int32_type();
    let ft = module.create_function_type(&i32t, &vec![i32t]);
    let mut function = module.add_function("f", &ft);
    let block = function.create_basic_block(&mut module, "entry").unwrap();
    let mut builder = block.build();
    let a = builder.get_param(&function, 0).unwrap();
    builder.create_ret(&mut module, &a).unwrap();
    let mut engine = ExecutionEngine::new(module).unwrap();
    // Symbol lookup is valid only after finalization.
    let early = engine.get_pointer_to_function(&function);
    assert!(early.is_null());
    engine.finalize();
    let fptr = engine.get_pointer_to_function(&function);
    assert!(!fptr.is_null());
    assert_eq!(engine.invoke(&fptr, &vec![41]), Some(41));
    // Finalizing again is harmless.
    engine.finalize();
    assert_eq!(engine.invoke(&fptr, &vec![41]), Some(41));
}

#[test]
fn double_terminator_rejected() {
    let mut module = Module::new("twice");
    let i32t = module.get_int32_type();
    let ft = module.create_function_type(&i32t, &vec![i32t]);
    let mut function = module.add_function("f", &ft);
    let block = function.create_basic_block(&mut module, "entry").unwrap();
    let mut builder = block.build();
    let a = builder.get_param(&function, 0).unwrap();
    builder.create_ret(&mut module, &a).unwrap();
    assert_eq!(
        builder.create_ret(&mut module, &a),
        Err(BuildError::DoubleTerminator)
    );
    // The failed call neither overwrote nor appended: one terminator stays.
    assert_eq!(module.functions[0].blocks[0].insts.len(), 1);
}

#[test]
fn emitting_after_terminator_rejected() {
    let mut module = Module::new("after");
    let i32t = module.get_int32_type();
    let ft = module.create_function_type(&i32t, &vec![i32t]);
    let mut function = module.add_function("f", &ft);
    let block = function.create_basic_block(&mut module, "entry").unwrap();
    let mut builder = block.build();
    let a = builder.get_param(&function, 0).unwrap();
    builder.create_ret(&mut module, &a).unwrap();
    assert_eq!(
        builder.create_add(&mut module, &a, &a),
        Err(BuildError::AfterTerminator)
    );
    assert_eq!(module.functions[0].blocks[0].insts.len(), 1);
}

#[test]
fn emitting_without_insert_point_rejected() {
    let mut module = Module::new("nopoint");
    let i32t = module.get_int32_type();
    let ft = module.create_function_type(&i32t, &vec![i32t]);
    let mut function = module.add_function("f", &ft);
    let block = function.create_basic_block(&mut module, "entry").unwrap();
    let mut builder = Builder::new(&module);
    let a = Builder::new(&module).get_param(&function, 0).unwrap();
    assert_eq!(
        builder.create_add(&mut module, &a, &a),
        Err(BuildError::InvalidState)
    );
    assert_eq!(builder.create_ret(&mut module, &a), Err(BuildError::InvalidState));
    // Setting the insertion point moves the builder into the emitting state.
    builder.set_insert_point(&block);
    builder.create_ret(&mut module, &a).unwrap();
}

#[test]
fn foreign_handles_rejected() {
    let mut module_a = Module::new("a");
    let mut module_b = Module::new("b");
    let i32t = module_a.get_int32_type();
    let ft = module_a.create_function_type(&i32t, &vec![i32t]);
    let mut function = module_a.add_function("f", &ft);
    // The handle names a function of module_a; module_b has none.
    assert_eq!(
        function.create_basic_block(&mut module_b, "entry"),
        Err(BuildError::InvalidState)
    );
}

#[test]
fn cross_function_operand_rejected_at_build() {
    let mut module = Module::new("cross");
    let i32t = module.get_int32_type();
    let ft = module.create_function_type(&i32t, &vec![i32t]);
    let mut f1 = module.add_function("first", &ft);
    let mut f2 = module.add_function("second", &ft);
    let b1 = f1.create_basic_block(&mut module, "entry").unwrap();
    let b2 = f2.create_basic_block(&mut module, "entry").unwrap();
    let mut builder = Builder::new(&module);
    builder.set_insert_point(&b1);
    let own = builder.get_param(&f1, 0).unwrap();
    builder.create_ret(&mut module, &own).unwrap();
    // A parameter of `first` returned from `second` does not resolve.
    builder.set_insert_point(&b2);
    builder.create_ret(&mut module, &own).unwrap();
    match ExecutionEngine::new(module) {
        Err(JitError::InvalidOperand) => {}
        other => panic!("expected InvalidOperand, got {:?}", other.is_ok()),
    }
}

#[test]
fn return_type_mismatch_rejected_at_build() {
    let mut module = Module::new("retty");
    let i32t = module.get_int32_type();
    let i64t = module.get_int_type(64);
    let ft = module.create_function_type(&i32t, &vec![i64t]);
    let mut function = module.add_function("f", &ft);
    let block = function.create_basic_block(&mut module, "entry").unwrap();
    let mut builder = block.build();
    let a = builder.get_param(&function, 0).unwrap();
    // The emission protocol does not check the returned value's type; the
    // build step does.
    builder.create_ret(&mut module, &a).unwrap();
    match ExecutionEngine::new(module) {
        Err(JitError::InvalidOperand) => {}
        other => panic!("expected InvalidOperand, got {:?}", other.is_ok()),
    }
}

#[test]
fn forward_operand_reference_rejected_at_build() {
    let i32t = Type { width: 32 };
    // A hand-assembled block whose return names its own, never computed,
    // instruction result.
    let v = Value {
        ty: i32t,
        operand: Operand::InstResult { function: 0, block: 0, index: 0 },
    };
    let blk = BlockData {
        name: String::from("entry"),
        insts: vec![Inst::Ret { value: v }],
    };
    let fd = FunctionData {
        name: String::from("f"),
        ty: FunctionType { ret: i32t, params: vec![] },
        blocks: vec![blk],
    };
    let module = Module { name: String::from("forged"), functions: vec![fd] };
    match ExecutionEngine::new(module) {
        Err(JitError::InvalidOperand) => {}
        other => panic!("expected InvalidOperand, got {:?}", other.is_ok()),
    }
}

#[test]
fn invoke_checks_argument_count() {
    let mut module = Module::new("arity");
    let i32t = module.get_int32_type();
    let ft = module.create_function_type(&i32t, &vec![i32t, i32t]);
    let mut function = module.add_function("f", &ft);
    let block = function.create_basic_block(&mut module, "entry").unwrap();
    let mut builder = block.build();
    let a = builder.get_param(&function, 0).unwrap();
    builder.create_ret(&mut module, &a).unwrap();
    let mut engine = ExecutionEngine::new(module).unwrap();
    engine.finalize();
    let fptr = engine.get_pointer_to_function(&function);
    assert_eq!(engine.invoke(&fptr, &vec![1]), None);
    assert_eq!(engine.invoke(&fptr, &vec![1, 2, 3]), None);
    assert_eq!(engine.invoke(&fptr, &vec![7, 9]), Some(7));
}

#[test]
fn addition_wraps_on_overflow() {
    let mut module = Module::new("wrap");
    let i32t = module.get_int32_type();
    let ft = module.create_function_type(&i32t, &vec![i32t, i32t]);
    let mut function = module.add_function("f", &ft);
    let block = function.create_basic_block(&mut module, "entry").unwrap();
    let mut builder = block.build();
    let a = builder.get_param(&function, 0).unwrap();
    let b = builder.get_param(&function, 1).unwrap();
    let sum = builder.create_add(&mut module, &a, &b).unwrap();
    builder.create_ret(&mut module, &sum).unwrap();
    let mut engine = ExecutionEngine::new(module).unwrap();
    engine.finalize();
    let fptr = engine.get_pointer_to_function(&function);
    assert_eq!(engine.invoke(&fptr, &vec![i32::MAX, 1]), Some(i32::MIN));
    assert_eq!(engine.invoke(&fptr, &vec![i32::MIN, -1]), Some(i32::MAX));
}

#[test]
fn chained_additions() {
    let mut module = Module::new("chain");
    let i32t = module.get_int32_type();
    let ft = module.create_function_type(&i32t, &vec![i32t, i32t, i32t]);
    let mut function = module.add_function("f", &ft);
    let block = function.create_basic_block(&mut module, "entry").unwrap();
    let mut builder = block.build();
    let a = builder.get_param(&function, 0).unwrap();
    let b = builder.get_param(&function, 1).unwrap();
    let c = builder.get_param(&function, 2).unwrap();
    let ab = builder.create_add(&mut module, &a, &b).unwrap();
    let abc = builder.create_add(&mut module, &ab, &c).unwrap();
    builder.create_ret(&mut module, &abc).unwrap();
    let mut engine = ExecutionEngine::new(module).unwrap();
    engine.finalize();
    let fptr = engine.get_pointer_to_function(&function);
    assert_eq!(engine.invoke(&fptr, &vec![100, 20, 3]), Some(123));
}

#[test]
fn dump_renders_the_module() {
    let mut module = Module::new("demo");
    let i32t = module.get_int32_type();
    let ft = module.create_function_type(&i32t, &vec![i32t, i32t]);
    let mut function = module.add_function("foo", &ft);
    let block = function.create_basic_block(&mut module, "init").unwrap();
    let mut builder = block.build();
    let a = builder.get_param(&function, 0).unwrap();
    let b = builder.get_param(&function, 1).unwrap();
    let sum = builder.create_add(&mut module, &a, &b).unwrap();
    builder.create_ret(&mut module, &sum).unwrap();
    let declared = module.create_function_type(&i32t, &vec![]);
    module.add_function("external_f", &declared);
    let text = module.print();
    assert!(text.contains("module demo"));
    assert!(text.contains("define i32 @foo(i32, i32) {"));
    assert!(text.contains("init:"));
    assert!(text.contains("%t0 = add i32 %p0, %p1"));
    assert!(text.contains("ret i32 %t0"));
    assert!(text.contains("declare i32 @external_f()"));
}
