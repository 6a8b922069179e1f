use sway_verified::ir::arg_demotion::{
    create_arg_demotion_pass, fn_arg_demotion, AnalysisResults, FunctionTransform, PassMutability, ScopedPass,
};
use sway_verified::ir::function::{Function, Instruction, Module};
use sway_verified::ir::irtype::{Context, Type};

#[test]
fn the_pass_is_described() {
    let pass = create_arg_demotion_pass();
    assert_eq!(pass.name, "argdemotion");
    assert_eq!(pass.descr, "By-value function argument demotion to by-reference.");
    assert_eq!(pass.runner, ScopedPass::FunctionPass(PassMutability::Transform(FunctionTransform::ArgDemotion)));
}

#[test]
fn an_aggregate_passed_by_load_is_demoted() {
    let mut ctx = Context::new();
    let m = Module::new(&mut ctx);
    let u64_ty = Type::new_uint(&mut ctx, 64);
    let agg = Type::new_struct(&mut ctx, vec![u64_ty, u64_ty]);
    let ptr = Type::new_pointer(&mut ctx, agg);
    let callee = Function::new(&mut ctx, m, "callee".to_string(), vec![("a".to_string(), agg), ("n".to_string(), u64_ty)]);
    let caller = Function::new(&mut ctx, m, "caller".to_string(), vec![("p".to_string(), ptr), ("k".to_string(), u64_ty)]);
    let entry = caller.get_entry_block(&ctx);
    let p = entry.get_arg(&ctx, 0).unwrap();
    let k = entry.get_arg(&ctx, 1).unwrap();
    let loaded = entry.append_instruction(&mut ctx, Instruction::Load(p));
    let call = entry.append_instruction(&mut ctx, Instruction::Call(callee, vec![loaded, k]));
    let changed = fn_arg_demotion(&mut ctx, &AnalysisResults {}, callee);
    assert!(matches!(changed, Ok(true)));
    let callee_entry = callee.get_entry_block(&ctx);
    let a = callee_entry.get_arg(&ctx, 0).unwrap();
    let n = callee_entry.get_arg(&ctx, 1).unwrap();
    assert_eq!(a.get_type(&ctx), Some(ptr));
    assert_eq!(n.get_type(&ctx), Some(u64_ty));
    match call.get_instruction(&ctx) {
        Some(Instruction::Call(f, args)) => {
            assert_eq!(*f, callee);
            // The call site is left as it was: it still passes the load.
            assert_eq!(args, &vec![loaded, k]);
        }
        other => panic!("unexpected instruction {:?}", other),
    }
}

#[test]
fn small_arguments_stay() {
    let mut ctx = Context::new();
    let m = Module::new(&mut ctx);
    let boolean = Type::new_bool(&mut ctx);
    let callee = Function::new(&mut ctx, m, "f".to_string(), vec![("b".to_string(), boolean)]);
    let changed = fn_arg_demotion(&mut ctx, &AnalysisResults {}, callee);
    assert!(matches!(changed, Ok(false)));
    assert_eq!(callee.num_args(&ctx), 1);
}

#[test]
fn an_aggregate_passed_without_load_stays() {
    let mut ctx = Context::new();
    let m = Module::new(&mut ctx);
    let u64_ty = Type::new_uint(&mut ctx, 64);
    let agg = Type::new_struct(&mut ctx, vec![u64_ty, u64_ty]);
    let callee = Function::new(&mut ctx, m, "callee".to_string(), vec![("a".to_string(), agg)]);
    let caller = Function::new(&mut ctx, m, "caller".to_string(), vec![("v".to_string(), agg)]);
    let entry = caller.get_entry_block(&ctx);
    let v = entry.get_arg(&ctx, 0).unwrap();
    entry.append_instruction(&mut ctx, Instruction::Call(callee, vec![v]));
    let changed = fn_arg_demotion(&mut ctx, &AnalysisResults {}, callee);
    assert!(matches!(changed, Ok(false)));
    let a = callee.get_entry_block(&ctx).get_arg(&ctx, 0).unwrap();
    assert_eq!(a.get_type(&ctx), Some(agg));
    // Nothing was demoted, so no pointer type was made either.
    assert_eq!(ctx.types.len(), 2);
    assert_eq!(ctx.type_map.len(), 2);
}

#[test]
fn demotion_adds_just_the_pointer_type() {
    let mut ctx = Context::new();
    let m = Module::new(&mut ctx);
    let u64_ty = Type::new_uint(&mut ctx, 64);
    let agg = Type::new_struct(&mut ctx, vec![u64_ty, u64_ty]);
    let callee = Function::new(&mut ctx, m, "callee".to_string(), vec![("a".to_string(), agg)]);
    assert_eq!(ctx.types.len(), 2);
    let changed = fn_arg_demotion(&mut ctx, &AnalysisResults {}, callee);
    assert!(matches!(changed, Ok(true)));
    assert_eq!(ctx.types.len(), 3);
    let ptr = Type::new_pointer(&mut ctx, agg);
    assert_eq!(ctx.types.len(), 3);
    assert_eq!(callee.get_entry_block(&ctx).get_arg(&ctx, 0).unwrap().get_type(&ctx), Some(ptr));
}

#[test]
fn a_function_without_calls_is_demoted() {
    let mut ctx = Context::new();
    let m = Module::new(&mut ctx);
    let b256 = Type::new_b256(&mut ctx);
    let callee = Function::new(&mut ctx, m, "f".to_string(), vec![("h".to_string(), b256)]);
    let changed = fn_arg_demotion(&mut ctx, &AnalysisResults {}, callee);
    assert!(matches!(changed, Ok(true)));
    let h = callee.get_entry_block(&ctx).get_arg(&ctx, 0).unwrap();
    let ptr = Type::new_pointer(&mut ctx, b256);
    assert_eq!(h.get_type(&ctx), Some(ptr));
}

#[test]
fn a_second_run_demotes_nothing() {
    let mut ctx = Context::new();
    let m = Module::new(&mut ctx);
    let u64_ty = Type::new_uint(&mut ctx, 64);
    let agg = Type::new_array(&mut ctx, u64_ty, 8);
    let ptr = Type::new_pointer(&mut ctx, agg);
    let callee = Function::new(&mut ctx, m, "callee".to_string(), vec![("a".to_string(), agg)]);
    let caller = Function::new(&mut ctx, m, "caller".to_string(), vec![("p".to_string(), ptr)]);
    let entry = caller.get_entry_block(&ctx);
    let p = entry.get_arg(&ctx, 0).unwrap();
    let loaded = entry.append_instruction(&mut ctx, Instruction::Load(p));
    entry.append_instruction(&mut ctx, Instruction::Call(callee, vec![loaded]));
    assert!(matches!(fn_arg_demotion(&mut ctx, &AnalysisResults {}, callee), Ok(true)));
    assert!(matches!(fn_arg_demotion(&mut ctx, &AnalysisResults {}, callee), Ok(false)));
    let a = callee.get_entry_block(&ctx).get_arg(&ctx, 0).unwrap();
    assert_eq!(a.get_type(&ctx), Some(ptr));
}
