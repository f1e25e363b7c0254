//! Reconstruction of whole modules: classification, order, load failure.

use llvm_ir::foreign::{
    LlvmBlockInfo, LlvmCallInfo, LlvmFunctionInfo, LlvmModuleInfo, LlvmValueInfo, ValueKind,
};
use llvm_ir::instruction::AssemblyDialect;
use llvm_ir::debugloc::HasDebugLoc;
use llvm_ir::module::{LoadError, Module};

fn no_debug(kind: ValueKind) -> LlvmValueInfo {
    LlvmValueInfo { kind, filename: None, directory: None, line: 0, col: 0 }
}

fn asm_call(assembly: &str, constraints: &str, has_side_effects: bool) -> LlvmCallInfo {
    LlvmCallInfo {
        is_inline_assembly: true,
        assembly: assembly.to_owned(),
        constraints: constraints.to_owned(),
        has_side_effects,
        can_unwind: false,
        needs_aligned_stack: false,
        dialect: AssemblyDialect::ATT,
        callee_name: String::new(),
        debug: no_debug(ValueKind::Instruction),
    }
}

fn plain_call(callee_name: &str) -> LlvmCallInfo {
    LlvmCallInfo {
        is_inline_assembly: false,
        assembly: String::new(),
        constraints: String::new(),
        has_side_effects: false,
        can_unwind: false,
        needs_aligned_stack: false,
        dialect: AssemblyDialect::ATT,
        callee_name: callee_name.to_owned(),
        debug: no_debug(ValueKind::Instruction),
    }
}

fn one_function_module(name: &str, instrs: Vec<LlvmCallInfo>) -> LlvmModuleInfo {
    LlvmModuleInfo {
        name: "m".to_owned(),
        functions: vec![LlvmFunctionInfo {
            name: name.to_owned(),
            blocks: vec![LlvmBlockInfo { name: "entry".to_owned(), instrs }],
            debug: no_debug(ValueKind::Function),
        }],
    }
}

#[test]
fn inline_asm() {
    let module = Module::from_load(Ok(one_function_module(
        "inlineasm",
        vec![asm_call("bswap $0", "=r,r", false), asm_call("blt $1, $2, $3", "=r,r,rm", true)],
    )))
    .expect("Failed to parse module");
    let func = module.get_func_by_name("inlineasm").expect("Failed to find function");
    let bb = func.basic_blocks.get(0).expect("expected function to have a basic block");

    let call0 = bb.instrs[0].as_call();
    let call1 = bb.instrs[1].as_call();

    let asm0 = call0.function.left().expect("Expected call to be InlineAssembly");
    let asm1 = call1.function.left().expect("Expected call to be InlineAssembly");

    assert_eq!(asm0.assembly, "bswap $0");
    assert_eq!(asm0.constraints, "=r,r");
    assert_eq!(asm0.can_unwind, false);
    assert_eq!(asm0.has_side_effects, false);
    assert_eq!(asm0.needs_aligned_stack, false);
    assert_eq!(asm0.dialect, AssemblyDialect::ATT);

    assert_eq!(asm1.assembly, "blt $1, $2, $3");
    assert_eq!(asm1.constraints, "=r,r,rm");
    assert_eq!(asm1.can_unwind, false);
    assert_eq!(asm1.has_side_effects, true);
    assert_eq!(asm1.needs_aligned_stack, false);
    assert_eq!(asm1.dialect, AssemblyDialect::ATT);
}

#[test]
fn callee_is_exactly_one_variant() {
    let m = Module::from_load(Ok(one_function_module(
        "f",
        vec![asm_call("nop", "", false), plain_call("g")],
    )))
    .expect("load should succeed");
    let func = m.get_func_by_name("f").expect("function expected");
    let bb = &func.basic_blocks[0];

    let inline = bb.instrs[0].as_call();
    assert!(inline.function.left().is_some());
    assert!(inline.function.right().is_none());

    let plain = bb.instrs[1].as_call();
    assert!(plain.function.left().is_none());
    assert_eq!(plain.function.right().map(|s| s.as_str()), Some("g"));
}

#[test]
fn load_failure_yields_no_graph() {
    // A corrupted or truncated input is rejected by the foreign parser;
    // its report passes through and no module value exists beside it.
    let r = Module::from_load(Err(LoadError { message: "Invalid bitcode signature".to_owned() }));
    match r {
        Ok(_) => panic!("a rejected load must not yield a module"),
        Err(e) => assert_eq!(e.message, "Invalid bitcode signature"),
    }
}

#[test]
fn block_preserves_instruction_order() {
    let m = Module::from_load(Ok(one_function_module(
        "f",
        vec![plain_call("first"), plain_call("second")],
    )))
    .expect("load should succeed");
    let func = m.get_func_by_name("f").expect("function expected");
    let bb = &func.basic_blocks[0];
    assert_eq!(bb.instrs.len(), 2);
    assert_eq!(bb.instrs[0].as_call().function.right().unwrap(), "first");
    assert_eq!(bb.instrs[1].as_call().function.right().unwrap(), "second");
}

#[test]
fn get_func_by_name_finds_only_present_functions() {
    let m = Module::from_load(Ok(one_function_module("f", vec![]))).expect("load should succeed");
    assert!(m.get_func_by_name("f").is_some());
    assert!(m.get_func_by_name("g").is_none());
    assert_eq!(m.get_func_by_name("f").unwrap().name, "f");
}

#[test]
fn nodes_carry_their_locations() {
    let mut rec = one_function_module("f", vec![plain_call("g")]);
    rec.functions[0].debug = LlvmValueInfo {
        kind: ValueKind::Function,
        filename: Some("f.c".to_owned()),
        directory: Some("/src".to_owned()),
        line: 10,
        col: 0,
    };
    rec.functions[0].blocks[0].instrs[0].debug = LlvmValueInfo {
        kind: ValueKind::Instruction,
        filename: Some("f.c".to_owned()),
        directory: Some("/src".to_owned()),
        line: 11,
        col: 5,
    };
    let m = Module::from_load(Ok(rec)).expect("load should succeed");
    let func = m.get_func_by_name("f").expect("function expected");

    // function-level record: no column
    let floc = func.get_debug_loc().as_ref().expect("function location expected");
    assert_eq!(floc.line, 10);
    assert_eq!(floc.col, None);
    assert_eq!(floc.filename, "f.c");
    assert_eq!(floc.directory.as_deref(), Some("/src"));

    // instruction-level record: column present
    let call = func.basic_blocks[0].instrs[0].as_call();
    let cloc = call.get_debug_loc().as_ref().expect("call location expected");
    assert_eq!(cloc.line, 11);
    assert_eq!(cloc.col, Some(5));

    // an instruction without debug info has no record
    let m2 = Module::from_load(Ok(one_function_module("f", vec![plain_call("g")])))
        .expect("load should succeed");
    let func2 = m2.get_func_by_name("f").expect("function expected");
    assert!(func2.get_debug_loc().is_none());
    assert!(func2.basic_blocks[0].instrs[0].as_call().get_debug_loc().is_none());
}
