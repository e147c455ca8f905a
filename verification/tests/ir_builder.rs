use bfc::interp::run_module;
use bfc::ir::Builder;
use bfc::ir::Module;
use bfc::ir::ScalarType;
use bfc::ir::Symbol;
use bfc::ir::Type;

#[test]
fn pointer_types_stack_indirection() {
    let i8_t = Type::new(ScalarType::I8);
    assert_eq!(i8_t.pointer_depth, 0);
    let ptr = i8_t.ptr_type();
    assert_eq!(ptr.scalar, ScalarType::I8);
    assert_eq!(ptr.pointer_depth, 1);
    assert_eq!(ptr.ptr_type().pointer_depth, 2);
}

#[test]
fn a_function_built_by_hand_runs() {
    let mut module = Module::new();
    let i32_t = module.i32_type;
    let f = module.add_function(Symbol::Main, vec![], i32_t);
    let bb = module.append_basic_block(f);
    let b = Builder::new(bb);
    let seven = b.uint(i32_t, 7);
    b.ret(&mut module, seven);

    assert_eq!(module.functions.len(), 1);
    assert_eq!(module.functions[0].blocks.len(), 1);
    assert_eq!(module.functions[0].blocks[0].instructions.len(), 1);

    let result = run_module(&module, f, vec![], 100).unwrap();
    assert_eq!(result.exit_code, 7);
    assert_eq!(result.output, vec![]);
}
