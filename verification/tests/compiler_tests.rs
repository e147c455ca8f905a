use bfc::bf::BfInstruction;
use bfc::bf::BfInstruction::AddPointer;
use bfc::bf::BfInstruction::AddValue;
use bfc::bf::BfInstruction::BeginLoop;
use bfc::bf::BfInstruction::EndLoop;
use bfc::bf::BfInstruction::Output;
use bfc::bf::BfMachine;
use bfc::bf::InstructionList;
use bfc::bf::MemoryOverflowBehaviour;
use bfc::compiler::compile;
use bfc::compiler::CompileError;
use bfc::compiler::BRAINFUCK_FN;
use bfc::compiler::DEBUG_LOG_FN;
use bfc::ir::Instruction;
use bfc::ir::Symbol;
use bfc::ir::Value;

fn machine(
    insns: Vec<BfInstruction>,
    cache_size: i64,
    overflow: MemoryOverflowBehaviour,
) -> BfMachine {
    BfMachine {
        cache_size,
        instructions: InstructionList::from_vec(insns),
        memory_overflow: overflow,
    }
}

#[test]
fn unmatched_end_loop_fails_fatally() {
    let m = machine(vec![Output, EndLoop], 64, MemoryOverflowBehaviour::Undefined);
    let result = compile(&m, true);
    assert!(matches!(result, Err(CompileError::UnmatchedEndLoop)));

    // balanced loops are fine
    let ok = machine(vec![BeginLoop, EndLoop], 64, MemoryOverflowBehaviour::Undefined);
    assert!(compile(&ok, true).is_ok());

    // the closer must come after the opener
    let bad = machine(vec![EndLoop, BeginLoop], 64, MemoryOverflowBehaviour::Undefined);
    // the optimizer rewrites this to a lone EndLoop, which has no opener
    assert!(compile(&bad, true).is_err());
}

#[test]
fn module_layout_and_entry_point() {
    let m = machine(vec![AddValue(1)], 64, MemoryOverflowBehaviour::Undefined);
    let (module, entry) = compile(&m, false).unwrap();
    assert_eq!(entry.index, BRAINFUCK_FN);
    assert_eq!(module.functions.len(), 5);
    assert!(matches!(module.functions[0].symbol, Symbol::Malloc));
    assert!(matches!(module.functions[1].symbol, Symbol::Free));
    assert!(matches!(module.functions[2].symbol, Symbol::PutChar));
    assert!(matches!(module.functions[3].symbol, Symbol::GetChar));
    assert!(matches!(module.functions[BRAINFUCK_FN].symbol, Symbol::Brainfuck));
    // external declarations have no blocks; the program does
    assert!(module.functions[0].blocks.is_empty());
    assert_eq!(module.functions[BRAINFUCK_FN].blocks.len(), 4);
    // the block the epilogue went into ends in a return
    let last_block = module.functions[BRAINFUCK_FN].blocks.last().unwrap();
    assert!(matches!(
        last_block.instructions.last().unwrap(),
        Instruction::Ret { .. }
    ));
}

#[test]
fn emit_main_appends_a_wrapper() {
    let m = machine(vec![], 64, MemoryOverflowBehaviour::Undefined);
    let (module, _) = compile(&m, true).unwrap();
    assert_eq!(module.functions.len(), 6);
    let main = module.functions.last().unwrap();
    assert!(matches!(main.symbol, Symbol::Main));
    assert_eq!(main.blocks.len(), 1);
    let insns = &main.blocks[0].instructions;
    assert!(matches!(
        insns[0],
        Instruction::Call { function: BRAINFUCK_FN, .. }
    ));
    assert!(matches!(insns[1], Instruction::Ret { .. }));
}

#[test]
fn wrap_policy_reduces_the_index() {
    let m = machine(vec![AddPointer(5)], 64, MemoryOverflowBehaviour::Wrap);
    let (module, _) = compile(&m, false).unwrap();
    let has_urem = module.functions[BRAINFUCK_FN]
        .blocks
        .iter()
        .any(|b| b.instructions.iter().any(|i| matches!(i, Instruction::URem { .. })));
    assert!(has_urem);

    let m2 = machine(vec![AddPointer(5)], 64, MemoryOverflowBehaviour::Undefined);
    let (module2, _) = compile(&m2, false).unwrap();
    let has_urem2 = module2.functions[BRAINFUCK_FN]
        .blocks
        .iter()
        .any(|b| b.instructions.iter().any(|i| matches!(i, Instruction::URem { .. })));
    assert!(!has_urem2);
}

#[test]
fn abort_policy_adds_a_shared_abort_block() {
    let m = machine(
        vec![AddPointer(1), Output, AddPointer(1)],
        64,
        MemoryOverflowBehaviour::Abort,
    );
    let (module, _) = compile(&m, false).unwrap();
    // 4 prologue blocks, one success block per checked move, one shared
    // abort block
    assert_eq!(module.functions[BRAINFUCK_FN].blocks.len(), 7);
    // the abort block frees the buffer and returns the sentinel -1
    let abort = &module.functions[BRAINFUCK_FN].blocks[5];
    assert!(matches!(abort.instructions[0], Instruction::Call { function: 1, .. }));
    assert!(matches!(
        abort.instructions[1],
        Instruction::Ret { value: Value::SInt { bits: -1, .. } }
    ));
}

#[test]
fn debug_logs_materialize_one_shared_routine() {
    let mut insns = InstructionList::from_vec(vec![AddValue(1), Output]);
    insns.insert_debug_logs();
    let m = BfMachine {
        cache_size: 16,
        instructions: insns,
        memory_overflow: MemoryOverflowBehaviour::Undefined,
    };
    let (module, _) = compile(&m, false).unwrap();
    assert_eq!(module.functions.len(), 6);
    let dbg = &module.functions[DEBUG_LOG_FN];
    assert!(matches!(dbg.symbol, Symbol::DebugLog));
    // the routine's body was emitted: entry, loop condition, loop body,
    // loop exit
    assert_eq!(dbg.blocks.len(), 4);
    assert_eq!(dbg.params.len(), 4);
}
