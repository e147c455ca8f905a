use bfc::bf::BfInstruction;
use bfc::bf::BfInstruction::AddPointer;
use bfc::bf::BfInstruction::AddValue;
use bfc::bf::BfInstruction::Input;
use bfc::bf::BfInstruction::Output;
use bfc::bf::BfInstruction::SetValue;
use bfc::bf::BfMachine;
use bfc::bf::InstructionList;
use bfc::bf::MemoryOverflowBehaviour;
use bfc::compiler::compile;
use bfc::interp::run_module;

fn run(machine: &BfMachine, input: Vec<u8>) -> (Vec<u8>, i32) {
    let (module, entry) = compile(machine, false).unwrap();
    let result = run_module(&module, entry, input, 10_000_000).unwrap();
    (result.output, result.exit_code)
}

#[test]
fn hello_world_program_prints_and_exits_cleanly() {
    let source =
        "++++++++++[>+++++++>++++++++++>+++>+<<<<-]>++.>+.+++++++..+++.>++.<<\
         +++++++++++++++.>.+++.------.--------.>+.>.";
    let machine = BfMachine {
        cache_size: 30000,
        instructions: InstructionList::from_chars(source),
        memory_overflow: MemoryOverflowBehaviour::Undefined,
    };
    let (output, exit_code) = run(&machine, vec![]);
    assert_eq!(output, b"Hello World!\n".to_vec());
    assert_ne!(exit_code, -1);
}

#[test]
fn abort_policy_exits_through_the_sentinel_path() {
    // capacity + 1 consecutive pointer increments, kept un-merged so
    // that every single move is bounds-checked
    let capacity: i64 = 8;
    let mut list: Vec<BfInstruction> = Vec::new();
    for _ in 0..capacity + 1 {
        list.push(AddPointer(1));
    }
    // anything after the overflowing move must never run
    list.push(Output);
    let machine = BfMachine {
        cache_size: capacity,
        instructions: InstructionList {
            list,
            loop_comment_depth: 0,
        },
        memory_overflow: MemoryOverflowBehaviour::Abort,
    };
    let (output, exit_code) = run(&machine, vec![]);
    assert_eq!(exit_code, -1);
    assert_eq!(output, vec![]);
}

#[test]
fn wrap_policy_by_capacity_leaves_the_index_unchanged() {
    let capacity: i64 = 16;
    let machine = BfMachine {
        cache_size: capacity,
        instructions: InstructionList::from_vec(vec![
            SetValue(65),
            AddPointer(capacity),
            Output,
        ]),
        memory_overflow: MemoryOverflowBehaviour::Wrap,
    };
    let (output, exit_code) = run(&machine, vec![]);
    // the move wrapped back to cell zero, so the byte written there is
    // printed and returned
    assert_eq!(output, vec![65]);
    assert_eq!(exit_code, 65);
}

#[test]
fn input_is_echoed_to_output() {
    let machine = BfMachine {
        cache_size: 4,
        instructions: InstructionList::from_vec(vec![Input, Output]),
        memory_overflow: MemoryOverflowBehaviour::Undefined,
    };
    let (output, exit_code) = run(&machine, vec![66]);
    assert_eq!(output, vec![66]);
    assert_eq!(exit_code, 66);
}

#[test]
fn debug_logs_trace_state_before_each_instruction() {
    let mut instructions = InstructionList::from_vec(vec![AddValue(1)]);
    instructions.insert_debug_logs();
    let machine = BfMachine {
        cache_size: 4,
        instructions,
        memory_overflow: MemoryOverflowBehaviour::Undefined,
    };
    let (output, exit_code) = run(&machine, vec![]);
    let mut expected: Vec<u8> = Vec::new();
    // first log, before the add: instruction index 0, pointer index 0,
    // all four cells still zero
    expected.push(b'\n');
    expected.extend_from_slice(b"00000 00000");
    expected.extend_from_slice(&[0, b'|', 0, b'|', 0, b'|', 0, b'|']);
    expected.push(b'\n');
    // second log, after the add: instruction index 2, cell zero is one
    expected.push(b'\n');
    expected.extend_from_slice(b"00002 00000");
    expected.extend_from_slice(&[1, b'|', 0, b'|', 0, b'|', 0, b'|']);
    expected.push(b'\n');
    assert_eq!(output, expected);
    assert_eq!(exit_code, 1);
}
