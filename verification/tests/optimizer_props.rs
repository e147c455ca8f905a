use bfc::bf::BfInstruction;
use bfc::bf::BfInstruction::AddPointer;
use bfc::bf::BfInstruction::AddValue;
use bfc::bf::BfInstruction::BeginLoop;
use bfc::bf::BfInstruction::DebugLog;
use bfc::bf::BfInstruction::EndLoop;
use bfc::bf::BfInstruction::Input;
use bfc::bf::BfInstruction::Output;
use bfc::bf::BfInstruction::SetValue;
use bfc::bf::InstructionList;
use bfc::bf::MemoryOverflowBehaviour;
use bfc::bf::ParseEnumError;

fn optimize(input: Vec<BfInstruction>) -> Vec<BfInstruction> {
    InstructionList::from_vec(input).list
}

#[test]
fn add_value_zero_is_always_dropped() {
    assert_eq!(optimize(vec![AddValue(0)]), vec![]);
    assert_eq!(optimize(vec![Output, AddValue(0)]), vec![Output]);
    assert_eq!(optimize(vec![BeginLoop, AddValue(0)]), vec![BeginLoop]);
    // a merge whose wrapped sum is zero leaves nothing behind
    assert_eq!(optimize(vec![AddValue(1), AddValue(-1)]), vec![]);
    assert_eq!(optimize(vec![AddValue(-128), AddValue(-128)]), vec![]);
}

#[test]
fn add_add_merges_with_wrap() {
    assert_eq!(optimize(vec![AddValue(100), AddValue(100)]), vec![AddValue(-56)]);
    assert_eq!(optimize(vec![AddValue(-100), AddValue(-100)]), vec![AddValue(56)]);
    assert_eq!(optimize(vec![AddValue(127), AddValue(1)]), vec![AddValue(-128)]);
}

#[test]
fn set_add_merges_with_wrap() {
    assert_eq!(optimize(vec![SetValue(127), AddValue(1)]), vec![SetValue(-128)]);
    assert_eq!(optimize(vec![SetValue(10), AddValue(-10)]), vec![SetValue(0)]);
    assert_eq!(optimize(vec![SetValue(0), AddValue(0)]), vec![SetValue(0)]);
}

#[test]
fn set_overwrites_set_and_add() {
    assert_eq!(optimize(vec![SetValue(-7), SetValue(9)]), vec![SetValue(9)]);
    assert_eq!(optimize(vec![AddValue(0), SetValue(9)]), vec![SetValue(9)]);
    assert_eq!(optimize(vec![AddValue(-1), SetValue(0)]), vec![SetValue(0)]);
}

#[test]
fn pointer_moves_merge() {
    assert_eq!(optimize(vec![AddPointer(3), AddPointer(4)]), vec![AddPointer(7)]);
    assert_eq!(optimize(vec![AddPointer(3), AddPointer(-3)]), vec![AddPointer(0)]);
    assert_eq!(
        optimize(vec![AddPointer(1), AddPointer(1), AddPointer(-5)]),
        vec![AddPointer(-3)]
    );
}

#[test]
fn odd_single_add_loop_becomes_set_zero() {
    assert_eq!(optimize(vec![BeginLoop, AddValue(-1), EndLoop]), vec![SetValue(0)]);
    // the rule tests parity, not magnitude
    assert_eq!(optimize(vec![BeginLoop, AddValue(3), EndLoop]), vec![SetValue(0)]);
    // an even delta is not rewritten
    assert_eq!(
        optimize(vec![Output, BeginLoop, AddValue(2), EndLoop]),
        vec![Output, BeginLoop, AddValue(2), EndLoop]
    );
    // a longer body is not rewritten
    assert_eq!(
        optimize(vec![BeginLoop, Output, AddValue(1), EndLoop]),
        vec![BeginLoop, Output, AddValue(1), EndLoop]
    );
}

#[test]
fn dead_loop_after_set_zero_is_elided_with_nested_content() {
    assert_eq!(
        optimize(vec![SetValue(0), BeginLoop, AddValue(1), EndLoop]),
        vec![SetValue(0)]
    );
    assert_eq!(
        optimize(vec![
            SetValue(0),
            BeginLoop,
            BeginLoop,
            Output,
            EndLoop,
            AddPointer(1),
            EndLoop,
            Output,
        ]),
        vec![SetValue(0), Output]
    );
}

#[test]
fn loop_after_loop_is_elided() {
    assert_eq!(
        optimize(vec![EndLoop, BeginLoop, Input, Output, EndLoop, AddPointer(2)]),
        vec![EndLoop, AddPointer(2)]
    );
}

#[test]
fn reoptimizing_canonical_output_changes_nothing() {
    let inputs = vec![
        vec![AddValue(4), BeginLoop, AddPointer(2), AddValue(-1), EndLoop, Output],
        vec![SetValue(0), BeginLoop, AddValue(1), EndLoop, Input],
        vec![EndLoop, AddValue(5), BeginLoop, AddValue(2), AddValue(3), EndLoop],
    ];
    for input in inputs {
        let once = optimize(input);
        let twice = optimize(once.clone());
        assert_eq!(twice, once);
    }
}

#[test]
fn from_chars_lexes_and_optimizes() {
    let list = InstructionList::from_chars("+++ comment -[>]");
    assert_eq!(
        list.list,
        vec![AddValue(2), BeginLoop, AddPointer(1), EndLoop]
    );
    let empty = InstructionList::from_chars("no operations here");
    assert_eq!(empty.list, vec![]);
    let io = InstructionList::from_chars(",.");
    assert_eq!(io.list, vec![Input, Output]);
}

#[test]
fn insert_debug_logs_interleaves() {
    let mut list = InstructionList::from_vec(vec![AddValue(2), Output]);
    list.insert_debug_logs();
    assert_eq!(
        list.list,
        vec![DebugLog, AddValue(2), DebugLog, Output, DebugLog]
    );
    let mut empty = InstructionList::new();
    empty.insert_debug_logs();
    assert_eq!(empty.list, vec![DebugLog]);
}

#[test]
fn overflow_policy_names_parse() {
    assert_eq!(
        MemoryOverflowBehaviour::from_option_name("undefined"),
        Ok(MemoryOverflowBehaviour::Undefined)
    );
    assert_eq!(
        MemoryOverflowBehaviour::from_option_name("wrap"),
        Ok(MemoryOverflowBehaviour::Wrap)
    );
    assert_eq!(
        MemoryOverflowBehaviour::from_option_name("abort"),
        Ok(MemoryOverflowBehaviour::Abort)
    );
    assert_eq!(
        MemoryOverflowBehaviour::from_option_name("Wrap"),
        Err(ParseEnumError {})
    );
    assert_eq!(
        "abort".parse::<MemoryOverflowBehaviour>(),
        Ok(MemoryOverflowBehaviour::Abort)
    );
}
