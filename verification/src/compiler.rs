//! The code generator: one pass over a canonical instruction sequence,
//! emitting a control-flow graph into a fresh [`Module`].
//!
//! The whole generation is pinned down by a functional model: a ghost
//! generation state ([`GenState`]), one transition per instruction
//! ([`spec_lower`]), and a fold over the sequence ([`spec_gen_seq`]).
//! [`compile`] returns exactly the module the model describes, and fails
//! exactly when the model does: on an `EndLoop` with no open loop.

use vstd::prelude::*;

use crate::bf::BfInstruction;
use crate::bf::BfMachine;
use crate::bf::MemoryOverflowBehaviour;
use crate::ir::BasicBlock;
use crate::ir::Builder;
use crate::ir::Function;
use crate::ir::InstructionModel;
use crate::ir::IntPredicate;
use crate::ir::Module;
use crate::ir::ModuleModel;
use crate::ir::ScalarType;
use crate::ir::Symbol;
use crate::ir::Type;
use crate::ir::Value;
use crate::ir::Var;

verus! {

/// Index of the buffer-allocation declaration in the module.
pub const MALLOC_FN: usize = 0;

/// Index of the buffer-release declaration in the module.
pub const FREE_FN: usize = 1;

/// Index of the write-one-byte declaration in the module.
pub const PUTCHAR_FN: usize = 2;

/// Index of the read-one-byte declaration in the module.
pub const GETCHAR_FN: usize = 3;

/// Index of the compiled program's own function in the module.
pub const BRAINFUCK_FN: usize = 4;

/// Index of the lazily created debug routine in the module.
pub const DEBUG_LOG_FN: usize = 5;

/// The error of the one fatal condition: an `EndLoop` was met while no
/// loop was open, so the instruction sequence is malformed.
#[derive(Debug, Copy, Clone, PartialEq, Eq, Structural)]
pub enum CompileError {
    UnmatchedEndLoop,
}

/// The {header, footer} block pair of one open loop, held on a stack
/// while the loop's body is lowered.
#[derive(Debug, Copy, Clone, PartialEq, Eq, Structural)]
pub struct LoopContext {
    pub loop_header_bb: BasicBlock,
    pub loop_footer_bb: BasicBlock,
}

/// The generator's state between two instructions: the module built so
/// far, the block subsequent instructions are emitted into, the open
/// loops, and the lazily created abort block and debug routine.
#[verifier::ext_equal]
pub ghost struct GenState {
    pub module: ModuleModel,
    pub block: BasicBlock,
    pub loop_stack: Seq<LoopContext>,
    pub abort_block: Option<BasicBlock>,
    pub debug_log: Option<Function>,
}

/// The 8-bit cell type.
pub open spec fn ty_i8() -> Type {
    Type { scalar: ScalarType::I8, pointer_depth: 0 }
}

/// The 32-bit integer type (exit codes, instruction indices).
pub open spec fn ty_i32() -> Type {
    Type { scalar: ScalarType::I32, pointer_depth: 0 }
}

/// The 64-bit integer type (the pointer/index variable).
pub open spec fn ty_i64() -> Type {
    Type { scalar: ScalarType::I64, pointer_depth: 0 }
}

/// The type of a pointer into the cell buffer.
pub open spec fn ty_ptr_i8() -> Type {
    Type { scalar: ScalarType::I8, pointer_depth: 1 }
}

/// The void type.
pub open spec fn ty_void() -> Type {
    Type { scalar: ScalarType::Void, pointer_depth: 0 }
}

/// The buffer base address: the result of the prologue's allocation
/// call, always register 0.
pub open spec fn array_value() -> Value {
    Value::Reg { id: 0 }
}

/// The index variable's stack slot, reserved by the prologue.
pub open spec fn index_var() -> Var {
    Var { value_ptr: Value::Reg { id: 1 } }
}

/// The current-cell-address variable's stack slot, reserved by the
/// prologue.
pub open spec fn ptr_var() -> Var {
    Var { value_ptr: Value::Reg { id: 4 } }
}

/// The memory capacity as a 64-bit constant operand.
pub open spec fn cs_value(capacity: i64) -> Value {
    Value::UInt { ty: ty_i64(), bits: capacity as u64 }
}

/// The zero byte constant stored by `SetValue(0)` and the zero-fill
/// loop, and compared against by loop headers.
pub open spec fn zero_cell() -> Value {
    Value::SInt { ty: ty_i8(), bits: 0 }
}

/// The generator state after the prologue: the four external
/// declarations and the program function, the buffer allocation, the
/// explicit zero-fill loop (the allocator is not trusted to pre-zero
/// memory), and the index and cell-address variables, both initialized.
pub open spec fn spec_prologue(capacity: i64) -> GenState {
    let cs = cs_value(capacity);
    let m = ModuleModel { functions: Seq::empty(), next_value: 0nat };
    let m = m.add_function(Symbol::Malloc, seq![ty_i64()], ty_ptr_i8());
    let m = m.add_function(Symbol::Free, seq![ty_ptr_i8()], ty_void());
    let m = m.add_function(Symbol::PutChar, seq![ty_i8()], ty_i8());
    let m = m.add_function(Symbol::GetChar, Seq::empty(), ty_i8());
    let m = m.add_function(Symbol::Brainfuck, Seq::empty(), ty_i32());
    let m = m.add_block(BRAINFUCK_FN as int);  // entry
    let m = m.add_block(BRAINFUCK_FN as int);  // zero-fill condition
    let m = m.add_block(BRAINFUCK_FN as int);  // zero-fill body
    let m = m.add_block(BRAINFUCK_FN as int);  // zero-fill exit
    let entry = BasicBlock { function: BRAINFUCK_FN, block: 0 };
    let cond = BasicBlock { function: BRAINFUCK_FN, block: 1 };
    let body = BasicBlock { function: BRAINFUCK_FN, block: 2 };
    let exit = BasicBlock { function: BRAINFUCK_FN, block: 3 };
    // entry: allocate the buffer, set up the two variables
    let m = m.emit(
        entry,
        InstructionModel::Call { dest: Some(m.dest()), function: MALLOC_FN, args: seq![cs] },
    ).bump();
    let m1 = m;
    let m = m.emit(entry, InstructionModel::Alloca { dest: m.dest(), ty: ty_i64() }).bump();
    let m = m.emit(
        entry,
        InstructionModel::Store {
            value: Value::UInt { ty: ty_i64(), bits: 0 },
            ptr: Value::Reg { id: m1.dest() },
        },
    );
    let m2 = m;
    let m = m.emit(
        entry,
        InstructionModel::Load { dest: m.dest(), ptr: index_var().value_ptr },
    ).bump();
    let m3 = m;
    let m = m.emit(
        entry,
        InstructionModel::GetElementPtr {
            dest: m.dest(),
            ptr: array_value(),
            index: Value::Reg { id: m2.dest() },
        },
    ).bump();
    let m4 = m;
    let m = m.emit(entry, InstructionModel::Alloca { dest: m.dest(), ty: ty_ptr_i8() }).bump();
    let m = m.emit(
        entry,
        InstructionModel::Store {
            value: Value::Reg { id: m3.dest() },
            ptr: Value::Reg { id: m4.dest() },
        },
    );
    let m = m.emit(entry, InstructionModel::Br { target: 1 });
    // zero-fill condition: counter phi, bounds test
    let m5 = m;
    let m = m.emit(
        cond,
        InstructionModel::Phi { dest: m.dest(), ty: ty_i64(), incoming: Seq::empty() },
    ).bump();
    let m6 = m;
    let m = m.emit(
        cond,
        InstructionModel::ICmp {
            dest: m.dest(),
            predicate: IntPredicate::UnsignedLessThan,
            lhs: Value::Reg { id: m5.dest() },
            rhs: cs,
        },
    ).bump();
    let m = m.emit(
        cond,
        InstructionModel::CondBr {
            condition: Value::Reg { id: m6.dest() },
            then_block: 2,
            else_block: 3,
        },
    );
    // zero-fill body: store zero, step the counter
    let m7 = m;
    let m = m.emit(
        body,
        InstructionModel::GetElementPtr {
            dest: m.dest(),
            ptr: array_value(),
            index: Value::Reg { id: m5.dest() },
        },
    ).bump();
    let m = m.emit(
        body,
        InstructionModel::Store { value: zero_cell(), ptr: Value::Reg { id: m7.dest() } },
    );
    let m8 = m;
    let m = m.emit(
        body,
        InstructionModel::Add {
            dest: m.dest(),
            lhs: Value::Reg { id: m5.dest() },
            rhs: Value::UInt { ty: ty_i64(), bits: 1 },
        },
    ).bump();
    let m = m.emit(body, InstructionModel::Br { target: 1 });
    let m = m.add_phi_incoming(cond, 0, Value::UInt { ty: ty_i64(), bits: 0 }, 0);
    let m = m.add_phi_incoming(cond, 0, Value::Reg { id: m8.dest() }, 2);
    GenState {
        module: m,
        block: exit,
        loop_stack: Seq::empty(),
        abort_block: None,
        debug_log: None,
    }
}

/// Recompute the cell-address variable from the index variable, after a
/// pointer move.
pub open spec fn spec_recompute_ptr(m: ModuleModel, bb: BasicBlock) -> ModuleModel {
    let m1 = m.emit(
        bb,
        InstructionModel::Load { dest: m.dest(), ptr: index_var().value_ptr },
    ).bump();
    let m2 = m1.emit(
        bb,
        InstructionModel::GetElementPtr {
            dest: m1.dest(),
            ptr: array_value(),
            index: Value::Reg { id: m.dest() },
        },
    ).bump();
    m2.emit(
        bb,
        InstructionModel::Store { value: Value::Reg { id: m1.dest() }, ptr: ptr_var().value_ptr },
    )
}

/// The lowering of one instruction: what it appends to the module and
/// how it moves the generator state. `None` exactly on an `EndLoop`
/// with no open loop.
pub open spec fn spec_lower(
    s: GenState,
    insn: BfInstruction,
    i: int,
    capacity: i64,
    policy: MemoryOverflowBehaviour,
) -> Option<GenState> {
    let bb = s.block;
    let m = s.module;
    let cs = cs_value(capacity);
    match insn {
        BfInstruction::SetValue(v) => {
            // store the literal at the current cell address
            let m1 = m.emit(
                bb,
                InstructionModel::Load { dest: m.dest(), ptr: ptr_var().value_ptr },
            ).bump();
            let m2 = m1.emit(
                bb,
                InstructionModel::Store {
                    value: Value::SInt { ty: ty_i8(), bits: v as i64 },
                    ptr: Value::Reg { id: m.dest() },
                },
            );
            Some(GenState { module: m2, ..s })
        },
        BfInstruction::AddValue(v) => {
            // load the cell, add with 8-bit wrap, store back
            let m1 = m.emit(
                bb,
                InstructionModel::Load { dest: m.dest(), ptr: ptr_var().value_ptr },
            ).bump();
            let m2 = m1.emit(
                bb,
                InstructionModel::Load { dest: m1.dest(), ptr: Value::Reg { id: m.dest() } },
            ).bump();
            let m3 = m2.emit(
                bb,
                InstructionModel::Add {
                    dest: m2.dest(),
                    lhs: Value::Reg { id: m1.dest() },
                    rhs: Value::SInt { ty: ty_i8(), bits: v as i64 },
                },
            ).bump();
            let m4 = m3.emit(
                bb,
                InstructionModel::Load { dest: m3.dest(), ptr: ptr_var().value_ptr },
            ).bump();
            let m5 = m4.emit(
                bb,
                InstructionModel::Store {
                    value: Value::Reg { id: m2.dest() },
                    ptr: Value::Reg { id: m3.dest() },
                },
            );
            Some(GenState { module: m5, ..s })
        },
        BfInstruction::AddPointer(v) => {
            // step the index variable, apply the overflow policy, then
            // recompute the cell address
            let m1 = m.emit(
                bb,
                InstructionModel::Load { dest: m.dest(), ptr: index_var().value_ptr },
            ).bump();
            let m2 = m1.emit(
                bb,
                InstructionModel::Add {
                    dest: m1.dest(),
                    lhs: Value::Reg { id: m.dest() },
                    rhs: Value::SInt { ty: ty_i64(), bits: v },
                },
            ).bump();
            let m3 = m2.emit(
                bb,
                InstructionModel::Store {
                    value: Value::Reg { id: m1.dest() },
                    ptr: index_var().value_ptr,
                },
            );
            match policy {
                MemoryOverflowBehaviour::Undefined => Some(
                    GenState { module: spec_recompute_ptr(m3, bb), ..s },
                ),
                MemoryOverflowBehaviour::Wrap => {
                    // index := index mod capacity, unsigned
                    let m4 = m3.emit(
                        bb,
                        InstructionModel::Load { dest: m3.dest(), ptr: index_var().value_ptr },
                    ).bump();
                    let m5 = m4.emit(
                        bb,
                        InstructionModel::URem {
                            dest: m4.dest(),
                            lhs: Value::Reg { id: m3.dest() },
                            rhs: cs,
                        },
                    ).bump();
                    let m6 = m5.emit(
                        bb,
                        InstructionModel::Store {
                            value: Value::Reg { id: m4.dest() },
                            ptr: index_var().value_ptr,
                        },
                    );
                    Some(GenState { module: spec_recompute_ptr(m6, bb), ..s })
                },
                MemoryOverflowBehaviour::Abort => {
                    // bounds test; failure diverts to the shared abort
                    // block, created once on first need
                    let m4 = m3.add_block(BRAINFUCK_FN as int);
                    let success = BasicBlock {
                        function: BRAINFUCK_FN,
                        block: m3.functions[BRAINFUCK_FN as int].blocks.len() as usize,
                    };
                    let with_abort = match s.abort_block {
                        Some(ab) => (m4, ab),
                        None => (
                            m4.add_block(BRAINFUCK_FN as int),
                            BasicBlock {
                                function: BRAINFUCK_FN,
                                block: m4.functions[BRAINFUCK_FN as int].blocks.len() as usize,
                            },
                        ),
                    };
                    let m5 = with_abort.0;
                    let ab = with_abort.1;
                    let m6 = m5.emit(
                        bb,
                        InstructionModel::Load { dest: m5.dest(), ptr: index_var().value_ptr },
                    ).bump();
                    let m7 = m6.emit(
                        bb,
                        InstructionModel::ICmp {
                            dest: m6.dest(),
                            predicate: IntPredicate::UnsignedLessThan,
                            lhs: Value::Reg { id: m5.dest() },
                            rhs: cs,
                        },
                    ).bump();
                    let m8 = m7.emit(
                        bb,
                        InstructionModel::CondBr {
                            condition: Value::Reg { id: m6.dest() },
                            then_block: success.block,
                            else_block: ab.block,
                        },
                    );
                    Some(
                        GenState {
                            module: spec_recompute_ptr(m8, success),
                            block: success,
                            abort_block: Some(ab),
                            ..s
                        },
                    )
                },
            }
        },
        BfInstruction::Input => {
            // read one byte, store it at the current cell address
            let m1 = m.emit(
                bb,
                InstructionModel::Call {
                    dest: Some(m.dest()),
                    function: GETCHAR_FN,
                    args: Seq::empty(),
                },
            ).bump();
            let m2 = m1.emit(
                bb,
                InstructionModel::Load { dest: m1.dest(), ptr: ptr_var().value_ptr },
            ).bump();
            let m3 = m2.emit(
                bb,
                InstructionModel::Store {
                    value: Value::Reg { id: m.dest() },
                    ptr: Value::Reg { id: m1.dest() },
                },
            );
            Some(GenState { module: m3, ..s })
        },
        BfInstruction::Output => {
            // load the cell, write it out
            let m1 = m.emit(
                bb,
                InstructionModel::Load { dest: m.dest(), ptr: ptr_var().value_ptr },
            ).bump();
            let m2 = m1.emit(
                bb,
                InstructionModel::Load { dest: m1.dest(), ptr: Value::Reg { id: m.dest() } },
            ).bump();
            let m3 = m2.emit(
                bb,
                InstructionModel::Call {
                    dest: None,
                    function: PUTCHAR_FN,
                    args: seq![Value::Reg { id: m1.dest() }],
                },
            );
            Some(GenState { module: m3, ..s })
        },
        BfInstruction::BeginLoop => {
            // header tests the cell; body becomes the current block;
            // footer is where control resumes after the loop
            let header = BasicBlock {
                function: BRAINFUCK_FN,
                block: m.functions[BRAINFUCK_FN as int].blocks.len() as usize,
            };
            let m1 = m.add_block(BRAINFUCK_FN as int);
            let body = BasicBlock {
                function: BRAINFUCK_FN,
                block: m1.functions[BRAINFUCK_FN as int].blocks.len() as usize,
            };
            let m2 = m1.add_block(BRAINFUCK_FN as int);
            let footer = BasicBlock {
                function: BRAINFUCK_FN,
                block: m2.functions[BRAINFUCK_FN as int].blocks.len() as usize,
            };
            let m3 = m2.add_block(BRAINFUCK_FN as int);
            let m4 = m3.emit(bb, InstructionModel::Br { target: header.block });
            let m5 = m4.emit(
                header,
                InstructionModel::Load { dest: m4.dest(), ptr: ptr_var().value_ptr },
            ).bump();
            let m6 = m5.emit(
                header,
                InstructionModel::Load { dest: m5.dest(), ptr: Value::Reg { id: m4.dest() } },
            ).bump();
            let m7 = m6.emit(
                header,
                InstructionModel::ICmp {
                    dest: m6.dest(),
                    predicate: IntPredicate::Equal,
                    lhs: Value::Reg { id: m5.dest() },
                    rhs: zero_cell(),
                },
            ).bump();
            let m8 = m7.emit(
                header,
                InstructionModel::CondBr {
                    condition: Value::Reg { id: m6.dest() },
                    then_block: footer.block,
                    else_block: body.block,
                },
            );
            Some(
                GenState {
                    module: m8,
                    block: body,
                    loop_stack: s.loop_stack.push(
                        LoopContext { loop_header_bb: header, loop_footer_bb: footer },
                    ),
                    ..s
                },
            )
        },
        BfInstruction::EndLoop => {
            if s.loop_stack.len() == 0 {
                None
            } else {
                // close the back-edge; resume in the loop's footer
                let ctx = s.loop_stack.last();
                let m1 = m.emit(bb, InstructionModel::Br { target: ctx.loop_header_bb.block });
                Some(
                    GenState {
                        module: m1,
                        block: ctx.loop_footer_bb,
                        loop_stack: s.loop_stack.drop_last(),
                        ..s
                    },
                )
            }
        },
        BfInstruction::DebugLog => {
            // materialize the shared debug routine once; call it with
            // the instruction index, the buffer, the capacity and the
            // current index value
            let with_dbg = match s.debug_log {
                Some(f) => (m, f),
                None => (
                    m.add_function(
                        Symbol::DebugLog,
                        seq![ty_i32(), ty_ptr_i8(), ty_i64(), ty_i64()],
                        ty_void(),
                    ),
                    Function { index: m.functions.len() as usize },
                ),
            };
            let m1 = with_dbg.0;
            let dbg = with_dbg.1;
            let m2 = m1.emit(
                bb,
                InstructionModel::Load { dest: m1.dest(), ptr: index_var().value_ptr },
            ).bump();
            let m3 = m2.emit(
                bb,
                InstructionModel::Call {
                    dest: None,
                    function: dbg.index,
                    args: seq![
                        Value::UInt { ty: ty_i32(), bits: i as u64 },
                        array_value(),
                        cs,
                        Value::Reg { id: m1.dest() },
                    ],
                },
            );
            Some(GenState { module: m3, debug_log: Some(dbg), ..s })
        },
    }
}

/// `spec_lower`, folded over a whole instruction sequence; `start` is
/// the absolute index of `insns[0]` in the original sequence.
pub open spec fn spec_gen_seq(
    s: GenState,
    insns: Seq<BfInstruction>,
    start: int,
    capacity: i64,
    policy: MemoryOverflowBehaviour,
) -> Option<GenState>
    decreases insns.len(),
{
    if insns.len() == 0 {
        Some(s)
    } else {
        match spec_lower(s, insns[0], start, capacity, policy) {
            Some(s2) => spec_gen_seq(s2, insns.drop_first(), start + 1, capacity, policy),
            None => None,
        }
    }
}

/// The decimal digit weights the debug routine's printer uses.
pub open spec fn spec_pow10(e: nat) -> u64 {
    if e == 0 {
        1
    } else if e == 1 {
        10
    } else if e == 2 {
        100
    } else if e == 3 {
        1000
    } else if e == 4 {
        10000
    } else {
        0
    }
}

/// The printer of one number as fixed-width decimal: for each digit,
/// high first, divide by the digit weight, reduce modulo ten, shift into
/// the digit characters, truncate to a byte and write it out.
pub open spec fn spec_print_decimal(
    m: ModuleModel,
    bb: BasicBlock,
    value: Value,
    ty: Type,
    digits: nat,
) -> ModuleModel
    decreases digits,
{
    if digits == 0 {
        m
    } else {
        let m1 = m.emit(
            bb,
            InstructionModel::UDiv {
                dest: m.dest(),
                lhs: value,
                rhs: Value::UInt { ty, bits: spec_pow10((digits - 1) as nat) },
            },
        ).bump();
        let m2 = m1.emit(
            bb,
            InstructionModel::URem {
                dest: m1.dest(),
                lhs: Value::Reg { id: m.dest() },
                rhs: Value::UInt { ty, bits: 10 },
            },
        ).bump();
        let m3 = m2.emit(
            bb,
            InstructionModel::Add {
                dest: m2.dest(),
                lhs: Value::Reg { id: m1.dest() },
                rhs: Value::UInt { ty, bits: 48 },
            },
        ).bump();
        let m4 = m3.emit(
            bb,
            InstructionModel::Trunc { dest: m3.dest(), value: Value::Reg { id: m2.dest() }, ty: ty_i8() },
        ).bump();
        let m5 = m4.emit(
            bb,
            InstructionModel::Call {
                dest: None,
                function: PUTCHAR_FN,
                args: seq![Value::Reg { id: m3.dest() }],
            },
        );
        spec_print_decimal(m5, bb, value, ty, (digits - 1) as nat)
    }
}

/// The debug routine's body: print the instruction index and the
/// pointer index as fixed-width decimal, then every cell's byte value,
/// via a generated counting loop over the capacity.
pub open spec fn spec_debug_body(m: ModuleModel, dbg: Function) -> ModuleModel {
    let f = dbg.index as int;
    let m = m.add_block(f);  // entry
    let m = m.add_block(f);  // loop condition
    let m = m.add_block(f);  // loop body
    let m = m.add_block(f);  // loop exit
    let entry = BasicBlock { function: dbg.index, block: 0 };
    let cond = BasicBlock { function: dbg.index, block: 1 };
    let body = BasicBlock { function: dbg.index, block: 2 };
    let exit = BasicBlock { function: dbg.index, block: 3 };
    let insn_index = Value::Param { index: 0 };
    let array = Value::Param { index: 1 };
    let cache_size = Value::Param { index: 2 };
    let index = Value::Param { index: 3 };
    let m = m.emit(
        entry,
        InstructionModel::Call {
            dest: None,
            function: PUTCHAR_FN,
            args: seq![Value::SInt { ty: ty_i8(), bits: 10 }],
        },
    );
    let m = spec_print_decimal(m, entry, insn_index, ty_i32(), 5);
    let m = m.emit(
        entry,
        InstructionModel::Call {
            dest: None,
            function: PUTCHAR_FN,
            args: seq![Value::SInt { ty: ty_i8(), bits: 32 }],
        },
    );
    let m = spec_print_decimal(m, entry, index, ty_i64(), 5);
    let m = m.emit(entry, InstructionModel::Br { target: 1 });
    let m9 = m;
    let m = m.emit(
        cond,
        InstructionModel::Phi { dest: m.dest(), ty: ty_i64(), incoming: Seq::empty() },
    ).bump();
    let m10 = m;
    let m = m.emit(
        cond,
        InstructionModel::ICmp {
            dest: m.dest(),
            predicate: IntPredicate::NotEqual,
            lhs: Value::Reg { id: m9.dest() },
            rhs: cache_size,
        },
    ).bump();
    let m = m.emit(
        cond,
        InstructionModel::CondBr {
            condition: Value::Reg { id: m10.dest() },
            then_block: 2,
            else_block: 3,
        },
    );
    let m11 = m;
    let m = m.emit(
        body,
        InstructionModel::GetElementPtr {
            dest: m.dest(),
            ptr: array,
            index: Value::Reg { id: m9.dest() },
        },
    ).bump();
    let m12 = m;
    let m = m.emit(
        body,
        InstructionModel::Load { dest: m.dest(), ptr: Value::Reg { id: m11.dest() } },
    ).bump();
    let m = m.emit(
        body,
        InstructionModel::Call {
            dest: None,
            function: PUTCHAR_FN,
            args: seq![Value::Reg { id: m12.dest() }],
        },
    );
    let m = m.emit(
        body,
        InstructionModel::Call {
            dest: None,
            function: PUTCHAR_FN,
            args: seq![Value::SInt { ty: ty_i8(), bits: 124 }],
        },
    );
    let m13 = m;
    let m = m.emit(
        body,
        InstructionModel::Add {
            dest: m.dest(),
            lhs: Value::Reg { id: m9.dest() },
            rhs: Value::UInt { ty: ty_i64(), bits: 1 },
        },
    ).bump();
    let m = m.emit(body, InstructionModel::Br { target: 1 });
    let m = m.emit(
        exit,
        InstructionModel::Call {
            dest: None,
            function: PUTCHAR_FN,
            args: seq![Value::SInt { ty: ty_i8(), bits: 10 }],
        },
    );
    let m = m.emit(exit, InstructionModel::RetVoid);
    let m = m.add_phi_incoming(cond, 0, Value::UInt { ty: ty_i64(), bits: 0 }, 0);
    m.add_phi_incoming(cond, 0, Value::Reg { id: m13.dest() }, 2)
}

/// The end of generation: the normal epilogue (load the current cell,
/// release the buffer, return the cell as the exit value); the abort
/// path, if one was ever needed (release the buffer, return the
/// sentinel -1); the debug routine's body, if it was ever called; and
/// the optional wrapper entry point.
pub open spec fn spec_finalize(s: GenState, emit_main: bool) -> ModuleModel {
    let bb = s.block;
    let m = s.module;
    let m1 = m.emit(
        bb,
        InstructionModel::Load { dest: m.dest(), ptr: ptr_var().value_ptr },
    ).bump();
    let m2 = m1.emit(
        bb,
        InstructionModel::Load { dest: m1.dest(), ptr: Value::Reg { id: m.dest() } },
    ).bump();
    let m3 = m2.emit(
        bb,
        InstructionModel::Call { dest: None, function: FREE_FN, args: seq![array_value()] },
    );
    let m4 = m3.emit(
        bb,
        InstructionModel::SExtOrBitCast {
            dest: m3.dest(),
            value: Value::Reg { id: m1.dest() },
            ty: ty_i32(),
        },
    ).bump();
    let m5 = m4.emit(bb, InstructionModel::Ret { value: Value::Reg { id: m3.dest() } });
    let m6 = match s.abort_block {
        Some(ab) => m5.emit(
            ab,
            InstructionModel::Call { dest: None, function: FREE_FN, args: seq![array_value()] },
        ).emit(ab, InstructionModel::Ret { value: Value::SInt { ty: ty_i32(), bits: -1i64 } }),
        None => m5,
    };
    let m7 = match s.debug_log {
        Some(dbg) => spec_debug_body(m6, dbg),
        None => m6,
    };
    if emit_main {
        let main_index = m7.functions.len() as usize;
        let m8 = m7.add_function(Symbol::Main, Seq::empty(), ty_i32());
        let m9 = m8.add_block(main_index as int);
        let mb = BasicBlock { function: main_index, block: 0 };
        let m10 = m9.emit(
            mb,
            InstructionModel::Call {
                dest: Some(m9.dest()),
                function: BRAINFUCK_FN,
                args: Seq::empty(),
            },
        ).bump();
        m10.emit(mb, InstructionModel::Ret { value: Value::Reg { id: m9.dest() } })
    } else {
        m7
    }
}

/// The whole generation, as a function of the instruction sequence and
/// the machine configuration. `None` exactly when some prefix of the
/// sequence closes a loop that was never opened.
pub open spec fn spec_generate(
    insns: Seq<BfInstruction>,
    capacity: i64,
    policy: MemoryOverflowBehaviour,
    emit_main: bool,
) -> Option<(ModuleModel, Function)> {
    match spec_gen_seq(spec_prologue(capacity), insns, 0, capacity, policy) {
        Some(s) => Some(
            (spec_finalize(s, emit_main), Function { index: BRAINFUCK_FN }),
        ),
        None => None,
    }
}

/// The net number of loops a sequence leaves open: one more per
/// `BeginLoop`, one fewer per `EndLoop`.
pub open spec fn loop_balance(insns: Seq<BfInstruction>) -> int
    decreases insns.len(),
{
    if insns.len() == 0 {
        0
    } else {
        (match insns[0] {
            BfInstruction::BeginLoop => 1int,
            BfInstruction::EndLoop => -1int,
            _ => 0int,
        }) + loop_balance(insns.drop_first())
    }
}

/// The fold refuses exactly when some `EndLoop` arrives with nothing on
/// the loop stack; and on success the stack shrinks or grows by the
/// sequence's net balance.
proof fn lemma_gen_seq_underflow(
    s: GenState,
    insns: Seq<BfInstruction>,
    start: int,
    capacity: i64,
    policy: MemoryOverflowBehaviour,
)
    ensures
        spec_gen_seq(s, insns, start, capacity, policy) is Some <==> (forall|k: int|
            0 <= k < insns.len() && insns[k] is EndLoop ==> s.loop_stack.len() + loop_balance(
                insns.take(k),
            ) >= 1),
        spec_gen_seq(s, insns, start, capacity, policy) matches Some(s2) ==> s2.loop_stack.len()
            == s.loop_stack.len() + loop_balance(insns),
    decreases insns.len(),
{
    if insns.len() == 0 {
    } else {
        let first = insns[0];
        let rest = insns.drop_first();
        if first is EndLoop && s.loop_stack.len() == 0 {
            assert(insns.take(0) =~= Seq::<BfInstruction>::empty());
            assert(!(s.loop_stack.len() + loop_balance(insns.take(0)) >= 1));
        } else {
            let s2 = spec_lower(s, first, start, capacity, policy)->Some_0;
            let delta: int = match first {
                BfInstruction::BeginLoop => 1int,
                BfInstruction::EndLoop => -1int,
                _ => 0int,
            };
            assert(s2.loop_stack.len() == s.loop_stack.len() + delta);
            lemma_gen_seq_underflow(s2, rest, start + 1, capacity, policy);
            assert forall|k: int| 1 <= k < insns.len() implies loop_balance(#[trigger] insns.take(k))
                == delta + loop_balance(rest.take(k - 1)) by {
                assert(insns.take(k)[0] == first);
                assert(insns.take(k).drop_first() =~= rest.take(k - 1));
            }
            if spec_gen_seq(s, insns, start, capacity, policy) is Some {
                assert forall|k: int|
                    0 <= k < insns.len() && insns[k] is EndLoop implies s.loop_stack.len()
                    + loop_balance(insns.take(k)) >= 1 by {
                    if k == 0 {
                        assert(insns.take(0) =~= Seq::<BfInstruction>::empty());
                    } else {
                        assert(rest[k - 1] is EndLoop);
                        assert(s2.loop_stack.len() + loop_balance(rest.take(k - 1)) >= 1);
                    }
                }
            }
            if forall|k: int|
                0 <= k < insns.len() && insns[k] is EndLoop ==> s.loop_stack.len() + loop_balance(
                    #[trigger] insns.take(k),
                ) >= 1 {
                assert forall|k: int|
                    0 <= k < rest.len() && rest[k] is EndLoop implies s2.loop_stack.len()
                    + loop_balance(rest.take(k)) >= 1 by {
                    assert(insns[k + 1] is EndLoop);
                    assert(s.loop_stack.len() + loop_balance(insns.take(k + 1)) >= 1);
                }
            }
        }
    }
}

/// The generator succeeds on exactly the sequences in which every
/// `EndLoop` closes a loop opened before it: the one fatal condition
/// is an unmatched closer.
pub proof fn lemma_generate_succeeds_iff_loops_open(
    insns: Seq<BfInstruction>,
    capacity: i64,
    policy: MemoryOverflowBehaviour,
    emit_main: bool,
)
    ensures
        spec_generate(insns, capacity, policy, emit_main) is Some <==> (forall|k: int|
            0 <= k < insns.len() && insns[k] is EndLoop ==> loop_balance(insns.take(k)) >= 1),
{
    lemma_gen_seq_underflow(spec_prologue(capacity), insns, 0, capacity, policy);
}

fn value_args0() -> (v: Vec<Value>)
    ensures
        v@ == Seq::<Value>::empty(),
{
    let v: Vec<Value> = Vec::new();
    proof {
        assert(v@ =~= Seq::<Value>::empty());
    }
    v
}

fn value_args1(a: Value) -> (v: Vec<Value>)
    ensures
        v@ == seq![a],
{
    let mut v: Vec<Value> = Vec::new();
    v.push(a);
    proof {
        assert(v@ =~= seq![a]);
    }
    v
}

fn value_args4(a: Value, b: Value, c: Value, d: Value) -> (v: Vec<Value>)
    ensures
        v@ == seq![a, b, c, d],
{
    let mut v: Vec<Value> = Vec::new();
    v.push(a);
    v.push(b);
    v.push(c);
    v.push(d);
    proof {
        assert(v@ =~= seq![a, b, c, d]);
    }
    v
}

fn type_args0() -> (v: Vec<Type>)
    ensures
        v@ == Seq::<Type>::empty(),
{
    let v: Vec<Type> = Vec::new();
    proof {
        assert(v@ =~= Seq::<Type>::empty());
    }
    v
}

fn type_args1(a: Type) -> (v: Vec<Type>)
    ensures
        v@ == seq![a],
{
    let mut v: Vec<Type> = Vec::new();
    v.push(a);
    proof {
        assert(v@ =~= seq![a]);
    }
    v
}

fn type_args4(a: Type, b: Type, c: Type, d: Type) -> (v: Vec<Type>)
    ensures
        v@ == seq![a, b, c, d],
{
    let mut v: Vec<Type> = Vec::new();
    v.push(a);
    v.push(b);
    v.push(c);
    v.push(d);
    proof {
        assert(v@ =~= seq![a, b, c, d]);
    }
    v
}

/// The digit weights of the fixed-width decimal printer.
fn pow10(e: usize) -> (r: u64)
    requires
        e <= 4,
    ensures
        r == spec_pow10(e as nat),
{
    if e == 0 {
        1
    } else if e == 1 {
        10
    } else if e == 2 {
        100
    } else if e == 3 {
        1000
    } else {
        10000
    }
}

/// Emit the printing of `value` as `digits` decimal digits, high first,
/// into block `bb`.
fn emit_print_decimal(module: &mut Module, bb: BasicBlock, value: Value, ty: Type, digits: usize)
    requires
        old(module)@.block_valid(bb),
        digits <= 5,
        old(module).next_value + 4 * digits <= usize::MAX,
    ensures
        final(module)@ == spec_print_decimal(old(module)@, bb, value, ty, digits as nat),
        final(module).next_value == old(module).next_value + 4 * digits,
        final(module)@.functions.len() == old(module)@.functions.len(),
        forall|f: int|
            0 <= f < old(module)@.functions.len()
                ==> #[trigger] final(module)@.functions[f].blocks.len()
                == old(module)@.functions[f].blocks.len(),
        forall|f: int, b: int|
            0 <= f < old(module)@.functions.len() && 0 <= b < old(module)@.functions[f].blocks.len()
                && !(f == bb.function && b == bb.block)
                ==> #[trigger] final(module)@.functions[f].blocks[b]
                == old(module)@.functions[f].blocks[b],
    decreases digits,
{
    if digits == 0 {
        return ;
    }
    let place = digits - 1;
    let b = Builder::new(bb);
    let weight = b.uint(ty, pow10(place));
    let quotient = b.udiv(module, value, weight);
    let digit = b.urem(module, quotient, b.uint(ty, 10));
    // shift the digit into the character range ('0' is 48)
    let chr = b.add(module, digit, b.uint(ty, 48));
    let byte = b.trunc(module, chr, Type::new(ScalarType::I8));
    b.call_void(module, Function { index: PUTCHAR_FN }, value_args1(byte));
    emit_print_decimal(module, bb, value, ty, place);
}

/// Emit the debug routine's body into its (block-less) declaration.
fn emit_debug_body(module: &mut Module, dbg: Function)
    requires
        dbg.index < old(module)@.functions.len(),
        old(module)@.functions[dbg.index as int].blocks.len() == 0,
        old(module).next_value + 64 <= usize::MAX,
    ensures
        final(module)@ == spec_debug_body(old(module)@, dbg),
        final(module)@.functions.len() == old(module)@.functions.len(),
        final(module).next_value <= old(module).next_value + 64,
{
    let entry_bb = dbg.append_basic_block(module);
    let cond_bb = dbg.append_basic_block(module);
    let body_bb = dbg.append_basic_block(module);
    let exit_bb = dbg.append_basic_block(module);
    let i8_t = Type::new(ScalarType::I8);
    let i32_t = Type::new(ScalarType::I32);
    let i64_t = Type::new(ScalarType::I64);
    let putchar = Function { index: PUTCHAR_FN };
    let insn_index = dbg.get_param(0);
    let array = dbg.get_param(1);
    let cache_size = dbg.get_param(2);
    let index = dbg.get_param(3);
    let b = Builder::new(entry_bb);
    // newline, then the two fixed-width numbers separated by a space
    b.call_void(module, putchar, value_args1(b.sint(i8_t, 10)));
    emit_print_decimal(module, entry_bb, insn_index, i32_t, 5);
    b.call_void(module, putchar, value_args1(b.sint(i8_t, 32)));
    emit_print_decimal(module, entry_bb, index, i64_t, 5);
    let counter_before = b.uint(i64_t, 0);
    b.br(module, cond_bb);
    proof {
        assert(module@.functions[dbg.index as int].blocks[1] =~= Seq::<
            InstructionModel,
        >::empty());
    }
    // loop condition: dump one cell per iteration until the capacity
    let cb = Builder::new(cond_bb);
    let counter = cb.phi(module, i64_t);
    let cmp = cb.icmp(module, IntPredicate::NotEqual, counter.value, cache_size);
    cb.cond_br(module, cmp, body_bb, exit_bb);
    // loop body: the cell's byte, then a separator bar
    let bodyb = Builder::new(body_bb);
    let cell_ptr = bodyb.getelementptr(module, array, counter.value);
    let cell = bodyb.load(module, cell_ptr);
    bodyb.call_void(module, putchar, value_args1(cell));
    bodyb.call_void(module, putchar, value_args1(bodyb.sint(i8_t, 124)));
    let counter_next = bodyb.add(module, counter.value, bodyb.uint(i64_t, 1));
    bodyb.br(module, cond_bb);
    // loop exit: a closing newline
    let eb = Builder::new(exit_bb);
    eb.call_void(module, putchar, value_args1(eb.sint(i8_t, 10)));
    eb.ret_void(module);
    counter.add_incoming(module, counter_before, entry_bb);
    counter.add_incoming(module, counter_next, body_bb);
    proof {
        assert(module@ =~~= spec_debug_body(old(module)@, dbg));
    }
}

/// The generator's mutable state, as executable data: see [`GenState`]
/// for its mathematical form ([`gen_view`]).
struct GenMut {
    module: Module,
    block: BasicBlock,
    loop_stack: Vec<LoopContext>,
    abort_block: Option<BasicBlock>,
    debug_log: Option<Function>,
}

/// The mathematical form of the generator's mutable state.
spec fn gen_view(g: GenMut) -> GenState {
    GenState {
        module: g.module@,
        block: g.block,
        loop_stack: g.loop_stack@,
        abort_block: g.abort_block,
        debug_log: g.debug_log,
    }
}

/// Structural validity of the generator state: every handle held names
/// an existing block or function of the module being built.
spec fn gen_wf(g: GenMut) -> bool {
    &&& g.block.function == BRAINFUCK_FN
    &&& g.block.block < g.module@.functions[BRAINFUCK_FN as int].blocks.len()
    &&& g.module@.functions.len() == (if g.debug_log is Some {
        6int
    } else {
        5int
    })
    &&& (g.debug_log matches Some(f) ==> f.index == DEBUG_LOG_FN && g.module@.functions[
        DEBUG_LOG_FN as int
    ].blocks.len() == 0)
    &&& (g.abort_block matches Some(ab) ==> ab.function == BRAINFUCK_FN && ab.block
        < g.module@.functions[BRAINFUCK_FN as int].blocks.len())
    &&& forall|j: int|
        0 <= j < g.loop_stack@.len() ==> {
            &&& (#[trigger] g.loop_stack@[j]).loop_header_bb.function == BRAINFUCK_FN
            &&& g.loop_stack@[j].loop_footer_bb.function == BRAINFUCK_FN
            &&& g.loop_stack@[j].loop_header_bb.block < g.module@.functions[
                BRAINFUCK_FN as int
            ].blocks.len()
            &&& g.loop_stack@[j].loop_footer_bb.block < g.module@.functions[
                BRAINFUCK_FN as int
            ].blocks.len()
        }
}

/// The fixed handles and constants the per-instruction lowering uses:
/// all of them are settled by the prologue and never change.
struct GenEnv {
    i8_t: Type,
    i32_t: Type,
    i64_t: Type,
    ptr8_t: Type,
    void_t: Type,
    cache_size: Value,
    zero_value: Value,
    array: Value,
    index_variable: Var,
    ptr_variable: Var,
    free_fn: Function,
    putchar: Function,
    getchar: Function,
    function: Function,
    policy: MemoryOverflowBehaviour,
}

/// The environment holds exactly the values the generation model is
/// stated over.
spec fn env_wf(e: GenEnv, capacity: i64) -> bool {
    &&& e.i8_t == ty_i8()
    &&& e.i32_t == ty_i32()
    &&& e.i64_t == ty_i64()
    &&& e.ptr8_t == ty_ptr_i8()
    &&& e.void_t == ty_void()
    &&& e.cache_size == cs_value(capacity)
    &&& e.zero_value == zero_cell()
    &&& e.array == array_value()
    &&& e.index_variable == index_var()
    &&& e.ptr_variable == ptr_var()
    &&& e.free_fn == (Function { index: FREE_FN })
    &&& e.putchar == (Function { index: PUTCHAR_FN })
    &&& e.getchar == (Function { index: GETCHAR_FN })
    &&& e.function == (Function { index: BRAINFUCK_FN })
}

/// Emit the module prologue: the external declarations, the program
/// function with its entry and zero-fill blocks, the buffer allocation
/// and zeroing, and the two variables.
#[verifier::rlimit(100)]
fn emit_prologue(capacity: i64, policy: MemoryOverflowBehaviour) -> (r: (GenMut, GenEnv))
    ensures
        gen_view(r.0) == spec_prologue(capacity),
        gen_wf(r.0),
        env_wf(r.1, capacity),
        r.1.policy == policy,
        r.0.module.next_value == 9,
        r.0.module@.functions[BRAINFUCK_FN as int].blocks.len() == 4,
{
    let mut module = Module::new();
    let void_t = module.void_type;
    let i8_t = module.i8_type;
    let i32_t = module.i32_type;
    let i64_t = module.i64_type;
    let ptr8_t = i8_t.ptr_type();

    let malloc = module.add_function(Symbol::Malloc, type_args1(i64_t), ptr8_t);
    let free_fn = module.add_function(Symbol::Free, type_args1(ptr8_t), void_t);
    let putchar = module.add_function(Symbol::PutChar, type_args1(i8_t), i8_t);
    let getchar = module.add_function(Symbol::GetChar, type_args0(), i8_t);
    let function = module.add_function(Symbol::Brainfuck, type_args0(), i32_t);

    let entry_bb = module.append_basic_block(function);
    let zf_cond_bb = module.append_basic_block(function);
    let zf_body_bb = module.append_basic_block(function);
    let zf_exit_bb = module.append_basic_block(function);

    // entry: allocate the buffer and set up the index and cell-address
    // variables
    let builder = Builder::new(entry_bb);
    let cache_size = builder.uint(i64_t, capacity as u64);
    let zero_value = builder.sint(i8_t, 0);
    let array = builder.call(&mut module, malloc, value_args1(cache_size));
    let index_variable = Var::allocate(&builder, &mut module, i64_t, builder.uint(i64_t, 0));
    let index_init = index_variable.load(&builder, &mut module);
    let base = builder.getelementptr(&mut module, array, index_init);
    let ptr_variable = Var::allocate(&builder, &mut module, ptr8_t, base);
    builder.br(&mut module, zf_cond_bb);

    // zero-fill loop: the allocator is not trusted to pre-zero memory
    let cond_builder = Builder::new(zf_cond_bb);
    let counter = cond_builder.phi(&mut module, i64_t);
    let zf_cmp = cond_builder.icmp(
        &mut module,
        IntPredicate::UnsignedLessThan,
        counter.value,
        cache_size,
    );
    cond_builder.cond_br(&mut module, zf_cmp, zf_body_bb, zf_exit_bb);
    let body_builder = Builder::new(zf_body_bb);
    let zf_ptr = body_builder.getelementptr(&mut module, array, counter.value);
    body_builder.store(&mut module, zero_value, zf_ptr);
    let counter_next = body_builder.add(&mut module, counter.value, body_builder.uint(i64_t, 1));
    body_builder.br(&mut module, zf_cond_bb);
    counter.add_incoming(&mut module, builder.uint(i64_t, 0), entry_bb);
    counter.add_incoming(&mut module, counter_next, zf_body_bb);

    let loop_stack: Vec<LoopContext> = Vec::new();
    proof {
        assert(loop_stack@ =~= Seq::<LoopContext>::empty());
        assert(module@ =~~= spec_prologue(capacity).module);
    }
    let g = GenMut { module, block: zf_exit_bb, loop_stack, abort_block: None, debug_log: None };
    let env = GenEnv {
        i8_t,
        i32_t,
        i64_t,
        ptr8_t,
        void_t,
        cache_size,
        zero_value,
        array,
        index_variable,
        ptr_variable,
        free_fn,
        putchar,
        getchar,
        function,
        policy,
    };
    proof {
        assert(gen_view(g) =~~= spec_prologue(capacity));
    }
    (g, env)
}

/// Lower one instruction into the current block, moving the generator
/// state as the model says. Returns false exactly when the model
/// refuses: on an `EndLoop` with no open loop.
#[verifier::rlimit(100)]
fn lower_one(
    g: &mut GenMut,
    env: &GenEnv,
    insn: BfInstruction,
    i: usize,
    Ghost(capacity): Ghost<i64>,
) -> (ok: bool)
    requires
        env_wf(*env, capacity),
        gen_wf(*old(g)),
        old(g).module.next_value + 8 <= usize::MAX,
        old(g).module@.functions[BRAINFUCK_FN as int].blocks.len() + 3 <= usize::MAX,
    ensures
        gen_wf(*final(g)),
        final(g).module.next_value <= old(g).module.next_value + 8,
        final(g).module@.functions[BRAINFUCK_FN as int].blocks.len() <= old(
            g,
        ).module@.functions[BRAINFUCK_FN as int].blocks.len() + 3,
        ok ==> Some(gen_view(*final(g))) == spec_lower(
            gen_view(*old(g)),
            insn,
            i as int,
            capacity,
            env.policy,
        ),
        !ok ==> spec_lower(gen_view(*old(g)), insn, i as int, capacity, env.policy) is None,
{
    match insn {
        BfInstruction::SetValue(value) => {
            let b = Builder::new(g.block);
            let val = b.sint(env.i8_t, value as i64);
            let cell_addr = env.ptr_variable.load(&b, &mut g.module);
            b.store(&mut g.module, val, cell_addr);
            true
        },
        BfInstruction::AddValue(value) => {
            let b = Builder::new(g.block);
            let cell_addr = env.ptr_variable.load(&b, &mut g.module);
            let lhs = b.load(&mut g.module, cell_addr);
            let sum = b.add(&mut g.module, lhs, b.sint(env.i8_t, value as i64));
            let cell_addr_again = env.ptr_variable.load(&b, &mut g.module);
            b.store(&mut g.module, sum, cell_addr_again);
            true
        },
        BfInstruction::AddPointer(value) => {
            let b = Builder::new(g.block);
            let index_old = env.index_variable.load(&b, &mut g.module);
            let index_new = b.add(&mut g.module, index_old, b.sint(env.i64_t, value));
            env.index_variable.store(&b, &mut g.module, index_new);
            match env.policy {
                MemoryOverflowBehaviour::Undefined => {},
                MemoryOverflowBehaviour::Wrap => {
                    let idx = env.index_variable.load(&b, &mut g.module);
                    let wrapped = b.urem(&mut g.module, idx, env.cache_size);
                    env.index_variable.store(&b, &mut g.module, wrapped);
                },
                MemoryOverflowBehaviour::Abort => {
                    let success_bb = env.function.append_basic_block(&mut g.module);
                    let ab = match g.abort_block {
                        Some(ab) => ab,
                        None => {
                            let fresh = env.function.append_basic_block(&mut g.module);
                            g.abort_block = Some(fresh);
                            fresh
                        },
                    };
                    let idx = env.index_variable.load(&b, &mut g.module);
                    let cmp = b.icmp(
                        &mut g.module,
                        IntPredicate::UnsignedLessThan,
                        idx,
                        env.cache_size,
                    );
                    b.cond_br(&mut g.module, cmp, success_bb, ab);
                    g.block = success_bb;
                },
            }
            // recompute the cell address from the adjusted index
            let b2 = Builder::new(g.block);
            let idx_final = env.index_variable.load(&b2, &mut g.module);
            let cell_addr = b2.getelementptr(&mut g.module, env.array, idx_final);
            env.ptr_variable.store(&b2, &mut g.module, cell_addr);
            true
        },
        BfInstruction::Input => {
            let b = Builder::new(g.block);
            let chr = b.call(&mut g.module, env.getchar, value_args0());
            let cell_addr = env.ptr_variable.load(&b, &mut g.module);
            b.store(&mut g.module, chr, cell_addr);
            true
        },
        BfInstruction::Output => {
            let b = Builder::new(g.block);
            let cell_addr = env.ptr_variable.load(&b, &mut g.module);
            let out = b.load(&mut g.module, cell_addr);
            b.call_void(&mut g.module, env.putchar, value_args1(out));
            true
        },
        BfInstruction::BeginLoop => {
            let loop_header_bb = env.function.append_basic_block(&mut g.module);
            let loop_body_bb = env.function.append_basic_block(&mut g.module);
            let loop_footer_bb = env.function.append_basic_block(&mut g.module);
            let b = Builder::new(g.block);
            b.br(&mut g.module, loop_header_bb);
            // header: if the cell is zero, skip to the footer
            let hb = Builder::new(loop_header_bb);
            let cell_addr = env.ptr_variable.load(&hb, &mut g.module);
            let cell = hb.load(&mut g.module, cell_addr);
            let cmp = hb.icmp(&mut g.module, IntPredicate::Equal, cell, env.zero_value);
            hb.cond_br(&mut g.module, cmp, loop_footer_bb, loop_body_bb);
            g.block = loop_body_bb;
            g.loop_stack.push(LoopContext { loop_header_bb, loop_footer_bb });
            true
        },
        BfInstruction::EndLoop => {
            match g.loop_stack.pop() {
                Some(context) => {
                    let b = Builder::new(g.block);
                    b.br(&mut g.module, context.loop_header_bb);
                    g.block = context.loop_footer_bb;
                    proof {
                        assert(g.loop_stack@ =~= old(g).loop_stack@.drop_last());
                    }
                    true
                },
                None => false,
            }
        },
        BfInstruction::DebugLog => {
            let dbg = match g.debug_log {
                Some(f) => f,
                None => {
                    let f = g.module.add_function(
                        Symbol::DebugLog,
                        type_args4(env.i32_t, env.ptr8_t, env.i64_t, env.i64_t),
                        env.void_t,
                    );
                    g.debug_log = Some(f);
                    f
                },
            };
            let b = Builder::new(g.block);
            let insn_index = b.uint(env.i32_t, i as u64);
            let idx = env.index_variable.load(&b, &mut g.module);
            b.call_void(&mut g.module, dbg, value_args4(insn_index, env.array, env.cache_size, idx));
            true
        },
    }
}

/// Emit everything that follows the last instruction: the normal
/// epilogue, the abort path if one was ever needed, the debug routine's
/// body if it was ever called, and the optional wrapper entry point.
#[verifier::rlimit(100)]
fn emit_finalize(g: GenMut, env: &GenEnv, emit_main: bool, Ghost(capacity): Ghost<i64>) -> (r: (
    Module,
    Function,
))
    requires
        env_wf(*env, capacity),
        gen_wf(g),
        g.module.next_value + 128 <= usize::MAX,
    ensures
        r.0@ == spec_finalize(gen_view(g), emit_main),
        r.1 == (Function { index: BRAINFUCK_FN }),
{
    let ghost start = gen_view(g);
    let GenMut { module: mut module, block, loop_stack: _, abort_block, debug_log } = g;
    // normal epilogue: the current cell becomes the exit value
    let b = Builder::new(block);
    let cell_addr = env.ptr_variable.load(&b, &mut module);
    let result = b.load(&mut module, cell_addr);
    b.call_void(&mut module, env.free_fn, value_args1(env.array));
    let result32 = b.sext_or_bitcast(&mut module, result, env.i32_t);
    b.ret(&mut module, result32);

    // abort path: release the buffer and return the sentinel
    if let Some(ab) = abort_block {
        let b2 = Builder::new(ab);
        b2.call_void(&mut module, env.free_fn, value_args1(env.array));
        b2.ret(&mut module, b2.sint(env.i32_t, -1));
    }

    if let Some(dbg) = debug_log {
        emit_debug_body(&mut module, dbg);
    }

    if emit_main {
        let main_fn = module.add_function(Symbol::Main, type_args0(), env.i32_t);
        let main_bb = main_fn.append_basic_block(&mut module);
        let mb = Builder::new(main_bb);
        let r = mb.call(&mut module, env.function, value_args0());
        mb.ret(&mut module, r);
    }
    proof {
        assert(module@ =~~= spec_finalize(start, emit_main));
    }
    (module, env.function)
}

/// Lower a machine configuration to a module: the prologue, one
/// lowering per canonical instruction, and the epilogue(s). Returns the
/// module and the handle of the compiled program's function; fails
/// exactly when an `EndLoop` closes a loop that was never opened
/// ([`lemma_generate_succeeds_iff_loops_open`]).
///
/// A dangling `BeginLoop` with no closer is deliberately not diagnosed:
/// generation completes, the epilogue lands in the unclosed body, and
/// the loop's footer block stays empty. [`spec_generate`] pins that
/// outcome exactly, so a caller who wants to reject such sequences can;
/// the generator itself keeps the permissive behaviour.
#[verifier::loop_isolation(false)]
#[verifier::rlimit(100)]
pub fn compile(machine: &BfMachine, emit_main: bool) -> (r: Result<
    (Module, Function),
    CompileError,
>)
    requires
        machine.cache_size >= 1,
        machine.instructions.list@.len() * 8 + 256 <= usize::MAX,
    ensures
        r is Ok <==> spec_generate(
            machine.instructions.list@,
            machine.cache_size,
            machine.memory_overflow,
            emit_main,
        ) is Some,
        (r matches Ok(p) ==> Some((p.0@, p.1)) == spec_generate(
            machine.instructions.list@,
            machine.cache_size,
            machine.memory_overflow,
            emit_main,
        )),
{
    let ghost insns = machine.instructions.list@;
    let ghost capacity = machine.cache_size;
    let ghost policy = machine.memory_overflow;

    let prologue = emit_prologue(machine.cache_size, machine.memory_overflow);
    let mut g = prologue.0;
    let env = prologue.1;
    proof {
        assert(insns.skip(0) =~= insns);
    }
    let n = machine.instructions.list.len();
    let mut i: usize = 0;
    while i < n
        invariant
            i <= n,
            gen_wf(g),
            (g.module.next_value as int) <= 9 + 8 * (i as int),
            g.module@.functions[BRAINFUCK_FN as int].blocks.len() <= 4 + 3 * (i as int),
            spec_gen_seq(spec_prologue(capacity), insns, 0, capacity, policy) == spec_gen_seq(
                gen_view(g),
                insns.skip(i as int),
                i as int,
                capacity,
                policy,
            ),
        decreases n - i,
    {
        let insn = machine.instructions.list[i];
        proof {
            assert(insns.skip(i as int)[0] == insns[i as int]);
            assert(insns.skip(i as int).drop_first() =~= insns.skip(i as int + 1));
        }
        let ok = lower_one(&mut g, &env, insn, i, Ghost(capacity));
        if !ok {
            return Err(CompileError::UnmatchedEndLoop);
        }
        i += 1;
    }
    proof {
        assert(insns.skip(n as int) =~= Seq::<BfInstruction>::empty());
    }
    let r = emit_finalize(g, &env, emit_main, Ghost(capacity));
    Ok(r)
}

} // verus!
