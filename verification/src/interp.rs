//! A reference evaluator for the intermediate representation.
//!
//! It plays the backend's just-in-time execution role for testing and
//! for the driver's direct-execution output stage: it walks a generated
//! module instruction by instruction, with a fuel bound for
//! termination. Every register, slot and memory access is guarded, and
//! any violation — as well as fuel running out — ends the run with
//! `None`; Verus checks that the evaluator itself can never fault its
//! host. It is not a second backend: nothing downstream consumes its
//! state, only tests read its output bytes and exit code.

use vstd::prelude::*;

use crate::ir::Function;
use crate::ir::Instruction;
use crate::ir::IntPredicate;
use crate::ir::Module;
use crate::ir::ScalarType;
use crate::ir::Symbol;
use crate::ir::Type;
use crate::ir::Value;

verus! {

/// What a finished run produced: the bytes written through the
/// write-one-byte primitive, and the program's exit value.
pub struct RunResult {
    pub output: Vec<u8>,
    pub exit_code: i32,
}

/// Pointers into an `Alloca` slot carry this tag; untagged pointers
/// index the byte buffer.
const SLOT_TAG: u64 = 0x8000_0000_0000_0000;

/// The evaluator's mutable machine state.
struct RunState {
    regs: Vec<u64>,
    slots: Vec<u64>,
    memory: Vec<u8>,
    output: Vec<u8>,
    input: Vec<u8>,
    input_pos: usize,
    fuel: u64,
}

/// The value of one operand, as raw 64-bit data.
fn eval_value(regs: &Vec<u64>, params: &Vec<u64>, v: Value) -> Option<u64> {
    match v {
        Value::UInt { ty: _, bits } => Some(bits),
        Value::SInt { ty: _, bits } => Some(bits as u64),
        Value::Reg { id } => {
            if id < regs.len() {
                Some(regs[id])
            } else {
                None
            }
        },
        Value::Param { index } => {
            if index < params.len() {
                Some(params[index])
            } else {
                None
            }
        },
    }
}

/// Write a register, if it exists.
fn set_reg(regs: &mut Vec<u64>, id: usize, v: u64) -> bool {
    if id < regs.len() {
        regs[id] = v;
        true
    } else {
        false
    }
}

/// The low bits a value of scalar type `ty` keeps.
fn width_mask(ty: Type) -> u64 {
    if ty.pointer_depth > 0 {
        0xffff_ffff_ffff_ffff
    } else {
        match ty.scalar {
            ScalarType::Void => 0,
            ScalarType::I1 => 1,
            ScalarType::I8 => 0xff,
            ScalarType::I32 => 0xffff_ffff,
            ScalarType::I64 => 0xffff_ffff_ffff_ffff,
        }
    }
}

/// Load through a pointer: a tagged slot yields its full word, a
/// buffer address yields one byte.
fn mem_load(state: &RunState, ptr: u64) -> Option<u64> {
    if ptr >= SLOT_TAG {
        let id = (ptr - SLOT_TAG) as usize;
        if id < state.slots.len() {
            Some(state.slots[id])
        } else {
            None
        }
    } else {
        let addr = ptr as usize;
        if addr < state.memory.len() {
            Some(state.memory[addr] as u64)
        } else {
            None
        }
    }
}

/// Store through a pointer: a tagged slot takes the full word, a
/// buffer address the low byte.
fn mem_store(state: &mut RunState, ptr: u64, value: u64) -> (ok: bool)
    ensures
        final(state).fuel == old(state).fuel,
{
    if ptr >= SLOT_TAG {
        let id = (ptr - SLOT_TAG) as usize;
        if id < state.slots.len() {
            state.slots[id] = value;
            true
        } else {
            false
        }
    } else {
        let addr = ptr as usize;
        if addr < state.memory.len() {
            state.memory[addr] = value as u8;
            true
        } else {
            false
        }
    }
}

/// One call of an external routine, dispatched by its symbol. The
/// buffer allocator hands out address zero; the reader yields the
/// all-ones byte once the input is exhausted, as an end-of-input mark.
fn run_external(state: &mut RunState, symbol: Symbol, params: &Vec<u64>) -> (r: Option<
    Option<u64>,
>)
    ensures
        final(state).fuel == old(state).fuel,
{
    match symbol {
        Symbol::Malloc => {
            if params.len() < 1 {
                return None;
            }
            let size = params[0];
            if size > 0x1000_0000 {
                return None;
            }
            let mut memory: Vec<u8> = Vec::new();
            let mut filled: u64 = 0;
            while filled < size
                invariant
                    filled <= size,
                    size <= 0x1000_0000,
                decreases size - filled,
            {
                // the evaluator does not pre-zero either: generated
                // programs must run their own zero-fill
                memory.push(0xaa);
                filled = filled + 1;
            }
            state.memory = memory;
            Some(Some(0))
        },
        Symbol::Free => Some(None),
        Symbol::PutChar => {
            if params.len() < 1 {
                return None;
            }
            if state.output.len() >= 0x1000_0000 {
                return None;
            }
            state.output.push(params[0] as u8);
            Some(Some(params[0] & 0xff))
        },
        Symbol::GetChar => {
            if state.input_pos < state.input.len() {
                let byte = state.input[state.input_pos];
                state.input_pos = state.input_pos + 1;
                Some(Some(byte as u64))
            } else {
                Some(Some(0xff))
            }
        },
        _ => None,
    }
}

/// Run one function of the module to its return, with `depth` bounding
/// the call nesting.
fn run_function(
    module: &Module,
    state: &mut RunState,
    findex: usize,
    params: Vec<u64>,
    depth: u64,
) -> (r: Option<Option<u64>>)
    ensures
        final(state).fuel <= old(state).fuel,
    decreases depth,
{
    if findex >= module.functions.len() {
        return None;
    }
    if module.functions[findex].blocks.len() == 0 {
        let symbol = module.functions[findex].symbol;
        return run_external(state, symbol, &params);
    }
    let mut block: usize = 0;
    let mut prev_block: usize = 0;
    let mut pc: usize = 0;
    loop
        invariant
            findex < module.functions.len(),
            state.fuel <= old(state).fuel,
        decreases state.fuel,
    {
        if state.fuel == 0 {
            return None;
        }
        state.fuel = state.fuel - 1;
        if block >= module.functions[findex].blocks.len() {
            return None;
        }
        if pc >= module.functions[findex].blocks[block].instructions.len() {
            // a block without a terminator
            return None;
        }
        let insn = &module.functions[findex].blocks[block].instructions[pc];
        match insn {
            Instruction::Alloca { dest, ty: _ } => {
                let d = *dest;
                if d as u64 >= SLOT_TAG {
                    return None;
                }
                if !set_reg(&mut state.regs, d, SLOT_TAG + d as u64) {
                    return None;
                }
                pc = pc + 1;
            },
            Instruction::Load { dest, ptr } => {
                let p = match eval_value(&state.regs, &params, *ptr) {
                    Some(p) => p,
                    None => {
                        return None;
                    },
                };
                let v = match mem_load(state, p) {
                    Some(v) => v,
                    None => {
                        return None;
                    },
                };
                if !set_reg(&mut state.regs, *dest, v) {
                    return None;
                }
                pc = pc + 1;
            },
            Instruction::Store { value, ptr } => {
                let v = match eval_value(&state.regs, &params, *value) {
                    Some(v) => v,
                    None => {
                        return None;
                    },
                };
                let p = match eval_value(&state.regs, &params, *ptr) {
                    Some(p) => p,
                    None => {
                        return None;
                    },
                };
                if !mem_store(state, p, v) {
                    return None;
                }
                pc = pc + 1;
            },
            Instruction::Add { dest, lhs, rhs } => {
                let l = match eval_value(&state.regs, &params, *lhs) {
                    Some(l) => l,
                    None => {
                        return None;
                    },
                };
                let r = match eval_value(&state.regs, &params, *rhs) {
                    Some(r) => r,
                    None => {
                        return None;
                    },
                };
                if !set_reg(&mut state.regs, *dest, l.wrapping_add(r)) {
                    return None;
                }
                pc = pc + 1;
            },
            Instruction::UDiv { dest, lhs, rhs } => {
                let l = match eval_value(&state.regs, &params, *lhs) {
                    Some(l) => l,
                    None => {
                        return None;
                    },
                };
                let r = match eval_value(&state.regs, &params, *rhs) {
                    Some(r) => r,
                    None => {
                        return None;
                    },
                };
                if r == 0 {
                    return None;
                }
                if !set_reg(&mut state.regs, *dest, l / r) {
                    return None;
                }
                pc = pc + 1;
            },
            Instruction::URem { dest, lhs, rhs } => {
                let l = match eval_value(&state.regs, &params, *lhs) {
                    Some(l) => l,
                    None => {
                        return None;
                    },
                };
                let r = match eval_value(&state.regs, &params, *rhs) {
                    Some(r) => r,
                    None => {
                        return None;
                    },
                };
                if r == 0 {
                    return None;
                }
                if !set_reg(&mut state.regs, *dest, l % r) {
                    return None;
                }
                pc = pc + 1;
            },
            Instruction::Trunc { dest, value, ty } => {
                let v = match eval_value(&state.regs, &params, *value) {
                    Some(v) => v,
                    None => {
                        return None;
                    },
                };
                if !set_reg(&mut state.regs, *dest, v & width_mask(*ty)) {
                    return None;
                }
                pc = pc + 1;
            },
            Instruction::SExtOrBitCast { dest, value, ty } => {
                // the generator only widens cell bytes: extend the sign
                // of the low byte, then keep the target's width
                let v = match eval_value(&state.regs, &params, *value) {
                    Some(v) => v,
                    None => {
                        return None;
                    },
                };
                let byte = v as u8;
                let wide = byte as i8 as i64 as u64;
                if !set_reg(&mut state.regs, *dest, wide & width_mask(*ty)) {
                    return None;
                }
                pc = pc + 1;
            },
            Instruction::ICmp { dest, predicate, lhs, rhs } => {
                let l = match eval_value(&state.regs, &params, *lhs) {
                    Some(l) => l,
                    None => {
                        return None;
                    },
                };
                let r = match eval_value(&state.regs, &params, *rhs) {
                    Some(r) => r,
                    None => {
                        return None;
                    },
                };
                let holds = match predicate {
                    IntPredicate::Equal => l == r,
                    IntPredicate::NotEqual => l != r,
                    IntPredicate::UnsignedLessThan => l < r,
                };
                if !set_reg(&mut state.regs, *dest, if holds { 1 } else { 0 }) {
                    return None;
                }
                pc = pc + 1;
            },
            Instruction::GetElementPtr { dest, ptr, index } => {
                let p = match eval_value(&state.regs, &params, *ptr) {
                    Some(p) => p,
                    None => {
                        return None;
                    },
                };
                let i = match eval_value(&state.regs, &params, *index) {
                    Some(i) => i,
                    None => {
                        return None;
                    },
                };
                if !set_reg(&mut state.regs, *dest, p.wrapping_add(i)) {
                    return None;
                }
                pc = pc + 1;
            },
            Instruction::Call { dest, function, args } => {
                if depth == 0 {
                    return None;
                }
                let mut argv: Vec<u64> = Vec::new();
                let mut k: usize = 0;
                while k < args.len()
                    invariant
                        state.fuel <= old(state).fuel,
                    decreases args.len() - k,
                {
                    let a = match eval_value(&state.regs, &params, args[k]) {
                        Some(a) => a,
                        None => {
                            return None;
                        },
                    };
                    argv.push(a);
                    k = k + 1;
                }
                let callee = *function;
                let result = match run_function(module, state, callee, argv, depth - 1) {
                    Some(result) => result,
                    None => {
                        return None;
                    },
                };
                if let Some(d) = dest {
                    let v = match result {
                        Some(v) => v,
                        None => 0,
                    };
                    if !set_reg(&mut state.regs, *d, v) {
                        return None;
                    }
                }
                pc = pc + 1;
            },
            Instruction::Br { target } => {
                prev_block = block;
                block = *target;
                pc = 0;
            },
            Instruction::CondBr { condition, then_block, else_block } => {
                let c = match eval_value(&state.regs, &params, *condition) {
                    Some(c) => c,
                    None => {
                        return None;
                    },
                };
                prev_block = block;
                block = if c != 0 {
                    *then_block
                } else {
                    *else_block
                };
                pc = 0;
            },
            Instruction::Ret { value } => {
                let v = match eval_value(&state.regs, &params, *value) {
                    Some(v) => v,
                    None => {
                        return None;
                    },
                };
                return Some(Some(v));
            },
            Instruction::RetVoid => {
                return Some(None);
            },
            Instruction::Phi { dest, ty: _, incoming } => {
                let mut chosen: Option<u64> = None;
                let mut k: usize = 0;
                while k < incoming.len()
                    invariant
                        state.fuel <= old(state).fuel,
                    decreases incoming.len() - k,
                {
                    if incoming[k].1 == prev_block {
                        let v = match eval_value(&state.regs, &params, incoming[k].0) {
                            Some(v) => v,
                            None => {
                                return None;
                            },
                        };
                        chosen = Some(v);
                    }
                    k = k + 1;
                }
                let v = match chosen {
                    Some(v) => v,
                    None => {
                        return None;
                    },
                };
                if !set_reg(&mut state.regs, *dest, v) {
                    return None;
                }
                pc = pc + 1;
            },
        }
    }
}

/// Evaluate one function of a generated module: `entry` is run with no
/// arguments, `input` feeds the read-one-byte primitive, and `fuel`
/// bounds the number of instructions executed. `None` means the run
/// did not finish cleanly: it ran out of fuel, or the module did
/// something the evaluator refuses (an out-of-range access, a missing
/// terminator, division by zero, too deep a call nesting).
pub fn run_module(module: &Module, entry: Function, input: Vec<u8>, fuel: u64) -> (r: Option<
    RunResult,
>) {
    let reg_count = module.next_value;
    if reg_count > 0x1000_0000 {
        return None;
    }
    let mut regs: Vec<u64> = Vec::new();
    let mut filled: usize = 0;
    while filled < reg_count
        invariant
            filled <= reg_count,
            reg_count <= 0x1000_0000,
        decreases reg_count - filled,
    {
        regs.push(0);
        filled = filled + 1;
    }
    let mut slots: Vec<u64> = Vec::new();
    let mut filled2: usize = 0;
    while filled2 < reg_count
        invariant
            filled2 <= reg_count,
            reg_count <= 0x1000_0000,
        decreases reg_count - filled2,
    {
        slots.push(0);
        filled2 = filled2 + 1;
    }
    let mut state = RunState {
        regs,
        slots,
        memory: Vec::new(),
        output: Vec::new(),
        input,
        input_pos: 0,
        fuel,
    };
    match run_function(module, &mut state, entry.index, Vec::new(), 8) {
        Some(Some(v)) => Some(RunResult { output: state.output, exit_code: v as u32 as i32 }),
        Some(None) => None,
        None => None,
    }
}

} // verus!
