//! A small backend-independent intermediate representation.
//!
//! The code generator targets this model instead of a native-code
//! library: a module is a list of functions, a function a list of basic
//! blocks, a block a list of instructions. Handles (`Function`,
//! `BasicBlock`, `Value`) are plain indices, so the whole graph is plain
//! data and every construction step has an exact contract over the
//! mathematical view [`ModuleModel`]. An unverified driver can walk the
//! finished module and hand it to any real backend.

use vstd::prelude::*;

verus! {

/// The scalar types the generator uses.
#[derive(Debug, Copy, Clone, PartialEq, Eq, Structural)]
pub enum ScalarType {
    Void,
    I1,
    I8,
    I32,
    I64,
}

/// A scalar type behind `pointer_depth` levels of indirection.
#[derive(Debug, Copy, Clone, PartialEq, Eq, Structural)]
pub struct Type {
    pub scalar: ScalarType,
    pub pointer_depth: usize,
}

impl Type {
    /// The scalar type itself, with no indirection.
    pub fn new(scalar: ScalarType) -> (t: Type)
        ensures
            t == (Type { scalar, pointer_depth: 0usize }),
    {
        Type { scalar, pointer_depth: 0 }
    }

    /// The type of a pointer to `self`.
    pub fn ptr_type(&self) -> (t: Type)
        requires
            self.pointer_depth < usize::MAX,
        ensures
            t == (Type { scalar: self.scalar, pointer_depth: (self.pointer_depth + 1) as usize }),
    {
        Type { scalar: self.scalar, pointer_depth: self.pointer_depth + 1 }
    }
}

/// The linker-level name of a function of the generated module. The
/// external ones (`Malloc` through `DebugLog`) are declarations the
/// runtime environment must provide; `Brainfuck` is the compiled
/// program, `Main` an optional wrapper entry point.
#[derive(Debug, Copy, Clone, PartialEq, Eq, Structural)]
pub enum Symbol {
    Malloc,
    Free,
    PutChar,
    GetChar,
    DebugLog,
    Brainfuck,
    Main,
}

/// The comparison an `ICmp` instruction performs.
#[derive(Debug, Copy, Clone, PartialEq, Eq, Structural)]
pub enum IntPredicate {
    Equal,
    NotEqual,
    UnsignedLessThan,
}

/// An operand: an integer constant, the result of the instruction with
/// register id `id`, or a parameter of the containing function.
#[derive(Debug, Copy, Clone, PartialEq, Eq, Structural)]
pub enum Value {
    UInt { ty: Type, bits: u64 },
    SInt { ty: Type, bits: i64 },
    Reg { id: usize },
    Param { index: usize },
}

/// A handle to one basic block: the function's index in the module and
/// the block's index in that function.
#[derive(Debug, Copy, Clone, PartialEq, Eq, Structural)]
pub struct BasicBlock {
    pub function: usize,
    pub block: usize,
}

/// A handle to one function of the module.
#[derive(Debug, Copy, Clone, PartialEq, Eq, Structural)]
pub struct Function {
    pub index: usize,
}

/// One instruction. Register ids (`dest`) are unique across the whole
/// module; block operands (`target`, `then_block`, ...) index blocks of
/// the containing function.
#[derive(Debug, Clone)]
pub enum Instruction {
    Alloca { dest: usize, ty: Type },
    Load { dest: usize, ptr: Value },
    Store { value: Value, ptr: Value },
    Add { dest: usize, lhs: Value, rhs: Value },
    UDiv { dest: usize, lhs: Value, rhs: Value },
    URem { dest: usize, lhs: Value, rhs: Value },
    Trunc { dest: usize, value: Value, ty: Type },
    SExtOrBitCast { dest: usize, value: Value, ty: Type },
    ICmp { dest: usize, predicate: IntPredicate, lhs: Value, rhs: Value },
    GetElementPtr { dest: usize, ptr: Value, index: Value },
    Call { dest: Option<usize>, function: usize, args: Vec<Value> },
    Br { target: usize },
    CondBr { condition: Value, then_block: usize, else_block: usize },
    Ret { value: Value },
    RetVoid,
    Phi { dest: usize, ty: Type, incoming: Vec<(Value, usize)> },
}

/// The mathematical form of one instruction: as [`Instruction`], with
/// sequences in place of vectors.
pub ghost enum InstructionModel {
    Alloca { dest: usize, ty: Type },
    Load { dest: usize, ptr: Value },
    Store { value: Value, ptr: Value },
    Add { dest: usize, lhs: Value, rhs: Value },
    UDiv { dest: usize, lhs: Value, rhs: Value },
    URem { dest: usize, lhs: Value, rhs: Value },
    Trunc { dest: usize, value: Value, ty: Type },
    SExtOrBitCast { dest: usize, value: Value, ty: Type },
    ICmp { dest: usize, predicate: IntPredicate, lhs: Value, rhs: Value },
    GetElementPtr { dest: usize, ptr: Value, index: Value },
    Call { dest: Option<usize>, function: usize, args: Seq<Value> },
    Br { target: usize },
    CondBr { condition: Value, then_block: usize, else_block: usize },
    Ret { value: Value },
    RetVoid,
    Phi { dest: usize, ty: Type, incoming: Seq<(Value, usize)> },
}

impl View for Instruction {
    type V = InstructionModel;

    open spec fn view(&self) -> InstructionModel {
        match self {
            Instruction::Alloca { dest, ty } => InstructionModel::Alloca { dest: *dest, ty: *ty },
            Instruction::Load { dest, ptr } => InstructionModel::Load { dest: *dest, ptr: *ptr },
            Instruction::Store { value, ptr } => InstructionModel::Store {
                value: *value,
                ptr: *ptr,
            },
            Instruction::Add { dest, lhs, rhs } => InstructionModel::Add {
                dest: *dest,
                lhs: *lhs,
                rhs: *rhs,
            },
            Instruction::UDiv { dest, lhs, rhs } => InstructionModel::UDiv {
                dest: *dest,
                lhs: *lhs,
                rhs: *rhs,
            },
            Instruction::URem { dest, lhs, rhs } => InstructionModel::URem {
                dest: *dest,
                lhs: *lhs,
                rhs: *rhs,
            },
            Instruction::Trunc { dest, value, ty } => InstructionModel::Trunc {
                dest: *dest,
                value: *value,
                ty: *ty,
            },
            Instruction::SExtOrBitCast { dest, value, ty } => InstructionModel::SExtOrBitCast {
                dest: *dest,
                value: *value,
                ty: *ty,
            },
            Instruction::ICmp { dest, predicate, lhs, rhs } => InstructionModel::ICmp {
                dest: *dest,
                predicate: *predicate,
                lhs: *lhs,
                rhs: *rhs,
            },
            Instruction::GetElementPtr { dest, ptr, index } => InstructionModel::GetElementPtr {
                dest: *dest,
                ptr: *ptr,
                index: *index,
            },
            Instruction::Call { dest, function, args } => InstructionModel::Call {
                dest: *dest,
                function: *function,
                args: args@,
            },
            Instruction::Br { target } => InstructionModel::Br { target: *target },
            Instruction::CondBr { condition, then_block, else_block } => InstructionModel::CondBr {
                condition: *condition,
                then_block: *then_block,
                else_block: *else_block,
            },
            Instruction::Ret { value } => InstructionModel::Ret { value: *value },
            Instruction::RetVoid => InstructionModel::RetVoid,
            Instruction::Phi { dest, ty, incoming } => InstructionModel::Phi {
                dest: *dest,
                ty: *ty,
                incoming: incoming@,
            },
        }
    }
}

/// One basic block: its instructions, in emission order.
#[derive(Debug, Clone)]
pub struct BlockData {
    pub instructions: Vec<Instruction>,
}

impl View for BlockData {
    type V = Seq<InstructionModel>;

    open spec fn view(&self) -> Seq<InstructionModel> {
        self.instructions@.map_values(|i: Instruction| i@)
    }
}

/// One function: its symbol and signature, and its basic blocks. A
/// function with no blocks is a declaration of an external routine.
#[derive(Debug, Clone)]
pub struct FunctionData {
    pub symbol: Symbol,
    pub params: Vec<Type>,
    pub return_type: Type,
    pub blocks: Vec<BlockData>,
}

/// The mathematical form of one function.
#[verifier::ext_equal]
pub ghost struct FunctionModel {
    pub symbol: Symbol,
    pub params: Seq<Type>,
    pub return_type: Type,
    pub blocks: Seq<Seq<InstructionModel>>,
}

impl View for FunctionData {
    type V = FunctionModel;

    open spec fn view(&self) -> FunctionModel {
        FunctionModel {
            symbol: self.symbol,
            params: self.params@,
            return_type: self.return_type,
            blocks: self.blocks@.map_values(|b: BlockData| b@),
        }
    }
}

/// One compilation unit, together with the counter that keeps register
/// ids unique module-wide.
#[derive(Debug)]
pub struct Module {
    pub functions: Vec<FunctionData>,
    pub next_value: usize,
    pub void_type: Type,
    pub i1_type: Type,
    pub i8_type: Type,
    pub i32_type: Type,
    pub i64_type: Type,
}

/// The mathematical form of a module.
#[verifier::ext_equal]
pub ghost struct ModuleModel {
    pub functions: Seq<FunctionModel>,
    pub next_value: nat,
}

impl View for Module {
    type V = ModuleModel;

    open spec fn view(&self) -> ModuleModel {
        ModuleModel {
            functions: self.functions@.map_values(|f: FunctionData| f@),
            next_value: self.next_value as nat,
        }
    }
}

impl ModuleModel {
    /// `bb` names an existing block of an existing function.
    pub open spec fn block_valid(self, bb: BasicBlock) -> bool {
        &&& bb.function < self.functions.len()
        &&& bb.block < self.functions[bb.function as int].blocks.len()
    }

    /// The register id the next value-producing instruction will get.
    pub open spec fn dest(self) -> usize {
        self.next_value as usize
    }

    /// The module with `ins` appended to block `bb`.
    pub open spec fn emit(self, bb: BasicBlock, ins: InstructionModel) -> ModuleModel {
        let f = self.functions[bb.function as int];
        ModuleModel {
            functions: self.functions.update(
                bb.function as int,
                FunctionModel {
                    blocks: f.blocks.update(
                        bb.block as int,
                        f.blocks[bb.block as int].push(ins),
                    ),
                    ..f
                },
            ),
            ..self
        }
    }

    /// The module with one more register id consumed.
    pub open spec fn bump(self) -> ModuleModel {
        ModuleModel { next_value: self.next_value + 1, ..self }
    }

    /// The module with an empty block appended to function `f`.
    pub open spec fn add_block(self, f: int) -> ModuleModel {
        let fd = self.functions[f];
        ModuleModel {
            functions: self.functions.update(
                f,
                FunctionModel { blocks: fd.blocks.push(Seq::empty()), ..fd },
            ),
            ..self
        }
    }

    /// The module with one more function appended.
    pub open spec fn add_function(
        self,
        symbol: Symbol,
        params: Seq<Type>,
        return_type: Type,
    ) -> ModuleModel {
        ModuleModel {
            functions: self.functions.push(
                FunctionModel { symbol, params, return_type, blocks: Seq::empty() },
            ),
            ..self
        }
    }

    /// The module with `(value, pred)` appended to the incoming list of
    /// the `Phi` instruction at position `idx` of block `bb`.
    pub open spec fn add_phi_incoming(
        self,
        bb: BasicBlock,
        idx: int,
        value: Value,
        pred: usize,
    ) -> ModuleModel {
        let f = self.functions[bb.function as int];
        let block = f.blocks[bb.block as int];
        let updated = match block[idx] {
            InstructionModel::Phi { dest, ty, incoming } => InstructionModel::Phi {
                dest,
                ty,
                incoming: incoming.push((value, pred)),
            },
            _ => block[idx],
        };
        ModuleModel {
            functions: self.functions.update(
                bb.function as int,
                FunctionModel {
                    blocks: f.blocks.update(bb.block as int, block.update(idx, updated)),
                    ..f
                },
            ),
            ..self
        }
    }
}

impl Module {
    /// A fresh, empty module.
    pub fn new() -> (m: Module)
        ensures
            m@ == (ModuleModel { functions: Seq::empty(), next_value: 0nat }),
            m.void_type == (Type { scalar: ScalarType::Void, pointer_depth: 0usize }),
            m.i1_type == (Type { scalar: ScalarType::I1, pointer_depth: 0usize }),
            m.i8_type == (Type { scalar: ScalarType::I8, pointer_depth: 0usize }),
            m.i32_type == (Type { scalar: ScalarType::I32, pointer_depth: 0usize }),
            m.i64_type == (Type { scalar: ScalarType::I64, pointer_depth: 0usize }),
    {
        let m = Module {
            functions: Vec::new(),
            next_value: 0,
            void_type: Type::new(ScalarType::Void),
            i1_type: Type::new(ScalarType::I1),
            i8_type: Type::new(ScalarType::I8),
            i32_type: Type::new(ScalarType::I32),
            i64_type: Type::new(ScalarType::I64),
        };
        proof {
            assert(m.functions@.map_values(|f: FunctionData| f@) =~= Seq::<FunctionModel>::empty());
        }
        m
    }

    /// Append a function with the given signature and no blocks. A
    /// function left without blocks is an external declaration.
    pub fn add_function(&mut self, symbol: Symbol, params: Vec<Type>, return_type: Type) -> (f:
        Function)
        requires
            old(self)@.functions.len() < usize::MAX,
        ensures
            final(self)@ == old(self)@.add_function(symbol, params@, return_type),
            final(self).next_value == old(self).next_value,
            f == (Function { index: old(self)@.functions.len() as usize }),
    {
        let index = self.functions.len();
        let ghost p = params@;
        self.functions.push(FunctionData { symbol, params, return_type, blocks: Vec::new() });
        proof {
            let vf = |fd: FunctionData| fd@;
            assert(self.functions@.last()@.blocks =~= Seq::<Seq<InstructionModel>>::empty());
            assert(self.functions@.map_values(vf) =~= old(self).functions@.map_values(vf).push(
                self.functions@.last()@,
            ));
            assert(self@ =~~= old(self)@.add_function(symbol, p, return_type));
        }
        Function { index }
    }

    /// Append an empty basic block to `function`.
    pub fn append_basic_block(&mut self, function: Function) -> (bb: BasicBlock)
        requires
            function.index < old(self)@.functions.len(),
            old(self)@.functions[function.index as int].blocks.len() < usize::MAX,
        ensures
            final(self)@ == old(self)@.add_block(function.index as int),
            final(self).next_value == old(self).next_value,
            bb == (BasicBlock {
                function: function.index,
                block: old(self)@.functions[function.index as int].blocks.len() as usize,
            }),
    {
        let fd = &mut self.functions[function.index];
        let block = fd.blocks.len();
        fd.blocks.push(BlockData { instructions: Vec::new() });
        proof {
            let vf = |fd: FunctionData| fd@;
            let vb = |bd: BlockData| bd@;
            let i = function.index as int;
            assert(self.functions@[i].blocks@.last()@ =~= Seq::<InstructionModel>::empty());
            assert(self.functions@[i].blocks@.map_values(vb) =~= old(
                self,
            ).functions@[i].blocks@.map_values(vb).push(Seq::empty()));
            assert(self.functions@.map_values(vf) =~= old(self).functions@.map_values(vf).update(
                i,
                self.functions@[i]@,
            ));
            assert(self@ =~~= old(self)@.add_block(i));
        }
        BasicBlock { function: function.index, block }
    }

    /// Append `ins` to block `bb`.
    fn push_instruction(&mut self, bb: BasicBlock, ins: Instruction)
        requires
            old(self)@.block_valid(bb),
        ensures
            final(self)@ == old(self)@.emit(bb, ins@),
            final(self).next_value == old(self).next_value,
    {
        let ghost insm = ins@;
        let fd = &mut self.functions[bb.function];
        let bd = &mut fd.blocks[bb.block];
        bd.instructions.push(ins);
        proof {
            let vf = |fd: FunctionData| fd@;
            let vb = |bd: BlockData| bd@;
            let vi = |i: Instruction| i@;
            let f = bb.function as int;
            let b = bb.block as int;
            assert(self.functions@[f].blocks@[b].instructions@.map_values(vi) =~= old(
                self,
            ).functions@[f].blocks@[b].instructions@.map_values(vi).push(insm));
            assert(self.functions@[f].blocks@.map_values(vb) =~= old(
                self,
            ).functions@[f].blocks@.map_values(vb).update(
                b,
                old(self).functions@[f].blocks@[b]@.push(insm),
            ));
            assert(self.functions@.map_values(vf) =~= old(self).functions@.map_values(vf).update(
                f,
                self.functions@[f]@,
            ));
            assert(self@ =~~= old(self)@.emit(bb, insm));
        }
    }
}

/// An instruction builder positioned at the end of one basic block.
#[derive(Debug, Copy, Clone)]
pub struct Builder {
    pub block: BasicBlock,
}

impl Builder {
    /// A builder positioned at the end of `bb`.
    pub fn new(bb: BasicBlock) -> (b: Builder)
        ensures
            b.block == bb,
    {
        Builder { block: bb }
    }

    /// An unsigned integer constant of type `ty`.
    pub fn uint(&self, ty: Type, value: u64) -> (v: Value)
        ensures
            v == (Value::UInt { ty, bits: value }),
    {
        Value::UInt { ty, bits: value }
    }

    /// A signed integer constant of type `ty`.
    pub fn sint(&self, ty: Type, value: i64) -> (v: Value)
        ensures
            v == (Value::SInt { ty, bits: value }),
    {
        Value::SInt { ty, bits: value }
    }

    /// Reserve a stack slot of type `ty`; the result is its address.
    pub fn alloca(&self, module: &mut Module, ty: Type) -> (v: Value)
        requires
            old(module)@.block_valid(self.block),
            old(module).next_value < usize::MAX,
        ensures
            final(module)@ == old(module)@.emit(
                self.block,
                InstructionModel::Alloca { dest: old(module)@.dest(), ty },
            ).bump(),
            v == (Value::Reg { id: old(module)@.dest() }),
    {
        let id = module.next_value;
        module.push_instruction(self.block, Instruction::Alloca { dest: id, ty });
        module.next_value = module.next_value + 1;
        Value::Reg { id }
    }

    /// Load the value `ptr` points at.
    pub fn load(&self, module: &mut Module, ptr: Value) -> (v: Value)
        requires
            old(module)@.block_valid(self.block),
            old(module).next_value < usize::MAX,
        ensures
            final(module)@ == old(module)@.emit(
                self.block,
                InstructionModel::Load { dest: old(module)@.dest(), ptr },
            ).bump(),
            v == (Value::Reg { id: old(module)@.dest() }),
    {
        let id = module.next_value;
        module.push_instruction(self.block, Instruction::Load { dest: id, ptr });
        module.next_value = module.next_value + 1;
        Value::Reg { id }
    }

    /// Store `value` at the address `ptr`.
    pub fn store(&self, module: &mut Module, value: Value, ptr: Value)
        requires
            old(module)@.block_valid(self.block),
        ensures
            final(module)@ == old(module)@.emit(
                self.block,
                InstructionModel::Store { value, ptr },
            ),
            final(module).next_value == old(module).next_value,
    {
        module.push_instruction(self.block, Instruction::Store { value, ptr });
    }

    /// Integer addition.
    pub fn add(&self, module: &mut Module, lhs: Value, rhs: Value) -> (v: Value)
        requires
            old(module)@.block_valid(self.block),
            old(module).next_value < usize::MAX,
        ensures
            final(module)@ == old(module)@.emit(
                self.block,
                InstructionModel::Add { dest: old(module)@.dest(), lhs, rhs },
            ).bump(),
            v == (Value::Reg { id: old(module)@.dest() }),
    {
        let id = module.next_value;
        module.push_instruction(self.block, Instruction::Add { dest: id, lhs, rhs });
        module.next_value = module.next_value + 1;
        Value::Reg { id }
    }

    /// Unsigned integer division.
    pub fn udiv(&self, module: &mut Module, lhs: Value, rhs: Value) -> (v: Value)
        requires
            old(module)@.block_valid(self.block),
            old(module).next_value < usize::MAX,
        ensures
            final(module)@ == old(module)@.emit(
                self.block,
                InstructionModel::UDiv { dest: old(module)@.dest(), lhs, rhs },
            ).bump(),
            v == (Value::Reg { id: old(module)@.dest() }),
    {
        let id = module.next_value;
        module.push_instruction(self.block, Instruction::UDiv { dest: id, lhs, rhs });
        module.next_value = module.next_value + 1;
        Value::Reg { id }
    }

    /// Unsigned integer remainder.
    pub fn urem(&self, module: &mut Module, lhs: Value, rhs: Value) -> (v: Value)
        requires
            old(module)@.block_valid(self.block),
            old(module).next_value < usize::MAX,
        ensures
            final(module)@ == old(module)@.emit(
                self.block,
                InstructionModel::URem { dest: old(module)@.dest(), lhs, rhs },
            ).bump(),
            v == (Value::Reg { id: old(module)@.dest() }),
    {
        let id = module.next_value;
        module.push_instruction(self.block, Instruction::URem { dest: id, lhs, rhs });
        module.next_value = module.next_value + 1;
        Value::Reg { id }
    }

    /// Truncate `value` to the narrower integer type `ty`.
    pub fn trunc(&self, module: &mut Module, value: Value, ty: Type) -> (v: Value)
        requires
            old(module)@.block_valid(self.block),
            old(module).next_value < usize::MAX,
        ensures
            final(module)@ == old(module)@.emit(
                self.block,
                InstructionModel::Trunc { dest: old(module)@.dest(), value, ty },
            ).bump(),
            v == (Value::Reg { id: old(module)@.dest() }),
    {
        let id = module.next_value;
        module.push_instruction(self.block, Instruction::Trunc { dest: id, value, ty });
        module.next_value = module.next_value + 1;
        Value::Reg { id }
    }

    /// Sign-extend `value` to the wider integer type `ty` (or pass it
    /// through unchanged when the types already agree).
    pub fn sext_or_bitcast(&self, module: &mut Module, value: Value, ty: Type) -> (v: Value)
        requires
            old(module)@.block_valid(self.block),
            old(module).next_value < usize::MAX,
        ensures
            final(module)@ == old(module)@.emit(
                self.block,
                InstructionModel::SExtOrBitCast { dest: old(module)@.dest(), value, ty },
            ).bump(),
            v == (Value::Reg { id: old(module)@.dest() }),
    {
        let id = module.next_value;
        module.push_instruction(self.block, Instruction::SExtOrBitCast { dest: id, value, ty });
        module.next_value = module.next_value + 1;
        Value::Reg { id }
    }

    /// Integer comparison; the result is of type `i1`.
    pub fn icmp(&self, module: &mut Module, predicate: IntPredicate, lhs: Value, rhs: Value) -> (v:
        Value)
        requires
            old(module)@.block_valid(self.block),
            old(module).next_value < usize::MAX,
        ensures
            final(module)@ == old(module)@.emit(
                self.block,
                InstructionModel::ICmp { dest: old(module)@.dest(), predicate, lhs, rhs },
            ).bump(),
            v == (Value::Reg { id: old(module)@.dest() }),
    {
        let id = module.next_value;
        module.push_instruction(self.block, Instruction::ICmp { dest: id, predicate, lhs, rhs });
        module.next_value = module.next_value + 1;
        Value::Reg { id }
    }

    /// The address of element `index` of the array `ptr` points at.
    pub fn getelementptr(&self, module: &mut Module, ptr: Value, index: Value) -> (v: Value)
        requires
            old(module)@.block_valid(self.block),
            old(module).next_value < usize::MAX,
        ensures
            final(module)@ == old(module)@.emit(
                self.block,
                InstructionModel::GetElementPtr { dest: old(module)@.dest(), ptr, index },
            ).bump(),
            v == (Value::Reg { id: old(module)@.dest() }),
    {
        let id = module.next_value;
        module.push_instruction(self.block, Instruction::GetElementPtr { dest: id, ptr, index });
        module.next_value = module.next_value + 1;
        Value::Reg { id }
    }

    /// Call `function` and name its result.
    pub fn call(&self, module: &mut Module, function: Function, args: Vec<Value>) -> (v: Value)
        requires
            old(module)@.block_valid(self.block),
            old(module).next_value < usize::MAX,
        ensures
            final(module)@ == old(module)@.emit(
                self.block,
                InstructionModel::Call {
                    dest: Some(old(module)@.dest()),
                    function: function.index,
                    args: args@,
                },
            ).bump(),
            v == (Value::Reg { id: old(module)@.dest() }),
    {
        let id = module.next_value;
        module.push_instruction(
            self.block,
            Instruction::Call { dest: Some(id), function: function.index, args },
        );
        module.next_value = module.next_value + 1;
        Value::Reg { id }
    }

    /// Call `function` and discard its result.
    pub fn call_void(&self, module: &mut Module, function: Function, args: Vec<Value>)
        requires
            old(module)@.block_valid(self.block),
        ensures
            final(module)@ == old(module)@.emit(
                self.block,
                InstructionModel::Call { dest: None, function: function.index, args: args@ },
            ),
            final(module).next_value == old(module).next_value,
    {
        module.push_instruction(
            self.block,
            Instruction::Call { dest: None, function: function.index, args },
        );
    }

    /// Unconditional branch to `dest`, a block of the same function.
    pub fn br(&self, module: &mut Module, dest: BasicBlock)
        requires
            old(module)@.block_valid(self.block),
            dest.function == self.block.function,
        ensures
            final(module)@ == old(module)@.emit(
                self.block,
                InstructionModel::Br { target: dest.block },
            ),
            final(module).next_value == old(module).next_value,
    {
        module.push_instruction(self.block, Instruction::Br { target: dest.block });
    }

    /// Conditional branch: to `then_block` if `condition` is nonzero,
    /// else to `else_block`; both blocks of the same function.
    pub fn cond_br(
        &self,
        module: &mut Module,
        condition: Value,
        then_block: BasicBlock,
        else_block: BasicBlock,
    )
        requires
            old(module)@.block_valid(self.block),
            then_block.function == self.block.function,
            else_block.function == self.block.function,
        ensures
            final(module)@ == old(module)@.emit(
                self.block,
                InstructionModel::CondBr {
                    condition,
                    then_block: then_block.block,
                    else_block: else_block.block,
                },
            ),
            final(module).next_value == old(module).next_value,
    {
        module.push_instruction(
            self.block,
            Instruction::CondBr {
                condition,
                then_block: then_block.block,
                else_block: else_block.block,
            },
        );
    }

    /// Return `value` from the containing function.
    pub fn ret(&self, module: &mut Module, value: Value)
        requires
            old(module)@.block_valid(self.block),
        ensures
            final(module)@ == old(module)@.emit(self.block, InstructionModel::Ret { value }),
            final(module).next_value == old(module).next_value,
    {
        module.push_instruction(self.block, Instruction::Ret { value });
    }

    /// Return from a void function.
    pub fn ret_void(&self, module: &mut Module)
        requires
            old(module)@.block_valid(self.block),
        ensures
            final(module)@ == old(module)@.emit(self.block, InstructionModel::RetVoid),
            final(module).next_value == old(module).next_value,
    {
        module.push_instruction(self.block, Instruction::RetVoid);
    }

    /// An SSA join node of type `ty`, with no incoming edges yet; see
    /// [`PhiNode::add_incoming`].
    pub fn phi(&self, module: &mut Module, ty: Type) -> (p: PhiNode)
        requires
            old(module)@.block_valid(self.block),
            old(module).next_value < usize::MAX,
        ensures
            final(module)@ == old(module)@.emit(
                self.block,
                InstructionModel::Phi { dest: old(module)@.dest(), ty, incoming: Seq::empty() },
            ).bump(),
            p == (PhiNode {
                value: Value::Reg { id: old(module)@.dest() },
                block: self.block,
                position: old(module)@.functions[self.block.function as int].blocks[
                    self.block.block as int
                ].len() as usize,
            }),
    {
        let id = module.next_value;
        let pos = module.functions[self.block.function].blocks[self.block.block].instructions.len();
        let incoming: Vec<(Value, usize)> = Vec::new();
        proof {
            assert(incoming@ =~= Seq::<(Value, usize)>::empty());
        }
        module.push_instruction(self.block, Instruction::Phi { dest: id, ty, incoming });
        module.next_value = module.next_value + 1;
        proof {
            let vi = |i: Instruction| i@;
            assert(old(module).functions@[self.block.function as int].blocks@[
                self.block.block as int
            ].instructions@.map_values(vi).len() == pos);
        }
        PhiNode { value: Value::Reg { id }, block: self.block, position: pos }
    }
}

/// A handle to an emitted `Phi` instruction, so that incoming edges can
/// be added after the predecessor blocks exist.
#[derive(Debug, Copy, Clone)]
pub struct PhiNode {
    pub value: Value,
    pub block: BasicBlock,
    pub position: usize,
}

impl PhiNode {
    /// Record that control arriving from `block` gives the join node
    /// the value `value`.
    pub fn add_incoming(&self, module: &mut Module, value: Value, block: BasicBlock)
        requires
            old(module)@.block_valid(self.block),
            block.function == self.block.function,
            self.position < old(module)@.functions[self.block.function as int].blocks[
                self.block.block as int
            ].len(),
            old(module)@.functions[self.block.function as int].blocks[self.block.block as int][
                self.position as int
            ] matches InstructionModel::Phi { .. },
        ensures
            final(module)@ == old(module)@.add_phi_incoming(
                self.block,
                self.position as int,
                value,
                block.block,
            ),
            final(module).next_value == old(module).next_value,
    {
        let fd = &mut module.functions[self.block.function];
        let bd = &mut fd.blocks[self.block.block];
        match &mut bd.instructions[self.position] {
            Instruction::Phi { incoming, .. } => {
                incoming.push((value, block.block));
            },
            _ => {},
        }
        proof {
            let vf = |fd: FunctionData| fd@;
            let vb = |bd: BlockData| bd@;
            let vi = |i: Instruction| i@;
            let f = self.block.function as int;
            let b = self.block.block as int;
            let p = self.position as int;
            let target = old(module)@.add_phi_incoming(self.block, p, value, block.block);
            assert(module.functions@[f].blocks@[b].instructions@.map_values(vi) =~= target.functions[
                f
            ].blocks[b]);
            assert(module.functions@[f].blocks@.map_values(vb) =~= target.functions[f].blocks);
            assert(module.functions@.map_values(vf) =~= target.functions);
            assert(module@ =~~= target);
        }
    }
}

/// A mutable variable: a stack slot holding one value, as the design's
/// concrete replacement for a generic load-or-store abstraction.
#[derive(Debug, Copy, Clone)]
pub struct Var {
    pub value_ptr: Value,
}

impl Var {
    /// Reserve a slot of type `ty` and store `value` in it.
    pub fn allocate(builder: &Builder, module: &mut Module, ty: Type, value: Value) -> (v: Var)
        requires
            old(module)@.block_valid(builder.block),
            old(module).next_value < usize::MAX,
        ensures
            final(module)@ == old(module)@.emit(
                builder.block,
                InstructionModel::Alloca { dest: old(module)@.dest(), ty },
            ).bump().emit(
                builder.block,
                InstructionModel::Store { value, ptr: Value::Reg { id: old(module)@.dest() } },
            ),
            v == (Var { value_ptr: Value::Reg { id: old(module)@.dest() } }),
    {
        let value_ptr = builder.alloca(module, ty);
        let result = Var { value_ptr };
        result.store(builder, module, value);
        result
    }

    /// Load the variable's current value.
    pub fn load(&self, builder: &Builder, module: &mut Module) -> (v: Value)
        requires
            old(module)@.block_valid(builder.block),
            old(module).next_value < usize::MAX,
        ensures
            final(module)@ == old(module)@.emit(
                builder.block,
                InstructionModel::Load { dest: old(module)@.dest(), ptr: self.value_ptr },
            ).bump(),
            v == (Value::Reg { id: old(module)@.dest() }),
    {
        builder.load(module, self.value_ptr)
    }

    /// Overwrite the variable with `value`.
    pub fn store(&self, builder: &Builder, module: &mut Module, value: Value)
        requires
            old(module)@.block_valid(builder.block),
        ensures
            final(module)@ == old(module)@.emit(
                builder.block,
                InstructionModel::Store { value, ptr: self.value_ptr },
            ),
            final(module).next_value == old(module).next_value,
    {
        builder.store(module, value, self.value_ptr);
    }
}

impl Function {
    /// Append an empty basic block to this function.
    pub fn append_basic_block(&self, module: &mut Module) -> (bb: BasicBlock)
        requires
            self.index < old(module)@.functions.len(),
            old(module)@.functions[self.index as int].blocks.len() < usize::MAX,
        ensures
            final(module)@ == old(module)@.add_block(self.index as int),
            final(module).next_value == old(module).next_value,
            bb == (BasicBlock {
                function: self.index,
                block: old(module)@.functions[self.index as int].blocks.len() as usize,
            }),
    {
        module.append_basic_block(*self)
    }

    /// The value of the function's parameter `index`.
    pub fn get_param(&self, index: usize) -> (v: Value)
        ensures
            v == (Value::Param { index }),
    {
        Value::Param { index }
    }
}

} // verus!
