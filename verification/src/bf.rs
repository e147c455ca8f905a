//! The instruction model of the source language, the lexer, and the
//! online peephole optimizer.
//!
//! The optimizer is a total function over instruction streams: `push`
//! rewrites the tail of the emitted sequence to a fixpoint on every
//! insertion, so the final sequence is canonical: no adjacent entries
//! match any rewrite-rule left-hand side (see [`canonical`]).

use vstd::prelude::*;
use vstd::wrapping::i8_specs;
use vstd::wrapping::i64_specs;

verus! {

/// One instruction of the source language.
///
/// `SetValue`/`AddValue` payloads use 8-bit wrapping arithmetic.
/// `AddPointer` payloads are 64-bit; bounds enforcement for pointer
/// moves is a code-generation-time policy, not an instruction-level
/// property.
#[derive(Debug, Copy, Clone, PartialEq, Eq, Structural)]
pub enum BfInstruction {
    SetValue(i8),
    AddValue(i8),
    AddPointer(i64),
    Input,
    Output,
    BeginLoop,
    EndLoop,
    DebugLog,
}

/// The response of the generated program to an out-of-range pointer move.
#[derive(Debug, Copy, Clone, PartialEq, Eq, Structural)]
pub enum MemoryOverflowBehaviour {
    /// No bounds check is emitted; an out-of-range access is undefined
    /// behaviour of the generated program.
    Undefined,
    /// The index is reduced modulo the capacity (unsigned) after every
    /// pointer move.
    Wrap,
    /// The index is bounds-checked after every pointer move; an
    /// out-of-range index diverts control to a shared abort path.
    Abort,
}

/// The error of parsing a configuration option's value: the string
/// names no known alternative.
#[derive(Debug, Copy, Clone, PartialEq, Eq, Structural)]
pub struct ParseEnumError {}

/// The overflow policy a configuration option's value names, if any.
pub open spec fn spec_parse_overflow_name(s: Seq<char>) -> Result<
    MemoryOverflowBehaviour,
    ParseEnumError,
> {
    if s == "undefined"@ {
        Ok(MemoryOverflowBehaviour::Undefined)
    } else if s == "wrap"@ {
        Ok(MemoryOverflowBehaviour::Wrap)
    } else if s == "abort"@ {
        Ok(MemoryOverflowBehaviour::Abort)
    } else {
        Err(ParseEnumError {})
    }
}

impl MemoryOverflowBehaviour {
    /// Parse a configuration option's value: exactly `undefined`,
    /// `wrap` and `abort` name a policy.
    pub fn from_option_name(s: &str) -> (r: Result<MemoryOverflowBehaviour, ParseEnumError>)
        ensures
            r == spec_parse_overflow_name(s@),
    {
        let owned = s.to_owned();
        if owned == "undefined".to_owned() {
            Ok(MemoryOverflowBehaviour::Undefined)
        } else if owned == "wrap".to_owned() {
            Ok(MemoryOverflowBehaviour::Wrap)
        } else if owned == "abort".to_owned() {
            Ok(MemoryOverflowBehaviour::Abort)
        } else {
            Err(ParseEnumError {})
        }
    }
}

impl core::str::FromStr for MemoryOverflowBehaviour {
    type Err = ParseEnumError;

    fn from_str(s: &str) -> Result<MemoryOverflowBehaviour, ParseEnumError> {
        MemoryOverflowBehaviour::from_option_name(s)
    }
}

/// A machine configuration: the canonical instruction sequence together
/// with the memory capacity and the overflow policy of the generated
/// program.
pub struct BfMachine {
    pub cache_size: i64,
    pub instructions: InstructionList,
    pub memory_overflow: MemoryOverflowBehaviour,
}

/// The optimizer: an output sequence kept canonical under `push`, and a
/// suppression counter. A nonzero counter means a provably dead loop
/// body is being discarded; it counts the nesting depth of loops opened
/// inside the dead body.
pub struct InstructionList {
    pub list: Vec<BfInstruction>,
    /// The suppression counter: nonzero while a dead loop body is being
    /// discarded.
    pub loop_comment_depth: usize,
}

/// Termination measure for the rewrite recursion: every rewrite either
/// shrinks the emitted list or replaces an incoming `AddValue` by a
/// `SetValue`, so `(list.len(), push_rank(insn))` decreases
/// lexicographically.
pub open spec fn push_rank(insn: BfInstruction) -> nat {
    match insn {
        BfInstruction::AddValue(_) => 1nat,
        _ => 0nat,
    }
}

/// What one `push` does, as a function of the optimizer state
/// `(list, depth)` and the incoming instruction. This is the rewrite
/// rule set, applied recursively to a fixpoint.
pub open spec fn spec_push(
    list: Seq<BfInstruction>,
    depth: nat,
    insn: BfInstruction,
) -> (Seq<BfInstruction>, nat)
    decreases list.len(), push_rank(insn),
{
    if depth != 0 {
        // Discarding a dead loop body: only track the nesting depth.
        match insn {
            BfInstruction::BeginLoop => (list, (depth + 1) as nat),
            BfInstruction::EndLoop => (list, (depth - 1) as nat),
            _ => (list, depth),
        }
    } else if insn == BfInstruction::AddValue(0i8) {
        // value += 0  =>  (nothing)
        (list, depth)
    } else if list.len() == 0 {
        (list.push(insn), depth)
    } else {
        let rest = list.drop_last();
        match (list.last(), insn) {
            // value += a; value += b  =>  value += a + b
            (BfInstruction::AddValue(a), BfInstruction::AddValue(b)) => spec_push(
                rest,
                depth,
                BfInstruction::AddValue(i8_specs::wrapping_add(a, b)),
            ),
            // value = a; value += b  =>  value = a + b
            (BfInstruction::SetValue(a), BfInstruction::AddValue(b)) => spec_push(
                rest,
                depth,
                BfInstruction::SetValue(i8_specs::wrapping_add(a, b)),
            ),
            // value = a; value = b  =>  value = b
            (BfInstruction::SetValue(_), BfInstruction::SetValue(_)) => spec_push(
                rest,
                depth,
                insn,
            ),
            // value += a; value = b  =>  value = b
            (BfInstruction::AddValue(_), BfInstruction::SetValue(_)) => spec_push(
                rest,
                depth,
                insn,
            ),
            // ptr += a; ptr += b  =>  ptr += a + b
            (BfInstruction::AddPointer(a), BfInstruction::AddPointer(b)) => spec_push(
                rest,
                depth,
                BfInstruction::AddPointer(i64_specs::wrapping_add(a, b)),
            ),
            // while (value) { value += odd }  =>  value = 0
            // (The rule tests parity, not magnitude: it fires for any odd
            // per-iteration delta, matching the documented rule set.)
            (BfInstruction::AddValue(v), BfInstruction::EndLoop) => if v as int % 2 != 0
                && list.len() >= 2 && list[list.len() - 2] == BfInstruction::BeginLoop {
                spec_push(rest.drop_last(), depth, BfInstruction::SetValue(0i8))
            } else {
                (list.push(insn), depth)
            },
            // after a loop the cell is zero: an add is a set
            (BfInstruction::EndLoop, BfInstruction::AddValue(v)) => spec_push(
                list,
                depth,
                BfInstruction::SetValue(v),
            ),
            // after a loop the cell is zero: setting it to zero is a no-op
            (BfInstruction::EndLoop, BfInstruction::SetValue(c)) => if c == 0i8 {
                (list, depth)
            } else {
                (list.push(insn), depth)
            },
            // the guard cell is statically zero: the loop body is dead
            (BfInstruction::SetValue(s), BfInstruction::BeginLoop) => if s == 0i8 {
                (list, 1nat)
            } else {
                (list.push(insn), depth)
            },
            (BfInstruction::EndLoop, BfInstruction::BeginLoop) => (list, 1nat),
            _ => (list.push(insn), depth),
        }
    }
}

/// `spec_push`, folded over a whole instruction sequence.
pub open spec fn spec_push_seq(
    list: Seq<BfInstruction>,
    depth: nat,
    insns: Seq<BfInstruction>,
) -> (Seq<BfInstruction>, nat)
    decreases insns.len(),
{
    if insns.len() == 0 {
        (list, depth)
    } else {
        let stepped = spec_push(list, depth, insns[0]);
        spec_push_seq(stepped.0, stepped.1, insns.drop_first())
    }
}

/// The optimizer as a whole: the state after pushing every instruction
/// of `insns` into a fresh `InstructionList`.
pub open spec fn spec_optimize(insns: Seq<BfInstruction>) -> (Seq<BfInstruction>, nat) {
    spec_push_seq(Seq::empty(), 0nat, insns)
}

/// The instruction denoted by one source character; `None` for a
/// comment character.
pub open spec fn spec_char_to_instruction(c: char) -> Option<BfInstruction> {
    if c == '-' {
        Some(BfInstruction::AddValue(-1i8))
    } else if c == '+' {
        Some(BfInstruction::AddValue(1i8))
    } else if c == '<' {
        Some(BfInstruction::AddPointer(-1i64))
    } else if c == '>' {
        Some(BfInstruction::AddPointer(1i64))
    } else if c == ',' {
        Some(BfInstruction::Input)
    } else if c == '.' {
        Some(BfInstruction::Output)
    } else if c == '[' {
        Some(BfInstruction::BeginLoop)
    } else if c == ']' {
        Some(BfInstruction::EndLoop)
    } else {
        None
    }
}

/// The raw (unoptimized) instruction sequence denoted by a source text.
pub open spec fn spec_lex(cs: Seq<char>) -> Seq<BfInstruction>
    decreases cs.len(),
{
    if cs.len() == 0 {
        Seq::empty()
    } else {
        match spec_char_to_instruction(cs[0]) {
            Some(insn) => seq![insn] + spec_lex(cs.drop_first()),
            None => spec_lex(cs.drop_first()),
        }
    }
}

impl InstructionList {
    /// A fresh optimizer: empty output, not suppressing.
    pub fn new() -> (r: Self)
        ensures
            r.list@ == Seq::<BfInstruction>::empty(),
            r.loop_comment_depth == 0,
    {
        InstructionList { list: Vec::new(), loop_comment_depth: 0 }
    }

    /// The optimized form of a whole instruction sequence.
    pub fn from_vec(input: Vec<BfInstruction>) -> (r: Self)
        ensures
            r.list@ == spec_optimize(input@).0,
            r.loop_comment_depth == spec_optimize(input@).1,
    {
        let mut list = Self::new();
        let n = input.len();
        let mut i: usize = 0;
        proof {
            assert(input@.skip(0) =~= input@);
        }
        while i < n
            invariant
                n == input@.len(),
                i <= n,
                list.loop_comment_depth as nat <= i,
                spec_optimize(input@) == spec_push_seq(
                    list.list@,
                    list.loop_comment_depth as nat,
                    input@.skip(i as int),
                ),
            decreases n - i,
        {
            let insn = input[i];
            proof {
                assert(input@.skip(i as int)[0] == input@[i as int]);
                assert(input@.skip(i as int).drop_first() =~= input@.skip(i as int + 1));
            }
            list.push(insn);
            i += 1;
        }
        proof {
            assert(input@.skip(n as int) =~= Seq::<BfInstruction>::empty());
        }
        list
    }

    /// The optimized form of a source text: each character is lexed
    /// (comment characters are discarded) and pushed in source order.
    pub fn from_chars(input: &str) -> (r: Self)
        ensures
            r.list@ == spec_optimize(spec_lex(input@)).0,
            r.loop_comment_depth == spec_optimize(spec_lex(input@)).1,
    {
        let mut result = InstructionList::new();
        let n = input.unicode_len();
        let mut i: usize = 0;
        proof {
            assert(input@.skip(0) =~= input@);
        }
        while i < n
            invariant
                n == input@.len(),
                i <= n,
                result.loop_comment_depth as nat <= i,
                spec_optimize(spec_lex(input@)) == spec_push_seq(
                    result.list@,
                    result.loop_comment_depth as nat,
                    spec_lex(input@.skip(i as int)),
                ),
            decreases n - i,
        {
            let c = input.get_char(i);
            let insn = match c {
                '-' => Some(BfInstruction::AddValue(-1)),
                '+' => Some(BfInstruction::AddValue(1)),
                '<' => Some(BfInstruction::AddPointer(-1)),
                '>' => Some(BfInstruction::AddPointer(1)),
                ',' => Some(BfInstruction::Input),
                '.' => Some(BfInstruction::Output),
                '[' => Some(BfInstruction::BeginLoop),
                ']' => Some(BfInstruction::EndLoop),
                _ => None,
            };
            proof {
                assert(input@.skip(i as int)[0] == input@[i as int]);
                assert(input@.skip(i as int).drop_first() =~= input@.skip(i as int + 1));
                assert(insn == spec_char_to_instruction(input@[i as int]));
            }
            if let Some(insn) = insn {
                proof {
                    let rest = spec_lex(input@.skip(i as int + 1));
                    assert(spec_lex(input@.skip(i as int)) == seq![insn] + rest);
                    assert((seq![insn] + rest)[0] == insn);
                    assert((seq![insn] + rest).drop_first() =~= rest);
                }
                result.push(insn);
            }
            i += 1;
        }
        proof {
            assert(input@.skip(n as int) =~= Seq::<char>::empty());
        }
        result
    }

    /// Push one instruction, rewriting the tail of the emitted sequence
    /// to a fixpoint. The optimizer is total: no instruction sequence is
    /// rejected.
    pub fn push(&mut self, insn: BfInstruction)
        requires
            (old(self).loop_comment_depth as nat) < usize::MAX,
        ensures
            final(self).list@ == spec_push(
                old(self).list@,
                old(self).loop_comment_depth as nat,
                insn,
            ).0,
            final(self).loop_comment_depth as nat == spec_push(
                old(self).list@,
                old(self).loop_comment_depth as nat,
                insn,
            ).1,
            final(self).loop_comment_depth as nat <= old(self).loop_comment_depth as nat + 1,
        decreases old(self).list@.len(), push_rank(insn),
    {
        if self.loop_comment_depth != 0 {
            match insn {
                BfInstruction::BeginLoop => {
                    self.loop_comment_depth += 1;
                },
                BfInstruction::EndLoop => {
                    self.loop_comment_depth -= 1;
                },
                _ => {},
            }
            return;
        }

        if insn == BfInstruction::AddValue(0) {
            // value += 0: skip the instruction
            return;
        }

        let n = self.list.len();
        if n == 0 {
            self.list.push(insn);
            return;
        }

        let last = self.list[n - 1];
        match (last, insn) {
            // value += a; value += b  =>  value += a + b
            (BfInstruction::AddValue(value), BfInstruction::AddValue(other)) => {
                self.list.pop();
                self.push(BfInstruction::AddValue(value.wrapping_add(other)));
            },
            // value = a; value += b  =>  value = a + b
            (BfInstruction::SetValue(value), BfInstruction::AddValue(other)) => {
                self.list.pop();
                self.push(BfInstruction::SetValue(value.wrapping_add(other)));
            },
            // value = a; value = b  =>  value = b
            // value += a; value = b  =>  value = b
            (BfInstruction::SetValue(_), BfInstruction::SetValue(_))
            | (BfInstruction::AddValue(_), BfInstruction::SetValue(_)) => {
                self.list.pop();
                self.push(insn);
            },
            // ptr += a; ptr += b  =>  ptr += a + b
            (BfInstruction::AddPointer(value), BfInstruction::AddPointer(other)) => {
                self.list.pop();
                self.push(BfInstruction::AddPointer(value.wrapping_add(other)));
            },
            // while (value) { value += odd }  =>  value = 0
            (BfInstruction::AddValue(value), BfInstruction::EndLoop) if value % 2 != 0 && n >= 2
                && self.list[n - 2] == BfInstruction::BeginLoop => {
                self.list.pop();
                self.list.pop();
                self.push(BfInstruction::SetValue(0));
            },
            // while (value) { ... }; value += a  =>  while (value) { ... }; value = a
            (BfInstruction::EndLoop, BfInstruction::AddValue(value)) => {
                self.push(BfInstruction::SetValue(value));
            },
            // while (value) { ... }; value = 0  =>  while (value) { ... }
            (BfInstruction::EndLoop, BfInstruction::SetValue(0)) => {
                // drop the instruction
            },
            // value = 0; while (value) { ... }  =>  value = 0
            // the loop guard is statically zero: discard the whole loop
            (BfInstruction::SetValue(0), BfInstruction::BeginLoop)
            | (BfInstruction::EndLoop, BfInstruction::BeginLoop) => {
                self.loop_comment_depth += 1;
            },
            _ => {
                self.list.push(insn);
            },
        }
    }

    /// Interleave one `DebugLog` between every adjacent pair of
    /// instructions, including before the first and after the last.
    pub fn insert_debug_logs(&mut self)
        requires
            old(self).list@.len() * 2 + 1 <= usize::MAX,
        ensures
            final(self).list@ == spec_with_debug_logs(old(self).list@),
            final(self).loop_comment_depth as nat == old(self).loop_comment_depth as nat,
    {
        let ghost orig = self.list@;
        let n = self.list.len();
        let mut i: usize = 0;
        while i < n + 1
            invariant
                n == orig.len(),
                n * 2 + 1 <= usize::MAX,
                i <= n + 1,
                self.loop_comment_depth == old(self).loop_comment_depth,
                self.list@ =~= spec_with_debug_logs(orig).take(
                    if i <= n {
                        2 * i as int
                    } else {
                        2 * n as int + 1
                    },
                ) + orig.skip(
                    if i <= n {
                        i as int
                    } else {
                        n as int
                    },
                ),
            decreases n + 1 - i,
        {
            proof {
                assert(self.list@.len() == n + i);
            }
            self.list.insert(i * 2, BfInstruction::DebugLog);
            proof {
                let full = spec_with_debug_logs(orig);
                if i < n {
                    assert(orig.skip(i as int) =~= seq![orig[i as int]] + orig.skip(i as int + 1));
                    assert(full.take(2 * (i as int + 1)) =~= full.take(2 * i as int) + seq![
                        BfInstruction::DebugLog,
                        orig[i as int],
                    ]);
                    assert(self.list@ =~= full.take(2 * (i as int + 1)) + orig.skip(i as int + 1));
                } else {
                    assert(orig.skip(n as int) =~= Seq::<BfInstruction>::empty());
                    assert(full.take(2 * n as int + 1) =~= full.take(2 * n as int) + seq![
                        BfInstruction::DebugLog,
                    ]);
                    assert(self.list@ =~= full.take(2 * n as int + 1) + orig.skip(n as int));
                }
            }
            i += 1;
        }
        proof {
            let full = spec_with_debug_logs(orig);
            assert(orig.skip(n as int) =~= Seq::<BfInstruction>::empty());
            assert(full.take(2 * n as int + 1) =~= full);
            assert(self.list@ =~= full);
        }
    }
}

/// An `AddValue` whose payload is odd. The dead-loop rule tests parity,
/// not magnitude: it fires for any odd per-iteration delta.
pub open spec fn is_odd_add(x: BfInstruction) -> bool {
    x matches BfInstruction::AddValue(v) && v as int % 2 != 0
}

/// No rewrite-rule left-hand side matches the adjacent pair `(a, b)`.
pub open spec fn pair_free(a: BfInstruction, b: BfInstruction) -> bool {
    match (a, b) {
        (BfInstruction::AddValue(_), BfInstruction::AddValue(_)) => false,
        (BfInstruction::SetValue(_), BfInstruction::AddValue(_)) => false,
        (BfInstruction::SetValue(_), BfInstruction::SetValue(_)) => false,
        (BfInstruction::AddValue(_), BfInstruction::SetValue(_)) => false,
        (BfInstruction::AddPointer(_), BfInstruction::AddPointer(_)) => false,
        (BfInstruction::EndLoop, BfInstruction::AddValue(_)) => false,
        (BfInstruction::EndLoop, BfInstruction::SetValue(c)) => c != 0i8,
        (BfInstruction::SetValue(s), BfInstruction::BeginLoop) => s != 0i8,
        (BfInstruction::EndLoop, BfInstruction::BeginLoop) => false,
        _ => true,
    }
}

/// A loop whose sole body instruction is an odd `AddValue` starts at
/// index `i`: the left-hand side of the dead-loop rewrite rule.
pub open spec fn dead_odd_loop_at(s: Seq<BfInstruction>, i: int) -> bool {
    &&& s[i] == BfInstruction::BeginLoop
    &&& is_odd_add(s[i + 1])
    &&& s[i + 2] == BfInstruction::EndLoop
}

/// The canonical-form predicate: no entry is `AddValue(0)`, and no
/// adjacent entries match any rewrite-rule left-hand side.
pub open spec fn canonical(s: Seq<BfInstruction>) -> bool {
    &&& forall|i: int| 0 <= i < s.len() ==> s[i] != BfInstruction::AddValue(0i8)
    &&& forall|i: int| 0 <= i < s.len() - 1 ==> #[trigger] pair_free(s[i], s[i + 1])
    &&& forall|i: int| 0 <= i < s.len() - 2 ==> !#[trigger] dead_odd_loop_at(s, i)
}

/// Canonical form survives dropping the last entry: every rule match is
/// local, so a prefix of a match-free sequence is match-free.
proof fn lemma_canonical_drop_last(s: Seq<BfInstruction>)
    requires
        canonical(s),
        s.len() > 0,
    ensures
        canonical(s.drop_last()),
{
    let d = s.drop_last();
    assert forall|i: int| 0 <= i < d.len() implies d[i] != BfInstruction::AddValue(0i8) by {
        assert(d[i] == s[i]);
    }
    assert forall|i: int| 0 <= i < d.len() - 1 implies #[trigger] pair_free(d[i], d[i + 1]) by {
        assert(d[i] == s[i] && d[i + 1] == s[i + 1]);
        assert(pair_free(s[i], s[i + 1]));
    }
    assert forall|i: int| 0 <= i < d.len() - 2 implies !#[trigger] dead_odd_loop_at(d, i) by {
        assert(d[i] == s[i] && d[i + 1] == s[i + 1] && d[i + 2] == s[i + 2]);
        assert(!dead_odd_loop_at(s, i));
    }
}

/// Appending an instruction that completes no rule match keeps the
/// sequence canonical.
proof fn lemma_canonical_append(list: Seq<BfInstruction>, insn: BfInstruction)
    requires
        canonical(list),
        insn != BfInstruction::AddValue(0i8),
        list.len() > 0 ==> pair_free(list.last(), insn),
        !(insn == BfInstruction::EndLoop && list.len() >= 2 && is_odd_add(list.last())
            && list[list.len() - 2] == BfInstruction::BeginLoop),
    ensures
        canonical(list.push(insn)),
{
    let p = list.push(insn);
    let n = list.len() as int;
    assert forall|i: int| 0 <= i < p.len() implies p[i] != BfInstruction::AddValue(0i8) by {
        if i < n {
            assert(p[i] == list[i]);
        } else {
            assert(p[i] == insn);
        }
    }
    assert forall|i: int| 0 <= i < p.len() - 1 implies #[trigger] pair_free(p[i], p[i + 1]) by {
        if i + 1 < n {
            assert(p[i] == list[i] && p[i + 1] == list[i + 1]);
            assert(pair_free(list[i], list[i + 1]));
        } else {
            assert(p[i] == list.last() && p[i + 1] == insn);
        }
    }
    assert forall|i: int| 0 <= i < p.len() - 2 implies !#[trigger] dead_odd_loop_at(p, i) by {
        if i + 2 < n {
            assert(p[i] == list[i] && p[i + 1] == list[i + 1] && p[i + 2] == list[i + 2]);
            assert(!dead_odd_loop_at(list, i));
        } else {
            assert(p[i] == list[n - 2] && p[i + 1] == list.last() && p[i + 2] == insn);
        }
    }
}

/// One `push` keeps the emitted sequence canonical.
pub proof fn lemma_push_preserves_canonical(
    list: Seq<BfInstruction>,
    depth: nat,
    insn: BfInstruction,
)
    requires
        canonical(list),
    ensures
        canonical(spec_push(list, depth, insn).0),
    decreases list.len(), push_rank(insn),
{
    if depth != 0 {
        // the list is unchanged
    } else if insn == BfInstruction::AddValue(0i8) {
        // the instruction is dropped
    } else if list.len() == 0 {
        lemma_canonical_append(list, insn);
    } else {
        let rest = list.drop_last();
        match (list.last(), insn) {
            (BfInstruction::AddValue(a), BfInstruction::AddValue(b)) => {
                lemma_canonical_drop_last(list);
                lemma_push_preserves_canonical(
                    rest,
                    depth,
                    BfInstruction::AddValue(i8_specs::wrapping_add(a, b)),
                );
            },
            (BfInstruction::SetValue(a), BfInstruction::AddValue(b)) => {
                lemma_canonical_drop_last(list);
                lemma_push_preserves_canonical(
                    rest,
                    depth,
                    BfInstruction::SetValue(i8_specs::wrapping_add(a, b)),
                );
            },
            (BfInstruction::SetValue(_), BfInstruction::SetValue(_)) => {
                lemma_canonical_drop_last(list);
                lemma_push_preserves_canonical(rest, depth, insn);
            },
            (BfInstruction::AddValue(_), BfInstruction::SetValue(_)) => {
                lemma_canonical_drop_last(list);
                lemma_push_preserves_canonical(rest, depth, insn);
            },
            (BfInstruction::AddPointer(a), BfInstruction::AddPointer(b)) => {
                lemma_canonical_drop_last(list);
                lemma_push_preserves_canonical(
                    rest,
                    depth,
                    BfInstruction::AddPointer(i64_specs::wrapping_add(a, b)),
                );
            },
            (BfInstruction::AddValue(v), BfInstruction::EndLoop) => {
                if v as int % 2 != 0 && list.len() >= 2 && list[list.len() - 2]
                    == BfInstruction::BeginLoop {
                    lemma_canonical_drop_last(list);
                    lemma_canonical_drop_last(rest);
                    lemma_push_preserves_canonical(
                        rest.drop_last(),
                        depth,
                        BfInstruction::SetValue(0i8),
                    );
                } else {
                    lemma_canonical_append(list, insn);
                }
            },
            (BfInstruction::EndLoop, BfInstruction::AddValue(v)) => {
                lemma_push_preserves_canonical(list, depth, BfInstruction::SetValue(v));
            },
            (BfInstruction::EndLoop, BfInstruction::SetValue(c)) => {
                if c != 0i8 {
                    lemma_canonical_append(list, insn);
                }
            },
            (BfInstruction::SetValue(s), BfInstruction::BeginLoop) => {
                if s != 0i8 {
                    lemma_canonical_append(list, insn);
                }
            },
            (BfInstruction::EndLoop, BfInstruction::BeginLoop) => {},
            _ => {
                lemma_canonical_append(list, insn);
            },
        }
    }
}

/// Any run of pushes from a canonical state ends in a canonical state.
proof fn lemma_push_seq_preserves_canonical(
    list: Seq<BfInstruction>,
    depth: nat,
    insns: Seq<BfInstruction>,
)
    requires
        canonical(list),
    ensures
        canonical(spec_push_seq(list, depth, insns).0),
    decreases insns.len(),
{
    if insns.len() != 0 {
        let stepped = spec_push(list, depth, insns[0]);
        lemma_push_preserves_canonical(list, depth, insns[0]);
        lemma_push_seq_preserves_canonical(stepped.0, stepped.1, insns.drop_first());
    }
}

/// The optimizer's output is canonical, for any input sequence.
pub proof fn lemma_optimize_canonical(insns: Seq<BfInstruction>)
    ensures
        canonical(spec_optimize(insns).0),
{
    lemma_push_seq_preserves_canonical(Seq::empty(), 0nat, insns);
}

/// `AddValue(0)` never appears in optimizer output, for any input.
pub proof fn lemma_optimize_no_add_value_zero(insns: Seq<BfInstruction>)
    ensures
        forall|i: int|
            0 <= i < spec_optimize(insns).0.len() ==> spec_optimize(insns).0[i]
                != BfInstruction::AddValue(0i8),
{
    lemma_optimize_canonical(insns);
}

/// Folding is compatible with appending one instruction at the end.
proof fn lemma_push_seq_snoc(
    list: Seq<BfInstruction>,
    depth: nat,
    insns: Seq<BfInstruction>,
    x: BfInstruction,
)
    ensures
        spec_push_seq(list, depth, insns.push(x)) == spec_push(
            spec_push_seq(list, depth, insns).0,
            spec_push_seq(list, depth, insns).1,
            x,
        ),
    decreases insns.len(),
{
    reveal_with_fuel(spec_push_seq, 3);
    if insns.len() == 0 {
        assert(insns.push(x)[0] == x);
        assert(insns.push(x).drop_first() =~= Seq::<BfInstruction>::empty());
    } else {
        assert(insns.push(x)[0] == insns[0]);
        assert(insns.push(x).drop_first() =~= insns.drop_first().push(x));
        let stepped = spec_push(list, depth, insns[0]);
        lemma_push_seq_snoc(stepped.0, stepped.1, insns.drop_first(), x);
    }
}

/// Pushing the next entry of a canonical sequence onto its own prefix
/// fires no rule: it is a plain append.
proof fn lemma_canonical_step(s: Seq<BfInstruction>, k: int)
    requires
        canonical(s),
        0 <= k < s.len(),
    ensures
        spec_push(s.take(k), 0nat, s[k]) == (s.take(k + 1), 0nat),
{
    let t = s.take(k);
    assert(s[k] != BfInstruction::AddValue(0i8));
    if k == 0 {
        assert(t.push(s[k]) =~= s.take(k + 1));
    } else {
        let j = k - 1;
        assert(t.last() == s[j]);
        assert(pair_free(s[j], s[j + 1]));
        assert(s[j + 1] == s[k]);
        if k >= 2 {
            let h = k - 2;
            assert(t[k - 2] == s[h]);
            assert(!dead_odd_loop_at(s, h));
            assert(s[h + 1] == s[k - 1] && s[h + 2] == s[k]);
        }
        assert(t.push(s[k]) =~= s.take(k + 1));
    }
}

/// Idempotence: re-optimizing an already-canonical sequence yields the
/// same sequence (and ends outside suppression mode).
pub proof fn lemma_optimize_idempotent(s: Seq<BfInstruction>)
    requires
        canonical(s),
    ensures
        spec_optimize(s) == (s, 0nat),
    decreases s.len(),
{
    if s.len() == 0 {
        assert(s =~= Seq::<BfInstruction>::empty());
    } else {
        let prefix = s.drop_last();
        lemma_canonical_drop_last(s);
        lemma_optimize_idempotent(prefix);
        assert(prefix.push(s.last()) =~= s);
        lemma_push_seq_snoc(Seq::empty(), 0nat, prefix, s.last());
        assert(prefix =~= s.take(s.len() - 1));
        lemma_canonical_step(s, s.len() - 1);
        assert(s.take(s.len() as int) =~= s);
    }
}

/// Idempotence, stated of the optimizer's own output: optimizing twice
/// is the same as optimizing once.
pub proof fn lemma_optimize_fixpoint(insns: Seq<BfInstruction>)
    ensures
        spec_optimize(spec_optimize(insns).0) == (spec_optimize(insns).0, 0nat),
{
    lemma_optimize_canonical(insns);
    lemma_optimize_idempotent(spec_optimize(insns).0);
}

/// Optimizing `[AddValue(a), AddValue(b)]` yields the single wrapped
/// sum, for any `a`, `b` whose wrapped sum is nonzero. (When the sum
/// wraps to zero the combined instruction is itself dropped and the
/// output is empty, so the law excludes that case.)
pub proof fn lemma_optimize_add_add(a: i8, b: i8)
    requires
        i8_specs::wrapping_add(a, b) != 0i8,
    ensures
        spec_optimize(seq![BfInstruction::AddValue(a), BfInstruction::AddValue(b)]).0 == seq![
            BfInstruction::AddValue(i8_specs::wrapping_add(a, b)),
        ],
{
    reveal_with_fuel(spec_push_seq, 4);
    reveal_with_fuel(spec_push, 3);
    let s = seq![BfInstruction::AddValue(a), BfInstruction::AddValue(b)];
    let w = i8_specs::wrapping_add(a, b);
    assert(s.drop_first() =~= seq![BfInstruction::AddValue(b)]);
    assert(s.drop_first().drop_first() =~= Seq::<BfInstruction>::empty());
    let empty = Seq::<BfInstruction>::empty();
    if a == 0i8 {
        assert(w == b);
        assert(empty.push(BfInstruction::AddValue(b)) =~= seq![BfInstruction::AddValue(w)]);
    } else {
        let one = empty.push(BfInstruction::AddValue(a));
        assert(one.last() == BfInstruction::AddValue(a));
        if b == 0i8 {
            assert(w == a);
            assert(one =~= seq![BfInstruction::AddValue(w)]);
        } else {
            assert(one.drop_last() =~= empty);
            assert(empty.push(BfInstruction::AddValue(w)) =~= seq![BfInstruction::AddValue(w)]);
        }
    }
}

/// Optimizing `[SetValue(a), AddValue(b)]` yields `[SetValue(a + b)]`
/// (8-bit wrapped), for all `a`, `b`.
pub proof fn lemma_optimize_set_add(a: i8, b: i8)
    ensures
        spec_optimize(seq![BfInstruction::SetValue(a), BfInstruction::AddValue(b)]).0 == seq![
            BfInstruction::SetValue(i8_specs::wrapping_add(a, b)),
        ],
{
    reveal_with_fuel(spec_push_seq, 4);
    reveal_with_fuel(spec_push, 3);
    let s = seq![BfInstruction::SetValue(a), BfInstruction::AddValue(b)];
    let w = i8_specs::wrapping_add(a, b);
    assert(s.drop_first() =~= seq![BfInstruction::AddValue(b)]);
    assert(s.drop_first().drop_first() =~= Seq::<BfInstruction>::empty());
    let empty = Seq::<BfInstruction>::empty();
    let one = empty.push(BfInstruction::SetValue(a));
    assert(one.last() == BfInstruction::SetValue(a));
    if b == 0i8 {
        assert(w == a);
        assert(one =~= seq![BfInstruction::SetValue(w)]);
    } else {
        assert(one.drop_last() =~= empty);
        assert(empty.push(BfInstruction::SetValue(w)) =~= seq![BfInstruction::SetValue(w)]);
    }
}

/// Optimizing `[SetValue(a), SetValue(b)]` yields `[SetValue(b)]`, for
/// all `a`, `b`.
pub proof fn lemma_optimize_set_set(a: i8, b: i8)
    ensures
        spec_optimize(seq![BfInstruction::SetValue(a), BfInstruction::SetValue(b)]).0 == seq![
            BfInstruction::SetValue(b),
        ],
{
    reveal_with_fuel(spec_push_seq, 4);
    reveal_with_fuel(spec_push, 3);
    let s = seq![BfInstruction::SetValue(a), BfInstruction::SetValue(b)];
    assert(s.drop_first() =~= seq![BfInstruction::SetValue(b)]);
    assert(s.drop_first().drop_first() =~= Seq::<BfInstruction>::empty());
    let empty = Seq::<BfInstruction>::empty();
    let one = empty.push(BfInstruction::SetValue(a));
    assert(one.last() == BfInstruction::SetValue(a));
    assert(one.drop_last() =~= empty);
    assert(empty.push(BfInstruction::SetValue(b)) =~= seq![BfInstruction::SetValue(b)]);
}

/// Optimizing `[AddValue(a), SetValue(b)]` yields `[SetValue(b)]`, for
/// all `a`, `b`.
pub proof fn lemma_optimize_add_set(a: i8, b: i8)
    ensures
        spec_optimize(seq![BfInstruction::AddValue(a), BfInstruction::SetValue(b)]).0 == seq![
            BfInstruction::SetValue(b),
        ],
{
    reveal_with_fuel(spec_push_seq, 4);
    reveal_with_fuel(spec_push, 3);
    let s = seq![BfInstruction::AddValue(a), BfInstruction::SetValue(b)];
    assert(s.drop_first() =~= seq![BfInstruction::SetValue(b)]);
    assert(s.drop_first().drop_first() =~= Seq::<BfInstruction>::empty());
    let empty = Seq::<BfInstruction>::empty();
    if a == 0i8 {
        assert(empty.push(BfInstruction::SetValue(b)) =~= seq![BfInstruction::SetValue(b)]);
    } else {
        let one = empty.push(BfInstruction::AddValue(a));
        assert(one.last() == BfInstruction::AddValue(a));
        assert(one.drop_last() =~= empty);
        assert(empty.push(BfInstruction::SetValue(b)) =~= seq![BfInstruction::SetValue(b)]);
    }
}

/// One push grows the emitted sequence by at most one entry: every
/// rewrite shrinks it or keeps its length.
proof fn lemma_push_len(list: Seq<BfInstruction>, depth: nat, insn: BfInstruction)
    ensures
        spec_push(list, depth, insn).0.len() <= list.len() + 1,
    decreases list.len(), push_rank(insn),
{
    if depth == 0 && insn != BfInstruction::AddValue(0i8) && list.len() > 0 {
        let rest = list.drop_last();
        match (list.last(), insn) {
            (BfInstruction::AddValue(a), BfInstruction::AddValue(b)) => {
                lemma_push_len(rest, depth, BfInstruction::AddValue(i8_specs::wrapping_add(a, b)));
            },
            (BfInstruction::SetValue(a), BfInstruction::AddValue(b)) => {
                lemma_push_len(rest, depth, BfInstruction::SetValue(i8_specs::wrapping_add(a, b)));
            },
            (BfInstruction::SetValue(_), BfInstruction::SetValue(_)) => {
                lemma_push_len(rest, depth, insn);
            },
            (BfInstruction::AddValue(_), BfInstruction::SetValue(_)) => {
                lemma_push_len(rest, depth, insn);
            },
            (BfInstruction::AddPointer(a), BfInstruction::AddPointer(b)) => {
                lemma_push_len(rest, depth, BfInstruction::AddPointer(i64_specs::wrapping_add(a, b)));
            },
            (BfInstruction::AddValue(v), BfInstruction::EndLoop) => {
                if v as int % 2 != 0 && list.len() >= 2 && list[list.len() - 2]
                    == BfInstruction::BeginLoop {
                    lemma_push_len(rest.drop_last(), depth, BfInstruction::SetValue(0i8));
                }
            },
            (BfInstruction::EndLoop, BfInstruction::AddValue(v)) => {
                lemma_push_len(list, depth, BfInstruction::SetValue(v));
            },
            _ => {},
        }
    }
}

/// The optimizer never lengthens: from any starting state, pushing a
/// sequence grows the output by at most the sequence's length.
proof fn lemma_push_seq_len(list: Seq<BfInstruction>, depth: nat, insns: Seq<BfInstruction>)
    ensures
        spec_push_seq(list, depth, insns).0.len() <= list.len() + insns.len(),
    decreases insns.len(),
{
    if insns.len() != 0 {
        let stepped = spec_push(list, depth, insns[0]);
        lemma_push_len(list, depth, insns[0]);
        lemma_push_seq_len(stepped.0, stepped.1, insns.drop_first());
    }
}

/// The canonical output is never longer than the input sequence.
pub proof fn lemma_optimize_no_longer(insns: Seq<BfInstruction>)
    ensures
        spec_optimize(insns).0.len() <= insns.len(),
{
    lemma_push_seq_len(Seq::empty(), 0nat, insns);
}

/// `s` interleaved with `DebugLog`: one before every entry and one at
/// the end.
pub open spec fn spec_with_debug_logs(s: Seq<BfInstruction>) -> Seq<BfInstruction> {
    Seq::new(
        (2 * s.len() + 1) as nat,
        |j: int|
            if j % 2 == 0 {
                BfInstruction::DebugLog
            } else {
                s[(j - 1) / 2]
            },
    )
}

} // verus!
