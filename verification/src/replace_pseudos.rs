//! Replacing pseudo registers with stack slots.
//!
//! Each distinct pseudo-register name gets a 4-byte slot, in first
//! occurrence order, at offsets -4, -8, ... from the frame base; the same
//! name always maps to the same slot. The final (most negative) offset is
//! returned as the frame size.

use vstd::prelude::*;

use crate::assembly::AssemblyFunctionDefinition;
use crate::assembly::AssemblyFunctionDefinitionV;
use crate::assembly::AssemblyInstruction;
use crate::assembly::AssemblyInstructionV;
use crate::assembly::AssemblyOperand;
use crate::assembly::AssemblyOperandV;
use crate::assembly::AssemblyProgram;
use crate::assembly::AssemblyProgramV;

verus! {

/// The most slots a frame may use; keeps every offset well inside `i32`.
pub const MAX_SLOTS: usize = 0x1000_0000;

/// Structure to keep track of what stack slots have been assigned so far:
/// the pseudo-register names in first-occurrence order. The name at index
/// `k` owns offset `-4 * (k + 1)`, and `current_offset` is the offset
/// handed out most recently.
pub struct ReplacementState {
    /// Last used stack slot.
    pub current_offset: i32,
    /// Pseudo-register names in the order their slots were assigned.
    pub offset_map: Vec<String>,
}

impl ReplacementState {
    /// The state is consistent: the running offset matches the number of
    /// assigned slots.
    pub open spec fn wf(&self) -> bool {
        &&& self.current_offset as int == -4 * self.offset_map.deep_view().len()
        &&& self.offset_map.deep_view().len() <= MAX_SLOTS
    }

    pub fn new() -> (s: ReplacementState)
        ensures
            s.wf(),
            s.offset_map.deep_view() == Seq::<Seq<char>>::empty(),
    {
        let s = ReplacementState { current_offset: 0, offset_map: Vec::new() };
        proof {
            assert(s.offset_map.deep_view() =~= Seq::<Seq<char>>::empty());
        }
        s
    }
}

/// The index of the first occurrence of `x` in `s`.
pub open spec fn first_index_of(s: Seq<Seq<char>>, x: Seq<char>) -> int
    decreases s.len(),
{
    if s.len() == 0 {
        0
    } else if s[0] == x {
        0
    } else {
        1 + first_index_of(s.drop_first(), x)
    }
}

proof fn lemma_first_index_of(s: Seq<Seq<char>>, x: Seq<char>, k: int)
    requires
        0 <= k < s.len(),
        s[k] == x,
        forall|m: int| 0 <= m < k ==> s[m] != x,
    ensures
        first_index_of(s, x) == k,
    decreases s.len(),
{
    if k > 0 {
        assert(forall|m: int| 0 <= m < k - 1 ==> s.drop_first()[m] != x);
        lemma_first_index_of(s.drop_first(), x, k - 1);
    }
}

/// The slot of the `k`-th assigned name.
pub open spec fn slot_offset(k: int) -> int {
    -4 * (k + 1)
}

/// What replacing one operand answers: the rewritten operand and the
/// names seen afterwards. A pseudo-register maps to its existing slot, or
/// to the next free slot on its first occurrence.
pub open spec fn sp_replace_operand(op: AssemblyOperandV, seen: Seq<Seq<char>>) -> (AssemblyOperandV, Seq<Seq<char>>) {
    match op {
        AssemblyOperandV::PseudoReg(name) => {
            if seen.contains(name) {
                (AssemblyOperandV::Stack(slot_offset(first_index_of(seen, name)) as i32), seen)
            } else {
                (AssemblyOperandV::Stack(slot_offset(seen.len() as int) as i32), seen.push(name))
            }
        },
        other => (other, seen),
    }
}

/// What replacing one instruction answers; source operands are replaced
/// before destination operands.
pub open spec fn sp_replace_instruction(instruction: AssemblyInstructionV, seen: Seq<Seq<char>>) -> (AssemblyInstructionV, Seq<Seq<char>>) {
    match instruction {
        AssemblyInstructionV::Mov(src, dst) => {
            let s = sp_replace_operand(src, seen);
            let d = sp_replace_operand(dst, s.1);
            (AssemblyInstructionV::Mov(s.0, d.0), d.1)
        },
        AssemblyInstructionV::Unary(op, dst) => {
            let d = sp_replace_operand(dst, seen);
            (AssemblyInstructionV::Unary(op, d.0), d.1)
        },
        AssemblyInstructionV::Binary(op, src, dst) => {
            let s = sp_replace_operand(src, seen);
            let d = sp_replace_operand(dst, s.1);
            (AssemblyInstructionV::Binary(op, s.0, d.0), d.1)
        },
        AssemblyInstructionV::Idiv(src) => {
            let s = sp_replace_operand(src, seen);
            (AssemblyInstructionV::Idiv(s.0), s.1)
        },
        AssemblyInstructionV::Cmp(src, dst) => {
            let s = sp_replace_operand(src, seen);
            let d = sp_replace_operand(dst, s.1);
            (AssemblyInstructionV::Cmp(s.0, d.0), d.1)
        },
        AssemblyInstructionV::SetCC(cc, dst) => {
            let d = sp_replace_operand(dst, seen);
            (AssemblyInstructionV::SetCC(cc, d.0), d.1)
        },
        other => (other, seen),
    }
}

/// What replacing an instruction list answers, threading the seen names.
pub open spec fn sp_replace_instructions(instructions: Seq<AssemblyInstructionV>, seen: Seq<Seq<char>>) -> (Seq<AssemblyInstructionV>, Seq<Seq<char>>)
    decreases instructions.len(),
{
    if instructions.len() == 0 {
        (Seq::empty(), seen)
    } else {
        let head = sp_replace_instruction(instructions[0], seen);
        let rest = sp_replace_instructions(instructions.drop_first(), head.1);
        (seq![head.0] + rest.0, rest.1)
    }
}

/// What the whole pass answers for a function: the rewritten body and the
/// final (most negative) offset.
pub open spec fn sp_replace_function(f: AssemblyFunctionDefinitionV) -> (AssemblyFunctionDefinitionV, int) {
    match f {
        AssemblyFunctionDefinitionV::Function(name, instructions) => {
            let r = sp_replace_instructions(instructions, Seq::empty());
            (AssemblyFunctionDefinitionV::Function(name, r.0), -4 * r.1.len())
        },
    }
}

pub open spec fn sp_replace_pseudos(p: AssemblyProgramV) -> (AssemblyProgramV, int) {
    match p {
        AssemblyProgramV::Program(f) => {
            let r = sp_replace_function(f);
            (AssemblyProgramV::Program(r.0), r.1)
        },
    }
}

/// No operand of the instruction is a pseudo-register.
pub open spec fn instruction_no_pseudo(instruction: AssemblyInstructionV) -> bool {
    match instruction {
        AssemblyInstructionV::Mov(src, dst) => !(src is PseudoReg) && !(dst is PseudoReg),
        AssemblyInstructionV::Unary(_, dst) => !(dst is PseudoReg),
        AssemblyInstructionV::Binary(_, src, dst) => !(src is PseudoReg) && !(dst is PseudoReg),
        AssemblyInstructionV::Cmp(src, dst) => !(src is PseudoReg) && !(dst is PseudoReg),
        AssemblyInstructionV::Idiv(src) => !(src is PseudoReg),
        AssemblyInstructionV::SetCC(_, dst) => !(dst is PseudoReg),
        _ => true,
    }
}

/// No instruction of the list holds a pseudo-register operand.
pub open spec fn no_pseudos(instructions: Seq<AssemblyInstructionV>) -> bool {
    forall|k: int| 0 <= k < instructions.len() ==> instruction_no_pseudo(#[trigger] instructions[k])
}

pub open spec fn program_no_pseudos(p: AssemblyProgramV) -> bool {
    match p {
        AssemblyProgramV::Program(AssemblyFunctionDefinitionV::Function(_, instructions)) =>
            no_pseudos(instructions),
    }
}

/// The instruction holds no `AllocateStack`; the pass runs before the
/// legalizer introduces it.
pub open spec fn no_alloc(instructions: Seq<AssemblyInstructionV>) -> bool {
    forall|k: int| 0 <= k < instructions.len() ==> !((#[trigger] instructions[k]) is AllocateStack)
}

pub open spec fn program_no_alloc(p: AssemblyProgramV) -> bool {
    match p {
        AssemblyProgramV::Program(AssemblyFunctionDefinitionV::Function(_, instructions)) =>
            no_alloc(instructions),
    }
}

/// Slot assignment is deterministic: replacing the same pseudo-register
/// again, after it has been given a slot, answers the same slot and
/// assigns nothing new.
pub proof fn lemma_same_pseudo_same_slot(name: Seq<char>, seen: Seq<Seq<char>>)
    ensures
        ({
            let first = sp_replace_operand(AssemblyOperandV::PseudoReg(name), seen);
            let second = sp_replace_operand(AssemblyOperandV::PseudoReg(name), first.1);
            &&& second.0 == first.0
            &&& second.1 == first.1
        }),
{
    if !seen.contains(name) {
        let grown = seen.push(name);
        assert(grown[seen.len() as int] == name);
        assert(grown.contains(name));
        lemma_first_index_of(grown, name, seen.len() as int);
    }
}

/// Distinct slots lie 4 bytes apart: two different assignment indices
/// never share an offset.
pub proof fn lemma_slots_distinct(k1: int, k2: int)
    requires
        k1 != k2,
    ensures
        slot_offset(k1) != slot_offset(k2),
        slot_offset(k1 + 1) == slot_offset(k1) - 4,
{
}

/// Replacing instructions only appends to the seen names, at most two per
/// instruction, and the output has no pseudo-register left.
proof fn lemma_replace_operand_facts(op: AssemblyOperandV, seen: Seq<Seq<char>>)
    ensures
        seen.len() <= sp_replace_operand(op, seen).1.len() <= seen.len() + 1,
        !(sp_replace_operand(op, seen).0 is PseudoReg),
{
}

proof fn lemma_replace_instruction_facts(instruction: AssemblyInstructionV, seen: Seq<Seq<char>>)
    ensures
        seen.len() <= sp_replace_instruction(instruction, seen).1.len() <= seen.len() + 2,
        !(instruction is AllocateStack) ==> instruction_no_pseudo(
            sp_replace_instruction(instruction, seen).0,
        ),
{
    match instruction {
        AssemblyInstructionV::Mov(src, dst) => {
            lemma_replace_operand_facts(src, seen);
            lemma_replace_operand_facts(dst, sp_replace_operand(src, seen).1);
        },
        AssemblyInstructionV::Unary(_, dst) => {
            lemma_replace_operand_facts(dst, seen);
        },
        AssemblyInstructionV::Binary(_, src, dst) => {
            lemma_replace_operand_facts(src, seen);
            lemma_replace_operand_facts(dst, sp_replace_operand(src, seen).1);
        },
        AssemblyInstructionV::Cmp(src, dst) => {
            lemma_replace_operand_facts(src, seen);
            lemma_replace_operand_facts(dst, sp_replace_operand(src, seen).1);
        },
        AssemblyInstructionV::Idiv(src) => {
            lemma_replace_operand_facts(src, seen);
        },
        AssemblyInstructionV::SetCC(_, dst) => {
            lemma_replace_operand_facts(dst, seen);
        },
        _ => {},
    }
}

proof fn lemma_replace_instructions_facts(instructions: Seq<AssemblyInstructionV>, seen: Seq<Seq<char>>)
    ensures
        seen.len() <= sp_replace_instructions(instructions, seen).1.len() <= seen.len() + 2
            * instructions.len(),
        no_alloc(instructions) ==> no_pseudos(sp_replace_instructions(instructions, seen).0),
    decreases instructions.len(),
{
    if instructions.len() > 0 {
        lemma_replace_instruction_facts(instructions[0], seen);
        let head = sp_replace_instruction(instructions[0], seen);
        lemma_replace_instructions_facts(instructions.drop_first(), head.1);
        if no_alloc(instructions) {
            assert(forall|k: int| 0 <= k < instructions.drop_first().len() ==> !((
            #[trigger] instructions.drop_first()[k]) is AllocateStack));
            let out = sp_replace_instructions(instructions, seen).0;
            let rest = sp_replace_instructions(instructions.drop_first(), head.1).0;
            assert(forall|k: int| 0 < k < out.len() ==> out[k] == rest[k - 1]);
            assert(no_pseudos(out));
        }
    }
}

fn find_slot(state: &ReplacementState, name: &String) -> (r: Option<usize>)
    ensures
        match r {
            Some(k) => state.offset_map.deep_view().contains(name@) && k as int == first_index_of(
                state.offset_map.deep_view(),
                name@,
            ) && k < state.offset_map.deep_view().len(),
            None => !state.offset_map.deep_view().contains(name@),
        },
{
    let ghost seen = state.offset_map.deep_view();
    let mut k: usize = 0;
    while k < state.offset_map.len()
        invariant
            k <= seen.len(),
            seen == state.offset_map.deep_view(),
            seen.len() == state.offset_map@.len(),
            forall|m: int| 0 <= m < k ==> seen[m] != name@,
        decreases seen.len() - k,
    {
        proof {
            assert(seen[k as int] == state.offset_map@[k as int].deep_view());
        }
        if state.offset_map[k].eq(name) {
            proof {
                lemma_first_index_of(seen, name@, k as int);
            }
            return Some(k);
        }
        k = k + 1;
    }
    proof {
        assert(forall|m: int| 0 <= m < seen.len() ==> seen[m] != name@);
    }
    None
}

fn replace_operand(state: &mut ReplacementState, operand: AssemblyOperand) -> (r: AssemblyOperand)
    requires
        old(state).wf(),
        old(state).offset_map.deep_view().len() + 1 <= MAX_SLOTS,
    ensures
        final(state).wf(),
        ({
            let sp = sp_replace_operand(operand@, old(state).offset_map.deep_view());
            &&& r@ == sp.0
            &&& final(state).offset_map.deep_view() == sp.1
            &&& final(state).current_offset as int == -4 * sp.1.len()
        }),
{
    match operand {
        AssemblyOperand::PseudoReg(name) => {
            match find_slot(state, &name) {
                Some(k) => {
                    let offset: i32 = -(((k as i32) + 1) * 4);
                    AssemblyOperand::Stack(offset)
                },
                None => {
                    let ghost seen = state.offset_map.deep_view();
                    state.current_offset = state.current_offset - 4;
                    state.offset_map.push(name);
                    proof {
                        assert(state.offset_map.deep_view() =~= seen.push(
                            state.offset_map@[seen.len() as int].deep_view(),
                        ));
                    }
                    AssemblyOperand::Stack(state.current_offset)
                },
            }
        },
        other => other,
    }
}

fn replace_pseudos_in_instruction(state: &mut ReplacementState, instruction: AssemblyInstruction) -> (r: AssemblyInstruction)
    requires
        old(state).wf(),
        old(state).offset_map.deep_view().len() + 2 <= MAX_SLOTS,
        !(instruction@ is AllocateStack),
    ensures
        final(state).wf(),
        ({
            let sp = sp_replace_instruction(instruction@, old(state).offset_map.deep_view());
            &&& r@ == sp.0
            &&& final(state).offset_map.deep_view() == sp.1
        }),
{
    match instruction {
        AssemblyInstruction::Mov(src, dst) => {
            proof {
                lemma_replace_operand_facts(src@, old(state).offset_map.deep_view());
            }
            let new_src = replace_operand(state, src);
            let new_dst = replace_operand(state, dst);
            AssemblyInstruction::Mov(new_src, new_dst)
        },
        AssemblyInstruction::Unary(op, dst) => {
            let new_dst = replace_operand(state, dst);
            AssemblyInstruction::Unary(op, new_dst)
        },
        AssemblyInstruction::Binary(op, src, dst) => {
            proof {
                lemma_replace_operand_facts(src@, old(state).offset_map.deep_view());
            }
            let new_src = replace_operand(state, src);
            let new_dst = replace_operand(state, dst);
            AssemblyInstruction::Binary(op, new_src, new_dst)
        },
        AssemblyInstruction::Idiv(src) => {
            let new_src = replace_operand(state, src);
            AssemblyInstruction::Idiv(new_src)
        },
        AssemblyInstruction::Ret => AssemblyInstruction::Ret,
        AssemblyInstruction::Cdq => AssemblyInstruction::Cdq,
        AssemblyInstruction::Cmp(src, dst) => {
            proof {
                lemma_replace_operand_facts(src@, old(state).offset_map.deep_view());
            }
            let new_src = replace_operand(state, src);
            let new_dst = replace_operand(state, dst);
            AssemblyInstruction::Cmp(new_src, new_dst)
        },
        AssemblyInstruction::SetCC(condition, dst) => {
            let new_dst = replace_operand(state, dst);
            AssemblyInstruction::SetCC(condition, new_dst)
        },
        AssemblyInstruction::Label(identifier) => AssemblyInstruction::Label(identifier),
        AssemblyInstruction::JmpCC(condition, target) => AssemblyInstruction::JmpCC(
            condition,
            target,
        ),
        AssemblyInstruction::Jmp(target) => AssemblyInstruction::Jmp(target),
        AssemblyInstruction::AllocateStack(n) => AssemblyInstruction::AllocateStack(n),
    }
}

fn replace_pseudos_in_instructions(instructions: Vec<AssemblyInstruction>, state: &mut ReplacementState) -> (r: Vec<AssemblyInstruction>)
    requires
        old(state).wf(),
        no_alloc(instructions.deep_view()),
        old(state).offset_map.deep_view().len() + 2 * instructions.deep_view().len()
            <= MAX_SLOTS,
    ensures
        final(state).wf(),
        ({
            let sp = sp_replace_instructions(
                instructions.deep_view(),
                old(state).offset_map.deep_view(),
            );
            &&& r.deep_view() == sp.0
            &&& final(state).offset_map.deep_view() == sp.1
        }),
    decreases instructions@.len(),
{
    let mut instructions = instructions;
    if instructions.len() == 0 {
        let res: Vec<AssemblyInstruction> = Vec::new();
        proof {
            assert(res.deep_view() =~= Seq::<AssemblyInstructionV>::empty());
        }
        return res;
    }
    let ghost insv = instructions.deep_view();
    let ghost seen0 = state.offset_map.deep_view();
    let head = instructions.remove(0);
    proof {
        assert(instructions.deep_view() =~= insv.drop_first());
        assert(head.deep_view() == insv[0]);
        assert(forall|k: int| 0 <= k < insv.drop_first().len() ==> !((
        #[trigger] insv.drop_first()[k]) is AllocateStack));
    }
    let new_head = replace_pseudos_in_instruction(state, head);
    proof {
        lemma_replace_instruction_facts(insv[0], seen0);
    }
    let rest = replace_pseudos_in_instructions(instructions, state);
    let ghost restv = rest.deep_view();
    let mut res = rest;
    res.insert(0, new_head);
    proof {
        assert(res.deep_view() =~= seq![sp_replace_instruction(insv[0], seen0).0] + restv);
    }
    res
}

fn replace_pseudos_in_function(function: AssemblyFunctionDefinition) -> (r: (
    AssemblyFunctionDefinition,
    i32,
))
    requires
        ({
            match function@ {
                AssemblyFunctionDefinitionV::Function(_, instructions) => {
                    &&& no_alloc(instructions)
                    &&& 2 * instructions.len() <= MAX_SLOTS
                },
            }
        }),
    ensures
        ({
            let sp = sp_replace_function(function@);
            &&& r.0@ == sp.0
            &&& r.1 as int == sp.1
        }),
{
    match function {
        AssemblyFunctionDefinition::Function(identifier, instructions) => {
            let mut state = ReplacementState::new();
            let final_instructions = replace_pseudos_in_instructions(instructions, &mut state);
            (
                AssemblyFunctionDefinition::Function(identifier, final_instructions),
                state.current_offset,
            )
        },
    }
}

/// Assign every pseudo-register a stack slot; the second component is the
/// final (most negative) offset, the frame size to allocate.
pub fn replace_pseudos(program: AssemblyProgram) -> (r: (AssemblyProgram, i32))
    requires
        program_no_alloc(program@),
        ({
            match program@ {
                AssemblyProgramV::Program(AssemblyFunctionDefinitionV::Function(_, instructions)) =>
                    2 * instructions.len() <= MAX_SLOTS,
            }
        }),
    ensures
        ({
            let sp = sp_replace_pseudos(program@);
            &&& r.0@ == sp.0
            &&& r.1 as int == sp.1
            &&& program_no_pseudos(r.0@)
        }),
{
    match program {
        AssemblyProgram::Program(function) => {
            proof {
                match function@ {
                    AssemblyFunctionDefinitionV::Function(_, instructions) => {
                        lemma_replace_instructions_facts(instructions, Seq::empty());
                    },
                }
            }
            let (fixed_def, last_stack_slot) = replace_pseudos_in_function(function);
            (AssemblyProgram::Program(fixed_def), last_stack_slot)
        },
    }
}

} // verus!
