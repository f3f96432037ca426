//! Invalid instructions fix-up.
//!
//! The target cannot execute a memory-to-memory `Mov`, an `Idiv` of an
//! immediate, or a `Mult` into memory; these are rewritten through the
//! scratch registers `R10` and `R11`. `Add` and `Sub` are routed through
//! `R10` as well, which is conservative but legal. The pass prepends the
//! `AllocateStack` instruction for the frame computed by the stack
//! allocator.

use vstd::prelude::*;

use crate::assembly::AssemblyBinaryOp;
use crate::assembly::AssemblyFunctionDefinition;
use crate::assembly::AssemblyFunctionDefinitionV;
use crate::assembly::AssemblyInstruction;
use crate::assembly::AssemblyInstructionV;
use crate::assembly::AssemblyOperand;
use crate::assembly::AssemblyOperandV;
use crate::assembly::AssemblyProgram;
use crate::assembly::AssemblyProgramV;
use crate::assembly::AssemblyRegister;
use crate::replace_pseudos::instruction_no_pseudo;
use crate::replace_pseudos::no_pseudos;
use crate::replace_pseudos::program_no_pseudos;

verus! {

/// An instruction the target can execute directly: no memory-to-memory
/// `Mov`, no immediate `Idiv` operand, no `Mult` into memory.
pub open spec fn instruction_legal(instruction: AssemblyInstructionV) -> bool {
    match instruction {
        AssemblyInstructionV::Mov(src, dst) => !(src is Stack && dst is Stack),
        AssemblyInstructionV::Idiv(src) => !(src is Imm),
        AssemblyInstructionV::Binary(op, _, dst) => op == AssemblyBinaryOp::Mult ==> !(dst
            is Stack),
        _ => true,
    }
}

pub open spec fn all_legal(instructions: Seq<AssemblyInstructionV>) -> bool {
    forall|k: int| 0 <= k < instructions.len() ==> instruction_legal(#[trigger] instructions[k])
}

pub open spec fn program_legal(p: AssemblyProgramV) -> bool {
    match p {
        AssemblyProgramV::Program(AssemblyFunctionDefinitionV::Function(_, instructions)) =>
            all_legal(instructions),
    }
}

/// What fixing one instruction answers: the legal sequence that replaces
/// it.
pub open spec fn sp_fixup_instruction(instruction: AssemblyInstructionV) -> Seq<
    AssemblyInstructionV,
> {
    match instruction {
        AssemblyInstructionV::Mov(AssemblyOperandV::Stack(src), AssemblyOperandV::Stack(dst)) =>
            seq![
            AssemblyInstructionV::Mov(
                AssemblyOperandV::Stack(src),
                AssemblyOperandV::Reg(AssemblyRegister::R10),
            ),
            AssemblyInstructionV::Mov(
                AssemblyOperandV::Reg(AssemblyRegister::R10),
                AssemblyOperandV::Stack(dst),
            ),
        ],
        AssemblyInstructionV::Idiv(AssemblyOperandV::Imm(n)) => seq![
            AssemblyInstructionV::Mov(
                AssemblyOperandV::Imm(n),
                AssemblyOperandV::Reg(AssemblyRegister::R10),
            ),
            AssemblyInstructionV::Idiv(AssemblyOperandV::Reg(AssemblyRegister::R10)),
        ],
        AssemblyInstructionV::Binary(AssemblyBinaryOp::Add, src, dst) => seq![
            AssemblyInstructionV::Mov(src, AssemblyOperandV::Reg(AssemblyRegister::R10)),
            AssemblyInstructionV::Binary(
                AssemblyBinaryOp::Add,
                AssemblyOperandV::Reg(AssemblyRegister::R10),
                dst,
            ),
        ],
        AssemblyInstructionV::Binary(AssemblyBinaryOp::Sub, src, dst) => seq![
            AssemblyInstructionV::Mov(src, AssemblyOperandV::Reg(AssemblyRegister::R10)),
            AssemblyInstructionV::Binary(
                AssemblyBinaryOp::Sub,
                AssemblyOperandV::Reg(AssemblyRegister::R10),
                dst,
            ),
        ],
        AssemblyInstructionV::Binary(
            AssemblyBinaryOp::Mult,
            src,
            AssemblyOperandV::Stack(stack),
        ) => seq![
            AssemblyInstructionV::Mov(
                AssemblyOperandV::Stack(stack),
                AssemblyOperandV::Reg(AssemblyRegister::R11),
            ),
            AssemblyInstructionV::Binary(
                AssemblyBinaryOp::Mult,
                src,
                AssemblyOperandV::Reg(AssemblyRegister::R11),
            ),
            AssemblyInstructionV::Mov(
                AssemblyOperandV::Reg(AssemblyRegister::R11),
                AssemblyOperandV::Stack(stack),
            ),
        ],
        other => seq![other],
    }
}

pub open spec fn sp_fixup_instructions(instructions: Seq<AssemblyInstructionV>) -> Seq<
    AssemblyInstructionV,
>
    decreases instructions.len(),
{
    if instructions.len() == 0 {
        Seq::empty()
    } else {
        sp_fixup_instruction(instructions[0]) + sp_fixup_instructions(instructions.drop_first())
    }
}

/// What fixing a function answers: the `AllocateStack` for the frame,
/// then the legalized instructions.
pub open spec fn sp_fixup_function(last_stack_slot: int, f: AssemblyFunctionDefinitionV) -> AssemblyFunctionDefinitionV {
    match f {
        AssemblyFunctionDefinitionV::Function(name, instructions) =>
            AssemblyFunctionDefinitionV::Function(
            name,
            seq![AssemblyInstructionV::AllocateStack((-last_stack_slot) as i32)]
                + sp_fixup_instructions(instructions),
        ),
    }
}

pub open spec fn sp_fixup_program(last_stack_slot: int, p: AssemblyProgramV) -> AssemblyProgramV {
    match p {
        AssemblyProgramV::Program(f) => AssemblyProgramV::Program(
            sp_fixup_function(last_stack_slot, f),
        ),
    }
}

/// Everything the fix-up emits is legal, and it introduces no
/// pseudo-register.
proof fn lemma_fixup_instruction_legal(instruction: AssemblyInstructionV)
    ensures
        all_legal(sp_fixup_instruction(instruction)),
        instruction_no_pseudo(instruction) ==> (forall|k: int|
            0 <= k < sp_fixup_instruction(instruction).len() ==> instruction_no_pseudo(
                #[trigger] sp_fixup_instruction(instruction)[k],
            )),
{
}

/// The legalized form of any instruction list is legal throughout, and
/// holds no pseudo-register if the input held none.
pub proof fn lemma_fixup_instructions_legal(instructions: Seq<AssemblyInstructionV>)
    ensures
        all_legal(sp_fixup_instructions(instructions)),
        no_pseudos(instructions) ==> no_pseudos(sp_fixup_instructions(instructions)),
    decreases instructions.len(),
{
    if instructions.len() > 0 {
        lemma_fixup_instruction_legal(instructions[0]);
        lemma_fixup_instructions_legal(instructions.drop_first());
        if no_pseudos(instructions) {
            assert(forall|k: int| 0 <= k < instructions.drop_first().len()
                ==> instruction_no_pseudo(#[trigger] instructions.drop_first()[k]));
        }
        let head = sp_fixup_instruction(instructions[0]);
        let rest = sp_fixup_instructions(instructions.drop_first());
        let out = sp_fixup_instructions(instructions);
        assert(forall|k: int| head.len() <= k < out.len() ==> out[k] == rest[k - head.len()]);
        assert(forall|k: int| 0 <= k < head.len() ==> out[k] == head[k]);
    }
}

fn fixup_instruction(instruction: AssemblyInstruction) -> (r: Vec<AssemblyInstruction>)
    ensures
        r.deep_view() == sp_fixup_instruction(instruction@),
{
    let ghost iv = instruction@;
    let mut res: Vec<AssemblyInstruction> = Vec::new();
    match instruction {
        AssemblyInstruction::Mov(AssemblyOperand::Stack(src), AssemblyOperand::Stack(dst)) => {
            res.push(
                AssemblyInstruction::Mov(
                    AssemblyOperand::Stack(src),
                    AssemblyOperand::Reg(AssemblyRegister::R10),
                ),
            );
            res.push(
                AssemblyInstruction::Mov(
                    AssemblyOperand::Reg(AssemblyRegister::R10),
                    AssemblyOperand::Stack(dst),
                ),
            );
            proof {
                assert(res.deep_view() =~= sp_fixup_instruction(iv));
            }
        },
        AssemblyInstruction::Idiv(AssemblyOperand::Imm(n)) => {
            res.push(
                AssemblyInstruction::Mov(
                    AssemblyOperand::Imm(n),
                    AssemblyOperand::Reg(AssemblyRegister::R10),
                ),
            );
            res.push(AssemblyInstruction::Idiv(AssemblyOperand::Reg(AssemblyRegister::R10)));
            proof {
                assert(res.deep_view() =~= sp_fixup_instruction(iv));
            }
        },
        AssemblyInstruction::Binary(AssemblyBinaryOp::Add, src, dst) => {
            res.push(
                AssemblyInstruction::Mov(src, AssemblyOperand::Reg(AssemblyRegister::R10)),
            );
            res.push(
                AssemblyInstruction::Binary(
                    AssemblyBinaryOp::Add,
                    AssemblyOperand::Reg(AssemblyRegister::R10),
                    dst,
                ),
            );
            proof {
                assert(res.deep_view() =~= sp_fixup_instruction(iv));
            }
        },
        AssemblyInstruction::Binary(AssemblyBinaryOp::Sub, src, dst) => {
            res.push(
                AssemblyInstruction::Mov(src, AssemblyOperand::Reg(AssemblyRegister::R10)),
            );
            res.push(
                AssemblyInstruction::Binary(
                    AssemblyBinaryOp::Sub,
                    AssemblyOperand::Reg(AssemblyRegister::R10),
                    dst,
                ),
            );
            proof {
                assert(res.deep_view() =~= sp_fixup_instruction(iv));
            }
        },
        AssemblyInstruction::Binary(
            AssemblyBinaryOp::Mult,
            src,
            AssemblyOperand::Stack(stack),
        ) => {
            res.push(
                AssemblyInstruction::Mov(
                    AssemblyOperand::Stack(stack),
                    AssemblyOperand::Reg(AssemblyRegister::R11),
                ),
            );
            res.push(
                AssemblyInstruction::Binary(
                    AssemblyBinaryOp::Mult,
                    src,
                    AssemblyOperand::Reg(AssemblyRegister::R11),
                ),
            );
            res.push(
                AssemblyInstruction::Mov(
                    AssemblyOperand::Reg(AssemblyRegister::R11),
                    AssemblyOperand::Stack(stack),
                ),
            );
            proof {
                assert(res.deep_view() =~= sp_fixup_instruction(iv));
            }
        },
        other => {
            res.push(other);
            proof {
                assert(res.deep_view() =~= sp_fixup_instruction(iv));
            }
        },
    }
    res
}

fn fixup_instructions(instructions: Vec<AssemblyInstruction>) -> (r: Vec<AssemblyInstruction>)
    ensures
        r.deep_view() == sp_fixup_instructions(instructions.deep_view()),
    decreases instructions@.len(),
{
    let mut instructions = instructions;
    if instructions.len() == 0 {
        let res: Vec<AssemblyInstruction> = Vec::new();
        proof {
            assert(res.deep_view() =~= Seq::<AssemblyInstructionV>::empty());
        }
        return res;
    }
    let ghost insv = instructions.deep_view();
    let head = instructions.remove(0);
    proof {
        assert(instructions.deep_view() =~= insv.drop_first());
        assert(head.deep_view() == insv[0]);
    }
    let mut res = fixup_instruction(head);
    let ghost headv = res.deep_view();
    let mut rest = fixup_instructions(instructions);
    res.append(&mut rest);
    proof {
        assert(res.deep_view() =~= headv + sp_fixup_instructions(insv.drop_first()));
    }
    res
}

fn fixup_function(last_stack_slot: i32, function: AssemblyFunctionDefinition) -> (r:
    AssemblyFunctionDefinition)
    requires
        last_stack_slot != i32::MIN,
    ensures
        r@ == sp_fixup_function(last_stack_slot as int, function@),
{
    match function {
        AssemblyFunctionDefinition::Function(identifier, instructions) => {
            let fixed_instructions = fixup_instructions(instructions);
            let ghost fixedv = fixed_instructions.deep_view();
            let mut fixed_instructions = fixed_instructions;
            fixed_instructions.insert(0, AssemblyInstruction::AllocateStack(-last_stack_slot));
            proof {
                assert(fixed_instructions.deep_view() =~= seq![
                    AssemblyInstructionV::AllocateStack((-last_stack_slot) as i32),
                ] + fixedv);
            }
            AssemblyFunctionDefinition::Function(identifier, fixed_instructions)
        },
    }
}

/// Legalize every instruction and prepend the stack allocation for the
/// given frame size. Afterwards no memory-to-memory `Mov`, immediate
/// `Idiv` or `Mult` into memory remains, and no pseudo-register is
/// introduced.
pub fn fixup_program(last_stack_slot: i32, program: AssemblyProgram) -> (r: AssemblyProgram)
    requires
        last_stack_slot != i32::MIN,
    ensures
        r@ == sp_fixup_program(last_stack_slot as int, program@),
        program_legal(r@),
        program_no_pseudos(program@) ==> program_no_pseudos(r@),
{
    proof {
        match program@ {
            AssemblyProgramV::Program(AssemblyFunctionDefinitionV::Function(_, instructions)) => {
                lemma_fixup_instructions_legal(instructions);
            },
        }
    }
    match program {
        AssemblyProgram::Program(function) => {
            let f = fixup_function(last_stack_slot, function);
            AssemblyProgram::Program(f)
        },
    }
}

} // verus!
