//! Instruction selection: TACKY to assembly IR with pseudo-register
//! operands.
//!
//! Each TACKY instruction maps to a fixed pattern: `!` and the relational
//! operators go through `Cmp`/`SetCC`, division and remainder through
//! `Cdq`/`Idiv` and the dividend/quotient registers, everything else
//! through `Mov` plus the matching arithmetic instruction.

use vstd::prelude::*;

use crate::assembly::AssemblyBinaryOp;
use crate::assembly::AssemblyCondition;
use crate::assembly::AssemblyFunctionDefinition;
use crate::assembly::AssemblyFunctionDefinitionV;
use crate::assembly::AssemblyInstruction;
use crate::assembly::AssemblyInstructionV;
use crate::assembly::AssemblyOperand;
use crate::assembly::AssemblyOperandV;
use crate::assembly::AssemblyProgram;
use crate::assembly::AssemblyProgramV;
use crate::assembly::AssemblyRegister;
use crate::assembly::AssemblyUnaryOp;
use crate::tacky::BinaryOp;
use crate::tacky::FunctionDefinition;
use crate::tacky::FunctionDefinitionV;
use crate::tacky::Instruction;
use crate::tacky::InstructionV;
use crate::tacky::Program;
use crate::tacky::ProgramV;
use crate::tacky::UnaryOp;
use crate::tacky::Val;
use crate::tacky::ValV;

verus! {

/// The assembly operand for a TACKY value: constants become immediates,
/// variables become pseudo-registers.
pub open spec fn sp_convert_operand(v: ValV) -> AssemblyOperandV {
    match v {
        ValV::Constant(n) => AssemblyOperandV::Imm(n),
        ValV::Var(name) => AssemblyOperandV::PseudoReg(name),
    }
}

pub open spec fn sp_convert_unary_op(op: UnaryOp) -> AssemblyUnaryOp {
    match op {
        UnaryOp::Complement => AssemblyUnaryOp::Not,
        UnaryOp::Negate => AssemblyUnaryOp::Neg,
        UnaryOp::Not => AssemblyUnaryOp::Not,
    }
}

/// The assembly operator for an arithmetic TACKY operator; division,
/// remainder and the relational operators have no direct counterpart.
pub open spec fn sp_convert_binary_op(op: BinaryOp) -> AssemblyBinaryOp {
    match op {
        BinaryOp::Add => AssemblyBinaryOp::Add,
        BinaryOp::Subtract => AssemblyBinaryOp::Sub,
        BinaryOp::Multiply => AssemblyBinaryOp::Mult,
        _ => AssemblyBinaryOp::Add,
    }
}

/// The condition code for a relational TACKY operator.
pub open spec fn sp_condition_of(op: BinaryOp) -> AssemblyCondition {
    match op {
        BinaryOp::Equal => AssemblyCondition::E,
        BinaryOp::NotEqual => AssemblyCondition::NE,
        BinaryOp::GreaterThan => AssemblyCondition::G,
        BinaryOp::GreaterOrEqual => AssemblyCondition::GE,
        BinaryOp::LessThan => AssemblyCondition::L,
        _ => AssemblyCondition::LE,
    }
}

pub open spec fn is_relational(op: BinaryOp) -> bool {
    match op {
        BinaryOp::Equal => true,
        BinaryOp::NotEqual => true,
        BinaryOp::GreaterThan => true,
        BinaryOp::GreaterOrEqual => true,
        BinaryOp::LessThan => true,
        BinaryOp::LessOrEqual => true,
        _ => false,
    }
}

/// The assembly instructions selected for one TACKY instruction.
pub open spec fn sp_convert_instruction(instruction: InstructionV) -> Seq<AssemblyInstructionV> {
    match instruction {
        InstructionV::Return(val) => seq![
            AssemblyInstructionV::Mov(
                sp_convert_operand(val),
                AssemblyOperandV::Reg(AssemblyRegister::AX),
            ),
            AssemblyInstructionV::Ret,
        ],
        InstructionV::Unary(UnaryOp::Not, src, dst) => seq![
            AssemblyInstructionV::Cmp(AssemblyOperandV::Imm(0), sp_convert_operand(src)),
            AssemblyInstructionV::Mov(AssemblyOperandV::Imm(0), sp_convert_operand(dst)),
            AssemblyInstructionV::SetCC(AssemblyCondition::E, sp_convert_operand(dst)),
        ],
        InstructionV::Unary(un_op, src, dst) => seq![
            AssemblyInstructionV::Mov(sp_convert_operand(src), sp_convert_operand(dst)),
            AssemblyInstructionV::Unary(sp_convert_unary_op(un_op), sp_convert_operand(dst)),
        ],
        InstructionV::Binary(BinaryOp::Divide, src1, src2, dst) => seq![
            AssemblyInstructionV::Mov(
                sp_convert_operand(src1),
                AssemblyOperandV::Reg(AssemblyRegister::AX),
            ),
            AssemblyInstructionV::Cdq,
            AssemblyInstructionV::Idiv(sp_convert_operand(src2)),
            AssemblyInstructionV::Mov(
                AssemblyOperandV::Reg(AssemblyRegister::AX),
                sp_convert_operand(dst),
            ),
        ],
        InstructionV::Binary(BinaryOp::Remainder, src1, src2, dst) => seq![
            AssemblyInstructionV::Mov(
                sp_convert_operand(src1),
                AssemblyOperandV::Reg(AssemblyRegister::AX),
            ),
            AssemblyInstructionV::Cdq,
            AssemblyInstructionV::Idiv(sp_convert_operand(src2)),
            AssemblyInstructionV::Mov(
                AssemblyOperandV::Reg(AssemblyRegister::DX),
                sp_convert_operand(dst),
            ),
        ],
        InstructionV::Binary(bin_op, src1, src2, dst) => if is_relational(bin_op) {
            seq![
                AssemblyInstructionV::Cmp(sp_convert_operand(src2), sp_convert_operand(src1)),
                AssemblyInstructionV::Mov(AssemblyOperandV::Imm(0), sp_convert_operand(dst)),
                AssemblyInstructionV::SetCC(sp_condition_of(bin_op), sp_convert_operand(dst)),
            ]
        } else {
            seq![
                AssemblyInstructionV::Mov(sp_convert_operand(src1), sp_convert_operand(dst)),
                AssemblyInstructionV::Binary(
                    sp_convert_binary_op(bin_op),
                    sp_convert_operand(src2),
                    sp_convert_operand(dst),
                ),
            ]
        },
        InstructionV::JumpIfZero(val, target) => seq![
            AssemblyInstructionV::Cmp(AssemblyOperandV::Imm(0), sp_convert_operand(val)),
            AssemblyInstructionV::JmpCC(AssemblyCondition::E, target),
        ],
        InstructionV::JumpIfNotZero(val, target) => seq![
            AssemblyInstructionV::Cmp(AssemblyOperandV::Imm(0), sp_convert_operand(val)),
            AssemblyInstructionV::JmpCC(AssemblyCondition::NE, target),
        ],
        InstructionV::Jump(target) => seq![AssemblyInstructionV::Jmp(target)],
        InstructionV::Copy(src, dst) => seq![
            AssemblyInstructionV::Mov(sp_convert_operand(src), sp_convert_operand(dst)),
        ],
        InstructionV::Label(identifier) => seq![AssemblyInstructionV::Label(identifier)],
    }
}

/// The selection of a whole instruction list, in order.
pub open spec fn sp_convert_instructions(instructions: Seq<InstructionV>) -> Seq<
    AssemblyInstructionV,
>
    decreases instructions.len(),
{
    if instructions.len() == 0 {
        Seq::empty()
    } else {
        sp_convert_instruction(instructions[0]) + sp_convert_instructions(
            instructions.drop_first(),
        )
    }
}

pub open spec fn sp_convert_function(f: FunctionDefinitionV) -> AssemblyFunctionDefinitionV {
    match f {
        FunctionDefinitionV::Function(name, instructions) => AssemblyFunctionDefinitionV::Function(
            name,
            sp_convert_instructions(instructions),
        ),
    }
}

pub open spec fn sp_gen(p: ProgramV) -> AssemblyProgramV {
    match p {
        ProgramV::Program(f) => AssemblyProgramV::Program(sp_convert_function(f)),
    }
}

/// Instruction selection never emits `AllocateStack`; only the legalizer
/// introduces it, after stack allocation.
proof fn lemma_convert_instruction_no_alloc(instruction: InstructionV)
    ensures
        forall|k: int| 0 <= k < sp_convert_instruction(instruction).len() ==> !((
        #[trigger] sp_convert_instruction(instruction)[k]) is AllocateStack),
{
}

pub proof fn lemma_convert_instructions_no_alloc(instructions: Seq<InstructionV>)
    ensures
        crate::replace_pseudos::no_alloc(sp_convert_instructions(instructions)),
    decreases instructions.len(),
{
    if instructions.len() > 0 {
        lemma_convert_instruction_no_alloc(instructions[0]);
        lemma_convert_instructions_no_alloc(instructions.drop_first());
        let head = sp_convert_instruction(instructions[0]);
        let rest = sp_convert_instructions(instructions.drop_first());
        let out = sp_convert_instructions(instructions);
        assert(forall|k: int| head.len() <= k < out.len() ==> out[k] == rest[k - head.len()]);
        assert(forall|k: int| 0 <= k < head.len() ==> out[k] == head[k]);
    }
}

fn convert_operand(operator: &Val) -> (r: AssemblyOperand)
    ensures
        r@ == sp_convert_operand(operator@),
{
    match operator {
        Val::Constant(num) => AssemblyOperand::Imm(*num),
        Val::Var(name) => AssemblyOperand::PseudoReg(name.clone()),
    }
}

fn convert_unary_op(un_op: UnaryOp) -> (r: AssemblyUnaryOp)
    ensures
        r == sp_convert_unary_op(un_op),
{
    match un_op {
        UnaryOp::Complement => AssemblyUnaryOp::Not,
        UnaryOp::Negate => AssemblyUnaryOp::Neg,
        UnaryOp::Not => AssemblyUnaryOp::Not,
    }
}

fn convert_binary_op(bin_op: BinaryOp) -> (r: AssemblyBinaryOp)
    requires
        bin_op == BinaryOp::Add || bin_op == BinaryOp::Subtract || bin_op == BinaryOp::Multiply,
    ensures
        r == sp_convert_binary_op(bin_op),
{
    match bin_op {
        BinaryOp::Add => AssemblyBinaryOp::Add,
        BinaryOp::Subtract => AssemblyBinaryOp::Sub,
        _ => AssemblyBinaryOp::Mult,
    }
}

fn convert_instruction(instruction: Instruction) -> (r: Vec<AssemblyInstruction>)
    ensures
        r.deep_view() == sp_convert_instruction(instruction@),
{
    let ghost iv = instruction@;
    let mut res: Vec<AssemblyInstruction> = Vec::new();
    match instruction {
        Instruction::Return(val) => {
            res.push(
                AssemblyInstruction::Mov(
                    convert_operand(&val),
                    AssemblyOperand::Reg(AssemblyRegister::AX),
                ),
            );
            res.push(AssemblyInstruction::Ret);
            proof {
                assert(res.deep_view() =~= sp_convert_instruction(iv));
            }
        },
        Instruction::Unary(UnaryOp::Not, src, dst) => {
            res.push(
                AssemblyInstruction::Cmp(AssemblyOperand::Imm(0), convert_operand(&src)),
            );
            res.push(
                AssemblyInstruction::Mov(AssemblyOperand::Imm(0), convert_operand(&dst)),
            );
            res.push(AssemblyInstruction::SetCC(AssemblyCondition::E, convert_operand(&dst)));
            proof {
                assert(res.deep_view() =~= sp_convert_instruction(iv));
            }
        },
        Instruction::Unary(un_op, src, dst) => {
            res.push(AssemblyInstruction::Mov(convert_operand(&src), convert_operand(&dst)));
            res.push(AssemblyInstruction::Unary(convert_unary_op(un_op), convert_operand(&dst)));
            proof {
                assert(res.deep_view() =~= sp_convert_instruction(iv));
            }
        },
        Instruction::Binary(BinaryOp::Divide, src1, src2, dst) => {
            res.push(
                AssemblyInstruction::Mov(
                    convert_operand(&src1),
                    AssemblyOperand::Reg(AssemblyRegister::AX),
                ),
            );
            res.push(AssemblyInstruction::Cdq);
            res.push(AssemblyInstruction::Idiv(convert_operand(&src2)));
            res.push(
                AssemblyInstruction::Mov(
                    AssemblyOperand::Reg(AssemblyRegister::AX),
                    convert_operand(&dst),
                ),
            );
            proof {
                assert(res.deep_view() =~= sp_convert_instruction(iv));
            }
        },
        Instruction::Binary(BinaryOp::Remainder, src1, src2, dst) => {
            res.push(
                AssemblyInstruction::Mov(
                    convert_operand(&src1),
                    AssemblyOperand::Reg(AssemblyRegister::AX),
                ),
            );
            res.push(AssemblyInstruction::Cdq);
            res.push(AssemblyInstruction::Idiv(convert_operand(&src2)));
            res.push(
                AssemblyInstruction::Mov(
                    AssemblyOperand::Reg(AssemblyRegister::DX),
                    convert_operand(&dst),
                ),
            );
            proof {
                assert(res.deep_view() =~= sp_convert_instruction(iv));
            }
        },
        Instruction::Binary(bin_op, src1, src2, dst) => {
            let relational = match bin_op {
                BinaryOp::Equal => true,
                BinaryOp::NotEqual => true,
                BinaryOp::GreaterThan => true,
                BinaryOp::GreaterOrEqual => true,
                BinaryOp::LessThan => true,
                BinaryOp::LessOrEqual => true,
                _ => false,
            };
            if relational {
                let condition = match bin_op {
                    BinaryOp::Equal => AssemblyCondition::E,
                    BinaryOp::NotEqual => AssemblyCondition::NE,
                    BinaryOp::GreaterThan => AssemblyCondition::G,
                    BinaryOp::GreaterOrEqual => AssemblyCondition::GE,
                    BinaryOp::LessThan => AssemblyCondition::L,
                    _ => AssemblyCondition::LE,
                };
                res.push(
                    AssemblyInstruction::Cmp(convert_operand(&src2), convert_operand(&src1)),
                );
                res.push(
                    AssemblyInstruction::Mov(AssemblyOperand::Imm(0), convert_operand(&dst)),
                );
                res.push(AssemblyInstruction::SetCC(condition, convert_operand(&dst)));
                proof {
                    assert(res.deep_view() =~= sp_convert_instruction(iv));
                }
            } else {
                res.push(
                    AssemblyInstruction::Mov(convert_operand(&src1), convert_operand(&dst)),
                );
                res.push(
                    AssemblyInstruction::Binary(
                        convert_binary_op(bin_op),
                        convert_operand(&src2),
                        convert_operand(&dst),
                    ),
                );
                proof {
                    assert(res.deep_view() =~= sp_convert_instruction(iv));
                }
            }
        },
        Instruction::JumpIfZero(val, target) => {
            res.push(
                AssemblyInstruction::Cmp(AssemblyOperand::Imm(0), convert_operand(&val)),
            );
            res.push(AssemblyInstruction::JmpCC(AssemblyCondition::E, target));
            proof {
                assert(res.deep_view() =~= sp_convert_instruction(iv));
            }
        },
        Instruction::JumpIfNotZero(val, target) => {
            res.push(
                AssemblyInstruction::Cmp(AssemblyOperand::Imm(0), convert_operand(&val)),
            );
            res.push(AssemblyInstruction::JmpCC(AssemblyCondition::NE, target));
            proof {
                assert(res.deep_view() =~= sp_convert_instruction(iv));
            }
        },
        Instruction::Jump(target) => {
            res.push(AssemblyInstruction::Jmp(target));
            proof {
                assert(res.deep_view() =~= sp_convert_instruction(iv));
            }
        },
        Instruction::Copy(src, dst) => {
            res.push(AssemblyInstruction::Mov(convert_operand(&src), convert_operand(&dst)));
            proof {
                assert(res.deep_view() =~= sp_convert_instruction(iv));
            }
        },
        Instruction::Label(identifier) => {
            res.push(AssemblyInstruction::Label(identifier));
            proof {
                assert(res.deep_view() =~= sp_convert_instruction(iv));
            }
        },
    }
    res
}

fn convert_instructions(instructions: Vec<Instruction>) -> (r: Vec<AssemblyInstruction>)
    ensures
        r.deep_view() == sp_convert_instructions(instructions.deep_view()),
    decreases instructions@.len(),
{
    let mut instructions = instructions;
    if instructions.len() == 0 {
        let res: Vec<AssemblyInstruction> = Vec::new();
        proof {
            assert(res.deep_view() =~= Seq::<AssemblyInstructionV>::empty());
        }
        return res;
    }
    let ghost insv = instructions.deep_view();
    let head = instructions.remove(0);
    proof {
        assert(instructions.deep_view() =~= insv.drop_first());
        assert(head.deep_view() == insv[0]);
    }
    let mut res = convert_instruction(head);
    let ghost headv = res.deep_view();
    let mut rest = convert_instructions(instructions);
    res.append(&mut rest);
    proof {
        assert(res.deep_view() =~= headv + sp_convert_instructions(insv.drop_first()));
    }
    res
}

fn convert_function(function: FunctionDefinition) -> (r: AssemblyFunctionDefinition)
    ensures
        r@ == sp_convert_function(function@),
{
    match function {
        FunctionDefinition::Function(name, instructions) => {
            let res = convert_instructions(instructions);
            AssemblyFunctionDefinition::Function(name, res)
        },
    }
}

/// Select assembly instructions for a whole TACKY program. The output
/// holds no `AllocateStack`, so the stack allocator may run on it.
pub fn gen(program: Program) -> (r: AssemblyProgram)
    ensures
        r@ == sp_gen(program@),
        crate::replace_pseudos::program_no_alloc(r@),
{
    proof {
        match program@ {
            ProgramV::Program(FunctionDefinitionV::Function(_, instructions)) => {
                lemma_convert_instructions_no_alloc(instructions);
            },
        }
    }
    match program {
        Program::Program(function) => AssemblyProgram::Program(convert_function(function)),
    }
}

} // verus!
