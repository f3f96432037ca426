//! Emission of the final assembly text, AT&T syntax.
//!
//! One `.global`/label pair and a fixed prologue and epilogue per
//! function, one line per instruction, and the `.note.GNU-stack` marker
//! at the end. Four-byte register names are used everywhere except for
//! `SetCC` destinations, which take the one-byte aliases. No instruction
//! may reach this stage with a pseudo-register operand.

use vstd::prelude::*;
use vstd::string::*;

use crate::assembly::AssemblyBinaryOp;
use crate::assembly::AssemblyCondition;
use crate::assembly::AssemblyFunctionDefinition;
use crate::assembly::AssemblyFunctionDefinitionV;
use crate::assembly::AssemblyInstruction;
use crate::assembly::AssemblyInstructionV;
use crate::assembly::AssemblyOperand;
use crate::assembly::AssemblyOperandV;
use crate::assembly::AssemblyProgram;
use crate::assembly::AssemblyProgramV;
use crate::assembly::AssemblyRegister;
use crate::assembly::AssemblyUnaryOp;
use crate::decimal::dec_int;
use crate::decimal::i32_to_string;
use crate::replace_pseudos::instruction_no_pseudo;
use crate::replace_pseudos::no_pseudos;
use crate::replace_pseudos::program_no_pseudos;

verus! {

pub open spec fn sp_emit_unary_op(un_op: AssemblyUnaryOp) -> Seq<char> {
    match un_op {
        AssemblyUnaryOp::Neg => "negl"@,
        AssemblyUnaryOp::Not => "notl"@,
    }
}

pub open spec fn sp_emit_binary_op(bin_op: AssemblyBinaryOp) -> Seq<char> {
    match bin_op {
        AssemblyBinaryOp::Add => "addl"@,
        AssemblyBinaryOp::Sub => "subl"@,
        AssemblyBinaryOp::Mult => "imull"@,
    }
}

pub open spec fn sp_emit_condition_code(condition: AssemblyCondition) -> Seq<char> {
    match condition {
        AssemblyCondition::E => "e"@,
        AssemblyCondition::NE => "ne"@,
        AssemblyCondition::L => "l"@,
        AssemblyCondition::LE => "le"@,
        AssemblyCondition::G => "g"@,
        AssemblyCondition::GE => "ge"@,
    }
}

/// The text of an operand, with the four-byte register names.
pub open spec fn sp_emit_operand(operand: AssemblyOperandV) -> Seq<char> {
    match operand {
        AssemblyOperandV::Reg(AssemblyRegister::AX) => "%eax"@,
        AssemblyOperandV::Reg(AssemblyRegister::DX) => "%edx"@,
        AssemblyOperandV::Reg(AssemblyRegister::R10) => "%r10d"@,
        AssemblyOperandV::Reg(AssemblyRegister::R11) => "%r11d"@,
        AssemblyOperandV::Stack(num) => dec_int(num as int) + "(%rbp)"@,
        AssemblyOperandV::Imm(num) => "$"@ + dec_int(num as int),
        AssemblyOperandV::PseudoReg(_) => Seq::empty(),
    }
}

/// The text of an operand, with the one-byte register names used by
/// `SetCC`.
pub open spec fn sp_emit_one_byte_operand(operand: AssemblyOperandV) -> Seq<char> {
    match operand {
        AssemblyOperandV::Reg(AssemblyRegister::AX) => "%al"@,
        AssemblyOperandV::Reg(AssemblyRegister::DX) => "%dl"@,
        AssemblyOperandV::Reg(AssemblyRegister::R10) => "%r10b"@,
        AssemblyOperandV::Reg(AssemblyRegister::R11) => "%r11b"@,
        AssemblyOperandV::Stack(num) => dec_int(num as int) + "(%rbp)"@,
        AssemblyOperandV::Imm(num) => "$"@ + dec_int(num as int),
        AssemblyOperandV::PseudoReg(_) => Seq::empty(),
    }
}

/// The text line (or lines) of one instruction.
pub open spec fn sp_emit_instruction(instruction: AssemblyInstructionV) -> Seq<char> {
    match instruction {
        AssemblyInstructionV::Mov(src, dst) => "\tmovl\t"@ + sp_emit_operand(src) + ", "@
            + sp_emit_operand(dst) + "\n"@,
        AssemblyInstructionV::Ret => "\tmovq\t%rbp, %rsp\n\tpopq\t%rbp\n\tret\n"@,
        AssemblyInstructionV::Unary(un_op, operand) => "\t"@ + sp_emit_unary_op(un_op) + "\t"@
            + sp_emit_operand(operand) + "\n"@,
        AssemblyInstructionV::Binary(bin_op, src, dst) => "\t"@ + sp_emit_binary_op(bin_op)
            + "\t"@ + sp_emit_operand(src) + ", "@ + sp_emit_operand(dst) + "\n"@,
        AssemblyInstructionV::Idiv(operand) => "\tidivl\t"@ + sp_emit_operand(operand) + "\n"@,
        AssemblyInstructionV::Cdq => "\tcdq\n"@,
        AssemblyInstructionV::AllocateStack(num) => "\tsubq\t$"@ + dec_int(num as int)
            + ", %rsp\n"@,
        AssemblyInstructionV::Cmp(operand1, operand2) => "\tcmpl\t"@ + sp_emit_operand(operand1)
            + ", "@ + sp_emit_operand(operand2) + "\n"@,
        AssemblyInstructionV::Jmp(label) => "\tjmp\t.L"@ + label + "\n"@,
        AssemblyInstructionV::JmpCC(condition, label) => "\tj"@ + sp_emit_condition_code(
            condition,
        ) + "\t.L"@ + label + "\n"@,
        AssemblyInstructionV::SetCC(condition, operand) => "\tset"@ + sp_emit_condition_code(
            condition,
        ) + "\t"@ + sp_emit_one_byte_operand(operand) + "\n"@,
        AssemblyInstructionV::Label(label) => ".L"@ + label + ":\n"@,
    }
}

pub open spec fn sp_emit_instructions(instructions: Seq<AssemblyInstructionV>) -> Seq<char>
    decreases instructions.len(),
{
    if instructions.len() == 0 {
        Seq::empty()
    } else {
        sp_emit_instruction(instructions[0]) + sp_emit_instructions(instructions.drop_first())
    }
}

/// The text of a function: directive, label, prologue, instructions.
pub open spec fn sp_emit_function(f: AssemblyFunctionDefinitionV) -> Seq<char> {
    match f {
        AssemblyFunctionDefinitionV::Function(identifier, instructions) => "\t.global "@
            + identifier + "\n"@ + identifier + ":\n"@ + "\tpushq\t%rbp\n"@
            + "\tmovq\t%rsp, %rbp\n"@ + sp_emit_instructions(instructions),
    }
}

/// The whole assembly text, ending with the GNU-stack section marker.
pub open spec fn sp_emit_assembly(p: AssemblyProgramV) -> Seq<char> {
    match p {
        AssemblyProgramV::Program(f) => sp_emit_function(f)
            + "\t.section .note.GNU-stack,\"\",@progbits\n"@,
    }
}

fn emit_unary_op(un_op: AssemblyUnaryOp) -> (s: String)
    ensures
        s@ == sp_emit_unary_op(un_op),
{
    match un_op {
        AssemblyUnaryOp::Neg => String::from_str("negl"),
        AssemblyUnaryOp::Not => String::from_str("notl"),
    }
}

fn emit_binary_op(bin_op: AssemblyBinaryOp) -> (s: String)
    ensures
        s@ == sp_emit_binary_op(bin_op),
{
    match bin_op {
        AssemblyBinaryOp::Add => String::from_str("addl"),
        AssemblyBinaryOp::Sub => String::from_str("subl"),
        AssemblyBinaryOp::Mult => String::from_str("imull"),
    }
}

fn emit_condition_code(condition: AssemblyCondition) -> (s: String)
    ensures
        s@ == sp_emit_condition_code(condition),
{
    match condition {
        AssemblyCondition::E => String::from_str("e"),
        AssemblyCondition::NE => String::from_str("ne"),
        AssemblyCondition::L => String::from_str("l"),
        AssemblyCondition::LE => String::from_str("le"),
        AssemblyCondition::G => String::from_str("g"),
        AssemblyCondition::GE => String::from_str("ge"),
    }
}

fn emit_operand(operand: AssemblyOperand) -> (s: String)
    requires
        !(operand@ is PseudoReg),
    ensures
        s@ == sp_emit_operand(operand@),
{
    match operand {
        AssemblyOperand::Reg(AssemblyRegister::AX) => String::from_str("%eax"),
        AssemblyOperand::Reg(AssemblyRegister::DX) => String::from_str("%edx"),
        AssemblyOperand::Reg(AssemblyRegister::R10) => String::from_str("%r10d"),
        AssemblyOperand::Reg(AssemblyRegister::R11) => String::from_str("%r11d"),
        AssemblyOperand::Stack(num) => i32_to_string(num).concat("(%rbp)"),
        AssemblyOperand::Imm(num) => String::from_str("$").concat(i32_to_string(num).as_str()),
        AssemblyOperand::PseudoReg(_) => String::new(),
    }
}

fn emit_one_byte_operand(operand: AssemblyOperand) -> (s: String)
    requires
        !(operand@ is PseudoReg),
    ensures
        s@ == sp_emit_one_byte_operand(operand@),
{
    match operand {
        AssemblyOperand::Reg(AssemblyRegister::AX) => String::from_str("%al"),
        AssemblyOperand::Reg(AssemblyRegister::DX) => String::from_str("%dl"),
        AssemblyOperand::Reg(AssemblyRegister::R10) => String::from_str("%r10b"),
        AssemblyOperand::Reg(AssemblyRegister::R11) => String::from_str("%r11b"),
        AssemblyOperand::Stack(num) => i32_to_string(num).concat("(%rbp)"),
        AssemblyOperand::Imm(num) => String::from_str("$").concat(i32_to_string(num).as_str()),
        AssemblyOperand::PseudoReg(_) => String::new(),
    }
}

fn emit_instruction(instruction: AssemblyInstruction) -> (s: String)
    requires
        instruction_no_pseudo(instruction@),
    ensures
        s@ == sp_emit_instruction(instruction@),
{
    let ghost iv = instruction@;
    match instruction {
        AssemblyInstruction::Mov(src, dest) => {
            let s = String::from_str("\tmovl\t").concat(emit_operand(src).as_str()).concat(
                ", ",
            ).concat(emit_operand(dest).as_str()).concat("\n");
            proof {
                assert(s@ =~= sp_emit_instruction(iv));
            }
            s
        },
        AssemblyInstruction::Ret => String::from_str("\tmovq\t%rbp, %rsp\n\tpopq\t%rbp\n\tret\n"),
        AssemblyInstruction::Unary(unary_op, operand) => {
            let s = String::from_str("\t").concat(emit_unary_op(unary_op).as_str()).concat(
                "\t",
            ).concat(emit_operand(operand).as_str()).concat("\n");
            proof {
                assert(s@ =~= sp_emit_instruction(iv));
            }
            s
        },
        AssemblyInstruction::Binary(binary_op, src, dst) => {
            let s = String::from_str("\t").concat(emit_binary_op(binary_op).as_str()).concat(
                "\t",
            ).concat(emit_operand(src).as_str()).concat(", ").concat(
                emit_operand(dst).as_str(),
            ).concat("\n");
            proof {
                assert(s@ =~= sp_emit_instruction(iv));
            }
            s
        },
        AssemblyInstruction::Idiv(operand) => {
            let s = String::from_str("\tidivl\t").concat(emit_operand(operand).as_str()).concat(
                "\n",
            );
            proof {
                assert(s@ =~= sp_emit_instruction(iv));
            }
            s
        },
        AssemblyInstruction::Cdq => String::from_str("\tcdq\n"),
        AssemblyInstruction::AllocateStack(num) => {
            let s = String::from_str("\tsubq\t$").concat(i32_to_string(num).as_str()).concat(
                ", %rsp\n",
            );
            proof {
                assert(s@ =~= sp_emit_instruction(iv));
            }
            s
        },
        AssemblyInstruction::Cmp(operand1, operand2) => {
            let s = String::from_str("\tcmpl\t").concat(emit_operand(operand1).as_str()).concat(
                ", ",
            ).concat(emit_operand(operand2).as_str()).concat("\n");
            proof {
                assert(s@ =~= sp_emit_instruction(iv));
            }
            s
        },
        AssemblyInstruction::Jmp(label) => {
            let s = String::from_str("\tjmp\t.L").concat(label.as_str()).concat("\n");
            proof {
                assert(s@ =~= sp_emit_instruction(iv));
            }
            s
        },
        AssemblyInstruction::JmpCC(condition, label) => {
            let s = String::from_str("\tj").concat(emit_condition_code(condition).as_str()).concat(
                "\t.L",
            ).concat(label.as_str()).concat("\n");
            proof {
                assert(s@ =~= sp_emit_instruction(iv));
            }
            s
        },
        AssemblyInstruction::SetCC(condition, operand) => {
            let s = String::from_str("\tset").concat(
                emit_condition_code(condition).as_str(),
            ).concat("\t").concat(emit_one_byte_operand(operand).as_str()).concat("\n");
            proof {
                assert(s@ =~= sp_emit_instruction(iv));
            }
            s
        },
        AssemblyInstruction::Label(label) => {
            let s = String::from_str(".L").concat(label.as_str()).concat(":\n");
            proof {
                assert(s@ =~= sp_emit_instruction(iv));
            }
            s
        },
    }
}

fn emit_instructions(instructions: Vec<AssemblyInstruction>) -> (s: String)
    requires
        no_pseudos(instructions.deep_view()),
    ensures
        s@ == sp_emit_instructions(instructions.deep_view()),
    decreases instructions@.len(),
{
    let mut instructions = instructions;
    if instructions.len() == 0 {
        let s = String::new();
        proof {
            assert(s@ =~= Seq::<char>::empty());
        }
        return s;
    }
    let ghost insv = instructions.deep_view();
    let head = instructions.remove(0);
    proof {
        assert(instructions.deep_view() =~= insv.drop_first());
        assert(head.deep_view() == insv[0]);
        assert(forall|k: int| 0 <= k < insv.drop_first().len() ==> instruction_no_pseudo(
            #[trigger] insv.drop_first()[k],
        ));
    }
    let head_text = emit_instruction(head);
    let rest_text = emit_instructions(instructions);
    let s = head_text.concat(rest_text.as_str());
    proof {
        assert(s@ =~= sp_emit_instruction(insv[0]) + sp_emit_instructions(insv.drop_first()));
    }
    s
}

fn emit_function(function: AssemblyFunctionDefinition) -> (s: String)
    requires
        ({
            match function@ {
                AssemblyFunctionDefinitionV::Function(_, instructions) => no_pseudos(
                    instructions,
                ),
            }
        }),
    ensures
        s@ == sp_emit_function(function@),
{
    let ghost fv = function@;
    match function {
        AssemblyFunctionDefinition::Function(identifier, instructions) => {
            let mut result = String::from_str("\t.global ");
            result.append(identifier.as_str());
            result.append("\n");
            result.append(identifier.as_str());
            result.append(":\n");
            result.append("\tpushq\t%rbp\n");
            result.append("\tmovq\t%rsp, %rbp\n");
            let body = emit_instructions(instructions);
            result.append(body.as_str());
            proof {
                assert(result@ =~= sp_emit_function(fv));
            }
            result
        },
    }
}

/// The assembly text of a whole program. Every pseudo-register must have
/// been replaced by the stack allocator before this stage.
pub fn emit_assembly(program: AssemblyProgram) -> (s: String)
    requires
        program_no_pseudos(program@),
    ensures
        s@ == sp_emit_assembly(program@),
{
    let ghost pv = program@;
    match program {
        AssemblyProgram::Program(function) => {
            let mut result = emit_function(function);
            result.append("\t.section .note.GNU-stack,\"\",@progbits\n");
            proof {
                assert(result@ =~= sp_emit_assembly(pv));
            }
            result
        },
    }
}

} // verus!
