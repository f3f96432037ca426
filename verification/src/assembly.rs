//! The assembly IR: x86-64 instructions over abstract operands.
//!
//! `PseudoReg` operands exist only between instruction selection and
//! stack-slot allocation; afterwards every operand is an immediate, a
//! register or a concrete stack slot.

use vstd::prelude::*;

verus! {

#[derive(Debug, Clone, Copy, PartialEq, Eq, Structural)]
pub enum AssemblyUnaryOp {
    Neg,
    Not,
}

#[derive(Debug, Clone, Copy, PartialEq, Eq, Structural)]
pub enum AssemblyBinaryOp {
    Add,
    Sub,
    Mult,
}

#[derive(Debug, Clone, Copy, PartialEq, Eq, Structural)]
pub enum AssemblyCondition {
    E,
    NE,
    G,
    GE,
    L,
    LE,
}

#[derive(Debug, Clone, Copy, PartialEq, Eq, Structural)]
pub enum AssemblyRegister {
    AX,
    DX,
    R10,
    R11,
}

/// Mathematical value of an operand.
pub enum AssemblyOperandV {
    Imm(i32),
    Reg(AssemblyRegister),
    PseudoReg(Seq<char>),
    Stack(i32),
}

/// Mathematical value of an instruction.
pub enum AssemblyInstructionV {
    Mov(AssemblyOperandV, AssemblyOperandV),
    Unary(AssemblyUnaryOp, AssemblyOperandV),
    Binary(AssemblyBinaryOp, AssemblyOperandV, AssemblyOperandV),
    Cmp(AssemblyOperandV, AssemblyOperandV),
    Idiv(AssemblyOperandV),
    Cdq,
    Jmp(Seq<char>),
    JmpCC(AssemblyCondition, Seq<char>),
    SetCC(AssemblyCondition, AssemblyOperandV),
    Label(Seq<char>),
    AllocateStack(i32),
    Ret,
}

pub enum AssemblyFunctionDefinitionV {
    Function(Seq<char>, Seq<AssemblyInstructionV>),
}

pub enum AssemblyProgramV {
    Program(AssemblyFunctionDefinitionV),
}

#[derive(Debug)]
pub enum AssemblyOperand {
    Imm(i32),
    Reg(AssemblyRegister),
    PseudoReg(String),
    Stack(i32),
}

#[derive(Debug)]
pub enum AssemblyInstruction {
    Mov(AssemblyOperand, AssemblyOperand),
    Unary(AssemblyUnaryOp, AssemblyOperand),
    Binary(AssemblyBinaryOp, AssemblyOperand, AssemblyOperand),
    Cmp(AssemblyOperand, AssemblyOperand),
    Idiv(AssemblyOperand),
    Cdq,
    Jmp(String),
    JmpCC(AssemblyCondition, String),
    SetCC(AssemblyCondition, AssemblyOperand),
    Label(String),
    AllocateStack(i32),
    Ret,
}

#[derive(Debug)]
pub enum AssemblyFunctionDefinition {
    Function(String, Vec<AssemblyInstruction>),
}

#[derive(Debug)]
pub enum AssemblyProgram {
    Program(AssemblyFunctionDefinition),
}

impl View for AssemblyOperand {
    type V = AssemblyOperandV;

    open spec fn view(&self) -> AssemblyOperandV {
        match self {
            AssemblyOperand::Imm(n) => AssemblyOperandV::Imm(*n),
            AssemblyOperand::Reg(r) => AssemblyOperandV::Reg(*r),
            AssemblyOperand::PseudoReg(name) => AssemblyOperandV::PseudoReg(name@),
            AssemblyOperand::Stack(off) => AssemblyOperandV::Stack(*off),
        }
    }
}

impl DeepView for AssemblyOperand {
    type V = AssemblyOperandV;

    open spec fn deep_view(&self) -> AssemblyOperandV {
        self.view()
    }
}

impl View for AssemblyInstruction {
    type V = AssemblyInstructionV;

    open spec fn view(&self) -> AssemblyInstructionV {
        match self {
            AssemblyInstruction::Mov(src, dst) => AssemblyInstructionV::Mov(src.view(), dst.view()),
            AssemblyInstruction::Unary(op, dst) => AssemblyInstructionV::Unary(*op, dst.view()),
            AssemblyInstruction::Binary(op, src, dst) => AssemblyInstructionV::Binary(
                *op,
                src.view(),
                dst.view(),
            ),
            AssemblyInstruction::Cmp(a, b) => AssemblyInstructionV::Cmp(a.view(), b.view()),
            AssemblyInstruction::Idiv(src) => AssemblyInstructionV::Idiv(src.view()),
            AssemblyInstruction::Cdq => AssemblyInstructionV::Cdq,
            AssemblyInstruction::Jmp(target) => AssemblyInstructionV::Jmp(target@),
            AssemblyInstruction::JmpCC(cc, target) => AssemblyInstructionV::JmpCC(*cc, target@),
            AssemblyInstruction::SetCC(cc, dst) => AssemblyInstructionV::SetCC(*cc, dst.view()),
            AssemblyInstruction::Label(name) => AssemblyInstructionV::Label(name@),
            AssemblyInstruction::AllocateStack(n) => AssemblyInstructionV::AllocateStack(*n),
            AssemblyInstruction::Ret => AssemblyInstructionV::Ret,
        }
    }
}

impl DeepView for AssemblyInstruction {
    type V = AssemblyInstructionV;

    open spec fn deep_view(&self) -> AssemblyInstructionV {
        self.view()
    }
}

impl View for AssemblyFunctionDefinition {
    type V = AssemblyFunctionDefinitionV;

    open spec fn view(&self) -> AssemblyFunctionDefinitionV {
        match self {
            AssemblyFunctionDefinition::Function(name, instructions) =>
                AssemblyFunctionDefinitionV::Function(name@, instructions.deep_view()),
        }
    }
}

impl DeepView for AssemblyFunctionDefinition {
    type V = AssemblyFunctionDefinitionV;

    open spec fn deep_view(&self) -> AssemblyFunctionDefinitionV {
        self.view()
    }
}

impl View for AssemblyProgram {
    type V = AssemblyProgramV;

    open spec fn view(&self) -> AssemblyProgramV {
        match self {
            AssemblyProgram::Program(f) => AssemblyProgramV::Program(f.view()),
        }
    }
}

impl DeepView for AssemblyProgram {
    type V = AssemblyProgramV;

    open spec fn deep_view(&self) -> AssemblyProgramV {
        self.view()
    }
}

fn operand_eq(a: &AssemblyOperand, b: &AssemblyOperand) -> (r: bool)
    ensures
        r == (a@ == b@),
{
    match (a, b) {
        (AssemblyOperand::Imm(x), AssemblyOperand::Imm(y)) => *x == *y,
        (AssemblyOperand::Reg(x), AssemblyOperand::Reg(y)) => *x == *y,
        (AssemblyOperand::PseudoReg(x), AssemblyOperand::PseudoReg(y)) => x.eq(y),
        (AssemblyOperand::Stack(x), AssemblyOperand::Stack(y)) => *x == *y,
        _ => false,
    }
}

impl PartialEq for AssemblyOperand {
    fn eq(&self, other: &AssemblyOperand) -> (r: bool) {
        operand_eq(self, other)
    }
}

impl vstd::std_specs::cmp::PartialEqSpecImpl for AssemblyOperand {
    open spec fn obeys_eq_spec() -> bool {
        true
    }

    open spec fn eq_spec(&self, other: &AssemblyOperand) -> bool {
        self@ == other@
    }
}

impl PartialEq for AssemblyInstruction {
    fn eq(&self, other: &AssemblyInstruction) -> (r: bool) {
        match (self, other) {
            (AssemblyInstruction::Mov(s1, d1), AssemblyInstruction::Mov(s2, d2)) => operand_eq(
                s1,
                s2,
            ) && operand_eq(d1, d2),
            (AssemblyInstruction::Unary(o1, d1), AssemblyInstruction::Unary(o2, d2)) => *o1 == *o2
                && operand_eq(d1, d2),
            (
                AssemblyInstruction::Binary(o1, s1, d1),
                AssemblyInstruction::Binary(o2, s2, d2),
            ) => *o1 == *o2 && operand_eq(s1, s2) && operand_eq(d1, d2),
            (AssemblyInstruction::Cmp(a1, b1), AssemblyInstruction::Cmp(a2, b2)) => operand_eq(
                a1,
                a2,
            ) && operand_eq(b1, b2),
            (AssemblyInstruction::Idiv(s1), AssemblyInstruction::Idiv(s2)) => operand_eq(s1, s2),
            (AssemblyInstruction::Cdq, AssemblyInstruction::Cdq) => true,
            (AssemblyInstruction::Jmp(t1), AssemblyInstruction::Jmp(t2)) => t1.eq(t2),
            (AssemblyInstruction::JmpCC(c1, t1), AssemblyInstruction::JmpCC(c2, t2)) => *c1 == *c2
                && t1.eq(t2),
            (AssemblyInstruction::SetCC(c1, d1), AssemblyInstruction::SetCC(c2, d2)) => *c1 == *c2
                && operand_eq(d1, d2),
            (AssemblyInstruction::Label(n1), AssemblyInstruction::Label(n2)) => n1.eq(n2),
            (
                AssemblyInstruction::AllocateStack(n1),
                AssemblyInstruction::AllocateStack(n2),
            ) => *n1 == *n2,
            (AssemblyInstruction::Ret, AssemblyInstruction::Ret) => true,
            _ => false,
        }
    }
}

impl vstd::std_specs::cmp::PartialEqSpecImpl for AssemblyInstruction {
    open spec fn obeys_eq_spec() -> bool {
        true
    }

    open spec fn eq_spec(&self, other: &AssemblyInstruction) -> bool {
        self@ == other@
    }
}

impl PartialEq for AssemblyFunctionDefinition {
    fn eq(&self, other: &AssemblyFunctionDefinition) -> (r: bool) {
        match (self, other) {
            (
                AssemblyFunctionDefinition::Function(n1, b1),
                AssemblyFunctionDefinition::Function(n2, b2),
            ) => {
                if !n1.eq(n2) {
                    return false;
                }
                if b1.len() != b2.len() {
                    proof {
                        assert(b1.deep_view().len() != b2.deep_view().len());
                    }
                    return false;
                }
                let mut k: usize = 0;
                while k < b1.len()
                    invariant
                        k <= b1.len(),
                        b1.deep_view().len() == b1@.len(),
                        b2.deep_view().len() == b2@.len(),
                        b1@.len() == b2@.len(),
                        n1@ == n2@,
                        self == AssemblyFunctionDefinition::Function(*n1, *b1),
                        other == AssemblyFunctionDefinition::Function(*n2, *b2),
                        forall|m: int| 0 <= m < k ==> b1.deep_view()[m] == b2.deep_view()[m],
                    decreases b1@.len() - k,
                {
                    if !b1[k].eq(&b2[k]) {
                        proof {
                            assert(b1.deep_view()[k as int] == b1@[k as int].deep_view());
                            assert(b2.deep_view()[k as int] == b2@[k as int].deep_view());
                        }
                        return false;
                    }
                    k = k + 1;
                }
                proof {
                    assert(b1.deep_view() =~= b2.deep_view());
                }
                true
            },
        }
    }
}

impl vstd::std_specs::cmp::PartialEqSpecImpl for AssemblyFunctionDefinition {
    open spec fn obeys_eq_spec() -> bool {
        true
    }

    open spec fn eq_spec(&self, other: &AssemblyFunctionDefinition) -> bool {
        self@ == other@
    }
}

impl PartialEq for AssemblyProgram {
    fn eq(&self, other: &AssemblyProgram) -> (r: bool) {
        match (self, other) {
            (AssemblyProgram::Program(a), AssemblyProgram::Program(b)) => a.eq(b),
        }
    }
}

impl vstd::std_specs::cmp::PartialEqSpecImpl for AssemblyProgram {
    open spec fn obeys_eq_spec() -> bool {
        true
    }

    open spec fn eq_spec(&self, other: &AssemblyProgram) -> bool {
        self@ == other@
    }
}

} // verus!
