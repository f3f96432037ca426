//! Three-address code(TAC)-KY makes it fancier.
//!
//! TACKY ASDL definition:
//! ```text
//! program = Program(function_definition)
//! function_definition = Function(identifier, instruction* body)
//! instruction = Return(val)
//!  | Unary(unary_operator, val src, val dst)
//!  | Binary(binary_operator, val src1, val src2, val dst)
//!  | Copy(val src, val dst)
//!  | Jump(identifier target)
//!  | JumpIfZero(val condition, identifier target)
//!  | JumpIfNotZero(val condition, identifier target)
//!  | Label(identifier)
//! val = Constant(int) | Var(identifier)
//! ```
//! Every destination operand is a `Var`.

use vstd::prelude::*;

verus! {

#[derive(Debug, Clone, Copy, PartialEq, Eq, Structural)]
pub enum UnaryOp {
    Complement,
    Negate,
    Not,
}

#[derive(Debug, Clone, Copy, PartialEq, Eq, Structural)]
pub enum BinaryOp {
    Add,
    Subtract,
    Multiply,
    Divide,
    Remainder,
    Equal,
    NotEqual,
    LessThan,
    LessOrEqual,
    GreaterThan,
    GreaterOrEqual,
}

/// Mathematical value of a `Val`.
pub enum ValV {
    Constant(i32),
    Var(Seq<char>),
}

/// Mathematical value of an `Instruction`.
pub enum InstructionV {
    Return(ValV),
    Unary(UnaryOp, ValV, ValV),
    Binary(BinaryOp, ValV, ValV, ValV),
    Copy(ValV, ValV),
    Jump(Seq<char>),
    JumpIfZero(ValV, Seq<char>),
    JumpIfNotZero(ValV, Seq<char>),
    Label(Seq<char>),
}

pub enum FunctionDefinitionV {
    Function(Seq<char>, Seq<InstructionV>),
}

pub enum ProgramV {
    Program(FunctionDefinitionV),
}

/// `val = Constant(int) | Var(identifier)`
#[derive(Debug, Clone)]
pub enum Val {
    Constant(i32),
    Var(String),
}

/// One TACKY instruction; `dst` operands are always `Val::Var`.
#[derive(Debug, Clone)]
pub enum Instruction {
    Return(Val),
    Unary(UnaryOp, Val, Val),
    Binary(BinaryOp, Val, Val, Val),
    Copy(Val, Val),
    Jump(String),
    JumpIfZero(Val, String),
    JumpIfNotZero(Val, String),
    Label(String),
}

/// `function_definition = Function(identifier, instruction* body)`
#[derive(Debug, Clone)]
pub enum FunctionDefinition {
    Function(String, Vec<Instruction>),
}

/// `program = Program(function_definition)`
#[derive(Debug, Clone)]
pub enum Program {
    Program(FunctionDefinition),
}

impl View for Val {
    type V = ValV;

    open spec fn view(&self) -> ValV {
        match self {
            Val::Constant(n) => ValV::Constant(*n),
            Val::Var(name) => ValV::Var(name@),
        }
    }
}

impl DeepView for Val {
    type V = ValV;

    open spec fn deep_view(&self) -> ValV {
        self.view()
    }
}

impl View for Instruction {
    type V = InstructionV;

    open spec fn view(&self) -> InstructionV {
        match self {
            Instruction::Return(v) => InstructionV::Return(v.view()),
            Instruction::Unary(op, src, dst) => InstructionV::Unary(*op, src.view(), dst.view()),
            Instruction::Binary(op, s1, s2, dst) => InstructionV::Binary(
                *op,
                s1.view(),
                s2.view(),
                dst.view(),
            ),
            Instruction::Copy(src, dst) => InstructionV::Copy(src.view(), dst.view()),
            Instruction::Jump(target) => InstructionV::Jump(target@),
            Instruction::JumpIfZero(v, target) => InstructionV::JumpIfZero(v.view(), target@),
            Instruction::JumpIfNotZero(v, target) => InstructionV::JumpIfNotZero(
                v.view(),
                target@,
            ),
            Instruction::Label(name) => InstructionV::Label(name@),
        }
    }
}

impl DeepView for Instruction {
    type V = InstructionV;

    open spec fn deep_view(&self) -> InstructionV {
        self.view()
    }
}

impl View for FunctionDefinition {
    type V = FunctionDefinitionV;

    open spec fn view(&self) -> FunctionDefinitionV {
        match self {
            FunctionDefinition::Function(name, instructions) => FunctionDefinitionV::Function(
                name@,
                instructions.deep_view(),
            ),
        }
    }
}

impl DeepView for FunctionDefinition {
    type V = FunctionDefinitionV;

    open spec fn deep_view(&self) -> FunctionDefinitionV {
        self.view()
    }
}

impl View for Program {
    type V = ProgramV;

    open spec fn view(&self) -> ProgramV {
        match self {
            Program::Program(f) => ProgramV::Program(f.view()),
        }
    }
}

impl DeepView for Program {
    type V = ProgramV;

    open spec fn deep_view(&self) -> ProgramV {
        self.view()
    }
}

fn val_eq(a: &Val, b: &Val) -> (r: bool)
    ensures
        r == (a@ == b@),
{
    match (a, b) {
        (Val::Constant(x), Val::Constant(y)) => *x == *y,
        (Val::Var(x), Val::Var(y)) => x.eq(y),
        _ => false,
    }
}

impl PartialEq for Val {
    fn eq(&self, other: &Val) -> (r: bool) {
        val_eq(self, other)
    }
}

impl vstd::std_specs::cmp::PartialEqSpecImpl for Val {
    open spec fn obeys_eq_spec() -> bool {
        true
    }

    open spec fn eq_spec(&self, other: &Val) -> bool {
        self@ == other@
    }
}

impl PartialEq for Instruction {
    fn eq(&self, other: &Instruction) -> (r: bool) {
        match (self, other) {
            (Instruction::Return(a), Instruction::Return(b)) => val_eq(a, b),
            (Instruction::Unary(o1, s1, d1), Instruction::Unary(o2, s2, d2)) => *o1 == *o2
                && val_eq(s1, s2) && val_eq(d1, d2),
            (
                Instruction::Binary(o1, a1, b1, d1),
                Instruction::Binary(o2, a2, b2, d2),
            ) => *o1 == *o2 && val_eq(a1, a2) && val_eq(b1, b2) && val_eq(d1, d2),
            (Instruction::Copy(s1, d1), Instruction::Copy(s2, d2)) => val_eq(s1, s2) && val_eq(
                d1,
                d2,
            ),
            (Instruction::Jump(t1), Instruction::Jump(t2)) => t1.eq(t2),
            (Instruction::JumpIfZero(v1, t1), Instruction::JumpIfZero(v2, t2)) => val_eq(v1, v2)
                && t1.eq(t2),
            (
                Instruction::JumpIfNotZero(v1, t1),
                Instruction::JumpIfNotZero(v2, t2),
            ) => val_eq(v1, v2) && t1.eq(t2),
            (Instruction::Label(n1), Instruction::Label(n2)) => n1.eq(n2),
            _ => false,
        }
    }
}

impl vstd::std_specs::cmp::PartialEqSpecImpl for Instruction {
    open spec fn obeys_eq_spec() -> bool {
        true
    }

    open spec fn eq_spec(&self, other: &Instruction) -> bool {
        self@ == other@
    }
}

impl PartialEq for FunctionDefinition {
    fn eq(&self, other: &FunctionDefinition) -> (r: bool) {
        match (self, other) {
            (
                FunctionDefinition::Function(n1, b1),
                FunctionDefinition::Function(n2, b2),
            ) => {
                if !n1.eq(n2) {
                    return false;
                }
                if b1.len() != b2.len() {
                    proof {
                        assert(b1.deep_view().len() != b2.deep_view().len());
                    }
                    return false;
                }
                let mut k: usize = 0;
                while k < b1.len()
                    invariant
                        k <= b1.len(),
                        b1.deep_view().len() == b1@.len(),
                        b2.deep_view().len() == b2@.len(),
                        b1@.len() == b2@.len(),
                        n1@ == n2@,
                        self == FunctionDefinition::Function(*n1, *b1),
                        other == FunctionDefinition::Function(*n2, *b2),
                        forall|m: int| 0 <= m < k ==> b1.deep_view()[m] == b2.deep_view()[m],
                    decreases b1@.len() - k,
                {
                    if !b1[k].eq(&b2[k]) {
                        proof {
                            assert(b1.deep_view()[k as int] == b1@[k as int].deep_view());
                            assert(b2.deep_view()[k as int] == b2@[k as int].deep_view());
                        }
                        return false;
                    }
                    k = k + 1;
                }
                proof {
                    assert(b1.deep_view() =~= b2.deep_view());
                }
                true
            },
        }
    }
}

impl vstd::std_specs::cmp::PartialEqSpecImpl for FunctionDefinition {
    open spec fn obeys_eq_spec() -> bool {
        true
    }

    open spec fn eq_spec(&self, other: &FunctionDefinition) -> bool {
        self@ == other@
    }
}

impl PartialEq for Program {
    fn eq(&self, other: &Program) -> (r: bool) {
        match (self, other) {
            (Program::Program(a), Program::Program(b)) => a.eq(b),
        }
    }
}

impl vstd::std_specs::cmp::PartialEqSpecImpl for Program {
    open spec fn obeys_eq_spec() -> bool {
        true
    }

    open spec fn eq_spec(&self, other: &Program) -> bool {
        self@ == other@
    }
}

} // verus!
