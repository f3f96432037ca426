//! Abstract syntax tree for the C subset.
//!
//! ASDL definition:
//! ```text
//! <program> ::= <function>
//! <function> ::= "int" <identifier> "(" "void" ")" "{" <block-item>* "}"
//! <block-item> ::= <statement> | <declaration>
//! <declaration> ::= "int" <identifier> [ "=" <exp> ] ";"
//! <statement> ::= "return" <exp> ";" | <exp> ";" | ";"
//! <exp> ::= <factor> | <exp> <binop> <exp> | <exp> "=" <exp>
//! <factor> ::= <int> | <identifier> | <unop> <factor> | "(" <exp> ")"
//! ```

use vstd::prelude::*;

verus! {

#[derive(Debug, Clone, Copy, PartialEq, Eq, Structural)]
pub enum AstUnaryOp {
    Complement,
    Negate,
    Not,
}

#[derive(Debug, Clone, Copy, PartialEq, Eq, Structural)]
pub enum AstBinaryOp {
    Add,
    Subtract,
    Multiply,
    Divide,
    Remainder,
    And,
    Or,
    Equal,
    NotEqual,
    LessThan,
    LessOrEqual,
    GreaterThan,
    GreaterOrEqual,
}

/// Mathematical value of an expression: identifiers are modelled by
/// their character sequences.
pub enum AstExpressionV {
    Constant(i32),
    Var(Seq<char>),
    Unary(AstUnaryOp, Box<AstExpressionV>),
    Binary(AstBinaryOp, Box<AstExpressionV>, Box<AstExpressionV>),
    Assignment(Box<AstExpressionV>, Box<AstExpressionV>),
}

pub enum AstStatementV {
    Return(AstExpressionV),
    Expression(AstExpressionV),
    Null,
}

pub enum AstDeclarationV {
    Declaration(Seq<char>, Option<AstExpressionV>),
}

pub enum AstBlockItemV {
    Statement(AstStatementV),
    Declaration(AstDeclarationV),
}

pub enum AstFunctionDefinitionV {
    Function(Seq<char>, Seq<AstBlockItemV>),
}

pub enum AstProgramV {
    Program(AstFunctionDefinitionV),
}

#[derive(Debug)]
pub enum AstExpression {
    Constant(i32),
    Var(String),
    Unary(AstUnaryOp, Box<AstExpression>),
    Binary(AstBinaryOp, Box<AstExpression>, Box<AstExpression>),
    Assignment(Box<AstExpression>, Box<AstExpression>),
}

#[derive(Debug)]
pub enum AstStatement {
    Return(AstExpression),
    Expression(AstExpression),
    Null,
}

#[derive(Debug)]
pub enum AstDeclaration {
    Declaration(String, Option<AstExpression>),
}

#[derive(Debug)]
pub enum AstBlockItem {
    Statement(AstStatement),
    Declaration(AstDeclaration),
}

#[derive(Debug)]
pub enum AstFunctionDefinition {
    Function(String, Vec<AstBlockItem>),
}

#[derive(Debug)]
pub enum AstProgram {
    Program(AstFunctionDefinition),
}

impl View for AstExpression {
    type V = AstExpressionV;

    open spec fn view(&self) -> AstExpressionV
        decreases self,
    {
        match self {
            AstExpression::Constant(n) => AstExpressionV::Constant(*n),
            AstExpression::Var(name) => AstExpressionV::Var(name@),
            AstExpression::Unary(op, e) => AstExpressionV::Unary(*op, Box::new((**e).view())),
            AstExpression::Binary(op, l, r) => AstExpressionV::Binary(
                *op,
                Box::new((**l).view()),
                Box::new((**r).view()),
            ),
            AstExpression::Assignment(l, r) => AstExpressionV::Assignment(
                Box::new((**l).view()),
                Box::new((**r).view()),
            ),
        }
    }
}

impl DeepView for AstExpression {
    type V = AstExpressionV;

    open spec fn deep_view(&self) -> AstExpressionV {
        self.view()
    }
}

impl View for AstStatement {
    type V = AstStatementV;

    open spec fn view(&self) -> AstStatementV {
        match self {
            AstStatement::Return(e) => AstStatementV::Return(e.view()),
            AstStatement::Expression(e) => AstStatementV::Expression(e.view()),
            AstStatement::Null => AstStatementV::Null,
        }
    }
}

impl DeepView for AstStatement {
    type V = AstStatementV;

    open spec fn deep_view(&self) -> AstStatementV {
        self.view()
    }
}

impl View for AstDeclaration {
    type V = AstDeclarationV;

    open spec fn view(&self) -> AstDeclarationV {
        match self {
            AstDeclaration::Declaration(name, init) => AstDeclarationV::Declaration(
                name@,
                init.deep_view(),
            ),
        }
    }
}

impl DeepView for AstDeclaration {
    type V = AstDeclarationV;

    open spec fn deep_view(&self) -> AstDeclarationV {
        self.view()
    }
}

impl View for AstBlockItem {
    type V = AstBlockItemV;

    open spec fn view(&self) -> AstBlockItemV {
        match self {
            AstBlockItem::Statement(s) => AstBlockItemV::Statement(s.view()),
            AstBlockItem::Declaration(d) => AstBlockItemV::Declaration(d.view()),
        }
    }
}

impl DeepView for AstBlockItem {
    type V = AstBlockItemV;

    open spec fn deep_view(&self) -> AstBlockItemV {
        self.view()
    }
}

impl View for AstFunctionDefinition {
    type V = AstFunctionDefinitionV;

    open spec fn view(&self) -> AstFunctionDefinitionV {
        match self {
            AstFunctionDefinition::Function(name, body) => AstFunctionDefinitionV::Function(
                name@,
                body.deep_view(),
            ),
        }
    }
}

impl DeepView for AstFunctionDefinition {
    type V = AstFunctionDefinitionV;

    open spec fn deep_view(&self) -> AstFunctionDefinitionV {
        self.view()
    }
}

impl View for AstProgram {
    type V = AstProgramV;

    open spec fn view(&self) -> AstProgramV {
        match self {
            AstProgram::Program(f) => AstProgramV::Program(f.view()),
        }
    }
}

impl DeepView for AstProgram {
    type V = AstProgramV;

    open spec fn deep_view(&self) -> AstProgramV {
        self.view()
    }
}

fn ast_expression_eq(a: &AstExpression, b: &AstExpression) -> (r: bool)
    ensures
        r == (a@ == b@),
    decreases a,
{
    match (a, b) {
        (AstExpression::Constant(x), AstExpression::Constant(y)) => *x == *y,
        (AstExpression::Var(x), AstExpression::Var(y)) => x.eq(y),
        (AstExpression::Unary(o1, e1), AstExpression::Unary(o2, e2)) => *o1 == *o2
            && ast_expression_eq(&**e1, &**e2),
        (AstExpression::Binary(o1, l1, r1), AstExpression::Binary(o2, l2, r2)) => *o1 == *o2
            && ast_expression_eq(&**l1, &**l2) && ast_expression_eq(&**r1, &**r2),
        (AstExpression::Assignment(l1, r1), AstExpression::Assignment(l2, r2)) => {
            ast_expression_eq(&**l1, &**l2) && ast_expression_eq(&**r1, &**r2)
        },
        _ => false,
    }
}

impl PartialEq for AstExpression {
    fn eq(&self, other: &AstExpression) -> (r: bool) {
        ast_expression_eq(self, other)
    }
}

impl vstd::std_specs::cmp::PartialEqSpecImpl for AstExpression {
    open spec fn obeys_eq_spec() -> bool {
        true
    }

    open spec fn eq_spec(&self, other: &AstExpression) -> bool {
        self@ == other@
    }
}

impl PartialEq for AstStatement {
    fn eq(&self, other: &AstStatement) -> (r: bool) {
        match (self, other) {
            (AstStatement::Return(a), AstStatement::Return(b)) => ast_expression_eq(a, b),
            (AstStatement::Expression(a), AstStatement::Expression(b)) => ast_expression_eq(a, b),
            (AstStatement::Null, AstStatement::Null) => true,
            _ => false,
        }
    }
}

impl vstd::std_specs::cmp::PartialEqSpecImpl for AstStatement {
    open spec fn obeys_eq_spec() -> bool {
        true
    }

    open spec fn eq_spec(&self, other: &AstStatement) -> bool {
        self@ == other@
    }
}

impl PartialEq for AstDeclaration {
    fn eq(&self, other: &AstDeclaration) -> (r: bool) {
        match (self, other) {
            (
                AstDeclaration::Declaration(n1, i1),
                AstDeclaration::Declaration(n2, i2),
            ) => n1.eq(n2) && match (i1, i2) {
                (Some(e1), Some(e2)) => ast_expression_eq(e1, e2),
                (None, None) => true,
                _ => false,
            },
        }
    }
}

impl vstd::std_specs::cmp::PartialEqSpecImpl for AstDeclaration {
    open spec fn obeys_eq_spec() -> bool {
        true
    }

    open spec fn eq_spec(&self, other: &AstDeclaration) -> bool {
        self@ == other@
    }
}

impl PartialEq for AstBlockItem {
    fn eq(&self, other: &AstBlockItem) -> (r: bool) {
        match (self, other) {
            (AstBlockItem::Statement(a), AstBlockItem::Statement(b)) => a.eq(b),
            (AstBlockItem::Declaration(a), AstBlockItem::Declaration(b)) => a.eq(b),
            _ => false,
        }
    }
}

impl vstd::std_specs::cmp::PartialEqSpecImpl for AstBlockItem {
    open spec fn obeys_eq_spec() -> bool {
        true
    }

    open spec fn eq_spec(&self, other: &AstBlockItem) -> bool {
        self@ == other@
    }
}

impl PartialEq for AstFunctionDefinition {
    fn eq(&self, other: &AstFunctionDefinition) -> (r: bool) {
        match (self, other) {
            (
                AstFunctionDefinition::Function(n1, b1),
                AstFunctionDefinition::Function(n2, b2),
            ) => {
                if !n1.eq(n2) {
                    return false;
                }
                if b1.len() != b2.len() {
                    proof {
                        assert(b1.deep_view().len() != b2.deep_view().len());
                    }
                    return false;
                }
                let mut k: usize = 0;
                while k < b1.len()
                    invariant
                        k <= b1.len(),
                        b1.deep_view().len() == b1@.len(),
                        b2.deep_view().len() == b2@.len(),
                        b1@.len() == b2@.len(),
                        n1@ == n2@,
                        self == AstFunctionDefinition::Function(*n1, *b1),
                        other == AstFunctionDefinition::Function(*n2, *b2),
                        forall|m: int| 0 <= m < k ==> b1.deep_view()[m] == b2.deep_view()[m],
                    decreases b1@.len() - k,
                {
                    if !b1[k].eq(&b2[k]) {
                        proof {
                            assert(b1.deep_view()[k as int] == b1@[k as int].deep_view());
                            assert(b2.deep_view()[k as int] == b2@[k as int].deep_view());
                        }
                        return false;
                    }
                    k = k + 1;
                }
                proof {
                    assert(b1.deep_view() =~= b2.deep_view());
                }
                true
            },
        }
    }
}

impl vstd::std_specs::cmp::PartialEqSpecImpl for AstFunctionDefinition {
    open spec fn obeys_eq_spec() -> bool {
        true
    }

    open spec fn eq_spec(&self, other: &AstFunctionDefinition) -> bool {
        self@ == other@
    }
}

impl PartialEq for AstProgram {
    fn eq(&self, other: &AstProgram) -> (r: bool) {
        match (self, other) {
            (AstProgram::Program(a), AstProgram::Program(b)) => a.eq(b),
        }
    }
}

impl vstd::std_specs::cmp::PartialEqSpecImpl for AstProgram {
    open spec fn obeys_eq_spec() -> bool {
        true
    }

    open spec fn eq_spec(&self, other: &AstProgram) -> bool {
        self@ == other@
    }
}

} // verus!
