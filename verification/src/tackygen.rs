//! Lowering the resolved AST to TACKY.
//!
//! Expression lowering returns the emitted instructions together with the
//! `Val` holding the expression's result. Short-circuit `&&` and `||` are
//! lowered to explicit jumps and labels; each occurrence takes a fresh
//! label pair from its own counter. The counters are carried in an
//! explicit [`TackyContext`], threaded through one compilation, so that
//! separate compilations are independent and deterministic.

use vstd::prelude::*;
use vstd::string::*;

use crate::ast::AstBinaryOp;
use crate::ast::AstBlockItem;
use crate::ast::AstBlockItemV;
use crate::ast::AstDeclaration;
use crate::ast::AstDeclarationV;
use crate::ast::AstExpression;
use crate::ast::AstExpressionV;
use crate::ast::AstFunctionDefinition;
use crate::ast::AstFunctionDefinitionV;
use crate::ast::AstProgram;
use crate::ast::AstProgramV;
use crate::ast::AstStatement;
use crate::ast::AstStatementV;
use crate::ast::AstUnaryOp;
use crate::decimal::dec_nat;
use crate::decimal::u64_to_string;
use crate::tacky::BinaryOp;
use crate::tacky::FunctionDefinition;
use crate::tacky::FunctionDefinitionV;
use crate::tacky::Instruction;
use crate::tacky::InstructionV;
use crate::tacky::Program;
use crate::tacky::ProgramV;
use crate::tacky::UnaryOp;
use crate::tacky::Val;
use crate::tacky::ValV;

verus! {

/// The counters that make temporary names and labels unique within one
/// compilation.
#[derive(Debug, Clone, Copy, PartialEq, Eq, Structural)]
pub struct TackyContext {
    pub var_counter: u64,
    pub and_counter: u64,
    pub or_counter: u64,
}

/// Mathematical value of the counters.
pub struct TackyContextV {
    pub tmp: int,
    pub and_labels: int,
    pub or_labels: int,
}

impl View for TackyContext {
    type V = TackyContextV;

    open spec fn view(&self) -> TackyContextV {
        TackyContextV {
            tmp: self.var_counter as int,
            and_labels: self.and_counter as int,
            or_labels: self.or_counter as int,
        }
    }
}

impl TackyContext {
    /// A fresh context with every counter at zero.
    pub fn new() -> (c: TackyContext)
        ensures
            c@ == (TackyContextV { tmp: 0, and_labels: 0, or_labels: 0 }),
    {
        TackyContext { var_counter: 0, and_counter: 0, or_counter: 0 }
    }
}

/// The name of the `n`-th temporary.
pub open spec fn tmp_name(n: int) -> Seq<char> {
    "tmp."@ + dec_nat(n as nat)
}

/// The labels of the `n`-th `&&` lowering.
pub open spec fn and_false_label(n: int) -> Seq<char> {
    "and_false"@ + dec_nat(n as nat)
}

pub open spec fn and_end_label(n: int) -> Seq<char> {
    "and_false_end"@ + dec_nat(n as nat)
}

/// The labels of the `n`-th `||` lowering.
pub open spec fn or_false_label(n: int) -> Seq<char> {
    "or_false"@ + dec_nat(n as nat)
}

pub open spec fn or_end_label(n: int) -> Seq<char> {
    "or_false_end"@ + dec_nat(n as nat)
}

/// The TACKY operator for an AST unary operator.
pub open spec fn sp_convert_unary_op(op: AstUnaryOp) -> UnaryOp {
    match op {
        AstUnaryOp::Complement => UnaryOp::Complement,
        AstUnaryOp::Negate => UnaryOp::Negate,
        AstUnaryOp::Not => UnaryOp::Not,
    }
}

/// The TACKY operator for an AST binary operator other than `&&`/`||`.
pub open spec fn sp_convert_binary_op(op: AstBinaryOp) -> BinaryOp {
    match op {
        AstBinaryOp::Subtract => BinaryOp::Subtract,
        AstBinaryOp::Multiply => BinaryOp::Multiply,
        AstBinaryOp::Divide => BinaryOp::Divide,
        AstBinaryOp::Remainder => BinaryOp::Remainder,
        AstBinaryOp::Equal => BinaryOp::Equal,
        AstBinaryOp::NotEqual => BinaryOp::NotEqual,
        AstBinaryOp::LessThan => BinaryOp::LessThan,
        AstBinaryOp::LessOrEqual => BinaryOp::LessOrEqual,
        AstBinaryOp::GreaterThan => BinaryOp::GreaterThan,
        AstBinaryOp::GreaterOrEqual => BinaryOp::GreaterOrEqual,
        _ => BinaryOp::Add,
    }
}

/// How many nodes an expression has; each counter grows by at most this
/// much while the expression is lowered.
pub open spec fn expr_nodes(e: AstExpressionV) -> nat
    decreases e,
{
    match e {
        AstExpressionV::Constant(_) => 1,
        AstExpressionV::Var(_) => 1,
        AstExpressionV::Unary(_, inner) => 1 + expr_nodes(*inner),
        AstExpressionV::Binary(_, l, r) => 1 + expr_nodes(*l) + expr_nodes(*r),
        AstExpressionV::Assignment(l, r) => 1 + expr_nodes(*l) + expr_nodes(*r),
    }
}

pub open spec fn stmt_nodes(s: AstStatementV) -> nat {
    match s {
        AstStatementV::Return(e) => expr_nodes(e),
        AstStatementV::Expression(e) => expr_nodes(e),
        AstStatementV::Null => 0,
    }
}

pub open spec fn decl_nodes(d: AstDeclarationV) -> nat {
    match d {
        AstDeclarationV::Declaration(_, None) => 0,
        AstDeclarationV::Declaration(_, Some(e)) => expr_nodes(e),
    }
}

pub open spec fn item_nodes(it: AstBlockItemV) -> nat {
    match it {
        AstBlockItemV::Statement(s) => stmt_nodes(s),
        AstBlockItemV::Declaration(d) => decl_nodes(d),
    }
}

pub open spec fn body_nodes(items: Seq<AstBlockItemV>) -> nat
    decreases items.len(),
{
    if items.len() == 0 {
        0
    } else {
        item_nodes(items[0]) + body_nodes(items.drop_first())
    }
}

pub open spec fn function_nodes(f: AstFunctionDefinitionV) -> nat {
    match f {
        AstFunctionDefinitionV::Function(_, body) => body_nodes(body),
    }
}

pub open spec fn program_nodes(p: AstProgramV) -> nat {
    match p {
        AstProgramV::Program(f) => function_nodes(f),
    }
}

/// Every assignment target in the expression is a variable. The resolver
/// guarantees this of its output.
pub open spec fn valid_targets(e: AstExpressionV) -> bool
    decreases e,
{
    match e {
        AstExpressionV::Constant(_) => true,
        AstExpressionV::Var(_) => true,
        AstExpressionV::Unary(_, inner) => valid_targets(*inner),
        AstExpressionV::Binary(_, l, r) => valid_targets(*l) && valid_targets(*r),
        AstExpressionV::Assignment(l, r) => (*l) is Var && valid_targets(*r),
    }
}

pub open spec fn stmt_valid_targets(s: AstStatementV) -> bool {
    match s {
        AstStatementV::Return(e) => valid_targets(e),
        AstStatementV::Expression(e) => valid_targets(e),
        AstStatementV::Null => true,
    }
}

pub open spec fn decl_valid_targets(d: AstDeclarationV) -> bool {
    match d {
        AstDeclarationV::Declaration(_, None) => true,
        AstDeclarationV::Declaration(_, Some(e)) => valid_targets(e),
    }
}

pub open spec fn item_valid_targets(it: AstBlockItemV) -> bool {
    match it {
        AstBlockItemV::Statement(s) => stmt_valid_targets(s),
        AstBlockItemV::Declaration(d) => decl_valid_targets(d),
    }
}

pub open spec fn body_valid_targets(items: Seq<AstBlockItemV>) -> bool {
    forall|k: int| 0 <= k < items.len() ==> item_valid_targets(items[k])
}

pub open spec fn program_valid_targets(p: AstProgramV) -> bool {
    match p {
        AstProgramV::Program(AstFunctionDefinitionV::Function(_, body)) => body_valid_targets(
            body,
        ),
    }
}

/// What lowering an expression emits: the instructions, the `Val` holding
/// the result, and the counters afterwards.
pub open spec fn sp_emit_expression(e: AstExpressionV, c: TackyContextV) -> (Seq<InstructionV>, ValV, TackyContextV)
    decreases e,
{
    match e {
        AstExpressionV::Constant(n) => (Seq::empty(), ValV::Constant(n), c),
        AstExpressionV::Var(name) => (Seq::empty(), ValV::Var(name), c),
        AstExpressionV::Unary(op, inner) => {
            let (ins, v, c1) = sp_emit_expression(*inner, c);
            let dst = ValV::Var(tmp_name(c1.tmp));
            (
                ins.push(InstructionV::Unary(sp_convert_unary_op(op), v, dst)),
                dst,
                TackyContextV { tmp: c1.tmp + 1, ..c1 },
            )
        },
        AstExpressionV::Binary(AstBinaryOp::And, l, r) => {
            let n = c.and_labels;
            let c0 = TackyContextV { and_labels: c.and_labels + 1, ..c };
            let (li, v1, c1) = sp_emit_expression(*l, c0);
            let (ri, v2, c2) = sp_emit_expression(*r, c1);
            let res = ValV::Var(tmp_name(c2.tmp));
            let c3 = TackyContextV { tmp: c2.tmp + 1, ..c2 };
            let tail = seq![
                InstructionV::Copy(ValV::Constant(1), res),
                InstructionV::Jump(and_end_label(n)),
                InstructionV::Label(and_false_label(n)),
                InstructionV::Copy(ValV::Constant(0), res),
                InstructionV::Label(and_end_label(n)),
            ];
            (
                li.push(InstructionV::JumpIfZero(v1, and_false_label(n))) + ri.push(
                    InstructionV::JumpIfZero(v2, and_false_label(n)),
                ) + tail,
                res,
                c3,
            )
        },
        AstExpressionV::Binary(AstBinaryOp::Or, l, r) => {
            let n = c.or_labels;
            let c0 = TackyContextV { or_labels: c.or_labels + 1, ..c };
            let (li, v1, c1) = sp_emit_expression(*l, c0);
            let (ri, v2, c2) = sp_emit_expression(*r, c1);
            let res = ValV::Var(tmp_name(c2.tmp));
            let c3 = TackyContextV { tmp: c2.tmp + 1, ..c2 };
            let tail = seq![
                InstructionV::Copy(ValV::Constant(0), res),
                InstructionV::Jump(or_end_label(n)),
                InstructionV::Label(or_false_label(n)),
                InstructionV::Copy(ValV::Constant(1), res),
                InstructionV::Label(or_end_label(n)),
            ];
            (
                li.push(InstructionV::JumpIfNotZero(v1, or_false_label(n))) + ri.push(
                    InstructionV::JumpIfNotZero(v2, or_false_label(n)),
                ) + tail,
                res,
                c3,
            )
        },
        AstExpressionV::Binary(op, l, r) => {
            let (li, v1, c1) = sp_emit_expression(*l, c);
            let (ri, v2, c2) = sp_emit_expression(*r, c1);
            let dst = ValV::Var(tmp_name(c2.tmp));
            let c3 = TackyContextV { tmp: c2.tmp + 1, ..c2 };
            (
                li + ri.push(InstructionV::Binary(sp_convert_binary_op(op), v1, v2, dst)),
                dst,
                c3,
            )
        },
        AstExpressionV::Assignment(var, rhs) => {
            let (ins, result, c1) = sp_emit_expression(*rhs, c);
            match *var {
                AstExpressionV::Var(var_name) => (
                    ins.push(InstructionV::Copy(result, ValV::Var(var_name))),
                    ValV::Var(var_name),
                    c1,
                ),
                _ => (Seq::empty(), ValV::Constant(0), c),
            }
        },
    }
}

/// What lowering a statement emits.
pub open spec fn sp_emit_statement(s: AstStatementV, c: TackyContextV) -> (Seq<InstructionV>, TackyContextV) {
    match s {
        AstStatementV::Return(e) => {
            let (ins, v, c1) = sp_emit_expression(e, c);
            (ins.push(InstructionV::Return(v)), c1)
        },
        AstStatementV::Expression(e) => {
            let (ins, _v, c1) = sp_emit_expression(e, c);
            (ins, c1)
        },
        AstStatementV::Null => (Seq::empty(), c),
    }
}

/// What lowering a declaration emits: nothing without an initializer, and
/// the initializer followed by a copy into the declared name otherwise.
pub open spec fn sp_emit_declaration(d: AstDeclarationV, c: TackyContextV) -> (Seq<InstructionV>, TackyContextV) {
    match d {
        AstDeclarationV::Declaration(_, None) => (Seq::empty(), c),
        AstDeclarationV::Declaration(identifier, Some(e)) => {
            let (ins, v, c1) = sp_emit_expression(e, c);
            (ins.push(InstructionV::Copy(v, ValV::Var(identifier))), c1)
        },
    }
}

pub open spec fn sp_emit_item(it: AstBlockItemV, c: TackyContextV) -> (Seq<InstructionV>, TackyContextV) {
    match it {
        AstBlockItemV::Statement(s) => sp_emit_statement(s, c),
        AstBlockItemV::Declaration(d) => sp_emit_declaration(d, c),
    }
}

pub open spec fn sp_emit_body(items: Seq<AstBlockItemV>, c: TackyContextV) -> (Seq<InstructionV>, TackyContextV)
    decreases items.len(),
{
    if items.len() == 0 {
        (Seq::empty(), c)
    } else {
        let head = sp_emit_item(items[0], c);
        let rest = sp_emit_body(items.drop_first(), head.1);
        (head.0 + rest.0, rest.1)
    }
}

/// What lowering a function emits: its items in order, then the implicit
/// `Return(Constant(0))` fallback.
pub open spec fn sp_emit_function(f: AstFunctionDefinitionV, c: TackyContextV) -> (FunctionDefinitionV, TackyContextV) {
    match f {
        AstFunctionDefinitionV::Function(name, body) => {
            let b = sp_emit_body(body, c);
            (
                FunctionDefinitionV::Function(
                    name,
                    b.0.push(InstructionV::Return(ValV::Constant(0))),
                ),
                b.1,
            )
        },
    }
}

/// What lowering a program emits, with all counters starting at zero.
pub open spec fn sp_emit_tacky(p: AstProgramV) -> ProgramV {
    match p {
        AstProgramV::Program(f) => ProgramV::Program(
            sp_emit_function(f, TackyContextV { tmp: 0, and_labels: 0, or_labels: 0 }).0,
        ),
    }
}

/// Lowering an expression moves every counter forward by at most the
/// expression's node count.
proof fn lemma_emit_expression_counters(e: AstExpressionV, c: TackyContextV)
    ensures
        ({
            let c2 = sp_emit_expression(e, c).2;
            &&& c.tmp <= c2.tmp <= c.tmp + expr_nodes(e)
            &&& c.and_labels <= c2.and_labels <= c.and_labels + expr_nodes(e)
            &&& c.or_labels <= c2.or_labels <= c.or_labels + expr_nodes(e)
        }),
    decreases e,
{
    match e {
        AstExpressionV::Constant(_) => {},
        AstExpressionV::Var(_) => {},
        AstExpressionV::Unary(_, inner) => {
            lemma_emit_expression_counters(*inner, c);
        },
        AstExpressionV::Binary(AstBinaryOp::And, l, r) => {
            let c0 = TackyContextV { and_labels: c.and_labels + 1, ..c };
            lemma_emit_expression_counters(*l, c0);
            let c1 = sp_emit_expression(*l, c0).2;
            lemma_emit_expression_counters(*r, c1);
        },
        AstExpressionV::Binary(AstBinaryOp::Or, l, r) => {
            let c0 = TackyContextV { or_labels: c.or_labels + 1, ..c };
            lemma_emit_expression_counters(*l, c0);
            let c1 = sp_emit_expression(*l, c0).2;
            lemma_emit_expression_counters(*r, c1);
        },
        AstExpressionV::Binary(_, l, r) => {
            lemma_emit_expression_counters(*l, c);
            let c1 = sp_emit_expression(*l, c).2;
            lemma_emit_expression_counters(*r, c1);
        },
        AstExpressionV::Assignment(_, r) => {
            lemma_emit_expression_counters(*r, c);
        },
    }
}

proof fn lemma_emit_item_counters(it: AstBlockItemV, c: TackyContextV)
    ensures
        ({
            let c2 = sp_emit_item(it, c).1;
            &&& c.tmp <= c2.tmp <= c.tmp + item_nodes(it)
            &&& c.and_labels <= c2.and_labels <= c.and_labels + item_nodes(it)
            &&& c.or_labels <= c2.or_labels <= c.or_labels + item_nodes(it)
        }),
{
    match it {
        AstBlockItemV::Statement(s) => match s {
            AstStatementV::Return(e) => lemma_emit_expression_counters(e, c),
            AstStatementV::Expression(e) => lemma_emit_expression_counters(e, c),
            AstStatementV::Null => {},
        },
        AstBlockItemV::Declaration(d) => match d {
            AstDeclarationV::Declaration(_, None) => {},
            AstDeclarationV::Declaration(_, Some(e)) => lemma_emit_expression_counters(e, c),
        },
    }
}

proof fn lemma_emit_body_counters(items: Seq<AstBlockItemV>, c: TackyContextV)
    ensures
        ({
            let c2 = sp_emit_body(items, c).1;
            &&& c.tmp <= c2.tmp <= c.tmp + body_nodes(items)
            &&& c.and_labels <= c2.and_labels <= c.and_labels + body_nodes(items)
            &&& c.or_labels <= c2.or_labels <= c.or_labels + body_nodes(items)
        }),
    decreases items.len(),
{
    if items.len() > 0 {
        lemma_emit_item_counters(items[0], c);
        let c1 = sp_emit_item(items[0], c).1;
        lemma_emit_body_counters(items.drop_first(), c1);
    }
}

/// Every destination operand of the instruction is a variable.
pub open spec fn instr_dst_is_var(instruction: InstructionV) -> bool {
    match instruction {
        InstructionV::Unary(_, _, dst) => dst is Var,
        InstructionV::Binary(_, _, _, dst) => dst is Var,
        InstructionV::Copy(_, dst) => dst is Var,
        _ => true,
    }
}

pub open spec fn dsts_are_vars(instructions: Seq<InstructionV>) -> bool {
    forall|k: int| 0 <= k < instructions.len() ==> instr_dst_is_var(#[trigger] instructions[k])
}

pub open spec fn program_dsts_are_vars(p: ProgramV) -> bool {
    match p {
        ProgramV::Program(FunctionDefinitionV::Function(_, instructions)) => dsts_are_vars(
            instructions,
        ),
    }
}

/// Everything expression lowering emits writes through a variable.
proof fn lemma_emit_expression_dsts(e: AstExpressionV, c: TackyContextV)
    ensures
        dsts_are_vars(sp_emit_expression(e, c).0),
    decreases e,
{
    match e {
        AstExpressionV::Constant(_) => {},
        AstExpressionV::Var(_) => {},
        AstExpressionV::Unary(_, inner) => {
            lemma_emit_expression_dsts(*inner, c);
            let ins = sp_emit_expression(*inner, c).0;
            let out = sp_emit_expression(e, c).0;
            assert(forall|k: int| 0 <= k < ins.len() ==> out[k] == ins[k]);
            assert(instr_dst_is_var(out[ins.len() as int]));
        },
        AstExpressionV::Binary(AstBinaryOp::And, l, r) => {
            let c0 = TackyContextV { and_labels: c.and_labels + 1, ..c };
            lemma_emit_expression_dsts(*l, c0);
            let li = sp_emit_expression(*l, c0).0;
            let c1 = sp_emit_expression(*l, c0).2;
            lemma_emit_expression_dsts(*r, c1);
            let ri = sp_emit_expression(*r, c1).0;
            let lip = li.push(InstructionV::JumpIfZero(
                sp_emit_expression(*l, c0).1,
                and_false_label(c.and_labels),
            ));
            let rip = ri.push(InstructionV::JumpIfZero(
                sp_emit_expression(*r, c1).1,
                and_false_label(c.and_labels),
            ));
            let out = sp_emit_expression(e, c).0;
            assert(forall|k: int| 0 <= k < lip.len() ==> out[k] == lip[k]);
            assert(forall|k: int| lip.len() <= k < lip.len() + rip.len() ==> out[k] == rip[k
                - lip.len()]);
            assert(forall|k: int| lip.len() + rip.len() <= k < out.len() ==> instr_dst_is_var(
                #[trigger] out[k],
            ));
        },
        AstExpressionV::Binary(AstBinaryOp::Or, l, r) => {
            let c0 = TackyContextV { or_labels: c.or_labels + 1, ..c };
            lemma_emit_expression_dsts(*l, c0);
            let li = sp_emit_expression(*l, c0).0;
            let c1 = sp_emit_expression(*l, c0).2;
            lemma_emit_expression_dsts(*r, c1);
            let ri = sp_emit_expression(*r, c1).0;
            let lip = li.push(InstructionV::JumpIfNotZero(
                sp_emit_expression(*l, c0).1,
                or_false_label(c.or_labels),
            ));
            let rip = ri.push(InstructionV::JumpIfNotZero(
                sp_emit_expression(*r, c1).1,
                or_false_label(c.or_labels),
            ));
            let out = sp_emit_expression(e, c).0;
            assert(forall|k: int| 0 <= k < lip.len() ==> out[k] == lip[k]);
            assert(forall|k: int| lip.len() <= k < lip.len() + rip.len() ==> out[k] == rip[k
                - lip.len()]);
            assert(forall|k: int| lip.len() + rip.len() <= k < out.len() ==> instr_dst_is_var(
                #[trigger] out[k],
            ));
        },
        AstExpressionV::Binary(_, l, r) => {
            lemma_emit_expression_dsts(*l, c);
            let li = sp_emit_expression(*l, c).0;
            let c1 = sp_emit_expression(*l, c).2;
            lemma_emit_expression_dsts(*r, c1);
            let ri = sp_emit_expression(*r, c1).0;
            let out = sp_emit_expression(e, c).0;
            assert(forall|k: int| 0 <= k < li.len() ==> out[k] == li[k]);
            assert(forall|k: int| li.len() <= k < li.len() + ri.len() ==> out[k] == ri[k
                - li.len()]);
            assert(instr_dst_is_var(out[out.len() - 1]));
        },
        AstExpressionV::Assignment(_, rhs) => {
            lemma_emit_expression_dsts(*rhs, c);
            let ins = sp_emit_expression(*rhs, c).0;
            let out = sp_emit_expression(e, c).0;
            assert(forall|k: int| 0 <= k < ins.len() && k < out.len() ==> out[k] == ins[k]);
        },
    }
}

proof fn lemma_emit_item_dsts(it: AstBlockItemV, c: TackyContextV)
    ensures
        dsts_are_vars(sp_emit_item(it, c).0),
{
    match it {
        AstBlockItemV::Statement(s) => match s {
            AstStatementV::Return(e) => {
                lemma_emit_expression_dsts(e, c);
                let ins = sp_emit_expression(e, c).0;
                let out = sp_emit_item(it, c).0;
                assert(forall|k: int| 0 <= k < ins.len() ==> out[k] == ins[k]);
            },
            AstStatementV::Expression(e) => {
                lemma_emit_expression_dsts(e, c);
            },
            AstStatementV::Null => {},
        },
        AstBlockItemV::Declaration(d) => match d {
            AstDeclarationV::Declaration(_, None) => {},
            AstDeclarationV::Declaration(_, Some(e)) => {
                lemma_emit_expression_dsts(e, c);
                let ins = sp_emit_expression(e, c).0;
                let out = sp_emit_item(it, c).0;
                assert(forall|k: int| 0 <= k < ins.len() ==> out[k] == ins[k]);
            },
        },
    }
}

proof fn lemma_emit_body_dsts(items: Seq<AstBlockItemV>, c: TackyContextV)
    ensures
        dsts_are_vars(sp_emit_body(items, c).0),
    decreases items.len(),
{
    if items.len() > 0 {
        lemma_emit_item_dsts(items[0], c);
        let head = sp_emit_item(items[0], c);
        lemma_emit_body_dsts(items.drop_first(), head.1);
        let rest = sp_emit_body(items.drop_first(), head.1).0;
        let out = sp_emit_body(items, c).0;
        assert(forall|k: int| 0 <= k < head.0.len() ==> out[k] == head.0[k]);
        assert(forall|k: int| head.0.len() <= k < out.len() ==> out[k] == rest[k - head.0.len()]);
    }
}

/// Everything TACKY lowering emits writes through a variable; the
/// destination of every `Unary`, `Binary` and `Copy` is a `Var`.
pub proof fn lemma_emit_tacky_dsts(p: AstProgramV)
    ensures
        program_dsts_are_vars(sp_emit_tacky(p)),
{
    match p {
        AstProgramV::Program(AstFunctionDefinitionV::Function(_, body)) => {
            let c = TackyContextV { tmp: 0, and_labels: 0, or_labels: 0 };
            lemma_emit_body_dsts(body, c);
            let ins = sp_emit_body(body, c).0;
            match sp_emit_tacky(p) {
                ProgramV::Program(FunctionDefinitionV::Function(_, out)) => {
                    assert(forall|k: int| 0 <= k < ins.len() ==> out[k] == ins[k]);
                    assert(instr_dst_is_var(out[out.len() - 1]));
                },
            }
        },
    }
}

/// The TACKY operator for an AST unary operator.
pub fn convert_unary_op(unary_op: AstUnaryOp) -> (r: UnaryOp)
    ensures
        r == sp_convert_unary_op(unary_op),
{
    match unary_op {
        AstUnaryOp::Complement => UnaryOp::Complement,
        AstUnaryOp::Negate => UnaryOp::Negate,
        AstUnaryOp::Not => UnaryOp::Not,
    }
}

/// The TACKY operator for an AST binary operator; `&&` and `||` have no
/// counterpart, they lower to control flow.
pub fn convert_binary_op(binary_op: AstBinaryOp) -> (r: BinaryOp)
    requires
        binary_op != AstBinaryOp::And,
        binary_op != AstBinaryOp::Or,
    ensures
        r == sp_convert_binary_op(binary_op),
{
    match binary_op {
        AstBinaryOp::Subtract => BinaryOp::Subtract,
        AstBinaryOp::Multiply => BinaryOp::Multiply,
        AstBinaryOp::Divide => BinaryOp::Divide,
        AstBinaryOp::Remainder => BinaryOp::Remainder,
        AstBinaryOp::Equal => BinaryOp::Equal,
        AstBinaryOp::NotEqual => BinaryOp::NotEqual,
        AstBinaryOp::LessThan => BinaryOp::LessThan,
        AstBinaryOp::LessOrEqual => BinaryOp::LessOrEqual,
        AstBinaryOp::GreaterThan => BinaryOp::GreaterThan,
        AstBinaryOp::GreaterOrEqual => BinaryOp::GreaterOrEqual,
        _ => BinaryOp::Add,
    }
}

fn make_tmp_name(n: u64) -> (s: String)
    ensures
        s@ == tmp_name(n as int),
{
    String::from_str("tmp.").concat(u64_to_string(n).as_str())
}

fn make_and_false_label(n: u64) -> (s: String)
    ensures
        s@ == and_false_label(n as int),
{
    String::from_str("and_false").concat(u64_to_string(n).as_str())
}

fn make_and_end_label(n: u64) -> (s: String)
    ensures
        s@ == and_end_label(n as int),
{
    String::from_str("and_false_end").concat(u64_to_string(n).as_str())
}

fn make_or_false_label(n: u64) -> (s: String)
    ensures
        s@ == or_false_label(n as int),
{
    String::from_str("or_false").concat(u64_to_string(n).as_str())
}

fn make_or_end_label(n: u64) -> (s: String)
    ensures
        s@ == or_end_label(n as int),
{
    String::from_str("or_false_end").concat(u64_to_string(n).as_str())
}

/// Lower one expression, emitting its instructions and the `Val` that
/// holds its result.
#[verifier::rlimit(100)]
#[verifier::spinoff_prover]
pub fn emit_tacky_expression(expression: AstExpression, ctx: &mut TackyContext) -> (r: (Vec<
    Instruction,
>, Val))
    requires
        valid_targets(expression@),
        old(ctx)@.tmp + expr_nodes(expression@) <= u64::MAX,
        old(ctx)@.and_labels + expr_nodes(expression@) <= u64::MAX,
        old(ctx)@.or_labels + expr_nodes(expression@) <= u64::MAX,
    ensures
        ({
            let sp = sp_emit_expression(expression@, old(ctx)@);
            &&& r.0.deep_view() == sp.0
            &&& r.1@ == sp.1
            &&& final(ctx)@ == sp.2
        }),
    decreases expression,
{
    let ghost ev = expression@;
    match expression {
        AstExpression::Constant(num) => {
            let ins: Vec<Instruction> = Vec::new();
            proof {
                assert(ins.deep_view() =~= Seq::<InstructionV>::empty());
            }
            (ins, Val::Constant(num))
        },
        AstExpression::Var(identifier) => {
            let ins: Vec<Instruction> = Vec::new();
            proof {
                assert(ins.deep_view() =~= Seq::<InstructionV>::empty());
            }
            (ins, Val::Var(identifier))
        },
        AstExpression::Unary(unary_op, inner_exp) => {
            let ghost innerv = (*inner_exp)@;
            let ghost c_start = ctx@;
            let (mut inner_instructions, v) = emit_tacky_expression(*inner_exp, ctx);
            let ghost insv = inner_instructions.deep_view();
            proof {
                lemma_emit_expression_counters(innerv, c_start);
            }
            let dst_name = make_tmp_name(ctx.var_counter);
            let tacky_op = convert_unary_op(unary_op);
            inner_instructions.push(
                Instruction::Unary(tacky_op, v, Val::Var(dst_name.clone())),
            );
            ctx.var_counter = ctx.var_counter + 1;
            proof {
                assert(inner_instructions.deep_view() =~= insv.push(
                    InstructionV::Unary(
                        sp_convert_unary_op(unary_op),
                        sp_emit_expression(innerv, c_start).1,
                        ValV::Var(tmp_name(sp_emit_expression(innerv, c_start).2.tmp)),
                    ),
                ));
            }
            proof {
                assert(ev == AstExpressionV::Unary(unary_op, Box::new(innerv)));
                let spu = sp_emit_expression(
                    AstExpressionV::Unary(unary_op, Box::new(innerv)),
                    c_start,
                );
                assert(inner_instructions.deep_view() =~= spu.0);
                assert(ctx@ == spu.2);
                assert(ValV::Var(dst_name@) == spu.1);
            }
            (inner_instructions, Val::Var(dst_name))
        },
        AstExpression::Binary(AstBinaryOp::And, left, right) => {
            let ghost lv = (*left)@;
            let ghost rv = (*right)@;
            let ghost c_start = ctx@;
            let label_counter = ctx.and_counter;
            ctx.and_counter = ctx.and_counter + 1;
            let ghost c0 = ctx@;
            let jump_name = make_and_false_label(label_counter);

            let (mut left_instructions, v1) = emit_tacky_expression(*left, ctx);
            proof {
                lemma_emit_expression_counters(lv, c0);
            }
            left_instructions.push(Instruction::JumpIfZero(v1, jump_name.clone()));
            let ghost lip = left_instructions.deep_view();
            let ghost c1 = ctx@;

            let (mut right_instructions, v2) = emit_tacky_expression(*right, ctx);
            proof {
                lemma_emit_expression_counters(rv, c1);
            }
            right_instructions.push(Instruction::JumpIfZero(v2, jump_name.clone()));
            let ghost rip = right_instructions.deep_view();

            left_instructions.append(&mut right_instructions);
            proof {
                assert(left_instructions.deep_view() =~= lip + rip);
            }

            let res_name = make_tmp_name(ctx.var_counter);
            let ghost resv = ValV::Var(tmp_name(ctx@.tmp));
            ctx.var_counter = ctx.var_counter + 1;

            left_instructions.push(
                Instruction::Copy(Val::Constant(1), Val::Var(res_name.clone())),
            );
            left_instructions.push(Instruction::Jump(make_and_end_label(label_counter)));
            left_instructions.push(Instruction::Label(jump_name));
            left_instructions.push(
                Instruction::Copy(Val::Constant(0), Val::Var(res_name.clone())),
            );
            left_instructions.push(Instruction::Label(make_and_end_label(label_counter)));
            proof {
                let n = c_start.and_labels;
                let tail = seq![
                    InstructionV::Copy(ValV::Constant(1), resv),
                    InstructionV::Jump(and_end_label(n)),
                    InstructionV::Label(and_false_label(n)),
                    InstructionV::Copy(ValV::Constant(0), resv),
                    InstructionV::Label(and_end_label(n)),
                ];
                assert(left_instructions.deep_view() =~= lip + rip + tail);
                assert(ev == AstExpressionV::Binary(AstBinaryOp::And, Box::new(lv), Box::new(rv)));
                let spu = sp_emit_expression(
                    AstExpressionV::Binary(AstBinaryOp::And, Box::new(lv), Box::new(rv)),
                    c_start,
                );
                assert(left_instructions.deep_view() =~= spu.0);
                assert(ctx@ == spu.2);
                assert(ValV::Var(res_name@) == spu.1);
            }
            (left_instructions, Val::Var(res_name))
        },
        AstExpression::Binary(AstBinaryOp::Or, left, right) => {
            let ghost lv = (*left)@;
            let ghost rv = (*right)@;
            let ghost c_start = ctx@;
            let label_counter = ctx.or_counter;
            ctx.or_counter = ctx.or_counter + 1;
            let ghost c0 = ctx@;
            let jump_name = make_or_false_label(label_counter);

            let (mut left_instructions, v1) = emit_tacky_expression(*left, ctx);
            proof {
                lemma_emit_expression_counters(lv, c0);
            }
            left_instructions.push(Instruction::JumpIfNotZero(v1, jump_name.clone()));
            let ghost lip = left_instructions.deep_view();
            let ghost c1 = ctx@;

            let (mut right_instructions, v2) = emit_tacky_expression(*right, ctx);
            proof {
                lemma_emit_expression_counters(rv, c1);
            }
            right_instructions.push(Instruction::JumpIfNotZero(v2, jump_name.clone()));
            let ghost rip = right_instructions.deep_view();

            left_instructions.append(&mut right_instructions);
            proof {
                assert(left_instructions.deep_view() =~= lip + rip);
            }

            let res_name = make_tmp_name(ctx.var_counter);
            let ghost resv = ValV::Var(tmp_name(ctx@.tmp));
            ctx.var_counter = ctx.var_counter + 1;

            left_instructions.push(
                Instruction::Copy(Val::Constant(0), Val::Var(res_name.clone())),
            );
            left_instructions.push(Instruction::Jump(make_or_end_label(label_counter)));
            left_instructions.push(Instruction::Label(jump_name));
            left_instructions.push(
                Instruction::Copy(Val::Constant(1), Val::Var(res_name.clone())),
            );
            left_instructions.push(Instruction::Label(make_or_end_label(label_counter)));
            proof {
                let n = c_start.or_labels;
                let tail = seq![
                    InstructionV::Copy(ValV::Constant(0), resv),
                    InstructionV::Jump(or_end_label(n)),
                    InstructionV::Label(or_false_label(n)),
                    InstructionV::Copy(ValV::Constant(1), resv),
                    InstructionV::Label(or_end_label(n)),
                ];
                assert(left_instructions.deep_view() =~= lip + rip + tail);
                assert(ev == AstExpressionV::Binary(AstBinaryOp::Or, Box::new(lv), Box::new(rv)));
                let spu = sp_emit_expression(
                    AstExpressionV::Binary(AstBinaryOp::Or, Box::new(lv), Box::new(rv)),
                    c_start,
                );
                assert(left_instructions.deep_view() =~= spu.0);
                assert(ctx@ == spu.2);
                assert(ValV::Var(res_name@) == spu.1);
            }
            (left_instructions, Val::Var(res_name))
        },
        AstExpression::Binary(bin_op, left, right) => {
            let ghost lv = (*left)@;
            let ghost rv = (*right)@;
            let ghost c_start = ctx@;
            let (mut left_instructions, v1) = emit_tacky_expression(*left, ctx);
            proof {
                lemma_emit_expression_counters(lv, c_start);
            }
            let ghost lip = left_instructions.deep_view();
            let ghost c1 = ctx@;
            let (mut right_instructions, v2) = emit_tacky_expression(*right, ctx);
            proof {
                lemma_emit_expression_counters(rv, c1);
            }
            let ghost rip = right_instructions.deep_view();
            let dst_name = make_tmp_name(ctx.var_counter);
            let ghost dstv = ValV::Var(tmp_name(ctx@.tmp));
            ctx.var_counter = ctx.var_counter + 1;
            let tacky_op = convert_binary_op(bin_op);
            left_instructions.append(&mut right_instructions);
            left_instructions.push(
                Instruction::Binary(tacky_op, v1, v2, Val::Var(dst_name.clone())),
            );
            proof {
                assert(left_instructions.deep_view() =~= lip + rip.push(
                    InstructionV::Binary(sp_convert_binary_op(bin_op), v1@, v2@, dstv),
                ));
            }
            proof {
                assert(ev == AstExpressionV::Binary(bin_op, Box::new(lv), Box::new(rv)));
                let spu = sp_emit_expression(
                    AstExpressionV::Binary(bin_op, Box::new(lv), Box::new(rv)),
                    c_start,
                );
                assert(left_instructions.deep_view() =~= spu.0);
                assert(ctx@ == spu.2);
                assert(ValV::Var(dst_name@) == spu.1);
            }
            (left_instructions, Val::Var(dst_name))
        },
        AstExpression::Assignment(var, rhs) => {
            let ghost varv = (*var)@;
            let ghost rhsv = (*rhs)@;
            let ghost c_start = ctx@;
            let (mut instructions, result) = emit_tacky_expression(*rhs, ctx);
            let ghost insv = instructions.deep_view();
            match *var {
                AstExpression::Var(var_name) => {
                    instructions.push(
                        Instruction::Copy(result, Val::Var(var_name.clone())),
                    );
                    proof {
                        assert(instructions.deep_view() =~= insv.push(
                            InstructionV::Copy(
                                sp_emit_expression(rhsv, c_start).1,
                                ValV::Var(var_name@),
                            ),
                        ));
                    }
                    proof {
                        assert(varv == AstExpressionV::Var(var_name@));
                        assert(ev == AstExpressionV::Assignment(
                            Box::new(varv),
                            Box::new(rhsv),
                        ));
                        let spu = sp_emit_expression(
                            AstExpressionV::Assignment(
                                Box::new(AstExpressionV::Var(var_name@)),
                                Box::new(rhsv),
                            ),
                            c_start,
                        );
                        assert(instructions.deep_view() =~= spu.0);
                        assert(ctx@ == spu.2);
                        assert(ValV::Var(var_name@) == spu.1);
                    }
                    (instructions, Val::Var(var_name))
                },
                _ => {
                    let ins: Vec<Instruction> = Vec::new();
                    (ins, Val::Constant(0))
                },
            }
        },
    }
}

fn emit_tacky_statement(statement: AstStatement, ctx: &mut TackyContext) -> (r: Vec<Instruction>)
    requires
        stmt_valid_targets(statement@),
        old(ctx)@.tmp + stmt_nodes(statement@) <= u64::MAX,
        old(ctx)@.and_labels + stmt_nodes(statement@) <= u64::MAX,
        old(ctx)@.or_labels + stmt_nodes(statement@) <= u64::MAX,
    ensures
        ({
            let sp = sp_emit_statement(statement@, old(ctx)@);
            &&& r.deep_view() == sp.0
            &&& final(ctx)@ == sp.1
        }),
{
    match statement {
        AstStatement::Return(expression) => {
            let ghost ev = expression@;
            let ghost c_start = ctx@;
            let (mut instructions, var) = emit_tacky_expression(expression, ctx);
            let ghost insv = instructions.deep_view();
            instructions.push(Instruction::Return(var));
            proof {
                assert(instructions.deep_view() =~= insv.push(
                    InstructionV::Return(sp_emit_expression(ev, c_start).1),
                ));
            }
            instructions
        },
        AstStatement::Expression(expression) => {
            let (instructions, _var) = emit_tacky_expression(expression, ctx);
            instructions
        },
        AstStatement::Null => {
            let ins: Vec<Instruction> = Vec::new();
            proof {
                assert(ins.deep_view() =~= Seq::<InstructionV>::empty());
            }
            ins
        },
    }
}

fn emit_tacky_declaration(declaration: AstDeclaration, ctx: &mut TackyContext) -> (r: Vec<
    Instruction,
>)
    requires
        decl_valid_targets(declaration@),
        old(ctx)@.tmp + decl_nodes(declaration@) <= u64::MAX,
        old(ctx)@.and_labels + decl_nodes(declaration@) <= u64::MAX,
        old(ctx)@.or_labels + decl_nodes(declaration@) <= u64::MAX,
    ensures
        ({
            let sp = sp_emit_declaration(declaration@, old(ctx)@);
            &&& r.deep_view() == sp.0
            &&& final(ctx)@ == sp.1
        }),
{
    match declaration {
        AstDeclaration::Declaration(identifier, init) => {
            match init {
                None => {
                    let ins: Vec<Instruction> = Vec::new();
                    proof {
                        assert(ins.deep_view() =~= Seq::<InstructionV>::empty());
                    }
                    ins
                },
                Some(expression) => {
                    let ghost ev = expression@;
                    let ghost c_start = ctx@;
                    let (mut instructions, var) = emit_tacky_expression(expression, ctx);
                    let ghost insv = instructions.deep_view();
                    instructions.push(Instruction::Copy(var, Val::Var(identifier)));
                    proof {
                        assert(instructions.deep_view() =~= insv.push(
                            InstructionV::Copy(
                                sp_emit_expression(ev, c_start).1,
                                instructions@[instructions@.len() - 1]->Copy_1@,
                            ),
                        ));
                    }
                    instructions
                },
            }
        },
    }
}

fn emit_tacky_body(body: Vec<AstBlockItem>, ctx: &mut TackyContext) -> (r: Vec<Instruction>)
    requires
        body_valid_targets(body.deep_view()),
        old(ctx)@.tmp + body_nodes(body.deep_view()) <= u64::MAX,
        old(ctx)@.and_labels + body_nodes(body.deep_view()) <= u64::MAX,
        old(ctx)@.or_labels + body_nodes(body.deep_view()) <= u64::MAX,
    ensures
        ({
            let sp = sp_emit_body(body.deep_view(), old(ctx)@);
            &&& r.deep_view() == sp.0
            &&& final(ctx)@ == sp.1
        }),
    decreases body@.len(),
{
    let mut body = body;
    if body.len() == 0 {
        let ins: Vec<Instruction> = Vec::new();
        proof {
            assert(ins.deep_view() =~= Seq::<InstructionV>::empty());
        }
        return ins;
    }
    let ghost bodyv = body.deep_view();
    let ghost c_start = ctx@;
    let head = body.remove(0);
    proof {
        assert(body.deep_view() =~= bodyv.drop_first());
        assert(head.deep_view() == bodyv[0]);
        assert(forall|k: int| 0 <= k < body.deep_view().len() ==> item_valid_targets(
            #[trigger] body.deep_view()[k],
        ));
    }
    let mut head_instructions: Vec<Instruction> = match head {
        AstBlockItem::Declaration(declaration) => emit_tacky_declaration(declaration, ctx),
        AstBlockItem::Statement(statement) => emit_tacky_statement(statement, ctx),
    };
    proof {
        lemma_emit_item_counters(bodyv[0], c_start);
    }
    let ghost headv = head_instructions.deep_view();
    let mut rest_instructions = emit_tacky_body(body, ctx);
    head_instructions.append(&mut rest_instructions);
    proof {
        assert(head_instructions.deep_view() =~= headv + sp_emit_body(
            bodyv.drop_first(),
            sp_emit_item(bodyv[0], c_start).1,
        ).0);
    }
    head_instructions
}

fn emit_tacky_function(function: AstFunctionDefinition, ctx: &mut TackyContext) -> (r:
    FunctionDefinition)
    requires
        ({
            match function@ {
                AstFunctionDefinitionV::Function(_, body) => {
                    &&& body_valid_targets(body)
                    &&& old(ctx)@.tmp + body_nodes(body) <= u64::MAX
                    &&& old(ctx)@.and_labels + body_nodes(body) <= u64::MAX
                    &&& old(ctx)@.or_labels + body_nodes(body) <= u64::MAX
                },
            }
        }),
    ensures
        r@ == sp_emit_function(function@, old(ctx)@).0,
        final(ctx)@ == sp_emit_function(function@, old(ctx)@).1,
{
    match function {
        AstFunctionDefinition::Function(name, body) => {
            let ghost bodyv = body.deep_view();
            let ghost c_start = ctx@;
            let mut result_instructions = emit_tacky_body(body, ctx);
            let ghost resv = result_instructions.deep_view();
            result_instructions.push(Instruction::Return(Val::Constant(0)));
            proof {
                assert(result_instructions.deep_view() =~= resv.push(
                    InstructionV::Return(ValV::Constant(0)),
                ));
            }
            FunctionDefinition::Function(name, result_instructions)
        },
    }
}

/// Lower a resolved program to TACKY, with fresh counters for this
/// compilation. Every destination operand of the result is a `Var`.
pub fn emit_tacky(program: AstProgram) -> (r: Program)
    requires
        program_valid_targets(program@),
        program_nodes(program@) <= u64::MAX,
    ensures
        r@ == sp_emit_tacky(program@),
        program_dsts_are_vars(r@),
{
    proof {
        lemma_emit_tacky_dsts(program@);
    }
    let mut ctx = TackyContext::new();
    match program {
        AstProgram::Program(function) => {
            let f = emit_tacky_function(function, &mut ctx);
            Program::Program(f)
        },
    }
}

} // verus!
