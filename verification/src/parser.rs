//! Recursive-descent parser with precedence climbing.
//!
//! A program is one function of the shape `int <name> ( void ) { <block-items> }`.
//! Binary operators are left-associative; the right operand of an operator of
//! precedence `p` is parsed with minimum precedence `p + 1`. Assignment is
//! right-associative with the lowest precedence. Unary operators and
//! parenthesized expressions are part of the primary "factor".
//!
//! The parsing functions consume tokens from the front of the vector; on an
//! error, the tokens consumed up to the point of failure stay consumed.
//!
//! Each `sp_parse_*` function states what the matching parsing function
//! answers from a given position, together with the position where parsing
//! stopped. The bounds tests wrapped around their recursive calls keep the
//! definitions well-founded; the executable parser proves that the
//! positions stay in range, so those fallback branches describe no run of
//! it.

use vstd::prelude::*;
use vstd::string::*;

use crate::ast::AstBinaryOp;
use crate::ast::AstBlockItem;
use crate::ast::AstBlockItemV;
use crate::ast::AstDeclaration;
use crate::ast::AstDeclarationV;
use crate::ast::AstStatement;
use crate::ast::AstExpression;
use crate::ast::AstExpressionV;
use crate::ast::AstFunctionDefinition;
use crate::ast::AstFunctionDefinitionV;
use crate::ast::AstProgram;
use crate::ast::AstProgramV;
use crate::ast::AstStatementV;
use crate::ast::AstUnaryOp;
use crate::token::Token;
use crate::token::TokenV;
use crate::token::token_text;

verus! {

/// A syntax error; the payload is the diagnostic message.
#[derive(Debug)]
pub struct ParserErr(pub String);

impl View for ParserErr {
    type V = Seq<char>;

    open spec fn view(&self) -> Seq<char> {
        self.0@
    }
}

impl PartialEq for ParserErr {
    fn eq(&self, other: &ParserErr) -> (r: bool) {
        self.0.eq(&other.0)
    }
}

impl vstd::std_specs::cmp::PartialEqSpecImpl for ParserErr {
    open spec fn obeys_eq_spec() -> bool {
        true
    }

    open spec fn eq_spec(&self, other: &ParserErr) -> bool {
        self@ == other@
    }
}

/// The message naming an expected token and the token found instead.
pub open spec fn msg_expected(expected: TokenV, actual: TokenV) -> Seq<char> {
    "expected "@ + token_text(expected) + ", got "@ + token_text(actual)
}

/// The message for a token that cannot begin a unary operation.
pub open spec fn msg_expected_unary(actual: TokenV) -> Seq<char> {
    "expected token signifying unary operation, got "@ + token_text(actual)
}

/// The message for a token that cannot begin a binary operation.
pub open spec fn msg_expected_binary(actual: TokenV) -> Seq<char> {
    "expected token signifying binary operation, got "@ + token_text(actual)
}

/// Whether a token is a binary operator of the expression grammar.
pub open spec fn is_binary_op_token(t: TokenV) -> bool {
    match t {
        TokenV::Plus => true,
        TokenV::Hyphen => true,
        TokenV::Asterisk => true,
        TokenV::ForwardSlash => true,
        TokenV::Percent => true,
        TokenV::LogicalAnd => true,
        TokenV::LogicalOr => true,
        TokenV::LogicalEqual => true,
        TokenV::LogicalNotEqual => true,
        TokenV::LessThan => true,
        TokenV::LessThanEqual => true,
        TokenV::GreaterThan => true,
        TokenV::GreaterThanEqual => true,
        _ => false,
    }
}

/// The precedence of a binary operator token.
pub open spec fn sp_precedence(t: TokenV) -> int {
    match t {
        TokenV::Asterisk => 50,
        TokenV::ForwardSlash => 50,
        TokenV::Percent => 50,
        TokenV::Plus => 45,
        TokenV::Hyphen => 45,
        TokenV::LessThan => 40,
        TokenV::LessThanEqual => 40,
        TokenV::GreaterThan => 40,
        TokenV::GreaterThanEqual => 40,
        TokenV::LogicalEqual => 35,
        TokenV::LogicalNotEqual => 35,
        TokenV::LogicalAnd => 10,
        TokenV::LogicalOr => 5,
        _ => 0,
    }
}

/// The AST operator a binary operator token stands for.
pub open spec fn binop_of_token(t: TokenV) -> AstBinaryOp {
    match t {
        TokenV::Plus => AstBinaryOp::Add,
        TokenV::Hyphen => AstBinaryOp::Subtract,
        TokenV::Asterisk => AstBinaryOp::Multiply,
        TokenV::ForwardSlash => AstBinaryOp::Divide,
        TokenV::Percent => AstBinaryOp::Remainder,
        TokenV::LogicalAnd => AstBinaryOp::And,
        TokenV::LogicalOr => AstBinaryOp::Or,
        TokenV::LogicalEqual => AstBinaryOp::Equal,
        TokenV::LogicalNotEqual => AstBinaryOp::NotEqual,
        TokenV::LessThan => AstBinaryOp::LessThan,
        TokenV::LessThanEqual => AstBinaryOp::LessOrEqual,
        TokenV::GreaterThan => AstBinaryOp::GreaterThan,
        _ => AstBinaryOp::GreaterOrEqual,
    }
}

/// The AST operator a unary operator token stands for.
pub open spec fn unop_of_token(t: TokenV) -> AstUnaryOp {
    match t {
        TokenV::Tilde => AstUnaryOp::Complement,
        TokenV::Hyphen => AstUnaryOp::Negate,
        _ => AstUnaryOp::Not,
    }
}

/// What [`expect`] answers for the token at position `i`: success when the
/// token is there and matches the expected token, by category for
/// identifiers and constants and by value otherwise.
pub open spec fn sp_expect_at(expected: TokenV, toks: Seq<TokenV>, i: int) -> Result<
    (),
    Seq<char>,
> {
    if i >= toks.len() {
        Err("No more tokens"@)
    } else {
        match (expected, toks[i]) {
            (TokenV::Identifier(_), TokenV::Identifier(_)) => Ok(()),
            (TokenV::Constant(_), TokenV::Constant(_)) => Ok(()),
            _ => if expected == toks[i] {
                Ok(())
            } else {
                Err(msg_expected(expected, toks[i]))
            },
        }
    }
}

fn expected_message(expected: &Token, actual: &Token) -> (s: String)
    ensures
        s@ == msg_expected(expected@, actual@),
{
    String::from_str("expected ").concat(expected.text().as_str()).concat(", got ").concat(
        actual.text().as_str(),
    )
}

/// Check that the first remaining token matches `expected`: identifiers
/// and constants match by category, every other token by value.
pub fn expect(expected: &Token, tokens: &Vec<Token>) -> (r: Result<(), ParserErr>)
    ensures
        match r {
            Ok(_) => sp_expect_at(expected@, tokens.deep_view(), 0) is Ok,
            Err(e) => sp_expect_at(expected@, tokens.deep_view(), 0) matches Err(m) && e@ == m,
        },
{
    if tokens.len() == 0 {
        return Err(ParserErr(String::from_str("No more tokens")));
    }
    let actual = &tokens[0];
    proof {
        assert(tokens.deep_view()[0] == tokens@[0].deep_view());
    }
    match (expected, actual) {
        (Token::Identifier(_), Token::Identifier(_)) => Ok(()),
        (Token::Constant(_), Token::Constant(_)) => Ok(()),
        _ => {
            if expected.eq(actual) {
                Ok(())
            } else {
                Err(ParserErr(expected_message(expected, actual)))
            }
        },
    }
}

/// What [`parse_unary_operator`] answers for the token at position `i`.
pub open spec fn sp_parse_unary_operator(toks: Seq<TokenV>, i: int) -> Result<
    AstUnaryOp,
    Seq<char>,
> {
    if i >= toks.len() {
        Err("No more tokens"@)
    } else {
        match toks[i] {
            TokenV::Tilde => Ok(AstUnaryOp::Complement),
            TokenV::Hyphen => Ok(AstUnaryOp::Negate),
            TokenV::LogicalNot => Ok(AstUnaryOp::Not),
            _ => Err(msg_expected_unary(toks[i])),
        }
    }
}

/// Read the unary operator spelled by the first remaining token.
pub fn parse_unary_operator(tokens: &Vec<Token>) -> (r: Result<AstUnaryOp, ParserErr>)
    ensures
        match r {
            Ok(op) => sp_parse_unary_operator(tokens.deep_view(), 0) == Ok::<_, Seq<char>>(op),
            Err(e) => sp_parse_unary_operator(tokens.deep_view(), 0) matches Err(m) && e@ == m,
        },
{
    if tokens.len() == 0 {
        return Err(ParserErr(String::from_str("No more tokens")));
    }
    let token = &tokens[0];
    proof {
        assert(tokens.deep_view()[0] == tokens@[0].deep_view());
    }
    match token {
        Token::Tilde => Ok(AstUnaryOp::Complement),
        Token::Hyphen => Ok(AstUnaryOp::Negate),
        Token::LogicalNot => Ok(AstUnaryOp::Not),
        _ => Err(
            ParserErr(
                String::from_str("expected token signifying unary operation, got ").concat(
                    token.text().as_str(),
                ),
            ),
        ),
    }
}

/// What [`parse_binary_operator`] answers for the token at position `i`.
pub open spec fn sp_parse_binary_operator(toks: Seq<TokenV>, i: int) -> Result<
    AstBinaryOp,
    Seq<char>,
> {
    if i >= toks.len() {
        Err("No more tokens"@)
    } else if is_binary_op_token(toks[i]) {
        Ok(binop_of_token(toks[i]))
    } else {
        Err(msg_expected_binary(toks[i]))
    }
}

/// Read the binary operator spelled by the first remaining token.
pub fn parse_binary_operator(tokens: &Vec<Token>) -> (r: Result<AstBinaryOp, ParserErr>)
    ensures
        match r {
            Ok(op) => sp_parse_binary_operator(tokens.deep_view(), 0) == Ok::<_, Seq<char>>(op),
            Err(e) => sp_parse_binary_operator(tokens.deep_view(), 0) matches Err(m) && e@ == m,
        },
{
    if tokens.len() == 0 {
        return Err(ParserErr(String::from_str("No more tokens")));
    }
    let token = &tokens[0];
    proof {
        assert(tokens.deep_view()[0] == tokens@[0].deep_view());
    }
    match token {
        Token::Plus => Ok(AstBinaryOp::Add),
        Token::Hyphen => Ok(AstBinaryOp::Subtract),
        Token::Asterisk => Ok(AstBinaryOp::Multiply),
        Token::ForwardSlash => Ok(AstBinaryOp::Divide),
        Token::Percent => Ok(AstBinaryOp::Remainder),
        Token::LogicalAnd => Ok(AstBinaryOp::And),
        Token::LogicalOr => Ok(AstBinaryOp::Or),
        Token::LogicalEqual => Ok(AstBinaryOp::Equal),
        Token::LogicalNotEqual => Ok(AstBinaryOp::NotEqual),
        Token::LessThan => Ok(AstBinaryOp::LessThan),
        Token::LessThanEqual => Ok(AstBinaryOp::LessOrEqual),
        Token::GreaterThan => Ok(AstBinaryOp::GreaterThan),
        Token::GreaterThanEqual => Ok(AstBinaryOp::GreaterOrEqual),
        _ => Err(
            ParserErr(
                String::from_str("expected token signifying binary operation, got ").concat(
                    token.text().as_str(),
                ),
            ),
        ),
    }
}

/// The precedence of a binary operator token.
pub fn binary_op_precedence(binary_op: &Token) -> (p: u8)
    requires
        is_binary_op_token(binary_op@),
    ensures
        p as int == sp_precedence(binary_op@),
{
    match binary_op {
        Token::Asterisk | Token::ForwardSlash | Token::Percent => 50,
        Token::Plus | Token::Hyphen => 45,
        Token::LessThan | Token::LessThanEqual | Token::GreaterThan | Token::GreaterThanEqual => 40,
        Token::LogicalEqual | Token::LogicalNotEqual => 35,
        Token::LogicalAnd => 10,
        _ => 5,
    }
}

/// What [`parse_factor`] answers from position `i`: the parsed factor and
/// the position of the factor's last token, which the caller consumes.
pub open spec fn sp_parse_factor(toks: Seq<TokenV>, i: int) -> (Result<AstExpressionV, Seq<char>>, int)
    decreases toks.len() - i, 0int,
{
    if !(0 <= i < toks.len()) {
        (Err("No more tokens"@), i)
    } else {
        match toks[i] {
            TokenV::Constant(n) => (Ok(AstExpressionV::Constant(n)), i),
            TokenV::Identifier(name) => (Ok(AstExpressionV::Var(name)), i),
            TokenV::Tilde | TokenV::Hyphen | TokenV::LogicalNot => {
                let op = unop_of_token(toks[i]);
                let inner = sp_parse_factor(toks, i + 1);
                match inner.0 {
                    Ok(e) => (Ok(AstExpressionV::Unary(op, Box::new(e))), inner.1),
                    Err(m) => (Err(m), inner.1),
                }
            },
            TokenV::OpenParen => {
                let inner = sp_parse_expression(toks, i + 1, 0);
                match inner.0 {
                    Ok(e) => match sp_expect_at(TokenV::CloseParen, toks, inner.1) {
                        Ok(_) => (Ok(e), inner.1),
                        Err(m) => (Err(m), inner.1),
                    },
                    Err(m) => (Err(m), inner.1),
                }
            },
            _ => (Err(msg_expected(TokenV::Constant(0), toks[i])), i),
        }
    }
}

/// What [`parse_expression`] answers from position `i`: the expression and
/// the position just after it, every token of it consumed.
pub open spec fn sp_parse_expression(toks: Seq<TokenV>, i: int, min_prec: int) -> (Result<
    AstExpressionV,
    Seq<char>,
>, int)
    decreases toks.len() - i, 1int,
{
    let f = sp_parse_factor(toks, i);
    match f.0 {
        Err(m) => (Err(m), f.1),
        Ok(left) => if i <= f.1 < toks.len() {
            sp_exp_loop(toks, f.1 + 1, left, min_prec)
        } else {
            (Err("No more tokens"@), f.1)
        },
    }
}

/// The precedence-climbing loop: while the next token is an operator that
/// binds at least as tightly as `min_prec`, attach a right operand parsed
/// with a higher threshold (the same threshold for the right-associative
/// assignment).
pub open spec fn sp_exp_loop(toks: Seq<TokenV>, i: int, left: AstExpressionV, min_prec: int) -> (Result<
    AstExpressionV,
    Seq<char>,
>, int)
    decreases toks.len() - i, 0int,
{
    if 0 <= i < toks.len() && toks[i] == TokenV::Equal && min_prec <= 1 {
        let r = sp_parse_expression(toks, i + 1, 1);
        match r.0 {
            Err(m) => (Err(m), r.1),
            Ok(right) => {
                let combined = AstExpressionV::Assignment(Box::new(left), Box::new(right));
                if i < r.1 && r.1 <= toks.len() {
                    sp_exp_loop(toks, r.1, combined, min_prec)
                } else {
                    (Err("No more tokens"@), r.1)
                }
            },
        }
    } else if 0 <= i < toks.len() && is_binary_op_token(toks[i]) && sp_precedence(toks[i])
        >= min_prec {
        let r = sp_parse_expression(toks, i + 1, sp_precedence(toks[i]) + 1);
        match r.0 {
            Err(m) => (Err(m), r.1),
            Ok(right) => {
                let combined = AstExpressionV::Binary(
                    binop_of_token(toks[i]),
                    Box::new(left),
                    Box::new(right),
                );
                if i < r.1 && r.1 <= toks.len() {
                    sp_exp_loop(toks, r.1, combined, min_prec)
                } else {
                    (Err("No more tokens"@), r.1)
                }
            },
        }
    } else {
        (Ok(left), i)
    }
}

/// What [`parse_statement`] answers from position `i`.
pub open spec fn sp_parse_statement(toks: Seq<TokenV>, i: int) -> (Result<
    AstStatementV,
    Seq<char>,
>, int)
    decreases toks.len() - i, 3int,
{
    if !(0 <= i < toks.len()) {
        (Err("No more tokens"@), i)
    } else if toks[i] == TokenV::Semicolon {
        (Ok(AstStatementV::Null), i + 1)
    } else if toks[i] == TokenV::Return {
        let e = sp_parse_expression(toks, i + 1, 0);
        match e.0 {
            Err(m) => (Err(m), e.1),
            Ok(expr) => match sp_expect_at(TokenV::Semicolon, toks, e.1) {
                Ok(_) => (Ok(AstStatementV::Return(expr)), e.1 + 1),
                Err(m) => (Err(m), e.1),
            },
        }
    } else {
        let e = sp_parse_expression(toks, i, 0);
        match e.0 {
            Err(m) => (Err(m), e.1),
            Ok(expr) => match sp_expect_at(TokenV::Semicolon, toks, e.1) {
                Ok(_) => (Ok(AstStatementV::Expression(expr)), e.1 + 1),
                Err(m) => (Err(m), e.1),
            },
        }
    }
}

/// What the declaration grammar `int <name> [ = <exp> ] ;` answers from
/// position `i`.
pub open spec fn sp_parse_declaration(toks: Seq<TokenV>, i: int) -> (Result<
    AstDeclarationV,
    Seq<char>,
>, int)
    decreases toks.len() - i, 3int,
{
    match sp_expect_at(TokenV::Integer, toks, i) {
        Err(m) => (Err(m), i),
        Ok(_) => if i + 1 >= toks.len() {
            (Err("No more tokens"@), i + 1)
        } else {
            match toks[i + 1] {
                TokenV::Identifier(name) => if i + 2 < toks.len() && toks[i + 2]
                    == TokenV::Equal {
                    let e = sp_parse_expression(toks, i + 3, 0);
                    match e.0 {
                        Err(m) => (Err(m), e.1),
                        Ok(expr) => match sp_expect_at(TokenV::Semicolon, toks, e.1) {
                            Ok(_) => (
                                Ok(AstDeclarationV::Declaration(name, Some(expr))),
                                e.1 + 1,
                            ),
                            Err(m) => (Err(m), e.1),
                        },
                    }
                } else {
                    match sp_expect_at(TokenV::Semicolon, toks, i + 2) {
                        Ok(_) => (Ok(AstDeclarationV::Declaration(name, None)), i + 3),
                        Err(m) => (Err(m), i + 2),
                    }
                },
                _ => (
                    Err(msg_expected(TokenV::Identifier(Seq::empty()), toks[i + 1])),
                    i + 1,
                ),
            }
        },
    }
}

/// What [`expect_sequence_with_remove`] answers: the position reached is
/// `i` plus the number of tokens that matched before the first mismatch.
pub open spec fn sp_expect_sequence(expected: Seq<TokenV>, toks: Seq<TokenV>, i: int) -> (Result<
    (),
    Seq<char>,
>, int)
    decreases expected.len(),
{
    if expected.len() == 0 {
        (Ok(()), i)
    } else {
        match sp_expect_at(expected[0], toks, i) {
            Err(m) => (Err(m), i),
            Ok(_) => sp_expect_sequence(expected.drop_first(), toks, i + 1),
        }
    }
}

/// The function body: block items up to the closing brace, declarations
/// and statements in source order.
pub open spec fn sp_parse_body(toks: Seq<TokenV>, i: int) -> (Result<
    Seq<AstBlockItemV>,
    Seq<char>,
>, int)
    decreases toks.len() - i, 4int,
{
    if !(0 <= i < toks.len()) || toks[i] == TokenV::CloseBrace {
        (Ok(Seq::empty()), i)
    } else {
        let item: (Result<AstBlockItemV, Seq<char>>, int) = if toks[i] == TokenV::Integer {
            let d = sp_parse_declaration(toks, i);
            match d.0 {
                Ok(dd) => (Ok(AstBlockItemV::Declaration(dd)), d.1),
                Err(m) => (Err(m), d.1),
            }
        } else {
            let s = sp_parse_statement(toks, i);
            match s.0 {
                Ok(ss) => (Ok(AstBlockItemV::Statement(ss)), s.1),
                Err(m) => (Err(m), s.1),
            }
        };
        match item.0 {
            Err(m) => (Err(m), item.1),
            Ok(it) => if i < item.1 && item.1 <= toks.len() {
                let rest = sp_parse_body(toks, item.1);
                match rest.0 {
                    Ok(items) => (Ok(seq![it] + items), rest.1),
                    Err(m) => (Err(m), rest.1),
                }
            } else {
                (Err("No more tokens"@), item.1)
            },
        }
    }
}

/// What [`parse_function`] answers from position `i`: one function of the
/// fixed shape `int <name> ( void ) { <block-items> }`.
pub open spec fn sp_parse_function(toks: Seq<TokenV>, i: int) -> (Result<
    AstFunctionDefinitionV,
    Seq<char>,
>, int)
    decreases toks.len() - i, 5int,
{
    match sp_expect_at(TokenV::Integer, toks, i) {
        Err(m) => (Err(m), i),
        Ok(_) => if i + 1 >= toks.len() {
            (Err("No more tokens"@), i + 1)
        } else {
            match toks[i + 1] {
                TokenV::Identifier(name) => {
                    let pre = sp_expect_sequence(
                        seq![TokenV::OpenParen, TokenV::Void, TokenV::CloseParen, TokenV::OpenBrace],
                        toks,
                        i + 2,
                    );
                    match pre.0 {
                        Err(m) => (Err(m), pre.1),
                        Ok(_) => if i < pre.1 && pre.1 <= toks.len() {
                            let body = sp_parse_body(toks, pre.1);
                            match body.0 {
                                Err(m) => (Err(m), body.1),
                                Ok(items) => match sp_expect_at(
                                    TokenV::CloseBrace,
                                    toks,
                                    body.1,
                                ) {
                                    Ok(_) => (
                                        Ok(AstFunctionDefinitionV::Function(name, items)),
                                        body.1 + 1,
                                    ),
                                    Err(m) => (Err(m), body.1),
                                },
                            }
                        } else {
                            (Err("No more tokens"@), pre.1)
                        },
                    }
                },
                _ => (
                    Err(msg_expected(TokenV::Identifier(Seq::empty()), toks[i + 1])),
                    i + 1,
                ),
            }
        },
    }
}

/// What [`parse_program`] answers: the function, with any leftover tokens
/// a syntax error.
pub open spec fn sp_parse_program(toks: Seq<TokenV>) -> (Result<AstProgramV, Seq<char>>, int) {
    let f = sp_parse_function(toks, 0);
    match f.0 {
        Err(m) => (Err(m), f.1),
        Ok(fun) => if f.1 == toks.len() {
            (Ok(AstProgramV::Program(fun)), f.1)
        } else {
            (Err("Syntax error!"@), f.1)
        },
    }
}

/// Parsing is deterministic: the program built from a token sequence is a
/// function of the tokens' values alone, so two runs of [`parse_program`]
/// over equal token sequences answer the identical AST (and the identical
/// error), however the tokens were produced.
pub proof fn lemma_parse_program_deterministic(toks1: Seq<TokenV>, toks2: Seq<TokenV>)
    requires
        toks1 == toks2,
    ensures
        sp_parse_program(toks1) == sp_parse_program(toks2),
{
}

fn expect_core(expected: &Token, toks: &Vec<Token>, i: usize) -> (r: Result<(), ParserErr>)
    requires
        i <= toks@.len(),
    ensures
        match r {
            Ok(_) => sp_expect_at(expected@, toks.deep_view(), i as int) is Ok,
            Err(e) => sp_expect_at(expected@, toks.deep_view(), i as int) matches Err(m) && e@
                == m,
        },
{
    if i >= toks.len() {
        return Err(ParserErr(String::from_str("No more tokens")));
    }
    let actual = &toks[i];
    proof {
        assert(toks.deep_view()[i as int] == toks@[i as int].deep_view());
    }
    match (expected, actual) {
        (Token::Identifier(_), Token::Identifier(_)) => Ok(()),
        (Token::Constant(_), Token::Constant(_)) => Ok(()),
        _ => {
            if expected.eq(actual) {
                Ok(())
            } else {
                Err(ParserErr(expected_message(expected, actual)))
            }
        },
    }
}

fn token_is_binary_op(t: &Token) -> (b: bool)
    ensures
        b == is_binary_op_token(t@),
{
    match t {
        Token::Plus => true,
        Token::Hyphen => true,
        Token::Asterisk => true,
        Token::ForwardSlash => true,
        Token::Percent => true,
        Token::LogicalAnd => true,
        Token::LogicalOr => true,
        Token::LogicalEqual => true,
        Token::LogicalNotEqual => true,
        Token::LessThan => true,
        Token::LessThanEqual => true,
        Token::GreaterThan => true,
        Token::GreaterThanEqual => true,
        _ => false,
    }
}

fn token_binop(t: &Token) -> (op: AstBinaryOp)
    requires
        is_binary_op_token(t@),
    ensures
        op == binop_of_token(t@),
{
    match t {
        Token::Plus => AstBinaryOp::Add,
        Token::Hyphen => AstBinaryOp::Subtract,
        Token::Asterisk => AstBinaryOp::Multiply,
        Token::ForwardSlash => AstBinaryOp::Divide,
        Token::Percent => AstBinaryOp::Remainder,
        Token::LogicalAnd => AstBinaryOp::And,
        Token::LogicalOr => AstBinaryOp::Or,
        Token::LogicalEqual => AstBinaryOp::Equal,
        Token::LogicalNotEqual => AstBinaryOp::NotEqual,
        Token::LessThan => AstBinaryOp::LessThan,
        Token::LessThanEqual => AstBinaryOp::LessOrEqual,
        Token::GreaterThan => AstBinaryOp::GreaterThan,
        _ => AstBinaryOp::GreaterOrEqual,
    }
}

fn factor_core(toks: &Vec<Token>, i: usize) -> (r: (Result<AstExpression, ParserErr>, usize))
    requires
        i <= toks@.len(),
    ensures
        ({
            let sp = sp_parse_factor(toks.deep_view(), i as int);
            &&& r.1 as int == sp.1
            &&& i <= r.1 <= toks@.len()
            &&& match r.0 {
                Ok(e) => sp.0 == Ok::<AstExpressionV, Seq<char>>(e@),
                Err(pe) => sp.0 matches Err(m) && pe@ == m,
            }
        }),
    decreases toks@.len() - i, 0int,
{
    if i >= toks.len() {
        return (Err(ParserErr(String::from_str("No more tokens"))), i);
    }
    let t = &toks[i];
    proof {
        assert(toks.deep_view()[i as int] == toks@[i as int].deep_view());
    }
    match t {
        Token::Constant(n) => (Ok(AstExpression::Constant(*n)), i),
        Token::Identifier(name) => (Ok(AstExpression::Var(name.clone())), i),
        Token::Tilde => {
            let inner = factor_core(toks, i + 1);
            match inner.0 {
                Ok(e) => (Ok(AstExpression::Unary(AstUnaryOp::Complement, Box::new(e))), inner.1),
                Err(pe) => (Err(pe), inner.1),
            }
        },
        Token::Hyphen => {
            let inner = factor_core(toks, i + 1);
            match inner.0 {
                Ok(e) => (Ok(AstExpression::Unary(AstUnaryOp::Negate, Box::new(e))), inner.1),
                Err(pe) => (Err(pe), inner.1),
            }
        },
        Token::LogicalNot => {
            let inner = factor_core(toks, i + 1);
            match inner.0 {
                Ok(e) => (Ok(AstExpression::Unary(AstUnaryOp::Not, Box::new(e))), inner.1),
                Err(pe) => (Err(pe), inner.1),
            }
        },
        Token::OpenParen => {
            let inner = expression_core(toks, i + 1, 0);
            match inner.0 {
                Ok(e) => match expect_core(&Token::CloseParen, toks, inner.1) {
                    Ok(_) => (Ok(e), inner.1),
                    Err(pe) => (Err(pe), inner.1),
                },
                Err(pe) => (Err(pe), inner.1),
            }
        },
        _ => (Err(ParserErr(expected_message(&Token::Constant(0), t))), i),
    }
}

fn expression_core(toks: &Vec<Token>, i: usize, min_prec: u8) -> (r: (Result<
    AstExpression,
    ParserErr,
>, usize))
    requires
        i <= toks@.len(),
    ensures
        ({
            let sp = sp_parse_expression(toks.deep_view(), i as int, min_prec as int);
            &&& r.1 as int == sp.1
            &&& i <= r.1 <= toks@.len()
            &&& match r.0 {
                Ok(e) => sp.0 == Ok::<AstExpressionV, Seq<char>>(e@),
                Err(pe) => sp.0 matches Err(m) && pe@ == m,
            }
        }),
    decreases toks@.len() - i, 1int,
{
    let f = factor_core(toks, i);
    match f.0 {
        Err(pe) => (Err(pe), f.1),
        Ok(left) => {
            if f.1 < toks.len() {
                exp_loop_core(toks, f.1 + 1, left, min_prec)
            } else {
                (Err(ParserErr(String::from_str("No more tokens"))), f.1)
            }
        },
    }
}

fn exp_loop_core(toks: &Vec<Token>, i: usize, left: AstExpression, min_prec: u8) -> (r: (Result<
    AstExpression,
    ParserErr,
>, usize))
    requires
        i <= toks@.len(),
    ensures
        ({
            let sp = sp_exp_loop(toks.deep_view(), i as int, left@, min_prec as int);
            &&& r.1 as int == sp.1
            &&& i <= r.1 <= toks@.len()
            &&& match r.0 {
                Ok(e) => sp.0 == Ok::<AstExpressionV, Seq<char>>(e@),
                Err(pe) => sp.0 matches Err(m) && pe@ == m,
            }
        }),
    decreases toks@.len() - i, 0int,
{
    if i >= toks.len() {
        return (Ok(left), i);
    }
    let t = &toks[i];
    proof {
        assert(toks.deep_view()[i as int] == toks@[i as int].deep_view());
    }
    let is_assign = if let Token::Equal = t {
        true
    } else {
        false
    };
    if is_assign && min_prec <= 1 {
        let rr = expression_core(toks, i + 1, 1);
        match rr.0 {
            Err(pe) => (Err(pe), rr.1),
            Ok(right) => {
                let combined = AstExpression::Assignment(Box::new(left), Box::new(right));
                if i < rr.1 && rr.1 <= toks.len() {
                    exp_loop_core(toks, rr.1, combined, min_prec)
                } else {
                    (Err(ParserErr(String::from_str("No more tokens"))), rr.1)
                }
            },
        }
    } else if token_is_binary_op(t) {
        let p = binary_op_precedence(t);
        if p >= min_prec {
            let op = token_binop(t);
            let rr = expression_core(toks, i + 1, p + 1);
            match rr.0 {
                Err(pe) => (Err(pe), rr.1),
                Ok(right) => {
                    let combined = AstExpression::Binary(op, Box::new(left), Box::new(right));
                    if i < rr.1 && rr.1 <= toks.len() {
                        exp_loop_core(toks, rr.1, combined, min_prec)
                    } else {
                        (Err(ParserErr(String::from_str("No more tokens"))), rr.1)
                    }
                },
            }
        } else {
            (Ok(left), i)
        }
    } else {
        (Ok(left), i)
    }
}

fn statement_core(toks: &Vec<Token>, i: usize) -> (r: (Result<AstStatement, ParserErr>, usize))
    requires
        i <= toks@.len(),
    ensures
        ({
            let sp = sp_parse_statement(toks.deep_view(), i as int);
            &&& r.1 as int == sp.1
            &&& i <= r.1 <= toks@.len()
            &&& match r.0 {
                Ok(s) => sp.0 == Ok::<AstStatementV, Seq<char>>(s@),
                Err(pe) => sp.0 matches Err(m) && pe@ == m,
            }
        }),
    decreases toks@.len() - i, 3int,
{
    if i >= toks.len() {
        return (Err(ParserErr(String::from_str("No more tokens"))), i);
    }
    let t = &toks[i];
    proof {
        assert(toks.deep_view()[i as int] == toks@[i as int].deep_view());
    }
    if let Token::Semicolon = t {
        return (Ok(AstStatement::Null), i + 1);
    }
    if let Token::Return = t {
        let e = expression_core(toks, i + 1, 0);
        match e.0 {
            Err(pe) => (Err(pe), e.1),
            Ok(expr) => match expect_core(&Token::Semicolon, toks, e.1) {
                Ok(_) => (Ok(AstStatement::Return(expr)), e.1 + 1),
                Err(pe) => (Err(pe), e.1),
            },
        }
    } else {
        let e = expression_core(toks, i, 0);
        match e.0 {
            Err(pe) => (Err(pe), e.1),
            Ok(expr) => match expect_core(&Token::Semicolon, toks, e.1) {
                Ok(_) => (Ok(AstStatement::Expression(expr)), e.1 + 1),
                Err(pe) => (Err(pe), e.1),
            },
        }
    }
}

fn declaration_core(toks: &Vec<Token>, i: usize) -> (r: (Result<AstDeclaration, ParserErr>, usize))
    requires
        i <= toks@.len(),
    ensures
        ({
            let sp = sp_parse_declaration(toks.deep_view(), i as int);
            &&& r.1 as int == sp.1
            &&& i <= r.1 <= toks@.len()
            &&& match r.0 {
                Ok(d) => sp.0 == Ok::<AstDeclarationV, Seq<char>>(d@),
                Err(pe) => sp.0 matches Err(m) && pe@ == m,
            }
        }),
    decreases toks@.len() - i, 3int,
{
    match expect_core(&Token::Integer, toks, i) {
        Err(pe) => (Err(pe), i),
        Ok(_) => {
            let n = toks.len();
            if i + 1 >= n {
                return (Err(ParserErr(String::from_str("No more tokens"))), i + 1);
            }
            let t1 = &toks[i + 1];
            proof {
                assert(toks.deep_view()[i + 1] == toks@[i + 1].deep_view());
            }
            match t1 {
                Token::Identifier(name) => {
                    let has_init = if i + 2 < toks.len() {
                        proof {
                            assert(toks.deep_view()[i + 2] == toks@[i + 2].deep_view());
                        }
                        if let Token::Equal = &toks[i + 2] {
                            true
                        } else {
                            false
                        }
                    } else {
                        false
                    };
                    if has_init {
                        let e = expression_core(toks, i + 3, 0);
                        match e.0 {
                            Err(pe) => (Err(pe), e.1),
                            Ok(expr) => match expect_core(&Token::Semicolon, toks, e.1) {
                                Ok(_) => (
                                    Ok(AstDeclaration::Declaration(name.clone(), Some(expr))),
                                    e.1 + 1,
                                ),
                                Err(pe) => (Err(pe), e.1),
                            },
                        }
                    } else {
                        match expect_core(&Token::Semicolon, toks, i + 2) {
                            Ok(_) => (Ok(AstDeclaration::Declaration(name.clone(), None)), i + 3),
                            Err(pe) => (Err(pe), i + 2),
                        }
                    }
                },
                _ => {
                    let wanted = Token::Identifier(String::new());
                    let msg = expected_message(&wanted, t1);
                    proof {
                        assert(wanted@ == TokenV::Identifier(Seq::<char>::empty()));
                    }
                    (Err(ParserErr(msg)), i + 1)
                },
            }
        },
    }
}

fn expect_sequence_core(expected: &Vec<Token>, k: usize, toks: &Vec<Token>, i: usize) -> (r: (Result<
    (),
    ParserErr,
>, usize))
    requires
        k <= expected@.len(),
        i <= toks@.len(),
    ensures
        ({
            let sp = sp_expect_sequence(
                expected.deep_view().skip(k as int),
                toks.deep_view(),
                i as int,
            );
            &&& r.1 as int == sp.1
            &&& i <= r.1 <= toks@.len()
            &&& match r.0 {
                Ok(_) => sp.0 is Ok,
                Err(pe) => sp.0 matches Err(m) && pe@ == m,
            }
        }),
    decreases expected@.len() - k,
{
    let ghost rest = expected.deep_view().skip(k as int);
    if k >= expected.len() {
        proof {
            assert(rest.len() == 0);
        }
        return (Ok(()), i);
    }
    proof {
        assert(expected.deep_view()[k as int] == expected@[k as int].deep_view());
        assert(rest[0] == expected.deep_view()[k as int]);
    }
    match expect_core(&expected[k], toks, i) {
        Err(pe) => (Err(pe), i),
        Ok(_) => {
            proof {
                assert(rest.drop_first() =~= expected.deep_view().skip(k + 1));
            }
            // The successful expect puts `i` below the vector's length,
            // which fits in usize, so `i + 1` cannot overflow.
            let n = toks.len();
            if i < n {
                expect_sequence_core(expected, k + 1, toks, i + 1)
            } else {
                (Ok(()), i)
            }
        },
    }
}

fn body_core(toks: &Vec<Token>, i: usize) -> (r: (Result<Vec<AstBlockItem>, ParserErr>, usize))
    requires
        i <= toks@.len(),
    ensures
        ({
            let sp = sp_parse_body(toks.deep_view(), i as int);
            &&& r.1 as int == sp.1
            &&& i <= r.1 <= toks@.len()
            &&& match r.0 {
                Ok(items) => sp.0 == Ok::<Seq<AstBlockItemV>, Seq<char>>(items.deep_view()),
                Err(pe) => sp.0 matches Err(m) && pe@ == m,
            }
        }),
    decreases toks@.len() - i, 4int,
{
    if i >= toks.len() {
        let empty: Vec<AstBlockItem> = Vec::new();
        proof {
            assert(empty.deep_view() =~= Seq::<AstBlockItemV>::empty());
        }
        return (Ok(empty), i);
    }
    let t = &toks[i];
    proof {
        assert(toks.deep_view()[i as int] == toks@[i as int].deep_view());
    }
    if let Token::CloseBrace = t {
        let empty: Vec<AstBlockItem> = Vec::new();
        proof {
            assert(empty.deep_view() =~= Seq::<AstBlockItemV>::empty());
        }
        return (Ok(empty), i);
    }
    let is_declaration = if let Token::Integer = t {
        true
    } else {
        false
    };
    let item: (Result<AstBlockItem, ParserErr>, usize) = if is_declaration {
        let d = declaration_core(toks, i);
        match d.0 {
            Ok(dd) => (Ok(AstBlockItem::Declaration(dd)), d.1),
            Err(pe) => (Err(pe), d.1),
        }
    } else {
        let s = statement_core(toks, i);
        match s.0 {
            Ok(ss) => (Ok(AstBlockItem::Statement(ss)), s.1),
            Err(pe) => (Err(pe), s.1),
        }
    };
    match item.0 {
        Err(pe) => (Err(pe), item.1),
        Ok(it) => {
            if i < item.1 && item.1 <= toks.len() {
                let ghost itv = it@;
                let rest = body_core(toks, item.1);
                match rest.0 {
                    Ok(items) => {
                        let ghost restv = items.deep_view();
                        let mut items = items;
                        items.insert(0, it);
                        proof {
                            assert(items.deep_view() =~= seq![itv] + restv);
                        }
                        (Ok(items), rest.1)
                    },
                    Err(pe) => (Err(pe), rest.1),
                }
            } else {
                (Err(ParserErr(String::from_str("No more tokens"))), item.1)
            }
        },
    }
}

fn function_core(toks: &Vec<Token>, i: usize) -> (r: (Result<
    AstFunctionDefinition,
    ParserErr,
>, usize))
    requires
        i <= toks@.len(),
    ensures
        ({
            let sp = sp_parse_function(toks.deep_view(), i as int);
            &&& r.1 as int == sp.1
            &&& i <= r.1 <= toks@.len()
            &&& match r.0 {
                Ok(f) => sp.0 == Ok::<AstFunctionDefinitionV, Seq<char>>(f@),
                Err(pe) => sp.0 matches Err(m) && pe@ == m,
            }
        }),
    decreases toks@.len() - i, 5int,
{
    match expect_core(&Token::Integer, toks, i) {
        Err(pe) => (Err(pe), i),
        Ok(_) => {
            let n = toks.len();
            if i + 1 >= n {
                return (Err(ParserErr(String::from_str("No more tokens"))), i + 1);
            }
            let t1 = &toks[i + 1];
            proof {
                assert(toks.deep_view()[i + 1] == toks@[i + 1].deep_view());
            }
            match t1 {
                Token::Identifier(name) => {
                    let identifier = name.clone();
                    let prologue: Vec<Token> = vec![
                        Token::OpenParen,
                        Token::Void,
                        Token::CloseParen,
                        Token::OpenBrace,
                    ];
                    proof {
                        assert(prologue.deep_view()[0] == prologue@[0].deep_view());
                        assert(prologue.deep_view()[1] == prologue@[1].deep_view());
                        assert(prologue.deep_view()[2] == prologue@[2].deep_view());
                        assert(prologue.deep_view()[3] == prologue@[3].deep_view());
                        assert(prologue.deep_view() =~= seq![
                            TokenV::OpenParen,
                            TokenV::Void,
                            TokenV::CloseParen,
                            TokenV::OpenBrace,
                        ]);
                        assert(prologue.deep_view().skip(0) =~= prologue.deep_view());
                    }
                    let pre = expect_sequence_core(&prologue, 0, toks, i + 2);
                    match pre.0 {
                        Err(pe) => (Err(pe), pre.1),
                        Ok(_) => {
                            if i < pre.1 && pre.1 <= toks.len() {
                                let body = body_core(toks, pre.1);
                                match body.0 {
                                    Err(pe) => (Err(pe), body.1),
                                    Ok(items) => match expect_core(
                                        &Token::CloseBrace,
                                        toks,
                                        body.1,
                                    ) {
                                        Ok(_) => (
                                            Ok(
                                                AstFunctionDefinition::Function(
                                                    identifier,
                                                    items,
                                                ),
                                            ),
                                            body.1 + 1,
                                        ),
                                        Err(pe) => (Err(pe), body.1),
                                    },
                                }
                            } else {
                                (Err(ParserErr(String::from_str("No more tokens"))), pre.1)
                            }
                        },
                    }
                },
                _ => {
                    let wanted = Token::Identifier(String::new());
                    let msg = expected_message(&wanted, t1);
                    proof {
                        assert(wanted@ == TokenV::Identifier(Seq::<char>::empty()));
                    }
                    (Err(ParserErr(msg)), i + 1)
                },
            }
        },
    }
}

fn drain_front(tokens: &mut Vec<Token>, k: usize)
    requires
        k <= old(tokens)@.len(),
    ensures
        final(tokens)@ == old(tokens)@.skip(k as int),
        final(tokens).deep_view() == old(tokens).deep_view().skip(k as int),
{
    let mut c: usize = 0;
    while c < k
        invariant
            c <= k <= old(tokens)@.len(),
            tokens@ == old(tokens)@.skip(c as int),
        decreases k - c,
    {
        tokens.remove(0);
        c = c + 1;
        proof {
            assert(tokens@ =~= old(tokens)@.skip(c as int));
        }
    }
    proof {
        assert(tokens@ =~= old(tokens)@.skip(k as int));
        assert(tokens.deep_view() =~= old(tokens).deep_view().skip(k as int));
    }
}

/// Parse the whole token sequence into one program; any tokens left after
/// the function are a syntax error.
pub fn parse_program(tokens: &mut Vec<Token>) -> (r: Result<AstProgram, ParserErr>)
    ensures
        ({
            let sp = sp_parse_program(old(tokens).deep_view());
            &&& final(tokens).deep_view() == old(tokens).deep_view().skip(sp.1)
            &&& match r {
                Ok(p) => sp.0 == Ok::<AstProgramV, Seq<char>>(p@),
                Err(pe) => sp.0 matches Err(m) && pe@ == m,
            }
        }),
{
    let f = function_core(tokens, 0);
    drain_front(tokens, f.1);
    match f.0 {
        Err(pe) => Err(pe),
        Ok(function) => {
            if tokens.len() != 0 {
                Err(ParserErr(String::from_str("Syntax error!")))
            } else {
                Ok(AstProgram::Program(function))
            }
        },
    }
}

/// Parse one function definition from the front of the token sequence.
pub fn parse_function(tokens: &mut Vec<Token>) -> (r: Result<AstFunctionDefinition, ParserErr>)
    ensures
        ({
            let sp = sp_parse_function(old(tokens).deep_view(), 0);
            &&& final(tokens).deep_view() == old(tokens).deep_view().skip(sp.1)
            &&& match r {
                Ok(f) => sp.0 == Ok::<AstFunctionDefinitionV, Seq<char>>(f@),
                Err(pe) => sp.0 matches Err(m) && pe@ == m,
            }
        }),
{
    let f = function_core(tokens, 0);
    drain_front(tokens, f.1);
    f.0
}

/// Parse one statement from the front of the token sequence.
pub fn parse_statement(tokens: &mut Vec<Token>) -> (r: Result<AstStatement, ParserErr>)
    ensures
        ({
            let sp = sp_parse_statement(old(tokens).deep_view(), 0);
            &&& final(tokens).deep_view() == old(tokens).deep_view().skip(sp.1)
            &&& match r {
                Ok(s) => sp.0 == Ok::<AstStatementV, Seq<char>>(s@),
                Err(pe) => sp.0 matches Err(m) && pe@ == m,
            }
        }),
{
    let s = statement_core(tokens, 0);
    drain_front(tokens, s.1);
    s.0
}

/// Parse one expression with precedence climbing from the given minimum
/// precedence.
pub fn parse_expression(tokens: &mut Vec<Token>, min_prec: u8) -> (r: Result<
    AstExpression,
    ParserErr,
>)
    ensures
        ({
            let sp = sp_parse_expression(old(tokens).deep_view(), 0, min_prec as int);
            &&& final(tokens).deep_view() == old(tokens).deep_view().skip(sp.1)
            &&& match r {
                Ok(e) => sp.0 == Ok::<AstExpressionV, Seq<char>>(e@),
                Err(pe) => sp.0 matches Err(m) && pe@ == m,
            }
        }),
{
    let e = expression_core(tokens, 0, min_prec);
    drain_front(tokens, e.1);
    e.0
}

/// Parse one factor: a constant, a variable, a unary operation, or a
/// parenthesized expression. The factor's last token stays for the caller
/// to consume.
pub fn parse_factor(tokens: &mut Vec<Token>) -> (r: Result<AstExpression, ParserErr>)
    ensures
        ({
            let sp = sp_parse_factor(old(tokens).deep_view(), 0);
            &&& final(tokens).deep_view() == old(tokens).deep_view().skip(sp.1)
            &&& match r {
                Ok(e) => sp.0 == Ok::<AstExpressionV, Seq<char>>(e@),
                Err(pe) => sp.0 matches Err(m) && pe@ == m,
            }
        }),
{
    let e = factor_core(tokens, 0);
    drain_front(tokens, e.1);
    e.0
}

/// Check each expected token in turn against the front of the token
/// sequence, consuming the tokens that match; stop at the first mismatch.
pub fn expect_sequence_with_remove(expected: &Vec<Token>, tokens: &mut Vec<Token>) -> (r: Result<
    (),
    ParserErr,
>)
    ensures
        ({
            let sp = sp_expect_sequence(expected.deep_view(), old(tokens).deep_view(), 0);
            &&& final(tokens).deep_view() == old(tokens).deep_view().skip(sp.1)
            &&& match r {
                Ok(_) => sp.0 is Ok,
                Err(pe) => sp.0 matches Err(m) && pe@ == m,
            }
        }),
{
    proof {
        assert(expected.deep_view().skip(0) =~= expected.deep_view());
    }
    let e = expect_sequence_core(expected, 0, tokens, 0);
    drain_front(tokens, e.1);
    e.0
}

} // verus!
