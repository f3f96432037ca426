//! Variable resolution: every source-level name is replaced by a unique
//! compiler-generated name, and scope errors are detected.
//!
//! The pass keeps one flat scope per function. A declaration of a name
//! already bound fails with `DuplicateVariable`; a reference to an unbound
//! name fails with `UndeclaredVariable`; an assignment whose target is not
//! a variable fails with `InvalidLValue`.

use vstd::prelude::*;
use vstd::string::*;

use crate::ast::AstBlockItem;
use crate::ast::AstBlockItemV;
use crate::ast::AstDeclaration;
use crate::ast::AstDeclarationV;
use crate::ast::AstExpression;
use crate::ast::AstExpressionV;
use crate::ast::AstFunctionDefinition;
use crate::ast::AstFunctionDefinitionV;
use crate::ast::AstProgram;
use crate::ast::AstProgramV;
use crate::ast::AstStatement;
use crate::ast::AstStatementV;

verus! {

#[derive(Debug, Clone, PartialEq, Eq, Structural)]
pub enum SemanticError {
    UndeclaredVariable,
    DuplicateVariable,
    InvalidLValue,
}

/// The unique name minted for a declared source name.
pub open spec fn unique_name(name: Seq<char>) -> Seq<char> {
    name + ".0"@
}

/// What resolving an expression answers, given the names declared so far.
pub open spec fn sp_resolve_expression(e: AstExpressionV, declared: Seq<Seq<char>>) -> Result<
    AstExpressionV,
    SemanticError,
>
    decreases e,
{
    match e {
        AstExpressionV::Assignment(l, r) => {
            if (*l) is Var {
                match sp_resolve_expression(*l, declared) {
                    Err(se) => Err(se),
                    Ok(lr) => match sp_resolve_expression(*r, declared) {
                        Err(se) => Err(se),
                        Ok(rr) => Ok(AstExpressionV::Assignment(Box::new(lr), Box::new(rr))),
                    },
                }
            } else {
                Err(SemanticError::InvalidLValue)
            }
        },
        AstExpressionV::Var(name) => {
            if declared.contains(name) {
                Ok(AstExpressionV::Var(unique_name(name)))
            } else {
                Err(SemanticError::UndeclaredVariable)
            }
        },
        AstExpressionV::Binary(op, l, r) => {
            match sp_resolve_expression(*l, declared) {
                Err(se) => Err(se),
                Ok(lr) => match sp_resolve_expression(*r, declared) {
                    Err(se) => Err(se),
                    Ok(rr) => Ok(AstExpressionV::Binary(op, Box::new(lr), Box::new(rr))),
                },
            }
        },
        AstExpressionV::Unary(op, inner) => {
            match sp_resolve_expression(*inner, declared) {
                Err(se) => Err(se),
                Ok(ir) => Ok(AstExpressionV::Unary(op, Box::new(ir))),
            }
        },
        AstExpressionV::Constant(n) => Ok(AstExpressionV::Constant(n)),
    }
}

/// What resolving a statement answers.
pub open spec fn sp_resolve_statement(s: AstStatementV, declared: Seq<Seq<char>>) -> Result<
    AstStatementV,
    SemanticError,
> {
    match s {
        AstStatementV::Return(e) => match sp_resolve_expression(e, declared) {
            Err(se) => Err(se),
            Ok(er) => Ok(AstStatementV::Return(er)),
        },
        AstStatementV::Expression(e) => match sp_resolve_expression(e, declared) {
            Err(se) => Err(se),
            Ok(er) => Ok(AstStatementV::Expression(er)),
        },
        AstStatementV::Null => Ok(AstStatementV::Null),
    }
}

/// What resolving a declaration answers: the renamed declaration and the
/// updated set of declared names. The name is bound before its
/// initializer is resolved.
pub open spec fn sp_resolve_declaration(d: AstDeclarationV, declared: Seq<Seq<char>>) -> (Result<
    AstDeclarationV,
    SemanticError,
>, Seq<Seq<char>>) {
    match d {
        AstDeclarationV::Declaration(name, init) => {
            if declared.contains(name) {
                (Err(SemanticError::DuplicateVariable), declared)
            } else {
                let bound = declared.push(name);
                match init {
                    None => (Ok(AstDeclarationV::Declaration(unique_name(name), None)), bound),
                    Some(e) => match sp_resolve_expression(e, bound) {
                        Err(se) => (Err(se), bound),
                        Ok(er) => (
                            Ok(AstDeclarationV::Declaration(unique_name(name), Some(er))),
                            bound,
                        ),
                    },
                }
            }
        },
    }
}

/// What resolving a function body answers: the items in order, with the
/// declared names threaded through.
pub open spec fn sp_resolve_body(items: Seq<AstBlockItemV>, declared: Seq<Seq<char>>) -> (Result<
    Seq<AstBlockItemV>,
    SemanticError,
>, Seq<Seq<char>>)
    decreases items.len(),
{
    if items.len() == 0 {
        (Ok(Seq::empty()), declared)
    } else {
        let head: (Result<AstBlockItemV, SemanticError>, Seq<Seq<char>>) = match items[0] {
            AstBlockItemV::Declaration(d) => {
                let dr = sp_resolve_declaration(d, declared);
                match dr.0 {
                    Err(se) => (Err(se), dr.1),
                    Ok(dd) => (Ok(AstBlockItemV::Declaration(dd)), dr.1),
                }
            },
            AstBlockItemV::Statement(s) => match sp_resolve_statement(s, declared) {
                Err(se) => (Err(se), declared),
                Ok(ss) => (Ok(AstBlockItemV::Statement(ss)), declared),
            },
        };
        match head.0 {
            Err(se) => (Err(se), head.1),
            Ok(it) => {
                let rest = sp_resolve_body(items.drop_first(), head.1);
                match rest.0 {
                    Err(se) => (Err(se), rest.1),
                    Ok(its) => (Ok(seq![it] + its), rest.1),
                }
            },
        }
    }
}

/// What resolving a function answers: the body resolved in a fresh scope.
pub open spec fn sp_resolve_function(f: AstFunctionDefinitionV) -> Result<
    AstFunctionDefinitionV,
    SemanticError,
> {
    match f {
        AstFunctionDefinitionV::Function(name, body) => {
            let br = sp_resolve_body(body, Seq::empty());
            match br.0 {
                Err(se) => Err(se),
                Ok(items) => Ok(AstFunctionDefinitionV::Function(name, items)),
            }
        },
    }
}

/// What resolving a program answers.
pub open spec fn sp_resolve_program(p: AstProgramV) -> Result<AstProgramV, SemanticError> {
    match p {
        AstProgramV::Program(f) => match sp_resolve_function(f) {
            Err(se) => Err(se),
            Ok(fr) => Ok(AstProgramV::Program(fr)),
        },
    }
}

/// A resolved expression has only variables as assignment targets.
proof fn lemma_resolve_expression_targets(e: AstExpressionV, declared: Seq<Seq<char>>)
    ensures
        sp_resolve_expression(e, declared) matches Ok(out)
            ==> crate::tackygen::valid_targets(out),
    decreases e,
{
    match e {
        AstExpressionV::Assignment(l, r) => {
            lemma_resolve_expression_targets(*l, declared);
            lemma_resolve_expression_targets(*r, declared);
        },
        AstExpressionV::Binary(_, l, r) => {
            lemma_resolve_expression_targets(*l, declared);
            lemma_resolve_expression_targets(*r, declared);
        },
        AstExpressionV::Unary(_, inner) => {
            lemma_resolve_expression_targets(*inner, declared);
        },
        _ => {},
    }
}

proof fn lemma_resolve_body_targets(items: Seq<AstBlockItemV>, declared: Seq<Seq<char>>)
    ensures
        sp_resolve_body(items, declared).0 matches Ok(out)
            ==> crate::tackygen::body_valid_targets(out),
    decreases items.len(),
{
    if items.len() > 0 {
        match items[0] {
            AstBlockItemV::Declaration(d) => {
                match d {
                    AstDeclarationV::Declaration(_, Some(e)) => {
                        lemma_resolve_expression_targets(e, declared.push(d->0));
                    },
                    _ => {},
                }
                lemma_resolve_body_targets(
                    items.drop_first(),
                    sp_resolve_declaration(d, declared).1,
                );
            },
            AstBlockItemV::Statement(s) => {
                match s {
                    AstStatementV::Return(e) => lemma_resolve_expression_targets(e, declared),
                    AstStatementV::Expression(e) => lemma_resolve_expression_targets(
                        e,
                        declared,
                    ),
                    AstStatementV::Null => {},
                }
                lemma_resolve_body_targets(items.drop_first(), declared);
            },
        }
        if sp_resolve_body(items, declared).0 is Ok {
            let out = sp_resolve_body(items, declared).0->Ok_0;
            assert(forall|k: int| 0 < k < out.len()
                ==> crate::tackygen::item_valid_targets(#[trigger] out[k]));
            assert(crate::tackygen::item_valid_targets(out[0]));
        }
    }
}

/// What the resolver accepts it also leaves fit for TACKY lowering:
/// every assignment target in its output is a variable.
pub proof fn lemma_resolve_program_targets(p: AstProgramV)
    ensures
        sp_resolve_program(p) matches Ok(out) ==> crate::tackygen::program_valid_targets(out),
{
    match p {
        AstProgramV::Program(AstFunctionDefinitionV::Function(_, body)) => {
            lemma_resolve_body_targets(body, Seq::empty());
        },
    }
}

fn declared_contains(map: &Vec<String>, name: &String) -> (b: bool)
    ensures
        b == map.deep_view().contains(name@),
{
    let mut k: usize = 0;
    while k < map.len()
        invariant
            k <= map@.len(),
            forall|m: int| 0 <= m < k ==> map.deep_view()[m] != name@,
        decreases map@.len() - k,
    {
        proof {
            assert(map.deep_view()[k as int] == map@[k as int].deep_view());
        }
        if map[k].eq(name) {
            return true;
        }
        k = k + 1;
    }
    proof {
        assert(forall|m: int| 0 <= m < map.deep_view().len() ==> map.deep_view()[m] != name@);
    }
    false
}

fn mint_unique_name(name: &String) -> (r: String)
    ensures
        r@ == unique_name(name@),
{
    name.clone().concat(".0")
}

fn resolve_expression(ast_expression: AstExpression, variable_map: &Vec<String>) -> (r: Result<
    AstExpression,
    SemanticError,
>)
    ensures
        match r {
            Ok(out) => sp_resolve_expression(ast_expression@, variable_map.deep_view())
                == Ok::<AstExpressionV, SemanticError>(out@),
            Err(se) => sp_resolve_expression(ast_expression@, variable_map.deep_view())
                == Err::<AstExpressionV, SemanticError>(se),
        },
    decreases ast_expression,
{
    match ast_expression {
        AstExpression::Assignment(left, right) => {
            let is_var = if let AstExpression::Var(_) = &*left {
                true
            } else {
                false
            };
            if is_var {
                let lr = match resolve_expression(*left, variable_map) {
                    Err(se) => {
                        return Err(se);
                    },
                    Ok(lr) => lr,
                };
                let rr = match resolve_expression(*right, variable_map) {
                    Err(se) => {
                        return Err(se);
                    },
                    Ok(rr) => rr,
                };
                Ok(AstExpression::Assignment(Box::new(lr), Box::new(rr)))
            } else {
                Err(SemanticError::InvalidLValue)
            }
        },
        AstExpression::Var(identifier) => {
            if declared_contains(variable_map, &identifier) {
                Ok(AstExpression::Var(mint_unique_name(&identifier)))
            } else {
                Err(SemanticError::UndeclaredVariable)
            }
        },
        AstExpression::Binary(bin_op, left, right) => {
            let lr = match resolve_expression(*left, variable_map) {
                Err(se) => {
                    return Err(se);
                },
                Ok(lr) => lr,
            };
            let rr = match resolve_expression(*right, variable_map) {
                Err(se) => {
                    return Err(se);
                },
                Ok(rr) => rr,
            };
            Ok(AstExpression::Binary(bin_op, Box::new(lr), Box::new(rr)))
        },
        AstExpression::Unary(un_op, expr) => {
            let ir = match resolve_expression(*expr, variable_map) {
                Err(se) => {
                    return Err(se);
                },
                Ok(ir) => ir,
            };
            Ok(AstExpression::Unary(un_op, Box::new(ir)))
        },
        AstExpression::Constant(n) => Ok(AstExpression::Constant(n)),
    }
}

fn resolve_statement(ast_statement: AstStatement, variable_map: &Vec<String>) -> (r: Result<
    AstStatement,
    SemanticError,
>)
    ensures
        match r {
            Ok(out) => sp_resolve_statement(ast_statement@, variable_map.deep_view())
                == Ok::<AstStatementV, SemanticError>(out@),
            Err(se) => sp_resolve_statement(ast_statement@, variable_map.deep_view())
                == Err::<AstStatementV, SemanticError>(se),
        },
{
    match ast_statement {
        AstStatement::Return(expr) => match resolve_expression(expr, variable_map) {
            Err(se) => Err(se),
            Ok(er) => Ok(AstStatement::Return(er)),
        },
        AstStatement::Expression(expr) => match resolve_expression(expr, variable_map) {
            Err(se) => Err(se),
            Ok(er) => Ok(AstStatement::Expression(er)),
        },
        AstStatement::Null => Ok(AstStatement::Null),
    }
}

fn resolve_declaration(ast_declaration: AstDeclaration, variable_map: &mut Vec<String>) -> (r:
    Result<AstDeclaration, SemanticError>)
    ensures
        ({
            let sp = sp_resolve_declaration(ast_declaration@, old(variable_map).deep_view());
            &&& final(variable_map).deep_view() == sp.1
            &&& match r {
                Ok(out) => sp.0 == Ok::<AstDeclarationV, SemanticError>(out@),
                Err(se) => sp.0 == Err::<AstDeclarationV, SemanticError>(se),
            }
        }),
{
    match ast_declaration {
        AstDeclaration::Declaration(name, init) => {
            if declared_contains(variable_map, &name) {
                return Err(SemanticError::DuplicateVariable);
            }
            let unique = mint_unique_name(&name);
            variable_map.push(name);
            proof {
                assert(variable_map.deep_view() =~= old(variable_map).deep_view().push(
                    variable_map@[old(variable_map)@.len() as int].deep_view(),
                ));
            }
            match init {
                None => Ok(AstDeclaration::Declaration(unique, None)),
                Some(expr) => match resolve_expression(expr, variable_map) {
                    Err(se) => Err(se),
                    Ok(er) => Ok(AstDeclaration::Declaration(unique, Some(er))),
                },
            }
        },
    }
}

fn resolve_body(body: Vec<AstBlockItem>, variable_map: &mut Vec<String>) -> (r: Result<
    Vec<AstBlockItem>,
    SemanticError,
>)
    ensures
        ({
            let sp = sp_resolve_body(body.deep_view(), old(variable_map).deep_view());
            &&& final(variable_map).deep_view() == sp.1
            &&& match r {
                Ok(out) => sp.0 == Ok::<Seq<AstBlockItemV>, SemanticError>(out.deep_view()),
                Err(se) => sp.0 == Err::<Seq<AstBlockItemV>, SemanticError>(se),
            }
        }),
    decreases body@.len(),
{
    let mut body = body;
    if body.len() == 0 {
        let empty: Vec<AstBlockItem> = Vec::new();
        proof {
            assert(empty.deep_view() =~= Seq::<AstBlockItemV>::empty());
        }
        return Ok(empty);
    }
    let ghost bodyv = body.deep_view();
    let head = body.remove(0);
    proof {
        assert(body.deep_view() =~= bodyv.drop_first());
        assert(head.deep_view() == bodyv[0]);
    }
    let item: AstBlockItem = match head {
        AstBlockItem::Declaration(declaration) => {
            match resolve_declaration(declaration, variable_map) {
                Err(se) => {
                    return Err(se);
                },
                Ok(dd) => AstBlockItem::Declaration(dd),
            }
        },
        AstBlockItem::Statement(statement) => {
            match resolve_statement(statement, variable_map) {
                Err(se) => {
                    return Err(se);
                },
                Ok(ss) => AstBlockItem::Statement(ss),
            }
        },
    };
    let ghost itv = item@;
    match resolve_body(body, variable_map) {
        Err(se) => Err(se),
        Ok(rest) => {
            let ghost restv = rest.deep_view();
            let mut rest = rest;
            rest.insert(0, item);
            proof {
                assert(rest.deep_view() =~= seq![itv] + restv);
            }
            Ok(rest)
        },
    }
}

fn resolve_function(ast_function_def: AstFunctionDefinition) -> (r: Result<
    AstFunctionDefinition,
    SemanticError,
>)
    ensures
        match r {
            Ok(out) => sp_resolve_function(ast_function_def@) == Ok::<
                AstFunctionDefinitionV,
                SemanticError,
            >(out@),
            Err(se) => sp_resolve_function(ast_function_def@) == Err::<
                AstFunctionDefinitionV,
                SemanticError,
            >(se),
        },
{
    match ast_function_def {
        AstFunctionDefinition::Function(identifier, body) => {
            let mut variable_map: Vec<String> = Vec::new();
            proof {
                assert(variable_map.deep_view() =~= Seq::<Seq<char>>::empty());
            }
            match resolve_body(body, &mut variable_map) {
                Err(se) => Err(se),
                Ok(new_body) => Ok(AstFunctionDefinition::Function(identifier, new_body)),
            }
        },
    }
}

/// Resolve every variable of the program to a unique name, or report the
/// first scope error.
pub fn resolve_program(ast_program: AstProgram) -> (r: Result<AstProgram, SemanticError>)
    ensures
        match r {
            Ok(out) => sp_resolve_program(ast_program@) == Ok::<AstProgramV, SemanticError>(out@),
            Err(se) => sp_resolve_program(ast_program@) == Err::<AstProgramV, SemanticError>(se),
        },
{
    match ast_program {
        AstProgram::Program(function_definitions) => {
            match resolve_function(function_definitions) {
                Err(se) => Err(se),
                Ok(fr) => Ok(AstProgram::Program(fr)),
            }
        },
    }
}

} // verus!
