use minicc::ast::AstBlockItem;
use minicc::ast::AstExpression;
use minicc::ast::AstFunctionDefinition;
use minicc::ast::AstProgram;
use minicc::ast::AstStatement;
use minicc::parser::expect;
use minicc::parser::parse_expression;
use minicc::parser::parse_function;
use minicc::parser::parse_program;
use minicc::parser::parse_statement;
use minicc::parser::ParserErr;
use minicc::token::Token;

#[test]
fn expect_basic_pass() {
    let tokens = vec![Token::Constant(15)];

    let expected = &Token::Constant(0);
    assert_eq!(expect(expected, &tokens), Ok(()));
}

#[test]
fn expect_basic_err() {
    let tokens = vec![Token::Constant(15)];

    let expected = &Token::Identifier("main".to_string());
    assert_eq!(
        expect(expected, &tokens),
        Err(ParserErr(format!(
            "expected {:?}, got {:?}",
            expected,
            tokens.first().unwrap()
        )))
    );
}

#[test]
fn parse_expression_basic_pass() {
    let mut tokens = vec![Token::Constant(15), Token::Semicolon];

    let expr = parse_expression(&mut tokens, 0);

    assert_eq!(expr, Ok(AstExpression::Constant(15)));

    let mut tokens = vec![Token::Constant(15)];

    let expr = parse_expression(&mut tokens, 0);

    assert_eq!(expr, Ok(AstExpression::Constant(15)));
}

#[test]
fn parse_expression_basic_fail() {
    let mut tokens = vec![Token::Semicolon];

    let expr = parse_expression(&mut tokens, 0);

    assert_eq!(
        expr,
        Err(ParserErr(format!(
            "expected {:?}, got {:?}",
            &Token::Constant(0),
            tokens.first().unwrap()
        )))
    );
}

#[test]
fn parse_statement_pass_with_left_tokens() {
    let mut tokens = vec![
        Token::Return,
        Token::Constant(2),
        Token::Semicolon,
        Token::CloseBrace,
    ];

    let statement = parse_statement(&mut tokens);

    assert_eq!(
        statement,
        Ok(AstStatement::Return(AstExpression::Constant(2)))
    );
    assert_eq!(tokens, vec![Token::CloseBrace]);
    assert_eq!(tokens.len(), 1);
}

#[test]
fn parse_statement_pass_with_no_more_tokens() {
    let mut tokens = vec![Token::Return, Token::Constant(2), Token::Semicolon];

    let statement = parse_statement(&mut tokens);

    assert_eq!(
        statement,
        Ok(AstStatement::Return(AstExpression::Constant(2)))
    );
    assert_eq!(tokens.len(), 0);
    assert_eq!(tokens, vec![]);
}

#[test]
fn parse_statement_fail_with_incorrect_token_at_beginning() {
    // `int` cannot begin a statement; it is read as an expression
    // statement, whose leading factor is not there.
    let mut tokens = vec![Token::Integer, Token::Constant(2), Token::Semicolon];

    let statement = parse_statement(&mut tokens);

    assert_eq!(
        statement,
        Err(ParserErr(format!(
            "expected {:?}, got {:?}",
            &Token::Constant(0),
            tokens.first().unwrap()
        )))
    );
    assert_eq!(
        tokens,
        vec![Token::Integer, Token::Constant(2), Token::Semicolon]
    );
    assert_eq!(tokens.len(), 3);
}

#[test]
fn parse_statement_fail_with_incorrect_token() {
    // An identifier is a factor of the expression grammar, so this parses
    // as returning the variable `main`.
    let mut tokens = vec![
        Token::Return,
        Token::Identifier("main".to_string()),
        Token::Semicolon,
    ];

    let statement = parse_statement(&mut tokens);

    assert_eq!(
        statement,
        Ok(AstStatement::Return(AstExpression::Var(
            "main".to_string()
        )))
    );
    assert_eq!(tokens, vec![]);
    assert_eq!(tokens.len(), 0);
}

#[test]
fn parse_function_pass() {
    let mut tokens = vec![
        Token::Integer,
        Token::Identifier("main".to_string()),
        Token::OpenParen,
        Token::Void,
        Token::CloseParen,
        Token::OpenBrace,
        Token::Return,
        Token::Constant(2),
        Token::Semicolon,
        Token::CloseBrace,
    ];

    let statement = parse_function(&mut tokens);

    assert_eq!(
        statement,
        Ok(AstFunctionDefinition::Function(
            "main".to_string(),
            vec![AstBlockItem::Statement(AstStatement::Return(
                AstExpression::Constant(2)
            ))]
        ))
    );
    assert_eq!(tokens, vec![]);
    assert_eq!(tokens.len(), 0);
}

#[test]
fn parse_function_fail() {
    let mut tokens = vec![
        Token::Integer,
        Token::Identifier("main".to_string()),
        Token::Void,
        Token::CloseParen,
        Token::OpenBrace,
        Token::Return,
        Token::Constant(2),
        Token::Semicolon,
        Token::CloseBrace,
    ];

    let statement = parse_function(&mut tokens);

    assert_eq!(
        statement,
        Err(ParserErr(format!(
            "expected {:?}, got {:?}",
            &Token::OpenParen,
            tokens.first().unwrap()
        )))
    );
    assert_eq!(
        tokens,
        vec![
            Token::Void,
            Token::CloseParen,
            Token::OpenBrace,
            Token::Return,
            Token::Constant(2),
            Token::Semicolon,
            Token::CloseBrace
        ]
    );
    assert_eq!(tokens.len(), 7);
}

#[test]
fn parse_program_pass() {
    let mut tokens = vec![
        Token::Integer,
        Token::Identifier("main".to_string()),
        Token::OpenParen,
        Token::Void,
        Token::CloseParen,
        Token::OpenBrace,
        Token::Return,
        Token::Constant(2),
        Token::Semicolon,
        Token::CloseBrace,
    ];

    let statement = parse_program(&mut tokens);

    assert_eq!(
        statement,
        Ok(AstProgram::Program(AstFunctionDefinition::Function(
            "main".to_string(),
            vec![AstBlockItem::Statement(AstStatement::Return(
                AstExpression::Constant(2)
            ))]
        )))
    );
}

#[test]
fn parse_program_fail_too_many_tokens() {
    let mut tokens = vec![
        Token::Integer,
        Token::Identifier("main".to_string()),
        Token::OpenParen,
        Token::Void,
        Token::CloseParen,
        Token::OpenBrace,
        Token::Return,
        Token::Constant(2),
        Token::Semicolon,
        Token::CloseBrace,
        Token::CloseBrace,
    ];

    let statement = parse_program(&mut tokens);

    assert_eq!(statement, Err(ParserErr("Syntax error!".to_string())));
}
