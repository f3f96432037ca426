use minicc::ast::AstBinaryOp;
use minicc::ast::AstExpression;
use minicc::ast::AstUnaryOp;
use minicc::tacky::BinaryOp;
use minicc::tacky::Instruction;
use minicc::tacky::UnaryOp;
use minicc::tacky::Val;
use minicc::tackygen::convert_binary_op;
use minicc::tackygen::convert_unary_op;
use minicc::tackygen::emit_tacky_expression;
use minicc::tackygen::TackyContext;

#[test]
fn convert_binary_op_test() {
    let mut ast_bin_ops = vec![
        AstBinaryOp::Add,
        AstBinaryOp::Subtract,
        AstBinaryOp::Multiply,
        AstBinaryOp::Divide,
        AstBinaryOp::Remainder,
        AstBinaryOp::Equal,
        AstBinaryOp::NotEqual,
        AstBinaryOp::LessThan,
        AstBinaryOp::LessOrEqual,
        AstBinaryOp::GreaterThan,
        AstBinaryOp::GreaterOrEqual,
    ];

    assert_eq!(
        convert_binary_op(ast_bin_ops.pop().unwrap()),
        BinaryOp::GreaterOrEqual
    );
    assert_eq!(
        convert_binary_op(ast_bin_ops.pop().unwrap()),
        BinaryOp::GreaterThan
    );
    assert_eq!(
        convert_binary_op(ast_bin_ops.pop().unwrap()),
        BinaryOp::LessOrEqual
    );
    assert_eq!(
        convert_binary_op(ast_bin_ops.pop().unwrap()),
        BinaryOp::LessThan
    );
    assert_eq!(
        convert_binary_op(ast_bin_ops.pop().unwrap()),
        BinaryOp::NotEqual
    );
    assert_eq!(convert_binary_op(ast_bin_ops.pop().unwrap()), BinaryOp::Equal);
    assert_eq!(
        convert_binary_op(ast_bin_ops.pop().unwrap()),
        BinaryOp::Remainder
    );
    assert_eq!(convert_binary_op(ast_bin_ops.pop().unwrap()), BinaryOp::Divide);
    assert_eq!(
        convert_binary_op(ast_bin_ops.pop().unwrap()),
        BinaryOp::Multiply
    );
    assert_eq!(
        convert_binary_op(ast_bin_ops.pop().unwrap()),
        BinaryOp::Subtract
    );
    assert_eq!(convert_binary_op(ast_bin_ops.pop().unwrap()), BinaryOp::Add);
}

#[test]
fn convert_unary_op_test() {
    let mut ast_un_ops = vec![
        AstUnaryOp::Complement,
        AstUnaryOp::Negate,
        AstUnaryOp::Not,
    ];

    assert_eq!(convert_unary_op(ast_un_ops.pop().unwrap()), UnaryOp::Not);
    assert_eq!(convert_unary_op(ast_un_ops.pop().unwrap()), UnaryOp::Negate);
    assert_eq!(
        convert_unary_op(ast_un_ops.pop().unwrap()),
        UnaryOp::Complement
    );
}

#[test]
fn convert_constant_tacky_expression_test() {
    let expr = AstExpression::Constant(2);

    let mut ctx = TackyContext::new();
    let (tacky_instructions, val) = emit_tacky_expression(expr, &mut ctx);

    assert_eq!(tacky_instructions.len(), 0);
    assert_eq!(val, Val::Constant(2));
}

#[test]
fn convert_simple_unary_tacky_expression_test() {
    let expr = AstExpression::Unary(AstUnaryOp::Negate, Box::new(AstExpression::Constant(2)));

    let mut ctx = TackyContext::new();
    let (tacky_instructions, val) = emit_tacky_expression(expr, &mut ctx);

    assert_eq!(tacky_instructions.len(), 1);
    assert_eq!(
        tacky_instructions[0],
        Instruction::Unary(UnaryOp::Negate, Val::Constant(2), val)
    );
}

#[test]
fn convert_simple_binary_tacky_expression_test() {
    let expr = AstExpression::Binary(
        AstBinaryOp::Divide,
        Box::new(AstExpression::Constant(2)),
        Box::new(AstExpression::Constant(1)),
    );

    let mut ctx = TackyContext::new();
    let (tacky_instructions, val) = emit_tacky_expression(expr, &mut ctx);

    assert_eq!(tacky_instructions.len(), 1);
    assert_eq!(
        tacky_instructions[0],
        Instruction::Binary(BinaryOp::Divide, Val::Constant(2), Val::Constant(1), val)
    );
}

#[test]
fn convert_var_tacky_expression_test() {
    let expr = AstExpression::Var("some_identifier".to_string());

    let mut ctx = TackyContext::new();
    let (tacky_instructions, val) = emit_tacky_expression(expr, &mut ctx);
    assert_eq!(tacky_instructions.len(), 0);
    assert_eq!(val, Val::Var("some_identifier".to_string()));
}
