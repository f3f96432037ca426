use minicc::assembly::AssemblyBinaryOp;
use minicc::assembly::AssemblyInstruction;
use minicc::assembly::AssemblyOperand;
use minicc::assembly::AssemblyProgram;
use minicc::assembly::AssemblyRegister;
use minicc::ast::AstBinaryOp;
use minicc::ast::AstExpression;
use minicc::codegen::gen;
use minicc::decimal::i32_to_string;
use minicc::decimal::u64_to_string;
use minicc::emit::emit_assembly;
use minicc::instruction_fixup::fixup_program;
use minicc::parser::expect_sequence_with_remove;
use minicc::parser::parse_expression;
use minicc::parser::parse_program;
use minicc::parser::ParserErr;
use minicc::replace_pseudos::replace_pseudos;
use minicc::tacky::BinaryOp;
use minicc::tacky::FunctionDefinition;
use minicc::tacky::Instruction;
use minicc::tacky::Program;
use minicc::tacky::Val;
use minicc::tackygen::emit_tacky;
use minicc::tackygen::emit_tacky_expression;
use minicc::tackygen::TackyContext;
use minicc::token::Token;
use minicc::tokenizer::tokenize;
use minicc::tokenizer::TokenizeError;
use minicc::variable_resolution::resolve_program;
use minicc::variable_resolution::SemanticError;

fn tacky_of(source: &str) -> Vec<Instruction> {
    let mut tokens = tokenize(source).expect("lexing failed");
    let ast = parse_program(&mut tokens).expect("parsing failed");
    let resolved = resolve_program(ast).expect("resolution failed");
    let Program::Program(FunctionDefinition::Function(_, instructions)) = emit_tacky(resolved);
    instructions
}

fn compile(source: &str) -> String {
    let mut tokens = tokenize(source).expect("lexing failed");
    let ast = parse_program(&mut tokens).expect("parsing failed");
    let resolved = resolve_program(ast).expect("resolution failed");
    let tacky = emit_tacky(resolved);
    let selected = gen(tacky);
    let (allocated, last_stack_slot) = replace_pseudos(selected);
    let legalized = fixup_program(last_stack_slot, allocated);
    emit_assembly(legalized)
}

#[test]
fn lexes_the_smallest_program_to_the_exact_token_sequence() {
    assert_eq!(
        tokenize("int main(void){return 2;}"),
        Ok(vec![
            Token::Integer,
            Token::Identifier("main".to_string()),
            Token::OpenParen,
            Token::Void,
            Token::CloseParen,
            Token::OpenBrace,
            Token::Return,
            Token::Constant(2),
            Token::Semicolon,
            Token::CloseBrace,
        ])
    );
}

#[test]
fn parsing_is_deterministic_across_runs() {
    let source = "int main(void){int a = 1; return a + 2 * 3;}";
    let mut tokens_one = tokenize(source).unwrap();
    let mut tokens_two = tokenize(source).unwrap();
    let first = parse_program(&mut tokens_one).unwrap();
    let second = parse_program(&mut tokens_two).unwrap();
    assert_eq!(first, second);
}

#[test]
fn multiplication_binds_tighter_than_addition() {
    let mut tokens = tokenize("1+2*3").unwrap();
    let expr = parse_expression(&mut tokens, 0).unwrap();
    assert_eq!(
        expr,
        AstExpression::Binary(
            AstBinaryOp::Add,
            Box::new(AstExpression::Constant(1)),
            Box::new(AstExpression::Binary(
                AstBinaryOp::Multiply,
                Box::new(AstExpression::Constant(2)),
                Box::new(AstExpression::Constant(3)),
            )),
        )
    );
    assert_ne!(
        expr,
        AstExpression::Binary(
            AstBinaryOp::Multiply,
            Box::new(AstExpression::Binary(
                AstBinaryOp::Add,
                Box::new(AstExpression::Constant(1)),
                Box::new(AstExpression::Constant(2)),
            )),
            Box::new(AstExpression::Constant(3)),
        )
    );
}

#[test]
fn duplicate_declaration_is_rejected() {
    let mut tokens = tokenize("int main(void){int a; int a;}").unwrap();
    let ast = parse_program(&mut tokens).unwrap();
    assert_eq!(resolve_program(ast), Err(SemanticError::DuplicateVariable));
}

#[test]
fn unbound_reference_is_rejected() {
    let mut tokens = tokenize("int main(void){return a;}").unwrap();
    let ast = parse_program(&mut tokens).unwrap();
    assert_eq!(resolve_program(ast), Err(SemanticError::UndeclaredVariable));
}

#[test]
fn constant_assignment_target_is_rejected() {
    let mut tokens = tokenize("int main(void){int a; 1 = a;}").unwrap();
    let ast = parse_program(&mut tokens).unwrap();
    assert_eq!(resolve_program(ast), Err(SemanticError::InvalidLValue));
}

#[test]
fn short_circuit_and_lowers_to_one_label_pair() {
    let expr = AstExpression::Binary(
        AstBinaryOp::And,
        Box::new(AstExpression::Constant(1)),
        Box::new(AstExpression::Constant(0)),
    );
    let mut ctx = TackyContext::new();
    let (instructions, val) = emit_tacky_expression(expr, &mut ctx);
    assert_eq!(val, Val::Var("tmp.0".to_string()));
    assert_eq!(
        instructions,
        vec![
            Instruction::JumpIfZero(Val::Constant(1), "and_false0".to_string()),
            Instruction::JumpIfZero(Val::Constant(0), "and_false0".to_string()),
            Instruction::Copy(Val::Constant(1), Val::Var("tmp.0".to_string())),
            Instruction::Jump("and_false_end0".to_string()),
            Instruction::Label("and_false0".to_string()),
            Instruction::Copy(Val::Constant(0), Val::Var("tmp.0".to_string())),
            Instruction::Label("and_false_end0".to_string()),
        ]
    );
    // Exactly one pair of matching labels, and a JumpIfZero right after
    // each operand; the zero right operand jumps to the false label, so
    // the sequence ends with tmp.0 holding 0.
    let labels: Vec<&Instruction> = instructions
        .iter()
        .filter(|i| matches!(i, Instruction::Label(_)))
        .collect();
    assert_eq!(labels.len(), 2);
}

#[test]
fn short_circuit_or_lowers_to_one_label_pair() {
    let expr = AstExpression::Binary(
        AstBinaryOp::Or,
        Box::new(AstExpression::Constant(0)),
        Box::new(AstExpression::Constant(1)),
    );
    let mut ctx = TackyContext::new();
    let (instructions, val) = emit_tacky_expression(expr, &mut ctx);
    assert_eq!(val, Val::Var("tmp.0".to_string()));
    assert_eq!(
        instructions,
        vec![
            Instruction::JumpIfNotZero(Val::Constant(0), "or_false0".to_string()),
            Instruction::JumpIfNotZero(Val::Constant(1), "or_false0".to_string()),
            Instruction::Copy(Val::Constant(0), Val::Var("tmp.0".to_string())),
            Instruction::Jump("or_false_end0".to_string()),
            Instruction::Label("or_false0".to_string()),
            Instruction::Copy(Val::Constant(1), Val::Var("tmp.0".to_string())),
            Instruction::Label("or_false_end0".to_string()),
        ]
    );
}

#[test]
fn stack_allocation_reuses_slots_in_first_occurrence_order() {
    let program = AssemblyProgram::Program(
        minicc::assembly::AssemblyFunctionDefinition::Function(
            "main".to_string(),
            vec![
                AssemblyInstruction::Mov(
                    AssemblyOperand::Imm(1),
                    AssemblyOperand::PseudoReg("tmp.0".to_string()),
                ),
                AssemblyInstruction::Mov(
                    AssemblyOperand::Imm(2),
                    AssemblyOperand::PseudoReg("tmp.1".to_string()),
                ),
                AssemblyInstruction::Mov(
                    AssemblyOperand::PseudoReg("tmp.0".to_string()),
                    AssemblyOperand::Reg(AssemblyRegister::AX),
                ),
            ],
        ),
    );
    let (program, last_stack_slot) = replace_pseudos(program);
    assert_eq!(last_stack_slot, -8);
    let AssemblyProgram::Program(minicc::assembly::AssemblyFunctionDefinition::Function(
        _,
        instructions,
    )) = program;
    assert_eq!(
        instructions,
        vec![
            AssemblyInstruction::Mov(AssemblyOperand::Imm(1), AssemblyOperand::Stack(-4)),
            AssemblyInstruction::Mov(AssemblyOperand::Imm(2), AssemblyOperand::Stack(-8)),
            AssemblyInstruction::Mov(
                AssemblyOperand::Stack(-4),
                AssemblyOperand::Reg(AssemblyRegister::AX)
            ),
        ]
    );
}

#[test]
fn legalization_leaves_no_illegal_instruction() {
    let program = AssemblyProgram::Program(
        minicc::assembly::AssemblyFunctionDefinition::Function(
            "main".to_string(),
            vec![
                AssemblyInstruction::Mov(
                    AssemblyOperand::Stack(-4),
                    AssemblyOperand::Stack(-8),
                ),
                AssemblyInstruction::Idiv(AssemblyOperand::Imm(3)),
                AssemblyInstruction::Binary(
                    AssemblyBinaryOp::Mult,
                    AssemblyOperand::Imm(5),
                    AssemblyOperand::Stack(-4),
                ),
            ],
        ),
    );
    let program = fixup_program(-8, program);
    let AssemblyProgram::Program(minicc::assembly::AssemblyFunctionDefinition::Function(
        _,
        instructions,
    )) = program;
    assert_eq!(instructions[0], AssemblyInstruction::AllocateStack(8));
    for instruction in &instructions {
        match instruction {
            AssemblyInstruction::Mov(AssemblyOperand::Stack(_), AssemblyOperand::Stack(_)) => {
                panic!("memory-to-memory Mov survived legalization")
            }
            AssemblyInstruction::Idiv(AssemblyOperand::Imm(_)) => {
                panic!("immediate Idiv survived legalization")
            }
            AssemblyInstruction::Binary(
                AssemblyBinaryOp::Mult,
                _,
                AssemblyOperand::Stack(_),
            ) => panic!("Mult into memory survived legalization"),
            _ => {}
        }
    }
}

#[test]
fn compiles_return_of_a_constant_end_to_end() {
    let assembly = compile("int main(void){return 2;}");
    assert_eq!(
        assembly,
        "\t.global main\n\
         main:\n\
         \tpushq\t%rbp\n\
         \tmovq\t%rsp, %rbp\n\
         \tsubq\t$0, %rsp\n\
         \tmovl\t$2, %eax\n\
         \tmovq\t%rbp, %rsp\n\
         \tpopq\t%rbp\n\
         \tret\n\
         \tmovl\t$0, %eax\n\
         \tmovq\t%rbp, %rsp\n\
         \tpopq\t%rbp\n\
         \tret\n\
         \t.section .note.GNU-stack,\"\",@progbits\n"
    );
}

#[test]
fn compiles_a_declaration_and_its_use() {
    let instructions = tacky_of("int main(void){int a=0; return a;}");
    assert_eq!(
        instructions,
        vec![
            Instruction::Copy(Val::Constant(0), Val::Var("a.0".to_string())),
            Instruction::Return(Val::Var("a.0".to_string())),
            Instruction::Return(Val::Constant(0)),
        ]
    );
    let assembly = compile("int main(void){int a=0; return a;}");
    assert!(assembly.contains("\tsubq\t$4, %rsp\n"));
    assert!(assembly.contains("\tmovl\t$0, -4(%rbp)\n"));
}

#[test]
fn missing_open_brace_fails_at_the_parse_stage() {
    let mut tokens = tokenize("int main(void) return 2; }").unwrap();
    let result = parse_program(&mut tokens);
    assert_eq!(
        result,
        Err(ParserErr(format!(
            "expected {:?}, got {:?}",
            &Token::OpenBrace,
            &Token::Return
        )))
    );
}

#[test]
fn assignment_compiles_and_copies_into_the_variable() {
    let instructions = tacky_of("int main(void){int a; a = 5; return a;}");
    assert_eq!(
        instructions,
        vec![
            Instruction::Copy(Val::Constant(5), Val::Var("a.0".to_string())),
            Instruction::Return(Val::Var("a.0".to_string())),
            Instruction::Return(Val::Constant(0)),
        ]
    );
}

#[test]
fn relational_operators_compile_through_compare_and_set() {
    let assembly = compile("int main(void){return 1 < 2;}");
    assert!(assembly.contains("\tcmpl\t"));
    assert!(assembly.contains("\tsetl\t"));
}

#[test]
fn unary_operators_nest_in_the_factor() {
    let mut tokens = tokenize("~-3").unwrap();
    let expr = parse_expression(&mut tokens, 0).unwrap();
    assert_eq!(
        expr,
        AstExpression::Unary(
            minicc::ast::AstUnaryOp::Complement,
            Box::new(AstExpression::Unary(
                minicc::ast::AstUnaryOp::Negate,
                Box::new(AstExpression::Constant(3)),
            )),
        )
    );
}

#[test]
fn division_compiles_through_cdq_and_idiv() {
    let assembly = compile("int main(void){return 6 / 3;}");
    assert!(assembly.contains("\tcdq\n"));
    assert!(assembly.contains("\tidivl\t"));
}

#[test]
fn a_constant_too_large_for_i32_is_a_lex_error() {
    assert_eq!(
        tokenize("int main(void){return 2147483648;}"),
        Err(TokenizeError("Constant too large".to_string()))
    );
    let tokens = tokenize("2147483647").unwrap();
    assert_eq!(tokens, vec![Token::Constant(2147483647)]);
}

#[test]
fn decimal_rendering_matches_the_usual_spelling() {
    assert_eq!(u64_to_string(0), "0");
    assert_eq!(u64_to_string(1234567890), "1234567890");
    assert_eq!(i32_to_string(-45), "-45");
    assert_eq!(i32_to_string(i32::MIN), "-2147483648");
    assert_eq!(i32_to_string(i32::MAX), "2147483647");
}

#[test]
fn token_text_matches_debug_formatting() {
    let tokens = vec![
        Token::Identifier("main".to_string()),
        Token::Constant(-7),
        Token::OpenParen,
        Token::LessThanEqual,
    ];
    for token in &tokens {
        assert_eq!(token.text(), format!("{:?}", token));
    }
}

#[test]
fn expect_sequence_consumes_matching_tokens_and_stops_at_a_mismatch() {
    let expected = vec![Token::OpenParen, Token::Void, Token::CloseParen];
    let mut tokens = vec![
        Token::OpenParen,
        Token::Void,
        Token::CloseParen,
        Token::OpenBrace,
    ];
    assert_eq!(expect_sequence_with_remove(&expected, &mut tokens), Ok(()));
    assert_eq!(tokens, vec![Token::OpenBrace]);

    let mut tokens = vec![Token::OpenParen, Token::CloseParen];
    let result = expect_sequence_with_remove(&expected, &mut tokens);
    assert_eq!(
        result,
        Err(ParserErr(format!(
            "expected {:?}, got {:?}",
            &Token::Void,
            &Token::CloseParen
        )))
    );
    assert_eq!(tokens, vec![Token::CloseParen]);
}

#[test]
fn double_hyphen_lexes_as_the_longest_match() {
    assert_eq!(
        tokenize("- -- ++ + <= < == ="),
        Ok(vec![
            Token::Hyphen,
            Token::DoubleHyphen,
            Token::DoublePlus,
            Token::Plus,
            Token::LessThanEqual,
            Token::LessThan,
            Token::LogicalEqual,
            Token::Equal,
        ])
    );
}

#[test]
fn nested_assignments_are_right_associative() {
    let instructions = tacky_of("int main(void){int a; int b; a = b = 3; return a;}");
    assert_eq!(
        instructions,
        vec![
            Instruction::Copy(Val::Constant(3), Val::Var("b.0".to_string())),
            Instruction::Copy(Val::Var("b.0".to_string()), Val::Var("a.0".to_string())),
            Instruction::Return(Val::Var("a.0".to_string())),
            Instruction::Return(Val::Constant(0)),
        ]
    );
}

#[test]
fn logical_not_compiles_through_compare_and_sete() {
    let instructions = tacky_of("int main(void){return !5;}");
    assert_eq!(
        instructions,
        vec![
            Instruction::Unary(
                minicc::tacky::UnaryOp::Not,
                Val::Constant(5),
                Val::Var("tmp.0".to_string())
            ),
            Instruction::Return(Val::Var("tmp.0".to_string())),
            Instruction::Return(Val::Constant(0)),
        ]
    );
    let assembly = compile("int main(void){return !5;}");
    assert!(assembly.contains("\tsete\t"));
}

#[test]
fn remainder_lowers_to_the_tacky_remainder_operator() {
    let instructions = tacky_of("int main(void){return 7 % 4;}");
    assert_eq!(
        instructions,
        vec![
            Instruction::Binary(
                BinaryOp::Remainder,
                Val::Constant(7),
                Val::Constant(4),
                Val::Var("tmp.0".to_string())
            ),
            Instruction::Return(Val::Var("tmp.0".to_string())),
            Instruction::Return(Val::Constant(0)),
        ]
    );
}

#[test]
fn parenthesized_expressions_reset_precedence() {
    let mut tokens = tokenize("(1+2)*3").unwrap();
    let expr = parse_expression(&mut tokens, 0).unwrap();
    assert_eq!(
        expr,
        AstExpression::Binary(
            AstBinaryOp::Multiply,
            Box::new(AstExpression::Binary(
                AstBinaryOp::Add,
                Box::new(AstExpression::Constant(1)),
                Box::new(AstExpression::Constant(2)),
            )),
            Box::new(AstExpression::Constant(3)),
        )
    );
}

#[test]
fn null_statements_emit_nothing() {
    let instructions = tacky_of("int main(void){;;return 2;;}");
    assert_eq!(
        instructions,
        vec![
            Instruction::Return(Val::Constant(2)),
            Instruction::Return(Val::Constant(0)),
        ]
    );
}
