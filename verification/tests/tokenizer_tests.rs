use minicc::token::Token;
use minicc::tokenizer::tokenize;
use minicc::tokenizer::TokenizeError;

#[test]
fn tokenizer_invalid_at_sing() {
    let code = r"
            int main(void) {
                return 0@1;
            }
            ";

    assert_eq!(
        tokenize(code),
        Err(TokenizeError("Unable to find match".to_string()))
    );
}

#[test]
fn tokenizer_invalid_backlash() {
    let code = r"\";

    assert_eq!(
        tokenize(code),
        Err(TokenizeError("Unable to find match".to_string()))
    );
}

#[test]
fn tokenizer_invalid_backtick() {
    let code = r"`";

    assert_eq!(
        tokenize(code),
        Err(TokenizeError("Unable to find match".to_string()))
    );
}

#[test]
fn tokenizer_invalid_identifier() {
    let code = r"
            int main(void) {
                return 1foo;
            }
            ";

    assert_eq!(
        tokenize(code),
        Err(TokenizeError("Unable to find match".to_string()))
    );
}

#[test]
fn tokenizer_invalid_identifier_2() {
    let code = r"
            int main(void) {
                return @b;
            }
            ";

    assert_eq!(
        tokenize(code),
        Err(TokenizeError("Unable to find match".to_string()))
    );
}

#[test]
fn tokenizer_valid_multi_digit() {
    let code = r"
            int main(void) {
                return 100;
            }
            ";

    assert_eq!(
        tokenize(code),
        Ok(vec![
            Token::Integer,
            Token::Identifier("main".to_string()),
            Token::OpenParen,
            Token::Void,
            Token::CloseParen,
            Token::OpenBrace,
            Token::Return,
            Token::Constant(100),
            Token::Semicolon,
            Token::CloseBrace,
        ])
    );
}

#[test]
fn tokenizer_valid_newlines() {
    let code = r"
            int
            main
            (
            void
            )
            {
            return
            0
            ;
            }
            ";

    assert_eq!(
        tokenize(code),
        Ok(vec![
            Token::Integer,
            Token::Identifier("main".to_string()),
            Token::OpenParen,
            Token::Void,
            Token::CloseParen,
            Token::OpenBrace,
            Token::Return,
            Token::Constant(0),
            Token::Semicolon,
            Token::CloseBrace,
        ])
    );
}

#[test]
fn tokenizer_valid_no_newlines() {
    let code = r"
            int main(void){return 2;}
            ";

    assert_eq!(
        tokenize(code),
        Ok(vec![
            Token::Integer,
            Token::Identifier("main".to_string()),
            Token::OpenParen,
            Token::Void,
            Token::CloseParen,
            Token::OpenBrace,
            Token::Return,
            Token::Constant(2),
            Token::Semicolon,
            Token::CloseBrace,
        ])
    );
}

#[test]
fn tokenizer_valid_spaces() {
    let code = r"
            int   main    (  void)  {   return  3 ; }
            ";

    assert_eq!(
        tokenize(code),
        Ok(vec![
            Token::Integer,
            Token::Identifier("main".to_string()),
            Token::OpenParen,
            Token::Void,
            Token::CloseParen,
            Token::OpenBrace,
            Token::Return,
            Token::Constant(3),
            Token::Semicolon,
            Token::CloseBrace,
        ])
    );
}

#[test]
fn tokenizer_valid_tabs() {
    let code = "
            int\tmain\t(\tvoid)\t{\treturn\t4\t;\t}
            ";

    assert_eq!(
        tokenize(code),
        Ok(vec![
            Token::Integer,
            Token::Identifier("main".to_string()),
            Token::OpenParen,
            Token::Void,
            Token::CloseParen,
            Token::OpenBrace,
            Token::Return,
            Token::Constant(4),
            Token::Semicolon,
            Token::CloseBrace,
        ])
    );
}
