//! C token definitions.

use vstd::prelude::*;
use vstd::string::*;

use crate::decimal::dec_int;
use crate::decimal::i32_to_string;

verus! {

/// Mathematical value of a token. An identifier is modelled by the
/// sequence of its characters, so two tokens have equal views exactly
/// when they have the same spelling.
pub enum TokenV {
    Identifier(Seq<char>),
    Constant(i32),
    Integer,
    Void,
    Return,
    OpenParen,
    CloseParen,
    OpenBrace,
    CloseBrace,
    Semicolon,
    Hyphen,
    DoubleHyphen,
    Tilde,
    Plus,
    DoublePlus,
    Asterisk,
    ForwardSlash,
    Percent,
    Equal,
    LogicalNot,
    LogicalAnd,
    LogicalOr,
    LogicalEqual,
    LogicalNotEqual,
    LessThan,
    GreaterThan,
    LessThanEqual,
    GreaterThanEqual,
}

/// C tokens.
#[derive(Debug)]
pub enum Token {
    // Tokens with contents
    Identifier(String),
    Constant(i32),
    // Keywords
    Integer,
    Void,
    Return,
    // Punctuation
    OpenParen,
    CloseParen,
    OpenBrace,
    CloseBrace,
    Semicolon,
    Hyphen,
    DoubleHyphen,
    Tilde,
    Plus,
    DoublePlus,
    Asterisk,
    ForwardSlash,
    Percent,
    Equal,
    // Logical tokens
    LogicalNot,
    LogicalAnd,
    LogicalOr,
    LogicalEqual,
    LogicalNotEqual,
    LessThan,
    GreaterThan,
    LessThanEqual,
    GreaterThanEqual,
}

impl View for Token {
    type V = TokenV;

    open spec fn view(&self) -> TokenV {
        match self {
            Token::Identifier(s) => TokenV::Identifier(s@),
            Token::Constant(n) => TokenV::Constant(*n),
            Token::Integer => TokenV::Integer,
            Token::Void => TokenV::Void,
            Token::Return => TokenV::Return,
            Token::OpenParen => TokenV::OpenParen,
            Token::CloseParen => TokenV::CloseParen,
            Token::OpenBrace => TokenV::OpenBrace,
            Token::CloseBrace => TokenV::CloseBrace,
            Token::Semicolon => TokenV::Semicolon,
            Token::Hyphen => TokenV::Hyphen,
            Token::DoubleHyphen => TokenV::DoubleHyphen,
            Token::Tilde => TokenV::Tilde,
            Token::Plus => TokenV::Plus,
            Token::DoublePlus => TokenV::DoublePlus,
            Token::Asterisk => TokenV::Asterisk,
            Token::ForwardSlash => TokenV::ForwardSlash,
            Token::Percent => TokenV::Percent,
            Token::Equal => TokenV::Equal,
            Token::LogicalNot => TokenV::LogicalNot,
            Token::LogicalAnd => TokenV::LogicalAnd,
            Token::LogicalOr => TokenV::LogicalOr,
            Token::LogicalEqual => TokenV::LogicalEqual,
            Token::LogicalNotEqual => TokenV::LogicalNotEqual,
            Token::LessThan => TokenV::LessThan,
            Token::GreaterThan => TokenV::GreaterThan,
            Token::LessThanEqual => TokenV::LessThanEqual,
            Token::GreaterThanEqual => TokenV::GreaterThanEqual,
        }
    }
}

impl DeepView for Token {
    type V = TokenV;

    open spec fn deep_view(&self) -> TokenV {
        self.view()
    }
}

/// How a token is spelled in diagnostics: the variant name, with an
/// identifier's characters in quotes and a constant's value in decimal.
pub open spec fn token_text(t: TokenV) -> Seq<char> {
    match t {
        TokenV::Identifier(s) => "Identifier(\""@ + s + "\")"@,
        TokenV::Constant(n) => "Constant("@ + dec_int(n as int) + ")"@,
        TokenV::Integer => "Integer"@,
        TokenV::Void => "Void"@,
        TokenV::Return => "Return"@,
        TokenV::OpenParen => "OpenParen"@,
        TokenV::CloseParen => "CloseParen"@,
        TokenV::OpenBrace => "OpenBrace"@,
        TokenV::CloseBrace => "CloseBrace"@,
        TokenV::Semicolon => "Semicolon"@,
        TokenV::Hyphen => "Hyphen"@,
        TokenV::DoubleHyphen => "DoubleHyphen"@,
        TokenV::Tilde => "Tilde"@,
        TokenV::Plus => "Plus"@,
        TokenV::DoublePlus => "DoublePlus"@,
        TokenV::Asterisk => "Asterisk"@,
        TokenV::ForwardSlash => "ForwardSlash"@,
        TokenV::Percent => "Percent"@,
        TokenV::Equal => "Equal"@,
        TokenV::LogicalNot => "LogicalNot"@,
        TokenV::LogicalAnd => "LogicalAnd"@,
        TokenV::LogicalOr => "LogicalOr"@,
        TokenV::LogicalEqual => "LogicalEqual"@,
        TokenV::LogicalNotEqual => "LogicalNotEqual"@,
        TokenV::LessThan => "LessThan"@,
        TokenV::GreaterThan => "GreaterThan"@,
        TokenV::LessThanEqual => "LessThanEqual"@,
        TokenV::GreaterThanEqual => "GreaterThanEqual"@,
    }
}

impl Token {
    /// The spelling of this token for diagnostics.
    pub fn text(&self) -> (s: String)
        ensures
            s@ == token_text(self@),
    {
        match self {
            Token::Identifier(name) => String::from_str("Identifier(\"").concat(
                name.as_str(),
            ).concat("\")"),
            Token::Constant(n) => String::from_str("Constant(").concat(
                i32_to_string(*n).as_str(),
            ).concat(")"),
            Token::Integer => String::from_str("Integer"),
            Token::Void => String::from_str("Void"),
            Token::Return => String::from_str("Return"),
            Token::OpenParen => String::from_str("OpenParen"),
            Token::CloseParen => String::from_str("CloseParen"),
            Token::OpenBrace => String::from_str("OpenBrace"),
            Token::CloseBrace => String::from_str("CloseBrace"),
            Token::Semicolon => String::from_str("Semicolon"),
            Token::Hyphen => String::from_str("Hyphen"),
            Token::DoubleHyphen => String::from_str("DoubleHyphen"),
            Token::Tilde => String::from_str("Tilde"),
            Token::Plus => String::from_str("Plus"),
            Token::DoublePlus => String::from_str("DoublePlus"),
            Token::Asterisk => String::from_str("Asterisk"),
            Token::ForwardSlash => String::from_str("ForwardSlash"),
            Token::Percent => String::from_str("Percent"),
            Token::Equal => String::from_str("Equal"),
            Token::LogicalNot => String::from_str("LogicalNot"),
            Token::LogicalAnd => String::from_str("LogicalAnd"),
            Token::LogicalOr => String::from_str("LogicalOr"),
            Token::LogicalEqual => String::from_str("LogicalEqual"),
            Token::LogicalNotEqual => String::from_str("LogicalNotEqual"),
            Token::LessThan => String::from_str("LessThan"),
            Token::GreaterThan => String::from_str("GreaterThan"),
            Token::LessThanEqual => String::from_str("LessThanEqual"),
            Token::GreaterThanEqual => String::from_str("GreaterThanEqual"),
        }
    }
}

impl PartialEq for Token {
    fn eq(&self, other: &Token) -> (r: bool) {
        match (self, other) {
            (Token::Identifier(a), Token::Identifier(b)) => a.eq(b),
            (Token::Constant(a), Token::Constant(b)) => *a == *b,
            (Token::Integer, Token::Integer) => true,
            (Token::Void, Token::Void) => true,
            (Token::Return, Token::Return) => true,
            (Token::OpenParen, Token::OpenParen) => true,
            (Token::CloseParen, Token::CloseParen) => true,
            (Token::OpenBrace, Token::OpenBrace) => true,
            (Token::CloseBrace, Token::CloseBrace) => true,
            (Token::Semicolon, Token::Semicolon) => true,
            (Token::Hyphen, Token::Hyphen) => true,
            (Token::DoubleHyphen, Token::DoubleHyphen) => true,
            (Token::Tilde, Token::Tilde) => true,
            (Token::Plus, Token::Plus) => true,
            (Token::DoublePlus, Token::DoublePlus) => true,
            (Token::Asterisk, Token::Asterisk) => true,
            (Token::ForwardSlash, Token::ForwardSlash) => true,
            (Token::Percent, Token::Percent) => true,
            (Token::Equal, Token::Equal) => true,
            (Token::LogicalNot, Token::LogicalNot) => true,
            (Token::LogicalAnd, Token::LogicalAnd) => true,
            (Token::LogicalOr, Token::LogicalOr) => true,
            (Token::LogicalEqual, Token::LogicalEqual) => true,
            (Token::LogicalNotEqual, Token::LogicalNotEqual) => true,
            (Token::LessThan, Token::LessThan) => true,
            (Token::GreaterThan, Token::GreaterThan) => true,
            (Token::LessThanEqual, Token::LessThanEqual) => true,
            (Token::GreaterThanEqual, Token::GreaterThanEqual) => true,
            _ => false,
        }
    }
}

impl vstd::std_specs::cmp::PartialEqSpecImpl for Token {
    open spec fn obeys_eq_spec() -> bool {
        true
    }

    open spec fn eq_spec(&self, other: &Token) -> bool {
        self@ == other@
    }
}

} // verus!
