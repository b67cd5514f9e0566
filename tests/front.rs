use lox::lexer::token::Token;
use lox::parser::error::{Error, ErrorType};

#[test]
fn token_text() {
    let t = Token { ttype: "Number".to_string(), lexeme: "42".to_string(), line: 3, offset: 7, length: 2 };
    assert_eq!(t.render(), "(Number, '42') 3:7-9");
}

#[test]
fn parse_error_messages() {
    assert_eq!(Error { ttype: ErrorType::MissingRightParen }.message(), "Missing right parenthesis");
    assert_eq!(Error { ttype: ErrorType::InvalidToken("Plus".to_string()) }.message(), "Invalid token found Plus");
}
