pub mod interpreter;
pub mod lexer;
pub mod parser;
