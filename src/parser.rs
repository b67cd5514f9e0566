pub mod ast;
pub mod error;
