use std::rc::Rc;
use vstd::prelude::*;

verus! {

/// A name as written in the source.
pub struct Ident(pub String);

pub enum OpUnary {
    Not,
    Neg,
}

pub enum OpBinary {
    Equal,
    NotEqual,
    Less,
    LessEqual,
    Greater,
    GreaterEqual,
    Add,
    Sub,
    Mul,
    Div,
}

pub enum OpLogic {
    And,
    Or,
}

/// Literal values; numbers are 64-bit signed integers.
pub enum Literal {
    Num(i64),
    Str(String),
    True,
    False,
    Nil,
}

/// An expression.
pub enum Expr {
    Literal(Literal),
    Unary(OpUnary, Box<Expr>),
    Binary(Box<Expr>, OpBinary, Box<Expr>),
    Grouping(Box<Expr>),
    Variable(Ident),
    Assign(Ident, Box<Expr>),
    Logic(Box<Expr>, OpLogic, Box<Expr>),
    /// A callee and its arguments.
    Call(Box<Expr>, Vec<Expr>),
    /// An anonymous function: its parameters and its body, shared with the
    /// function values that evaluating it creates.
    Lambda(Rc<Vec<Ident>>, Rc<Vec<Stmt>>),
}

/// A statement.
pub enum Stmt {
    Var(Ident, Option<Box<Expr>>),
    /// A condition, the `then` branch and an optional `else` branch.
    If(Box<Expr>, Box<Stmt>, Option<Box<Stmt>>),
    Expression(Box<Expr>),
    Block(Vec<Stmt>),
    While(Box<Expr>, Box<Stmt>),
    /// A named function: its name, parameters and body.
    Function(Ident, Rc<Vec<Ident>>, Rc<Vec<Stmt>>),
    Return(Option<Box<Expr>>),
}


} // verus!
