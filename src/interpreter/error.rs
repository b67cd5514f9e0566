use crate::interpreter::value::{LoxType, Val};
use vstd::prelude::*;

verus! {

/// Which operation met a value of the wrong kind.
pub enum Mismatch {
    NegateNil,
    NegateBoolean,
    NegateString,
    NegateFunction,
    CompareNonNumbers,
    AddMismatch,
    SubNonNumbers,
    MulNonNumbers,
    DivNonNumbers,
    NotCallable,
}

/// Why evaluation stopped early.
pub enum ErrorType {
    /// A read or an assignment named a variable bound nowhere in the chain.
    UndefinedVariable(String),
    /// An operator or a call met a value of the wrong kind.
    TypeMismatch(Mismatch),
    /// Integer arithmetic left the range of `i64`.
    Overflow,
    /// Division by zero.
    DivisionByZero,
    /// The step budget given to the evaluator ran out.
    OutOfFuel,
    /// Not a failure: a `return` unwinding to the nearest call.
    Return(LoxType),
}

/// The mathematical picture of an `ErrorType`.
pub enum Fault {
    Undefined(Seq<char>),
    TypeMismatch(Mismatch),
    Overflow,
    DivisionByZero,
    OutOfFuel,
    Return(Val),
}

impl View for ErrorType {
    type V = Fault;

    open spec fn view(&self) -> Fault {
        match self {
            ErrorType::UndefinedVariable(s) => Fault::Undefined(s@),
            ErrorType::TypeMismatch(m) => Fault::TypeMismatch(*m),
            ErrorType::Overflow => Fault::Overflow,
            ErrorType::DivisionByZero => Fault::DivisionByZero,
            ErrorType::OutOfFuel => Fault::OutOfFuel,
            ErrorType::Return(v) => Fault::Return(v@),
        }
    }
}

/// The picture of an evaluation result.
pub open spec fn res_view(r: Result<LoxType, ErrorType>) -> Result<Val, Fault> {
    match r {
        Ok(v) => Ok(v@),
        Err(e) => Err(e@),
    }
}

/// The picture of a statement result.
pub open spec fn unit_view(r: Result<(), ErrorType>) -> Result<(), Fault> {
    match r {
        Ok(_) => Ok(()),
        Err(e) => Err(e@),
    }
}

} // verus!
