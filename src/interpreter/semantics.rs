use crate::interpreter::env::{define_spec, get_spec, set_spec, wrap_spec, Model};
use crate::interpreter::error::{Fault, Mismatch};
use crate::interpreter::native::LoxFnNative;
use crate::interpreter::value::{truthy, value_text, values_equal, Callable, LoxFn, Val};
use crate::parser::ast::{Expr, Ident, Literal, OpBinary, OpLogic, OpUnary, Stmt};
use std::rc::Rc;
use vstd::prelude::*;

verus! {

// Big-step meaning of programs. Every function takes the state before, and
// gives the state after together with the outcome. `fuel` bounds the depth
// of evaluation and the number of loop rounds; when it runs out the outcome
// is `OutOfFuel`.

pub open spec fn literal_val(l: Literal) -> Val {
    match l {
        Literal::Num(n) => Val::Number(n),
        Literal::Str(s) => Val::Str(s@),
        Literal::True => Val::Boolean(true),
        Literal::False => Val::Boolean(false),
        Literal::Nil => Val::Nil,
    }
}

/// An integer result, or `Overflow` when it does not fit in `i64`.
pub open spec fn fit(n: int) -> Result<Val, Fault> {
    if i64::MIN <= n <= i64::MAX {
        Ok(Val::Number(n as i64))
    } else {
        Err(Fault::Overflow)
    }
}

/// Division rounding toward zero.
pub open spec fn trunc_div(x: int, d: int) -> int {
    if x == 0 {
        0
    } else if x > 0 && d > 0 {
        x / d
    } else if x < 0 && d < 0 {
        (x * -1) / (d * -1)
    } else if x < 0 {
        ((x * -1) / d) * -1
    } else {
        (x / (d * -1)) * -1
    }
}

pub open spec fn unary_spec(op: OpUnary, v: Val) -> Result<Val, Fault> {
    match op {
        OpUnary::Not => Ok(Val::Boolean(!truthy(v))),
        OpUnary::Neg => match v {
            Val::Number(n) => fit(-(n as int)),
            Val::Nil => Err(Fault::TypeMismatch(Mismatch::NegateNil)),
            Val::Boolean(_) => Err(Fault::TypeMismatch(Mismatch::NegateBoolean)),
            Val::Str(_) => Err(Fault::TypeMismatch(Mismatch::NegateString)),
            Val::Callable(_) => Err(Fault::TypeMismatch(Mismatch::NegateFunction)),
        },
    }
}

pub open spec fn compare_spec(op: OpBinary, x: i64, y: i64) -> bool {
    match op {
        OpBinary::Less => x < y,
        OpBinary::LessEqual => x <= y,
        OpBinary::Greater => x > y,
        _ => x >= y,
    }
}

pub open spec fn binary_spec(op: OpBinary, l: Val, r: Val) -> Result<Val, Fault> {
    match op {
        OpBinary::Equal => Ok(Val::Boolean(values_equal(l, r))),
        OpBinary::NotEqual => Ok(Val::Boolean(!values_equal(l, r))),
        OpBinary::Less | OpBinary::LessEqual | OpBinary::Greater | OpBinary::GreaterEqual => match (l, r) {
            (Val::Number(x), Val::Number(y)) => Ok(Val::Boolean(compare_spec(op, x, y))),
            _ => Err(Fault::TypeMismatch(Mismatch::CompareNonNumbers)),
        },
        OpBinary::Add => match (l, r) {
            (Val::Number(x), Val::Number(y)) => fit(x + y),
            (Val::Str(x), Val::Str(y)) => Ok(Val::Str(x + y)),
            _ => Err(Fault::TypeMismatch(Mismatch::AddMismatch)),
        },
        OpBinary::Sub => match (l, r) {
            (Val::Number(x), Val::Number(y)) => fit(x - y),
            _ => Err(Fault::TypeMismatch(Mismatch::SubNonNumbers)),
        },
        OpBinary::Mul => match (l, r) {
            (Val::Number(x), Val::Number(y)) => fit(x * y),
            _ => Err(Fault::TypeMismatch(Mismatch::MulNonNumbers)),
        },
        OpBinary::Div => match (l, r) {
            (Val::Number(x), Val::Number(y)) => if y == 0 {
                Err(Fault::DivisionByZero)
            } else {
                fit(trunc_div(x as int, y as int))
            },
            _ => Err(Fault::TypeMismatch(Mismatch::DivNonNumbers)),
        },
    }
}

/// The values of `print`'s arguments, each in its canonical text, joined by
/// single spaces.
pub open spec fn line_of(vals: Seq<Val>) -> Seq<char>
    decreases vals.len(),
{
    if vals.len() == 0 {
        Seq::empty()
    } else if vals.len() == 1 {
        value_text(vals[0])
    } else {
        line_of(vals.drop_last()) + seq![' '] + value_text(vals.last())
    }
}

pub open spec fn native_spec(m: Model, n: LoxFnNative, args: Seq<Val>) -> (Model, Result<Val, Fault>) {
    match n {
        LoxFnNative::Clock => (m, Ok(Val::Number(m.now))),
        LoxFnNative::Print => (Model { output: m.output.push(line_of(args)), ..m }, Ok(Val::Nil)),
    }
}

/// Binds the parameters from the `i`-th on to the arguments at the same
/// places in environment `f`; parameters without an argument stay unbound and
/// arguments without a parameter are dropped.
pub open spec fn bind_params_spec(m: Model, f: usize, params: Seq<Ident>, args: Seq<Val>, i: int) -> Model
    decreases params.len() - i,
{
    if i < 0 || i >= params.len() || i >= args.len() {
        m
    } else {
        bind_params_spec(define_spec(m, f, params[i].0@, args[i]), f, params, args, i + 1)
    }
}

/// The function value that a declaration or a lambda creates in `env`.
pub open spec fn closure_val(params: Rc<Vec<Ident>>, body: Rc<Vec<Stmt>>, env: usize) -> Val {
    Val::Callable(Callable::User(LoxFn { params, body, closure: env }))
}

pub open spec fn eval_spec(m: Model, env: usize, e: Expr, fuel: nat) -> (Model, Result<Val, Fault>)
    decreases fuel, 1nat,
{
    if fuel == 0 {
        (m, Err(Fault::OutOfFuel))
    } else {
        let f = (fuel - 1) as nat;
        match e {
            Expr::Literal(l) => (m, Ok(literal_val(l))),
            Expr::Unary(op, x) => {
                let (m1, r) = eval_spec(m, env, *x, f);
                match r {
                    Ok(v) => (m1, unary_spec(op, v)),
                    Err(err) => (m1, Err(err)),
                }
            },
            Expr::Binary(a, op, b) => {
                let (m1, ra) = eval_spec(m, env, *a, f);
                match ra {
                    Ok(va) => {
                        let (m2, rb) = eval_spec(m1, env, *b, f);
                        match rb {
                            Ok(vb) => (m2, binary_spec(op, va, vb)),
                            Err(err) => (m2, Err(err)),
                        }
                    },
                    Err(err) => (m1, Err(err)),
                }
            },
            Expr::Grouping(x) => eval_spec(m, env, *x, f),
            Expr::Variable(id) => (m, get_spec(m, env, id.0@)),
            Expr::Assign(id, x) => {
                let (m1, r) = eval_spec(m, env, *x, f);
                match r {
                    Ok(v) => set_spec(m1, env, id.0@, v),
                    Err(err) => (m1, Err(err)),
                }
            },
            Expr::Logic(a, op, b) => logic_spec(m, env, *a, op, *b, fuel),
            Expr::Call(callee, args) => call_expr_spec(m, env, *callee, args@, fuel),
            Expr::Lambda(params, body) => (m, Ok(closure_val(params, body, env))),
        }
    }
}

/// `and` / `or`: the left operand decides; the result is an operand's own
/// value, not a boolean made from it.
pub open spec fn logic_spec(m: Model, env: usize, a: Expr, op: OpLogic, b: Expr, fuel: nat) -> (Model, Result<Val, Fault>)
    decreases fuel, 0nat,
{
    if fuel == 0 {
        (m, Err(Fault::OutOfFuel))
    } else {
        let f = (fuel - 1) as nat;
        let (m1, ra) = eval_spec(m, env, a, f);
        match ra {
            Ok(va) => if truthy(va) == (op is Or) {
                (m1, Ok(va))
            } else {
                eval_spec(m1, env, b, f)
            },
            Err(err) => (m1, Err(err)),
        }
    }
}

/// A call expression: the callee, then the arguments left to right, then
/// the call itself.
pub open spec fn call_expr_spec(m: Model, env: usize, callee: Expr, args: Seq<Expr>, fuel: nat) -> (Model, Result<Val, Fault>)
    decreases fuel, 0nat,
{
    if fuel == 0 {
        (m, Err(Fault::OutOfFuel))
    } else {
        let f = (fuel - 1) as nat;
        let (m1, rc) = eval_spec(m, env, callee, f);
        match rc {
            Ok(vc) => {
                let (m2, ra) = eval_args_spec(m1, env, args, 0, Seq::empty(), f);
                match ra {
                    Ok(vals) => match vc {
                        Val::Callable(c) => call_spec(m2, c, vals, f),
                        _ => (m2, Err(Fault::TypeMismatch(Mismatch::NotCallable))),
                    },
                    Err(err) => (m2, Err(err)),
                }
            },
            Err(err) => (m1, Err(err)),
        }
    }
}

/// Evaluates the arguments from the `i`-th on, left to right, after the
/// values `acc` of those before.
pub open spec fn eval_args_spec(m: Model, env: usize, args: Seq<Expr>, i: int, acc: Seq<Val>, fuel: nat) -> (Model, Result<Seq<Val>, Fault>)
    decreases fuel, args.len() - i + 1,
{
    if i < 0 || i >= args.len() {
        (m, Ok(acc))
    } else {
        let (m1, r) = eval_spec(m, env, args[i], fuel);
        match r {
            Ok(v) => eval_args_spec(m1, env, args, i + 1, acc.push(v), fuel),
            Err(err) => (m1, Err(err)),
        }
    }
}

/// Invokes a callable. A user function runs its body in a fresh environment
/// under its closure; a `return` there gives the call's value, and running
/// off the end gives `nil`.
pub open spec fn call_spec(m: Model, c: Callable, args: Seq<Val>, fuel: nat) -> (Model, Result<Val, Fault>)
    decreases fuel, 0nat,
{
    match c {
        Callable::Native(n) => native_spec(m, n, args),
        Callable::User(func) => if fuel == 0 {
            (m, Err(Fault::OutOfFuel))
        } else {
            let (m1, fr) = wrap_spec(m, func.closure);
            let m2 = bind_params_spec(m1, fr, func.params@, args, 0);
            let (m3, r) = exec_list_spec(m2, fr, func.body@, 0, (fuel - 1) as nat);
            match r {
                Ok(_) => (m3, Ok(Val::Nil)),
                Err(Fault::Return(v)) => (m3, Ok(v)),
                Err(err) => (m3, Err(err)),
            }
        },
    }
}

pub open spec fn exec_stmt_spec(m: Model, env: usize, s: Stmt, fuel: nat) -> (Model, Result<(), Fault>)
    decreases fuel, 1nat,
{
    if fuel == 0 {
        (m, Err(Fault::OutOfFuel))
    } else {
        let f = (fuel - 1) as nat;
        match s {
            Stmt::Var(id, init) => var_spec(m, env, id, init, fuel),
            Stmt::If(c, t, e) => if_spec(m, env, *c, *t, e, fuel),
            Stmt::Expression(x) => {
                let (m1, r) = eval_spec(m, env, *x, f);
                match r {
                    Ok(_) => (m1, Ok(())),
                    Err(err) => (m1, Err(err)),
                }
            },
            Stmt::Block(stmts) => {
                let (m1, inner) = wrap_spec(m, env);
                exec_list_spec(m1, inner, stmts@, 0, f)
            },
            Stmt::While(c, body) => while_spec(m, env, *c, *body, f),
            Stmt::Function(id, params, body) => (define_spec(m, env, id.0@, closure_val(params, body, env)), Ok(())),
            Stmt::Return(x) => {
                let (m1, r) = match x {
                    Some(x) => eval_spec(m, env, *x, f),
                    None => (m, Ok(Val::Nil)),
                };
                match r {
                    Ok(v) => (m1, Err(Fault::Return(v))),
                    Err(err) => (m1, Err(err)),
                }
            },
        }
    }
}

/// A variable declaration: the initializer (or `nil`), then the binding in
/// `env` itself.
pub open spec fn var_spec(m: Model, env: usize, id: Ident, init: Option<Box<Expr>>, fuel: nat) -> (Model, Result<(), Fault>)
    decreases fuel, 0nat,
{
    if fuel == 0 {
        (m, Err(Fault::OutOfFuel))
    } else {
        let (m1, r) = match init {
            Some(x) => eval_spec(m, env, *x, (fuel - 1) as nat),
            None => (m, Ok(Val::Nil)),
        };
        match r {
            Ok(v) => (define_spec(m1, env, id.0@, v), Ok(())),
            Err(err) => (m1, Err(err)),
        }
    }
}

/// A conditional: the `then` branch runs only when the condition is exactly
/// `true`; any other value runs the `else` branch, if there is one.
pub open spec fn if_spec(m: Model, env: usize, c: Expr, t: Stmt, e: Option<Box<Stmt>>, fuel: nat) -> (Model, Result<(), Fault>)
    decreases fuel, 0nat,
{
    if fuel == 0 {
        (m, Err(Fault::OutOfFuel))
    } else {
        let f = (fuel - 1) as nat;
        let (m1, r) = eval_spec(m, env, c, f);
        match r {
            Ok(v) => if v == Val::Boolean(true) {
                exec_stmt_spec(m1, env, t, f)
            } else {
                match e {
                    Some(s2) => exec_stmt_spec(m1, env, *s2, f),
                    None => (m1, Ok(())),
                }
            },
            Err(err) => (m1, Err(err)),
        }
    }
}

/// Runs `body` while `c` is truthy, one unit of fuel per round.
pub open spec fn while_spec(m: Model, env: usize, c: Expr, body: Stmt, fuel: nat) -> (Model, Result<(), Fault>)
    decreases fuel, 0nat,
{
    if fuel == 0 {
        (m, Err(Fault::OutOfFuel))
    } else {
        let f = (fuel - 1) as nat;
        let (m1, r) = eval_spec(m, env, c, f);
        match r {
            Ok(v) => if truthy(v) {
                let (m2, rb) = exec_stmt_spec(m1, env, body, f);
                match rb {
                    Ok(_) => while_spec(m2, env, c, body, f),
                    Err(err) => (m2, Err(err)),
                }
            } else {
                (m1, Ok(()))
            },
            Err(err) => (m1, Err(err)),
        }
    }
}

/// Runs the statements from the `i`-th on. Before each variable declaration
/// the current environment is replaced by a fresh child of it, so that the
/// declaration and everything after it in the list run one layer deeper.
pub open spec fn exec_list_spec(m: Model, env: usize, stmts: Seq<Stmt>, i: int, fuel: nat) -> (Model, Result<(), Fault>)
    decreases fuel, stmts.len() - i + 1,
{
    if i < 0 || i >= stmts.len() {
        (m, Ok(()))
    } else {
        let (m1, e1) = if stmts[i] is Var { wrap_spec(m, env) } else { (m, env) };
        let (m2, r) = exec_stmt_spec(m1, e1, stmts[i], fuel);
        match r {
            Ok(_) => exec_list_spec(m2, e1, stmts, i + 1, fuel),
            Err(err) => (m2, Err(err)),
        }
    }
}

} // verus!
