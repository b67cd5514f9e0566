use crate::interpreter::env::{wrap_spec, Interp, Model};
use crate::interpreter::error::{res_view, unit_view, ErrorType, Fault, Mismatch};
use crate::interpreter::semantics::{binary_spec, call_expr_spec, call_spec, eval_args_spec, eval_spec, exec_list_spec, exec_stmt_spec, if_spec, literal_val, logic_spec, unary_spec, var_spec, while_spec, bind_params_spec};
use crate::interpreter::value::{vals_of, Callable, LoxFn, LoxType, Val};
use crate::parser::ast::{Expr, Ident, Literal, OpBinary, OpLogic, OpUnary, Stmt};
use vstd::prelude::*;

verus! {

pub fn eval_expr_literal(literal: &Literal) -> (r: LoxType)
    ensures
        r@ == literal_val(*literal),
{
    match literal {
        Literal::Num(n) => LoxType::Number(*n),
        Literal::Str(s) => LoxType::String(s.clone()),
        Literal::True => LoxType::Boolean(true),
        Literal::False => LoxType::Boolean(false),
        Literal::Nil => LoxType::Nil,
    }
}

/// Applies a unary operator to an evaluated operand.
pub fn eval_expr_unary(op: &OpUnary, value: LoxType) -> (r: Result<LoxType, ErrorType>)
    ensures
        res_view(r) == unary_spec(*op, value@),
{
    match op {
        OpUnary::Not => Ok(LoxType::Boolean(!value.is_truthy())),
        OpUnary::Neg => match value {
            LoxType::Nil => Err(ErrorType::TypeMismatch(Mismatch::NegateNil)),
            LoxType::Boolean(_) => Err(ErrorType::TypeMismatch(Mismatch::NegateBoolean)),
            LoxType::Number(n) => if n == i64::MIN {
                Err(ErrorType::Overflow)
            } else {
                Ok(LoxType::Number(-n))
            },
            LoxType::String(_) => Err(ErrorType::TypeMismatch(Mismatch::NegateString)),
            LoxType::Callable(_) => Err(ErrorType::TypeMismatch(Mismatch::NegateFunction)),
        },
    }
}

fn number_result(r: Option<i64>) -> (res: Result<LoxType, ErrorType>)
    ensures
        res_view(res) == match r {
            Some(n) => Ok(Val::Number(n)),
            None => Err(crate::interpreter::error::Fault::Overflow),
        },
{
    match r {
        Some(n) => Ok(LoxType::Number(n)),
        None => Err(ErrorType::Overflow),
    }
}

/// Applies a binary operator to two evaluated operands.
pub fn eval_expr_binary(l: LoxType, op: &OpBinary, r: LoxType) -> (res: Result<LoxType, ErrorType>)
    ensures
        res_view(res) == binary_spec(*op, l@, r@),
{
    match op {
        OpBinary::Equal => Ok(LoxType::Boolean(l.equals(&r))),
        OpBinary::NotEqual => Ok(LoxType::Boolean(!l.equals(&r))),
        OpBinary::Less | OpBinary::LessEqual | OpBinary::Greater | OpBinary::GreaterEqual => match (l, r) {
            (LoxType::Number(x), LoxType::Number(y)) => {
                let b = match op {
                    OpBinary::Less => x < y,
                    OpBinary::LessEqual => x <= y,
                    OpBinary::Greater => x > y,
                    _ => x >= y,
                };
                Ok(LoxType::Boolean(b))
            },
            _ => Err(ErrorType::TypeMismatch(Mismatch::CompareNonNumbers)),
        },
        OpBinary::Add => match (l, r) {
            (LoxType::Number(x), LoxType::Number(y)) => number_result(x.checked_add(y)),
            (LoxType::String(x), LoxType::String(y)) => Ok(LoxType::String(x.concat(y.as_str()))),
            _ => Err(ErrorType::TypeMismatch(Mismatch::AddMismatch)),
        },
        OpBinary::Sub => match (l, r) {
            (LoxType::Number(x), LoxType::Number(y)) => number_result(x.checked_sub(y)),
            _ => Err(ErrorType::TypeMismatch(Mismatch::SubNonNumbers)),
        },
        OpBinary::Mul => match (l, r) {
            (LoxType::Number(x), LoxType::Number(y)) => number_result(x.checked_mul(y)),
            _ => Err(ErrorType::TypeMismatch(Mismatch::MulNonNumbers)),
        },
        OpBinary::Div => match (l, r) {
            (LoxType::Number(x), LoxType::Number(y)) => if y == 0 {
                Err(ErrorType::DivisionByZero)
            } else {
                number_result(x.checked_div(y))
            },
            _ => Err(ErrorType::TypeMismatch(Mismatch::DivNonNumbers)),
        },
    }
}

/// The budget `exec` and `eval_expr` run with: in practice, no bound.
pub const MAX_FUEL: u64 = 0xffff_ffff_ffff_ffff;

/// The environment a run starts in: the one given, or else a fresh root.
pub open spec fn start_env(m: Model, g_env: Option<usize>) -> (Model, usize) {
    match g_env {
        Some(e) => (m, e),
        None => wrap_spec(m, m.parents.len() as usize),
    }
}

/// The outcome of running `stmts` from `g_env` (or a fresh root).
pub open spec fn run_spec(m: Model, g_env: Option<usize>, stmts: Seq<Stmt>) -> (Model, Result<(), Fault>) {
    let (m1, e) = start_env(m, g_env);
    exec_list_spec(m1, e, stmts, 0, MAX_FUEL as nat)
}

/// Runs a program. Without an environment it runs in a fresh root one. A
/// `return` outside any function stops the run and comes back as
/// `Err(ErrorType::Return(value))`.
pub fn exec(st: &mut Interp, g_env: Option<usize>, stmts: &Vec<Stmt>) -> (r: Result<(), ErrorType>)
    ensures
        (final(st)@, unit_view(r)) == run_spec(old(st)@, g_env, stmts@),
{
    let env = match g_env {
        Some(e) => e,
        None => {
            let len = st.parents.len();
            st.wrap(len)
        },
    };
    exec_stmts(st, env, stmts, MAX_FUEL)
}

/// Evaluates one expression in environment `env`.
pub fn eval_expr(st: &mut Interp, env: usize, expr: &Expr) -> (r: Result<LoxType, ErrorType>)
    ensures
        (final(st)@, res_view(r)) == eval_spec(old(st)@, env, *expr, MAX_FUEL as nat),
{
    evaluate(st, env, expr, MAX_FUEL)
}

/// Evaluates an expression in environment `env` with the given budget.
pub fn evaluate(st: &mut Interp, env: usize, expr: &Expr, fuel: u64) -> (r: Result<LoxType, ErrorType>)
    ensures
        (final(st)@, res_view(r)) == eval_spec(old(st)@, env, *expr, fuel as nat),
    decreases fuel, 1nat,
{
    if fuel == 0 {
        return Err(ErrorType::OutOfFuel);
    }
    let f = fuel - 1;
    match expr {
        Expr::Literal(l) => Ok(eval_expr_literal(l)),
        Expr::Unary(op, x) => match evaluate(st, env, x, f) {
            Ok(v) => eval_expr_unary(op, v),
            Err(e) => Err(e),
        },
        Expr::Binary(a, op, b) => match evaluate(st, env, a, f) {
            Ok(va) => match evaluate(st, env, b, f) {
                Ok(vb) => eval_expr_binary(va, op, vb),
                Err(e) => Err(e),
            },
            Err(e) => Err(e),
        },
        Expr::Grouping(x) => evaluate(st, env, x, f),
        Expr::Variable(id) => st.get(env, &id.0),
        Expr::Assign(id, x) => match evaluate(st, env, x, f) {
            Ok(v) => st.set(env, &id.0, v),
            Err(e) => Err(e),
        },
        Expr::Logic(a, op, b) => eval_expr_logic(st, env, a, op, b, fuel),
        Expr::Call(callee, args) => eval_expr_call(st, env, callee, args, fuel),
        Expr::Lambda(params, body) => Ok(
            LoxType::Callable(Callable::User(LoxFn { params: params.clone(), body: body.clone(), closure: env })),
        ),
    }
}

/// Evaluates `and` / `or`, short-circuiting on the left operand.
fn eval_expr_logic(st: &mut Interp, env: usize, a: &Expr, op: &OpLogic, b: &Expr, fuel: u64) -> (r: Result<LoxType, ErrorType>)
    ensures
        (final(st)@, res_view(r)) == logic_spec(old(st)@, env, *a, *op, *b, fuel as nat),
    decreases fuel, 0nat,
{
    if fuel == 0 {
        return Err(ErrorType::OutOfFuel);
    }
    let f = fuel - 1;
    let va = match evaluate(st, env, a, f) {
        Ok(va) => va,
        Err(e) => {
            return Err(e);
        },
    };
    let is_or = match op {
        OpLogic::Or => true,
        OpLogic::And => false,
    };
    if va.is_truthy() == is_or {
        Ok(va)
    } else {
        evaluate(st, env, b, f)
    }
}

/// Evaluates a call: the callee, the arguments left to right, then the call.
fn eval_expr_call(st: &mut Interp, env: usize, callee: &Expr, args: &Vec<Expr>, fuel: u64) -> (r: Result<LoxType, ErrorType>)
    ensures
        (final(st)@, res_view(r)) == call_expr_spec(old(st)@, env, *callee, args@, fuel as nat),
    decreases fuel, 0nat,
{
    if fuel == 0 {
        return Err(ErrorType::OutOfFuel);
    }
    let f = fuel - 1;
    let c = match evaluate(st, env, callee, f) {
        Ok(c) => c,
        Err(e) => {
            return Err(e);
        },
    };
    let vals = match eval_args(st, env, args, f) {
        Ok(vals) => vals,
        Err(e) => {
            return Err(e);
        },
    };
    match c {
        LoxType::Callable(c) => call_value(st, &c, &vals, f),
        _ => Err(ErrorType::TypeMismatch(Mismatch::NotCallable)),
    }
}

/// Evaluates call arguments left to right, stopping at the first failure.
fn eval_args(st: &mut Interp, env: usize, args: &Vec<Expr>, fuel: u64) -> (r: Result<Vec<LoxType>, ErrorType>)
    ensures
        eval_args_spec(old(st)@, env, args@, 0, Seq::empty(), fuel as nat) == match r {
            Ok(vals) => (final(st)@, Ok(vals_of(vals@))),
            Err(e) => (final(st)@, Err(e@)),
        },
    decreases fuel, args@.len() + 2,
{
    let mut vals: Vec<LoxType> = Vec::new();
    let mut i: usize = 0;
    proof {
        assert(vals_of(vals@) =~= Seq::<Val>::empty());
    }
    while i < args.len()
        invariant
            i <= args.len(),
            eval_args_spec(old(st)@, env, args@, 0, Seq::empty(), fuel as nat)
                == eval_args_spec(st@, env, args@, i as int, vals_of(vals@), fuel as nat),
        decreases args.len() - i,
    {
        match evaluate(st, env, &args[i], fuel) {
            Ok(v) => {
                let ghost pre = vals@;
                vals.push(v);
                proof {
                    assert(vals_of(vals@) =~= vals_of(pre).push(v@));
                }
            },
            Err(e) => {
                return Err(e);
            },
        }
        i = i + 1;
    }
    Ok(vals)
}

/// Binds parameters to arguments place by place in environment `f`.
fn bind_params(st: &mut Interp, f: usize, params: &Vec<Ident>, args: &Vec<LoxType>)
    ensures
        final(st)@ == bind_params_spec(old(st)@, f, params@, vals_of(args@), 0),
{
    let mut i: usize = 0;
    while i < params.len() && i < args.len()
        invariant
            bind_params_spec(old(st)@, f, params@, vals_of(args@), 0)
                == bind_params_spec(st@, f, params@, vals_of(args@), i as int),
        decreases params.len() - i,
    {
        st.define(f, &params[i].0, args[i].duplicate());
        i = i + 1;
    }
}

/// Invokes a callable on evaluated arguments.
fn call_value(st: &mut Interp, c: &Callable, args: &Vec<LoxType>, fuel: u64) -> (r: Result<LoxType, ErrorType>)
    ensures
        (final(st)@, res_view(r)) == call_spec(old(st)@, *c, vals_of(args@), fuel as nat),
    decreases fuel, 0nat,
{
    match c {
        Callable::Native(n) => n.call(st, args),
        Callable::User(func) => {
            if fuel == 0 {
                return Err(ErrorType::OutOfFuel);
            }
            let fr = st.wrap(func.closure);
            bind_params(st, fr, &func.params, args);
            match exec_stmts(st, fr, &func.body, fuel - 1) {
                Ok(()) => Ok(LoxType::Nil),
                Err(ErrorType::Return(v)) => Ok(v),
                Err(e) => Err(e),
            }
        },
    }
}

/// Runs a list of statements in `env`, wrapping a fresh environment before
/// each variable declaration.
fn exec_stmts(st: &mut Interp, env: usize, stmts: &Vec<Stmt>, fuel: u64) -> (r: Result<(), ErrorType>)
    ensures
        (final(st)@, unit_view(r)) == exec_list_spec(old(st)@, env, stmts@, 0, fuel as nat),
    decreases fuel, stmts@.len() + 2,
{
    let mut cur = env;
    let mut i: usize = 0;
    while i < stmts.len()
        invariant
            i <= stmts.len(),
            exec_list_spec(old(st)@, env, stmts@, 0, fuel as nat) == exec_list_spec(st@, cur, stmts@, i as int, fuel as nat),
        decreases stmts.len() - i,
    {
        let s = &stmts[i];
        if let Stmt::Var(_, _) = s {
            cur = st.wrap(cur);
        }
        match exec_stmt(st, cur, s, fuel) {
            Ok(()) => {},
            Err(e) => {
                return Err(e);
            },
        }
        i = i + 1;
    }
    Ok(())
}

fn exec_stmt(st: &mut Interp, env: usize, stmt: &Stmt, fuel: u64) -> (r: Result<(), ErrorType>)
    ensures
        (final(st)@, unit_view(r)) == exec_stmt_spec(old(st)@, env, *stmt, fuel as nat),
    decreases fuel, 1nat,
{
    if fuel == 0 {
        return Err(ErrorType::OutOfFuel);
    }
    let f = fuel - 1;
    match stmt {
        Stmt::Var(id, init) => exec_stmt_var(st, env, id, init, fuel),
        Stmt::If(c, t, e) => exec_stmt_if(st, env, c, t, e, fuel),
        Stmt::Expression(x) => match evaluate(st, env, x, f) {
            Ok(_) => Ok(()),
            Err(e) => Err(e),
        },
        Stmt::Block(stmts) => {
            let inner = st.wrap(env);
            exec_stmts(st, inner, stmts, f)
        },
        Stmt::While(c, body) => exec_stmt_while(st, env, c, body, f),
        Stmt::Function(id, params, body) => {
            let func = LoxType::Callable(Callable::User(LoxFn { params: params.clone(), body: body.clone(), closure: env }));
            st.define(env, &id.0, func);
            Ok(())
        },
        Stmt::Return(x) => {
            let v = match x {
                Some(x) => match evaluate(st, env, x, f) {
                    Ok(v) => v,
                    Err(e) => {
                        return Err(e);
                    },
                },
                None => LoxType::Nil,
            };
            Err(ErrorType::Return(v))
        },
    }
}

fn exec_stmt_var(st: &mut Interp, env: usize, id: &Ident, init: &Option<Box<Expr>>, fuel: u64) -> (r: Result<(), ErrorType>)
    ensures
        (final(st)@, unit_view(r)) == var_spec(old(st)@, env, *id, *init, fuel as nat),
    decreases fuel, 0nat,
{
    if fuel == 0 {
        return Err(ErrorType::OutOfFuel);
    }
    let v = match init {
        Some(x) => match evaluate(st, env, x, fuel - 1) {
            Ok(v) => v,
            Err(e) => {
                return Err(e);
            },
        },
        None => LoxType::Nil,
    };
    st.define(env, &id.0, v);
    Ok(())
}

fn exec_stmt_if(st: &mut Interp, env: usize, c: &Expr, t: &Stmt, e: &Option<Box<Stmt>>, fuel: u64) -> (r: Result<(), ErrorType>)
    ensures
        (final(st)@, unit_view(r)) == if_spec(old(st)@, env, *c, *t, *e, fuel as nat),
    decreases fuel, 0nat,
{
    if fuel == 0 {
        return Err(ErrorType::OutOfFuel);
    }
    let f = fuel - 1;
    let v = match evaluate(st, env, c, f) {
        Ok(v) => v,
        Err(err) => {
            return Err(err);
        },
    };
    match (v, e) {
        (LoxType::Boolean(true), _) => exec_stmt(st, env, t, f),
        (_, Some(s2)) => exec_stmt(st, env, s2, f),
        _ => Ok(()),
    }
}

fn exec_stmt_while(st: &mut Interp, env: usize, c: &Expr, body: &Stmt, fuel: u64) -> (r: Result<(), ErrorType>)
    ensures
        (final(st)@, unit_view(r)) == while_spec(old(st)@, env, *c, *body, fuel as nat),
    decreases fuel, 0nat,
{
    let mut k = fuel;
    loop
        invariant
            k <= fuel,
            while_spec(old(st)@, env, *c, *body, fuel as nat) == while_spec(st@, env, *c, *body, k as nat),
        decreases k,
    {
        if k == 0 {
            return Err(ErrorType::OutOfFuel);
        }
        let f = k - 1;
        match evaluate(st, env, c, f) {
            Ok(v) => {
                if v.is_truthy() {
                    match exec_stmt(st, env, body, f) {
                        Ok(()) => {
                            k = f;
                        },
                        Err(e) => {
                            return Err(e);
                        },
                    }
                } else {
                    return Ok(());
                }
            },
            Err(e) => {
                return Err(e);
            },
        }
    }
}

} // verus!
