use crate::interpreter::env::{define_spec, get_spec, lemma_first_match_in, lemma_lookup_in, lookup, set_spec, wrap_spec, Model};
use crate::interpreter::error::Fault;
use crate::interpreter::laws::wf;
use crate::interpreter::semantics::{
    bind_params_spec, call_expr_spec, call_spec, eval_args_spec, eval_spec, exec_list_spec, exec_stmt_spec, if_spec, logic_spec,
    var_spec, while_spec,
};
use crate::interpreter::exec::{run_spec, start_env, MAX_FUEL};
use crate::interpreter::native::LoxFnNative;
use crate::interpreter::value::{Callable, Val};
use crate::parser::ast::{Expr, Ident, OpLogic, Stmt};
use vstd::prelude::*;

verus! {

/// A value refers to no environment beyond the first `n`.
pub open spec fn val_ok(v: Val, n: nat) -> bool {
    v matches Val::Callable(Callable::User(f)) ==> f.closure < n
}

pub open spec fn vals_ok(vs: Seq<Val>, n: nat) -> bool {
    forall|i: int| 0 <= i < vs.len() ==> val_ok(#[trigger] vs[i], n)
}

/// Valid, and every bound value refers only to existing environments.
pub open spec fn state_ok(m: Model) -> bool {
    &&& wf(m)
    &&& forall|i: int| 0 <= i < m.bindings.len() ==> val_ok((#[trigger] m.bindings[i]).2, m.parents.len())
}

/// `m2` is a valid successor of `m`: no environment disappeared.
pub open spec fn ok_after(m: Model, m2: Model) -> bool {
    state_ok(m2) && m.parents.len() <= m2.parents.len()
}

pub open spec fn res_ok<T>(r: Result<T, Fault>, n: nat) -> bool {
    r matches Err(Fault::Return(v)) ==> val_ok(v, n)
}

pub open spec fn val_res_ok(r: Result<Val, Fault>, n: nat) -> bool {
    res_ok(r, n) && (r matches Ok(v) ==> val_ok(v, n))
}

proof fn lemma_ok_wrap(m: Model, f: usize)
    requires
        state_ok(m),
    ensures
        ok_after(m, wrap_spec(m, f).0),
        wrap_spec(m, f).1 < wrap_spec(m, f).0.parents.len(),
        wrap_spec(m, f).0.parents.len() == m.parents.len() + 1,
{
    let m1 = wrap_spec(m, f).0;
    assert forall|e: int| 0 <= e < m1.parents.len() implies match #[trigger] m1.parents[e] {
        Some(p) => p < e,
        None => true,
    } by {
        if e < m.parents.len() {
            assert(m1.parents[e] == m.parents[e]);
        }
    }
}

proof fn lemma_ok_define(m: Model, f: usize, name: Seq<char>, v: Val)
    requires
        state_ok(m),
        f < m.parents.len(),
        val_ok(v, m.parents.len()),
    ensures
        ok_after(m, define_spec(m, f, name, v)),
        define_spec(m, f, name, v).parents == m.parents,
{
    lemma_first_match_in(m.bindings, f, name, 0);
    let m1 = define_spec(m, f, name, v);
    assert forall|i: int| 0 <= i < m1.bindings.len() implies (#[trigger] m1.bindings[i]).0 < m1.parents.len()
        && val_ok(m1.bindings[i].2, m1.parents.len()) by {
        if i < m.bindings.len() && m1.bindings[i] != (f, name, v) {
            assert(m1.bindings[i] == m.bindings[i]);
        }
    }
}

proof fn lemma_ok_set(m: Model, f: usize, name: Seq<char>, v: Val)
    requires
        state_ok(m),
        val_ok(v, m.parents.len()),
    ensures
        ok_after(m, set_spec(m, f, name, v).0),
        val_res_ok(set_spec(m, f, name, v).1, set_spec(m, f, name, v).0.parents.len()),
{
    lemma_lookup_in(m, f, name);
    let m1 = set_spec(m, f, name, v).0;
    if let Some(k) = lookup(m, f, name) {
        assert forall|i: int| 0 <= i < m1.bindings.len() implies (#[trigger] m1.bindings[i]).0 < m1.parents.len()
            && val_ok(m1.bindings[i].2, m1.parents.len()) by {
            if i != k {
                assert(m1.bindings[i] == m.bindings[i]);
            }
        }
    }
}

proof fn lemma_ok_get(m: Model, f: usize, name: Seq<char>)
    requires
        state_ok(m),
    ensures
        val_res_ok(get_spec(m, f, name), m.parents.len()),
{
    lemma_lookup_in(m, f, name);
}

proof fn lemma_ok_bind(m: Model, f: usize, params: Seq<Ident>, args: Seq<Val>, i: int)
    requires
        state_ok(m),
        f < m.parents.len(),
        vals_ok(args, m.parents.len()),
    ensures
        ok_after(m, bind_params_spec(m, f, params, args, i)),
        bind_params_spec(m, f, params, args, i).parents == m.parents,
    decreases params.len() - i,
{
    if 0 <= i < params.len() && i < args.len() {
        lemma_ok_define(m, f, params[i].0@, args[i]);
        lemma_ok_bind(define_spec(m, f, params[i].0@, args[i]), f, params, args, i + 1);
    }
}

proof fn lemma_ok_eval(m: Model, env: usize, e: Expr, fuel: nat)
    requires
        state_ok(m),
        env < m.parents.len(),
    ensures
        ok_after(m, eval_spec(m, env, e, fuel).0),
        val_res_ok(eval_spec(m, env, e, fuel).1, eval_spec(m, env, e, fuel).0.parents.len()),
    decreases fuel, 1nat,
{
    if fuel > 0 {
        let f = (fuel - 1) as nat;
        match e {
            Expr::Unary(_, x) => {
                lemma_ok_eval(m, env, *x, f);
            },
            Expr::Binary(a, _, b) => {
                lemma_ok_eval(m, env, *a, f);
                lemma_ok_eval(eval_spec(m, env, *a, f).0, env, *b, f);
            },
            Expr::Grouping(x) => {
                lemma_ok_eval(m, env, *x, f);
            },
            Expr::Variable(id) => {
                lemma_ok_get(m, env, id.0@);
            },
            Expr::Assign(id, x) => {
                lemma_ok_eval(m, env, *x, f);
                let (m1, r) = eval_spec(m, env, *x, f);
                if let Ok(v) = r {
                    lemma_ok_set(m1, env, id.0@, v);
                }
            },
            Expr::Logic(a, op, b) => {
                lemma_ok_logic(m, env, *a, op, *b, fuel);
            },
            Expr::Call(callee, args) => {
                lemma_ok_call_expr(m, env, *callee, args@, fuel);
            },
            _ => {},
        }
    }
}

proof fn lemma_ok_logic(m: Model, env: usize, a: Expr, op: OpLogic, b: Expr, fuel: nat)
    requires
        state_ok(m),
        env < m.parents.len(),
    ensures
        ok_after(m, logic_spec(m, env, a, op, b, fuel).0),
        val_res_ok(logic_spec(m, env, a, op, b, fuel).1, logic_spec(m, env, a, op, b, fuel).0.parents.len()),
    decreases fuel, 0nat,
{
    if fuel > 0 {
        let f = (fuel - 1) as nat;
        lemma_ok_eval(m, env, a, f);
        lemma_ok_eval(eval_spec(m, env, a, f).0, env, b, f);
    }
}

proof fn lemma_ok_call_expr(m: Model, env: usize, callee: Expr, args: Seq<Expr>, fuel: nat)
    requires
        state_ok(m),
        env < m.parents.len(),
    ensures
        ok_after(m, call_expr_spec(m, env, callee, args, fuel).0),
        val_res_ok(call_expr_spec(m, env, callee, args, fuel).1, call_expr_spec(m, env, callee, args, fuel).0.parents.len()),
    decreases fuel, 0nat,
{
    if fuel > 0 {
        let f = (fuel - 1) as nat;
        lemma_ok_eval(m, env, callee, f);
        let (m1, rc) = eval_spec(m, env, callee, f);
        if let Ok(vc) = rc {
            lemma_ok_args(m1, env, args, 0, Seq::empty(), f);
            let (m2, ra) = eval_args_spec(m1, env, args, 0, Seq::empty(), f);
            if let Ok(vals) = ra {
                if let Val::Callable(c) = vc {
                    lemma_ok_call(m2, c, vals, f);
                }
            }
        }
    }
}

proof fn lemma_ok_args(m: Model, env: usize, args: Seq<Expr>, i: int, acc: Seq<Val>, fuel: nat)
    requires
        state_ok(m),
        env < m.parents.len(),
        vals_ok(acc, m.parents.len()),
    ensures
        ok_after(m, eval_args_spec(m, env, args, i, acc, fuel).0),
        res_ok(eval_args_spec(m, env, args, i, acc, fuel).1, eval_args_spec(m, env, args, i, acc, fuel).0.parents.len()),
        eval_args_spec(m, env, args, i, acc, fuel).1 matches Ok(vs) ==> vals_ok(vs, eval_args_spec(m, env, args, i, acc, fuel).0.parents.len()),
    decreases fuel, args.len() - i + 1,
{
    if 0 <= i < args.len() {
        lemma_ok_eval(m, env, args[i], fuel);
        let (m1, r) = eval_spec(m, env, args[i], fuel);
        if let Ok(v) = r {
            assert(vals_ok(acc.push(v), m1.parents.len())) by {
                assert forall|j: int| 0 <= j < acc.push(v).len() implies val_ok(#[trigger] acc.push(v)[j], m1.parents.len()) by {
                    if j < acc.len() {
                        assert(acc.push(v)[j] == acc[j]);
                    }
                }
            }
            lemma_ok_args(m1, env, args, i + 1, acc.push(v), fuel);
        }
    }
}

proof fn lemma_ok_call(m: Model, c: Callable, args: Seq<Val>, fuel: nat)
    requires
        state_ok(m),
        val_ok(Val::Callable(c), m.parents.len()),
        vals_ok(args, m.parents.len()),
    ensures
        ok_after(m, call_spec(m, c, args, fuel).0),
        val_res_ok(call_spec(m, c, args, fuel).1, call_spec(m, c, args, fuel).0.parents.len()),
    decreases fuel, 0nat,
{
    if let Callable::User(func) = c {
        if fuel > 0 {
            lemma_ok_wrap(m, func.closure);
            let (m1, fr) = wrap_spec(m, func.closure);
            lemma_ok_bind(m1, fr, func.params@, args, 0);
            let m2 = bind_params_spec(m1, fr, func.params@, args, 0);
            lemma_ok_list(m2, fr, func.body@, 0, (fuel - 1) as nat);
        }
    }
}

proof fn lemma_ok_stmt(m: Model, env: usize, s: Stmt, fuel: nat)
    requires
        state_ok(m),
        env < m.parents.len(),
    ensures
        ok_after(m, exec_stmt_spec(m, env, s, fuel).0),
        res_ok(exec_stmt_spec(m, env, s, fuel).1, exec_stmt_spec(m, env, s, fuel).0.parents.len()),
    decreases fuel, 1nat,
{
    if fuel > 0 {
        let f = (fuel - 1) as nat;
        match s {
            Stmt::Var(id, init) => {
                lemma_ok_var(m, env, id, init, fuel);
            },
            Stmt::If(c, t, e) => {
                lemma_ok_if(m, env, *c, *t, e, fuel);
            },
            Stmt::Expression(x) => {
                lemma_ok_eval(m, env, *x, f);
            },
            Stmt::Block(stmts) => {
                lemma_ok_wrap(m, env);
                let (m1, inner) = wrap_spec(m, env);
                lemma_ok_list(m1, inner, stmts@, 0, f);
            },
            Stmt::While(c, body) => {
                lemma_ok_while(m, env, *c, *body, f);
            },
            Stmt::Function(id, params, body) => {
                lemma_ok_define(m, env, id.0@, Val::Callable(Callable::User(crate::interpreter::value::LoxFn { params, body, closure: env })));
            },
            Stmt::Return(x) => {
                if let Some(x) = x {
                    lemma_ok_eval(m, env, *x, f);
                }
            },
        }
    }
}

proof fn lemma_ok_var(m: Model, env: usize, id: Ident, init: Option<Box<Expr>>, fuel: nat)
    requires
        state_ok(m),
        env < m.parents.len(),
    ensures
        ok_after(m, var_spec(m, env, id, init, fuel).0),
        res_ok(var_spec(m, env, id, init, fuel).1, var_spec(m, env, id, init, fuel).0.parents.len()),
    decreases fuel, 0nat,
{
    if fuel > 0 {
        match init {
            Some(x) => {
                lemma_ok_eval(m, env, *x, (fuel - 1) as nat);
                let (m1, r) = eval_spec(m, env, *x, (fuel - 1) as nat);
                if let Ok(v) = r {
                    lemma_ok_define(m1, env, id.0@, v);
                }
            },
            None => {
                lemma_ok_define(m, env, id.0@, Val::Nil);
            },
        }
    }
}

proof fn lemma_ok_if(m: Model, env: usize, c: Expr, t: Stmt, e: Option<Box<Stmt>>, fuel: nat)
    requires
        state_ok(m),
        env < m.parents.len(),
    ensures
        ok_after(m, if_spec(m, env, c, t, e, fuel).0),
        res_ok(if_spec(m, env, c, t, e, fuel).1, if_spec(m, env, c, t, e, fuel).0.parents.len()),
    decreases fuel, 0nat,
{
    if fuel > 0 {
        let f = (fuel - 1) as nat;
        lemma_ok_eval(m, env, c, f);
        let m1 = eval_spec(m, env, c, f).0;
        lemma_ok_stmt(m1, env, t, f);
        if let Some(s2) = e {
            lemma_ok_stmt(m1, env, *s2, f);
        }
    }
}

proof fn lemma_ok_while(m: Model, env: usize, c: Expr, body: Stmt, fuel: nat)
    requires
        state_ok(m),
        env < m.parents.len(),
    ensures
        ok_after(m, while_spec(m, env, c, body, fuel).0),
        res_ok(while_spec(m, env, c, body, fuel).1, while_spec(m, env, c, body, fuel).0.parents.len()),
    decreases fuel, 0nat,
{
    if fuel > 0 {
        let f = (fuel - 1) as nat;
        lemma_ok_eval(m, env, c, f);
        let m1 = eval_spec(m, env, c, f).0;
        lemma_ok_stmt(m1, env, body, f);
        let m2 = exec_stmt_spec(m1, env, body, f).0;
        lemma_ok_while(m2, env, c, body, f);
    }
}

proof fn lemma_ok_list(m: Model, env: usize, stmts: Seq<Stmt>, i: int, fuel: nat)
    requires
        state_ok(m),
        env < m.parents.len(),
    ensures
        ok_after(m, exec_list_spec(m, env, stmts, i, fuel).0),
        res_ok(exec_list_spec(m, env, stmts, i, fuel).1, exec_list_spec(m, env, stmts, i, fuel).0.parents.len()),
    decreases fuel, stmts.len() - i + 1,
{
    if 0 <= i < stmts.len() {
        lemma_ok_wrap(m, env);
        let (m1, e1) = if stmts[i] is Var { wrap_spec(m, env) } else { (m, env) };
        lemma_ok_stmt(m1, e1, stmts[i], fuel);
        let m2 = exec_stmt_spec(m1, e1, stmts[i], fuel).0;
        lemma_ok_list(m2, e1, stmts, i + 1, fuel);
    }
}

/// Running a program from a valid state and an existing environment (or a
/// fresh root) leaves a valid state in which every environment that existed
/// still exists, and a stray `return` carries a valid value.
pub proof fn law_run_keeps_valid(m: Model, g_env: Option<usize>, stmts: Seq<Stmt>)
    requires
        state_ok(m),
        g_env matches Some(e) ==> e < m.parents.len(),
    ensures
        ok_after(m, run_spec(m, g_env, stmts).0),
        res_ok(run_spec(m, g_env, stmts).1, run_spec(m, g_env, stmts).0.parents.len()),
{
    if g_env is None {
        lemma_ok_wrap(m, m.parents.len() as usize);
    }
    let (m1, e) = start_env(m, g_env);
    lemma_ok_list(m1, e, stmts, 0, MAX_FUEL as nat);
}

/// Evaluating an expression from a valid state and an existing environment
/// leaves a valid state, and its value refers only to existing environments.
pub proof fn law_eval_keeps_valid(m: Model, env: usize, e: Expr, fuel: nat)
    requires
        state_ok(m),
        env < m.parents.len(),
    ensures
        ok_after(m, eval_spec(m, env, e, fuel).0),
        val_res_ok(eval_spec(m, env, e, fuel).1, eval_spec(m, env, e, fuel).0.parents.len()),
{
    lemma_ok_eval(m, env, e, fuel);
}

/// Binding the natives keeps a state valid.
pub proof fn law_natives_keep_valid(m: Model, env: usize)
    requires
        state_ok(m),
        env < m.parents.len(),
    ensures
        ok_after(
            m,
            define_spec(
                define_spec(m, env, "clock"@, Val::Callable(Callable::Native(LoxFnNative::Clock))),
                env,
                "print"@,
                Val::Callable(Callable::Native(LoxFnNative::Print)),
            ),
        ),
{
    lemma_ok_define(m, env, "clock"@, Val::Callable(Callable::Native(LoxFnNative::Clock)));
    let m1 = define_spec(m, env, "clock"@, Val::Callable(Callable::Native(LoxFnNative::Clock)));
    lemma_ok_define(m1, env, "print"@, Val::Callable(Callable::Native(LoxFnNative::Print)));
}

} // verus!
