use crate::interpreter::env::{define_spec, lemma_first_match_in, first_match, get_spec, lookup, parents_ok, wrap_spec, Model};
use crate::interpreter::error::Fault;
use crate::interpreter::semantics::{bind_params_spec, binary_spec, closure_val, eval_spec, exec_stmt_spec, if_spec, while_spec};
use crate::interpreter::value::{truthy, values_equal, Val};
use crate::parser::ast::{Expr, Ident, OpBinary, Stmt};
use std::rc::Rc;
use vstd::prelude::*;

verus! {

/// A state is valid when parents are older than their children and every
/// binding lives in an environment that exists.
pub open spec fn wf(m: Model) -> bool {
    &&& parents_ok(m)
    &&& forall|i: int| 0 <= i < m.bindings.len() ==> (#[trigger] m.bindings[i]).0 < m.parents.len()
}

proof fn lemma_first_match_push(b: Seq<(usize, Seq<char>, Val)>, x: (usize, Seq<char>, Val), f: usize, n: Seq<char>, i: int)
    requires
        0 <= i <= b.len(),
    ensures
        first_match(b.push(x), f, n, i) == match first_match(b, f, n, i) {
            Some(j) => Some(j),
            None => if x.0 == f && x.1 == n { Some(b.len() as int) } else { None },
        },
    decreases b.len() - i,
{
    if i < b.len() {
        assert(b.push(x)[i] == b[i]);
        lemma_first_match_push(b, x, f, n, i + 1);
    } else {
        assert(b.push(x)[i] == x);
        assert(first_match(b.push(x), f, n, i + 1) is None);
    }
}

proof fn lemma_first_match_update(b: Seq<(usize, Seq<char>, Val)>, k: int, x: (usize, Seq<char>, Val), f: usize, n: Seq<char>, i: int)
    requires
        0 <= k < b.len(),
        0 <= i,
        x.0 == b[k].0,
        x.1 == b[k].1,
    ensures
        first_match(b.update(k, x), f, n, i) == first_match(b, f, n, i),
    decreases b.len() - i,
{
    if i < b.len() {
        lemma_first_match_update(b, k, x, f, n, i + 1);
    }
}

proof fn lemma_first_match_absent(b: Seq<(usize, Seq<char>, Val)>, f: usize, n: Seq<char>, i: int)
    requires
        forall|j: int| 0 <= j < b.len() ==> (#[trigger] b[j]).0 != f,
    ensures
        first_match(b, f, n, i) is None,
    decreases b.len() - i,
{
    if 0 <= i < b.len() {
        lemma_first_match_absent(b, f, n, i + 1);
    }
}

/// A lookup from an existing environment reads no parent link added later.
proof fn lemma_lookup_parents_push(m: Model, x: Option<usize>, e: usize, n: Seq<char>)
    requires
        e < m.parents.len(),
    ensures
        lookup(Model { parents: m.parents.push(x), ..m }, e, n) == lookup(m, e, n),
    decreases e,
{
    let m2 = Model { parents: m.parents.push(x), ..m };
    assert(m2.parents[e as int] == m.parents[e as int]);
    if let Some(p) = m.parents[e as int] {
        if p < e {
            lemma_lookup_parents_push(m, x, p, n);
        }
    }
}

/// A binding pushed for environment `f` is invisible from every environment
/// older than `f`.
proof fn lemma_lookup_binding_push(m: Model, x: (usize, Seq<char>, Val), e: usize, n: Seq<char>)
    requires
        e < x.0,
    ensures
        lookup(Model { bindings: m.bindings.push(x), ..m }, e, n) == lookup(m, e, n),
    decreases e,
{
    lemma_first_match_push(m.bindings, x, e, n, 0);
    if e < m.parents.len() {
        if let Some(p) = m.parents[e as int] {
            if p < e {
                lemma_lookup_binding_push(m, x, p, n);
            }
        }
    }
}

/// After `define_spec` in `f`, the name seen from `f` is the value defined.
proof fn lemma_define_then_get(m: Model, f: usize, name: Seq<char>, v: Val)
    ensures
        get_spec(define_spec(m, f, name, v), f, name) == Ok::<Val, Fault>(v),
{
    let b = m.bindings;
    let m1 = define_spec(m, f, name, v);
    crate::interpreter::env::lemma_lookup_in(m, f, name);
    match first_match(b, f, name, 0) {
        Some(i) => {
            lemma_first_match_in(b, f, name, 0);
            lemma_first_match_update(b, i, (f, name, v), f, name, 0);
        },
        None => {
            lemma_first_match_push(b, (f, name, v), f, name, 0);
        },
    }
}

/// Sequential scoping: a declaration runs in a fresh child `e1` of the
/// current environment. Everything after it, which runs in `e1` or deeper,
/// sees the new name; no environment that existed before — where the earlier
/// siblings ran, and where the code after the enclosing block runs — sees
/// any change.
pub proof fn law_declaration_scope(m: Model, env: usize, name: Seq<char>, v: Val)
    requires
        wf(m),
        m.parents.len() < usize::MAX,
    ensures
        ({
            let (m1, e1) = wrap_spec(m, env);
            let m2 = define_spec(m1, e1, name, v);
            &&& get_spec(m2, e1, name) == Ok::<Val, Fault>(v)
            &&& forall|e: usize, n: Seq<char>| e < m.parents.len() ==> #[trigger] lookup(m2, e, n) == lookup(m, e, n)
        }),
{
    let (m1, e1) = wrap_spec(m, env);
    let m2 = define_spec(m1, e1, name, v);
    lemma_define_then_get(m1, e1, name, v);
    lemma_first_match_absent(m1.bindings, e1, name, 0);
    assert forall|e: usize, n: Seq<char>| e < m.parents.len() implies #[trigger] lookup(m2, e, n) == lookup(m, e, n) by {
        lemma_lookup_binding_push(m1, (e1, name, v), e, n);
        lemma_lookup_parents_push(m, if env < m.parents.len() { Some(env) } else { None }, e, n);
        assert(m1 == Model { parents: m.parents.push(if env < m.parents.len() { Some(env) } else { None }), ..m });
    }
}

/// Direct recursion resolves: a function declaration binds the name in the
/// environment it captures, so the name is visible there, and from the fresh
/// environment that a call of the function starts in.
pub proof fn law_recursion(m: Model, env: usize, id: Ident, params: Rc<Vec<Ident>>, body: Rc<Vec<Stmt>>, fuel: nat)
    requires
        wf(m),
        env < m.parents.len(),
        m.parents.len() < usize::MAX,
        fuel > 0,
    ensures
        ({
            let f = closure_val(params, body, env);
            let (m1, r) = exec_stmt_spec(m, env, Stmt::Function(id, params, body), fuel);
            let (m2, fr) = wrap_spec(m1, env);
            &&& r == Ok::<(), Fault>(())
            &&& get_spec(m1, env, id.0@) == Ok::<Val, Fault>(f)
            &&& get_spec(m2, fr, id.0@) == Ok::<Val, Fault>(f)
        }),
{
    let name = id.0@;
    let f = closure_val(params, body, env);
    let m1 = define_spec(m, env, name, f);
    lemma_define_then_get(m, env, name, f);
    let (m2, fr) = wrap_spec(m1, env);
    lemma_first_match_in(m.bindings, env, name, 0);
    assert forall|j: int| 0 <= j < m1.bindings.len() implies (#[trigger] m1.bindings[j]).0 != fr by {
        if j < m.bindings.len() {
            assert(m.bindings[j].0 < m.parents.len());
        }
    }
    lemma_first_match_absent(m2.bindings, fr, name, 0);
    lemma_lookup_parents_push(m1, Some(env), env, name);
    assert(m2.parents[fr as int] == Some(env));
}

/// Truthiness: only `nil` and `false` are falsy; `0` and the empty string
/// are truthy.
pub proof fn law_truthiness(v: Val)
    ensures
        truthy(v) <==> !(v is Nil) && v != Val::Boolean(false),
        truthy(Val::Number(0)),
        truthy(Val::Str(Seq::empty())),
        !truthy(Val::Nil),
        !truthy(Val::Boolean(false)),
{
}

/// An `if` runs its `then` branch only on exactly `true`: any other value,
/// truthy or not, runs the `else` branch or nothing.
pub proof fn law_if_needs_true(m: Model, env: usize, c: Expr, t: Stmt, e: Option<Box<Stmt>>, fuel: nat, v: Val)
    requires
        fuel > 0,
        eval_spec(m, env, c, (fuel - 1) as nat).1 == Ok::<Val, Fault>(v),
    ensures
        ({
            let m1 = eval_spec(m, env, c, (fuel - 1) as nat).0;
            if_spec(m, env, c, t, e, fuel) == if v == Val::Boolean(true) {
                exec_stmt_spec(m1, env, t, (fuel - 1) as nat)
            } else {
                match e {
                    Some(s2) => exec_stmt_spec(m1, env, *s2, (fuel - 1) as nat),
                    None => (m1, Ok(())),
                }
            }
        }),
{
}

/// A `while` goes by truthiness: any truthy condition, `0` included, runs
/// the body; a falsy one ends the loop.
pub proof fn law_while_truthy(m: Model, env: usize, c: Expr, body: Stmt, fuel: nat, v: Val)
    requires
        fuel > 0,
        eval_spec(m, env, c, (fuel - 1) as nat).1 == Ok::<Val, Fault>(v),
    ensures
        ({
            let m1 = eval_spec(m, env, c, (fuel - 1) as nat).0;
            while_spec(m, env, c, body, fuel) == if truthy(v) {
                let (m2, rb) = exec_stmt_spec(m1, env, body, (fuel - 1) as nat);
                match rb {
                    Ok(_) => while_spec(m2, env, c, body, (fuel - 1) as nat),
                    Err(err) => (m2, Err(err)),
                }
            } else {
                (m1, Ok(()))
            }
        }),
{
}

/// Two values are of the same kind.
pub open spec fn same_kind(a: Val, b: Val) -> bool {
    ||| (a is Nil && b is Nil)
    ||| (a is Boolean && b is Boolean)
    ||| (a is Number && b is Number)
    ||| (a is Str && b is Str)
    ||| (a is Callable && b is Callable)
}

/// Equality never fails: `==` and `!=` give a boolean for any two values,
/// values of different kinds are unequal, and `nil == nil`.
pub proof fn law_equality_total(a: Val, b: Val)
    ensures
        binary_spec(OpBinary::Equal, a, b) == Ok::<Val, Fault>(Val::Boolean(values_equal(a, b))),
        binary_spec(OpBinary::NotEqual, a, b) == Ok::<Val, Fault>(Val::Boolean(!values_equal(a, b))),
        !same_kind(a, b) ==> binary_spec(OpBinary::Equal, a, b) == Ok::<Val, Fault>(Val::Boolean(false)),
        binary_spec(OpBinary::Equal, Val::Nil, Val::Nil) == Ok::<Val, Fault>(Val::Boolean(true)),
{
}

proof fn lemma_bind_extra_args(m: Model, f: usize, params: Seq<Ident>, args: Seq<Val>, i: int)
    requires
        0 <= i,
        args.len() >= params.len(),
    ensures
        bind_params_spec(m, f, params, args, i) == bind_params_spec(m, f, params, args.take(params.len() as int), i),
    decreases params.len() - i,
{
    if i < params.len() {
        assert(args.take(params.len() as int)[i] == args[i]);
        lemma_bind_extra_args(define_spec(m, f, params[i].0@, args[i]), f, params, args, i + 1);
    }
}

proof fn lemma_bind_extra_params(m: Model, f: usize, params: Seq<Ident>, args: Seq<Val>, i: int)
    requires
        0 <= i,
        params.len() >= args.len(),
    ensures
        bind_params_spec(m, f, params, args, i) == bind_params_spec(m, f, params.take(args.len() as int), args, i),
    decreases args.len() - i,
{
    if i < args.len() {
        assert(params.take(args.len() as int)[i] == params[i]);
        lemma_bind_extra_params(define_spec(m, f, params[i].0@, args[i]), f, params, args, i + 1);
    }
}

/// Arity is unchecked: arguments beyond the parameters are ignored, and
/// parameters beyond the arguments are left unbound, exactly as if they had
/// not been declared.
pub proof fn law_arity_unchecked(m: Model, f: usize, params: Seq<Ident>, args: Seq<Val>)
    ensures
        args.len() >= params.len() ==> bind_params_spec(m, f, params, args, 0)
            == bind_params_spec(m, f, params, args.take(params.len() as int), 0),
        params.len() >= args.len() ==> bind_params_spec(m, f, params, args, 0)
            == bind_params_spec(m, f, params.take(args.len() as int), args, 0),
{
    if args.len() >= params.len() {
        lemma_bind_extra_args(m, f, params, args, 0);
    }
    if params.len() >= args.len() {
        lemma_bind_extra_params(m, f, params, args, 0);
    }
}

} // verus!
