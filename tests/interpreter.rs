use lox::interpreter::env::Interp;
use lox::interpreter::error::{ErrorType, Mismatch};
use lox::interpreter::exec::{eval_expr, eval_expr_binary, evaluate, exec};
use lox::interpreter::native::{populate, print_line};
use lox::interpreter::value::{int_to_text, LoxType};
use lox::parser::ast::{Expr, Ident, Literal, OpBinary, OpLogic, OpUnary, Stmt};
use std::rc::Rc;

fn id(s: &str) -> Ident {
    Ident(s.to_string())
}

fn num(n: i64) -> Expr {
    Expr::Literal(Literal::Num(n))
}

fn text(s: &str) -> Expr {
    Expr::Literal(Literal::Str(s.to_string()))
}

fn var(s: &str) -> Expr {
    Expr::Variable(id(s))
}

fn bin(l: Expr, op: OpBinary, r: Expr) -> Expr {
    Expr::Binary(Box::new(l), op, Box::new(r))
}

fn logic(l: Expr, op: OpLogic, r: Expr) -> Expr {
    Expr::Logic(Box::new(l), op, Box::new(r))
}

fn call(f: Expr, args: Vec<Expr>) -> Expr {
    Expr::Call(Box::new(f), args)
}

fn assign(s: &str, e: Expr) -> Expr {
    Expr::Assign(id(s), Box::new(e))
}

fn decl(s: &str, e: Expr) -> Stmt {
    Stmt::Var(id(s), Some(Box::new(e)))
}

fn expr(e: Expr) -> Stmt {
    Stmt::Expression(Box::new(e))
}

fn print(args: Vec<Expr>) -> Stmt {
    expr(call(var("print"), args))
}

fn ret(e: Expr) -> Stmt {
    Stmt::Return(Some(Box::new(e)))
}

fn fun(name: &str, params: &[&str], body: Vec<Stmt>) -> Stmt {
    Stmt::Function(id(name), Rc::new(params.iter().map(|p| id(p)).collect()), Rc::new(body))
}

/// A fresh interpreter with the natives bound in its root environment.
fn setup() -> Interp {
    let mut st = Interp::new();
    populate(&mut st, 0);
    st
}

fn run(stmts: Vec<Stmt>) -> (Interp, Result<(), ErrorType>) {
    let mut st = setup();
    let r = exec(&mut st, Some(0), &stmts);
    (st, r)
}

fn eval(e: Expr) -> Result<LoxType, ErrorType> {
    let mut st = setup();
    eval_expr(&mut st, 0, &e)
}

fn is_num(r: &Result<LoxType, ErrorType>, n: i64) -> bool {
    matches!(r, Ok(LoxType::Number(m)) if *m == n)
}

fn is_bool(r: &Result<LoxType, ErrorType>, b: bool) -> bool {
    matches!(r, Ok(LoxType::Boolean(c)) if *c == b)
}

#[test]
fn later_sibling_sees_declaration() {
    let (st, r) = run(vec![
        decl("a", num(1)),
        decl("b", bin(var("a"), OpBinary::Add, num(1))),
        print(vec![var("b")]),
    ]);
    assert!(r.is_ok());
    assert_eq!(st.output, vec!["2".to_string()]);
}

#[test]
fn block_declaration_gone_after_block() {
    let (st, r) = run(vec![Stmt::Block(vec![decl("a", num(1)), print(vec![var("a")])]), print(vec![var("a")])]);
    assert_eq!(st.output, vec!["1".to_string()]);
    assert!(matches!(r, Err(ErrorType::UndefinedVariable(ref s)) if s == "a"));
}

#[test]
fn earlier_sibling_does_not_see_declaration() {
    let (_, r) = run(vec![fun("f", &[], vec![ret(var("late"))]), expr(call(var("f"), vec![])), decl("late", num(1))]);
    assert!(matches!(r, Err(ErrorType::UndefinedVariable(ref s)) if s == "late"));
}

#[test]
fn closures_share_their_environment() {
    let make = fun(
        "make",
        &[],
        vec![
            decl("n", num(0)),
            fun("inc", &[], vec![expr(assign("n", bin(var("n"), OpBinary::Add, num(1)))), ret(var("n"))]),
            ret(var("inc")),
        ],
    );
    let (st, r) = run(vec![
        make,
        decl("c", call(var("make"), vec![])),
        print(vec![call(var("c"), vec![])]),
        print(vec![call(var("c"), vec![])]),
    ]);
    assert!(r.is_ok());
    assert_eq!(st.output, vec!["1".to_string(), "2".to_string()]);
}

#[test]
fn zero_and_empty_string_are_truthy() {
    assert!(matches!(eval(logic(num(0), OpLogic::And, text("x"))), Ok(LoxType::String(ref s)) if s == "x"));
    assert!(matches!(eval(logic(text(""), OpLogic::Or, num(5))), Ok(LoxType::String(ref s)) if s.is_empty()));
    assert!(is_bool(&eval(Expr::Unary(OpUnary::Not, Box::new(num(0)))), false));
    assert!(is_num(&eval(logic(Expr::Literal(Literal::Nil), OpLogic::Or, num(1))), 1));
    assert!(is_bool(&eval(logic(Expr::Literal(Literal::False), OpLogic::And, var("nowhere"))), false));
}

#[test]
fn if_takes_then_only_on_true() {
    let branch = |c: Expr| {
        Stmt::If(Box::new(c), Box::new(print(vec![text("then")])), Some(Box::new(print(vec![text("else")]))))
    };
    let (st, r) = run(vec![branch(num(1)), branch(Expr::Literal(Literal::True)), branch(Expr::Literal(Literal::Nil))]);
    assert!(r.is_ok());
    assert_eq!(st.output, vec!["else".to_string(), "then".to_string(), "else".to_string()]);
}

#[test]
fn while_goes_by_truthiness() {
    // i starts at 3; the body runs while i is truthy and not yet false.
    let (st, r) = run(vec![
        decl("i", num(3)),
        Stmt::While(
            Box::new(var("i")),
            Box::new(Stmt::Block(vec![
                print(vec![var("i")]),
                expr(assign("i", bin(var("i"), OpBinary::Sub, num(1)))),
                Stmt::If(
                    Box::new(bin(var("i"), OpBinary::Less, num(1))),
                    Box::new(expr(assign("i", Expr::Literal(Literal::False)))),
                    None,
                ),
            ])),
        ),
    ]);
    assert!(r.is_ok());
    assert_eq!(st.output, vec!["3".to_string(), "2".to_string(), "1".to_string()]);
}

#[test]
fn equality_across_kinds_is_false() {
    assert!(is_bool(&eval(bin(num(1), OpBinary::Equal, text("1"))), false));
    assert!(is_bool(&eval(bin(Expr::Literal(Literal::Nil), OpBinary::Equal, Expr::Literal(Literal::Nil))), true));
    assert!(is_bool(&eval(bin(num(1), OpBinary::NotEqual, text("1"))), true));
    assert!(is_bool(&eval(bin(text("ab"), OpBinary::Equal, text("ab"))), true));
    assert!(is_bool(&eval(bin(var("print"), OpBinary::Equal, var("print"))), true));
    assert!(is_bool(&eval(bin(var("print"), OpBinary::Equal, var("clock"))), false));
}

#[test]
fn missing_argument_reads_as_undefined() {
    let (_, r) = run(vec![fun("f", &["a"], vec![ret(var("a"))]), expr(call(var("f"), vec![]))]);
    assert!(matches!(r, Err(ErrorType::UndefinedVariable(ref s)) if s == "a"));
}

#[test]
fn extra_arguments_are_ignored() {
    let (st, r) =
        run(vec![fun("f", &["a"], vec![ret(var("a"))]), print(vec![call(var("f"), vec![num(1), num(2)])])]);
    assert!(r.is_ok());
    assert_eq!(st.output, vec!["1".to_string()]);
}

#[test]
fn direct_recursion_resolves() {
    // fib(n) = n < 2 ? n : fib(n - 1) + fib(n - 2)
    let fib = fun(
        "fib",
        &["n"],
        vec![
            Stmt::If(Box::new(bin(var("n"), OpBinary::Less, num(2))), Box::new(ret(var("n"))), None),
            ret(bin(
                call(var("fib"), vec![bin(var("n"), OpBinary::Sub, num(1))]),
                OpBinary::Add,
                call(var("fib"), vec![bin(var("n"), OpBinary::Sub, num(2))]),
            )),
        ],
    );
    let (st, r) = run(vec![fib, print(vec![call(var("fib"), vec![num(10)])])]);
    assert!(r.is_ok());
    assert_eq!(st.output, vec!["55".to_string()]);
}

#[test]
fn negated_difference_times_two() {
    let e = bin(
        Expr::Unary(OpUnary::Neg, Box::new(Expr::Grouping(Box::new(bin(num(5), OpBinary::Sub, num(3)))))),
        OpBinary::Mul,
        num(2),
    );
    assert!(is_num(&eval(e), -4));
}

#[test]
fn chained_comparisons_with_and() {
    let e = logic(bin(num(1), OpBinary::Less, num(2)), OpLogic::And, bin(num(2), OpBinary::Less, num(3)));
    assert!(is_bool(&eval(e), true));
}

#[test]
fn arithmetic_results() {
    assert!(is_num(&eval(bin(num(7), OpBinary::Div, num(2))), 3));
    assert!(is_num(&eval(bin(num(-7), OpBinary::Div, num(2))), -3));
    assert!(is_num(&eval(bin(num(6), OpBinary::Mul, num(-7))), -42));
    assert!(is_num(&eval(bin(num(2), OpBinary::Add, num(40))), 42));
    assert!(is_bool(&eval(bin(num(2), OpBinary::LessEqual, num(2))), true));
    assert!(is_bool(&eval(bin(num(2), OpBinary::Greater, num(2))), false));
    assert!(is_bool(&eval(bin(num(3), OpBinary::GreaterEqual, num(2))), true));
    assert!(matches!(eval(bin(text("ab"), OpBinary::Add, text("cd"))), Ok(LoxType::String(ref s)) if s == "abcd"));
}

#[test]
fn arithmetic_errors() {
    assert!(matches!(eval(bin(num(1), OpBinary::Div, num(0))), Err(ErrorType::DivisionByZero)));
    assert!(matches!(eval(bin(num(i64::MAX), OpBinary::Add, num(1))), Err(ErrorType::Overflow)));
    assert!(matches!(eval(bin(num(i64::MIN), OpBinary::Div, num(-1))), Err(ErrorType::Overflow)));
    assert!(matches!(eval(Expr::Unary(OpUnary::Neg, Box::new(num(i64::MIN)))), Err(ErrorType::Overflow)));
}

#[test]
fn type_mismatches() {
    let neg = |e: Expr| eval(Expr::Unary(OpUnary::Neg, Box::new(e)));
    assert!(matches!(neg(text("a")), Err(ErrorType::TypeMismatch(Mismatch::NegateString))));
    assert!(matches!(neg(Expr::Literal(Literal::Nil)), Err(ErrorType::TypeMismatch(Mismatch::NegateNil))));
    assert!(matches!(neg(Expr::Literal(Literal::True)), Err(ErrorType::TypeMismatch(Mismatch::NegateBoolean))));
    assert!(matches!(neg(var("clock")), Err(ErrorType::TypeMismatch(Mismatch::NegateFunction))));
    assert!(matches!(
        eval(bin(num(1), OpBinary::Add, text("a"))),
        Err(ErrorType::TypeMismatch(Mismatch::AddMismatch))
    ));
    assert!(matches!(
        eval(bin(num(1), OpBinary::Less, text("a"))),
        Err(ErrorType::TypeMismatch(Mismatch::CompareNonNumbers))
    ));
    assert!(matches!(
        eval(bin(text("a"), OpBinary::Sub, num(1))),
        Err(ErrorType::TypeMismatch(Mismatch::SubNonNumbers))
    ));
    assert!(matches!(
        eval(bin(text("a"), OpBinary::Mul, num(1))),
        Err(ErrorType::TypeMismatch(Mismatch::MulNonNumbers))
    ));
    assert!(matches!(
        eval(bin(text("a"), OpBinary::Div, num(1))),
        Err(ErrorType::TypeMismatch(Mismatch::DivNonNumbers))
    ));
    assert!(matches!(eval(call(num(1), vec![])), Err(ErrorType::TypeMismatch(Mismatch::NotCallable))));
}

#[test]
fn assignment_needs_existing_binding() {
    assert!(matches!(eval(assign("x", num(1))), Err(ErrorType::UndefinedVariable(ref s)) if s == "x"));
    let (st, r) = run(vec![decl("x", num(1)), Stmt::Block(vec![expr(assign("x", num(5)))]), print(vec![var("x")])]);
    assert!(r.is_ok());
    assert_eq!(st.output, vec!["5".to_string()]);
}

#[test]
fn redefinition_in_same_environment_overwrites() {
    let mut st = setup();
    st.define(0, &"x".to_string(), LoxType::Number(1));
    st.define(0, &"x".to_string(), LoxType::Number(2));
    assert!(is_num(&st.get(0, &"x".to_string()), 2));
    assert_eq!(st.bindings.len(), 3);
}

#[test]
fn top_level_return_stops_the_run() {
    let (st, r) = run(vec![print(vec![num(1)]), ret(num(7)), print(vec![num(2)])]);
    assert!(matches!(r, Err(ErrorType::Return(LoxType::Number(7)))));
    assert_eq!(st.output, vec!["1".to_string()]);
}

#[test]
fn function_without_return_gives_nil() {
    let (st, r) = run(vec![fun("f", &[], vec![]), print(vec![call(var("f"), vec![])])]);
    assert!(r.is_ok());
    assert_eq!(st.output, vec!["nil".to_string()]);
}

#[test]
fn lambda_captures_its_environment() {
    let lam = Expr::Lambda(Rc::new(vec![id("y")]), Rc::new(vec![ret(bin(var("x"), OpBinary::Add, var("y")))]));
    let (st, r) = run(vec![decl("x", num(10)), decl("add", lam), print(vec![call(var("add"), vec![num(5)])])]);
    assert!(r.is_ok());
    assert_eq!(st.output, vec!["15".to_string()]);
}

#[test]
fn print_joins_with_spaces() {
    let (st, r) = run(vec![print(vec![
        Expr::Literal(Literal::Nil),
        Expr::Literal(Literal::True),
        num(-5),
        text("abc"),
        var("print"),
    ])]);
    assert!(r.is_ok());
    assert_eq!(st.output, vec!["nil true -5 abc [native fn]".to_string()]);
    assert_eq!(print_line(&vec![]), "");
}

#[test]
fn fresh_root_without_environment() {
    let mut st = Interp::new();
    let r = exec(&mut st, None, &vec![decl("a", num(1))]);
    assert!(r.is_ok());
    assert_eq!(st.parents.len(), 3);
    assert!(st.get(0, &"a".to_string()).is_err());
}

#[test]
fn clock_reports_the_time_given() {
    let mut st = setup();
    st.now = 1234;
    assert!(is_num(&eval_expr(&mut st, 0, &call(var("clock"), vec![])), 1234));
    st.refresh_clock();
    assert!(st.now > 1_600_000_000);
}

#[test]
fn fuel_bounds_evaluation() {
    let mut st = setup();
    let e = bin(num(1), OpBinary::Add, num(2));
    assert!(matches!(evaluate(&mut st, 0, &e, 1), Err(ErrorType::OutOfFuel)));
    assert!(is_num(&evaluate(&mut st, 0, &e, 2), 3));
}

#[test]
fn integer_text() {
    assert_eq!(int_to_text(0), "0");
    assert_eq!(int_to_text(-123), "-123");
    assert_eq!(int_to_text(i64::MIN), "-9223372036854775808");
    assert_eq!(int_to_text(i64::MAX), "9223372036854775807");
}

#[test]
fn binary_on_values() {
    assert!(is_bool(&eval_expr_binary(LoxType::Nil, &OpBinary::NotEqual, LoxType::Nil), false));
}
