use crate::interpreter::native::LoxFnNative;
use crate::parser::ast::{Ident, Stmt};
use std::rc::Rc;
use vstd::prelude::*;

verus! {

/// A function written in the language, with the environment it was defined in.
pub struct LoxFn {
    pub params: Rc<Vec<Ident>>,
    pub body: Rc<Vec<Stmt>>,
    /// Index of the captured environment.
    pub closure: usize,
}

pub enum Callable {
    Native(LoxFnNative),
    User(LoxFn),
}

/// A runtime value.
pub enum LoxType {
    Nil,
    Boolean(bool),
    Number(i64),
    String(String),
    Callable(Callable),
}

/// The mathematical picture of a value: text as a sequence of characters.
pub enum Val {
    Nil,
    Boolean(bool),
    Number(i64),
    Str(Seq<char>),
    Callable(Callable),
}

impl View for LoxType {
    type V = Val;

    open spec fn view(&self) -> Val {
        match self {
            LoxType::Nil => Val::Nil,
            LoxType::Boolean(b) => Val::Boolean(*b),
            LoxType::Number(n) => Val::Number(*n),
            LoxType::String(s) => Val::Str(s@),
            LoxType::Callable(c) => Val::Callable(*c),
        }
    }
}

/// Everything is truthy but `nil` and `false`.
pub open spec fn truthy(v: Val) -> bool {
    !(v is Nil || v == Val::Boolean(false))
}

/// Equality of values: `nil` equals only `nil`; numbers, strings and booleans
/// compare by value; values of different kinds are unequal; two native
/// functions are equal when they are the same one, and user functions are
/// equal to nothing.
pub open spec fn values_equal(a: Val, b: Val) -> bool {
    match (a, b) {
        (Val::Nil, Val::Nil) => true,
        (Val::Boolean(x), Val::Boolean(y)) => x == y,
        (Val::Number(x), Val::Number(y)) => x == y,
        (Val::Str(x), Val::Str(y)) => x == y,
        (Val::Callable(Callable::Native(x)), Val::Callable(Callable::Native(y))) => x == y,
        _ => false,
    }
}

pub open spec fn digit_char(d: nat) -> char {
    if d == 0 { '0' } else if d == 1 { '1' } else if d == 2 { '2' } else if d == 3 { '3' }
    else if d == 4 { '4' } else if d == 5 { '5' } else if d == 6 { '6' } else if d == 7 { '7' }
    else if d == 8 { '8' } else { '9' }
}

/// Decimal digits of a natural number, most significant first.
pub open spec fn decimal(n: nat) -> Seq<char>
    decreases n,
{
    if n < 10 {
        seq![digit_char(n)]
    } else {
        decimal(n / 10) + seq![digit_char(n % 10)]
    }
}

/// Decimal form of an integer, with a leading `-` when negative.
pub open spec fn int_text(n: int) -> Seq<char> {
    if n < 0 { seq!['-'] + decimal((-n) as nat) } else { decimal(n as nat) }
}

/// Canonical text of a value, as `print` writes it.
pub open spec fn value_text(v: Val) -> Seq<char> {
    match v {
        Val::Nil => seq!['n', 'i', 'l'],
        Val::Boolean(b) => if b { seq!['t', 'r', 'u', 'e'] } else { seq!['f', 'a', 'l', 's', 'e'] },
        Val::Number(n) => int_text(n as int),
        Val::Str(s) => s,
        Val::Callable(Callable::Native(_)) => seq!['[', 'n', 'a', 't', 'i', 'v', 'e', ' ', 'f', 'n', ']'],
        Val::Callable(Callable::User(_)) => seq!['[', 'f', 'n', ']'],
    }
}

/// The pictures of a sequence of values.
pub open spec fn vals_of(s: Seq<LoxType>) -> Seq<Val> {
    s.map_values(|v: LoxType| v@)
}

impl LoxType {
    /// The canonical text of the value.
    pub fn render(&self) -> (r: String)
        ensures
            r@ == value_text(self@),
    {
        match self {
            LoxType::Nil => {
                proof { reveal_strlit("nil"); }
                String::from_str("nil")
            },
            LoxType::Boolean(b) => if *b {
                proof { reveal_strlit("true"); }
                String::from_str("true")
            } else {
                proof { reveal_strlit("false"); }
                String::from_str("false")
            },
            LoxType::Number(n) => int_to_text(*n),
            LoxType::String(s) => s.clone(),
            LoxType::Callable(Callable::Native(_)) => {
                proof { reveal_strlit("[native fn]"); }
                String::from_str("[native fn]")
            },
            LoxType::Callable(Callable::User(_)) => {
                proof { reveal_strlit("[fn]"); }
                String::from_str("[fn]")
            },
        }
    }

    pub fn is_truthy(&self) -> (r: bool)
        ensures r == truthy(self@),
    {
        match self {
            LoxType::Nil => false,
            LoxType::Boolean(b) => *b,
            _ => true,
        }
    }

    /// Equality that never fails, whatever the kinds of the two values.
    pub fn equals(&self, o: &LoxType) -> (r: bool)
        ensures r == values_equal(self@, o@),
    {
        match (self, o) {
            (LoxType::Nil, LoxType::Nil) => true,
            (LoxType::Boolean(x), LoxType::Boolean(y)) => *x == *y,
            (LoxType::Number(x), LoxType::Number(y)) => *x == *y,
            (LoxType::String(x), LoxType::String(y)) => x.eq(y),
            (LoxType::Callable(Callable::Native(x)), LoxType::Callable(Callable::Native(y))) => {
                match (x, y) {
                    (LoxFnNative::Clock, LoxFnNative::Clock) => true,
                    (LoxFnNative::Print, LoxFnNative::Print) => true,
                    _ => false,
                }
            },
            _ => false,
        }
    }

    /// A copy of the value; function values share their parameters and body.
    pub fn duplicate(&self) -> (r: LoxType)
        ensures r == *self,
    {
        match self {
            LoxType::Nil => LoxType::Nil,
            LoxType::Boolean(b) => LoxType::Boolean(*b),
            LoxType::Number(n) => LoxType::Number(*n),
            LoxType::String(s) => LoxType::String(s.clone()),
            LoxType::Callable(Callable::Native(LoxFnNative::Clock)) => LoxType::Callable(Callable::Native(LoxFnNative::Clock)),
            LoxType::Callable(Callable::Native(LoxFnNative::Print)) => LoxType::Callable(Callable::Native(LoxFnNative::Print)),
            LoxType::Callable(Callable::User(f)) => LoxType::Callable(
                Callable::User(LoxFn { params: f.params.clone(), body: f.body.clone(), closure: f.closure }),
            ),
        }
    }
}

fn digit_str(d: u64) -> (r: &'static str)
    requires d < 10,
    ensures r@ == seq![digit_char(d as nat)],
{
    proof {
        reveal_strlit("0"); reveal_strlit("1"); reveal_strlit("2"); reveal_strlit("3"); reveal_strlit("4");
        reveal_strlit("5"); reveal_strlit("6"); reveal_strlit("7"); reveal_strlit("8"); reveal_strlit("9");
    }
    if d == 0 { "0" } else if d == 1 { "1" } else if d == 2 { "2" } else if d == 3 { "3" }
    else if d == 4 { "4" } else if d == 5 { "5" } else if d == 6 { "6" } else if d == 7 { "7" }
    else if d == 8 { "8" } else { "9" }
}

/// Appends the decimal digits of `n`.
fn push_decimal(s: &mut String, n: u64)
    ensures final(s)@ == old(s)@ + decimal(n as nat),
    decreases n,
{
    if n >= 10 {
        push_decimal(s, n / 10);
    }
    s.append(digit_str(n % 10));
}

/// Decimal text of a natural number.
pub fn nat_to_text(n: u64) -> (r: String)
    ensures
        r@ == decimal(n as nat),
{
    let mut s = String::new();
    push_decimal(&mut s, n);
    s
}

/// Decimal text of an integer.
pub fn int_to_text(n: i64) -> (r: String)
    ensures r@ == int_text(n as int),
{
    let mut s = String::new();
    if n < 0 {
        proof { reveal_strlit("-"); }
        s.append("-");
        let m: u64 = ((-(n + 1)) as u64) + 1;
        push_decimal(&mut s, m);
    } else {
        push_decimal(&mut s, n as u64);
    }
    s
}

} // verus!
