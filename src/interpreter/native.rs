use crate::interpreter::env::{Interp, Model};
use crate::interpreter::error::{res_view, ErrorType};
use crate::interpreter::semantics::{line_of, native_spec};
use crate::interpreter::value::{vals_of, Callable, LoxType, Val};
use vstd::prelude::*;

verus! {

/// The functions the host provides.
pub enum LoxFnNative {
    Clock,
    Print,
}

/// The line `print` writes for `args`.
pub fn print_line(args: &Vec<LoxType>) -> (r: String)
    ensures
        r@ == line_of(vals_of(args@)),
{
    let mut s = String::new();
    let mut i: usize = 0;
    while i < args.len()
        invariant
            i <= args.len(),
            s@ == line_of(vals_of(args@.subrange(0, i as int))),
        decreases args.len() - i,
    {
        proof {
            let pre = vals_of(args@.subrange(0, i as int));
            let next = vals_of(args@.subrange(0, i as int + 1));
            assert(next.drop_last() =~= pre);
            assert(next.last() == args@[i as int]@);
        }
        if i > 0 {
            proof { reveal_strlit(" "); }
            s.append(" ");
        }
        let t = args[i].render();
        s.append(t.as_str());
        i = i + 1;
    }
    proof {
        assert(args@.subrange(0, args@.len() as int) =~= args@);
    }
    s
}

/// The clock: the time the interpreter was last given, in whole seconds.
pub fn clock(st: &Interp, args: &Vec<LoxType>) -> (r: Result<LoxType, ErrorType>)
    ensures
        res_view(r) == Ok::<Val, crate::interpreter::error::Fault>(Val::Number(st@.now)),
{
    Ok(LoxType::Number(st.now))
}

/// Writes the arguments' texts, joined by single spaces, as one line of output.
pub fn print(st: &mut Interp, args: &Vec<LoxType>) -> (r: Result<LoxType, ErrorType>)
    ensures
        final(st)@ == (Model { output: old(st)@.output.push(line_of(vals_of(args@))), ..old(st)@ }),
        res_view(r) == Ok::<Val, crate::interpreter::error::Fault>(Val::Nil),
{
    let line = print_line(args);
    st.output.push(line);
    proof {
        assert(final(st)@.output =~= old(st)@.output.push(line_of(vals_of(args@))));
    }
    Ok(LoxType::Nil)
}

impl LoxFnNative {
    pub fn call(&self, st: &mut Interp, args: &Vec<LoxType>) -> (r: Result<LoxType, ErrorType>)
        ensures
            (final(st)@, res_view(r)) == native_spec(old(st)@, *self, vals_of(args@)),
    {
        match self {
            LoxFnNative::Clock => clock(st, args),
            LoxFnNative::Print => print(st, args),
        }
    }
}

/// Binds `clock` and `print` in environment `env`.
pub fn populate(st: &mut Interp, env: usize)
    ensures
        final(st)@ == crate::interpreter::env::define_spec(
            crate::interpreter::env::define_spec(old(st)@, env, "clock"@, Val::Callable(Callable::Native(LoxFnNative::Clock))),
            env,
            "print"@,
            Val::Callable(Callable::Native(LoxFnNative::Print)),
        ),
{
    proof { reveal_strlit("clock"); reveal_strlit("print"); }
    let c = String::from_str("clock");
    st.define(env, &c, LoxType::Callable(Callable::Native(LoxFnNative::Clock)));
    let p = String::from_str("print");
    st.define(env, &p, LoxType::Callable(Callable::Native(LoxFnNative::Print)));
}

} // verus!
